use discord_bots::cleanup_bot::command::{
    disable_reply, enable_reply, parse_user_id, purge_step, user_input_is_parsable, PurgeAction,
    PurgeEvent, PurgeState,
};

fn invoked(input: &str) -> PurgeEvent {
    PurgeEvent::Invoked { user_input: input.to_string(), channel_id: 77, interaction_id: 900 }
}

#[test]
fn parse_user_id_reads_ids_and_mentions() {
    assert_eq!(parse_user_id("123456789"), Some(123456789));
    assert_eq!(parse_user_id("<@123>"), Some(123));
    assert_eq!(parse_user_id("<@!123>"), Some(123));
    assert_eq!(parse_user_id("  <@42>  "), Some(42));
    assert_eq!(parse_user_id(" 42 "), Some(42));
}

#[test]
fn parse_user_id_refuses_other_text() {
    assert_eq!(parse_user_id(""), None);
    assert_eq!(parse_user_id("0"), None);
    assert_eq!(parse_user_id("<@0>"), None);
    assert_eq!(parse_user_id("abc"), None);
    assert_eq!(parse_user_id("<#123>"), None);
    assert_eq!(parse_user_id("-5"), None);
    assert_eq!(parse_user_id("18446744073709551616"), None);
}

#[test]
fn parse_user_id_ignores_the_closing_character() {
    // serenity checks neither the closing `>` nor its absence
    assert_eq!(parse_user_id("<@123x"), Some(123));
    assert_eq!(parse_user_id("<@12"), Some(1));
    assert_eq!(parse_user_id("<@1"), None);
}

#[test]
fn non_ascii_after_mention_prefix_is_not_parsable() {
    assert!(!user_input_is_parsable("<@123é"));
    assert!(user_input_is_parsable("<@123>"));
    assert!(user_input_is_parsable("é"));
    assert!(user_input_is_parsable(""));
}

#[test]
fn enable_reply_texts() {
    assert_eq!(enable_reply(5, 1), "Enabled cleanup for <#5>\nRetention policy: **1 day**\n");
    assert_eq!(enable_reply(5, 30), "Enabled cleanup for <#5>\nRetention policy: **30 days**\n");
}

#[test]
fn disable_reply_texts() {
    assert_eq!(disable_reply(9, false), "Disabled cleanup for <#9>");
    assert_eq!(
        disable_reply(9, true),
        "Disabled cleanup for <#9>\n_Cancelled running cleanup task._"
    );
}

#[test]
fn purge_invalid_user_is_answered_and_over() {
    let (state, action) = purge_step(PurgeState::Idle, invoked("nobody"));
    assert!(matches!(state, PurgeState::Finished));
    match action {
        PurgeAction::ReplyEphemeral { content } => {
            assert_eq!(content, "That doesn't look like a valid user ID or mention.")
        }
        _ => panic!("expected an ephemeral reply"),
    }
}

#[test]
fn purge_full_confirmed_flow() {
    let (state, action) = purge_step(PurgeState::Idle, invoked("<@!31>"));
    assert!(matches!(action, PurgeAction::DeferAndScan { user_id: 31, channel_id: 77 }));
    let (state, action) =
        purge_step(state, PurgeEvent::ScanFinished { message_ids: Some(vec![10, 9, 8]) });
    match action {
        PurgeAction::AskConfirmation { content, confirm_id, cancel_id } => {
            assert_eq!(
                content,
                "Found **3** message(s) from <@31> in <#77>.\nDelete them? This cannot be undone.\n"
            );
            assert_eq!(confirm_id, "purge-user-confirm-900");
            assert_eq!(cancel_id, "purge-user-cancel-900");
        }
        _ => panic!("expected a confirmation question"),
    }
    let (state, action) = purge_step(
        state,
        PurgeEvent::ButtonPressed { custom_id: Some("purge-user-confirm-900".to_string()) },
    );
    match action {
        PurgeAction::AnswerPressAndClaim { content, channel_id } => {
            assert_eq!(content, "Deleting 3 message(s)...");
            assert_eq!(channel_id, 77);
        }
        _ => panic!("expected the press to be answered"),
    }
    let (state, action) = purge_step(state, PurgeEvent::ChannelClaim { already_running: false });
    match action {
        PurgeAction::DeleteMessages { channel_id, message_ids } => {
            assert_eq!(channel_id, 77);
            assert_eq!(message_ids, vec![10, 9, 8]);
        }
        _ => panic!("expected the deletion"),
    }
    let (state, action) = purge_step(state, PurgeEvent::DeletionFinished { succeeded: true });
    assert!(matches!(state, PurgeState::Finished));
    match action {
        PurgeAction::ReleaseAndReport { channel_id, report } => {
            assert_eq!(channel_id, 77);
            assert_eq!(report.as_deref(), Some("Deleted 3 message(s) from <@31>."));
        }
        _ => panic!("expected the report"),
    }
}

#[test]
fn purge_failed_deletion_releases_without_report() {
    let state = PurgeState::Deleting { user_id: 1, channel_id: 2, count: 4 };
    let (state, action) = purge_step(state, PurgeEvent::DeletionFinished { succeeded: false });
    assert!(matches!(state, PurgeState::Finished));
    assert!(matches!(action, PurgeAction::ReleaseAndReport { channel_id: 2, report: None }));
}

#[test]
fn purge_with_no_messages_found() {
    let state = PurgeState::Scanning { user_id: 31, channel_id: 77, interaction_id: 1 };
    let (state, action) = purge_step(state, PurgeEvent::ScanFinished { message_ids: Some(vec![]) });
    assert!(matches!(state, PurgeState::Finished));
    match action {
        PurgeAction::ReplyEphemeral { content } => {
            assert_eq!(content, "No messages found from <@31> in this channel.")
        }
        _ => panic!("expected an ephemeral reply"),
    }
}

#[test]
fn purge_scan_failure_fails_the_command() {
    let state = PurgeState::Scanning { user_id: 31, channel_id: 77, interaction_id: 1 };
    let (state, action) = purge_step(state, PurgeEvent::ScanFinished { message_ids: None });
    assert!(matches!(state, PurgeState::Finished));
    assert!(matches!(action, PurgeAction::Fail));
}

fn confirming() -> PurgeState {
    PurgeState::Confirming {
        user_id: 31,
        channel_id: 77,
        message_ids: vec![5],
        cancel_id: "purge-user-cancel-900".to_string(),
    }
}

#[test]
fn purge_cancel_and_timeout_delete_nothing() {
    let (state, action) = purge_step(
        confirming(),
        PurgeEvent::ButtonPressed { custom_id: Some("purge-user-cancel-900".to_string()) },
    );
    assert!(matches!(state, PurgeState::Finished));
    match action {
        PurgeAction::AnswerPress { content } => {
            assert_eq!(content, "Cancelled, no messages were deleted.")
        }
        _ => panic!("expected the cancel answer"),
    }
    let (state, action) = purge_step(confirming(), PurgeEvent::ButtonPressed { custom_id: None });
    assert!(matches!(state, PurgeState::Finished));
    match action {
        PurgeAction::EditQuestion { content } => {
            assert_eq!(content, "Timed out, no messages were deleted.")
        }
        _ => panic!("expected the timeout answer"),
    }
}

#[test]
fn purge_waits_for_a_running_cleanup() {
    let state = PurgeState::Claiming { user_id: 31, channel_id: 77, message_ids: vec![5, 6] };
    let (state, action) = purge_step(state, PurgeEvent::ChannelClaim { already_running: true });
    assert!(matches!(state, PurgeState::Finished));
    match action {
        PurgeAction::EditPressAnswer { content } => assert_eq!(
            content,
            "A cleanup task is already running for this channel, try again shortly."
        ),
        _ => panic!("expected the busy answer"),
    }
}

#[test]
fn purge_ignores_events_out_of_order() {
    let (state, action) = purge_step(PurgeState::Idle, PurgeEvent::ChannelClaim { already_running: false });
    assert!(matches!(state, PurgeState::Idle));
    assert!(matches!(action, PurgeAction::Ignore));
    let (state, action) = purge_step(confirming(), PurgeEvent::DeletionFinished { succeeded: true });
    assert!(matches!(state, PurgeState::Confirming { .. }));
    assert!(matches!(action, PurgeAction::Ignore));
}

#[test]
fn mention_written_by_the_bot_reads_back() {
    for id in [1u64, 31, 123456789012345678, u64::MAX] {
        let mention = discord_bots::text::format_user_mention(id);
        assert!(user_input_is_parsable(&mention));
        assert_eq!(parse_user_id(&mention), Some(id));
    }
}
