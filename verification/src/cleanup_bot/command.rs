//! The `/cleanup` slash commands: `enable`, `disable` and `purge-user`.
//!
//! Talking to Discord is the caller's part; here stand what each command
//! decides and the texts it answers with. `purge-user` runs over several
//! round trips, so it is a state machine: the caller reports each outcome as
//! a [`PurgeEvent`] and performs the [`PurgeAction`] it gets back.

use vstd::prelude::*;

use crate::cleanup_bot::discord::{
    mention_slice_panics, parse_id, parse_user_id_number, parse_user_mention,
    spec_parse_user_mention,
};
use crate::text::{
    is_digit, is_whitespace, lemma_decimal_digits, lemma_parse_decimal_roundtrip,
    lemma_utf8_len_at_least_len, channel_mention, decimal, format_channel_mention, format_user_mention, trim_whitespace,
    trimmed, u64_to_decimal, user_mention,
};

verus! {

/// The user id that `purge-user` reads from its argument: a mention
/// (`<@id>`, `<@!id>`) or a bare id, blanks around it ignored.
pub open spec fn spec_parse_user_id(input: Seq<char>) -> Option<nat> {
    let t = trimmed(input);
    match spec_parse_user_mention(t) {
        Some(u) => Some(u),
        None => parse_id(t),
    }
}

/// A mention written by the bot reads back as the same user: for every user
/// id, `purge-user` given `<@id>` targets that user, and the argument is safe
/// to parse.
pub proof fn lemma_mention_roundtrip(user_id: u64)
    requires
        user_id > 0,
    ensures
        !user_input_panics(user_mention(user_id as nat)),
        spec_parse_user_id(user_mention(user_id as nat)) == Some(user_id as nat),
{
    reveal_strlit("<@");
    reveal_strlit(">");
    reveal_strlit("<@!");
    let d = decimal(user_id as nat);
    let m = user_mention(user_id as nat);
    lemma_decimal_digits(user_id as nat);
    lemma_parse_decimal_roundtrip(user_id as nat, u64::MAX as nat);
    assert(m.len() == d.len() + 3);
    assert(m[0] == '<' && m[1] == '@' && m[2] == d[0] && m[m.len() - 1] == '>');
    assert(is_digit(d[0]));
    assert(!is_whitespace(m[0]) && !is_whitespace(m.last()));
    assert(trimmed(m) == m);
    lemma_utf8_len_at_least_len(m);
    assert(m.subrange(0, 3) != "<@!"@) by {
        assert(m.subrange(0, 3)[2] != "<@!"@[2]);
    }
    assert(m.subrange(0, 2) =~= "<@"@);
    assert(m.subrange(2, m.len() - 1) =~= d);
}

/// Whether reading a user id out of `input` would panic inside `serenity`
/// (see [`mention_slice_panics`]).
pub open spec fn user_input_panics(input: Seq<char>) -> bool {
    mention_slice_panics(trimmed(input))
}

/// Tells whether [`parse_user_id`] may be called on `input`.
pub fn user_input_is_parsable(input: &str) -> (b: bool)
    ensures
        b == !user_input_panics(input@),
{
    let t = trim_whitespace(input);
    let n = t.unicode_len();
    if n >= 2 && t.get_char(0) == '<' && t.get_char(1) == '@' {
        (t.get_char(n - 1) as u32) < 0x80
    } else {
        true
    }
}

/// Parses a user id from either a raw numeric id or a `<@id>`/`<@!id>`
/// mention, so that users who have left the server can still be targeted.
pub fn parse_user_id(input: &str) -> (r: Option<u64>)
    requires
        !user_input_panics(input@),
    ensures
        r matches Some(u) ==> spec_parse_user_id(input@) == Some(u as nat),
        r is None ==> spec_parse_user_id(input@) is None,
{
    let trimmed_input = trim_whitespace(input);
    match parse_user_mention(trimmed_input) {
        Some(u) => Some(u),
        None => parse_user_id_number(trimmed_input),
    }
}

/// The answer of `/cleanup enable`.
pub open spec fn enabled_text(channel_id: nat, policy_days: nat) -> Seq<char> {
    "Enabled cleanup for "@ + channel_mention(channel_id) + "\nRetention policy: **"@ + decimal(
        policy_days,
    ) + " "@ + (if policy_days == 1 {
        "day"@
    } else {
        "days"@
    }) + "**\n"@
}

/// Builds the answer of `/cleanup enable` for the retention that was stored.
pub fn enable_reply(channel_id: u64, policy_days: u32) -> (s: String)
    ensures
        s@ == enabled_text(channel_id as nat, policy_days as nat),
{
    let mut s = String::from_str("Enabled cleanup for ");
    s.append(format_channel_mention(channel_id).as_str());
    s.append("\nRetention policy: **");
    s.append(u64_to_decimal(policy_days as u64).as_str());
    s.append(" ");
    if policy_days == 1 {
        s.append("day");
    } else {
        s.append("days");
    }
    s.append("**\n");
    s
}

/// The answer of `/cleanup disable`.
pub open spec fn disabled_text(channel_id: nat, was_running: bool) -> Seq<char> {
    "Disabled cleanup for "@ + channel_mention(channel_id) + (if was_running {
        "\n_Cancelled running cleanup task._"@
    } else {
        Seq::empty()
    })
}

/// Builds the answer of `/cleanup disable`; `was_running` tells whether a
/// cleanup task of the channel was cancelled.
pub fn disable_reply(channel_id: u64, was_running: bool) -> (s: String)
    ensures
        s@ == disabled_text(channel_id as nat, was_running),
{
    let mut s = String::from_str("Disabled cleanup for ");
    s.append(format_channel_mention(channel_id).as_str());
    if was_running {
        s.append("\n_Cancelled running cleanup task._");
    }
    s
}

/// Answer to an argument that is neither an id nor a mention.
pub open spec fn invalid_user_text() -> Seq<char> {
    "That doesn't look like a valid user ID or mention."@
}

/// Answer when the user has no message in the channel.
pub open spec fn no_messages_text(user_id: nat) -> Seq<char> {
    "No messages found from "@ + user_mention(user_id) + " in this channel."@
}

/// The confirmation question.
pub open spec fn confirmation_text(count: nat, user_id: nat, channel_id: nat) -> Seq<char> {
    "Found **"@ + decimal(count) + "** message(s) from "@ + user_mention(user_id) + " in "@
        + channel_mention(channel_id) + ".\nDelete them? This cannot be undone.\n"@
}

/// Custom id of the confirm button of interaction `interaction_id`.
pub open spec fn confirm_button_id(interaction_id: nat) -> Seq<char> {
    "purge-user-confirm-"@ + decimal(interaction_id)
}

/// Custom id of the cancel button of interaction `interaction_id`.
pub open spec fn cancel_button_id(interaction_id: nat) -> Seq<char> {
    "purge-user-cancel-"@ + decimal(interaction_id)
}

/// Shown when nobody pressed a button in time.
pub open spec fn timed_out_text() -> Seq<char> {
    "Timed out, no messages were deleted."@
}

/// Shown when the cancel button was pressed.
pub open spec fn cancelled_text() -> Seq<char> {
    "Cancelled, no messages were deleted."@
}

/// Shown while the messages are being deleted.
pub open spec fn deleting_text(count: nat) -> Seq<char> {
    "Deleting "@ + decimal(count) + " message(s)..."@
}

/// Shown when a cleanup task of the channel holds it already.
pub open spec fn already_running_text() -> Seq<char> {
    "A cleanup task is already running for this channel, try again shortly."@
}

/// Shown once the messages were deleted.
pub open spec fn deleted_text(count: nat, user_id: nat) -> Seq<char> {
    "Deleted "@ + decimal(count) + " message(s) from "@ + user_mention(user_id) + "."@
}

/// Where a `purge-user` command stands.
pub enum PurgeState {
    /// Nothing has happened yet.
    Idle,
    /// The channel history is being scanned for the user's messages.
    Scanning { user_id: u64, channel_id: u64, interaction_id: u64 },
    /// The confirmation question is shown; `cancel_id` is its cancel button.
    Confirming { user_id: u64, channel_id: u64, message_ids: Vec<u64>, cancel_id: String },
    /// Deletion was confirmed; the channel must be claimed from cleanup tasks.
    Claiming { user_id: u64, channel_id: u64, message_ids: Vec<u64> },
    /// The messages are being deleted.
    Deleting { user_id: u64, channel_id: u64, count: usize },
    /// The command is over.
    Finished,
}

/// What happened since the last step of a `purge-user` command.
pub enum PurgeEvent {
    /// The command was invoked with `user_input` in `channel_id`.
    Invoked { user_input: String, channel_id: u64, interaction_id: u64 },
    /// The scan is over: the ids of the user's messages, newest first, or
    /// `None` when fetching the history failed.
    ScanFinished { message_ids: Option<Vec<u64>> },
    /// A button of the question was pressed, or `None` after the timeout.
    ButtonPressed { custom_id: Option<String> },
    /// Whether a cleanup task was already running in the channel; when it was
    /// not, the caller has registered the command in its place.
    ChannelClaim { already_running: bool },
    /// Deleting the messages succeeded or failed.
    DeletionFinished { succeeded: bool },
}

/// What the caller does next for a `purge-user` command.
pub enum PurgeAction {
    /// Sends an ephemeral reply; the command is over.
    ReplyEphemeral { content: String },
    /// Defers the reply and scans the channel for the user's messages.
    DeferAndScan { user_id: u64, channel_id: u64 },
    /// Sends the ephemeral question with a danger-styled `Confirm` button and a
    /// secondary `Cancel` button, then waits up to a minute for the invoking
    /// user to press one.
    AskConfirmation { content: String, confirm_id: String, cancel_id: String },
    /// Replaces the question by `content` and removes its buttons; over.
    EditQuestion { content: String },
    /// Answers the button press by replacing the question with `content`
    /// without buttons; the command is over.
    AnswerPress { content: String },
    /// Answers the press like [`PurgeAction::AnswerPress`], then checks whether
    /// a cleanup task runs in `channel_id` and registers the command if not.
    AnswerPressAndClaim { content: String, channel_id: u64 },
    /// Edits the answer of the press to `content`; the command is over.
    EditPressAnswer { content: String },
    /// Deletes the messages, with the rate limits of deletion.
    DeleteMessages { channel_id: u64, message_ids: Vec<u64> },
    /// Releases the channel; then edits the answer of the press to `report`,
    /// or fails the command when `report` is `None`.
    ReleaseAndReport { channel_id: u64, report: Option<String> },
    /// Fails the command.
    Fail,
    /// The event does not belong to this state; nothing to do.
    Ignore,
}

fn no_messages_reply(user_id: u64) -> (s: String)
    ensures
        s@ == no_messages_text(user_id as nat),
{
    let mut s = String::from_str("No messages found from ");
    s.append(format_user_mention(user_id).as_str());
    s.append(" in this channel.");
    s
}

fn confirmation_reply(count: usize, user_id: u64, channel_id: u64) -> (s: String)
    ensures
        s@ == confirmation_text(count as nat, user_id as nat, channel_id as nat),
{
    let mut s = String::from_str("Found **");
    s.append(u64_to_decimal(count as u64).as_str());
    s.append("** message(s) from ");
    s.append(format_user_mention(user_id).as_str());
    s.append(" in ");
    s.append(format_channel_mention(channel_id).as_str());
    s.append(".\nDelete them? This cannot be undone.\n");
    s
}

fn button_id(prefix: &str, interaction_id: u64) -> (s: String)
    ensures
        s@ == prefix@ + decimal(interaction_id as nat),
{
    let mut s = String::from_str(prefix);
    s.append(u64_to_decimal(interaction_id).as_str());
    s
}

fn deleting_reply(count: usize) -> (s: String)
    ensures
        s@ == deleting_text(count as nat),
{
    let mut s = String::from_str("Deleting ");
    s.append(u64_to_decimal(count as u64).as_str());
    s.append(" message(s)...");
    s
}

fn deleted_reply(count: usize, user_id: u64) -> (s: String)
    ensures
        s@ == deleted_text(count as nat, user_id as nat),
{
    let mut s = String::from_str("Deleted ");
    s.append(u64_to_decimal(count as u64).as_str());
    s.append(" message(s) from ");
    s.append(format_user_mention(user_id).as_str());
    s.append(".");
    s
}

/// What one step of `purge-user` gives: `r` is the next state and the action
/// for `event` in `state`.
pub open spec fn purge_step_result(
    state: PurgeState,
    event: PurgeEvent,
    r: (PurgeState, PurgeAction),
) -> bool {
    match (state, event) {
        (PurgeState::Idle, PurgeEvent::Invoked { user_input, channel_id, interaction_id }) => {
            match spec_parse_user_id(user_input@) {
                None => {
                    &&& r.0 is Finished
                    &&& r.1 matches PurgeAction::ReplyEphemeral { content }
                    &&& content@ == invalid_user_text()
                },
                Some(u) => r.0 == (PurgeState::Scanning {
                    user_id: u as u64,
                    channel_id,
                    interaction_id,
                }) && r.1 == (PurgeAction::DeferAndScan { user_id: u as u64, channel_id }),
            }
        },
        (
            PurgeState::Scanning { user_id, channel_id, interaction_id },
            PurgeEvent::ScanFinished { message_ids },
        ) => match message_ids {
            None => r.0 is Finished && r.1 is Fail,
            Some(ids) => if ids@.len() == 0 {
                {
                    &&& r.0 is Finished
                    &&& r.1 matches PurgeAction::ReplyEphemeral { content }
                    &&& content@ == no_messages_text(user_id as nat)
                }
            } else {
                &&& r.0 matches PurgeState::Confirming {
                    user_id: u,
                    channel_id: c,
                    message_ids: m,
                    cancel_id: k,
                }
                &&& u == user_id && c == channel_id && m@ == ids@
                &&& k@ == cancel_button_id(interaction_id as nat)
                &&& r.1 matches PurgeAction::AskConfirmation { content, confirm_id, cancel_id }
                &&& content@ == confirmation_text(ids@.len(), user_id as nat, channel_id as nat)
                &&& confirm_id@ == confirm_button_id(interaction_id as nat)
                &&& cancel_id@ == cancel_button_id(interaction_id as nat)
            },
        },
        (
            PurgeState::Confirming { user_id, channel_id, message_ids, cancel_id },
            PurgeEvent::ButtonPressed { custom_id },
        ) => match custom_id {
            None => {
                &&& r.0 is Finished
                &&& r.1 matches PurgeAction::EditQuestion { content }
                &&& content@ == timed_out_text()
            },
            Some(pressed) => if pressed@ == cancel_id@ {
                {
                    &&& r.0 is Finished
                    &&& r.1 matches PurgeAction::AnswerPress { content }
                    &&& content@ == cancelled_text()
                }
            } else {
                &&& r.0 matches PurgeState::Claiming { user_id: u, channel_id: c, message_ids: m }
                &&& u == user_id && c == channel_id && m@ == message_ids@
                &&& r.1 matches PurgeAction::AnswerPressAndClaim { content, channel_id: c2 }
                &&& c2 == channel_id
                &&& content@ == deleting_text(message_ids@.len())
            },
        },
        (
            PurgeState::Claiming { user_id, channel_id, message_ids },
            PurgeEvent::ChannelClaim { already_running },
        ) => if already_running {
            {
                &&& r.0 is Finished
                &&& r.1 matches PurgeAction::EditPressAnswer { content }
                &&& content@ == already_running_text()
            }
        } else {
            &&& r.0 == (PurgeState::Deleting {
                user_id,
                channel_id,
                count: message_ids@.len() as usize,
            })
            &&& r.1 matches PurgeAction::DeleteMessages { channel_id: c, message_ids: m }
            &&& c == channel_id && m@ == message_ids@
        },
        (
            PurgeState::Deleting { user_id, channel_id, count },
            PurgeEvent::DeletionFinished { succeeded },
        ) => {
            &&& r.0 is Finished
            &&& r.1 matches PurgeAction::ReleaseAndReport { channel_id: c, report }
            &&& c == channel_id
            &&& if succeeded {
                report matches Some(t) && t@ == deleted_text(count as nat, user_id as nat)
            } else {
                report is None
            }
        },
        _ => r.0 == state && r.1 is Ignore,
    }
}

/// Whether `states`, `events` and `actions` are a run of `purge-user` from
/// its start: step `k` takes `events[k]` in `states[k]` to `states[k + 1]`
/// with the action `actions[k]`, as [`purge_step`] does.
pub open spec fn purge_run(
    states: Seq<PurgeState>,
    events: Seq<PurgeEvent>,
    actions: Seq<PurgeAction>,
) -> bool {
    &&& states.len() == events.len() + 1
    &&& actions.len() == events.len()
    &&& states[0] is Idle
    &&& forall|k: int|
        0 <= k < events.len() ==> #[trigger] purge_step_result(
            states[k],
            events[k],
            (states[k + 1], actions[k]),
        )
}

/// Whether step `j` of a run took a press, on the confirmation question, of
/// a button other than its cancel button, and answered it before claiming
/// the channel.
pub open spec fn confirmed_at(
    states: Seq<PurgeState>,
    events: Seq<PurgeEvent>,
    actions: Seq<PurgeAction>,
    j: int,
) -> bool {
    &&& states[j] matches PurgeState::Confirming { cancel_id, .. }
    &&& events[j] matches PurgeEvent::ButtonPressed { custom_id: Some(pressed) }
    &&& pressed@ != cancel_id@
    &&& actions[j] is AnswerPressAndClaim
}

/// A run can be claiming the channel only after a confirming press.
proof fn lemma_claiming_was_confirmed(
    states: Seq<PurgeState>,
    events: Seq<PurgeEvent>,
    actions: Seq<PurgeAction>,
    m: int,
)
    requires
        purge_run(states, events, actions),
        0 <= m <= events.len(),
        states[m] is Claiming,
    ensures
        exists|j: int| 0 <= j < m && #[trigger] confirmed_at(states, events, actions, j),
    decreases m,
{
    let k = m - 1;
    assert(purge_step_result(states[k], events[k], (states[k + 1], actions[k])));
    if states[k] is Claiming {
        lemma_claiming_was_confirmed(states, events, actions, k);
    } else {
        assert(confirmed_at(states, events, actions, k));
    }
}

/// Over a whole run of `purge-user`, messages are deleted only after the
/// confirmation question was answered with a press of a button other than
/// its cancel button, and only at the step where the claim of the channel
/// found no cleanup task running.
pub proof fn lemma_purge_deletes_only_after_confirmation(
    states: Seq<PurgeState>,
    events: Seq<PurgeEvent>,
    actions: Seq<PurgeAction>,
    k: int,
)
    requires
        purge_run(states, events, actions),
        0 <= k < events.len(),
        actions[k] is DeleteMessages,
    ensures
        states[k] is Claiming,
        events[k] matches PurgeEvent::ChannelClaim { already_running: false },
        exists|j: int| 0 <= j < k && #[trigger] confirmed_at(states, events, actions, j),
{
    assert(purge_step_result(states[k], events[k], (states[k + 1], actions[k])));
    lemma_claiming_was_confirmed(states, events, actions, k);
}

/// Once a run of `purge-user` is over (answered, timed out, cancelled,
/// refused or done), it stays over and every later event is ignored; in
/// particular nothing more is deleted.
pub proof fn lemma_finished_run_stays_finished(
    states: Seq<PurgeState>,
    events: Seq<PurgeEvent>,
    actions: Seq<PurgeAction>,
    j: int,
    m: int,
)
    requires
        purge_run(states, events, actions),
        0 <= j <= m <= events.len(),
        states[j] is Finished,
    ensures
        states[m] is Finished,
        m < events.len() ==> actions[m] is Ignore,
    decreases m - j,
{
    if m > j {
        let k = m - 1;
        lemma_finished_run_stays_finished(states, events, actions, j, k);
        assert(purge_step_result(states[k], events[k], (states[k + 1], actions[k])));
    }
    if m < events.len() {
        assert(purge_step_result(states[m], events[m], (states[m + 1], actions[m])));
    }
}

/// Whether `event` can be handed to [`purge_step`]: an invocation whose user
/// argument would make `serenity` panic cannot.
pub open spec fn purge_event_ok(event: PurgeEvent) -> bool {
    event matches PurgeEvent::Invoked { user_input, .. } ==> !user_input_panics(user_input@)
}

/// One step of `purge-user`: from the state and what happened, the next state
/// and what to do.
pub fn purge_step(state: PurgeState, event: PurgeEvent) -> (r: (PurgeState, PurgeAction))
    requires
        purge_event_ok(event),
    ensures
        r.1 is DeleteMessages ==> state is Claiming && event matches PurgeEvent::ChannelClaim {
            already_running: false,
        },
        r.0 is Claiming && !(state is Claiming) ==> state is Confirming && event matches PurgeEvent::ButtonPressed {
            custom_id: Some(_),
        },
        purge_step_result(state, event, r),
{
    match (state, event) {
        (PurgeState::Idle, PurgeEvent::Invoked { user_input, channel_id, interaction_id }) => {
            match parse_user_id(user_input.as_str()) {
                None => (
                    PurgeState::Finished,
                    PurgeAction::ReplyEphemeral {
                        content: String::from_str(
                            "That doesn't look like a valid user ID or mention.",
                        ),
                    },
                ),
                Some(u) => (
                    PurgeState::Scanning { user_id: u, channel_id, interaction_id },
                    PurgeAction::DeferAndScan { user_id: u, channel_id },
                ),
            }
        },
        (
            PurgeState::Scanning { user_id, channel_id, interaction_id },
            PurgeEvent::ScanFinished { message_ids },
        ) => match message_ids {
            None => (PurgeState::Finished, PurgeAction::Fail),
            Some(ids) => {
                if ids.len() == 0 {
                    (
                        PurgeState::Finished,
                        PurgeAction::ReplyEphemeral { content: no_messages_reply(user_id) },
                    )
                } else {
                    let content = confirmation_reply(ids.len(), user_id, channel_id);
                    let confirm_id = button_id("purge-user-confirm-", interaction_id);
                    let cancel_id = button_id("purge-user-cancel-", interaction_id);
                    let kept_cancel_id = cancel_id.clone();
                    (
                        PurgeState::Confirming {
                            user_id,
                            channel_id,
                            message_ids: ids,
                            cancel_id: kept_cancel_id,
                        },
                        PurgeAction::AskConfirmation { content, confirm_id, cancel_id },
                    )
                }
            },
        },
        (
            PurgeState::Confirming { user_id, channel_id, message_ids, cancel_id },
            PurgeEvent::ButtonPressed { custom_id },
        ) => match custom_id {
            None => (
                PurgeState::Finished,
                PurgeAction::EditQuestion {
                    content: String::from_str("Timed out, no messages were deleted."),
                },
            ),
            Some(pressed) => {
                if pressed == cancel_id {
                    (
                        PurgeState::Finished,
                        PurgeAction::AnswerPress {
                            content: String::from_str("Cancelled, no messages were deleted."),
                        },
                    )
                } else {
                    let content = deleting_reply(message_ids.len());
                    (
                        PurgeState::Claiming { user_id, channel_id, message_ids },
                        PurgeAction::AnswerPressAndClaim { content, channel_id },
                    )
                }
            },
        },
        (
            PurgeState::Claiming { user_id, channel_id, message_ids },
            PurgeEvent::ChannelClaim { already_running },
        ) => {
            if already_running {
                (
                    PurgeState::Finished,
                    PurgeAction::EditPressAnswer {
                        content: String::from_str(
                            "A cleanup task is already running for this channel, try again shortly.",
                        ),
                    },
                )
            } else {
                let count = message_ids.len();
                (
                    PurgeState::Deleting { user_id, channel_id, count },
                    PurgeAction::DeleteMessages { channel_id, message_ids },
                )
            }
        },
        (
            PurgeState::Deleting { user_id, channel_id, count },
            PurgeEvent::DeletionFinished { succeeded },
        ) => {
            let content = if succeeded {
                Some(deleted_reply(count, user_id))
            } else {
                None
            };
            (PurgeState::Finished, PurgeAction::ReleaseAndReport { channel_id, report: content })
        },
        (state, _) => (state, PurgeAction::Ignore),
    }
}

} // verus!
