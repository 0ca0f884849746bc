use discord_bots::cleanup_bot::backup::queue::{BackupQueue, BackupStatus};
use discord_bots::cleanup_bot::cleanup::purge::UserScan;
use discord_bots::cleanup_bot::cleanup::queue::{
    attachment_download_path, classify_messages, expired_page, filter_expired_messages,
    retention_cutoff,
};
use discord_bots::cleanup_bot::cloud_storage::build_relative_remote_path;
use discord_bots::cleanup_bot::cleanup::task::{
    backup_job_step, deletion_step, enqueue_downloads, plan_deletion, plan_deletion_at,
    plan_deletion_from,
    BackupJobAction, BackupJobEvent, BackupJobState, CleanupPhase, CleanupRun, CleanupStep,
    DeletionStep, DownloadedFile,
};
use discord_bots::cleanup_bot::clock::{UtcNow, MIN_UTC_SECONDS};
use discord_bots::cleanup_bot::discord::DISCORD_EPOCH_MILLIS;

fn snowflake(unix_millis: u64) -> u64 {
    (unix_millis - DISCORD_EPOCH_MILLIS) << 22
}

const CUTOFF_SECS: i64 = 1_700_000_000;

fn young(k: u64) -> u64 {
    snowflake(1_700_000_100_000 + k)
}

fn older(k: u64) -> u64 {
    snowflake(1_600_000_000_000 + k)
}

#[test]
fn snowflakes_agree_with_serenity() {
    let id = young(0);
    let created = serenity::all::MessageId::new(id).created_at();
    assert_eq!(created.timestamp_millis(), 1_700_000_100_000);
}

#[test]
fn plan_bulk_and_one_by_one() {
    let ids = vec![young(3), young(2), young(1), older(0)];
    let plan = plan_deletion_at(&ids, CUTOFF_SECS, 0);
    assert_eq!(plan.cutoff_secs, CUTOFF_SECS);
    assert_eq!(plan.bulk_chunks, vec![vec![young(3), young(2), young(1)]]);
    // any message left for one-by-one deletion sends the whole batch that way
    assert_eq!(plan.singles, ids);
}

#[test]
fn plan_all_young_is_bulk_only() {
    let ids = vec![young(2), young(1)];
    let plan = plan_deletion_at(&ids, CUTOFF_SECS, 0);
    assert_eq!(plan.bulk_chunks, vec![ids.clone()]);
    assert!(plan.singles.is_empty());
}

#[test]
fn plan_single_young_message_is_not_bulk() {
    let ids = vec![young(1)];
    let plan = plan_deletion_at(&ids, CUTOFF_SECS, 0);
    assert!(plan.bulk_chunks.is_empty());
    assert_eq!(plan.singles, ids);
    let ids = vec![older(2), older(1)];
    let plan = plan_deletion_at(&ids, CUTOFF_SECS, 0);
    assert!(plan.bulk_chunks.is_empty());
    assert_eq!(plan.singles, ids);
}

#[test]
fn plan_chunks_by_one_hundred() {
    let ids: Vec<u64> = (0..150u64).map(young).collect();
    let plan = plan_deletion_at(&ids, CUTOFF_SECS, 0);
    assert_eq!(plan.bulk_chunks.len(), 2);
    assert_eq!(plan.bulk_chunks[0], ids[..100].to_vec());
    assert_eq!(plan.bulk_chunks[1], ids[100..].to_vec());
    assert!(plan.singles.is_empty());
}

#[test]
fn plan_cutoff_is_strict() {
    // created exactly at the cutoff: not younger, so not bulk
    let at_cutoff = snowflake(CUTOFF_SECS as u64 * 1000);
    let plan = plan_deletion_at(&vec![at_cutoff, young(1)], CUTOFF_SECS, 0);
    assert!(plan.bulk_chunks.is_empty());
    let plan = plan_deletion_at(&vec![at_cutoff, young(1)], CUTOFF_SECS - 1, 999_999_999);
    assert_eq!(plan.bulk_chunks.len(), 1);
}

#[test]
fn plan_of_nothing() {
    let plan = plan_deletion_at(&Vec::new(), CUTOFF_SECS, 0);
    assert!(plan.bulk_chunks.is_empty());
    assert!(plan.singles.is_empty());
}

#[test]
fn plan_now_uses_a_cutoff_fourteen_days_back() {
    let now = chrono::Utc::now().timestamp();
    let fresh = snowflake(now as u64 * 1000);
    let plan = plan_deletion(&vec![fresh, fresh + 1]);
    assert!(plan.cutoff_secs <= now - 1_209_600 + 5 && plan.cutoff_secs >= now - 1_209_600 - 5);
    assert_eq!(plan.bulk_chunks.len(), 1);
    assert!(plan.singles.is_empty());
}

fn ids_desc(from: u64, count: u64) -> Vec<u64> {
    (0..count).map(|k| from - k).collect()
}

#[test]
fn run_with_nothing_expired_saves_the_cursor_of_the_end() {
    let mut run: CleanupRun<()> = CleanupRun::new(Some(5000));
    match run.next_step(false) {
        CleanupStep::Fetch { before } => assert_eq!(before, Some(5000)),
        _ => panic!("expected a fetch"),
    }
    run.on_batch(&ids_desc(4999, 30), Vec::new());
    assert!(run.reached_end);
    match run.next_step(false) {
        CleanupStep::SaveCursor { cursor } => assert_eq!(cursor, None),
        _ => panic!("expected the cursor to be saved"),
    }
    assert!(matches!(run.phase, CleanupPhase::Finished));
}

#[test]
fn run_stops_after_ten_full_pages() {
    let mut run: CleanupRun<()> = CleanupRun::new(None);
    let mut top = 1_000_000u64;
    for round in 0..10 {
        match run.next_step(false) {
            CleanupStep::Fetch { before } => {
                if round == 0 {
                    assert_eq!(before, None);
                } else {
                    assert_eq!(before, Some(top + 1));
                }
            }
            _ => panic!("expected a fetch"),
        }
        run.on_batch(&ids_desc(top, 100), Vec::new());
        top -= 100;
    }
    match run.next_step(false) {
        CleanupStep::SaveCursor { cursor } => assert_eq!(cursor, Some(top + 1)),
        _ => panic!("expected the cursor to be saved"),
    }
}

#[test]
fn run_keeps_at_most_one_hundred_expired() {
    let mut run: CleanupRun<u64> = CleanupRun::new(None);
    let page = ids_desc(10_000, 100);
    let expired: Vec<(u64, u64)> = page[..60].iter().map(|&id| (id, id)).collect();
    run.on_batch(&page, expired);
    assert_eq!(run.expired.len(), 60);
    assert!(!run.collected);
    let page2 = ids_desc(9_900, 100);
    let expired2: Vec<(u64, u64)> = page2[..70].iter().map(|&id| (id, id)).collect();
    run.on_batch(&page2, expired2);
    assert_eq!(run.expired.len(), 100);
    assert!(run.collected);
    // the cursor moves to the oldest message kept
    assert_eq!(run.cursor, Some(page2[39]));
    assert!(matches!(run.next_step(false), CleanupStep::Classify));
    let taken = run.take_expired();
    assert_eq!(taken.len(), 100);
    run.on_classified(true, true);
    assert!(matches!(run.next_step(false), CleanupStep::DeleteMessages));
    assert!(matches!(run.next_step(false), CleanupStep::BackUpMedia));
    match run.next_step(false) {
        CleanupStep::SaveCursor { cursor } => assert_eq!(cursor, Some(page2[39])),
        _ => panic!("expected the cursor to be saved"),
    }
}

#[test]
fn run_cancelled_does_not_save_the_cursor() {
    let mut run: CleanupRun<()> = CleanupRun::new(Some(7));
    assert!(matches!(run.next_step(true), CleanupStep::Stop));
    assert!(matches!(run.phase, CleanupPhase::Finished));

    let mut run: CleanupRun<()> = CleanupRun::new(None);
    run.on_batch(&ids_desc(50, 10), vec![(50, ()), (49, ())]);
    assert!(matches!(run.next_step(false), CleanupStep::Classify));
    run.take_expired();
    run.on_classified(true, false);
    assert!(matches!(run.next_step(true), CleanupStep::Stop));
}

#[test]
fn run_with_only_backups() {
    let mut run: CleanupRun<()> = CleanupRun::new(None);
    run.on_batch(&vec![9, 8], vec![(8, ())]);
    assert!(matches!(run.next_step(false), CleanupStep::Classify));
    run.take_expired();
    run.on_classified(false, true);
    assert!(matches!(run.next_step(false), CleanupStep::BackUpMedia));
    match run.next_step(false) {
        CleanupStep::SaveCursor { cursor } => assert_eq!(cursor, None),
        _ => panic!("expected the cursor to be saved"),
    }
}

#[test]
fn run_on_empty_channel_reaches_the_end() {
    let mut run: CleanupRun<()> = CleanupRun::new(Some(42));
    run.on_batch(&Vec::new(), Vec::new());
    assert!(run.reached_end);
    assert_eq!(run.cursor, Some(42));
    match run.next_step(false) {
        CleanupStep::SaveCursor { cursor } => assert_eq!(cursor, None),
        _ => panic!("expected the cursor to be cleared"),
    }
}

#[test]
fn enqueued_downloads_wait_for_upload() {
    let mut queue = BackupQueue::new();
    let files = vec![
        DownloadedFile { local_path: "dl/2024-01-05/a.png".to_string(), filename: "a.png".to_string() },
        DownloadedFile { local_path: "dl/2024-01-05/b.png".to_string(), filename: "b.png".to_string() },
    ];
    enqueue_downloads(&mut queue, 11, 22, 1_704_412_800, &files);
    assert_eq!(queue.entries.len(), 2);
    let b = queue.get("dl/2024-01-05/b.png").expect("queued");
    assert_eq!(b.message_id, 11);
    assert_eq!(b.channel_id, 22);
    assert_eq!(b.original_filename, "b.png");
    assert_eq!(b.timestamp, 1_704_412_800);
    assert_eq!(b.retry_count, 0);
    assert!(matches!(b.status, BackupStatus::Pending));
    // the same file queued again replaces its entry
    let again = vec![DownloadedFile {
        local_path: "dl/2024-01-05/a.png".to_string(),
        filename: "a.png".to_string(),
    }];
    enqueue_downloads(&mut queue, 12, 22, 0, &again);
    assert_eq!(queue.entries.len(), 2);
    assert_eq!(queue.get("dl/2024-01-05/a.png").unwrap().message_id, 12);
}

#[test]
fn user_scan_collects_matches_until_a_short_page() {
    let mut scan = UserScan::new(7);
    assert_eq!(scan.next_fetch(), Some(None));
    let page: Vec<(u64, u64)> = (0..100u64).map(|k| (1000 - k, if k % 10 == 0 { 7 } else { 8 })).collect();
    scan.on_page(&page);
    assert_eq!(scan.next_fetch(), Some(Some(901)));
    scan.on_page(&vec![(900, 7), (899, 9), (898, 7)]);
    assert_eq!(scan.next_fetch(), None);
    let found = scan.into_matches();
    assert_eq!(found, vec![1000, 990, 980, 970, 960, 950, 940, 930, 920, 910, 900, 898]);
}

#[test]
fn user_scan_stops_on_empty_page_and_after_five_hundred_rounds() {
    let mut scan = UserScan::new(7);
    scan.on_page(&Vec::new());
    assert_eq!(scan.next_fetch(), None);
    assert!(scan.into_matches().is_empty());

    let mut scan = UserScan::new(7);
    let mut top = 10_000_000u64;
    let mut rounds = 0;
    while let Some(_) = scan.next_fetch() {
        let page: Vec<(u64, u64)> = (0..100u64).map(|k| (top - k, 1)).collect();
        scan.on_page(&page);
        top -= 100;
        rounds += 1;
    }
    assert_eq!(rounds, 500);
}

#[test]
fn retention_cutoff_counts_whole_days() {
    assert_eq!(retention_cutoff(1_700_000_000, 30), 1_700_000_000 - 30 * 86_400);
    assert_eq!(retention_cutoff(0, 1), -86_400);
    assert_eq!(retention_cutoff(100, 0), 100);
}

#[test]
fn expired_messages_are_those_before_the_cutoff() {
    let timestamps = vec![500, 99, 100, 101, -3];
    assert_eq!(filter_expired_messages(&timestamps, 100), vec![1, 4]);
    assert!(filter_expired_messages(&Vec::new(), 100).is_empty());
}

#[test]
fn classification_by_attachments() {
    let counts = vec![0, 2, 0, 1, 0];
    let c = classify_messages(&counts);
    assert_eq!(c.delete_jobs, vec![0, 2, 4]);
    assert_eq!(c.backup_jobs, vec![1, 3]);
    let c = classify_messages(&Vec::new());
    assert!(c.delete_jobs.is_empty() && c.backup_jobs.is_empty());
}

#[test]
fn download_paths_sit_in_day_folders() {
    let p = attachment_download_path("./media_backups", 2024, 1, 5, 42, "cat.png");
    assert_eq!(p, "./media_backups/2024-01-05/42_cat.png");
    // the remote layout reads the day back from that folder
    assert_eq!(build_relative_remote_path(&p), "2024/01/05/42_cat.png");
}

#[test]
fn deletion_steps_go_bulk_then_single_and_stop_on_cancel() {
    let ids = vec![young(3), young(2), older(0)];
    let plan = plan_deletion_at(&ids, CUTOFF_SECS, 0);
    assert!(matches!(deletion_step(&plan, 0, false), DeletionStep::BulkDelete { chunk: 0 }));
    for k in 0..3usize {
        match deletion_step(&plan, 1 + k, false) {
            DeletionStep::DeleteOne { message_id } => assert_eq!(message_id, ids[k]),
            _ => panic!("expected a single deletion"),
        }
    }
    assert!(matches!(deletion_step(&plan, 4, false), DeletionStep::Finished));
    assert!(matches!(deletion_step(&plan, 4, true), DeletionStep::Finished));
    assert!(matches!(deletion_step(&plan, 2, true), DeletionStep::Stop));
}

fn one_file() -> Vec<DownloadedFile> {
    vec![DownloadedFile { local_path: "dl/2024-01-05/7_a.png".to_string(), filename: "a.png".to_string() }]
}

#[test]
fn backup_job_deletes_only_once_the_queue_is_saved() {
    let mut queue = BackupQueue::new();
    let (state, action) = backup_job_step(
        &mut queue, 7, 8, 100, BackupJobState::Downloading,
        BackupJobEvent::Downloaded { files: Some(one_file()) },
    );
    assert!(matches!(action, BackupJobAction::SaveQueue));
    assert_eq!(queue.entries.len(), 1);
    assert_eq!(queue.entries[0].message_id, 7);
    let (state, action) =
        backup_job_step(&mut queue, 7, 8, 100, state, BackupJobEvent::QueueSaved { saved: true });
    assert!(matches!(state, BackupJobState::Done));
    assert!(matches!(action, BackupJobAction::DeleteMessage));
}

#[test]
fn backup_job_keeps_the_message_when_untracked() {
    let mut queue = BackupQueue::new();
    let (state, action) = backup_job_step(
        &mut queue, 7, 8, 100, BackupJobState::Downloading,
        BackupJobEvent::Downloaded { files: None },
    );
    assert!(matches!(state, BackupJobState::Done));
    assert!(matches!(action, BackupJobAction::KeepMessage));
    assert!(queue.entries.is_empty());

    let (state, _) = backup_job_step(
        &mut queue, 7, 8, 100, BackupJobState::Downloading,
        BackupJobEvent::Downloaded { files: Some(one_file()) },
    );
    let (_, action) =
        backup_job_step(&mut queue, 7, 8, 100, state, BackupJobEvent::QueueSaved { saved: false });
    assert!(matches!(action, BackupJobAction::KeepMessage));

    let (state, action) = backup_job_step(
        &mut queue, 7, 8, 100, BackupJobState::Done, BackupJobEvent::QueueSaved { saved: true },
    );
    assert!(matches!(state, BackupJobState::Done));
    assert!(matches!(action, BackupJobAction::Ignore));
}

#[test]
fn expired_page_keeps_messages_posted_before_the_cutoff() {
    let ids = vec![50, 49, 48, 47];
    let timestamps = vec![300, 99, 100, 5];
    let messages = vec!["a", "b", "c", "d"];
    assert_eq!(expired_page(&ids, &timestamps, messages, 100), vec![(49, "b"), (47, "d")]);
    assert!(expired_page(&Vec::new(), &Vec::new(), Vec::<u8>::new(), 100).is_empty());
}

#[test]
fn run_takes_in_a_page_by_posting_time() {
    let mut run: CleanupRun<&str> = CleanupRun::new(None);
    assert!(matches!(run.next_step(false), CleanupStep::Fetch { before: None }));
    run.on_page(&vec![9, 8, 7], &vec![500, 50, 10], vec!["new", "old", "older"], 100);
    assert_eq!(run.expired, vec![(8, "old"), (7, "older")]);
    assert_eq!(run.cursor, Some(7));
    assert!(run.reached_end);
}

fn clock_at(unix_seconds: i64, nanos: u32) -> UtcNow {
    UtcNow { unix_seconds, nanos, year: 2023, month: 11, day: 28 }
}

#[test]
fn plan_from_a_clock_reading_cuts_fourteen_days_back() {
    let now = CUTOFF_SECS + 1_209_600;
    let plan = plan_deletion_from(&vec![young(1), young(0), older(0)], &clock_at(now, 7)).unwrap();
    assert_eq!(plan.cutoff_secs, CUTOFF_SECS);
    assert_eq!(plan.cutoff_nanos, 7);
    assert_eq!(plan.bulk_chunks, vec![vec![young(1), young(0)]]);
    // a message 13 days old is bulk-deleted, one 15 days old is not
    let thirteen = snowflake((now as u64 - 13 * 86_400) * 1000);
    let fifteen = snowflake((now as u64 - 15 * 86_400) * 1000);
    let plan = plan_deletion_from(&vec![thirteen, thirteen + 1, fifteen], &clock_at(now, 0)).unwrap();
    assert_eq!(plan.bulk_chunks, vec![vec![thirteen, thirteen + 1]]);
}

#[test]
fn plan_from_a_reading_near_the_first_date_fails() {
    assert!(plan_deletion_from(&vec![young(0)], &clock_at(MIN_UTC_SECONDS, 0)).is_none());
    assert!(plan_deletion_from(&vec![young(0)], &clock_at(MIN_UTC_SECONDS + 1_209_600, 0)).is_some());
    let first = chrono::DateTime::<chrono::Utc>::MIN_UTC;
    assert_eq!(first.timestamp(), MIN_UTC_SECONDS);
    assert!(first.checked_sub_days(chrono::Days::new(14)).is_none());
    let later = chrono::DateTime::<chrono::Utc>::from_timestamp(MIN_UTC_SECONDS + 1_209_600, 0).unwrap();
    assert!(later.checked_sub_days(chrono::Days::new(14)).is_some());
}
