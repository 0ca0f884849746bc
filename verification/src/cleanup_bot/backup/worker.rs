//! The background worker that uploads queued backups.
//!
//! Every check interval the worker goes through the entries waiting for
//! upload. Checking files, uploading and deleting local files are the
//! caller's part; here stand the queue changes and decisions around them.

use vstd::prelude::*;

use crate::cleanup_bot::backup::queue::{
    after_failure, changed_at_path, has_path, paths_where, retryable, with_status, without_path,
    BackupQueue, BackupStatus, PendingBackup,
};
use crate::cleanup_bot::config::BackupWorkerConfig;

verus! {

/// Whether entry `i` of `s` is the first one of path `path`.
pub open spec fn first_with_path(s: Seq<PendingBackup>, i: int, path: Seq<char>) -> bool {
    &&& 0 <= i < s.len()
    &&& s[i].local_path@ == path
    &&& forall|j: int| 0 <= j < i ==> s[j].local_path@ != path
}

/// Whether `b` is `a` after a failure recorded with reason `reason`.
pub open spec fn marked_failed(a: PendingBackup, b: PendingBackup, reason: Seq<char>) -> bool {
    b.status matches BackupStatus::Failed { reason: r } && r@ == reason && b == after_failure(a, r)
}

/// What the worker does with one waiting entry.
pub enum BackupStart {
    /// The local file is gone; the entry was marked failed.
    FileMissing,
    /// The queue has no such entry any more; skipped.
    Untracked,
    /// The entry used up its retries; skipped and left in local storage.
    RetriesExhausted,
    /// The entry was marked in progress; upload it. `attempt` counts from 1.
    Upload { attempt: u32 },
}

/// The reason recorded for an entry whose local file is gone.
pub open spec fn file_missing_reason() -> Seq<char> {
    "file missing"@
}

/// Starts the handling of the waiting entry `path`; `file_exists` tells
/// whether its local file still exists.
pub fn begin_backup(queue: &mut BackupQueue, path: &str, file_exists: bool, max_retries: u32) -> (r:
    BackupStart)
    ensures
        old(queue).wf() ==> final(queue).wf(),
        !file_exists ==> {
            &&& r is FileMissing
            &&& final(queue).entries@.len() == old(queue).entries@.len()
            &&& forall|i: int|
                0 <= i < old(queue).entries@.len() ==> if old(queue).entries@[i].local_path@
                    == path@ {
                    marked_failed(old(queue).entries@[i], #[trigger] final(queue).entries@[i], file_missing_reason())
                } else {
                    final(queue).entries@[i] == old(queue).entries@[i]
                }
        },
        file_exists ==> match r {
            BackupStart::FileMissing => false,
            BackupStart::Untracked => !has_path(old(queue).entries@, path@)
                && final(queue).entries@ == old(queue).entries@,
            BackupStart::RetriesExhausted => {
                &&& exists|i: int|
                    first_with_path(old(queue).entries@, i, path@)
                        && old(queue).entries@[i].retry_count >= max_retries
                &&& final(queue).entries@ == old(queue).entries@
            },
            BackupStart::Upload { attempt } => {
                &&& exists|i: int|
                    first_with_path(old(queue).entries@, i, path@)
                        && old(queue).entries@[i].retry_count < max_retries && attempt
                        == old(queue).entries@[i].retry_count + 1
                &&& final(queue).entries@ == changed_at_path(
                    old(queue).entries@,
                    path@,
                    |b: PendingBackup| with_status(b, BackupStatus::InProgress),
                )
            },
        },
{
    if !file_exists {
        let reason = String::from_str("file missing");
        queue.mark_failed(path, reason);
        return BackupStart::FileMissing;
    }
    let ghost s = queue.entries@;
    let retry_count = match queue.get(path) {
        Some(b) => {
            proof {
                let i = choose|i: int|
                    0 <= i < s.len() && s[i] == *b && b.local_path@ == path@ && forall|j: int|
                        0 <= j < i ==> s[j].local_path@ != path@;
                assert(first_with_path(s, i, path@) && s[i].retry_count == b.retry_count);
            }
            b.retry_count
        },
        None => {
            return BackupStart::Untracked;
        },
    };
    if retry_count >= max_retries {
        return BackupStart::RetriesExhausted;
    }
    queue.mark_in_progress(path);
    BackupStart::Upload { attempt: retry_count + 1 }
}

/// Ends the handling of entry `path` once its upload is over: after a
/// success the entry leaves the queue and the local file is to be deleted
/// (the result is `true`); after a failure with message `error` the entry is
/// marked failed, to be retried on a later cycle.
pub fn finish_backup(queue: &mut BackupQueue, path: &str, upload: Result<(), String>) -> (delete_local:
    bool)
    ensures
        old(queue).wf() ==> final(queue).wf(),
        delete_local == upload is Ok,
        match upload {
            Ok(_) => final(queue).entries@ == without_path(old(queue).entries@, path@),
            Err(e) => final(queue).entries@ == changed_at_path(
                old(queue).entries@,
                path@,
                |b: PendingBackup| after_failure(b, e),
            ),
        },
{
    match upload {
        Ok(()) => {
            queue.remove(path);
            true
        },
        Err(e) => {
            queue.mark_failed(path, e);
            false
        },
    }
}

/// A path is among `paths_where(s, keep)` exactly when some entry of `s`
/// with that path satisfies `keep`.
proof fn lemma_paths_where_contains(
    s: Seq<PendingBackup>,
    keep: spec_fn(PendingBackup) -> bool,
    p: Seq<char>,
)
    ensures
        paths_where(s, keep).contains(p) <==> exists|j: int|
            0 <= j < s.len() && keep(s[j]) && #[trigger] s[j].local_path@ == p,
    decreases s.len(),
{
    if s.len() > 0 {
        let init = s.drop_last();
        lemma_paths_where_contains(init, keep, p);
        if exists|j: int| 0 <= j < s.len() && keep(s[j]) && #[trigger] s[j].local_path@ == p {
            let j = choose|j: int| 0 <= j < s.len() && keep(s[j]) && #[trigger] s[j].local_path@ == p;
            if j < s.len() - 1 {
                assert(init[j] == s[j]);
                assert(paths_where(init, keep).contains(p));
                let k = choose|k: int| 0 <= k < paths_where(init, keep).len() && paths_where(
                    init,
                    keep,
                )[k] == p;
                if keep(s.last()) {
                    assert(paths_where(s, keep)[k] == p);
                }
            } else {
                assert(paths_where(s, keep).last() == p);
            }
        }
        if paths_where(s, keep).contains(p) {
            if keep(s.last()) && s.last().local_path@ == p {
                assert(s[s.len() - 1].local_path@ == p);
            } else {
                let k = choose|k: int| 0 <= k < paths_where(s, keep).len() && paths_where(s, keep)[k]
                    == p;
                if keep(s.last()) {
                    assert(k < paths_where(init, keep).len());
                    assert(paths_where(init, keep)[k] == p);
                }
                assert(paths_where(init, keep).contains(p));
                let j = choose|j: int|
                    0 <= j < init.len() && keep(init[j]) && #[trigger] init[j].local_path@ == p;
                assert(s[j] == init[j]);
            }
        }
    }
}

/// Resets failed backups to pending status for retry: every entry that
/// failed with fewer than `max_retries` failures goes back to waiting (so does
/// any other entry sharing its path). Entries past the limit stay failed.
pub fn reset_failed_for_retry(queue: &mut BackupQueue, config: &BackupWorkerConfig)
    ensures
        old(queue).wf() ==> final(queue).wf(),
        final(queue).entries@.len() == old(queue).entries@.len(),
        forall|i: int|
            0 <= i < old(queue).entries@.len() ==> #[trigger] final(queue).entries@[i] == (
            if exists|j: int|
                0 <= j < old(queue).entries@.len() && retryable(
                    old(queue).entries@[j],
                    config.max_retries,
                ) && #[trigger] old(queue).entries@[j].local_path@
                    == old(queue).entries@[i].local_path@ {
                with_status(old(queue).entries@[i], BackupStatus::Pending)
            } else {
                old(queue).entries@[i]
            }),
        forall|i: int|
            0 <= i < old(queue).entries@.len() ==> !retryable(
                #[trigger] final(queue).entries@[i],
                config.max_retries,
            ),
        old(queue).wf() ==> forall|i: int|
            0 <= i < old(queue).entries@.len() && old(queue).entries@[i].retry_count
                >= config.max_retries ==> #[trigger] final(queue).entries@[i]
                == old(queue).entries@[i],
{
    let ghost s = queue.entries@;
    let ghost keep = |b: PendingBackup| retryable(b, config.max_retries);
    let failed = queue.failed_paths(config.max_retries);
    let ghost fp = paths_where(s, keep);
    let n = failed.len();
    let mut k: usize = 0;
    while k < n
        invariant
            k <= n == failed@.len() == fp.len(),
            forall|m: int| 0 <= m < n ==> #[trigger] failed@[m]@ == fp[m],
            queue.entries@.len() == s.len(),
            old(queue).wf() ==> queue.wf(),
            forall|i: int|
                0 <= i < s.len() ==> #[trigger] queue.entries@[i] == (if exists|m: int|
                    0 <= m < k && #[trigger] fp[m] == s[i].local_path@ {
                    with_status(s[i], BackupStatus::Pending)
                } else {
                    s[i]
                }),
        decreases n - k,
    {
        queue.reset_to_pending(failed[k].as_str());
        assert forall|i: int| 0 <= i < s.len() implies #[trigger] queue.entries@[i] == (
        if exists|m: int| 0 <= m < k + 1 && #[trigger] fp[m] == s[i].local_path@ {
            with_status(s[i], BackupStatus::Pending)
        } else {
            s[i]
        }) by {
            if fp[k as int] == s[i].local_path@ {
                assert(0 <= k < k + 1 && fp[k as int] == s[i].local_path@);
            }
        }
        k = k + 1;
    }
    assert forall|i: int| #![trigger s[i]] 0 <= i < s.len() implies (exists|m: int|
        0 <= m < n && #[trigger] fp[m] == s[i].local_path@) == (exists|j: int|
        0 <= j < s.len() && retryable(s[j], config.max_retries) && #[trigger] s[j].local_path@
            == s[i].local_path@) by {
        lemma_paths_where_contains(s, keep, s[i].local_path@);
    }
    assert forall|i: int| 0 <= i < s.len() implies !retryable(
        #[trigger] queue.entries@[i],
        config.max_retries,
    ) by {
        if retryable(s[i], config.max_retries) {
            assert(0 <= i < s.len() && retryable(s[i], config.max_retries) && s[i].local_path@
                == s[i].local_path@);
        }
    }
    proof {
        if old(queue).wf() {
            assert forall|i: int| 0 <= i < s.len() implies !retryable(
                #[trigger] queue.entries@[i],
                config.max_retries,
            ) && (s[i].retry_count >= config.max_retries ==> queue.entries@[i] == s[i]) by {
                if exists|j: int|
                    0 <= j < s.len() && retryable(s[j], config.max_retries) && #[trigger] s[j].local_path@
                        == s[i].local_path@ {
                    let j = choose|j: int|
                        0 <= j < s.len() && retryable(s[j], config.max_retries) && #[trigger] s[j].local_path@
                            == s[i].local_path@;
                    if j != i {
                        if j < i {
                            assert(s[j].local_path@ != s[i].local_path@);
                        } else {
                            assert(s[i].local_path@ != s[j].local_path@);
                        }
                    }
                }
            }
        }
    }
}

} // verus!
