//! The queue of downloaded attachments waiting for upload.
//!
//! Entries are identified by their local path. Keeping the queue on disk is
//! the caller's part: it saves the queue after each change.

use vstd::prelude::*;

use crate::text::str_eq;

verus! {

/// Where an entry of the queue stands.
pub enum BackupStatus {
    /// Waiting for the worker.
    Pending,
    /// Being uploaded.
    InProgress,
    /// The last upload failed, for `reason`.
    Failed { reason: String },
}

/// A downloaded attachment waiting for upload.
pub struct PendingBackup {
    pub message_id: u64,
    pub channel_id: u64,
    pub local_path: String,
    pub original_filename: String,
    /// When the message was posted, in seconds since the Unix epoch.
    pub timestamp: i64,
    /// Failed upload attempts so far.
    pub retry_count: u32,
    pub status: BackupStatus,
}

/// `b` with status `status`.
pub open spec fn with_status(b: PendingBackup, status: BackupStatus) -> PendingBackup {
    PendingBackup { status, ..b }
}

/// `b` after a failed attempt: status failed for `reason`, one more retry
/// counted (the count stops at its largest value).
pub open spec fn after_failure(b: PendingBackup, reason: String) -> PendingBackup {
    PendingBackup {
        status: BackupStatus::Failed { reason },
        retry_count: if b.retry_count < u32::MAX {
            (b.retry_count + 1) as u32
        } else {
            u32::MAX
        },
        ..b
    }
}

/// Whether `b` failed and may be tried again under the retry limit.
pub open spec fn retryable(b: PendingBackup, max_retries: u32) -> bool {
    b.status is Failed && b.retry_count < max_retries
}

/// The entries of `s` whose path is not `path`, in order.
pub open spec fn without_path(s: Seq<PendingBackup>, path: Seq<char>) -> Seq<PendingBackup>
    decreases s.len(),
{
    if s.len() == 0 {
        Seq::empty()
    } else {
        let rest = without_path(s.drop_last(), path);
        if s.last().local_path@ == path {
            rest
        } else {
            rest.push(s.last())
        }
    }
}

/// The entries of `s` that satisfy `keep`, in order.
pub open spec fn entries_where(
    s: Seq<PendingBackup>,
    keep: spec_fn(PendingBackup) -> bool,
) -> Seq<PendingBackup>
    decreases s.len(),
{
    if s.len() == 0 {
        Seq::empty()
    } else {
        let rest = entries_where(s.drop_last(), keep);
        if keep(s.last()) {
            rest.push(s.last())
        } else {
            rest
        }
    }
}

/// Whether some entry of `s` has path `path`.
pub open spec fn has_path(s: Seq<PendingBackup>, path: Seq<char>) -> bool {
    exists|i: int| 0 <= i < s.len() && #[trigger] s[i].local_path@ == path
}

/// The paths of the entries of `s` that satisfy `keep`, in order.
pub open spec fn paths_where(
    s: Seq<PendingBackup>,
    keep: spec_fn(PendingBackup) -> bool,
) -> Seq<Seq<char>>
    decreases s.len(),
{
    if s.len() == 0 {
        Seq::empty()
    } else {
        let rest = paths_where(s.drop_last(), keep);
        if keep(s.last()) {
            rest.push(s.last().local_path@)
        } else {
            rest
        }
    }
}

/// `s` with every entry of path `path` changed by `change`.
pub open spec fn changed_at_path(
    s: Seq<PendingBackup>,
    path: Seq<char>,
    change: spec_fn(PendingBackup) -> PendingBackup,
) -> Seq<PendingBackup> {
    Seq::new(s.len(), |i: int| if s[i].local_path@ == path { change(s[i]) } else { s[i] })
}

fn copy_status(s: &BackupStatus) -> (r: BackupStatus)
    ensures
        r == *s,
{
    match s {
        BackupStatus::Pending => BackupStatus::Pending,
        BackupStatus::InProgress => BackupStatus::InProgress,
        BackupStatus::Failed { reason } => BackupStatus::Failed { reason: reason.clone() },
    }
}

fn copy_backup(b: &PendingBackup) -> (r: PendingBackup)
    ensures
        r == *b,
{
    PendingBackup {
        message_id: b.message_id,
        channel_id: b.channel_id,
        local_path: b.local_path.clone(),
        original_filename: b.original_filename.clone(),
        timestamp: b.timestamp,
        retry_count: b.retry_count,
        status: copy_status(&b.status),
    }
}

/// `s` after adding `b`: it replaces the entries with its path, or comes
/// last when there is none.
pub open spec fn with_added(s: Seq<PendingBackup>, b: PendingBackup) -> Seq<PendingBackup> {
    if has_path(s, b.local_path@) {
        changed_at_path(s, b.local_path@, |e: PendingBackup| b)
    } else {
        s.push(b)
    }
}

/// `s` after adding each of `bs`, in order.
pub open spec fn with_all_added(s: Seq<PendingBackup>, bs: Seq<PendingBackup>) -> Seq<PendingBackup>
    decreases bs.len(),
{
    if bs.len() == 0 {
        s
    } else {
        with_added(with_all_added(s, bs.drop_last()), bs.last())
    }
}

/// No two entries of `s` share a local path.
pub open spec fn paths_unique(s: Seq<PendingBackup>) -> bool {
    forall|i: int, j: int|
        0 <= i < j < s.len() ==> #[trigger] s[i].local_path@ != #[trigger] s[j].local_path@
}

/// Changing entries in a way that keeps their paths keeps the paths unique.
proof fn lemma_change_keeps_unique(
    s: Seq<PendingBackup>,
    path: Seq<char>,
    change: spec_fn(PendingBackup) -> PendingBackup,
)
    requires
        paths_unique(s),
        forall|b: PendingBackup| #[trigger] change(b).local_path == b.local_path,
    ensures
        paths_unique(changed_at_path(s, path, change)),
{
    let t = changed_at_path(s, path, change);
    assert forall|i: int, j: int| 0 <= i < j < t.len() implies #[trigger] t[i].local_path@
        != #[trigger] t[j].local_path@ by {
        assert(t[i].local_path == s[i].local_path);
        assert(t[j].local_path == s[j].local_path);
    }
}

/// What is left after removing the entries of `path`: entries of `s`, in
/// order, none of that path.
proof fn lemma_without_path_members(s: Seq<PendingBackup>, path: Seq<char>)
    ensures
        without_path(s, path).len() <= s.len(),
        forall|k: int|
            0 <= k < without_path(s, path).len() ==> (#[trigger] without_path(s, path)[k]).local_path@
                != path && exists|j: int| 0 <= j < s.len() && s[j] == without_path(s, path)[k],
    decreases s.len(),
{
    if s.len() > 0 {
        let init = s.drop_last();
        lemma_without_path_members(init, path);
        let w = without_path(s, path);
        let wi = without_path(init, path);
        assert forall|k: int| 0 <= k < w.len() implies (#[trigger] w[k]).local_path@ != path
            && exists|j: int| 0 <= j < s.len() && s[j] == w[k] by {
            if k < wi.len() {
                assert(w[k] == wi[k]);
                let j = choose|j: int| 0 <= j < init.len() && init[j] == wi[k];
                assert(s[j] == init[j]);
            } else {
                assert(w[k] == s[s.len() - 1]);
            }
        }
    }
}

/// Removing the entries of a path keeps the other paths unique.
proof fn lemma_without_path_unique(s: Seq<PendingBackup>, path: Seq<char>)
    requires
        paths_unique(s),
    ensures
        paths_unique(without_path(s, path)),
    decreases s.len(),
{
    if s.len() > 0 {
        let init = s.drop_last();
        assert(paths_unique(init)) by {
            assert forall|i: int, j: int| 0 <= i < j < init.len() implies #[trigger] init[i].local_path@
                != #[trigger] init[j].local_path@ by {
                assert(init[i] == s[i] && init[j] == s[j]);
            }
        }
        lemma_without_path_unique(init, path);
        lemma_without_path_members(init, path);
        let wi = without_path(init, path);
        let w = without_path(s, path);
        if s.last().local_path@ != path {
            assert forall|i: int, j: int| 0 <= i < j < w.len() implies #[trigger] w[i].local_path@
                != #[trigger] w[j].local_path@ by {
                if j == w.len() - 1 {
                    assert(w[i] == wi[i]);
                    let k = choose|k: int| 0 <= k < init.len() && init[k] == wi[i];
                    assert(s[k] == init[k]);
                    assert(w[j] == s[s.len() - 1]);
                } else {
                    assert(w[i] == wi[i] && w[j] == wi[j]);
                }
            }
        }
    }
}

/// Once the entries of `path` are removed, none is left.
pub proof fn lemma_removed_path_is_gone(s: Seq<PendingBackup>, path: Seq<char>)
    ensures
        !has_path(without_path(s, path), path),
{
    lemma_without_path_members(s, path);
}

/// The first entry of `s` with path `path`, given one at `i0`.
proof fn lemma_first_with_path(s: Seq<PendingBackup>, path: Seq<char>, i0: int) -> (first: int)
    requires
        0 <= i0 < s.len(),
        s[i0].local_path@ == path,
    ensures
        0 <= first <= i0,
        s[first].local_path@ == path,
        forall|j: int| 0 <= j < first ==> (#[trigger] s[j]).local_path@ != path,
    decreases i0,
{
    if exists|j: int| 0 <= j < i0 && (#[trigger] s[j]).local_path@ == path {
        let j = choose|j: int| 0 <= j < i0 && (#[trigger] s[j]).local_path@ == path;
        lemma_first_with_path(s, path, j)
    } else {
        i0
    }
}

/// An entry added to the queue is what a lookup of its path finds: the first
/// entry with that path is the one added.
pub proof fn lemma_added_entry_is_found(s: Seq<PendingBackup>, b: PendingBackup)
    ensures
        exists|i: int|
            0 <= i < with_added(s, b).len() && with_added(s, b)[i] == b && forall|j: int|
                0 <= j < i ==> (#[trigger] with_added(s, b)[j]).local_path@ != b.local_path@,
{
    let t = with_added(s, b);
    let p = b.local_path@;
    if has_path(s, p) {
        let i0 = choose|i: int| 0 <= i < s.len() && #[trigger] s[i].local_path@ == p;
        let first = lemma_first_with_path(s, p, i0);
        assert(t.len() == s.len());
        assert(t[first] == b);
        assert forall|j: int| 0 <= j < first implies (#[trigger] t[j]).local_path@ != p by {
            assert(s[j].local_path@ != p);
            assert(t[j] == s[j]);
        }
    } else {
        assert(t[s.len() as int] == b);
        assert forall|j: int| 0 <= j < s.len() implies (#[trigger] t[j]).local_path@ != p by {
            assert(t[j] == s[j]);
        }
    }
}

/// The queue.
pub struct BackupQueue {
    pub entries: Vec<PendingBackup>,
}

impl BackupQueue {
    /// No two entries share a local path.
    pub open spec fn wf(self) -> bool {
        paths_unique(self.entries@)
    }

    /// An empty queue.
    pub fn new() -> (q: Self)
        ensures
            q.entries@.len() == 0,
            q.wf(),
    {
        BackupQueue { entries: Vec::new() }
    }

    /// The first entry with path `path`.
    pub fn get(&self, path: &str) -> (r: Option<&PendingBackup>)
        ensures
            r matches Some(b) ==> exists|i: int|
                0 <= i < self.entries@.len() && self.entries@[i] == *b && b.local_path@ == path@
                    && forall|j: int| 0 <= j < i ==> self.entries@[j].local_path@ != path@,
            r is None ==> !has_path(self.entries@, path@),
    {
        let n = self.entries.len();
        let mut i: usize = 0;
        while i < n
            invariant
                i <= n == self.entries@.len(),
                forall|j: int| 0 <= j < i ==> self.entries@[j].local_path@ != path@,
            decreases n - i,
        {
            if str_eq(self.entries[i].local_path.as_str(), path) {
                return Some(&self.entries[i]);
            }
            i = i + 1;
        }
        None
    }

    /// Adds `backup`, or replaces the entry with the same path.
    pub fn add(&mut self, backup: PendingBackup)
        ensures
            final(self).entries@ == with_added(old(self).entries@, backup),
            old(self).wf() ==> final(self).wf(),
    {
        let n = self.entries.len();
        let mut i: usize = 0;
        let mut found = false;
        while i < n
            invariant
                i <= n == self.entries@.len() == old(self).entries@.len(),
                found <==> exists|j: int|
                    0 <= j < i && #[trigger] old(self).entries@[j].local_path@ == backup.local_path@,
                forall|j: int|
                    0 <= j < i ==> #[trigger] self.entries@[j] == (
                    if old(self).entries@[j].local_path@ == backup.local_path@ {
                        backup
                    } else {
                        old(self).entries@[j]
                    }),
                forall|j: int| i <= j < n ==> #[trigger] self.entries@[j] == old(self).entries@[j],
            decreases n - i,
        {
            if self.entries[i].local_path == backup.local_path {
                let copy = copy_backup(&backup);
                self.entries.set(i, copy);
                found = true;
            }
            i = i + 1;
        }
        if !found {
            self.entries.push(backup);
        } else {
            assert(self.entries@ =~= with_added(old(self).entries@, backup));
        }
    }
}

impl BackupQueue {
    /// The paths of the entries waiting for the worker, in queue order.
    pub fn pending_paths(&self) -> (r: Vec<String>)
        ensures
            r@.len() == paths_where(self.entries@, |b: PendingBackup| b.status is Pending).len(),
            forall|i: int|
                0 <= i < r@.len() ==> #[trigger] r@[i]@ == paths_where(
                    self.entries@,
                    |b: PendingBackup| b.status is Pending,
                )[i],
    {
        let ghost keep = |b: PendingBackup| b.status is Pending;
        let n = self.entries.len();
        let mut r: Vec<String> = Vec::new();
        let mut i: usize = 0;
        while i < n
            invariant
                i <= n == self.entries@.len(),
                keep == (|b: PendingBackup| b.status is Pending),
                r@.len() == paths_where(self.entries@.take(i as int), keep).len(),
                forall|j: int|
                    0 <= j < r@.len() ==> #[trigger] r@[j]@ == paths_where(
                        self.entries@.take(i as int),
                        keep,
                    )[j],
            decreases n - i,
        {
            assert(self.entries@.take(i + 1).drop_last() =~= self.entries@.take(i as int));
            if matches!(self.entries[i].status, BackupStatus::Pending) {
                r.push(self.entries[i].local_path.clone());
            }
            i = i + 1;
        }
        assert(self.entries@.take(n as int) =~= self.entries@);
        r
    }

    /// The paths of the entries that failed and are still under the retry
    /// limit, in queue order.
    pub fn failed_paths(&self, max_retries: u32) -> (r: Vec<String>)
        ensures
            r@.len() == paths_where(self.entries@, |b: PendingBackup| retryable(b, max_retries)).len(),
            forall|i: int|
                0 <= i < r@.len() ==> #[trigger] r@[i]@ == paths_where(
                    self.entries@,
                    |b: PendingBackup| retryable(b, max_retries),
                )[i],
    {
        let ghost keep = |b: PendingBackup| retryable(b, max_retries);
        let n = self.entries.len();
        let mut r: Vec<String> = Vec::new();
        let mut i: usize = 0;
        while i < n
            invariant
                i <= n == self.entries@.len(),
                keep == (|b: PendingBackup| retryable(b, max_retries)),
                r@.len() == paths_where(self.entries@.take(i as int), keep).len(),
                forall|j: int|
                    0 <= j < r@.len() ==> #[trigger] r@[j]@ == paths_where(
                        self.entries@.take(i as int),
                        keep,
                    )[j],
            decreases n - i,
        {
            assert(self.entries@.take(i + 1).drop_last() =~= self.entries@.take(i as int));
            if matches!(self.entries[i].status, BackupStatus::Failed { .. })
                && self.entries[i].retry_count < max_retries {
                r.push(self.entries[i].local_path.clone());
            }
            i = i + 1;
        }
        assert(self.entries@.take(n as int) =~= self.entries@);
        r
    }

    /// Marks the entries of path `path` as being uploaded; tells whether
    /// there was one.
    pub fn mark_in_progress(&mut self, path: &str) -> (found: bool)
        ensures
            found == has_path(old(self).entries@, path@),
            final(self).entries@ == changed_at_path(
                old(self).entries@,
                path@,
                |b: PendingBackup| with_status(b, BackupStatus::InProgress),
            ),
            old(self).wf() ==> final(self).wf(),
    {
        let n = self.entries.len();
        let mut found = false;
        let mut i: usize = 0;
        while i < n
            invariant
                i <= n == self.entries@.len() == old(self).entries@.len(),
                found <==> exists|j: int|
                    0 <= j < i && #[trigger] old(self).entries@[j].local_path@ == path@,
                forall|j: int|
                    0 <= j < i ==> #[trigger] self.entries@[j] == (
                    if old(self).entries@[j].local_path@ == path@ {
                        with_status(old(self).entries@[j], BackupStatus::InProgress)
                    } else {
                        old(self).entries@[j]
                    }),
                forall|j: int| i <= j < n ==> #[trigger] self.entries@[j] == old(self).entries@[j],
            decreases n - i,
        {
            if str_eq(self.entries[i].local_path.as_str(), path) {
                let mut b = copy_backup(&self.entries[i]);
                b.status = BackupStatus::InProgress;
                self.entries.set(i, b);
                found = true;
            }
            i = i + 1;
        }
        assert(self.entries@ =~= changed_at_path(
            old(self).entries@,
            path@,
            |b: PendingBackup| with_status(b, BackupStatus::InProgress),
        ));
        proof {
            if old(self).wf() {
                let change = |b: PendingBackup| with_status(b, BackupStatus::InProgress);
                assert forall|b: PendingBackup| #[trigger] change(b).local_path == b.local_path by {}
                lemma_change_keeps_unique(old(self).entries@, path@, change);
            }
        }
        found
    }

    /// Puts the entries of path `path` back to waiting; tells whether there
    /// was one.
    pub fn reset_to_pending(&mut self, path: &str) -> (found: bool)
        ensures
            found == has_path(old(self).entries@, path@),
            final(self).entries@ == changed_at_path(
                old(self).entries@,
                path@,
                |b: PendingBackup| with_status(b, BackupStatus::Pending),
            ),
            old(self).wf() ==> final(self).wf(),
    {
        let n = self.entries.len();
        let mut found = false;
        let mut i: usize = 0;
        while i < n
            invariant
                i <= n == self.entries@.len() == old(self).entries@.len(),
                found <==> exists|j: int|
                    0 <= j < i && #[trigger] old(self).entries@[j].local_path@ == path@,
                forall|j: int|
                    0 <= j < i ==> #[trigger] self.entries@[j] == (
                    if old(self).entries@[j].local_path@ == path@ {
                        with_status(old(self).entries@[j], BackupStatus::Pending)
                    } else {
                        old(self).entries@[j]
                    }),
                forall|j: int| i <= j < n ==> #[trigger] self.entries@[j] == old(self).entries@[j],
            decreases n - i,
        {
            if str_eq(self.entries[i].local_path.as_str(), path) {
                let mut b = copy_backup(&self.entries[i]);
                b.status = BackupStatus::Pending;
                self.entries.set(i, b);
                found = true;
            }
            i = i + 1;
        }
        assert(self.entries@ =~= changed_at_path(
            old(self).entries@,
            path@,
            |b: PendingBackup| with_status(b, BackupStatus::Pending),
        ));
        proof {
            if old(self).wf() {
                let change = |b: PendingBackup| with_status(b, BackupStatus::Pending);
                assert forall|b: PendingBackup| #[trigger] change(b).local_path == b.local_path by {}
                lemma_change_keeps_unique(old(self).entries@, path@, change);
            }
        }
        found
    }

    /// Records a failed upload of the entries of path `path`: failed for
    /// `reason`, one more retry counted; tells whether there was one.
    pub fn mark_failed(&mut self, path: &str, reason: String) -> (found: bool)
        ensures
            found == has_path(old(self).entries@, path@),
            final(self).entries@ == changed_at_path(
                old(self).entries@,
                path@,
                |b: PendingBackup| after_failure(b, reason),
            ),
            old(self).wf() ==> final(self).wf(),
    {
        let n = self.entries.len();
        let mut found = false;
        let mut i: usize = 0;
        while i < n
            invariant
                i <= n == self.entries@.len() == old(self).entries@.len(),
                found <==> exists|j: int|
                    0 <= j < i && #[trigger] old(self).entries@[j].local_path@ == path@,
                forall|j: int|
                    0 <= j < i ==> #[trigger] self.entries@[j] == (
                    if old(self).entries@[j].local_path@ == path@ {
                        after_failure(old(self).entries@[j], reason)
                    } else {
                        old(self).entries@[j]
                    }),
                forall|j: int| i <= j < n ==> #[trigger] self.entries@[j] == old(self).entries@[j],
            decreases n - i,
        {
            if str_eq(self.entries[i].local_path.as_str(), path) {
                let mut b = copy_backup(&self.entries[i]);
                b.status = BackupStatus::Failed { reason: reason.clone() };
                b.retry_count = if b.retry_count < u32::MAX {
                    b.retry_count + 1
                } else {
                    u32::MAX
                };
                self.entries.set(i, b);
                found = true;
            }
            i = i + 1;
        }
        assert(self.entries@ =~= changed_at_path(
            old(self).entries@,
            path@,
            |b: PendingBackup| after_failure(b, reason),
        ));
        proof {
            if old(self).wf() {
                let change = |b: PendingBackup| after_failure(b, reason);
                assert forall|b: PendingBackup| #[trigger] change(b).local_path == b.local_path by {}
                lemma_change_keeps_unique(old(self).entries@, path@, change);
            }
        }
        found
    }

    /// Removes the entries of path `path`; tells whether there was one.
    pub fn remove(&mut self, path: &str) -> (found: bool)
        ensures
            found == has_path(old(self).entries@, path@),
            final(self).entries@ == without_path(old(self).entries@, path@),
            old(self).wf() ==> final(self).wf(),
    {
        let n = self.entries.len();
        let mut kept: Vec<PendingBackup> = Vec::new();
        let mut found = false;
        let mut i: usize = 0;
        while i < n
            invariant
                i <= n == self.entries@.len() == old(self).entries@.len(),
                self.entries@ == old(self).entries@,
                found <==> exists|j: int|
                    0 <= j < i && #[trigger] old(self).entries@[j].local_path@ == path@,
                kept@ == without_path(old(self).entries@.take(i as int), path@),
            decreases n - i,
        {
            assert(self.entries@.take(i + 1).drop_last() =~= self.entries@.take(i as int));
            if str_eq(self.entries[i].local_path.as_str(), path) {
                found = true;
            } else {
                kept.push(copy_backup(&self.entries[i]));
            }
            i = i + 1;
        }
        assert(old(self).entries@.take(n as int) =~= old(self).entries@);
        self.entries = kept;
        proof {
            if old(self).wf() {
                lemma_without_path_unique(old(self).entries@, path@);
            }
        }
        found
    }
}

} // verus!
