//! Cleanup of one channel: page through its history for expired messages,
//! delete them (backing up the attachments of those that have some), and
//! remember where to continue next time.
//!
//! Fetching, deleting and downloading are the caller's part. [`CleanupRun`]
//! decides, between those calls, what comes next; [`plan_deletion`] decides
//! how a batch of messages is deleted.

use vstd::prelude::*;

use crate::cleanup_bot::backup::queue::{
    with_all_added, BackupQueue, BackupStatus, PendingBackup,
};
use crate::cleanup_bot::cleanup::queue::{expired_page, picked_at, positions_where};
use crate::cleanup_bot::clock::{utc_now, UtcNow, MIN_UTC_SECONDS};
use crate::cleanup_bot::discord::{message_created_at_millis, DISCORD_EPOCH_MILLIS};

verus! {

/// Messages fetched per request.
pub const MAX_MESSAGES_PER_FETCH: u8 = 100;

/// A run stops collecting once it holds this many expired messages.
pub const TARGET_EXPIRED_MESSAGES: usize = 100;

/// A run fetches at most this many pages.
pub const MAX_PAGINATION_ROUNDS: usize = 10;

/// Discord deletes in bulk only messages younger than 14 days.
pub const BULK_DELETE_THRESHOLD_SECONDS: i64 = 1_209_600;

/// A bulk deletion takes at least this many messages.
pub const BULK_DELETE_MIN: usize = 2;

/// A bulk deletion takes at most this many messages.
pub const BULK_DELETE_MAX: usize = 100;

/// The stages of a cleanup run.
pub enum CleanupPhase {
    /// Paging through the history.
    Scanning,
    /// The expired messages were handed out to be sorted into deletions and
    /// backups.
    Classifying,
    /// Next: the deletion of messages without attachments.
    Deleting,
    /// Next: the backup (and deletion) of messages with attachments.
    BackingUp,
    /// The run is over.
    Finished,
}

/// What the caller does next in a cleanup run.
pub enum CleanupStep {
    /// Fetches up to 100 messages before `before` (the newest when `None`),
    /// newest first, and reports them with [`CleanupRun::on_batch`].
    Fetch { before: Option<u64> },
    /// Takes the expired messages with [`CleanupRun::take_expired`], sorts
    /// them and reports with [`CleanupRun::on_classified`].
    Classify,
    /// Deletes the messages without attachments, then asks for the next step.
    DeleteMessages,
    /// Backs up and deletes the messages with attachments, then asks again.
    BackUpMedia,
    /// Stores `cursor` as the channel's pagination cursor; the run is over.
    SaveCursor { cursor: Option<u64> },
    /// The run was cancelled; nothing more is done, the cursor is not saved.
    Stop,
}

/// The run `after` once the page `batch_ids` (newest first), whose expired
/// messages are `batch_expired`, was taken in by `before`. An empty page ends
/// the history; so does a page shorter than a full fetch. The cursor moves to
/// the oldest message of the page; once 100 expired messages are held, the
/// rest is dropped, the cursor moves to the oldest message kept, and
/// collecting stops.
pub open spec fn after_batch<M>(
    before: CleanupRun<M>,
    after: CleanupRun<M>,
    batch_ids: Seq<u64>,
    batch_expired: Seq<(u64, M)>,
) -> bool {
    let all = before.expired@ + batch_expired;
    let end = batch_ids.len() < MAX_MESSAGES_PER_FETCH as nat;
    &&& before.expired@.len() <= TARGET_EXPIRED_MESSAGES ==> after.expired@.len()
        <= TARGET_EXPIRED_MESSAGES
    &&& after.phase is Scanning
    &&& after.rounds == before.rounds + 1
    &&& after.has_delete_jobs == before.has_delete_jobs
    &&& after.has_backup_jobs == before.has_backup_jobs
    &&& if batch_ids.len() == 0 {
        &&& after.cursor == before.cursor
        &&& after.expired@ == before.expired@
        &&& after.reached_end
        &&& after.collected
    } else if all.len() >= TARGET_EXPIRED_MESSAGES {
        &&& after.expired@ == all.take(TARGET_EXPIRED_MESSAGES as int)
        &&& after.cursor == Some(all[TARGET_EXPIRED_MESSAGES - 1].0)
        &&& after.reached_end == end
        &&& after.collected
    } else {
        &&& after.expired@ == all
        &&& after.cursor == Some(batch_ids.last())
        &&& after.reached_end == end
        &&& after.collected == end
    }
}

/// The state of a cleanup run over one channel. `M` is what the caller keeps
/// of each expired message; each comes with its message id.
pub struct CleanupRun<M> {
    pub phase: CleanupPhase,
    /// The message to continue before, newest-first paging.
    pub cursor: Option<u64>,
    /// The expired messages collected so far, newest first.
    pub expired: Vec<(u64, M)>,
    /// Whether the oldest message of the channel was reached.
    pub reached_end: bool,
    /// Pages fetched so far.
    pub rounds: usize,
    /// Whether collecting is over.
    pub collected: bool,
    pub has_delete_jobs: bool,
    pub has_backup_jobs: bool,
}

impl<M> CleanupRun<M> {
    /// The cursor to store at the end of the run: none once the whole
    /// history was seen, so that the next run starts from the newest message.
    pub open spec fn cursor_to_save(self) -> Option<u64> {
        if self.reached_end {
            None
        } else {
            self.cursor
        }
    }

    /// The bounds every run keeps, whatever its calls: at most 10 pages taken
    /// in and at most 100 expired messages held.
    pub open spec fn within_bounds(self) -> bool {
        self.rounds <= MAX_PAGINATION_ROUNDS && self.expired@.len() <= TARGET_EXPIRED_MESSAGES
    }

    /// Whether the run may still fetch a page.
    pub open spec fn may_fetch(self) -> bool {
        !self.collected && self.rounds < MAX_PAGINATION_ROUNDS
    }

    /// Starts a run that continues from the stored cursor.
    pub fn new(stored_cursor: Option<u64>) -> (r: Self)
        ensures
            r.within_bounds(),
            r.phase is Scanning,
            r.cursor == stored_cursor,
            r.expired@.len() == 0,
            !r.reached_end,
            r.rounds == 0,
            !r.collected,
    {
        CleanupRun {
            phase: CleanupPhase::Scanning,
            cursor: stored_cursor,
            expired: Vec::new(),
            reached_end: false,
            rounds: 0,
            collected: false,
            has_delete_jobs: false,
            has_backup_jobs: false,
        }
    }

    /// The next step; `cancelled` tells whether the run's cancellation token
    /// is set.
    pub fn next_step(&mut self, cancelled: bool) -> (step: CleanupStep)
        ensures
            old(self).within_bounds() ==> final(self).within_bounds(),
            final(self).cursor == old(self).cursor,
            final(self).expired == old(self).expired,
            final(self).reached_end == old(self).reached_end,
            final(self).rounds == old(self).rounds,
            final(self).collected == old(self).collected,
            final(self).has_delete_jobs == old(self).has_delete_jobs,
            final(self).has_backup_jobs == old(self).has_backup_jobs,
            match old(self).phase {
                CleanupPhase::Scanning => if old(self).may_fetch() {
                    if cancelled {
                        final(self).phase is Finished && step is Stop
                    } else {
                        final(self).phase is Scanning && step == (CleanupStep::Fetch {
                            before: old(self).cursor,
                        })
                    }
                } else if old(self).expired@.len() == 0 {
                    final(self).phase is Finished && step == (CleanupStep::SaveCursor {
                        cursor: old(self).cursor_to_save(),
                    })
                } else {
                    final(self).phase is Classifying && step is Classify
                },
                CleanupPhase::Classifying => final(self).phase is Classifying && step is Classify,
                CleanupPhase::Deleting => if cancelled {
                    final(self).phase is Finished && step is Stop
                } else if old(self).has_delete_jobs {
                    final(self).phase is BackingUp && step is DeleteMessages
                } else if old(self).has_backup_jobs {
                    final(self).phase is Finished && step is BackUpMedia
                } else {
                    final(self).phase is Finished && step == (CleanupStep::SaveCursor {
                        cursor: old(self).cursor_to_save(),
                    })
                },
                CleanupPhase::BackingUp => if cancelled {
                    final(self).phase is Finished && step is Stop
                } else if old(self).has_backup_jobs {
                    final(self).phase is Finished && step is BackUpMedia
                } else {
                    final(self).phase is Finished && step == (CleanupStep::SaveCursor {
                        cursor: old(self).cursor_to_save(),
                    })
                },
                CleanupPhase::Finished => final(self).phase is Finished && step == (
                CleanupStep::SaveCursor { cursor: old(self).cursor_to_save() }),
            },
    {
        let to_save = if self.reached_end {
            None
        } else {
            self.cursor
        };
        match self.phase {
            CleanupPhase::Scanning => {
                if !self.collected && self.rounds < MAX_PAGINATION_ROUNDS {
                    if cancelled {
                        self.phase = CleanupPhase::Finished;
                        CleanupStep::Stop
                    } else {
                        CleanupStep::Fetch { before: self.cursor }
                    }
                } else if self.expired.len() == 0 {
                    self.phase = CleanupPhase::Finished;
                    CleanupStep::SaveCursor { cursor: to_save }
                } else {
                    self.phase = CleanupPhase::Classifying;
                    CleanupStep::Classify
                }
            },
            CleanupPhase::Classifying => CleanupStep::Classify,
            CleanupPhase::Deleting => {
                if cancelled {
                    self.phase = CleanupPhase::Finished;
                    CleanupStep::Stop
                } else if self.has_delete_jobs {
                    self.phase = CleanupPhase::BackingUp;
                    CleanupStep::DeleteMessages
                } else if self.has_backup_jobs {
                    self.phase = CleanupPhase::Finished;
                    CleanupStep::BackUpMedia
                } else {
                    self.phase = CleanupPhase::Finished;
                    CleanupStep::SaveCursor { cursor: to_save }
                }
            },
            CleanupPhase::BackingUp => {
                self.phase = CleanupPhase::Finished;
                if cancelled {
                    CleanupStep::Stop
                } else if self.has_backup_jobs {
                    CleanupStep::BackUpMedia
                } else {
                    CleanupStep::SaveCursor { cursor: to_save }
                }
            },
            CleanupPhase::Finished => CleanupStep::SaveCursor { cursor: to_save },
        }
    }

    /// Takes in a fetched page: `batch_ids` are its message ids, newest first,
    /// and `batch_expired` those of its messages that are expired, in the same
    /// order (see [`after_batch`]).
    pub fn on_batch(&mut self, batch_ids: &Vec<u64>, batch_expired: Vec<(u64, M)>)
        requires
            old(self).phase is Scanning,
            old(self).may_fetch(),
        ensures
            old(self).within_bounds() ==> final(self).within_bounds(),
            after_batch(*old(self), *final(self), batch_ids@, batch_expired@),
    {
        self.rounds = self.rounds + 1;
        let n = batch_ids.len();
        if n == 0 {
            self.reached_end = true;
            self.collected = true;
            return;
        }
        self.cursor = Some(batch_ids[n - 1]);
        let end = n < MAX_MESSAGES_PER_FETCH as usize;
        self.reached_end = end;
        let mut batch_expired = batch_expired;
        self.expired.append(&mut batch_expired);
        if self.expired.len() >= TARGET_EXPIRED_MESSAGES {
            self.expired.truncate(TARGET_EXPIRED_MESSAGES);
            self.cursor = Some(self.expired[TARGET_EXPIRED_MESSAGES - 1].0);
            self.collected = true;
        } else {
            self.collected = end;
        }
    }

    /// Takes in a fetched page given position by position, newest first: its
    /// messages' ids, their posting times (seconds since the Unix epoch) and
    /// the messages. The expired ones, posted before `cutoff`, are kept with
    /// their ids ([`expired_page`]); then as [`CleanupRun::on_batch`].
    pub fn on_page(&mut self, ids: &Vec<u64>, timestamps: &Vec<i64>, messages: Vec<M>, cutoff: i64)
        requires
            old(self).phase is Scanning,
            old(self).may_fetch(),
            ids@.len() == timestamps@.len(),
            messages@.len() == timestamps@.len(),
        ensures
            old(self).within_bounds() ==> final(self).within_bounds(),
            exists|page: Seq<(u64, M)>|
                picked_at(
                    page,
                    ids@,
                    messages@,
                    positions_where(timestamps@.len(), |i: int| timestamps@[i] < cutoff),
                ) && #[trigger] after_batch(*old(self), *final(self), ids@, page),
    {
        let expired = expired_page(ids, timestamps, messages, cutoff);
        let ghost page = expired@;
        self.on_batch(ids, expired);
        assert(after_batch(*old(self), *self, ids@, page));
    }

    /// Hands out the expired messages for sorting.
    pub fn take_expired(&mut self) -> (r: Vec<(u64, M)>)
        ensures
            old(self).within_bounds() ==> final(self).within_bounds(),
            r@ == old(self).expired@,
            final(self).expired@.len() == 0,
            final(self).phase == old(self).phase,
            final(self).cursor == old(self).cursor,
            final(self).reached_end == old(self).reached_end,
            final(self).rounds == old(self).rounds,
            final(self).collected == old(self).collected,
            final(self).has_delete_jobs == old(self).has_delete_jobs,
            final(self).has_backup_jobs == old(self).has_backup_jobs,
    {
        let mut r = Vec::new();
        std::mem::swap(&mut r, &mut self.expired);
        r
    }

    /// Records how the expired messages were sorted.
    pub fn on_classified(&mut self, has_delete_jobs: bool, has_backup_jobs: bool)
        requires
            old(self).phase is Classifying,
        ensures
            old(self).within_bounds() ==> final(self).within_bounds(),
            final(self).phase is Deleting,
            final(self).has_delete_jobs == has_delete_jobs,
            final(self).has_backup_jobs == has_backup_jobs,
            final(self).cursor == old(self).cursor,
            final(self).expired == old(self).expired,
            final(self).reached_end == old(self).reached_end,
            final(self).rounds == old(self).rounds,
            final(self).collected == old(self).collected,
    {
        self.phase = CleanupPhase::Deleting;
        self.has_delete_jobs = has_delete_jobs;
        self.has_backup_jobs = has_backup_jobs;
    }
}

/// When message `id` was created, in milliseconds since the Unix epoch, as
/// its snowflake tells.
pub open spec fn created_millis(id: u64) -> int {
    (id >> 22) + DISCORD_EPOCH_MILLIS
}

/// Whether message `id` is younger than the instant `cutoff_secs` seconds and
/// `cutoff_nanos` nanoseconds after the Unix epoch.
pub open spec fn created_after(id: u64, cutoff_secs: int, cutoff_nanos: int) -> bool {
    created_millis(id) * 1_000_000 > cutoff_secs * 1_000_000_000 + cutoff_nanos
}

/// The ids of `ids` young enough to be deleted in bulk, in order.
pub open spec fn bulk_eligible(ids: Seq<u64>, cutoff_secs: int, cutoff_nanos: int) -> Seq<u64>
    decreases ids.len(),
{
    if ids.len() == 0 {
        Seq::empty()
    } else {
        let rest = bulk_eligible(ids.drop_last(), cutoff_secs, cutoff_nanos);
        if created_after(ids.last(), cutoff_secs, cutoff_nanos) {
            rest.push(ids.last())
        } else {
            rest
        }
    }
}

/// The `k`-th chunk of at most `BULK_DELETE_MAX` ids of `s`.
pub open spec fn chunk(s: Seq<u64>, k: int) -> Seq<u64> {
    let start = k * BULK_DELETE_MAX;
    let end = if start + BULK_DELETE_MAX <= s.len() {
        start + BULK_DELETE_MAX
    } else {
        s.len() as int
    };
    s.subrange(start, end)
}

/// Whether `chunks` cuts `s` into consecutive chunks of `BULK_DELETE_MAX` ids,
/// the last one possibly shorter.
pub open spec fn chunked(chunks: Seq<Vec<u64>>, s: Seq<u64>) -> bool {
    &&& chunks.len() == (s.len() + BULK_DELETE_MAX - 1) / BULK_DELETE_MAX as int
    &&& forall|k: int| 0 <= k < chunks.len() ==> #[trigger] chunks[k]@ == chunk(s, k)
}

/// How a batch of messages without attachments is deleted: first the bulk
/// deletions, then the messages one by one.
pub struct DeletionPlan {
    /// The instant before which messages are too old for bulk deletion.
    pub cutoff_secs: i64,
    pub cutoff_nanos: u32,
    /// Bulk deletions, each of at most 100 messages.
    pub bulk_chunks: Vec<Vec<u64>>,
    /// Messages deleted one at a time.
    pub singles: Vec<u64>,
}

/// The plan for deleting `ids` given the bulk-deletion cutoff. Messages
/// younger than the cutoff are deleted in bulk, in chunks of 100, when there
/// are at least two of them; otherwise they join the messages left for
/// one-by-one deletion. When any message is left for that, the one-by-one
/// pass goes over every message of the batch, as the deletion loop does.
pub open spec fn deletion_plan_matches(
    plan: DeletionPlan,
    ids: Seq<u64>,
    cutoff_secs: int,
    cutoff_nanos: int,
) -> bool {
    let bulk = bulk_eligible(ids, cutoff_secs, cutoff_nanos);
    let bulk_used = bulk.len() >= BULK_DELETE_MIN;
    let any_single = bulk.len() < ids.len() || (bulk.len() > 0 && !bulk_used);
    &&& plan.cutoff_secs == cutoff_secs
    &&& plan.cutoff_nanos == cutoff_nanos
    &&& chunked(plan.bulk_chunks@, if bulk_used { bulk } else { Seq::empty() })
    &&& plan.singles@ == (if any_single { ids } else { Seq::empty() })
}

fn copy_range(s: &Vec<u64>, start: usize, end: usize) -> (r: Vec<u64>)
    requires
        start <= end <= s@.len(),
    ensures
        r@ == s@.subrange(start as int, end as int),
{
    let mut r: Vec<u64> = Vec::new();
    let mut i = start;
    while i < end
        invariant
            start <= i <= end <= s@.len(),
            r@ == s@.subrange(start as int, i as int),
        decreases end - i,
    {
        r.push(s[i]);
        i = i + 1;
    }
    r
}

fn chunk_ids(s: &Vec<u64>) -> (chunks: Vec<Vec<u64>>)
    ensures
        chunked(chunks@, s@),
{
    let n = s.len();
    let mut chunks: Vec<Vec<u64>> = Vec::new();
    let mut i: usize = 0;
    while i < n
        invariant
            n == s@.len(),
            i <= n,
            i < n ==> i == chunks@.len() * BULK_DELETE_MAX,
            i == n ==> chunks@.len() == (n + BULK_DELETE_MAX - 1) / BULK_DELETE_MAX as int,
            forall|k: int| 0 <= k < chunks@.len() ==> #[trigger] chunks@[k]@ == chunk(s@, k),
        decreases n - i,
    {
        let end = if n - i >= BULK_DELETE_MAX {
            i + BULK_DELETE_MAX
        } else {
            n
        };
        let c = copy_range(s, i, end);
        assert(c@ == chunk(s@, chunks@.len() as int));
        let ghost k = chunks@.len();
        chunks.push(c);
        assert(end == n ==> chunks@.len() == (n + BULK_DELETE_MAX - 1) / BULK_DELETE_MAX as int)
            by (nonlinear_arith)
            requires
                end == n ==> i < n <= i + BULK_DELETE_MAX,
                i == k * BULK_DELETE_MAX,
                chunks@.len() == k + 1,
        ;
        i = end;
    }
    if n == 0 {
        assert(chunks@.len() == 0);
    }
    chunks
}

/// Every message kept for bulk deletion is one of `ids` and younger than the
/// cutoff.
pub proof fn lemma_bulk_eligible_young(ids: Seq<u64>, cutoff_secs: int, cutoff_nanos: int)
    ensures
        bulk_eligible(ids, cutoff_secs, cutoff_nanos).len() <= ids.len(),
        forall|j: int|
            0 <= j < bulk_eligible(ids, cutoff_secs, cutoff_nanos).len() ==> ids.contains(
                #[trigger] bulk_eligible(ids, cutoff_secs, cutoff_nanos)[j],
            ) && created_after(
                bulk_eligible(ids, cutoff_secs, cutoff_nanos)[j],
                cutoff_secs,
                cutoff_nanos,
            ),
    decreases ids.len(),
{
    if ids.len() > 0 {
        let init = ids.drop_last();
        lemma_bulk_eligible_young(init, cutoff_secs, cutoff_nanos);
        let b = bulk_eligible(ids, cutoff_secs, cutoff_nanos);
        let bi = bulk_eligible(init, cutoff_secs, cutoff_nanos);
        assert forall|j: int| 0 <= j < b.len() implies ids.contains(#[trigger] b[j])
            && created_after(b[j], cutoff_secs, cutoff_nanos) by {
            if j < bi.len() {
                assert(b[j] == bi[j]);
                let k = choose|k: int| 0 <= k < init.len() && init[k] == bi[j];
                assert(ids[k] == init[k]);
            } else {
                assert(b[j] == ids.last());
                assert(ids[ids.len() - 1] == ids.last());
            }
        }
    }
}

/// Discord's limits on bulk deletion hold in every plan: only messages
/// younger than 14 days (the cutoff) are deleted in bulk, each bulk request
/// holds between 1 and 100 of them, and bulk deletion is used only for at
/// least two messages.
pub proof fn lemma_plan_respects_bulk_limits(
    plan: DeletionPlan,
    ids: Seq<u64>,
    cutoff_secs: int,
    cutoff_nanos: int,
)
    requires
        deletion_plan_matches(plan, ids, cutoff_secs, cutoff_nanos),
    ensures
        forall|k: int|
            0 <= k < plan.bulk_chunks@.len() ==> 1 <= (#[trigger] plan.bulk_chunks@[k])@.len()
                <= BULK_DELETE_MAX,
        forall|k: int, j: int|
            0 <= k < plan.bulk_chunks@.len() && 0 <= j < plan.bulk_chunks@[k]@.len() ==> ids.contains(
                #[trigger] plan.bulk_chunks@[k]@[j],
            ) && created_after(plan.bulk_chunks@[k]@[j], cutoff_secs, cutoff_nanos),
        plan.bulk_chunks@.len() > 0 ==> bulk_eligible(ids, cutoff_secs, cutoff_nanos).len()
            >= BULK_DELETE_MIN,
{
    lemma_bulk_eligible_young(ids, cutoff_secs, cutoff_nanos);
    let bulk = bulk_eligible(ids, cutoff_secs, cutoff_nanos);
    let used = if bulk.len() >= BULK_DELETE_MIN { bulk } else { Seq::empty() };
    assert forall|k: int| 0 <= k < plan.bulk_chunks@.len() implies 1 <= (
    #[trigger] plan.bulk_chunks@[k])@.len() <= BULK_DELETE_MAX by {
        assert(plan.bulk_chunks@[k]@ == chunk(used, k));
        assert(k * BULK_DELETE_MAX < used.len()) by (nonlinear_arith)
            requires
                0 <= k < (used.len() + BULK_DELETE_MAX - 1) / BULK_DELETE_MAX as int,
                BULK_DELETE_MAX == 100,
        ;
    }
    assert forall|k: int, j: int|
        0 <= k < plan.bulk_chunks@.len() && 0 <= j < plan.bulk_chunks@[k]@.len() implies ids.contains(
        #[trigger] plan.bulk_chunks@[k]@[j],
    ) && created_after(plan.bulk_chunks@[k]@[j], cutoff_secs, cutoff_nanos) by {
        assert(plan.bulk_chunks@[k]@ == chunk(used, k));
        assert(k * BULK_DELETE_MAX < used.len()) by (nonlinear_arith)
            requires
                0 <= k < (used.len() + BULK_DELETE_MAX - 1) / BULK_DELETE_MAX as int,
                BULK_DELETE_MAX == 100,
        ;
        assert(plan.bulk_chunks@[k]@[j] == used[k * BULK_DELETE_MAX + j]);
    }
}

/// Plans the deletion of the messages `ids` (none of them zero), with the
/// bulk-deletion cutoff at `cutoff_secs` seconds and `cutoff_nanos`
/// nanoseconds after the Unix epoch.
pub fn plan_deletion_at(ids: &Vec<u64>, cutoff_secs: i64, cutoff_nanos: u32) -> (plan:
    DeletionPlan)
    requires
        forall|i: int| 0 <= i < ids@.len() ==> #[trigger] ids@[i] != 0,
        cutoff_nanos < 1_000_000_000,
    ensures
        deletion_plan_matches(plan, ids@, cutoff_secs as int, cutoff_nanos as int),
{
    let n = ids.len();
    let mut bulk: Vec<u64> = Vec::new();
    let mut i: usize = 0;
    while i < n
        invariant
            i <= n == ids@.len(),
            forall|j: int| 0 <= j < ids@.len() ==> #[trigger] ids@[j] != 0,
            bulk@ == bulk_eligible(ids@.take(i as int), cutoff_secs as int, cutoff_nanos as int),
            bulk@.len() <= i,
        decreases n - i,
    {
        assert(ids@.take(i + 1).drop_last() =~= ids@.take(i as int));
        let id = ids[i];
        let created = message_created_at_millis(id);
        let created_nanos: i128 = created as i128 * 1_000_000;
        let cutoff: i128 = cutoff_secs as i128 * 1_000_000_000 + cutoff_nanos as i128;
        if created_nanos > cutoff {
            bulk.push(id);
        }
        i = i + 1;
    }
    assert(ids@.take(n as int) =~= ids@);
    let bulk_used = bulk.len() >= BULK_DELETE_MIN;
    let any_single = bulk.len() < n || (bulk.len() > 0 && !bulk_used);
    let bulk_chunks = if bulk_used {
        chunk_ids(&bulk)
    } else {
        let empty: Vec<u64> = Vec::new();
        chunk_ids(&empty)
    };
    let singles = if any_single {
        copy_range(ids, 0, n)
    } else {
        Vec::new()
    };
    assert(ids@.subrange(0, n as int) =~= ids@);
    DeletionPlan { cutoff_secs, cutoff_nanos, bulk_chunks, singles }
}

/// Whether the instant 14 days before `now` lies in `chrono`'s range of
/// dates; out of it, subtracting the days fails.
pub open spec fn bulk_cutoff_exists(now: UtcNow) -> bool {
    now.unix_seconds - BULK_DELETE_THRESHOLD_SECONDS >= MIN_UTC_SECONDS
}

/// Plans the deletion of the messages `ids` (none of them zero) at the time
/// `now`: the cutoff for bulk deletion lies 14 days before it. `None` when
/// that instant is before the first date `chrono` represents (the cutoff
/// cannot be computed).
pub fn plan_deletion_from(ids: &Vec<u64>, now: &UtcNow) -> (plan: Option<DeletionPlan>)
    requires
        forall|i: int| 0 <= i < ids@.len() ==> #[trigger] ids@[i] != 0,
        now.nanos < 1_000_000_000,
    ensures
        plan is Some <==> bulk_cutoff_exists(*now),
        plan matches Some(p) ==> deletion_plan_matches(
            p,
            ids@,
            now.unix_seconds - BULK_DELETE_THRESHOLD_SECONDS,
            now.nanos as int,
        ),
{
    if now.unix_seconds < MIN_UTC_SECONDS + BULK_DELETE_THRESHOLD_SECONDS {
        None
    } else {
        Some(plan_deletion_at(ids, now.unix_seconds - BULK_DELETE_THRESHOLD_SECONDS, now.nanos))
    }
}

/// Plans the deletion of the messages `ids` (none of them zero) now: the
/// cutoff for bulk deletion lies 14 days before the current time, which is
/// read from the clock.
pub fn plan_deletion(ids: &Vec<u64>) -> (plan: DeletionPlan)
    requires
        forall|i: int| 0 <= i < ids@.len() ==> #[trigger] ids@[i] != 0,
    ensures
        exists|now: UtcNow|
            0 <= now.unix_seconds && now.nanos < 1_000_000_000 && deletion_plan_matches(
                plan,
                ids@,
                now.unix_seconds - BULK_DELETE_THRESHOLD_SECONDS,
                now.nanos as int,
            ) && #[trigger] bulk_cutoff_exists(now),
{
    let now = utc_now();
    let plan = plan_deletion_from(ids, &now);
    assert(bulk_cutoff_exists(now));
    plan.unwrap()
}

/// An attachment downloaded to local storage.
pub struct DownloadedFile {
    pub local_path: String,
    pub filename: String,
}

/// The queue entry of attachment `file` of message `message_id`: waiting,
/// with no failure counted.
pub open spec fn queued_backup(
    message_id: u64,
    channel_id: u64,
    timestamp: i64,
    file: DownloadedFile,
) -> PendingBackup {
    PendingBackup {
        message_id,
        channel_id,
        local_path: file.local_path,
        original_filename: file.filename,
        timestamp,
        retry_count: 0,
        status: BackupStatus::Pending,
    }
}

/// Queues the downloaded attachments of message `message_id` for upload.
/// Once they are queued, the message may be deleted from Discord.
pub fn enqueue_downloads(
    queue: &mut BackupQueue,
    message_id: u64,
    channel_id: u64,
    timestamp: i64,
    files: &Vec<DownloadedFile>,
)
    ensures
        old(queue).wf() ==> final(queue).wf(),
        final(queue).entries@ == with_all_added(
            old(queue).entries@,
            Seq::new(
                files@.len(),
                |i: int| queued_backup(message_id, channel_id, timestamp, files@[i]),
            ),
        ),
{
    let ghost all = Seq::new(
        files@.len(),
        |i: int| queued_backup(message_id, channel_id, timestamp, files@[i]),
    );
    let n = files.len();
    let mut i: usize = 0;
    while i < n
        invariant
            i <= n == files@.len() == all.len(),
            all == Seq::new(
                files@.len(),
                |i: int| queued_backup(message_id, channel_id, timestamp, files@[i]),
            ),
            queue.entries@ == with_all_added(old(queue).entries@, all.take(i as int)),
            old(queue).wf() ==> queue.wf(),
        decreases n - i,
    {
        assert(all.take(i + 1).drop_last() =~= all.take(i as int));
        let pending = PendingBackup {
            message_id,
            channel_id,
            local_path: files[i].local_path.clone(),
            original_filename: files[i].filename.clone(),
            timestamp,
            retry_count: 0,
            status: BackupStatus::Pending,
        };
        queue.add(pending);
        i = i + 1;
    }
    assert(all.take(n as int) =~= all);
}

/// What the deletion of a planned batch does next.
pub enum DeletionStep {
    /// Deletes the `chunk`-th bulk chunk in one request.
    BulkDelete { chunk: usize },
    /// Deletes one message.
    DeleteOne { message_id: u64 },
    /// The run was cancelled; the rest is left.
    Stop,
    /// Every request of the plan was made.
    Finished,
}

/// The request after the first `done` requests of `plan` (bulk chunks first,
/// then single messages). The outcome of a request does not matter: a failed
/// deletion is logged and the next one is made. Cancellation is checked
/// before each request.
pub fn deletion_step(plan: &DeletionPlan, done: usize, cancelled: bool) -> (step: DeletionStep)
    ensures
        ({
            let nb = plan.bulk_chunks@.len();
            let ns = plan.singles@.len();
            if done >= nb + ns {
                step is Finished
            } else if cancelled {
                step is Stop
            } else if done < nb {
                step == (DeletionStep::BulkDelete { chunk: done })
            } else {
                step == (DeletionStep::DeleteOne { message_id: plan.singles@[done - nb] })
            }
        }),
{
    let nb = plan.bulk_chunks.len();
    let ns = plan.singles.len();
    if done >= nb && done - nb >= ns {
        DeletionStep::Finished
    } else if cancelled {
        DeletionStep::Stop
    } else if done < nb {
        DeletionStep::BulkDelete { chunk: done }
    } else {
        DeletionStep::DeleteOne { message_id: plan.singles[done - nb] }
    }
}

/// Where the backup of one message with attachments stands.
pub enum BackupJobState {
    /// Its attachments are being downloaded.
    Downloading,
    /// Its files were queued; the queue is being saved.
    Saving,
    /// Nothing more is done for the message.
    Done,
}

/// What happened since the last step of a message's backup.
pub enum BackupJobEvent {
    /// The downloaded files, or `None` when the download failed.
    Downloaded { files: Option<Vec<DownloadedFile>> },
    /// Whether saving the queue succeeded.
    QueueSaved { saved: bool },
}

/// What the caller does next for a message's backup.
pub enum BackupJobAction {
    /// Saves the queue, then reports whether that succeeded.
    SaveQueue,
    /// Deletes the message from Discord: its files are tracked.
    DeleteMessage,
    /// Leaves the message in Discord: its files could not be downloaded or
    /// tracked, so a later run tries again.
    KeepMessage,
    /// The event does not belong to this state; nothing to do.
    Ignore,
}

/// One step of the backup of message `message_id`, posted at `timestamp` in
/// channel `channel_id`. The message is deleted only once its downloaded files
/// are queued and the queue is saved.
pub fn backup_job_step(
    queue: &mut BackupQueue,
    message_id: u64,
    channel_id: u64,
    timestamp: i64,
    state: BackupJobState,
    event: BackupJobEvent,
) -> (r: (BackupJobState, BackupJobAction))
    ensures
        old(queue).wf() ==> final(queue).wf(),
        r.1 is DeleteMessage ==> state is Saving && event matches BackupJobEvent::QueueSaved {
            saved: true,
        },
        match (state, event) {
            (BackupJobState::Downloading, BackupJobEvent::Downloaded { files }) => match files {
                None => {
                    &&& r.0 is Done
                    &&& r.1 is KeepMessage
                    &&& final(queue).entries@ == old(queue).entries@
                },
                Some(fs) => {
                    &&& r.0 is Saving
                    &&& r.1 is SaveQueue
                    &&& final(queue).entries@ == with_all_added(
                        old(queue).entries@,
                        Seq::new(
                            fs@.len(),
                            |i: int| queued_backup(message_id, channel_id, timestamp, fs@[i]),
                        ),
                    )
                },
            },
            (BackupJobState::Saving, BackupJobEvent::QueueSaved { saved }) => {
                &&& r.0 is Done
                &&& final(queue).entries@ == old(queue).entries@
                &&& if saved {
                    r.1 is DeleteMessage
                } else {
                    r.1 is KeepMessage
                }
            },
            _ => r.0 == state && r.1 is Ignore && final(queue).entries@ == old(queue).entries@,
        },
{
    match (state, event) {
        (BackupJobState::Downloading, BackupJobEvent::Downloaded { files }) => match files {
            None => (BackupJobState::Done, BackupJobAction::KeepMessage),
            Some(fs) => {
                enqueue_downloads(queue, message_id, channel_id, timestamp, &fs);
                (BackupJobState::Saving, BackupJobAction::SaveQueue)
            },
        },
        (BackupJobState::Saving, BackupJobEvent::QueueSaved { saved }) => {
            if saved {
                (BackupJobState::Done, BackupJobAction::DeleteMessage)
            } else {
                (BackupJobState::Done, BackupJobAction::KeepMessage)
            }
        },
        (state, _) => (state, BackupJobAction::Ignore),
    }
}

} // verus!
