//! The scan behind `purge-user`: a channel's history, page by page, for the
//! messages of one user.
//!
//! Fetching is the caller's part; [`UserScan`] says what to fetch next and
//! collects the matches.

use vstd::prelude::*;

verus! {

/// Messages fetched per request.
pub const MAX_MESSAGES_PER_FETCH: u8 = 100;

/// A manual, on-demand scan: the number of requests is bounded so that a very
/// old channel cannot be paged forever, but the scan goes much deeper than the
/// scheduled cleanup does.
pub const MAX_SCAN_ROUNDS: usize = 500;

/// The ids of the messages of `page` (pairs of message id and author id)
/// written by `user_id`, in order.
pub open spec fn authored_by(page: Seq<(u64, u64)>, user_id: u64) -> Seq<u64>
    decreases page.len(),
{
    if page.len() == 0 {
        Seq::empty()
    } else {
        let rest = authored_by(page.drop_last(), user_id);
        if page.last().1 == user_id {
            rest.push(page.last().0)
        } else {
            rest
        }
    }
}

/// A scan of one channel for the messages of one user.
pub struct UserScan {
    pub user_id: u64,
    /// The message to continue before; the newest messages first.
    pub cursor: Option<u64>,
    /// The ids of the user's messages found so far, newest first.
    pub matches: Vec<u64>,
    /// Pages fetched so far.
    pub rounds: usize,
    /// Whether the scan is over.
    pub done: bool,
}

impl UserScan {
    /// Starts a scan from the newest message.
    pub fn new(user_id: u64) -> (r: Self)
        ensures
            r.user_id == user_id,
            r.cursor is None,
            r.matches@.len() == 0,
            r.rounds == 0,
            !r.done,
    {
        UserScan { user_id, cursor: None, matches: Vec::new(), rounds: 0, done: false }
    }

    /// The page to fetch next: `Some(before)` asks for up to 100 messages
    /// before `before` (the newest when `None`); `None` ends the scan.
    pub fn next_fetch(&self) -> (r: Option<Option<u64>>)
        ensures
            r == (if !self.done && self.rounds < MAX_SCAN_ROUNDS {
                Some(self.cursor)
            } else {
                None
            }),
    {
        if !self.done && self.rounds < MAX_SCAN_ROUNDS {
            Some(self.cursor)
        } else {
            None
        }
    }

    /// Takes in a fetched page, as pairs of message id and author id, newest
    /// first. An empty page or one shorter than a full fetch ends the scan.
    pub fn on_page(&mut self, page: &Vec<(u64, u64)>)
        requires
            !old(self).done,
            old(self).rounds < MAX_SCAN_ROUNDS,
        ensures
            final(self).user_id == old(self).user_id,
            final(self).rounds == old(self).rounds + 1,
            final(self).matches@ == old(self).matches@ + authored_by(page@, old(self).user_id),
            final(self).cursor == (if page@.len() == 0 {
                old(self).cursor
            } else {
                Some(page@.last().0)
            }),
            final(self).done == (page@.len() < MAX_MESSAGES_PER_FETCH as nat),
    {
        self.rounds = self.rounds + 1;
        let n = page.len();
        if n == 0 {
            self.done = true;
            return;
        }
        self.cursor = Some(page[n - 1].0);
        let ghost start = self.matches@;
        let mut i: usize = 0;
        while i < n
            invariant
                i <= n == page@.len(),
                self.user_id == old(self).user_id,
                self.rounds == old(self).rounds + 1,
                self.cursor == Some(page@.last().0),
                self.matches@ == start + authored_by(page@.take(i as int), self.user_id),
            decreases n - i,
        {
            assert(page@.take(i + 1).drop_last() =~= page@.take(i as int));
            if page[i].1 == self.user_id {
                self.matches.push(page[i].0);
            }
            i = i + 1;
        }
        assert(page@.take(n as int) =~= page@);
        self.done = n < MAX_MESSAGES_PER_FETCH as usize;
    }

    /// The ids of the user's messages found, newest first.
    pub fn into_matches(self) -> (r: Vec<u64>)
        ensures
            r@ == self.matches@,
    {
        self.matches
    }
}

} // verus!
