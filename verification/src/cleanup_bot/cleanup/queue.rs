//! Which fetched messages are expired, and how expired messages are sorted:
//! those without attachments are simply deleted, those with attachments are
//! backed up before they are deleted.
//!
//! The caller keeps the messages; these functions answer with positions in
//! the lists they are given.

use vstd::prelude::*;

use crate::text::{
    decimal, format_zero_padded, lemma_decimal_digits, lemma_parse_decimal_roundtrip,
    lemma_zero_padded_reads_back, parse_unsigned, pow10, u64_to_decimal, zero_padded,
};

verus! {

/// Seconds in a day.
pub const SECONDS_PER_DAY: i64 = 86_400;

/// The positions below `n` that satisfy `keep`, in increasing order.
pub open spec fn positions_where(n: nat, keep: spec_fn(int) -> bool) -> Seq<usize>
    decreases n,
{
    if n == 0 {
        Seq::empty()
    } else {
        let rest = positions_where((n - 1) as nat, keep);
        if keep(n - 1) {
            rest.push((n - 1) as usize)
        } else {
            rest
        }
    }
}

/// The instant, in seconds since the Unix epoch, before which a message is
/// expired when messages are kept `retention_days` days and it is now
/// `now_secs`.
pub fn retention_cutoff(now_secs: i64, retention_days: u32) -> (c: i64)
    requires
        now_secs - retention_days * SECONDS_PER_DAY >= i64::MIN,
    ensures
        c == now_secs - retention_days * SECONDS_PER_DAY,
{
    let span: i64 = retention_days as i64 * SECONDS_PER_DAY;
    now_secs - span
}

/// The positions of the expired messages among messages posted at
/// `timestamps` (seconds since the Unix epoch): those posted before `cutoff`.
pub fn filter_expired_messages(timestamps: &Vec<i64>, cutoff: i64) -> (r: Vec<usize>)
    ensures
        r@ == positions_where(timestamps@.len(), |i: int| timestamps@[i] < cutoff),
{
    let ghost keep = |i: int| timestamps@[i] < cutoff;
    let mut r: Vec<usize> = Vec::new();
    let mut i: usize = 0;
    while i < timestamps.len()
        invariant
            i <= timestamps@.len(),
            keep == (|i: int| timestamps@[i] < cutoff),
            r@ == positions_where(i as nat, keep),
        decreases timestamps@.len() - i,
    {
        if timestamps[i] < cutoff {
            r.push(i);
        }
        i = i + 1;
    }
    r
}

/// Whether `page` holds, in order, the id and the message at each position
/// of `positions`.
pub open spec fn picked_at<M>(
    page: Seq<(u64, M)>,
    ids: Seq<u64>,
    messages: Seq<M>,
    positions: Seq<usize>,
) -> bool {
    &&& page.len() == positions.len()
    &&& forall|k: int|
        0 <= k < page.len() ==> #[trigger] page[k] == (
            ids[positions[k] as int],
            messages[positions[k] as int],
        )
}

/// The expired messages of a fetched page, each with its id, in page order:
/// `ids`, `timestamps` and `messages` describe the page's messages position by
/// position, and a message is expired when it was posted before `cutoff`
/// (the positions that [`filter_expired_messages`] gives).
pub fn expired_page<M>(ids: &Vec<u64>, timestamps: &Vec<i64>, messages: Vec<M>, cutoff: i64) -> (r:
    Vec<(u64, M)>)
    requires
        ids@.len() == timestamps@.len(),
        messages@.len() == timestamps@.len(),
    ensures
        picked_at(
            r@,
            ids@,
            messages@,
            positions_where(timestamps@.len(), |i: int| timestamps@[i] < cutoff),
        ),
{
    let ghost keep = |i: int| timestamps@[i] < cutoff;
    let ghost all = messages@;
    let n = messages.len();
    let mut rest = messages;
    let mut reversed: Vec<M> = Vec::new();
    while rest.len() > 0
        invariant
            rest@.len() + reversed@.len() == n == all.len(),
            rest@ == all.take(rest@.len() as int),
            forall|k: int| 0 <= k < reversed@.len() ==> #[trigger] reversed@[k] == all[n - 1 - k],
        decreases rest@.len(),
    {
        let m = rest.pop().unwrap();
        assert(rest@ =~= all.take(rest@.len() as int));
        reversed.push(m);
    }
    let mut out: Vec<(u64, M)> = Vec::new();
    let mut i: usize = 0;
    while reversed.len() > 0
        invariant
            i + reversed@.len() == n == all.len() == ids@.len() == timestamps@.len(),
            keep == (|i: int| timestamps@[i] < cutoff),
            forall|k: int|
                0 <= k < reversed@.len() ==> #[trigger] reversed@[k] == all[n - 1 - k],
            picked_at(out@, ids@, all, positions_where(i as nat, keep)),
        decreases reversed@.len(),
    {
        let m = reversed.pop().unwrap();
        assert(m == all[i as int]);
        if timestamps[i] < cutoff {
            out.push((ids[i], m));
            assert(positions_where((i + 1) as nat, keep) == positions_where(i as nat, keep).push(
                i,
            ));
        } else {
            assert(positions_where((i + 1) as nat, keep) == positions_where(i as nat, keep));
        }
        i = i + 1;
    }
    out
}

/// Expired messages sorted by what is done with them.
pub struct Classified {
    /// Positions of the messages without attachments: deleted.
    pub delete_jobs: Vec<usize>,
    /// Positions of the messages with attachments: backed up, then deleted.
    pub backup_jobs: Vec<usize>,
}

/// Sorts messages by whether they have attachments, given the number of
/// attachments of each.
pub fn classify_messages(attachment_counts: &Vec<usize>) -> (c: Classified)
    ensures
        c.delete_jobs@ == positions_where(
            attachment_counts@.len(),
            |i: int| attachment_counts@[i] == 0,
        ),
        c.backup_jobs@ == positions_where(
            attachment_counts@.len(),
            |i: int| attachment_counts@[i] > 0,
        ),
{
    let ghost none = |i: int| attachment_counts@[i] == 0;
    let ghost some = |i: int| attachment_counts@[i] > 0;
    let mut delete_jobs: Vec<usize> = Vec::new();
    let mut backup_jobs: Vec<usize> = Vec::new();
    let mut i: usize = 0;
    while i < attachment_counts.len()
        invariant
            i <= attachment_counts@.len(),
            none == (|i: int| attachment_counts@[i] == 0),
            some == (|i: int| attachment_counts@[i] > 0),
            delete_jobs@ == positions_where(i as nat, none),
            backup_jobs@ == positions_where(i as nat, some),
        decreases attachment_counts@.len() - i,
    {
        if attachment_counts[i] == 0 {
            delete_jobs.push(i);
        } else {
            backup_jobs.push(i);
        }
        i = i + 1;
    }
    Classified { delete_jobs, backup_jobs }
}

/// Every expired message goes to exactly one of the two lists: a position is
/// listed for deletion or for backup, never both.
pub proof fn lemma_classification_partitions(counts: Seq<usize>, i: int)
    requires
        0 <= i < counts.len() <= usize::MAX,
    ensures
        positions_where(counts.len(), |k: int| counts[k] == 0).contains(i as usize)
            != positions_where(counts.len(), |k: int| counts[k] > 0).contains(i as usize),
{
    lemma_positions_where_contains(counts.len(), |k: int| counts[k] == 0, i);
    lemma_positions_where_contains(counts.len(), |k: int| counts[k] > 0, i);
}

/// The listed positions are below `n` and satisfy `keep`.
proof fn lemma_positions_where_members(n: nat, keep: spec_fn(int) -> bool)
    requires
        n <= usize::MAX,
    ensures
        positions_where(n, keep).len() <= n,
        forall|k: int|
            0 <= k < positions_where(n, keep).len() ==> (#[trigger] positions_where(n, keep)[k])
                < n && keep(positions_where(n, keep)[k] as int),
    decreases n,
{
    if n > 0 {
        lemma_positions_where_members((n - 1) as nat, keep);
        let rest = positions_where((n - 1) as nat, keep);
        let all = positions_where(n, keep);
        assert forall|k: int| 0 <= k < all.len() implies (#[trigger] all[k]) < n && keep(
            all[k] as int,
        ) by {
            if k < rest.len() {
                assert(all[k] == rest[k]);
            }
        }
    }
}

/// A position is listed exactly when it is below `n` and satisfies `keep`.
pub proof fn lemma_positions_where_contains(n: nat, keep: spec_fn(int) -> bool, i: int)
    requires
        n <= usize::MAX,
        0 <= i <= usize::MAX,
    ensures
        positions_where(n, keep).contains(i as usize) <==> (i < n && keep(i)),
    decreases n,
{
    if n > 0 {
        lemma_positions_where_contains((n - 1) as nat, keep, i);
        lemma_positions_where_members((n - 1) as nat, keep);
        let rest = positions_where((n - 1) as nat, keep);
        let all = positions_where(n, keep);
        if keep(n - 1) {
            if all.contains(i as usize) {
                let k = choose|k: int| 0 <= k < all.len() && all[k] == i as usize;
                if k < rest.len() {
                    assert(rest[k] == all[k]);
                }
            }
            if i < n && keep(i) {
                if i < n - 1 {
                    let k = choose|k: int| 0 <= k < rest.len() && rest[k] == i as usize;
                    assert(all[k] == rest[k]);
                } else {
                    assert(all[rest.len() as int] == i as usize);
                }
            }
        }
    }
}

/// The folder name of a day: `YYYY-MM-DD`.
pub open spec fn day_folder(year: nat, month: nat, day: nat) -> Seq<char> {
    zero_padded(year, 4) + "-"@ + zero_padded(month, 2) + "-"@ + zero_padded(day, 2)
}

/// Where an attachment of message `message_id`, posted on the given day, is
/// downloaded: `download_dir/YYYY-MM-DD/<message id>_<file name>`.
pub open spec fn download_path(
    download_dir: Seq<char>,
    year: nat,
    month: nat,
    day: nat,
    message_id: nat,
    file_name: Seq<char>,
) -> Seq<char> {
    download_dir + "/"@ + day_folder(year, month, day) + "/"@ + decimal(message_id) + "_"@
        + file_name
}

/// A download lands in a folder named after the message's day, and the path
/// reads back as what it was built from: after `download_dir/` come four
/// digits spelling the year, `-`, two digits spelling the month, `-`, two
/// digits spelling the day and `/` (the `YYYY-MM-DD` folder that the remote
/// layout reads the date from); then the message id in decimal, `_` and the
/// file name.
pub proof fn lemma_download_path_reads_back(
    download_dir: Seq<char>,
    year: nat,
    month: nat,
    day: nat,
    message_id: nat,
    file_name: Seq<char>,
)
    requires
        year <= 9999,
        1 <= month <= 12,
        1 <= day <= 31,
        message_id <= u64::MAX,
    ensures
        ({
            let p = download_path(download_dir, year, month, day, message_id, file_name);
            let o = download_dir.len() as int;
            let q = p.len() - file_name.len();
            &&& o + 13 <= q <= p.len()
            &&& p.subrange(0, o) == download_dir
            &&& p[o] == '/'
            &&& p[o + 5] == '-'
            &&& p[o + 8] == '-'
            &&& p[o + 11] == '/'
            &&& parse_unsigned(p.subrange(o + 1, o + 5), 9999) == Some(year)
            &&& parse_unsigned(p.subrange(o + 6, o + 8), 12) == Some(month)
            &&& parse_unsigned(p.subrange(o + 9, o + 11), 31) == Some(day)
            &&& p[q - 1] == '_'
            &&& parse_unsigned(p.subrange(o + 12, q - 1), u64::MAX as nat) == Some(message_id)
            &&& p.subrange(q, p.len() as int) == file_name
        }),
{
    reveal_strlit("/");
    reveal_strlit("-");
    reveal_strlit("_");
    reveal_with_fuel(pow10, 5);
    lemma_zero_padded_reads_back(year, 4, 9999);
    lemma_zero_padded_reads_back(month, 2, 12);
    lemma_zero_padded_reads_back(day, 2, 31);
    lemma_parse_decimal_roundtrip(message_id, u64::MAX as nat);
    lemma_decimal_digits(message_id);
    let y = zero_padded(year, 4);
    let m = zero_padded(month, 2);
    let d = zero_padded(day, 2);
    let i = decimal(message_id);
    let p = download_path(download_dir, year, month, day, message_id, file_name);
    let o = download_dir.len() as int;
    let q = p.len() - file_name.len();
    assert(p =~= download_dir + "/"@ + y + "-"@ + m + "-"@ + d + "/"@ + i + "_"@ + file_name);
    assert(p.subrange(0, o) =~= download_dir);
    assert(p.subrange(o + 1, o + 5) =~= y);
    assert(p.subrange(o + 6, o + 8) =~= m);
    assert(p.subrange(o + 9, o + 11) =~= d);
    assert(p.subrange(o + 12, q - 1) =~= i);
    assert(p.subrange(q, p.len() as int) =~= file_name);
}

/// Builds the download path of an attachment.
pub fn attachment_download_path(
    download_dir: &str,
    year: u32,
    month: u32,
    day: u32,
    message_id: u64,
    file_name: &str,
) -> (s: String)
    ensures
        s@ == download_path(
            download_dir@,
            year as nat,
            month as nat,
            day as nat,
            message_id as nat,
            file_name@,
        ),
{
    let mut s = String::from_str(download_dir);
    s.append("/");
    s.append(format_zero_padded(year as u64, 4).as_str());
    s.append("-");
    s.append(format_zero_padded(month as u64, 2).as_str());
    s.append("-");
    s.append(format_zero_padded(day as u64, 2).as_str());
    s.append("/");
    s.append(u64_to_decimal(message_id).as_str());
    s.append("_");
    s.append(file_name);
    s
}

} // verus!
