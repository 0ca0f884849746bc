//! The few pure functions of `serenity` that the bot's logic relies on.

use vstd::prelude::*;

use crate::text::{has_prefix, parse_unsigned, utf8_len};

verus! {

/// What parsing a snowflake id gives: a decimal `u64` that is not zero.
pub open spec fn parse_id(s: Seq<char>) -> Option<nat> {
    match parse_unsigned(s, u64::MAX as nat) {
        Some(v) => if v > 0 {
            Some(v)
        } else {
            None
        },
        None => None,
    }
}

/// Whether `serenity::utils::parse_user_mention` panics on `s`: it slices off
/// the last byte, which is not a character boundary when `s` starts with
/// `<@` and ends with a character outside ASCII.
pub open spec fn mention_slice_panics(s: Seq<char>) -> bool {
    s.len() >= 2 && s[0] == '<' && s[1] == '@' && s.last() as u32 >= 0x80
}

/// What `serenity::utils::parse_user_mention` returns: texts shorter than four
/// bytes are refused; after `<@!` or `<@`, everything but the last character
/// must be a non-zero id. The last character itself is not inspected.
pub open spec fn spec_parse_user_mention(s: Seq<char>) -> Option<nat> {
    if utf8_len(s) < 4 {
        None
    } else if has_prefix(s, "<@!"@) {
        parse_id(s.subrange(3, s.len() - 1))
    } else if has_prefix(s, "<@"@) {
        parse_id(s.subrange(2, s.len() - 1))
    } else {
        None
    }
}

/// Calls `serenity::utils::parse_user_mention`, which reads a user id out of
/// a mention such as `<@123>` or `<@!123>`. The contract restates its source:
/// the byte-length check, the two prefixes, and the `UserId` parse of the text
/// between the prefix and the last character.
#[verifier::external_body]
pub(crate) fn parse_user_mention(s: &str) -> (r: Option<u64>)
    requires
        !mention_slice_panics(s@),
    ensures
        r matches Some(v) ==> spec_parse_user_mention(s@) == Some(v as nat),
        r is None ==> spec_parse_user_mention(s@) is None,
{
    serenity::utils::parse_user_mention(s).map(|u| u.get())
}

/// Calls `<UserId as FromStr>::from_str`, which `serenity` forwards to the
/// parse of a `NonZeroU64`: a decimal `u64` that is not zero.
#[verifier::external_body]
pub(crate) fn parse_user_id_number(s: &str) -> (r: Option<u64>)
    ensures
        r matches Some(v) ==> parse_id(s@) == Some(v as nat),
        r is None ==> parse_id(s@) is None,
{
    s.parse::<serenity::all::UserId>().ok().map(|u| u.get())
}

/// Milliseconds since 1 January 2015, the epoch of Discord snowflakes.
pub const DISCORD_EPOCH_MILLIS: u64 = 1_420_070_400_000;

/// Calls `MessageId::created_at` and reads its milliseconds since the Unix
/// epoch. `serenity` computes the timestamp as `(id >> 22) + DISCORD_EPOCH`
/// milliseconds; `MessageId::new` panics on zero, hence the `requires`.
#[verifier::external_body]
pub(crate) fn message_created_at_millis(message_id: u64) -> (ms: i64)
    requires
        message_id != 0,
    ensures
        ms == (message_id >> 22) + DISCORD_EPOCH_MILLIS,
{
    serenity::all::MessageId::new(message_id).created_at().timestamp_millis()
}

} // verus!
