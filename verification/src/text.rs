//! Decimal numbers and small text helpers shared by the bots.

use vstd::prelude::*;
use vstd::string::StringSliceAdditionalSpecFns;

verus! {

/// The character of a decimal digit `d` (`d < 10`).
pub open spec fn digit_char(d: nat) -> char {
    ((48 + d) as u32) as char
}

/// Decimal representation of `n`, without sign and without leading zeros.
pub open spec fn decimal(n: nat) -> Seq<char>
    decreases n,
{
    if n < 10 {
        seq![digit_char(n)]
    } else {
        decimal(n / 10).push(digit_char(n % 10))
    }
}

/// The text of a single decimal digit.
fn digit_text(d: u64) -> (s: &'static str)
    requires
        d < 10,
    ensures
        s@ == seq![digit_char(d as nat)],
{
    proof {
        reveal_strlit("0");
        reveal_strlit("1");
        reveal_strlit("2");
        reveal_strlit("3");
        reveal_strlit("4");
        reveal_strlit("5");
        reveal_strlit("6");
        reveal_strlit("7");
        reveal_strlit("8");
        reveal_strlit("9");
    }
    match d {
        0 => "0",
        1 => "1",
        2 => "2",
        3 => "3",
        4 => "4",
        5 => "5",
        6 => "6",
        7 => "7",
        8 => "8",
        _ => "9",
    }
}

/// Formats `n` in decimal, as `n.to_string()` does.
pub fn u64_to_decimal(n: u64) -> (s: String)
    ensures
        s@ == decimal(n as nat),
    decreases n,
{
    if n < 10 {
        String::from_str(digit_text(n))
    } else {
        let mut s = u64_to_decimal(n / 10);
        s.append(digit_text(n % 10));
        s
    }
}

/// Whether `c` is an ASCII decimal digit.
pub open spec fn is_digit(c: char) -> bool {
    '0' <= c && c <= '9'
}

/// The value of the decimal digit `c`.
pub open spec fn digit_value(c: char) -> nat {
    (c as u32 - 48) as nat
}

/// Whether every character of `s` is an ASCII decimal digit.
pub open spec fn all_digits(s: Seq<char>) -> bool {
    forall|i: int| 0 <= i < s.len() ==> is_digit(#[trigger] s[i])
}

/// The number that the decimal digits `s` spell, most significant first.
pub open spec fn digits_value(s: Seq<char>) -> nat
    decreases s.len(),
{
    if s.len() == 0 {
        0
    } else {
        digits_value(s.drop_last()) * 10 + digit_value(s.last())
    }
}

/// The digits of an unsigned number's text: a single leading `+` is dropped.
pub open spec fn unsigned_digits(s: Seq<char>) -> Seq<char> {
    if s.len() > 0 && s[0] == '+' {
        s.drop_first()
    } else {
        s
    }
}

/// What `str::parse` gives for an unsigned integer type whose largest value is
/// `max`: an optional `+`, then one or more ASCII digits whose value is at most
/// `max`; anything else (empty text, a sign alone, `-`, blanks, other
/// characters, overflow) is refused.
pub open spec fn parse_unsigned(s: Seq<char>, max: nat) -> Option<nat> {
    let d = unsigned_digits(s);
    if d.len() > 0 && all_digits(d) && digits_value(d) <= max {
        Some(digits_value(d))
    } else {
        None
    }
}

/// A prefix of a digit string never spells a larger number than a longer prefix.
pub proof fn lemma_digits_value_prefix(s: Seq<char>, i: int, j: int)
    requires
        all_digits(s),
        0 <= i <= j <= s.len(),
    ensures
        digits_value(s.take(i)) <= digits_value(s.take(j)),
    decreases j - i,
{
    if i < j {
        lemma_digits_value_prefix(s, i, j - 1);
        assert(s.take(j).drop_last() =~= s.take(j - 1));
    }
}

/// Parses an unsigned decimal number no larger than `max`, with the rules of
/// `str::parse` for unsigned integers.
pub fn parse_unsigned_text(s: &str, max: u64) -> (r: Option<u64>)
    ensures
        r matches Some(v) ==> parse_unsigned(s@, max as nat) == Some(v as nat),
        r is None ==> parse_unsigned(s@, max as nat) is None,
{
    let n = s.unicode_len();
    let ghost d = unsigned_digits(s@);
    let mut start: usize = 0;
    if n > 0 && s.get_char(0) == '+' {
        start = 1;
    }
    assert(d =~= s@.subrange(start as int, n as int));
    if start == n {
        return None;
    }
    let mut v: u64 = 0;
    let mut i: usize = start;
    while i < n
        invariant
            start <= i <= n,
            n == s@.len(),
            d =~= s@.subrange(start as int, n as int),
            d == unsigned_digits(s@),
            all_digits(d.take(i - start)),
            v as nat == digits_value(d.take(i - start)),
            v <= max,
        decreases n - i,
    {
        let c = s.get_char(i);
        if !('0' <= c && c <= '9') {
            assert(d[(i - start) as int] == c);
            assert(!is_digit(d[(i - start) as int]));
            assert(!all_digits(d));
            assert(parse_unsigned(s@, max as nat) is None);
            return None;
        }
        let dv: u64 = (c as u32 - 48) as u64;
        let w: u128 = v as u128 * 10 + dv as u128;
        assert(d.take(i - start + 1).drop_last() =~= d.take(i - start));
        assert(d.take(i - start + 1).last() == c);
        assert(all_digits(d.take(i - start + 1)));
        assert(digits_value(d.take(i - start + 1)) == w);
        if w > max as u128 {
            assert(parse_unsigned(s@, max as nat) is None) by {
                if all_digits(d) {
                    lemma_digits_value_prefix(d, i - start + 1, d.len() as int);
                    assert(d.take(d.len() as int) =~= d);
                }
            }
            return None;
        }
        v = w as u64;
        i = i + 1;
    }
    assert(d.take(i - start) =~= d);
    Some(v)
}

/// Formats a user mention, `<@id>`, as Discord renders it.
pub open spec fn user_mention(id: nat) -> Seq<char> {
    "<@"@ + decimal(id) + ">"@
}

/// Formats a channel mention, `<#id>`, as Discord renders it.
pub open spec fn channel_mention(id: nat) -> Seq<char> {
    "<#"@ + decimal(id) + ">"@
}

/// The mention of user `id`: `<@id>`.
pub fn format_user_mention(id: u64) -> (s: String)
    ensures
        s@ == user_mention(id as nat),
{
    let mut s = String::from_str("<@");
    let digits = u64_to_decimal(id);
    s.append(digits.as_str());
    s.append(">");
    s
}

/// The mention of channel `id`: `<#id>`.
pub fn format_channel_mention(id: u64) -> (s: String)
    ensures
        s@ == channel_mention(id as nat),
{
    let mut s = String::from_str("<#");
    let digits = u64_to_decimal(id);
    s.append(digits.as_str());
    s.append(">");
    s
}

/// Whether `c` has the Unicode `White_Space` property, which is what
/// `char::is_whitespace` tests.
pub open spec fn is_whitespace(c: char) -> bool {
    let v = c as u32;
    ||| 0x09 <= v <= 0x0D
    ||| v == 0x20
    ||| v == 0x85
    ||| v == 0xA0
    ||| v == 0x1680
    ||| 0x2000 <= v <= 0x200A
    ||| v == 0x2028
    ||| v == 0x2029
    ||| v == 0x202F
    ||| v == 0x205F
    ||| v == 0x3000
}

/// `s` without its leading and trailing whitespace, as `str::trim` gives it.
pub open spec fn trimmed(s: Seq<char>) -> Seq<char>
    decreases s.len(),
{
    if s.len() > 0 && is_whitespace(s[0]) {
        trimmed(s.drop_first())
    } else if s.len() > 0 && is_whitespace(s.last()) {
        trimmed(s.drop_last())
    } else {
        s
    }
}

fn char_is_whitespace(c: char) -> (b: bool)
    ensures
        b == is_whitespace(c),
{
    let v = c as u32;
    (0x09 <= v && v <= 0x0D) || v == 0x20 || v == 0x85 || v == 0xA0 || v == 0x1680 || (0x2000
        <= v && v <= 0x200A) || v == 0x2028 || v == 0x2029 || v == 0x202F || v == 0x205F || v
        == 0x3000
}

/// Removes leading and trailing whitespace, as `str::trim` does.
pub fn trim_whitespace(s: &str) -> (t: &str)
    ensures
        t@ == trimmed(s@),
{
    let n = s.unicode_len();
    let mut lo: usize = 0;
    let mut hi: usize = n;
    assert(s@.subrange(0, n as int) =~= s@);
    while lo < hi && char_is_whitespace(s.get_char(lo))
        invariant
            lo <= hi == n,
            n == s@.len(),
            trimmed(s@) == trimmed(s@.subrange(lo as int, hi as int)),
        decreases hi - lo,
    {
        assert(s@.subrange(lo as int, hi as int).drop_first() =~= s@.subrange(
            lo + 1,
            hi as int,
        ));
        lo = lo + 1;
    }
    while lo < hi && char_is_whitespace(s.get_char(hi - 1))
        invariant
            lo <= hi <= n,
            n == s@.len(),
            lo < hi ==> !is_whitespace(s@[lo as int]),
            trimmed(s@) == trimmed(s@.subrange(lo as int, hi as int)),
        decreases hi - lo,
    {
        assert(s@.subrange(lo as int, hi as int).drop_last() =~= s@.subrange(
            lo as int,
            hi - 1,
        ));
        hi = hi - 1;
    }
    s.substring_char(lo, hi)
}

/// Number of bytes of the UTF-8 encoding of `c`.
pub open spec fn utf8_width(c: char) -> nat {
    let v = c as u32;
    if v < 0x80 {
        1
    } else if v < 0x800 {
        2
    } else if v < 0x10000 {
        3
    } else {
        4
    }
}

/// Number of bytes of the UTF-8 encoding of `s`, which is what `str::len` gives.
pub open spec fn utf8_len(s: Seq<char>) -> nat
    decreases s.len(),
{
    if s.len() == 0 {
        0
    } else {
        utf8_width(s[0]) + utf8_len(s.drop_first())
    }
}

/// A text has at least as many bytes as characters.
pub proof fn lemma_utf8_len_at_least_len(s: Seq<char>)
    ensures
        utf8_len(s) >= s.len(),
    decreases s.len(),
{
    if s.len() > 0 {
        lemma_utf8_len_at_least_len(s.drop_first());
    }
}

/// `str::len`, which counts the bytes of the UTF-8 encoding, is `utf8_len`.
pub proof fn lemma_str_len_is_utf8_len(s: &str)
    ensures
        s.spec_bytes().len() == utf8_len(s@),
{
    lemma_encode_utf8_len(s@);
}

proof fn lemma_encode_utf8_len(s: Seq<char>)
    ensures
        vstd::utf8::encode_utf8(s).len() == utf8_len(s),
    decreases s.len(),
{
    if s.len() > 0 {
        lemma_encode_utf8_len(s.drop_first());
        let v = s[0] as u32;
        vstd::utf8::char_is_scalar(s[0]);
        assert(vstd::utf8::encode_scalar(v).len() == utf8_width(s[0]));
    }
}

/// Whether `s` begins with `prefix`.
pub open spec fn has_prefix(s: Seq<char>, prefix: Seq<char>) -> bool {
    prefix.len() <= s.len() && s.subrange(0, prefix.len() as int) == prefix
}

/// Whether `a` and `b` hold the same characters.
pub fn str_eq(a: &str, b: &str) -> (r: bool)
    ensures
        r == (a@ == b@),
{
    let n = a.unicode_len();
    if n != b.unicode_len() {
        return false;
    }
    let mut i: usize = 0;
    while i < n
        invariant
            i <= n == a@.len() == b@.len(),
            forall|j: int| 0 <= j < i ==> a@[j] == b@[j],
        decreases n - i,
    {
        if a.get_char(i) != b.get_char(i) {
            return false;
        }
        i = i + 1;
    }
    assert(a@ =~= b@);
    true
}

/// `s` without its trailing `c` characters, as `str::trim_end_matches(c)`.
pub open spec fn trim_end_char(s: Seq<char>, c: char) -> Seq<char>
    decreases s.len(),
{
    if s.len() > 0 && s.last() == c {
        trim_end_char(s.drop_last(), c)
    } else {
        s
    }
}

/// `s` without its leading `c` characters, as `str::trim_start_matches(c)`.
pub open spec fn trim_start_char(s: Seq<char>, c: char) -> Seq<char>
    decreases s.len(),
{
    if s.len() > 0 && s[0] == c {
        trim_start_char(s.drop_first(), c)
    } else {
        s
    }
}

/// `s` without its leading and trailing `c` characters, as
/// `str::trim_matches(c)`.
pub open spec fn trim_char(s: Seq<char>, c: char) -> Seq<char> {
    trim_end_char(trim_start_char(s, c), c)
}

/// Removes the trailing `c` characters of `s`.
pub fn trim_end_matches_char(s: &str, c: char) -> (t: &str)
    ensures
        t@ == trim_end_char(s@, c),
{
    let n = s.unicode_len();
    let mut hi: usize = n;
    assert(s@.subrange(0, n as int) =~= s@);
    while hi > 0 && s.get_char(hi - 1) == c
        invariant
            hi <= n == s@.len(),
            trim_end_char(s@, c) == trim_end_char(s@.subrange(0, hi as int), c),
        decreases hi,
    {
        assert(s@.subrange(0, hi as int).drop_last() =~= s@.subrange(0, hi - 1));
        hi = hi - 1;
    }
    s.substring_char(0, hi)
}

/// Removes the leading and trailing `c` characters of `s`.
pub fn trim_matches_char(s: &str, c: char) -> (t: &str)
    ensures
        t@ == trim_char(s@, c),
{
    let n = s.unicode_len();
    let mut lo: usize = 0;
    assert(s@.subrange(0, n as int) =~= s@);
    while lo < n && s.get_char(lo) == c
        invariant
            lo <= n == s@.len(),
            trim_start_char(s@, c) == trim_start_char(s@.subrange(lo as int, n as int), c),
        decreases n - lo,
    {
        assert(s@.subrange(lo as int, n as int).drop_first() =~= s@.subrange(lo + 1, n as int));
        lo = lo + 1;
    }
    let rest = s.substring_char(lo, n);
    trim_end_matches_char(rest, c)
}

/// `decimal(n)` preceded by zeros up to `width` characters.
pub open spec fn zero_padded(n: nat, width: nat) -> Seq<char> {
    let d = decimal(n);
    if d.len() < width {
        Seq::new((width - d.len()) as nat, |i: int| '0') + d
    } else {
        d
    }
}

/// Formats `n` in decimal with at least `width` digits, as `{:0width$}` does.
pub fn format_zero_padded(n: u64, width: usize) -> (s: String)
    ensures
        s@ == zero_padded(n as nat, width as nat),
{
    let digits = u64_to_decimal(n);
    let len = digits.as_str().unicode_len();
    let mut s = String::new();
    let mut k: usize = len;
    while k < width
        invariant
            len <= k,
            len >= width ==> k == len,
            len < width ==> k <= width,
            len == decimal(n as nat).len(),
            s@ == Seq::new((k - len) as nat, |i: int| '0'),
        decreases width - k,
    {
        s.append("0");
        proof {
            reveal_strlit("0");
        }
        assert(s@ =~= Seq::new((k + 1 - len) as nat, |i: int| '0'));
        k = k + 1;
    }
    s.append(digits.as_str());
    assert(s@ =~= zero_padded(n as nat, width as nat));
    s
}

/// Formats the signed `n` with at least `width` characters, zeros after the
/// sign, as `{:0width$}` does.
pub open spec fn signed_zero_padded(n: int, width: nat) -> Seq<char> {
    if n < 0 {
        "-"@ + zero_padded((-n) as nat, if width > 0 { (width - 1) as nat } else { 0 })
    } else {
        zero_padded(n as nat, width)
    }
}

/// Formats the signed `n` as `{:0width$}` does.
pub fn format_signed_zero_padded(n: i32, width: usize) -> (s: String)
    requires
        width >= 1,
    ensures
        s@ == signed_zero_padded(n as int, width as nat),
{
    if n < 0 {
        let magnitude: u64 = (-(n as i64)) as u64;
        let mut s = String::from_str("-");
        s.append(format_zero_padded(magnitude, width - 1).as_str());
        s
    } else {
        format_zero_padded(n as u64, width)
    }
}

/// Number of characters before the first `sep` of `s` (all of them when
/// there is none).
pub open spec fn word_len(s: Seq<char>, sep: char) -> nat
    decreases s.len(),
{
    if s.len() == 0 || s[0] == sep {
        0
    } else {
        1 + word_len(s.drop_first(), sep)
    }
}

/// The non-empty pieces of `s` between `sep` characters, in order: what
/// `s.split(sep).filter(|p| !p.is_empty())` yields.
pub open spec fn segments(s: Seq<char>, sep: char) -> Seq<Seq<char>>
    decreases s.len(),
{
    if s.len() == 0 {
        Seq::empty()
    } else if s[0] == sep {
        segments(s.drop_first(), sep)
    } else {
        let w = word_len(s, sep);
        proof {
            lemma_word_len_bounds(s, sep);
        }
        seq![s.take(w as int)] + segments(s.skip(w as int), sep)
    }
}

/// A word is no longer than its text, and not empty when the text starts
/// with another character than the separator.
pub proof fn lemma_word_len_bounds(s: Seq<char>, sep: char)
    ensures
        word_len(s, sep) <= s.len(),
        s.len() > 0 && s[0] != sep ==> word_len(s, sep) > 0,
    decreases s.len(),
{
    if s.len() > 0 && s[0] != sep {
        lemma_word_len_bounds(s.drop_first(), sep);
    }
}

/// Splits `s` at each `sep` and keeps the non-empty pieces.
pub fn split_segments(s: &str, sep: char) -> (r: Vec<String>)
    ensures
        r@.len() == segments(s@, sep).len(),
        forall|k: int| 0 <= k < r@.len() ==> #[trigger] r@[k]@ == segments(s@, sep)[k],
{
    let n = s.unicode_len();
    let mut r: Vec<String> = Vec::new();
    let mut i: usize = 0;
    assert(s@.skip(0) =~= s@);
    while i < n
        invariant
            i <= n == s@.len(),
            segments(s@, sep) =~= Seq::new(r@.len(), |k: int| r@[k]@) + segments(
                s@.skip(i as int),
                sep,
            ),
        decreases n - i,
    {
        let ghost rest = s@.skip(i as int);
        if s.get_char(i) == sep {
            assert(rest.drop_first() =~= s@.skip(i + 1));
            i = i + 1;
        } else {
            let mut j: usize = i;
            while j < n && s.get_char(j) != sep
                invariant
                    i <= j <= n == s@.len(),
                    rest == s@.skip(i as int),
                    word_len(rest, sep) == (j - i) + word_len(s@.skip(j as int), sep),
                    forall|m: int| i <= m < j ==> s@[m] != sep,
                decreases n - j,
            {
                assert(s@.skip(j as int).drop_first() =~= s@.skip(j + 1));
                j = j + 1;
            }
            assert(word_len(s@.skip(j as int), sep) == 0);
            let w = s.substring_char(i, j);
            proof {
                lemma_word_len_bounds(rest, sep);
                assert(rest.take((j - i) as int) =~= w@);
                assert(rest.skip((j - i) as int) =~= s@.skip(j as int));
            }
            let ghost before = Seq::new(r@.len(), |k: int| r@[k]@);
            r.push(String::from_str(w));
            assert(Seq::new(r@.len(), |k: int| r@[k]@) =~= before + seq![w@]);
            i = j;
        }
    }
    assert(s@.skip(n as int) =~= Seq::<char>::empty());
    r
}

/// The pieces `parts` joined with `sep` between them.
pub open spec fn joined(parts: Seq<Seq<char>>, sep: Seq<char>) -> Seq<char>
    decreases parts.len(),
{
    if parts.len() == 0 {
        Seq::empty()
    } else if parts.len() == 1 {
        parts[0]
    } else {
        joined(parts.drop_last(), sep) + sep + parts.last()
    }
}

/// Joins `parts` with `sep` between them, as `[&str]::join` does.
pub fn join_with(parts: &Vec<String>, sep: &str) -> (s: String)
    ensures
        s@ == joined(Seq::new(parts@.len(), |k: int| parts@[k]@), sep@),
{
    let ghost views = Seq::new(parts@.len(), |k: int| parts@[k]@);
    let n = parts.len();
    let mut s = String::new();
    let mut i: usize = 0;
    while i < n
        invariant
            i <= n == parts@.len() == views.len(),
            views == Seq::new(parts@.len(), |k: int| parts@[k]@),
            s@ == joined(views.take(i as int), sep@),
        decreases n - i,
    {
        assert(views.take(i + 1).drop_last() =~= views.take(i as int));
        if i > 0 {
            s.append(sep);
        } else {
            assert(joined(views.take(0), sep@) =~= Seq::<char>::empty());
        }
        s.append(parts[i].as_str());
        i = i + 1;
    }
    assert(views.take(n as int) =~= views);
    s
}

/// `s` up to its last `c` (which `s` contains), as the first half of
/// `str::rsplit_once(c)`.
pub open spec fn before_last(s: Seq<char>, c: char) -> Seq<char>
    decreases s.len(),
{
    if s.len() == 0 {
        Seq::empty()
    } else if s.last() == c {
        s.drop_last()
    } else {
        before_last(s.drop_last(), c)
    }
}

/// A digit's character reads back as the digit.
pub proof fn lemma_digit_char(d: nat)
    requires
        d < 10,
    ensures
        is_digit(digit_char(d)),
        digit_value(digit_char(d)) == d,
{
    assert(((48 + d) as u32 as char) as u32 == 48 + d);
}

/// The digits of `decimal(n)` are decimal digits that spell `n`.
pub proof fn lemma_decimal_digits(n: nat)
    ensures
        decimal(n).len() >= 1,
        all_digits(decimal(n)),
        digits_value(decimal(n)) == n,
    decreases n,
{
    lemma_digit_char(n % 10);
    if n < 10 {
        let d = decimal(n);
        assert(d.drop_last() =~= Seq::<char>::empty());
        assert(digits_value(d) == digits_value(d.drop_last()) * 10 + digit_value(d.last()));
    } else {
        lemma_decimal_digits(n / 10);
        let d = decimal(n);
        assert(d.drop_last() =~= decimal(n / 10));
        assert(d.last() == digit_char(n % 10));
        assert(digits_value(d) == digits_value(d.drop_last()) * 10 + digit_value(d.last()));
        assert((n / 10) * 10 + n % 10 == n);
        assert forall|i: int| 0 <= i < d.len() implies is_digit(#[trigger] d[i]) by {
            if i < d.len() - 1 {
                assert(d[i] == decimal(n / 10)[i]);
            }
        }
    }
}

/// Reading back a number written in decimal gives the number: `parse`
/// inverts `to_string` for every number within the type's range.
pub proof fn lemma_parse_decimal_roundtrip(n: nat, max: nat)
    requires
        n <= max,
    ensures
        parse_unsigned(decimal(n), max) == Some(n),
{
    lemma_decimal_digits(n);
    let d = decimal(n);
    assert(is_digit(d[0]));
    assert(unsigned_digits(d) == d);
}

/// Ten to the power `k`.
pub open spec fn pow10(k: nat) -> nat
    decreases k,
{
    if k == 0 {
        1
    } else {
        10 * pow10((k - 1) as nat)
    }
}

/// A number below `10^k` has at most `k` decimal digits.
pub proof fn lemma_decimal_len_below(n: nat, k: nat)
    requires
        1 <= k,
        n < pow10(k),
    ensures
        decimal(n).len() <= k,
    decreases k,
{
    if n >= 10 {
        assert(k >= 2) by {
            if k == 1 {
                assert(pow10(1) == 10 * pow10(0));
            }
        }
        assert(pow10(k) == 10 * pow10((k - 1) as nat));
        lemma_decimal_len_below(n / 10, (k - 1) as nat);
        assert(decimal(n).len() == decimal(n / 10).len() + 1);
    }
}

/// `k` zeros.
pub open spec fn zeros(k: nat) -> Seq<char> {
    Seq::new(k, |i: int| '0')
}

/// Leading zeros do not change the number that digits spell.
proof fn lemma_leading_zeros(k: nat, d: Seq<char>)
    ensures
        digits_value(zeros(k) + d) == digits_value(d),
    decreases d.len() + k,
{
    if d.len() == 0 {
        assert(zeros(k) + d =~= zeros(k));
        if k > 0 {
            assert(zeros(k).drop_last() =~= zeros((k - 1) as nat));
            lemma_leading_zeros((k - 1) as nat, d);
            assert(zeros((k - 1) as nat) + d =~= zeros((k - 1) as nat));
            assert(digit_value('0') == 0);
        }
    } else {
        assert((zeros(k) + d).drop_last() =~= zeros(k) + d.drop_last());
        lemma_leading_zeros(k, d.drop_last());
    }
}

/// A number padded with zeros to `width` digits takes exactly `width`
/// characters, all of them digits, and reads back as the number.
pub proof fn lemma_zero_padded_reads_back(n: nat, width: nat, max: nat)
    requires
        1 <= width,
        n < pow10(width),
        n <= max,
    ensures
        zero_padded(n, width).len() == width,
        all_digits(zero_padded(n, width)),
        parse_unsigned(zero_padded(n, width), max) == Some(n),
{
    lemma_decimal_len_below(n, width);
    lemma_decimal_digits(n);
    let d = decimal(n);
    let p = zero_padded(n, width);
    if d.len() < width {
        let k = (width - d.len()) as nat;
        assert(p =~= zeros(k) + d);
        lemma_leading_zeros(k, d);
        assert forall|i: int| 0 <= i < p.len() implies is_digit(#[trigger] p[i]) by {
            if i >= k {
                assert(p[i] == d[i - k]);
            }
        }
    }
    assert(is_digit(p[0]));
    assert(unsigned_digits(p) == p);
}

} // verus!
