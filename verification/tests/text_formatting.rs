use discord_bots::text::{
    format_channel_mention, format_signed_zero_padded, format_user_mention, format_zero_padded,
    join_with, parse_unsigned_text, split_segments, str_eq, trim_end_matches_char,
    trim_matches_char, trim_whitespace, u64_to_decimal,
};
use serenity::all::{ChannelId, Mentionable, UserId};

#[test]
fn decimal_of_zero_and_extremes() {
    assert_eq!(u64_to_decimal(0), "0");
    assert_eq!(u64_to_decimal(7), "7");
    assert_eq!(u64_to_decimal(1234567890), "1234567890");
    assert_eq!(u64_to_decimal(u64::MAX), u64::MAX.to_string());
}

#[test]
fn decimal_matches_std_formatting() {
    for n in [1u64, 9, 10, 99, 100, 101, 4_194_304, 10_485_760, 1_420_070_400_000] {
        assert_eq!(u64_to_decimal(n), n.to_string());
    }
}

#[test]
fn parse_unsigned_text_accepts_what_std_parse_accepts() {
    assert_eq!(parse_unsigned_text("8080", u16::MAX as u64), Some(8080));
    assert_eq!(parse_unsigned_text("+42", u64::MAX), Some(42));
    assert_eq!(parse_unsigned_text("007", u64::MAX), Some(7));
    assert_eq!(parse_unsigned_text("65535", u16::MAX as u64), Some(65535));
    assert_eq!(parse_unsigned_text("18446744073709551615", u64::MAX), Some(u64::MAX));
}

#[test]
fn parse_unsigned_text_refuses_what_std_parse_refuses() {
    assert_eq!(parse_unsigned_text("", u64::MAX), None);
    assert_eq!(parse_unsigned_text("+", u64::MAX), None);
    assert_eq!(parse_unsigned_text("-1", u64::MAX), None);
    assert_eq!(parse_unsigned_text(" 1", u64::MAX), None);
    assert_eq!(parse_unsigned_text("12a", u64::MAX), None);
    assert_eq!(parse_unsigned_text("65536", u16::MAX as u64), None);
    assert_eq!(parse_unsigned_text("18446744073709551616", u64::MAX), None);
    assert_eq!("65536".parse::<u16>().ok(), None);
}

#[test]
fn mentions_match_serenity() {
    for id in [1u64, 42, 123456789012345678, u64::MAX] {
        assert_eq!(format_user_mention(id), UserId::new(id).mention().to_string());
        assert_eq!(format_channel_mention(id), ChannelId::new(id).mention().to_string());
    }
    assert_eq!(format_user_mention(5), "<@5>");
    assert_eq!(format_channel_mention(5), "<#5>");
}

#[test]
fn trim_whitespace_matches_str_trim() {
    for s in ["", "   ", " a ", "\t\nabc\u{3000}", "a b", "\u{a0}x\u{2029}", "é"] {
        assert_eq!(trim_whitespace(s), s.trim());
    }
}

#[test]
fn trim_char_variants_match_std() {
    for s in ["", "/", "///", "/a/b/", "a//", "//a", "a/b"] {
        assert_eq!(trim_end_matches_char(s, '/'), s.trim_end_matches('/'));
        assert_eq!(trim_matches_char(s, '/'), s.trim_matches('/'));
    }
}

#[test]
fn str_eq_compares_text() {
    assert!(str_eq("abc", "abc"));
    assert!(str_eq("", ""));
    assert!(!str_eq("abc", "abd"));
    assert!(!str_eq("ab", "abc"));
}

#[test]
fn zero_padding_matches_format() {
    assert_eq!(format_zero_padded(5, 2), format!("{:02}", 5));
    assert_eq!(format_zero_padded(12, 2), "12");
    assert_eq!(format_zero_padded(123, 2), "123");
    assert_eq!(format_zero_padded(0, 0), "0");
    for y in [0i32, 7, 2024, 12345, -1, -5, -2024, i32::MIN, i32::MAX] {
        assert_eq!(format_signed_zero_padded(y, 4), format!("{:04}", y));
    }
}

#[test]
fn split_segments_drops_empty_pieces() {
    let parts = split_segments("/my-files//backups/2024/", '/');
    assert_eq!(parts, vec!["my-files", "backups", "2024"]);
    assert!(split_segments("", '/').is_empty());
    assert!(split_segments("///", '/').is_empty());
    assert_eq!(split_segments("abc", '/'), vec!["abc"]);
}

#[test]
fn join_with_matches_slice_join() {
    let parts = vec!["filesystem".to_string(), "list".to_string(), "-j".to_string()];
    assert_eq!(join_with(&parts, " "), parts.join(" "));
    assert_eq!(join_with(&Vec::new(), " "), "");
    assert_eq!(join_with(&vec!["one".to_string()], ", "), "one");
}
