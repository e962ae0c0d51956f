//! Listing line parsing and generation: the format's corner cases, and
//! the round trip between the writer and the reader.

use cksfv::listing::entry_line;
use cksfv::listing::parse_line;
use cksfv::listing::parse_listing;
use cksfv::listing::LineParse;
use cksfv::paths::basename;
use cksfv::paths::is_sfv_name;

fn expect_entry(line: &str) -> (String, u32) {
    match parse_line(line) {
        LineParse::Entry { name, crc } => (name, crc),
        other => panic!("expected an entry for {:?}, got {:?}", line, other),
    }
}

#[test]
fn parses_simple_entry() {
    let (name, crc) = expect_entry("1.txt ABCDEF12");
    assert_eq!(name, "1.txt");
    assert_eq!(crc, 0xABCD_EF12);
}

#[test]
fn hex_token_case_insensitive() {
    let (_, upper) = expect_entry("1.txt ABCDEF12");
    let (_, lower) = expect_entry("1.txt abcdef12");
    let (_, mixed) = expect_entry("1.txt AbCdEf12");
    assert_eq!(upper, 0xABCD_EF12);
    assert_eq!(lower, 0xABCD_EF12);
    assert_eq!(mixed, 0xABCD_EF12);
}

#[test]
fn path_may_contain_spaces() {
    let (name, crc) = expect_entry("a file with spaces.bin 1234ABCD");
    assert_eq!(name, "a file with spaces.bin");
    assert_eq!(crc, 0x1234_ABCD);
}

#[test]
fn trailing_whitespace_is_trimmed() {
    let (name, crc) = expect_entry("1.txt 1F  \t");
    assert_eq!(name, "1.txt");
    assert_eq!(crc, 0x1F);
}

#[test]
fn leading_zeros_and_short_tokens_accepted() {
    let (_, short) = expect_entry("x 7");
    assert_eq!(short, 0x7);
    let (_, padded) = expect_entry("x 0000000012345678");
    assert_eq!(padded, 0x1234_5678);
}

#[test]
fn comments_are_skipped() {
    assert!(matches!(parse_line("; any text at all"), LineParse::Comment));
    assert!(matches!(parse_line(";"), LineParse::Comment));
}

#[test]
fn malformed_lines_are_flagged() {
    // No separating space.
    assert!(matches!(parse_line("justonetoken"), LineParse::Malformed));
    // Empty line.
    assert!(matches!(parse_line(""), LineParse::Malformed));
    // Token is not hexadecimal.
    assert!(matches!(parse_line("1.txt nothex"), LineParse::Malformed));
    // Token overflows 32 bits.
    assert!(matches!(parse_line("1.txt 123456789"), LineParse::Malformed));
    // Trailing whitespace is trimmed before the token is read, so a
    // trailing space does not make the token empty ...
    assert!(matches!(parse_line("1.txt 12 "), LineParse::Entry { .. }));
    // ... and a single word with a trailing space has no separator left.
    assert!(matches!(parse_line("endsinspace "), LineParse::Malformed));
}

#[test]
fn parse_listing_keeps_order() {
    let lines = vec![
        "; header".to_string(),
        "1.txt 1A".to_string(),
        "broken".to_string(),
        "2.txt 2B".to_string(),
    ];
    let parsed = parse_listing(&lines);
    assert_eq!(parsed.len(), 4);
    assert!(matches!(parsed[0], LineParse::Comment));
    assert!(matches!(&parsed[1], LineParse::Entry { name, crc } if name == "1.txt" && *crc == 0x1A));
    assert!(matches!(parsed[2], LineParse::Malformed));
    assert!(matches!(&parsed[3], LineParse::Entry { name, crc } if name == "2.txt" && *crc == 0x2B));
}

#[test]
fn generated_line_format() {
    assert_eq!(entry_line("1.txt", 0xABCD_EF12), "1.txt ABCDEF12");
    assert_eq!(entry_line("x", 0), "x 0");
    assert_eq!(entry_line("x", 0x1F), "x 1F");
}

/// The writer and the reader are inverses, spaces in the name included.
#[test]
fn entry_line_round_trips() {
    for (name, crc) in [
        ("1.txt", 0x1234_5678u32),
        ("dir/sub dir/a file.bin", 0),
        ("weird  name ", 0xFFFF_FFFF),
    ] {
        let line = entry_line(name, crc);
        let (back_name, back_crc) = expect_entry(&line);
        assert_eq!(back_name, name);
        assert_eq!(back_crc, crc);
    }
}

#[test]
fn basename_takes_final_component() {
    assert_eq!(basename("a/b/c.txt"), "c.txt");
    assert_eq!(basename("c.txt"), "c.txt");
    assert_eq!(basename("a/b/"), "");
    assert_eq!(basename("/c"), "c");
}

#[test]
fn sfv_extension_detection() {
    assert!(is_sfv_name("12.sfv"));
    assert!(is_sfv_name("dir/listing.sfv"));
    assert!(is_sfv_name("a.b.sfv"));
    assert!(!is_sfv_name("12.SFV"));
    assert!(!is_sfv_name(".sfv"));
    assert!(!is_sfv_name("dir/.sfv"));
    assert!(!is_sfv_name("12.txt"));
    assert!(!is_sfv_name("sfv"));
}
