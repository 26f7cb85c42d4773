//! The shared helpers and the small leaf modules: number parsing and
//! formatting, trimming, seconds-to-microseconds parsing, configuration
//! defaults, and the identity surface.

use mpdris::base::BaseInterface;
use mpdris::config::{default_cover_dir, default_music_dir, default_port, default_retries, Config};
use mpdris::strutil::{
    eq_str, fmt_u64, parse_seconds_micros, parse_u32, parse_u64, parse_u8, starts_with_str,
    trimmed,
};

#[test]
fn numbers_parse_and_format() {
    assert_eq!(parse_u64("0"), Some(0));
    assert_eq!(parse_u64("18446744073709551615"), Some(u64::MAX));
    assert_eq!(parse_u64("18446744073709551616"), None);
    assert_eq!(parse_u64(""), None);
    assert_eq!(parse_u64("12a"), None);
    assert_eq!(parse_u32("4294967295"), Some(u32::MAX));
    assert_eq!(parse_u32("4294967296"), None);
    assert_eq!(parse_u8("255"), Some(255));
    assert_eq!(parse_u8("256"), None);
    assert_eq!(fmt_u64(0), "0");
    assert_eq!(fmt_u64(105), "105");
    assert_eq!(fmt_u64(u64::MAX), "18446744073709551615");
}

#[test]
fn seconds_parse_to_microseconds() {
    assert_eq!(parse_seconds_micros("0"), Some(0));
    assert_eq!(parse_seconds_micros("1"), Some(1_000_000));
    assert_eq!(parse_seconds_micros("123.456"), Some(123_456_000));
    assert_eq!(parse_seconds_micros("0.5"), Some(500_000));
    assert_eq!(parse_seconds_micros("2."), Some(2_000_000));
    assert_eq!(parse_seconds_micros("1.0000019"), Some(1_000_001));
    assert_eq!(parse_seconds_micros(".5"), None);
    assert_eq!(parse_seconds_micros("abc"), None);
    assert_eq!(parse_seconds_micros("1.2.3"), None);
    assert_eq!(parse_seconds_micros("-1"), None);
}

#[test]
fn string_helpers() {
    assert!(eq_str("abc", "abc"));
    assert!(!eq_str("abc", "abd"));
    assert!(!eq_str("abc", "ab"));
    assert!(starts_with_str("OK MPD 0.23", "OK MPD"));
    assert!(!starts_with_str("OK", "OK MPD"));
    assert_eq!(trimmed("  a value \t\r\n"), "a value");
    assert_eq!(trimmed(""), "");
    assert_eq!(trimmed("   "), "");
}

#[test]
fn config_defaults() {
    assert_eq!(default_port(), 6600);
    assert_eq!(default_retries(), 3);
    assert_eq!(default_music_dir("/home/someone"), "/home/someone/Music");
    assert_eq!(
        default_cover_dir("/home/someone"),
        "/home/someone/Music/covers"
    );
    let c = Config::new("/home/someone");
    assert_eq!(c.addr, "127.0.0.1");
    assert_eq!(c.port, 6600);
    assert_eq!(c.retries, 3);
    assert_eq!(c.music_directory, "/home/someone/Music");
    assert_eq!(c.cover_directory, "/home/someone/Music/covers");
}

#[test]
fn base_interface_answers() {
    let base = BaseInterface::new();
    assert!(!base.can_quit());
    assert!(!base.fullscreen());
    assert!(!base.can_set_fullscreen());
    assert!(!base.can_raise());
    assert!(!base.has_tracklist());
    assert_eq!(base.identity(), "Music Player Daemon");
    assert!(base.supported_uri_schemes().is_empty());
    assert!(base.supported_mime_types().is_empty());
}
