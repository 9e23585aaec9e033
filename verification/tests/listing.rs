use polyglot::processes::{find_browser_audio_pids, is_white_space, parse_number, pids_in_text};
use polyglot::text::decimal_text;

const SWITCH: &str = "--utility-sub-type=audio.mojom.AudioService";
const NONE_FOUND: &str = "No browser audio process found. Is Chrome, Comet, or another Chromium-based browser running with audio playing?";

fn number(text: &str) -> Option<u32> {
    let chars: Vec<char> = text.chars().collect();
    parse_number(&chars)
}

#[test]
fn audio_processes_are_found_in_order() {
    let text = format!(
        "    1 /sbin/launchd\n  812 /Apps/Chrome Helper {SWITCH} --lang=en\n90210 Comet {SWITCH}\n  7 x\n"
    );
    assert_eq!(pids_in_text(&text), Ok(vec![812, 90210]));
    assert_eq!(find_browser_audio_pids(text.as_bytes()), Ok(vec![812, 90210]));
}

#[test]
fn line_ends_do_not_matter() {
    let text = format!("\t12 a {SWITCH}\r\n13 {SWITCH}");
    assert_eq!(pids_in_text(&text), Ok(vec![12, 13]));
}

#[test]
fn without_browsers_none_is_found() {
    assert_eq!(pids_in_text(""), Err(NONE_FOUND.to_string()));
    assert_eq!(pids_in_text("1 launchd\n2 ps\n"), Err(NONE_FOUND.to_string()));
}

#[test]
fn lines_without_a_number_are_passed_over() {
    let text = format!("abc {SWITCH}\n-5 {SWITCH}\n99999999999 {SWITCH}\n{SWITCH}\n3 {SWITCH}\n");
    assert_eq!(pids_in_text(&text), Ok(vec![3]));
}

#[test]
fn broken_bytes_do_not_hide_a_line() {
    let mut bytes = vec![0xff, b'\n'];
    bytes.extend_from_slice(format!("5 \u{e9} {SWITCH}").as_bytes());
    bytes.push(0xc3);
    assert_eq!(find_browser_audio_pids(&bytes), Ok(vec![5]));
}

#[test]
fn white_space_beyond_ascii_ends_a_word() {
    assert_eq!(pids_in_text(&format!("\u{a0}44\u{3000}x {SWITCH}")), Ok(vec![44]));
}

#[test]
fn white_space_is_what_the_standard_library_takes_for_it() {
    for c in '\0'..=char::MAX {
        assert_eq!(is_white_space(c), c.is_whitespace(), "{c:?}");
    }
}

#[test]
fn two_listings_are_read_one_after_the_other() {
    let above = format!("1 {SWITCH}\n2 b");
    let below = format!("3 {SWITCH}");
    assert_eq!(pids_in_text(&format!("{above}\n{below}")), Ok(vec![1, 3]));
}

#[test]
fn numbers_are_read_as_the_standard_library_reads_them() {
    for text in [
        "", "+", "-", "0", "7", "007", "+12", "-0", "++1", "1+", " 1", "1 ", "1_0", "4294967295",
        "4294967296", "42949672950", "00000000000000000001", "\u{663}",
    ] {
        assert_eq!(number(text), text.parse::<u32>().ok(), "{text:?}");
    }
}

#[test]
fn numbers_survive_writing() {
    for n in [0u32, 1, 9, 10, 11, 99, 100, 24_000, 4_294_967_295] {
        assert_eq!(decimal_text(u64::from(n)), n.to_string());
        assert_eq!(number(&decimal_text(u64::from(n))), Some(n));
    }
    assert_eq!(decimal_text(u64::MAX), "18446744073709551615");
}
