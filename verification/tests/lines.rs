use dsh_desktop::ansi::strip_ansi;
use dsh_desktop::local_url::{extract_local_url, local_url};

#[test]
fn extract_local_url_matches_url_line() {
    assert_eq!(
        extract_local_url("dsh web: http://127.0.0.1:61653", 61653),
        Some("http://127.0.0.1:61653".to_string())
    );
    assert_eq!(
        extract_local_url("Web UI served at http://127.0.0.1:8080.", 8080),
        Some("http://127.0.0.1:8080".to_string())
    );
}

#[test]
fn extract_local_url_ignores_wrong_port() {
    assert_eq!(extract_local_url("dsh web: http://127.0.0.1:61653", 9999), None);
}

#[test]
fn extract_local_url_rejects_non_local_or_missing() {
    assert_eq!(extract_local_url("http://localhost:8080", 8080), None);
    assert_eq!(extract_local_url("no url here", 8080), None);
    assert_eq!(extract_local_url("http://127.0.0.1:", 8080), None);
    assert_eq!(extract_local_url("", 8080), None);
}

#[test]
fn extract_local_url_reads_the_first_address_only() {
    let two = "http://127.0.0.1:1 http://127.0.0.1:8080";
    assert_eq!(extract_local_url(two, 8080), None);
    assert_eq!(extract_local_url(two, 1), Some("http://127.0.0.1:1".to_string()));
    assert_eq!(
        extract_local_url("http://127.0.0.http://127.0.0.1:8080/x", 8080),
        Some("http://127.0.0.1:8080".to_string())
    );
}

#[test]
fn extract_local_url_reads_ports_as_numbers() {
    assert_eq!(
        extract_local_url("http://127.0.0.1:0008080", 8080),
        Some("http://127.0.0.1:8080".to_string())
    );
    assert_eq!(extract_local_url("http://127.0.0.1:65536", 0), None);
    assert_eq!(extract_local_url("http://127.0.0.1:99999999999999999999", 65535), None);
    assert_eq!(
        extract_local_url("http://127.0.0.1:65535", 65535),
        Some("http://127.0.0.1:65535".to_string())
    );
    assert_eq!(
        extract_local_url("http://127.0.0.1:00", 0),
        Some("http://127.0.0.1:0".to_string())
    );
}

#[test]
fn every_port_is_read_back_from_the_engine_line() {
    for port in 0..=u16::MAX {
        let line = format!("dsh web: {}", local_url(port));
        assert_eq!(extract_local_url(&line, port), Some(format!("http://127.0.0.1:{port}")));
    }
}

#[test]
fn strip_ansi_removes_sgr_and_osc() {
    assert_eq!(strip_ansi("\u{1b}[31mred\u{1b}[0m"), "red");
    assert_eq!(strip_ansi("plain text"), "plain text");
    assert_eq!(strip_ansi("\u{1b}]0;window title\u{7}body"), "body");
    assert_eq!(strip_ansi("\u{1b}[2J"), "");
    assert_eq!(strip_ansi("a\u{1b}[1;32mb\u{1b}[0m"), "ab");
}

#[test]
fn strip_ansi_drops_commands_with_a_string_terminator() {
    assert_eq!(strip_ansi("\u{1b}]0;t\u{1b}\\body"), "body");
    assert_eq!(strip_ansi("a\u{1b}]8;;http://x\u{1b}\\link\u{1b}]8;;\u{1b}\\b"), "alinkb");
    assert_eq!(strip_ansi("a\u{1b}]t\u{1b}"), "a");
}

#[test]
fn strip_ansi_drops_sequences_that_cut_others_short() {
    assert_eq!(strip_ansi("\u{1b}[31\u{1b}[0mred"), "red");
    assert_eq!(strip_ansi("\u{1b}]0;t\u{1b}[0mred"), "red");
    assert_eq!(strip_ansi("\u{1b}[31\u{1b}]0;t\u{7}red"), "red");
    assert_eq!(strip_ansi("a\u{1b}\u{1b}[0mb"), "ab");
    assert_eq!(strip_ansi("a\u{1b}[3\u{1b}\u{1b}[0mb"), "ab");
    assert_eq!(strip_ansi("a\u{1b}[3\u{1b}b"), "ab");
    assert_eq!(strip_ansi("a\u{1b}]t\u{1b}b"), "ab");
}

#[test]
fn strip_ansi_drops_every_final_character() {
    for end in ('a'..='z').chain('A'..='Z').chain(['~']) {
        assert_eq!(strip_ansi(&format!("a\u{1b}[3;4{end}b")), "ab");
    }
}

#[test]
fn strip_ansi_drops_unfinished_and_short_sequences() {
    assert_eq!(strip_ansi("a\u{1b}"), "a");
    assert_eq!(strip_ansi("a\u{1b}[12;"), "a");
    assert_eq!(strip_ansi("a\u{1b}]title"), "a");
    assert_eq!(strip_ansi("a\u{1b}Mb"), "ab");
    assert_eq!(strip_ansi(""), "");
}

#[test]
fn strip_ansi_is_idempotent_and_keeps_other_characters() {
    for s in ["\u{1b}[31\u{1b}[0mred", "h\u{e9}llo \u{1f600}\u{1b}[1m!", "\t\u{7}x"] {
        let once = strip_ansi(s);
        assert!(!once.contains('\u{1b}'));
        assert_eq!(strip_ansi(&once), once);
    }
    assert_eq!(strip_ansi("h\u{e9}llo \u{1f600}\u{1b}[1m!"), "h\u{e9}llo \u{1f600}!");
    assert_eq!(strip_ansi("\t\u{7}x"), "\t\u{7}x");
}
