use rfcbit::rfc::{
    check_status, clean_rfc_text, fetch_request, rfc_url, FetchError, FetchRequest,
    FETCH_TIMEOUT_SECS, MAX_TEXT_CHARS, USER_AGENT,
};

fn clean(raw: &str) -> String {
    let cleaned = clean_rfc_text(raw);
    assert!(!cleaned.truncated);
    cleaned.text
}

#[test]
fn url_holds_the_number() {
    assert_eq!(rfc_url(9110), "https://www.rfc-editor.org/rfc/rfc9110.txt");
    assert_eq!(rfc_url(1), "https://www.rfc-editor.org/rfc/rfc1.txt");
    assert_eq!(rfc_url(0), "https://www.rfc-editor.org/rfc/rfc0.txt");
}

#[test]
fn fetch_request_is_fixed_but_for_the_number() {
    assert_eq!(
        fetch_request(793),
        FetchRequest {
            url: "https://www.rfc-editor.org/rfc/rfc793.txt".to_string(),
            user_agent: "rfcbit/0.1".to_string(),
            timeout_secs: 15,
        }
    );
}

#[test]
fn fetch_parameters() {
    assert_eq!(USER_AGENT, "rfcbit/0.1");
    assert_eq!(FETCH_TIMEOUT_SECS, 15);
    assert_eq!(MAX_TEXT_CHARS, 500_000);
}

#[test]
fn status_404_is_not_found() {
    assert_eq!(check_status(9999, 404), Err(FetchError::NotFound { rfc_num: 9999 }));
}

#[test]
fn other_failures_keep_their_status() {
    for status in [100u16, 199, 300, 301, 403, 405, 500, 503, 999, 42, 0] {
        assert_eq!(check_status(7, status), Err(FetchError::Status { status }));
    }
}

#[test]
fn success_statuses_pass() {
    for status in [200u16, 201, 204, 299] {
        assert_eq!(check_status(7, status), Ok(()));
    }
}

#[test]
fn fetch_error_messages() {
    assert_eq!(FetchError::NotFound { rfc_num: 9999 }.message(), "RFC 9999 not found");
    assert_eq!(
        FetchError::Status { status: 500 }.message(),
        "HTTP error: 500 Internal Server Error"
    );
    assert_eq!(FetchError::Status { status: 403 }.message(), "HTTP error: 403 Forbidden");
    assert_eq!(
        FetchError::Status { status: 299 }.message(),
        "HTTP error: 299 <unknown status code>"
    );
    assert_eq!(
        FetchError::Transport { detail: "timed out".to_string() }.message(),
        "Failed to fetch RFC"
    );
}

#[test]
fn status_message_follows_the_http_crate() {
    for status in [301u16, 418, 502] {
        let code = reqwest::StatusCode::from_u16(status).unwrap();
        assert_eq!(
            FetchError::Status { status }.message(),
            format!("HTTP error: {}", code)
        );
    }
    let invalid = reqwest::StatusCode::from_u16(42).unwrap_err();
    assert_eq!(
        FetchError::Status { status: 42 }.message(),
        format!("HTTP error: {}", invalid)
    );
}

#[test]
fn drops_page_markers() {
    assert_eq!(clean("one\nSmith    Standards Track    [Page 3]\ntwo"), "one\nSmith    Standards Track    [Page 3]\ntwo");
    assert_eq!(clean("one\n   [Page 3]\ntwo"), "one\ntwo");
    assert_eq!(clean("[Page 12]"), "");
    assert_eq!(clean("\t[Page i] \nbody"), "body");
}

#[test]
fn drops_header_lines() {
    assert_eq!(clean("RFC 9110    HTTP Semantics    June 2022\nbody"), "body");
    assert_eq!(clean("   RFC 793\nbody\nSee RFC 793 for more"), "body\nSee RFC 793 for more");
    assert_eq!(clean("RFCs are documents"), "RFCs are documents");
}

#[test]
fn a_marker_needs_something_after_its_blank() {
    // Trimming takes the blank that ends the marker away.
    assert_eq!(clean("RFC \nbody"), "RFC \nbody");
    assert_eq!(clean("  [Page \nbody"), "  [Page \nbody");
    assert_eq!(clean("RFC x"), "");
}

#[test]
fn drops_lines_with_a_form_feed() {
    assert_eq!(clean("a\n\x0C\nb"), "a\nb");
    assert_eq!(clean("a\nfooter\x0Cheader\nb"), "a\nb");
    assert_eq!(clean("\x0C"), "");
}

#[test]
fn drops_leader_lines() {
    let sixteen = ".".repeat(16);
    let fifteen = ".".repeat(15);
    assert_eq!(clean(&format!("1. Intro {} 3\nbody", sixteen)), "body");
    assert_eq!(clean(&format!("1. Intro {} 3\nbody", fifteen)), format!("1. Intro {} 3\nbody", fifteen));
    assert_eq!(clean(&format!("{}", ".".repeat(40))), "");
    assert_eq!(clean(&format!("{} {}", ".".repeat(8), ".".repeat(8))), format!("{} {}", ".".repeat(8), ".".repeat(8)));
}

#[test]
fn drops_blank_lines_and_keeps_the_rest_untrimmed() {
    assert_eq!(clean("\n\n  a  \n \t \n\nb\n\n"), "  a  \nb");
    assert_eq!(clean(""), "");
    assert_eq!(clean("\n"), "");
    assert_eq!(clean("   "), "");
    assert_eq!(clean("x"), "x");
    assert_eq!(clean("x\n"), "x");
}

#[test]
fn keeps_lines_in_their_order() {
    let raw = "3\n\n1\n[Page 1]\n2\nRFC 1 header\n1\n";
    assert_eq!(clean(raw), "3\n1\n2\n1");
}

#[test]
fn carriage_returns_before_line_feeds_belong_to_the_line_ending() {
    assert_eq!(clean("a\r\nb\r\n"), "a\nb");
    assert_eq!(clean("a\r\r\nb"), "a\r\nb");
    assert_eq!(clean("a\rb\nc\r"), "a\rb\nc\r");
    assert_eq!(clean("\r\n\r\nx"), "x");
}

#[test]
fn agrees_with_filtering_the_lines_of_std() {
    let raw = "Network Working Group\r\nRFC 1    Title\n\n   Body line\n\x0C\nSmith [Page 1]\n  [Page 2]\n1. A ................ 2\nlast\r";
    let expected: Vec<&str> = raw
        .lines()
        .filter(|line| {
            let trimmed = line.trim();
            !(trimmed.starts_with("[Page ") || trimmed.starts_with("RFC "))
                && !line.contains('\x0C')
                && !line.contains("................")
                && !trimmed.is_empty()
        })
        .collect();
    assert_eq!(clean(raw), expected.join("\n"));
    assert_eq!(clean(raw), "Network Working Group\n   Body line\nSmith [Page 1]\nlast\r");
}

#[test]
fn text_at_the_cap_is_left_alone() {
    let raw = "a".repeat(MAX_TEXT_CHARS);
    let cleaned = clean_rfc_text(&raw);
    assert!(!cleaned.truncated);
    assert_eq!(cleaned.text.len(), MAX_TEXT_CHARS);
    assert_eq!(cleaned.text, raw);
}

#[test]
fn text_over_the_cap_is_cut_to_it() {
    let raw = "a".repeat(MAX_TEXT_CHARS + 1);
    let cleaned = clean_rfc_text(&raw);
    assert!(cleaned.truncated);
    assert_eq!(cleaned.text.chars().count(), MAX_TEXT_CHARS);
    assert_eq!(cleaned.text, "a".repeat(MAX_TEXT_CHARS));
}

#[test]
fn the_cap_counts_what_is_kept() {
    // Over the cap before cleaning, under it after.
    let mut raw = String::new();
    for _ in 0..55_000 {
        raw.push_str("abcdefgh\n\n");
    }
    assert!(raw.len() > MAX_TEXT_CHARS);
    let cleaned = clean_rfc_text(&raw);
    assert!(!cleaned.truncated);
    assert_eq!(cleaned.text.len(), 55_000 * 9 - 1);
}

#[test]
fn the_cap_counts_characters() {
    let raw = "é".repeat(MAX_TEXT_CHARS + 5);
    let cleaned = clean_rfc_text(&raw);
    assert!(cleaned.truncated);
    assert_eq!(cleaned.text.chars().count(), MAX_TEXT_CHARS);
    assert_eq!(cleaned.text.len(), 2 * MAX_TEXT_CHARS);
    let at_cap = "é".repeat(MAX_TEXT_CHARS);
    let cleaned = clean_rfc_text(&at_cap);
    assert!(!cleaned.truncated);
    assert_eq!(cleaned.text, at_cap);
}

#[test]
fn the_cut_may_fall_inside_a_line() {
    let mut raw = "x".repeat(MAX_TEXT_CHARS - 3);
    raw.push_str("\n12345\nmore");
    let cleaned = clean_rfc_text(&raw);
    assert!(cleaned.truncated);
    assert_eq!(cleaned.text.len(), MAX_TEXT_CHARS);
    assert!(cleaned.text.ends_with("x\n12"));
}

#[test]
fn cleaning_twice_changes_nothing() {
    let raw = "RFC 1 header\n\n  Title \n\nbody one\n[Page 1]\n\x0C\nbody two\r\n3. X ................ 9\nend";
    let once = clean(raw);
    assert_eq!(once, "  Title \nbody one\nbody two\nend");
    assert_eq!(clean(&once), once);
}

#[test]
fn cleaning_twice_takes_a_kept_carriage_return() {
    let once = clean("a\r\r\nb");
    assert_eq!(once, "a\r\nb");
    assert_eq!(clean(&once), "a\nb");
}

#[test]
fn cleaning_twice_drops_what_a_cut_left_blank() {
    let mut raw = "x".repeat(MAX_TEXT_CHARS - 3);
    raw.push_str("\n     indented");
    let once = clean_rfc_text(&raw);
    assert!(once.truncated);
    assert!(once.text.ends_with("x\n  "));
    let twice = clean_rfc_text(&once.text);
    assert!(!twice.truncated);
    assert_eq!(twice.text, "x".repeat(MAX_TEXT_CHARS - 3));
}
