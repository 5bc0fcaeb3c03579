use code_agent::budget;

const MARKER: &str = "\n\n--- REPORT TRUNCATED DUE TO TOKEN LIMIT ---";

#[test]
fn report_within_limit_is_unchanged() {
    // Identical to the last character, trailing whitespace included.
    let report = "line one\nline two \n";
    assert_eq!(budget(report, 100), report);
}

#[test]
fn report_exactly_at_limit_is_unchanged() {
    let report = "abcdef";
    assert_eq!(budget(report, 6), report);
}

#[test]
fn oversized_report_is_cut_at_limit_with_marker() {
    let out = budget("abcdefgh", 3);
    assert_eq!(out, format!("abc{MARKER}"));
    let prefix = &out[..out.len() - MARKER.len()];
    assert_eq!(prefix.chars().count(), 3);
    assert!(out.ends_with(MARKER));
}

#[test]
fn truncation_counts_scalar_values_not_bytes() {
    // Four two-byte characters: a byte count would cut inside a character.
    let out = budget("\u{3b1}\u{3b2}\u{3b3}\u{3b4}", 2);
    assert_eq!(out, format!("\u{3b1}\u{3b2}{MARKER}"));
}

#[test]
fn truncation_never_splits_a_character() {
    // Multi-byte characters straddling the boundary stay whole and the
    // result is valid text throughout.
    let report = "x\u{1F600}\u{1F601}\u{1F602}y";
    for limit in 0..=5 {
        let out = budget(report, limit);
        if report.chars().count() <= limit {
            assert_eq!(out, report);
        } else {
            let kept: String = report.chars().take(limit).collect();
            assert_eq!(out, format!("{kept}{MARKER}"));
        }
    }
}

#[test]
fn empty_report_stays_empty() {
    assert_eq!(budget("", 0), "");
    assert_eq!(budget("", 10), "");
}
