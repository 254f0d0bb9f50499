use strunc::{Strunc, StruncError, Struncable};

#[test]
fn happy_path() {
    let output = "verylong string".strunc_len(8);
    assert_eq!("veryl...", output.to_string());
}

#[test]
fn trims_spaces() {
    let output = "very long string".strunc_len(8);
    assert_eq!("very...", output.to_string());
}

#[test]
fn second_happy_path() {
    let output = "very long string".strunc_len(10);
    assert_eq!("very lo...", output.to_string());
}

#[test]
fn much_smaller_than_input_length() {
    let output = "very long string".strunc_len(25);
    assert_eq!("very long string", output.to_string());
}

#[test]
fn input_length_equals_space_available() {
    let output = "very long string".strunc_len(16);
    assert_eq!("very long string", output.to_string());
}

#[test]
fn input_length_equals_space_available_minus_one() {
    let output = "very long string".strunc_len(15);
    assert_eq!("very long st...", output.to_string());
}

#[test]
fn different_suffix() {
    let output = "very long string".strunc_len_suf(15, "....");
    assert_eq!("very long s....", output.to_string());
}

#[test]
fn suffix_of_length_zero() {
    let output = "very long string".strunc_len_suf(16, "");
    assert_eq!("very long string", output.to_string());
}

#[test]
fn suffix_of_length_zero_minus_one() {
    let output = "very long string".strunc_len_suf(15, "");
    assert_eq!("very long strin", output.to_string());
}

#[test]
fn render_matches_to_string() {
    let output = "very long string".strunc_len(8);
    assert_eq!(Ok("very...".to_string()), output.render());
}

#[test]
fn render_rejects_suffix_longer_than_budget() {
    let output = "whatever the input says".strunc_len_suf(2, "...");
    assert_eq!(Err(StruncError::UnsatisfiableConfiguration), output.render());
}

#[test]
fn render_rejects_zero_budget_with_default_suffix() {
    let output = "abc".strunc_len(0);
    assert_eq!(Err(StruncError::UnsatisfiableConfiguration), output.render());
}

#[test]
fn suffix_alone_fills_the_budget() {
    let output = "abcdef".strunc_len_suf(3, "...");
    assert_eq!("...", output.to_string());
}

#[test]
fn zero_budget_with_empty_suffix() {
    let output = "abc".strunc_len_suf(0, "");
    assert_eq!("", output.to_string());
}

#[test]
fn whitespace_only_input_trims_to_suffix() {
    let output = "    ".strunc_len_suf(2, ".");
    assert_eq!(".", output.to_string());
}

#[test]
fn default_budget_keeps_short_input() {
    let output = "short".strunc();
    assert_eq!("short", output.to_string());
}

#[test]
fn default_budget_cuts_long_input() {
    let output = "aaaaaaaaaaaaaaaaaaaaaaaaaaaaaa".strunc();
    assert_eq!("aaaaaaaaaaaaaaaaaaaaaa...", output.to_string());
}

#[test]
fn default_request_is_empty_input() {
    let output = Struncable::default();
    assert_eq!("", output.to_string());
}

#[test]
fn combining_mark_counts_as_one_cluster() {
    // Six chars, but five grapheme clusters: the accent rides on the `e`.
    let output = "e\u{301}abcd".strunc_len(5);
    assert_eq!("e\u{301}abcd", output.to_string());
}

#[test]
fn combining_mark_is_not_split_at_the_cut() {
    let output = "e\u{301}abcd".strunc_len_suf(4, ".");
    assert_eq!("e\u{301}ab.", output.to_string());
}

#[test]
fn flag_pairs_are_cut_between_flags() {
    // Each flag is two code points but a single grapheme cluster.
    let output = "\u{1f1e9}\u{1f1ea}\u{1f1eb}\u{1f1f7}\u{1f1ee}\u{1f1f9}".strunc_len_suf(2, "-");
    assert_eq!("\u{1f1e9}\u{1f1ea}-", output.to_string());
}
