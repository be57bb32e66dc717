use weekly_report::squeeze::{squeeze_fit_remove_quoted, truncate_head_tail_chars};

#[test]
fn under_budget_keeps_cleaned_text() {
    let input = "hello world\n```\nsecret inner\n```\ngood bye";
    let out = squeeze_fit_remove_quoted(input, 100, 70);
    assert_eq!(out, "hello world\ngood bye\n");
}

#[test]
fn triple_quote_marker_also_fences() {
    let input = "keep one\n\"\"\"\nhidden\n\"\"\"\nkeep two";
    let out = squeeze_fit_remove_quoted(input, 100, 70);
    assert_eq!(out, "keep one\nkeep two\n");
}

#[test]
fn whitespace_is_collapsed_to_single_spaces() {
    let out = squeeze_fit_remove_quoted("a   b\t c", 100, 70);
    assert_eq!(out, "a b c\n");
}

#[test]
fn overlong_words_are_dropped() {
    let long_word = "x".repeat(150);
    let just_fits = "y".repeat(149);
    let input = format!("start {} {} end", long_word, just_fits);
    let out = squeeze_fit_remove_quoted(&input, 100, 70);
    assert_eq!(out, format!("start {} end\n", just_fits));
}

#[test]
fn empty_input_gives_empty_output() {
    assert_eq!(squeeze_fit_remove_quoted("", 10, 70), "");
}

#[test]
fn over_budget_keeps_head_and_tail() {
    let input = "w0 w1 w2 w3 w4 w5 w6 w7 w8 w9";
    // budget 4, split 70%: floor(4 * 70 / 100) = 2 from the head, 2 from the tail
    let out = squeeze_fit_remove_quoted(input, 4, 70);
    assert_eq!(out, "w0 w1 w8 w9");
}

#[test]
fn over_budget_word_count_within_budget() {
    let words: Vec<String> = (0..50).map(|i| format!("word{}", i)).collect();
    let input = words.join(" ");
    let out = squeeze_fit_remove_quoted(&input, 10, 70);
    assert_eq!(out.split_whitespace().count(), 10);
    // head marker survives at the front, tail marker at the back
    assert!(out.starts_with("word0"));
    assert!(out.ends_with("word49"));
}

#[test]
fn full_head_split_keeps_only_head() {
    let input = "a b c d e f g h";
    let out = squeeze_fit_remove_quoted(input, 4, 100);
    assert_eq!(out, "a b c d");
}

#[test]
fn zero_head_split_keeps_only_tail() {
    let input = "a b c d e f g h";
    let out = squeeze_fit_remove_quoted(input, 4, 0);
    assert_eq!(out, "e f g h");
}

#[test]
fn exactly_at_budget_is_untruncated() {
    let input = "a b c d";
    let out = squeeze_fit_remove_quoted(input, 4, 70);
    assert_eq!(out, "a b c d\n");
}

#[test]
fn squeezing_is_idempotent_on_small_fence_free_input() {
    let input = "first line\nsecond   line here";
    let once = squeeze_fit_remove_quoted(input, 100, 70);
    let twice = squeeze_fit_remove_quoted(&once, 100, 70);
    assert_eq!(twice, once);
}

#[test]
fn zero_word_budget_keeps_nothing() {
    assert_eq!(squeeze_fit_remove_quoted("a b c", 0, 70), "");
}

#[test]
fn char_head_tail_truncation() {
    let long: String = ('a'..='z').cycle().take(300).collect();
    let cut = truncate_head_tail_chars(&long, 100, 80);
    assert_eq!(cut.chars().count(), 180);
    assert_eq!(cut[..100], long[..100]);
    assert_eq!(cut[100..], long[300 - 80..]);
    // short text is unchanged
    assert_eq!(truncate_head_tail_chars("short", 100, 80), "short");
}

#[test]
fn fences_removed_before_budget_counts() {
    // the fenced words do not count against the budget
    let input = "a b\n```\nc d e f g h i j\n```\nk l";
    let out = squeeze_fit_remove_quoted(input, 10, 70);
    assert_eq!(out, "a b\nk l\n");
}
