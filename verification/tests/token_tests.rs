use tiktoken_rs::cl100k_base_singleton;
use weekly_report::tokens::{cl100k_token_count, squeeze_fit_post_texts};

#[test]
fn under_token_budget_is_returned_unchanged() {
    let input = "hello world, this is a short text";
    let out = squeeze_fit_post_texts(input, 1000, 70);
    assert_eq!(out, input);
}

#[test]
fn token_count_matches_tokenizer() {
    let bpe = cl100k_base_singleton();
    let input = "alpha beta gamma delta";
    assert_eq!(cl100k_token_count(input), bpe.encode_ordinary(input).len());
}

#[test]
fn over_budget_output_is_head_and_tail_of_tokenization() {
    let bpe = cl100k_base_singleton();
    let words: Vec<String> = (0..120).map(|i| format!("word{}", i)).collect();
    let input = words.join(" ");
    let enc = bpe.encode_ordinary(&input);
    let max: usize = 50;
    assert!(enc.len() >= max);
    let out = squeeze_fit_post_texts(&input, max as u16, 70);

    // expected selection: ceil(len * 70 / 100) from the head, clamped to the
    // budget, the balance from the tail
    let h0 = (enc.len() * 70 + 99) / 100;
    let h = h0.min(max);
    let t = max - h;
    let mut expected_tokens = enc[..h].to_vec();
    expected_tokens.extend_from_slice(&enc[enc.len() - t..]);
    let expected_text = bpe.decode(&expected_tokens).unwrap();
    assert_eq!(out, expected_text);

    // round trip: re-tokenizing the output reproduces the ids taken from the
    // two ends, and the output stays within the token budget
    let re = bpe.encode_ordinary(&out);
    assert_eq!(re, expected_tokens);
    assert!(re.len() <= max);
}

#[test]
fn small_budget_clamps_tail_to_zero() {
    let bpe = cl100k_base_singleton();
    let words: Vec<String> = (0..120).map(|i| format!("item{}", i)).collect();
    let input = words.join(" ");
    let enc = bpe.encode_ordinary(&input);
    let max: usize = 10;
    // the head share alone (70% of the full length) exceeds the budget, so
    // the whole budget comes from the head
    assert!((enc.len() * 70 + 99) / 100 > max);
    let out = squeeze_fit_post_texts(&input, max as u16, 70);
    let expected_text = bpe.decode(&enc[..max]).unwrap();
    assert_eq!(out, expected_text);
}
