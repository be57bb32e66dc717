use weekly_report::summary::{
    extract_summary_loose, issue_contributor_summaries, parse_summary_from_raw_json,
    summary_from_generated, SummaryError,
};

#[test]
fn strict_extraction_joins_all_five_keys() {
    let input = "{\"impactful\": \"a\", \"alignment\": \"b\", \"patterns\": \"c\", \
                 \"synergy\": \"d\", \"significance\": \"e\"}";
    assert_eq!(parse_summary_from_raw_json(input).unwrap(), "a b c d e");
}

#[test]
fn strict_extraction_skips_missing_keys() {
    let input = "{\"impactful\": \"alpha\", \"significance\": \"omega\"}";
    assert_eq!(parse_summary_from_raw_json(input).unwrap(), "alpha omega");
}

#[test]
fn strict_extraction_ignores_non_string_values() {
    let input = "{\"impactful\": \"a\", \"alignment\": 5, \"patterns\": [\"x\"]}";
    assert_eq!(parse_summary_from_raw_json(input).unwrap(), "a");
}

#[test]
fn strict_extraction_rejects_invalid_json() {
    let r = parse_summary_from_raw_json("not json at all");
    assert_eq!(r.unwrap_err(), SummaryError::InvalidJson);
}

#[test]
fn empty_first_value_adds_no_leading_space() {
    let input = "{\"impactful\": \"\", \"alignment\": \"b\"}";
    assert_eq!(parse_summary_from_raw_json(input).unwrap(), "b");
}

#[test]
fn loose_extraction_recovers_from_malformed_json() {
    let input = "```json\n{\"impactful\": \"key fix landed\",}\n```";
    // trailing comma and fence make it invalid JSON
    assert!(parse_summary_from_raw_json(input).is_err());
    let out = summary_from_generated(input).unwrap();
    assert_eq!(out, "key fix landed");
}

#[test]
fn loose_extraction_takes_fields_in_fixed_order() {
    let input = "noise \"significance\": \"late\" noise \"impactful\": \"early\" trailing";
    let out = extract_summary_loose(input).unwrap();
    assert_eq!(out, "early late");
}

#[test]
fn nothing_recognized_is_an_error() {
    let r = summary_from_generated("plain prose without any fields");
    assert_eq!(r.unwrap_err(), SummaryError::NoRecognizedFields);
}

#[test]
fn valid_json_without_known_keys_is_empty_not_an_error() {
    let out = summary_from_generated("{\"other\": \"thing\"}").unwrap();
    assert_eq!(out, "");
}

#[test]
fn issue_summaries_parse_to_pairs() {
    let input = "{\"alice\": \"fixed the parser\", \"bob\": \"reviewed it\"}";
    let pairs = issue_contributor_summaries(input).unwrap();
    assert_eq!(
        pairs,
        vec![
            ("alice".to_string(), "fixed the parser".to_string()),
            ("bob".to_string(), "reviewed it".to_string()),
        ]
    );
}

#[test]
fn issue_summaries_drop_non_string_values() {
    let input = "{\"alice\": \"x\", \"count\": 3}";
    let pairs = issue_contributor_summaries(input).unwrap();
    assert_eq!(pairs, vec![("alice".to_string(), "x".to_string())]);
}

#[test]
fn issue_summaries_reject_non_objects() {
    assert!(issue_contributor_summaries("42").is_none());
    assert!(issue_contributor_summaries("not json").is_none());
}
