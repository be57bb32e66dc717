use weekly_report::aggregate::{aggregate_items, items_from_issue_summaries, AnalyzedItem};

fn item(contributor: &str, url: &str, summary: &str) -> AnalyzedItem {
    AnalyzedItem {
        contributor: contributor.to_string(),
        source_url: url.to_string(),
        summary: summary.to_string(),
    }
}

#[test]
fn three_records_two_contributors() {
    let items = vec![
        item("alice", "url1", "s1"),
        item("bob", "url2", "s2"),
        item("alice", "url3", "s3"),
    ];
    let bundles = aggregate_items(&items);
    assert_eq!(bundles.len(), 2);
    assert_eq!(bundles[0].contributor, "alice");
    assert_eq!(bundles[0].urls_joined, "url1\nurl3");
    assert_eq!(bundles[0].summaries_joined, "s1\ns3");
    assert_eq!(bundles[1].contributor, "bob");
    assert_eq!(bundles[1].urls_joined, "url2");
    assert_eq!(bundles[1].summaries_joined, "s2");
}

#[test]
fn positional_alignment_is_kept() {
    let items = vec![
        item("alice", "u1", "s1"),
        item("alice", "u2", "s2"),
        item("alice", "u3", "s3"),
    ];
    let bundles = aggregate_items(&items);
    assert_eq!(bundles.len(), 1);
    let urls: Vec<&str> = bundles[0].urls_joined.lines().collect();
    let sums: Vec<&str> = bundles[0].summaries_joined.lines().collect();
    assert_eq!(urls, vec!["u1", "u2", "u3"]);
    assert_eq!(sums, vec!["s1", "s2", "s3"]);
}

#[test]
fn empty_input_gives_no_bundles() {
    let bundles = aggregate_items(&Vec::new());
    assert!(bundles.is_empty());
}

#[test]
fn first_occurrence_fixes_contributor_order() {
    let items = vec![
        item("carol", "u1", "s1"),
        item("bob", "u2", "s2"),
        item("carol", "u3", "s3"),
        item("alice", "u4", "s4"),
    ];
    let bundles = aggregate_items(&items);
    let order: Vec<&str> = bundles.iter().map(|b| b.contributor.as_str()).collect();
    assert_eq!(order, vec!["carol", "bob", "alice"]);
}

#[test]
fn issue_summaries_become_items_with_the_issue_url() {
    let pairs = vec![
        ("alice".to_string(), "fixed the bug".to_string()),
        ("bob".to_string(), "reviewed".to_string()),
    ];
    let items = items_from_issue_summaries(&pairs, "https://example.test/issue/1");
    assert_eq!(items.len(), 2);
    assert_eq!(items[0].contributor, "alice");
    assert_eq!(items[0].source_url, "https://example.test/issue/1");
    assert_eq!(items[0].summary, "fixed the bug");
    assert_eq!(items[1].contributor, "bob");
}
