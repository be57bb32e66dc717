use weekly_report::profile::{profile_line, profile_report_header};
use weekly_report::prompts::{
    assemble_discussion_text, assemble_issue_text, comment_text, commit_analysis_prompts,
    issue_opening_text, readme_analysis_prompts, watched_commenters, watch_names,
};

#[test]
fn commit_prompts_embed_the_inputs() {
    let (sys, usr) = commit_analysis_prompts("alice", "fix the parser", "the diff body");
    assert!(sys.starts_with("Given a commit patch from user alice,"));
    assert!(usr.contains("Analyze the commit patch: the diff body,"));
    assert!(usr.contains("its description: fix the parser."));
    assert!(usr.contains("alice's contributions"));
}

#[test]
fn commit_prompt_truncates_very_long_patches() {
    let patch = "y".repeat(30000);
    let (_sys, usr) = commit_analysis_prompts("bob", "big change", &patch);
    // only the first 24000 characters of the patch survive
    assert!(!usr.contains(&"y".repeat(24001)));
    assert!(usr.contains(&"y".repeat(24000)));
}

#[test]
fn issue_opening_and_comment_lines() {
    let opening = issue_opening_text("alice", "parser bug", "bug, parser", "it crashes");
    assert_eq!(
        opening,
        "User 'alice', opened an issue titled 'parser bug', labeled 'bug, parser', \
         with the following post: 'it crashes'."
    );
    assert_eq!(comment_text("bob", "agreed"), "bob commented: agreed");
}

#[test]
fn issue_text_assembly_squeezes_comment_bodies() {
    let opening = "User 'alice', opened an issue titled 't', labeled '', with the \
                   following post: 'p'.";
    let comments = vec![
        ("bob".to_string(), Some("```\nquoted noise\n```\nshort reply".to_string())),
        ("carol".to_string(), None),
    ];
    let text = assemble_issue_text(opening, &comments);
    assert!(text.starts_with(opening));
    // the fenced block inside bob's comment is gone, the reply stays
    assert!(text.contains("bob commented: short reply"));
    assert!(!text.contains("quoted noise"));
    assert!(text.contains("carol commented: "));
}

#[test]
fn watched_commenters_filters_by_contributor_list() {
    let comments = vec![
        ("bob".to_string(), Some("a".to_string())),
        ("mallory".to_string(), Some("b".to_string())),
        ("carol".to_string(), None),
    ];
    let contributors = vec!["alice".to_string(), "bob".to_string(), "carol".to_string()];
    let watched = watched_commenters(&comments, &contributors);
    assert_eq!(watched, vec!["bob", "carol"]);
}

#[test]
fn watch_names_prefers_the_target_person() {
    let watchers = vec!["bob".to_string(), "carol".to_string()];
    assert_eq!(watch_names(&Some("alice".to_string()), &watchers), "alice");
    assert_eq!(watch_names(&None, &Vec::new()), "key participants");
    assert_eq!(watch_names(&None, &watchers), "key participants");
    // an empty target name falls back to the watched commenters
    assert_eq!(watch_names(&Some(String::new()), &watchers), "bob, carol");
}

#[test]
fn discussion_text_assembly() {
    let comments = vec![("bob".to_string(), Some("sounds good".to_string()))];
    let text = assemble_discussion_text(
        "roadmap",
        "https://example.test/d/1",
        &Some("plans ahead".to_string()),
        "2024-01-02",
        Some(3),
        "alice",
        &comments,
    );
    assert_eq!(
        text,
        "Title: 'roadmap' Url: 'https://example.test/d/1' Body: 'plans ahead\n' \
         Created At: 2024-01-02 Upvotes: 3 Author: alice\nbob comments: 'sounds good\n'\n"
    );
}

#[test]
fn discussion_text_omits_zero_upvotes_and_absent_body() {
    let text = assemble_discussion_text(
        "t",
        "u",
        &None,
        "2024-01-02",
        Some(0),
        "alice",
        &Vec::new(),
    );
    assert_eq!(text, "Title: 't' Url: 'u' Body: '' Created At: 2024-01-02  Author: alice\n");
}

#[test]
fn readme_prompts_embed_short_content_unchanged() {
    let (sys, usr) = readme_analysis_prompts("A small readme.");
    assert!(sys.starts_with("Your task is to objectively analyze"));
    assert!(usr.contains("provided: A small readme., extract"));
}

#[test]
fn profile_line_renders_present_fields_only() {
    let line = profile_line(
        &Some("Alice A".to_string()),
        &Some("alice".to_string()),
        &None,
        &None,
        &Some(String::new()),
        &Some("Acme".to_string()),
        &None,
        &Some("2020-01-31".to_string()),
        &Some("a@example.test".to_string()),
    );
    assert_eq!(
        line,
        "Name: Alice A, Login: alice,    Company: Acme,  Created At: 2020-01-31, \
         Email: a@example.test\n"
    );
    assert_eq!(profile_report_header(), "USER_profile: \n");
}
