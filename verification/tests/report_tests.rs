use weekly_report::aggregate::{aggregate_items, items_from_issue_summaries, AnalyzedItem, ContributorBundle};
use weekly_report::prompts::{commit_analysis_prompts, correlation_chain, issue_analysis_prompts};
use weekly_report::summary::{issue_contributor_summaries, summary_from_generated};
use weekly_report::report::{
    commits_section, contributors_in_order, count_lines, discussions_section, find_bundle_index,
    issues_section, render_empty_report, render_user_section, u64_to_dec, CorrelationOutcome,
    PipelineError, ReportPipeline,
};

fn bundle(contributor: &str, urls: &str, summaries: &str) -> ContributorBundle {
    ContributorBundle {
        contributor: contributor.to_string(),
        urls_joined: urls.to_string(),
        summaries_joined: summaries.to_string(),
    }
}

#[test]
fn decimal_rendering_is_exact() {
    assert_eq!(u64_to_dec(0), "0");
    assert_eq!(u64_to_dec(7), "7");
    assert_eq!(u64_to_dec(10), "10");
    assert_eq!(u64_to_dec(907), "907");
    assert_eq!(u64_to_dec(u64::MAX), "18446744073709551615");
}

#[test]
fn line_counting() {
    assert_eq!(count_lines(""), 0);
    assert_eq!(count_lines("a"), 1);
    assert_eq!(count_lines("a\n"), 1);
    assert_eq!(count_lines("a\nb"), 2);
    assert_eq!(count_lines("a\nb\nc"), 3);
}

#[test]
fn category_sections_carry_found_counts() {
    assert_eq!(
        commits_section("alice", "url1\nurl3"),
        "alice found 2 commits:\nurl1\nurl3"
    );
    assert_eq!(issues_section("bob", "u"), "bob found 1 issues:\nu");
    assert_eq!(
        discussions_section("carol", "d1"),
        "carol found 1 discussions:\nd1"
    );
}

#[test]
fn empty_report_sentences() {
    assert_eq!(
        render_empty_report(&None),
        "No useful data found, nothing to report"
    );
    assert_eq!(
        render_empty_report(&Some("alice".to_string())),
        "No useful data found for alice, you may try alternative means to find out more about alice"
    );
}

#[test]
fn user_section_shapes() {
    let commits = bundle("alice", "u1\nu2", "s1\ns2");
    let issues = bundle("alice", "i1", "t1");
    let discussions = bundle("alice", "d1", "x1");
    let with_summary = render_user_section(
        "alice",
        Some(&commits),
        Some(&issues),
        None,
        &CorrelationOutcome::Summary("great week".to_string()),
    );
    assert_eq!(
        with_summary,
        "alice found 2 commits:\nu1\nu2\nalice found 1 issues:\ni1\ngreat week"
    );

    let failed = render_user_section("alice", Some(&commits), None, None, &CorrelationOutcome::Failed);
    assert_eq!(failed, "alice found 2 commits:\nu1\nu2");

    // a parse failure costs only the correlated text, never the evidence lines
    let unparsable = render_user_section(
        "alice",
        Some(&commits),
        Some(&issues),
        None,
        &CorrelationOutcome::Unparsable,
    );
    assert_eq!(
        unparsable,
        "alice found 2 commits:\nu1\nu2\nalice found 1 issues:\ni1"
    );

    let with_discussions = render_user_section(
        "alice",
        None,
        None,
        Some(&discussions),
        &CorrelationOutcome::Failed,
    );
    assert_eq!(with_discussions, "alice found 1 discussions:\nd1");
}

#[test]
fn contributors_union_keeps_order() {
    let commits = vec![bundle("alice", "u", "s"), bundle("bob", "u", "s")];
    let issues = vec![bundle("bob", "i", "t"), bundle("carol", "i", "t")];
    let discussions = vec![bundle("carol", "d", "w"), bundle("dave", "d", "w")];
    let order = contributors_in_order(&commits, &issues, &discussions);
    assert_eq!(order, vec!["alice", "bob", "carol", "dave"]);
}

#[test]
fn bundle_lookup_finds_first_match() {
    let bs = vec![bundle("alice", "u", "s"), bundle("bob", "i", "t")];
    assert_eq!(find_bundle_index(&bs, &"bob".to_string()), 1);
    assert_eq!(find_bundle_index(&bs, &"carol".to_string()), 2);
}

#[test]
fn invalid_owner_repo_is_terminal() {
    let r = ReportPipeline::start(None, false);
    match r {
        Err(e) => assert_eq!(e, PipelineError::InvalidOwnerRepo),
        Ok(_) => panic!("validation failure must be terminal"),
    }
}

#[test]
fn empty_run_reports_the_no_data_sentence() {
    let mut p = ReportPipeline::start(None, true).unwrap();
    p.provide_commits(Vec::new());
    p.provide_issues(Vec::new());
    p.provide_discussions(Vec::new());
    p.finish_correlation();
    p.render();
    assert_eq!(p.complete(), "No useful data found, nothing to report");
}

#[test]
fn empty_run_with_target_person_is_personalized() {
    let mut p = ReportPipeline::start(Some("alice".to_string()), true).unwrap();
    p.provide_commits(Vec::new());
    p.provide_issues(Vec::new());
    p.provide_discussions(Vec::new());
    p.finish_correlation();
    p.render();
    assert_eq!(
        p.complete(),
        "No useful data found for alice, you may try alternative means to find out more about alice"
    );
}

#[test]
fn discussions_only_run_still_reports() {
    let mut p = ReportPipeline::start(None, true).unwrap();
    p.provide_commits(Vec::new());
    p.provide_issues(Vec::new());
    p.provide_discussions(vec![bundle("carol", "d1\nd2", "w1\nw2")]);
    let section = render_user_section(
        "carol",
        None,
        None,
        Some(&p.discussions[0]),
        &CorrelationOutcome::Failed,
    );
    p.add_user_section(Some(section));
    p.finish_correlation();
    p.render();
    assert_eq!(p.complete(), "carol found 2 discussions:\nd1\nd2");
}

#[test]
fn parse_failure_keeps_the_contributor_section() {
    // stage-2 text that neither extractor recognizes
    let raw = "plain prose with no recognizable fields";
    let outcome = match summary_from_generated(raw) {
        Ok(clean) => CorrelationOutcome::Summary(clean),
        Err(_) => CorrelationOutcome::Unparsable,
    };
    let commits = bundle("alice", "u1", "s1");
    let section = render_user_section("alice", Some(&commits), None, None, &outcome);
    assert_eq!(section, "alice found 1 commits:\nu1");
}

#[test]
fn one_commit_one_issue_full_run() {
    // a stand-in for the generation service that counts its calls
    let mut generation_calls = 0;

    // per-item analysis: one commit
    let (_sys, _usr) = commit_analysis_prompts("alice", "fix parser", "diff content here");
    generation_calls += 1;
    let commit_summary = "alice tightened the parser error paths".to_string();
    let commit_items = vec![AnalyzedItem {
        contributor: "alice".to_string(),
        source_url: "https://example.test/commit/1".to_string(),
        summary: commit_summary,
    }];

    // per-item analysis: one issue
    let (_sys2, _usr2) =
        issue_analysis_prompts("alice", "parser bug", "User 'alice' opened...", "alice");
    generation_calls += 1;
    let issue_response = "{\"alice\": \"diagnosed the parser bug\"}";
    let pairs = issue_contributor_summaries(issue_response).unwrap();
    let issue_items = items_from_issue_summaries(&pairs, "https://example.test/issue/7");

    assert_eq!(generation_calls, 2);

    // aggregation: one bundle per category for alice
    let commit_bundles = aggregate_items(&commit_items);
    let issue_bundles = aggregate_items(&issue_items);
    assert_eq!(commit_bundles.len(), 1);
    assert_eq!(issue_bundles.len(), 1);

    // correlation: one chain, two stages
    let mut chain = correlation_chain(
        &commit_bundles[0].summaries_joined,
        &issue_bundles[0].summaries_joined,
        "alice",
        2,
    );
    let mut chain_requests = 0;
    let _req1 = chain.first_request();
    chain_requests += 1;
    let req2 = chain.on_response(Some("draft analysis of alice's week".to_string()));
    assert!(req2.is_some());
    chain_requests += 1;
    chain.on_response(Some(
        "{\"impactful\": \"landed the parser fix\", \"alignment\": \"\", \"patterns\": \"\", \
         \"synergy\": \"\", \"significance\": \"high\"}"
            .to_string(),
    ));
    let raw = chain.result().unwrap();
    assert_eq!(chain_requests, 2);
    let clean = summary_from_generated(&raw).unwrap();

    // report assembly
    let mut p = ReportPipeline::start(Some("alice".to_string()), true).unwrap();
    p.provide_commits(commit_bundles);
    p.provide_issues(issue_bundles);
    p.provide_discussions(Vec::new());
    let section = render_user_section(
        "alice",
        Some(&p.commits[0]),
        Some(&p.issues[0]),
        None,
        &CorrelationOutcome::Summary(clean),
    );
    p.add_user_section(Some(section));
    p.finish_correlation();
    p.render();
    let report = p.complete();

    assert!(report.contains("found 1 commits"));
    assert!(report.contains("found 1 issues"));
    assert!(report.contains("landed the parser fix"));
    assert!(report.contains("high"));
}
