use weekly_report::chain::{content_of, single_request, ChainPhase, ChatRole, PromptChain};
use weekly_report::output_caps;
use weekly_report::prompts::{
    commits_tier, correlation_chain, issues_tier, tier_word_budget, VolumeTier,
};

#[test]
fn stage1_error_makes_no_second_call() {
    let mut chain = PromptChain::new(
        "sys".to_string(),
        "usr1".to_string(),
        "usr2".to_string(),
        384,
        96,
    );
    let mut calls = 0;
    let _req1 = chain.first_request();
    calls += 1;
    // the generation service fails: no content comes back
    let next = chain.on_response(None);
    assert!(next.is_none());
    assert_eq!(chain.phase, ChainPhase::Failed);
    assert!(chain.result().is_none());
    // whatever arrives later, the chain stays failed and asks for nothing
    let again = chain.on_response(Some("late content".to_string()));
    assert!(again.is_none());
    assert!(chain.result().is_none());
    assert_eq!(calls, 1);
}

#[test]
fn empty_stage1_content_fails_the_chain() {
    let mut chain =
        PromptChain::new("s".to_string(), "u1".to_string(), "u2".to_string(), 10, 10);
    let next = chain.on_response(Some(String::new()));
    assert!(next.is_none());
    assert_eq!(chain.phase, ChainPhase::Failed);
}

#[test]
fn two_stage_happy_path() {
    let mut chain = correlation_chain("commit work", "issue work", "alice", 2);
    let req1 = chain.first_request();
    assert_eq!(req1.messages.len(), 2);
    assert_eq!(req1.messages[0].role, ChatRole::System);
    assert_eq!(req1.messages[1].role, ChatRole::User);
    assert_eq!(req1.max_tokens, 384);

    let req2 = chain.on_response(Some("a draft analysis".to_string())).unwrap();
    assert_eq!(req2.messages.len(), 4);
    assert_eq!(req2.messages[2].role, ChatRole::Assistant);
    assert_eq!(req2.messages[2].content, "a draft analysis");
    assert_eq!(req2.messages[3].role, ChatRole::User);
    assert_eq!(req2.max_tokens, 96);

    let done = chain.on_response(Some("{\"impactful\": \"x\"}".to_string()));
    assert!(done.is_none());
    assert_eq!(chain.phase, ChainPhase::Succeeded);
    assert_eq!(chain.result().unwrap(), "{\"impactful\": \"x\"}");
}

#[test]
fn stage2_failure_returns_no_partial_result() {
    let mut chain =
        PromptChain::new("s".to_string(), "u1".to_string(), "u2".to_string(), 10, 10);
    let req2 = chain.on_response(Some("draft".to_string()));
    assert!(req2.is_some());
    let done = chain.on_response(None);
    assert!(done.is_none());
    assert_eq!(chain.phase, ChainPhase::Failed);
    assert!(chain.result().is_none());
}

#[test]
fn single_stage_request_shape() {
    let req = single_request("sys text".to_string(), "usr text".to_string(), 128);
    assert_eq!(req.messages.len(), 2);
    assert_eq!(req.messages[0].role, ChatRole::System);
    assert_eq!(req.messages[0].content, "sys text");
    assert_eq!(req.messages[1].role, ChatRole::User);
    assert_eq!(req.messages[1].content, "usr text");
    assert_eq!(req.max_tokens, 128);
}

#[test]
fn empty_or_absent_content_counts_as_none() {
    assert_eq!(content_of(None), None);
    assert_eq!(content_of(Some(String::new())), None);
    assert_eq!(content_of(Some("text".to_string())), Some("text".to_string()));
}

#[test]
fn output_caps_follow_the_tier_policy() {
    assert_eq!(output_caps(0), (384, 96));
    assert_eq!(output_caps(3), (384, 96));
    assert_eq!(output_caps(4), (512, 350));
    assert_eq!(output_caps(14), (512, 350));
    assert_eq!(output_caps(15), (1024, 500));
    assert_eq!(output_caps(100), (1024, 500));
}

#[test]
fn volume_tiers_per_category() {
    assert_eq!(commits_tier(1), VolumeTier::Sparse);
    assert_eq!(commits_tier(2), VolumeTier::Sparse);
    assert_eq!(commits_tier(3), VolumeTier::Default);
    assert_eq!(commits_tier(5), VolumeTier::Default);
    assert_eq!(commits_tier(6), VolumeTier::Turbo);
    assert_eq!(issues_tier(3), VolumeTier::Default);
    assert_eq!(issues_tier(4), VolumeTier::Turbo);
    assert_eq!(tier_word_budget(VolumeTier::Sparse), 600);
    assert_eq!(tier_word_budget(VolumeTier::Default), 400);
    assert_eq!(tier_word_budget(VolumeTier::Turbo), 200);
}
