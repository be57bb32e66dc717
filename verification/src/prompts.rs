//! Prompt construction for the per-item analyses and the correlation chain,
//! and the volume-based truncation policy.  Every builder's contract pins
//! the produced text exactly.

use vstd::prelude::*;
use vstd::string::StrSliceExecFns;
use vstd::string::StringExecFns;
use crate::chain::PromptChain;

verus! {

/// Truncation aggressiveness, selected by raw per-category volume: little
/// data keeps more detail, high volume is truncated harder to control cost.
#[derive(Clone, Copy, PartialEq, Eq, Structural, Debug)]
pub enum VolumeTier {
    /// One or two items: looser per-item truncation.
    Sparse,
    /// A moderate number of items.
    Default,
    /// At or above the category's threshold: tighter truncation.
    Turbo,
}

/// Commits switch to turbo at six items.
pub const COMMITS_TURBO_THRESHOLD: usize = 6;

/// Issues switch to turbo at four items.
pub const ISSUES_TURBO_THRESHOLD: usize = 4;

/// The tier for a category with `count` items and the given turbo threshold.
/// A count of zero means the category is skipped by the caller; it maps to
/// `Sparse` here for totality.
pub open spec fn tier_for(count: int, turbo_threshold: int) -> VolumeTier {
    if count <= 2 {
        VolumeTier::Sparse
    } else if count >= turbo_threshold {
        VolumeTier::Turbo
    } else {
        VolumeTier::Default
    }
}

/// Selects the commits tier.
pub fn commits_tier(count: usize) -> (t: VolumeTier)
    ensures
        t == tier_for(count as int, COMMITS_TURBO_THRESHOLD as int),
{
    if count <= 2 {
        VolumeTier::Sparse
    } else if count >= COMMITS_TURBO_THRESHOLD {
        VolumeTier::Turbo
    } else {
        VolumeTier::Default
    }
}

/// Selects the issues tier.
pub fn issues_tier(count: usize) -> (t: VolumeTier)
    ensures
        t == tier_for(count as int, ISSUES_TURBO_THRESHOLD as int),
{
    if count <= 2 {
        VolumeTier::Sparse
    } else if count >= ISSUES_TURBO_THRESHOLD {
        VolumeTier::Turbo
    } else {
        VolumeTier::Default
    }
}

/// The per-item word budget for squeezing an item body under a tier, around
/// the default budget of 400 words.
pub fn tier_word_budget(t: VolumeTier) -> (b: u16)
    ensures
        t == VolumeTier::Sparse ==> b == 600,
        t == VolumeTier::Default ==> b == 400,
        t == VolumeTier::Turbo ==> b == 200,
{
    match t {
        VolumeTier::Sparse => 600,
        VolumeTier::Default => 400,
        VolumeTier::Turbo => 200,
    }
}

/// The system prompt of the per-commit analysis.
pub open spec fn commit_sys_prompt_spec(user_name: Seq<char>) -> Seq<char> {
    "Given a commit patch from user "@ + user_name
        + ", analyze its content. Focus on changes that substantively alter code or functionality. A good analysis prioritizes the commit message for clues on intent and refrains from overstating the impact of minor changes. Aim to provide a balanced, fact-based representation that distinguishes between major and minor contributions to the project. Keep your analysis concise."@
}

/// The user prompt of the per-commit analysis.
pub open spec fn commit_usr_prompt_spec(
    user_name: Seq<char>,
    tag_line: Seq<char>,
    stripped_patch: Seq<char>,
) -> Seq<char> {
    "Analyze the commit patch: "@ + stripped_patch + ", and its description: "@ + tag_line
        + ". Summarize the main changes, but only emphasize modifications that directly affect core functionality. A good summary is fact-based, derived primarily from the commit message, and avoids over-interpretation. It recognizes the difference between minor textual changes and substantial code adjustments. Conclude by evaluating the realistic impact of "@
        + user_name
        + "'s contributions in this commit on the project. Limit the response to 110 tokens."@
}

/// Builds both per-commit analysis prompts.  The patch text is truncated to
/// its first 24000 characters first.
pub fn commit_analysis_prompts(user_name: &str, tag_line: &str, patch_text: &str) -> (r: (
    String,
    String,
))
    ensures
        r.0@ == commit_sys_prompt_spec(user_name@),
        r.1@ == commit_usr_prompt_spec(
            user_name@,
            tag_line@,
            patch_text@.take(
                if 24000 <= patch_text@.len() {
                    24000int
                } else {
                    patch_text@.len() as int
                },
            ),
        ),
{
    let stripped = crate::budget::truncate_chars(patch_text, 24000);
    let mut sys = String::new();
    sys.append("Given a commit patch from user ");
    sys.append(user_name);
    sys.append(
        ", analyze its content. Focus on changes that substantively alter code or functionality. A good analysis prioritizes the commit message for clues on intent and refrains from overstating the impact of minor changes. Aim to provide a balanced, fact-based representation that distinguishes between major and minor contributions to the project. Keep your analysis concise.",
    );
    let mut usr = String::new();
    usr.append("Analyze the commit patch: ");
    usr.append(stripped.as_str());
    usr.append(", and its description: ");
    usr.append(tag_line);
    usr.append(
        ". Summarize the main changes, but only emphasize modifications that directly affect core functionality. A good summary is fact-based, derived primarily from the commit message, and avoids over-interpretation. It recognizes the difference between minor textual changes and substantial code adjustments. Conclude by evaluating the realistic impact of ",
    );
    usr.append(user_name);
    usr.append("'s contributions in this commit on the project. Limit the response to 110 tokens.");
    proof {
        assert(sys@ =~= commit_sys_prompt_spec(user_name@));
        assert(usr@ =~= commit_usr_prompt_spec(user_name@, tag_line@, stripped@));
    }
    (sys, usr)
}

/// The opening line of an issue's assembled text.
pub open spec fn issue_opening_spec(
    creator: Seq<char>,
    title: Seq<char>,
    labels: Seq<char>,
    body: Seq<char>,
) -> Seq<char> {
    "User '"@ + creator + "', opened an issue titled '"@ + title + "', labeled '"@ + labels
        + "', with the following post: '"@ + body + "'."@
}

/// Renders the opening line of an issue's assembled text.  The body is
/// expected already squeezed by the caller's tier budget.
pub fn issue_opening_text(creator: &str, title: &str, labels: &str, body: &str) -> (r: String)
    ensures
        r@ == issue_opening_spec(creator@, title@, labels@, body@),
{
    let mut r = String::new();
    r.append("User '");
    r.append(creator);
    r.append("', opened an issue titled '");
    r.append(title);
    r.append("', labeled '");
    r.append(labels);
    r.append("', with the following post: '");
    r.append(body);
    r.append("'.");
    proof {
        assert(r@ =~= issue_opening_spec(creator@, title@, labels@, body@));
    }
    r
}

/// One comment's contribution to an issue's assembled text.
pub open spec fn comment_text_spec(commenter: Seq<char>, body: Seq<char>) -> Seq<char> {
    commenter + " commented: "@ + body
}

/// Renders one comment's line.
pub fn comment_text(commenter: &str, body: &str) -> (r: String)
    ensures
        r@ == comment_text_spec(commenter@, body@),
{
    let mut r = String::new();
    r.append(commenter);
    r.append(" commented: ");
    r.append(body);
    proof {
        assert(r@ =~= comment_text_spec(commenter@, body@));
    }
    r
}

/// Whether `name` is one of the known contributors.
pub fn contains_login(contributors: &Vec<String>, name: &String) -> (r: bool)
    ensures
        r == exists|i: int| 0 <= i < contributors@.len() && contributors@[i]@ == name@,
{
    let n = contributors.len();
    let mut i: usize = 0;
    while i < n
        invariant
            n == contributors@.len(),
            i <= n,
            forall|k: int| 0 <= k < i ==> contributors@[k]@ != name@,
        decreases n - i,
    {
        if contributors[i].eq(name) {
            return true;
        }
        i = i + 1;
    }
    false
}

/// Whose contributions the per-issue analysis highlights: the target person
/// when one is named (even by an empty name that falls back to the watched
/// commenters), else the phrase for key participants, else the watched
/// commenters joined by commas.
pub open spec fn watch_names_spec(
    target_person: Option<Seq<char>>,
    watchers: Seq<Seq<char>>,
) -> Seq<char> {
    let ts = match target_person {
        Some(t) => t,
        None => "key participants"@,
    };
    if ts.len() > 0 || watchers.len() == 0 {
        ts
    } else {
        crate::squeeze::join_seqs(watchers, ", "@)
    }
}

/// Renders the highlighted-participants phrase.
pub fn watch_names(target_person: &Option<String>, watchers: &Vec<String>) -> (r: String)
    ensures
        r@ == watch_names_spec(
            match target_person {
                Some(t) => Some(t@),
                None => None,
            },
            crate::squeeze::views_of(watchers@),
        ),
{
    let ts = match target_person {
        Some(t) => t.clone(),
        None => "key participants".to_owned(),
    };
    if !ts.as_str().is_empty() || watchers.len() == 0 {
        proof {
            assert(crate::squeeze::views_of(watchers@).len() == watchers@.len());
        }
        ts
    } else {
        crate::squeeze::join_with(watchers, ", ")
    }
}

/// The system prompt of the per-issue analysis.
pub open spec fn issue_sys_prompt_spec(creator: Seq<char>, title: Seq<char>) -> Seq<char> {
    "Given the information that user '"@ + creator + "' opened an issue titled '"@ + title
        + "', your task is to deeply analyze the content of the issue posts. Distill the crux of the issue, the potential solutions suggested, and evaluate the significant contributions of the participants in resolving or progressing the discussion."@
}

/// The user prompt of the per-issue analysis.
pub open spec fn issue_usr_prompt_spec(all_text: Seq<char>, watch_names: Seq<char>) -> Seq<char> {
    "Analyze the GitHub issue content: "@ + all_text
        + ". Provide a concise analysis touching upon: The central problem discussed in the issue. The main solutions proposed or agreed upon. Highlight the role and significance of '"@
        + watch_names
        + "' in contributing towards the resolution or progression of the discussion. If the target person's contribution is negligible or non-existent, leave the corresponding summary blank. Format the analysis into a flat JSON structure with one level of depth where each key maps directly to a single string value. Use the following template, replacing 'contributor_name' with the actual contributor's name, and 'summary' with your analysis of their contributions or an empty string if their contribution is negligible: { \"contributor_name_1\": \"summary\", \"contributor_name_2\": \"summary\" }"@
}

/// Builds both per-issue analysis prompts.  The assembled issue text is
/// truncated to its first 32000 characters first.
pub fn issue_analysis_prompts(creator: &str, title: &str, all_text: &str, watch_names: &str) -> (r:
    (String, String))
    ensures
        r.0@ == issue_sys_prompt_spec(creator@, title@),
        r.1@ == issue_usr_prompt_spec(
            all_text@.take(
                if 32000 <= all_text@.len() {
                    32000int
                } else {
                    all_text@.len() as int
                },
            ),
            watch_names@,
        ),
{
    let stripped = crate::budget::truncate_chars(all_text, 32000);
    let mut sys = String::new();
    sys.append("Given the information that user '");
    sys.append(creator);
    sys.append("' opened an issue titled '");
    sys.append(title);
    sys.append(
        "', your task is to deeply analyze the content of the issue posts. Distill the crux of the issue, the potential solutions suggested, and evaluate the significant contributions of the participants in resolving or progressing the discussion.",
    );
    let mut usr = String::new();
    usr.append("Analyze the GitHub issue content: ");
    usr.append(stripped.as_str());
    usr.append(
        ". Provide a concise analysis touching upon: The central problem discussed in the issue. The main solutions proposed or agreed upon. Highlight the role and significance of '",
    );
    usr.append(watch_names);
    usr.append(
        "' in contributing towards the resolution or progression of the discussion. If the target person's contribution is negligible or non-existent, leave the corresponding summary blank. Format the analysis into a flat JSON structure with one level of depth where each key maps directly to a single string value. Use the following template, replacing 'contributor_name' with the actual contributor's name, and 'summary' with your analysis of their contributions or an empty string if their contribution is negligible: { \"contributor_name_1\": \"summary\", \"contributor_name_2\": \"summary\" }",
    );
    proof {
        assert(sys@ =~= issue_sys_prompt_spec(creator@, title@));
        assert(usr@ =~= issue_usr_prompt_spec(stripped@, watch_names@));
    }
    (sys, usr)
}

/// A squeezed comment body: comment bodies are reduced to 200 words with
/// the whole budget at the head; an absent body contributes nothing.
pub open spec fn squeezed_comment_body(b: Option<Seq<char>>) -> Seq<char> {
    match b {
        Some(body) => crate::squeeze::squeeze_remove_quoted_spec(body, 200, 100),
        None => Seq::empty(),
    }
}

/// The concatenated comment lines of an issue, in order.
pub open spec fn comments_text_spec(cs: Seq<(Seq<char>, Option<Seq<char>>)>) -> Seq<char>
    decreases cs.len(),
{
    if cs.len() == 0 {
        Seq::empty()
    } else {
        comment_text_spec(cs[0].0, squeezed_comment_body(cs[0].1)) + comments_text_spec(
            cs.drop_first(),
        )
    }
}

/// The views of (commenter, body) pairs.
pub open spec fn comment_views(v: Seq<(String, Option<String>)>) -> Seq<
    (Seq<char>, Option<Seq<char>>),
> {
    v.map_values(
        |c: (String, Option<String>)| (
            c.0@,
            match c.1 {
                Some(b) => Some(b@),
                None => None,
            },
        ),
    )
}

/// Assembles the full text of one issue: the opening line followed by each
/// comment's line, every comment body squeezed to 200 words first.
pub fn assemble_issue_text(opening: &str, comments: &Vec<(String, Option<String>)>) -> (r: String)
    ensures
        r@ == opening@ + comments_text_spec(comment_views(comments@)),
{
    let ghost cvs = comment_views(comments@);
    let mut r = opening.to_owned();
    let n = comments.len();
    let mut i: usize = 0;
    proof {
        assert(cvs.skip(0) =~= cvs);
        assert(r@ + comments_text_spec(cvs) =~= opening@ + comments_text_spec(cvs));
    }
    while i < n
        invariant
            n == comments@.len(),
            cvs == comment_views(comments@),
            i <= n,
            opening@ + comments_text_spec(cvs) == r@ + comments_text_spec(cvs.skip(i as int)),
        decreases n - i,
    {
        let ghost suffix = cvs.skip(i as int);
        let ghost r0 = r@;
        proof {
            assert(suffix[0] == cvs[i as int]);
            assert(suffix.drop_first() =~= cvs.skip(i as int + 1));
        }
        let body = match &comments[i].1 {
            Some(b) => crate::squeeze::squeeze_fit_remove_quoted(b.as_str(), 200, 100),
            None => String::new(),
        };
        let line = comment_text(comments[i].0.as_str(), body.as_str());
        r.append(line.as_str());
        proof {
            assert(r@ + comments_text_spec(cvs.skip(i as int + 1)) =~= r0 + comments_text_spec(
                suffix,
            ));
        }
        i = i + 1;
    }
    proof {
        assert(cvs.skip(n as int) =~= Seq::<(Seq<char>, Option<Seq<char>>)>::empty());
        assert(r@ =~= opening@ + comments_text_spec(cvs));
    }
    r
}

/// The commenters who are known contributors, in comment order, repeats
/// kept.
pub open spec fn watched_spec(
    cs: Seq<(Seq<char>, Option<Seq<char>>)>,
    contributors: Seq<Seq<char>>,
) -> Seq<Seq<char>>
    decreases cs.len(),
{
    if cs.len() == 0 {
        Seq::empty()
    } else {
        let rest = watched_spec(cs.drop_first(), contributors);
        if exists|i: int| 0 <= i < contributors.len() && contributors[i] == cs[0].0 {
            seq![cs[0].0] + rest
        } else {
            rest
        }
    }
}

/// Collects the commenters who appear in the contributor list.
pub fn watched_commenters(
    comments: &Vec<(String, Option<String>)>,
    contributors: &Vec<String>,
) -> (out: Vec<String>)
    ensures
        crate::squeeze::views_of(out@) == watched_spec(
            comment_views(comments@),
            crate::squeeze::views_of(contributors@),
        ),
{
    let ghost cvs = comment_views(comments@);
    let ghost set_views = crate::squeeze::views_of(contributors@);
    let mut out: Vec<String> = Vec::new();
    let n = comments.len();
    let mut i: usize = 0;
    proof {
        assert(cvs.skip(0) =~= cvs);
        assert(crate::squeeze::views_of(out@) + watched_spec(cvs, set_views) =~= watched_spec(
            cvs,
            set_views,
        ));
    }
    while i < n
        invariant
            n == comments@.len(),
            cvs == comment_views(comments@),
            set_views == crate::squeeze::views_of(contributors@),
            i <= n,
            watched_spec(cvs, set_views) == crate::squeeze::views_of(out@) + watched_spec(
                cvs.skip(i as int),
                set_views,
            ),
        decreases n - i,
    {
        let ghost suffix = cvs.skip(i as int);
        proof {
            assert(suffix[0] == cvs[i as int]);
            assert(suffix.drop_first() =~= cvs.skip(i as int + 1));
        }
        if contains_login(contributors, &comments[i].0) {
            let ghost old_out = out@;
            proof {
                let k0 = choose|k: int|
                    0 <= k < contributors@.len() && contributors@[k]@ == comments@[i as int].0@;
                assert(set_views[k0] == suffix[0].0);
                assert(exists|k: int|
                    0 <= k < set_views.len() && #[trigger] set_views[k] == suffix[0].0);
            }
            out.push(comments[i].0.clone());
            proof {
                assert(crate::squeeze::views_of(out@) =~= crate::squeeze::views_of(old_out).push(
                    suffix[0].0,
                ));
                assert(crate::squeeze::views_of(out@) + watched_spec(
                    cvs.skip(i as int + 1),
                    set_views,
                ) =~= crate::squeeze::views_of(old_out) + watched_spec(suffix, set_views));
            }
        } else {
            proof {
                assert forall|k: int| 0 <= k < set_views.len() implies #[trigger] set_views[k]
                    != suffix[0].0 by {
                    assert(set_views[k] == contributors@[k]@);
                }
            }
        }
        i = i + 1;
    }
    proof {
        assert(cvs.skip(n as int) =~= Seq::<(Seq<char>, Option<Seq<char>>)>::empty());
        assert(crate::squeeze::views_of(out@) =~= watched_spec(cvs, set_views));
    }
    out
}

/// The system prompt of the correlation chain.
pub open spec fn correlation_sys_prompt_spec() -> Seq<char> {
    "You're a GitHub data analysis bot. You're tasked to analyze a GitHub contributor's activity data over the week to detect both key impactful contributions and connections between commits and issues. Highlight specific code changes, resolutions, and improvements."@
}

/// The first-stage user prompt of the correlation chain.
pub open spec fn correlation_usr_prompt_1_spec(
    commits_summary: Seq<char>,
    issues_summary: Seq<char>,
    target_person: Seq<char>,
) -> Seq<char> {
    "From "@ + commits_summary + ", "@ + issues_summary
        + ". Analyze the key technical contributions made by "@ + target_person
        + " this week and draft a concise analytical summary of the activity."@
}

/// The second-stage user prompt of the correlation chain: reformat the
/// draft into the flat five-key JSON object.
pub open spec fn correlation_usr_prompt_2_spec() -> Seq<char> {
    "Reformat the analysis above into a flat JSON structure with just one level of depth. Each key in the JSON should map directly to a single string value describing the contribution or observation in a full sentence or a short paragraph without using nested objects or arrays. If no information is available for a point, provide an empty string as the value. Please ensure that the JSON output does not include any Markdown formatting, such as code block syntax or escaped characters. Your JSON response should use the following keys with appropriate string values: { \"impactful\": \"Provide a single string value summarizing impactful contributions and their interconnections.\", \"alignment\": \"Provide a single string value explaining how the contributions align with the project's goals.\", \"patterns\": \"Provide a single string value identifying any recurring patterns or trends in the contributions.\", \"synergy\": \"Provide a single string value discussing the synergy between individual and collective advancement.\", \"significance\": \"Provide a single string value commenting on the significance of the contributions.\" } Ensure that the JSON is properly formatted, with correct escaping of special characters, and is ready to be parsed by a JSON parser that expects RFC8259-compliant JSON. Avoid adding any non-JSON content or formatting."@
}

/// Builds the two-stage correlation chain for one contributor, with
/// output-length caps scaled by the number of analyzed items.
pub fn correlation_chain(
    commits_summary: &str,
    issues_summary: &str,
    target_person: &str,
    n_items: usize,
) -> (c: PromptChain)
    ensures
        c@.sys_prompt == correlation_sys_prompt_spec(),
        c@.usr_prompt_1 == correlation_usr_prompt_1_spec(
            commits_summary@,
            issues_summary@,
            target_person@,
        ),
        c@.usr_prompt_2 == correlation_usr_prompt_2_spec(),
        (c@.gen_len_1, c@.gen_len_2) == crate::output_caps_spec(n_items as int),
        c@.phase == crate::chain::ChainPhase::Stage1Pending,
{
    let caps = crate::output_caps(n_items);
    let sys =
        "You're a GitHub data analysis bot. You're tasked to analyze a GitHub contributor's activity data over the week to detect both key impactful contributions and connections between commits and issues. Highlight specific code changes, resolutions, and improvements.".to_owned();
    let mut usr1 = String::new();
    usr1.append("From ");
    usr1.append(commits_summary);
    usr1.append(", ");
    usr1.append(issues_summary);
    usr1.append(". Analyze the key technical contributions made by ");
    usr1.append(target_person);
    usr1.append(" this week and draft a concise analytical summary of the activity.");
    let usr2 =
        "Reformat the analysis above into a flat JSON structure with just one level of depth. Each key in the JSON should map directly to a single string value describing the contribution or observation in a full sentence or a short paragraph without using nested objects or arrays. If no information is available for a point, provide an empty string as the value. Please ensure that the JSON output does not include any Markdown formatting, such as code block syntax or escaped characters. Your JSON response should use the following keys with appropriate string values: { \"impactful\": \"Provide a single string value summarizing impactful contributions and their interconnections.\", \"alignment\": \"Provide a single string value explaining how the contributions align with the project's goals.\", \"patterns\": \"Provide a single string value identifying any recurring patterns or trends in the contributions.\", \"synergy\": \"Provide a single string value discussing the synergy between individual and collective advancement.\", \"significance\": \"Provide a single string value commenting on the significance of the contributions.\" } Ensure that the JSON is properly formatted, with correct escaping of special characters, and is ready to be parsed by a JSON parser that expects RFC8259-compliant JSON. Avoid adding any non-JSON content or formatting.".to_owned();
    proof {
        assert(usr1@ =~= correlation_usr_prompt_1_spec(
            commits_summary@,
            issues_summary@,
            target_person@,
        ));
    }
    PromptChain::new(sys, usr1, usr2, caps.0, caps.1)
}

/// The readme text actually analyzed: readmes over 48000 characters are
/// squeezed to 9000 words first, with seventy percent of the budget at the
/// head.
pub open spec fn readme_payload_spec(content: Seq<char>) -> Seq<char> {
    if content.len() > 48000 {
        crate::squeeze::squeeze_remove_quoted_spec(content, 9000, 70)
    } else {
        content
    }
}

/// The system prompt of the readme analysis.
pub open spec fn readme_sys_prompt_spec() -> Seq<char> {
    "Your task is to objectively analyze a GitHub profile and the README of their project. Focus on extracting factual information about the features of the project, and its stated objectives. Avoid making judgments or inferring subjective value."@
}

/// The user prompt of the readme analysis.
pub open spec fn readme_usr_prompt_spec(content: Seq<char>) -> Seq<char> {
    "Based on the profile and README provided: "@ + readme_payload_spec(content)
        + ", extract a concise summary detailing this project's factual significance in its domain, their areas of expertise, and the main features and goals of the project. Ensure the insights are objective and under 110 tokens."@
}

/// Builds both readme-analysis prompts.
pub fn readme_analysis_prompts(content: &str) -> (r: (String, String))
    ensures
        r.0@ == readme_sys_prompt_spec(),
        r.1@ == readme_usr_prompt_spec(content@),
{
    let sys =
        "Your task is to objectively analyze a GitHub profile and the README of their project. Focus on extracting factual information about the features of the project, and its stated objectives. Avoid making judgments or inferring subjective value.".to_owned();
    let payload = if content.unicode_len() > 48000 {
        crate::squeeze::squeeze_fit_remove_quoted(content, 9000, 70)
    } else {
        content.to_owned()
    };
    let mut usr = String::new();
    usr.append("Based on the profile and README provided: ");
    usr.append(payload.as_str());
    usr.append(
        ", extract a concise summary detailing this project's factual significance in its domain, their areas of expertise, and the main features and goals of the project. Ensure the insights are objective and under 110 tokens.",
    );
    proof {
        assert(usr@ =~= readme_usr_prompt_spec(content@));
    }
    (sys, usr)
}

/// The page text actually analyzed for a repository overview: pages over
/// 48000 characters are reduced to 12000 tokens first.
pub open spec fn overview_payload_ok(content: Seq<char>, used: Seq<char>) -> bool {
    if content.len() > 48000 {
        crate::tokens::post_texts_result(content, 12000, 70, used)
    } else {
        used == content
    }
}

/// The system prompt of the repository-overview analysis.
pub open spec fn overview_sys_prompt_spec() -> Seq<char> {
    "Your task is to examine the textual content from a GitHub repo page, emphasizing the Header, About, Release, Contributors, Languages, and README sections. This process should be carried out objectively, focusing on factual information extraction from each segment. Avoid making subjective judgments or inferences. The data should be presented systematically, corresponding to each section. Please note, the provided text will be in a flattened format."@
}

/// The user prompt of the repository-overview analysis, over the reduced
/// page text.
pub open spec fn overview_usr_prompt_spec(used: Seq<char>) -> Seq<char> {
    "I've obtained a flattened text from a GitHub repo page and require analysis of the following sections: 1) Header, with data on Fork, Star, Issues, Pull Request, etc.; 2) About, containing project description, keywords, number of stars, watchers, and forks; 3) Release, with details on the latest release and total releases; 4) Contributors, showing the number of contributors; 5) Languages, displaying the language composition in the project, and 6) README, which is usually a body of text describing the project, please summarize README when presenting result. Please extract and present data from these sections individually. Here is the text: "@
        + used
}

/// Builds both repository-overview prompts.
pub fn overview_analysis_prompts(page_text: &str) -> (r: (String, String))
    ensures
        r.0@ == overview_sys_prompt_spec(),
        exists|used: Seq<char>|
            overview_payload_ok(page_text@, used) && r.1@ == overview_usr_prompt_spec(used),
{
    let sys =
        "Your task is to examine the textual content from a GitHub repo page, emphasizing the Header, About, Release, Contributors, Languages, and README sections. This process should be carried out objectively, focusing on factual information extraction from each segment. Avoid making subjective judgments or inferences. The data should be presented systematically, corresponding to each section. Please note, the provided text will be in a flattened format.".to_owned();
    let payload = if page_text.unicode_len() > 48000 {
        crate::tokens::squeeze_fit_post_texts(page_text, 12000, 70)
    } else {
        page_text.to_owned()
    };
    let mut usr = String::new();
    usr.append(
        "I've obtained a flattened text from a GitHub repo page and require analysis of the following sections: 1) Header, with data on Fork, Star, Issues, Pull Request, etc.; 2) About, containing project description, keywords, number of stars, watchers, and forks; 3) Release, with details on the latest release and total releases; 4) Contributors, showing the number of contributors; 5) Languages, displaying the language composition in the project, and 6) README, which is usually a body of text describing the project, please summarize README when presenting result. Please extract and present data from these sections individually. Here is the text: ",
    );
    usr.append(payload.as_str());
    proof {
        assert(usr@ =~= overview_usr_prompt_spec(payload@));
        assert(overview_payload_ok(page_text@, payload@));
    }
    (sys, usr)
}

/// A discussion body squeezed to 500 words, sixty percent of the budget at
/// the head; an absent body contributes nothing.
pub open spec fn squeezed_discussion_body(b: Option<Seq<char>>) -> Seq<char> {
    match b {
        Some(x) => crate::squeeze::squeeze_remove_quoted_spec(x, 500, 60),
        None => Seq::empty(),
    }
}

/// A discussion comment body squeezed to 300 words, sixty percent at the
/// head.
pub open spec fn squeezed_discussion_comment(b: Option<Seq<char>>) -> Seq<char> {
    match b {
        Some(x) => crate::squeeze::squeeze_remove_quoted_spec(x, 300, 60),
        None => Seq::empty(),
    }
}

/// The upvote note of a discussion's opening line: present only for a
/// positive count.
pub open spec fn upvotes_text_spec(upvotes: Option<u32>) -> Seq<char> {
    match upvotes {
        Some(c) => if c > 0 {
            "Upvotes: "@ + crate::report::dec_digits(c as int)
        } else {
            Seq::empty()
        },
        None => Seq::empty(),
    }
}

/// The opening line of a discussion's assembled text.
pub open spec fn discussion_opening_spec(
    title: Seq<char>,
    url: Seq<char>,
    body: Option<Seq<char>>,
    created_date: Seq<char>,
    upvotes: Option<u32>,
    author: Seq<char>,
) -> Seq<char> {
    "Title: '"@ + title + "' Url: '"@ + url + "' Body: '"@ + squeezed_discussion_body(body)
        + "' Created At: "@ + created_date + " "@ + upvotes_text_spec(upvotes) + " Author: "@
        + author + "\n"@
}

/// One comment's line in a discussion's assembled text.
pub open spec fn discussion_comment_line_spec(author: Seq<char>, body: Option<Seq<char>>) -> Seq<
    char,
> {
    author + " comments: '"@ + squeezed_discussion_comment(body) + "'\n"@
}

/// The concatenated comment lines of a discussion, in order.
pub open spec fn discussion_comments_spec(cs: Seq<(Seq<char>, Option<Seq<char>>)>) -> Seq<char>
    decreases cs.len(),
{
    if cs.len() == 0 {
        Seq::empty()
    } else {
        discussion_comment_line_spec(cs[0].0, cs[0].1) + discussion_comments_spec(cs.drop_first())
    }
}

/// The full assembled text of one discussion, before the final token-level
/// reduction.
pub open spec fn discussion_texts_spec(
    title: Seq<char>,
    url: Seq<char>,
    body: Option<Seq<char>>,
    created_date: Seq<char>,
    upvotes: Option<u32>,
    author: Seq<char>,
    comments: Seq<(Seq<char>, Option<Seq<char>>)>,
) -> Seq<char> {
    discussion_opening_spec(title, url, body, created_date, upvotes, author)
        + discussion_comments_spec(comments)
}

/// Assembles the full text of one discussion — the opening line with the
/// squeezed body, then every comment's line with its squeezed body — and
/// reduces it to 12000 tokens, forty percent of the budget at the head.
pub fn assemble_discussion_text(
    title: &str,
    url: &str,
    body: &Option<String>,
    created_date: &str,
    upvotes: Option<u32>,
    author: &str,
    comments: &Vec<(String, Option<String>)>,
) -> (r: String)
    ensures
        crate::tokens::post_texts_result(
            discussion_texts_spec(
                title@,
                url@,
                match body {
                    Some(b) => Some(b@),
                    None => None,
                },
                created_date@,
                upvotes,
                author@,
                comment_views(comments@),
            ),
            12000,
            40,
            r@,
        ),
{
    let mut text = String::new();
    text.append("Title: '");
    text.append(title);
    text.append("' Url: '");
    text.append(url);
    let ghost t1 = "Title: '"@ + title@ + "' Url: '"@ + url@;
    proof {
        assert(text@ =~= t1);
    }
    text.append("' Body: '");
    match body {
        Some(b) => {
            let squeezed = crate::squeeze::squeeze_fit_remove_quoted(b.as_str(), 500, 60);
            text.append(squeezed.as_str());
        },
        None => {},
    }
    let ghost t2 = t1 + "' Body: '"@ + squeezed_discussion_body(
        match body {
            Some(b) => Some(b@),
            None => None,
        },
    );
    proof {
        assert(text@ =~= t2);
    }
    text.append("' Created At: ");
    text.append(created_date);
    text.append(" ");
    match upvotes {
        Some(c) => {
            if c > 0 {
                text.append("Upvotes: ");
                text.append(crate::report::u64_to_dec(c as u64).as_str());
            }
        },
        None => {},
    }
    let ghost t3 = t2 + "' Created At: "@ + created_date@ + " "@ + upvotes_text_spec(upvotes);
    proof {
        assert(text@ =~= t3);
    }
    text.append(" Author: ");
    text.append(author);
    text.append("\n");
    let ghost opening = discussion_opening_spec(
        title@,
        url@,
        match body {
            Some(b) => Some(b@),
            None => None,
        },
        created_date@,
        upvotes,
        author@,
    );
    proof {
        assert(text@ =~= opening);
    }
    let ghost cvs = comment_views(comments@);
    let n = comments.len();
    let mut i: usize = 0;
    proof {
        assert(cvs.skip(0) =~= cvs);
        assert(text@ + discussion_comments_spec(cvs) =~= opening + discussion_comments_spec(cvs));
    }
    while i < n
        invariant
            n == comments@.len(),
            cvs == comment_views(comments@),
            i <= n,
            opening + discussion_comments_spec(cvs) == text@ + discussion_comments_spec(
                cvs.skip(i as int),
            ),
        decreases n - i,
    {
        let ghost suffix = cvs.skip(i as int);
        let ghost text0 = text@;
        proof {
            assert(suffix[0] == cvs[i as int]);
            assert(suffix.drop_first() =~= cvs.skip(i as int + 1));
        }
        text.append(comments[i].0.as_str());
        text.append(" comments: '");
        match &comments[i].1 {
            Some(b) => {
                let squeezed = crate::squeeze::squeeze_fit_remove_quoted(b.as_str(), 300, 60);
                text.append(squeezed.as_str());
            },
            None => {},
        }
        text.append("'\n");
        proof {
            assert(text@ =~= text0 + discussion_comment_line_spec(suffix[0].0, suffix[0].1));
            assert(text@ + discussion_comments_spec(cvs.skip(i as int + 1)) =~= text0
                + discussion_comments_spec(suffix));
        }
        i = i + 1;
    }
    proof {
        assert(cvs.skip(n as int) =~= Seq::<(Seq<char>, Option<Seq<char>>)>::empty());
        assert(text@ =~= opening + discussion_comments_spec(cvs));
    }
    crate::tokens::squeeze_fit_post_texts(text.as_str(), 12000, 40)
}

/// The possessive phrase naming whose contributions a discussion analysis
/// highlights.
pub open spec fn discussion_target_spec(target_person: Option<Seq<char>>) -> Seq<char> {
    match target_person {
        Some(t) => t + "'s"@,
        None => "key participants'"@,
    }
}

/// The system prompt of the per-discussion analysis.
pub open spec fn discussion_sys_prompt_spec(target: Seq<char>) -> Seq<char> {
    "Analyze the provided GitHub discussion. Identify the main topic, actions by participants, crucial viewpoints, solutions or consensus reached, and particularly highlight the contributions of specific individuals, especially '"@
        + target + "'. Summarize without being verbose."@
}

/// The user prompt of the per-discussion analysis.
pub open spec fn discussion_usr_prompt_spec(texts: Seq<char>, target: Seq<char>) -> Seq<char> {
    "Analyze the content: "@ + texts
        + ". Briefly summarize the central topic, participants' actions, primary viewpoints, and outcomes. Emphasize the role of '"@
        + target
        + "' in driving the discussion or reaching a resolution. Aim for a succinct summary that is rich in analysis and under 192 tokens."@
}

/// Builds both per-discussion prompts from the assembled discussion text.
pub fn discussion_analysis_prompts(texts: &str, target_person: &Option<String>) -> (r: (
    String,
    String,
))
    ensures
        r.0@ == discussion_sys_prompt_spec(
            discussion_target_spec(
                match target_person {
                    Some(t) => Some(t@),
                    None => None,
                },
            ),
        ),
        r.1@ == discussion_usr_prompt_spec(
            texts@,
            discussion_target_spec(
                match target_person {
                    Some(t) => Some(t@),
                    None => None,
                },
            ),
        ),
{
    let mut target = String::new();
    match target_person {
        Some(t) => {
            target.append(t.as_str());
            target.append("'s");
        },
        None => {
            target.append("key participants'");
        },
    }
    proof {
        match target_person {
            Some(t) => {
                assert(target@ =~= t@ + "'s"@);
            },
            None => {
                assert(target@ =~= "key participants'"@);
            },
        }
    }
    let mut sys = String::new();
    sys.append(
        "Analyze the provided GitHub discussion. Identify the main topic, actions by participants, crucial viewpoints, solutions or consensus reached, and particularly highlight the contributions of specific individuals, especially '",
    );
    sys.append(target.as_str());
    sys.append("'. Summarize without being verbose.");
    let mut usr = String::new();
    usr.append("Analyze the content: ");
    usr.append(texts);
    usr.append(
        ". Briefly summarize the central topic, participants' actions, primary viewpoints, and outcomes. Emphasize the role of '",
    );
    usr.append(target.as_str());
    usr.append(
        "' in driving the discussion or reaching a resolution. Aim for a succinct summary that is rich in analysis and under 192 tokens.",
    );
    proof {
        assert(sys@ =~= discussion_sys_prompt_spec(target@));
        assert(usr@ =~= discussion_usr_prompt_spec(texts@, target@));
    }
    (sys, usr)
}

} // verus!
