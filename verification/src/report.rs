//! Report assembly: per-contributor sections with their "found N records"
//! lines, the correlated summary, and the final newline-joined report, plus
//! the report run's state machine.

use vstd::prelude::*;
use vstd::string::StrSliceExecFns;
use vstd::string::StringExecFns;
use crate::aggregate::{BundleView, ContributorBundle, bundle_views, find_bundle, lemma_find_bundle};
use crate::squeeze::{join_seqs, join_with, spec_lines, split_lines, views_of};

verus! {

/// The decimal digit character for `d`.
pub open spec fn digit_char(d: int) -> char {
    if d == 0 {
        '0'
    } else if d == 1 {
        '1'
    } else if d == 2 {
        '2'
    } else if d == 3 {
        '3'
    } else if d == 4 {
        '4'
    } else if d == 5 {
        '5'
    } else if d == 6 {
        '6'
    } else if d == 7 {
        '7'
    } else if d == 8 {
        '8'
    } else {
        '9'
    }
}

/// The decimal digit sequence of a non-negative number, most significant
/// digit first.
pub open spec fn dec_digits(n: int) -> Seq<char>
    decreases n,
    when n >= 0
{
    if n < 10 {
        seq![digit_char(n)]
    } else {
        dec_digits(n / 10).push(digit_char(n % 10))
    }
}

fn digit_str(d: u64) -> (r: &'static str)
    requires
        d < 10,
    ensures
        r@ == seq![digit_char(d as int)],
{
    proof {
        reveal_strlit("0");
        reveal_strlit("1");
        reveal_strlit("2");
        reveal_strlit("3");
        reveal_strlit("4");
        reveal_strlit("5");
        reveal_strlit("6");
        reveal_strlit("7");
        reveal_strlit("8");
        reveal_strlit("9");
    }
    match d {
        0 => "0",
        1 => "1",
        2 => "2",
        3 => "3",
        4 => "4",
        5 => "5",
        6 => "6",
        7 => "7",
        8 => "8",
        _ => "9",
    }
}

/// Renders a number in decimal.
pub fn u64_to_dec(n: u64) -> (r: String)
    ensures
        r@ == dec_digits(n as int),
    decreases n,
{
    if n < 10 {
        digit_str(n).to_owned()
    } else {
        let mut s = u64_to_dec(n / 10);
        s.append(digit_str(n % 10));
        proof {
            assert(s@ =~= dec_digits(n as int / 10).push(digit_char(n as int % 10)));
        }
        s
    }
}

/// Counts the newline-separated lines of a text.
pub fn count_lines(s: &str) -> (n: usize)
    ensures
        n == spec_lines(s@).len(),
{
    let lines = split_lines(s);
    proof {
        assert(views_of(lines@).len() == lines@.len());
    }
    lines.len()
}

/// The "found N commits" line of one contributor, with the contributor's
/// newline-joined commit locators below it.
pub open spec fn commits_section_spec(user: Seq<char>, urls: Seq<char>) -> Seq<char> {
    user + " found "@ + dec_digits(spec_lines(urls).len() as int) + " commits:\n"@ + urls
}

/// Renders the commits line of one contributor.
pub fn commits_section(user: &str, urls: &str) -> (r: String)
    ensures
        r@ == commits_section_spec(user@, urls@),
{
    let n = count_lines(urls);
    let mut r = String::new();
    r.append(user);
    r.append(" found ");
    r.append(u64_to_dec(n as u64).as_str());
    r.append(" commits:\n");
    r.append(urls);
    proof {
        assert(r@ =~= commits_section_spec(user@, urls@));
    }
    r
}

/// The "found N issues" line of one contributor, with the contributor's
/// newline-joined issue locators below it.
pub open spec fn issues_section_spec(user: Seq<char>, urls: Seq<char>) -> Seq<char> {
    user + " found "@ + dec_digits(spec_lines(urls).len() as int) + " issues:\n"@ + urls
}

/// Renders the issues line of one contributor.
pub fn issues_section(user: &str, urls: &str) -> (r: String)
    ensures
        r@ == issues_section_spec(user@, urls@),
{
    let n = count_lines(urls);
    let mut r = String::new();
    r.append(user);
    r.append(" found ");
    r.append(u64_to_dec(n as u64).as_str());
    r.append(" issues:\n");
    r.append(urls);
    proof {
        assert(r@ =~= issues_section_spec(user@, urls@));
    }
    r
}

/// The "found N discussions" line of one contributor, with the
/// contributor's newline-joined discussion locators below it.
pub open spec fn discussions_section_spec(user: Seq<char>, urls: Seq<char>) -> Seq<char> {
    user + " found "@ + dec_digits(spec_lines(urls).len() as int) + " discussions:\n"@ + urls
}

/// Renders the discussions line of one contributor.
pub fn discussions_section(user: &str, urls: &str) -> (r: String)
    ensures
        r@ == discussions_section_spec(user@, urls@),
{
    let n = count_lines(urls);
    let mut r = String::new();
    r.append(user);
    r.append(" found ");
    r.append(u64_to_dec(n as u64).as_str());
    r.append(" discussions:\n");
    r.append(urls);
    proof {
        assert(r@ =~= discussions_section_spec(user@, urls@));
    }
    r
}

/// What the correlation stage produced for one contributor.  Either failure
/// costs only the correlated text, never the contributor's evidence lines.
pub enum CorrelationOutcome {
    /// The chain produced no content: the contributor's sections stand
    /// without a correlated summary.
    Failed,
    /// The flattened correlated summary.
    Summary(String),
    /// The chain produced content that neither extractor recognized: the
    /// contributor's sections stand without a correlated summary.
    Unparsable,
}

/// Spec-level image of a correlation outcome.
pub enum CorrOutView {
    Failed,
    Summary(Seq<char>),
    Unparsable,
}

impl View for CorrelationOutcome {
    type V = CorrOutView;

    open spec fn view(&self) -> CorrOutView {
        match self {
            CorrelationOutcome::Failed => CorrOutView::Failed,
            CorrelationOutcome::Summary(s) => CorrOutView::Summary(s@),
            CorrelationOutcome::Unparsable => CorrOutView::Unparsable,
        }
    }
}

/// One contributor's report section: the commits, issues and discussions
/// lines that exist, newline-joined, with the correlated summary appended
/// when one was parsed.  A failed or unparsable correlation costs only the
/// summary; the evidence lines always stand.
pub open spec fn user_section_spec(
    user: Seq<char>,
    commits: Option<BundleView>,
    issues: Option<BundleView>,
    discussions: Option<BundleView>,
    outcome: CorrOutView,
) -> Seq<char> {
    let parts = (match commits {
        Some(c) => seq![commits_section_spec(user, c.urls_joined)],
        None => Seq::empty(),
    }) + (match issues {
        Some(b) => seq![issues_section_spec(user, b.urls_joined)],
        None => Seq::empty(),
    }) + (match discussions {
        Some(d) => seq![discussions_section_spec(user, d.urls_joined)],
        None => Seq::empty(),
    }) + (match outcome {
        CorrOutView::Summary(s) => seq![s],
        _ => Seq::empty(),
    });
    join_seqs(parts, seq!['\n'])
}

/// Renders one contributor's section.
pub fn render_user_section(
    user: &str,
    commits: Option<&ContributorBundle>,
    issues: Option<&ContributorBundle>,
    discussions: Option<&ContributorBundle>,
    outcome: &CorrelationOutcome,
) -> (r: String)
    ensures
        r@ == user_section_spec(
            user@,
            match commits {
                Some(c) => Some(c@),
                None => None,
            },
            match issues {
                Some(b) => Some(b@),
                None => None,
            },
            match discussions {
                Some(d) => Some(d@),
                None => None,
            },
            outcome@,
        ),
{
    let mut parts: Vec<String> = Vec::new();
    match commits {
        Some(c) => {
            parts.push(commits_section(user, c.urls_joined.as_str()));
        },
        None => {},
    }
    match issues {
        Some(b) => {
            parts.push(issues_section(user, b.urls_joined.as_str()));
        },
        None => {},
    }
    match discussions {
        Some(d) => {
            parts.push(discussions_section(user, d.urls_joined.as_str()));
        },
        None => {},
    }
    match outcome {
        CorrelationOutcome::Summary(s) => {
            parts.push(s.clone());
        },
        _ => {},
    }
    let joined = join_with(&parts, "\n");
    proof {
        reveal_strlit("\n");
        assert("\n"@ =~= seq!['\n']);
        let spec_parts = (match commits {
            Some(c) => seq![commits_section_spec(user@, c@.urls_joined)],
            None => Seq::<Seq<char>>::empty(),
        }) + (match issues {
            Some(b) => seq![issues_section_spec(user@, b@.urls_joined)],
            None => Seq::<Seq<char>>::empty(),
        }) + (match discussions {
            Some(d) => seq![discussions_section_spec(user@, d@.urls_joined)],
            None => Seq::<Seq<char>>::empty(),
        }) + (match outcome@ {
            CorrOutView::Summary(s) => seq![s],
            _ => Seq::<Seq<char>>::empty(),
        });
        assert(views_of(parts@) =~= spec_parts);
    }
    joined
}

/// The sentence reported when no category had data: personalized when a
/// target contributor was given.
pub open spec fn empty_report_spec(user_name: Option<Seq<char>>) -> Seq<char> {
    match user_name {
        None => "No useful data found, nothing to report"@,
        Some(t) => "No useful data found for "@ + t
            + ", you may try alternative means to find out more about "@ + t,
    }
}

/// Renders the no-data sentence.
pub fn render_empty_report(user_name: &Option<String>) -> (r: String)
    ensures
        r@ == empty_report_spec(match user_name {
            Some(t) => Some(t@),
            None => None,
        }),
{
    match user_name {
        None => "No useful data found, nothing to report".to_owned(),
        Some(t) => {
            let mut r = String::new();
            r.append("No useful data found for ");
            r.append(t.as_str());
            r.append(", you may try alternative means to find out more about ");
            r.append(t.as_str());
            proof {
                assert(r@ =~= empty_report_spec(Some(t@)));
            }
            r
        },
    }
}

/// The index of the bundle for `key`, if one exists.
pub fn find_bundle_index(bundles: &Vec<ContributorBundle>, key: &String) -> (j: usize)
    ensures
        j as int == find_bundle(bundle_views(bundles@), key@),
        j <= bundles@.len(),
        j < bundles@.len() ==> bundles@[j as int]@.contributor == key@,
        j == bundles@.len() ==> forall|k: int|
            0 <= k < bundles@.len() ==> bundle_views(bundles@)[k].contributor != key@,
{
    let ghost bs = bundle_views(bundles@);
    let m = bundles.len();
    let mut j: usize = 0;
    while j < m && !bundles[j].contributor.eq(key)
        invariant
            m == bundles@.len(),
            j <= m,
            bs == bundle_views(bundles@),
            forall|k: int| 0 <= k < j ==> bs[k].contributor != key@,
        decreases m - j,
    {
        proof {
            assert(bs[j as int] == bundles@[j as int]@);
        }
        j = j + 1;
    }
    proof {
        lemma_find_bundle(bs, key@);
        if j < m {
            assert(bs[j as int] == bundles@[j as int]@);
        }
        assert(find_bundle(bs, key@) == j as int);
    }
    j
}

/// The contributors owed a report section: every commit bundle's contributor
/// in order, then every issue-only contributor in order.
pub open spec fn extra_keys(issues: Seq<BundleView>, commits: Seq<BundleView>) -> Seq<Seq<char>>
    decreases issues.len(),
{
    if issues.len() == 0 {
        Seq::empty()
    } else {
        let rest = extra_keys(issues.drop_first(), commits);
        if find_bundle(commits, issues[0].contributor) < commits.len() {
            rest
        } else {
            seq![issues[0].contributor] + rest
        }
    }
}

/// The contributors of the third list that appear in neither of the first
/// two, in order.
pub open spec fn extra_keys_beyond(
    discussions: Seq<BundleView>,
    commits: Seq<BundleView>,
    issues: Seq<BundleView>,
) -> Seq<Seq<char>>
    decreases discussions.len(),
{
    if discussions.len() == 0 {
        Seq::empty()
    } else {
        let rest = extra_keys_beyond(discussions.drop_first(), commits, issues);
        if find_bundle(commits, discussions[0].contributor) < commits.len() || find_bundle(
            issues,
            discussions[0].contributor,
        ) < issues.len() {
            rest
        } else {
            seq![discussions[0].contributor] + rest
        }
    }
}

/// The contributors of a bundle list, in order.
pub open spec fn keys_of(bs: Seq<BundleView>) -> Seq<Seq<char>> {
    bs.map_values(|b: BundleView| b.contributor)
}

/// All contributors to report on: commit contributors in order, then
/// issue-only contributors, then discussion-only contributors, in order.
pub fn contributors_in_order(
    commits: &Vec<ContributorBundle>,
    issues: &Vec<ContributorBundle>,
    discussions: &Vec<ContributorBundle>,
) -> (out: Vec<String>)
    ensures
        views_of(out@) == keys_of(bundle_views(commits@)) + extra_keys(
            bundle_views(issues@),
            bundle_views(commits@),
        ) + extra_keys_beyond(
            bundle_views(discussions@),
            bundle_views(commits@),
            bundle_views(issues@),
        ),
{
    let ghost cs = bundle_views(commits@);
    let ghost is_ = bundle_views(issues@);
    let ghost ds = bundle_views(discussions@);
    let mut out: Vec<String> = Vec::new();
    let n = commits.len();
    let mut i: usize = 0;
    while i < n
        invariant
            n == commits@.len(),
            i <= n,
            cs == bundle_views(commits@),
            views_of(out@) == keys_of(cs).take(i as int),
        decreases n - i,
    {
        let ghost old_out = out@;
        out.push(commits[i].contributor.clone());
        proof {
            assert(cs[i as int] == commits@[i as int]@);
            assert(views_of(out@) =~= views_of(old_out).push(cs[i as int].contributor));
            assert(views_of(out@) =~= keys_of(cs).take(i as int + 1));
        }
        i = i + 1;
    }
    proof {
        assert(keys_of(cs).take(n as int) =~= keys_of(cs));
    }
    let m = issues.len();
    let mut k: usize = 0;
    proof {
        assert(is_.skip(0) =~= is_);
        assert(views_of(out@) + extra_keys(is_, cs) =~= keys_of(cs) + extra_keys(is_, cs));
    }
    while k < m
        invariant
            m == issues@.len(),
            k <= m,
            cs == bundle_views(commits@),
            is_ == bundle_views(issues@),
            keys_of(cs) + extra_keys(is_, cs) == views_of(out@) + extra_keys(
                is_.skip(k as int),
                cs,
            ),
        decreases m - k,
    {
        let ghost suffix = is_.skip(k as int);
        proof {
            assert(suffix[0] == issues@[k as int]@);
            assert(suffix.drop_first() =~= is_.skip(k as int + 1));
        }
        let j = find_bundle_index(commits, &issues[k].contributor);
        if j >= commits.len() {
            let ghost old_out = out@;
            out.push(issues[k].contributor.clone());
            proof {
                assert(views_of(out@) =~= views_of(old_out).push(suffix[0].contributor));
                assert(views_of(out@) + extra_keys(is_.skip(k as int + 1), cs) =~= views_of(
                    old_out,
                ) + extra_keys(suffix, cs));
            }
        }
        k = k + 1;
    }
    proof {
        assert(is_.skip(m as int) =~= Seq::<BundleView>::empty());
        assert(views_of(out@) =~= keys_of(cs) + extra_keys(is_, cs));
    }
    let d = discussions.len();
    let mut q: usize = 0;
    proof {
        assert(ds.skip(0) =~= ds);
        assert(views_of(out@) + extra_keys_beyond(ds, cs, is_) =~= (keys_of(cs) + extra_keys(
            is_,
            cs,
        )) + extra_keys_beyond(ds, cs, is_));
    }
    while q < d
        invariant
            d == discussions@.len(),
            q <= d,
            cs == bundle_views(commits@),
            is_ == bundle_views(issues@),
            ds == bundle_views(discussions@),
            (keys_of(cs) + extra_keys(is_, cs)) + extra_keys_beyond(ds, cs, is_) == views_of(out@)
                + extra_keys_beyond(ds.skip(q as int), cs, is_),
        decreases d - q,
    {
        let ghost suffix = ds.skip(q as int);
        proof {
            assert(suffix[0] == discussions@[q as int]@);
            assert(suffix.drop_first() =~= ds.skip(q as int + 1));
        }
        let jc = find_bundle_index(commits, &discussions[q].contributor);
        let ji = find_bundle_index(issues, &discussions[q].contributor);
        if jc >= commits.len() && ji >= issues.len() {
            let ghost old_out = out@;
            out.push(discussions[q].contributor.clone());
            proof {
                assert(views_of(out@) =~= views_of(old_out).push(suffix[0].contributor));
                assert(views_of(out@) + extra_keys_beyond(ds.skip(q as int + 1), cs, is_)
                    =~= views_of(old_out) + extra_keys_beyond(suffix, cs, is_));
            }
        }
        q = q + 1;
    }
    proof {
        assert(ds.skip(d as int) =~= Seq::<BundleView>::empty());
        assert(views_of(out@) =~= keys_of(cs) + extra_keys(is_, cs) + extra_keys_beyond(
            ds,
            cs,
            is_,
        ));
    }
    out
}

/// Where a report run stands.  The fetch of the community profile is the
/// one fatal gate: everything after it degrades per category instead of
/// aborting.
#[derive(Clone, Copy, PartialEq, Eq, Structural, Debug)]
pub enum PipelineStage {
    ProfileFetched,
    CommitsProcessed,
    IssuesProcessed,
    DiscussionsProcessed,
    Correlated,
    Rendered,
    Done,
}

/// The one fatal error: the target could not be validated.
#[derive(Clone, Copy, PartialEq, Eq, Structural, Debug)]
pub enum PipelineError {
    InvalidOwnerRepo,
}

/// One report run: category data arrives stage by stage, per-contributor
/// sections are pushed during correlation, and the final report is the
/// newline-joined sections, or the no-data sentence when every category
/// came out empty.
pub struct ReportPipeline {
    pub stage: PipelineStage,
    pub target_person: Option<String>,
    pub commits: Vec<ContributorBundle>,
    pub issues: Vec<ContributorBundle>,
    pub discussions: Vec<ContributorBundle>,
    pub sections: Vec<String>,
    pub report: String,
}

/// The view of an optional target person.
pub open spec fn opt_name_view(o: Option<String>) -> Option<Seq<char>> {
    match o {
        Some(s) => Some(s@),
        None => None,
    }
}

impl ReportPipeline {
    /// Opens a run after the upstream identity check: a failed community
    /// profile fetch is terminal and yields no pipeline at all.
    pub fn start(target_person: Option<String>, profile_ok: bool) -> (r: Result<
        ReportPipeline,
        PipelineError,
    >)
        ensures
            r is Ok <==> profile_ok,
            r matches Ok(p) ==> p.stage == PipelineStage::ProfileFetched && opt_name_view(
                p.target_person,
            ) == opt_name_view(target_person) && p.commits@.len() == 0 && p.issues@.len() == 0
                && p.discussions@.len() == 0 && p.sections@.len() == 0,
            r matches Err(e) ==> e == PipelineError::InvalidOwnerRepo,
    {
        if profile_ok {
            Ok(
                ReportPipeline {
                    stage: PipelineStage::ProfileFetched,
                    target_person,
                    commits: Vec::new(),
                    issues: Vec::new(),
                    discussions: Vec::new(),
                    sections: Vec::new(),
                    report: String::new(),
                },
            )
        } else {
            Err(PipelineError::InvalidOwnerRepo)
        }
    }

    /// Stores the aggregated commit bundles; an empty vector stands for a
    /// failed or empty category.
    pub fn provide_commits(&mut self, bundles: Vec<ContributorBundle>)
        requires
            old(self).stage == PipelineStage::ProfileFetched,
        ensures
            final(self).stage == PipelineStage::CommitsProcessed,
            final(self).commits@ == bundles@,
            final(self).issues@ == old(self).issues@,
            final(self).discussions@ == old(self).discussions@,
            final(self).sections@ == old(self).sections@,
            final(self).target_person == old(self).target_person,
            final(self).report == old(self).report,
    {
        self.commits = bundles;
        self.stage = PipelineStage::CommitsProcessed;
    }

    /// Stores the aggregated issue bundles.
    pub fn provide_issues(&mut self, bundles: Vec<ContributorBundle>)
        requires
            old(self).stage == PipelineStage::CommitsProcessed,
        ensures
            final(self).stage == PipelineStage::IssuesProcessed,
            final(self).issues@ == bundles@,
            final(self).commits@ == old(self).commits@,
            final(self).discussions@ == old(self).discussions@,
            final(self).sections@ == old(self).sections@,
            final(self).target_person == old(self).target_person,
            final(self).report == old(self).report,
    {
        self.issues = bundles;
        self.stage = PipelineStage::IssuesProcessed;
    }

    /// Stores the aggregated discussion bundles.
    pub fn provide_discussions(&mut self, bundles: Vec<ContributorBundle>)
        requires
            old(self).stage == PipelineStage::IssuesProcessed,
        ensures
            final(self).stage == PipelineStage::DiscussionsProcessed,
            final(self).discussions@ == bundles@,
            final(self).commits@ == old(self).commits@,
            final(self).issues@ == old(self).issues@,
            final(self).sections@ == old(self).sections@,
            final(self).target_person == old(self).target_person,
            final(self).report == old(self).report,
    {
        self.discussions = bundles;
        self.stage = PipelineStage::DiscussionsProcessed;
    }

    /// Appends one contributor's rendered section; `None` contributes
    /// nothing.
    pub fn add_user_section(&mut self, section: Option<String>)
        requires
            old(self).stage == PipelineStage::DiscussionsProcessed,
        ensures
            final(self).stage == PipelineStage::DiscussionsProcessed,
            final(self).sections@ == (match section {
                Some(s) => old(self).sections@.push(s),
                None => old(self).sections@,
            }),
            final(self).commits@ == old(self).commits@,
            final(self).issues@ == old(self).issues@,
            final(self).discussions@ == old(self).discussions@,
            final(self).target_person == old(self).target_person,
            final(self).report == old(self).report,
    {
        match section {
            Some(s) => {
                self.sections.push(s);
            },
            None => {},
        }
    }

    /// Closes the correlation phase.
    pub fn finish_correlation(&mut self)
        requires
            old(self).stage == PipelineStage::DiscussionsProcessed,
        ensures
            final(self).stage == PipelineStage::Correlated,
            final(self).sections@ == old(self).sections@,
            final(self).commits@ == old(self).commits@,
            final(self).issues@ == old(self).issues@,
            final(self).discussions@ == old(self).discussions@,
            final(self).target_person == old(self).target_person,
            final(self).report == old(self).report,
    {
        self.stage = PipelineStage::Correlated;
    }

    /// Renders the final report: the no-data sentence when every category
    /// is empty, else the newline-joined sections.
    pub fn render(&mut self)
        requires
            old(self).stage == PipelineStage::Correlated,
        ensures
            final(self).stage == PipelineStage::Rendered,
            old(self).commits@.len() == 0 && old(self).issues@.len() == 0 && old(
                self,
            ).discussions@.len() == 0 ==> final(self).report@ == empty_report_spec(
                opt_name_view(old(self).target_person),
            ),
            old(self).commits@.len() > 0 || old(self).issues@.len() > 0 || old(
                self,
            ).discussions@.len() > 0 ==> final(self).report@ == join_seqs(
                views_of(old(self).sections@),
                seq!['\n'],
            ),
            final(self).sections@ == old(self).sections@,
            final(self).commits@ == old(self).commits@,
            final(self).issues@ == old(self).issues@,
            final(self).discussions@ == old(self).discussions@,
            final(self).target_person == old(self).target_person,
    {
        if self.commits.len() == 0 && self.issues.len() == 0 && self.discussions.len() == 0 {
            self.report = render_empty_report(&self.target_person);
        } else {
            let r = join_with(&self.sections, "\n");
            self.report = r;
            proof {
                reveal_strlit("\n");
                assert("\n"@ =~= seq!['\n']);
            }
        }
        self.stage = PipelineStage::Rendered;
    }

    /// Hands the rendered report out and closes the run.
    pub fn complete(&mut self) -> (r: String)
        requires
            old(self).stage == PipelineStage::Rendered,
        ensures
            final(self).stage == PipelineStage::Done,
            r@ == old(self).report@,
    {
        self.stage = PipelineStage::Done;
        self.report.clone()
    }
}

} // verus!
