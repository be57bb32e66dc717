//! Merging per-item analysis results by contributor: every contributor gets
//! one bundle whose newline-joined source URLs and summaries stay in strict
//! positional correspondence, in arrival order.

use vstd::prelude::*;
use vstd::string::StringExecFns;

verus! {

/// One per-item analysis result: a record's contributor, its canonical
/// locator, and the analytical text generated for it.
pub struct AnalyzedItem {
    pub contributor: String,
    pub source_url: String,
    pub summary: String,
}

/// Spec-level image of an `AnalyzedItem`.
pub struct ItemView {
    pub contributor: Seq<char>,
    pub source_url: Seq<char>,
    pub summary: Seq<char>,
}

impl View for AnalyzedItem {
    type V = ItemView;

    open spec fn view(&self) -> ItemView {
        ItemView {
            contributor: self.contributor@,
            source_url: self.source_url@,
            summary: self.summary@,
        }
    }
}

/// One contributor's merged evidence: source URLs and summaries of all of
/// that contributor's records, newline-joined in arrival order.
pub struct ContributorBundle {
    pub contributor: String,
    pub urls_joined: String,
    pub summaries_joined: String,
}

/// Spec-level image of a `ContributorBundle`.
pub struct BundleView {
    pub contributor: Seq<char>,
    pub urls_joined: Seq<char>,
    pub summaries_joined: Seq<char>,
}

impl View for ContributorBundle {
    type V = BundleView;

    open spec fn view(&self) -> BundleView {
        BundleView {
            contributor: self.contributor@,
            urls_joined: self.urls_joined@,
            summaries_joined: self.summaries_joined@,
        }
    }
}

/// The views of a vector of bundles.
pub open spec fn bundle_views(v: Seq<ContributorBundle>) -> Seq<BundleView> {
    v.map_values(|b: ContributorBundle| b@)
}

/// The views of a vector of analyzed items.
pub open spec fn item_views(v: Seq<AnalyzedItem>) -> Seq<ItemView> {
    v.map_values(|r: AnalyzedItem| r@)
}

/// The index of the first bundle for `key`, or `bs.len()` if there is none.
pub open spec fn find_bundle(bs: Seq<BundleView>, key: Seq<char>) -> int
    decreases bs.len(),
{
    if bs.len() == 0 {
        0
    } else if bs[0].contributor == key {
        0
    } else {
        1 + find_bundle(bs.drop_first(), key)
    }
}

pub proof fn lemma_find_bundle(bs: Seq<BundleView>, key: Seq<char>)
    ensures
        0 <= find_bundle(bs, key) <= bs.len(),
        forall|k: int| 0 <= k < find_bundle(bs, key) ==> bs[k].contributor != key,
        find_bundle(bs, key) < bs.len() ==> bs[find_bundle(bs, key)].contributor == key,
    decreases bs.len(),
{
    if bs.len() > 0 && bs[0].contributor != key {
        lemma_find_bundle(bs.drop_first(), key);
        assert forall|k: int| 0 <= k < find_bundle(bs, key) implies bs[k].contributor != key by {
            if k > 0 {
                assert(bs.drop_first()[k - 1] == bs[k]);
            }
        }
    }
}

/// Folds one record into the bundles: the first occurrence of a contributor
/// opens a bundle; later occurrences append to both joined strings with a
/// leading newline, never reordering.
pub open spec fn agg_step(bs: Seq<BundleView>, r: ItemView) -> Seq<BundleView> {
    let j = find_bundle(bs, r.contributor);
    if j < bs.len() {
        bs.update(
            j,
            BundleView {
                contributor: bs[j].contributor,
                urls_joined: bs[j].urls_joined + seq!['\n'] + r.source_url,
                summaries_joined: bs[j].summaries_joined + seq!['\n'] + r.summary,
            },
        )
    } else {
        bs.push(
            BundleView {
                contributor: r.contributor,
                urls_joined: r.source_url,
                summaries_joined: r.summary,
            },
        )
    }
}

/// The bundles obtained by folding all records in order.
pub open spec fn aggregate_spec(rs: Seq<ItemView>) -> Seq<BundleView>
    decreases rs.len(),
{
    if rs.len() == 0 {
        Seq::empty()
    } else {
        agg_step(aggregate_spec(rs.drop_last()), rs.last())
    }
}

/// Builds one bundle per contributor from the per-item analysis results, in
/// order of first appearance, keeping the URL and summary lines positionally
/// aligned.
pub fn aggregate_items(items: &Vec<AnalyzedItem>) -> (bundles: Vec<ContributorBundle>)
    ensures
        bundle_views(bundles@) == aggregate_spec(item_views(items@)),
{
    let mut bundles: Vec<ContributorBundle> = Vec::new();
    let n = items.len();
    let mut i: usize = 0;
    proof {
        assert(item_views(items@).take(0) =~= Seq::<ItemView>::empty());
    }
    while i < n
        invariant
            n == items@.len(),
            i <= n,
            bundle_views(bundles@) == aggregate_spec(item_views(items@).take(i as int)),
        decreases n - i,
    {
        let ghost rs_prefix = item_views(items@).take(i as int);
        let ghost bs0 = bundle_views(bundles@);
        let item = &items[i];
        // find the bundle for this contributor
        let m = bundles.len();
        let mut j: usize = 0;
        while j < m && !bundles[j].contributor.eq(&item.contributor)
            invariant
                m == bundles@.len(),
                j <= m,
                bs0 == bundle_views(bundles@),
                forall|k: int| 0 <= k < j ==> bs0[k].contributor != item@.contributor,
            decreases m - j,
        {
            proof {
                assert(bs0[j as int] == bundles@[j as int]@);
            }
            j = j + 1;
        }
        proof {
            lemma_find_bundle(bs0, item@.contributor);
            if j < m {
                assert(bs0[j as int] == bundles@[j as int]@);
                assert(bs0[j as int].contributor == item@.contributor);
            }
            assert(find_bundle(bs0, item@.contributor) == j as int);
        }
        if j < m {
            let mut b = bundles.remove(j);
            b.urls_joined.append("\n");
            b.urls_joined.append(item.source_url.as_str());
            b.summaries_joined.append("\n");
            b.summaries_joined.append(item.summary.as_str());
            bundles.insert(j, b);
            proof {
                reveal_strlit("\n");
                assert("\n"@ =~= seq!['\n']);
                assert(bundle_views(bundles@) =~= agg_step(bs0, item@));
            }
        } else {
            let b = ContributorBundle {
                contributor: item.contributor.clone(),
                urls_joined: item.source_url.clone(),
                summaries_joined: item.summary.clone(),
            };
            bundles.push(b);
            proof {
                assert(bundle_views(bundles@) =~= agg_step(bs0, item@));
            }
        }
        proof {
            let rs_next = item_views(items@).take(i as int + 1);
            assert(rs_next.drop_last() =~= rs_prefix);
            assert(rs_next.last() == items@[i as int]@);
        }
        i = i + 1;
    }
    proof {
        assert(item_views(items@).take(n as int) =~= item_views(items@));
    }
    bundles
}

/// The source URLs of `key`'s records, in arrival order.
pub open spec fn urls_for(rs: Seq<ItemView>, key: Seq<char>) -> Seq<Seq<char>>
    decreases rs.len(),
{
    if rs.len() == 0 {
        Seq::empty()
    } else {
        let rest = urls_for(rs.drop_last(), key);
        if rs.last().contributor == key {
            rest.push(rs.last().source_url)
        } else {
            rest
        }
    }
}

/// The summaries of `key`'s records, in arrival order.
pub open spec fn summaries_for(rs: Seq<ItemView>, key: Seq<char>) -> Seq<Seq<char>>
    decreases rs.len(),
{
    if rs.len() == 0 {
        Seq::empty()
    } else {
        let rest = summaries_for(rs.drop_last(), key);
        if rs.last().contributor == key {
            rest.push(rs.last().summary)
        } else {
            rest
        }
    }
}

proof fn lemma_for_key_same_len(rs: Seq<ItemView>, key: Seq<char>)
    ensures
        urls_for(rs, key).len() == summaries_for(rs, key).len(),
    decreases rs.len(),
{
    if rs.len() > 0 {
        lemma_for_key_same_len(rs.drop_last(), key);
    }
}

/// Appending to a non-empty join appends a separator and the new element.
proof fn lemma_join_push(ws: Seq<Seq<char>>, sep: Seq<char>, w: Seq<char>)
    ensures
        crate::squeeze::join_seqs(ws.push(w), sep) == if ws.len() == 0 {
            w
        } else {
            crate::squeeze::join_seqs(ws, sep) + sep + w
        },
    decreases ws.len(),
{
    let grown = ws.push(w);
    if ws.len() == 0 {
        assert(grown.len() == 1);
        assert(crate::squeeze::join_seqs(grown, sep) == grown[0]);
    } else {
        lemma_join_push(ws.drop_first(), sep, w);
        assert(grown.drop_first() =~= ws.drop_first().push(w));
        if ws.len() == 1 {
            assert(ws.drop_first().len() == 0);
            assert(crate::squeeze::join_seqs(ws, sep) == ws[0]);
            assert(crate::squeeze::join_seqs(grown, sep) == grown[0] + sep
                + crate::squeeze::join_seqs(grown.drop_first(), sep));
        } else {
            assert(crate::squeeze::join_seqs(grown, sep) == grown[0] + sep
                + crate::squeeze::join_seqs(grown.drop_first(), sep));
            assert(ws[0] + sep + (crate::squeeze::join_seqs(ws.drop_first(), sep) + sep + w) =~= (
            ws[0] + sep + crate::squeeze::join_seqs(ws.drop_first(), sep)) + sep + w);
        }
    }
}

/// The aggregation invariant: bundle keys are distinct; every bundle's two
/// joined strings are the newline-joins of exactly its contributor's URLs
/// and summaries, in arrival order and of equal count; and a contributor
/// without a bundle has no records.
pub open spec fn aligned(rs: Seq<ItemView>, bs: Seq<BundleView>) -> bool {
    &&& forall|j1: int, j2: int|
        0 <= j1 < j2 < bs.len() ==> (#[trigger] bs[j1]).contributor != (
        #[trigger] bs[j2]).contributor
    &&& forall|j: int|
        0 <= j < bs.len() ==> {
            let b = #[trigger] bs[j];
            &&& b.urls_joined == crate::squeeze::join_seqs(
                urls_for(rs, b.contributor),
                seq!['\n'],
            )
            &&& b.summaries_joined == crate::squeeze::join_seqs(
                summaries_for(rs, b.contributor),
                seq!['\n'],
            )
            &&& urls_for(rs, b.contributor).len() == summaries_for(rs, b.contributor).len()
            &&& urls_for(rs, b.contributor).len() > 0
        }
    &&& forall|key: Seq<char>|
        #[trigger] find_bundle(bs, key) == bs.len() ==> urls_for(rs, key).len() == 0
}

/// Law: the aggregation keeps URLs and summaries positionally aligned.
/// Every contributor gets exactly one bundle; its `urls_joined` is the
/// newline-join of precisely that contributor's record URLs in arrival
/// order, its `summaries_joined` the newline-join of the same records'
/// summaries in the same order and number.  With newline-free entries this
/// is exactly the line-by-line correspondence displays rely on.
pub proof fn lemma_aggregate_alignment(rs: Seq<ItemView>)
    ensures
        aligned(rs, aggregate_spec(rs)),
    decreases rs.len(),
{
    if rs.len() == 0 {
        assert forall|key: Seq<char>|
            #[trigger] find_bundle(aggregate_spec(rs), key) == aggregate_spec(rs).len() implies urls_for(
            rs,
            key,
        ).len() == 0 by {}
    } else {
        let prev = rs.drop_last();
        let r = rs.last();
        lemma_aggregate_alignment(prev);
        let bs = aggregate_spec(prev);
        let grown = aggregate_spec(rs);
        let j = find_bundle(bs, r.contributor);
        lemma_find_bundle(bs, r.contributor);
        lemma_for_key_same_len(rs, r.contributor);
        assert(rs.drop_last() =~= prev);
        // records of other contributors are untouched
        assert forall|key: Seq<char>| key != r.contributor implies #[trigger] urls_for(rs, key)
            == urls_for(prev, key) && summaries_for(rs, key) == summaries_for(prev, key) by {}
        assert(urls_for(rs, r.contributor) == urls_for(prev, r.contributor).push(r.source_url));
        assert(summaries_for(rs, r.contributor) == summaries_for(prev, r.contributor).push(
            r.summary,
        ));
        lemma_join_push(urls_for(prev, r.contributor), seq!['\n'], r.source_url);
        lemma_join_push(summaries_for(prev, r.contributor), seq!['\n'], r.summary);
        if j < bs.len() {
            assert(grown == bs.update(
                j,
                BundleView {
                    contributor: bs[j].contributor,
                    urls_joined: bs[j].urls_joined + seq!['\n'] + r.source_url,
                    summaries_joined: bs[j].summaries_joined + seq!['\n'] + r.summary,
                },
            ));
            assert(urls_for(prev, r.contributor).len() > 0);
            assert forall|key: Seq<char>|
                #[trigger] find_bundle(grown, key) == grown.len() implies urls_for(
                rs,
                key,
            ).len() == 0 by {
                lemma_find_bundle_update_keeps(bs, j, grown, key);
            }
        } else {
            assert(urls_for(prev, r.contributor).len() == 0);
            assert(grown == bs.push(
                BundleView {
                    contributor: r.contributor,
                    urls_joined: r.source_url,
                    summaries_joined: r.summary,
                },
            ));
            assert forall|j1: int, j2: int| 0 <= j1 < j2 < grown.len() implies (
            #[trigger] grown[j1]).contributor != (#[trigger] grown[j2]).contributor by {
                if j2 == grown.len() - 1 {
                    assert(grown[j1] == bs[j1]);
                }
            }
            assert forall|key: Seq<char>|
                #[trigger] find_bundle(grown, key) == grown.len() implies urls_for(
                rs,
                key,
            ).len() == 0 by {
                lemma_find_bundle_push_keeps(bs, grown, key);
            }
            assert forall|jj: int| 0 <= jj < grown.len() implies {
                let b = #[trigger] grown[jj];
                &&& b.urls_joined == crate::squeeze::join_seqs(
                    urls_for(rs, b.contributor),
                    seq!['\n'],
                )
                &&& b.summaries_joined == crate::squeeze::join_seqs(
                    summaries_for(rs, b.contributor),
                    seq!['\n'],
                )
                &&& urls_for(rs, b.contributor).len() == summaries_for(rs, b.contributor).len()
                &&& urls_for(rs, b.contributor).len() > 0
            } by {
                lemma_for_key_same_len(rs, grown[jj].contributor);
                if jj < bs.len() {
                    assert(grown[jj] == bs[jj]);
                    assert(grown[jj].contributor != r.contributor) by {
                        if grown[jj].contributor == r.contributor {
                            assert(find_bundle(bs, r.contributor) < bs.len());
                        }
                    }
                }
            }
        }
    }
}

/// If a key is absent from an updated bundle list whose update keeps the
/// key set, it was absent before.
proof fn lemma_find_bundle_update_keeps(
    bs: Seq<BundleView>,
    j: int,
    grown: Seq<BundleView>,
    key: Seq<char>,
)
    requires
        0 <= j < bs.len(),
        grown.len() == bs.len(),
        forall|k: int| 0 <= k < bs.len() ==> (#[trigger] grown[k]).contributor == bs[k].contributor,
        find_bundle(grown, key) == grown.len(),
    ensures
        find_bundle(bs, key) == bs.len(),
{
    lemma_find_bundle(bs, key);
    lemma_find_bundle(grown, key);
    if find_bundle(bs, key) < bs.len() {
        let i = find_bundle(bs, key);
        assert(grown[i].contributor == key);
        assert(find_bundle(grown, key) <= i) by {
            lemma_find_bundle_finds(grown, key, i);
        }
    }
}

/// If some index holds the key, the first match is at or before it.
proof fn lemma_find_bundle_finds(bs: Seq<BundleView>, key: Seq<char>, i: int)
    requires
        0 <= i < bs.len(),
        bs[i].contributor == key,
    ensures
        find_bundle(bs, key) <= i,
{
    lemma_find_bundle(bs, key);
    if find_bundle(bs, key) > i {
        assert(bs[i].contributor != key);
    }
}

/// If a key is absent after a push, it is absent before and differs from the
/// pushed key.
proof fn lemma_find_bundle_push_keeps(bs: Seq<BundleView>, grown: Seq<BundleView>, key: Seq<char>)
    requires
        grown.len() == bs.len() + 1,
        forall|k: int| 0 <= k < bs.len() ==> (#[trigger] grown[k]).contributor == bs[k].contributor,
        find_bundle(grown, key) == grown.len(),
    ensures
        find_bundle(bs, key) == bs.len(),
        grown[bs.len() as int].contributor != key,
{
    lemma_find_bundle(bs, key);
    lemma_find_bundle(grown, key);
    assert(grown[bs.len() as int].contributor != key);
    if find_bundle(bs, key) < bs.len() {
        let i = find_bundle(bs, key);
        assert(grown[i].contributor == key);
        lemma_find_bundle_finds(grown, key, i);
    }
}

/// The analyzed items made from one issue's per-contributor summaries: each
/// (contributor, summary) pair paired with the issue's locator.
pub open spec fn items_for_issue(
    pairs: Seq<(Seq<char>, Seq<char>)>,
    source_url: Seq<char>,
) -> Seq<ItemView> {
    pairs.map_values(
        |p: (Seq<char>, Seq<char>)| ItemView { contributor: p.0, source_url: source_url, summary: p.1 },
    )
}

/// Turns one issue's per-contributor summaries into analyzed items carrying
/// the issue's locator.
pub fn items_from_issue_summaries(pairs: &Vec<(String, String)>, source_url: &str) -> (out: Vec<
    AnalyzedItem,
>)
    ensures
        item_views(out@) == items_for_issue(
            pairs@.map_values(|p: (String, String)| (p.0@, p.1@)),
            source_url@,
        ),
{
    let mut out: Vec<AnalyzedItem> = Vec::new();
    let n = pairs.len();
    let mut i: usize = 0;
    let ghost pvs = pairs@.map_values(|p: (String, String)| (p.0@, p.1@));
    while i < n
        invariant
            n == pairs@.len(),
            pvs == pairs@.map_values(|p: (String, String)| (p.0@, p.1@)),
            i <= n,
            item_views(out@) == items_for_issue(pvs, source_url@).take(i as int),
        decreases n - i,
    {
        let ghost old_out = out@;
        out.push(
            AnalyzedItem {
                contributor: pairs[i].0.clone(),
                source_url: source_url.to_owned(),
                summary: pairs[i].1.clone(),
            },
        );
        proof {
            assert(item_views(out@) =~= item_views(old_out).push(
                ItemView {
                    contributor: pairs@[i as int].0@,
                    source_url: source_url@,
                    summary: pairs@[i as int].1@,
                },
            ));
            assert(item_views(out@) =~= items_for_issue(pvs, source_url@).take(i as int + 1));
        }
        i = i + 1;
    }
    proof {
        assert(items_for_issue(pvs, source_url@).take(n as int) =~= items_for_issue(
            pvs,
            source_url@,
        ));
    }
    out
}

} // verus!
