//! Narrowing candidate lists by a pattern: the filter engine.
//!
//! A filter keeps the relative order of its candidates and keeps exactly
//! those whose extracted text (the tag of a release, the name of an asset)
//! matches the pattern.  An absent matcher means match-all: the candidate
//! list is returned unchanged.

use vstd::prelude::*;

use crate::data::{Asset, Release, ReleaseView};
use crate::pattern::{regex_matches, CompiledPattern, FilterPattern};

verus! {

/// Does a release match a release pattern?  Matching is on the tag.
pub open spec fn release_matches(pattern: Seq<char>, rel: ReleaseView) -> bool {
    regex_matches(pattern, rel.tag)
}

/// Does an asset match an asset pattern?  Matching is on the name.
pub open spec fn asset_matches(pattern: Seq<char>, asset: Asset) -> bool {
    regex_matches(pattern, asset.name@)
}

/// The release-filter predicate as a function value.
pub open spec fn release_pred(pattern: Seq<char>) -> spec_fn(ReleaseView) -> bool {
    |rel: ReleaseView| release_matches(pattern, rel)
}

/// The asset-filter predicate as a function value.
pub open spec fn asset_pred(pattern: Seq<char>) -> spec_fn(Asset) -> bool {
    |asset: Asset| asset_matches(pattern, asset)
}

/// The releases whose tag matches the pattern, in their original order.
pub open spec fn filter_releases_spec(pattern: Seq<char>, rels: Seq<ReleaseView>) -> Seq<
    ReleaseView,
> {
    rels.filter(release_pred(pattern))
}

/// The assets whose name matches the pattern, in their original order.
pub open spec fn filter_assets_spec(pattern: Seq<char>, assets: Seq<Asset>) -> Seq<Asset> {
    assets.filter(asset_pred(pattern))
}

/// Apply an optional matcher to a release list: absent means match-all.
pub open spec fn apply_releases_spec(
    compiled: Option<Seq<char>>,
    rels: Seq<ReleaseView>,
) -> Seq<ReleaseView> {
    match compiled {
        Some(pattern) => filter_releases_spec(pattern, rels),
        None => rels,
    }
}

/// Apply an optional matcher to an asset list: absent means match-all.
pub open spec fn apply_assets_spec(compiled: Option<Seq<char>>, assets: Seq<Asset>) -> Seq<
    Asset,
> {
    match compiled {
        Some(pattern) => filter_assets_spec(pattern, assets),
        None => assets,
    }
}

/// `xs` can be obtained from `ys` by deleting elements: the filtered list
/// is a subsequence of the candidates.
pub open spec fn is_subsequence_of<A>(xs: Seq<A>, ys: Seq<A>) -> bool
    decreases ys.len(),
{
    if xs.len() == 0 {
        true
    } else if ys.len() == 0 {
        false
    } else {
        (xs.last() == ys.last() && is_subsequence_of(xs.drop_last(), ys.drop_last()))
            || is_subsequence_of(xs, ys.drop_last())
    }
}

/// Filtering the empty sequence yields the empty sequence.
pub proof fn lemma_filter_empty<A>(pred: spec_fn(A) -> bool)
    ensures
        Seq::<A>::empty().filter(pred) == Seq::<A>::empty(),
{
    reveal(Seq::filter);
}

/// One filtering step: extending the prefix by one candidate appends that
/// candidate to the filtered prefix exactly when it satisfies the
/// predicate.
pub proof fn lemma_filter_take_push<A>(s: Seq<A>, pred: spec_fn(A) -> bool, i: int)
    requires
        0 <= i < s.len(),
    ensures
        s.take(i + 1).filter(pred) == s.take(i).filter(pred) + (if pred(s[i]) {
            seq![s[i]]
        } else {
            Seq::<A>::empty()
        }),
{
    reveal(Seq::filter);
    let t = s.take(i + 1);
    assert(t.drop_last() =~= s.take(i));
    assert(t.last() == s[i]);
    if pred(s[i]) {
        assert(t.filter(pred) =~= s.take(i).filter(pred) + seq![s[i]]);
    } else {
        assert(t.filter(pred) =~= s.take(i).filter(pred) + Seq::<A>::empty());
    }
}

/// A sequence all of whose elements satisfy the predicate filters to
/// itself.
pub proof fn lemma_filter_all_true<A>(s: Seq<A>, pred: spec_fn(A) -> bool)
    requires
        forall|i: int| 0 <= i < s.len() ==> pred(#[trigger] s[i]),
    ensures
        s.filter(pred) == s,
    decreases s.len(),
{
    reveal(Seq::filter);
    if s.len() == 0 {
        assert(s.filter(pred) =~= s);
    } else {
        let d = s.drop_last();
        assert(forall|i: int| 0 <= i < d.len() ==> pred(#[trigger] d[i]));
        lemma_filter_all_true(d, pred);
        assert(pred(s.last()));
        assert(s.filter(pred) =~= s);
    }
}

/// Every element of the filtered sequence satisfies the predicate.
pub proof fn lemma_filter_elements<A>(s: Seq<A>, pred: spec_fn(A) -> bool)
    ensures
        forall|i: int|
            0 <= i < s.filter(pred).len() ==> pred(#[trigger] s.filter(pred)[i]),
{
    assert forall|i: int|
        0 <= i < s.filter(pred).len() implies pred(#[trigger] s.filter(pred)[i]) by {
        s.lemma_filter_pred(pred, i);
    }
}

/// Growing the candidate list cannot break subsequence-hood.
proof fn lemma_subsequence_extend<A>(xs: Seq<A>, ys: Seq<A>, z: A)
    requires
        is_subsequence_of(xs, ys),
    ensures
        is_subsequence_of(xs, ys.push(z)),
{
    if xs.len() == 0 {
    } else {
        assert(ys.push(z).drop_last() =~= ys);
        assert(is_subsequence_of(xs, ys.push(z).drop_last()));
    }
}

/// The filtered sequence is a subsequence of the candidates: relative
/// order is preserved and nothing is duplicated or invented.
pub proof fn lemma_filter_subsequence<A>(s: Seq<A>, pred: spec_fn(A) -> bool)
    ensures
        is_subsequence_of(s.filter(pred), s),
    decreases s.len(),
{
    reveal(Seq::filter);
    if s.len() == 0 {
    } else {
        let d = s.drop_last();
        lemma_filter_subsequence(d, pred);
        if pred(s.last()) {
            let f = s.filter(pred);
            assert(f == d.filter(pred).push(s.last()));
            assert(f.last() == s.last());
            assert(f.drop_last() =~= d.filter(pred));
            assert(is_subsequence_of(f, s));
        } else {
            assert(s.filter(pred) == d.filter(pred));
            lemma_subsequence_extend(d.filter(pred), d, s.last());
            assert(d.push(s.last()) =~= s);
            assert(is_subsequence_of(s.filter(pred), s));
        }
    }
}

/// Soundness and order of the release filter: every kept release matches
/// the pattern, and the kept releases form a subsequence of the
/// candidates.
pub proof fn lemma_release_filter_sound(pattern: Seq<char>, rels: Seq<ReleaseView>)
    ensures
        forall|i: int|
            0 <= i < filter_releases_spec(pattern, rels).len() ==> release_matches(
                pattern,
                #[trigger] filter_releases_spec(pattern, rels)[i],
            ),
        is_subsequence_of(filter_releases_spec(pattern, rels), rels),
{
    lemma_filter_elements(rels, release_pred(pattern));
    lemma_filter_subsequence(rels, release_pred(pattern));
}

/// Soundness and order of the asset filter.
pub proof fn lemma_asset_filter_sound(pattern: Seq<char>, assets: Seq<Asset>)
    ensures
        forall|i: int|
            0 <= i < filter_assets_spec(pattern, assets).len() ==> asset_matches(
                pattern,
                #[trigger] filter_assets_spec(pattern, assets)[i],
            ),
        is_subsequence_of(filter_assets_spec(pattern, assets), assets),
{
    lemma_filter_elements(assets, asset_pred(pattern));
    lemma_filter_subsequence(assets, asset_pred(pattern));
}

/// Idempotence: filtering an already-filtered list by the same pattern
/// changes nothing.
pub proof fn lemma_release_filter_idempotent(pattern: Seq<char>, rels: Seq<ReleaseView>)
    ensures
        filter_releases_spec(pattern, filter_releases_spec(pattern, rels))
            == filter_releases_spec(pattern, rels),
{
    lemma_filter_elements(rels, release_pred(pattern));
    lemma_filter_all_true(filter_releases_spec(pattern, rels), release_pred(pattern));
}

/// Idempotence of the asset filter.
pub proof fn lemma_asset_filter_idempotent(pattern: Seq<char>, assets: Seq<Asset>)
    ensures
        filter_assets_spec(pattern, filter_assets_spec(pattern, assets))
            == filter_assets_spec(pattern, assets),
{
    lemma_filter_elements(assets, asset_pred(pattern));
    lemma_filter_all_true(filter_assets_spec(pattern, assets), asset_pred(pattern));
}

/// Identity law: a well-formed filter pattern whose raw text is empty or
/// still the placeholder applies no matcher, so the candidates come back
/// unchanged.
pub proof fn lemma_match_all_is_identity(
    p: crate::pattern::FilterPatternView,
    rels: Seq<ReleaseView>,
    assets: Seq<Asset>,
)
    requires
        crate::pattern::filter_pattern_wf(p),
        crate::pattern::is_match_all(p.raw),
    ensures
        apply_releases_spec(p.compiled, rels) == rels,
        apply_assets_spec(p.compiled, assets) == assets,
{
}

/// The releases whose tag matches the compiled pattern, in order.
pub fn find_release_from(re: &CompiledPattern, rels: &Vec<Release>) -> (out: Vec<Release>)
    ensures
        out.deep_view() == filter_releases_spec(re.source(), rels.deep_view()),
{
    let ghost pred = release_pred(re.source());
    let ghost dv = rels.deep_view();
    let mut out: Vec<Release> = Vec::new();
    proof {
        lemma_filter_empty(pred);
        assert(dv.take(0) =~= Seq::<ReleaseView>::empty());
        assert(out.deep_view() =~= Seq::<ReleaseView>::empty());
    }
    let mut i: usize = 0;
    while i < rels.len()
        invariant
            i <= rels@.len(),
            dv == rels.deep_view(),
            pred == release_pred(re.source()),
            out.deep_view() == dv.take(i as int).filter(pred),
        decreases rels@.len() - i,
    {
        let ghost prev = out.deep_view();
        let rel = &rels[i];
        proof {
            lemma_filter_take_push(dv, pred, i as int);
            assert(rel@ == dv[i as int]);
        }
        if re.is_match(rel.tag.as_str()) {
            let copy = rel.clone();
            out.push(copy);
            proof {
                assert(out.deep_view() =~= prev.push(copy@));
                assert(prev.push(copy@) =~= prev + seq![dv[i as int]]);
            }
        } else {
            proof {
                assert(prev + Seq::<ReleaseView>::empty() =~= prev);
            }
        }
        i += 1;
    }
    proof {
        assert(dv.take(rels@.len() as int) =~= dv);
    }
    out
}

/// The assets whose name matches the compiled pattern, in order.
pub fn find_asset_from(re: &CompiledPattern, assets: &Vec<Asset>) -> (out: Vec<Asset>)
    ensures
        out@ == filter_assets_spec(re.source(), assets@),
{
    let ghost pred = asset_pred(re.source());
    let mut out: Vec<Asset> = Vec::new();
    proof {
        lemma_filter_empty(pred);
        assert(assets@.take(0) =~= Seq::<Asset>::empty());
        assert(out@ =~= Seq::<Asset>::empty());
    }
    let mut i: usize = 0;
    while i < assets.len()
        invariant
            i <= assets@.len(),
            pred == asset_pred(re.source()),
            out@ == assets@.take(i as int).filter(pred),
        decreases assets@.len() - i,
    {
        let ghost prev = out@;
        let asset = &assets[i];
        proof {
            lemma_filter_take_push(assets@, pred, i as int);
        }
        if re.is_match(asset.name.as_str()) {
            let copy = asset.clone();
            out.push(copy);
            proof {
                assert(prev.push(copy) =~= prev + seq![assets@[i as int]]);
            }
        } else {
            proof {
                assert(prev + Seq::<Asset>::empty() =~= prev);
            }
        }
        i += 1;
    }
    proof {
        assert(assets@.take(assets@.len() as int) =~= assets@);
    }
    out
}

/// Copy a release list, preserving its mathematical content.
pub fn clone_releases(rels: &Vec<Release>) -> (out: Vec<Release>)
    ensures
        out.deep_view() == rels.deep_view(),
{
    let out = rels.clone();
    proof {
        assert forall|i: int|
            0 <= i < rels@.len() implies out.deep_view()[i] == rels.deep_view()[i] by {
            assert(cloned::<Release>(rels@[i], out@[i]));
        }
        assert(out.deep_view() =~= rels.deep_view());
    }
    out
}

/// Copy an asset list, preserving its content.
pub fn clone_assets(assets: &Vec<Asset>) -> (out: Vec<Asset>)
    ensures
        out@ == assets@,
{
    let out = assets.clone();
    proof {
        assert forall|i: int| 0 <= i < assets@.len() implies out@[i] == assets@[i] by {
            assert(cloned::<Asset>(assets@[i], out@[i]));
        }
        assert(out@ =~= assets@);
    }
    out
}

/// Narrow a release list by a filter pattern: the applied matcher decides,
/// an absent matcher keeps everything.
pub fn apply_release_pattern(p: &FilterPattern, rels: &Vec<Release>) -> (out: Vec<Release>)
    ensures
        out.deep_view() == apply_releases_spec(p@.compiled, rels.deep_view()),
{
    match p.applied() {
        Some(re) => find_release_from(re, rels),
        None => clone_releases(rels),
    }
}

/// Narrow an asset list by a filter pattern.
pub fn apply_asset_pattern(p: &FilterPattern, assets: &Vec<Asset>) -> (out: Vec<Asset>)
    ensures
        out@ == apply_assets_spec(p@.compiled, assets@),
{
    match p.applied() {
        Some(re) => find_asset_from(re, assets),
        None => clone_assets(assets),
    }
}

} // verus!
