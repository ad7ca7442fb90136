//! Non-interactive selection of releases and assets: the rules behind the
//! command-line search and install paths.
//!
//! A finder describes which release (or asset) of a repository is wanted;
//! the selection itself is a pure function of the fetched lists.

use vstd::prelude::*;

use crate::data::{Asset, Release, ReleaseView};
use crate::filter::{
    asset_matches, filter_releases_spec, find_release_from, release_matches,
};
use crate::pattern::CompiledPattern;

verus! {

/// Which release of a repository is wanted.
pub enum ReleaseFinder {
    /// The most recently published release.
    Latest,
    /// The release with exactly this tag.
    ByTag(String),
    /// The releases whose tag matches this pattern.
    ByRegex(CompiledPattern),
}

/// The tag-equality predicate as a function value.
pub open spec fn tag_pred(tag: Seq<char>) -> spec_fn(ReleaseView) -> bool {
    |rel: ReleaseView| rel.tag == tag
}

impl ReleaseFinder {
    /// What selecting from a fetched release list yields: the first
    /// (latest) release, the releases with the given tag, or the releases
    /// whose tag matches the pattern.
    pub open spec fn find_from_spec(self, rels: Seq<ReleaseView>) -> Seq<ReleaseView> {
        match self {
            ReleaseFinder::Latest => seq![rels[0]],
            ReleaseFinder::ByTag(tag) => rels.filter(tag_pred(tag@)),
            ReleaseFinder::ByRegex(re) => filter_releases_spec(re.source(), rels),
        }
    }

    /// Select from an already-fetched release list.  The list is expected
    /// newest-first, as the repository service returns it; `Latest` picks
    /// the first entry and so needs a non-empty list.
    pub fn find_from(&self, rels: &Vec<Release>) -> (out: Vec<Release>)
        requires
            (*self) is Latest ==> rels@.len() > 0,
        ensures
            out.deep_view() == self.find_from_spec(rels.deep_view()),
    {
        match self {
            ReleaseFinder::Latest => {
                let first = &rels[0];
                let mut out: Vec<Release> = Vec::new();
                out.push(first.clone());
                proof {
                    assert(out.deep_view() =~= seq![rels.deep_view()[0]]);
                }
                out
            },
            ReleaseFinder::ByTag(tag) => {
                let ghost dv = rels.deep_view();
                let ghost pred = tag_pred(tag@);
                let mut out: Vec<Release> = Vec::new();
                proof {
                    crate::filter::lemma_filter_empty(pred);
                    assert(dv.take(0) =~= Seq::<ReleaseView>::empty());
                    assert(out.deep_view() =~= Seq::<ReleaseView>::empty());
                }
                let mut i: usize = 0;
                while i < rels.len()
                    invariant
                        i <= rels@.len(),
                        dv == rels.deep_view(),
                        pred == tag_pred(tag@),
                        out.deep_view() == dv.take(i as int).filter(pred),
                    decreases rels@.len() - i,
                {
                    let ghost prev = out.deep_view();
                    let rel = &rels[i];
                    proof {
                        crate::filter::lemma_filter_take_push(dv, pred, i as int);
                        assert(rel@ == dv[i as int]);
                    }
                    if rel.tag.eq(tag) {
                        let copy = rel.clone();
                        out.push(copy);
                        proof {
                            assert(out.deep_view() =~= prev.push(copy@));
                            assert(prev.push(copy@) =~= prev + seq![dv[i as int]]);
                        }
                    } else {
                        proof {
                            assert(prev + Seq::<ReleaseView>::empty() =~= prev);
                        }
                    }
                    i += 1;
                }
                proof {
                    assert(dv.take(rels@.len() as int) =~= dv);
                }
                out
            },
            ReleaseFinder::ByRegex(re) => find_release_from(re, rels),
        }
    }
}

impl Default for ReleaseFinder {
    /// With nothing specified, the latest release is wanted.
    fn default() -> (r: Self)
        ensures
            r is Latest,
    {
        ReleaseFinder::Latest
    }
}

/// Which asset of a release is wanted: the first one whose name matches a
/// pattern (scoped to the release a [`ReleaseFinder`] settles on), or one
/// picked directly by its identifier.
pub enum AssetFinder {
    ByRegex(ReleaseFinder, CompiledPattern),
    ById(u64),
}

/// Does the list hold an asset whose name matches the pattern?
pub open spec fn has_matching_asset(pattern: Seq<char>, assets: Seq<Asset>) -> bool {
    exists|i: int| 0 <= i < assets.len() && asset_matches(pattern, #[trigger] assets[i])
}

/// Does the list hold a release whose tag matches the pattern?
pub open spec fn has_matching_release(pattern: Seq<char>, rels: Seq<ReleaseView>) -> bool {
    exists|i: int| 0 <= i < rels.len() && release_matches(pattern, #[trigger] rels[i])
}

/// The first asset whose name matches the pattern, searching in list
/// order; `None` exactly when nothing matches.
pub fn first_matching_asset(re: &CompiledPattern, assets: &Vec<Asset>) -> (r: Option<Asset>)
    ensures
        (r is Some) == has_matching_asset(re.source(), assets@),
        r matches Some(a) ==> exists|i: int|
            0 <= i < assets@.len() && a == #[trigger] assets@[i] && asset_matches(
                re.source(),
                a,
            ) && (forall|j: int| 0 <= j < i ==> !asset_matches(re.source(), #[trigger] assets@[j])),
{
    let mut i: usize = 0;
    while i < assets.len()
        invariant
            i <= assets@.len(),
            forall|j: int| 0 <= j < i ==> !asset_matches(re.source(), #[trigger] assets@[j]),
        decreases assets@.len() - i,
    {
        let asset = &assets[i];
        if re.matches(asset.name.as_str()) {
            let found = asset.clone();
            proof {
                assert(found == assets@[i as int] && asset_matches(re.source(), found));
            }
            return Some(found);
        }
        i += 1;
    }
    None
}

/// The first release whose tag matches the pattern, searching in list
/// order (newest first); `None` exactly when nothing matches.
pub fn first_matching_release(re: &CompiledPattern, rels: &Vec<Release>) -> (r: Option<Release>)
    ensures
        (r is Some) == has_matching_release(re.source(), rels.deep_view()),
        r matches Some(rel) ==> exists|i: int|
            0 <= i < rels.deep_view().len() && rel@ == #[trigger] rels.deep_view()[i]
                && release_matches(re.source(), rel@) && (forall|j: int|
                0 <= j < i ==> !release_matches(re.source(), #[trigger] rels.deep_view()[j])),
{
    let ghost dv = rels.deep_view();
    let mut i: usize = 0;
    while i < rels.len()
        invariant
            i <= rels@.len(),
            dv == rels.deep_view(),
            forall|j: int| 0 <= j < i ==> !release_matches(re.source(), #[trigger] dv[j]),
        decreases rels@.len() - i,
    {
        let rel = &rels[i];
        if re.matches(rel.tag.as_str()) {
            let found = rel.clone();
            proof {
                assert(found@ == dv[i as int] && release_matches(re.source(), found@));
            }
            return Some(found);
        }
        i += 1;
    }
    None
}

} // verus!
