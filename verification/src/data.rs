//! The immutable data model: releases and the artifacts attached to them.

use vstd::prelude::*;

verus! {

/// A single downloadable artifact attached to a release.
///
/// An asset belongs to exactly one release and is held by value inside it;
/// it has no lifecycle of its own.
#[derive(Debug)]
pub struct Asset {
    pub id: u64,
    pub name: String,
    pub label: Option<String>,
    pub download_url: String,
}

impl Clone for Asset {
    fn clone(&self) -> (r: Self)
        ensures
            r == *self,
    {
        Asset {
            id: self.id,
            name: self.name.clone(),
            label: match &self.label {
                Some(l) => Some(l.clone()),
                None => None,
            },
            download_url: self.download_url.clone(),
        }
    }
}

/// The mathematical content of a [`Release`]: every text field as a
/// sequence of characters and the asset list as a sequence.
#[verifier::ext_equal]
pub struct ReleaseView {
    pub tag: Seq<char>,
    pub display_name: Option<Seq<char>>,
    pub published_at: i64,
    pub body: Option<Seq<char>>,
    pub assets: Seq<Asset>,
}

/// A tagged, published version of a project, carrying a list of
/// downloadable artifacts.
///
/// A release is immutable once fetched; the whole list of releases is
/// replaced wholesale when a fetch completes.  Its identity is `tag`,
/// unique per repository.
#[derive(Debug)]
pub struct Release {
    pub tag: String,
    pub display_name: Option<String>,
    pub published_at: i64,
    pub body: Option<String>,
    pub assets: Vec<Asset>,
}

impl View for Release {
    type V = ReleaseView;

    open spec fn view(&self) -> ReleaseView {
        ReleaseView {
            tag: self.tag@,
            display_name: self.display_name.deep_view(),
            published_at: self.published_at,
            body: self.body.deep_view(),
            assets: self.assets@,
        }
    }
}

impl DeepView for Release {
    type V = ReleaseView;

    open spec fn deep_view(&self) -> ReleaseView {
        self.view()
    }
}

impl Clone for Release {
    fn clone(&self) -> (r: Self)
        ensures
            r@ == self@,
    {
        let r = Release {
            tag: self.tag.clone(),
            display_name: match &self.display_name {
                Some(n) => Some(n.clone()),
                None => None,
            },
            published_at: self.published_at,
            body: match &self.body {
                Some(b) => Some(b.clone()),
                None => None,
            },
            assets: self.assets.clone(),
        };
        proof {
            assert(r.assets@ =~= self.assets@);
            assert(r@ =~= self@);
        }
        r
    }
}

} // verus!
