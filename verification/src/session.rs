//! The session: the owned model of the current screen and the state
//! machine that consumes key events and timer ticks.
//!
//! The controller is single-threaded: background workers only ever hand it
//! plain values (key events, fetch results), so every transition here is a
//! pure function from the old state to the new one.  Pattern fields are
//! recompiled live on every edit; owner and repository changes take effect
//! only on an explicit confirmation, which emits a fetch request.

use vstd::prelude::*;

use crate::data::{Asset, Release, ReleaseView};
use crate::filter::{
    apply_asset_pattern, apply_assets_spec, apply_release_pattern, apply_releases_spec,
    lemma_filter_empty, asset_pred, release_pred,
};
use crate::pattern::{
    clone_chars, filter_pattern_wf, placeholder_seq, placeholder_text, recompiled,
    FilterPattern, FilterPatternView,
};

verus! {

/// The four editable text fields of the screen, top row then bottom row.
#[derive(Clone, Copy, PartialEq, Eq, Structural, Debug)]
pub enum FieldId {
    Owner,
    Repo,
    ReleasePattern,
    AssetPattern,
}

/// Which results pane the selection cursor lives in.
#[derive(Clone, Copy, PartialEq, Eq, Structural, Debug)]
pub enum Pane {
    Releases,
    Assets,
}

/// A key event, as the session understands it; the caller maps the
/// terminal's own key codes onto these.
#[derive(Clone, Copy, PartialEq, Eq, Structural, Debug)]
pub enum Key {
    Char(char),
    Backspace,
    Enter,
    Left,
    Right,
    Tab,
    Up,
    Down,
    Other,
}

/// One event of the merged stream the controller blocks on.
#[derive(Clone, Copy, PartialEq, Eq, Structural, Debug)]
pub enum Event {
    Input(Key),
    Tick,
}

/// A request handed to the fetch worker.
#[derive(Debug)]
pub enum FetchRequest {
    ListReleases(Vec<char>, Vec<char>),
}

/// A repository-client failure, surfaced to the controller as a value.
#[derive(Debug)]
pub struct FetchError {
    pub message: String,
}

/// What the fetch worker reports back for one request.
#[derive(Debug)]
pub enum FetchResult {
    Releases(Vec<Release>),
    Failed(FetchError),
}

/// What the caller of a transition must do next.
#[derive(Debug)]
pub enum Action {
    Continue,
    Fetch(FetchRequest),
    Quit,
}

/// The mathematical content of a [`SessionState`].
#[verifier::ext_equal]
pub struct SessionView {
    pub owner: Seq<char>,
    pub repo: Seq<char>,
    pub release_pattern: FilterPatternView,
    pub asset_pattern: FilterPatternView,
    pub focused_field: FieldId,
    pub selected_pane: Pane,
    pub all_releases: Seq<ReleaseView>,
    pub filtered_releases: Seq<ReleaseView>,
    pub filtered_assets: Seq<Asset>,
    pub selected_release_index: int,
    pub selected_asset_index: int,
    pub last_error: Option<FetchError>,
}

/// A selection cursor is valid: inside the list, or pinned to `0` when the
/// list is empty.
pub open spec fn sel_ok(i: int, len: nat) -> bool {
    if len == 0 {
        i == 0
    } else {
        0 <= i < len
    }
}

/// The asset list of the release at index `i`, or empty when there is no
/// such release.
pub open spec fn assets_at(rels: Seq<ReleaseView>, i: int) -> Seq<Asset> {
    if 0 <= i < rels.len() {
        rels[i].assets
    } else {
        Seq::empty()
    }
}

/// The asset candidates of the currently selected release.
pub open spec fn selected_assets(v: SessionView) -> Seq<Asset> {
    assets_at(v.filtered_releases, v.selected_release_index)
}

/// The session invariant: both filter patterns are well formed, the
/// filtered lists are exactly the current patterns applied to their source
/// lists, and both selection cursors are valid.
pub open spec fn session_wf(v: SessionView) -> bool {
    &&& filter_pattern_wf(v.release_pattern)
    &&& filter_pattern_wf(v.asset_pattern)
    &&& v.filtered_releases == apply_releases_spec(v.release_pattern.compiled, v.all_releases)
    &&& v.filtered_assets == apply_assets_spec(v.asset_pattern.compiled, selected_assets(v))
    &&& sel_ok(v.selected_release_index, v.filtered_releases.len())
    &&& sel_ok(v.selected_asset_index, v.filtered_assets.len())
}

/// The text of the focused field.
pub open spec fn focused_text(v: SessionView) -> Seq<char> {
    match v.focused_field {
        FieldId::Owner => v.owner,
        FieldId::Repo => v.repo,
        FieldId::ReleasePattern => v.release_pattern.raw,
        FieldId::AssetPattern => v.asset_pattern.raw,
    }
}

/// A field's text after one backspace: the placeholder clears entirely,
/// otherwise the last character goes, and a field that becomes empty gets
/// the placeholder back so that "nothing typed yet" stays recognisable.
pub open spec fn backspace_text(s: Seq<char>) -> Seq<char> {
    if s == placeholder_seq() {
        Seq::empty()
    } else {
        let t = if s.len() > 0 {
            s.drop_last()
        } else {
            s
        };
        if t.len() == 0 {
            placeholder_seq()
        } else {
            t
        }
    }
}

/// Focus movement: left and right saturate at the outer fields, up and
/// down move within the same column.
pub open spec fn focus_left(f: FieldId) -> FieldId {
    match f {
        FieldId::Owner => FieldId::Owner,
        FieldId::Repo => FieldId::Owner,
        FieldId::ReleasePattern => FieldId::Repo,
        FieldId::AssetPattern => FieldId::ReleasePattern,
    }
}

pub open spec fn focus_right(f: FieldId) -> FieldId {
    match f {
        FieldId::Owner => FieldId::Repo,
        FieldId::Repo => FieldId::ReleasePattern,
        FieldId::ReleasePattern => FieldId::AssetPattern,
        FieldId::AssetPattern => FieldId::AssetPattern,
    }
}

pub open spec fn focus_up(f: FieldId) -> FieldId {
    match f {
        FieldId::ReleasePattern => FieldId::Owner,
        FieldId::AssetPattern => FieldId::Repo,
        _ => f,
    }
}

pub open spec fn focus_down(f: FieldId) -> FieldId {
    match f {
        FieldId::Owner => FieldId::ReleasePattern,
        FieldId::Repo => FieldId::AssetPattern,
        _ => f,
    }
}

/// The state after replacing the release pattern: a valid recompilation is
/// applied immediately (live filtering) and resets both cursors; an
/// invalid one only records the new raw text and leaves every result list
/// untouched.
pub open spec fn reapply_release(v: SessionView, p: FilterPatternView) -> SessionView {
    if p.valid {
        let fr = apply_releases_spec(p.compiled, v.all_releases);
        let fa = apply_assets_spec(v.asset_pattern.compiled, assets_at(fr, 0));
        SessionView {
            release_pattern: p,
            filtered_releases: fr,
            filtered_assets: fa,
            selected_release_index: 0,
            selected_asset_index: 0,
            ..v
        }
    } else {
        SessionView { release_pattern: p, ..v }
    }
}

/// The state after replacing the asset pattern; the asset cursor resets,
/// the release side is untouched.
pub open spec fn reapply_asset(v: SessionView, p: FilterPatternView) -> SessionView {
    if p.valid {
        SessionView {
            asset_pattern: p,
            filtered_assets: apply_assets_spec(p.compiled, selected_assets(v)),
            selected_asset_index: 0,
            ..v
        }
    } else {
        SessionView { asset_pattern: p, ..v }
    }
}

/// The state after the focused field's text becomes `text`: owner and
/// repository edits have no immediate side effect, pattern edits recompile
/// and refilter live.
pub open spec fn step_edit(v: SessionView, text: Seq<char>) -> SessionView {
    match v.focused_field {
        FieldId::Owner => SessionView { owner: text, ..v },
        FieldId::Repo => SessionView { repo: text, ..v },
        FieldId::ReleasePattern => reapply_release(v, recompiled(v.release_pattern, text)),
        FieldId::AssetPattern => reapply_asset(v, recompiled(v.asset_pattern, text)),
    }
}

/// The state after one key event.  The quit key and a confirmation on the
/// owner or repository field leave the state unchanged (their effect is
/// the returned action); a confirmation on a pattern field forces a
/// recompilation of the unchanged text.
pub open spec fn step_key_spec(v: SessionView, key: Key) -> SessionView {
    match key {
        Key::Char(c) => if c == 'q' {
            v
        } else {
            step_edit(v, focused_text(v).push(c))
        },
        Key::Backspace => step_edit(v, backspace_text(focused_text(v))),
        Key::Enter => match v.focused_field {
            FieldId::Owner => v,
            FieldId::Repo => v,
            FieldId::ReleasePattern => step_edit(v, v.release_pattern.raw),
            FieldId::AssetPattern => step_edit(v, v.asset_pattern.raw),
        },
        Key::Left => SessionView { focused_field: focus_left(v.focused_field), ..v },
        Key::Right => SessionView { focused_field: focus_right(v.focused_field), ..v },
        Key::Tab => SessionView { focused_field: focus_right(v.focused_field), ..v },
        Key::Up => SessionView { focused_field: focus_up(v.focused_field), ..v },
        Key::Down => SessionView { focused_field: focus_down(v.focused_field), ..v },
        Key::Other => v,
    }
}

/// The state after a tick that observed `latest` as the most recent
/// pending fetch result: a successful fetch replaces the release list
/// wholesale, resets both cursors and the pane, and refilters with the
/// patterns as they stand; a failure is recorded for display; no result
/// means no change.
pub open spec fn step_tick_spec(v: SessionView, latest: Option<FetchResult>) -> SessionView {
    match latest {
        Option::None => v,
        Option::Some(FetchResult::Failed(e)) => SessionView { last_error: Some(e), ..v },
        Option::Some(FetchResult::Releases(rels)) => {
            let all = rels.deep_view();
            let fr = apply_releases_spec(v.release_pattern.compiled, all);
            let fa = apply_assets_spec(v.asset_pattern.compiled, assets_at(fr, 0));
            SessionView {
                all_releases: all,
                filtered_releases: fr,
                filtered_assets: fa,
                selected_release_index: 0,
                selected_asset_index: 0,
                selected_pane: Pane::Releases,
                last_error: None,
                ..v
            }
        },
    }
}

/// Last-write-wins drain: of all results still pending at a tick, only the
/// most recently enqueued one is kept.
pub open spec fn latest_result_spec(pending: Seq<FetchResult>) -> Option<FetchResult> {
    if pending.len() == 0 {
        None
    } else {
        Some(pending.last())
    }
}

/// A command-line argument's seed text, or the placeholder when absent.
pub open spec fn seeded_text(arg: Option<Seq<char>>) -> Seq<char> {
    match arg {
        Some(t) => t,
        None => placeholder_seq(),
    }
}

/// The filter-pattern state of a field nobody has edited.
pub open spec fn unset_pattern() -> FilterPatternView {
    FilterPatternView { raw: placeholder_seq(), compiled: None, valid: true }
}

/// A pattern field seeded from a command-line argument: the seed text is
/// compiled immediately, so the invariant between raw text and applied
/// matcher holds from the first render on.
pub open spec fn seeded_pattern(arg: Option<Seq<char>>) -> FilterPatternView {
    recompiled(unset_pattern(), seeded_text(arg))
}

/// The initial session state: seeded field texts, no releases yet, both
/// cursors at zero.
pub open spec fn init_session(
    owner: Option<Seq<char>>,
    repo: Option<Seq<char>>,
    release: Option<Seq<char>>,
    asset: Option<Seq<char>>,
) -> SessionView {
    SessionView {
        owner: seeded_text(owner),
        repo: seeded_text(repo),
        release_pattern: seeded_pattern(release),
        asset_pattern: seeded_pattern(asset),
        focused_field: FieldId::Owner,
        selected_pane: Pane::Releases,
        all_releases: Seq::empty(),
        filtered_releases: Seq::empty(),
        filtered_assets: Seq::empty(),
        selected_release_index: 0,
        selected_asset_index: 0,
        last_error: None,
    }
}

/// The owned, mutable model of the current screen.  All transitions are by
/// value: callers replace their state with the returned one.
pub struct SessionState {
    owner: Vec<char>,
    repo: Vec<char>,
    release_pattern: FilterPattern,
    asset_pattern: FilterPattern,
    focused_field: FieldId,
    selected_pane: Pane,
    all_releases: Vec<Release>,
    filtered_releases: Vec<Release>,
    filtered_assets: Vec<Asset>,
    selected_release_index: usize,
    selected_asset_index: usize,
    last_error: Option<FetchError>,
}

impl View for SessionState {
    type V = SessionView;

    closed spec fn view(&self) -> SessionView {
        SessionView {
            owner: self.owner@,
            repo: self.repo@,
            release_pattern: self.release_pattern@,
            asset_pattern: self.asset_pattern@,
            focused_field: self.focused_field,
            selected_pane: self.selected_pane,
            all_releases: self.all_releases.deep_view(),
            filtered_releases: self.filtered_releases.deep_view(),
            filtered_assets: self.filtered_assets@,
            selected_release_index: self.selected_release_index as int,
            selected_asset_index: self.selected_asset_index as int,
            last_error: self.last_error,
        }
    }
}

impl SessionState {
    #[verifier::type_invariant]
    spec fn type_wf(self) -> bool {
        session_wf(self@)
    }

    /// Start a session, pre-seeding the four fields from the command-line
    /// arguments that were given.  When both owner and repository were
    /// given, a fetch for their release list is requested immediately.
    pub fn new(
        owner: Option<Vec<char>>,
        repo: Option<Vec<char>>,
        release: Option<Vec<char>>,
        asset: Option<Vec<char>>,
    ) -> (r: (Self, Option<FetchRequest>))
        ensures
            r.0@ == init_session(
                owner.deep_view(),
                repo.deep_view(),
                release.deep_view(),
                asset.deep_view(),
            ),
            (r.1 is Some) == (owner is Some && repo is Some),
            r.1 matches Some(FetchRequest::ListReleases(o, rp)) ==> o@ == seeded_text(
                owner.deep_view(),
            ) && rp@ == seeded_text(repo.deep_view()),
    {
        let confirm = owner.is_some() && repo.is_some();
        let owner_text = seed_text(owner);
        let repo_text = seed_text(repo);
        let release_pattern = seed_pattern(release);
        let asset_pattern = seed_pattern(asset);
        let req = if confirm {
            Some(FetchRequest::ListReleases(clone_chars(&owner_text), clone_chars(&repo_text)))
        } else {
            None
        };
        let all_releases: Vec<Release> = Vec::new();
        let filtered_releases: Vec<Release> = Vec::new();
        let filtered_assets: Vec<Asset> = Vec::new();
        proof {
            lemma_recompiled_wf_unset(release.deep_view());
            lemma_recompiled_wf_unset(asset.deep_view());
            lemma_filter_empty(release_pred(pattern_text_of(release_pattern@.compiled)));
            lemma_filter_empty(asset_pred(pattern_text_of(asset_pattern@.compiled)));
            assert(all_releases.deep_view() =~= Seq::<ReleaseView>::empty());
            assert(filtered_releases.deep_view() =~= Seq::<ReleaseView>::empty());
            assert(filtered_assets@ =~= Seq::<Asset>::empty());
            assert(apply_releases_spec(release_pattern@.compiled, Seq::<ReleaseView>::empty())
                =~= Seq::<ReleaseView>::empty());
            assert(apply_assets_spec(asset_pattern@.compiled, Seq::<Asset>::empty())
                =~= Seq::<Asset>::empty());
        }
        let state = SessionState {
            owner: owner_text,
            repo: repo_text,
            release_pattern,
            asset_pattern,
            focused_field: FieldId::Owner,
            selected_pane: Pane::Releases,
            all_releases,
            filtered_releases,
            filtered_assets,
            selected_release_index: 0,
            selected_asset_index: 0,
            last_error: None,
        };
        proof {
            assert(state@ =~= init_session(
                owner.deep_view(),
                repo.deep_view(),
                release.deep_view(),
                asset.deep_view(),
            ));
        }
        (state, req)
    }
}

impl SessionState {
    /// The text buffer of the focused field.
    pub fn focused_buffer(&self) -> (r: &Vec<char>)
        ensures
            r@ == focused_text(self@),
    {
        match self.focused_field {
            FieldId::Owner => &self.owner,
            FieldId::Repo => &self.repo,
            FieldId::ReleasePattern => self.release_pattern.raw_text(),
            FieldId::AssetPattern => self.asset_pattern.raw_text(),
        }
    }

    /// Replace the focused field's text: a pattern field recompiles and
    /// refilters live, owner and repository edits only update the buffer.
    fn edit_focused(self, text: Vec<char>) -> (r: Self)
        ensures
            r@ == step_edit(self@, text@),
    {
        proof {
            use_type_invariant(&self);
            lemma_edit_preserves_wf(self@, text@);
        }
        let ghost v0 = self@;
        let SessionState {
            owner,
            repo,
            release_pattern,
            asset_pattern,
            focused_field,
            selected_pane,
            all_releases,
            filtered_releases,
            filtered_assets,
            selected_release_index,
            selected_asset_index,
            last_error,
        } = self;
        match focused_field {
            FieldId::Owner => {
                let r = SessionState {
                    owner: text,
                    repo,
                    release_pattern,
                    asset_pattern,
                    focused_field,
                    selected_pane,
                    all_releases,
                    filtered_releases,
                    filtered_assets,
                    selected_release_index,
                    selected_asset_index,
                    last_error,
                };
                proof {
                    assert(r@ =~= step_edit(v0, text@));
                }
                r
            },
            FieldId::Repo => {
                let r = SessionState {
                    owner,
                    repo: text,
                    release_pattern,
                    asset_pattern,
                    focused_field,
                    selected_pane,
                    all_releases,
                    filtered_releases,
                    filtered_assets,
                    selected_release_index,
                    selected_asset_index,
                    last_error,
                };
                proof {
                    assert(r@ =~= step_edit(v0, text@));
                }
                r
            },
            FieldId::ReleasePattern => {
                let p2 = release_pattern.set_text(text);
                if p2.is_valid() {
                    let fr = apply_release_pattern(&p2, &all_releases);
                    let fa = apply_assets_at(&asset_pattern, &fr, 0);
                    let r = SessionState {
                        owner,
                        repo,
                        release_pattern: p2,
                        asset_pattern,
                        focused_field,
                        selected_pane,
                        all_releases,
                        filtered_releases: fr,
                        filtered_assets: fa,
                        selected_release_index: 0,
                        selected_asset_index: 0,
                        last_error,
                    };
                    proof {
                        assert(r@ =~= step_edit(v0, text@));
                    }
                    r
                } else {
                    let r = SessionState {
                        owner,
                        repo,
                        release_pattern: p2,
                        asset_pattern,
                        focused_field,
                        selected_pane,
                        all_releases,
                        filtered_releases,
                        filtered_assets,
                        selected_release_index,
                        selected_asset_index,
                        last_error,
                    };
                    proof {
                        assert(r@ =~= step_edit(v0, text@));
                    }
                    r
                }
            },
            FieldId::AssetPattern => {
                let p2 = asset_pattern.set_text(text);
                if p2.is_valid() {
                    let fa = apply_assets_at(&p2, &filtered_releases, selected_release_index);
                    let r = SessionState {
                        owner,
                        repo,
                        release_pattern,
                        asset_pattern: p2,
                        focused_field,
                        selected_pane,
                        all_releases,
                        filtered_releases,
                        filtered_assets: fa,
                        selected_release_index,
                        selected_asset_index: 0,
                        last_error,
                    };
                    proof {
                        assert(r@ =~= step_edit(v0, text@));
                    }
                    r
                } else {
                    let r = SessionState {
                        owner,
                        repo,
                        release_pattern,
                        asset_pattern: p2,
                        focused_field,
                        selected_pane,
                        all_releases,
                        filtered_releases,
                        filtered_assets,
                        selected_release_index,
                        selected_asset_index,
                        last_error,
                    };
                    proof {
                        assert(r@ =~= step_edit(v0, text@));
                    }
                    r
                }
            },
        }
    }

    /// Move the focus to another field.
    fn focus_to(self, f: FieldId) -> (r: Self)
        ensures
            r@ == (SessionView { focused_field: f, ..self@ }),
    {
        proof {
            use_type_invariant(&self);
        }
        let ghost v0 = self@;
        let SessionState {
            owner,
            repo,
            release_pattern,
            asset_pattern,
            focused_field: _,
            selected_pane,
            all_releases,
            filtered_releases,
            filtered_assets,
            selected_release_index,
            selected_asset_index,
            last_error,
        } = self;
        let r = SessionState {
            owner,
            repo,
            release_pattern,
            asset_pattern,
            focused_field: f,
            selected_pane,
            all_releases,
            filtered_releases,
            filtered_assets,
            selected_release_index,
            selected_asset_index,
            last_error,
        };
        proof {
            assert(r@ =~= (SessionView { focused_field: f, ..v0 }));
        }
        r
    }

    /// Consume one key event: the returned state is the next one, the
    /// returned action tells the caller what to do (keep going, send a
    /// fetch request, or quit the session).
    pub fn on_key(self, key: Key) -> (r: (Self, Action))
        ensures
            r.0@ == step_key_spec(self@, key),
            (r.1 is Quit) == (key == Key::Char('q')),
            (r.1 is Fetch) == (key == Key::Enter && (self@.focused_field == FieldId::Owner
                || self@.focused_field == FieldId::Repo)),
            r.1 matches Action::Fetch(FetchRequest::ListReleases(o, rp)) ==> o@ == self@.owner
                && rp@ == self@.repo,
    {
        match key {
            Key::Char(c) => {
                if c == 'q' {
                    (self, Action::Quit)
                } else {
                    let mut text = clone_chars(self.focused_buffer());
                    text.push(c);
                    (self.edit_focused(text), Action::Continue)
                }
            },
            Key::Backspace => {
                let text = backspaced(self.focused_buffer());
                (self.edit_focused(text), Action::Continue)
            },
            Key::Enter => {
                match self.focused_field {
                    FieldId::Owner | FieldId::Repo => {
                        let o = clone_chars(&self.owner);
                        let rp = clone_chars(&self.repo);
                        (self, Action::Fetch(FetchRequest::ListReleases(o, rp)))
                    },
                    FieldId::ReleasePattern => {
                        let text = clone_chars(self.release_pattern.raw_text());
                        (self.edit_focused(text), Action::Continue)
                    },
                    FieldId::AssetPattern => {
                        let text = clone_chars(self.asset_pattern.raw_text());
                        (self.edit_focused(text), Action::Continue)
                    },
                }
            },
            Key::Left => {
                let f = focus_left_exec(self.focused_field);
                (self.focus_to(f), Action::Continue)
            },
            Key::Right => {
                let f = focus_right_exec(self.focused_field);
                (self.focus_to(f), Action::Continue)
            },
            Key::Tab => {
                let f = focus_right_exec(self.focused_field);
                (self.focus_to(f), Action::Continue)
            },
            Key::Up => {
                let f = focus_up_exec(self.focused_field);
                (self.focus_to(f), Action::Continue)
            },
            Key::Down => {
                let f = focus_down_exec(self.focused_field);
                (self.focus_to(f), Action::Continue)
            },
            Key::Other => (self, Action::Continue),
        }
    }

    /// Consume one tick: only the most recent pending fetch result is
    /// applied; a successful one replaces the release list wholesale.
    pub fn on_tick(self, latest: Option<FetchResult>) -> (r: Self)
        ensures
            r@ == step_tick_spec(self@, latest),
    {
        proof {
            use_type_invariant(&self);
            lemma_tick_preserves_wf(self@, latest);
        }
        let ghost v0 = self@;
        match latest {
            None => self,
            Some(FetchResult::Failed(e)) => {
                let SessionState {
                    owner,
                    repo,
                    release_pattern,
                    asset_pattern,
                    focused_field,
                    selected_pane,
                    all_releases,
                    filtered_releases,
                    filtered_assets,
                    selected_release_index,
                    selected_asset_index,
                    last_error: _,
                } = self;
                let r = SessionState {
                    owner,
                    repo,
                    release_pattern,
                    asset_pattern,
                    focused_field,
                    selected_pane,
                    all_releases,
                    filtered_releases,
                    filtered_assets,
                    selected_release_index,
                    selected_asset_index,
                    last_error: Some(e),
                };
                proof {
                    assert(r@ =~= step_tick_spec(v0, latest));
                }
                r
            },
            Some(FetchResult::Releases(rels)) => {
                let SessionState {
                    owner,
                    repo,
                    release_pattern,
                    asset_pattern,
                    focused_field,
                    selected_pane: _,
                    all_releases: _,
                    filtered_releases: _,
                    filtered_assets: _,
                    selected_release_index: _,
                    selected_asset_index: _,
                    last_error: _,
                } = self;
                let fr = apply_release_pattern(&release_pattern, &rels);
                let fa = apply_assets_at(&asset_pattern, &fr, 0);
                let r = SessionState {
                    owner,
                    repo,
                    release_pattern,
                    asset_pattern,
                    focused_field,
                    selected_pane: Pane::Releases,
                    all_releases: rels,
                    filtered_releases: fr,
                    filtered_assets: fa,
                    selected_release_index: 0,
                    selected_asset_index: 0,
                    last_error: None,
                };
                proof {
                    assert(r@ =~= step_tick_spec(v0, latest));
                }
                r
            },
        }
    }

    /// Consume one event of the merged stream.  For a tick, `pending` is
    /// everything the fetch-result channel held at that moment, oldest
    /// first; only its most recent entry takes effect.
    pub fn on_event(self, ev: Event, pending: Vec<FetchResult>) -> (r: (Self, Action))
        ensures
            ev matches Event::Input(k) ==> r.0@ == step_key_spec(self@, k),
            ev == Event::Tick ==> r.0@ == step_tick_spec(
                self@,
                latest_result_spec(pending@),
            ) && r.1 is Continue,
            (r.1 is Quit) == (ev == Event::Input(Key::Char('q'))),
            (r.1 is Fetch) == (ev == Event::Input(Key::Enter) && (self@.focused_field
                == FieldId::Owner || self@.focused_field == FieldId::Repo)),
            r.1 matches Action::Fetch(FetchRequest::ListReleases(o, rp)) ==> o@ == self@.owner
                && rp@ == self@.repo,
    {
        match ev {
            Event::Input(k) => self.on_key(k),
            Event::Tick => (self.on_tick(drain_latest(pending)), Action::Continue),
        }
    }

    /// Move the release cursor to row `i`; an out-of-range row is ignored.
    /// Selecting a row resets the asset cursor and recomputes the asset
    /// list from the newly selected release.
    pub fn select_release(self, i: usize) -> (r: Self)
        ensures
            r@ == select_release_spec(self@, i as int),
    {
        proof {
            use_type_invariant(&self);
            lemma_select_release_wf(self@, i as int);
        }
        let ghost v0 = self@;
        if i < self.filtered_releases.len() {
            let SessionState {
                owner,
                repo,
                release_pattern,
                asset_pattern,
                focused_field,
                selected_pane,
                all_releases,
                filtered_releases,
                filtered_assets: _,
                selected_release_index: _,
                selected_asset_index: _,
                last_error,
            } = self;
            let fa = {
                let rel = &filtered_releases[i];
                apply_asset_pattern(&asset_pattern, &rel.assets)
            };
            let r = SessionState {
                owner,
                repo,
                release_pattern,
                asset_pattern,
                focused_field,
                selected_pane,
                all_releases,
                filtered_releases,
                filtered_assets: fa,
                selected_release_index: i,
                selected_asset_index: 0,
                last_error,
            };
            proof {
                assert(r@ =~= select_release_spec(v0, i as int));
            }
            r
        } else {
            self
        }
    }

    /// Move the asset cursor to row `i`; an out-of-range row is ignored.
    pub fn select_asset(self, i: usize) -> (r: Self)
        ensures
            r@ == select_asset_spec(self@, i as int),
    {
        proof {
            use_type_invariant(&self);
        }
        let ghost v0 = self@;
        if i < self.filtered_assets.len() {
            let SessionState {
                owner,
                repo,
                release_pattern,
                asset_pattern,
                focused_field,
                selected_pane,
                all_releases,
                filtered_releases,
                filtered_assets,
                selected_release_index,
                selected_asset_index: _,
                last_error,
            } = self;
            let r = SessionState {
                owner,
                repo,
                release_pattern,
                asset_pattern,
                focused_field,
                selected_pane,
                all_releases,
                filtered_releases,
                filtered_assets,
                selected_release_index,
                selected_asset_index: i,
                last_error,
            };
            proof {
                assert(r@ =~= select_asset_spec(v0, i as int));
            }
            r
        } else {
            self
        }
    }

    /// Put the selection cursor into the given pane.
    pub fn select_pane(self, p: Pane) -> (r: Self)
        ensures
            r@ == (SessionView { selected_pane: p, ..self@ }),
    {
        proof {
            use_type_invariant(&self);
        }
        let ghost v0 = self@;
        let SessionState {
            owner,
            repo,
            release_pattern,
            asset_pattern,
            focused_field,
            selected_pane: _,
            all_releases,
            filtered_releases,
            filtered_assets,
            selected_release_index,
            selected_asset_index,
            last_error,
        } = self;
        let r = SessionState {
            owner,
            repo,
            release_pattern,
            asset_pattern,
            focused_field,
            selected_pane: p,
            all_releases,
            filtered_releases,
            filtered_assets,
            selected_release_index,
            selected_asset_index,
            last_error,
        };
        proof {
            assert(r@ =~= (SessionView { selected_pane: p, ..v0 }));
        }
        r
    }
}

impl SessionState {
    /// The owner field's text.
    pub fn owner_text(&self) -> (r: &Vec<char>)
        ensures
            r@ == self@.owner,
    {
        &self.owner
    }

    /// The repository field's text.
    pub fn repo_text(&self) -> (r: &Vec<char>)
        ensures
            r@ == self@.repo,
    {
        &self.repo
    }

    /// The release-pattern field.
    pub fn release_pattern(&self) -> (r: &FilterPattern)
        ensures
            r@ == self@.release_pattern,
    {
        &self.release_pattern
    }

    /// The asset-pattern field.
    pub fn asset_pattern(&self) -> (r: &FilterPattern)
        ensures
            r@ == self@.asset_pattern,
    {
        &self.asset_pattern
    }

    /// The currently focused field.
    pub fn focused(&self) -> (r: FieldId)
        ensures
            r == self@.focused_field,
    {
        self.focused_field
    }

    /// The pane the selection cursor lives in.
    pub fn pane(&self) -> (r: Pane)
        ensures
            r == self@.selected_pane,
    {
        self.selected_pane
    }

    /// Every release of the last completed fetch.
    pub fn all_releases(&self) -> (r: &Vec<Release>)
        ensures
            r.deep_view() == self@.all_releases,
    {
        &self.all_releases
    }

    /// The releases that match the current release pattern, in order.
    pub fn filtered_releases(&self) -> (r: &Vec<Release>)
        ensures
            r.deep_view() == self@.filtered_releases,
    {
        &self.filtered_releases
    }

    /// The assets of the selected release that match the current asset
    /// pattern, in order.
    pub fn filtered_assets(&self) -> (r: &Vec<Asset>)
        ensures
            r@ == self@.filtered_assets,
    {
        &self.filtered_assets
    }

    /// The release cursor.
    pub fn selected_release_index(&self) -> (r: usize)
        ensures
            r == self@.selected_release_index,
    {
        self.selected_release_index
    }

    /// The asset cursor.
    pub fn selected_asset_index(&self) -> (r: usize)
        ensures
            r == self@.selected_asset_index,
    {
        self.selected_asset_index
    }

    /// The most recent fetch failure, if it has not been superseded by a
    /// successful fetch.
    pub fn last_error(&self) -> (r: &Option<FetchError>)
        ensures
            *r == self@.last_error,
    {
        &self.last_error
    }
}

/// The state after moving the release cursor to row `i`.
pub open spec fn select_release_spec(v: SessionView, i: int) -> SessionView {
    if 0 <= i < v.filtered_releases.len() {
        SessionView {
            selected_release_index: i,
            selected_asset_index: 0,
            filtered_assets: apply_assets_spec(
                v.asset_pattern.compiled,
                assets_at(v.filtered_releases, i),
            ),
            ..v
        }
    } else {
        v
    }
}

/// The state after moving the asset cursor to row `i`.
pub open spec fn select_asset_spec(v: SessionView, i: int) -> SessionView {
    if 0 <= i < v.filtered_assets.len() {
        SessionView { selected_asset_index: i, ..v }
    } else {
        v
    }
}

/// The asset pattern applied to the asset list of the release at row `i`,
/// or an empty list when there is no such row.
fn apply_assets_at(p: &FilterPattern, rels: &Vec<Release>, i: usize) -> (r: Vec<Asset>)
    ensures
        r@ == apply_assets_spec(p@.compiled, assets_at(rels.deep_view(), i as int)),
{
    if i < rels.len() {
        let rel = &rels[i];
        apply_asset_pattern(p, &rel.assets)
    } else {
        let out: Vec<Asset> = Vec::new();
        proof {
            assert(out@ =~= Seq::<Asset>::empty());
            lemma_filter_empty(asset_pred(pattern_text_of(p@.compiled)));
            assert(apply_assets_spec(p@.compiled, assets_at(rels.deep_view(), i as int)) =~= Seq::<
                Asset,
            >::empty());
        }
        out
    }
}

/// One backspace applied to a field buffer.
fn backspaced(text: &Vec<char>) -> (r: Vec<char>)
    ensures
        r@ == backspace_text(text@),
{
    if crate::pattern::is_placeholder(text) {
        Vec::new()
    } else {
        let mut u = clone_chars(text);
        if u.len() > 0 {
            u.pop();
        }
        if u.len() == 0 {
            placeholder_text()
        } else {
            u
        }
    }
}

/// The executable counterparts of the focus-movement functions.
fn focus_left_exec(f: FieldId) -> (r: FieldId)
    ensures
        r == focus_left(f),
{
    match f {
        FieldId::Owner => FieldId::Owner,
        FieldId::Repo => FieldId::Owner,
        FieldId::ReleasePattern => FieldId::Repo,
        FieldId::AssetPattern => FieldId::ReleasePattern,
    }
}

fn focus_right_exec(f: FieldId) -> (r: FieldId)
    ensures
        r == focus_right(f),
{
    match f {
        FieldId::Owner => FieldId::Repo,
        FieldId::Repo => FieldId::ReleasePattern,
        FieldId::ReleasePattern => FieldId::AssetPattern,
        FieldId::AssetPattern => FieldId::AssetPattern,
    }
}

fn focus_up_exec(f: FieldId) -> (r: FieldId)
    ensures
        r == focus_up(f),
{
    match f {
        FieldId::ReleasePattern => FieldId::Owner,
        FieldId::AssetPattern => FieldId::Repo,
        other => other,
    }
}

fn focus_down_exec(f: FieldId) -> (r: FieldId)
    ensures
        r == focus_down(f),
{
    match f {
        FieldId::Owner => FieldId::ReleasePattern,
        FieldId::Repo => FieldId::AssetPattern,
        other => other,
    }
}

/// Editing the focused field preserves the session invariant.
pub proof fn lemma_edit_preserves_wf(v: SessionView, text: Seq<char>)
    requires
        session_wf(v),
    ensures
        session_wf(step_edit(v, text)),
{
    match v.focused_field {
        FieldId::Owner => {},
        FieldId::Repo => {},
        FieldId::ReleasePattern => {
            crate::pattern::lemma_recompiled_wf(v.release_pattern, text);
            let p2 = recompiled(v.release_pattern, text);
            if !p2.valid {
                assert(p2.compiled == v.release_pattern.compiled);
            }
        },
        FieldId::AssetPattern => {
            crate::pattern::lemma_recompiled_wf(v.asset_pattern, text);
            let p2 = recompiled(v.asset_pattern, text);
            if !p2.valid {
                assert(p2.compiled == v.asset_pattern.compiled);
            }
        },
    }
}

/// Every key event preserves the session invariant: in particular, after
/// any sequence of events the selection cursors stay inside their lists
/// (or at `0` when a list is empty).
pub proof fn lemma_key_preserves_wf(v: SessionView, key: Key)
    requires
        session_wf(v),
    ensures
        session_wf(step_key_spec(v, key)),
{
    match key {
        Key::Char(c) => {
            if c != 'q' {
                lemma_edit_preserves_wf(v, focused_text(v).push(c));
            }
        },
        Key::Backspace => {
            lemma_edit_preserves_wf(v, backspace_text(focused_text(v)));
        },
        Key::Enter => {
            match v.focused_field {
                FieldId::Owner => {},
                FieldId::Repo => {},
                FieldId::ReleasePattern => {
                    lemma_edit_preserves_wf(v, v.release_pattern.raw);
                },
                FieldId::AssetPattern => {
                    lemma_edit_preserves_wf(v, v.asset_pattern.raw);
                },
            }
        },
        _ => {},
    }
}

/// Every tick preserves the session invariant.
pub proof fn lemma_tick_preserves_wf(v: SessionView, latest: Option<FetchResult>)
    requires
        session_wf(v),
    ensures
        session_wf(step_tick_spec(v, latest)),
{
}

/// Moving the release cursor preserves the session invariant.
pub proof fn lemma_select_release_wf(v: SessionView, i: int)
    requires
        session_wf(v),
    ensures
        session_wf(select_release_spec(v, i)),
{
}

/// Moving the asset cursor preserves the session invariant.
pub proof fn lemma_select_asset_wf(v: SessionView, i: int)
    requires
        session_wf(v),
    ensures
        session_wf(select_asset_spec(v, i)),
{
}

/// The initial session state satisfies the session invariant, so by the
/// preservation results above it holds after any sequence of events.
pub proof fn lemma_init_wf(
    owner: Option<Seq<char>>,
    repo: Option<Seq<char>>,
    release: Option<Seq<char>>,
    asset: Option<Seq<char>>,
)
    ensures
        session_wf(init_session(owner, repo, release, asset)),
{
    crate::pattern::lemma_recompiled_wf(unset_pattern(), seeded_text(release));
    crate::pattern::lemma_recompiled_wf(unset_pattern(), seeded_text(asset));
    lemma_filter_empty(release_pred(pattern_text_of(seeded_pattern(release).compiled)));
    lemma_filter_empty(asset_pred(pattern_text_of(seeded_pattern(asset).compiled)));
}

/// Last-write-wins: when two fetch results are pending at a tick, the
/// later-enqueued one decides the new release list and the earlier one is
/// discarded.
pub proof fn lemma_last_write_wins(
    v: SessionView,
    first: FetchResult,
    second: Vec<Release>,
)
    requires
        session_wf(v),
    ensures
        latest_result_spec(seq![first, FetchResult::Releases(second)]) == Some(
            FetchResult::Releases(second),
        ),
        step_tick_spec(
            v,
            latest_result_spec(seq![first, FetchResult::Releases(second)]),
        ).all_releases == second.deep_view(),
{
    let pending = seq![first, FetchResult::Releases(second)];
    assert(pending.last() == FetchResult::Releases(second));
}

/// A helper for naming the pattern text inside an optional matcher.
pub open spec fn pattern_text_of(compiled: Option<Seq<char>>) -> Seq<char> {
    match compiled {
        Some(p) => p,
        None => Seq::empty(),
    }
}

/// Recompiling from the unset state yields a well-formed pattern.
proof fn lemma_recompiled_wf_unset(arg: Option<Seq<char>>)
    ensures
        filter_pattern_wf(seeded_pattern(arg)),
{
}

/// The seed text of an argument as a character buffer.
fn seed_text(arg: Option<Vec<char>>) -> (r: Vec<char>)
    ensures
        r@ == seeded_text(arg.deep_view()),
{
    match arg {
        Some(t) => t,
        None => placeholder_text(),
    }
}

/// The seeded filter pattern of an argument.
fn seed_pattern(arg: Option<Vec<char>>) -> (r: FilterPattern)
    ensures
        r@ == seeded_pattern(arg.deep_view()),
{
    let text = seed_text(arg);
    let p = FilterPattern::unset();
    proof {
        assert(p@ =~= unset_pattern());
    }
    p.set_text(text)
}

/// Of all fetch results pending at a tick, keep only the most recently
/// enqueued one; the earlier ones are discarded unseen.
pub fn drain_latest(pending: Vec<FetchResult>) -> (r: Option<FetchResult>)
    ensures
        r == latest_result_spec(pending@),
{
    let mut p = pending;
    p.pop()
}

} // verus!
