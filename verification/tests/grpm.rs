use grpm::args::{split_owner_repo, Args};
use grpm::data::{Asset, Release};
use grpm::filter::{apply_release_pattern, find_asset_from, find_release_from};
use grpm::finder::{first_matching_asset, first_matching_release, AssetFinder, ReleaseFinder};
use grpm::pattern::{CompiledPattern, FilterPattern};
use grpm::poller::{poll_timeout_ms, tick_due, TICK_INTERVAL_MS};
use grpm::session::{
    drain_latest, Action, Event, FetchError, FetchRequest, FetchResult, FieldId, Key, Pane,
    SessionState,
};

fn chars(s: &str) -> Vec<char> {
    s.chars().collect()
}

fn text(v: &Vec<char>) -> String {
    v.iter().collect()
}

fn asset(id: u64, name: &str) -> Asset {
    Asset {
        id,
        name: name.to_owned(),
        label: None,
        download_url: format!("https://example.invalid/{}", name),
    }
}

fn release(tag: &str, assets: Vec<Asset>) -> Release {
    Release {
        tag: tag.to_owned(),
        display_name: Some(tag.to_owned()),
        published_at: 0,
        body: Some(format!("notes for {}", tag)),
        assets,
    }
}

fn tags(rels: &Vec<Release>) -> Vec<String> {
    rels.iter().map(|r| r.tag.clone()).collect()
}

fn compile(s: &str) -> CompiledPattern {
    CompiledPattern::compile(chars(s)).ok().expect("pattern should compile")
}

// ---- pattern compilation ----

#[test]
fn compile_rejects_unbalanced_paren() {
    assert!(CompiledPattern::compile(chars("(")).is_err());
}

#[test]
fn compile_accepts_anchored_pattern_and_matches() {
    let p = compile("^v2");
    assert!(p.matches("v2.0"));
    assert!(!p.matches("v1.0"));
    // not a plain substring check: the anchor is honoured
    assert!(!p.matches("av2.0"));
}

#[test]
fn filter_pattern_set_text_tracks_validity() {
    let p = FilterPattern::unset();
    assert!(p.is_valid());
    assert!(!p.is_applied());
    let p = p.set_text(chars("^v[0-9]"));
    assert!(p.is_valid());
    assert!(p.is_applied());
    let p = p.set_text(chars("^v[0-9"));
    assert!(!p.is_valid());
    // the previous matcher is kept, the raw text is the new one
    assert!(p.is_applied());
    assert_eq!(text(p.raw_text()), "^v[0-9");
}

// ---- filtering ----

#[test]
fn find_release_from_keeps_matches_in_order() {
    let rels = vec![
        release("v2.0", vec![]),
        release("v1.0", vec![]),
        release("v2.1", vec![]),
    ];
    let out = find_release_from(&compile("^v2"), &rels);
    assert_eq!(tags(&out), vec!["v2.0".to_owned(), "v2.1".to_owned()]);
}

#[test]
fn find_asset_from_matches_on_name() {
    let assets = vec![
        asset(1, "tool-linux.tar.gz"),
        asset(2, "tool-macos.zip"),
        asset(3, "tool-linux.deb"),
    ];
    let out = find_asset_from(&compile("linux"), &assets);
    let names: Vec<String> = out.iter().map(|a| a.name.clone()).collect();
    assert_eq!(names, vec!["tool-linux.tar.gz".to_owned(), "tool-linux.deb".to_owned()]);
}

#[test]
fn unset_pattern_applies_as_identity() {
    let rels = vec![release("v2.0", vec![]), release("v1.0", vec![])];
    let p = FilterPattern::unset();
    let out = apply_release_pattern(&p, &rels);
    assert_eq!(tags(&out), tags(&rels));
}

#[test]
fn empty_text_pattern_applies_as_identity() {
    let rels = vec![release("v2.0", vec![]), release("v1.0", vec![])];
    let p = FilterPattern::unset().set_text(chars(""));
    let out = apply_release_pattern(&p, &rels);
    assert_eq!(tags(&out), tags(&rels));
}

#[test]
fn filtering_twice_equals_filtering_once() {
    let rels = vec![
        release("v2.0", vec![]),
        release("v1.0", vec![]),
        release("v2.1", vec![]),
    ];
    let re = compile("^v2");
    let once = find_release_from(&re, &rels);
    let twice = find_release_from(&re, &once);
    assert_eq!(tags(&once), tags(&twice));
}

// ---- session scenarios ----

fn fresh_session() -> SessionState {
    let (s, req) = SessionState::new(None, None, None, None);
    assert!(req.is_none());
    s
}

fn type_text(mut s: SessionState, t: &str) -> SessionState {
    for c in t.chars() {
        let (next, action) = s.on_key(Key::Char(c));
        assert!(matches!(action, Action::Continue));
        s = next;
    }
    s
}

fn loaded_session(tags: &[&str]) -> SessionState {
    let s = fresh_session();
    let rels = tags.iter().map(|t| release(t, vec![])).collect();
    s.on_tick(Some(FetchResult::Releases(rels)))
}

#[test]
fn confirm_sends_fetch_request_and_result_loads() {
    let (s, req) = SessionState::new(Some(chars("octocat")), Some(chars("hello-world")), None, None);
    match req {
        Some(FetchRequest::ListReleases(owner, repo)) => {
            assert_eq!(text(&owner), "octocat");
            assert_eq!(text(&repo), "hello-world");
        }
        None => panic!("a fetch should be requested when owner and repo are given"),
    }
    // pressing enter on the owner field requests the same fetch again
    let (s, action) = s.on_key(Key::Enter);
    match action {
        Action::Fetch(FetchRequest::ListReleases(owner, repo)) => {
            assert_eq!(text(&owner), "octocat");
            assert_eq!(text(&repo), "hello-world");
        }
        _ => panic!("enter on the owner field should request a fetch"),
    }
    // once the result arrives, the lists and cursors are reset
    let rels = vec![release("v2.0", vec![]), release("v1.0", vec![])];
    let s = s.on_tick(Some(FetchResult::Releases(rels)));
    assert_eq!(tags(s.all_releases()), vec!["v2.0".to_owned(), "v1.0".to_owned()]);
    assert_eq!(tags(s.filtered_releases()), tags(s.all_releases()));
    assert_eq!(s.selected_release_index(), 0);
}

#[test]
fn typing_pattern_narrows_and_resets_cursor() {
    let s = loaded_session(&["v2.0", "v1.0"]);
    // move focus to the release-pattern field (down from owner)
    let (s, _) = s.on_key(Key::Down);
    assert_eq!(s.focused(), FieldId::ReleasePattern);
    // clear the placeholder, then type the pattern
    let (s, _) = s.on_key(Key::Backspace);
    let s = type_text(s, "^v2");
    assert_eq!(text(s.release_pattern().raw_text()), "^v2");
    assert_eq!(tags(s.filtered_releases()), vec!["v2.0".to_owned()]);
    assert_eq!(s.selected_release_index(), 0);
    assert_eq!(s.selected_asset_index(), 0);
}

#[test]
fn invalid_pattern_keeps_previous_filtering() {
    let s = loaded_session(&["v2.0", "v1.0"]);
    let (s, _) = s.on_key(Key::Down);
    let (s, _) = s.on_key(Key::Backspace);
    let before = tags(s.filtered_releases());
    let (s, action) = s.on_key(Key::Char('('));
    // the session goes on, the raw text shows the bad pattern, the
    // filtered list is unchanged from before the keystroke
    assert!(matches!(action, Action::Continue));
    assert!(!s.release_pattern().is_valid());
    assert_eq!(text(s.release_pattern().raw_text()), "(");
    assert_eq!(tags(s.filtered_releases()), before);
}

#[test]
fn pattern_matching_nothing_empties_the_list_and_pins_the_cursor() {
    let s = loaded_session(&["v2.0", "v1.0"]);
    let (s, _) = s.on_key(Key::Down);
    let (s, _) = s.on_key(Key::Backspace);
    let s = type_text(s, "^v9");
    assert!(s.filtered_releases().is_empty());
    assert_eq!(s.selected_release_index(), 0);
    assert_eq!(s.selected_asset_index(), 0);
}

#[test]
fn enter_on_pattern_field_forces_recompilation() {
    let s = loaded_session(&["v2.0", "v1.0"]);
    let (s, _) = s.on_key(Key::Down);
    let (s, _) = s.on_key(Key::Backspace);
    let s = type_text(s, "^v2(");
    assert!(!s.release_pattern().is_valid());
    // confirming the still-broken text recompiles it and it stays invalid
    let (s, action) = s.on_key(Key::Enter);
    assert!(matches!(action, Action::Continue));
    assert!(!s.release_pattern().is_valid());
    // fixing the text and confirming applies it
    let s = type_text(s, ")");
    let (s, _) = s.on_key(Key::Enter);
    assert!(s.release_pattern().is_valid());
    assert_eq!(tags(s.filtered_releases()), vec!["v2.0".to_owned()]);
}

#[test]
fn last_write_wins_on_tick() {
    let s = fresh_session();
    let first = FetchResult::Releases(vec![release("v1.0", vec![])]);
    let second = FetchResult::Releases(vec![release("v2.0", vec![])]);
    let (s, action) = s.on_event(Event::Tick, vec![first, second]);
    assert!(matches!(action, Action::Continue));
    assert_eq!(tags(s.all_releases()), vec!["v2.0".to_owned()]);
}

#[test]
fn drain_latest_keeps_only_newest() {
    assert!(drain_latest(vec![]).is_none());
    let pending = vec![
        FetchResult::Releases(vec![release("v1.0", vec![])]),
        FetchResult::Releases(vec![release("v2.0", vec![])]),
    ];
    match drain_latest(pending) {
        Some(FetchResult::Releases(rels)) => assert_eq!(tags(&rels), vec!["v2.0".to_owned()]),
        _ => panic!("the newest pending result should be kept"),
    }
}

#[test]
fn fetch_failure_is_surfaced_and_cleared() {
    let s = loaded_session(&["v1.0"]);
    let s = s.on_tick(Some(FetchResult::Failed(FetchError {
        message: "network unreachable".to_owned(),
    })));
    // the failure is recorded, the lists stay as they were
    assert!(s.last_error().is_some());
    assert_eq!(tags(s.all_releases()), vec!["v1.0".to_owned()]);
    let s = s.on_tick(Some(FetchResult::Releases(vec![release("v2.0", vec![])])));
    assert!(s.last_error().is_none());
    assert_eq!(tags(s.all_releases()), vec!["v2.0".to_owned()]);
}

#[test]
fn quit_key_quits() {
    let s = fresh_session();
    let (_, action) = s.on_key(Key::Char('q'));
    assert!(matches!(action, Action::Quit));
}

#[test]
fn focus_moves_saturate() {
    let s = fresh_session();
    assert_eq!(s.focused(), FieldId::Owner);
    let (s, _) = s.on_key(Key::Left);
    assert_eq!(s.focused(), FieldId::Owner);
    let (s, _) = s.on_key(Key::Right);
    assert_eq!(s.focused(), FieldId::Repo);
    let (s, _) = s.on_key(Key::Tab);
    assert_eq!(s.focused(), FieldId::ReleasePattern);
    let (s, _) = s.on_key(Key::Right);
    assert_eq!(s.focused(), FieldId::AssetPattern);
    let (s, _) = s.on_key(Key::Right);
    assert_eq!(s.focused(), FieldId::AssetPattern);
    let (s, _) = s.on_key(Key::Up);
    assert_eq!(s.focused(), FieldId::Repo);
    let (s, _) = s.on_key(Key::Down);
    assert_eq!(s.focused(), FieldId::AssetPattern);
}

#[test]
fn backspace_restores_placeholder_when_field_empties() {
    let (s, _) = SessionState::new(Some(chars("a")), None, None, None);
    let (s, _) = s.on_key(Key::Backspace);
    assert_eq!(text(s.owner_text()), ".*");
    // backspace on the placeholder clears the whole field
    let (s, _) = s.on_key(Key::Backspace);
    assert_eq!(text(s.owner_text()), "");
}

#[test]
fn seeded_patterns_are_applied_from_the_start() {
    let (s, _) = SessionState::new(None, None, Some(chars("^v2")), None);
    let s = s.on_tick(Some(FetchResult::Releases(vec![
        release("v2.0", vec![]),
        release("v1.0", vec![]),
    ])));
    assert_eq!(tags(s.filtered_releases()), vec!["v2.0".to_owned()]);
}

#[test]
fn selecting_a_release_scopes_the_assets() {
    let s = fresh_session();
    let rels = vec![
        release("v2.0", vec![asset(1, "two-linux.tar.gz"), asset(2, "two-macos.zip")]),
        release("v1.0", vec![asset(3, "one-linux.tar.gz")]),
    ];
    let s = s.on_tick(Some(FetchResult::Releases(rels)));
    assert_eq!(s.filtered_assets().len(), 2);
    let s = s.select_release(1);
    assert_eq!(s.selected_release_index(), 1);
    assert_eq!(s.selected_asset_index(), 0);
    let names: Vec<String> = s.filtered_assets().iter().map(|a| a.name.clone()).collect();
    assert_eq!(names, vec!["one-linux.tar.gz".to_owned()]);
    // an out-of-range row is ignored
    let s = s.select_release(7);
    assert_eq!(s.selected_release_index(), 1);
}

#[test]
fn selecting_assets_and_pane() {
    let s = fresh_session();
    let rels = vec![release("v1.0", vec![asset(1, "a.zip"), asset(2, "b.zip")])];
    let s = s.on_tick(Some(FetchResult::Releases(rels)));
    assert_eq!(s.pane(), Pane::Releases);
    let s = s.select_pane(Pane::Assets);
    assert_eq!(s.pane(), Pane::Assets);
    let s = s.select_asset(1);
    assert_eq!(s.selected_asset_index(), 1);
    let s = s.select_asset(9);
    assert_eq!(s.selected_asset_index(), 1);
}

#[test]
fn typing_asset_pattern_narrows_assets() {
    let s = fresh_session();
    let rels = vec![release(
        "v1.0",
        vec![asset(1, "tool-linux.tar.gz"), asset(2, "tool-macos.zip")],
    )];
    let s = s.on_tick(Some(FetchResult::Releases(rels)));
    // focus the asset-pattern field: right then down
    let (s, _) = s.on_key(Key::Right);
    let (s, _) = s.on_key(Key::Down);
    assert_eq!(s.focused(), FieldId::AssetPattern);
    let (s, _) = s.on_key(Key::Backspace);
    let s = type_text(s, "macos");
    let names: Vec<String> = s.filtered_assets().iter().map(|a| a.name.clone()).collect();
    assert_eq!(names, vec!["tool-macos.zip".to_owned()]);
}

// ---- finders ----

#[test]
fn release_finder_latest_takes_first() {
    let rels = vec![release("v2.0", vec![]), release("v1.0", vec![])];
    let out = ReleaseFinder::Latest.find_from(&rels);
    assert_eq!(tags(&out), vec!["v2.0".to_owned()]);
}

#[test]
fn release_finder_by_tag_matches_exactly() {
    let rels = vec![
        release("v2.0", vec![]),
        release("v1.0", vec![]),
        release("v2.0-rc1", vec![]),
    ];
    let out = ReleaseFinder::ByTag("v2.0".to_owned()).find_from(&rels);
    assert_eq!(tags(&out), vec!["v2.0".to_owned()]);
}

#[test]
fn release_finder_by_regex_filters() {
    let rels = vec![release("v2.0", vec![]), release("v1.0", vec![])];
    let out = ReleaseFinder::ByRegex(compile("1")).find_from(&rels);
    assert_eq!(tags(&out), vec!["v1.0".to_owned()]);
}

#[test]
fn release_finder_default_is_latest() {
    assert!(matches!(ReleaseFinder::default(), ReleaseFinder::Latest));
}

#[test]
fn first_matching_asset_takes_first_in_order() {
    let assets = vec![
        asset(1, "tool-macos.zip"),
        asset(2, "tool-linux.tar.gz"),
        asset(3, "tool-linux.deb"),
    ];
    let found = first_matching_asset(&compile("linux"), &assets).expect("should match");
    assert_eq!(found.name, "tool-linux.tar.gz");
    assert!(first_matching_asset(&compile("windows"), &assets).is_none());
}

#[test]
fn first_matching_release_takes_first_in_order() {
    let rels = vec![
        release("v2.0", vec![]),
        release("v1.0", vec![]),
        release("v1.1", vec![]),
    ];
    let found = first_matching_release(&compile("^v1"), &rels).expect("should match");
    assert_eq!(found.tag, "v1.0");
    assert!(first_matching_release(&compile("^v9"), &rels).is_none());
}

#[test]
fn asset_finder_holds_its_parts() {
    // the enum itself is plain data; its network half lives with the caller
    match AssetFinder::ById(42) {
        AssetFinder::ById(id) => assert_eq!(id, 42),
        _ => unreachable!(),
    }
}

// ---- command line ----

#[test]
fn args_default_opens_the_session() {
    let a = Args::default();
    assert_eq!(a.command, "tui");
    assert!(a.owner.is_none());
    assert!(a.repo.is_none());
    assert!(a.release.is_none());
    assert!(a.asset.is_none());
    assert!(a.install.is_none());
}

#[test]
fn split_owner_repo_splits_at_first_slash() {
    let r = split_owner_repo(&chars("octocat/hello-world")).expect("has a slash");
    assert_eq!(text(&r.0), "octocat");
    assert_eq!(text(&r.1), "hello-world");
    let r = split_owner_repo(&chars("a/b/c")).expect("has a slash");
    assert_eq!(text(&r.0), "a");
    assert_eq!(text(&r.1), "b/c");
    assert!(split_owner_repo(&chars("octocat")).is_none());
}

// ---- poller timing ----

#[test]
fn poll_timeout_counts_down_to_zero() {
    assert_eq!(TICK_INTERVAL_MS, 16);
    assert_eq!(poll_timeout_ms(16, 5), 11);
    assert_eq!(poll_timeout_ms(16, 16), 0);
    assert_eq!(poll_timeout_ms(16, 40), 0);
    assert!(!tick_due(16, 15));
    assert!(tick_due(16, 16));
}
