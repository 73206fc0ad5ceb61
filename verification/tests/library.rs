use youtube_desktop::clock::unix_timestamp;
use youtube_desktop::display::DisplayState;
use youtube_desktop::history::{record_visit, HISTORY_LIMIT};
use youtube_desktop::items::{Bookmark, HistoryItem, QueueItem, SavedSession, TabInfo};
use youtube_desktop::media::MediaAction;
use youtube_desktop::profiles::{
    contains_profile, profile_dir_name, registry_is_valid, validate_profile_name, ProfileError,
};
use youtube_desktop::queue::{move_by, remove_at, take_at};
use youtube_desktop::scripts::{
    handler_command, navigation_script, queue_navigation_script, tab_label_script,
};
use youtube_desktop::state::{ProfileSwitch, TabsState};
use youtube_desktop::tabs::{find_tab, restore_url, session_restore_urls, tab_label};
use youtube_desktop::text::{eq_ignore_ascii_case, is_blank, starts_with, str_eq, trim};

fn s(x: &str) -> String {
    x.to_string()
}

fn visit(url: &str, at: u64) -> HistoryItem {
    HistoryItem { title: s("t"), url: s(url), visited_at: at }
}

fn urls(h: &[HistoryItem]) -> Vec<String> {
    h.iter().map(|i| i.url.clone()).collect()
}

fn queue_urls(q: &[QueueItem]) -> Vec<String> {
    q.iter().map(|i| i.url.clone()).collect()
}

fn labels(t: &[TabInfo]) -> Vec<String> {
    t.iter().map(|i| i.label.clone()).collect()
}

// ----- text -----

#[test]
fn prefix_checks() {
    assert!(starts_with("https://www.youtube.com/watch", "https://www.youtube.com/"));
    assert!(!starts_with("https://youtube.com/", "https://www.youtube.com/"));
    assert!(starts_with("abc", ""));
    assert!(!starts_with("ab", "abc"));
}

#[test]
fn trimming_removes_unicode_whitespace() {
    assert_eq!(trim("  hello world \t\n"), "hello world");
    assert_eq!(trim("\u{3000}\u{a0}x\u{2009}"), "x");
    assert_eq!(trim("   "), "");
    assert!(is_blank(" \u{2028} "));
    assert!(is_blank(""));
    assert!(!is_blank(" a "));
}

#[test]
fn string_comparisons() {
    assert!(str_eq("Work", "Work"));
    assert!(!str_eq("Work", "work"));
    assert!(eq_ignore_ascii_case("Work", "wORK"));
    assert!(!eq_ignore_ascii_case("Work", "Works"));
    assert!(!eq_ignore_ascii_case("é", "É"));
}

// ----- history -----

#[test]
fn history_records_youtube_pages_first() {
    let mut h = vec![visit("https://www.youtube.com/a", 1), visit("https://www.youtube.com/b", 2)];
    let recorded = record_visit(&mut h, s("https://www.youtube.com/b"), s("B"), 9);
    assert!(recorded);
    assert_eq!(urls(&h), vec![s("https://www.youtube.com/b"), s("https://www.youtube.com/a")]);
    assert_eq!(h[0].title, "B");
    assert_eq!(h[0].visited_at, 9);
}

#[test]
fn history_ignores_other_sites() {
    let mut h = vec![visit("https://www.youtube.com/a", 1)];
    assert!(!record_visit(&mut h, s("https://example.com/"), s("x"), 5));
    assert!(!record_visit(&mut h, s("https://youtube.com/watch"), s("x"), 5));
    assert_eq!(urls(&h), vec![s("https://www.youtube.com/a")]);
}

#[test]
fn history_is_capped() {
    let mut h: Vec<HistoryItem> =
        (0..HISTORY_LIMIT).map(|i| visit(&format!("https://www.youtube.com/{}", i), i as u64)).collect();
    assert!(record_visit(&mut h, s("https://www.youtube.com/new"), s("n"), 1000));
    assert_eq!(h.len(), 500);
    assert_eq!(h[0].url, "https://www.youtube.com/new");
    assert_eq!(h[499].url, "https://www.youtube.com/498");
}

#[test]
fn revisiting_replaces_the_earlier_entry() {
    let mut once = vec![visit("https://www.youtube.com/a", 1), visit("https://www.youtube.com/b", 2)];
    let mut twice = once.clone();
    record_visit(&mut once, s("https://www.youtube.com/b"), s("second"), 20);
    record_visit(&mut twice, s("https://www.youtube.com/b"), s("first"), 10);
    record_visit(&mut twice, s("https://www.youtube.com/b"), s("second"), 20);
    assert_eq!(urls(&once), urls(&twice));
    assert_eq!(twice[0].title, "second");
    assert_eq!(twice[0].visited_at, 20);
}

// ----- queue -----

#[test]
fn queue_edits() {
    let mut q: Vec<u32> = vec![1, 2, 3, 4];
    remove_at(&mut q, 9);
    assert_eq!(q, vec![1, 2, 3, 4]);
    remove_at(&mut q, 1);
    assert_eq!(q, vec![1, 3, 4]);
    assert_eq!(take_at(&mut q, 5), None);
    assert_eq!(take_at(&mut q, 0), Some(1));
    assert_eq!(q, vec![3, 4]);
}

#[test]
fn queue_moves() {
    let mut q: Vec<u32> = vec![1, 2, 3, 4];
    move_by(&mut q, 0, 2);
    assert_eq!(q, vec![3, 2, 1, 4]);
    move_by(&mut q, 2, -2);
    assert_eq!(q, vec![1, 2, 3, 4]);
    move_by(&mut q, 0, -1);
    assert_eq!(q, vec![1, 2, 3, 4]);
    move_by(&mut q, 3, 1);
    assert_eq!(q, vec![1, 2, 3, 4]);
    move_by(&mut q, 7, -5);
    assert_eq!(q, vec![1, 2, 3, 4]);
    move_by(&mut q, 1, 0);
    assert_eq!(q, vec![1, 2, 3, 4]);
}

#[test]
fn state_queue_commands() {
    let mut st = TabsState::default();
    st.queue_add(s("https://www.youtube.com/1"), s("one"));
    st.queue_add(s("https://www.youtube.com/2"), s("two"));
    st.queue_add(s("https://www.youtube.com/3"), s("three"));
    st.queue_move(2, -1);
    assert_eq!(
        queue_urls(&st.queue),
        vec![s("https://www.youtube.com/1"), s("https://www.youtube.com/3"), s("https://www.youtube.com/2")]
    );
    let first = st.queue_take(0).unwrap();
    assert_eq!(first.title, "one");
    assert!(st.queue_take(5).is_none());
    st.queue_remove(1);
    assert_eq!(queue_urls(&st.queue), vec![s("https://www.youtube.com/3")]);
    st.queue_clear();
    assert!(st.queue.is_empty());
}

// ----- bookmarks -----

#[test]
fn bookmarks_newest_first() {
    let mut st = TabsState::default();
    st.bookmark_add(s("https://www.youtube.com/a"), s("A"), 12.5f64.to_bits(), 100);
    st.bookmark_add(s("https://www.youtube.com/b"), s("B"), 3.0f64.to_bits(), 200);
    assert_eq!(st.bookmarks[0].url, "https://www.youtube.com/b");
    assert_eq!(f64::from_bits(st.bookmarks[1].timestamp_bits), 12.5);
    assert_eq!(st.bookmarks[1].created_at, 100);
    st.bookmark_remove(7);
    assert_eq!(st.bookmarks.len(), 2);
    st.bookmark_remove(0);
    assert_eq!(st.bookmarks.len(), 1);
    assert_eq!(st.bookmarks[0].title, "A");
}

#[test]
fn library_replacement() {
    let mut st = TabsState::default();
    st.replace_library(
        vec![visit("https://www.youtube.com/x", 1)],
        vec![Bookmark { title: s("b"), url: s("u"), timestamp_bits: 0, created_at: 3 }],
    );
    assert_eq!(st.history.len(), 1);
    assert_eq!(st.bookmarks[0].created_at, 3);
}

// ----- tabs -----

#[test]
fn tab_labels_count_up() {
    assert_eq!(tab_label(0), "tab-0");
    assert_eq!(tab_label(7), "tab-7");
    assert_eq!(tab_label(10), "tab-10");
    assert_eq!(tab_label(4294967295), "tab-4294967295");
    let mut st = TabsState::default();
    assert_eq!(st.next_tab_label(), "tab-1");
    assert_eq!(st.next_tab_label(), "tab-2");
    assert_eq!(st.counter, 2);
}

#[test]
fn registering_a_tab() {
    let mut st = TabsState::default();
    let label = st.next_tab_label();
    assert!(st.register_tab(label.clone(), s("https://www.youtube.com/"), 42));
    assert_eq!(st.tabs.len(), 1);
    assert_eq!(st.tabs[0].title, "YouTube");
    assert_eq!(st.active.as_deref(), Some("tab-1"));
    assert_eq!(st.history[0].url, "https://www.youtube.com/");
    assert_eq!(st.history[0].title, "YouTube");
    assert_eq!(st.history[0].visited_at, 42);
    assert!(!st.register_tab(s("tab-9"), s("https://example.org/"), 43));
    assert_eq!(st.history.len(), 1);
    assert_eq!(st.active.as_deref(), Some("tab-9"));
}

fn three_tabs() -> TabsState {
    let mut st = TabsState::default();
    for url in ["https://www.youtube.com/1", "https://www.youtube.com/2", "https://www.youtube.com/3"] {
        let label = st.next_tab_label();
        st.register_tab(label, s(url), 1);
    }
    st
}

#[test]
fn closing_the_active_tab_activates_the_last() {
    let mut st = three_tabs();
    st.switch_to("tab-2");
    assert_eq!(st.close_tab("tab-2"), Some(s("tab-3")));
    assert_eq!(labels(&st.tabs), vec![s("tab-1"), s("tab-3")]);
    assert_eq!(st.active.as_deref(), Some("tab-3"));
}

#[test]
fn closing_another_tab_keeps_the_active_one() {
    let mut st = three_tabs();
    assert_eq!(st.close_tab("tab-1"), None);
    assert_eq!(labels(&st.tabs), vec![s("tab-2"), s("tab-3")]);
    assert_eq!(st.active.as_deref(), Some("tab-3"));
    assert_eq!(st.close_tab("tab-none"), None);
    assert_eq!(st.tabs.len(), 2);
}

#[test]
fn closing_the_last_tab_leaves_nothing_active() {
    let mut st = TabsState::default();
    let label = st.next_tab_label();
    st.register_tab(label, s("https://www.youtube.com/"), 1);
    assert_eq!(st.close_tab("tab-1"), None);
    assert!(st.tabs.is_empty());
    assert!(st.active.is_none());
}

#[test]
fn tab_visibility_shows_only_the_chosen_tab() {
    let st = three_tabs();
    assert_eq!(st.tab_visibility("tab-2"), vec![false, true, false]);
    assert_eq!(st.tab_labels(), vec![s("tab-1"), s("tab-2"), s("tab-3")]);
}

#[test]
fn navigation_updates_the_tab_and_history() {
    let mut st = three_tabs();
    assert_eq!(st.tab_navigated("tab-x", s("https://www.youtube.com/z"), s("Z"), 5), None);
    let r = st.tab_navigated("tab-1", s("https://www.youtube.com/watch?v=1"), s("Video"), 50);
    assert_eq!(r, Some(true));
    assert_eq!(st.tabs[0].url, "https://www.youtube.com/watch?v=1");
    assert_eq!(st.tabs[0].title, "Video");
    assert_eq!(st.history[0].url, "https://www.youtube.com/watch?v=1");
    assert_eq!(st.history[0].visited_at, 50);
    // Same address with a blank title: nothing recorded, title kept.
    let before = st.history.len();
    assert_eq!(st.tab_navigated("tab-1", s("https://www.youtube.com/watch?v=1"), s("  "), 60), Some(false));
    assert_eq!(st.tabs[0].title, "Video");
    assert_eq!(st.history.len(), before);
    // Leaving YouTube changes the tab but not the history.
    assert_eq!(st.tab_navigated("tab-2", s("https://accounts.google.com/"), s("Sign in"), 70), Some(false));
    assert_eq!(st.tabs[1].url, "https://accounts.google.com/");
    assert_eq!(st.history.len(), before);
}

#[test]
fn finding_tabs() {
    let st = three_tabs();
    assert_eq!(find_tab(&st.tabs, "tab-3"), Some(2));
    assert_eq!(find_tab(&st.tabs, "tab-4"), None);
}

// ----- sessions -----

#[test]
fn session_round_trip() {
    let mut st = three_tabs();
    st.switch_to("tab-2");
    let session = st.session_snapshot();
    assert_eq!(session.active_index, Some(1));
    assert_eq!(labels(&session.tabs), vec![s("tab-1"), s("tab-2"), s("tab-3")]);
    assert_eq!(st.restored_active_label(session.active_index), Some(s("tab-2")));
    assert_eq!(st.restored_active_label(Some(3)), None);
    assert_eq!(st.restored_active_label(None), None);
    st.switch_to("gone");
    assert_eq!(st.session_active_index(), None);
}

#[test]
fn saved_titles_are_applied_by_position() {
    let mut st = three_tabs();
    let saved = vec![
        TabInfo { label: s("old-1"), title: s("First"), url: s("u") },
        TabInfo { label: s("old-2"), title: s("Second"), url: s("u") },
    ];
    st.apply_saved_titles(&saved);
    assert_eq!(st.tabs[0].title, "First");
    assert_eq!(st.tabs[1].title, "Second");
    assert_eq!(st.tabs[2].title, "YouTube");
    assert_eq!(st.tabs[0].label, "tab-1");
}

#[test]
fn restored_addresses() {
    assert_eq!(restore_url("https://www.youtube.com/x"), "https://www.youtube.com/x");
    assert_eq!(restore_url("http://example.com"), "http://example.com");
    assert_eq!(restore_url("javascript:alert(1)"), "https://www.youtube.com/");
    assert_eq!(restore_url(""), "https://www.youtube.com/");
}

// ----- profiles -----

#[test]
fn default_profiles() {
    let st = TabsState::default();
    assert_eq!(st.profiles, vec![s("Personal"), s("Work"), s("Study")]);
    assert_eq!(st.active_profile, "Personal");
    assert_eq!(st.counter, 0);
    assert!(st.tabs.is_empty() && st.queue.is_empty() && st.active.is_none());
    assert_eq!(st.display, DisplayState::new());
}

#[test]
fn profile_directory_names() {
    assert_eq!(profile_dir_name("Work"), "Work");
    assert_eq!(profile_dir_name("My Profile-1_x"), "MyProfile-1_x");
    assert_eq!(profile_dir_name("../.."), "Personal");
    assert_eq!(profile_dir_name(""), "Personal");
    assert_eq!(profile_dir_name("é!"), "Personal");
}

#[test]
fn profile_name_validation() {
    assert_eq!(validate_profile_name("  Gaming  "), Ok(s("Gaming")));
    assert_eq!(validate_profile_name("a b-c_d"), Ok(s("a b-c_d")));
    assert_eq!(validate_profile_name("   "), Err(ProfileError::InvalidName));
    assert_eq!(validate_profile_name("bad/name"), Err(ProfileError::InvalidName));
    assert_eq!(validate_profile_name(&"x".repeat(32)), Ok("x".repeat(32)));
    assert_eq!(validate_profile_name(&"x".repeat(33)), Err(ProfileError::InvalidName));
    assert_eq!(validate_profile_name("café"), Err(ProfileError::InvalidName));
    assert_eq!(
        ProfileError::InvalidName.message(),
        "Use 1\u{2013}32 letters, numbers, spaces, hyphens, or underscores."
    );
    assert_eq!(ProfileError::UnknownProfile.message(), "unknown profile");
}

#[test]
fn selecting_profiles() {
    let mut st = three_tabs();
    st.queue_add(s("q"), s("q"));
    assert!(matches!(st.select_profile("Nope"), Err(ProfileError::UnknownProfile)));
    assert!(matches!(st.select_profile("Personal"), Ok(ProfileSwitch::AlreadyActive)));
    assert_eq!(st.tabs.len(), 3);
    match st.select_profile("Work") {
        Ok(ProfileSwitch::Switched { closed_tabs }) => {
            assert_eq!(closed_tabs, vec![s("tab-1"), s("tab-2"), s("tab-3")])
        }
        _ => panic!("expected a switch"),
    }
    assert!(st.tabs.is_empty() && st.queue.is_empty() && st.active.is_none());
    assert_eq!(st.active_profile, "Work");
    assert_eq!(st.counter, 3);
}

#[test]
fn creating_profiles() {
    let mut st = TabsState::default();
    assert!(matches!(st.create_profile("  Gaming "), Ok(ProfileSwitch::Switched { .. })));
    assert_eq!(st.profiles.last().map(String::as_str), Some("Gaming"));
    assert_eq!(st.active_profile, "Gaming");
    assert!(matches!(st.create_profile("!!"), Err(ProfileError::InvalidName)));
    // An existing name in other case is not added, and is then unknown as typed.
    assert!(matches!(st.create_profile("work"), Err(ProfileError::UnknownProfile)));
    assert_eq!(st.profiles.len(), 4);
    assert!(matches!(st.create_profile("Work"), Ok(ProfileSwitch::Switched { .. })));
    assert!(matches!(st.create_profile("Work"), Ok(ProfileSwitch::AlreadyActive)));
    assert_eq!(st.profiles.len(), 4);
}

#[test]
fn saved_registry_validation() {
    let mut st = TabsState::default();
    assert!(!registry_is_valid(&vec![], "Personal"));
    assert!(!st.adopt_registry(vec![s("A"), s("B")], s("C")));
    assert_eq!(st.active_profile, "Personal");
    assert!(st.adopt_registry(vec![s("A"), s("B")], s("B")));
    assert_eq!(st.profiles, vec![s("A"), s("B")]);
    assert_eq!(st.active_profile, "B");
    assert!(contains_profile(&st.profiles, "A"));
    assert!(!contains_profile(&st.profiles, "a"));
}

// ----- display -----

#[test]
fn page_fullscreen_hides_the_titlebar() {
    let mut d = DisplayState::new();
    assert!(d.webview_fullscreen_changed(true, true));
    assert!(d.player_fullscreen && !d.content_fullscreen && d.titlebar_hidden);
    assert!(!d.webview_fullscreen_changed(true, false));
    assert!(!d.player_fullscreen && d.content_fullscreen && d.titlebar_hidden);
    assert!(d.webview_fullscreen_changed(false, true));
    assert!(!d.player_fullscreen && !d.content_fullscreen && !d.titlebar_hidden);
}

#[test]
fn window_fullscreen_and_pointer() {
    let mut d = DisplayState::new();
    assert!(d.window_fullscreen_set(true));
    assert!(d.window_fullscreen && d.titlebar_hidden);
    assert_eq!(d.pointer_titlebar_decision(true, false), Some(false));
    assert_eq!(d.pointer_titlebar_decision(false, true), None);
    assert_eq!(d.show_titlebar(), Some(true));
    assert!(!d.titlebar_hidden);
    assert_eq!(d.pointer_titlebar_decision(false, true), Some(true));
    assert_eq!(d.pointer_titlebar_decision(true, false), None);
    assert_eq!(d.window_resized(true), None);
    assert_eq!(d.window_resized(false), Some(false));
    assert!(!d.window_fullscreen && !d.titlebar_hidden);
    assert_eq!(d.show_titlebar(), None);
    assert_eq!(d.pointer_titlebar_decision(true, true), None);
}

#[test]
fn player_fullscreen_has_no_chrome() {
    let mut d = DisplayState::new();
    d.window_fullscreen_set(true);
    d.webview_fullscreen_changed(true, true);
    assert_eq!(d.show_titlebar(), None);
    assert!(d.titlebar_hidden);
    assert_eq!(d.pointer_titlebar_decision(true, true), None);
}

#[test]
fn titlebar_requests() {
    let mut d = DisplayState::new();
    assert!(!d.set_titlebar_hidden(false));
    assert!(d.set_titlebar_hidden(true));
    assert!(!d.set_titlebar_hidden(true));
    assert!(d.titlebar_hidden);
}

// ----- media -----

#[test]
fn media_actions() {
    assert_eq!(MediaAction::parse("toggle"), Some(MediaAction::Toggle));
    assert_eq!(MediaAction::parse("speed_reset"), Some(MediaAction::SpeedReset));
    assert_eq!(MediaAction::parse("Toggle"), None);
    assert_eq!(MediaAction::parse(""), None);
    assert_eq!(MediaAction::SpeedUp.script(), "window.__YTD_PLAYBACK__?.speedUp();");
    assert_eq!(
        MediaAction::Theater.script(),
        "(function(){const b=document.querySelector('.ytp-size-button');if(b)b.click();})();"
    );
    for name in [
        "toggle", "next", "previous", "seek_forward", "seek_backward", "volume_up", "volume_down",
        "mute", "theater", "speed_up", "speed_down", "speed_reset",
    ] {
        assert!(MediaAction::parse(name).is_some(), "{}", name);
    }
}

// ----- scripts -----

#[test]
fn scripts_quote_as_json() {
    assert_eq!(tab_label_script("tab-3"), "window.__YTD_TAB_LABEL__ = \"tab-3\";\n");
    assert_eq!(
        navigation_script("https://www.youtube.com/watch?v=\"x\"\\"),
        Some(s("location.href = \"https://www.youtube.com/watch?v=\\\"x\\\"\\\\\";"))
    );
    assert_eq!(queue_navigation_script("a\nb\u{1}c\u{7f}é"), "location.href = \"a\\nb\\u0001c\u{7f}é\";");
    assert_eq!(queue_navigation_script("\u{8}\u{c}\r\t\u{1f}"), "location.href = \"\\b\\f\\r\\t\\u001f\";");
}

#[test]
fn url_handler_command() {
    assert_eq!(handler_command("C:\\app.exe"), "\"C:\\app.exe\" \"%1\"");
    assert_eq!(handler_command("C:\\Program Files\\YouTube Desktop\\yt.exe"), r#""C:\Program Files\YouTube Desktop\yt.exe" "%1""#);
}

// ----- clock -----

#[test]
fn clock_reads_seconds() {
    let now = unix_timestamp();
    assert!(now > 1_600_000_000);
}

// ----- laws on concrete values -----

#[test]
fn queue_add_then_take_last_restores() {
    let mut st = TabsState::default();
    st.queue_add(s("https://www.youtube.com/1"), s("one"));
    let before = queue_urls(&st.queue);
    st.queue_add(s("https://www.youtube.com/2"), s("two"));
    let taken = st.queue_take(1).unwrap();
    assert_eq!(taken.url, "https://www.youtube.com/2");
    assert_eq!(queue_urls(&st.queue), before);
}

#[test]
fn bookmark_add_then_remove_first_restores() {
    let mut st = TabsState::default();
    st.bookmark_add(s("https://www.youtube.com/a"), s("A"), 0, 1);
    st.bookmark_add(s("https://www.youtube.com/b"), s("B"), 0, 2);
    st.bookmark_remove(0);
    assert_eq!(st.bookmarks.len(), 1);
    assert_eq!(st.bookmarks[0].url, "https://www.youtube.com/a");
}

#[test]
fn history_urls_stay_unique() {
    let mut h = Vec::new();
    for (i, u) in ["a", "b", "a", "c", "b", "a"].iter().enumerate() {
        record_visit(&mut h, format!("https://www.youtube.com/{}", u), s("t"), i as u64);
    }
    assert_eq!(
        urls(&h),
        vec![s("https://www.youtube.com/a"), s("https://www.youtube.com/b"), s("https://www.youtube.com/c")]
    );
    assert_eq!(h[0].visited_at, 5);
}

#[test]
fn opening_and_closing_tabs_keeps_labels_distinct() {
    let mut st = three_tabs();
    st.close_tab("tab-2");
    let label = st.next_tab_label();
    assert_eq!(label, "tab-4");
    assert!(st.tabs.iter().all(|t| t.label != label));
    st.register_tab(label, s("https://www.youtube.com/4"), 9);
    let mut seen = labels(&st.tabs);
    seen.sort();
    seen.dedup();
    assert_eq!(seen.len(), st.tabs.len());
    assert_eq!(labels(&st.tabs), vec![s("tab-1"), s("tab-3"), s("tab-4")]);
}

#[test]
fn default_tab_when_none_is_open() {
    let mut st = TabsState::default();
    assert!(st.needs_default_tab());
    assert_eq!(youtube_desktop::tabs::default_tab_address(), "https://www.youtube.com/");
    let label = st.next_tab_label();
    st.register_tab(label, youtube_desktop::tabs::default_tab_address(), 1);
    assert!(!st.needs_default_tab());
}

#[test]
fn session_restore_addresses() {
    assert_eq!(session_restore_urls(&None), None);
    assert_eq!(session_restore_urls(&Some(SavedSession { tabs: vec![], active_index: None })), None);
    let saved = SavedSession {
        tabs: vec![
            TabInfo { label: s("tab-7"), title: s("A"), url: s("https://www.youtube.com/a") },
            TabInfo { label: s("tab-9"), title: s("B"), url: s("file:///etc/passwd") },
        ],
        active_index: Some(1),
    };
    assert_eq!(
        session_restore_urls(&Some(saved.clone())),
        Some(vec![s("https://www.youtube.com/a"), s("https://www.youtube.com/")])
    );
}

#[test]
fn restored_session_gives_back_tabs() {
    let mut st = three_tabs();
    let saved = st.session_snapshot();
    let mut fresh = TabsState::default();
    for url in youtube_desktop::tabs::session_restore_urls(&Some(saved.clone())).unwrap() {
        let label = fresh.next_tab_label();
        fresh.register_tab(label, url, 2);
    }
    st.tabs[0].title = s("changed");
    fresh.apply_saved_titles(&saved.tabs);
    for (a, b) in fresh.tabs.iter().zip(saved.tabs.iter()) {
        assert_eq!(a.url, b.url);
        assert_eq!(a.title, b.title);
    }
    assert_eq!(fresh.restored_active_label(saved.active_index), Some(s("tab-3")));
}

#[test]
fn timestamps_from_clock_readings() {
    assert_eq!(youtube_desktop::clock::timestamp_from_reading(Some(1_700_000_123)), 1_700_000_123);
    assert_eq!(youtube_desktop::clock::timestamp_from_reading(None), 0);
}

#[test]
fn restoring_without_a_matching_active_tab_keeps_the_last() {
    let mut st = three_tabs();
    st.switch_to("gone");
    let saved = st.session_snapshot();
    assert_eq!(saved.active_index, None);
    let mut fresh = TabsState::default();
    for url in session_restore_urls(&Some(saved.clone())).unwrap() {
        let label = fresh.next_tab_label();
        fresh.register_tab(label, url, 2);
    }
    fresh.apply_saved_titles(&saved.tabs);
    assert_eq!(fresh.restored_active_label(saved.active_index), None);
    assert_eq!(fresh.active.as_deref(), Some("tab-3"));
}
