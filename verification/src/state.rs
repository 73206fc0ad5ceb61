//! The application state: open tabs and the active one, the play queue, the
//! history and bookmarks of the active profile, the profiles, and the
//! fullscreen flags. Each operation here is the decision part of a command;
//! the host performs the window and webview work that the result asks for.
use vstd::prelude::*;
use crate::display::DisplayState;
use crate::history::{history_after_visit, is_youtube_page, record_visit};
use crate::items::{copy_tabs, Bookmark, HistoryItem, QueueItem, SavedSession, TabInfo};
use crate::profiles::{
    contains_profile, contains_profile_ignoring_case, has_profile, has_profile_ignoring_case,
    is_valid_profile_name, is_valid_registry, registry_is_valid, validate_profile_name,
    ProfileError,
};
use crate::queue::{move_by, move_destination, moved, remove_at, removed_at, take_at};
use crate::seqs::{keys_distinct, lemma_filter_contained, lemma_filter_keys_distinct};
use crate::tabs::{is_web_url, restored_url_spec, law_tab_labels_distinct, find_tab, first_tab_with_label, lemma_first_tab_found, tab_label, tab_label_spec};
use crate::text::{eq_ignore_ascii_case_spec, is_blank, trim_spec};

verus! {

/// Everything the application keeps while it runs.
pub struct TabsState {
    /// The open tabs, in the order they were opened.
    pub tabs: Vec<TabInfo>,
    /// Videos waiting to be played, next first.
    pub queue: Vec<QueueItem>,
    /// The active profile's history, most recent first.
    pub history: Vec<HistoryItem>,
    /// The active profile's bookmarks, newest first.
    pub bookmarks: Vec<Bookmark>,
    /// The label of the tab on show.
    pub active: Option<String>,
    /// How many tab labels have been handed out.
    pub counter: u32,
    /// The fullscreen flags and the titlebar.
    pub display: DisplayState,
    /// The names of the profiles.
    pub profiles: Vec<String>,
    /// The name of the profile in use.
    pub active_profile: String,
}

/// What selecting a profile did.
#[derive(Debug)]
pub enum ProfileSwitch {
    /// The profile was already in use; nothing changed.
    AlreadyActive,
    /// The state was emptied for the new profile; the host closes the
    /// webviews of these tabs and loads the profile's data.
    Switched { closed_tabs: Vec<String> },
}

/// The labels of `tabs`, in order.
pub open spec fn labels_of(tabs: Seq<TabInfo>) -> Seq<String> {
    tabs.map_values(|t: TabInfo| t.label)
}

/// Holds when `label` is the active tab's label.
pub open spec fn is_active_label(active: Option<String>, label: Seq<char>) -> bool {
    active matches Some(a) && a@ == label
}

/// Holds of a tab not labelled `label`.
pub open spec fn other_label(label: Seq<char>) -> spec_fn(TabInfo) -> bool {
    |t: TabInfo| t.label@ != label
}

/// The tabs other than those labelled `label`, in order.
pub open spec fn tabs_without(tabs: Seq<TabInfo>, label: Seq<char>) -> Seq<TabInfo> {
    tabs.filter(other_label(label))
}

/// The position saved for the active tab: that of the first tab with its
/// label.
pub open spec fn session_index_spec(tabs: Seq<TabInfo>, active: Option<String>) -> Option<int> {
    match active {
        Some(a) => first_tab_with_label(tabs, a@),
        None => None,
    }
}

/// The label of the tab at a saved position, when the position names a tab.
pub open spec fn restored_label_spec(tabs: Seq<TabInfo>, index: Option<int>) -> Option<Seq<char>> {
    match index {
        Some(i) => if 0 <= i < tabs.len() {
            Some(tabs[i].label@)
        } else {
            None
        },
        None => None,
    }
}

/// `tabs` with the saved titles, position by position, as far as both
/// lists go.
pub open spec fn with_saved_titles(tabs: Seq<TabInfo>, saved: Seq<TabInfo>) -> Seq<TabInfo> {
    Seq::new(
        tabs.len(),
        |i: int|
            TabInfo {
                title: if i < saved.len() {
                    saved[i].title
                } else {
                    tabs[i].title
                },
                ..tabs[i]
            },
    )
}

/// The state after selecting the profile `name` from the state `before`:
/// an unknown name is refused and the profile in use is kept; any other
/// profile empties the tabs, the active tab and the queue and becomes the
/// profile in use. The closed tabs' labels are reported.
pub open spec fn profile_selected(
    before: TabsState,
    after: TabsState,
    name: Seq<char>,
    r: Result<ProfileSwitch, ProfileError>,
) -> bool {
    if !has_profile(before.profiles@, name) {
        r == Err::<ProfileSwitch, ProfileError>(ProfileError::UnknownProfile) && after == before
    } else if before.active_profile@ == name {
        r == Ok::<ProfileSwitch, ProfileError>(ProfileSwitch::AlreadyActive) && after == before
    } else {
        &&& r matches Ok(ProfileSwitch::Switched { closed_tabs }) && closed_tabs@ == labels_of(
            before.tabs@,
        )
        &&& after.tabs@.len() == 0
        &&& after.queue@.len() == 0
        &&& after.active is None
        &&& after.active_profile@ == name
        &&& after.profiles == before.profiles
        &&& after.history == before.history
        &&& after.bookmarks == before.bookmarks
        &&& after.counter == before.counter
        &&& after.display == before.display
    }
}

/// The profile list after asking to create `name`: unchanged when a profile
/// of that name exists up to ASCII case, otherwise extended by `name`.
pub open spec fn profiles_after_create(before: Seq<String>, after: Seq<String>, name: Seq<char>) -> bool {
    if has_profile_ignoring_case(before, name) {
        after == before
    } else {
        &&& after.len() == before.len() + 1
        &&& after.drop_last() == before
        &&& after.last()@ == name
    }
}

impl TabsState {
    /// The state's invariant: the fullscreen flags are consistent and the
    /// profile in use is one of the profiles.
    pub open spec fn wf(self) -> bool {
        self.display.wf() && has_profile(self.profiles@, self.active_profile@)
    }

    // ----- the play queue -----

    /// Appends a video to the queue.
    pub fn queue_add(&mut self, url: String, title: String)
        ensures
            final(self).queue@ == old(self).queue@.push((QueueItem { title: title, url: url })),
            *final(self) == (TabsState { queue: final(self).queue, ..*old(self) }),
    {
        self.queue.push(QueueItem { title, url });
    }

    /// Removes the queue entry at `index`; nothing happens when there is none.
    pub fn queue_remove(&mut self, index: usize)
        ensures
            final(self).queue@ == removed_at(old(self).queue@, index as int),
            *final(self) == (TabsState { queue: final(self).queue, ..*old(self) }),
    {
        remove_at(&mut self.queue, index);
    }

    /// Moves the queue entry at `index` by `offset` places, exchanging it with
    /// the entry there; nothing happens when either position is outside the
    /// queue. The destination must fit an `i32`.
    pub fn queue_move(&mut self, index: usize, offset: i32)
        requires
            i32::MIN <= move_destination(index, offset) <= i32::MAX,
        ensures
            final(self).queue@ == moved(old(self).queue@, index, offset),
            *final(self) == (TabsState { queue: final(self).queue, ..*old(self) }),
    {
        move_by(&mut self.queue, index, offset);
    }

    /// Empties the queue.
    pub fn queue_clear(&mut self)
        ensures
            final(self).queue@.len() == 0,
            *final(self) == (TabsState { queue: final(self).queue, ..*old(self) }),
    {
        self.queue.clear();
    }

    /// Takes the queue entry at `index` out of the queue to play it; `None`,
    /// with the queue unchanged, when there is none.
    pub fn queue_take(&mut self, index: usize) -> (r: Option<QueueItem>)
        ensures
            final(self).queue@ == removed_at(old(self).queue@, index as int),
            r == (if index < old(self).queue@.len() {
                Some(old(self).queue@[index as int])
            } else {
                None
            }),
            *final(self) == (TabsState { queue: final(self).queue, ..*old(self) }),
    {
        take_at(&mut self.queue, index)
    }

    // ----- history and bookmarks -----

    /// Records a visit of `url` with `title` at time `now` (see
    /// [`record_visit`]). Returns whether the history changed, in which case
    /// the host saves and reports it.
    pub fn record_history(&mut self, url: String, title: String, now: u64) -> (recorded: bool)
        ensures
            recorded == is_youtube_page(url@),
            recorded ==> final(self).history@ == history_after_visit(
                old(self).history@,
                (HistoryItem { title: title, url: url, visited_at: now }),
            ),
            !recorded ==> final(self).history@ == old(self).history@,
            *final(self) == (TabsState { history: final(self).history, ..*old(self) }),
    {
        record_visit(&mut self.history, url, title, now)
    }

    /// Adds a bookmark at the front of the list, created at time `now`.
    pub fn bookmark_add(&mut self, url: String, title: String, timestamp_bits: u64, now: u64)
        ensures
            final(self).bookmarks@ == old(self).bookmarks@.insert(
                0,
                (Bookmark { title: title, url: url, timestamp_bits: timestamp_bits, created_at: now }),
            ),
            *final(self) == (TabsState { bookmarks: final(self).bookmarks, ..*old(self) }),
    {
        self.bookmarks.insert(0, Bookmark { title, url, timestamp_bits, created_at: now });
    }

    /// Removes the bookmark at `index`; nothing happens when there is none.
    pub fn bookmark_remove(&mut self, index: usize)
        ensures
            final(self).bookmarks@ == removed_at(old(self).bookmarks@, index as int),
            *final(self) == (TabsState { bookmarks: final(self).bookmarks, ..*old(self) }),
    {
        remove_at(&mut self.bookmarks, index);
    }

    /// Puts a profile's saved history and bookmarks in place.
    pub fn replace_library(&mut self, history: Vec<HistoryItem>, bookmarks: Vec<Bookmark>)
        ensures
            *final(self) == (TabsState { history: history, bookmarks: bookmarks, ..*old(self) }),
    {
        self.history = history;
        self.bookmarks = bookmarks;
    }
}


/// Removes the tabs labelled `label`, keeping the others in order.
fn remove_labelled(tabs: &mut Vec<TabInfo>, label: &str)
    ensures
        final(tabs)@ == tabs_without(old(tabs)@, label@),
{
    let ghost orig = tabs@;
    let ghost keep = other_label(label@);
    let total: usize = tabs.len();
    let mut kept: Vec<TabInfo> = Vec::new();
    let mut i: usize = 0;
    assert(orig.subrange(0, 0).filter(keep) =~= Seq::<TabInfo>::empty()) by {
        reveal(Seq::filter);
    }
    assert(orig.subrange(0, orig.len() as int) =~= orig);
    while tabs.len() > 0
        invariant
            i <= orig.len() == total,
            tabs@ == orig.subrange(i as int, orig.len() as int),
            kept@ == orig.subrange(0, i as int).filter(keep),
            keep == other_label(label@),
        decreases tabs.len(),
    {
        let tab = tabs.remove(0);
        assert(tab == orig[i as int]);
        assert(orig.subrange(0, i + 1).drop_last() =~= orig.subrange(0, i as int));
        assert(orig.subrange(0, i + 1).last() == orig[i as int]);
        proof {
            reveal(Seq::filter);
        }
        if !crate::text::str_eq(tab.label.as_str(), label) {
            kept.push(tab);
        }
        i += 1;
        assert(tabs@ =~= orig.subrange(i as int, orig.len() as int));
    }
    assert(orig.subrange(0, i as int) =~= orig);
    *tabs = kept;
}

/// Gives the tab at `i` the address `url`, and the title `title` unless
/// `keep_title`.
fn update_tab(tabs: &mut Vec<TabInfo>, i: usize, url: String, title: String, keep_title: bool)
    requires
        i < old(tabs)@.len(),
    ensures
        final(tabs)@ == old(tabs)@.update(
            i as int,
            (TabInfo {
                label: old(tabs)@[i as int].label,
                title: if keep_title {
                    old(tabs)@[i as int].title
                } else {
                    title
                },
                url: url,
            }),
        ),
{
    let ghost before = tabs@;
    let mut tab = tabs.remove(i);
    tab.url = url;
    if !keep_title {
        tab.title = title;
    }
    tabs.insert(i, tab);
    assert(tabs@ =~= before.update(i as int, tab));
}

impl TabsState {
    // ----- tabs -----

    /// Hands out the label for a new tab: the counter goes up by one and the
    /// label is "tab-" and the new count. The counter must not be at its
    /// maximum.
    pub fn next_tab_label(&mut self) -> (r: String)
        requires
            old(self).counter < u32::MAX,
        ensures
            final(self).counter == old(self).counter + 1,
            r@ == tab_label_spec(final(self).counter as nat),
            *final(self) == (TabsState { counter: final(self).counter, ..*old(self) }),
    {
        self.counter = self.counter + 1;
        tab_label(self.counter)
    }

    /// Records a tab whose webview the host has just opened at `url`: it is
    /// appended with the title "YouTube", its address is recorded in the
    /// history at time `now`, and it becomes the active tab. Returns whether
    /// the history changed.
    pub fn register_tab(&mut self, label: String, url: String, now: u64) -> (history_recorded:
        bool)
        ensures
            final(self).tabs@.len() == old(self).tabs@.len() + 1,
            final(self).tabs@.drop_last() == old(self).tabs@,
            final(self).tabs@.last().label == label,
            final(self).tabs@.last().url == url,
            final(self).tabs@.last().title@ == "YouTube"@,
            final(self).active == Some(label),
            history_recorded == is_youtube_page(url@),
            history_recorded ==> final(self).history@ == history_after_visit(
                old(self).history@,
                (HistoryItem { title: final(self).tabs@.last().title, url: url, visited_at: now }),
            ),
            !history_recorded ==> final(self).history@ == old(self).history@,
            *final(self) == (TabsState {
                tabs: final(self).tabs,
                history: final(self).history,
                active: final(self).active,
                ..*old(self)
            }),
    {
        let title = String::from_str("YouTube");
        let history_title = title.clone();
        let history_url = url.clone();
        let active_label = label.clone();
        self.tabs.push(TabInfo { label, title, url });
        let recorded = record_visit(&mut self.history, history_url, history_title, now);
        self.active = Some(active_label);
        recorded
    }

    /// Makes the tab labelled `label` the active one. The label is taken as
    /// given, whether or not a tab has it.
    pub fn switch_to(&mut self, label: &str)
        ensures
            final(self).active matches Some(a) && a@ == label@,
            *final(self) == (TabsState { active: final(self).active, ..*old(self) }),
    {
        self.active = Some(String::from_str(label));
    }

    /// For each tab in order, whether its webview is to be shown when the tab
    /// labelled `label` becomes active; all others are hidden.
    pub fn tab_visibility(&self, label: &str) -> (r: Vec<bool>)
        ensures
            r@.len() == self.tabs@.len(),
            forall|i: int| 0 <= i < r@.len() ==> r@[i] == (self.tabs@[i].label@ == label@),
    {
        let mut r: Vec<bool> = Vec::new();
        let mut i: usize = 0;
        while i < self.tabs.len()
            invariant
                i <= self.tabs@.len(),
                r@.len() == i,
                forall|j: int| 0 <= j < i ==> r@[j] == (self.tabs@[j].label@ == label@),
            decreases self.tabs.len() - i,
        {
            r.push(crate::text::str_eq(self.tabs[i].label.as_str(), label));
            i += 1;
        }
        r
    }

    /// The labels of the open tabs, in order.
    pub fn tab_labels(&self) -> (r: Vec<String>)
        ensures
            r@ == labels_of(self.tabs@),
    {
        let mut r: Vec<String> = Vec::new();
        let mut i: usize = 0;
        while i < self.tabs.len()
            invariant
                i <= self.tabs@.len(),
                r@ == labels_of(self.tabs@.subrange(0, i as int)),
            decreases self.tabs.len() - i,
        {
            r.push(self.tabs[i].label.clone());
            i += 1;
            assert(r@ =~= labels_of(self.tabs@.subrange(0, i as int)));
        }
        assert(self.tabs@.subrange(0, i as int) =~= self.tabs@);
        r
    }

    /// Forgets the tabs labelled `label`, whose webview the host has closed.
    /// When the active tab was closed, the last remaining tab becomes active
    /// and its label is returned, so that the host shows it; with no tab left
    /// nothing is active. The host opens a fresh tab when none remains.
    pub fn close_tab(&mut self, label: &str) -> (r: Option<String>)
        ensures
            final(self).tabs@ == tabs_without(old(self).tabs@, label@),
            is_active_label(old(self).active, label@) && final(self).tabs@.len() > 0 ==> (r
                == Some(final(self).tabs@.last().label) && final(self).active == r),
            is_active_label(old(self).active, label@) && final(self).tabs@.len() == 0 ==> (r
                is None && final(self).active is None),
            !is_active_label(old(self).active, label@) ==> (r is None && final(self).active
                == old(self).active),
            *final(self) == (TabsState {
                tabs: final(self).tabs,
                active: final(self).active,
                ..*old(self)
            }),
    {
        let was_active = match &self.active {
            Some(a) => crate::text::str_eq(a.as_str(), label),
            None => false,
        };
        remove_labelled(&mut self.tabs, label);
        if was_active {
            let n: usize = self.tabs.len();
            if n > 0 {
                let next = self.tabs[n - 1].label.clone();
                self.active = Some(next.clone());
                Some(next)
            } else {
                self.active = None;
                None
            }
        } else {
            None
        }
    }

    /// A tab reports that it navigated to `url` with page title `title`. The
    /// first tab labelled `label` takes the address, and the title unless it
    /// is blank; when the address changed it is recorded in the history at
    /// time `now`. `None` means no tab has the label and nothing changed;
    /// otherwise the result says whether the history changed.
    pub fn tab_navigated(&mut self, label: &str, url: String, title: String, now: u64) -> (r:
        Option<bool>)
        ensures
            match first_tab_with_label(old(self).tabs@, label@) {
                None => r is None && *final(self) == *old(self),
                Some(i) => {
                    let t = old(self).tabs@[i];
                    let url_changed = t.url@ != url@;
                    &&& final(self).tabs@ == old(self).tabs@.update(
                        i,
                        (TabInfo {
                            label: t.label,
                            title: if trim_spec(title@).len() == 0 {
                                t.title
                            } else {
                                title
                            },
                            url: url,
                        }),
                    )
                    &&& url_changed ==> r == Some(is_youtube_page(url@))
                    &&& (url_changed && is_youtube_page(url@)) ==> final(self).history@
                        == history_after_visit(
                        old(self).history@,
                        (HistoryItem { title: title, url: url, visited_at: now }),
                    )
                    &&& !(url_changed && is_youtube_page(url@)) ==> final(self).history@ == old(
                        self,
                    ).history@
                    &&& !url_changed ==> r == Some(false)
                    &&& *final(self) == (TabsState {
                        tabs: final(self).tabs,
                        history: final(self).history,
                        ..*old(self)
                    })
                },
            },
    {
        match find_tab(&self.tabs, label) {
            None => None,
            Some(i) => {
                let url_changed = !(self.tabs[i].url == url);
                let history_url = url.clone();
                let history_title = title.clone();
                let keep_title = is_blank(title.as_str());
                update_tab(&mut self.tabs, i, url, title, keep_title);
                if url_changed {
                    Some(record_visit(&mut self.history, history_url, history_title, now))
                } else {
                    Some(false)
                }
            },
        }
    }

    // ----- sessions -----

    /// The position of the active tab to save with the session: that of the
    /// first tab with the active label (see [`session_index_spec`]).
    pub fn session_active_index(&self) -> (r: Option<usize>)
        ensures
            match r {
                Some(i) => session_index_spec(self.tabs@, self.active) == Some(i as int),
                None => session_index_spec(self.tabs@, self.active) is None,
            },
    {
        match &self.active {
            Some(a) => find_tab(&self.tabs, a.as_str()),
            None => None,
        }
    }

    /// The session to save: the tabs and the position of the active one.
    pub fn session_snapshot(&self) -> (r: SavedSession)
        ensures
            r.tabs@ == self.tabs@,
            match r.active_index {
                Some(i) => session_index_spec(self.tabs@, self.active) == Some(i as int),
                None => session_index_spec(self.tabs@, self.active) is None,
            },
    {
        SavedSession { tabs: copy_tabs(&self.tabs), active_index: self.session_active_index() }
    }

    /// After the host reopened a saved session's tabs, gives the tabs the
    /// saved titles, position by position, as far as both lists go.
    pub fn apply_saved_titles(&mut self, saved: &Vec<TabInfo>)
        ensures
            final(self).tabs@ == with_saved_titles(old(self).tabs@, saved@),
            final(self).tabs@.len() == old(self).tabs@.len(),
            forall|i: int|
                0 <= i < final(self).tabs@.len() ==> (#[trigger] final(self).tabs@[i]) == (
                TabInfo {
                    title: if i < saved@.len() {
                        saved@[i].title
                    } else {
                        old(self).tabs@[i].title
                    },
                    ..old(self).tabs@[i]
                }),
            *final(self) == (TabsState { tabs: final(self).tabs, ..*old(self) }),
    {
        let ghost orig = self.tabs@;
        let mut i: usize = 0;
        while i < self.tabs.len() && i < saved.len()
            invariant
                i <= self.tabs@.len() == orig.len(),
                i <= saved@.len(),
                orig == old(self).tabs@,
                *self == (TabsState { tabs: self.tabs, ..*old(self) }),
                forall|j: int|
                    0 <= j < self.tabs@.len() ==> (#[trigger] self.tabs@[j]) == (TabInfo {
                        title: if j < i {
                            saved@[j].title
                        } else {
                            orig[j].title
                        },
                        ..orig[j]
                    }),
            decreases self.tabs.len() - i,
        {
            let mut tab = self.tabs.remove(i);
            tab.title = saved[i].title.clone();
            self.tabs.insert(i, tab);
            i += 1;
        }
        assert(self.tabs@ =~= with_saved_titles(old(self).tabs@, saved@));
    }

    /// Whether no tab is open, in which case the host opens one at the
    /// default address.
    pub fn needs_default_tab(&self) -> (r: bool)
        ensures
            r == (self.tabs@.len() == 0),
    {
        self.tabs.len() == 0
    }

    /// The label of the tab at a saved active position, when the position
    /// names a tab (see [`restored_label_spec`]).
    pub fn restored_active_label(&self, active_index: Option<usize>) -> (r: Option<String>)
        ensures
            match r {
                Some(l) => restored_label_spec(
                    self.tabs@,
                    match active_index {
                        Some(i) => Some(i as int),
                        None => None,
                    },
                ) == Some(l@),
                None => restored_label_spec(
                    self.tabs@,
                    match active_index {
                        Some(i) => Some(i as int),
                        None => None,
                    },
                ) is None,
            },
    {
        match active_index {
            Some(i) => if i < self.tabs.len() {
                Some(self.tabs[i].label.clone())
            } else {
                None
            },
            None => None,
        }
    }
}

impl Default for TabsState {
    /// A fresh state: no tabs, nothing queued, empty history and bookmarks,
    /// nothing fullscreen, and the profiles "Personal", "Work" and "Study"
    /// with "Personal" in use.
    fn default() -> (r: TabsState)
        ensures
            r.tabs@.len() == 0,
            r.queue@.len() == 0,
            r.history@.len() == 0,
            r.bookmarks@.len() == 0,
            r.active is None,
            r.counter == 0,
            r.display == (DisplayState {
                player_fullscreen: false,
                content_fullscreen: false,
                window_fullscreen: false,
                titlebar_hidden: false,
            }),
            r.profiles@.len() == 3,
            r.profiles@[0]@ == "Personal"@,
            r.profiles@[1]@ == "Work"@,
            r.profiles@[2]@ == "Study"@,
            r.active_profile@ == "Personal"@,
            r.wf(),
    {
        let mut profiles: Vec<String> = Vec::new();
        profiles.push(String::from_str("Personal"));
        profiles.push(String::from_str("Work"));
        profiles.push(String::from_str("Study"));
        let active_profile = String::from_str("Personal");
        assert(profiles@[0]@ == active_profile@);
        TabsState {
            tabs: Vec::new(),
            queue: Vec::new(),
            history: Vec::new(),
            bookmarks: Vec::new(),
            active: None,
            counter: 0,
            display: DisplayState::new(),
            profiles,
            active_profile,
        }
    }
}

impl TabsState {
    // ----- profiles -----

    /// Adopts a saved list of profiles and its active profile, when the list
    /// is not empty and holds the active profile. Returns whether it did.
    pub fn adopt_registry(&mut self, profiles: Vec<String>, active: String) -> (adopted: bool)
        ensures
            adopted == is_valid_registry(profiles@, active@),
            adopted ==> *final(self) == (TabsState {
                profiles: profiles,
                active_profile: active,
                ..*old(self)
            }),
            !adopted ==> *final(self) == *old(self),
            old(self).wf() ==> final(self).wf(),
    {
        if registry_is_valid(&profiles, active.as_str()) {
            self.profiles = profiles;
            self.active_profile = active;
            true
        } else {
            false
        }
    }

    /// Selects the profile `profile` (see [`profile_selected`]).
    pub fn select_profile(&mut self, profile: &str) -> (r: Result<ProfileSwitch, ProfileError>)
        ensures
            profile_selected(*old(self), *final(self), profile@, r),
            old(self).wf() ==> final(self).wf(),
    {
        if !contains_profile(&self.profiles, profile) {
            return Err(ProfileError::UnknownProfile);
        }
        if crate::text::str_eq(self.active_profile.as_str(), profile) {
            return Ok(ProfileSwitch::AlreadyActive);
        }
        let closed_tabs = self.tab_labels();
        self.tabs.clear();
        self.active = None;
        self.queue.clear();
        self.active_profile = String::from_str(profile);
        Ok(ProfileSwitch::Switched { closed_tabs })
    }

    /// Creates the profile that `raw` names and selects it. The name is
    /// trimmed and must be valid; it is added unless a profile of that name
    /// exists up to ASCII case, and then selected by its exact name (see
    /// [`profiles_after_create`] and [`profile_selected`]).
    pub fn create_profile(&mut self, raw: &str) -> (r: Result<ProfileSwitch, ProfileError>)
        ensures
            !is_valid_profile_name(trim_spec(raw@)) ==> (r == Err::<ProfileSwitch, ProfileError>(
                ProfileError::InvalidName,
            ) && *final(self) == *old(self)),
            is_valid_profile_name(trim_spec(raw@)) ==> {
                &&& profiles_after_create(
                    old(self).profiles@,
                    final(self).profiles@,
                    trim_spec(raw@),
                )
                &&& profile_selected(
                    (TabsState { profiles: final(self).profiles, ..*old(self) }),
                    *final(self),
                    trim_spec(raw@),
                    r,
                )
            },
            old(self).wf() ==> final(self).wf(),
    {
        let name = match validate_profile_name(raw) {
            Ok(name) => name,
            Err(e) => {
                return Err(e);
            },
        };
        let ghost before = self.profiles@;
        if !contains_profile_ignoring_case(&self.profiles, name.as_str()) {
            self.profiles.push(name.clone());
            assert(self.profiles@.drop_last() =~= before);
            assert(has_profile(self.profiles@, self.active_profile@) <== has_profile(
                before,
                self.active_profile@,
            )) by {
                if has_profile(before, self.active_profile@) {
                    let k = choose|k: int|
                        0 <= k < before.len() && (#[trigger] before[k])@ == self.active_profile@;
                    assert(self.profiles@[k] == before[k]);
                }
            }
        }
        self.select_profile(name.as_str())
    }
}

/// A valid new name that matches no profile, even up to ASCII case, is added
/// and becomes the profile in use.
pub proof fn law_new_profile_becomes_active(
    before: TabsState,
    after: TabsState,
    name: Seq<char>,
    r: Result<ProfileSwitch, ProfileError>,
)
    requires
        is_valid_profile_name(name),
        !has_profile_ignoring_case(before.profiles@, name),
        profiles_after_create(before.profiles@, after.profiles@, name),
        profile_selected(
            (TabsState { profiles: after.profiles, ..before }),
            after,
            name,
            r,
        ),
    ensures
        r is Ok,
        after.active_profile@ == name,
        has_profile(after.profiles@, name),
{
    let k = (after.profiles@.len() - 1) as int;
    assert(after.profiles@[k]@ == name);
    if before.active_profile@ == name {
        assert(eq_ignore_ascii_case_spec(before.active_profile@, name));
    }
}

/// A tab's label, as the key that tells tabs apart.
pub open spec fn label_key() -> spec_fn(TabInfo) -> Seq<char> {
    |t: TabInfo| t.label@
}

/// Every tab's label was handed out by the counter, "tab-k" for some k from
/// 1 to `counter`, and no two tabs share a label.
pub open spec fn labels_issued(tabs: Seq<TabInfo>, counter: nat) -> bool {
    &&& forall|i: int| 0 <= i < tabs.len() ==> label_issued(#[trigger] tabs[i], counter)
    &&& keys_distinct(tabs, label_key())
}

/// The tab's label is "tab-k" for some k from 1 to `counter`.
pub open spec fn label_issued(tab: TabInfo, counter: nat) -> bool {
    exists|k: nat| 1 <= k <= counter && tab.label@ == tab_label_spec(k)
}

/// Opening a tab keeps the labels issued: the counter moves on by one (also
/// when opening the webview then fails), and the new tab's label, the one
/// handed out for the new count, differs from every open tab's label.
pub proof fn law_new_tab_keeps_labels_issued(tabs: Seq<TabInfo>, counter: nat, tab: TabInfo)
    requires
        labels_issued(tabs, counter),
        tab.label@ == tab_label_spec(counter + 1),
    ensures
        labels_issued(tabs, counter + 1),
        labels_issued(tabs.push(tab), counter + 1),
        forall|i: int| 0 <= i < tabs.len() ==> (#[trigger] tabs[i]).label@ != tab.label@,
{
    assert forall|i: int| 0 <= i < tabs.len() implies label_issued(#[trigger] tabs[i], counter + 1) by {
        assert(label_issued(tabs[i], counter));
        let k = choose|k: nat| 1 <= k <= counter && tabs[i].label@ == tab_label_spec(k);
        assert(1 <= k <= counter + 1 && tabs[i].label@ == tab_label_spec(k));
    }
    assert forall|i: int| 0 <= i < tabs.len() implies (#[trigger] tabs[i]).label@ != tab.label@ by {
        assert(label_issued(tabs[i], counter));
        let k = choose|k: nat| 1 <= k <= counter && tabs[i].label@ == tab_label_spec(k);
        law_tab_labels_distinct(k, counter + 1);
    }
    let t = tabs.push(tab);
    assert forall|i: int| 0 <= i < t.len() implies label_issued(#[trigger] t[i], counter + 1) by {
        if i < tabs.len() {
            assert(t[i] == tabs[i]);
            assert(label_issued(tabs[i], counter));
            let k = choose|k: nat| 1 <= k <= counter && tabs[i].label@ == tab_label_spec(k);
            assert(1 <= k <= counter + 1 && t[i].label@ == tab_label_spec(k));
        } else {
            assert(t[i] == tab);
            assert(1 <= counter + 1 <= counter + 1 && t[i].label@ == tab_label_spec(counter + 1));
        }
    }
    assert forall|i: int, j: int| 0 <= i < j < t.len() implies label_key()(
        #[trigger] t[i],
    ) != label_key()(#[trigger] t[j]) by {
        if j < tabs.len() {
            assert(t[i] == tabs[i] && t[j] == tabs[j]);
        } else {
            assert(t[i] == tabs[i] && t[j] == tab);
            assert(tabs[i].label@ != tab.label@);
        }
    }
}

/// Closing tabs keeps the labels issued.
pub proof fn law_close_keeps_labels_issued(tabs: Seq<TabInfo>, counter: nat, label: Seq<char>)
    requires
        labels_issued(tabs, counter),
    ensures
        labels_issued(tabs_without(tabs, label), counter),
{
    let f = tabs_without(tabs, label);
    lemma_filter_contained(tabs, other_label(label));
    lemma_filter_keys_distinct(tabs, other_label(label), label_key());
    assert forall|i: int| 0 <= i < f.len() implies label_issued(#[trigger] f[i], counter) by {
        assert(tabs.contains(f[i]));
        let m = choose|m: int| 0 <= m < tabs.len() && tabs[m] == f[i];
        assert(label_issued(tabs[m], counter));
        let k = choose|k: nat| 1 <= k <= counter && tabs[m].label@ == tab_label_spec(k);
        assert(1 <= k <= counter && f[i].label@ == tab_label_spec(k));
    }
    assert(keys_distinct(f, label_key()));
}

/// Changes that keep every tab's label in place, such as a navigation report
/// or the restored titles, keep the labels issued.
pub proof fn law_label_preserving_updates_keep_labels_issued(
    tabs: Seq<TabInfo>,
    updated: Seq<TabInfo>,
    counter: nat,
)
    requires
        labels_issued(tabs, counter),
        updated.len() == tabs.len(),
        forall|i: int| 0 <= i < tabs.len() ==> (#[trigger] updated[i]).label == tabs[i].label,
    ensures
        labels_issued(updated, counter),
{
    assert forall|i: int| 0 <= i < updated.len() implies label_issued(#[trigger] updated[i], counter) by {
        assert(updated[i].label == tabs[i].label);
        assert(label_issued(tabs[i], counter));
        let k = choose|k: nat| 1 <= k <= counter && tabs[i].label@ == tab_label_spec(k);
        assert(1 <= k <= counter && updated[i].label@ == tab_label_spec(k));
    }
    assert forall|i: int, j: int| 0 <= i < j < updated.len() implies label_key()(
        #[trigger] updated[i],
    ) != label_key()(#[trigger] updated[j]) by {
        assert(updated[i].label == tabs[i].label && updated[j].label == tabs[j].label);
        assert(label_key()(tabs[i]) != label_key()(tabs[j]));
    }
    assert(keys_distinct(updated, label_key()));
}

/// Restoring a saved session whose tabs all have web addresses gives back
/// every tab's address and title, in order: one tab is reopened per saved
/// tab at its restored address, and then the saved titles are applied.
pub proof fn law_restore_gives_back_tabs(saved: Seq<TabInfo>, reopened: Seq<TabInfo>)
    requires
        reopened.len() == saved.len(),
        forall|i: int| 0 <= i < saved.len() ==> is_web_url(#[trigger] saved[i].url@),
        forall|i: int|
            0 <= i < saved.len() ==> (#[trigger] reopened[i]).url@ == restored_url_spec(
                saved[i].url@,
            ),
    ensures
        with_saved_titles(reopened, saved).len() == saved.len(),
        forall|i: int|
            0 <= i < saved.len() ==> (#[trigger] with_saved_titles(reopened, saved)[i]).url@
                == saved[i].url@ && with_saved_titles(reopened, saved)[i].title == saved[i].title,
{
    assert forall|i: int| 0 <= i < saved.len() implies (#[trigger] with_saved_titles(
        reopened,
        saved,
    )[i]).url@ == saved[i].url@ && with_saved_titles(reopened, saved)[i].title == saved[i].title by {
        assert(is_web_url(saved[i].url@));
        assert(reopened[i].url@ == restored_url_spec(saved[i].url@));
    }
}

/// The label that is active once a saved session has been reopened: the
/// host opens the tabs in order, each becoming active as it opens, and then
/// switches to the tab at the saved active position, if that names a tab.
pub open spec fn active_after_restore(
    reopened: Seq<TabInfo>,
    saved_index: Option<int>,
) -> Seq<char> {
    match restored_label_spec(reopened, saved_index) {
        Some(label) => label,
        None => reopened.last().label@,
    }
}

/// Saving a session and reopening it gives back the tabs and the active
/// one. `saved` is what was saved, with `active` the active tab's label;
/// `reopened` is the tab list after one tab has been reopened per saved tab
/// at its restored address and the saved titles applied. Every tab comes
/// back with its address and title, in order, when all saved addresses are
/// web addresses; and the active tab is the one at the position of the
/// first saved tab labelled `active`, or the last tab when none is.
pub proof fn law_session_round_trip(
    saved: Seq<TabInfo>,
    reopened: Seq<TabInfo>,
    active: String,
)
    requires
        saved.len() > 0,
        reopened.len() == saved.len(),
        forall|i: int| 0 <= i < saved.len() ==> is_web_url(#[trigger] saved[i].url@),
        forall|i: int|
            0 <= i < saved.len() ==> (#[trigger] reopened[i]).url@ == restored_url_spec(
                saved[i].url@,
            ),
    ensures
        forall|i: int|
            0 <= i < saved.len() ==> (#[trigger] with_saved_titles(reopened, saved)[i]).url@
                == saved[i].url@ && with_saved_titles(reopened, saved)[i].title == saved[i].title,
        forall|k: int|
            0 <= k < saved.len() && (#[trigger] saved[k]).label@ == active@ ==> (session_index_spec(
                saved,
                Some(active),
            ) matches Some(j) && 0 <= j <= k && saved[j].label@ == active@ && (forall|m: int|
                0 <= m < j ==> (#[trigger] saved[m]).label@ != active@) && active_after_restore(
                with_saved_titles(reopened, saved),
                session_index_spec(saved, Some(active)),
            ) == reopened[j].label@),
        (forall|k: int| 0 <= k < saved.len() ==> (#[trigger] saved[k]).label@ != active@)
            ==> active_after_restore(
            with_saved_titles(reopened, saved),
            session_index_spec(saved, Some(active)),
        ) == reopened[saved.len() - 1].label@,
{
    law_restore_gives_back_tabs(saved, reopened);
    let titled = with_saved_titles(reopened, saved);
    assert forall|k: int|
        0 <= k < saved.len() && (#[trigger] saved[k]).label@ == active@ implies (session_index_spec(
        saved,
        Some(active),
    ) matches Some(j) && 0 <= j <= k && saved[j].label@ == active@ && (forall|m: int|
        0 <= m < j ==> (#[trigger] saved[m]).label@ != active@) && active_after_restore(
        titled,
        session_index_spec(saved, Some(active)),
    ) == reopened[j].label@) by {
        lemma_first_tab_found(saved, active@, k);
        let j = first_tab_with_label(saved, active@)->Some_0;
        assert(titled[j].label == reopened[j].label);
    }
    if forall|k: int| 0 <= k < saved.len() ==> (#[trigger] saved[k]).label@ != active@ {
        assert(!(exists|i: int| 0 <= i < saved.len() && (#[trigger] saved[i]).label@ == active@));
        assert(session_index_spec(saved, Some(active)) is None);
        assert(titled.last() == titled[saved.len() - 1]);
        assert(titled[saved.len() - 1].label == reopened[saved.len() - 1].label);
    }
}

/// After a tab is closed, no remaining tab has its label, and every other
/// tab remains.
pub proof fn law_closed_label_gone(tabs: Seq<TabInfo>, label: Seq<char>)
    ensures
        forall|i: int|
            0 <= i < tabs_without(tabs, label).len() ==> (#[trigger] tabs_without(tabs, label)[i]).label@
                != label,
        forall|i: int|
            0 <= i < tabs.len() && (#[trigger] tabs[i]).label@ != label ==> tabs_without(
                tabs,
                label,
            ).contains(tabs[i]),
{
    broadcast use Seq::lemma_filter_pred, Seq::lemma_filter_contains;

    let keep = other_label(label);
    assert forall|i: int| 0 <= i < tabs_without(tabs, label).len() implies (
    #[trigger] tabs_without(tabs, label)[i]).label@ != label by {
        assert(keep(tabs.filter(keep)[i]));
    }
    assert forall|i: int| 0 <= i < tabs.len() && (#[trigger] tabs[i]).label@ != label implies tabs_without(
        tabs,
        label,
    ).contains(tabs[i]) by {
        assert(keep(tabs[i]));
        assert(tabs.filter(keep).contains(tabs[i]));
    }
}

/// Saving a session and restoring it returns the active tab: the saved
/// position of the active tab names a tab with the active label.
pub proof fn law_session_keeps_active_tab(tabs: Seq<TabInfo>, active: String, k: int)
    requires
        0 <= k < tabs.len(),
        tabs[k].label@ == active@,
    ensures
        restored_label_spec(tabs, session_index_spec(tabs, Some(active))) == Some(active@),
{
    lemma_first_tab_found(tabs, active@, k);
}

} // verus!
