//! The records the application keeps: open tabs, queued videos, visited
//! pages, bookmarks and a saved browsing session.
use vstd::prelude::*;

verus! {

/// An open tab: the label of its webview, the page title and its address.
#[derive(Clone, Debug)]
pub struct TabInfo {
    pub label: String,
    pub title: String,
    pub url: String,
}

/// A video waiting in the play queue.
#[derive(Clone, Debug)]
pub struct QueueItem {
    pub title: String,
    pub url: String,
}

/// A visited page and when it was visited, in seconds since the Unix epoch.
#[derive(Clone, Debug)]
pub struct HistoryItem {
    pub title: String,
    pub url: String,
    pub visited_at: u64,
}

/// A bookmarked position in a video. `timestamp_bits` holds the bits of the
/// playback position (an IEEE 754 double, as the page reports it), which the
/// library carries without reading; `created_at` is in seconds since the
/// Unix epoch.
#[derive(Clone, Debug)]
pub struct Bookmark {
    pub title: String,
    pub url: String,
    pub timestamp_bits: u64,
    pub created_at: u64,
}

/// The open tabs and the position of the active one, as they are saved
/// between runs.
#[derive(Clone, Debug)]
pub struct SavedSession {
    pub tabs: Vec<TabInfo>,
    pub active_index: Option<usize>,
}

/// A copy of a tab record.
pub fn copy_tab(tab: &TabInfo) -> (r: TabInfo)
    ensures
        r == *tab,
{
    TabInfo { label: tab.label.clone(), title: tab.title.clone(), url: tab.url.clone() }
}

/// A copy of a list of tab records.
pub fn copy_tabs(tabs: &Vec<TabInfo>) -> (r: Vec<TabInfo>)
    ensures
        r@ == tabs@,
{
    let mut r: Vec<TabInfo> = Vec::new();
    let mut i: usize = 0;
    while i < tabs.len()
        invariant
            i <= tabs.len(),
            r@ == tabs@.subrange(0, i as int),
        decreases tabs.len() - i,
    {
        r.push(copy_tab(&tabs[i]));
        i += 1;
        assert(r@ =~= tabs@.subrange(0, i as int));
    }
    assert(tabs@.subrange(0, i as int) =~= tabs@);
    r
}

} // verus!
