//! Tab labels and addresses: the label a new tab's webview gets, finding a
//! tab by label, and the address a saved tab is reopened at.
use vstd::prelude::*;
use crate::items::{SavedSession, TabInfo};
use crate::text::{one_char, starts_with};

verus! {

/// The decimal digit for `d`, which is below ten.
pub open spec fn digit_char(d: nat) -> char {
    (48 + d) as char
}

/// The decimal representation of `n`, without leading zeros.
pub open spec fn decimal_spec(n: nat) -> Seq<char>
    decreases n,
{
    if n < 10 {
        seq![digit_char(n)]
    } else {
        decimal_spec(n / 10) + seq![digit_char(n % 10)]
    }
}

/// Appends the decimal representation of `n` to `s`.
pub fn push_decimal(s: &mut String, n: u32)
    ensures
        final(s)@ == old(s)@ + decimal_spec(n as nat),
    decreases n,
{
    if n >= 10 {
        push_decimal(s, n / 10);
    }
    let digits = "0123456789";
    proof {
        reveal_strlit("0123456789");
    }
    let d: usize = (n % 10) as usize;
    assert(digits@[d as int] == digit_char((n % 10) as nat));
    s.append(one_char(digits, d));
}

/// The label of the tab opened as the `n`-th: "tab-" and `n` in decimal.
pub open spec fn tab_label_spec(n: nat) -> Seq<char> {
    "tab-"@ + decimal_spec(n)
}

/// The label of the tab opened as the `n`-th (see [`tab_label_spec`]).
pub fn tab_label(n: u32) -> (r: String)
    ensures
        r@ == tab_label_spec(n as nat),
{
    let mut r = String::from_str("tab-");
    push_decimal(&mut r, n);
    r
}

proof fn lemma_decimal_len(n: nat)
    ensures
        decimal_spec(n).len() >= 1,
        (decimal_spec(n).len() == 1) == (n < 10),
    decreases n,
{
    if n >= 10 {
        lemma_decimal_len(n / 10);
    }
}

proof fn lemma_digit_injective(a: nat, b: nat)
    requires
        a < 10,
        b < 10,
        digit_char(a) == digit_char(b),
    ensures
        a == b,
{
    assert((digit_char(a) as u32) == 48 + a);
    assert((digit_char(b) as u32) == 48 + b);
}

proof fn lemma_decimal_injective(a: nat, b: nat)
    requires
        decimal_spec(a) == decimal_spec(b),
    ensures
        a == b,
    decreases a,
{
    lemma_decimal_len(a);
    lemma_decimal_len(b);
    if a < 10 {
        assert(b < 10);
        assert(decimal_spec(a)[0] == digit_char(a));
        assert(decimal_spec(b)[0] == digit_char(b));
        lemma_digit_injective(a, b);
    } else {
        let da = decimal_spec(a);
        let db = decimal_spec(b);
        assert(da.last() == digit_char(a % 10));
        assert(db.last() == digit_char(b % 10));
        lemma_digit_injective(a % 10, b % 10);
        assert(da.drop_last() =~= decimal_spec(a / 10));
        assert(db.drop_last() =~= decimal_spec(b / 10));
        lemma_decimal_injective(a / 10, b / 10);
    }
}

/// Tabs opened under different counter values get different labels, so no
/// two tabs that the application opens share a label.
pub proof fn law_tab_labels_distinct(a: nat, b: nat)
    requires
        a != b,
    ensures
        tab_label_spec(a) != tab_label_spec(b),
{
    if tab_label_spec(a) == tab_label_spec(b) {
        let p = "tab-"@;
        assert(tab_label_spec(a).subrange(p.len() as int, tab_label_spec(a).len() as int)
            =~= decimal_spec(a));
        assert(tab_label_spec(b).subrange(p.len() as int, tab_label_spec(b).len() as int)
            =~= decimal_spec(b));
        lemma_decimal_injective(a, b);
    }
}

/// The address a new tab opens when none is given, and that a saved tab
/// without a web address reopens at.
pub open spec fn default_tab_url() -> Seq<char> {
    "https://www.youtube.com/"@
}

/// Whether `url` is a web address: it starts with "http://" or "https://".
pub open spec fn is_web_url(url: Seq<char>) -> bool {
    "http://"@.is_prefix_of(url) || "https://"@.is_prefix_of(url)
}

/// The address that a saved tab reopens at: its own when it is a web
/// address, the default address otherwise.
pub open spec fn restored_url_spec(saved_url: Seq<char>) -> Seq<char> {
    if is_web_url(saved_url) {
        saved_url
    } else {
        default_tab_url()
    }
}

/// The default address, as a string.
pub fn default_tab_address() -> (r: String)
    ensures
        r@ == default_tab_url(),
{
    String::from_str("https://www.youtube.com/")
}

/// The address that a saved tab reopens at (see [`restored_url_spec`]).
pub fn restore_url(saved_url: &str) -> (r: String)
    ensures
        r@ == restored_url_spec(saved_url@),
{
    if starts_with(saved_url, "http://") || starts_with(saved_url, "https://") {
        String::from_str(saved_url)
    } else {
        String::from_str("https://www.youtube.com/")
    }
}

/// A reopened tab always starts at a web address, whatever was saved.
pub proof fn law_restored_tabs_open_web_pages(saved_url: Seq<char>)
    ensures
        is_web_url(restored_url_spec(saved_url)),
{
    reveal_strlit("https://www.youtube.com/");
    reveal_strlit("https://");
    assert("https://"@.is_prefix_of(default_tab_url())) by {
        assert(default_tab_url().subrange(0, 8) =~= "https://"@);
    }
}

/// The addresses at which a saved session's tabs reopen, in order. `None`
/// when there is no saved session or it has no tab: then nothing is
/// restored.
pub fn session_restore_urls(session: &Option<SavedSession>) -> (r: Option<Vec<String>>)
    ensures
        match session {
            None => r is None,
            Some(s) => if s.tabs@.len() == 0 {
                r is None
            } else {
                r matches Some(urls) && urls@.len() == s.tabs@.len() && forall|i: int|
                    0 <= i < urls@.len() ==> (#[trigger] urls@[i])@ == restored_url_spec(
                        s.tabs@[i].url@,
                    )
            },
        },
{
    match session {
        None => None,
        Some(s) => {
            if s.tabs.len() == 0 {
                return None;
            }
            let mut urls: Vec<String> = Vec::new();
            let mut i: usize = 0;
            while i < s.tabs.len()
                invariant
                    i <= s.tabs@.len(),
                    urls@.len() == i,
                    forall|j: int|
                        0 <= j < i ==> (#[trigger] urls@[j])@ == restored_url_spec(s.tabs@[j].url@),
                decreases s.tabs.len() - i,
            {
                urls.push(restore_url(s.tabs[i].url.as_str()));
                i += 1;
            }
            Some(urls)
        },
    }
}

/// The position of the first tab labelled `label`, if any.
pub open spec fn first_tab_with_label(tabs: Seq<TabInfo>, label: Seq<char>) -> Option<int> {
    if exists|i: int| 0 <= i < tabs.len() && (#[trigger] tabs[i]).label@ == label {
        Some(
            choose|i: int|
                0 <= i < tabs.len() && (#[trigger] tabs[i]).label@ == label && forall|j: int|
                    0 <= j < i ==> (#[trigger] tabs[j]).label@ != label,
        )
    } else {
        None
    }
}

/// Every label occurring in `tabs` has a first occurrence.
pub proof fn lemma_first_tab_with_label(tabs: Seq<TabInfo>, label: Seq<char>, k: int)
    requires
        0 <= k < tabs.len(),
        tabs[k].label@ == label,
        forall|j: int| 0 <= j < k ==> (#[trigger] tabs[j]).label@ != label,
    ensures
        first_tab_with_label(tabs, label) == Some(k),
{
    let i = choose|i: int|
        0 <= i < tabs.len() && (#[trigger] tabs[i]).label@ == label && forall|j: int|
            0 <= j < i ==> (#[trigger] tabs[j]).label@ != label;
    assert(tabs[k].label@ == label);
    if i < k {
        assert(tabs[i].label@ != label);
    } else if i > k {
        assert(tabs[k].label@ != label);
    }
}

proof fn lemma_minimal_label_index(tabs: Seq<TabInfo>, label: Seq<char>, k: int)
    requires
        0 <= k < tabs.len(),
        tabs[k].label@ == label,
    ensures
        exists|m: int|
            0 <= m <= k && (#[trigger] tabs[m]).label@ == label && forall|j: int|
                0 <= j < m ==> (#[trigger] tabs[j]).label@ != label,
    decreases k,
{
    if exists|j: int| 0 <= j < k && (#[trigger] tabs[j]).label@ == label {
        let j = choose|j: int| 0 <= j < k && (#[trigger] tabs[j]).label@ == label;
        lemma_minimal_label_index(tabs, label, j);
    } else {
        assert(forall|j: int| 0 <= j < k ==> (#[trigger] tabs[j]).label@ != label);
    }
}

/// When some tab has the label, the first one is found: it has the label,
/// and it comes no later than any tab with the label.
pub proof fn lemma_first_tab_found(tabs: Seq<TabInfo>, label: Seq<char>, k: int)
    requires
        0 <= k < tabs.len(),
        tabs[k].label@ == label,
    ensures
        first_tab_with_label(tabs, label) matches Some(i) && 0 <= i <= k && tabs[i].label@ == label
            && forall|j: int| 0 <= j < i ==> (#[trigger] tabs[j]).label@ != label,
{
    lemma_minimal_label_index(tabs, label, k);
    let i = choose|i: int|
        0 <= i < tabs.len() && (#[trigger] tabs[i]).label@ == label && forall|j: int|
            0 <= j < i ==> (#[trigger] tabs[j]).label@ != label;
    if i > k {
        assert(tabs[k].label@ != label);
    }
}

/// The position of the first tab labelled `label` (see
/// [`first_tab_with_label`]).
pub fn find_tab(tabs: &Vec<TabInfo>, label: &str) -> (r: Option<usize>)
    ensures
        match r {
            Some(i) => first_tab_with_label(tabs@, label@) == Some(i as int) && i < tabs@.len()
                && tabs@[i as int].label@ == label@,
            None => first_tab_with_label(tabs@, label@) is None,
        },
{
    let mut i: usize = 0;
    while i < tabs.len()
        invariant
            i <= tabs.len(),
            forall|j: int| 0 <= j < i ==> (#[trigger] tabs@[j]).label@ != label@,
        decreases tabs.len() - i,
    {
        if crate::text::str_eq(tabs[i].label.as_str(), label) {
            proof {
                lemma_first_tab_with_label(tabs@, label@, i as int);
            }
            return Some(i);
        }
        i += 1;
    }
    None
}

} // verus!
