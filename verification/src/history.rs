//! The watch history: a most-recent-first list of YouTube pages in which each
//! address appears once and which never grows beyond a fixed length.
use vstd::prelude::*;
use crate::items::HistoryItem;
use crate::seqs::{keys_distinct, lemma_filter_keys_distinct};
use crate::text::starts_with;

verus! {

/// The number of entries that the history keeps.
pub const HISTORY_LIMIT: usize = 500;

/// The pages that the history records: addresses on www.youtube.com.
pub open spec fn is_youtube_page(url: Seq<char>) -> bool {
    "https://www.youtube.com/"@.is_prefix_of(url)
}

/// Holds of an entry whose address is not `url`.
pub open spec fn other_url(url: Seq<char>) -> spec_fn(HistoryItem) -> bool {
    |h: HistoryItem| h.url@ != url
}

/// The history after a visit: the visit first, then the earlier entries for
/// other addresses in their order, cut to [`HISTORY_LIMIT`] entries.
pub open spec fn history_after_visit(history: Seq<HistoryItem>, visit: HistoryItem) -> Seq<
    HistoryItem,
> {
    let full = seq![visit] + history.filter(other_url(visit.url@));
    if full.len() > HISTORY_LIMIT {
        full.take(HISTORY_LIMIT as int)
    } else {
        full
    }
}

/// No address occurs in two entries.
pub open spec fn urls_unique(history: Seq<HistoryItem>) -> bool {
    forall|i: int, j: int|
        0 <= i < j < history.len() ==> #[trigger] history[i].url@ != #[trigger] history[j].url@
}

/// Records a visit of `url` at time `now` when it is a YouTube page; other
/// addresses leave the history as it is. Returns whether it recorded.
pub fn record_visit(history: &mut Vec<HistoryItem>, url: String, title: String, now: u64) -> (recorded:
    bool)
    ensures
        recorded == is_youtube_page(url@),
        recorded ==> final(history)@ == history_after_visit(
            old(history)@,
            (HistoryItem { title: title, url: url, visited_at: now }),
        ),
        !recorded ==> final(history)@ == old(history)@,
{
    if !starts_with(url.as_str(), "https://www.youtube.com/") {
        return false;
    }
    let ghost orig = history@;
    let total: usize = history.len();
    let ghost keep = other_url(url@);
    let mut kept: Vec<HistoryItem> = Vec::new();
    let mut i: usize = 0;
    assert(orig.subrange(0, 0).filter(keep) =~= Seq::<HistoryItem>::empty()) by {
        reveal(Seq::filter);
    }
    assert(orig.subrange(0, orig.len() as int) =~= orig);
    while history.len() > 0
        invariant
            i <= orig.len() == total,
            history@ == orig.subrange(i as int, orig.len() as int),
            kept@ == orig.subrange(0, i as int).filter(keep),
            keep == other_url(url@),
        decreases history.len(),
    {
        let item = history.remove(0);
        assert(item == orig[i as int]);
        assert(orig.subrange(0, i + 1).drop_last() =~= orig.subrange(0, i as int));
        assert(orig.subrange(0, i + 1).last() == orig[i as int]);
        proof {
            reveal(Seq::filter);
        }
        if item.url == url {
            assert(!keep(item));
        } else {
            assert(keep(item));
            kept.push(item);
        }
        i += 1;
        assert(history@ =~= orig.subrange(i as int, orig.len() as int));
    }
    assert(orig.subrange(0, i as int) =~= orig);
    let ghost filtered = kept@;
    kept.insert(0, HistoryItem { title, url, visited_at: now });
    assert(kept@ =~= seq![(HistoryItem { title: title, url: url, visited_at: now })] + filtered);
    kept.truncate(HISTORY_LIMIT);
    *history = kept;
    true
}

proof fn lemma_filter_keeps_all(s: Seq<HistoryItem>, p: spec_fn(HistoryItem) -> bool)
    requires
        forall|i: int| 0 <= i < s.len() ==> p(#[trigger] s[i]),
    ensures
        s.filter(p) == s,
    decreases s.len(),
{
    reveal(Seq::filter);
    if s.len() > 0 {
        lemma_filter_keeps_all(s.drop_last(), p);
        assert(s.drop_last().push(s.last()) =~= s);
    }
}

/// [`urls_unique`] says that entries are keyed apart by their address.
proof fn lemma_urls_unique_keys(s: Seq<HistoryItem>)
    ensures
        urls_unique(s) == keys_distinct(s, |h: HistoryItem| h.url@),
{
}

proof fn lemma_filter_unique(s: Seq<HistoryItem>, p: spec_fn(HistoryItem) -> bool)
    requires
        urls_unique(s),
    ensures
        urls_unique(s.filter(p)),
{
    lemma_urls_unique_keys(s);
    lemma_urls_unique_keys(s.filter(p));
    lemma_filter_keys_distinct(s, p, |h: HistoryItem| h.url@);
}

/// Every entry of `history.filter(other_url(url))` has an address other
/// than `url`.
proof fn lemma_filter_other_url(history: Seq<HistoryItem>, url: Seq<char>)
    ensures
        forall|i: int|
            0 <= i < history.filter(other_url(url)).len() ==> (#[trigger] history.filter(
                other_url(url),
            )[i]).url@ != url,
{
    broadcast use Seq::lemma_filter_pred;

    assert forall|i: int| 0 <= i < history.filter(other_url(url)).len() implies (
    #[trigger] history.filter(other_url(url))[i]).url@ != url by {
        assert(other_url(url)(history.filter(other_url(url))[i]));
    }
}

/// The number of entries of `history` whose address is not `url`.
pub open spec fn count_other_urls(history: Seq<HistoryItem>, url: Seq<char>) -> nat
    decreases history.len(),
{
    if history.len() == 0 {
        0
    } else {
        count_other_urls(history.drop_last(), url) + if history.last().url@ != url {
            1nat
        } else {
            0nat
        }
    }
}

proof fn lemma_filter_counts_other_urls(history: Seq<HistoryItem>, url: Seq<char>)
    ensures
        history.filter(other_url(url)).len() == count_other_urls(history, url),
    decreases history.len(),
{
    reveal(Seq::filter);
    if history.len() > 0 {
        lemma_filter_counts_other_urls(history.drop_last(), url);
    }
}

proof fn lemma_filter_position(history: Seq<HistoryItem>, url: Seq<char>, i: int)
    requires
        0 <= i < history.len(),
        history[i].url@ != url,
    ensures
        count_other_urls(history.take(i), url) < history.filter(other_url(url)).len(),
        history.filter(other_url(url))[count_other_urls(history.take(i), url) as int] == history[i],
{
    let p = other_url(url);
    let a = history.take(i);
    let b = history.skip(i);
    assert(history =~= a + b);
    Seq::filter_distributes_over_add(a, b, p);
    let one = seq![history[i]];
    let rest = history.skip(i + 1);
    assert(b =~= one + rest);
    Seq::filter_distributes_over_add(one, rest, p);
    assert(one.filter(p) =~= one) by {
        reveal_with_fuel(Seq::filter, 2);
        assert(one.drop_last() =~= Seq::<HistoryItem>::empty());
    }
    lemma_filter_counts_other_urls(a, url);
    assert(history.filter(p) == a.filter(p) + (one + rest.filter(p)));
}

/// Recording a visit keeps every earlier entry for another address, in
/// order, right after the visit, as far as the limit allows: the history
/// then holds the visit and the other addresses' entries, cut to
/// [`HISTORY_LIMIT`]; an entry for another address that had `n` such
/// entries before it stands at position `n + 1`.
pub proof fn law_visit_keeps_other_entries(history: Seq<HistoryItem>, visit: HistoryItem)
    ensures
        history_after_visit(history, visit).len() == if 1 + count_other_urls(history, visit.url@)
            > HISTORY_LIMIT {
            HISTORY_LIMIT as nat
        } else {
            1 + count_other_urls(history, visit.url@)
        },
        forall|i: int|
            0 <= i < history.len() && (#[trigger] history[i]).url@ != visit.url@ && 1
                + count_other_urls(history.take(i), visit.url@) < HISTORY_LIMIT
                ==> history_after_visit(history, visit)[1 + count_other_urls(
                history.take(i),
                visit.url@,
            ) as int] == history[i],
{
    lemma_filter_counts_other_urls(history, visit.url@);
    let f = history.filter(other_url(visit.url@));
    let full = seq![visit] + f;
    assert forall|i: int|
        0 <= i < history.len() && (#[trigger] history[i]).url@ != visit.url@ && 1
            + count_other_urls(history.take(i), visit.url@) < HISTORY_LIMIT implies history_after_visit(
        history,
        visit,
    )[1 + count_other_urls(history.take(i), visit.url@) as int] == history[i] by {
        lemma_filter_position(history, visit.url@, i);
        let n = count_other_urls(history.take(i), visit.url@) as int;
        assert(full[n + 1] == f[n]);
    }
}

/// A recorded visit comes first, and the history holds at most
/// [`HISTORY_LIMIT`] entries afterwards.
pub proof fn law_visit_first_and_bounded(history: Seq<HistoryItem>, visit: HistoryItem)
    ensures
        history_after_visit(history, visit).len() >= 1,
        history_after_visit(history, visit)[0] == visit,
        history_after_visit(history, visit).len() <= HISTORY_LIMIT,
{
}

/// Recording a visit keeps every address in the history unique: the
/// visited address appears once, at the front.
pub proof fn law_visit_keeps_urls_unique(history: Seq<HistoryItem>, visit: HistoryItem)
    requires
        urls_unique(history),
    ensures
        urls_unique(history_after_visit(history, visit)),
        forall|i: int|
            0 < i < history_after_visit(history, visit).len() ==> (
            #[trigger] history_after_visit(history, visit)[i]).url@ != visit.url@,
{
    let f = history.filter(other_url(visit.url@));
    lemma_filter_unique(history, other_url(visit.url@));
    lemma_filter_other_url(history, visit.url@);
    let full = seq![visit] + f;
    assert forall|i: int, j: int| 0 <= i < j < full.len() implies #[trigger] full[i].url@
        != #[trigger] full[j].url@ by {
        if i == 0 {
            assert(full[j] == f[j - 1]);
        } else {
            assert(full[i] == f[i - 1] && full[j] == f[j - 1]);
            assert(f[i - 1].url@ != f[j - 1].url@);
        }
    }
    assert forall|i: int| 0 < i < full.len() implies (#[trigger] full[i]).url@ != visit.url@ by {
        assert(full[i] == f[i - 1]);
    }
    let r = history_after_visit(history, visit);
    assert forall|i: int, j: int| 0 <= i < j < r.len() implies #[trigger] r[i].url@
        != #[trigger] r[j].url@ by {
        assert(r[i] == full[i] && r[j] == full[j]);
    }
    assert forall|i: int| 0 < i < r.len() implies (#[trigger] r[i]).url@ != visit.url@ by {
        assert(r[i] == full[i]);
    }
}

/// Visiting the same address twice leaves the history as the second visit
/// alone would have left it: the first visit's entry is replaced.
pub proof fn law_revisit_replaces(history: Seq<HistoryItem>, first: HistoryItem, second: HistoryItem)
    requires
        first.url@ == second.url@,
    ensures
        history_after_visit(history_after_visit(history, first), second) == history_after_visit(
            history,
            second,
        ),
{
    let u = first.url@;
    let keep = other_url(u);
    assert(other_url(second.url@) == keep);
    let f = history.filter(keep);
    lemma_filter_other_url(history, u);
    let full1 = seq![first] + f;
    let h1 = history_after_visit(history, first);
    // Recording `first` again filters out its own entry and keeps a prefix of `f`.
    let kept = if full1.len() > HISTORY_LIMIT {
        f.take(HISTORY_LIMIT - 1)
    } else {
        f
    };
    assert(h1 =~= seq![first] + kept);
    assert forall|i: int| 0 <= i < kept.len() implies keep(#[trigger] kept[i]) by {
        assert(kept[i] == f[i]);
    }
    lemma_filter_keeps_all(kept, keep);
    assert(!keep(first));
    assert(h1.filter(keep) == kept) by {
        broadcast use Seq::filter_distributes_over_add;

        assert(h1.filter(keep) == seq![first].filter(keep) + kept.filter(keep));
        reveal_with_fuel(Seq::filter, 2);
        assert(seq![first].drop_last() =~= Seq::<HistoryItem>::empty());
        assert(seq![first].filter(keep) =~= Seq::<HistoryItem>::empty());
    }
    let full2 = seq![second] + kept;
    let full = seq![second] + f;
    if full1.len() > HISTORY_LIMIT {
        assert(full2 =~= full.take(HISTORY_LIMIT as int));
    } else {
        assert(full2 =~= full);
    }
}

} // verus!
