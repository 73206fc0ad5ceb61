//! List edits of the play queue and the bookmark list: removal by position,
//! taking an entry out, and moving an entry by an offset.
use vstd::prelude::*;

verus! {

/// `s` with the entries at `i` and `j` exchanged.
pub open spec fn swapped<T>(s: Seq<T>, i: int, j: int) -> Seq<T> {
    s.update(i, s[j]).update(j, s[i])
}

/// Exchanges the entries at `i` and `j`.
pub fn swap_entries<T>(v: &mut Vec<T>, i: usize, j: usize)
    requires
        i < old(v).len(),
        j < old(v).len(),
    ensures
        final(v)@ == swapped(old(v)@, i as int, j as int),
{
    if i == j {
        assert(swapped(v@, i as int, j as int) =~= v@);
        return ;
    }
    let (lo, hi) = if i < j {
        (i, j)
    } else {
        (j, i)
    };
    let ghost s = v@;
    let b = v.remove(hi);
    let a = v.remove(lo);
    v.insert(lo, b);
    v.insert(hi, a);
    assert(v@ =~= swapped(s, i as int, j as int));
}

/// The list without the entry at `index`, or unchanged when there is none.
pub open spec fn removed_at<T>(s: Seq<T>, index: int) -> Seq<T> {
    if 0 <= index < s.len() {
        s.remove(index)
    } else {
        s
    }
}

/// Removes the entry at `index` when there is one.
pub fn remove_at<T>(v: &mut Vec<T>, index: usize)
    ensures
        final(v)@ == removed_at(old(v)@, index as int),
{
    if index < v.len() {
        v.remove(index);
    }
}

/// Takes the entry at `index` out of the list; `None`, with the list
/// unchanged, when there is none.
pub fn take_at<T>(v: &mut Vec<T>, index: usize) -> (r: Option<T>)
    ensures
        final(v)@ == removed_at(old(v)@, index as int),
        r == (if index < old(v)@.len() {
            Some(old(v)@[index as int])
        } else {
            None
        }),
{
    if index < v.len() {
        Some(v.remove(index))
    } else {
        None
    }
}

/// The position that an entry at `index` moves to by `offset`, computed as
/// a 32-bit signed integer from the index cut to 32 bits.
pub open spec fn move_destination(index: usize, offset: i32) -> int {
    (index as i32) + offset
}

/// Holds when a move of the entry at `index` by `offset` is carried out:
/// both the entry and its destination lie in the list.
pub open spec fn move_applies(len: nat, index: usize, offset: i32) -> bool {
    index < len && 0 <= move_destination(index, offset) < len
}

/// The list after moving the entry at `index` by `offset`: it exchanges
/// places with the entry at the destination, or nothing changes when either
/// position lies outside the list.
pub open spec fn moved<T>(s: Seq<T>, index: usize, offset: i32) -> Seq<T> {
    if move_applies(s.len(), index, offset) {
        swapped(s, index as int, move_destination(index, offset))
    } else {
        s
    }
}

/// Moves the entry at `index` by `offset` places (see [`moved`]). The
/// destination must be representable as an `i32`.
pub fn move_by<T>(v: &mut Vec<T>, index: usize, offset: i32)
    requires
        i32::MIN <= move_destination(index, offset) <= i32::MAX,
    ensures
        final(v)@ == moved(old(v)@, index, offset),
{
    let destination: i32 = index as i32 + offset;
    if index < v.len() && destination >= 0 && (destination as usize) < v.len() {
        swap_entries(v, index, destination as usize);
    }
}

/// Whenever the entry at `index` and its destination `index + offset` both
/// lie in the list, the move exchanges the two entries; this covers moving
/// an entry up (offset -1) or down (offset 1). The index and the destination
/// must fit an `i32`, as the move computes the destination as one from the
/// index cut to 32 bits.
pub proof fn law_move_exchanges_in_range<T>(s: Seq<T>, index: usize, offset: i32)
    requires
        index < s.len(),
        0 <= index + offset < s.len(),
        index <= i32::MAX,
        index + offset <= i32::MAX,
    ensures
        moved(s, index, offset) == s.update(index as int, s[index + offset]).update(
            index + offset,
            s[index as int],
        ),
{
    assert((index as i32) as int == index as int) by (bit_vector)
        requires
            index <= i32::MAX,
    ;
}

/// Moving an entry by an offset and then moving it back by the opposite
/// offset restores the list.
pub proof fn law_move_back_restores<T>(s: Seq<T>, index: usize, offset: i32)
    requires
        move_applies(s.len(), index, offset),
        move_destination(index, offset) <= i32::MAX,
        index <= i32::MAX,
        offset != i32::MIN,
    ensures
        moved(
            moved(s, index, offset),
            move_destination(index, offset) as usize,
            -offset as i32,
        ) == s,
{
    let d = move_destination(index, offset);
    assert((index as i32) as int == index as int) by (bit_vector)
        requires
            index <= i32::MAX,
    ;
    let du = d as usize;
    assert(du as int == d);
    assert(du <= 0x7fff_ffff);
    assert((du as i32) as int == du as int) by (bit_vector)
        requires
            du <= 0x7fff_ffff,
    ;
    let t = moved(s, index, offset);
    assert(t == swapped(s, index as int, d));
    assert(move_destination(du, -offset as i32) == index);
    assert(move_applies(t.len(), du, -offset as i32));
    assert(swapped(t, d, index as int) =~= s);
}

/// Adding an entry at the end and then taking the last entry gives the entry
/// back and leaves the list as it was.
pub proof fn law_push_then_take_last<T>(s: Seq<T>, x: T)
    ensures
        removed_at(s.push(x), s.len() as int) == s,
        s.push(x)[s.len() as int] == x,
{
    assert(s.push(x).remove(s.len() as int) =~= s);
}

/// Adding an entry at the front and then removing the first entry leaves the
/// list as it was.
pub proof fn law_insert_front_then_remove_first<T>(s: Seq<T>, x: T)
    ensures
        removed_at(s.insert(0, x), 0) == s,
{
    assert(s.insert(0, x).remove(0) =~= s);
}

} // verus!
