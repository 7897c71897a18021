//! Typing into the editor's text fields: the tag and ID being edited in the
//! classification layer, and the path of a sprite sheet to load. Tab in a tag
//! field cycles through the tags already in use, in sorted order.

use vstd::prelude::*;
use crate::classification::{distinct_tags, focus_step, focus_target, lemma_focus_steps_undo, EditMode, TagColors};
use crate::color::Color;
use crate::sorting::{is_sorted, lemma_sorted_order, sort_strings, sorted_order, views};
use crate::text::{pop_char, push_str, str_eq, without_last};

verus! {

/// The tag names of a tag-color table, in table order.
pub open spec fn tag_names(m: Seq<(Seq<char>, Color)>) -> Seq<Seq<char>> {
    m.map_values(|e: (Seq<char>, Color)| e.0)
}

/// The first position of `x` in `s`, if it occurs.
pub open spec fn first_position(s: Seq<Seq<char>>, x: Seq<char>) -> Option<int>
    decreases s.len(),
{
    if s.len() == 0 {
        None
    } else if s[0] == x {
        Some(0)
    } else {
        match first_position(s.drop_first(), x) {
            Some(i) => Some(i + 1),
            None => None,
        }
    }
}

proof fn lemma_first_position_found(s: Seq<Seq<char>>, x: Seq<char>, i: int)
    requires
        0 <= i < s.len(),
        s[i] == x,
        forall|k: int| 0 <= k < i ==> s[k] != x,
    ensures
        first_position(s, x) == Some(i),
    decreases i,
{
    if i > 0 {
        assert(s[0] != x);
        lemma_first_position_found(s.drop_first(), x, i - 1);
    }
}

proof fn lemma_first_position_absent(s: Seq<Seq<char>>, x: Seq<char>)
    requires
        forall|k: int| 0 <= k < s.len() ==> s[k] != x,
    ensures
        first_position(s, x) is None,
    decreases s.len(),
{
    if s.len() > 0 {
        assert(s[0] != x);
        lemma_first_position_absent(s.drop_first(), x);
    }
}

proof fn lemma_first_position_absent_inv(s: Seq<Seq<char>>, x: Seq<char>)
    requires
        first_position(s, x) is None,
    ensures
        !s.contains(x),
    decreases s.len(),
{
    if s.len() > 0 {
        lemma_first_position_absent_inv(s.drop_first(), x);
        if s.contains(x) {
            let k = choose|k: int| 0 <= k < s.len() && s[k] == x;
            assert(k != 0);
            assert(s.drop_first()[k - 1] == x);
        }
    }
}

proof fn lemma_sorted_order_contains(s: Seq<Seq<char>>, x: Seq<char>)
    requires
        s.contains(x),
        is_sorted(sorted_order(s)),
        sorted_order(s).to_multiset() == s.to_multiset(),
    ensures
        sorted_order(s).contains(x),
{
    broadcast use vstd::seq_lib::group_to_multiset_ensures;

    assert(s.to_multiset().count(x) > 0);
    assert(sorted_order(s).to_multiset().count(x) > 0);
}

/// The position of `x` in `list`, if it is there (the first one).
pub fn position_of(list: &Vec<String>, x: &str) -> (r: Option<usize>)
    ensures
        match r {
            Some(i) => first_position(views(list@), x@) == Some(i as int),
            None => first_position(views(list@), x@) is None,
        },
{
    let mut i: usize = 0;
    while i < list.len()
        invariant
            i <= list@.len(),
            forall|k: int| 0 <= k < i ==> views(list@)[k] != x@,
        decreases list@.len() - i,
    {
        if str_eq(list[i].as_str(), x) {
            proof {
                lemma_first_position_found(views(list@), x@, i as int);
            }
            return Some(i);
        }
        i = i + 1;
    }
    proof {
        lemma_first_position_absent(views(list@), x@);
    }
    None
}

/// The tag that Tab (or Shift+Tab, `backward`) moves to from `buf`: the next
/// (or previous) tag in sorted order, wrapping around; from a text that is
/// no known tag, the first (or last). `None` when no tag is known.
pub open spec fn cycled_tag(m: Seq<(Seq<char>, Color)>, buf: Seq<char>, backward: bool) -> Option<Seq<char>> {
    let order = sorted_order(tag_names(m));
    if order.len() == 0 {
        None
    } else {
        let cur = match first_position(order, buf) {
            Some(i) => Some(i as usize),
            None => None,
        };
        Some(order[focus_target(order.len() as int, cur, !backward)])
    }
}

/// The known tags in sorted order.
pub fn sorted_tags(colors: &TagColors) -> (v: Vec<String>)
    ensures
        views(v@) == sorted_order(tag_names(colors@)),
{
    let tags = colors.tags();
    assert(views(tags@) =~= tag_names(colors@));
    sort_strings(tags)
}

/// Cycles the text of a tag field through the known tags.
pub fn cycle_known_tag(colors: &TagColors, buf: &str, backward: bool) -> (r: Option<String>)
    ensures
        match r {
            Some(t) => cycled_tag(colors@, buf@, backward) == Some(t@),
            None => cycled_tag(colors@, buf@, backward) is None,
        },
{
    let order = sorted_tags(colors);
    let ghost o = views(order@);
    if order.len() == 0 {
        return None;
    }
    let cur = position_of(&order, buf);
    proof {
        match first_position(o, buf@) {
            Some(i) => {
                lemma_first_position_bound(o, buf@);
                assert(cur == Some(i as usize));
            },
            None => {},
        }
    }
    let next = focus_step(order.len(), cur, !backward);
    let t = order[next].clone();
    assert(t@ == o[next as int]);
    Some(t)
}

pub proof fn lemma_first_position_bound(s: Seq<Seq<char>>, x: Seq<char>)
    ensures
        first_position(s, x) matches Some(i) ==> 0 <= i < s.len() && s[i] == x,
    decreases s.len(),
{
    if s.len() > 0 {
        lemma_first_position_bound(s.drop_first(), x);
    }
}

/// A list without repeats keeps each string at most once in its multiset.
proof fn lemma_distinct_count(s: Seq<Seq<char>>, x: Seq<char>)
    requires
        forall|i: int, j: int| 0 <= i < j < s.len() ==> s[i] != s[j],
    ensures
        s.to_multiset().count(x) <= 1,
{
    broadcast use vstd::seq_lib::group_to_multiset_ensures;
    broadcast use vstd::multiset::group_multiset_axioms;

    if s.to_multiset().count(x) > 0 {
        assert(s.contains(x));
        let i = choose|i: int| 0 <= i < s.len() && s[i] == x;
        vstd::seq_lib::to_multiset_remove(s, i);
        let r = s.remove(i);
        if r.contains(x) {
            let k = choose|k: int| 0 <= k < r.len() && r[k] == x;
            if k < i {
                assert(s[k] == x);
            } else {
                assert(s[k + 1] == x);
            }
        }
        assert(r.to_multiset().count(x) == 0);
    }
}

/// A list whose multiset holds each string at most once has no repeats.
proof fn lemma_count_distinct(s: Seq<Seq<char>>)
    requires
        forall|x: Seq<char>| #[trigger] s.to_multiset().count(x) <= 1,
    ensures
        forall|i: int, j: int| 0 <= i < j < s.len() ==> s[i] != s[j],
{
    broadcast use vstd::seq_lib::group_to_multiset_ensures;
    broadcast use vstd::multiset::group_multiset_axioms;

    assert forall|i: int, j: int| 0 <= i < j < s.len() implies s[i] != s[j] by {
        if s[i] == s[j] {
            vstd::seq_lib::to_multiset_remove(s, i);
            let r = s.remove(i);
            assert(r[j - 1] == s[j]);
            assert(r.contains(s[i]));
            assert(r.to_multiset().count(s[i]) > 0);
            assert(s.to_multiset().count(s[i]) > 1);
        }
    }
}

/// In a table of distinct tags, Tab followed by Shift+Tab (or Shift+Tab
/// followed by Tab) leads back to the tag one started from.
pub proof fn lemma_cycle_there_and_back(colors: TagColors, buf: Seq<char>, backward: bool)
    requires
        colors.wf(),
        tag_names(colors@).contains(buf),
    ensures
        cycled_tag(colors@, buf, backward) matches Some(t) && cycled_tag(colors@, t, !backward) == Some(buf),
{
    broadcast use vstd::seq_lib::group_to_multiset_ensures;

    let m = colors@;
    colors.lemma_len_fits();

    let names = tag_names(m);
    let order = sorted_order(names);
    lemma_sorted_order(names);
    assert forall|i: int, j: int| 0 <= i < j < names.len() implies names[i] != names[j] by {
        assert(names[i] == m[i].0 && names[j] == m[j].0);
    }
    assert forall|x: Seq<char>| #[trigger] order.to_multiset().count(x) <= 1 by {
        lemma_distinct_count(names, x);
    }
    lemma_count_distinct(order);
    assert(names.to_multiset().count(buf) > 0);
    assert(order.contains(buf));
    let i = choose|i: int| 0 <= i < order.len() && order[i] == buf;
    lemma_first_position_found(order, buf, i);
    let n = order.len() as int;
    let j = focus_target(n, Some(i as usize), !backward);
    lemma_focus_steps_undo(n as usize, i as usize);
    assert(0 <= j < n) by {
        if !backward && i + 1 < n {
            assert((i + 1) % n == i + 1) by (nonlinear_arith)
                requires 0 <= i + 1 < n;
        } else if !backward {
            assert((i + 1) % n == 0) by (nonlinear_arith)
                requires i + 1 == n, n > 0;
        }
    }
    lemma_first_position_found(order, order[j], j);
}

/// The text of a classification field after one frame of typing:
/// Backspace drops the last character, then Tab (in a tag field, with
/// Shift going backward) replaces the text with the next known tag, then
/// the typed characters are appended.
pub open spec fn edited_field(
    buf: Seq<char>,
    mode: EditMode,
    backspace: bool,
    tab: bool,
    shift: bool,
    typed: Seq<char>,
    m: Seq<(Seq<char>, Color)>,
) -> Seq<char> {
    let b1 = if backspace {
        without_last(buf)
    } else {
        buf
    };
    let b2 = if tab && mode == EditMode::Tag {
        match cycled_tag(m, b1, shift) {
            Some(t) => t,
            None => b1,
        }
    } else {
        b1
    };
    b2 + typed
}

/// Applies one frame of typing to the tag or ID being edited.
pub fn edit_field(
    buf: String,
    mode: EditMode,
    backspace: bool,
    tab: bool,
    shift: bool,
    typed: &str,
    colors: &TagColors,
) -> (r: String)
    ensures
        r@ == edited_field(buf@, mode, backspace, tab, shift, typed@, colors@),
{
    let mut b = buf;
    if backspace {
        pop_char(&mut b);
    }
    if tab && mode == EditMode::Tag {
        match cycle_known_tag(colors, b.as_str(), shift) {
            Some(t) => {
                b = t;
            },
            None => {},
        }
    }
    push_str(&mut b, typed);
    b
}

/// The sheet path being typed after one frame: the typed characters are
/// appended, then Backspace drops the last character.
pub open spec fn edited_path(buf: Seq<char>, typed: Seq<char>, backspace: bool) -> Seq<char> {
    if backspace {
        without_last(buf + typed)
    } else {
        buf + typed
    }
}

/// Applies one frame of typing to the sheet path being entered.
pub fn edit_path(buf: String, typed: &str, backspace: bool) -> (r: String)
    ensures
        r@ == edited_path(buf@, typed@, backspace),
{
    let mut b = buf;
    push_str(&mut b, typed);
    if backspace {
        pop_char(&mut b);
    }
    b
}

/// Selects `path` among the known sprite paths: a path already listed keeps
/// the list as it is; a new one is added and the list re-sorted. Returns the
/// position of `path` in the resulting list.
pub fn select_sprite_path(list: &mut Vec<String>, path: String) -> (i: usize)
    ensures
        views(old(list)@).contains(path@) ==> views(final(list)@) == views(old(list)@),
        !views(old(list)@).contains(path@) ==> views(final(list)@) == sorted_order(
            views(old(list)@).push(path@),
        ),
        first_position(views(final(list)@), path@) == Some(i as int),
        is_sorted(views(old(list)@)) || !views(old(list)@).contains(path@) ==> is_sorted(
            views(final(list)@),
        ),
{
    match position_of(list, path.as_str()) {
        Some(i) => {
            proof {
                lemma_first_position_bound(views(list@), path@);
            }
            i
        },
        None => {
            proof {
                lemma_first_position_absent_inv(views(list@), path@);
            }
            let ghost before = views(list@);
            let mut v = Vec::new();
            std::mem::swap(&mut v, list);
            v.push(path.clone());
            assert(views(v@) =~= before.push(path@));
            let sorted = sort_strings(v);
            *list = sorted;
            let r = position_of(list, path.as_str());
            proof {
                assert(before.push(path@)[before.len() as int] == path@);
                lemma_sorted_order_contains(before.push(path@), path@);
            }
            match r {
                Some(i) => i,
                None => {
                    proof {
                        lemma_first_position_absent_inv(views(list@), path@);
                        assert(false);
                    }
                    0
                },
            }
        },
    }
}

} // verus!
