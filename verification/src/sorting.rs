//! Lexicographic order on strings, and sorting lists of strings by it.
//!
//! The editor lists sprite paths and classification tags in sorted order and
//! cycles through them in that order.

use vstd::prelude::*;
use vstd::string::*;

verus! {

/// `a` sorts strictly before `b`: compared character by character by code
/// point, a proper prefix sorting first (the order of `str`'s `Ord`).
pub open spec fn str_lt(a: Seq<char>, b: Seq<char>) -> bool
    decreases a.len(),
{
    if b.len() == 0 {
        false
    } else if a.len() == 0 {
        true
    } else if a[0] != b[0] {
        (a[0] as int) < (b[0] as int)
    } else {
        str_lt(a.drop_first(), b.drop_first())
    }
}

/// No string sorts before itself.
pub proof fn lemma_str_lt_irreflexive(a: Seq<char>)
    ensures
        !str_lt(a, a),
    decreases a.len(),
{
    if a.len() > 0 {
        lemma_str_lt_irreflexive(a.drop_first());
    }
}

/// Two different strings are ordered one way or the other, never both.
pub proof fn lemma_str_lt_total(a: Seq<char>, b: Seq<char>)
    ensures
        a != b ==> (str_lt(a, b) || str_lt(b, a)),
        !(str_lt(a, b) && str_lt(b, a)),
    decreases a.len(),
{
    if a.len() > 0 && b.len() > 0 && a[0] == b[0] {
        lemma_str_lt_total(a.drop_first(), b.drop_first());
        if a.drop_first() == b.drop_first() {
            assert(a =~= seq![a[0]] + a.drop_first());
            assert(b =~= seq![b[0]] + b.drop_first());
        }
    } else if a.len() == 0 && b.len() == 0 {
        assert(a =~= b);
    }
}

/// The order is transitive.
pub proof fn lemma_str_lt_transitive(a: Seq<char>, b: Seq<char>, c: Seq<char>)
    requires
        str_lt(a, b),
        str_lt(b, c),
    ensures
        str_lt(a, c),
    decreases a.len(),
{
    if a.len() > 0 && a[0] == b[0] && b[0] == c[0] {
        lemma_str_lt_transitive(a.drop_first(), b.drop_first(), c.drop_first());
    }
}

/// "Not after" is transitive too.
pub proof fn lemma_str_le_transitive(a: Seq<char>, b: Seq<char>, c: Seq<char>)
    requires
        !str_lt(b, a),
        !str_lt(c, b),
    ensures
        !str_lt(c, a),
{
    if str_lt(c, a) {
        lemma_str_lt_total(a, b);
        if a == b {
        } else {
            lemma_str_lt_transitive(c, a, b);
        }
    }
}

/// `true` exactly when `a` sorts strictly before `b`.
pub fn str_less(a: &str, b: &str) -> (r: bool)
    ensures
        r == str_lt(a@, b@),
{
    let la = a.unicode_len();
    let lb = b.unicode_len();
    let mut i: usize = 0;
    assert(a@.skip(0) =~= a@ && b@.skip(0) =~= b@);
    while i < la && i < lb
        invariant
            la == a@.len(),
            lb == b@.len(),
            i <= la,
            i <= lb,
            str_lt(a@, b@) == str_lt(a@.skip(i as int), b@.skip(i as int)),
        decreases la - i,
    {
        let ca = a.get_char(i);
        let cb = b.get_char(i);
        if ca != cb {
            return (ca as u32) < (cb as u32);
        }
        proof {
            assert(a@.skip(i as int).drop_first() =~= a@.skip(i + 1));
            assert(b@.skip(i as int).drop_first() =~= b@.skip(i + 1));
        }
        i = i + 1;
    }
    i < lb
}

/// The characters of each string of a list.
pub open spec fn views(v: Seq<String>) -> Seq<Seq<char>> {
    v.map_values(|s: String| s@)
}

/// `s` is in non-decreasing order.
pub open spec fn is_sorted(s: Seq<Seq<char>>) -> bool {
    forall|i: int, j: int| 0 <= i < j < s.len() ==> !str_lt(#[trigger] s[j], #[trigger] s[i])
}

/// The strings of `s` in sorted order, duplicates kept.
pub open spec fn sorted_order(s: Seq<Seq<char>>) -> Seq<Seq<char>> {
    choose|t: Seq<Seq<char>>| is_sorted(t) && t.to_multiset() == s.to_multiset()
}

/// Two sorted lists holding the same strings are the same list.
pub proof fn lemma_sorted_unique(s: Seq<Seq<char>>, t: Seq<Seq<char>>)
    requires
        is_sorted(s),
        is_sorted(t),
        s.to_multiset() == t.to_multiset(),
    ensures
        s == t,
    decreases s.len(),
{
    broadcast use vstd::seq_lib::group_to_multiset_ensures;

    assert(s.to_multiset().len() == s.len() && t.to_multiset().len() == t.len());
    if s.len() == 0 {
        assert(t.len() == 0);
        assert(s =~= t);
    } else {
        assert(t.len() == s.len());
        let a = s[0];
        let b = t[0];
        assert(s.contains(a));
        assert(t.to_multiset().count(a) > 0);
        assert(t.contains(a));
        let k = choose|k: int| 0 <= k < t.len() && t[k] == a;
        if k > 0 {
            assert(!str_lt(t[k], t[0]));
        } else {
            lemma_str_lt_irreflexive(a);
        }
        assert(t.contains(b));
        assert(s.to_multiset().count(b) > 0);
        assert(s.contains(b));
        let m = choose|m: int| 0 <= m < s.len() && s[m] == b;
        if m > 0 {
            assert(!str_lt(s[m], s[0]));
        } else {
            lemma_str_lt_irreflexive(b);
        }
        lemma_str_lt_total(a, b);
        assert(a == b);
        let s1 = s.remove(0);
        let t1 = t.remove(0);
        assert(s1.to_multiset() == t1.to_multiset());
        assert(is_sorted(s1)) by {
            assert forall|i: int, j: int| 0 <= i < j < s1.len() implies !str_lt(
                #[trigger] s1[j],
                #[trigger] s1[i],
            ) by {
                assert(s1[i] == s[i + 1] && s1[j] == s[j + 1]);
            }
        }
        assert(is_sorted(t1)) by {
            assert forall|i: int, j: int| 0 <= i < j < t1.len() implies !str_lt(
                #[trigger] t1[j],
                #[trigger] t1[i],
            ) by {
                assert(t1[i] == t[i + 1] && t1[j] == t[j + 1]);
            }
        }
        lemma_sorted_unique(s1, t1);
        assert(s =~= t) by {
            assert forall|i: int| 0 <= i < s.len() implies s[i] == t[i] by {
                if i > 0 {
                    assert(s[i] == s1[i - 1] && t[i] == t1[i - 1]);
                }
            }
        }
    }
}

/// A sorted list is its own sorted order.
pub proof fn lemma_sorted_order_of_sorted(s: Seq<Seq<char>>, t: Seq<Seq<char>>)
    requires
        is_sorted(s),
        s.to_multiset() == t.to_multiset(),
    ensures
        sorted_order(t) == s,
{
    let u = sorted_order(t);
    assert(is_sorted(s) && s.to_multiset() == t.to_multiset());
    assert(is_sorted(u) && u.to_multiset() == t.to_multiset());
    lemma_sorted_unique(s, u);
}

/// Inserting `x` at `p`, after everything that sorts before it and before
/// everything else, keeps a list sorted.
proof fn lemma_insert_sorted(o: Seq<Seq<char>>, p: int, x: Seq<char>)
    requires
        is_sorted(o),
        0 <= p <= o.len(),
        forall|k: int| 0 <= k < p ==> str_lt(#[trigger] o[k], x),
        p < o.len() ==> !str_lt(o[p], x),
    ensures
        is_sorted(o.insert(p, x)),
{
    let n = o.insert(p, x);
    assert forall|i: int, j: int| 0 <= i < j < n.len() implies !str_lt(#[trigger] n[j], #[trigger] n[i]) by {
        if j < p {
            assert(n[i] == o[i] && n[j] == o[j]);
        } else if j == p {
            assert(n[i] == o[i] && n[j] == x);
            lemma_str_lt_total(o[i], x);
        } else if i < p {
            assert(n[i] == o[i] && n[j] == o[j - 1]);
        } else if i == p {
            assert(n[i] == x && n[j] == o[j - 1]);
            if j - 1 > p {
                assert(!str_lt(o[j - 1], o[p]));
            } else {
                lemma_str_lt_irreflexive(o[p]);
            }
            lemma_str_le_transitive(x, o[p], o[j - 1]);
        } else {
            assert(n[i] == o[i - 1] && n[j] == o[j - 1]);
        }
    }
}

/// Where `x` goes into the sorted list `t`: after the leading entries that
/// sort before it.
spec fn insert_pos(t: Seq<Seq<char>>, x: Seq<char>) -> int
    decreases t.len(),
{
    if t.len() == 0 || !str_lt(t[0], x) {
        0
    } else {
        1 + insert_pos(t.drop_first(), x)
    }
}

proof fn lemma_insert_pos(t: Seq<Seq<char>>, x: Seq<char>)
    ensures
        0 <= insert_pos(t, x) <= t.len(),
        forall|k: int| 0 <= k < insert_pos(t, x) ==> str_lt(#[trigger] t[k], x),
        insert_pos(t, x) < t.len() ==> !str_lt(t[insert_pos(t, x)], x),
    decreases t.len(),
{
    if t.len() > 0 && str_lt(t[0], x) {
        let r = t.drop_first();
        lemma_insert_pos(r, x);
        assert forall|k: int| 0 <= k < insert_pos(t, x) implies str_lt(#[trigger] t[k], x) by {
            if k > 0 {
                assert(t[k] == r[k - 1]);
            }
        }
    }
}

/// Every list of strings has a sorted arrangement, so `sorted_order` is one.
pub proof fn lemma_sorted_order(s: Seq<Seq<char>>)
    ensures
        is_sorted(sorted_order(s)),
        sorted_order(s).to_multiset() == s.to_multiset(),
        sorted_order(s).len() == s.len(),
    decreases s.len(),
{
    broadcast use vstd::seq_lib::group_to_multiset_ensures;
    broadcast use vstd::multiset::group_multiset_axioms;

    if s.len() == 0 {
        assert(is_sorted(s) && s.to_multiset() == s.to_multiset());
        lemma_sorted_order_of_sorted(s, s);
    } else {
        let front = s.drop_last();
        let x = s.last();
        lemma_sorted_order(front);
        let t = sorted_order(front);
        lemma_insert_pos(t, x);
        let p = insert_pos(t, x);
        lemma_insert_sorted(t, p, x);
        let u = t.insert(p, x);
        vstd::seq_lib::to_multiset_insert(t, p, x);
        assert(s =~= front.push(x));
        vstd::seq_lib::to_multiset_build(front, x);
        assert(u.to_multiset() =~= s.to_multiset());
        lemma_sorted_order_of_sorted(u, s);
    }
    assert(sorted_order(s).to_multiset().len() == sorted_order(s).len());
}

/// Sorting a sorted arrangement changes nothing.
pub proof fn lemma_sorted_order_idempotent(s: Seq<Seq<char>>)
    ensures
        sorted_order(sorted_order(s)) == sorted_order(s),
{
    lemma_sorted_order(s);
    lemma_sorted_order_of_sorted(sorted_order(s), sorted_order(s));
}

/// Lists holding the same strings, in any order, sort the same.
pub proof fn lemma_sorted_order_ignores_order(s: Seq<Seq<char>>, t: Seq<Seq<char>>)
    requires
        s.to_multiset() == t.to_multiset(),
    ensures
        sorted_order(s) == sorted_order(t),
{
    lemma_sorted_order(s);
    lemma_sorted_order_of_sorted(sorted_order(s), t);
}

/// The position at which `x` goes into the sorted list `out`: after every
/// entry that sorts before it.
fn insertion_point(out: &Vec<String>, x: &str) -> (p: usize)
    requires
        is_sorted(views(out@)),
    ensures
        p <= out@.len(),
        forall|k: int| 0 <= k < p ==> str_lt(#[trigger] views(out@)[k], x@),
        p < out@.len() ==> !str_lt(views(out@)[p as int], x@),
{
    let mut p: usize = 0;
    while p < out.len()
        invariant
            p <= out@.len(),
            forall|k: int| 0 <= k < p ==> str_lt(#[trigger] views(out@)[k], x@),
        decreases out@.len() - p,
    {
        if !str_less(out[p].as_str(), x) {
            return p;
        }
        p = p + 1;
    }
    p
}

/// Sorts a list of strings (the order of `str`'s `Ord`, duplicates kept).
pub fn sort_strings(v: Vec<String>) -> (out: Vec<String>)
    ensures
        views(out@) == sorted_order(views(v@)),
        is_sorted(views(out@)),
        views(out@).to_multiset() == views(v@).to_multiset(),
{
    broadcast use vstd::seq_lib::group_to_multiset_ensures;
    broadcast use vstd::multiset::group_multiset_axioms;

    let ghost orig = views(v@);
    let mut rest = v;
    let mut out: Vec<String> = Vec::new();
    assert(views(out@) =~= Seq::<Seq<char>>::empty());
    assert(views(rest@).to_multiset().add(views(out@).to_multiset()) =~= orig.to_multiset());
    while rest.len() > 0
        invariant
            is_sorted(views(out@)),
            views(rest@).to_multiset().add(views(out@).to_multiset()) == orig.to_multiset(),
        decreases rest@.len(),
    {
        let ghost r0 = views(rest@);
        let ghost o0 = views(out@);
        let s = rest.pop().unwrap();
        proof {
            assert(r0 =~= views(rest@).push(s@));
            vstd::seq_lib::to_multiset_build(views(rest@), s@);
            assert(r0.to_multiset() == views(rest@).to_multiset().insert(s@));
        }
        let p = insertion_point(&out, s.as_str());
        out.insert(p, s);
        proof {
            assert(views(out@) =~= o0.insert(p as int, s@));
            vstd::seq_lib::to_multiset_insert(o0, p as int, s@);
            assert(views(out@).to_multiset() == o0.to_multiset().insert(s@));
            lemma_insert_sorted(o0, p as int, s@);
            assert(views(rest@).to_multiset().add(views(out@).to_multiset()) =~= orig.to_multiset());
        }
    }
    proof {
        assert(views(rest@) =~= Seq::<Seq<char>>::empty());
        assert(views(out@).to_multiset() =~= orig.to_multiset());
        lemma_sorted_order_of_sorted(views(out@), orig);
    }
    out
}

} // verus!
