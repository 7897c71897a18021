//! Short random-looking object IDs for new shapes and sprites.
//!
//! An ID is six lowercase alphanumeric characters. The first three encode
//! the sequence number (a per-process counter) scattered over the 46 656
//! three-character values, so IDs stay distinct even when many are made in
//! rapid succession: any two sequence numbers less than 46 656 apart give
//! different IDs, whatever the clock reads (see [`lemma_ids_distinct`]). The
//! last three mix the sub-second part of the clock with the sequence number,
//! so that IDs made in different sessions are likely to differ too. The counter and the
//! clock are read by the caller; this module does the mixing and the
//! encoding.

use vstd::prelude::*;
use vstd::wrapping::u64_specs::{wrapping_add, wrapping_mul};
use crate::text::push_char;
use vstd::arithmetic::div_mod::{lemma_fundamental_div_mod, lemma_fundamental_div_mod_converse, lemma_mod_breakdown, lemma_mod_multiples_vanish,
    lemma_small_mod};

verus! {

/// Number of characters in an ID.
pub const ID_LEN: usize = 6;

/// The `d`-th character of the ID alphabet `a..z0..9`.
pub open spec fn id_char(d: int) -> char {
    if d < 26 {
        (97 + d) as char
    } else {
        (48 + d - 26) as char
    }
}

/// `true` for the characters an ID may hold: `a`–`z` and `0`–`9`.
pub open spec fn is_id_char(c: char) -> bool {
    ('a' <= c && c <= 'z') || ('0' <= c && c <= '9')
}

/// The 64-bit mix of the clock and the sequence number.
#[verifier::opaque]
pub open spec fn id_hash(nanos: u32, seq: u64) -> u64 {
    let s = wrapping_add(wrapping_mul(seq, 6_364_136_223_846_793_005u64), 1u64);
    let h0 = wrapping_add(nanos as u64, s);
    let h1 = h0 ^ (h0 >> 33u64);
    let h2 = wrapping_mul(h1, 0xff51_afd7_ed55_8ccdu64);
    h2 ^ (h2 >> 33u64)
}

/// The `n` least significant base-36 digits of `v`, least significant first,
/// written in the ID alphabet.
pub open spec fn base36_digits(v: nat, n: nat) -> Seq<char>
    decreases n,
{
    if n == 0 {
        Seq::empty()
    } else {
        seq![id_char((v % 36) as int)] + base36_digits(v / 36, (n - 1) as nat)
    }
}

/// How many values the sequence part of an ID takes: `36³`.
pub const SEQ_SPAN: u64 = 46656;

/// The multiplier that scatters sequence numbers, a unit modulo `SEQ_SPAN`.
pub const SEQ_MUL: u64 = 30841;

/// Its inverse modulo `SEQ_SPAN`.
pub const SEQ_MUL_INV: u64 = 14665;

/// The offset added after scattering.
pub const SEQ_OFFSET: u64 = 17077;

/// The part of an ID that the sequence number fixes: its residue modulo
/// `SEQ_SPAN`, scattered by a bijection of `0..SEQ_SPAN`.
pub open spec fn seq_part(seq: u64) -> nat {
    (((seq % SEQ_SPAN) * SEQ_MUL + SEQ_OFFSET) % (SEQ_SPAN as int)) as nat
}

/// The part of an ID drawn from the clock, mixed with the sequence number.
pub open spec fn clock_part(nanos: u32, seq: u64) -> nat {
    (id_hash(nanos, seq) % SEQ_SPAN) as nat
}

/// The number an ID encodes: the clock part above the sequence part.
pub open spec fn id_value(nanos: u32, seq: u64) -> nat {
    clock_part(nanos, seq) * (SEQ_SPAN as nat) + seq_part(seq)
}

/// The ID made from clock reading `nanos` and sequence number `seq`.
pub open spec fn spec_random_id(nanos: u32, seq: u64) -> Seq<char> {
    base36_digits(id_value(nanos, seq), ID_LEN as nat)
}

fn exec_id_char(d: u64) -> (c: char)
    requires
        d < 36,
    ensures
        c == id_char(d as int),
{
    if d < 26 {
        let b: u8 = 97u8 + (d as u8);
        b as char
    } else {
        let b: u8 = 48u8 + ((d - 26) as u8);
        b as char
    }
}

fn exec_id_hash(nanos: u32, seq: u64) -> (h: u64)
    ensures
        h == id_hash(nanos, seq),
{
    reveal(id_hash);
    let mut h = (nanos as u64).wrapping_add(seq.wrapping_mul(6_364_136_223_846_793_005).wrapping_add(1));
    h = h ^ (h >> 33);
    h = h.wrapping_mul(0xff51_afd7_ed55_8ccd);
    h = h ^ (h >> 33);
    h
}

/// A six-character lowercase alphanumeric ID mixed from the clock's
/// sub-second nanoseconds `nanos` and the caller's sequence number `seq`.
pub fn random_id(nanos: u32, seq: u64) -> (id: String)
    ensures
        id@ == spec_random_id(nanos, seq),
{
    let low: u64 = ((seq % SEQ_SPAN) * SEQ_MUL + SEQ_OFFSET) % SEQ_SPAN;
    let high: u64 = exec_id_hash(nanos, seq) % SEQ_SPAN;
    assert(high * SEQ_SPAN <= 46655 * 46656) by (nonlinear_arith)
        requires
            high < 46656,
    ;
    let h: u64 = high * SEQ_SPAN + low;
    assert(h == id_value(nanos, seq));
    let mut id = String::new();
    let mut val = h;
    let mut i: usize = 0;
    while i < ID_LEN
        invariant
            i <= ID_LEN,
            h == id_value(nanos, seq),
            id@ + base36_digits(val as nat, (ID_LEN - i) as nat) == base36_digits(h as nat, ID_LEN as nat),
        decreases ID_LEN - i,
    {
        let c = exec_id_char(val % 36);
        let ghost before = id@;
        push_char(&mut id, c);
        proof {
            assert(base36_digits(val as nat, (ID_LEN - i) as nat) == seq![id_char((val % 36) as int)]
                + base36_digits((val / 36) as nat, (ID_LEN - i - 1) as nat));
            assert(id@ == before + seq![c]);
            assert(id@ + base36_digits((val / 36) as nat, (ID_LEN - i - 1) as nat) =~= before
                + base36_digits(val as nat, (ID_LEN - i) as nat));
        }
        val = val / 36;
        i = i + 1;
    }
    assert(id@ =~= id@ + base36_digits(val as nat, 0));
    id
}

proof fn lemma_base36_shape(v: nat, n: nat)
    ensures
        base36_digits(v, n).len() == n,
        forall|k: int| 0 <= k < n ==> is_id_char(#[trigger] base36_digits(v, n)[k]),
    decreases n,
{
    if n > 0 {
        lemma_base36_shape(v / 36, (n - 1) as nat);
        let d = (v % 36) as int;
        let head = seq![id_char(d)];
        assert(is_id_char(id_char(d)));
        let s = base36_digits(v, n);
        assert(s == head + base36_digits(v / 36, (n - 1) as nat));
        assert forall|k: int| 0 <= k < n implies is_id_char(#[trigger] s[k]) by {
            if k > 0 {
                assert(s[k] == base36_digits(v / 36, (n - 1) as nat)[k - 1]);
            }
        }
    }
}

/// Every ID is exactly six characters long and uses only `a`–`z` and `0`–`9`.
pub proof fn lemma_random_id_shape(nanos: u32, seq: u64)
    ensures
        spec_random_id(nanos, seq).len() == ID_LEN,
        forall|k: int| 0 <= k < ID_LEN ==> is_id_char(#[trigger] spec_random_id(nanos, seq)[k]),
{
    lemma_base36_shape(id_value(nanos, seq), ID_LEN as nat);
}

/// `36^n`.
pub open spec fn pow36(n: nat) -> nat
    decreases n,
{
    if n == 0 {
        1
    } else {
        36 * pow36((n - 1) as nat)
    }
}

proof fn lemma_id_char_injective(d1: int, d2: int)
    requires
        0 <= d1 < 36,
        0 <= d2 < 36,
        id_char(d1) == id_char(d2),
    ensures
        d1 == d2,
{
    assert((id_char(d1) as int) == (id_char(d2) as int));
}

/// Equal digit strings come from numbers equal modulo `36^n`.
proof fn lemma_digits_determine(v1: nat, v2: nat, n: nat)
    requires
        base36_digits(v1, n) == base36_digits(v2, n),
    ensures
        v1 % pow36(n) == v2 % pow36(n),
    decreases n,
{
    if n > 0 {
        let a = base36_digits(v1, n);
        let b = base36_digits(v2, n);
        let r1 = base36_digits(v1 / 36, (n - 1) as nat);
        let r2 = base36_digits(v2 / 36, (n - 1) as nat);
        assert(a[0] == id_char((v1 % 36) as int));
        assert(b[0] == id_char((v2 % 36) as int));
        lemma_id_char_injective((v1 % 36) as int, (v2 % 36) as int);
        assert(r1 =~= a.subrange(1, a.len() as int));
        assert(r2 =~= b.subrange(1, b.len() as int));
        lemma_digits_determine(v1 / 36, v2 / 36, (n - 1) as nat);
        lemma_pow36_pos((n - 1) as nat);
        lemma_mod_breakdown(v1 as int, 36, pow36((n - 1) as nat) as int);
        lemma_mod_breakdown(v2 as int, 36, pow36((n - 1) as nat) as int);
    } else {
        assert(v1 % 1 == 0 && v2 % 1 == 0);
    }
}

proof fn lemma_pow36_pos(n: nat)
    ensures
        pow36(n) > 0,
    decreases n,
{
    if n > 0 {
        lemma_pow36_pos((n - 1) as nat);
    }
}

/// The sequence part tells sequence numbers apart modulo `SEQ_SPAN`: the
/// scattering is undone by multiplying with the inverse.
proof fn lemma_seq_part_injective(s1: u64, s2: u64)
    requires
        seq_part(s1) == seq_part(s2),
    ensures
        s1 % SEQ_SPAN == s2 % SEQ_SPAN,
{
    lemma_seq_part_inverse(s1);
    lemma_seq_part_inverse(s2);
}

proof fn lemma_seq_part_inverse(s: u64)
    ensures
        ((SEQ_MUL_INV as int) * (seq_part(s) + SEQ_SPAN - SEQ_OFFSET)) % (SEQ_SPAN as int) == (s % SEQ_SPAN) as int,
{
    let k: int = 46656;
    let x: int = (s % SEQ_SPAN) as int;
    let y: int = seq_part(s) as int;
    let t: int = x * 30841 + 17077;
    lemma_fundamental_div_mod(t, k);
    let q: int = t / k;
    assert(t == k * q + y);
    assert(14665 * (y + k - 17077) == k * (9694 * x + 14665 * (1 - q)) + x) by (nonlinear_arith)
        requires
            x * 30841 + 17077 == k * q + y,
            k == 46656,
    ;
    lemma_mod_multiples_vanish(9694 * x + 14665 * (1 - q), x, k);
    assert(x % k == x);
}

proof fn lemma_pow36_six()
    ensures
        pow36(6) == 46656 * 46656,
{
    reveal_with_fuel(pow36, 7);
}

/// An ID's number is below `36^6`, and its sequence part is what is left
/// modulo `SEQ_SPAN`.
proof fn lemma_value_parts(nanos: u32, seq: u64)
    ensures
        id_value(nanos, seq) < 46656 * 46656,
        id_value(nanos, seq) % 46656 == seq_part(seq),
{
    let c = clock_part(nanos, seq) as int;
    let p = seq_part(seq) as int;
    let v = id_value(nanos, seq) as int;
    assert(v == c * 46656 + p);
    assert(0 <= c < 46656 && 0 <= p < 46656);
    assert(v < 46656 * 46656) by (nonlinear_arith)
        requires
            v == c * 46656 + p,
            0 <= c < 46656,
            0 <= p < 46656,
    ;
    lemma_fundamental_div_mod_converse(v, 46656, c, p);
}

/// IDs stay unique in rapid succession: two sequence numbers that differ
/// modulo `SEQ_SPAN` (so any two distinct ones less than `SEQ_SPAN` apart)
/// give different IDs, whatever the clock read at each call.
pub proof fn lemma_ids_distinct(nanos1: u32, seq1: u64, nanos2: u32, seq2: u64)
    requires
        seq1 % SEQ_SPAN != seq2 % SEQ_SPAN,
    ensures
        spec_random_id(nanos1, seq1) != spec_random_id(nanos2, seq2),
{
    let v1 = id_value(nanos1, seq1);
    let v2 = id_value(nanos2, seq2);
    if base36_digits(v1, 6) == base36_digits(v2, 6) {
        lemma_digits_determine(v1, v2, 6);
        lemma_pow36_six();
        lemma_value_parts(nanos1, seq1);
        lemma_value_parts(nanos2, seq2);
        lemma_small_mod(v1, 46656 * 46656);
        lemma_small_mod(v2, 46656 * 46656);
        assert(v1 == v2);
        lemma_seq_part_injective(seq1, seq2);
    }
}

/// The same law for sequence numbers given by their distance: distinct ones
/// less than `SEQ_SPAN` apart give different IDs.
pub proof fn lemma_close_ids_distinct(nanos1: u32, seq1: u64, nanos2: u32, seq2: u64)
    requires
        seq1 != seq2,
        seq1 < seq2 + SEQ_SPAN,
        seq2 < seq1 + SEQ_SPAN,
    ensures
        spec_random_id(nanos1, seq1) != spec_random_id(nanos2, seq2),
{
    if seq1 % SEQ_SPAN == seq2 % SEQ_SPAN {
        lemma_fundamental_div_mod(seq1 as int, 46656);
        lemma_fundamental_div_mod(seq2 as int, 46656);
        let q1 = seq1 as int / 46656;
        let q2 = seq2 as int / 46656;
        assert(q1 == q2) by (nonlinear_arith)
            requires
                seq1 == 46656 * q1 + seq1 % 46656,
                seq2 == 46656 * q2 + seq2 % 46656,
                seq1 % 46656 == seq2 % 46656,
                seq1 < seq2 + 46656,
                seq2 < seq1 + 46656,
        ;
    } else {
        lemma_ids_distinct(nanos1, seq1, nanos2, seq2);
    }
}

} // verus!
