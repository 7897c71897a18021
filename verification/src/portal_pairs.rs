//! Linked portal pairs: portals are placed one at a time, every second one
//! completing a pair with the one waiting; each portal opens, idles and
//! closes through its own animation, and a pair disappears once both of its
//! portals have finished closing.
//!
//! Circles and hit tests are floating-point and stay with the caller, which
//! advances each portal's animation before calling [`Portals::update`] and
//! hands [`Portals::find_entry`] its hit-test verdicts.

use vstd::prelude::*;
use crate::animation::Playback;
use crate::color::Color;

verus! {

/// Sprite-sheet rows of a portal's animations.
pub const ROW_IDLE: u32 = 0;
pub const ROW_OPENING: u32 = 1;
pub const ROW_CLOSING: u32 = 2;

/// Number of colors pairs are tagged with, in turn.
pub const PAIR_COLOR_COUNT: usize = 10;

/// The phase of one portal.
#[derive(Clone, Copy, Debug, PartialEq, Eq, Structural)]
pub enum PortalPhase {
    Opening,
    Idle,
    Closing,
}

/// One portal: its center (`f32` bit patterns), whether it uses the green
/// sheet (the second of a pair) or the purple one, its phase and animation.
#[derive(Clone, Copy, Debug, PartialEq, Eq, Structural)]
pub struct PortalInstance {
    pub x: u32,
    pub y: u32,
    pub green: bool,
    pub phase: PortalPhase,
    pub anim: Playback,
}

/// Two linked portals and the color that marks them as a pair.
#[derive(Clone, Copy, Debug, PartialEq, Eq, Structural)]
pub struct PortalPair {
    pub a: PortalInstance,
    pub b: PortalInstance,
    pub color: Color,
}

/// All pairs, and the portal waiting for its partner.
#[derive(Clone, Debug)]
pub struct Portals {
    pub pairs: Vec<PortalPair>,
    pub pending: Option<PortalInstance>,
}

/// The colors of successive pairs: red, sky blue, yellow, lime, pink,
/// orange, violet, dark green, brown, dark purple.
pub open spec fn pair_color(i: int) -> Color {
    if i == 0 {
        Color { r: 230, g: 41, b: 55, a: 255 }
    } else if i == 1 {
        Color { r: 102, g: 191, b: 255, a: 255 }
    } else if i == 2 {
        Color { r: 253, g: 249, b: 0, a: 255 }
    } else if i == 3 {
        Color { r: 0, g: 158, b: 47, a: 255 }
    } else if i == 4 {
        Color { r: 255, g: 109, b: 194, a: 255 }
    } else if i == 5 {
        Color { r: 255, g: 161, b: 0, a: 255 }
    } else if i == 6 {
        Color { r: 135, g: 60, b: 190, a: 255 }
    } else if i == 7 {
        Color { r: 0, g: 117, b: 44, a: 255 }
    } else if i == 8 {
        Color { r: 127, g: 106, b: 79, a: 255 }
    } else {
        Color { r: 112, g: 31, b: 126, a: 255 }
    }
}

fn pair_color_at(i: usize) -> (c: Color)
    requires
        i < PAIR_COLOR_COUNT,
    ensures
        c == pair_color(i as int),
{
    if i == 0 {
        Color::new(230, 41, 55, 255)
    } else if i == 1 {
        Color::new(102, 191, 255, 255)
    } else if i == 2 {
        Color::new(253, 249, 0, 255)
    } else if i == 3 {
        Color::new(0, 158, 47, 255)
    } else if i == 4 {
        Color::new(255, 109, 194, 255)
    } else if i == 5 {
        Color::new(255, 161, 0, 255)
    } else if i == 6 {
        Color::new(135, 60, 190, 255)
    } else if i == 7 {
        Color::new(0, 117, 44, 255)
    } else if i == 8 {
        Color::new(127, 106, 79, 255)
    } else {
        Color::new(112, 31, 126, 255)
    }
}

/// A freshly placed portal: opening, playing the one-shot opening row.
pub open spec fn opened(x: u32, y: u32, green: bool) -> PortalInstance {
    PortalInstance {
        x,
        y,
        green,
        phase: PortalPhase::Opening,
        anim: Playback { row: ROW_OPENING, current: 0, looping: false, finished: false },
    }
}

/// A portal told to close: a closing one is left as it is; any other starts
/// the one-shot closing row.
pub open spec fn closing(p: PortalInstance) -> PortalInstance {
    if p.phase == PortalPhase::Closing {
        p
    } else {
        PortalInstance {
            phase: PortalPhase::Closing,
            anim: Playback { row: ROW_CLOSING, current: 0, looping: false, finished: false },
            ..p
        }
    }
}

/// A portal after its animation moved: one that has finished opening turns
/// idle and loops the idle row.
pub open spec fn settled(p: PortalInstance) -> PortalInstance {
    if p.phase == PortalPhase::Opening && p.anim.finished {
        PortalInstance {
            phase: PortalPhase::Idle,
            anim: Playback { row: ROW_IDLE, current: 0, looping: true, finished: false },
            ..p
        }
    } else {
        p
    }
}

/// A portal that has finished closing.
pub open spec fn gone(p: PortalInstance) -> bool {
    p.phase == PortalPhase::Closing && p.anim.finished
}

/// The pairs after an update: each portal settled, and the pairs whose two
/// portals are both gone dropped.
pub open spec fn updated_pairs(s: Seq<PortalPair>) -> Seq<PortalPair>
    decreases s.len(),
{
    if s.len() == 0 {
        Seq::empty()
    } else {
        let q = s.last();
        let u = PortalPair { a: settled(q.a), b: settled(q.b), ..q };
        updated_pairs(s.drop_last()) + if gone(u.a) && gone(u.b) {
            Seq::empty()
        } else {
            seq![u]
        }
    }
}

/// The waiting portal after an update: settled, or dropped once gone.
pub open spec fn updated_pending(p: Option<PortalInstance>) -> Option<PortalInstance> {
    match p {
        Some(i) => if gone(settled(i)) {
            None
        } else {
            Some(settled(i))
        },
        None => None,
    }
}

/// A portal can be entered when it is not closing, is not the excluded
/// one, and contains the point.
pub open spec fn enterable(p: PortalInstance, inside: bool, excluded: bool) -> bool {
    p.phase != PortalPhase::Closing && !excluded && inside
}

/// The first portal, pair by pair and `a` before `b`, that can be entered:
/// the pair's position and `true` when `a` is the entry (`b` the exit).
pub open spec fn first_entry(s: Seq<PortalPair>, inside: Seq<(bool, bool)>, excluded: Seq<(bool, bool)>) -> Option<
    (int, bool),
>
    decreases s.len(),
{
    if s.len() == 0 {
        None
    } else if enterable(s[0].a, inside[0].0, excluded[0].0) {
        Some((0, true))
    } else if enterable(s[0].b, inside[0].1, excluded[0].1) {
        Some((0, false))
    } else {
        match first_entry(s.drop_first(), inside.drop_first(), excluded.drop_first()) {
            Some((i, w)) => Some((i + 1, w)),
            None => None,
        }
    }
}

impl PortalInstance {
    /// A portal at `(x, y)` that starts opening.
    pub fn new_open(x: u32, y: u32, green: bool) -> (p: Self)
        ensures
            p == opened(x, y, green),
    {
        PortalInstance { x, y, green, phase: PortalPhase::Opening, anim: Playback::new(ROW_OPENING, false) }
    }

    /// Starts closing, unless already closing.
    pub fn start_closing(&mut self)
        ensures
            *final(self) == closing(*old(self)),
    {
        if self.phase == PortalPhase::Closing {
            return;
        }
        self.phase = PortalPhase::Closing;
        self.anim = Playback::new(ROW_CLOSING, false);
    }

    /// Moves on from opening to idle once the opening animation has finished.
    pub fn update(&mut self)
        ensures
            *final(self) == settled(*old(self)),
    {
        if self.phase == PortalPhase::Opening && self.anim.is_finished() {
            self.phase = PortalPhase::Idle;
            self.anim = Playback::new(ROW_IDLE, true);
        }
    }

    /// `true` once the portal has finished closing.
    pub fn is_gone(&self) -> (b: bool)
        ensures
            b == gone(*self),
    {
        self.phase == PortalPhase::Closing && self.anim.is_finished()
    }
}

impl Portals {
    /// No portals.
    pub fn new() -> (p: Self)
        ensures
            p.pairs@ == Seq::<PortalPair>::empty(),
            p.pending is None,
    {
        Portals { pairs: Vec::new(), pending: None }
    }

    /// Places a portal at `(x, y)`. With none waiting it waits (purple);
    /// otherwise it completes a pair with the waiting one (green), tagged
    /// with the next color in turn.
    pub fn place(&mut self, x: u32, y: u32)
        ensures
            match old(self).pending {
                None => final(self).pending == Some(opened(x, y, false)) && final(self).pairs@ == old(
                    self,
                ).pairs@,
                Some(first) => final(self).pending is None && final(self).pairs@ == old(self).pairs@.push(
                    PortalPair {
                        a: first,
                        b: opened(x, y, true),
                        color: pair_color(old(self).pairs@.len() as int % PAIR_COLOR_COUNT as int),
                    },
                ),
            },
    {
        let instance = PortalInstance::new_open(x, y, self.pending.is_some());
        match self.pending {
            None => {
                self.pending = Some(instance);
            },
            Some(first) => {
                let color = pair_color_at(self.pairs.len() % PAIR_COLOR_COUNT);
                self.pairs.push(PortalPair { a: first, b: instance, color });
                self.pending = None;
            },
        }
    }

    /// Settles every portal (after the caller advanced their animations) and
    /// drops the pairs, and the waiting portal, that have finished closing.
    pub fn update(&mut self)
        ensures
            final(self).pairs@ == updated_pairs(old(self).pairs@),
            final(self).pending == updated_pending(old(self).pending),
    {
        let ghost before = self.pairs@;
        let mut kept: Vec<PortalPair> = Vec::new();
        let mut i: usize = 0;
        while i < self.pairs.len()
            invariant
                self.pairs@ == before,
                i <= before.len(),
                kept@ == updated_pairs(before.take(i as int)),
            decreases before.len() - i,
        {
            proof {
                assert(before.take(i + 1).drop_last() =~= before.take(i as int));
            }
            let q = self.pairs[i];
            let mut a = q.a;
            let mut b = q.b;
            a.update();
            b.update();
            if !(a.is_gone() && b.is_gone()) {
                kept.push(PortalPair { a, b, color: q.color });
            }
            proof {
                assert(kept@ =~= updated_pairs(before.take(i + 1)));
            }
            i = i + 1;
        }
        proof {
            assert(before.take(i as int) =~= before);
        }
        self.pairs = kept;
        match self.pending {
            Some(p) => {
                let mut p = p;
                p.update();
                if p.is_gone() {
                    self.pending = None;
                } else {
                    self.pending = Some(p);
                }
            },
            None => {},
        }
    }

    /// Tells every portal to close.
    pub fn start_closing_all(&mut self)
        ensures
            final(self).pairs@.len() == old(self).pairs@.len(),
            forall|i: int| 0 <= i < old(self).pairs@.len() ==> #[trigger] final(self).pairs@[i] == (PortalPair {
                a: closing(old(self).pairs@[i].a),
                b: closing(old(self).pairs@[i].b),
                ..old(self).pairs@[i]
            }),
            final(self).pending == match old(self).pending {
                Some(p) => Some(closing(p)),
                None => None,
            },
    {
        let ghost before = self.pairs@;
        let ghost pend = self.pending;
        let mut i: usize = 0;
        while i < self.pairs.len()
            invariant
                self.pending == pend,
                i <= self.pairs@.len(),
                self.pairs@.len() == before.len(),
                forall|k: int| 0 <= k < i ==> #[trigger] self.pairs@[k] == (PortalPair {
                    a: closing(before[k].a),
                    b: closing(before[k].b),
                    ..before[k]
                }),
                forall|k: int| i <= k < before.len() ==> #[trigger] self.pairs@[k] == before[k],
            decreases before.len() - i,
        {
            let q = self.pairs[i];
            let mut a = q.a;
            let mut b = q.b;
            a.start_closing();
            b.start_closing();
            self.pairs.set(i, PortalPair { a, b, color: q.color });
            i = i + 1;
        }
        match self.pending {
            Some(p) => {
                let mut p = p;
                p.start_closing();
                self.pending = Some(p);
            },
            None => {},
        }
    }

    /// `true` when every portal has finished closing.
    pub fn is_finished_closing(&self) -> (b: bool)
        ensures
            b == ((forall|i: int| 0 <= i < self.pairs@.len() ==> gone(#[trigger] self.pairs@[i].a) && gone(
                self.pairs@[i].b,
            )) && match self.pending {
                Some(p) => gone(p),
                None => true,
            }),
    {
        let mut i: usize = 0;
        while i < self.pairs.len()
            invariant
                i <= self.pairs@.len(),
                forall|k: int| 0 <= k < i ==> gone(#[trigger] self.pairs@[k].a) && gone(self.pairs@[k].b),
            decreases self.pairs@.len() - i,
        {
            if !(self.pairs[i].a.is_gone() && self.pairs[i].b.is_gone()) {
                return false;
            }
            i = i + 1;
        }
        match self.pending {
            Some(p) => p.is_gone(),
            None => true,
        }
    }

    /// The portal a point enters: the first pair (in order, `a` before `b`)
    /// whose portal is not closing, is not the excluded one and contains the
    /// point. `inside` and `excluded` give, pair by pair, the caller's hit
    /// test and exclusion verdicts for `a` and `b`. Returns the pair's
    /// position and `true` when `a` is the entry.
    pub fn find_entry(&self, inside: &[(bool, bool)], excluded: &[(bool, bool)]) -> (r: Option<(usize, bool)>)
        requires
            inside@.len() == self.pairs@.len(),
            excluded@.len() == self.pairs@.len(),
        ensures
            match r {
                Some((i, w)) => first_entry(self.pairs@, inside@, excluded@) == Some((i as int, w)),
                None => first_entry(self.pairs@, inside@, excluded@) is None,
            },
    {
        let mut i: usize = 0;
        assert(self.pairs@.skip(0) =~= self.pairs@);
        assert(inside@.skip(0) =~= inside@);
        assert(excluded@.skip(0) =~= excluded@);
        while i < self.pairs.len()
            invariant
                i <= self.pairs@.len(),
                inside@.len() == self.pairs@.len(),
                excluded@.len() == self.pairs@.len(),
                first_entry(self.pairs@, inside@, excluded@) == shifted(
                    first_entry(self.pairs@.skip(i as int), inside@.skip(i as int), excluded@.skip(i as int)),
                    i as int,
                ),
            decreases self.pairs@.len() - i,
        {
            let q = self.pairs[i];
            let (in_a, in_b) = inside[i];
            let (ex_a, ex_b) = excluded[i];
            proof {
                let s = self.pairs@.skip(i as int);
                assert(s[0] == q);
                assert(inside@.skip(i as int)[0] == (in_a, in_b));
                assert(excluded@.skip(i as int)[0] == (ex_a, ex_b));
                assert(s.drop_first() =~= self.pairs@.skip(i + 1));
                assert(inside@.skip(i as int).drop_first() =~= inside@.skip(i + 1));
                assert(excluded@.skip(i as int).drop_first() =~= excluded@.skip(i + 1));
            }
            if q.a.phase != PortalPhase::Closing && !ex_a && in_a {
                return Some((i, true));
            }
            if q.b.phase != PortalPhase::Closing && !ex_b && in_b {
                return Some((i, false));
            }
            i = i + 1;
        }
        proof {
            assert(self.pairs@.skip(i as int).len() == 0);
        }
        None
    }
}

/// `r` with its position moved on by `k`.
pub open spec fn shifted(r: Option<(int, bool)>, k: int) -> Option<(int, bool)> {
    match r {
        Some((i, w)) => Some((i + k, w)),
        None => None,
    }
}

/// Telling a portal to close twice is the same as telling it once.
pub proof fn lemma_closing_idempotent(p: PortalInstance)
    ensures
        closing(closing(p)) == closing(p),
        closing(p).phase == PortalPhase::Closing,
{
}

/// Once every portal has finished closing, the next update removes them all.
pub proof fn lemma_update_clears_closed(pairs: Seq<PortalPair>, pending: Option<PortalInstance>)
    requires
        forall|i: int| 0 <= i < pairs.len() ==> gone(#[trigger] pairs[i].a) && gone(pairs[i].b),
        pending matches Some(p) ==> gone(p),
    ensures
        updated_pairs(pairs) == Seq::<PortalPair>::empty(),
        updated_pending(pending) is None,
    decreases pairs.len(),
{
    if pairs.len() > 0 {
        let front = pairs.drop_last();
        assert forall|i: int| 0 <= i < front.len() implies gone(#[trigger] front[i].a) && gone(front[i].b) by {
            assert(front[i] == pairs[i]);
        }
        lemma_update_clears_closed(front, None);
        assert(gone(pairs.last().a) && gone(pairs.last().b));
        assert(updated_pairs(pairs) =~= Seq::<PortalPair>::empty());
    }
}

} // verus!
