//! Placement rules of the linked `in`/`out` portal pair.
//!
//! Placement alternates `in` → `out` → `in` …; a portal that a chain is
//! currently threading cannot be moved. Teleporting needs both portals. The
//! portal circles themselves (centers, radius, hit tests) belong to the
//! caller; this module decides which portal a placement moves and in which
//! direction a crossing goes.

use vstd::prelude::*;

verus! {

/// Which portal of the pair.
#[derive(Clone, Copy, Debug, PartialEq, Eq, Structural)]
pub enum Slot {
    In,
    Out,
}

/// Which portals have been placed, and which one the next placement targets.
#[derive(Clone, Copy, Debug, PartialEq, Eq, Structural)]
pub struct PortalSlots {
    pub in_placed: bool,
    pub out_placed: bool,
    pub next: Slot,
}

impl PortalSlots {
    /// No portal placed; the next placement is the `in` portal.
    pub fn new() -> (p: Self)
        ensures
            p == (PortalSlots { in_placed: false, out_placed: false, next: Slot::In }),
    {
        PortalSlots { in_placed: false, out_placed: false, next: Slot::In }
    }

    /// Forgets both portals (a level reset).
    pub fn clear(&mut self)
        ensures
            *final(self) == (PortalSlots { in_placed: false, out_placed: false, next: Slot::In }),
    {
        self.in_placed = false;
        self.out_placed = false;
        self.next = Slot::In;
    }

    /// Both portals exist, so teleporting is possible.
    pub fn active(&self) -> (b: bool)
        ensures
            b == (self.in_placed && self.out_placed),
    {
        self.in_placed && self.out_placed
    }

    /// Places (or re-places) the next portal. `blocked` is true while a chain
    /// threads the portals; an already placed portal is then not moved.
    /// Returns the portal whose center the caller should move, if any; the
    /// turn passes to the other portal exactly when one is returned.
    pub fn try_place(&mut self, blocked: bool) -> (moved: Option<Slot>)
        ensures
            (*final(self), moved) == place_result(*old(self), blocked),
    {
        match self.next {
            Slot::In => {
                if self.in_placed && blocked {
                    return None;
                }
                self.in_placed = true;
                self.next = Slot::Out;
                Some(Slot::In)
            },
            Slot::Out => {
                if self.out_placed && blocked {
                    return None;
                }
                self.out_placed = true;
                self.next = Slot::In;
                Some(Slot::Out)
            },
        }
    }

    /// The direction of a crossing for a point inside portal `inside` (as the
    /// caller's hit test found it): `+1` going `in` → `out`, `-1` going
    /// `out` → `in`, and no crossing unless both portals are placed.
    pub fn crossing(&self, inside: Option<Slot>) -> (d: Option<i32>)
        ensures
            d == if !(self.in_placed && self.out_placed) {
                None
            } else {
                match inside {
                    Some(Slot::In) => Some(1i32),
                    Some(Slot::Out) => Some(-1i32),
                    None => None,
                }
            },
    {
        if !self.active() {
            return None;
        }
        match inside {
            Some(Slot::In) => Some(1),
            Some(Slot::Out) => Some(-1),
            None => None,
        }
    }
}

/// The pair after a placement attempt, and the portal it moves.
pub open spec fn place_result(p: PortalSlots, blocked: bool) -> (PortalSlots, Option<Slot>) {
    match p.next {
        Slot::In => if p.in_placed && blocked {
            (p, None)
        } else {
            (PortalSlots { in_placed: true, next: Slot::Out, ..p }, Some(Slot::In))
        },
        Slot::Out => if p.out_placed && blocked {
            (p, None)
        } else {
            (PortalSlots { out_placed: true, next: Slot::In, ..p }, Some(Slot::Out))
        },
    }
}

/// From a cleared pair, the first two placements (a chain can only be
/// threading portals that are both placed, so neither is blocked) place the
/// `in` and then the `out` portal, making teleporting possible, and hand the
/// turn back to `in`. A blocked attempt on a placed portal changes nothing.
pub proof fn lemma_placements(b1: bool, b2: bool, p: PortalSlots, b: bool)
    ensures
        ({
            let cleared = PortalSlots { in_placed: false, out_placed: false, next: Slot::In };
            let (p1, m1) = place_result(cleared, b1);
            let (p2, m2) = place_result(p1, b2);
            &&& m1 == Some(Slot::In)
            &&& m2 == Some(Slot::Out)
            &&& p2.in_placed && p2.out_placed
            &&& p2.next == Slot::In
        }),
        b && (match p.next {
            Slot::In => p.in_placed,
            Slot::Out => p.out_placed,
        }) ==> place_result(p, b) == (p, None::<Slot>),
{
}

/// Placements alternate: a placement that moves a portal passes the turn to
/// the other one and leaves the moved portal placed; it always moves the
/// portal whose turn it was; and a refused placement changes nothing.
pub proof fn lemma_placement_alternates(p: PortalSlots, blocked: bool)
    ensures
        place_result(p, blocked).1 == Some(Slot::In) ==> place_result(p, blocked).0.next == Slot::Out
            && place_result(p, blocked).0.in_placed,
        place_result(p, blocked).1 == Some(Slot::Out) ==> place_result(p, blocked).0.next == Slot::In
            && place_result(p, blocked).0.out_placed,
        place_result(p, blocked).1 is Some ==> place_result(p, blocked).1 == Some(p.next),
        place_result(p, blocked).1 is None ==> place_result(p, blocked).0 == p,
        !blocked ==> place_result(p, blocked).1 == Some(p.next),
{
}

} // verus!
