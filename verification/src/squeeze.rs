//! Squeezable objects: round obstacles that a chain looped tightly around
//! crushes. This module keeps their identities and which still stand; the
//! geometry of "cinched" is worked out by the caller, one verdict per object.

use vstd::prelude::*;

verus! {

/// One squeezable object. Position and radius are `f32` bit patterns.
#[derive(Clone, Copy, Debug, PartialEq, Eq, Structural)]
pub struct Squeezable {
    pub id: u32,
    pub x: u32,
    pub y: u32,
    pub radius: u32,
    /// `false` once crushed; crushed objects neither collide nor draw.
    pub alive: bool,
}

/// All squeezable objects of a level, in spawn order.
#[derive(Clone, Debug)]
pub struct Squeezables {
    items: Vec<Squeezable>,
    next_id: u32,
}

impl View for Squeezables {
    type V = Seq<Squeezable>;

    closed spec fn view(&self) -> Seq<Squeezable> {
        self.items@
    }
}

/// Every object's ID is its spawn position, so IDs never repeat.
pub open spec fn ids_by_spawn(s: Seq<Squeezable>) -> bool {
    forall|i: int| 0 <= i < s.len() ==> (#[trigger] s[i]).id == i
}

/// The objects that a crushing pass over `s` crushes: those still standing
/// whose verdict in `cinched` is `true`, in order.
pub open spec fn crushed(s: Seq<Squeezable>, cinched: Seq<bool>) -> Seq<Squeezable>
    decreases s.len(),
{
    if s.len() == 0 {
        Seq::empty()
    } else {
        let last = s.len() - 1;
        crushed(s.drop_last(), cinched.take(last)) + if s[last].alive && cinched[last] {
            seq![s[last]]
        } else {
            Seq::empty()
        }
    }
}

/// The objects after a crushing pass: the crushed ones no longer stand.
pub open spec fn after_crush(s: Seq<Squeezable>, cinched: Seq<bool>) -> Seq<Squeezable> {
    Seq::new(s.len(), |i: int| Squeezable { alive: s[i].alive && !cinched[i], ..s[i] })
}

/// The standing objects of `s`, in order.
pub open spec fn standing(s: Seq<Squeezable>) -> Seq<Squeezable>
    decreases s.len(),
{
    if s.len() == 0 {
        Seq::empty()
    } else {
        standing(s.drop_last()) + if s.last().alive {
            seq![s.last()]
        } else {
            Seq::empty()
        }
    }
}

impl Squeezables {
    /// IDs follow spawn order and the next ID is the number spawned.
    pub closed spec fn wf(&self) -> bool {
        &&& ids_by_spawn(self.items@)
        &&& self.next_id == self.items@.len()
    }

    /// No objects.
    pub fn new() -> (s: Self)
        ensures
            s.wf(),
            s@ == Seq::<Squeezable>::empty(),
    {
        Squeezables { items: Vec::new(), next_id: 0 }
    }

    /// Number of objects spawned.
    pub fn len(&self) -> (n: usize)
        ensures
            n == self@.len(),
    {
        self.items.len()
    }

    /// All objects, standing or crushed, in spawn order.
    pub fn items(&self) -> (s: &[Squeezable])
        ensures
            s@ == self@,
    {
        self.items.as_slice()
    }

    /// Adds a standing object and returns its ID, the number of objects
    /// spawned before it.
    pub fn spawn(&mut self, x: u32, y: u32, radius: u32) -> (id: u32)
        requires
            old(self).wf(),
            old(self)@.len() < u32::MAX,
        ensures
            final(self).wf(),
            id == old(self)@.len(),
            final(self)@ == old(self)@.push(Squeezable { id, x, y, radius, alive: true }),
    {
        let id = self.next_id;
        self.next_id = self.next_id + 1;
        self.items.push(Squeezable { id, x, y, radius, alive: true });
        id
    }

    /// Stands every object up again, as when a level restarts.
    pub fn revive_all(&mut self)
        requires
            old(self).wf(),
        ensures
            final(self).wf(),
            final(self)@.len() == old(self)@.len(),
            forall|i: int| 0 <= i < old(self)@.len() ==> #[trigger] final(self)@[i] == (Squeezable {
                alive: true,
                ..old(self)@[i]
            }),
    {
        let mut i: usize = 0;
        let ghost before = self.items@;
        while i < self.items.len()
            invariant
                self.next_id == before.len(),
                ids_by_spawn(before),
                i <= self.items@.len(),
                self.items@.len() == before.len(),
                forall|k: int| 0 <= k < i ==> #[trigger] self.items@[k] == (Squeezable {
                    alive: true,
                    ..before[k]
                }),
                forall|k: int| i <= k < before.len() ==> #[trigger] self.items@[k] == before[k],
            decreases before.len() - i,
        {
            let it = self.items[i];
            self.items.set(i, Squeezable { alive: true, ..it });
            i = i + 1;
        }
    }

    /// The standing objects, in spawn order (the ones that collide and draw).
    pub fn alive(&self) -> (v: Vec<Squeezable>)
        ensures
            v@ == standing(self@),
    {
        let mut v: Vec<Squeezable> = Vec::new();
        let mut i: usize = 0;
        while i < self.items.len()
            invariant
                i <= self.items@.len(),
                v@ == standing(self.items@.take(i as int)),
            decreases self.items@.len() - i,
        {
            proof {
                assert(self.items@.take(i + 1).drop_last() =~= self.items@.take(i as int));
            }
            if self.items[i].alive {
                v.push(self.items[i]);
            }
            i = i + 1;
        }
        assert(self.items@.take(i as int) =~= self.items@);
        v
    }

    /// Crushes every standing object whose verdict in `cinched` (one per
    /// object, in spawn order) is `true`, and returns the crushed objects in
    /// spawn order, for the listeners.
    pub fn update(&mut self, cinched: &[bool]) -> (events: Vec<Squeezable>)
        requires
            old(self).wf(),
            cinched@.len() == old(self)@.len(),
        ensures
            final(self).wf(),
            final(self)@ == after_crush(old(self)@, cinched@),
            events@ == crushed(old(self)@, cinched@),
    {
        let ghost before = self.items@;
        let mut events: Vec<Squeezable> = Vec::new();
        let mut i: usize = 0;
        while i < self.items.len()
            invariant
                self.next_id == before.len(),
                ids_by_spawn(before),
                cinched@.len() == before.len(),
                i <= self.items@.len(),
                self.items@.len() == before.len(),
                forall|k: int| 0 <= k < i ==> #[trigger] self.items@[k] == after_crush(before, cinched@)[k],
                forall|k: int| i <= k < before.len() ==> #[trigger] self.items@[k] == before[k],
                events@ == crushed(before.take(i as int), cinched@.take(i as int)),
            decreases before.len() - i,
        {
            proof {
                assert(before.take(i + 1).drop_last() =~= before.take(i as int));
                assert(cinched@.take(i + 1).take(i as int) =~= cinched@.take(i as int));
            }
            let it = self.items[i];
            if it.alive && cinched[i] {
                events.push(it);
                self.items.set(i, Squeezable { alive: false, ..it });
            }
            i = i + 1;
        }
        proof {
            assert(before.take(i as int) =~= before);
            assert(cinched@.take(i as int) =~= cinched@);
            assert(self.items@ =~= after_crush(before, cinched@));
        }
        events
    }
}

/// The objects a crushing pass crushes are exactly the standing ones whose
/// verdict is `true`.
pub proof fn lemma_crushed_members(s: Seq<Squeezable>, cinched: Seq<bool>, x: Squeezable)
    requires
        cinched.len() == s.len(),
    ensures
        crushed(s, cinched).contains(x) <==> exists|i: int|
            0 <= i < s.len() && #[trigger] s[i] == x && s[i].alive && cinched[i],
    decreases s.len(),
{
    if s.len() > 0 {
        let last = s.len() - 1;
        let front = s.drop_last();
        let c = cinched.take(last);
        lemma_crushed_members(front, c, x);
        let tail = if s[last].alive && cinched[last] {
            seq![s[last]]
        } else {
            Seq::<Squeezable>::empty()
        };
        let r = crushed(s, cinched);
        assert(r == crushed(front, c) + tail);
        if r.contains(x) {
            let j = choose|j: int| 0 <= j < r.len() && r[j] == x;
            if j < crushed(front, c).len() {
                assert(crushed(front, c)[j] == x);
                assert(crushed(front, c).contains(x));
                let i = choose|i: int| 0 <= i < front.len() && #[trigger] front[i] == x && front[i].alive && c[i];
                assert(s[i] == x && cinched[i]);
            } else {
                assert(tail[j - crushed(front, c).len()] == x);
                assert(s[last] == x);
            }
        }
        if exists|i: int| 0 <= i < s.len() && #[trigger] s[i] == x && s[i].alive && cinched[i] {
            let i = choose|i: int| 0 <= i < s.len() && #[trigger] s[i] == x && s[i].alive && cinched[i];
            if i < last {
                assert(front[i] == x && c[i]);
                assert(crushed(front, c).contains(x));
                let j = choose|j: int| 0 <= j < crushed(front, c).len() && crushed(front, c)[j] == x;
                assert(r[j] == x);
            } else {
                assert(r[crushed(front, c).len() as int] == x);
            }
        }
    }
}

/// An object is crushed at most once: after a crushing pass, no later pass
/// reports any object the first one reported.
pub proof fn lemma_crushed_once(s: Seq<Squeezable>, c1: Seq<bool>, c2: Seq<bool>, x: Squeezable)
    requires
        ids_by_spawn(s),
        c1.len() == s.len(),
        c2.len() == s.len(),
        crushed(s, c1).contains(x),
    ensures
        forall|y: Squeezable| #[trigger] crushed(after_crush(s, c1), c2).contains(y) ==> y.id != x.id,
{
    lemma_crushed_members(s, c1, x);
    let i = choose|i: int| 0 <= i < s.len() && #[trigger] s[i] == x && s[i].alive && c1[i];
    let t = after_crush(s, c1);
    assert forall|y: Squeezable| #[trigger] crushed(t, c2).contains(y) implies y.id != x.id by {
        lemma_crushed_members(t, c2, y);
        let j = choose|j: int| 0 <= j < t.len() && #[trigger] t[j] == y && t[j].alive && c2[j];
        assert(t[j].id == s[j].id);
        assert(s[j].id == j && s[i].id == i);
        if j == i {
            assert(!t[j].alive);
        }
    }
}

} // verus!
