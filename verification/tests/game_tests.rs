use juni::player::input_axes;
use juni::slots::{slot_step, SlotAction, SlotState};
use juni::squeeze::{Squeezable, Squeezables};

#[test]
fn input_axes_cancel_and_combine() {
    assert_eq!(input_axes(false, false, false, false), (0, 0));
    assert_eq!(input_axes(true, false, false, false), (0, -1));
    assert_eq!(input_axes(false, true, false, true), (1, 1));
    assert_eq!(input_axes(true, true, true, false), (-1, 0));
    assert_eq!(input_axes(true, true, true, true), (0, 0));
}

#[test]
fn slot_machine_cycle() {
    assert_eq!(slot_step(SlotState::Idle, false, true, true), (SlotState::Idle, SlotAction::Nothing));
    assert_eq!(slot_step(SlotState::Idle, true, true, false), (SlotState::Spinning, SlotAction::StartSpin));
    assert_eq!(slot_step(SlotState::Spinning, true, false, true), (SlotState::Spinning, SlotAction::Nothing));
    assert_eq!(slot_step(SlotState::Spinning, false, true, false), (SlotState::ShowingResult, SlotAction::ShowResult));
    assert_eq!(slot_step(SlotState::ShowingResult, false, true, false), (SlotState::ShowingResult, SlotAction::Nothing));
    assert_eq!(slot_step(SlotState::ShowingResult, true, true, true), (SlotState::Spinning, SlotAction::StartSpin));
    assert_eq!(slot_step(SlotState::ShowingResult, false, true, true), (SlotState::Idle, SlotAction::ShowPrompt));
}

fn bits(v: f32) -> u32 {
    v.to_bits()
}

#[test]
fn squeezables_spawn_crush_revive() {
    let mut s = Squeezables::new();
    assert_eq!(s.spawn(bits(10.0), bits(20.0), bits(8.0)), 0);
    assert_eq!(s.spawn(bits(50.0), bits(20.0), bits(8.0)), 1);
    assert_eq!(s.spawn(bits(90.0), bits(20.0), bits(4.0)), 2);
    assert_eq!(s.alive().len(), 3);

    let events = s.update(&[false, true, true]);
    assert_eq!(events.iter().map(|e| e.id).collect::<Vec<_>>(), vec![1, 2]);
    assert_eq!(events[0].x, bits(50.0));
    let alive: Vec<u32> = s.alive().iter().map(|e| e.id).collect();
    assert_eq!(alive, vec![0]);

    // Crushed objects are not reported again.
    let events = s.update(&[false, true, true]);
    assert!(events.is_empty());
    let events = s.update(&[true, true, true]);
    assert_eq!(events.iter().map(|e| e.id).collect::<Vec<_>>(), vec![0]);
    assert!(s.alive().is_empty());

    s.revive_all();
    let alive: Vec<Squeezable> = s.alive();
    assert_eq!(alive.len(), 3);
    assert_eq!(alive[2], Squeezable { id: 2, x: bits(90.0), y: bits(20.0), radius: bits(4.0), alive: true });
}

use juni::color::Color;
use juni::portal_pairs::{PortalInstance, PortalPhase, Portals, ROW_CLOSING, ROW_IDLE, ROW_OPENING};

#[test]
fn portals_pair_up_in_turn() {
    let mut p = Portals::new();
    p.place(1, 2);
    assert!(p.pairs.is_empty());
    let first = p.pending.unwrap();
    assert!(!first.green);
    assert_eq!(first.phase, PortalPhase::Opening);
    assert_eq!(first.anim.row, ROW_OPENING);
    p.place(3, 4);
    assert!(p.pending.is_none());
    assert_eq!(p.pairs.len(), 1);
    assert_eq!(p.pairs[0].a, first);
    assert!(p.pairs[0].b.green);
    assert_eq!((p.pairs[0].b.x, p.pairs[0].b.y), (3, 4));
    assert_eq!(p.pairs[0].color, Color::new(230, 41, 55, 255));
    p.place(5, 6);
    p.place(7, 8);
    assert_eq!(p.pairs[1].color, Color::new(102, 191, 255, 255));
}

#[test]
fn portals_open_then_idle_then_close_and_vanish() {
    let mut p = Portals::new();
    p.place(1, 2);
    p.place(3, 4);
    p.place(5, 6);
    // The opening animations finish: the portals turn idle and loop.
    p.pairs[0].a.anim.finished = true;
    p.update();
    assert_eq!(p.pairs[0].a.phase, PortalPhase::Idle);
    assert_eq!(p.pairs[0].a.anim.row, ROW_IDLE);
    assert!(p.pairs[0].a.anim.looping);
    assert_eq!(p.pairs[0].b.phase, PortalPhase::Opening);

    p.start_closing_all();
    assert!(p.pairs.iter().all(|q| q.a.phase == PortalPhase::Closing && q.b.phase == PortalPhase::Closing));
    assert_eq!(p.pairs[0].a.anim.row, ROW_CLOSING);
    assert_eq!(p.pending.unwrap().phase, PortalPhase::Closing);
    assert!(!p.is_finished_closing());

    // Only one portal of the pair done: the pair stays.
    p.pairs[0].a.anim.finished = true;
    p.update();
    assert_eq!(p.pairs.len(), 1);
    p.pairs[0].b.anim.finished = true;
    let mut pend = p.pending.unwrap();
    pend.anim.finished = true;
    p.pending = Some(pend);
    assert!(p.is_finished_closing());
    p.update();
    assert!(p.pairs.is_empty());
    assert!(p.pending.is_none());
}

#[test]
fn closing_twice_changes_nothing() {
    let mut i = PortalInstance::new_open(0, 0, false);
    i.start_closing();
    i.anim.current = 3;
    let once = i;
    i.start_closing();
    assert_eq!(i, once);
}

#[test]
fn find_entry_skips_closing_and_excluded() {
    let mut p = Portals::new();
    for k in 0..4 {
        p.place(k, k);
    }
    assert_eq!(p.find_entry(&[(false, false), (false, false)], &[(false, false), (false, false)]), None);
    assert_eq!(p.find_entry(&[(false, true), (true, false)], &[(false, false), (false, false)]), Some((0, false)));
    assert_eq!(p.find_entry(&[(true, true), (true, false)], &[(true, true), (false, false)]), Some((1, true)));
    p.pairs[1].a.start_closing();
    assert_eq!(p.find_entry(&[(false, false), (true, true)], &[(false, false), (false, false)]), Some((1, false)));
}
