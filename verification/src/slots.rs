//! The rules of the slots minigame: the reel strip, the paytable and the
//! generator that seeds a spin.
//!
//! Reel motion (offsets, speeds, stop timers) is continuous and lives with the
//! drawing code; this module answers which symbol a reel shows at a whole
//! position and what three payline symbols pay.

use vstd::prelude::*;
use crate::color::Color;
use crate::text::push_str;
use vstd::wrapping::u32_specs::{wrapping_add, wrapping_mul};

verus! {

/// One of the symbols that can appear on a reel.
#[derive(Clone, Copy, Debug, PartialEq, Eq, Structural)]
pub enum Symbol {
    Seven,
    Bar,
    Diamond,
    Cherry,
}

/// The text drawn on a symbol.
pub open spec fn symbol_label(s: Symbol) -> Seq<char> {
    match s {
        Symbol::Seven => seq!['7'],
        Symbol::Bar => seq!['B', 'A', 'R'],
        Symbol::Diamond => seq!['D', 'I', 'A', 'M'],
        Symbol::Cherry => seq!['C', 'H', 'E', 'R'],
    }
}

impl Symbol {
    /// The disc color of a symbol: red, gray, sky blue or magenta.
    pub fn color(self) -> (c: Color)
        ensures
            c == match self {
                Symbol::Seven => Color { r: 230, g: 41, b: 55, a: 255 },
                Symbol::Bar => Color { r: 130, g: 130, b: 130, a: 255 },
                Symbol::Diamond => Color { r: 102, g: 191, b: 255, a: 255 },
                Symbol::Cherry => Color { r: 255, g: 0, b: 255, a: 255 },
            },
    {
        match self {
            Symbol::Seven => Color::new(230, 41, 55, 255),
            Symbol::Bar => Color::new(130, 130, 130, 255),
            Symbol::Diamond => Color::new(102, 191, 255, 255),
            Symbol::Cherry => Color::new(255, 0, 255, 255),
        }
    }

    /// The text drawn on a symbol: `7`, `BAR`, `DIAM` or `CHER`.
    pub fn label(self) -> (s: &'static str)
        ensures
            s@ == symbol_label(self),
    {
        match self {
            Symbol::Seven => {
                proof {
                    reveal_strlit("7");
                }
                "7"
            },
            Symbol::Bar => {
                proof {
                    reveal_strlit("BAR");
                }
                "BAR"
            },
            Symbol::Diamond => {
                proof {
                    reveal_strlit("DIAM");
                }
                "DIAM"
            },
            Symbol::Cherry => {
                proof {
                    reveal_strlit("CHER");
                }
                "CHER"
            },
        }
    }
}

/// Number of symbols on a reel strip.
pub const STRIP_LEN: usize = 8;

/// The reel strip, top to bottom.
pub open spec fn strip(i: int) -> Symbol {
    if i == 0 { Symbol::Seven }
    else if i == 1 { Symbol::Cherry }
    else if i == 2 { Symbol::Bar }
    else if i == 3 { Symbol::Diamond }
    else if i == 4 { Symbol::Cherry }
    else if i == 5 { Symbol::Bar }
    else if i == 6 { Symbol::Seven }
    else { Symbol::Diamond }
}

fn strip_at(i: usize) -> (s: Symbol)
    requires
        i < STRIP_LEN,
    ensures
        s == strip(i as int),
{
    match i {
        0 => Symbol::Seven,
        1 => Symbol::Cherry,
        2 => Symbol::Bar,
        3 => Symbol::Diamond,
        4 => Symbol::Cherry,
        5 => Symbol::Bar,
        6 => Symbol::Seven,
        _ => Symbol::Diamond,
    }
}

/// The symbol at whole position `index` of the endlessly repeating strip;
/// negative positions count back from the top.
pub fn symbol_at(index: isize) -> (s: Symbol)
    ensures
        s == strip(index as int % (STRIP_LEN as int)),
{
    let len = STRIP_LEN as isize;
    let r = index % len;
    let idx = (r + len) % len;
    strip_at(idx as usize)
}

/// How a spin paid out.
#[derive(Clone, Copy, Debug, PartialEq, Eq, Structural)]
pub enum SpinOutcome {
    /// All three payline symbols match.
    Jackpot(Symbol),
    /// Exactly two of them match.
    SmallWin,
    /// No two match.
    NoMatch,
}

/// The outcome of payline symbols `a`, `b`, `c`.
pub open spec fn outcome_of(a: Symbol, b: Symbol, c: Symbol) -> SpinOutcome {
    if a == b && b == c {
        SpinOutcome::Jackpot(a)
    } else if a == b || b == c || a == c {
        SpinOutcome::SmallWin
    } else {
        SpinOutcome::NoMatch
    }
}

/// Judges the three payline symbols.
pub fn check_result(a: Symbol, b: Symbol, c: Symbol) -> (o: SpinOutcome)
    ensures
        o == outcome_of(a, b, c),
{
    if a == b && b == c {
        SpinOutcome::Jackpot(a)
    } else if a == b || b == c || a == c {
        SpinOutcome::SmallWin
    } else {
        SpinOutcome::NoMatch
    }
}

/// The message shown for an outcome.
pub open spec fn outcome_message(o: SpinOutcome) -> Seq<char> {
    match o {
        SpinOutcome::Jackpot(s) => "JACKPOT! Three "@ + symbol_label(s) + "s!"@,
        SpinOutcome::SmallWin => "Small win! Two match."@,
        SpinOutcome::NoMatch => "No match. Try again!"@,
    }
}

/// The message shown for an outcome, e.g. `"JACKPOT! Three BARs!"`.
pub fn result_message(o: SpinOutcome) -> (m: String)
    ensures
        m@ == outcome_message(o),
{
    let mut m = String::new();
    match o {
        SpinOutcome::Jackpot(s) => {
            push_str(&mut m, "JACKPOT! Three ");
            push_str(&mut m, s.label());
            push_str(&mut m, "s!");
        },
        SpinOutcome::SmallWin => push_str(&mut m, "Small win! Two match."),
        SpinOutcome::NoMatch => push_str(&mut m, "No match. Try again!"),
    }
    m
}

/// The linear congruential generator that seeds spin speeds and delays.
#[derive(Clone, Copy, Debug)]
pub struct SlotRng(pub u32);

/// The generator's state after one step from `s`.
pub open spec fn slot_rng_step(s: u32) -> u32 {
    wrapping_add(wrapping_mul(s, 1_103_515_245u32), 12_345u32)
}

impl SlotRng {
    /// Advances the state (`state * 1103515245 + 12345`, wrapping) and returns it.
    pub fn next(&mut self) -> (v: u32)
        ensures
            v == slot_rng_step(old(self).0),
            final(self).0 == v,
    {
        self.0 = self.0.wrapping_mul(1_103_515_245).wrapping_add(12_345);
        self.0
    }
}

/// The machine's phase.
#[derive(Clone, Copy, Debug, PartialEq, Eq, Structural)]
pub enum SlotState {
    /// Waiting for Space.
    Idle,
    /// Reels are turning.
    Spinning,
    /// The outcome is on screen for a moment.
    ShowingResult,
}

/// What the machine does on a frame, besides changing phase.
#[derive(Clone, Copy, Debug, PartialEq, Eq, Structural)]
pub enum SlotAction {
    Nothing,
    /// Reseed, start all reels and show "Good luck...".
    StartSpin,
    /// Judge the payline and show the outcome, starting the result timer.
    ShowResult,
    /// Show "Press SPACE to spin" again.
    ShowPrompt,
}

/// One frame of the machine: Space starts a spin when idle or while a result
/// shows; a spin ends once every reel has stopped; a result gives way to the
/// prompt when its timer runs out.
pub open spec fn slot_transition(state: SlotState, space: bool, all_stopped: bool, timer_done: bool) -> (
    SlotState,
    SlotAction,
) {
    match state {
        SlotState::Idle => if space {
            (SlotState::Spinning, SlotAction::StartSpin)
        } else {
            (SlotState::Idle, SlotAction::Nothing)
        },
        SlotState::Spinning => if all_stopped {
            (SlotState::ShowingResult, SlotAction::ShowResult)
        } else {
            (SlotState::Spinning, SlotAction::Nothing)
        },
        SlotState::ShowingResult => if space {
            (SlotState::Spinning, SlotAction::StartSpin)
        } else if timer_done {
            (SlotState::Idle, SlotAction::ShowPrompt)
        } else {
            (SlotState::ShowingResult, SlotAction::Nothing)
        },
    }
}

/// Decides the machine's next phase and action from this frame's input:
/// `space` pressed, `all_stopped` reels after they moved, and `timer_done`
/// when the result timer has reached zero.
pub fn slot_step(state: SlotState, space: bool, all_stopped: bool, timer_done: bool) -> (r: (SlotState, SlotAction))
    ensures
        r == slot_transition(state, space, all_stopped, timer_done),
{
    match state {
        SlotState::Idle => if space {
            (SlotState::Spinning, SlotAction::StartSpin)
        } else {
            (SlotState::Idle, SlotAction::Nothing)
        },
        SlotState::Spinning => if all_stopped {
            (SlotState::ShowingResult, SlotAction::ShowResult)
        } else {
            (SlotState::Spinning, SlotAction::Nothing)
        },
        SlotState::ShowingResult => if space {
            (SlotState::Spinning, SlotAction::StartSpin)
        } else if timer_done {
            (SlotState::Idle, SlotAction::ShowPrompt)
        } else {
            (SlotState::ShowingResult, SlotAction::Nothing)
        },
    }
}

/// A spin never ends without its outcome being shown: the machine leaves
/// `Spinning` only for `ShowingResult`, and only by showing the result.
pub proof fn lemma_spin_shows_result(space: bool, all_stopped: bool, timer_done: bool)
    ensures
        slot_transition(SlotState::Spinning, space, all_stopped, timer_done).0 != SlotState::Spinning
            ==> slot_transition(SlotState::Spinning, space, all_stopped, timer_done) == (
            SlotState::ShowingResult,
            SlotAction::ShowResult,
        ),
        slot_transition(SlotState::Idle, space, all_stopped, timer_done).0 != SlotState::ShowingResult,
{
}

/// A spin is judged by how many payline symbols agree: all three equal is
/// the jackpot of that symbol, exactly two equal (whichever two) a small win,
/// and three different symbols no match.
pub proof fn lemma_outcome_counts_matches(a: Symbol, b: Symbol, c: Symbol)
    ensures
        a == b && b == c ==> outcome_of(a, b, c) == SpinOutcome::Jackpot(a),
        a == b && b != c ==> outcome_of(a, b, c) == SpinOutcome::SmallWin,
        b == c && a != b ==> outcome_of(a, b, c) == SpinOutcome::SmallWin,
        a == c && a != b ==> outcome_of(a, b, c) == SpinOutcome::SmallWin,
        a != b && b != c && a != c ==> outcome_of(a, b, c) == SpinOutcome::NoMatch,
        outcome_of(a, b, c) == outcome_of(b, a, c) || (a == b && b == c),
        outcome_of(a, b, c) == outcome_of(a, c, b) || (a == b && b == c),
{
}

/// Space starts a spin from idle and from a shown result; a shown result
/// gives way to the prompt when its timer runs out; the reels keep spinning
/// until all have stopped. The three kinds of outcome have different
/// messages.
pub proof fn lemma_machine_keys(space: bool, all_stopped: bool, timer_done: bool)
    ensures
        space ==> slot_transition(SlotState::Idle, space, all_stopped, timer_done) == (
            SlotState::Spinning,
            SlotAction::StartSpin,
        ),
        space ==> slot_transition(SlotState::ShowingResult, space, all_stopped, timer_done) == (
            SlotState::Spinning,
            SlotAction::StartSpin,
        ),
        !space && timer_done ==> slot_transition(SlotState::ShowingResult, space, all_stopped, timer_done) == (
            SlotState::Idle,
            SlotAction::ShowPrompt,
        ),
        !all_stopped ==> slot_transition(SlotState::Spinning, space, all_stopped, timer_done).0
            == SlotState::Spinning,
        outcome_message(SpinOutcome::SmallWin) != outcome_message(SpinOutcome::NoMatch),
{
    reveal_strlit("Small win! Two match.");
    reveal_strlit("No match. Try again!");
    assert(outcome_message(SpinOutcome::SmallWin)[0] != outcome_message(SpinOutcome::NoMatch)[0]);
}

} // verus!
