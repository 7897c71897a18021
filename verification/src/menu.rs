//! Navigation of the title menu: the title card, the main button list and the
//! language picker.
//!
//! Each frame the caller reports which keys went down and which button the
//! mouse is over (an index, worked out from the on-screen layout); [`MenuNav::step`]
//! moves the selection, switches between the three sub-states and reports the
//! action the player chose, if any.

use vstd::prelude::*;
use vstd::wrapping::u64_specs::{wrapping_add, wrapping_mul};
use crate::loc::Lang;

verus! {

/// What the player chose in the main menu.
#[derive(Clone, Copy, Debug, PartialEq, Eq, Structural)]
pub enum MenuAction {
    Play,
    Instructions,
    Credits,
    Quit,
    SelectLanguage(Lang),
}

/// Which part of the menu is showing.
#[derive(Clone, Copy, Debug, PartialEq, Eq, Structural)]
pub enum MenuState {
    /// The title card, waiting for any key.
    Title,
    /// The button list.
    Main,
    /// The language picker, drawn over the button list.
    Language,
}

/// Number of languages in the picker.
pub const LANG_COUNT: usize = 3;

/// The picker's languages, top to bottom.
pub open spec fn lang_at(i: int) -> Lang {
    if i == 0 {
        Lang::English
    } else if i == 1 {
        Lang::Portuguese
    } else {
        Lang::Arabic
    }
}

/// The language at row `i` of the picker.
pub fn lang_at_row(i: usize) -> (l: Lang)
    requires
        i < LANG_COUNT,
    ensures
        l == lang_at(i as int),
{
    if i == 0 {
        Lang::English
    } else if i == 1 {
        Lang::Portuguese
    } else {
        Lang::Arabic
    }
}

/// The picker row of language `l`.
pub fn lang_row(l: Lang) -> (i: usize)
    ensures
        i < LANG_COUNT,
        lang_at(i as int) == l,
{
    match l {
        Lang::English => 0,
        Lang::Portuguese => 1,
        Lang::Arabic => 2,
    }
}

/// The upper-case code shown on the language button.
pub open spec fn lang_badge(l: Lang) -> Seq<char> {
    match l {
        Lang::English => seq!['E', 'N'],
        Lang::Portuguese => seq!['P', 'T'],
        Lang::Arabic => seq!['A', 'R'],
    }
}

/// The upper-case code shown on the language button: `EN`, `PT` or `AR`.
pub fn lang_code_str(l: Lang) -> (s: &'static str)
    ensures
        s@ == lang_badge(l),
{
    match l {
        Lang::English => {
            proof {
                reveal_strlit("EN");
            }
            "EN"
        },
        Lang::Portuguese => {
            proof {
                reveal_strlit("PT");
            }
            "PT"
        },
        Lang::Arabic => {
            proof {
                reveal_strlit("AR");
            }
            "AR"
        },
    }
}

/// The action of main-menu button `index`: play, instructions, credits, and
/// quit for every later button.
pub open spec fn button_action(index: int) -> MenuAction {
    if index == 0 {
        MenuAction::Play
    } else if index == 1 {
        MenuAction::Instructions
    } else if index == 2 {
        MenuAction::Credits
    } else {
        MenuAction::Quit
    }
}

/// The action of main-menu button `index`.
pub fn action_for(index: usize) -> (a: MenuAction)
    ensures
        a == button_action(index as int),
{
    match index {
        0 => MenuAction::Play,
        1 => MenuAction::Instructions,
        2 => MenuAction::Credits,
        _ => MenuAction::Quit,
    }
}

/// One frame of menu input.
#[derive(Clone, Copy, Debug)]
pub struct MenuInput {
    pub enter: bool,
    pub space: bool,
    pub escape: bool,
    pub backspace: bool,
    /// Up arrow or `W`.
    pub up: bool,
    /// Down arrow or `S`.
    pub down: bool,
    /// The left mouse button went down this frame.
    pub click: bool,
    /// The mouse is over the language button.
    pub over_lang_button: bool,
    /// The main-menu button under the mouse, if any.
    pub over_item: Option<usize>,
    /// The picker row under the mouse, if any.
    pub over_lang_item: Option<usize>,
}

/// The navigation state of the menu.
#[derive(Clone, Copy, Debug)]
pub struct MenuNav {
    pub state: MenuState,
    /// Highlighted main-menu button.
    pub selected: usize,
    /// Number of main-menu buttons.
    pub item_count: usize,
    /// Highlighted picker row.
    pub lang_selected: usize,
}

impl MenuNav {
    /// The highlights point at existing buttons and rows.
    pub open spec fn wf(&self) -> bool {
        &&& self.item_count > 0
        &&& self.selected < self.item_count
        &&& self.lang_selected < LANG_COUNT
    }

    /// A menu on its title card with `item_count` buttons, the first one
    /// highlighted, and the picker on the current language `lang`.
    pub fn new(item_count: usize, lang: Lang) -> (m: Self)
        requires
            item_count > 0,
        ensures
            m.wf(),
            m.state == MenuState::Title,
            m.selected == 0,
            m.item_count == item_count,
            lang_at(m.lang_selected as int) == lang,
    {
        MenuNav { state: MenuState::Title, selected: 0, item_count, lang_selected: lang_row(lang) }
    }

    /// `true` while the language picker is open.
    pub fn is_in_submenu(&self) -> (b: bool)
        ensures
            b == (self.state == MenuState::Language),
    {
        match self.state {
            MenuState::Language => true,
            _ => false,
        }
    }

    /// Title card: any of Enter, Space, Escape or a click opens the button list.
    pub fn update_title(&mut self, input: MenuInput) -> (a: Option<MenuAction>)
        requires
            old(self).wf(),
        ensures
            final(self).wf(),
            (*final(self), a) == title_result(*old(self), input),
    {
        if input.enter || input.space || input.escape || input.click {
            self.state = MenuState::Main;
        }
        None
    }

    /// Button list: Up/Down move the highlight (stopping at the ends),
    /// Enter/Space choose the highlighted button, a click on the language
    /// button opens the picker, hovering a button highlights it and clicking
    /// it chooses it.
    pub fn update_main(&mut self, input: MenuInput) -> (a: Option<MenuAction>)
        requires
            old(self).wf(),
            input.over_item matches Some(i) ==> i < old(self).item_count,
        ensures
            final(self).wf(),
            (*final(self), a) == main_result(*old(self), input),
    {
        if input.up {
            self.selected = if self.selected > 0 { self.selected - 1 } else { 0 };
        }
        if input.down {
            self.selected = if self.selected + 1 < self.item_count { self.selected + 1 } else { self.item_count - 1 };
        }
        if input.enter || input.space {
            return Some(action_for(self.selected));
        }
        if input.over_lang_button && input.click {
            self.state = MenuState::Language;
            return None;
        }
        match input.over_item {
            Some(i) => {
                self.selected = i;
                if input.click {
                    return Some(action_for(i));
                }
                None
            },
            None => None,
        }
    }

    /// Language picker: Escape/Backspace close it, Up/Down move the highlight
    /// (stopping at the ends), Enter/Space pick the highlighted language,
    /// hovering a row highlights it and clicking it picks it. Picking closes
    /// the picker.
    pub fn update_language(&mut self, input: MenuInput) -> (a: Option<MenuAction>)
        requires
            old(self).wf(),
            input.over_lang_item matches Some(i) ==> i < LANG_COUNT,
        ensures
            final(self).wf(),
            (*final(self), a) == language_result(*old(self), input),
    {
        if input.escape || input.backspace {
            self.state = MenuState::Main;
            return None;
        }
        if input.up && self.lang_selected > 0 {
            self.lang_selected = self.lang_selected - 1;
        }
        if input.down && self.lang_selected < LANG_COUNT - 1 {
            self.lang_selected = self.lang_selected + 1;
        }
        if input.enter || input.space {
            self.state = MenuState::Main;
            return Some(MenuAction::SelectLanguage(lang_at_row(self.lang_selected)));
        }
        match input.over_lang_item {
            Some(i) => {
                self.lang_selected = i;
                if input.click {
                    self.state = MenuState::Main;
                    return Some(MenuAction::SelectLanguage(lang_at_row(i)));
                }
                None
            },
            None => None,
        }
    }

    /// One frame of menu navigation, dispatched on the current sub-state.
    pub fn step(&mut self, input: MenuInput) -> (a: Option<MenuAction>)
        requires
            old(self).wf(),
            input.over_item matches Some(i) ==> i < old(self).item_count,
            input.over_lang_item matches Some(i) ==> i < LANG_COUNT,
        ensures
            final(self).wf(),
            (*final(self), a) == step_result(*old(self), input),
    {
        match self.state {
            MenuState::Title => self.update_title(input),
            MenuState::Main => self.update_main(input),
            MenuState::Language => self.update_language(input),
        }
    }
}

/// The title card after one frame of input.
pub open spec fn title_result(m: MenuNav, input: MenuInput) -> (MenuNav, Option<MenuAction>) {
    if input.enter || input.space || input.escape || input.click {
        (MenuNav { state: MenuState::Main, ..m }, None)
    } else {
        (m, None)
    }
}

/// The button list after one frame of input.
pub open spec fn main_result(m: MenuNav, input: MenuInput) -> (MenuNav, Option<MenuAction>) {
    let s1: int = if input.up { if m.selected > 0 { m.selected - 1 } else { 0 } } else { m.selected as int };
    let s2: int = if input.down {
        if s1 + 1 < m.item_count { s1 + 1 } else { m.item_count - 1 }
    } else {
        s1
    };
    let moved = MenuNav { selected: s2 as usize, ..m };
    if input.enter || input.space {
        (moved, Some(button_action(s2)))
    } else if input.over_lang_button && input.click {
        (MenuNav { state: MenuState::Language, ..moved }, None)
    } else {
        match input.over_item {
            Some(i) => (
                MenuNav { selected: i, ..m },
                if input.click { Some(button_action(i as int)) } else { None },
            ),
            None => (moved, None),
        }
    }
}

/// The language picker after one frame of input.
pub open spec fn language_result(m: MenuNav, input: MenuInput) -> (MenuNav, Option<MenuAction>) {
    let l1: int = if input.up && m.lang_selected > 0 { m.lang_selected - 1 } else { m.lang_selected as int };
    let l2: int = if input.down && l1 < LANG_COUNT - 1 { l1 + 1 } else { l1 };
    if input.escape || input.backspace {
        (MenuNav { state: MenuState::Main, ..m }, None)
    } else if input.enter || input.space {
        (
            MenuNav { state: MenuState::Main, lang_selected: l2 as usize, ..m },
            Some(MenuAction::SelectLanguage(lang_at(l2))),
        )
    } else {
        match input.over_lang_item {
            Some(i) => if input.click {
                (
                    MenuNav { state: MenuState::Main, lang_selected: i, ..m },
                    Some(MenuAction::SelectLanguage(lang_at(i as int))),
                )
            } else {
                (MenuNav { lang_selected: i, ..m }, None)
            },
            None => (MenuNav { lang_selected: l2 as usize, ..m }, None),
        }
    }
}

/// The menu after one frame of input in whatever sub-state it is in.
pub open spec fn step_result(m: MenuNav, input: MenuInput) -> (MenuNav, Option<MenuAction>) {
    match m.state {
        MenuState::Title => title_result(m, input),
        MenuState::Main => main_result(m, input),
        MenuState::Language => language_result(m, input),
    }
}

/// The title card never chooses anything, and a language is only ever chosen
/// from the open picker, which the choice closes.
pub proof fn lemma_menu_choices(m: MenuNav, input: MenuInput)
    ensures
        m.state == MenuState::Title ==> step_result(m, input).1 is None,
        step_result(m, input).1 matches Some(MenuAction::SelectLanguage(_)) ==> m.state
            == MenuState::Language && step_result(m, input).0.state == MenuState::Main,
        m.state == MenuState::Language && (input.escape || input.backspace) ==> step_result(
            m,
            input,
        ).0.state == MenuState::Main && step_result(m, input).1 is None,
{
}

/// A tiny deterministic generator used to scatter the falling ducks.
#[derive(Clone, Copy, Debug)]
pub struct Rng {
    pub state: u64,
}

/// The generator's state after one step from `s`.
pub open spec fn rng_step(s: u64) -> u64 {
    wrapping_add(wrapping_mul(s, 6364136223846793005u64), 1u64)
}

impl Rng {
    /// A generator seeded with `seed` (a zero seed is taken as 1).
    pub fn new(seed: u64) -> (r: Self)
        ensures
            r.state == if seed > 1 { seed } else { 1 },
            r.state >= 1,
    {
        Rng { state: if seed > 1 { seed } else { 1 } }
    }

    /// Advances the state (`state * 6364136223846793005 + 1`, wrapping) and
    /// returns it.
    pub fn next(&mut self) -> (v: u64)
        ensures
            v == rng_step(old(self).state),
            final(self).state == v,
    {
        self.state = self.state.wrapping_mul(6364136223846793005).wrapping_add(1);
        self.state
    }

    /// A coin flip: `true` when the next value is even.
    pub fn gen_bool(&mut self) -> (b: bool)
        ensures
            final(self).state == rng_step(old(self).state),
            b == (final(self).state % 2 == 0),
    {
        let v = self.next();
        assert(v & 1 == v % 2) by (bit_vector);
        v & 1 == 0
    }
}

/// In the open language picker, Enter or Space (without Escape or
/// Backspace) picks a language and closes the picker; with no arrow pressed
/// it is the highlighted one.
pub proof fn lemma_picker_confirms(m: MenuNav, input: MenuInput)
    requires
        m.state == MenuState::Language,
        !input.escape,
        !input.backspace,
        input.enter || input.space,
    ensures
        step_result(m, input).0.state == MenuState::Main,
        step_result(m, input).1 matches Some(MenuAction::SelectLanguage(l)) && l == lang_at(
            step_result(m, input).0.lang_selected as int,
        ),
        !input.up && !input.down ==> step_result(m, input).1 == Some(
            MenuAction::SelectLanguage(lang_at(m.lang_selected as int)),
        ),
{
}

/// The title card opens the button list on Enter, Space, Escape or a click;
/// on the button list Enter or Space (no arrow) presses the highlighted
/// button, and Up and Down move the highlight by one, stopping at the ends;
/// in the picker Up and Down move the highlight by one within the languages.
pub proof fn lemma_menu_keys(m: MenuNav, input: MenuInput)
    requires
        m.wf(),
    ensures
        m.state == MenuState::Title && (input.enter || input.space || input.escape || input.click)
            ==> step_result(m, input).0.state == MenuState::Main,
        m.state == MenuState::Main && (input.enter || input.space) && !input.up && !input.down
            ==> step_result(m, input).1 == Some(button_action(m.selected as int)),
        m.state == MenuState::Main && input.down && !input.up && !input.enter && !input.space
            && !input.click && input.over_item is None ==> step_result(m, input).0.selected == if m.selected + 1
            < m.item_count {
            m.selected + 1
        } else {
            m.selected as int
        },
        m.state == MenuState::Main && input.up && !input.down && !input.enter && !input.space
            && !input.click && input.over_item is None ==> step_result(m, input).0.selected == if m.selected > 0 {
            m.selected - 1
        } else {
            0
        },
        m.state == MenuState::Language && input.down && !input.up && !input.escape && !input.backspace
            && !input.enter && !input.space && input.over_lang_item is None ==> step_result(m, input).0.lang_selected
            == if m.lang_selected + 1 < LANG_COUNT {
            m.lang_selected + 1
        } else {
            m.lang_selected as int
        },
        m.state == MenuState::Language && input.up && !input.down && !input.escape && !input.backspace
            && !input.enter && !input.space && input.over_lang_item is None ==> step_result(m, input).0.lang_selected
            == if m.lang_selected > 0 {
            m.lang_selected - 1
        } else {
            0
        },
{
}

} // verus!
