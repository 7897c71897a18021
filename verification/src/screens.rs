//! The screen manager of the game shell: which screen is showing and where
//! each key takes the player.
//!
//! The shell runs a Menu, the Gameplay screen, a Pause overlay, Defeat and Win
//! end screens, and Instructions and Credits pages. Screen changes go through a
//! fade transition; while it runs, input is ignored. [`screen_step`] decides,
//! for one frame, what the shell does; the caller performs it.

use vstd::prelude::*;
use crate::loc::Lang;
use crate::menu::{lang_at, MenuAction, MenuInput, MenuNav, MenuState, LANG_COUNT, step_result};

verus! {

/// The screens the game can be on.
#[derive(Clone, Copy, Debug, PartialEq, Eq, Structural)]
pub enum Screen {
    Menu,
    Gameplay,
    Pause,
    Defeat,
    Win,
    Instructions,
    Credits,
    Config,
}

/// The keys the shell reacts to that went down this frame.
#[derive(Clone, Copy, Debug)]
pub struct ShellKeys {
    pub escape: bool,
    pub backspace: bool,
    pub enter: bool,
    pub f: bool,
    pub p: bool,
    pub k: bool,
    pub l: bool,
    pub m: bool,
}

/// What the shell does this frame.
#[derive(Clone, Copy, Debug, PartialEq, Eq, Structural)]
pub struct ShellActions {
    /// Toggle fullscreen.
    pub toggle_fullscreen: bool,
    /// Quit the game.
    pub exit: bool,
    /// Start a fade toward this screen.
    pub go: Option<Screen>,
    /// Switch the UI language (and rebuild the UI text).
    pub set_language: Option<Lang>,
    /// Run the menu's animation this frame.
    pub animate_menu: bool,
    /// Advance the gameplay simulation this frame.
    pub update_gameplay: bool,
}

/// Where a key press takes the player from a screen other than the menu.
pub open spec fn key_target(screen: Screen, keys: ShellKeys) -> Option<Screen> {
    match screen {
        Screen::Instructions | Screen::Credits => if keys.escape || keys.backspace {
            Some(Screen::Menu)
        } else {
            None
        },
        Screen::Gameplay => if keys.p || keys.escape {
            Some(Screen::Pause)
        } else if keys.k {
            Some(Screen::Defeat)
        } else if keys.l {
            Some(Screen::Win)
        } else {
            None
        },
        Screen::Pause => if keys.p || keys.escape {
            Some(Screen::Gameplay)
        } else if keys.m {
            Some(Screen::Menu)
        } else {
            None
        },
        Screen::Defeat | Screen::Win => if keys.enter {
            Some(Screen::Gameplay)
        } else if keys.m {
            Some(Screen::Menu)
        } else {
            None
        },
        _ => None,
    }
}

/// Where a menu choice takes the player.
pub open spec fn menu_target(a: MenuAction) -> Option<Screen> {
    match a {
        MenuAction::Play => Some(Screen::Gameplay),
        MenuAction::Instructions => Some(Screen::Instructions),
        MenuAction::Credits => Some(Screen::Credits),
        _ => None,
    }
}

/// Entering a screen at the fade's midpoint. Returns the new screen and
/// whether a fresh gameplay run starts: entering gameplay from anywhere but
/// the pause overlay resets the world.
pub fn arrive(current: Screen, target: Screen) -> (r: (Screen, bool))
    ensures
        r.0 == target,
        r.1 == (target == Screen::Gameplay && current != Screen::Pause),
{
    let reset = match target {
        Screen::Gameplay => match current {
            Screen::Pause => false,
            _ => true,
        },
        _ => false,
    };
    (target, reset)
}

/// Decides one frame of the shell on `screen`.
///
/// Nothing happens while a fade is running. Otherwise F toggles fullscreen on
/// every screen, and then:
/// - Menu: Escape quits unless the language picker is open; the menu's choice
///   starts a fade to gameplay, instructions or credits, quits, or switches the
///   language, which rebuilds the menu on its title card.
/// - Instructions / Credits: Escape or Backspace return to the menu.
/// - Gameplay: the world advances; P or Escape pause, K loses, L wins.
/// - Pause: P or Escape resume, M returns to the menu.
/// - Defeat / Win: Enter plays again, M returns to the menu.
pub fn screen_step(
    screen: Screen,
    transition_active: bool,
    keys: ShellKeys,
    menu: &mut MenuNav,
    menu_input: MenuInput,
) -> (act: ShellActions)
    requires
        old(menu).wf(),
        menu_input.over_item matches Some(i) ==> i < old(menu).item_count,
        menu_input.over_lang_item matches Some(i) ==> i < LANG_COUNT,
    ensures
        final(menu).wf(),
        final(menu).item_count == old(menu).item_count,
        transition_active ==> act == (ShellActions {
            toggle_fullscreen: false,
            exit: false,
            go: None,
            set_language: None,
            animate_menu: false,
            update_gameplay: false,
        }) && *final(menu) == *old(menu),
        !transition_active ==> act.toggle_fullscreen == keys.f,
        !transition_active ==> act.update_gameplay == (screen == Screen::Gameplay),
        !transition_active ==> act.animate_menu == (screen == Screen::Menu),
        !transition_active && screen != Screen::Menu ==> act.go == key_target(screen, keys)
            && !act.exit && act.set_language is None && *final(menu) == *old(menu),
        !transition_active && screen == Screen::Menu ==> {
            let in_picker = old(menu).state == MenuState::Language;
            let (after, choice) = step_result(*old(menu), menu_input);
            &&& (match choice {
                Some(MenuAction::SelectLanguage(l)) => {
                    &&& final(menu).state == MenuState::Title
                    &&& final(menu).selected == 0
                    &&& lang_at(final(menu).lang_selected as int) == l
                },
                _ => *final(menu) == after,
            })
            &&& act.exit == ((keys.escape && !in_picker) || choice == Some(MenuAction::Quit))
            &&& act.go == match choice {
                Some(a) => menu_target(a),
                None => None,
            }
            &&& act.set_language == match choice {
                Some(MenuAction::SelectLanguage(l)) => Some(l),
                _ => None,
            }
        },
{
    let mut act = ShellActions {
        toggle_fullscreen: false,
        exit: false,
        go: None,
        set_language: None,
        animate_menu: false,
        update_gameplay: false,
    };
    if transition_active {
        return act;
    }
    act.toggle_fullscreen = keys.f;
    match screen {
        Screen::Menu => {
            act.animate_menu = true;
            if keys.escape && !menu.is_in_submenu() {
                act.exit = true;
            }
            let choice = menu.step(menu_input);
            match choice {
                Some(MenuAction::Play) => act.go = Some(Screen::Gameplay),
                Some(MenuAction::Instructions) => act.go = Some(Screen::Instructions),
                Some(MenuAction::Credits) => act.go = Some(Screen::Credits),
                Some(MenuAction::Quit) => act.exit = true,
                Some(MenuAction::SelectLanguage(l)) => {
                    act.set_language = Some(l);
                    *menu = MenuNav::new(menu.item_count, l);
                },
                None => {},
            }
            assert(act.exit == ((keys.escape && !(old(menu).state == MenuState::Language)) || choice
                == Some(MenuAction::Quit)));
        },
        Screen::Instructions | Screen::Credits => {
            if keys.escape || keys.backspace {
                act.go = Some(Screen::Menu);
            }
        },
        Screen::Gameplay => {
            act.update_gameplay = true;
            if keys.p || keys.escape {
                act.go = Some(Screen::Pause);
            } else if keys.k {
                act.go = Some(Screen::Defeat);
            } else if keys.l {
                act.go = Some(Screen::Win);
            }
        },
        Screen::Pause => {
            if keys.p || keys.escape {
                act.go = Some(Screen::Gameplay);
            } else if keys.m {
                act.go = Some(Screen::Menu);
            }
        },
        Screen::Defeat | Screen::Win => {
            if keys.enter {
                act.go = Some(Screen::Gameplay);
            } else if keys.m {
                act.go = Some(Screen::Menu);
            }
        },
        Screen::Config => {},
    }
    act
}

/// From every screen but the menu and the configuration page, some key leads
/// back toward play or to the menu: no screen is a dead end.
pub proof fn lemma_every_screen_has_an_exit(screen: Screen)
    requires
        screen != Screen::Menu,
        screen != Screen::Config,
    ensures
        exists|keys: ShellKeys| (#[trigger] key_target(screen, keys)) is Some,
{
    let keys = ShellKeys {
        escape: true,
        backspace: false,
        enter: true,
        f: false,
        p: false,
        k: false,
        l: false,
        m: false,
    };
    assert(key_target(screen, keys) is Some);
}

/// P and Escape toggle the pause in both directions: from gameplay they
/// pause, from the pause overlay they resume.
pub proof fn lemma_pause_toggles(keys: ShellKeys)
    requires
        keys.p || keys.escape,
    ensures
        key_target(Screen::Gameplay, keys) == Some(Screen::Pause),
        key_target(Screen::Pause, keys) == Some(Screen::Gameplay),
{
}

/// The keys of each screen: K loses and L wins during play (unless pausing);
/// M leaves the pause overlay and the end screens for the menu; Enter plays
/// an end screen again; Escape or Backspace leave instructions and credits.
pub proof fn lemma_screen_keys(keys: ShellKeys)
    ensures
        !keys.p && !keys.escape && keys.k ==> key_target(Screen::Gameplay, keys) == Some(Screen::Defeat),
        !keys.p && !keys.escape && !keys.k && keys.l ==> key_target(Screen::Gameplay, keys) == Some(Screen::Win),
        !keys.p && !keys.escape && keys.m ==> key_target(Screen::Pause, keys) == Some(Screen::Menu),
        keys.enter ==> key_target(Screen::Defeat, keys) == Some(Screen::Gameplay) && key_target(Screen::Win, keys)
            == Some(Screen::Gameplay),
        !keys.enter && keys.m ==> key_target(Screen::Defeat, keys) == Some(Screen::Menu) && key_target(
            Screen::Win,
            keys,
        ) == Some(Screen::Menu),
        keys.escape || keys.backspace ==> key_target(Screen::Instructions, keys) == Some(Screen::Menu)
            && key_target(Screen::Credits, keys) == Some(Screen::Menu),
{
}

} // verus!
