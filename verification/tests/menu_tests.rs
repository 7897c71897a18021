use juni::loc::Lang;
use juni::menu::{action_for, lang_at_row, lang_code_str, lang_row, MenuAction, MenuInput, MenuNav, MenuState, Rng};
use juni::screens::{arrive, screen_step, Screen, ShellActions, ShellKeys};

fn no_input() -> MenuInput {
    MenuInput { enter: false, space: false, escape: false, backspace: false, up: false, down: false, click: false, over_lang_button: false, over_item: None, over_lang_item: None }
}

fn no_keys() -> ShellKeys {
    ShellKeys { escape: false, backspace: false, enter: false, f: false, p: false, k: false, l: false, m: false }
}

#[test]
fn buttons_map_to_actions() {
    assert_eq!(action_for(0), MenuAction::Play);
    assert_eq!(action_for(1), MenuAction::Instructions);
    assert_eq!(action_for(2), MenuAction::Credits);
    assert_eq!(action_for(3), MenuAction::Quit);
    assert_eq!(action_for(9), MenuAction::Quit);
}

#[test]
fn language_rows_and_badges() {
    assert_eq!(lang_code_str(Lang::English), "EN");
    assert_eq!(lang_code_str(Lang::Portuguese), "PT");
    assert_eq!(lang_code_str(Lang::Arabic), "AR");
    for l in [Lang::English, Lang::Portuguese, Lang::Arabic] {
        assert_eq!(lang_at_row(lang_row(l)), l);
    }
}

#[test]
fn title_card_opens_main_on_any_key() {
    let mut m = MenuNav::new(4, Lang::Portuguese);
    assert_eq!(m.state, MenuState::Title);
    assert_eq!(m.lang_selected, 1);
    assert_eq!(m.step(no_input()), None);
    assert_eq!(m.state, MenuState::Title);
    assert_eq!(m.step(MenuInput { space: true, ..no_input() }), None);
    assert_eq!(m.state, MenuState::Main);
}

#[test]
fn main_menu_moves_and_clamps() {
    let mut m = MenuNav::new(4, Lang::English);
    m.state = MenuState::Main;
    m.step(MenuInput { up: true, ..no_input() });
    assert_eq!(m.selected, 0);
    for _ in 0..6 {
        m.step(MenuInput { down: true, ..no_input() });
    }
    assert_eq!(m.selected, 3);
    assert_eq!(m.step(MenuInput { enter: true, ..no_input() }), Some(MenuAction::Quit));
    m.step(MenuInput { up: true, ..no_input() });
    assert_eq!(m.step(MenuInput { enter: true, ..no_input() }), Some(MenuAction::Credits));
}

#[test]
fn main_menu_mouse_hover_and_click() {
    let mut m = MenuNav::new(4, Lang::English);
    m.state = MenuState::Main;
    assert_eq!(m.step(MenuInput { over_item: Some(1), ..no_input() }), None);
    assert_eq!(m.selected, 1);
    assert_eq!(m.step(MenuInput { over_item: Some(0), click: true, ..no_input() }), Some(MenuAction::Play));
    assert_eq!(m.step(MenuInput { over_lang_button: true, click: true, ..no_input() }), None);
    assert!(m.is_in_submenu());
}

#[test]
fn language_picker_choose_and_cancel() {
    let mut m = MenuNav::new(4, Lang::English);
    m.state = MenuState::Language;
    m.step(MenuInput { down: true, ..no_input() });
    m.step(MenuInput { down: true, ..no_input() });
    m.step(MenuInput { down: true, ..no_input() });
    assert_eq!(m.lang_selected, 2);
    assert_eq!(m.step(MenuInput { enter: true, ..no_input() }), Some(MenuAction::SelectLanguage(Lang::Arabic)));
    assert_eq!(m.state, MenuState::Main);
    m.state = MenuState::Language;
    assert_eq!(m.step(MenuInput { escape: true, enter: true, ..no_input() }), None);
    assert_eq!(m.state, MenuState::Main);
    m.state = MenuState::Language;
    assert_eq!(m.step(MenuInput { over_lang_item: Some(1), click: true, ..no_input() }), Some(MenuAction::SelectLanguage(Lang::Portuguese)));
    m.state = MenuState::Language;
    m.step(MenuInput { up: true, ..no_input() });
    m.step(MenuInput { up: true, ..no_input() });
    assert_eq!(m.lang_selected, 0);
}

#[test]
fn duck_rng_sequence() {
    let mut r = Rng::new(0);
    assert_eq!(r.state, 1);
    let v = r.next();
    assert_eq!(v, 1u64.wrapping_mul(6364136223846793005).wrapping_add(1));
    let before = r.state;
    let b = r.gen_bool();
    assert_eq!(b, before.wrapping_mul(6364136223846793005).wrapping_add(1) % 2 == 0);
    assert_eq!(Rng::new(77).state, 77);
}

#[test]
fn arriving_in_gameplay_resets_unless_resuming() {
    assert_eq!(arrive(Screen::Menu, Screen::Gameplay), (Screen::Gameplay, true));
    assert_eq!(arrive(Screen::Win, Screen::Gameplay), (Screen::Gameplay, true));
    assert_eq!(arrive(Screen::Pause, Screen::Gameplay), (Screen::Gameplay, false));
    assert_eq!(arrive(Screen::Gameplay, Screen::Pause), (Screen::Pause, false));
}

#[test]
fn shell_ignores_input_during_fade() {
    let mut m = MenuNav::new(4, Lang::English);
    let a = screen_step(Screen::Gameplay, true, ShellKeys { p: true, f: true, ..no_keys() }, &mut m, no_input());
    assert_eq!(a, ShellActions { toggle_fullscreen: false, exit: false, go: None, set_language: None, animate_menu: false, update_gameplay: false });
}

#[test]
fn shell_key_routes() {
    let mut m = MenuNav::new(4, Lang::English);
    let go = |s: Screen, k: ShellKeys, m: &mut MenuNav| screen_step(s, false, k, m, no_input()).go;
    assert_eq!(go(Screen::Gameplay, ShellKeys { p: true, ..no_keys() }, &mut m), Some(Screen::Pause));
    assert_eq!(go(Screen::Gameplay, ShellKeys { k: true, ..no_keys() }, &mut m), Some(Screen::Defeat));
    assert_eq!(go(Screen::Gameplay, ShellKeys { l: true, ..no_keys() }, &mut m), Some(Screen::Win));
    assert_eq!(go(Screen::Pause, ShellKeys { escape: true, ..no_keys() }, &mut m), Some(Screen::Gameplay));
    assert_eq!(go(Screen::Pause, ShellKeys { m: true, ..no_keys() }, &mut m), Some(Screen::Menu));
    assert_eq!(go(Screen::Defeat, ShellKeys { enter: true, ..no_keys() }, &mut m), Some(Screen::Gameplay));
    assert_eq!(go(Screen::Win, ShellKeys { m: true, ..no_keys() }, &mut m), Some(Screen::Menu));
    assert_eq!(go(Screen::Credits, ShellKeys { backspace: true, ..no_keys() }, &mut m), Some(Screen::Menu));
    assert_eq!(go(Screen::Instructions, no_keys(), &mut m), None);
    let a = screen_step(Screen::Gameplay, false, ShellKeys { f: true, ..no_keys() }, &mut m, no_input());
    assert!(a.toggle_fullscreen && a.update_gameplay && a.go.is_none());
}

#[test]
fn shell_menu_choices() {
    let mut m = MenuNav::new(4, Lang::English);
    m.state = MenuState::Main;
    let a = screen_step(Screen::Menu, false, no_keys(), &mut m, MenuInput { enter: true, ..no_input() });
    assert_eq!(a.go, Some(Screen::Gameplay));
    assert!(a.animate_menu);
    let a = screen_step(Screen::Menu, false, ShellKeys { escape: true, ..no_keys() }, &mut m, no_input());
    assert!(a.exit);
    m.state = MenuState::Language;
    let a = screen_step(Screen::Menu, false, ShellKeys { escape: true, ..no_keys() }, &mut m, MenuInput { escape: true, ..no_input() });
    assert!(!a.exit);
    assert_eq!(m.state, MenuState::Main);
    m.state = MenuState::Language;
    let a = screen_step(Screen::Menu, false, no_keys(), &mut m, MenuInput { over_lang_item: Some(2), click: true, ..no_input() });
    assert_eq!(a.set_language, Some(Lang::Arabic));
    // Picking a language rebuilds the menu on its title card.
    assert_eq!(m.state, MenuState::Title);
    assert_eq!(m.selected, 0);
    assert_eq!(m.item_count, 4);
    assert_eq!(m.lang_selected, 2);
    m.state = MenuState::Main;
    m.selected = 3;
    let a = screen_step(Screen::Menu, false, no_keys(), &mut m, MenuInput { space: true, ..no_input() });
    assert!(a.exit);
}
