use juni::classification::{build_tag_colors, EditMode};
use juni::color::Color;
use juni::editor::{Layer, Tool};
use juni::level::{ClassificationEntry, Level};
use juni::shortcuts::{shortcut_commands, Command, ShortcutKeys};
use juni::sorting::{sort_strings, str_less};
use juni::tag_edit::{cycle_known_tag, edit_field, edit_path, position_of, select_sprite_path, sorted_tags};

fn strings(v: &[&str]) -> Vec<String> {
    v.iter().map(|s| s.to_string()).collect()
}

fn tagged_level() -> Level {
    let mut lv = Level::new();
    for (id, tag) in [("a", "wall"), ("b", "movable"), ("c", "cuttable"), ("d", "wall")] {
        lv.classifications.push(ClassificationEntry { object_id: id.into(), tag: tag.into() });
    }
    lv
}

fn no_keys() -> ShortcutKeys {
    ShortcutKeys {
        save: false,
        open: false,
        help: false,
        reset_view: false,
        tab: false,
        right: false,
        down: false,
        left: false,
        up: false,
        delete: false,
        backspace: false,
        rect: false,
        circle: false,
        num1: false,
        num2: false,
        num3: false,
        num4: false,
        num5: false,
        num6: false,
        open_bracket: false,
        close_bracket: false,
        comma: false,
        period: false,
        undo: false,
        clear: false,
    }
}

#[test]
fn str_less_is_code_point_order() {
    assert!(str_less("abc", "abd"));
    assert!(!str_less("abd", "abc"));
    assert!(str_less("ab", "abc"));
    assert!(!str_less("abc", "abc"));
    assert!(str_less("", "a"));
    assert!(!str_less("a", ""));
    assert!(str_less("Zebra", "apple"));
    assert!(str_less("z", "é"));
}

#[test]
fn sort_strings_matches_std_sort() {
    let input = strings(&["wall", "movable", "", "cuttable", "wall", "Z", "é", "static"]);
    let mut expected = input.clone();
    expected.sort();
    assert_eq!(sort_strings(input), expected);
    assert_eq!(sort_strings(Vec::new()), Vec::<String>::new());
}

#[test]
fn sorted_tags_lists_static_and_level_tags() {
    let colors = build_tag_colors(&tagged_level());
    assert_eq!(sorted_tags(&colors), strings(&["cuttable", "movable", "static", "wall"]));
}

#[test]
fn tab_cycles_known_tags_in_sorted_order() {
    let colors = build_tag_colors(&tagged_level());
    assert_eq!(cycle_known_tag(&colors, "movable", false).as_deref(), Some("static"));
    assert_eq!(cycle_known_tag(&colors, "wall", false).as_deref(), Some("cuttable"));
    assert_eq!(cycle_known_tag(&colors, "cuttable", true).as_deref(), Some("wall"));
    assert_eq!(cycle_known_tag(&colors, "static", true).as_deref(), Some("movable"));
    // A text that is no known tag starts at the first (or, backward, the last).
    assert_eq!(cycle_known_tag(&colors, "mov", false).as_deref(), Some("cuttable"));
    assert_eq!(cycle_known_tag(&colors, "mov", true).as_deref(), Some("wall"));
}

#[test]
fn tab_there_and_back_returns() {
    let colors = build_tag_colors(&tagged_level());
    for t in ["cuttable", "movable", "static", "wall"] {
        let there = cycle_known_tag(&colors, t, false).unwrap();
        assert_eq!(cycle_known_tag(&colors, &there, true).as_deref(), Some(t));
    }
}

#[test]
fn position_of_finds_first() {
    let list = strings(&["a", "b", "a"]);
    assert_eq!(position_of(&list, "a"), Some(0));
    assert_eq!(position_of(&list, "b"), Some(1));
    assert_eq!(position_of(&list, "c"), None);
}

#[test]
fn edit_field_backspace_tab_and_typing() {
    let colors = build_tag_colors(&tagged_level());
    // Backspace drops one character, typed text is appended.
    assert_eq!(edit_field("wal".into(), EditMode::Tag, true, false, false, "ll", &colors), "wall");
    // Backspace on an empty field does nothing.
    assert_eq!(edit_field(String::new(), EditMode::Tag, true, false, false, "", &colors), "");
    // Tab cycles in a tag field, after Backspace, before typing.
    assert_eq!(edit_field("wallx".into(), EditMode::Tag, true, true, false, "", &colors), "cuttable");
    assert_eq!(edit_field("static".into(), EditMode::Tag, false, true, true, "!", &colors), "movable!");
    // Tab does nothing in an ID field.
    assert_eq!(edit_field("id".into(), EditMode::ObjectId, false, true, false, "7", &colors), "id7");
}

#[test]
fn edit_path_types_then_erases() {
    assert_eq!(edit_path("sheets/a".into(), ".png", false), "sheets/a.png");
    assert_eq!(edit_path("sheets/a".into(), "x", true), "sheets/a");
    assert_eq!(edit_path(String::new(), "", true), "");
}

#[test]
fn select_sprite_path_keeps_or_inserts_sorted() {
    let mut list = strings(&["sprites/a.png", "sprites/c.png"]);
    assert_eq!(select_sprite_path(&mut list, "sprites/c.png".into()), 1);
    assert_eq!(list, strings(&["sprites/a.png", "sprites/c.png"]));
    assert_eq!(select_sprite_path(&mut list, "sprites/b.png".into()), 1);
    assert_eq!(list, strings(&["sprites/a.png", "sprites/b.png", "sprites/c.png"]));
    assert_eq!(select_sprite_path(&mut list, "sprites/b.png".into()), 1);
    assert_eq!(list.len(), 3);
}

#[test]
fn shortcuts_global_then_layer_keys() {
    let mut k = no_keys();
    k.save = true;
    k.rect = true;
    k.num3 = true;
    k.undo = true;
    let cmds = shortcut_commands(k, Layer::CollisionPlanning, None, 0);
    assert_eq!(
        cmds,
        vec![
            Command::Save,
            Command::UseTool(Tool::Rect),
            Command::UseColor(Color::new(255, 203, 0, 255)),
            Command::Undo
        ]
    );
}

#[test]
fn shortcuts_tab_switches_before_layer_keys() {
    let mut k = no_keys();
    k.tab = true;
    k.right = true;
    k.delete = true;
    // Collision → Classification: arrows focus, Delete clears the tag.
    let cmds = shortcut_commands(k, Layer::CollisionPlanning, None, 0);
    assert_eq!(cmds, vec![Command::CycleLayer, Command::FocusNext, Command::ClearFocusedTag]);
    // Classification → Sprite: Delete deletes, arrows do nothing.
    let cmds = shortcut_commands(k, Layer::ClassificationPlanning, None, 0);
    assert_eq!(cmds, vec![Command::CycleLayer, Command::DeleteSelected]);
}

#[test]
fn shortcuts_sprite_layer_picks_sprites() {
    let mut k = no_keys();
    k.open_bracket = true;
    k.close_bracket = true;
    k.period = true;
    k.circle = true;
    // Placing a sprite: no tool keys; brackets wrap around the list.
    let cmds = shortcut_commands(k, Layer::SpritePlanning, Some(0), 3);
    assert_eq!(cmds, vec![Command::SelectSprite(2), Command::SelectSprite(1), Command::DoubleScale]);
    // No sprite chosen: tools work and the list starts from the first.
    let cmds = shortcut_commands(k, Layer::SpritePlanning, None, 3);
    assert_eq!(
        cmds,
        vec![Command::UseTool(Tool::Circle), Command::SelectSprite(2), Command::SelectSprite(1), Command::DoubleScale]
    );
    // No sprites known: brackets do nothing.
    let cmds = shortcut_commands(k, Layer::SpritePlanning, None, 0);
    assert_eq!(cmds, vec![Command::UseTool(Tool::Circle)]);
}

#[test]
fn shortcuts_classification_arrows_and_delete() {
    let mut k = no_keys();
    k.left = true;
    k.down = true;
    k.backspace = true;
    k.help = true;
    let cmds = shortcut_commands(k, Layer::ClassificationPlanning, None, 0);
    assert_eq!(cmds, vec![Command::ToggleHelp, Command::FocusNext, Command::FocusPrev]);
}

use juni::editor::{escape_action, sheet_key_action, EscapeAction, SheetKeyAction, Undone};
use juni::status::{cleared_tag_status, clear_status, delete_status, focus_status, layer_status, tagged_status, undo_status};

#[test]
fn status_messages() {
    assert_eq!(undo_status(Undone::Sprite(3)).as_deref(), Some("Undid last sprite (3 left)"));
    assert_eq!(undo_status(Undone::Shape(0)).as_deref(), Some("Undid last shape (0 left)"));
    assert_eq!(undo_status(Undone::Nothing), None);
    assert_eq!(clear_status(Layer::ClassificationPlanning), "Cleared all classifications");
    assert_eq!(clear_status(Layer::CollisionPlanning), "Cleared Collision layer");
    assert_eq!(delete_status(12), "Deleted selected shape (12 left)");
    assert_eq!(layer_status(Layer::SpritePlanning), "Active layer: Sprite");
    assert_eq!(focus_status("hero", "player", 0, 3), "hero | player (1/3)");
    assert_eq!(focus_status("box", "static", 9, 10), "box | static (10/10)");
    assert_eq!(tagged_status("hero", "player"), "Tagged 'hero' as 'player'");
    assert_eq!(cleared_tag_status("tree"), "Cleared tag for 'tree'");
}

#[test]
fn escape_and_sheet_keys() {
    assert_eq!(escape_action(true, true), EscapeAction::CancelEdit);
    assert_eq!(escape_action(false, true), EscapeAction::Deselect);
    assert_eq!(escape_action(false, false), EscapeAction::Quit);
    assert_eq!(sheet_key_action(true, true), SheetKeyAction::EnterPath);
    assert_eq!(sheet_key_action(false, false), SheetKeyAction::EnterPath);
    assert_eq!(sheet_key_action(false, true), SheetKeyAction::TogglePanel);
}
