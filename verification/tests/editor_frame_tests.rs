use std::io::Cursor;

use juni::canvas::{
    apply_panel, canvas_step, double_grid, halve_grid, run_command, set_layer, toggle_spawn_arming, CanvasEvent,
    CanvasFlags, CommandRequest,
};
use juni::shortcuts::Command;
use juni::classification::{EditMode, ObjectRef};
use juni::color::Color;
use juni::editor::{DragAction, Layer};
use juni::editor_step::{
    editor_step, reloaded, saved, sheet_read, sprite_name_of, tile_cut, EditorEvent, EditorKeys, EditorState,
    TileDrag,
};
use juni::level::{Level, Shape, SpriteInstance};
use juni::sprite_cells::{crop_sheet, sheet_size};
use juni::text_entry::Key;

fn keys() -> EditorKeys {
    EditorKeys {
        escape: false,
        h: false,
        tab: false,
        f: false,
        enter: false,
        backspace: false,
        i: false,
        delete: false,
        z: false,
        x: false,
        s: false,
        o: false,
        l: false,
        r: false,
        c: false,
        num1: false,
        num2: false,
        num3: false,
        num4: false,
        num5: false,
        num6: false,
        left: false,
        right: false,
        up: false,
        down: false,
        bracket_left: false,
        bracket_right: false,
        comma: false,
        period: false,
        shift: false,
    }
}

fn bits(x: f32, y: f32) -> (u32, u32) {
    (x.to_bits(), y.to_bits())
}

fn event(k: EditorKeys) -> EditorEvent {
    EditorEvent {
        keys: k,
        typed: Vec::new(),
        left_pressed: false,
        left_released: false,
        right_pressed: false,
        snapped: bits(0.0, 0.0),
        object_at: None,
        sprite_at: None,
        shape_at: None,
        sheet_mouse: None,
        new_shape: None,
        redrawn: None,
        new_id: "fresh".to_string(),
    }
}

fn sprite(id: &str, path: &str) -> SpriteInstance {
    SpriteInstance {
        id: id.to_string(),
        path: path.to_string(),
        x: 0.0f32.to_bits(),
        y: 0.0f32.to_bits(),
        scale: 1.0f32.to_bits(),
        background: false,
    }
}

fn rect(id: &str, x: f32, y: f32, w: f32, h: f32) -> Shape {
    Shape::Rect {
        id: id.to_string(),
        x: x.to_bits(),
        y: y.to_bits(),
        width: w.to_bits(),
        height: h.to_bits(),
        color: Color::new(0, 0, 255, 255),
    }
}

fn editor(level: Level, sprite_paths: &[&str]) -> EditorState {
    EditorState::new(
        "levels/one.json".to_string(),
        level,
        "Loaded".to_string(),
        sprite_paths.iter().map(|s| s.to_string()).collect(),
    )
}

fn png(w: u32, h: u32) -> Vec<u8> {
    let mut img = image::RgbaImage::new(w, h);
    for (x, y, p) in img.enumerate_pixels_mut() {
        *p = image::Rgba([x as u8 * 10, y as u8 * 10, 7, 255]);
    }
    let mut out = Cursor::new(Vec::new());
    img.write_to(&mut out, image::ImageFormat::Png).unwrap();
    out.into_inner()
}

#[test]
fn escape_cancels_then_deselects_then_quits() {
    let mut lv = Level::new();
    lv.sprite_instances.push(sprite("s1", "sprites/tree.png"));
    let mut st = editor(lv, &[]);
    st.layer = Layer::ClassificationPlanning;
    st.editing = Some((ObjectRef::Sprite(0), EditMode::Tag, "wa".to_string()));
    st.selected = Some(0);
    let esc = || event(EditorKeys { escape: true, ..keys() });

    let act = editor_step(&mut st, &esc());
    assert!(!act.quit);
    assert!(st.editing.is_none());
    assert_eq!(st.selected, Some(0));
    assert_eq!(st.status, "Edit cancelled");

    let act = editor_step(&mut st, &esc());
    assert!(!act.quit);
    assert_eq!(st.selected, None);
    assert_eq!(st.status, "Deselected shape");

    let act = editor_step(&mut st, &esc());
    assert!(act.quit);
}

#[test]
fn editing_a_tag_swallows_other_keys() {
    let mut lv = Level::new();
    lv.sprite_instances.push(sprite("s1", "sprites/tree.png"));
    let mut st = editor(lv, &[]);
    st.layer = Layer::ClassificationPlanning;
    st.editing = Some((ObjectRef::Sprite(0), EditMode::Tag, String::new()));

    let mut ev = event(EditorKeys { s: true, o: true, h: true, ..keys() });
    ev.typed = vec![Key::W, Key::A];
    let act = editor_step(&mut st, &ev);
    assert!(!act.save && !act.reload);
    assert!(!st.show_help);
    assert_eq!(st.layer, Layer::ClassificationPlanning);
    assert_eq!(st.editing.as_ref().map(|e| e.2.as_str()), Some("aw"));

    let act = editor_step(&mut st, &event(EditorKeys { enter: true, ..keys() }));
    assert!(!act.save);
    assert!(st.editing.is_none());
    assert!(st.dirty);
    assert_eq!(st.status, "Tagged as 'aw'");
    assert_eq!(st.level.get_tag("s1"), Some("aw"));
}

#[test]
fn blank_id_takes_the_fresh_one() {
    let mut lv = Level::new();
    lv.sprite_instances.push(sprite("s1", "sprites/tree.png"));
    let mut st = editor(lv, &[]);
    st.layer = Layer::ClassificationPlanning;
    st.editing = Some((ObjectRef::Sprite(0), EditMode::ObjectId, "  ".to_string()));
    editor_step(&mut st, &event(EditorKeys { enter: true, ..keys() }));
    assert_eq!(st.level.sprite_instances[0].id, "fresh");
    assert_eq!(st.status, "ID set to 'fresh'");
}

#[test]
fn tab_moves_to_next_layer_and_drops_selection() {
    let mut st = editor(Level::new(), &[]);
    st.selected = Some(0);
    st.drag_action = Some(DragAction::NewShape);
    editor_step(&mut st, &event(EditorKeys { tab: true, ..keys() }));
    assert_eq!(st.layer, Layer::CollisionPlanning);
    assert_eq!(st.selected, None);
    assert_eq!(st.drag_action, None);
    assert_eq!(st.status, "Active layer: Collision");
    assert_eq!(st.color, Layer::CollisionPlanning.default_color());
}

#[test]
fn view_reset_and_help() {
    let mut st = editor(Level::new(), &[]);
    let act = editor_step(&mut st, &event(EditorKeys { f: true, h: true, ..keys() }));
    assert!(act.reset_view);
    assert!(st.show_help);
    assert_eq!(st.status, "View reset");
}

#[test]
fn a_drag_draws_a_new_shape() {
    let mut st = editor(Level::new(), &[]);
    let mut press = event(keys());
    press.left_pressed = true;
    press.snapped = bits(32.0, 32.0);
    editor_step(&mut st, &press);
    assert_eq!(st.drag_start, Some(bits(32.0, 32.0)));
    assert_eq!(st.drag_action, Some(DragAction::NewShape));

    let mut release = event(keys());
    release.left_released = true;
    release.new_shape = Some(rect("n1", 32.0, 32.0, 64.0, 32.0));
    editor_step(&mut st, &release);
    assert_eq!(st.level.sprite_shapes.len(), 1);
    assert_eq!(st.level.sprite_shapes[0].id(), "n1");
    assert_eq!(st.drag_start, None);
    assert!(st.dirty);
    assert_eq!(st.status, "Placed shape on Sprite (1 total)");
}

#[test]
fn a_tiny_drag_adds_nothing() {
    let mut st = editor(Level::new(), &[]);
    let mut ev = event(keys());
    ev.left_pressed = true;
    ev.left_released = true;
    editor_step(&mut st, &ev);
    assert!(st.level.sprite_shapes.is_empty());
    assert!(!st.dirty);
}

#[test]
fn a_click_places_the_chosen_sprite() {
    let mut st = editor(Level::new(), &["sprites/rock.png", "sprites/tree.png"]);
    editor_step(&mut st, &event(EditorKeys { bracket_right: true, period: true, ..keys() }));
    assert_eq!(st.selected_sprite, Some(1));
    assert_eq!(st.scale_exp, 1);
    let mut ev = event(keys());
    ev.left_pressed = true;
    ev.snapped = bits(64.0, 96.0);
    editor_step(&mut st, &ev);
    assert_eq!(st.level.sprite_instances.len(), 1);
    let s = &st.level.sprite_instances[0];
    assert_eq!(s.id, "fresh");
    assert_eq!(s.path, "sprites/tree.png");
    assert_eq!((s.x, s.y), bits(64.0, 96.0));
    assert_eq!(s.scale, 2.0f32.to_bits());
    assert_eq!(st.status, "Placed sprite (1 total)");
}

#[test]
fn right_click_deletes_sprite_then_shape() {
    let mut lv = Level::new();
    lv.sprite_instances.push(sprite("s1", "sprites/tree.png"));
    lv.sprite_shapes.push(rect("a", 0.0, 0.0, 10.0, 10.0));
    lv.sprite_shapes.push(rect("b", 0.0, 0.0, 10.0, 10.0));
    let mut st = editor(lv, &[]);
    st.selected = Some(1);
    let mut ev = event(keys());
    ev.right_pressed = true;
    ev.sprite_at = Some(0);
    ev.shape_at = Some(0);
    editor_step(&mut st, &ev);
    assert!(st.level.sprite_instances.is_empty());
    assert_eq!(st.level.sprite_shapes.len(), 2);
    assert_eq!(st.status, "Deleted sprite (0 left)");

    ev.sprite_at = None;
    editor_step(&mut st, &ev);
    assert_eq!(st.level.sprite_shapes.len(), 1);
    assert_eq!(st.level.sprite_shapes[0].id(), "b");
    assert_eq!(st.selected, Some(0));
    assert_eq!(st.status, "Deleted shape from Sprite (1 left)");
}

#[test]
fn undo_and_clear_the_layer() {
    let mut lv = Level::new();
    lv.collision_shapes.push(rect("a", 0.0, 0.0, 10.0, 10.0));
    lv.collision_shapes.push(rect("b", 0.0, 0.0, 10.0, 10.0));
    lv.collision_shapes.push(rect("c", 0.0, 0.0, 10.0, 10.0));
    let mut st = editor(lv, &[]);
    st.layer = Layer::CollisionPlanning;
    st.selected = Some(2);
    editor_step(&mut st, &event(EditorKeys { z: true, ..keys() }));
    assert_eq!(st.level.collision_shapes.len(), 2);
    assert_eq!(st.selected, None);
    assert_eq!(st.status, "Undid last shape on Collision (2 left)");
    editor_step(&mut st, &event(EditorKeys { x: true, ..keys() }));
    assert!(st.level.collision_shapes.is_empty());
    assert_eq!(st.status, "Cleared Collision layer");
}

#[test]
fn save_and_reload_are_asked_for() {
    let mut st = editor(Level::new(), &[]);
    let act = editor_step(&mut st, &event(EditorKeys { s: true, o: true, ..keys() }));
    assert!(act.save && act.reload && !act.quit);
}

#[test]
fn typing_a_sheet_path_asks_for_a_read() {
    let mut st = editor(Level::new(), &[]);
    editor_step(&mut st, &event(EditorKeys { l: true, ..keys() }));
    assert!(st.entering_path);
    for k in [Key::A, Key::Period, Key::P, Key::N, Key::G] {
        let mut ev = event(EditorKeys { s: true, ..keys() });
        ev.typed = vec![k];
        let act = editor_step(&mut st, &ev);
        assert!(!act.save);
    }
    assert_eq!(st.path_input, "a.png");
    let act = editor_step(&mut st, &event(EditorKeys { enter: true, ..keys() }));
    assert!(act.read_sheet);
    assert!(!st.entering_path);
    assert_eq!(st.pending_sheet.as_deref(), Some("a.png"));

    sheet_read(&mut st, Err("no such file".to_string()));
    assert_eq!(st.status, "Failed to read sheet: no such file");
    assert!(st.pending_sheet.is_none());
}

#[test]
fn a_read_sheet_loads_and_a_drag_cuts() {
    let mut st = editor(Level::new(), &[]);
    st.pending_sheet = Some("sheets/a.png".to_string());
    sheet_read(&mut st, Ok(b"not a png".to_vec()));
    assert!(st.status.starts_with("Failed to decode sheet: "));
    assert!(st.sheet.is_none());

    st.pending_sheet = Some("sheets/a.png".to_string());
    sheet_read(&mut st, Ok(png(4, 2)));
    assert_eq!(st.sheet, Some(("sheets/a.png".to_string(), 4, 2)));
    assert!(st.panel_open);
    assert_eq!(st.status, "Loaded sheet 4x2; drag to cut a tile");

    let mut press = event(keys());
    press.left_pressed = true;
    press.sheet_mouse = Some(bits(1.0, 0.0));
    assert_eq!(editor_step(&mut st, &press).cut_tile, None);
    let mut release = event(keys());
    release.left_released = true;
    release.sheet_mouse = Some(bits(3.0, 2.0));
    let act = editor_step(&mut st, &release);
    let (x0, y0) = bits(1.0, 0.0);
    let (x1, y1) = bits(3.0, 2.0);
    assert_eq!(act.cut_tile, Some(TileDrag { x0, y0, x1, y1 }));
    assert!(st.sheet_drag.is_none());

    editor_step(&mut st, &event(EditorKeys { l: true, ..keys() }));
    assert!(!st.panel_open);
    assert_eq!(st.status, "Sheet hidden");
}

#[test]
fn a_cut_tile_is_listed_and_chosen() {
    let mut st = editor(Level::new(), &["sprites/rock.png", "sprites/tree.png"]);
    tile_cut(&mut st, Ok("sprites/sheet_1_0_2_2.png".to_string()));
    assert_eq!(st.sprite_paths, vec!["sprites/rock.png", "sprites/sheet_1_0_2_2.png", "sprites/tree.png"]);
    assert_eq!(st.selected_sprite, Some(1));
    assert!(st.dirty);
    assert_eq!(st.status, "Cut 'sheet_1_0_2_2'; hide sheet (L) to place");

    tile_cut(&mut st, Err("disk full".to_string()));
    assert_eq!(st.status, "Cut failed: disk full");
    assert_eq!(st.sprite_paths.len(), 3);
}

#[test]
fn save_and_reload_outcomes() {
    let mut lv = Level::new();
    lv.sprite_instances.push(sprite("s1", "sprites/tree.png"));
    let mut st = editor(lv, &[]);
    st.dirty = true;
    saved(&mut st, Err("read-only".to_string()));
    assert_eq!(st.status, "Save failed: read-only");
    assert!(st.dirty);
    saved(&mut st, Ok(()));
    assert!(!st.dirty);
    assert_eq!(st.status, "Saved levels/one.json (1 sprites, 0 collision, 0 tags)");

    reloaded(&mut st, Err("bad json".to_string()), || "g".to_string());
    assert_eq!(st.status, "Load failed: bad json");
    assert_eq!(st.level.sprite_instances.len(), 1);

    let mut fresh = Level::new();
    fresh.sprite_instances.push(sprite("", "sprites/rock.png"));
    fresh.collision_shapes.push(rect("c", 0.0, 0.0, 4.0, 4.0));
    st.dirty = true;
    reloaded(&mut st, Ok(fresh), || "g".to_string());
    assert_eq!(st.level.sprite_instances[0].id, "g");
    assert!(!st.dirty);
    assert_eq!(st.status, "Reloaded levels/one.json (1 sprites, 1 collision, 0 tags)");
}

#[test]
fn sprite_names_are_file_stems() {
    assert_eq!(sprite_name_of("sprites/tree.png"), "tree");
    assert_eq!(sprite_name_of("a/b/sheet.v2.png"), "sheet.v2");
    assert_eq!(sprite_name_of("noext"), "noext");
    assert_eq!(sprite_name_of("dir/.hidden"), ".hidden");
}

#[test]
fn sheets_are_measured_and_cropped() {
    let sheet = png(4, 2);
    assert_eq!(sheet_size(&sheet), Ok((4, 2)));
    assert!(sheet_size(b"nope").is_err());

    let tile = crop_sheet(&sheet, 1, 0, 2, 2).expect("in bounds");
    let img = image::load_from_memory(&tile).unwrap().to_rgba8();
    assert_eq!(img.dimensions(), (2, 2));
    assert_eq!(img.get_pixel(0, 0).0, [10, 0, 7, 255]);
    assert_eq!(img.get_pixel(1, 1).0, [20, 10, 7, 255]);

    assert!(crop_sheet(&sheet, 3, 0, 2, 2).is_none());
    assert!(crop_sheet(b"nope", 0, 0, 1, 1).is_none());
}

fn flags() -> CanvasFlags {
    CanvasFlags { arming_spawn: false, title_dirty: false, synced_focus: None, place_background: false }
}

fn pointer(x: f32, y: f32) -> CanvasEvent {
    CanvasEvent {
        cursor: Some(bits(x, y)),
        primary_clicked: false,
        secondary_clicked: false,
        drag_started: false,
        drag_stopped: false,
        shift: false,
        object_at: None,
        sprite_at: None,
        shape_at: None,
        new_shape: None,
        moved: None,
        redrawn: None,
        new_id: "fresh".to_string(),
        spawn_label: format!("{x:.0},{y:.0}"),
    }
}

#[test]
fn armed_spawn_takes_the_click() {
    let mut st = editor(Level::new(), &["sprites/tree.png"]);
    let mut f = CanvasFlags { arming_spawn: true, ..flags() };
    let ev = CanvasEvent { primary_clicked: true, ..pointer(64.0, 32.0) };
    canvas_step(&mut st, &mut f, &ev);
    let spawn = st.level.player_start.expect("spawn set");
    assert_eq!((spawn.x, spawn.y), bits(64.0, 32.0));
    assert!(st.level.sprite_instances.is_empty());
    assert!(!f.arming_spawn && f.title_dirty && st.dirty);
    assert_eq!(st.status, "Player spawn set to 64,32");
}

#[test]
fn canvas_focuses_and_clears_tags() {
    let mut lv = Level::new();
    lv.sprite_instances.push(sprite("s1", "sprites/tree.png"));
    juni::classification::set_tag(&mut lv, "s1", "wall");
    let mut st = editor(lv, &[]);
    st.layer = Layer::ClassificationPlanning;
    let mut f = CanvasFlags { synced_focus: Some(ObjectRef::Sprite(0)), ..flags() };
    let ev = CanvasEvent { primary_clicked: true, object_at: Some(ObjectRef::Sprite(0)), ..pointer(1.0, 1.0) };
    canvas_step(&mut st, &mut f, &ev);
    assert_eq!(st.focused, Some(ObjectRef::Sprite(0)));
    assert_eq!(f.synced_focus, None);
    assert_eq!(st.level.get_tag("s1"), Some("wall"));
    assert!(!f.title_dirty);

    let ev = CanvasEvent { secondary_clicked: true, object_at: Some(ObjectRef::Sprite(0)), ..pointer(1.0, 1.0) };
    canvas_step(&mut st, &mut f, &ev);
    assert_eq!(st.level.get_tag("s1"), None);
    assert!(f.title_dirty && st.dirty);
    assert_eq!(st.status, "Cleared tag for 's1'");
}

#[test]
fn canvas_places_and_deletes_sprites() {
    let mut st = editor(Level::new(), &["sprites/tree.png"]);
    let mut f = CanvasFlags { place_background: true, ..flags() };
    canvas_step(&mut st, &mut f, &CanvasEvent { primary_clicked: true, ..pointer(32.0, 64.0) });
    assert_eq!(st.level.sprite_instances.len(), 1);
    assert!(st.level.sprite_instances[0].background);
    assert_eq!((st.level.sprite_instances[0].x, st.level.sprite_instances[0].y), bits(32.0, 64.0));
    assert_eq!(st.status, "Placed sprite (1 total)");
    canvas_step(&mut st, &mut f, &CanvasEvent { secondary_clicked: true, sprite_at: Some(0), ..pointer(32.0, 64.0) });
    assert!(st.level.sprite_instances.is_empty());
    assert_eq!(st.status, "Deleted sprite (0 left)");
}

#[test]
fn canvas_drags_move_redraw_and_draw() {
    let mut lv = Level::new();
    lv.collision_shapes.push(rect("a", 0.0, 0.0, 10.0, 10.0));
    let mut st = editor(lv, &[]);
    st.layer = Layer::CollisionPlanning;
    let mut f = flags();

    canvas_step(&mut st, &mut f, &CanvasEvent { drag_started: true, shape_at: Some(0), ..pointer(0.0, 0.0) });
    assert_eq!(st.drag_action, Some(DragAction::MoveShape(0)));
    assert_eq!(st.selected, Some(0));
    let moved = rect("a", 32.0, 0.0, 10.0, 10.0);
    canvas_step(&mut st, &mut f, &CanvasEvent { drag_stopped: true, moved: Some(moved), ..pointer(32.0, 0.0) });
    assert_eq!(st.level.collision_shapes[0].id(), "a");
    assert_eq!(st.status, "Moved shape 0");
    assert!(st.drag_action.is_none() && f.title_dirty);

    canvas_step(&mut st, &mut f, &CanvasEvent { drag_started: true, shift: true, shape_at: Some(0), ..pointer(32.0, 0.0) });
    assert_eq!(st.drag_action, Some(DragAction::RedrawShape(0)));
    canvas_step(&mut st, &mut f, &CanvasEvent { drag_stopped: true, ..pointer(32.0, 0.0) });
    assert_eq!(st.status, "Moved shape 0");
    assert_eq!(st.selected, Some(0));

    canvas_step(&mut st, &mut f, &CanvasEvent { drag_started: true, ..pointer(64.0, 64.0) });
    assert_eq!(st.drag_action, Some(DragAction::NewShape));
    assert_eq!(st.selected, None);
    let drawn = rect("n", 64.0, 64.0, 32.0, 32.0);
    canvas_step(&mut st, &mut f, &CanvasEvent { drag_stopped: true, new_shape: Some(drawn), ..pointer(96.0, 96.0) });
    assert_eq!(st.level.collision_shapes.len(), 2);
    assert_eq!(st.status, "Placed shape (2 total)");

    st.selected = Some(1);
    canvas_step(&mut st, &mut f, &CanvasEvent { secondary_clicked: true, shape_at: Some(0), ..pointer(40.0, 5.0) });
    assert_eq!(st.level.collision_shapes.len(), 1);
    assert_eq!(st.selected, Some(0));
    assert_eq!(st.status, "Deleted shape (1 left)");
}

#[test]
fn canvas_ignores_a_pointer_off_the_canvas() {
    let mut st = editor(Level::new(), &["sprites/tree.png"]);
    let mut f = flags();
    canvas_step(&mut st, &mut f, &CanvasEvent { cursor: None, primary_clicked: true, ..pointer(0.0, 0.0) });
    assert!(st.level.sprite_instances.is_empty());
    assert_eq!(st.status, "Loaded");
}

#[test]
fn panel_apply_renames_tags_and_marks_dirty() {
    let mut lv = Level::new();
    lv.sprite_instances.push(sprite("old", "sprites/tree.png"));
    juni::classification::set_tag(&mut lv, "old", "wall");
    let mut st = editor(lv, &[]);
    st.layer = Layer::ClassificationPlanning;
    let mut f = CanvasFlags { synced_focus: Some(ObjectRef::Sprite(0)), ..flags() };
    let mut id_buf = " new ".to_string();

    apply_panel(&mut st, &mut f, &mut id_buf, "", || "gen".to_string());
    assert_eq!(st.status, "Loaded");
    assert_eq!(id_buf, " new ");

    st.focused = Some(ObjectRef::Sprite(0));
    apply_panel(&mut st, &mut f, &mut id_buf, "  movable ", || "gen".to_string());
    assert_eq!(id_buf, "new");
    assert_eq!(st.level.sprite_instances[0].id, "new");
    assert_eq!(st.level.get_tag("new"), Some("movable"));
    assert_eq!(st.level.get_tag("old"), None);
    assert_eq!(st.level.classifications.len(), 1);
    assert!(st.tag_colors.contains("movable"));
    assert!(st.dirty && f.title_dirty);
    assert_eq!(f.synced_focus, None);
    assert_eq!(st.status, "Tagged 'new' as 'movable'");

    let mut blank = String::new();
    apply_panel(&mut st, &mut f, &mut blank, "", || "gen".to_string());
    assert_eq!(blank, "gen");
    assert_eq!(st.level.get_tag("gen"), Some("static"));
    assert_eq!(st.status, "Tagged 'gen' as 'static'");
}

#[test]
fn choosing_a_layer_resets_the_canvas_state() {
    let mut lv = Level::new();
    lv.sprite_instances.push(sprite("s1", "sprites/tree.png"));
    let mut st = editor(lv, &[]);
    let mut f = flags();
    set_layer(&mut st, &mut f, Layer::SpritePlanning);
    assert_eq!(st.status, "Loaded");
    assert!(!f.title_dirty);

    set_layer(&mut st, &mut f, Layer::ClassificationPlanning);
    st.focused = Some(ObjectRef::Sprite(0));
    st.selected = Some(0);
    set_layer(&mut st, &mut f, Layer::CollisionPlanning);
    assert_eq!(st.layer, Layer::CollisionPlanning);
    assert_eq!(st.color, Color::new(230, 41, 55, 255));
    assert_eq!((st.focused, st.selected), (None, None));
    assert!(f.title_dirty);
    assert_eq!(st.status, "Active layer: Collision");
}

#[test]
fn keyboard_commands_of_the_windowed_editor() {
    let mut lv = Level::new();
    lv.sprite_instances.push(sprite("s1", "sprites/tree.png"));
    lv.sprite_shapes.push(rect("a", 0.0, 0.0, 10.0, 10.0));
    lv.sprite_shapes.push(rect("b", 0.0, 0.0, 10.0, 10.0));
    let mut st = editor(lv, &["sprites/rock.png", "sprites/tree.png"]);
    let mut f = flags();

    let req = run_command(&mut st, &mut f, Command::Save);
    assert_eq!(req, CommandRequest { save: true, open: false, reset_view: false });
    let req = run_command(&mut st, &mut f, Command::ResetView);
    assert!(req.reset_view);
    assert_eq!(st.status, "View reset");

    run_command(&mut st, &mut f, Command::SelectSprite(1));
    assert_eq!(st.selected_sprite, Some(1));
    assert_eq!(st.status, "Sprite: tree");
    run_command(&mut st, &mut f, Command::HalveScale);
    run_command(&mut st, &mut f, Command::HalveScale);
    run_command(&mut st, &mut f, Command::HalveScale);
    assert_eq!(st.scale_exp, -2);

    run_command(&mut st, &mut f, Command::Undo);
    assert!(st.level.sprite_instances.is_empty());
    assert_eq!(st.status, "Undid last sprite (0 left)");
    assert!(st.dirty && f.title_dirty);
    run_command(&mut st, &mut f, Command::Undo);
    assert_eq!(st.level.sprite_shapes.len(), 1);
    assert_eq!(st.status, "Undid last shape (1 left)");

    st.selected = Some(0);
    run_command(&mut st, &mut f, Command::DeleteSelected);
    assert!(st.level.sprite_shapes.is_empty());
    assert_eq!(st.selected, None);
    assert_eq!(st.status, "Deleted selected shape (0 left)");

    run_command(&mut st, &mut f, Command::CycleLayer);
    run_command(&mut st, &mut f, Command::CycleLayer);
    assert_eq!(st.layer, Layer::ClassificationPlanning);
    st.level.classifications.push(juni::level::ClassificationEntry { object_id: "x".into(), tag: "wall".into() });
    run_command(&mut st, &mut f, Command::ClearLayer);
    assert!(st.level.classifications.is_empty());
    assert_eq!(st.status, "Cleared all classifications");
}

#[test]
fn focus_commands_walk_the_objects() {
    let mut lv = Level::new();
    lv.sprite_instances.push(sprite("s1", "sprites/tree.png"));
    lv.collision_shapes.push(rect("c1", 0.0, 0.0, 4.0, 4.0));
    let mut st = editor(lv, &[]);
    st.layer = Layer::ClassificationPlanning;
    let mut f = CanvasFlags { synced_focus: Some(ObjectRef::Sprite(0)), ..flags() };
    run_command(&mut st, &mut f, Command::FocusPrev);
    assert_eq!(st.focused, Some(ObjectRef::CollisionShape(0)));
    assert_eq!(f.synced_focus, None);
    run_command(&mut st, &mut f, Command::FocusNext);
    assert_eq!(st.focused, Some(ObjectRef::Sprite(0)));
}

#[test]
fn spawn_arming_toggles_with_its_messages() {
    let mut st = editor(Level::new(), &[]);
    let mut f = flags();
    toggle_spawn_arming(&mut st, &mut f);
    assert!(f.arming_spawn);
    assert_eq!(st.status, "Click the canvas to set the player spawn");
    toggle_spawn_arming(&mut st, &mut f);
    assert!(!f.arming_spawn);
    assert_eq!(st.status, "Spawn placement cancelled");
}

#[test]
fn sheet_grid_halves_and_doubles_within_bounds() {
    assert_eq!(halve_grid(32), 16);
    assert_eq!(halve_grid(3), 1);
    assert_eq!(halve_grid(1), 1);
    assert_eq!(halve_grid(0), 1);
    assert_eq!(double_grid(16), 32);
    assert_eq!(double_grid(256), 512);
    assert_eq!(double_grid(300), 512);
    assert_eq!(double_grid(u32::MAX), 512);
}
