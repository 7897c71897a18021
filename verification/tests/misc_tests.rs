use juni::animation::Playback;
use juni::chain::player_tether;
use juni::color::{tag_palette_color, Color};
use juni::editor::{clear_layer, crop_file_name, delete_selected, drag_action_for, layer_len, remove_shape_at, undo, window_title, DragAction, Layer, Undone};
use juni::level::{ClassificationEntry, Level, Shape, SpriteInstance};
use juni::player::Abilities;
use juni::portals::{PortalSlots, Slot};
use juni::screens::Screen;
use juni::slots::{check_result, result_message, symbol_at, SlotRng, SpinOutcome, Symbol};
use juni::sprite_cells::{scan_cells, scan_non_empty_cells, FrameGrid};
use juni::text_entry::{collect_path_chars, collect_typed_chars, Key};
use juni::transition::FadePhase;

fn shape(id: &str) -> Shape {
    Shape::Circle { id: id.into(), x: 0, y: 0, radius: 0, color: Color::new(0, 0, 0, 0) }
}

#[test]
fn color_new_and_palette() {
    let c = Color::new(1, 2, 3, 4);
    assert_eq!((c.r, c.g, c.b, c.a), (1, 2, 3, 4));
    assert_eq!(tag_palette_color(0), Color::new(200, 200, 200, 255));
    assert_eq!(tag_palette_color(9), Color::new(0, 121, 241, 255));
}

#[test]
fn slots_strip_wraps_both_ways() {
    assert_eq!(symbol_at(0), Symbol::Seven);
    assert_eq!(symbol_at(1), Symbol::Cherry);
    assert_eq!(symbol_at(7), Symbol::Diamond);
    assert_eq!(symbol_at(8), Symbol::Seven);
    assert_eq!(symbol_at(-1), Symbol::Diamond);
    assert_eq!(symbol_at(-8), Symbol::Seven);
    assert_eq!(symbol_at(-9), Symbol::Diamond);
    assert_eq!(symbol_at(isize::MIN), Symbol::Seven);
}

#[test]
fn slots_paytable_and_messages() {
    assert_eq!(check_result(Symbol::Bar, Symbol::Bar, Symbol::Bar), SpinOutcome::Jackpot(Symbol::Bar));
    assert_eq!(check_result(Symbol::Bar, Symbol::Seven, Symbol::Bar), SpinOutcome::SmallWin);
    assert_eq!(check_result(Symbol::Seven, Symbol::Bar, Symbol::Cherry), SpinOutcome::NoMatch);
    assert_eq!(result_message(SpinOutcome::Jackpot(Symbol::Diamond)), "JACKPOT! Three DIAMs!");
    assert_eq!(result_message(SpinOutcome::SmallWin), "Small win! Two match.");
    assert_eq!(result_message(SpinOutcome::NoMatch), "No match. Try again!");
    assert_eq!(Symbol::Seven.label(), "7");
    assert_eq!(Symbol::Cherry.color(), Color::new(255, 0, 255, 255));
    let mut r = SlotRng(1);
    assert_eq!(r.next(), 1_103_515_245u32.wrapping_add(12_345));
}

#[test]
fn typed_characters_follow_table_order() {
    assert_eq!(collect_typed_chars(&[Key::B, Key::A], false), "ab");
    assert_eq!(collect_typed_chars(&[Key::A, Key::Num1], true), "A1");
    assert_eq!(collect_typed_chars(&[Key::Period, Key::Comma], false), ",.");
    assert_eq!(collect_typed_chars(&[Key::Slash], false), "");
    assert_eq!(collect_path_chars(&[Key::Slash, Key::Period, Key::Comma], false), ".,/");
    assert_eq!(collect_path_chars(&[Key::Num1, Key::Minus], true), "!_");
    assert_eq!(collect_path_chars(&[], true), "");
}

fn png_bytes(w: u32, h: u32, opaque: &[(u32, u32)]) -> Vec<u8> {
    let mut img = image::RgbaImage::new(w, h);
    for &(x, y) in opaque {
        img.put_pixel(x, y, image::Rgba([255, 0, 0, 255]));
    }
    let mut out = std::io::Cursor::new(Vec::new());
    img.write_to(&mut out, image::ImageFormat::Png).unwrap();
    out.into_inner()
}

#[test]
fn sprite_sheet_cells_with_pixels() {
    // 3 columns × 2 rows of 4×4 cells; row 0 has frames in columns 0 and 2,
    // row 1 only in column 1.
    let bytes = png_bytes(12, 8, &[(1, 1), (11, 3), (5, 6)]);
    let rows = scan_non_empty_cells(&bytes, 4, 4);
    assert_eq!(rows, vec![vec![0, 2], vec![1]]);
    let grid = FrameGrid { rows };
    assert_eq!(grid.frame_count(0), 2);
    assert_eq!(grid.frames_in_row(1), &[1]);
    assert_eq!(grid.frame_count(5), 0);
}

#[test]
fn sprite_sheet_partial_cells_and_bad_bytes() {
    let bytes = png_bytes(10, 5, &[(9, 4), (0, 0)]);
    assert_eq!(scan_non_empty_cells(&bytes, 4, 4), vec![vec![0]]);
    assert!(scan_non_empty_cells(b"not an image", 4, 4).is_empty());
    let px = vec![0u8; 16];
    assert_eq!(scan_cells(&px, 2, 2, 1, 1), vec![Vec::<u32>::new(), Vec::new()]);
}

#[test]
fn layers_cycle_and_name() {
    assert_eq!(Layer::SpritePlanning.next(), Layer::CollisionPlanning);
    assert_eq!(Layer::ClassificationPlanning.next(), Layer::SpritePlanning);
    assert_eq!(Layer::CollisionPlanning.name(), "Collision");
    assert_eq!(Layer::SpritePlanning.default_color(), Color::new(0, 121, 241, 255));
    assert_eq!(window_title("level.json", Layer::SpritePlanning, true), "juni — level editor — level.json — Sprite *");
    assert_eq!(window_title("a", Layer::ClassificationPlanning, false), "juni — level editor — a — Classification");
}

#[test]
fn drags_and_edits() {
    assert_eq!(drag_action_for(None, true), DragAction::NewShape);
    assert_eq!(drag_action_for(Some(2), false), DragAction::MoveShape(2));
    assert_eq!(drag_action_for(Some(2), true), DragAction::RedrawShape(2));

    let mut lv = Level::new();
    lv.sprite_shapes.push(shape("a"));
    lv.sprite_shapes.push(shape("b"));
    lv.sprite_shapes.push(shape("c"));
    lv.collision_shapes.push(shape("w"));
    lv.sprite_instances.push(SpriteInstance { id: "s".into(), path: "p".into(), x: 0, y: 0, scale: 0, background: false });
    lv.classifications.push(ClassificationEntry { object_id: "a".into(), tag: "t".into() });

    let mut sel = Some(2);
    assert_eq!(undo(&mut lv, Layer::SpritePlanning, &mut sel), Undone::Sprite(0));
    assert_eq!(sel, Some(2));
    assert_eq!(undo(&mut lv, Layer::SpritePlanning, &mut sel), Undone::Shape(2));
    assert_eq!(sel, None);
    assert_eq!(layer_len(&lv, Layer::SpritePlanning), 2);

    let mut sel = Some(1);
    assert_eq!(remove_shape_at(&mut lv, Layer::SpritePlanning, 0, &mut sel), 1);
    assert_eq!(sel, Some(0));
    assert_eq!(lv.sprite_shapes[0].id(), "b");

    let mut sel = Some(0);
    assert_eq!(delete_selected(&mut lv, Layer::CollisionPlanning, &mut sel), Some(0));
    assert_eq!(sel, None);
    assert_eq!(delete_selected(&mut lv, Layer::CollisionPlanning, &mut sel), None);
    assert_eq!(undo(&mut lv, Layer::CollisionPlanning, &mut sel), Undone::Nothing);

    let mut sel = Some(0);
    assert!(clear_layer(&mut lv, Layer::ClassificationPlanning, &mut sel));
    assert!(lv.classifications.is_empty());
    assert_eq!(sel, Some(0));
    assert!(clear_layer(&mut lv, Layer::SpritePlanning, &mut sel));
    assert_eq!(sel, None);
    assert!(!clear_layer(&mut lv, Layer::SpritePlanning, &mut sel));
}

#[test]
fn playback_steps() {
    let mut p = Playback::new(0, false);
    assert!(p.can_advance(3));
    assert!(!p.can_advance(1));
    p.advance(3);
    p.advance(3);
    assert_eq!(p.current_frame(), 2);
    assert!(!p.is_finished());
    p.advance(3);
    assert!(p.is_finished());
    assert_eq!(p.current_frame(), 2);
    assert!(!p.can_advance(3));
    p.set_state(0);
    assert!(p.is_finished());
    p.set_state(1);
    assert!(!p.is_finished());
    assert_eq!(p.current_frame(), 0);
    let mut l = Playback::new(2, true);
    l.advance(2);
    l.advance(2);
    assert_eq!(l.current_frame(), 0);
    assert!(!l.is_finished());
}

#[test]
fn portal_placement_alternates_and_blocks() {
    let mut p = PortalSlots::new();
    assert!(!p.active());
    assert_eq!(p.crossing(Some(Slot::In)), None);
    assert_eq!(p.try_place(true), Some(Slot::In));
    assert_eq!(p.try_place(false), Some(Slot::Out));
    assert!(p.active());
    assert_eq!(p.try_place(true), None);
    assert_eq!(p.next, Slot::In);
    assert_eq!(p.try_place(false), Some(Slot::In));
    assert_eq!(p.crossing(Some(Slot::In)), Some(1));
    assert_eq!(p.crossing(Some(Slot::Out)), Some(-1));
    assert_eq!(p.crossing(None), None);
    p.clear();
    assert_eq!(p, PortalSlots::new());
}

#[test]
fn fade_phases() {
    let mut f = FadePhase::Idle;
    assert!(!f.is_active());
    assert!(f.start(Screen::Win));
    assert!(!f.start(Screen::Menu));
    assert_eq!(f, FadePhase::Out(Screen::Win));
    assert_eq!(f.half_done(), Some(Screen::Win));
    assert!(f.is_active());
    assert!(!f.start(Screen::Menu));
    assert_eq!(f.half_done(), None);
    assert_eq!(f, FadePhase::Idle);
}

#[test]
fn tether_from_last_contact() {
    assert_eq!(player_tether(&[false, false, false]), (0, 2));
    assert_eq!(player_tether(&[false, true, false, true, false, false]), (3, 2));
    assert_eq!(player_tether(&[false, false, true]), (0, 2));
    assert_eq!(player_tether(&[true]), (0, 0));
}

#[test]
fn abilities_default_on() {
    let a = Abilities::default();
    assert!(a.push && a.pull);
}

#[test]
fn crop_file_name_first_and_later_choices() {
    assert_eq!(crop_file_name("sheet", 0, 0, 2, 2, 0), "sheet_0_0_2_2.png");
    assert_eq!(crop_file_name("tiles", 16, 320, 32, 48, 3), "tiles_16_320_32_48_3.png");
    assert_eq!(crop_file_name("a", 4294967295, 10, 0, 9, 12), "a_4294967295_10_0_9_12.png");
}
