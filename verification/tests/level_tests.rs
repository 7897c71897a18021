use juni::color::Color;
use juni::level::{ClassificationEntry, Level, Shape, SpawnPoint, SpriteInstance, DEFAULT_GRID_SIZE_BITS, DEFAULT_LEVEL_PATH};
use std::cell::Cell;

fn rect(id: &str) -> Shape {
    Shape::Rect { id: id.to_string(), x: 1.0f32.to_bits(), y: 2.0f32.to_bits(), width: 3.0f32.to_bits(), height: 4.0f32.to_bits(), color: Color::new(1, 2, 3, 4) }
}

fn circle(id: &str) -> Shape {
    Shape::Circle { id: id.to_string(), x: 5.0f32.to_bits(), y: 6.0f32.to_bits(), radius: 7.0f32.to_bits(), color: Color::new(9, 8, 7, 6) }
}

fn sprite(id: &str) -> SpriteInstance {
    SpriteInstance { id: id.to_string(), path: "sprites/a.png".to_string(), x: 0, y: 0, scale: 1.0f32.to_bits(), background: false }
}

#[test]
fn new_level_is_empty_with_default_grid() {
    let lv = Level::new();
    assert!(lv.sprite_shapes.is_empty());
    assert!(lv.collision_shapes.is_empty());
    assert!(lv.sprite_instances.is_empty());
    assert!(lv.classifications.is_empty());
    assert!(lv.player_start.is_none());
    assert_eq!(f32::from_bits(lv.grid_size), 32.0);
    assert_eq!(DEFAULT_GRID_SIZE_BITS, 32.0f32.to_bits());
    assert_eq!(DEFAULT_LEVEL_PATH, "level.json");
    let d = Level::default();
    assert_eq!(d.grid_size, lv.grid_size);
}

#[test]
fn shape_accessors() {
    let mut s = rect("box");
    assert_eq!(s.id(), "box");
    assert_eq!(s.color(), Color::new(1, 2, 3, 4));
    s.set_id("crate".to_string());
    assert_eq!(s.id(), "crate");
    match s {
        Shape::Rect { width, color, .. } => {
            assert_eq!(f32::from_bits(width), 3.0);
            assert_eq!(color, Color::new(1, 2, 3, 4));
        }
        _ => panic!("kind changed"),
    }
    let mut c = circle("");
    assert_eq!(c.id(), "");
    c.set_id("ball".to_string());
    assert_eq!(c.id(), "ball");
    assert_eq!(c.color(), Color::new(9, 8, 7, 6));
}

#[test]
fn ensure_ids_fills_only_empty_ids() {
    let mut lv = Level::new();
    lv.sprite_shapes.push(rect(""));
    lv.sprite_shapes.push(rect("keep"));
    lv.collision_shapes.push(circle(""));
    lv.sprite_instances.push(sprite(""));
    lv.sprite_instances.push(sprite("hero"));
    lv.classifications.push(ClassificationEntry { object_id: "hero".into(), tag: "player".into() });
    lv.player_start = Some(SpawnPoint { x: 10.0f32.to_bits(), y: 20.0f32.to_bits() });
    let counter = Cell::new(0u32);
    lv.ensure_ids(|| {
        counter.set(counter.get() + 1);
        format!("gen{}", counter.get())
    });
    assert_eq!(lv.sprite_shapes[0].id(), "gen1");
    assert_eq!(lv.sprite_shapes[1].id(), "keep");
    assert_eq!(lv.collision_shapes[0].id(), "gen2");
    assert_eq!(lv.sprite_instances[0].id, "gen3");
    assert_eq!(lv.sprite_instances[1].id, "hero");
    assert_eq!(counter.get(), 3);
    assert_eq!(lv.classifications.len(), 1);
    assert_eq!(lv.player_start, Some(SpawnPoint { x: 10.0f32.to_bits(), y: 20.0f32.to_bits() }));
}

#[test]
fn get_tag_reads_first_matching_row() {
    let mut lv = Level::new();
    assert_eq!(lv.get_tag("a"), None);
    lv.classifications.push(ClassificationEntry { object_id: "a".into(), tag: "movable".into() });
    lv.classifications.push(ClassificationEntry { object_id: "b".into(), tag: "wall".into() });
    lv.classifications.push(ClassificationEntry { object_id: "a".into(), tag: "cuttable".into() });
    assert_eq!(lv.get_tag("a"), Some("movable"));
    assert_eq!(lv.get_tag("b"), Some("wall"));
    assert_eq!(lv.get_tag("c"), None);
    assert_eq!(lv.get_tag(""), None);
}

#[test]
fn duplicate_copies_a_row() {
    let e = ClassificationEntry { object_id: "x".into(), tag: "y".into() };
    let d = e.duplicate();
    assert_eq!(d.object_id, "x");
    assert_eq!(d.tag, "y");
}
