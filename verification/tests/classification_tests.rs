use juni::classification::{
    apply_classification, build_label_text, build_tag_colors, clear_tag, focus_step, object_id,
    object_set_id, object_tag, ordered_objects, rename_tag_rows, selection_after_removal, set_tag,
    EditMode, ObjectRef,
};
use juni::color::{tag_palette_color, Color};
use juni::level::{ClassificationEntry, Level, Shape, SpriteInstance};

fn level() -> Level {
    let mut lv = Level::new();
    lv.sprite_instances.push(SpriteInstance { id: "hero".into(), path: "p.png".into(), x: 0, y: 0, scale: 0, background: false });
    lv.sprite_instances.push(SpriteInstance { id: "tree".into(), path: "t.png".into(), x: 0, y: 0, scale: 0, background: true });
    lv.collision_shapes.push(Shape::Rect { id: "hero".into(), x: 0, y: 0, width: 0, height: 0, color: Color::new(0, 0, 0, 255) });
    lv.classifications.push(ClassificationEntry { object_id: "hero".into(), tag: "player".into() });
    lv
}

#[test]
fn objects_are_listed_sprites_first() {
    let lv = level();
    let objs = ordered_objects(&lv);
    assert_eq!(objs, vec![ObjectRef::Sprite(0), ObjectRef::Sprite(1), ObjectRef::CollisionShape(0)]);
    assert_eq!(object_id(&lv, ObjectRef::Sprite(1)), "tree");
    assert_eq!(object_id(&lv, ObjectRef::CollisionShape(0)), "hero");
}

#[test]
fn shared_id_shares_tag_and_unknown_is_static() {
    let lv = level();
    assert_eq!(object_tag(&lv, ObjectRef::Sprite(0)), "player");
    assert_eq!(object_tag(&lv, ObjectRef::CollisionShape(0)), "player");
    assert_eq!(object_tag(&lv, ObjectRef::Sprite(1)), "static");
}

#[test]
fn set_tag_then_read_back() {
    let mut lv = level();
    set_tag(&mut lv, "tree", "cuttable");
    assert_eq!(lv.get_tag("tree"), Some("cuttable"));
    assert_eq!(lv.get_tag("hero"), Some("player"));
    assert_eq!(lv.classifications.len(), 2);
    set_tag(&mut lv, "hero", "movable");
    assert_eq!(lv.get_tag("hero"), Some("movable"));
    assert_eq!(lv.classifications.len(), 2);
}

#[test]
fn clear_tag_removes_every_row_for_the_id() {
    let mut lv = level();
    lv.classifications.push(ClassificationEntry { object_id: "tree".into(), tag: "wall".into() });
    lv.classifications.push(ClassificationEntry { object_id: "hero".into(), tag: "other".into() });
    clear_tag(&mut lv, "hero");
    assert_eq!(lv.get_tag("hero"), None);
    assert_eq!(lv.get_tag("tree"), Some("wall"));
    assert_eq!(lv.classifications.len(), 1);
    clear_tag(&mut lv, "nobody");
    assert_eq!(lv.classifications.len(), 1);
}

#[test]
fn rename_repoints_rows() {
    let mut lv = level();
    rename_tag_rows(&mut lv, "hero", "duck");
    assert_eq!(lv.get_tag("duck"), Some("player"));
    assert_eq!(lv.get_tag("hero"), None);
}

#[test]
fn object_set_id_changes_one_object() {
    let mut lv = level();
    object_set_id(&mut lv, ObjectRef::CollisionShape(0), "wallbox".into());
    assert_eq!(lv.collision_shapes[0].id(), "wallbox");
    assert_eq!(lv.sprite_instances[0].id, "hero");
    object_set_id(&mut lv, ObjectRef::Sprite(1), "oak".into());
    assert_eq!(lv.sprite_instances[1].id, "oak");
}

#[test]
fn tag_colors_start_with_static_and_follow_first_use() {
    let mut lv = level();
    lv.classifications.push(ClassificationEntry { object_id: "a".into(), tag: "wall".into() });
    lv.classifications.push(ClassificationEntry { object_id: "b".into(), tag: "player".into() });
    lv.classifications.push(ClassificationEntry { object_id: "c".into(), tag: "static".into() });
    let colors = build_tag_colors(&lv);
    assert_eq!(colors.len(), 3);
    assert_eq!(colors.tags(), vec!["static".to_string(), "player".to_string(), "wall".to_string()]);
    assert_eq!(colors.get("static"), Some(Color::new(200, 200, 200, 255)));
    assert_eq!(colors.get("player"), Some(tag_palette_color(1)));
    assert_eq!(colors.get("wall"), Some(Color::new(0, 228, 48, 255)));
    assert!(colors.contains("wall"));
    assert!(!colors.contains("nope"));
}

#[test]
fn tag_palette_wraps_after_ten_tags() {
    let mut lv = Level::new();
    for i in 0..12 {
        lv.classifications.push(ClassificationEntry { object_id: format!("o{i}"), tag: format!("t{i}") });
    }
    let colors = build_tag_colors(&lv);
    assert_eq!(colors.len(), 13);
    // "static" is slot 0, t0..t8 take slots 1..9, t9 wraps to slot 0.
    assert_eq!(colors.get("t8"), Some(tag_palette_color(9)));
    assert_eq!(colors.get("t9"), Some(tag_palette_color(0)));
    assert_eq!(colors.get("t11"), Some(tag_palette_color(2)));
}

#[test]
fn apply_classification_renames_and_tags() {
    let mut lv = level();
    let mut colors = build_tag_colors(&lv);
    let id = apply_classification(&mut lv, &mut colors, ObjectRef::Sprite(0), "  duck  ", " boss\t", || "unused".to_string());
    assert_eq!(id, "duck");
    assert_eq!(lv.sprite_instances[0].id, "duck");
    assert_eq!(lv.get_tag("duck"), Some("boss"));
    assert_eq!(lv.get_tag("hero"), None);
    assert!(colors.contains("boss"));
    // The collision box that shared the old ID keeps its ID.
    assert_eq!(lv.collision_shapes[0].id(), "hero");
}

#[test]
fn apply_classification_blank_fields() {
    let mut lv = level();
    let mut colors = build_tag_colors(&lv);
    let id = apply_classification(&mut lv, &mut colors, ObjectRef::Sprite(1), "   ", "", || "fresh1".to_string());
    assert_eq!(id, "fresh1");
    assert_eq!(lv.sprite_instances[1].id, "fresh1");
    assert_eq!(lv.get_tag("fresh1"), Some("static"));
    assert_eq!(colors.len(), 2);
}

#[test]
fn apply_classification_same_id_only_retags() {
    let mut lv = level();
    let mut colors = build_tag_colors(&lv);
    let id = apply_classification(&mut lv, &mut colors, ObjectRef::CollisionShape(0), "hero", "enemy", || "x".to_string());
    assert_eq!(id, "hero");
    assert_eq!(lv.get_tag("hero"), Some("enemy"));
    assert_eq!(lv.classifications.len(), 1);
}

#[test]
fn label_text_formats() {
    assert_eq!(build_label_text("hero", "player", None), "hero | player");
    let tag_edit = (ObjectRef::Sprite(0), EditMode::Tag, "pla".to_string());
    assert_eq!(build_label_text("hero", "player", Some(&tag_edit)), "hero | pla|");
    let id_edit = (ObjectRef::Sprite(0), EditMode::ObjectId, "he".to_string());
    assert_eq!(build_label_text("hero", "player", Some(&id_edit)), "he| | player");
}

#[test]
fn focus_steps_wrap_both_ways() {
    assert_eq!(focus_step(3, None, true), 0);
    assert_eq!(focus_step(3, None, false), 2);
    assert_eq!(focus_step(3, Some(2), true), 0);
    assert_eq!(focus_step(3, Some(0), false), 2);
    assert_eq!(focus_step(3, Some(1), true), 2);
    assert_eq!(focus_step(3, Some(1), false), 0);
    for i in 0..5 {
        assert_eq!(focus_step(5, Some(focus_step(5, Some(i), true)), false), i);
        assert_eq!(focus_step(5, Some(focus_step(5, Some(i), false)), true), i);
    }
    assert_eq!(focus_step(1, Some(0), true), 0);
}

#[test]
fn selection_follows_removal() {
    assert_eq!(selection_after_removal(Some(2), 2), None);
    assert_eq!(selection_after_removal(Some(3), 1), Some(2));
    assert_eq!(selection_after_removal(Some(0), 1), Some(0));
    assert_eq!(selection_after_removal(None, 0), None);
}
