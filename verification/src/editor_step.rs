//! One frame of the level editor: from the editor's state and what happened
//! this frame (keys, typed text, clicks and drags, worked out by the caller
//! in world space) to the next state and what the caller must do (quit,
//! reset the view, read a sheet file, cut a tile, save, reload).
//!
//! The rules, in the order they apply each frame:
//! - Escape cancels a tag or ID edit, else drops the shape selection; only
//!   with neither does it ask to quit. Cancelling or deselecting ends the
//!   frame.
//! - H (help), Tab (next layer) and F (view reset) work unless a tag or ID
//!   is being edited.
//! - While a tag or ID is being edited, typing edits it and Enter confirms
//!   it; nothing else happens that frame.
//! - On the classification layer arrows move the focus, Enter and I start
//!   editing the focused object's tag or ID, Delete or a right-click clear a
//!   tag, a left-click focuses an object and edits its tag, Z and X undo and
//!   clear tags.
//! - On the sprite layer, while a sheet path is typed nothing else happens;
//!   L toggles the sheet panel (Shift+L types a path), and dragging in the
//!   panel cuts a tile.
//! - Elsewhere R, C and 1–6 pick tool and color (not while placing a
//!   sprite), `[`/`]` and `,`/`.` pick the sprite and its scale, a left
//!   click places a sprite or starts a shape drag that the release
//!   completes, a right-click or Delete removes, Z and X undo and clear.
//! - S and O save and reload on every layer.

use vstd::prelude::*;
use crate::classification::{
    focus_step, focus_target, object_order, set_tag, upsert_row, clear_tag, EditMode, ObjectRef, TagColors,
    add_tag, confirmed_tag, static_tag, shown_tag, ref_id, valid_ref,
};
use crate::color::Color;
use crate::editor::{layer_name, next_layer, DragAction, Layer, Tool};
use crate::level::{rows_view, Level, Shape, SpawnPoint, SpriteInstance};
use crate::shortcuts::{shape_palette, shape_palette_color};
use crate::status::{counted, counted_message};
use crate::tag_edit::{edited_field, edited_path, edit_field, edit_path};
use crate::text::{decimal, push_count, push_str, trimmed, trim};
use crate::text_entry::{collect_path_chars, collect_typed_chars, name_keys, path_keys, typed, Key};

verus! {

/// A placed sprite, with its strings taken by their characters.
pub ghost struct SpriteV {
    pub id: Seq<char>,
    pub path: Seq<char>,
    pub x: u32,
    pub y: u32,
    pub scale: u32,
    pub background: bool,
}

/// A shape, with its ID taken by its characters.
pub ghost enum ShapeV {
    Rect { id: Seq<char>, x: u32, y: u32, width: u32, height: u32, color: Color },
    Circle { id: Seq<char>, x: u32, y: u32, radius: u32, color: Color },
}

pub open spec fn sprite_v(s: SpriteInstance) -> SpriteV {
    SpriteV { id: s.id@, path: s.path@, x: s.x, y: s.y, scale: s.scale, background: s.background }
}

pub open spec fn shape_v(s: Shape) -> ShapeV {
    match s {
        Shape::Rect { id, x, y, width, height, color } => ShapeV::Rect { id: id@, x, y, width, height, color },
        Shape::Circle { id, x, y, radius, color } => ShapeV::Circle { id: id@, x, y, radius, color },
    }
}

pub open spec fn sprites_v(s: Seq<SpriteInstance>) -> Seq<SpriteV> {
    s.map_values(|e: SpriteInstance| sprite_v(e))
}

pub open spec fn shapes_v(s: Seq<Shape>) -> Seq<ShapeV> {
    s.map_values(|e: Shape| shape_v(e))
}

/// The keys pressed this frame (Shift held down) that the editor reacts to.
#[derive(Clone, Copy, Debug)]
pub struct EditorKeys {
    pub escape: bool,
    pub h: bool,
    pub tab: bool,
    pub f: bool,
    pub enter: bool,
    pub backspace: bool,
    pub i: bool,
    pub delete: bool,
    pub z: bool,
    pub x: bool,
    pub s: bool,
    pub o: bool,
    pub l: bool,
    pub r: bool,
    pub c: bool,
    pub num1: bool,
    pub num2: bool,
    pub num3: bool,
    pub num4: bool,
    pub num5: bool,
    pub num6: bool,
    pub left: bool,
    pub right: bool,
    pub up: bool,
    pub down: bool,
    pub bracket_left: bool,
    pub bracket_right: bool,
    pub comma: bool,
    pub period: bool,
    /// Shift is held.
    pub shift: bool,
}

/// What happened this frame, as the caller works it out from the input and
/// the state before the frame.
pub struct EditorEvent {
    pub keys: EditorKeys,
    /// The typing keys pressed this frame.
    pub typed: Vec<Key>,
    pub left_pressed: bool,
    pub left_released: bool,
    pub right_pressed: bool,
    /// The cursor in world space snapped to the grid (`f32` bit patterns).
    pub snapped: (u32, u32),
    /// The classifiable object under the cursor.
    pub object_at: Option<ObjectRef>,
    /// The topmost sprite under the cursor.
    pub sprite_at: Option<usize>,
    /// The topmost shape of the active layer under the cursor.
    pub shape_at: Option<usize>,
    /// The cursor in sheet pixels, clamped to the sheet, when it is over the
    /// scaled sheet in the open panel (`f32` bit patterns).
    pub sheet_mouse: Option<(u32, u32)>,
    /// The shape a drag from the drag start (or the cursor, when no drag
    /// started) to the cursor makes with the current tool and color, when it
    /// is at least two pixels; it carries a fresh ID.
    pub new_shape: Option<Shape>,
    /// The shape being redrawn, reshaped to that drag, when the drag is at
    /// least two pixels.
    pub redrawn: Option<Shape>,
    /// A fresh random ID, for an ID left blank or a placed sprite.
    pub new_id: String,
}

/// A drag in the sheet panel, from `(x0, y0)` to `(x1, y1)` in sheet
/// pixels (`f32` bit patterns).
#[derive(Clone, Copy, Debug, PartialEq, Eq, Structural)]
pub struct TileDrag {
    pub x0: u32,
    pub y0: u32,
    pub x1: u32,
    pub y1: u32,
}

/// What the caller must do after a frame.
#[derive(Clone, Copy, Debug, PartialEq, Eq, Structural)]
pub struct EditorAction {
    pub quit: bool,
    pub reset_view: bool,
    /// Read the file at `pending_sheet` and hand it to `sheet_read`.
    pub read_sheet: bool,
    /// Cut the tile of this drag out of the loaded sheet and hand the
    /// outcome to `tile_cut`.
    pub cut_tile: Option<TileDrag>,
    /// Save the level to the editor's path and hand the outcome to `saved`.
    pub save: bool,
    /// Reload the level from the editor's path and hand it to `reloaded`.
    pub reload: bool,
}

pub open spec fn no_action() -> EditorAction {
    EditorAction { quit: false, reset_view: false, read_sheet: false, cut_tile: None, save: false, reload: false }
}

/// The editor's state.
pub struct EditorState {
    /// The level file being edited.
    pub path: String,
    pub level: Level,
    pub tag_colors: TagColors,
    pub layer: Layer,
    pub tool: Tool,
    pub color: Color,
    pub show_help: bool,
    /// There are unsaved changes.
    pub dirty: bool,
    pub status: String,
    pub selected: Option<usize>,
    pub drag_start: Option<(u32, u32)>,
    pub drag_action: Option<DragAction>,
    pub focused: Option<ObjectRef>,
    /// The object whose tag or ID is being edited, and the text so far.
    pub editing: Option<(ObjectRef, EditMode, String)>,
    /// A sheet path is being typed.
    pub entering_path: bool,
    pub path_input: String,
    /// The sheet path waiting to be read.
    pub pending_sheet: Option<String>,
    /// The loaded sheet: its path and size in pixels.
    pub sheet: Option<(String, u32, u32)>,
    pub panel_open: bool,
    /// Where a drag in the sheet panel started (sheet pixels, bit patterns).
    pub sheet_drag: Option<(u32, u32)>,
    /// The sprite files that can be placed, and the one chosen.
    pub sprite_paths: Vec<String>,
    pub selected_sprite: Option<usize>,
    /// The sprite scale is `2^scale_exp`, from a quarter to eight.
    pub scale_exp: i8,
}

/// The editor's state, with strings and lists taken by their contents.
#[verifier::ext_equal]
pub ghost struct EditorModel {
    pub path: Seq<char>,
    pub sprites: Seq<SpriteV>,
    pub sprite_shapes: Seq<ShapeV>,
    pub collision_shapes: Seq<ShapeV>,
    pub rows: Seq<(Seq<char>, Seq<char>)>,
    pub player_start: Option<SpawnPoint>,
    pub grid_size: u32,
    pub tags: Seq<(Seq<char>, Color)>,
    pub layer: Layer,
    pub tool: Tool,
    pub color: Color,
    pub show_help: bool,
    pub dirty: bool,
    pub status: Seq<char>,
    pub selected: Option<usize>,
    pub drag_start: Option<(u32, u32)>,
    pub drag_action: Option<DragAction>,
    pub focused: Option<ObjectRef>,
    pub editing: Option<(ObjectRef, EditMode, Seq<char>)>,
    pub entering_path: bool,
    pub path_input: Seq<char>,
    pub pending_sheet: Option<Seq<char>>,
    pub sheet: Option<(Seq<char>, u32, u32)>,
    pub panel_open: bool,
    pub sheet_drag: Option<(u32, u32)>,
    pub sprite_paths: Seq<Seq<char>>,
    pub selected_sprite: Option<usize>,
    pub scale_exp: int,
}

pub open spec fn strings_v(s: Seq<String>) -> Seq<Seq<char>> {
    s.map_values(|e: String| e@)
}

impl EditorState {
    pub open spec fn model(&self) -> EditorModel {
        EditorModel {
            path: self.path@,
            sprites: sprites_v(self.level.sprite_instances@),
            sprite_shapes: shapes_v(self.level.sprite_shapes@),
            collision_shapes: shapes_v(self.level.collision_shapes@),
            rows: rows_view(self.level.classifications@),
            player_start: self.level.player_start,
            grid_size: self.level.grid_size,
            tags: self.tag_colors@,
            layer: self.layer,
            tool: self.tool,
            color: self.color,
            show_help: self.show_help,
            dirty: self.dirty,
            status: self.status@,
            selected: self.selected,
            drag_start: self.drag_start,
            drag_action: self.drag_action,
            focused: self.focused,
            editing: match self.editing {
                Some((o, m, b)) => Some((o, m, b@)),
                None => None,
            },
            entering_path: self.entering_path,
            path_input: self.path_input@,
            pending_sheet: match self.pending_sheet {
                Some(p) => Some(p@),
                None => None,
            },
            sheet: match self.sheet {
                Some((p, w, h)) => Some((p@, w, h)),
                None => None,
            },
            panel_open: self.panel_open,
            sheet_drag: self.sheet_drag,
            sprite_paths: strings_v(self.sprite_paths@),
            selected_sprite: self.selected_sprite,
            scale_exp: self.scale_exp as int,
        }
    }

    /// The tag table is well formed, the scale within its range, the chosen
    /// sprite listed, and the focused or edited object (only ever on the
    /// classification layer) exists.
    pub open spec fn wf(&self) -> bool {
        &&& self.tag_colors.wf()
        &&& -2 <= self.scale_exp <= 3
        &&& (self.selected_sprite matches Some(i) ==> i < self.sprite_paths@.len())
        &&& (self.focused matches Some(o) ==> valid_ref(self.level, o) && self.layer
            == Layer::ClassificationPlanning)
        &&& (self.editing matches Some((o, md, b)) ==> valid_ref(self.level, o) && self.layer
            == Layer::ClassificationPlanning)
    }
}

// ---------------------------------------------------------------- escape

/// Escape: cancel an edit, else deselect (both end the frame), else quit.
#[verifier::opaque]
pub open spec fn escape_phase(m: EditorModel, ev: EditorEvent) -> (EditorModel, bool, bool) {
    if ev.keys.escape {
        if m.editing is Some {
            (EditorModel { editing: None, status: "Edit cancelled"@, ..m }, true, false)
        } else if m.selected is Some {
            (
                EditorModel { selected: None, drag_start: None, drag_action: None, status: "Deselected shape"@, ..m },
                true,
                false,
            )
        } else {
            (m, false, true)
        }
    } else {
        (m, false, false)
    }
}

// ---------------------------------------------------------------- global keys

/// H, Tab and F, unless a tag or ID is being edited; the flag asks for a
/// view reset.
#[verifier::opaque]
pub open spec fn global_phase(m: EditorModel, ev: EditorEvent) -> (EditorModel, bool) {
    if m.editing is Some {
        (m, false)
    } else {
        let m1 = if ev.keys.h {
            EditorModel {
                show_help: !m.show_help,
                status: if !m.show_help {
                    "Help shown"@
                } else {
                    "Help hidden"@
                },
                ..m
            }
        } else {
            m
        };
        let m2 = if ev.keys.tab {
            EditorModel {
                layer: next_layer(m1.layer),
                color: layer_color(next_layer(m1.layer)),
                drag_start: None,
                drag_action: None,
                selected: None,
                focused: None,
                status: "Active layer: "@ + layer_name(next_layer(m1.layer)),
                ..m1
            }
        } else {
            m1
        };
        if ev.keys.f {
            (EditorModel { status: "View reset"@, ..m2 }, true)
        } else {
            (m2, false)
        }
    }
}

/// The color new shapes take on a layer.
pub open spec fn layer_color(l: Layer) -> Color {
    match l {
        Layer::SpritePlanning => Color { r: 0, g: 121, b: 241, a: 255 },
        Layer::CollisionPlanning => Color { r: 230, g: 41, b: 55, a: 255 },
        Layer::ClassificationPlanning => Color { r: 200, g: 122, b: 255, a: 255 },
    }
}

impl EditorState {
    fn escape(&mut self, ev: &EditorEvent) -> (r: (bool, bool))
        ensures
            (final(self).model(), r.0, r.1) == escape_phase(old(self).model(), *ev),
            old(self).wf() ==> final(self).wf(),
            final(self).level == old(self).level,
    {
        reveal(escape_phase);
        if ev.keys.escape {
            if self.editing.is_some() {
                self.editing = None;
                self.status = String::new();
                push_str(&mut self.status, "Edit cancelled");
                assert(self.model() =~= escape_phase(old(self).model(), *ev).0);
                return (true, false);
            } else if self.selected.is_some() {
                self.selected = None;
                self.drag_start = None;
                self.drag_action = None;
                self.status = String::new();
                push_str(&mut self.status, "Deselected shape");
                assert(self.model() =~= escape_phase(old(self).model(), *ev).0);
                return (true, false);
            } else {
                return (false, true);
            }
        }
        (false, false)
    }

    fn global_keys(&mut self, ev: &EditorEvent) -> (reset: bool)
        ensures
            (final(self).model(), reset) == global_phase(old(self).model(), *ev),
            old(self).wf() ==> final(self).wf(),
            final(self).level == old(self).level,
    {
        reveal(global_phase);
        if self.editing.is_some() {
            return false;
        }
        let ghost m0 = self.model();
        if ev.keys.h {
            self.show_help = !self.show_help;
            self.status = String::new();
            if self.show_help {
                push_str(&mut self.status, "Help shown");
            } else {
                push_str(&mut self.status, "Help hidden");
            }
        }
        let ghost m1 = self.model();
        assert(m1 =~= (if ev.keys.h {
            EditorModel {
                show_help: !m0.show_help,
                status: if !m0.show_help { "Help shown"@ } else { "Help hidden"@ },
                ..m0
            }
        } else {
            m0
        }));
        if ev.keys.tab {
            self.layer = self.layer.next();
            self.color = self.layer.default_color();
            self.drag_start = None;
            self.drag_action = None;
            self.selected = None;
            self.focused = None;
            self.status = String::new();
            push_str(&mut self.status, "Active layer: ");
            push_str(&mut self.status, self.layer.name());
        }
        let ghost m2 = self.model();
        if ev.keys.f {
            self.status = String::new();
            push_str(&mut self.status, "View reset");
        }
        assert(self.model() =~= global_phase(old(self).model(), *ev).0);
        ev.keys.f
    }
}

// ---------------------------------------------------------------- editing a tag or ID

/// The characters typed this frame into a tag or ID field.
pub open spec fn typed_name(ev: EditorEvent) -> Seq<char> {
    typed(name_keys(), ev.typed@, ev.keys.shift)
}

/// The characters typed this frame into the sheet path.
pub open spec fn typed_path(ev: EditorEvent) -> Seq<char> {
    typed(path_keys(), ev.typed@, ev.keys.shift)
}

/// The ID of the object `o` names in the model.
pub open spec fn model_id(m: EditorModel, o: ObjectRef) -> Seq<char> {
    match o {
        ObjectRef::Sprite(i) => m.sprites[i as int].id,
        ObjectRef::CollisionShape(i) => shape_v_id(m.collision_shapes[i as int]),
    }
}

pub open spec fn shape_v_id(s: ShapeV) -> Seq<char> {
    match s {
        ShapeV::Rect { id, .. } => id,
        ShapeV::Circle { id, .. } => id,
    }
}

pub open spec fn shape_v_with_id(s: ShapeV, id: Seq<char>) -> ShapeV {
    match s {
        ShapeV::Rect { id: _, x, y, width, height, color } => ShapeV::Rect { id, x, y, width, height, color },
        ShapeV::Circle { id: _, x, y, radius, color } => ShapeV::Circle { id, x, y, radius, color },
    }
}

/// The model with object `o` given the ID `id`.
pub open spec fn with_model_id(m: EditorModel, o: ObjectRef, id: Seq<char>) -> EditorModel {
    match o {
        ObjectRef::Sprite(i) => EditorModel {
            sprites: m.sprites.update(i as int, SpriteV { id, ..m.sprites[i as int] }),
            ..m
        },
        ObjectRef::CollisionShape(i) => EditorModel {
            collision_shapes: m.collision_shapes.update(i as int, shape_v_with_id(m.collision_shapes[i as int], id)),
            ..m
        },
    }
}

/// A frame while a tag or ID is edited: Enter confirms it (a tag, trimmed or
/// `"static"` when blank, is set for the object's ID and given a color; an
/// ID, trimmed or the fresh ID when blank, replaces the object's ID) and
/// ends the edit; otherwise Backspace, Tab and typing edit the text.
#[verifier::opaque]
pub open spec fn edit_phase(m: EditorModel, ev: EditorEvent) -> EditorModel {
    match m.editing {
        Some((obj, mode, buf)) => if ev.keys.enter {
            match mode {
                EditMode::Tag => {
                    let tag = confirmed_tag(buf);
                    EditorModel {
                        rows: upsert_row(m.rows, model_id(m, obj), tag),
                        tags: add_tag(m.tags, tag),
                        dirty: true,
                        status: "Tagged as '"@ + tag + "'"@,
                        editing: None,
                        ..m
                    }
                },
                EditMode::ObjectId => {
                    let id = if trimmed(buf).len() > 0 {
                        trimmed(buf)
                    } else {
                        ev.new_id@
                    };
                    EditorModel {
                        dirty: true,
                        status: "ID set to '"@ + id + "'"@,
                        editing: None,
                        ..with_model_id(m, obj, id)
                    }
                },
            }
        } else {
            EditorModel {
                editing: Some(
                    (
                        obj,
                        mode,
                        edited_field(
                            buf,
                            mode,
                            ev.keys.backspace,
                            ev.keys.tab,
                            ev.keys.shift,
                            typed_name(ev),
                            m.tags,
                        ),
                    ),
                ),
                ..m
            }
        },
        None => m,
    }
}

proof fn lemma_model_id(st: EditorState, o: ObjectRef)
    requires
        valid_ref(st.level, o),
    ensures
        model_id(st.model(), o) == ref_id(st.level, o),
{
    match o {
        ObjectRef::Sprite(i) => {},
        ObjectRef::CollisionShape(i) => {
            let s = st.level.collision_shapes@[i as int];
            assert(st.model().collision_shapes[i as int] == shape_v(s));
        },
    }
}

impl EditorState {
    fn edit_text(&mut self, ev: &EditorEvent)
        requires
            old(self).wf(),
        ensures
            final(self).model() == edit_phase(old(self).model(), *ev),
            final(self).wf(),
    {
        reveal(edit_phase);
        let ghost m0 = self.model();
        match self.editing.take() {
            Some((obj, mode, buf)) => {
                proof {
                    lemma_model_id(*old(self), obj);
                }
                if ev.keys.enter {
                    match mode {
                        EditMode::Tag => {
                            let t = trim(buf.as_str());
                            let tag: String = if t.unicode_len() > 0 {
                                t.to_owned()
                            } else {
                                proof {
                                    reveal_strlit("static");
                                    assert("static"@ =~= static_tag());
                                }
                                "static".to_owned()
                            };
                            let id: String = crate::classification::object_id(&self.level, obj).to_owned();
                            set_tag(&mut self.level, id.as_str(), tag.as_str());
                            self.tag_colors.add(tag.as_str());
                            self.dirty = true;
                            self.status = String::new();
                            push_str(&mut self.status, "Tagged as '");
                            push_str(&mut self.status, tag.as_str());
                            push_str(&mut self.status, "'");
                        },
                        EditMode::ObjectId => {
                            let t = trim(buf.as_str());
                            let id: String = if t.unicode_len() > 0 {
                                t.to_owned()
                            } else {
                                ev.new_id.clone()
                            };
                            crate::classification::object_set_id(&mut self.level, obj, id.clone());
                            self.dirty = true;
                            self.status = String::new();
                            push_str(&mut self.status, "ID set to '");
                            push_str(&mut self.status, id.as_str());
                            push_str(&mut self.status, "'");
                            proof {
                                match obj {
                                    ObjectRef::Sprite(i) => {
                                        assert(sprites_v(self.level.sprite_instances@) =~= m0.sprites.update(
                                            i as int,
                                            SpriteV { id: id@, ..m0.sprites[i as int] },
                                        ));
                                    },
                                    ObjectRef::CollisionShape(i) => {
                                        assert(shapes_v(self.level.collision_shapes@) =~= m0.collision_shapes.update(
                                            i as int,
                                            shape_v_with_id(m0.collision_shapes[i as int], id@),
                                        ));
                                    },
                                }
                            }
                        },
                    }
                } else {
                    let typed = collect_typed_chars(ev.typed.as_slice(), ev.keys.shift);
                    let nb = edit_field(buf, mode, ev.keys.backspace, ev.keys.tab, ev.keys.shift, typed.as_str(), &self.tag_colors);
                    self.editing = Some((obj, mode, nb));
                }
            },
            None => {},
        }
        assert(self.model() =~= edit_phase(m0, *ev));
    }
}

// ---------------------------------------------------------------- classification layer

/// The tag shown for ID `id`: its first row's tag, or `"static"`.
pub open spec fn model_tag(m: EditorModel, id: Seq<char>) -> Seq<char> {
    match crate::level::tag_of(m.rows, id) {
        Some(t) => t,
        None => static_tag(),
    }
}

/// The position of object `f` in display order (sprites, then shapes).
pub open spec fn focus_index(m: EditorModel, f: Option<ObjectRef>) -> Option<usize> {
    match f {
        Some(ObjectRef::Sprite(i)) => if i < m.sprites.len() {
            Some(i)
        } else {
            None
        },
        Some(ObjectRef::CollisionShape(j)) => if j < m.collision_shapes.len() {
            Some((m.sprites.len() + j) as usize)
        } else {
            None
        },
        None => None,
    }
}

/// The object at position `k` of the display order.
pub open spec fn object_at_index(m: EditorModel, k: int) -> ObjectRef {
    if k < m.sprites.len() {
        ObjectRef::Sprite(k as usize)
    } else {
        ObjectRef::CollisionShape((k - m.sprites.len()) as usize)
    }
}

/// The rows without those for `id`.
pub open spec fn rows_without(rows: Seq<(Seq<char>, Seq<char>)>, id: Seq<char>) -> Seq<(Seq<char>, Seq<char>)> {
    rows.filter(|r: (Seq<char>, Seq<char>)| r.0 != id)
}

/// Arrows move the focus through the objects in display order, and the
/// status names the object, its tag and its position.
#[verifier::opaque]
pub open spec fn arrows_step(m: EditorModel, ev: EditorEvent) -> EditorModel {
    let n: int = (m.sprites.len() + m.collision_shapes.len()) as int;
    let fwd = ev.keys.right || ev.keys.down;
    let bwd = ev.keys.left || ev.keys.up;
    if n > 0 && (fwd || bwd) {
        let next = focus_target(n, focus_index(m, m.focused), fwd);
        let obj = object_at_index(m, next);
        let id = model_id(m, obj);
        EditorModel {
            focused: Some(obj),
            status: crate::status::focus_text(id, model_tag(m, id), next as nat, n as nat),
            ..m
        }
    } else {
        m
    }
}

/// Enter and I start editing the focused object's tag or ID.
#[verifier::opaque]
pub open spec fn start_edit_step(m: EditorModel, ev: EditorEvent) -> EditorModel {
    let m1 = if ev.keys.enter {
        match m.focused {
            Some(o) => EditorModel {
                editing: Some((o, EditMode::Tag, model_tag(m, model_id(m, o)))),
                status: "Editing tag — type, Tab=cycle existing, Enter=confirm, Esc=cancel"@,
                ..m
            },
            None => EditorModel { status: "Use arrows to select an object first"@, ..m },
        }
    } else {
        m
    };
    if ev.keys.i {
        match m1.focused {
            Some(o) => EditorModel {
                editing: Some((o, EditMode::ObjectId, model_id(m1, o))),
                status: "Editing ID — type new ID, Enter=confirm, Esc=cancel"@,
                ..m1
            },
            None => EditorModel { status: "Use arrows to select an object first"@, ..m1 },
        }
    } else {
        m1
    }
}

/// The model with the tag of object `o` cleared.
pub open spec fn cleared_for(m: EditorModel, o: ObjectRef) -> EditorModel {
    EditorModel {
        rows: rows_without(m.rows, model_id(m, o)),
        dirty: true,
        status: "Cleared tag for '"@ + model_id(m, o) + "'"@,
        ..m
    }
}

/// Delete clears the focused object's tag; a left click focuses the object
/// under the cursor and edits its tag; a right click focuses it and clears
/// its tag.
#[verifier::opaque]
pub open spec fn tag_mouse_step(m: EditorModel, ev: EditorEvent) -> EditorModel {
    let m1 = if ev.keys.delete {
        match m.focused {
            Some(o) => cleared_for(m, o),
            None => m,
        }
    } else {
        m
    };
    let m2 = if ev.left_pressed {
        match ev.object_at {
            Some(o) => EditorModel {
                focused: Some(o),
                editing: Some((o, EditMode::Tag, model_tag(m1, model_id(m1, o)))),
                status: "Editing tag — Tab=cycle, Enter=confirm, Esc=cancel"@,
                ..m1
            },
            None => EditorModel { status: "No object here — use arrows or click an object"@, ..m1 },
        }
    } else {
        m1
    };
    if ev.right_pressed {
        match ev.object_at {
            Some(o) => cleared_for(EditorModel { focused: Some(o), ..m2 }, o),
            None => m2,
        }
    } else {
        m2
    }
}

/// Z drops the last classification row, X all of them.
#[verifier::opaque]
pub open spec fn tag_undo_step(m: EditorModel, ev: EditorEvent) -> EditorModel {
    let m1 = if ev.keys.z && m.rows.len() > 0 {
        EditorModel {
            rows: m.rows.drop_last(),
            dirty: true,
            status: counted("Undid last tag ("@, (m.rows.len() - 1) as nat, " left)"@),
            ..m
        }
    } else {
        m
    };
    if ev.keys.x && m1.rows.len() > 0 {
        EditorModel { rows: Seq::empty(), dirty: true, status: "Cleared all classifications"@, ..m1 }
    } else {
        m1
    }
}

/// A frame on the classification layer with no edit in progress.
pub open spec fn tag_phase(m: EditorModel, ev: EditorEvent) -> EditorModel {
    tag_undo_step(tag_mouse_step(start_edit_step(arrows_step(m, ev), ev), ev), ev)
}

impl EditorState {
    fn arrows(&mut self, ev: &EditorEvent)
        requires
            old(self).wf(),
            old(self).layer == Layer::ClassificationPlanning,
            old(self).level.sprite_instances@.len() + old(self).level.collision_shapes@.len() < usize::MAX,
        ensures
            final(self).model() == arrows_step(old(self).model(), *ev),
            final(self).wf(),
            final(self).level == old(self).level,
            final(self).layer == old(self).layer,
    {
        reveal(arrows_step);
        let ghost m0 = self.model();
        let ns = self.level.sprite_instances.len();
        let nc = self.level.collision_shapes.len();
        let n = ns + nc;
        let fwd = ev.keys.right || ev.keys.down;
        let bwd = ev.keys.left || ev.keys.up;
        if n > 0 && (fwd || bwd) {
            let cur: Option<usize> = match self.focused {
                Some(ObjectRef::Sprite(i)) => if i < ns {
                    Some(i)
                } else {
                    None
                },
                Some(ObjectRef::CollisionShape(j)) => if j < nc {
                    Some(ns + j)
                } else {
                    None
                },
                None => None,
            };
            let next = focus_step(n, cur, fwd);
            let obj = if next < ns {
                ObjectRef::Sprite(next)
            } else {
                ObjectRef::CollisionShape(next - ns)
            };
            proof {
                lemma_model_id(*self, obj);
            }
            let id = crate::classification::object_id(&self.level, obj);
            let tag = crate::classification::object_tag(&self.level, obj);
            let msg = crate::status::focus_status(id, tag, next, n);
            self.focused = Some(obj);
            self.status = msg;
        }
        assert(self.model() =~= arrows_step(m0, *ev));
    }

    fn start_edit(&mut self, ev: &EditorEvent)
        requires
            old(self).wf(),
            old(self).layer == Layer::ClassificationPlanning,
        ensures
            final(self).model() == start_edit_step(old(self).model(), *ev),
            final(self).wf(),
            final(self).level == old(self).level,
            final(self).layer == old(self).layer,
    {
        reveal(start_edit_step);
        let ghost m0 = self.model();
        if ev.keys.enter {
            match self.focused {
                Some(o) => {
                    proof {
                        lemma_model_id(*self, o);
                    }
                    let tag = crate::classification::object_tag(&self.level, o).to_owned();
                    self.editing = Some((o, EditMode::Tag, tag));
                    self.status = String::new();
                    push_str(&mut self.status, "Editing tag — type, Tab=cycle existing, Enter=confirm, Esc=cancel");
                },
                None => {
                    self.status = String::new();
                    push_str(&mut self.status, "Use arrows to select an object first");
                },
            }
        }
        let ghost m1 = self.model();
        assert(m1 =~= (if ev.keys.enter {
            match m0.focused {
                Some(o) => EditorModel {
                    editing: Some((o, EditMode::Tag, model_tag(m0, model_id(m0, o)))),
                    status: "Editing tag — type, Tab=cycle existing, Enter=confirm, Esc=cancel"@,
                    ..m0
                },
                None => EditorModel { status: "Use arrows to select an object first"@, ..m0 },
            }
        } else {
            m0
        }));
        if ev.keys.i {
            match self.focused {
                Some(o) => {
                    proof {
                        lemma_model_id(*self, o);
                    }
                    let id = crate::classification::object_id(&self.level, o).to_owned();
                    self.editing = Some((o, EditMode::ObjectId, id));
                    self.status = String::new();
                    push_str(&mut self.status, "Editing ID — type new ID, Enter=confirm, Esc=cancel");
                },
                None => {
                    self.status = String::new();
                    push_str(&mut self.status, "Use arrows to select an object first");
                },
            }
        }
        assert(self.model() =~= start_edit_step(m0, *ev));
    }

    pub(crate) fn clear_object_tag(&mut self, o: ObjectRef)
        requires
            old(self).wf(),
            valid_ref(old(self).level, o),
        ensures
            final(self).model() == cleared_for(old(self).model(), o),
            final(self).wf(),
            final(self).layer == old(self).layer,
            final(self).level.sprite_instances@.len() == old(self).level.sprite_instances@.len(),
            final(self).level.collision_shapes@.len() == old(self).level.collision_shapes@.len(),
    {
        let ghost m0 = self.model();
        proof {
            lemma_model_id(*self, o);
        }
        let id = crate::classification::object_id(&self.level, o).to_owned();
        clear_tag(&mut self.level, id.as_str());
        self.dirty = true;
        self.status = String::new();
        push_str(&mut self.status, "Cleared tag for '");
        push_str(&mut self.status, id.as_str());
        push_str(&mut self.status, "'");
        assert(self.model() =~= cleared_for(m0, o));
    }

    fn tag_mouse(&mut self, ev: &EditorEvent)
        requires
            old(self).wf(),
            old(self).layer == Layer::ClassificationPlanning,
            ev.object_at matches Some(o) ==> valid_ref(old(self).level, o),
        ensures
            final(self).model() == tag_mouse_step(old(self).model(), *ev),
            final(self).wf(),
            final(self).layer == old(self).layer,
            final(self).level.sprite_instances@.len() == old(self).level.sprite_instances@.len(),
            final(self).level.collision_shapes@.len() == old(self).level.collision_shapes@.len(),
    {
        reveal(tag_mouse_step);
        let ghost m0 = self.model();
        if ev.keys.delete {
            match self.focused {
                Some(o) => self.clear_object_tag(o),
                None => {},
            }
        }
        let ghost m1 = self.model();
        if ev.left_pressed {
            match ev.object_at {
                Some(o) => {
                    proof {
                        lemma_model_id(*self, o);
                    }
                    let tag = crate::classification::object_tag(&self.level, o).to_owned();
                    self.focused = Some(o);
                    self.editing = Some((o, EditMode::Tag, tag));
                    self.status = String::new();
                    push_str(&mut self.status, "Editing tag — Tab=cycle, Enter=confirm, Esc=cancel");
                },
                None => {
                    self.status = String::new();
                    push_str(&mut self.status, "No object here — use arrows or click an object");
                },
            }
        }
        let ghost m2 = self.model();
        assert(m2 =~= (if ev.left_pressed {
            match ev.object_at {
                Some(o) => EditorModel {
                    focused: Some(o),
                    editing: Some((o, EditMode::Tag, model_tag(m1, model_id(m1, o)))),
                    status: "Editing tag — Tab=cycle, Enter=confirm, Esc=cancel"@,
                    ..m1
                },
                None => EditorModel { status: "No object here — use arrows or click an object"@, ..m1 },
            }
        } else {
            m1
        }));
        if ev.right_pressed {
            match ev.object_at {
                Some(o) => {
                    self.focused = Some(o);
                    assert(self.model() =~= EditorModel { focused: Some(o), ..m2 });
                    self.clear_object_tag(o);
                },
                None => {},
            }
        }
    }

    fn tag_undo(&mut self, ev: &EditorEvent)
        requires
            old(self).wf(),
        ensures
            final(self).model() == tag_undo_step(old(self).model(), *ev),
            final(self).wf(),
            final(self).layer == old(self).layer,
    {
        reveal(tag_undo_step);
        let ghost m0 = self.model();
        if ev.keys.z && self.level.classifications.len() > 0 {
            self.level.classifications.pop();
            let n = self.level.classifications.len();
            self.dirty = true;
            self.status = counted_message("Undid last tag (", n, " left)");
            assert(rows_view(self.level.classifications@) =~= m0.rows.drop_last());
        }
        let ghost m1 = self.model();
        assert(m1 =~= (if ev.keys.z && m0.rows.len() > 0 {
            EditorModel {
                rows: m0.rows.drop_last(),
                dirty: true,
                status: counted("Undid last tag ("@, (m0.rows.len() - 1) as nat, " left)"@),
                ..m0
            }
        } else {
            m0
        }));
        if ev.keys.x && self.level.classifications.len() > 0 {
            self.level.classifications.clear();
            self.dirty = true;
            self.status = String::new();
            push_str(&mut self.status, "Cleared all classifications");
            assert(rows_view(self.level.classifications@) =~= Seq::<(Seq<char>, Seq<char>)>::empty());
        }
        assert(self.model() =~= tag_undo_step(m0, *ev));
    }
}

// ---------------------------------------------------------------- sprite sheet

/// A frame while a sheet path is typed: typing, then Backspace, edit it;
/// Escape abandons it; Enter asks for the trimmed path to be read (a blank
/// path abandons it). The flag asks for the read.
#[verifier::opaque]
pub open spec fn path_phase(m: EditorModel, ev: EditorEvent) -> (EditorModel, bool) {
    let m1 = EditorModel { path_input: edited_path(m.path_input, typed_path(ev), ev.keys.backspace), ..m };
    let m2 = if ev.keys.escape {
        EditorModel { entering_path: false, path_input: Seq::empty(), status: "Sheet load cancelled"@, ..m1 }
    } else {
        m1
    };
    if ev.keys.enter {
        let p = trimmed(m2.path_input);
        let m3 = EditorModel { entering_path: false, path_input: Seq::empty(), ..m2 };
        if p.len() == 0 {
            (EditorModel { status: "Sheet load cancelled"@, ..m3 }, false)
        } else {
            (EditorModel { pending_sheet: Some(p), ..m3 }, true)
        }
    } else {
        (m2, false)
    }
}

/// `"Sheet shown (<w>x<h>); drag to cut a tile"`.
pub open spec fn sheet_shown_text(w: u32, h: u32) -> Seq<char> {
    "Sheet shown ("@ + decimal(w as nat) + seq!['x'] + decimal(h as nat) + "); drag to cut a tile"@
}

/// L (Shift+L, or with no sheet loaded) starts typing a path, else shows or
/// hides the sheet; with the panel open and a sheet loaded, Escape drops a
/// drag in progress or hides the panel, Delete unloads the sheet, and a
/// left press and release over the sheet drag out a tile to cut.
pub open spec fn panel_phase(m: EditorModel, ev: EditorEvent) -> (EditorModel, Option<TileDrag>) {
    panel_mouse_step(panel_key_step(m, ev), ev)
}

/// L: type a sheet path, or show or hide the loaded sheet.
#[verifier::opaque]
pub open spec fn panel_key_step(m: EditorModel, ev: EditorEvent) -> EditorModel {
    if ev.keys.l {
        if ev.keys.shift || m.sheet is None {
            EditorModel {
                entering_path: true,
                path_input: Seq::empty(),
                status: "Type sheet path, Enter=load, Esc=cancel"@,
                ..m
            }
        } else {
            let (p, w, h) = m.sheet->0;
            EditorModel {
                panel_open: !m.panel_open,
                status: if !m.panel_open {
                    sheet_shown_text(w, h)
                } else {
                    "Sheet hidden"@
                },
                ..m
            }
        }
    } else {
        m
    }
}

/// With the panel open and a sheet loaded: Escape, Delete and the tile drag.
#[verifier::opaque]
pub open spec fn panel_mouse_step(m1: EditorModel, ev: EditorEvent) -> (EditorModel, Option<TileDrag>) {
    if m1.panel_open && m1.sheet is Some {
        let m2 = if ev.keys.escape {
            if m1.sheet_drag is Some {
                EditorModel { sheet_drag: None, status: "Sheet selection cancelled"@, ..m1 }
            } else {
                EditorModel { panel_open: false, status: "Sheet hidden"@, ..m1 }
            }
        } else {
            m1
        };
        let m3 = if ev.keys.delete {
            EditorModel { status: "Sheet unloaded"@, ..m2 }
        } else {
            m2
        };
        let (m4, cut) = match ev.sheet_mouse {
            Some(cur) => {
                let m5 = if ev.left_pressed {
                    EditorModel { sheet_drag: Some(cur), ..m3 }
                } else {
                    m3
                };
                if ev.left_released && m5.sheet_drag is Some {
                    let start = m5.sheet_drag->0;
                    (
                        EditorModel { sheet_drag: None, ..m5 },
                        Some(TileDrag { x0: start.0, y0: start.1, x1: cur.0, y1: cur.1 }),
                    )
                } else {
                    (m5, None)
                }
            },
            None => (m3, None),
        };
        if ev.keys.delete {
            (EditorModel { sheet: None, panel_open: false, sheet_drag: None, ..m4 }, cut)
        } else {
            (m4, cut)
        }
    } else {
        (m1, None)
    }
}

impl EditorState {
    fn type_path(&mut self, ev: &EditorEvent) -> (read: bool)
        requires
            old(self).wf(),
        ensures
            (final(self).model(), read) == path_phase(old(self).model(), *ev),
            final(self).wf(),
            final(self).layer == old(self).layer,
            final(self).level == old(self).level,
    {
        reveal(path_phase);
        let ghost m0 = self.model();
        let typed = collect_path_chars(ev.typed.as_slice(), ev.keys.shift);
        let mut buf = String::new();
        std::mem::swap(&mut buf, &mut self.path_input);
        self.path_input = edit_path(buf, typed.as_str(), ev.keys.backspace);
        let ghost m1 = self.model();
        assert(m1 =~= EditorModel { path_input: edited_path(m0.path_input, typed_path(*ev), ev.keys.backspace), ..m0 });
        if ev.keys.escape {
            self.entering_path = false;
            self.path_input = String::new();
            self.status = String::new();
            push_str(&mut self.status, "Sheet load cancelled");
        }
        let ghost m2 = self.model();
        assert(m2 =~= (if ev.keys.escape {
            EditorModel { entering_path: false, path_input: Seq::empty(), status: "Sheet load cancelled"@, ..m1 }
        } else {
            m1
        }));
        if ev.keys.enter {
            let p: String = trim(self.path_input.as_str()).to_owned();
            self.entering_path = false;
            self.path_input = String::new();
            if p.unicode_len() == 0 {
                self.status = String::new();
                push_str(&mut self.status, "Sheet load cancelled");
                assert(self.model() =~= path_phase(m0, *ev).0);
                return false;
            } else {
                self.pending_sheet = Some(p);
                assert(self.model() =~= path_phase(m0, *ev).0);
                return true;
            }
        }
        false
    }

    fn panel_key(&mut self, ev: &EditorEvent)
        requires
            old(self).wf(),
        ensures
            final(self).model() == panel_key_step(old(self).model(), *ev),
            final(self).wf(),
            final(self).layer == old(self).layer,
            final(self).level == old(self).level,
    {
        reveal(panel_key_step);
        let ghost m0 = self.model();
        if ev.keys.l {
            if ev.keys.shift || self.sheet.is_none() {
                self.entering_path = true;
                self.path_input = String::new();
                self.status = String::new();
                push_str(&mut self.status, "Type sheet path, Enter=load, Esc=cancel");
            } else {
                let (w, h) = match &self.sheet {
                    Some((_, w, h)) => (*w, *h),
                    None => (0, 0),
                };
                self.panel_open = !self.panel_open;
                self.status = String::new();
                if self.panel_open {
                    push_str(&mut self.status, "Sheet shown (");
                    crate::text::push_decimal(&mut self.status, w);
                    crate::text::push_char(&mut self.status, 'x');
                    crate::text::push_decimal(&mut self.status, h);
                    push_str(&mut self.status, "); drag to cut a tile");
                    assert(self.status@ =~= sheet_shown_text(w, h));
                } else {
                    push_str(&mut self.status, "Sheet hidden");
                }
            }
        }
        assert(self.model() =~= panel_key_step(m0, *ev));
    }

    fn panel(&mut self, ev: &EditorEvent) -> (cut: Option<TileDrag>)
        requires
            old(self).wf(),
        ensures
            (final(self).model(), cut) == panel_phase(old(self).model(), *ev),
            final(self).wf(),
            final(self).layer == old(self).layer,
            final(self).level == old(self).level,
    {
        self.panel_key(ev);
        self.panel_mouse(ev)
    }

    fn panel_mouse(&mut self, ev: &EditorEvent) -> (cut: Option<TileDrag>)
        requires
            old(self).wf(),
        ensures
            (final(self).model(), cut) == panel_mouse_step(old(self).model(), *ev),
            final(self).wf(),
            final(self).layer == old(self).layer,
            final(self).level == old(self).level,
    {
        reveal(panel_mouse_step);
        let ghost m0 = self.model();
        if !(self.panel_open && self.sheet.is_some()) {
            return None;
        }
        if ev.keys.escape {
            if self.sheet_drag.is_some() {
                self.sheet_drag = None;
                self.status = String::new();
                push_str(&mut self.status, "Sheet selection cancelled");
            } else {
                self.panel_open = false;
                self.status = String::new();
                push_str(&mut self.status, "Sheet hidden");
            }
        }
        if ev.keys.delete {
            self.status = String::new();
            push_str(&mut self.status, "Sheet unloaded");
        }
        let ghost m3 = self.model();
        let mut cut: Option<TileDrag> = None;
        match ev.sheet_mouse {
            Some(cur) => {
                if ev.left_pressed {
                    self.sheet_drag = Some(cur);
                }
                if ev.left_released {
                    match self.sheet_drag {
                        Some(start) => {
                            self.sheet_drag = None;
                            cut = Some(TileDrag { x0: start.0, y0: start.1, x1: cur.0, y1: cur.1 });
                        },
                        None => {},
                    }
                }
            },
            None => {},
        }
        if ev.keys.delete {
            self.sheet = None;
            self.panel_open = false;
            self.sheet_drag = None;
        }
        assert(self.model() =~= panel_mouse_step(m0, *ev).0);
        cut
    }
}

// ---------------------------------------------------------------- tools and sprites

/// The panel is open over the sprite layer.
pub open spec fn sheet_open(m: EditorModel) -> bool {
    m.layer == Layer::SpritePlanning && m.panel_open
}

/// A sprite is chosen on the sprite layer with the panel closed: clicks
/// place it.
pub open spec fn placing(m: EditorModel) -> bool {
    m.layer == Layer::SpritePlanning && m.selected_sprite is Some && !sheet_open(m)
}

/// R and C pick the tool and 1–6 the color (the last digit pressed wins),
/// on the shape layers when no sprite is being placed.
#[verifier::opaque]
pub open spec fn tool_phase(m: EditorModel, ev: EditorEvent) -> EditorModel {
    if !placing(m) && m.layer != Layer::ClassificationPlanning {
        let k = ev.keys;
        let tool = if k.c {
            Tool::Circle
        } else if k.r {
            Tool::Rect
        } else {
            m.tool
        };
        let color = if k.num6 {
            shape_palette(5)
        } else if k.num5 {
            shape_palette(4)
        } else if k.num4 {
            shape_palette(3)
        } else if k.num3 {
            shape_palette(2)
        } else if k.num2 {
            shape_palette(1)
        } else if k.num1 {
            shape_palette(0)
        } else {
            m.color
        };
        EditorModel { tool, color, ..m }
    } else {
        m
    }
}

/// Where the file name of `p` starts: after its last `/`.
pub open spec fn name_start(p: Seq<char>) -> int
    decreases p.len(),
{
    if p.len() == 0 {
        0
    } else if p.last() == '/' {
        p.len() as int
    } else {
        name_start(p.drop_last())
    }
}

/// The position of the last `.` in `c`, or -1.
pub open spec fn last_dot(c: Seq<char>) -> int
    decreases c.len(),
{
    if c.len() == 0 {
        -1
    } else if c.last() == '.' {
        c.len() - 1
    } else {
        last_dot(c.drop_last())
    }
}

/// The name a sprite is shown by: its file name without the extension (a
/// leading dot does not start an extension).
pub open spec fn sprite_name(p: Seq<char>) -> Seq<char> {
    let c = p.skip(name_start(p));
    if last_dot(c) > 0 {
        c.take(last_dot(c))
    } else {
        c
    }
}

proof fn lemma_name_start(p: Seq<char>)
    ensures
        0 <= name_start(p) <= p.len(),
    decreases p.len(),
{
    if p.len() > 0 {
        lemma_name_start(p.drop_last());
    }
}

proof fn lemma_last_dot(c: Seq<char>)
    ensures
        -1 <= last_dot(c) < c.len(),
    decreases c.len(),
{
    if c.len() > 0 {
        lemma_last_dot(c.drop_last());
    }
}

/// The display name of a sprite path.
pub fn sprite_name_of(p: &str) -> (r: String)
    ensures
        r@ == sprite_name(p@),
{
    let n = p.unicode_len();
    let mut i: usize = n;
    assert(p@.take(n as int) =~= p@);
    while i > 0 && p.get_char(i - 1) != '/'
        invariant
            n == p@.len(),
            i <= n,
            name_start(p@) == name_start(p@.take(i as int)),
        decreases i,
    {
        assert(p@.take(i as int).drop_last() =~= p@.take(i - 1));
        i = i - 1;
    }
    proof {
        if i > 0 {
            assert(p@.take(i as int).last() == '/');
        }
        lemma_name_start(p@);
    }
    let start = i;
    let c = p.substring_char(start, n);
    let m = c.unicode_len();
    let mut j: usize = m;
    assert(c@.take(m as int) =~= c@);
    while j > 0 && c.get_char(j - 1) != '.'
        invariant
            m == c@.len(),
            j <= m,
            last_dot(c@) == last_dot(c@.take(j as int)),
        decreases j,
    {
        assert(c@.take(j as int).drop_last() =~= c@.take(j - 1));
        j = j - 1;
    }
    proof {
        if j > 0 {
            assert(c@.take(j as int).last() == '.');
        }
        lemma_last_dot(c@);
        assert(c@ =~= p@.skip(name_start(p@)));
    }
    if j > 1 {
        c.substring_char(0, j - 1).to_owned()
    } else {
        c.to_owned()
    }
}

/// `"0.25x"` … `"8.00x"`: the sprite scale `2^e` as shown.
pub open spec fn scale_text(e: int) -> Seq<char> {
    if e <= -2 {
        "0.25x"@
    } else if e == -1 {
        "0.50x"@
    } else if e == 0 {
        "1.00x"@
    } else if e == 1 {
        "2.00x"@
    } else if e == 2 {
        "4.00x"@
    } else {
        "8.00x"@
    }
}

/// The sprite scale `2^e` as `f32` bits.
pub open spec fn scale_bits(e: int) -> u32 {
    if e <= -2 {
        0x3E80_0000u32
    } else if e == -1 {
        0x3F00_0000u32
    } else if e == 0 {
        0x3F80_0000u32
    } else if e == 1 {
        0x4000_0000u32
    } else if e == 2 {
        0x4080_0000u32
    } else {
        0x4100_0000u32
    }
}

/// `[` and `]` choose the previous and next sprite (wrapping, from the
/// chosen one or the first), `,` and `.` halve and double the scale between
/// a quarter and eight; the status tells the new choice.
#[verifier::opaque]
pub open spec fn pick_phase(m: EditorModel, ev: EditorEvent) -> EditorModel {
    let n = m.sprite_paths.len();
    if m.layer == Layer::SpritePlanning && n > 0 {
        let cur: int = match m.selected_sprite {
            Some(c) => c as int,
            None => 0,
        };
        let prev: int = if cur == 0 { n - 1 } else { cur - 1 };
        let next: int = (cur + 1) % (n as int);
        let m1 = if ev.keys.bracket_left {
            EditorModel {
                selected_sprite: Some(prev as usize),
                status: "Sprite: "@ + sprite_name(m.sprite_paths[prev]),
                ..m
            }
        } else {
            m
        };
        let m2 = if ev.keys.bracket_right {
            EditorModel {
                selected_sprite: Some(next as usize),
                status: "Sprite: "@ + sprite_name(m.sprite_paths[next]),
                ..m1
            }
        } else {
            m1
        };
        let m3 = if ev.keys.comma {
            let e = if m2.scale_exp - 1 < -2 { -2 } else { m2.scale_exp - 1 };
            EditorModel { scale_exp: e, status: "Scale: "@ + scale_text(e), ..m2 }
        } else {
            m2
        };
        if ev.keys.period {
            let e = if m3.scale_exp + 1 > 3 { 3 } else { m3.scale_exp + 1 };
            EditorModel { scale_exp: e, status: "Scale: "@ + scale_text(e), ..m3 }
        } else {
            m3
        }
    } else {
        m
    }
}

fn scale_label(e: i8) -> (s: &'static str)
    ensures
        s@ == scale_text(e as int),
{
    if e <= -2 {
        "0.25x"
    } else if e == -1 {
        "0.50x"
    } else if e == 0 {
        "1.00x"
    } else if e == 1 {
        "2.00x"
    } else if e == 2 {
        "4.00x"
    } else {
        "8.00x"
    }
}

pub(crate) fn scale_of(e: i8) -> (b: u32)
    ensures
        b == scale_bits(e as int),
{
    if e <= -2 {
        0x3E80_0000u32
    } else if e == -1 {
        0x3F00_0000u32
    } else if e == 0 {
        0x3F80_0000u32
    } else if e == 1 {
        0x4000_0000u32
    } else if e == 2 {
        0x4080_0000u32
    } else {
        0x4100_0000u32
    }
}

impl EditorState {
    fn tools(&mut self, ev: &EditorEvent)
        requires
            old(self).wf(),
        ensures
            final(self).model() == tool_phase(old(self).model(), *ev),
            final(self).wf(),
            final(self).layer == old(self).layer,
            final(self).level == old(self).level,
    {
        reveal(tool_phase);
        let ghost m0 = self.model();
        let sheet_open = self.layer == Layer::SpritePlanning && self.panel_open;
        let placing = self.layer == Layer::SpritePlanning && self.selected_sprite.is_some() && !sheet_open;
        if !placing && self.layer != Layer::ClassificationPlanning {
            let k = ev.keys;
            let tool = if k.c {
                Tool::Circle
            } else if k.r {
                Tool::Rect
            } else {
                self.tool
            };
            let color = if k.num6 {
                shape_palette_color(5)
            } else if k.num5 {
                shape_palette_color(4)
            } else if k.num4 {
                shape_palette_color(3)
            } else if k.num3 {
                shape_palette_color(2)
            } else if k.num2 {
                shape_palette_color(1)
            } else if k.num1 {
                shape_palette_color(0)
            } else {
                self.color
            };
            self.tool = tool;
            self.color = color;
        }
        assert(self.model() =~= tool_phase(m0, *ev));
    }

    #[verifier::rlimit(40)]
    fn pick(&mut self, ev: &EditorEvent)
        requires
            old(self).wf(),
        ensures
            final(self).model() == pick_phase(old(self).model(), *ev),
            final(self).wf(),
            final(self).layer == old(self).layer,
            final(self).level == old(self).level,
    {
        reveal(pick_phase);
        let ghost m0 = self.model();
        let n = self.sprite_paths.len();
        if !(self.layer == Layer::SpritePlanning && n > 0) {
            return;
        }
        let cur: usize = match self.selected_sprite {
            Some(c) => c,
            None => 0,
        };
        let prev = if cur == 0 { n - 1 } else { cur - 1 };
        let next = (cur + 1) % n;
        if ev.keys.bracket_left {
            self.selected_sprite = Some(prev);
            let name = sprite_name_of(self.sprite_paths[prev].as_str());
            self.status = String::new();
            push_str(&mut self.status, "Sprite: ");
            push_str(&mut self.status, name.as_str());
        }
        let ghost m1 = self.model();
        assert(m1 =~= (if ev.keys.bracket_left {
            EditorModel {
                selected_sprite: Some(prev),
                status: "Sprite: "@ + sprite_name(m0.sprite_paths[prev as int]),
                ..m0
            }
        } else {
            m0
        }));
        if ev.keys.bracket_right {
            self.selected_sprite = Some(next);
            let name = sprite_name_of(self.sprite_paths[next].as_str());
            self.status = String::new();
            push_str(&mut self.status, "Sprite: ");
            push_str(&mut self.status, name.as_str());
        }
        let ghost m2 = self.model();
        assert(m2 =~= (if ev.keys.bracket_right {
            EditorModel {
                selected_sprite: Some(next),
                status: "Sprite: "@ + sprite_name(m0.sprite_paths[next as int]),
                ..m1
            }
        } else {
            m1
        }));
        if ev.keys.comma {
            self.scale_exp = if self.scale_exp - 1 < -2 { -2 } else { self.scale_exp - 1 };
            self.status = String::new();
            push_str(&mut self.status, "Scale: ");
            push_str(&mut self.status, scale_label(self.scale_exp));
        }
        let ghost m3 = self.model();
        if ev.keys.period {
            self.scale_exp = if self.scale_exp + 1 > 3 { 3 } else { self.scale_exp + 1 };
            self.status = String::new();
            push_str(&mut self.status, "Scale: ");
            push_str(&mut self.status, scale_label(self.scale_exp));
        }
        assert(self.model() =~= pick_phase(m0, *ev));
    }
}

// ---------------------------------------------------------------- shape layers

/// The shapes the active layer edits (the sprite shapes unless on the
/// collision layer).
pub open spec fn active_v(m: EditorModel) -> Seq<ShapeV> {
    match m.layer {
        Layer::CollisionPlanning => m.collision_shapes,
        _ => m.sprite_shapes,
    }
}

/// The model with the active layer's shapes replaced by `s`.
pub open spec fn with_active_v(m: EditorModel, s: Seq<ShapeV>) -> EditorModel {
    match m.layer {
        Layer::CollisionPlanning => EditorModel { collision_shapes: s, ..m },
        _ => EditorModel { sprite_shapes: s, ..m },
    }
}

/// `"… (<n> <word>)"` messages that name the layer.
pub open spec fn layer_count_text(prefix: Seq<char>, l: Layer, n: nat, word: Seq<char>) -> Seq<char> {
    prefix + layer_name(l) + " ("@ + decimal(n) + word
}

pub open spec fn selected_text(i: usize) -> Seq<char> {
    counted("Selected shape "@, i as nat, "; drag to redraw, Del to delete"@)
}

/// A left click while placing puts the chosen sprite at the snapped cursor
/// with a fresh ID and the current scale; on a shape layer a press starts a
/// drag (redrawing the shape under the cursor, or drawing a new one) and the
/// release ends it, adding the drawn shape or reshaping the redrawn one when
/// the drag was big enough.
#[verifier::opaque]
pub open spec fn place_phase(m: EditorModel, ev: EditorEvent) -> EditorModel {
    if placing(m) {
        if ev.left_pressed {
            let i = m.selected_sprite->0;
            let sp = SpriteV {
                id: ev.new_id@,
                path: m.sprite_paths[i as int],
                x: ev.snapped.0,
                y: ev.snapped.1,
                scale: scale_bits(m.scale_exp),
                background: false,
            };
            EditorModel {
                sprites: m.sprites.push(sp),
                dirty: true,
                status: counted("Placed sprite ("@, m.sprites.len() + 1, " total)"@),
                ..m
            }
        } else {
            m
        }
    } else if m.layer != Layer::ClassificationPlanning && !sheet_open(m) {
        let m1 = if ev.left_pressed {
            match ev.shape_at {
                Some(i) => EditorModel {
                    selected: Some(i),
                    drag_start: Some(ev.snapped),
                    drag_action: Some(DragAction::RedrawShape(i)),
                    status: selected_text(i),
                    ..m
                },
                None => EditorModel {
                    selected: None,
                    drag_start: Some(ev.snapped),
                    drag_action: Some(DragAction::NewShape),
                    ..m
                },
            }
        } else {
            m
        };
        if ev.left_released {
            let mt = EditorModel { drag_start: None, drag_action: None, ..m1 };
            if m1.drag_start is Some && m1.drag_action is Some {
                match m1.drag_action->0 {
                    DragAction::NewShape => match ev.new_shape {
                        Some(sh) => {
                            let a = active_v(mt).push(shape_v(sh));
                            EditorModel {
                                dirty: true,
                                status: layer_count_text("Placed shape on "@, mt.layer, a.len(), " total)"@),
                                ..with_active_v(mt, a)
                            }
                        },
                        None => mt,
                    },
                    DragAction::RedrawShape(i) => {
                        let base = if i < active_v(mt).len() && ev.redrawn is Some {
                            EditorModel {
                                dirty: true,
                                status: counted("Redrawn shape "@, i as nat, Seq::empty()),
                                ..with_active_v(mt, active_v(mt).update(i as int, shape_v(ev.redrawn->0)))
                            }
                        } else {
                            EditorModel { status: selected_text(i), ..mt }
                        };
                        EditorModel { selected: Some(i), ..base }
                    },
                    DragAction::MoveShape(i) => mt,
                }
            } else {
                mt
            }
        } else {
            m1
        }
    } else {
        m
    }
}

/// The selection after shape `i` is removed.
pub open spec fn after_removal(sel: Option<usize>, i: usize) -> Option<usize> {
    match sel {
        Some(s) => if s == i {
            None
        } else if s > i {
            Some((s - 1) as usize)
        } else {
            Some(s)
        },
        None => None,
    }
}

/// Removing a shape keeps the selection on the same shape: a selection of
/// another shape still names it in the shortened list, and a selection of
/// the removed shape is dropped.
pub proof fn lemma_removal_keeps_selection<T>(shapes: Seq<T>, sel: usize, i: usize)
    requires
        i < shapes.len(),
        sel < shapes.len(),
    ensures
        sel == i ==> after_removal(Some(sel), i) is None,
        sel != i ==> ({
            let k = after_removal(Some(sel), i);
            &&& k is Some
            &&& k->0 < shapes.remove(i as int).len()
            &&& shapes.remove(i as int)[k->0 as int] == shapes[sel as int]
        }),
{
}

/// The sprite under the cursor, when deleting on the sprite layer.
pub open spec fn sprite_hit(m: EditorModel, ev: EditorEvent) -> bool {
    m.layer == Layer::SpritePlanning && ev.sprite_at is Some && ev.sprite_at->0 < m.sprites.len()
}

pub open spec fn without_sprite(m: EditorModel, i: usize) -> EditorModel {
    EditorModel {
        sprites: m.sprites.remove(i as int),
        dirty: true,
        status: counted("Deleted sprite ("@, (m.sprites.len() - 1) as nat, " left)"@),
        ..m
    }
}

/// A right click on a shape layer deletes the sprite under the cursor (on
/// the sprite layer), else the topmost shape under it, fixing up the
/// selection.
#[verifier::opaque]
pub open spec fn right_phase(m: EditorModel, ev: EditorEvent) -> EditorModel {
    if ev.right_pressed && m.layer != Layer::ClassificationPlanning && !sheet_open(m) {
        if sprite_hit(m, ev) {
            without_sprite(m, ev.sprite_at->0)
        } else {
            match ev.shape_at {
                Some(i) => if i < active_v(m).len() {
                    let a = active_v(m).remove(i as int);
                    EditorModel {
                        selected: after_removal(m.selected, i),
                        dirty: true,
                        status: layer_count_text("Deleted shape from "@, m.layer, a.len(), " left)"@),
                        ..with_active_v(m, a)
                    }
                } else {
                    m
                },
                None => m,
            }
        }
    } else {
        m
    }
}

/// Delete or Backspace on a shape layer deletes the sprite under the
/// cursor (on the sprite layer), else the selected shape, and drops the
/// selection.
#[verifier::opaque]
pub open spec fn delete_phase(m: EditorModel, ev: EditorEvent) -> EditorModel {
    if m.layer != Layer::ClassificationPlanning && !sheet_open(m) && (ev.keys.delete || ev.keys.backspace) {
        if sprite_hit(m, ev) {
            without_sprite(m, ev.sprite_at->0)
        } else {
            match m.selected {
                Some(i) => {
                    let m1 = EditorModel { selected: None, ..m };
                    if i < active_v(m).len() {
                        let a = active_v(m).remove(i as int);
                        EditorModel {
                            dirty: true,
                            status: counted("Deleted selected shape ("@, a.len(), " left)"@),
                            ..with_active_v(m1, a)
                        }
                    } else {
                        m1
                    }
                },
                None => m,
            }
        }
    } else {
        m
    }
}

/// Z undoes the last sprite (on the sprite layer, when there is one) or the
/// last shape of the layer; X clears the layer's shapes.
#[verifier::opaque]
pub open spec fn undo_phase(m: EditorModel, ev: EditorEvent) -> EditorModel {
    if m.layer != Layer::ClassificationPlanning && !sheet_open(m) {
        let m1 = if ev.keys.z {
            if m.layer == Layer::SpritePlanning && m.sprites.len() > 0 {
                EditorModel {
                    sprites: m.sprites.drop_last(),
                    dirty: true,
                    status: counted("Undid last sprite ("@, (m.sprites.len() - 1) as nat, " left)"@),
                    ..m
                }
            } else if active_v(m).len() > 0 {
                let a = active_v(m).drop_last();
                EditorModel {
                    selected: if m.selected == Some(a.len() as usize) {
                        None
                    } else {
                        m.selected
                    },
                    dirty: true,
                    status: layer_count_text("Undid last shape on "@, m.layer, a.len(), " left)"@),
                    ..with_active_v(m, a)
                }
            } else {
                m
            }
        } else {
            m
        };
        if ev.keys.x && active_v(m1).len() > 0 {
            EditorModel {
                selected: None,
                dirty: true,
                status: "Cleared "@ + layer_name(m1.layer) + " layer"@,
                ..with_active_v(m1, Seq::empty())
            }
        } else {
            m1
        }
    } else {
        m
    }
}

impl EditorState {
    pub(crate) fn active_len(&self) -> (n: usize)
        ensures
            n == active_v(self.model()).len(),
    {
        match self.layer {
            Layer::CollisionPlanning => self.level.collision_shapes.len(),
            _ => self.level.sprite_shapes.len(),
        }
    }

    pub(crate) fn active_push(&mut self, sh: Shape)
        requires
            old(self).wf(),
        ensures
            final(self).model() == with_active_v(old(self).model(), active_v(old(self).model()).push(shape_v(sh))),
            final(self).wf(),
            final(self).layer == old(self).layer,
    {
        let ghost m0 = self.model();
        match self.layer {
            Layer::CollisionPlanning => self.level.collision_shapes.push(sh),
            _ => self.level.sprite_shapes.push(sh),
        }
        assert(self.model() =~= with_active_v(m0, active_v(m0).push(shape_v(sh))));
    }

    pub(crate) fn active_set(&mut self, i: usize, sh: Shape)
        requires
            old(self).wf(),
            i < active_v(old(self).model()).len(),
        ensures
            final(self).model() == with_active_v(old(self).model(), active_v(old(self).model()).update(i as int, shape_v(sh))),
            final(self).wf(),
            final(self).layer == old(self).layer,
    {
        let ghost m0 = self.model();
        match self.layer {
            Layer::CollisionPlanning => self.level.collision_shapes.set(i, sh),
            _ => self.level.sprite_shapes.set(i, sh),
        }
        assert(self.model() =~= with_active_v(m0, active_v(m0).update(i as int, shape_v(sh))));
    }

    pub(crate) fn active_remove(&mut self, i: usize)
        requires
            old(self).wf(),
            old(self).layer != Layer::ClassificationPlanning,
            i < active_v(old(self).model()).len(),
        ensures
            final(self).model() == with_active_v(old(self).model(), active_v(old(self).model()).remove(i as int)),
            final(self).wf(),
            final(self).layer == old(self).layer,
    {
        let ghost m0 = self.model();
        match self.layer {
            Layer::CollisionPlanning => {
                self.level.collision_shapes.remove(i);
            },
            _ => {
                self.level.sprite_shapes.remove(i);
            },
        }
        assert(self.model() =~= with_active_v(m0, active_v(m0).remove(i as int)));
    }

    pub(crate) fn active_pop(&mut self)
        requires
            old(self).wf(),
            old(self).layer != Layer::ClassificationPlanning,
            active_v(old(self).model()).len() > 0,
        ensures
            final(self).model() == with_active_v(old(self).model(), active_v(old(self).model()).drop_last()),
            final(self).wf(),
            final(self).layer == old(self).layer,
    {
        let ghost m0 = self.model();
        match self.layer {
            Layer::CollisionPlanning => {
                self.level.collision_shapes.pop();
            },
            _ => {
                self.level.sprite_shapes.pop();
            },
        }
        assert(self.model() =~= with_active_v(m0, active_v(m0).drop_last()));
    }

    pub(crate) fn active_clear(&mut self)
        requires
            old(self).wf(),
            old(self).layer != Layer::ClassificationPlanning,
        ensures
            final(self).model() == with_active_v(old(self).model(), Seq::empty()),
            final(self).wf(),
            final(self).layer == old(self).layer,
    {
        let ghost m0 = self.model();
        match self.layer {
            Layer::CollisionPlanning => self.level.collision_shapes.clear(),
            _ => self.level.sprite_shapes.clear(),
        }
        assert(self.model() =~= with_active_v(m0, Seq::empty()));
    }

    pub(crate) fn remove_sprite(&mut self, i: usize)
        requires
            old(self).wf(),
            old(self).layer != Layer::ClassificationPlanning,
            i < old(self).level.sprite_instances@.len(),
        ensures
            final(self).model() == without_sprite(old(self).model(), i),
            final(self).wf(),
            final(self).layer == old(self).layer,
    {
        let ghost m0 = self.model();
        self.level.sprite_instances.remove(i);
        let n = self.level.sprite_instances.len();
        self.dirty = true;
        self.status = counted_message("Deleted sprite (", n, " left)");
        assert(self.model() =~= without_sprite(m0, i));
    }

    /// Sets the status to `"<prefix><layer> (<n><word>"`.
    fn set_layer_count(&mut self, prefix: &str, n: usize, word: &str)
        ensures
            final(self).status@ == layer_count_text(prefix@, old(self).layer, n as nat, word@),
            final(self).model() == (EditorModel { status: final(self).status@, ..old(self).model() }),
            final(self).level == old(self).level,
            final(self).layer == old(self).layer,
            old(self).wf() ==> final(self).wf(),
    {
        let ghost m0 = self.model();
        self.status = String::new();
        push_str(&mut self.status, prefix);
        push_str(&mut self.status, self.layer.name());
        push_str(&mut self.status, " (");
        push_count(&mut self.status, n);
        push_str(&mut self.status, word);
        assert(self.model() =~= EditorModel { status: self.status@, ..m0 });
    }
}

pub(crate) fn copy_shape(s: &Shape) -> (r: Shape)
    ensures
        r == *s,
{
    match s {
        Shape::Rect { id, x, y, width, height, color } => Shape::Rect {
            id: id.clone(),
            x: *x,
            y: *y,
            width: *width,
            height: *height,
            color: *color,
        },
        Shape::Circle { id, x, y, radius, color } => Shape::Circle {
            id: id.clone(),
            x: *x,
            y: *y,
            radius: *radius,
            color: *color,
        },
    }
}

impl EditorState {
    fn place_sprite(&mut self, ev: &EditorEvent)
        requires
            old(self).wf(),
            placing(old(self).model()),
            ev.left_pressed,
        ensures
            final(self).model() == place_phase(old(self).model(), *ev),
            final(self).wf(),
            final(self).layer == old(self).layer,
    {
        reveal(place_phase);
        let ghost m0 = self.model();
        let i = match self.selected_sprite {
            Some(i) => i,
            None => 0,
        };
        let sp = SpriteInstance {
            id: ev.new_id.clone(),
            path: self.sprite_paths[i].clone(),
            x: ev.snapped.0,
            y: ev.snapped.1,
            scale: scale_of(self.scale_exp),
            background: false,
        };
        self.level.sprite_instances.push(sp);
        let n = self.level.sprite_instances.len();
        self.dirty = true;
        self.status = counted_message("Placed sprite (", n, " total)");
        assert(self.model() =~= place_phase(m0, *ev));
    }

    fn release_drag(&mut self, ev: &EditorEvent)
        requires
            old(self).wf(),
            old(self).layer != Layer::ClassificationPlanning,
        ensures
            final(self).model() == ({
                let m1 = old(self).model();
                let mt = EditorModel { drag_start: None, drag_action: None, ..m1 };
                if m1.drag_start is Some && m1.drag_action is Some {
                    match m1.drag_action->0 {
                        DragAction::NewShape => match ev.new_shape {
                            Some(sh) => {
                                let a = active_v(mt).push(shape_v(sh));
                                EditorModel {
                                    dirty: true,
                                    status: layer_count_text("Placed shape on "@, mt.layer, a.len(), " total)"@),
                                    ..with_active_v(mt, a)
                                }
                            },
                            None => mt,
                        },
                        DragAction::RedrawShape(i) => {
                            let base = if i < active_v(mt).len() && ev.redrawn is Some {
                                EditorModel {
                                    dirty: true,
                                    status: counted("Redrawn shape "@, i as nat, Seq::empty()),
                                    ..with_active_v(mt, active_v(mt).update(i as int, shape_v(ev.redrawn->0)))
                                }
                            } else {
                                EditorModel { status: selected_text(i), ..mt }
                            };
                            EditorModel { selected: Some(i), ..base }
                        },
                        DragAction::MoveShape(i) => mt,
                    }
                } else {
                    mt
                }
            }),
            final(self).wf(),
            final(self).layer == old(self).layer,
    {
        let ghost m1 = self.model();
        let ds = self.drag_start.take();
        let da = self.drag_action.take();
        let ghost mt = self.model();
        assert(mt =~= EditorModel { drag_start: None, drag_action: None, ..m1 });
        if ds.is_some() {
            match da {
                Some(DragAction::NewShape) => match &ev.new_shape {
                    Some(sh) => {
                        let c = copy_shape(sh);
                        self.active_push(c);
                        let n = self.active_len();
                        self.dirty = true;
                        self.set_layer_count("Placed shape on ", n, " total)");
                    },
                    None => {},
                },
                Some(DragAction::RedrawShape(i)) => {
                    if i < self.active_len() && ev.redrawn.is_some() {
                        match &ev.redrawn {
                            Some(sh) => {
                                let c = copy_shape(sh);
                                self.active_set(i, c);
                            },
                            None => {},
                        }
                        self.dirty = true;
                        self.status = counted_message("Redrawn shape ", i, "");
                        proof {
                            reveal_strlit("");
                            assert(""@ =~= Seq::<char>::empty());
                        }
                    } else {
                        self.status = counted_message("Selected shape ", i, "; drag to redraw, Del to delete");
                    }
                    self.selected = Some(i);
                },
                _ => {},
            }
        }
    }

    #[verifier::rlimit(40)]
    fn place(&mut self, ev: &EditorEvent)
        requires
            old(self).wf(),
        ensures
            final(self).model() == place_phase(old(self).model(), *ev),
            final(self).wf(),
            final(self).layer == old(self).layer,
    {
        let ghost m0 = self.model();
        let sheet_open = self.layer == Layer::SpritePlanning && self.panel_open;
        let placing = self.layer == Layer::SpritePlanning && self.selected_sprite.is_some() && !sheet_open;
        if placing {
            if ev.left_pressed {
                self.place_sprite(ev);
            } else {
                proof {
                    reveal(place_phase);
                }
            }
            return;
        }
        proof {
            reveal(place_phase);
        }
        if !(self.layer != Layer::ClassificationPlanning && !sheet_open) {
            return;
        }
        if ev.left_pressed {
            match ev.shape_at {
                Some(i) => {
                    self.selected = Some(i);
                    self.drag_start = Some(ev.snapped);
                    self.drag_action = Some(DragAction::RedrawShape(i));
                    self.status = counted_message("Selected shape ", i, "; drag to redraw, Del to delete");
                },
                None => {
                    self.selected = None;
                    self.drag_start = Some(ev.snapped);
                    self.drag_action = Some(DragAction::NewShape);
                },
            }
        }
        let ghost m1 = self.model();
        assert(m1 =~= (if ev.left_pressed {
            match ev.shape_at {
                Some(i) => EditorModel {
                    selected: Some(i),
                    drag_start: Some(ev.snapped),
                    drag_action: Some(DragAction::RedrawShape(i)),
                    status: selected_text(i),
                    ..m0
                },
                None => EditorModel {
                    selected: None,
                    drag_start: Some(ev.snapped),
                    drag_action: Some(DragAction::NewShape),
                    ..m0
                },
            }
        } else {
            m0
        }));
        if ev.left_released {
            self.release_drag(ev);
        }
    }
}

impl EditorState {
    fn right_click(&mut self, ev: &EditorEvent)
        requires
            old(self).wf(),
        ensures
            final(self).model() == right_phase(old(self).model(), *ev),
            final(self).wf(),
            final(self).layer == old(self).layer,
    {
        reveal(right_phase);
        let ghost m0 = self.model();
        let sheet_open = self.layer == Layer::SpritePlanning && self.panel_open;
        if !(ev.right_pressed && self.layer != Layer::ClassificationPlanning && !sheet_open) {
            return;
        }
        let hit_sprite: Option<usize> = match ev.sprite_at {
            Some(i) => if self.layer == Layer::SpritePlanning && i < self.level.sprite_instances.len() {
                Some(i)
            } else {
                None
            },
            None => None,
        };
        match hit_sprite {
            Some(i) => {
                self.remove_sprite(i);
            },
            None => match ev.shape_at {
                Some(i) => if i < self.active_len() {
                    let sel = crate::classification::selection_after_removal(self.selected, i);
                    self.active_remove(i);
                    let n = self.active_len();
                    self.selected = sel;
                    self.dirty = true;
                    self.set_layer_count("Deleted shape from ", n, " left)");
                },
                None => {},
            },
        }
    }

    fn delete_key(&mut self, ev: &EditorEvent)
        requires
            old(self).wf(),
        ensures
            final(self).model() == delete_phase(old(self).model(), *ev),
            final(self).wf(),
            final(self).layer == old(self).layer,
    {
        reveal(delete_phase);
        let ghost m0 = self.model();
        let sheet_open = self.layer == Layer::SpritePlanning && self.panel_open;
        if !(self.layer != Layer::ClassificationPlanning && !sheet_open && (ev.keys.delete || ev.keys.backspace)) {
            return;
        }
        let hit_sprite: Option<usize> = match ev.sprite_at {
            Some(i) => if self.layer == Layer::SpritePlanning && i < self.level.sprite_instances.len() {
                Some(i)
            } else {
                None
            },
            None => None,
        };
        match hit_sprite {
            Some(i) => {
                self.remove_sprite(i);
            },
            None => match self.selected {
                Some(i) => {
                    self.selected = None;
                    if i < self.active_len() {
                        self.active_remove(i);
                        let n = self.active_len();
                        self.dirty = true;
                        self.status = counted_message("Deleted selected shape (", n, " left)");
                    }
                    assert(self.model() =~= delete_phase(m0, *ev));
                },
                None => {},
            },
        }
    }

    #[verifier::rlimit(40)]
    fn undo_keys(&mut self, ev: &EditorEvent)
        requires
            old(self).wf(),
        ensures
            final(self).model() == undo_phase(old(self).model(), *ev),
            final(self).wf(),
            final(self).layer == old(self).layer,
    {
        reveal(undo_phase);
        let ghost m0 = self.model();
        let sheet_open = self.layer == Layer::SpritePlanning && self.panel_open;
        if !(self.layer != Layer::ClassificationPlanning && !sheet_open) {
            return;
        }
        if ev.keys.z {
            if self.layer == Layer::SpritePlanning && self.level.sprite_instances.len() > 0 {
                self.level.sprite_instances.pop();
                let c = self.level.sprite_instances.len();
                self.dirty = true;
                self.status = counted_message("Undid last sprite (", c, " left)");
                assert(sprites_v(self.level.sprite_instances@) =~= m0.sprites.drop_last());
            } else if self.active_len() > 0 {
                self.active_pop();
                let c = self.active_len();
                if self.selected == Some(c) {
                    self.selected = None;
                }
                self.dirty = true;
                self.set_layer_count("Undid last shape on ", c, " left)");
            }
        }
        let ghost m1 = self.model();
        assert(m1 =~= (if ev.keys.z {
            if m0.layer == Layer::SpritePlanning && m0.sprites.len() > 0 {
                EditorModel {
                    sprites: m0.sprites.drop_last(),
                    dirty: true,
                    status: counted("Undid last sprite ("@, (m0.sprites.len() - 1) as nat, " left)"@),
                    ..m0
                }
            } else if active_v(m0).len() > 0 {
                let a = active_v(m0).drop_last();
                EditorModel {
                    selected: if m0.selected == Some(a.len() as usize) { None } else { m0.selected },
                    dirty: true,
                    status: layer_count_text("Undid last shape on "@, m0.layer, a.len(), " left)"@),
                    ..with_active_v(m0, a)
                }
            } else {
                m0
            }
        } else {
            m0
        }));
        if ev.keys.x && self.active_len() > 0 {
            self.active_clear();
            self.selected = None;
            self.dirty = true;
            self.status = String::new();
            push_str(&mut self.status, "Cleared ");
            push_str(&mut self.status, self.layer.name());
            push_str(&mut self.status, " layer");
        }
        assert(self.model() =~= undo_phase(m0, *ev));
    }
}

// ---------------------------------------------------------------- the frame

/// One frame of the editor (see the module documentation for the order).
pub open spec fn editor_transition(m: EditorModel, ev: EditorEvent) -> (EditorModel, EditorAction) {
    let (m0, stop, quit) = escape_phase(m, ev);
    let a0 = EditorAction { quit, ..no_action() };
    if stop {
        (m0, a0)
    } else {
        let (m1, reset) = global_phase(m0, ev);
        let a1 = EditorAction { reset_view: reset, ..a0 };
        if m1.layer == Layer::ClassificationPlanning && m1.editing is Some {
            (edit_phase(m1, ev), a1)
        } else {
            let m2 = if m1.layer == Layer::ClassificationPlanning {
                tag_phase(m1, ev)
            } else {
                m1
            };
            if m2.layer == Layer::SpritePlanning && m2.entering_path {
                let (m3, read) = path_phase(m2, ev);
                (m3, EditorAction { read_sheet: read, ..a1 })
            } else {
                let (m3, cut) = if m2.layer == Layer::SpritePlanning {
                    panel_phase(m2, ev)
                } else {
                    (m2, None)
                };
                let m4 = undo_phase(
                    delete_phase(right_phase(place_phase(pick_phase(tool_phase(m3, ev), ev), ev), ev), ev),
                    ev,
                );
                (m4, EditorAction { cut_tile: cut, save: ev.keys.s, reload: ev.keys.o, ..a1 })
            }
        }
    }
}

/// Runs one frame of the editor: updates the state and returns what the
/// caller must do.
pub fn editor_step(st: &mut EditorState, ev: &EditorEvent) -> (act: EditorAction)
    requires
        old(st).wf(),
        ev.object_at matches Some(o) ==> valid_ref(old(st).level, o),
        old(st).level.sprite_instances@.len() + old(st).level.collision_shapes@.len() < usize::MAX,
    ensures
        (final(st).model(), act) == editor_transition(old(st).model(), *ev),
        final(st).wf(),
{
    let (stop, quit) = st.escape(ev);
    let mut act = EditorAction { quit, reset_view: false, read_sheet: false, cut_tile: None, save: false, reload: false };
    if stop {
        return act;
    }
    let reset = st.global_keys(ev);
    act.reset_view = reset;
    if st.layer == Layer::ClassificationPlanning && st.editing.is_some() {
        st.edit_text(ev);
        return act;
    }
    if st.layer == Layer::ClassificationPlanning {
        st.arrows(ev);
        st.start_edit(ev);
        st.tag_mouse(ev);
        st.tag_undo(ev);
    }
    if st.layer == Layer::SpritePlanning && st.entering_path {
        let read = st.type_path(ev);
        act.read_sheet = read;
        return act;
    }
    if st.layer == Layer::SpritePlanning {
        act.cut_tile = st.panel(ev);
    }
    st.tools(ev);
    st.pick(ev);
    st.place(ev);
    st.right_click(ev);
    st.delete_key(ev);
    st.undo_keys(ev);
    act.save = ev.keys.s;
    act.reload = ev.keys.o;
    act
}

/// Escape goes first: it cancels a tag or ID edit, else drops the shape
/// selection, and only with neither does it quit. Cancelling or
/// deselecting ends the frame with nothing else done.
pub proof fn lemma_escape_order(m: EditorModel, ev: EditorEvent)
    requires
        ev.keys.escape,
    ensures
        m.editing is Some ==> editor_transition(m, ev) == (
        EditorModel { editing: None, status: "Edit cancelled"@, ..m },
        no_action(),
        ),
        m.editing is None && m.selected is Some ==> editor_transition(m, ev) == (
        EditorModel { selected: None, drag_start: None, drag_action: None, status: "Deselected shape"@, ..m },
        no_action(),
        ),
        m.editing is None && m.selected is None ==> editor_transition(m, ev).1.quit,
{
    reveal(escape_phase);
}

/// While a tag or ID is being edited, the frame only edits it: every other
/// key is ignored and nothing is asked of the caller.
pub proof fn lemma_edit_swallows_keys(m: EditorModel, ev: EditorEvent)
    requires
        m.layer == Layer::ClassificationPlanning,
        m.editing is Some,
        !ev.keys.escape,
    ensures
        editor_transition(m, ev) == (edit_phase(m, ev), no_action()),
{
    reveal(escape_phase);
    reveal(global_phase);
}

/// While a sheet path is typed, the level is left alone and neither a save,
/// a reload nor a cut is asked for.
pub proof fn lemma_path_entry_keeps_level(m: EditorModel, ev: EditorEvent)
    requires
        m.layer == Layer::SpritePlanning,
        m.entering_path,
        m.editing is None,
        !ev.keys.escape,
        !ev.keys.tab,
    ensures
        ({
            let (m2, act) = editor_transition(m, ev);
            &&& m2.sprites == m.sprites
            &&& m2.sprite_shapes == m.sprite_shapes
            &&& m2.collision_shapes == m.collision_shapes
            &&& m2.rows == m.rows
            &&& m2.dirty == m.dirty
            &&& !act.save && !act.reload && !act.quit && act.cut_tile is None
        }),
{
    reveal(escape_phase);
    reveal(global_phase);
    reveal(path_phase);
}

// ---------------------------------------------------------------- start and outcomes

/// `"Loaded sheet <w>x<h>; drag to cut a tile"`.
pub open spec fn sheet_loaded_text(w: u32, h: u32) -> Seq<char> {
    "Loaded sheet "@ + decimal(w as nat) + seq!['x'] + decimal(h as nat) + "; drag to cut a tile"@
}

/// `"<verb> <path> (<s> sprites, <c> collision, <t> tags)"`.
pub open spec fn level_summary(verb: Seq<char>, path: Seq<char>, s: nat, c: nat, t: nat) -> Seq<char> {
    verb + path + " ("@ + decimal(s) + " sprites, "@ + decimal(c) + " collision, "@ + decimal(t) + " tags)"@
}

fn level_summary_text(verb: &str, path: &str, s: usize, c: usize, t: usize) -> (r: String)
    ensures
        r@ == level_summary(verb@, path@, s as nat, c as nat, t as nat),
{
    let mut r = String::new();
    push_str(&mut r, verb);
    push_str(&mut r, path);
    push_str(&mut r, " (");
    push_count(&mut r, s);
    push_str(&mut r, " sprites, ");
    push_count(&mut r, c);
    push_str(&mut r, " collision, ");
    push_count(&mut r, t);
    push_str(&mut r, " tags)");
    r
}

impl EditorState {
    /// The editor on opening `level` from `path`: sprite layer, rectangle
    /// tool, the layer's color, the first known sprite chosen, scale one,
    /// nothing selected, focused, edited or loaded, with the status of the
    /// load.
    pub fn new(path: String, level: Level, status: String, sprite_paths: Vec<String>) -> (st: Self)
        ensures
            st.wf(),
            st.path == path,
            st.level == level,
            st.status == status,
            st.sprite_paths == sprite_paths,
            st.tag_colors@ == crate::classification::initial_tag_colors(rows_view(level.classifications@)),
            st.layer == Layer::SpritePlanning,
            st.tool == Tool::Rect,
            st.color == layer_color(Layer::SpritePlanning),
            !st.show_help && !st.dirty,
            st.selected is None && st.drag_start is None && st.drag_action is None,
            st.focused is None && st.editing is None,
            !st.entering_path && st.path_input@.len() == 0 && st.pending_sheet is None,
            st.sheet is None && !st.panel_open && st.sheet_drag is None,
            st.selected_sprite == if sprite_paths@.len() == 0 { None } else { Some(0usize) },
            st.scale_exp == 0,
    {
        let tag_colors = crate::classification::build_tag_colors(&level);
        let selected_sprite = if sprite_paths.len() == 0 { None } else { Some(0) };
        EditorState {
            path,
            level,
            tag_colors,
            layer: Layer::SpritePlanning,
            tool: Tool::Rect,
            color: Layer::SpritePlanning.default_color(),
            show_help: false,
            dirty: false,
            status,
            selected: None,
            drag_start: None,
            drag_action: None,
            focused: None,
            editing: None,
            entering_path: false,
            path_input: String::new(),
            pending_sheet: None,
            sheet: None,
            panel_open: false,
            sheet_drag: None,
            sprite_paths,
            selected_sprite,
            scale_exp: 0,
        }
    }
}

/// After the file at the pending sheet path was read: its bytes decode to a
/// sheet of `w × h`, which is loaded and shown with the drag cleared.
pub open spec fn sheet_loaded(m: EditorModel, w: u32, h: u32) -> EditorModel {
    EditorModel {
        sheet: Some((m.pending_sheet->0, w, h)),
        pending_sheet: None,
        panel_open: true,
        sheet_drag: None,
        status: sheet_loaded_text(w, h),
        ..m
    }
}

/// Hands the editor the outcome of reading the pending sheet file: the
/// bytes are decoded, and the sheet loaded and shown; a read or decode
/// failure is reported with its message. Nothing happens with no pending
/// sheet.
pub fn sheet_read(st: &mut EditorState, read: Result<Vec<u8>, String>)
    requires
        old(st).wf(),
    ensures
        final(st).wf(),
        old(st).pending_sheet is None ==> final(st).model() == old(st).model(),
        old(st).pending_sheet is Some ==> match read {
            Err(e) => final(st).model() == (EditorModel {
                pending_sheet: None,
                status: "Failed to read sheet: "@ + e@,
                ..old(st).model()
            }),
            Ok(b) => match crate::sprite_cells::decoded_size(b@) {
                Some((w, h)) => final(st).model() == sheet_loaded(old(st).model(), w, h),
                None => final(st).model() == (EditorModel {
                    pending_sheet: None,
                    status: final(st).status@,
                    ..old(st).model()
                }) && "Failed to decode sheet: "@.is_prefix_of(final(st).status@),
            },
        },
{
    let ghost m0 = st.model();
    let p = match st.pending_sheet.take() {
        Some(p) => p,
        None => {
            return;
        },
    };
    match read {
        Err(e) => {
            st.status = String::new();
            push_str(&mut st.status, "Failed to read sheet: ");
            push_str(&mut st.status, e.as_str());
            assert(st.model() =~= EditorModel { pending_sheet: None, status: "Failed to read sheet: "@ + e@, ..m0 });
        },
        Ok(b) => match crate::sprite_cells::sheet_size(b.as_slice()) {
            Ok((w, h)) => {
                st.sheet = Some((p, w, h));
                st.panel_open = true;
                st.sheet_drag = None;
                st.status = String::new();
                push_str(&mut st.status, "Loaded sheet ");
                crate::text::push_decimal(&mut st.status, w);
                crate::text::push_char(&mut st.status, 'x');
                crate::text::push_decimal(&mut st.status, h);
                push_str(&mut st.status, "; drag to cut a tile");
                assert(st.model() =~= sheet_loaded(m0, w, h));
            },
            Err(msg) => {
                st.status = String::new();
                push_str(&mut st.status, "Failed to decode sheet: ");
                push_str(&mut st.status, msg.as_str());
                assert(st.model() =~= EditorModel { pending_sheet: None, status: st.status@, ..m0 });
                assert("Failed to decode sheet: "@.is_prefix_of(st.status@)) by {
                    assert(st.status@.subrange(0, "Failed to decode sheet: "@.len() as int) =~= "Failed to decode sheet: "@);
                }
            },
        },
    }
}

/// Hands the editor the outcome of cutting a tile: the new sprite file is
/// added to the sorted sprite list (unless listed) and chosen, marking the
/// level changed; a failure is reported with its message.
pub fn tile_cut(st: &mut EditorState, cut: Result<String, String>)
    requires
        old(st).wf(),
    ensures
        final(st).wf(),
        match cut {
            Err(e) => final(st).model() == (EditorModel { status: "Cut failed: "@ + e@, ..old(st).model() }),
            Ok(p) => {
                let before = old(st).model().sprite_paths;
                let after = final(st).model().sprite_paths;
                &&& before.contains(p@) ==> after == before
                &&& !before.contains(p@) ==> after == crate::sorting::sorted_order(before.push(p@))
                &&& final(st).selected_sprite is Some
                &&& crate::tag_edit::first_position(after, p@) == Some(final(st).selected_sprite->0 as int)
                &&& final(st).model() == (EditorModel {
                    sprite_paths: after,
                    selected_sprite: final(st).selected_sprite,
                    dirty: true,
                    status: "Cut '"@ + sprite_name(p@) + "'; hide sheet (L) to place"@,
                    ..old(st).model()
                })
            },
        },
{
    let ghost m0 = st.model();
    match cut {
        Err(e) => {
            st.status = String::new();
            push_str(&mut st.status, "Cut failed: ");
            push_str(&mut st.status, e.as_str());
            assert(st.model() =~= EditorModel { status: "Cut failed: "@ + e@, ..m0 });
        },
        Ok(p) => {
            let name = sprite_name_of(p.as_str());
            let i = crate::tag_edit::select_sprite_path(&mut st.sprite_paths, p);
            proof {
                crate::tag_edit::lemma_first_position_bound(strings_v(st.sprite_paths@), name@);
                crate::tag_edit::lemma_first_position_bound(crate::sorting::views(st.sprite_paths@), p@);
                assert(crate::sorting::views(st.sprite_paths@) =~= strings_v(st.sprite_paths@));
                assert(crate::sorting::views(old(st).sprite_paths@) =~= strings_v(old(st).sprite_paths@));
            }
            st.selected_sprite = Some(i);
            st.dirty = true;
            st.status = String::new();
            push_str(&mut st.status, "Cut '");
            push_str(&mut st.status, name.as_str());
            push_str(&mut st.status, "'; hide sheet (L) to place");
        },
    }
}

/// Hands the editor the outcome of saving: success clears the unsaved flag
/// and tells what was saved; a failure is reported with its message.
pub fn saved(st: &mut EditorState, result: Result<(), String>)
    requires
        old(st).wf(),
    ensures
        final(st).wf(),
        final(st).model() == match result {
            Ok(()) => EditorModel {
                dirty: false,
                status: level_summary(
                    "Saved "@,
                    old(st).path@,
                    old(st).level.sprite_instances@.len(),
                    old(st).level.collision_shapes@.len(),
                    old(st).level.classifications@.len(),
                ),
                ..old(st).model()
            },
            Err(e) => EditorModel { status: "Save failed: "@ + e@, ..old(st).model() },
        },
{
    let ghost m0 = st.model();
    match result {
        Ok(()) => {
            st.dirty = false;
            st.status = level_summary_text(
                "Saved ",
                st.path.as_str(),
                st.level.sprite_instances.len(),
                st.level.collision_shapes.len(),
                st.level.classifications.len(),
            );
        },
        Err(e) => {
            st.status = String::new();
            push_str(&mut st.status, "Save failed: ");
            push_str(&mut st.status, e.as_str());
        },
    }
    assert(st.model() =~= match result {
        Ok(()) => EditorModel {
            dirty: false,
            status: level_summary(
                "Saved "@,
                old(st).path@,
                old(st).level.sprite_instances@.len(),
                old(st).level.collision_shapes@.len(),
                old(st).level.classifications@.len(),
            ),
            ..m0
        },
        Err(e) => EditorModel { status: "Save failed: "@ + e@, ..m0 },
    });
}

/// Hands the editor the level reloaded from its path: empty IDs are filled
/// from `id_gen`, the tag colors rebuilt, the unsaved flag, focus and edit
/// cleared, and the status tells what was loaded; a failure is reported
/// with its message and changes nothing else.
pub fn reloaded<F: Fn() -> String>(st: &mut EditorState, result: Result<Level, String>, id_gen: F)
    requires
        old(st).wf(),
        call_requires(id_gen, ()),
    ensures
        final(st).wf(),
        match result {
            Err(e) => final(st).model() == (EditorModel { status: "Load failed: "@ + e@, ..old(st).model() }),
            Ok(lv) => {
                &&& crate::level::ids_filled(id_gen, lv.sprite_shapes@, final(st).level.sprite_shapes@)
                &&& crate::level::ids_filled(id_gen, lv.collision_shapes@, final(st).level.collision_shapes@)
                &&& crate::level::sprite_ids_filled(id_gen, lv.sprite_instances@, final(st).level.sprite_instances@)
                &&& final(st).level.classifications@ == lv.classifications@
                &&& final(st).level.player_start == lv.player_start
                &&& final(st).level.grid_size == lv.grid_size
                &&& final(st).tag_colors@ == crate::classification::initial_tag_colors(rows_view(lv.classifications@))
                &&& final(st).model() == (EditorModel {
                    sprites: final(st).model().sprites,
                    sprite_shapes: final(st).model().sprite_shapes,
                    collision_shapes: final(st).model().collision_shapes,
                    rows: rows_view(lv.classifications@),
                    player_start: lv.player_start,
                    grid_size: lv.grid_size,
                    tags: final(st).tag_colors@,
                    dirty: false,
                    editing: None,
                    focused: None,
                    status: level_summary(
                        "Reloaded "@,
                        old(st).path@,
                        lv.sprite_instances@.len(),
                        lv.collision_shapes@.len(),
                        lv.classifications@.len(),
                    ),
                    ..old(st).model()
                })
            },
        },
{
    let ghost m0 = st.model();
    match result {
        Err(e) => {
            st.status = String::new();
            push_str(&mut st.status, "Load failed: ");
            push_str(&mut st.status, e.as_str());
            assert(st.model() =~= EditorModel { status: "Load failed: "@ + e@, ..m0 });
        },
        Ok(lv) => {
            let ghost lv0 = lv;
            let mut lv = lv;
            lv.ensure_ids(id_gen);
            let colors = crate::classification::build_tag_colors(&lv);
            let sn = lv.sprite_instances.len();
            let cn = lv.collision_shapes.len();
            let tn = lv.classifications.len();
            st.level = lv;
            st.tag_colors = colors;
            st.dirty = false;
            st.editing = None;
            st.focused = None;
            st.status = level_summary_text("Reloaded ", st.path.as_str(), sn, cn, tn);
            assert(st.model() =~= EditorModel {
                sprites: st.model().sprites,
                sprite_shapes: st.model().sprite_shapes,
                collision_shapes: st.model().collision_shapes,
                rows: rows_view(lv0.classifications@),
                player_start: lv0.player_start,
                grid_size: lv0.grid_size,
                tags: st.tag_colors@,
                dirty: false,
                editing: None,
                focused: None,
                status: level_summary("Reloaded "@, m0.path, sn as nat, cn as nat, tn as nat),
                ..m0
            });
        },
    }
}

/// Z takes back the last thing placed on a shape layer (panel closed): the
/// last sprite on the sprite layer when there is one, else exactly the last
/// shape of the layer; X then empties the layer's shapes.
pub proof fn lemma_undo_key_takes_back_last(m: EditorModel, ev: EditorEvent)
    requires
        m.layer != Layer::ClassificationPlanning,
        !sheet_open(m),
        ev.keys.z,
        !ev.keys.x,
    ensures
        m.layer == Layer::SpritePlanning && m.sprites.len() > 0 ==> undo_phase(m, ev).sprites
            == m.sprites.drop_last() && active_v(undo_phase(m, ev)) == active_v(m),
        !(m.layer == Layer::SpritePlanning && m.sprites.len() > 0) && active_v(m).len() > 0 ==> active_v(
            undo_phase(m, ev),
        ) == active_v(m).drop_last() && undo_phase(m, ev).sprites == m.sprites,
{
    reveal(undo_phase);
}

/// Delete (panel closed, no sprite under the cursor) removes exactly the
/// selected shape of the layer and drops the selection.
pub proof fn lemma_delete_removes_selected(m: EditorModel, ev: EditorEvent, i: usize)
    requires
        m.layer != Layer::ClassificationPlanning,
        !sheet_open(m),
        ev.keys.delete,
        !sprite_hit(m, ev),
        m.selected == Some(i),
        i < active_v(m).len(),
    ensures
        active_v(delete_phase(m, ev)) == active_v(m).remove(i as int),
        delete_phase(m, ev).selected is None,
        delete_phase(m, ev).sprites == m.sprites,
{
    reveal(delete_phase);
}

/// A right-click on a shape layer (panel closed, no sprite under the
/// cursor) removes exactly the shape under the cursor.
pub proof fn lemma_right_click_removes_hit(m: EditorModel, ev: EditorEvent, i: usize)
    requires
        m.layer != Layer::ClassificationPlanning,
        !sheet_open(m),
        ev.right_pressed,
        !sprite_hit(m, ev),
        ev.shape_at == Some(i),
        i < active_v(m).len(),
    ensures
        active_v(right_phase(m, ev)) == active_v(m).remove(i as int),
        right_phase(m, ev).sprites == m.sprites,
{
    reveal(right_phase);
}

} // verus!
