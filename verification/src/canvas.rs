//! The windowed editor on the editor's state: the mouse on the canvas
//! (clicks, drags and right-clicks, worked out by the caller in world
//! space), the keyboard commands, the layer menu and the side panel's
//! Apply.
//!
//! - While the player spawn is armed, a left click sets it and disarms;
//!   nothing else happens.
//! - On the classification layer a left click focuses the object under the
//!   cursor, a right click focuses it and clears its tag.
//! - On the sprite layer with a sprite chosen, a left click places it and a
//!   right click deletes the sprite under the cursor.
//! - Otherwise a click selects the shape under the cursor; a drag from a
//!   shape moves it (Shift: redraws it) and a drag from empty space draws a
//!   new shape; a right click deletes the shape under the cursor.

use vstd::prelude::*;
use crate::classification::{
    add_tag, apply_classification, confirmed_tag, object_id, objects_with_id, ref_id, rename_rows, upsert_row, valid_ref,
    ObjectRef,
};
use crate::editor::{layer_name, next_layer, DragAction, Layer};
use crate::editor_step::{
    active_v, after_removal, cleared_for, copy_shape, focus_index, layer_color, object_at_index, scale_bits, scale_of,
    shape_v, sprite_name, sprite_name_of, with_active_v, without_sprite,
    EditorModel, EditorState, SpriteV,
};
use crate::level::{rows_view, Shape, SpawnPoint, SpriteInstance};
use crate::shortcuts::Command;
use crate::status::{counted, counted_message};
use crate::text::{push_str, trimmed};

verus! {

/// The window's own flags around the editor's state.
#[derive(Clone, Copy, Debug, PartialEq, Eq, Structural)]
pub struct CanvasFlags {
    /// The next left click sets the player spawn.
    pub arming_spawn: bool,
    /// The window title must be refreshed.
    pub title_dirty: bool,
    /// The object whose tag and ID the side panel holds; `None` asks the
    /// panel to take the focused object's again.
    pub synced_focus: Option<ObjectRef>,
    /// Placed sprites go behind everything else.
    pub place_background: bool,
}

/// What the mouse did on the canvas this frame, as the caller works it out
/// from the input and the state before the frame.
pub struct CanvasEvent {
    /// The cursor in world space snapped to the grid (`f32` bit patterns),
    /// when it is over the canvas.
    pub cursor: Option<(u32, u32)>,
    pub primary_clicked: bool,
    pub secondary_clicked: bool,
    pub drag_started: bool,
    pub drag_stopped: bool,
    /// Shift is held.
    pub shift: bool,
    /// The classifiable object under the cursor.
    pub object_at: Option<ObjectRef>,
    /// The topmost sprite under the cursor.
    pub sprite_at: Option<usize>,
    /// The topmost shape of the active layer under the cursor.
    pub shape_at: Option<usize>,
    /// The shape a drag from the drag start to the cursor makes with the
    /// current tool and color, when it is at least two pixels; it carries a
    /// fresh ID.
    pub new_shape: Option<Shape>,
    /// The shape being moved, moved by the drag, when the drag moved it.
    pub moved: Option<Shape>,
    /// The shape being redrawn, reshaped to the drag, when the drag is at
    /// least two pixels.
    pub redrawn: Option<Shape>,
    /// A fresh random ID for a placed sprite.
    pub new_id: String,
    /// The snapped cursor as the status line shows it, `"<x>,<y>"`.
    pub spawn_label: String,
}

/// Classification layer: a left click focuses, a right click focuses and
/// clears the tag of the object under the cursor.
#[verifier::opaque]
pub open spec fn canvas_tag_step(m: EditorModel, f: CanvasFlags, ev: CanvasEvent) -> (EditorModel, CanvasFlags) {
    let (m1, f1) = if ev.primary_clicked && ev.object_at is Some {
        (
            EditorModel { focused: ev.object_at, status: "Focused object — edit its tag in the panel"@, ..m },
            CanvasFlags { synced_focus: None, ..f },
        )
    } else {
        (m, f)
    };
    if ev.secondary_clicked && ev.object_at is Some {
        let o = ev.object_at->0;
        (
            cleared_for(EditorModel { focused: Some(o), ..m1 }, o),
            CanvasFlags { synced_focus: None, title_dirty: true, ..f1 },
        )
    } else {
        (m1, f1)
    }
}

/// Sprite layer with a sprite chosen: a left click places it at the
/// cursor, a right click deletes the sprite under the cursor.
#[verifier::opaque]
pub open spec fn canvas_place_step(m: EditorModel, f: CanvasFlags, ev: CanvasEvent, c: (u32, u32)) -> (EditorModel, CanvasFlags) {
    let m1 = if ev.primary_clicked {
        let sp = SpriteV {
            id: ev.new_id@,
            path: m.sprite_paths[m.selected_sprite->0 as int],
            x: c.0,
            y: c.1,
            scale: scale_bits(m.scale_exp),
            background: f.place_background,
        };
        EditorModel {
            sprites: m.sprites.push(sp),
            dirty: true,
            status: counted("Placed sprite ("@, m.sprites.len() + 1, " total)"@),
            ..m
        }
    } else {
        m
    };
    let hit = ev.secondary_clicked && ev.sprite_at is Some && ev.sprite_at->0 < m1.sprites.len();
    let m2 = if hit {
        without_sprite(m1, ev.sprite_at->0)
    } else {
        m1
    };
    (m2, CanvasFlags { title_dirty: f.title_dirty || ev.primary_clicked || hit, ..f })
}

/// A click selects the shape under the cursor; a drag starts from the
/// cursor, moving (Shift: redrawing) the shape under it or drawing anew.
#[verifier::opaque]
pub open spec fn canvas_press(m: EditorModel, ev: CanvasEvent, c: (u32, u32)) -> EditorModel {
    let m1 = if ev.primary_clicked {
        EditorModel { selected: ev.shape_at, ..m }
    } else {
        m
    };
    if ev.drag_started {
        EditorModel {
            selected: ev.shape_at,
            drag_start: Some(c),
            drag_action: Some(
                match ev.shape_at {
                    Some(i) => if ev.shift {
                        DragAction::RedrawShape(i)
                    } else {
                        DragAction::MoveShape(i)
                    },
                    None => DragAction::NewShape,
                },
            ),
            ..m1
        }
    } else {
        m1
    }
}

/// Shape `i` of the active layer replaced by `sh`, reported as `verb i`.
pub open spec fn reshaped(m: EditorModel, i: usize, sh: Option<Shape>, verb: Seq<char>) -> (EditorModel, bool) {
    let ok = sh is Some && i < active_v(m).len();
    let base = if ok {
        EditorModel {
            dirty: true,
            status: counted(verb, i as nat, Seq::empty()),
            ..with_active_v(m, active_v(m).update(i as int, shape_v(sh->0)))
        }
    } else {
        m
    };
    (EditorModel { selected: Some(i), ..base }, ok)
}

/// The end of a drag: the drawn shape is added, the moved or redrawn one
/// replaced; the flag tells whether the level changed.
#[verifier::opaque]
pub open spec fn canvas_release(m: EditorModel, ev: CanvasEvent) -> (EditorModel, bool) {
    if ev.drag_stopped {
        let mt = EditorModel { drag_start: None, drag_action: None, ..m };
        if m.drag_start is Some && m.drag_action is Some {
            match m.drag_action->0 {
                DragAction::NewShape => match ev.new_shape {
                    Some(sh) => {
                        let a = active_v(mt).push(shape_v(sh));
                        (
                            EditorModel {
                                dirty: true,
                                status: counted("Placed shape ("@, a.len(), " total)"@),
                                ..with_active_v(mt, a)
                            },
                            true,
                        )
                    },
                    None => (mt, false),
                },
                DragAction::MoveShape(i) => reshaped(mt, i, ev.moved, "Moved shape "@),
                DragAction::RedrawShape(i) => reshaped(mt, i, ev.redrawn, "Redrawn shape "@),
            }
        } else {
            (mt, false)
        }
    } else {
        (m, false)
    }
}

/// A right click deletes the shape under the cursor, fixing up the
/// selection; the flag tells whether it did.
#[verifier::opaque]
pub open spec fn canvas_erase(m: EditorModel, ev: CanvasEvent) -> (EditorModel, bool) {
    if ev.secondary_clicked && ev.shape_at is Some && ev.shape_at->0 < active_v(m).len() {
        let i = ev.shape_at->0;
        let a = active_v(m).remove(i as int);
        (
            EditorModel {
                selected: after_removal(m.selected, i),
                dirty: true,
                status: counted("Deleted shape ("@, a.len(), " left)"@),
                ..with_active_v(m, a)
            },
            true,
        )
    } else {
        (m, false)
    }
}

/// One frame of the mouse on the canvas (see the module documentation).
pub open spec fn canvas_transition(m: EditorModel, f: CanvasFlags, ev: CanvasEvent) -> (EditorModel, CanvasFlags) {
    match ev.cursor {
        None => (m, f),
        Some(c) => if f.arming_spawn {
            if ev.primary_clicked {
                (
                    EditorModel {
                        player_start: Some(SpawnPoint { x: c.0, y: c.1 }),
                        dirty: true,
                        status: "Player spawn set to "@ + ev.spawn_label@,
                        ..m
                    },
                    CanvasFlags { arming_spawn: false, title_dirty: true, ..f },
                )
            } else {
                (m, f)
            }
        } else if m.layer == Layer::ClassificationPlanning {
            canvas_tag_step(m, f, ev)
        } else if m.layer == Layer::SpritePlanning && m.selected_sprite is Some {
            canvas_place_step(m, f, ev, c)
        } else {
            let (m2, t2) = canvas_release(canvas_press(m, ev, c), ev);
            let (m3, t3) = canvas_erase(m2, ev);
            (m3, CanvasFlags { title_dirty: f.title_dirty || t2 || t3, ..f })
        }
    }
}

fn tag_step(st: &mut EditorState, flags: &mut CanvasFlags, ev: &CanvasEvent)
    requires
        old(st).wf(),
        old(st).layer == Layer::ClassificationPlanning,
        ev.object_at matches Some(o) ==> valid_ref(old(st).level, o),
    ensures
        (final(st).model(), *final(flags)) == canvas_tag_step(old(st).model(), *old(flags), *ev),
        final(st).wf(),
{
    reveal(canvas_tag_step);
    let ghost m0 = st.model();
    if ev.primary_clicked && ev.object_at.is_some() {
        st.focused = ev.object_at;
        st.status = String::new();
        push_str(&mut st.status, "Focused object — edit its tag in the panel");
        flags.synced_focus = None;
    }
    if ev.secondary_clicked {
        match ev.object_at {
            Some(o) => {
                st.focused = Some(o);
                st.clear_object_tag(o);
                flags.synced_focus = None;
                flags.title_dirty = true;
            },
            None => {},
        }
    }
}

fn place_step(st: &mut EditorState, flags: &mut CanvasFlags, ev: &CanvasEvent, c: (u32, u32))
    requires
        old(st).wf(),
        old(st).layer == Layer::SpritePlanning,
        old(st).selected_sprite is Some,
    ensures
        (final(st).model(), *final(flags)) == canvas_place_step(old(st).model(), *old(flags), *ev, c),
        final(st).wf(),
{
    reveal(canvas_place_step);
    let ghost m0 = st.model();
    if ev.primary_clicked {
        let i = match st.selected_sprite {
            Some(i) => i,
            None => 0,
        };
        let sp = SpriteInstance {
            id: ev.new_id.clone(),
            path: st.sprite_paths[i].clone(),
            x: c.0,
            y: c.1,
            scale: scale_of(st.scale_exp),
            background: flags.place_background,
        };
        st.level.sprite_instances.push(sp);
        let n = st.level.sprite_instances.len();
        st.dirty = true;
        st.status = counted_message("Placed sprite (", n, " total)");
        flags.title_dirty = true;
    }
    let ghost m1 = st.model();
    assert(m1 =~= canvas_place_step(m0, *old(flags), CanvasEvent { secondary_clicked: false, ..*ev }, c).0);
    if ev.secondary_clicked {
        match ev.sprite_at {
            Some(i) => if i < st.level.sprite_instances.len() {
                st.remove_sprite(i);
                flags.title_dirty = true;
            },
            None => {},
        }
    }
}

fn press(st: &mut EditorState, ev: &CanvasEvent, c: (u32, u32))
    requires
        old(st).wf(),
        old(st).layer != Layer::ClassificationPlanning,
    ensures
        final(st).model() == canvas_press(old(st).model(), *ev, c),
        final(st).wf(),
        final(st).layer == old(st).layer,
{
    reveal(canvas_press);
    let ghost m0 = st.model();
    if ev.primary_clicked {
        st.selected = ev.shape_at;
    }
    if ev.drag_started {
        st.selected = ev.shape_at;
        st.drag_start = Some(c);
        st.drag_action = Some(
            match ev.shape_at {
                Some(i) => if ev.shift {
                    DragAction::RedrawShape(i)
                } else {
                    DragAction::MoveShape(i)
                },
                None => DragAction::NewShape,
            },
        );
    }
    assert(st.model() =~= canvas_press(m0, *ev, c));
}

fn reshape(st: &mut EditorState, i: usize, sh: &Option<Shape>, verb: &str) -> (ok: bool)
    requires
        old(st).wf(),
        old(st).layer != Layer::ClassificationPlanning,
    ensures
        (final(st).model(), ok) == reshaped(old(st).model(), i, *sh, verb@),
        final(st).wf(),
        final(st).layer == old(st).layer,
{
    let ghost m0 = st.model();
    let ok = sh.is_some() && i < st.active_len();
    if ok {
        match sh {
            Some(s) => {
                let c = copy_shape(s);
                st.active_set(i, c);
            },
            None => {},
        }
        st.dirty = true;
        st.status = counted_message(verb, i, "");
        proof {
            reveal_strlit("");
            assert(""@ =~= Seq::<char>::empty());
        }
    }
    st.selected = Some(i);
    assert(st.model() =~= reshaped(m0, i, *sh, verb@).0);
    ok
}

fn release(st: &mut EditorState, ev: &CanvasEvent) -> (changed: bool)
    requires
        old(st).wf(),
        old(st).layer != Layer::ClassificationPlanning,
    ensures
        (final(st).model(), changed) == canvas_release(old(st).model(), *ev),
        final(st).wf(),
        final(st).layer == old(st).layer,
{
    reveal(canvas_release);
    if !ev.drag_stopped {
        return false;
    }
    let ghost m0 = st.model();
    let ds = st.drag_start.take();
    let da = st.drag_action.take();
    let ghost mt = st.model();
    assert(mt =~= EditorModel { drag_start: None, drag_action: None, ..m0 });
    if ds.is_none() {
        return false;
    }
    match da {
        Some(DragAction::NewShape) => match &ev.new_shape {
            Some(sh) => {
                let c = copy_shape(sh);
                st.active_push(c);
                let n = st.active_len();
                st.dirty = true;
                st.status = counted_message("Placed shape (", n, " total)");
                let ghost a = active_v(mt).push(shape_v(*sh));
                assert(st.model() =~= EditorModel {
                    dirty: true,
                    status: counted("Placed shape ("@, a.len(), " total)"@),
                    ..with_active_v(mt, a)
                });
                true
            },
            None => false,
        },
        Some(DragAction::MoveShape(i)) => reshape(st, i, &ev.moved, "Moved shape "),
        Some(DragAction::RedrawShape(i)) => reshape(st, i, &ev.redrawn, "Redrawn shape "),
        None => false,
    }
}

fn erase(st: &mut EditorState, ev: &CanvasEvent) -> (changed: bool)
    requires
        old(st).wf(),
        old(st).layer != Layer::ClassificationPlanning,
    ensures
        (final(st).model(), changed) == canvas_erase(old(st).model(), *ev),
        final(st).wf(),
{
    reveal(canvas_erase);
    let ghost m0 = st.model();
    if !ev.secondary_clicked {
        return false;
    }
    match ev.shape_at {
        Some(i) => {
            if i < st.active_len() {
                st.active_remove(i);
                let n = st.active_len();
                st.selected = crate::classification::selection_after_removal(st.selected, i);
                st.dirty = true;
                st.status = counted_message("Deleted shape (", n, " left)");
                assert(st.model() =~= canvas_erase(m0, *ev).0);
                true
            } else {
                false
            }
        },
        None => false,
    }
}

/// Applies one frame of the mouse on the canvas to the editor's state and
/// the window's flags.
pub fn canvas_step(st: &mut EditorState, flags: &mut CanvasFlags, ev: &CanvasEvent)
    requires
        old(st).wf(),
        ev.object_at matches Some(o) ==> valid_ref(old(st).level, o),
    ensures
        (final(st).model(), *final(flags)) == canvas_transition(old(st).model(), *old(flags), *ev),
        final(st).wf(),
{
    let c = match ev.cursor {
        Some(c) => c,
        None => {
            return;
        },
    };
    if flags.arming_spawn {
        if ev.primary_clicked {
            let ghost m0 = st.model();
            st.level.player_start = Some(SpawnPoint { x: c.0, y: c.1 });
            st.dirty = true;
            st.status = String::new();
            push_str(&mut st.status, "Player spawn set to ");
            push_str(&mut st.status, ev.spawn_label.as_str());
            flags.arming_spawn = false;
            flags.title_dirty = true;
            assert(st.model() =~= EditorModel {
                player_start: Some(SpawnPoint { x: c.0, y: c.1 }),
                dirty: true,
                status: "Player spawn set to "@ + ev.spawn_label@,
                ..m0
            });
        }
        return;
    }
    if st.layer == Layer::ClassificationPlanning {
        tag_step(st, flags, ev);
    } else if st.layer == Layer::SpritePlanning && st.selected_sprite.is_some() {
        place_step(st, flags, ev, c);
    } else {
        press(st, ev, c);
        let t2 = release(st, ev);
        let t3 = erase(st, ev);
        flags.title_dirty = flags.title_dirty || t2 || t3;
    }
}

/// `"Tagged '<id>' as '<tag>'"`.
pub open spec fn tagged_text(id: Seq<char>, tag: Seq<char>) -> Seq<char> {
    "Tagged '"@ + id + "' as '"@ + tag + "'"@
}

/// The side panel's Apply: the focused object takes the ID and tag typed
/// in the panel (see `apply_classification`), the level is marked changed,
/// the ID buffer shows the ID given, the title is refreshed and the panel
/// resyncs. Nothing happens with no object focused.
pub fn apply_panel<F: Fn() -> String>(
    st: &mut EditorState,
    flags: &mut CanvasFlags,
    id_buf: &mut String,
    tag_buf: &str,
    id_gen: F,
)
    requires
        old(st).wf(),
        call_requires(id_gen, ()),
    ensures
        final(st).wf(),
        old(st).focused is None ==> final(st).model() == old(st).model() && *final(flags) == *old(flags)
            && *final(id_buf) == *old(id_buf),
        old(st).focused matches Some(o) ==> {
            let m0 = old(st).model();
            let old_id = ref_id(old(st).level, o);
            let new_id = final(id_buf)@;
            let tag = confirmed_tag(tag_buf@);
            &&& trimmed(old(id_buf)@).len() > 0 ==> new_id == trimmed(old(id_buf)@)
            &&& trimmed(old(id_buf)@).len() == 0 ==> call_ensures(id_gen, (), *final(id_buf))
            &&& ref_id(final(st).level, o) == new_id
            &&& rows_view(final(st).level.classifications@) == upsert_row(
                if new_id != old_id {
                    rename_rows(m0.rows, old_id, new_id)
                } else {
                    m0.rows
                },
                new_id,
                tag,
            )
            &&& new_id != old_id ==> (final(st).level.sprite_instances@, final(st).level.collision_shapes@)
                == objects_with_id(old(st).level, o, *final(id_buf))
            &&& new_id == old_id ==> final(st).level.sprite_instances@ == old(st).level.sprite_instances@
                && final(st).level.collision_shapes@ == old(st).level.collision_shapes@
            &&& final(st).tag_colors@ == add_tag(m0.tags, tag)
            &&& final(st).model() == (EditorModel {
                sprites: final(st).model().sprites,
                collision_shapes: final(st).model().collision_shapes,
                rows: rows_view(final(st).level.classifications@),
                tags: final(st).tag_colors@,
                dirty: true,
                status: tagged_text(new_id, tag),
                ..m0
            })
            &&& *final(flags) == (CanvasFlags { title_dirty: true, synced_focus: None, ..*old(flags) })
        },
{
    let o = match st.focused {
        Some(o) => o,
        None => {
            return;
        },
    };
    let ghost m0 = st.model();
    let new_id = apply_classification(&mut st.level, &mut st.tag_colors, o, id_buf.as_str(), tag_buf, id_gen);
    st.dirty = true;
    flags.title_dirty = true;
    flags.synced_focus = None;
    let tag = object_tag_text(tag_buf);
    st.status = String::new();
    push_str(&mut st.status, "Tagged '");
    push_str(&mut st.status, object_id(&st.level, o));
    push_str(&mut st.status, "' as '");
    push_str(&mut st.status, tag.as_str());
    push_str(&mut st.status, "'");
    *id_buf = new_id;
    assert(st.model() =~= EditorModel {
        sprites: st.model().sprites,
        collision_shapes: st.model().collision_shapes,
        rows: rows_view(st.level.classifications@),
        tags: st.tag_colors@,
        dirty: true,
        status: tagged_text(id_buf@, confirmed_tag(tag_buf@)),
        ..m0
    });
}

/// The tag a panel buffer confirms: its trimmed text, or `"static"`.
fn object_tag_text(tag_buf: &str) -> (t: String)
    ensures
        t@ == confirmed_tag(tag_buf@),
{
    let t = crate::text::trim(tag_buf);
    if !t.is_empty() {
        t.to_owned()
    } else {
        proof {
            reveal_strlit("static");
            assert("static"@ =~= crate::classification::static_tag());
        }
        "static".to_owned()
    }
}

/// Choosing a layer from the menu: a different layer takes its color and
/// drops any drag, selection, focus and tag edit, and the title is
/// refreshed; choosing the active layer changes nothing.
pub open spec fn layer_set(m: EditorModel, f: CanvasFlags, l: Layer) -> (EditorModel, CanvasFlags) {
    if m.layer == l {
        (m, f)
    } else {
        (
            EditorModel {
                layer: l,
                color: layer_color(l),
                drag_start: None,
                drag_action: None,
                selected: None,
                focused: None,
                editing: None,
                status: "Active layer: "@ + layer_name(l),
                ..m
            },
            CanvasFlags { title_dirty: true, ..f },
        )
    }
}

/// Makes `layer` the active layer (see [`layer_set`]).
pub fn set_layer(st: &mut EditorState, flags: &mut CanvasFlags, layer: Layer)
    requires
        old(st).wf(),
    ensures
        (final(st).model(), *final(flags)) == layer_set(old(st).model(), *old(flags), layer),
        final(st).wf(),
{
    if st.layer == layer {
        return;
    }
    let ghost m0 = st.model();
    st.layer = layer;
    st.color = layer.default_color();
    st.drag_start = None;
    st.drag_action = None;
    st.selected = None;
    st.focused = None;
    st.editing = None;
    flags.title_dirty = true;
    st.status = String::new();
    push_str(&mut st.status, "Active layer: ");
    push_str(&mut st.status, layer.name());
    assert(st.model() =~= layer_set(m0, *old(flags), layer).0);
}

/// What a keyboard command leaves to the window.
#[derive(Clone, Copy, Debug, PartialEq, Eq, Structural)]
pub struct CommandRequest {
    /// Save the level.
    pub save: bool,
    /// Open the file dialog to pick a level.
    pub open: bool,
    /// Reset the view to the origin at zoom one.
    pub reset_view: bool,
}

pub open spec fn command_request(cmd: Command) -> CommandRequest {
    CommandRequest {
        save: cmd == Command::Save,
        open: cmd == Command::Open,
        reset_view: cmd == Command::ResetView,
    }
}

/// The level changed: marked unsaved, with the title refreshed.
pub open spec fn touched(m: EditorModel, f: CanvasFlags, status: Seq<char>) -> (EditorModel, CanvasFlags) {
    (EditorModel { dirty: true, status, ..m }, CanvasFlags { title_dirty: true, ..f })
}

/// A keyboard command of the windowed editor (see `shortcut_commands`).
/// Focus moves only on the classification layer, and undo and deleting
/// the selection act only on the shape layers, as the shortcuts send them.
pub open spec fn command_step(m: EditorModel, f: CanvasFlags, cmd: Command) -> (EditorModel, CanvasFlags) {
    let n: int = (m.sprites.len() + m.collision_shapes.len()) as int;
    match cmd {
        Command::ToggleHelp => (EditorModel { show_help: !m.show_help, ..m }, f),
        Command::ResetView => (EditorModel { status: "View reset"@, ..m }, f),
        Command::CycleLayer => layer_set(m, f, next_layer(m.layer)),
        Command::FocusNext | Command::FocusPrev => if m.layer == Layer::ClassificationPlanning && n > 0 {
            let next = crate::classification::focus_target(n, focus_index(m, m.focused), cmd == Command::FocusNext);
            (EditorModel { focused: Some(object_at_index(m, next)), ..m }, CanvasFlags { synced_focus: None, ..f })
        } else {
            (m, f)
        },
        Command::ClearFocusedTag => match m.focused {
            Some(o) => (cleared_for(m, o), CanvasFlags { title_dirty: true, synced_focus: None, ..f }),
            None => (m, f),
        },
        Command::UseTool(t) => (EditorModel { tool: t, ..m }, f),
        Command::UseColor(c) => (EditorModel { color: c, ..m }, f),
        Command::SelectSprite(i) => if i < m.sprite_paths.len() {
            (
                EditorModel {
                    selected_sprite: Some(i),
                    status: "Sprite: "@ + sprite_name(m.sprite_paths[i as int]),
                    ..m
                },
                f,
            )
        } else {
            (m, f)
        },
        Command::HalveScale => (EditorModel { scale_exp: if m.scale_exp > -2 { m.scale_exp - 1 } else { -2 }, ..m }, f),
        Command::DoubleScale => (EditorModel { scale_exp: if m.scale_exp < 3 { m.scale_exp + 1 } else { 3 }, ..m }, f),
        Command::Undo => if m.layer == Layer::ClassificationPlanning {
            (m, f)
        } else if m.layer == Layer::SpritePlanning && m.sprites.len() > 0 {
            touched(
                EditorModel { sprites: m.sprites.drop_last(), ..m },
                f,
                counted("Undid last sprite ("@, (m.sprites.len() - 1) as nat, " left)"@),
            )
        } else if active_v(m).len() > 0 {
            let a = active_v(m).drop_last();
            touched(
                EditorModel { selected: None, ..with_active_v(m, a) },
                f,
                counted("Undid last shape ("@, a.len(), " left)"@),
            )
        } else {
            (m, f)
        },
        Command::ClearLayer => if m.layer == Layer::ClassificationPlanning {
            if m.rows.len() > 0 {
                touched(EditorModel { rows: Seq::empty(), ..m }, f, "Cleared all classifications"@)
            } else {
                (m, f)
            }
        } else if active_v(m).len() > 0 {
            touched(
                EditorModel { selected: None, ..with_active_v(m, Seq::empty()) },
                f,
                "Cleared "@ + layer_name(m.layer) + " layer"@,
            )
        } else {
            (m, f)
        },
        Command::DeleteSelected => if m.layer == Layer::ClassificationPlanning {
            (m, f)
        } else {
            match m.selected {
                Some(i) => if i < active_v(m).len() {
                    let a = active_v(m).remove(i as int);
                    touched(
                        EditorModel { selected: None, ..with_active_v(m, a) },
                        f,
                        counted("Deleted selected shape ("@, a.len(), " left)"@),
                    )
                } else {
                    (EditorModel { selected: None, ..m }, f)
                },
                None => (m, f),
            }
        },
        _ => (m, f),
    }
}

fn focus_command(st: &mut EditorState, flags: &mut CanvasFlags, cmd: Command)
    requires
        old(st).wf(),
        cmd == Command::FocusNext || cmd == Command::FocusPrev,
        old(st).level.sprite_instances@.len() + old(st).level.collision_shapes@.len() < usize::MAX,
    ensures
        (final(st).model(), *final(flags)) == command_step(old(st).model(), *old(flags), cmd),
        final(st).wf(),
{
    let ghost m0 = st.model();
    let ns = st.level.sprite_instances.len();
    let nc = st.level.collision_shapes.len();
    let n = ns + nc;
    if st.layer == Layer::ClassificationPlanning && n > 0 {
        let cur: Option<usize> = match st.focused {
            Some(ObjectRef::Sprite(i)) => if i < ns {
                Some(i)
            } else {
                None
            },
            Some(ObjectRef::CollisionShape(j)) => if j < nc {
                Some(ns + j)
            } else {
                None
            },
            None => None,
        };
        let next = crate::classification::focus_step(n, cur, matches!(cmd, Command::FocusNext));
        let obj = if next < ns {
            ObjectRef::Sprite(next)
        } else {
            ObjectRef::CollisionShape(next - ns)
        };
        st.focused = Some(obj);
        flags.synced_focus = None;
    }
    assert(st.model() =~= command_step(m0, *old(flags), cmd).0);
}

fn undo_command(st: &mut EditorState, flags: &mut CanvasFlags)
    requires
        old(st).wf(),
    ensures
        (final(st).model(), *final(flags)) == command_step(old(st).model(), *old(flags), Command::Undo),
        final(st).wf(),
{
    let ghost m0 = st.model();
    if st.layer == Layer::ClassificationPlanning {
    } else if st.layer == Layer::SpritePlanning && st.level.sprite_instances.len() > 0 {
        st.level.sprite_instances.pop();
        let c = st.level.sprite_instances.len();
        st.dirty = true;
        st.status = counted_message("Undid last sprite (", c, " left)");
        flags.title_dirty = true;
    } else if st.active_len() > 0 {
        st.active_pop();
        let c = st.active_len();
        st.selected = None;
        st.dirty = true;
        st.status = counted_message("Undid last shape (", c, " left)");
        flags.title_dirty = true;
    }
    assert(st.model() =~= command_step(m0, *old(flags), Command::Undo).0);
}

fn clear_command(st: &mut EditorState, flags: &mut CanvasFlags)
    requires
        old(st).wf(),
    ensures
        (final(st).model(), *final(flags)) == command_step(old(st).model(), *old(flags), Command::ClearLayer),
        final(st).wf(),
{
    let ghost m0 = st.model();
    if st.layer == Layer::ClassificationPlanning {
        if st.level.classifications.len() > 0 {
            st.level.classifications.clear();
            st.dirty = true;
            st.status = String::new();
            push_str(&mut st.status, "Cleared all classifications");
            flags.title_dirty = true;
            assert(rows_view(st.level.classifications@) =~= Seq::<(Seq<char>, Seq<char>)>::empty());
        }
    } else if st.active_len() > 0 {
        st.active_clear();
        st.selected = None;
        st.dirty = true;
        st.status = String::new();
        push_str(&mut st.status, "Cleared ");
        push_str(&mut st.status, st.layer.name());
        push_str(&mut st.status, " layer");
        flags.title_dirty = true;
    }
    assert(st.model() =~= command_step(m0, *old(flags), Command::ClearLayer).0);
}

fn delete_command(st: &mut EditorState, flags: &mut CanvasFlags)
    requires
        old(st).wf(),
    ensures
        (final(st).model(), *final(flags)) == command_step(old(st).model(), *old(flags), Command::DeleteSelected),
        final(st).wf(),
{
    let ghost m0 = st.model();
    if st.layer != Layer::ClassificationPlanning {
        match st.selected {
            Some(i) => {
                st.selected = None;
                if i < st.active_len() {
                    st.active_remove(i);
                    let c = st.active_len();
                    st.dirty = true;
                    st.status = counted_message("Deleted selected shape (", c, " left)");
                    flags.title_dirty = true;
                }
            },
            None => {},
        }
    }
    assert(st.model() =~= command_step(m0, *old(flags), Command::DeleteSelected).0);
}

fn small_command(st: &mut EditorState, f: CanvasFlags, cmd: Command)
    requires
        old(st).wf(),
        match cmd {
            Command::ToggleHelp | Command::ResetView | Command::UseTool(_) | Command::UseColor(_)
            | Command::SelectSprite(_) | Command::HalveScale | Command::DoubleScale => true,
            _ => false,
        },
    ensures
        final(st).model() == command_step(old(st).model(), f, cmd).0,
        final(st).wf(),
{
    let ghost m0 = st.model();
    match cmd {
        Command::ToggleHelp => {
            st.show_help = !st.show_help;
        },
        Command::ResetView => {
            st.status = String::new();
            push_str(&mut st.status, "View reset");
        },
        Command::UseTool(t) => {
            st.tool = t;
        },
        Command::UseColor(c) => {
            st.color = c;
        },
        Command::SelectSprite(i) => {
            if i < st.sprite_paths.len() {
                let name = sprite_name_of(st.sprite_paths[i].as_str());
                st.selected_sprite = Some(i);
                st.status = String::new();
                push_str(&mut st.status, "Sprite: ");
                push_str(&mut st.status, name.as_str());
            }
        },
        Command::HalveScale => {
            if st.scale_exp > -2 {
                st.scale_exp = st.scale_exp - 1;
            }
        },
        Command::DoubleScale => {
            if st.scale_exp < 3 {
                st.scale_exp = st.scale_exp + 1;
            }
        },
        _ => {},
    }
    assert(st.model() =~= command_step(m0, f, cmd).0);
}

/// Runs a keyboard command of the windowed editor and says what is left
/// to the window (saving, the open dialog, the view).
pub fn run_command(st: &mut EditorState, flags: &mut CanvasFlags, cmd: Command) -> (req: CommandRequest)
    requires
        old(st).wf(),
        old(st).level.sprite_instances@.len() + old(st).level.collision_shapes@.len() < usize::MAX,
    ensures
        (final(st).model(), *final(flags)) == command_step(old(st).model(), *old(flags), cmd),
        req == command_request(cmd),
        final(st).wf(),
{
    let req = CommandRequest {
        save: matches!(cmd, Command::Save),
        open: matches!(cmd, Command::Open),
        reset_view: matches!(cmd, Command::ResetView),
    };
    match cmd {
        Command::CycleLayer => {
            let l = st.layer.next();
            set_layer(st, flags, l);
        },
        Command::FocusNext | Command::FocusPrev => focus_command(st, flags, cmd),
        Command::ClearFocusedTag => {
            match st.focused {
                Some(o) => {
                    st.clear_object_tag(o);
                    flags.title_dirty = true;
                    flags.synced_focus = None;
                },
                None => {},
            }
        },
        Command::Undo => undo_command(st, flags),
        Command::ClearLayer => clear_command(st, flags),
        Command::DeleteSelected => delete_command(st, flags),
        Command::Save | Command::Open => {},
        _ => small_command(st, *flags, cmd),
    }
    req
}

/// The "Set player spawn" toggle: arming asks for a click on the canvas,
/// disarming cancels it.
pub open spec fn spawn_toggled(m: EditorModel, f: CanvasFlags) -> (EditorModel, CanvasFlags) {
    (
        EditorModel {
            status: if f.arming_spawn {
                "Spawn placement cancelled"@
            } else {
                "Click the canvas to set the player spawn"@
            },
            ..m
        },
        CanvasFlags { arming_spawn: !f.arming_spawn, ..f },
    )
}

/// Arms or disarms the player-spawn placement (see [`spawn_toggled`]).
pub fn toggle_spawn_arming(st: &mut EditorState, flags: &mut CanvasFlags)
    requires
        old(st).wf(),
    ensures
        (final(st).model(), *final(flags)) == spawn_toggled(old(st).model(), *old(flags)),
        final(st).wf(),
{
    let ghost m0 = st.model();
    st.status = String::new();
    if flags.arming_spawn {
        push_str(&mut st.status, "Spawn placement cancelled");
    } else {
        push_str(&mut st.status, "Click the canvas to set the player spawn");
    }
    flags.arming_spawn = !flags.arming_spawn;
    assert(st.model() =~= spawn_toggled(m0, *old(flags)).0);
}

/// The largest cell size of the sheet grid, in sheet pixels.
pub const MAX_SHEET_GRID: u32 = 512;

/// The sheet grid's "½" button: half the cell size, at least one pixel.
pub fn halve_grid(grid: u32) -> (g: u32)
    ensures
        g == if grid / 2 >= 1 { grid / 2 } else { 1 },
{
    if grid / 2 >= 1 {
        grid / 2
    } else {
        1
    }
}

/// The sheet grid's "2×" button: twice the cell size, at most
/// [`MAX_SHEET_GRID`] pixels.
pub fn double_grid(grid: u32) -> (g: u32)
    ensures
        g == if 2 * grid <= MAX_SHEET_GRID { 2 * grid } else { MAX_SHEET_GRID as int },
{
    if grid <= MAX_SHEET_GRID / 2 {
        grid * 2
    } else {
        MAX_SHEET_GRID
    }
}

/// Undo takes back the last thing placed: on the sprite layer with sprites
/// placed, the last sprite (shapes untouched); otherwise, on a shape layer
/// with shapes, exactly the last shape of that layer (the shapes afterwards
/// are the old ones without the last), leaving sprites and the other layer
/// alone and dropping the selection.
pub proof fn lemma_undo_takes_back_last(m: EditorModel, f: CanvasFlags)
    requires
        m.layer != Layer::ClassificationPlanning,
    ensures
        ({
            let m2 = command_step(m, f, Command::Undo).0;
            &&& m.layer == Layer::SpritePlanning && m.sprites.len() > 0 ==> {
                &&& m2.sprites == m.sprites.drop_last()
                &&& m2.sprite_shapes == m.sprite_shapes
                &&& m2.collision_shapes == m.collision_shapes
                &&& m2.dirty
            }
            &&& !(m.layer == Layer::SpritePlanning && m.sprites.len() > 0) && active_v(m).len() > 0 ==> {
                &&& active_v(m2) == active_v(m).drop_last()
                &&& m2.sprites == m.sprites
                &&& (m.layer == Layer::CollisionPlanning ==> m2.sprite_shapes == m.sprite_shapes)
                &&& (m.layer == Layer::SpritePlanning ==> m2.collision_shapes == m.collision_shapes)
                &&& m2.selected is None
                &&& m2.dirty
            }
        }),
{
}

/// Deleting the selection removes exactly the selected shape of a shape
/// layer and drops the selection; a right-click on the canvas removes
/// exactly the shape under the cursor.
pub proof fn lemma_deletions_remove_the_named_shape(m: EditorModel, f: CanvasFlags, ev: CanvasEvent, i: usize)
    requires
        m.layer != Layer::ClassificationPlanning,
        i < active_v(m).len(),
    ensures
        m.selected == Some(i) ==> active_v(command_step(m, f, Command::DeleteSelected).0) == active_v(m).remove(
            i as int,
        ) && command_step(m, f, Command::DeleteSelected).0.selected is None,
        ev.secondary_clicked && ev.shape_at == Some(i) ==> active_v(canvas_erase(m, ev).0) == active_v(m).remove(
            i as int,
        ) && canvas_erase(m, ev).1,
{
    reveal(canvas_erase);
}

} // verus!
