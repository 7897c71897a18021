//! Editing rules of the level editor that do not depend on where the mouse
//! is: layers, tools, what a drag does, undo, clearing and deleting.
//!
//! Geometry (hit tests, snapping, zoom) is worked out by the caller, which
//! hands in the index of the shape under the cursor.

use vstd::prelude::*;
use crate::color::Color;
use crate::level::{Level, Shape};
use crate::text::{decimal, push_char, push_decimal, push_str};
use crate::classification::selection_after_removal;

verus! {

/// The editor's planning layers.
#[derive(Clone, Copy, Debug, PartialEq, Eq, Structural)]
pub enum Layer {
    SpritePlanning,
    CollisionPlanning,
    ClassificationPlanning,
}

/// The layer that follows `l` when cycling with Tab.
pub open spec fn next_layer(l: Layer) -> Layer {
    match l {
        Layer::SpritePlanning => Layer::CollisionPlanning,
        Layer::CollisionPlanning => Layer::ClassificationPlanning,
        Layer::ClassificationPlanning => Layer::SpritePlanning,
    }
}

/// The display name of a layer.
pub open spec fn layer_name(l: Layer) -> Seq<char> {
    match l {
        Layer::SpritePlanning => "Sprite"@,
        Layer::CollisionPlanning => "Collision"@,
        Layer::ClassificationPlanning => "Classification"@,
    }
}

impl Layer {
    /// Sprite → Collision → Classification → Sprite.
    pub fn next(self) -> (n: Layer)
        ensures
            n == next_layer(self),
    {
        match self {
            Layer::SpritePlanning => Layer::CollisionPlanning,
            Layer::CollisionPlanning => Layer::ClassificationPlanning,
            Layer::ClassificationPlanning => Layer::SpritePlanning,
        }
    }

    /// `"Sprite"`, `"Collision"` or `"Classification"`.
    pub fn name(self) -> (s: &'static str)
        ensures
            s@ == layer_name(self),
    {
        match self {
            Layer::SpritePlanning => "Sprite",
            Layer::CollisionPlanning => "Collision",
            Layer::ClassificationPlanning => "Classification",
        }
    }

    /// The color new shapes take on this layer: blue, red or purple.
    pub fn default_color(self) -> (c: Color)
        ensures
            c == match self {
                Layer::SpritePlanning => Color { r: 0, g: 121, b: 241, a: 255 },
                Layer::CollisionPlanning => Color { r: 230, g: 41, b: 55, a: 255 },
                Layer::ClassificationPlanning => Color { r: 200, g: 122, b: 255, a: 255 },
            },
    {
        match self {
            Layer::SpritePlanning => Color::new(0, 121, 241, 255),
            Layer::CollisionPlanning => Color::new(230, 41, 55, 255),
            Layer::ClassificationPlanning => Color::new(200, 122, 255, 255),
        }
    }
}

/// Tab visits all three layers and comes back after three presses.
pub proof fn lemma_layer_cycle(l: Layer)
    ensures
        next_layer(next_layer(next_layer(l))) == l,
        next_layer(l) != l,
        next_layer(next_layer(l)) != l,
{
}

/// The primitive the left mouse button places.
#[derive(Clone, Copy, Debug, PartialEq, Eq, Structural)]
pub enum Tool {
    Rect,
    Circle,
}

/// What a left-drag in a shape layer is doing.
#[derive(Clone, Copy, Debug, PartialEq, Eq, Structural)]
pub enum DragAction {
    /// Dragging on empty space to create a new shape.
    NewShape,
    /// Dragging a shape's body to move it.
    MoveShape(usize),
    /// Shift-dragging a shape to redraw its geometry.
    RedrawShape(usize),
}

/// The drag that starts on shape `hit` (none when the press is on empty
/// space): Shift redraws the shape, a plain drag moves it.
pub fn drag_action_for(hit: Option<usize>, resize: bool) -> (d: DragAction)
    ensures
        d == match hit {
            Some(i) => if resize { DragAction::RedrawShape(i) } else { DragAction::MoveShape(i) },
            None => DragAction::NewShape,
        },
{
    match hit {
        Some(i) => if resize {
            DragAction::RedrawShape(i)
        } else {
            DragAction::MoveShape(i)
        },
        None => DragAction::NewShape,
    }
}

/// The shapes a layer edits: sprite shapes on the sprite layer, collision
/// shapes on the collision layer, and (as the editor does) the sprite shapes
/// on the classification layer.
pub open spec fn layer_shapes(lv: Level, layer: Layer) -> Seq<Shape> {
    match layer {
        Layer::CollisionPlanning => lv.collision_shapes@,
        _ => lv.sprite_shapes@,
    }
}

/// `after` differs from `before` only in the shapes of `layer`, which are `s`.
pub open spec fn with_layer_shapes(before: Level, after: Level, layer: Layer, s: Seq<Shape>) -> bool {
    &&& layer_shapes(after, layer) == s
    &&& match layer {
        Layer::CollisionPlanning => after.sprite_shapes@ == before.sprite_shapes@,
        _ => after.collision_shapes@ == before.collision_shapes@,
    }
    &&& after.sprite_instances@ == before.sprite_instances@
    &&& after.classifications@ == before.classifications@
    &&& after.player_start == before.player_start
    &&& after.grid_size == before.grid_size
}

fn shapes_mut(lv: &mut Level, layer: Layer) -> (v: &mut Vec<Shape>)
    ensures
        (*v)@ == layer_shapes(*old(lv), layer),
        with_layer_shapes(*old(lv), *final(lv), layer, final(v)@),
{
    match layer {
        Layer::CollisionPlanning => &mut lv.collision_shapes,
        _ => &mut lv.sprite_shapes,
    }
}

/// The result of an undo.
#[derive(Clone, Copy, Debug, PartialEq, Eq, Structural)]
pub enum Undone {
    /// The last placed sprite was removed; this many remain.
    Sprite(usize),
    /// The last shape of the layer was removed; this many remain.
    Shape(usize),
    /// There was nothing to undo.
    Nothing,
}

/// Undoes the last placement: on the sprite layer the last placed sprite if
/// there is one, otherwise the last shape of the active layer. Returns what
/// was removed; `selected` is cleared when a shape was removed.
pub fn undo(lv: &mut Level, layer: Layer, selected: &mut Option<usize>) -> (u: Undone)
    ensures
        layer == Layer::SpritePlanning && old(lv).sprite_instances@.len() > 0 ==> {
            &&& u == Undone::Sprite((old(lv).sprite_instances@.len() - 1) as usize)
            &&& final(lv).sprite_instances@ == old(lv).sprite_instances@.drop_last()
            &&& final(lv).sprite_shapes@ == old(lv).sprite_shapes@
            &&& final(lv).collision_shapes@ == old(lv).collision_shapes@
            &&& *final(selected) == *old(selected)
        },
        !(layer == Layer::SpritePlanning && old(lv).sprite_instances@.len() > 0) ==> {
            if layer_shapes(*old(lv), layer).len() > 0 {
                &&& u == Undone::Shape((layer_shapes(*old(lv), layer).len() - 1) as usize)
                &&& with_layer_shapes(*old(lv), *final(lv), layer, layer_shapes(*old(lv), layer).drop_last())
                &&& *final(selected) == None::<usize>
            } else {
                &&& u == Undone::Nothing
                &&& *final(lv) == *old(lv)
                &&& *final(selected) == *old(selected)
            }
        },
        final(lv).classifications@ == old(lv).classifications@,
        final(lv).player_start == old(lv).player_start,
        final(lv).grid_size == old(lv).grid_size,
{
    if layer == Layer::SpritePlanning && lv.sprite_instances.len() > 0 {
        lv.sprite_instances.pop();
        return Undone::Sprite(lv.sprite_instances.len());
    }
    if layer_len(lv, layer) == 0 {
        return Undone::Nothing;
    }
    let shapes = shapes_mut(lv, layer);
    shapes.pop();
    let n = shapes.len();
    *selected = None;
    Undone::Shape(n)
}

/// Number of shapes on `layer`.
pub fn layer_len(lv: &Level, layer: Layer) -> (n: usize)
    ensures
        n == layer_shapes(*lv, layer).len(),
{
    match layer {
        Layer::CollisionPlanning => lv.collision_shapes.len(),
        _ => lv.sprite_shapes.len(),
    }
}

/// Clears the active layer: all classification rows on the classification
/// layer, otherwise every shape of the layer (clearing the selection).
/// Returns whether anything was removed.
pub fn clear_layer(lv: &mut Level, layer: Layer, selected: &mut Option<usize>) -> (changed: bool)
    ensures
        layer == Layer::ClassificationPlanning ==> {
            &&& changed == (old(lv).classifications@.len() > 0)
            &&& final(lv).classifications@.len() == 0
            &&& final(lv).sprite_shapes@ == old(lv).sprite_shapes@
            &&& final(lv).collision_shapes@ == old(lv).collision_shapes@
            &&& final(lv).sprite_instances@ == old(lv).sprite_instances@
            &&& *final(selected) == *old(selected)
        },
        layer != Layer::ClassificationPlanning ==> {
            &&& changed == (layer_shapes(*old(lv), layer).len() > 0)
            &&& with_layer_shapes(*old(lv), *final(lv), layer, Seq::empty())
            &&& *final(selected) == if changed { None } else { *old(selected) }
        },
        final(lv).player_start == old(lv).player_start,
        final(lv).grid_size == old(lv).grid_size,
{
    if layer == Layer::ClassificationPlanning {
        let had = lv.classifications.len() > 0;
        lv.classifications.clear();
        return had;
    }
    let shapes = shapes_mut(lv, layer);
    if shapes.len() == 0 {
        assert(shapes@ =~= Seq::<Shape>::empty());
        return false;
    }
    shapes.clear();
    *selected = None;
    true
}

/// Deletes the selected shape of the active layer, if the selection still
/// names one. The selection is cleared either way. Returns the number of
/// shapes left when one was deleted.
pub fn delete_selected(lv: &mut Level, layer: Layer, selected: &mut Option<usize>) -> (left: Option<usize>)
    ensures
        *final(selected) == None::<usize>,
        match *old(selected) {
            Some(i) => if i < layer_shapes(*old(lv), layer).len() {
                &&& left == Some((layer_shapes(*old(lv), layer).len() - 1) as usize)
                &&& with_layer_shapes(*old(lv), *final(lv), layer, layer_shapes(*old(lv), layer).remove(i as int))
            } else {
                left is None && *final(lv) == *old(lv)
            },
            None => left is None && *final(lv) == *old(lv),
        },
{
    let sel = *selected;
    *selected = None;
    match sel {
        Some(i) => {
            if i < layer_len(lv, layer) {
                let shapes = shapes_mut(lv, layer);
                shapes.remove(i);
                Some(shapes.len())
            } else {
                None
            }
        },
        None => None,
    }
}

/// Removes shape `i` of the active layer (a right-click on it) and fixes up
/// the selection: a selection of that shape is cleared, a later one shifts
/// down. Returns the number of shapes left.
pub fn remove_shape_at(lv: &mut Level, layer: Layer, i: usize, selected: &mut Option<usize>) -> (left: usize)
    requires
        i < layer_shapes(*old(lv), layer).len(),
    ensures
        left == layer_shapes(*old(lv), layer).len() - 1,
        with_layer_shapes(*old(lv), *final(lv), layer, layer_shapes(*old(lv), layer).remove(i as int)),
        *final(selected) == match *old(selected) {
            Some(s) => if s == i {
                None
            } else if s > i {
                Some((s - 1) as usize)
            } else {
                Some(s)
            },
            None => None,
        },
{
    let shapes = shapes_mut(lv, layer);
    shapes.remove(i);
    let n = shapes.len();
    *selected = selection_after_removal(*selected, i);
    n
}

/// The window title: `"juni — level editor — <path> — <layer>"`, with `" *"`
/// appended while there are unsaved changes.
pub open spec fn title_text(path: Seq<char>, layer: Layer, dirty: bool) -> Seq<char> {
    "juni — level editor — "@ + path + " — "@ + layer_name(layer) + if dirty {
        " *"@
    } else {
        Seq::empty()
    }
}

/// Builds the editor's window title.
pub fn window_title(path: &str, layer: Layer, dirty: bool) -> (s: String)
    ensures
        s@ == title_text(path@, layer, dirty),
{
    let mut s = String::new();
    push_str(&mut s, "juni — level editor — ");
    push_str(&mut s, path);
    push_str(&mut s, " — ");
    push_str(&mut s, layer.name());
    if dirty {
        push_str(&mut s, " *");
    }
    assert(s@ =~= title_text(path@, layer, dirty));
    s
}

/// What Escape does.
#[derive(Clone, Copy, Debug, PartialEq, Eq, Structural)]
pub enum EscapeAction {
    /// Abandon the tag or ID being edited.
    CancelEdit,
    /// Drop the shape selection (and any drag in progress).
    Deselect,
    /// Leave the editor.
    Quit,
}

/// Escape cancels an edit in progress first, else drops the selection, and
/// only with neither quits.
pub fn escape_action(editing: bool, has_selection: bool) -> (a: EscapeAction)
    ensures
        a == if editing {
            EscapeAction::CancelEdit
        } else if has_selection {
            EscapeAction::Deselect
        } else {
            EscapeAction::Quit
        },
{
    if editing {
        EscapeAction::CancelEdit
    } else if has_selection {
        EscapeAction::Deselect
    } else {
        EscapeAction::Quit
    }
}

/// What L does on the sprite layer.
#[derive(Clone, Copy, Debug, PartialEq, Eq, Structural)]
pub enum SheetKeyAction {
    /// Start typing the path of a sheet to load.
    EnterPath,
    /// Show or hide the loaded sheet.
    TogglePanel,
}

/// Shift+L always asks for a sheet path; L toggles the loaded sheet's panel,
/// or asks for a path when no sheet is loaded.
pub fn sheet_key_action(shift: bool, sheet_loaded: bool) -> (a: SheetKeyAction)
    ensures
        a == if shift || !sheet_loaded {
            SheetKeyAction::EnterPath
        } else {
            SheetKeyAction::TogglePanel
        },
{
    if shift || !sheet_loaded {
        SheetKeyAction::EnterPath
    } else {
        SheetKeyAction::TogglePanel
    }
}

/// The file name of a sprite cut from the sheet `base` at `(x, y)` with size
/// `w × h`: `"<base>_<x>_<y>_<w>_<h>.png"`, and for a positive `counter`
/// (the name was taken) `"<base>_<x>_<y>_<w>_<h>_<counter>.png"`.
pub open spec fn crop_name(base: Seq<char>, x: u32, y: u32, w: u32, h: u32, counter: u32) -> Seq<char> {
    base + seq!['_'] + decimal(x as nat) + seq!['_'] + decimal(y as nat) + seq!['_'] + decimal(
        w as nat,
    ) + seq!['_'] + decimal(h as nat) + if counter == 0 {
        Seq::empty()
    } else {
        seq!['_'] + decimal(counter as nat)
    } + ".png"@
}

/// Builds the file name for a sprite cropped out of a sheet; the caller tries
/// `counter = 0, 1, 2, …` until the name is free on disk.
pub fn crop_file_name(base: &str, x: u32, y: u32, w: u32, h: u32, counter: u32) -> (s: String)
    ensures
        s@ == crop_name(base@, x, y, w, h, counter),
{
    let mut s = String::new();
    push_str(&mut s, base);
    push_char(&mut s, '_');
    push_decimal(&mut s, x);
    push_char(&mut s, '_');
    push_decimal(&mut s, y);
    push_char(&mut s, '_');
    push_decimal(&mut s, w);
    push_char(&mut s, '_');
    push_decimal(&mut s, h);
    if counter > 0 {
        push_char(&mut s, '_');
        push_decimal(&mut s, counter);
    }
    push_str(&mut s, ".png");
    assert(s@ =~= crop_name(base@, x, y, w, h, counter));
    s
}

} // verus!
