//! The editor's keyboard shortcuts: which commands the keys pressed in one
//! frame trigger, in the order they run.

use vstd::prelude::*;
use crate::color::Color;
use crate::editor::{next_layer, Layer, Tool};

verus! {

/// The keys pressed this frame that have a shortcut.
#[derive(Clone, Copy, Debug)]
pub struct ShortcutKeys {
    /// S: save.
    pub save: bool,
    /// O: open a level.
    pub open: bool,
    /// H: toggle the help window.
    pub help: bool,
    /// F: reset the view.
    pub reset_view: bool,
    /// Tab: next layer.
    pub tab: bool,
    pub right: bool,
    pub down: bool,
    pub left: bool,
    pub up: bool,
    pub delete: bool,
    pub backspace: bool,
    /// R: rectangle tool.
    pub rect: bool,
    /// C: circle tool.
    pub circle: bool,
    /// 1–6: shape colors.
    pub num1: bool,
    pub num2: bool,
    pub num3: bool,
    pub num4: bool,
    pub num5: bool,
    pub num6: bool,
    /// `[` and `]`: previous and next sprite.
    pub open_bracket: bool,
    pub close_bracket: bool,
    /// `,` and `.`: halve and double the sprite scale.
    pub comma: bool,
    pub period: bool,
    /// Z: undo.
    pub undo: bool,
    /// X: clear the layer.
    pub clear: bool,
}

/// One editor action triggered by a shortcut.
#[derive(Clone, Copy, Debug, PartialEq, Eq, Structural)]
pub enum Command {
    Save,
    Open,
    ToggleHelp,
    ResetView,
    CycleLayer,
    FocusNext,
    FocusPrev,
    ClearFocusedTag,
    UseTool(Tool),
    UseColor(Color),
    /// Select the sprite at this position of the sprite list.
    SelectSprite(usize),
    HalveScale,
    DoubleScale,
    Undo,
    ClearLayer,
    DeleteSelected,
}

/// The shape colors on keys 1–6: red, orange, gold, lime, sky blue, violet.
pub open spec fn shape_palette(i: int) -> Color {
    if i == 0 {
        Color { r: 230, g: 41, b: 55, a: 255 }
    } else if i == 1 {
        Color { r: 255, g: 161, b: 0, a: 255 }
    } else if i == 2 {
        Color { r: 255, g: 203, b: 0, a: 255 }
    } else if i == 3 {
        Color { r: 0, g: 158, b: 47, a: 255 }
    } else if i == 4 {
        Color { r: 102, g: 191, b: 255, a: 255 }
    } else {
        Color { r: 135, g: 60, b: 190, a: 255 }
    }
}

/// `c` when `b` holds, nothing otherwise.
pub open spec fn when(b: bool, c: Command) -> Seq<Command> {
    if b {
        seq![c]
    } else {
        Seq::empty()
    }
}

/// The sprite after (or before) position `cur` in a list of `n`, wrapping.
pub open spec fn sprite_step(cur: usize, n: usize, forward: bool) -> usize {
    if forward {
        ((cur + 1) % (n as int)) as usize
    } else if cur == 0 {
        (n - 1) as usize
    } else {
        (cur - 1) as usize
    }
}

/// Shortcuts that work on every layer: save, open, help, view reset and Tab.
#[verifier::opaque]
pub open spec fn global_cmds(k: ShortcutKeys) -> Seq<Command> {
    when(k.save, Command::Save) + when(k.open, Command::Open) + when(k.help, Command::ToggleHelp) + when(
        k.reset_view,
        Command::ResetView,
    ) + when(k.tab, Command::CycleLayer)
}

/// Classification layer: arrows move the focus, Delete clears its tag.
#[verifier::opaque]
pub open spec fn focus_cmds(k: ShortcutKeys) -> Seq<Command> {
    when(k.right || k.down, Command::FocusNext) + when(k.left || k.up, Command::FocusPrev) + when(
        k.delete,
        Command::ClearFocusedTag,
    )
}

/// R and C pick the tool, 1–6 the shape color.
#[verifier::opaque]
pub open spec fn tool_cmds(k: ShortcutKeys) -> Seq<Command> {
    when(k.rect, Command::UseTool(Tool::Rect)) + when(k.circle, Command::UseTool(Tool::Circle)) + when(
        k.num1,
        Command::UseColor(shape_palette(0)),
    ) + when(k.num2, Command::UseColor(shape_palette(1))) + when(k.num3, Command::UseColor(shape_palette(2)))
        + when(k.num4, Command::UseColor(shape_palette(3))) + when(k.num5, Command::UseColor(shape_palette(4)))
        + when(k.num6, Command::UseColor(shape_palette(5)))
}

/// `[` and `]` step through the `n` sprites from `cur`; `,` and `.` scale.
#[verifier::opaque]
pub open spec fn sprite_cmds(k: ShortcutKeys, cur: usize, n: usize) -> Seq<Command> {
    when(k.open_bracket, Command::SelectSprite(sprite_step(cur, n, false))) + when(
        k.close_bracket,
        Command::SelectSprite(sprite_step(cur, n, true)),
    ) + when(k.comma, Command::HalveScale) + when(k.period, Command::DoubleScale)
}

/// Z undoes, X clears the layer, Delete or Backspace deletes.
#[verifier::opaque]
pub open spec fn edit_cmds(k: ShortcutKeys) -> Seq<Command> {
    when(k.undo, Command::Undo) + when(k.clear, Command::ClearLayer) + when(
        k.delete || k.backspace,
        Command::DeleteSelected,
    )
}

/// The commands the keys `k` trigger, in order, on layer `layer` with the
/// sprite at `selected` chosen out of `n_sprites`. Tab switches layer before
/// the layer-specific keys are read. In the classification layer arrows move
/// the focus and Delete clears its tag. Elsewhere R, C and 1–6 pick the tool
/// and color unless a sprite is being placed, `[`/`]` and `,`/`.` pick the
/// sprite and its scale on the sprite layer, and Z, X and Delete/Backspace
/// undo, clear and delete.
pub open spec fn shortcut_script(k: ShortcutKeys, layer: Layer, selected: Option<usize>, n_sprites: usize) -> Seq<
    Command,
> {
    let l = if k.tab {
        next_layer(layer)
    } else {
        layer
    };
    global_cmds(k) + if l == Layer::ClassificationPlanning {
        focus_cmds(k)
    } else {
        let placing = l == Layer::SpritePlanning && selected is Some;
        let cur: usize = match selected {
            Some(c) => c,
            None => 0,
        };
        (if placing {
            Seq::empty()
        } else {
            tool_cmds(k)
        }) + (if l == Layer::SpritePlanning && n_sprites > 0 {
            sprite_cmds(k, cur, n_sprites)
        } else {
            Seq::empty()
        }) + edit_cmds(k)
    }
}

fn push_if(v: &mut Vec<Command>, b: bool, c: Command)
    ensures
        final(v)@ == old(v)@ + when(b, c),
{
    if b {
        v.push(c);
    }
    assert(v@ =~= old(v)@ + when(b, c));
}

pub(crate) fn shape_palette_color(i: usize) -> (c: Color)
    ensures
        c == shape_palette(i as int),
{
    if i == 0 {
        Color::new(230, 41, 55, 255)
    } else if i == 1 {
        Color::new(255, 161, 0, 255)
    } else if i == 2 {
        Color::new(255, 203, 0, 255)
    } else if i == 3 {
        Color::new(0, 158, 47, 255)
    } else if i == 4 {
        Color::new(102, 191, 255, 255)
    } else {
        Color::new(135, 60, 190, 255)
    }
}

/// Appending in two steps is appending the two parts at once.
proof fn lemma_step(start: Seq<Command>, acc: Seq<Command>, next: Seq<Command>)
    ensures
        start + acc + next == start + (acc + next),
{
    assert(start + acc + next =~= start + (acc + next));
}

fn push_global(v: &mut Vec<Command>, k: ShortcutKeys)
    ensures
        final(v)@ == old(v)@ + global_cmds(k),
{
    push_if(v, k.save, Command::Save);
    push_if(v, k.open, Command::Open);
    push_if(v, k.help, Command::ToggleHelp);
    push_if(v, k.reset_view, Command::ResetView);
    push_if(v, k.tab, Command::CycleLayer);
    reveal(global_cmds);
    assert(v@ =~= old(v)@ + global_cmds(k));
}

fn push_focus(v: &mut Vec<Command>, k: ShortcutKeys)
    ensures
        final(v)@ == old(v)@ + focus_cmds(k),
{
    push_if(v, k.right || k.down, Command::FocusNext);
    push_if(v, k.left || k.up, Command::FocusPrev);
    push_if(v, k.delete, Command::ClearFocusedTag);
    reveal(focus_cmds);
    assert(v@ =~= old(v)@ + focus_cmds(k));
}

fn push_tools(v: &mut Vec<Command>, k: ShortcutKeys)
    ensures
        final(v)@ == old(v)@ + tool_cmds(k),
{
    let ghost start = v@;
    push_if(v, k.rect, Command::UseTool(Tool::Rect));
    let ghost acc = when(k.rect, Command::UseTool(Tool::Rect));
    push_if(v, k.circle, Command::UseTool(Tool::Circle));
    proof {
        lemma_step(start, acc, when(k.circle, Command::UseTool(Tool::Circle)));
        acc = acc + when(k.circle, Command::UseTool(Tool::Circle));
    }
    push_if(v, k.num1, Command::UseColor(shape_palette_color(0)));
    proof {
        lemma_step(start, acc, when(k.num1, Command::UseColor(shape_palette(0))));
        acc = acc + when(k.num1, Command::UseColor(shape_palette(0)));
    }
    push_if(v, k.num2, Command::UseColor(shape_palette_color(1)));
    proof {
        lemma_step(start, acc, when(k.num2, Command::UseColor(shape_palette(1))));
        acc = acc + when(k.num2, Command::UseColor(shape_palette(1)));
    }
    push_if(v, k.num3, Command::UseColor(shape_palette_color(2)));
    proof {
        lemma_step(start, acc, when(k.num3, Command::UseColor(shape_palette(2))));
        acc = acc + when(k.num3, Command::UseColor(shape_palette(2)));
    }
    push_if(v, k.num4, Command::UseColor(shape_palette_color(3)));
    proof {
        lemma_step(start, acc, when(k.num4, Command::UseColor(shape_palette(3))));
        acc = acc + when(k.num4, Command::UseColor(shape_palette(3)));
    }
    push_if(v, k.num5, Command::UseColor(shape_palette_color(4)));
    proof {
        lemma_step(start, acc, when(k.num5, Command::UseColor(shape_palette(4))));
        acc = acc + when(k.num5, Command::UseColor(shape_palette(4)));
    }
    push_if(v, k.num6, Command::UseColor(shape_palette_color(5)));
    proof {
        lemma_step(start, acc, when(k.num6, Command::UseColor(shape_palette(5))));
        acc = acc + when(k.num6, Command::UseColor(shape_palette(5)));
        reveal(tool_cmds);
        assert(acc == tool_cmds(k));
    }
}

fn push_sprites(v: &mut Vec<Command>, k: ShortcutKeys, cur: usize, n: usize)
    requires
        n > 0,
        cur < usize::MAX,
    ensures
        final(v)@ == old(v)@ + sprite_cmds(k, cur, n),
{
    let prev = if cur == 0 {
        n - 1
    } else {
        cur - 1
    };
    let next = (cur + 1) % n;
    push_if(v, k.open_bracket, Command::SelectSprite(prev));
    push_if(v, k.close_bracket, Command::SelectSprite(next));
    push_if(v, k.comma, Command::HalveScale);
    push_if(v, k.period, Command::DoubleScale);
    reveal(sprite_cmds);
    assert(v@ =~= old(v)@ + sprite_cmds(k, cur, n));
}

fn push_edits(v: &mut Vec<Command>, k: ShortcutKeys)
    ensures
        final(v)@ == old(v)@ + edit_cmds(k),
{
    push_if(v, k.undo, Command::Undo);
    push_if(v, k.clear, Command::ClearLayer);
    push_if(v, k.delete || k.backspace, Command::DeleteSelected);
    reveal(edit_cmds);
    assert(v@ =~= old(v)@ + edit_cmds(k));
}

/// The commands triggered by the keys pressed this frame.
pub fn shortcut_commands(k: ShortcutKeys, layer: Layer, selected: Option<usize>, n_sprites: usize) -> (cmds: Vec<
    Command,
>)
    requires
        selected matches Some(c) ==> c < usize::MAX,
    ensures
        cmds@ == shortcut_script(k, layer, selected, n_sprites),
{
    let l = if k.tab {
        layer.next()
    } else {
        layer
    };
    let mut v: Vec<Command> = Vec::new();
    push_global(&mut v, k);
    let ghost g = v@;
    if l == Layer::ClassificationPlanning {
        push_focus(&mut v, k);
    } else {
        let placing = l == Layer::SpritePlanning && selected.is_some();
        if !placing {
            push_tools(&mut v, k);
        }
        let ghost t = v@;
        if l == Layer::SpritePlanning && n_sprites > 0 {
            let cur: usize = match selected {
                Some(c) => c,
                None => 0,
            };
            push_sprites(&mut v, k, cur, n_sprites);
        }
        let ghost sp = v@;
        push_edits(&mut v, k);
        proof {
            let tools = t.skip(g.len() as int);
            let sprites = sp.skip(t.len() as int);
            assert(t =~= g + tools);
            assert(sp =~= t + sprites);
            lemma_step(g, tools, sprites);
            lemma_step(g, tools + sprites, edit_cmds(k));
        }
    }
    v
}

} // verus!
