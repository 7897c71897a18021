//! The editor's status-line messages after an edit.

use vstd::prelude::*;
use crate::editor::{layer_name, Layer, Undone};
use crate::text::{decimal, push_count, push_str};

verus! {

/// `"<prefix><n><suffix>"`.
pub open spec fn counted(prefix: Seq<char>, n: nat, suffix: Seq<char>) -> Seq<char> {
    prefix + decimal(n) + suffix
}

pub(crate) fn counted_message(prefix: &str, n: usize, suffix: &str) -> (s: String)
    ensures
        s@ == counted(prefix@, n as nat, suffix@),
{
    let mut s = String::new();
    push_str(&mut s, prefix);
    push_count(&mut s, n);
    push_str(&mut s, suffix);
    s
}

/// The message after an undo: `"Undid last sprite (<n> left)"`,
/// `"Undid last shape (<n> left)"`, or none when nothing was undone.
pub open spec fn undo_text(u: Undone) -> Option<Seq<char>> {
    match u {
        Undone::Sprite(n) => Some(counted("Undid last sprite ("@, n as nat, " left)"@)),
        Undone::Shape(n) => Some(counted("Undid last shape ("@, n as nat, " left)"@)),
        Undone::Nothing => None,
    }
}

/// The status message after an undo.
pub fn undo_status(u: Undone) -> (s: Option<String>)
    ensures
        match s {
            Some(t) => undo_text(u) == Some(t@),
            None => undo_text(u) is None,
        },
{
    match u {
        Undone::Sprite(n) => Some(counted_message("Undid last sprite (", n, " left)")),
        Undone::Shape(n) => Some(counted_message("Undid last shape (", n, " left)")),
        Undone::Nothing => None,
    }
}

/// The message after clearing a layer that held something:
/// `"Cleared all classifications"` or `"Cleared <layer> layer"`.
pub open spec fn clear_text(layer: Layer) -> Seq<char> {
    if layer == Layer::ClassificationPlanning {
        "Cleared all classifications"@
    } else {
        "Cleared "@ + layer_name(layer) + " layer"@
    }
}

/// The status message after clearing `layer` (only shown when it changed).
pub fn clear_status(layer: Layer) -> (s: String)
    ensures
        s@ == clear_text(layer),
{
    let mut s = String::new();
    if layer == Layer::ClassificationPlanning {
        push_str(&mut s, "Cleared all classifications");
    } else {
        push_str(&mut s, "Cleared ");
        push_str(&mut s, layer.name());
        push_str(&mut s, " layer");
    }
    s
}

/// The message after deleting the selected shape with `left` shapes left.
pub fn delete_status(left: usize) -> (s: String)
    ensures
        s@ == counted("Deleted selected shape ("@, left as nat, " left)"@),
{
    counted_message("Deleted selected shape (", left, " left)")
}

/// The message after switching layers: `"Active layer: <layer>"`.
pub fn layer_status(layer: Layer) -> (s: String)
    ensures
        s@ == "Active layer: "@ + layer_name(layer),
{
    let mut s = String::new();
    push_str(&mut s, "Active layer: ");
    push_str(&mut s, layer.name());
    s
}

/// The message after moving the classification focus to object `index` of
/// `count`: `"<id> | <tag> (<index + 1>/<count>)"`.
pub open spec fn focus_text(id: Seq<char>, tag: Seq<char>, index: nat, count: nat) -> Seq<char> {
    id + " | "@ + tag + " ("@ + decimal(index + 1) + seq!['/'] + decimal(count) + seq![')']
}

/// The status message after moving the classification focus.
pub fn focus_status(id: &str, tag: &str, index: usize, count: usize) -> (s: String)
    requires
        index < count,
    ensures
        s@ == focus_text(id@, tag@, index as nat, count as nat),
{
    let mut s = String::new();
    push_str(&mut s, id);
    push_str(&mut s, " | ");
    push_str(&mut s, tag);
    push_str(&mut s, " (");
    push_count(&mut s, index + 1);
    push_str(&mut s, "/");
    push_count(&mut s, count);
    push_str(&mut s, ")");
    proof {
        reveal_strlit("/");
        reveal_strlit(")");
    }
    assert(s@ =~= focus_text(id@, tag@, index as nat, count as nat));
    s
}

/// The message after applying a classification: `"Tagged '<id>' as '<tag>'"`.
pub fn tagged_status(id: &str, tag: &str) -> (s: String)
    ensures
        s@ == "Tagged '"@ + id@ + "' as '"@ + tag@ + "'"@,
{
    let mut s = String::new();
    push_str(&mut s, "Tagged '");
    push_str(&mut s, id);
    push_str(&mut s, "' as '");
    push_str(&mut s, tag);
    push_str(&mut s, "'");
    s
}

/// The message after clearing an object's tag: `"Cleared tag for '<id>'"`.
pub fn cleared_tag_status(id: &str) -> (s: String)
    ensures
        s@ == "Cleared tag for '"@ + id@ + "'"@,
{
    let mut s = String::new();
    push_str(&mut s, "Cleared tag for '");
    push_str(&mut s, id);
    push_str(&mut s, "'");
    s
}

} // verus!
