//! Keyboard text entry for the editor's path and tag prompts.
//!
//! Each frame the caller reports which keys went down; the characters they
//! type are appended in the fixed order of a key table (letters, digits, then
//! punctuation), lower case or upper/shifted case depending on Shift.

use vstd::prelude::*;
use crate::text::push_char;

verus! {

/// The keys that type characters.
#[derive(Clone, Copy, Debug, PartialEq, Eq, Structural)]
pub enum Key {
    A, B, C, D, E, F, G, H, I, J, K, L, M, N, O, P, Q, R, S, T, U, V, W, X, Y, Z,
    Num0, Num1, Num2, Num3, Num4, Num5, Num6, Num7, Num8, Num9,
    Space, Minus, Period, Comma, Slash, Backslash, Semicolon, Apostrophe, Equal,
    BracketLeft, BracketRight, Grave,
}

/// A row of a key table: the key, the character it types, and the character
/// it types with Shift held.
pub type KeyRow = (Key, char, char);

/// The characters typed this frame: for each table row in order whose key went
/// down, its plain or shifted character.
pub open spec fn typed(table: Seq<KeyRow>, pressed: Seq<Key>, shift: bool) -> Seq<char>
    decreases table.len(),
{
    if table.len() == 0 {
        Seq::empty()
    } else {
        let row = table.last();
        let before = typed(table.drop_last(), pressed, shift);
        if pressed.contains(row.0) {
            before.push(if shift { row.2 } else { row.1 })
        } else {
            before
        }
    }
}

fn contains_key(pressed: &[Key], k: Key) -> (b: bool)
    ensures
        b == pressed@.contains(k),
{
    let mut i: usize = 0;
    while i < pressed.len()
        invariant
            0 <= i <= pressed@.len(),
            forall|j: int| 0 <= j < i ==> pressed@[j] != k,
        decreases pressed@.len() - i,
    {
        if pressed[i] == k {
            return true;
        }
        i = i + 1;
    }
    false
}

/// The characters that the keys in `pressed` type, in the order of `table`.
pub fn collect_chars(table: &[KeyRow], pressed: &[Key], shift: bool) -> (s: String)
    ensures
        s@ == typed(table@, pressed@, shift),
{
    let mut s = String::new();
    let mut i: usize = 0;
    while i < table.len()
        invariant
            0 <= i <= table@.len(),
            s@ == typed(table@.take(i as int), pressed@, shift),
        decreases table@.len() - i,
    {
        let row = table[i];
        proof {
            assert(table@.take(i + 1).drop_last() =~= table@.take(i as int));
            assert(table@.take(i + 1).last() == row);
        }
        if contains_key(pressed, row.0) {
            push_char(&mut s, if shift { row.2 } else { row.1 });
        }
        i = i + 1;
    }
    assert(table@.take(table@.len() as int) =~= table@);
    s
}

/// The rows of [`path_table`].
pub open spec fn path_keys() -> Seq<KeyRow> {
    seq![
        (Key::A, 'a', 'A'), (Key::B, 'b', 'B'), (Key::C, 'c', 'C'), (Key::D, 'd', 'D'),
        (Key::E, 'e', 'E'), (Key::F, 'f', 'F'), (Key::G, 'g', 'G'), (Key::H, 'h', 'H'),
        (Key::I, 'i', 'I'), (Key::J, 'j', 'J'), (Key::K, 'k', 'K'), (Key::L, 'l', 'L'),
        (Key::M, 'm', 'M'), (Key::N, 'n', 'N'), (Key::O, 'o', 'O'), (Key::P, 'p', 'P'),
        (Key::Q, 'q', 'Q'), (Key::R, 'r', 'R'), (Key::S, 's', 'S'), (Key::T, 't', 'T'),
        (Key::U, 'u', 'U'), (Key::V, 'v', 'V'), (Key::W, 'w', 'W'), (Key::X, 'x', 'X'),
        (Key::Y, 'y', 'Y'), (Key::Z, 'z', 'Z'),
        (Key::Num0, '0', ')'), (Key::Num1, '1', '!'), (Key::Num2, '2', '@'), (Key::Num3, '3', '#'),
        (Key::Num4, '4', '$'), (Key::Num5, '5', '%'), (Key::Num6, '6', '^'), (Key::Num7, '7', '&'),
        (Key::Num8, '8', '*'), (Key::Num9, '9', '('),
        (Key::Space, ' ', ' '), (Key::Minus, '-', '_'), (Key::Period, '.', '>'),
        (Key::Comma, ',', '<'), (Key::Slash, '/', '?'), (Key::Backslash, '\\', '|'),
        (Key::Semicolon, ';', ':'), (Key::Apostrophe, '\'', '"'), (Key::Equal, '=', '+'),
        (Key::BracketLeft, '[', '{'), (Key::BracketRight, ']', '}'), (Key::Grave, '`', '~'),
    ]
}

/// The key table for typing a file path: letters, digits (shift gives the
/// US-layout symbols), space and path punctuation.
pub fn path_table() -> (t: [KeyRow; 48])
    ensures
        t@ == path_keys(),
{
    [
        (Key::A, 'a', 'A'), (Key::B, 'b', 'B'), (Key::C, 'c', 'C'), (Key::D, 'd', 'D'),
        (Key::E, 'e', 'E'), (Key::F, 'f', 'F'), (Key::G, 'g', 'G'), (Key::H, 'h', 'H'),
        (Key::I, 'i', 'I'), (Key::J, 'j', 'J'), (Key::K, 'k', 'K'), (Key::L, 'l', 'L'),
        (Key::M, 'm', 'M'), (Key::N, 'n', 'N'), (Key::O, 'o', 'O'), (Key::P, 'p', 'P'),
        (Key::Q, 'q', 'Q'), (Key::R, 'r', 'R'), (Key::S, 's', 'S'), (Key::T, 't', 'T'),
        (Key::U, 'u', 'U'), (Key::V, 'v', 'V'), (Key::W, 'w', 'W'), (Key::X, 'x', 'X'),
        (Key::Y, 'y', 'Y'), (Key::Z, 'z', 'Z'),
        (Key::Num0, '0', ')'), (Key::Num1, '1', '!'), (Key::Num2, '2', '@'), (Key::Num3, '3', '#'),
        (Key::Num4, '4', '$'), (Key::Num5, '5', '%'), (Key::Num6, '6', '^'), (Key::Num7, '7', '&'),
        (Key::Num8, '8', '*'), (Key::Num9, '9', '('),
        (Key::Space, ' ', ' '), (Key::Minus, '-', '_'), (Key::Period, '.', '>'),
        (Key::Comma, ',', '<'), (Key::Slash, '/', '?'), (Key::Backslash, '\\', '|'),
        (Key::Semicolon, ';', ':'), (Key::Apostrophe, '\'', '"'), (Key::Equal, '=', '+'),
        (Key::BracketLeft, '[', '{'), (Key::BracketRight, ']', '}'), (Key::Grave, '`', '~'),
    ]
}

/// The rows of [`name_table`].
pub open spec fn name_keys() -> Seq<KeyRow> {
    seq![
        (Key::A, 'a', 'A'), (Key::B, 'b', 'B'), (Key::C, 'c', 'C'), (Key::D, 'd', 'D'),
        (Key::E, 'e', 'E'), (Key::F, 'f', 'F'), (Key::G, 'g', 'G'), (Key::H, 'h', 'H'),
        (Key::I, 'i', 'I'), (Key::J, 'j', 'J'), (Key::K, 'k', 'K'), (Key::L, 'l', 'L'),
        (Key::M, 'm', 'M'), (Key::N, 'n', 'N'), (Key::O, 'o', 'O'), (Key::P, 'p', 'P'),
        (Key::Q, 'q', 'Q'), (Key::R, 'r', 'R'), (Key::S, 's', 'S'), (Key::T, 't', 'T'),
        (Key::U, 'u', 'U'), (Key::V, 'v', 'V'), (Key::W, 'w', 'W'), (Key::X, 'x', 'X'),
        (Key::Y, 'y', 'Y'), (Key::Z, 'z', 'Z'),
        (Key::Num0, '0', '0'), (Key::Num1, '1', '1'), (Key::Num2, '2', '2'), (Key::Num3, '3', '3'),
        (Key::Num4, '4', '4'), (Key::Num5, '5', '5'), (Key::Num6, '6', '6'), (Key::Num7, '7', '7'),
        (Key::Num8, '8', '8'), (Key::Num9, '9', '9'),
        (Key::Space, ' ', ' '), (Key::Comma, ',', '<'), (Key::Period, '.', '>'),
    ]
}

/// The key table for typing a tag or an ID: letters (shift gives upper case),
/// digits, space, comma and period.
pub fn name_table() -> (t: [KeyRow; 39])
    ensures
        t@ == name_keys(),
{
    [
        (Key::A, 'a', 'A'), (Key::B, 'b', 'B'), (Key::C, 'c', 'C'), (Key::D, 'd', 'D'),
        (Key::E, 'e', 'E'), (Key::F, 'f', 'F'), (Key::G, 'g', 'G'), (Key::H, 'h', 'H'),
        (Key::I, 'i', 'I'), (Key::J, 'j', 'J'), (Key::K, 'k', 'K'), (Key::L, 'l', 'L'),
        (Key::M, 'm', 'M'), (Key::N, 'n', 'N'), (Key::O, 'o', 'O'), (Key::P, 'p', 'P'),
        (Key::Q, 'q', 'Q'), (Key::R, 'r', 'R'), (Key::S, 's', 'S'), (Key::T, 't', 'T'),
        (Key::U, 'u', 'U'), (Key::V, 'v', 'V'), (Key::W, 'w', 'W'), (Key::X, 'x', 'X'),
        (Key::Y, 'y', 'Y'), (Key::Z, 'z', 'Z'),
        (Key::Num0, '0', '0'), (Key::Num1, '1', '1'), (Key::Num2, '2', '2'), (Key::Num3, '3', '3'),
        (Key::Num4, '4', '4'), (Key::Num5, '5', '5'), (Key::Num6, '6', '6'), (Key::Num7, '7', '7'),
        (Key::Num8, '8', '8'), (Key::Num9, '9', '9'),
        (Key::Space, ' ', ' '), (Key::Comma, ',', '<'), (Key::Period, '.', '>'),
    ]
}

/// Characters for a file path typed this frame, in key-table order.
pub fn collect_path_chars(pressed: &[Key], shift: bool) -> (s: String)
    ensures
        s@ == typed(path_keys(), pressed@, shift),
{
    let t = path_table();
    collect_chars(t.as_slice(), pressed, shift)
}

/// Characters for a tag or ID typed this frame, in key-table order.
pub fn collect_typed_chars(pressed: &[Key], shift: bool) -> (s: String)
    ensures
        s@ == typed(name_keys(), pressed@, shift),
{
    let t = name_table();
    collect_chars(t.as_slice(), pressed, shift)
}

} // verus!
