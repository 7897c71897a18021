//! The classification layer of the editor: tagging objects by ID.
//!
//! Objects (placed sprites and collision shapes) are addressed by position
//! through an [`ObjectRef`], and labelled through the level's classification
//! rows, which map an object ID to a tag. An object without a row reads as
//! `"static"`. Each tag gets a display color from the tag palette, handed out
//! in the order tags first appear, with `"static"` always first.

use vstd::prelude::*;
use crate::color::{Color, tag_palette, tag_palette_color, TAG_PALETTE_LEN};
use crate::level::{Level, Shape, SpriteInstance, ClassificationEntry, shape_id, with_id, tag_of, rows_view, entry_view, first_row, lemma_tag_of_first, lemma_first_row_exists};
use crate::text::{push_char, push_str, str_eq, trim, trimmed};

verus! {

/// Identifies one classifiable object by its position in the level:
/// an index into `Level::sprite_instances` or into `Level::collision_shapes`.
#[derive(Clone, Copy, Debug, PartialEq, Eq, Structural)]
pub enum ObjectRef {
    Sprite(usize),
    CollisionShape(usize),
}

/// What a classification edit is changing.
#[derive(Clone, Copy, Debug, PartialEq, Eq, Structural)]
pub enum EditMode {
    Tag,
    ObjectId,
}

/// The tag an unclassified object reads as.
pub open spec fn static_tag() -> Seq<char> {
    seq!['s', 't', 'a', 't', 'i', 'c']
}

/// `obj` names an object that exists in `lv`.
pub open spec fn valid_ref(lv: Level, obj: ObjectRef) -> bool {
    match obj {
        ObjectRef::Sprite(i) => i < lv.sprite_instances@.len(),
        ObjectRef::CollisionShape(i) => i < lv.collision_shapes@.len(),
    }
}

/// The ID of the object `obj` names.
pub open spec fn ref_id(lv: Level, obj: ObjectRef) -> Seq<char> {
    match obj {
        ObjectRef::Sprite(i) => lv.sprite_instances@[i as int].id@,
        ObjectRef::CollisionShape(i) => shape_id(lv.collision_shapes@[i as int]),
    }
}

/// The tag shown for ID `id`: its classification tag, or `"static"`.
pub open spec fn shown_tag(lv: Level, id: Seq<char>) -> Seq<char> {
    match tag_of(rows_view(lv.classifications@), id) {
        Some(t) => t,
        None => static_tag(),
    }
}

/// The classifiable objects in display order: every sprite, then every
/// collision shape, each in list order.
pub open spec fn object_order(lv: Level) -> Seq<ObjectRef> {
    Seq::new(
        (lv.sprite_instances@.len() + lv.collision_shapes@.len()) as nat,
        |k: int|
            if k < lv.sprite_instances@.len() {
                ObjectRef::Sprite(k as usize)
            } else {
                ObjectRef::CollisionShape((k - lv.sprite_instances@.len()) as usize)
            },
    )
}

/// All classifiable objects in display order (sprites first, then shapes).
pub fn ordered_objects(lv: &Level) -> (refs: Vec<ObjectRef>)
    requires
        lv.sprite_instances@.len() + lv.collision_shapes@.len() <= usize::MAX,
    ensures
        refs@ == object_order(*lv),
{
    let mut refs: Vec<ObjectRef> = Vec::new();
    let ns = lv.sprite_instances.len();
    let nc = lv.collision_shapes.len();
    let mut i: usize = 0;
    while i < ns
        invariant
            ns == lv.sprite_instances@.len(),
            0 <= i <= ns,
            refs@.len() == i,
            forall|k: int| 0 <= k < i ==> refs@[k] == ObjectRef::Sprite(k as usize),
        decreases ns - i,
    {
        refs.push(ObjectRef::Sprite(i));
        i = i + 1;
    }
    let mut j: usize = 0;
    while j < nc
        invariant
            ns == lv.sprite_instances@.len(),
            nc == lv.collision_shapes@.len(),
            ns + nc <= usize::MAX,
            0 <= j <= nc,
            refs@.len() == ns + j,
            forall|k: int| 0 <= k < ns ==> refs@[k] == ObjectRef::Sprite(k as usize),
            forall|k: int| ns <= k < ns + j ==> refs@[k] == ObjectRef::CollisionShape((k - ns) as usize),
        decreases nc - j,
    {
        refs.push(ObjectRef::CollisionShape(j));
        j = j + 1;
    }
    assert(refs@ =~= object_order(*lv));
    refs
}

/// The string ID of the object `obj` names.
pub fn object_id<'a>(lv: &'a Level, obj: ObjectRef) -> (r: &'a str)
    requires
        valid_ref(*lv, obj),
    ensures
        r@ == ref_id(*lv, obj),
{
    match obj {
        ObjectRef::Sprite(i) => lv.sprite_instances[i].id.as_str(),
        ObjectRef::CollisionShape(i) => lv.collision_shapes[i].id(),
    }
}

/// Overwrites the string ID of the object `obj` names; nothing else changes.
pub fn object_set_id(lv: &mut Level, obj: ObjectRef, new_id: String)
    requires
        valid_ref(*old(lv), obj),
    ensures
        match obj {
            ObjectRef::Sprite(i) => {
                &&& final(lv).sprite_instances@ == old(lv).sprite_instances@.update(
                    i as int,
                    SpriteInstance { id: new_id, ..old(lv).sprite_instances@[i as int] },
                )
                &&& final(lv).collision_shapes@ == old(lv).collision_shapes@
            },
            ObjectRef::CollisionShape(i) => {
                &&& final(lv).collision_shapes@ == old(lv).collision_shapes@.update(
                    i as int,
                    with_id(old(lv).collision_shapes@[i as int], new_id),
                )
                &&& final(lv).sprite_instances@ == old(lv).sprite_instances@
            },
        },
        final(lv).sprite_shapes@ == old(lv).sprite_shapes@,
        final(lv).classifications@ == old(lv).classifications@,
        final(lv).player_start == old(lv).player_start,
        final(lv).grid_size == old(lv).grid_size,
{
    match obj {
        ObjectRef::Sprite(i) => {
            lv.sprite_instances[i].id = new_id;
        },
        ObjectRef::CollisionShape(i) => {
            lv.collision_shapes[i].set_id(new_id);
        },
    }
}

/// The tag shown for the object `obj` names (its classification, or `"static"`).
pub fn object_tag<'a>(lv: &'a Level, obj: ObjectRef) -> (r: &'a str)
    requires
        valid_ref(*lv, obj),
    ensures
        r@ == shown_tag(*lv, ref_id(*lv, obj)),
{
    match lv.get_tag(object_id(lv, obj)) {
        Some(t) => t,
        None => {
            proof {
                reveal_strlit("static");
            }
            "static"
        },
    }
}

/// Removes every classification row for `id`; other rows keep their order.
pub fn clear_tag(lv: &mut Level, id: &str)
    ensures
        rows_view(final(lv).classifications@) == rows_view(old(lv).classifications@).filter(
            |r: (Seq<char>, Seq<char>)| r.0 != id@,
        ),
        tag_of(rows_view(final(lv).classifications@), id@) == None::<Seq<char>>,
        final(lv).sprite_shapes@ == old(lv).sprite_shapes@,
        final(lv).collision_shapes@ == old(lv).collision_shapes@,
        final(lv).sprite_instances@ == old(lv).sprite_instances@,
        final(lv).player_start == old(lv).player_start,
        final(lv).grid_size == old(lv).grid_size,
{
    let ghost before = rows_view(lv.classifications@);
    let ghost pred = |r: (Seq<char>, Seq<char>)| r.0 != id@;
    let old_rows = &lv.classifications;
    let mut kept: Vec<ClassificationEntry> = Vec::new();
    let mut i: usize = 0;
    while i < old_rows.len()
        invariant
            before == rows_view(old_rows@),
            pred == (|r: (Seq<char>, Seq<char>)| r.0 != id@),
            0 <= i <= old_rows@.len(),
            rows_view(kept@) == before.take(i as int).filter(pred),
        decreases old_rows@.len() - i,
    {
        let e = &old_rows[i];
        let ghost prev = kept@;
        proof {
            let t = before.take(i + 1);
            assert(t.drop_last() =~= before.take(i as int));
            assert(t.last() == before[i as int]);
            assert(before[i as int] == entry_view(old_rows@[i as int]));
            reveal_with_fuel(Seq::<_>::filter, 1);
            assert(t.filter(pred) == if pred(t.last()) {
                t.drop_last().filter(pred).push(t.last())
            } else {
                t.drop_last().filter(pred)
            });
        }
        if !str_eq(e.object_id.as_str(), id) {
            kept.push(e.duplicate());
            assert(rows_view(kept@) =~= rows_view(prev).push(entry_view(*e)));
            assert(pred(before[i as int]));
            assert(before.take(i + 1).drop_last().filter(pred) == before.take(i as int).filter(pred));
            assert(rows_view(kept@) == before.take(i + 1).filter(pred));
        } else {
            assert(!pred(before[i as int]));
            assert(rows_view(kept@) == before.take(i + 1).filter(pred));
        }
        i = i + 1;
    }
    proof {
        assert(before.take(old_rows@.len() as int) =~= before);
        let out = before.filter(pred);
        assert forall|k: int| 0 <= k < out.len() implies #[trigger] out[k].0 != id@ by {
            before.lemma_filter_pred(pred, k);
        }
        if exists|k: int| 0 <= k < out.len() && #[trigger] out[k].0 == id@ {
            let k = choose|k: int| 0 <= k < out.len() && #[trigger] out[k].0 == id@;
            assert(out[k].0 != id@);
        }
    }
    lv.classifications = kept;
}


/// The rows after giving `id` the tag `tag`: the first row for `id` is
/// rewritten, or a row is appended when there is none.
pub open spec fn upsert_row(
    rows: Seq<(Seq<char>, Seq<char>)>,
    id: Seq<char>,
    tag: Seq<char>,
) -> Seq<(Seq<char>, Seq<char>)> {
    if exists|i: int| first_row(rows, id, i) {
        let i = choose|i: int| first_row(rows, id, i);
        rows.update(i, (id, tag))
    } else {
        rows.push((id, tag))
    }
}

/// The rows after re-pointing every row for `old_id` at `new_id`.
pub open spec fn rename_rows(
    rows: Seq<(Seq<char>, Seq<char>)>,
    old_id: Seq<char>,
    new_id: Seq<char>,
) -> Seq<(Seq<char>, Seq<char>)> {
    rows.map_values(
        |r: (Seq<char>, Seq<char>)|
            if r.0 == old_id {
                (new_id, r.1)
            } else {
                r
            },
    )
}

proof fn lemma_no_row(rows: Seq<(Seq<char>, Seq<char>)>, id: Seq<char>)
    requires
        forall|j: int| 0 <= j < rows.len() ==> #[trigger] rows[j].0 != id,
    ensures
        tag_of(rows, id) == None::<Seq<char>>,
{
    if exists|i: int| 0 <= i < rows.len() && #[trigger] rows[i].0 == id {
        let i = choose|i: int| 0 <= i < rows.len() && #[trigger] rows[i].0 == id;
        assert(rows[i].0 != id);
    }
}

/// Rows that agree everywhere but at position `k`, where neither is for
/// `id`, give `id` the same tag.
proof fn lemma_tag_of_off_position(
    s: Seq<(Seq<char>, Seq<char>)>,
    t: Seq<(Seq<char>, Seq<char>)>,
    k: int,
    id: Seq<char>,
)
    requires
        s.len() <= t.len() <= s.len() + 1,
        0 <= k < t.len(),
        forall|j: int| 0 <= j < t.len() && j != k ==> j < s.len() && s[j] == t[j],
        k < s.len() ==> s[k].0 != id,
        t[k].0 != id,
    ensures
        tag_of(t, id) == tag_of(s, id),
{
    if exists|i: int| first_row(s, id, i) {
        let i = choose|i: int| first_row(s, id, i);
        assert(i != k);
        assert forall|j: int| 0 <= j < i implies t[j].0 != id by {
            if j != k {
                assert(s[j] == t[j]);
            }
        }
        assert(first_row(t, id, i));
        lemma_tag_of_first(s, id, i);
        lemma_tag_of_first(t, id, i);
    } else {
        assert forall|j: int| 0 <= j < s.len() implies #[trigger] s[j].0 != id by {
            if s[j].0 == id {
                lemma_first_row_exists(s, id, j);
            }
        }
        assert forall|j: int| 0 <= j < t.len() implies #[trigger] t[j].0 != id by {
            if j != k {
                assert(s[j] == t[j]);
            }
        }
        lemma_no_row(s, id);
        lemma_no_row(t, id);
    }
}

/// Reading a tag back right after it was set gives that tag; the tags of
/// every other ID are untouched.
pub proof fn lemma_upsert_then_read(
    rows: Seq<(Seq<char>, Seq<char>)>,
    id: Seq<char>,
    tag: Seq<char>,
    other: Seq<char>,
)
    ensures
        tag_of(upsert_row(rows, id, tag), id) == Some(tag),
        other != id ==> tag_of(upsert_row(rows, id, tag), other) == tag_of(rows, other),
{
    let out = upsert_row(rows, id, tag);
    if exists|i: int| first_row(rows, id, i) {
        let i = choose|i: int| first_row(rows, id, i);
        assert(out == rows.update(i, (id, tag)));
        assert(first_row(out, id, i));
        lemma_tag_of_first(out, id, i);
        if other != id {
            lemma_tag_of_off_position(rows, out, i, other);
        }
    } else {
        assert(out == rows.push((id, tag)));
        assert forall|j: int| 0 <= j < rows.len() implies out[j].0 != id by {
            if rows[j].0 == id {
                lemma_first_row_exists(rows, id, j);
            }
        }
        assert(first_row(out, id, rows.len() as int));
        lemma_tag_of_first(out, id, rows.len() as int);
        if other != id {
            lemma_tag_of_off_position(rows, out, rows.len() as int, other);
        }
    }
}

/// After `clear_tag(id)`, `id` has no tag and every other ID keeps its tag.
pub proof fn lemma_clear_then_read(rows: Seq<(Seq<char>, Seq<char>)>, id: Seq<char>, other: Seq<char>)
    ensures
        tag_of(rows.filter(|r: (Seq<char>, Seq<char>)| r.0 != id), id) == None::<Seq<char>>,
        other != id ==> tag_of(rows.filter(|r: (Seq<char>, Seq<char>)| r.0 != id), other) == tag_of(
            rows,
            other,
        ),
    decreases rows.len(),
{
    let pred = |r: (Seq<char>, Seq<char>)| r.0 != id;
    let out = rows.filter(pred);
    assert forall|k: int| 0 <= k < out.len() implies #[trigger] out[k].0 != id by {
        rows.lemma_filter_pred(pred, k);
    }
    lemma_no_row(out, id);
    if other != id && rows.len() > 0 {
        let init = rows.drop_last();
        lemma_clear_then_read(init, id, other);
        reveal_with_fuel(Seq::<_>::filter, 1);
        assert(rows.drop_last() == init);
        let last = rows.last();
        if pred(last) {
            assert(out == init.filter(pred).push(last));
        } else {
            assert(out == init.filter(pred));
        }
        lemma_tag_of_append(init, last, other);
        lemma_tag_of_append(init.filter(pred), last, other);
        assert(rows =~= init.push(last));
    }
}

/// Appending a row changes the tag of `id` only when `id` had none before.
proof fn lemma_tag_of_append(
    s: Seq<(Seq<char>, Seq<char>)>,
    r: (Seq<char>, Seq<char>),
    id: Seq<char>,
)
    ensures
        tag_of(s.push(r), id) == if tag_of(s, id) is Some || r.0 != id {
            tag_of(s, id)
        } else {
            Some(r.1)
        },
{
    let t = s.push(r);
    if exists|i: int| first_row(s, id, i) {
        let i = choose|i: int| first_row(s, id, i);
        assert(first_row(t, id, i));
        lemma_tag_of_first(s, id, i);
        lemma_tag_of_first(t, id, i);
    } else {
        assert forall|j: int| 0 <= j < s.len() implies #[trigger] s[j].0 != id by {
            if s[j].0 == id {
                lemma_first_row_exists(s, id, j);
            }
        }
        lemma_no_row(s, id);
        if r.0 == id {
            assert(first_row(t, id, s.len() as int));
            lemma_tag_of_first(t, id, s.len() as int);
        } else {
            assert forall|j: int| 0 <= j < t.len() implies #[trigger] t[j].0 != id by {
                if j < s.len() {
                    assert(t[j] == s[j]);
                }
            }
            lemma_no_row(t, id);
        }
    }
}

/// Gives the objects with ID `id` the tag `tag`: the first row for `id` is
/// rewritten, or a new row is appended.
pub fn set_tag(lv: &mut Level, id: &str, tag: &str)
    ensures
        rows_view(final(lv).classifications@) == upsert_row(rows_view(old(lv).classifications@), id@, tag@),
        tag_of(rows_view(final(lv).classifications@), id@) == Some(tag@),
        final(lv).sprite_shapes@ == old(lv).sprite_shapes@,
        final(lv).collision_shapes@ == old(lv).collision_shapes@,
        final(lv).sprite_instances@ == old(lv).sprite_instances@,
        final(lv).player_start == old(lv).player_start,
        final(lv).grid_size == old(lv).grid_size,
{
    let ghost rows = rows_view(lv.classifications@);
    let mut i: usize = 0;
    while i < lv.classifications.len()
        invariant
            rows == rows_view(lv.classifications@),
            rows == rows_view(old(lv).classifications@),
            lv.sprite_shapes@ == old(lv).sprite_shapes@,
            lv.collision_shapes@ == old(lv).collision_shapes@,
            lv.sprite_instances@ == old(lv).sprite_instances@,
            lv.player_start == old(lv).player_start,
            lv.grid_size == old(lv).grid_size,
            0 <= i <= lv.classifications@.len(),
            forall|j: int| 0 <= j < i ==> rows[j].0 != id@,
        decreases lv.classifications@.len() - i,
    {
        proof {
            assert(rows[i as int] == entry_view(lv.classifications@[i as int]));
        }
        if str_eq(lv.classifications[i].object_id.as_str(), id) {
            proof {
                assert(first_row(rows, id@, i as int));
                assert forall|k: int| first_row(rows, id@, k) implies k == i by {
                    if k < i {
                        assert(rows[k].0 != id@);
                    }
                    if i < k {
                        assert(rows[i as int].0 != id@);
                    }
                }
            }
            lv.classifications[i].tag = tag.to_owned();
            proof {
                assert(rows_view(lv.classifications@) =~= rows.update(i as int, (id@, tag@)));
                let k = choose|k: int| first_row(rows, id@, k);
                assert(k == i);
                lemma_upsert_then_read(rows, id@, tag@, id@);
            }
            return;
        }
        i = i + 1;
    }
    proof {
        assert forall|k: int| !first_row(rows, id@, k) by {
            if first_row(rows, id@, k) {
                assert(rows[k].0 != id@);
            }
        }
    }
    lv.classifications.push(ClassificationEntry { object_id: id.to_owned(), tag: tag.to_owned() });
    proof {
        assert(rows_view(lv.classifications@) =~= rows.push((id@, tag@)));
        lemma_upsert_then_read(rows, id@, tag@, id@);
    }
}

/// Re-points every classification row for `old_id` at `new_id`.
pub fn rename_tag_rows(lv: &mut Level, old_id: &str, new_id: &str)
    ensures
        rows_view(final(lv).classifications@) == rename_rows(
            rows_view(old(lv).classifications@),
            old_id@,
            new_id@,
        ),
        final(lv).sprite_shapes@ == old(lv).sprite_shapes@,
        final(lv).collision_shapes@ == old(lv).collision_shapes@,
        final(lv).sprite_instances@ == old(lv).sprite_instances@,
        final(lv).player_start == old(lv).player_start,
        final(lv).grid_size == old(lv).grid_size,
{
    let ghost rows = rows_view(lv.classifications@);
    let ghost target = rename_rows(rows, old_id@, new_id@);
    let mut i: usize = 0;
    while i < lv.classifications.len()
        invariant
            target == rename_rows(rows, old_id@, new_id@),
            lv.sprite_shapes@ == old(lv).sprite_shapes@,
            lv.collision_shapes@ == old(lv).collision_shapes@,
            lv.sprite_instances@ == old(lv).sprite_instances@,
            lv.player_start == old(lv).player_start,
            lv.grid_size == old(lv).grid_size,

            lv.classifications@.len() == rows.len(),
            0 <= i <= lv.classifications@.len(),
            forall|j: int| 0 <= j < i ==> #[trigger] entry_view(lv.classifications@[j]) == target[j],
            forall|j: int| i <= j < rows.len() ==> #[trigger] entry_view(lv.classifications@[j]) == rows[j],
        decreases lv.classifications@.len() - i,
    {
        proof {
            assert(entry_view(lv.classifications@[i as int]) == rows[i as int]);
        }
        if str_eq(lv.classifications[i].object_id.as_str(), old_id) {
            lv.classifications[i].object_id = new_id.to_owned();
        }
        i = i + 1;
    }
    proof {
        assert(rows_view(lv.classifications@) =~= target);
    }
}

/// The tag-color table after meeting tag `t`: unchanged if `t` already has a
/// color, otherwise `t` takes the palette slot given by the table's size.
pub open spec fn add_tag(m: Seq<(Seq<char>, Color)>, t: Seq<char>) -> Seq<(Seq<char>, Color)> {
    if exists|i: int| 0 <= i < m.len() && #[trigger] m[i].0 == t {
        m
    } else {
        m.push((t, tag_palette((m.len() as int) % (TAG_PALETTE_LEN as int))))
    }
}

/// The tag-color table after meeting each tag of `tags` in order.
pub open spec fn add_tags(m: Seq<(Seq<char>, Color)>, tags: Seq<Seq<char>>) -> Seq<(Seq<char>, Color)>
    decreases tags.len(),
{
    if tags.len() == 0 {
        m
    } else {
        add_tag(add_tags(m, tags.drop_last()), tags.last())
    }
}

/// The color table for a level's rows: `"static"` first, then each tag in
/// the order its first row appears.
pub open spec fn initial_tag_colors(rows: Seq<(Seq<char>, Seq<char>)>) -> Seq<(Seq<char>, Color)> {
    add_tags(seq![(static_tag(), tag_palette(0))], rows.map_values(|r: (Seq<char>, Seq<char>)| r.1))
}

/// No tag appears twice in the table.
pub open spec fn distinct_tags(m: Seq<(Seq<char>, Color)>) -> bool {
    forall|i: int, j: int| 0 <= i < j < m.len() ==> #[trigger] m[i].0 != #[trigger] m[j].0
}

/// Tag → display color, assigned in the order tags first appear.
#[derive(Clone, Debug)]
pub struct TagColors {
    entries: Vec<(String, Color)>,
}

impl View for TagColors {
    type V = Seq<(Seq<char>, Color)>;

    closed spec fn view(&self) -> Seq<(Seq<char>, Color)> {
        self.entries@.map_values(|e: (String, Color)| (e.0@, e.1))
    }
}

impl TagColors {
    /// Tags and colors are distinct keys of the table.
    pub open spec fn wf(&self) -> bool {
        distinct_tags(self@)
    }

    /// The table lives in memory, so it has at most `usize::MAX` entries.
    pub proof fn lemma_len_fits(&self)
        ensures
            self@.len() <= usize::MAX,
    {
        assert(self.entries.len() == self.entries@.len());
    }

    /// Number of tags with a color.
    pub fn len(&self) -> (n: usize)
        ensures
            n == self@.len(),
    {
        self.entries.len()
    }

    /// The color of `tag`, if it has one.
    pub fn get(&self, tag: &str) -> (r: Option<Color>)
        ensures
            r is Some <==> (exists|i: int| 0 <= i < self@.len() && #[trigger] self@[i].0 == tag@),
            forall|i: int| 0 <= i < self@.len() && #[trigger] self@[i].0 == tag@ && self.wf() ==> r == Some(self@[i].1),
    {
        let mut i: usize = 0;
        while i < self.entries.len()
            invariant
                0 <= i <= self.entries@.len(),
                forall|j: int| 0 <= j < i ==> #[trigger] self@[j].0 != tag@,
            decreases self.entries@.len() - i,
        {
            proof {
                assert(self@[i as int] == (self.entries@[i as int].0@, self.entries@[i as int].1));
            }
            if str_eq(self.entries[i].0.as_str(), tag) {
                proof {
                    assert(self@[i as int].0 == tag@);
                    assert forall|k: int| 0 <= k < self@.len() && #[trigger] self@[k].0 == tag@ && self.wf() implies k == i by {
                        if k < i {
                            assert(self@[k].0 != tag@);
                        } else if k > i {
                            assert(self@[i as int].0 != self@[k].0);
                        }
                    }
                }
                return Some(self.entries[i].1);
            }
            i = i + 1;
        }
        None
    }

    /// `true` when `tag` has a color.
    pub fn contains(&self, tag: &str) -> (b: bool)
        ensures
            b <==> (exists|i: int| 0 <= i < self@.len() && #[trigger] self@[i].0 == tag@),
    {
        self.get(tag).is_some()
    }

    /// Gives `tag` the next palette color if it has none yet.
    pub fn add(&mut self, tag: &str)
        requires
            old(self).wf(),
        ensures
            final(self).wf(),
            final(self)@ == add_tag(old(self)@, tag@),
    {
        if !self.contains(tag) {
            let idx = self.entries.len() % TAG_PALETTE_LEN;
            let c = tag_palette_color(idx);
            let ghost before = self@;
            self.entries.push((tag.to_owned(), c));
            proof {
                assert(self@ =~= before.push((tag@, c)));
            }
        }
    }

    /// The tags, in the order they were given colors.
    pub fn tags(&self) -> (v: Vec<String>)
        ensures
            v@.len() == self@.len(),
            forall|i: int| 0 <= i < v@.len() ==> #[trigger] v@[i]@ == self@[i].0,
    {
        let mut v: Vec<String> = Vec::new();
        let mut i: usize = 0;
        while i < self.entries.len()
            invariant
                0 <= i <= self.entries@.len(),
                v@.len() == i,
                forall|k: int| 0 <= k < i ==> #[trigger] v@[k]@ == self@[k].0,
            decreases self.entries@.len() - i,
        {
            proof {
                assert(self@[i as int] == (self.entries@[i as int].0@, self.entries@[i as int].1));
            }
            v.push(self.entries[i].0.clone());
            i = i + 1;
        }
        v
    }
}

/// Builds the tag-color table of a level: `"static"` takes the first palette
/// color, then every tag takes the next color in the order its first row
/// appears, wrapping around the palette.
pub fn build_tag_colors(lv: &Level) -> (m: TagColors)
    ensures
        m.wf(),
        m@ == initial_tag_colors(rows_view(lv.classifications@)),
{
    let ghost rows = rows_view(lv.classifications@);
    let ghost tags = rows.map_values(|r: (Seq<char>, Seq<char>)| r.1);
    let mut m = TagColors { entries: Vec::new() };
    proof {
        reveal_strlit("static");
        assert("static"@ =~= static_tag());
    }
    m.entries.push(("static".to_owned(), tag_palette_color(0)));
    let ghost base = seq![(static_tag(), tag_palette(0))];
    assert(m@ =~= base);
    let mut i: usize = 0;
    while i < lv.classifications.len()
        invariant
            rows == rows_view(lv.classifications@),
            tags == rows.map_values(|r: (Seq<char>, Seq<char>)| r.1),
            base == seq![(static_tag(), tag_palette(0))],
            0 <= i <= lv.classifications@.len(),
            m.wf(),
            m@ == add_tags(base, tags.take(i as int)),
        decreases lv.classifications@.len() - i,
    {
        proof {
            assert(tags.take(i + 1).drop_last() =~= tags.take(i as int));
            assert(tags.take(i + 1).last() == lv.classifications@[i as int].tag@);
        }
        m.add(lv.classifications[i].tag.as_str());
        i = i + 1;
    }
    assert(tags.take(lv.classifications@.len() as int) =~= tags);
    m
}

/// `"static"` always holds the first palette color, and every tag used by a
/// row of the level has a color.
pub proof fn lemma_tag_colors_cover(rows: Seq<(Seq<char>, Seq<char>)>, k: int)
    requires
        0 <= k < rows.len(),
    ensures
        initial_tag_colors(rows)[0] == (static_tag(), tag_palette(0)),
        exists|i: int|
            0 <= i < initial_tag_colors(rows).len() && #[trigger] initial_tag_colors(rows)[i].0
                == rows[k].1,
{
    let tags = rows.map_values(|r: (Seq<char>, Seq<char>)| r.1);
    let base = seq![(static_tag(), tag_palette(0))];
    lemma_add_tags_keeps(base, tags, k);
    lemma_add_tags_prefix(base, tags);
}

proof fn lemma_add_tags_prefix(m: Seq<(Seq<char>, Color)>, tags: Seq<Seq<char>>)
    requires
        m.len() > 0,
    ensures
        add_tags(m, tags).len() >= m.len(),
        forall|i: int| 0 <= i < m.len() ==> #[trigger] add_tags(m, tags)[i] == m[i],
    decreases tags.len(),
{
    if tags.len() > 0 {
        lemma_add_tags_prefix(m, tags.drop_last());
    }
}

proof fn lemma_add_tags_keeps(m: Seq<(Seq<char>, Color)>, tags: Seq<Seq<char>>, k: int)
    requires
        0 <= k < tags.len(),
    ensures
        exists|i: int| 0 <= i < add_tags(m, tags).len() && #[trigger] add_tags(m, tags)[i].0 == tags[k],
    decreases tags.len(),
{
    let prev = add_tags(m, tags.drop_last());
    if k == tags.len() - 1 {
        if exists|i: int| 0 <= i < prev.len() && #[trigger] prev[i].0 == tags.last() {
        } else {
            assert(add_tags(m, tags)[prev.len() as int].0 == tags[k]);
        }
    } else {
        lemma_add_tags_keeps(m, tags.drop_last(), k);
        let i = choose|i: int| 0 <= i < prev.len() && #[trigger] prev[i].0 == tags.drop_last()[k];
        assert(add_tags(m, tags)[i] == prev[i]);
    }
}


/// The sprites and collision shapes of `lv` with the object `obj` given the
/// ID `id`.
pub open spec fn objects_with_id(lv: Level, obj: ObjectRef, id: String) -> (Seq<SpriteInstance>, Seq<Shape>) {
    match obj {
        ObjectRef::Sprite(i) => (
            lv.sprite_instances@.update(i as int, SpriteInstance { id, ..lv.sprite_instances@[i as int] }),
            lv.collision_shapes@,
        ),
        ObjectRef::CollisionShape(i) => (
            lv.sprite_instances@,
            lv.collision_shapes@.update(i as int, with_id(lv.collision_shapes@[i as int], id)),
        ),
    }
}

/// The tag an edit buffer confirms: its trimmed text, or `"static"` when blank.
pub open spec fn confirmed_tag(text: Seq<char>) -> Seq<char> {
    if trimmed(text).len() > 0 {
        trimmed(text)
    } else {
        static_tag()
    }
}

/// Applies an edited ID and tag to the object `obj`.
///
/// The new ID is the trimmed `id_text`, or a fresh value from `id_gen` when
/// that is blank. If it differs from the object's current ID, every
/// classification row for the old ID is re-pointed at the new one and the
/// object is renamed. The new ID is then tagged with the trimmed `tag_text`
/// (`"static"` when blank), and the tag is given a color if it has none.
/// Returns the new ID.
pub fn apply_classification<F: Fn() -> String>(
    lv: &mut Level,
    colors: &mut TagColors,
    obj: ObjectRef,
    id_text: &str,
    tag_text: &str,
    id_gen: F,
) -> (new_id: String)
    requires
        valid_ref(*old(lv), obj),
        old(colors).wf(),
        call_requires(id_gen, ()),
    ensures
        trimmed(id_text@).len() > 0 ==> new_id@ == trimmed(id_text@),
        trimmed(id_text@).len() == 0 ==> call_ensures(id_gen, (), new_id),
        valid_ref(*final(lv), obj),
        ref_id(*final(lv), obj) == new_id@,
        rows_view(final(lv).classifications@) == upsert_row(
            if new_id@ != ref_id(*old(lv), obj) {
                rename_rows(rows_view(old(lv).classifications@), ref_id(*old(lv), obj), new_id@)
            } else {
                rows_view(old(lv).classifications@)
            },
            new_id@,
            confirmed_tag(tag_text@),
        ),
        shown_tag(*final(lv), new_id@) == confirmed_tag(tag_text@),
        final(colors).wf(),
        final(colors)@ == add_tag(old(colors)@, confirmed_tag(tag_text@)),
        final(lv).sprite_shapes@ == old(lv).sprite_shapes@,
        new_id@ != ref_id(*old(lv), obj) ==> (final(lv).sprite_instances@, final(lv).collision_shapes@)
            == objects_with_id(*old(lv), obj, new_id),
        new_id@ == ref_id(*old(lv), obj) ==> final(lv).sprite_instances@ == old(lv).sprite_instances@
            && final(lv).collision_shapes@ == old(lv).collision_shapes@,
        final(lv).player_start == old(lv).player_start,
        final(lv).grid_size == old(lv).grid_size,
{
    let id_trim = trim(id_text);
    let new_id: String = if !id_trim.is_empty() {
        id_trim.to_owned()
    } else {
        id_gen()
    };
    let old_id: String = object_id(lv, obj).to_owned();
    if !str_eq(new_id.as_str(), old_id.as_str()) {
        rename_tag_rows(lv, old_id.as_str(), new_id.as_str());
        object_set_id(lv, obj, new_id.clone());
    }
    let tag_trim = trim(tag_text);
    let tag: String = if !tag_trim.is_empty() {
        tag_trim.to_owned()
    } else {
        proof {
            reveal_strlit("static");
            assert("static"@ =~= static_tag());
        }
        "static".to_owned()
    };
    set_tag(lv, new_id.as_str(), tag.as_str());
    colors.add(tag.as_str());
    new_id
}

/// The label drawn next to an object in the classification layer:
/// `"id | tag"`; while its tag is being edited `"id | buffer|"`; while its ID
/// is being edited `"buffer| | tag"`.
pub open spec fn label_text(id: Seq<char>, tag: Seq<char>, edit: Option<(EditMode, Seq<char>)>) -> Seq<char> {
    match edit {
        None => id + seq![' ', '|', ' '] + tag,
        Some((EditMode::Tag, buf)) => id + seq![' ', '|', ' '] + buf + seq!['|'],
        Some((EditMode::ObjectId, buf)) => buf + seq!['|', ' ', '|', ' '] + tag,
    }
}

/// Builds the label of a classifiable object (see [`label_text`]).
pub fn build_label_text(id: &str, tag: &str, edit_state: Option<&(ObjectRef, EditMode, String)>) -> (s: String)
    ensures
        s@ == label_text(
            id@,
            tag@,
            match edit_state {
                Some(e) => Some((e.1, e.2@)),
                None => None,
            },
        ),
{
    let mut s = String::new();
    match edit_state {
        Some(e) => {
            match e.1 {
                EditMode::Tag => {
                    push_str(&mut s, id);
                    push_char(&mut s, ' ');
                    push_char(&mut s, '|');
                    push_char(&mut s, ' ');
                    push_str(&mut s, e.2.as_str());
                    push_char(&mut s, '|');
                },
                EditMode::ObjectId => {
                    push_str(&mut s, e.2.as_str());
                    push_char(&mut s, '|');
                    push_char(&mut s, ' ');
                    push_char(&mut s, '|');
                    push_char(&mut s, ' ');
                    push_str(&mut s, tag);
                },
            }
        },
        None => {
            push_str(&mut s, id);
            push_char(&mut s, ' ');
            push_char(&mut s, '|');
            push_char(&mut s, ' ');
            push_str(&mut s, tag);
        },
    }
    assert(s@ =~= label_text(
        id@,
        tag@,
        match edit_state {
            Some(e) => Some((e.1, e.2@)),
            None => None,
        },
    ));
    s
}

/// The position keyboard focus moves to in a list of `len` objects, from
/// position `cur` (none focused when `None`): forward wraps from the last to
/// the first and starts at the first; backward wraps from the first to the
/// last and starts at the last.
pub open spec fn focus_target(len: int, cur: Option<usize>, forward: bool) -> int {
    if forward {
        match cur {
            None => 0,
            Some(i) => (i + 1) % len,
        }
    } else {
        match cur {
            None => len - 1,
            Some(i) => if i == 0 { len - 1 } else { i - 1 },
        }
    }
}

/// Moves keyboard focus one step through a list of `len` objects.
pub fn focus_step(len: usize, cur: Option<usize>, forward: bool) -> (next: usize)
    requires
        len > 0,
        cur matches Some(i) ==> i < len,
    ensures
        next == focus_target(len as int, cur, forward),
        next < len,
{
    if forward {
        match cur {
            None => 0,
            Some(i) => (i + 1) % len,
        }
    } else {
        match cur {
            None => len - 1,
            Some(i) => if i == 0 { len - 1 } else { i - 1 },
        }
    }
}

/// A step forward and a step back (in either order) return to where focus was.
pub proof fn lemma_focus_steps_undo(len: usize, i: usize)
    requires
        i < len,
    ensures
        focus_target(len as int, Some(focus_target(len as int, Some(i), true) as usize), false) == i,
        focus_target(len as int, Some(focus_target(len as int, Some(i), false) as usize), true) == i,
{
    let l = len as int;
    let f = focus_target(l, Some(i), true);
    if i + 1 == l {
        assert((i + 1) % l == 0) by (nonlinear_arith)
            requires i + 1 == l, l > 0;
        assert(f == 0);
    } else {
        assert((i + 1) % l == i + 1) by (nonlinear_arith)
            requires 0 <= i + 1 < l;
        assert(f == i + 1);
    }
    let b = focus_target(l, Some(i), false);
    if i == 0 {
        assert(b == l - 1);
        assert(((l - 1) + 1) % l == 0) by (nonlinear_arith)
            requires l > 0;
    } else {
        assert(b == i - 1);
        assert(((i - 1) + 1) % l == i) by (nonlinear_arith)
            requires 0 < i < l;
    }
}

/// The selection after the item at `removed` is deleted from a list: a
/// selection of that item is cleared, a later one shifts down by one, an
/// earlier one stays.
pub fn selection_after_removal(selected: Option<usize>, removed: usize) -> (r: Option<usize>)
    ensures
        r == match selected {
            Some(s) => if s == removed {
                None
            } else if s > removed {
                Some((s - 1) as usize)
            } else {
                Some(s)
            },
            None => None,
        },
{
    match selected {
        Some(s) if s == removed => None,
        Some(s) if s > removed => Some(s - 1),
        other => other,
    }
}

} // verus!
