//! The serializable level format shared by the game and the editor.
//!
//! A [`Level`] stores ordered planning layers in world coordinates: sprite
//! planning shapes, collision shapes, placed sprite images, and the
//! classification tags that label objects by ID.
//!
//! Geometry (positions, sizes, radii, scales, the grid size) is authored as
//! `f32`. This library never computes on it: each such field holds the IEEE-754
//! bit pattern of the value (`f32::to_bits`), carried through unchanged, so the
//! logic here is about what it does read — IDs, colors, paths and tags.

use vstd::prelude::*;
use crate::color::Color;
use crate::text::str_eq;

verus! {

/// Default level file path, relative to the working directory.
pub const DEFAULT_LEVEL_PATH: &'static str = "level.json";

/// Bit pattern of the default authoring grid size, `32.0` world pixels.
pub const DEFAULT_GRID_SIZE_BITS: u32 = 0x4200_0000u32;

/// A single placed primitive.
///
/// Each shape carries a free-form string `id`. IDs are not required to be
/// unique: a sprite and its collision box may share one, and so share a tag.
/// An empty ID means "unassigned".
#[derive(Clone, Debug)]
pub enum Shape {
    /// Axis-aligned rectangle with top-left at `(x, y)` (f32 bit patterns).
    Rect { id: String, x: u32, y: u32, width: u32, height: u32, color: Color },
    /// Circle centered at `(x, y)` (f32 bit patterns).
    Circle { id: String, x: u32, y: u32, radius: u32, color: Color },
}

/// The ID of a shape.
pub open spec fn shape_id(s: Shape) -> Seq<char> {
    match s {
        Shape::Rect { id, .. } => id@,
        Shape::Circle { id, .. } => id@,
    }
}

/// A shape with its ID replaced and everything else kept.
pub open spec fn with_id(s: Shape, new_id: String) -> Shape {
    match s {
        Shape::Rect { id, x, y, width, height, color } => Shape::Rect {
            id: new_id,
            x,
            y,
            width,
            height,
            color,
        },
        Shape::Circle { id, x, y, radius, color } => Shape::Circle { id: new_id, x, y, radius, color },
    }
}

/// The fill color of a shape.
pub open spec fn shape_color(s: Shape) -> Color {
    match s {
        Shape::Rect { color, .. } => color,
        Shape::Circle { color, .. } => color,
    }
}

impl Shape {
    /// The object ID of this shape (empty = unassigned).
    pub fn id(&self) -> (r: &str)
        ensures
            r@ == shape_id(*self),
    {
        match self {
            Shape::Rect { id, .. } => id.as_str(),
            Shape::Circle { id, .. } => id.as_str(),
        }
    }

    /// Replaces this shape's ID; kind, geometry and color are kept.
    pub fn set_id(&mut self, new_id: String)
        ensures
            *final(self) == with_id(*old(self), new_id),
    {
        match self {
            Shape::Rect { id, .. } => *id = new_id,
            Shape::Circle { id, .. } => *id = new_id,
        }
    }

    /// The shape's authored fill color.
    pub fn color(&self) -> (c: Color)
        ensures
            c == shape_color(*self),
    {
        match self {
            Shape::Rect { color, .. } => *color,
            Shape::Circle { color, .. } => *color,
        }
    }
}

/// A placed sprite image: a path plus a transform (f32 bit patterns).
#[derive(Clone, Debug)]
pub struct SpriteInstance {
    /// Free-form object ID; may be shared with other objects. Empty = unassigned.
    pub id: String,
    /// Path to the PNG, relative to the workspace root.
    pub path: String,
    /// Top-left position (f32 bit patterns).
    pub x: u32,
    pub y: u32,
    /// Uniform scale factor (f32 bit pattern).
    pub scale: u32,
    /// Drawn behind every other sprite and the player when `true`.
    pub background: bool,
}

/// The player's spawn position, top-left of the player box (f32 bit patterns).
#[derive(Clone, Copy, Debug, PartialEq, Eq, Structural)]
pub struct SpawnPoint {
    pub x: u32,
    pub y: u32,
}

/// Maps an object ID to a semantic classification tag such as `"static"`,
/// `"movable"` or `"cuttable"`. The ID may match several objects.
#[derive(Clone, Debug)]
pub struct ClassificationEntry {
    /// The ID string that identifies the target object(s).
    pub object_id: String,
    /// Free-form tag.
    pub tag: String,
}

impl ClassificationEntry {
    /// A row with the same ID and tag.
    pub fn duplicate(&self) -> (c: Self)
        ensures
            c == *self,
    {
        ClassificationEntry { object_id: self.object_id.clone(), tag: self.tag.clone() }
    }
}

/// The view of a classification row: `(object id, tag)`.
pub open spec fn entry_view(e: ClassificationEntry) -> (Seq<char>, Seq<char>) {
    (e.object_id@, e.tag@)
}

/// The classification rows of a level, as `(object id, tag)` pairs in order.
pub open spec fn rows_view(v: Seq<ClassificationEntry>) -> Seq<(Seq<char>, Seq<char>)> {
    v.map_values(|e: ClassificationEntry| entry_view(e))
}

/// The tag that the first row for `id` gives, if any row is for `id`.
pub open spec fn tag_of(rows: Seq<(Seq<char>, Seq<char>)>, id: Seq<char>) -> Option<Seq<char>> {
    if exists|i: int| 0 <= i < rows.len() && #[trigger] rows[i].0 == id {
        let i = choose|i: int|
            0 <= i < rows.len() && #[trigger] rows[i].0 == id && (forall|j: int|
                0 <= j < i ==> rows[j].0 != id);
        Some(rows[i].1)
    } else {
        None
    }
}

/// Index of the first row for `id`, when there is one.
pub open spec fn first_row(rows: Seq<(Seq<char>, Seq<char>)>, id: Seq<char>, i: int) -> bool {
    &&& 0 <= i < rows.len()
    &&& rows[i].0 == id
    &&& forall|j: int| 0 <= j < i ==> rows[j].0 != id
}

/// When row `i` is the first row for `id`, `tag_of` reads that row.
pub proof fn lemma_tag_of_first(rows: Seq<(Seq<char>, Seq<char>)>, id: Seq<char>, i: int)
    requires
        first_row(rows, id, i),
    ensures
        tag_of(rows, id) == Some(rows[i].1),
{
    assert(rows[i].0 == id);
    let k = choose|k: int|
        0 <= k < rows.len() && #[trigger] rows[k].0 == id && (forall|j: int|
            0 <= j < k ==> rows[j].0 != id);
    if k < i {
        assert(rows[k].0 != id);
    }
    if i < k {
        assert(rows[i].0 != id);
    }
}

/// Some row is for `id` exactly when a first such row exists.
pub proof fn lemma_first_row_exists(rows: Seq<(Seq<char>, Seq<char>)>, id: Seq<char>, j: int)
    requires
        0 <= j < rows.len(),
        rows[j].0 == id,
    ensures
        exists|i: int| first_row(rows, id, i),
    decreases j,
{
    if exists|m: int| 0 <= m < j && #[trigger] rows[m].0 == id {
        let m = choose|m: int| 0 <= m < j && #[trigger] rows[m].0 == id;
        lemma_first_row_exists(rows, id, m);
    } else {
        assert(first_row(rows, id, j));
    }
}

/// An ordered collection of planning layers.
#[derive(Clone, Debug)]
pub struct Level {
    /// The sprite-planning layer; later shapes draw on top of earlier ones.
    pub sprite_shapes: Vec<Shape>,
    /// The collision-planning layer.
    pub collision_shapes: Vec<Shape>,
    /// Sprite images placed in the sprite-planning layer.
    pub sprite_instances: Vec<SpriteInstance>,
    /// Classification tags authored in the classification layer.
    pub classifications: Vec<ClassificationEntry>,
    /// Where the player spawns; `None` lets the game use its own default.
    pub player_start: Option<SpawnPoint>,
    /// The authoring grid size in world pixels (f32 bit pattern).
    pub grid_size: u32,
}

/// `true` when `lv` has no shapes, sprites, tags or spawn, and the default grid.
pub open spec fn is_empty_level(lv: Level) -> bool {
    &&& lv.sprite_shapes@.len() == 0
    &&& lv.collision_shapes@.len() == 0
    &&& lv.sprite_instances@.len() == 0
    &&& lv.classifications@.len() == 0
    &&& lv.player_start is None
    &&& lv.grid_size == DEFAULT_GRID_SIZE_BITS
}

/// How many shapes of `s` have an empty ID.
pub open spec fn empty_shape_ids(s: Seq<Shape>) -> nat
    decreases s.len(),
{
    if s.len() == 0 {
        0
    } else {
        empty_shape_ids(s.drop_last()) + if shape_id(s.last()).len() == 0 {
            1nat
        } else {
            0nat
        }
    }
}

/// `s` with its empty IDs replaced, in order, by the values of `g`.
pub open spec fn shapes_filled(s: Seq<Shape>, g: Seq<String>) -> Seq<Shape>
    decreases s.len(),
{
    if s.len() == 0 {
        Seq::empty()
    } else if shape_id(s.last()).len() == 0 {
        shapes_filled(s.drop_last(), g.drop_last()).push(with_id(s.last(), g.last()))
    } else {
        shapes_filled(s.drop_last(), g).push(s.last())
    }
}

/// How many sprites of `s` have an empty ID.
pub open spec fn empty_sprite_ids(s: Seq<SpriteInstance>) -> nat
    decreases s.len(),
{
    if s.len() == 0 {
        0
    } else {
        empty_sprite_ids(s.drop_last()) + if s.last().id@.len() == 0 {
            1nat
        } else {
            0nat
        }
    }
}

/// `s` with its empty IDs replaced, in order, by the values of `g`.
pub open spec fn sprites_filled(s: Seq<SpriteInstance>, g: Seq<String>) -> Seq<SpriteInstance>
    decreases s.len(),
{
    if s.len() == 0 {
        Seq::empty()
    } else if s.last().id@.len() == 0 {
        sprites_filled(s.drop_last(), g.drop_last()).push(SpriteInstance { id: g.last(), ..s.last() })
    } else {
        sprites_filled(s.drop_last(), g).push(s.last())
    }
}

/// Every value of `g` is one that `gen` may return.
pub open spec fn generated<F: Fn() -> String>(gen: F, g: Seq<String>) -> bool {
    forall|k: int| 0 <= k < g.len() ==> call_ensures(gen, (), #[trigger] g[k])
}

/// `after` is `before` with its empty IDs filled, in order, by successive
/// values of `gen` (one call for each), and every non-empty ID kept.
#[verifier::opaque]
pub open spec fn ids_filled<F: Fn() -> String>(gen: F, before: Seq<Shape>, after: Seq<Shape>) -> bool {
    exists|g: Seq<String>|
        g.len() == empty_shape_ids(before) && generated(gen, g) && #[trigger] shapes_filled(before, g) == after
}

/// Like [`ids_filled`], for sprite instances.
#[verifier::opaque]
pub open spec fn sprite_ids_filled<F: Fn() -> String>(
    gen: F,
    before: Seq<SpriteInstance>,
    after: Seq<SpriteInstance>,
) -> bool {
    exists|g: Seq<String>|
        g.len() == empty_sprite_ids(before) && generated(gen, g) && #[trigger] sprites_filled(before, g) == after
}

proof fn lemma_shapes_filled_len(s: Seq<Shape>, g: Seq<String>)
    ensures
        shapes_filled(s, g).len() == s.len(),
    decreases s.len(),
{
    if s.len() > 0 {
        lemma_shapes_filled_len(s.drop_last(), g.drop_last());
        lemma_shapes_filled_len(s.drop_last(), g);
    }
}

proof fn lemma_sprites_filled_len(s: Seq<SpriteInstance>, g: Seq<String>)
    ensures
        sprites_filled(s, g).len() == s.len(),
    decreases s.len(),
{
    if s.len() > 0 {
        lemma_sprites_filled_len(s.drop_last(), g.drop_last());
        lemma_sprites_filled_len(s.drop_last(), g);
    }
}

impl Default for Level {
    fn default() -> (lv: Self)
        ensures
            is_empty_level(lv),
    {
        Level {
            sprite_shapes: Vec::new(),
            collision_shapes: Vec::new(),
            sprite_instances: Vec::new(),
            classifications: Vec::new(),
            player_start: None,
            grid_size: DEFAULT_GRID_SIZE_BITS,
        }
    }
}

fn fill_shape_ids<F: Fn() -> String>(shapes: &mut Vec<Shape>, id_gen: &F)
    requires
        call_requires(*id_gen, ()),
    ensures
        ids_filled(*id_gen, old(shapes)@, final(shapes)@),
        final(shapes)@.len() == old(shapes)@.len(),
{
    let ghost before = shapes@;
    let ghost mut gs: Seq<String> = Seq::empty();
    let mut i: usize = 0;
    assert(before.take(0) =~= Seq::<Shape>::empty());
    assert(shapes@ =~= shapes_filled(before.take(0), gs) + before.skip(0));
    while i < shapes.len()
        invariant
            call_requires(*id_gen, ()),
            shapes@.len() == before.len(),
            0 <= i <= shapes@.len(),
            gs.len() == empty_shape_ids(before.take(i as int)),
            generated(*id_gen, gs),
            shapes@ == shapes_filled(before.take(i as int), gs) + before.skip(i as int),
        decreases before.len() - i,
    {
        let ghost prefix = before.take(i as int);
        let ghost next = before.take(i + 1);
        assert(next.drop_last() =~= prefix);
        assert(next.last() == before[i as int]);
        proof {
            lemma_shapes_filled_len(prefix, gs);
        }
        assert(shapes@[i as int] == before[i as int]);
        if shapes[i].id().is_empty() {
            let g = id_gen();
            shapes[i].set_id(g);
            proof {
                let gs2 = gs.push(g);
                assert(gs2.drop_last() =~= gs);
                assert(generated(*id_gen, gs2));
                gs = gs2;
            }
        }
        assert(shapes@ =~= shapes_filled(next, gs) + before.skip(i + 1));
        i = i + 1;
    }
    assert(before.take(before.len() as int) =~= before);
    assert(before.skip(before.len() as int) =~= Seq::<Shape>::empty());
    assert(shapes@ =~= shapes_filled(before, gs));
    reveal(ids_filled);
}

fn fill_sprite_ids<F: Fn() -> String>(insts: &mut Vec<SpriteInstance>, id_gen: &F)
    requires
        call_requires(*id_gen, ()),
    ensures
        sprite_ids_filled(*id_gen, old(insts)@, final(insts)@),
        final(insts)@.len() == old(insts)@.len(),
{
    let ghost before = insts@;
    let ghost mut gs: Seq<String> = Seq::empty();
    let mut i: usize = 0;
    assert(before.take(0) =~= Seq::<SpriteInstance>::empty());
    assert(insts@ =~= sprites_filled(before.take(0), gs) + before.skip(0));
    while i < insts.len()
        invariant
            call_requires(*id_gen, ()),
            insts@.len() == before.len(),
            0 <= i <= insts@.len(),
            gs.len() == empty_sprite_ids(before.take(i as int)),
            generated(*id_gen, gs),
            insts@ == sprites_filled(before.take(i as int), gs) + before.skip(i as int),
        decreases before.len() - i,
    {
        let ghost prefix = before.take(i as int);
        let ghost next = before.take(i + 1);
        assert(next.drop_last() =~= prefix);
        assert(next.last() == before[i as int]);
        proof {
            lemma_sprites_filled_len(prefix, gs);
        }
        assert(insts@[i as int] == before[i as int]);
        if insts[i].id.as_str().is_empty() {
            let g = id_gen();
            insts[i].id = g;
            proof {
                let gs2 = gs.push(g);
                assert(gs2.drop_last() =~= gs);
                assert(generated(*id_gen, gs2));
                gs = gs2;
            }
        }
        assert(insts@ =~= sprites_filled(next, gs) + before.skip(i + 1));
        i = i + 1;
    }
    assert(before.take(before.len() as int) =~= before);
    assert(before.skip(before.len() as int) =~= Seq::<SpriteInstance>::empty());
    assert(insts@ =~= sprites_filled(before, gs));
    reveal(sprite_ids_filled);
}

impl Level {
    /// An empty level with the default grid.
    pub fn new() -> (lv: Self)
        ensures
            is_empty_level(lv),
    {
        Self::default()
    }

    /// Fills every empty ID with a fresh value from `id_gen`, one call for
    /// each, in order: the sprite shapes, then the collision shapes, then the
    /// sprite instances, each by index. IDs that are already set, and
    /// everything else, are kept.
    pub fn ensure_ids<F: Fn() -> String>(&mut self, id_gen: F)
        requires
            call_requires(id_gen, ()),
        ensures
            ids_filled(id_gen, old(self).sprite_shapes@, final(self).sprite_shapes@),
            ids_filled(id_gen, old(self).collision_shapes@, final(self).collision_shapes@),
            sprite_ids_filled(id_gen, old(self).sprite_instances@, final(self).sprite_instances@),
            final(self).sprite_shapes@.len() == old(self).sprite_shapes@.len(),
            final(self).collision_shapes@.len() == old(self).collision_shapes@.len(),
            final(self).sprite_instances@.len() == old(self).sprite_instances@.len(),
            final(self).classifications@ == old(self).classifications@,
            final(self).player_start == old(self).player_start,
            final(self).grid_size == old(self).grid_size,
    {
        fill_shape_ids(&mut self.sprite_shapes, &id_gen);
        fill_shape_ids(&mut self.collision_shapes, &id_gen);
        fill_sprite_ids(&mut self.sprite_instances, &id_gen);
    }

    /// The classification tag of the objects with ID `id`: the tag of the
    /// first classification row for that ID, if there is one.
    pub fn get_tag<'a>(&'a self, id: &str) -> (r: Option<&'a str>)
        ensures
            match r {
                Some(t) => tag_of(rows_view(self.classifications@), id@) == Some(t@),
                None => tag_of(rows_view(self.classifications@), id@) == None::<Seq<char>>,
            },
    {
        let ghost rows = rows_view(self.classifications@);
        let mut i: usize = 0;
        while i < self.classifications.len()
            invariant
                rows == rows_view(self.classifications@),
                0 <= i <= self.classifications@.len(),
                forall|j: int| 0 <= j < i ==> rows[j].0 != id@,
            decreases self.classifications@.len() - i,
        {
            let e = &self.classifications[i];
            if str_eq(e.object_id.as_str(), id) {
                proof {
                    assert(rows[i as int] == entry_view(self.classifications@[i as int]));
                    lemma_tag_of_first(rows, id@, i as int);
                }
                return Some(e.tag.as_str());
            }
            proof {
                assert(rows[i as int] == entry_view(self.classifications@[i as int]));
            }
            i = i + 1;
        }
        proof {
            if exists|j: int| 0 <= j < rows.len() && #[trigger] rows[j].0 == id@ {
                let j = choose|j: int| 0 <= j < rows.len() && #[trigger] rows[j].0 == id@;
                assert(rows[j].0 != id@);
            }
        }
        None
    }
}

} // verus!
