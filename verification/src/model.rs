//! The document-side data model: paint references, fill and stroke
//! specifications, gradients, patterns, and the definitions table.
//!
//! These are immutable views of a previously built document. Identifiers
//! are integers; the caller interns textual ids before resolution.

use vstd::prelude::*;
use crate::fixed::{coord_valid, opacity_valid};
use crate::geom::{Rect, Transform};

verus! {

/// An RGB color with 8-bit channels.
#[derive(Clone, Copy, PartialEq, Eq, Structural, Debug)]
pub struct Color {
    pub red: u8,
    pub green: u8,
    pub blue: u8,
}

/// What a fill or stroke paints with: a direct color, or a reference
/// into the definitions table.
#[derive(Clone, Copy, PartialEq, Eq, Structural, Debug)]
pub enum PaintRef {
    Color(Color),
    Link(u64),
}

/// Coordinate units of a gradient or pattern.
#[derive(Clone, Copy, PartialEq, Eq, Structural, Debug)]
pub enum Units {
    UserSpace,
    ObjectBoundingBox,
}

/// How a gradient repeats beyond its defined extent.
#[derive(Clone, Copy, PartialEq, Eq, Structural, Debug)]
pub enum SpreadMethod {
    Pad,
    Reflect,
    Repeat,
}

/// Stroke line cap.
#[derive(Clone, Copy, PartialEq, Eq, Structural, Debug)]
pub enum LineCap {
    Butt,
    Round,
    Square,
}

/// Stroke line join.
#[derive(Clone, Copy, PartialEq, Eq, Structural, Debug)]
pub enum LineJoin {
    Miter,
    Round,
    Bevel,
}

/// A gradient stop: offset in `[0, 1]`, color, opacity in `[0, 1]`.
#[derive(Clone, Copy, PartialEq, Eq, Structural, Debug)]
pub struct Stop {
    pub offset: i64,
    pub color: Color,
    pub opacity: i64,
}

impl Stop {
    pub open spec fn wf(self) -> bool {
        &&& opacity_valid(self.offset)
        &&& opacity_valid(self.opacity)
    }
}

/// What linear and radial gradients share: stops, spread method, units
/// and the gradient's own transform. Stops are taken as author-ordered
/// by non-decreasing offset; the library does not re-sort or validate.
#[derive(Clone, PartialEq, Eq, Debug)]
pub struct BaseGradient {
    pub stops: Vec<Stop>,
    pub spread_method: SpreadMethod,
    pub units: Units,
    pub transform: Transform,
}

impl BaseGradient {
    pub open spec fn wf(self) -> bool {
        &&& self.transform.valid()
        &&& forall|i: int| 0 <= i < self.stops@.len() ==> (#[trigger] self.stops@[i]).wf()
    }
}

/// A linear gradient: base plus start and end points.
#[derive(Clone, PartialEq, Eq, Debug)]
pub struct LinearGradient {
    pub base: BaseGradient,
    pub x1: i64,
    pub y1: i64,
    pub x2: i64,
    pub y2: i64,
}

impl LinearGradient {
    pub open spec fn wf(self) -> bool {
        self.base.wf()
    }
}

/// A radial gradient: base plus outer circle `(cx, cy, r)` and focal
/// point `(fx, fy)`.
#[derive(Clone, PartialEq, Eq, Debug)]
pub struct RadialGradient {
    pub base: BaseGradient,
    pub cx: i64,
    pub cy: i64,
    pub r: i64,
    pub fx: i64,
    pub fy: i64,
}

impl RadialGradient {
    pub open spec fn wf(self) -> bool {
        self.base.wf()
    }
}

/// A declared view box: a source rectangle of positive size that is fit,
/// aspect-preserving and centered, into the pattern tile.
#[derive(Clone, Copy, PartialEq, Eq, Structural, Debug)]
pub struct ViewBox {
    pub rect: Rect,
}

impl ViewBox {
    pub open spec fn wf(self) -> bool {
        &&& self.rect.wf()
        &&& self.rect.w >= 1
        &&& self.rect.h >= 1
    }
}

/// A tiled pattern. `content` lists the paint-server ids that the
/// pattern's content subtree references; resolving them recursively is
/// what makes cycle detection necessary.
#[derive(Clone, PartialEq, Eq, Debug)]
pub struct Pattern {
    pub rect: Rect,
    pub units: Units,
    pub content_units: Units,
    pub view_box: Option<ViewBox>,
    pub transform: Transform,
    pub content: Vec<u64>,
}

impl Pattern {
    pub open spec fn wf(self) -> bool {
        &&& self.rect.wf()
        &&& self.transform.valid()
        &&& match self.view_box {
            Some(vb) => vb.wf(),
            None => true,
        }
    }
}

/// One entry of the definitions table.
#[derive(Clone, PartialEq, Eq, Debug)]
pub enum DefKind {
    Linear(LinearGradient),
    Radial(RadialGradient),
    Tile(Pattern),
    Other,
}

impl DefKind {
    pub open spec fn wf(self) -> bool {
        match self {
            DefKind::Linear(lg) => lg.wf(),
            DefKind::Radial(rg) => rg.wf(),
            DefKind::Tile(p) => p.wf(),
            DefKind::Other => true,
        }
    }
}

/// A definitions-table entry: an id and what it defines.
#[derive(Clone, PartialEq, Eq, Debug)]
pub struct DefEntry {
    pub id: u64,
    pub kind: DefKind,
}

/// The document's definitions table, read-only during resolution.
/// Ids are unique.
#[derive(Clone, PartialEq, Eq, Debug)]
pub struct Defs {
    pub entries: Vec<DefEntry>,
}

impl Defs {
    /// The sequence of ids, in table order.
    pub open spec fn id_seq(self) -> Seq<u64> {
        self.entries@.map_values(|e: DefEntry| e.id)
    }

    /// Ids are unique and every entry is well formed.
    pub open spec fn wf(self) -> bool {
        &&& self.id_seq().no_duplicates()
        &&& forall|i: int|
            0 <= i < self.entries@.len() ==> (#[trigger] self.entries@[i]).kind.wf()
    }

    /// What the table defines under `id`: the first entry's kind, or
    /// `None` for a dangling reference.
    pub open spec fn kind_of(self, id: u64) -> Option<DefKind> {
        lookup_in(self.entries@, id)
    }

    /// Looks an id up by linear scan.
    pub fn find(&self, id: u64) -> (r: Option<usize>)
        ensures
            r is Some <==> self.kind_of(id) is Some,
            r matches Some(i) ==> (i as int) < self.entries@.len()
                && self.entries@[i as int].id == id
                && self.kind_of(id) == Some(self.entries@[i as int].kind),
    {
        let n: usize = self.entries.len();
        let mut i: usize = 0;
        proof {
            assert(self.entries@.skip(0) =~= self.entries@);
        }
        while i < n
            invariant
                n == self.entries@.len(),
                i <= n,
                lookup_in(self.entries@, id) == lookup_in(self.entries@.skip(i as int), id),
            decreases n - i,
        {
            proof {
                assert(self.entries@.skip(i as int).len() == n - i);
                assert(self.entries@.skip(i as int)[0] == self.entries@[i as int]);
                assert(self.entries@.skip(i as int).drop_first() =~= self.entries@.skip(i as int + 1));
            }
            if self.entries[i].id == id {
                return Some(i);
            }
            i += 1;
        }
        proof {
            assert(self.entries@.skip(n as int).len() == 0);
        }
        None
    }
}

/// Looks `id` up in a sequence of entries, front to back.
pub open spec fn lookup_in(s: Seq<DefEntry>, id: u64) -> Option<DefKind>
    decreases s.len(),
{
    if s.len() == 0 {
        None
    } else if s[0].id == id {
        Some(s[0].kind)
    } else {
        lookup_in(s.drop_first(), id)
    }
}


/// A sequence in which some entry has the given id looks it up to `Some`.
pub proof fn lemma_lookup_defined(s: Seq<DefEntry>, id: u64)
    requires
        lookup_in(s, id) is Some,
    ensures
        exists|j: int| 0 <= j < s.len() && (#[trigger] s[j]).id == id,
    decreases s.len(),
{
    if s.len() == 0 {
    } else if s[0].id == id {
        assert(s[0].id == id);
    } else {
        lemma_lookup_defined(s.drop_first(), id);
        let j = choose|j: int|
            0 <= j < s.drop_first().len() && (#[trigger] s.drop_first()[j]).id == id;
        assert(s[j + 1].id == id);
    }
}

/// A fill specification: what to paint with, at which opacity.
#[derive(Clone, Copy, PartialEq, Eq, Structural, Debug)]
pub struct Fill {
    pub paint: PaintRef,
    pub opacity: i64,
}

impl Fill {
    pub open spec fn wf(self) -> bool {
        opacity_valid(self.opacity)
    }
}

/// A stroke specification: paint, opacity, and stroke geometry
/// (cap, join, miter limit, width, optional dash).
#[derive(Clone, PartialEq, Eq, Debug)]
pub struct Stroke {
    pub paint: PaintRef,
    pub opacity: i64,
    pub linecap: LineCap,
    pub linejoin: LineJoin,
    pub miterlimit: i64,
    pub width: i64,
    pub dasharray: Option<Vec<i64>>,
    pub dashoffset: i64,
}

impl Stroke {
    pub open spec fn wf(self) -> bool {
        &&& opacity_valid(self.opacity)
        &&& self.miterlimit >= 0
        &&& coord_valid(self.miterlimit)
        &&& self.width >= 0
        &&& coord_valid(self.width)
        &&& coord_valid(self.dashoffset)
        &&& match self.dasharray {
            Some(list) => forall|i: int|
                0 <= i < list@.len() ==> 0 <= #[trigger] list@[i] && coord_valid(list@[i]),
            None => true,
        }
    }
}

} // verus!
