//! Cursor shapes and the per-connection cursor manager.
//!
//! The manager owns the hotspots of the shapes that were decoded at
//! connection construction and tracks the shape currently applied, so that a
//! native cursor-change request is issued only on a transition: repeated
//! requests for the same shape are free.

use vstd::prelude::*;

use crate::decode;
use crate::decode::CursorImage;
use crate::error::DecodeError;

verus! {

/// A portable cursor shape, with a defined precedence order for combining two
/// simultaneously requested shapes:
/// Unknown < Arrow < Text < Pointer < single-axis resize < combined-axis resize.
#[derive(Clone, Copy, Debug, Default, Hash, PartialEq, Eq, Structural)]
pub enum CursorType {
    #[default]
    Arrow,
    Pointer,
    Text,
    NResize,
    SResize,
    EResize,
    WResize,
    NEResize,
    NWResize,
    SEResize,
    SWResize,
    NSResize,
    EWResize,
    Unknown,
}

impl CursorType {
    /// The native-protocol code of this shape; `Unknown` has none.
    pub open spec fn code_spec(self) -> u8 {
        match self {
            CursorType::Arrow => 0u8,
            CursorType::Pointer => 1u8,
            CursorType::Text => 2u8,
            CursorType::NResize => 4u8,
            CursorType::SResize => 8u8,
            CursorType::EResize => 16u8,
            CursorType::WResize => 32u8,
            CursorType::NEResize => 20u8,
            CursorType::NWResize => 36u8,
            CursorType::SEResize => 24u8,
            CursorType::SWResize => 40u8,
            CursorType::NSResize => 12u8,
            CursorType::EWResize => 48u8,
            CursorType::Unknown => 255u8,
        }
    }

    pub fn to_code(self) -> (res: u8)
        ensures
            res == self.code_spec(),
    {
        match self {
            CursorType::Arrow => 0,
            CursorType::Pointer => 1,
            CursorType::Text => 2,
            CursorType::NResize => 4,
            CursorType::SResize => 8,
            CursorType::EResize => 16,
            CursorType::WResize => 32,
            CursorType::NEResize => 20,
            CursorType::NWResize => 36,
            CursorType::SEResize => 24,
            CursorType::SWResize => 40,
            CursorType::NSResize => 12,
            CursorType::EWResize => 48,
            CursorType::Unknown => 255,
        }
    }

    /// The shape a code stands for; codes outside the table have none.
    pub fn from_code(code: u8) -> (res: Option<Self>)
        ensures
            res matches Some(c) ==> c.code_spec() == code && c != CursorType::Unknown,
            res is None ==> (forall|c: CursorType| c.code_spec() == code ==> c
                == CursorType::Unknown),
    {
        match code {
            0 => Some(CursorType::Arrow),
            1 => Some(CursorType::Pointer),
            2 => Some(CursorType::Text),
            4 => Some(CursorType::NResize),
            8 => Some(CursorType::SResize),
            16 => Some(CursorType::EResize),
            32 => Some(CursorType::WResize),
            20 => Some(CursorType::NEResize),
            36 => Some(CursorType::NWResize),
            24 => Some(CursorType::SEResize),
            40 => Some(CursorType::SWResize),
            12 => Some(CursorType::NSResize),
            48 => Some(CursorType::EWResize),
            _ => None,
        }
    }

    /// Whether this shape is a single-axis resize arrow.
    pub open spec fn is_single_resize(self) -> bool {
        match self {
            CursorType::NResize | CursorType::SResize | CursorType::EResize
            | CursorType::WResize => true,
            _ => false,
        }
    }

    /// Whether this shape is a combined-axis resize arrow.
    pub open spec fn is_combined_resize(self) -> bool {
        match self {
            CursorType::NEResize | CursorType::NWResize | CursorType::SEResize
            | CursorType::SWResize | CursorType::NSResize | CursorType::EWResize => true,
            _ => false,
        }
    }

    /// Whether this shape is any resize arrow.
    pub open spec fn is_resize(self) -> bool {
        self.is_single_resize() || self.is_combined_resize()
    }

    /// The combined-axis arrow two distinct single-axis arrows merge into.
    pub open spec fn merge_single_spec(self, rhs: Self) -> Self {
        match (self, rhs) {
            (CursorType::NResize, CursorType::SResize) => CursorType::NSResize,
            (CursorType::SResize, CursorType::NResize) => CursorType::NSResize,
            (CursorType::EResize, CursorType::WResize) => CursorType::EWResize,
            (CursorType::WResize, CursorType::EResize) => CursorType::EWResize,
            (CursorType::NResize, CursorType::EResize) => CursorType::NEResize,
            (CursorType::EResize, CursorType::NResize) => CursorType::NEResize,
            (CursorType::NResize, CursorType::WResize) => CursorType::NWResize,
            (CursorType::WResize, CursorType::NResize) => CursorType::NWResize,
            (CursorType::SResize, CursorType::EResize) => CursorType::SEResize,
            (CursorType::EResize, CursorType::SResize) => CursorType::SEResize,
            (CursorType::SResize, CursorType::WResize) => CursorType::SWResize,
            (CursorType::WResize, CursorType::SResize) => CursorType::SWResize,
            _ => self,
        }
    }

    /// Position of this shape in the precedence order:
    /// Unknown < Arrow < Text < Pointer < single-axis resize < combined-axis
    /// resize.
    pub open spec fn rank_spec(self) -> u8 {
        match self {
            CursorType::Unknown => 0u8,
            CursorType::Arrow => 1u8,
            CursorType::Text => 2u8,
            CursorType::Pointer => 3u8,
            CursorType::NResize | CursorType::SResize | CursorType::EResize
            | CursorType::WResize => 4u8,
            _ => 5u8,
        }
    }

    pub fn rank(self) -> (res: u8)
        ensures
            res == self.rank_spec(),
    {
        match self {
            CursorType::Unknown => 0,
            CursorType::Arrow => 1,
            CursorType::Text => 2,
            CursorType::Pointer => 3,
            CursorType::NResize | CursorType::SResize | CursorType::EResize
            | CursorType::WResize => 4,
            _ => 5,
        }
    }

    /// The shape two simultaneously requested shapes combine into: the one
    /// higher in the precedence order wins; two distinct single-axis arrows
    /// merge into the combined-axis arrow over both axes; between two
    /// distinct combined-axis arrows the first request stands.
    pub open spec fn combine_spec(self, rhs: Self) -> Self {
        if self == rhs {
            self
        } else if self.rank_spec() > rhs.rank_spec() {
            self
        } else if rhs.rank_spec() > self.rank_spec() {
            rhs
        } else if self.is_single_resize() && rhs.is_single_resize() {
            self.merge_single_spec(rhs)
        } else {
            self
        }
    }

    /// Combines two simultaneously requested shapes (overlapping regions that
    /// disagree) by the precedence order.
    pub fn combine(self, rhs: Self) -> (res: Self)
        ensures
            res == self.combine_spec(rhs),
    {
        if self == rhs {
            return self;
        }
        let ra = self.rank();
        let rb = rhs.rank();
        if ra > rb {
            self
        } else if rb > ra {
            rhs
        } else if ra == 4 {
            match (self, rhs) {
                (CursorType::NResize, CursorType::SResize) => CursorType::NSResize,
                (CursorType::SResize, CursorType::NResize) => CursorType::NSResize,
                (CursorType::EResize, CursorType::WResize) => CursorType::EWResize,
                (CursorType::WResize, CursorType::EResize) => CursorType::EWResize,
                (CursorType::NResize, CursorType::EResize) => CursorType::NEResize,
                (CursorType::EResize, CursorType::NResize) => CursorType::NEResize,
                (CursorType::NResize, CursorType::WResize) => CursorType::NWResize,
                (CursorType::WResize, CursorType::NResize) => CursorType::NWResize,
                (CursorType::SResize, CursorType::EResize) => CursorType::SEResize,
                (CursorType::EResize, CursorType::SResize) => CursorType::SEResize,
                (CursorType::SResize, CursorType::WResize) => CursorType::SWResize,
                (CursorType::WResize, CursorType::SResize) => CursorType::SWResize,
                _ => self,
            }
        } else {
            self
        }
    }

    /// The icon name this shape is looked up under in a cursor theme.
    pub open spec fn name_spec(self) -> Seq<char> {
        match self {
            CursorType::Unknown => "default"@,
            CursorType::Arrow => "arrow"@,
            CursorType::Pointer => "pointer"@,
            CursorType::Text => "text"@,
            CursorType::NResize => "n-resize"@,
            CursorType::SResize => "s-resize"@,
            CursorType::EResize => "e-resize"@,
            CursorType::WResize => "w-resize"@,
            CursorType::NEResize => "ne-resize"@,
            CursorType::NWResize => "nw-resize"@,
            CursorType::SEResize => "se-resize"@,
            CursorType::SWResize => "sw-resize"@,
            CursorType::NSResize => "ns-resize"@,
            CursorType::EWResize => "ew-resize"@,
        }
    }

    pub fn name(self) -> (res: &'static str)
        ensures
            res@ == self.name_spec(),
    {
        match self {
            CursorType::Unknown => "default",
            CursorType::Arrow => "arrow",
            CursorType::Pointer => "pointer",
            CursorType::Text => "text",
            CursorType::NResize => "n-resize",
            CursorType::SResize => "s-resize",
            CursorType::EResize => "e-resize",
            CursorType::WResize => "w-resize",
            CursorType::NEResize => "ne-resize",
            CursorType::NWResize => "nw-resize",
            CursorType::SEResize => "se-resize",
            CursorType::SWResize => "sw-resize",
            CursorType::NSResize => "ns-resize",
            CursorType::EWResize => "ew-resize",
        }
    }
}

/// Combining a shape with itself gives the shape back; a shape higher in
/// the precedence order always wins, whichever side it stands on; and
/// `Unknown` and `Arrow` never win over another shape.
pub proof fn lemma_combine_precedence(a: CursorType, b: CursorType)
    ensures
        a.combine_spec(a) == a,
        a.rank_spec() > b.rank_spec() ==> a.combine_spec(b) == a && b.combine_spec(a) == a,
        a.combine_spec(CursorType::Unknown) == a,
        CursorType::Unknown.combine_spec(a) == a,
        a != CursorType::Unknown ==> a.combine_spec(CursorType::Arrow) == a,
        a != CursorType::Unknown ==> CursorType::Arrow.combine_spec(a) == a,
{
}

/// What hovering a widget asks of the window: a repaint and a cursor shape.
pub struct HoverResult {
    pub redraw: bool,
    pub cursor: CursorType,
}

impl HoverResult {
    /// Folds the result of hovering a sibling region into this one.
    pub fn merge(&mut self, rhs: HoverResult)
        ensures
            final(self).redraw == (old(self).redraw || rhs.redraw),
            final(self).cursor == old(self).cursor.combine_spec(rhs.cursor),
    {
        let cursor = self.cursor.combine(rhs.cursor);
        self.redraw = self.redraw || rhs.redraw;
        self.cursor = cursor;
    }
}

/// The hotspot of a decoded cursor: the pixel that tracks the pointer.
#[derive(Clone, Copy, Debug, PartialEq, Eq, Structural)]
pub struct Hotspot {
    pub x: u32,
    pub y: u32,
}

/// What a successful cursor request tells the caller: the shape's hotspot and
/// whether a native cursor-change request must be issued now.
#[derive(Clone, Copy, Debug, PartialEq, Eq, Structural)]
pub struct CursorChange {
    pub hotspot: Hotspot,
    pub issue: bool,
}

/// One decoded shape the manager holds: the shape and its hotspot.
#[derive(Clone, Copy, Debug, PartialEq, Eq, Structural)]
pub struct CursorSlot {
    pub shape: CursorType,
    pub hotspot: Hotspot,
}

/// Index of the first slot at or after `i` holding `shape`, or -1.
pub open spec fn find_slot(slots: Seq<CursorSlot>, shape: CursorType, i: int) -> int
    decreases slots.len() - i,
{
    if i < 0 || i >= slots.len() {
        -1
    } else if slots[i].shape == shape {
        i
    } else {
        find_slot(slots, shape, i + 1)
    }
}

proof fn lemma_find_slot_hit(slots: Seq<CursorSlot>, shape: CursorType, lo: int, i: int)
    requires
        0 <= lo <= i < slots.len(),
        forall|j: int| lo <= j < i ==> slots[j].shape != shape,
        slots[i].shape == shape,
    ensures
        find_slot(slots, shape, lo) == i,
    decreases i - lo,
{
    if lo < i {
        lemma_find_slot_hit(slots, shape, lo + 1, i);
    }
}

proof fn lemma_find_slot_miss(slots: Seq<CursorSlot>, shape: CursorType, lo: int)
    requires
        0 <= lo,
        forall|j: int| lo <= j < slots.len() ==> slots[j].shape != shape,
    ensures
        find_slot(slots, shape, lo) == -1,
    decreases slots.len() - lo,
{
    if lo < slots.len() {
        lemma_find_slot_miss(slots, shape, lo + 1);
    }
}

/// The per-connection cursor cache: the hotspot of every shape that decoded
/// at startup, and the shape currently applied.
pub struct CursorManager {
    pub slots: Vec<CursorSlot>,
    pub current: CursorType,
}

impl CursorManager {
    /// Index of the slot holding `shape`, or -1 if it never loaded.
    pub open spec fn slot_index(self, shape: CursorType) -> int {
        find_slot(self.slots@, shape, 0)
    }

    /// Whether `shape` decoded at startup.
    pub open spec fn loaded(self, shape: CursorType) -> bool {
        self.slot_index(shape) >= 0
    }

    /// The shape applied after requesting `shape`: the request is honored
    /// exactly when the shape loaded.
    pub open spec fn next_current(self, shape: CursorType) -> CursorType {
        if self.loaded(shape) {
            shape
        } else {
            self.current
        }
    }

    /// Whether requesting `shape` issues a native cursor-change request: only
    /// a loaded shape different from the current one does.
    pub open spec fn issues_request(self, shape: CursorType) -> bool {
        self.loaded(shape) && self.current != shape
    }

    /// An empty manager; no shape is applied yet.
    pub fn new() -> (res: Self)
        ensures
            res.slots@.len() == 0,
            res.current == CursorType::Unknown,
    {
        CursorManager { slots: Vec::new(), current: CursorType::Unknown }
    }

    /// Decodes one shape out of its theme file and caches its hotspot.
    /// A shape whose file does not decode is simply not cached: a missing
    /// cursor theme degrades instead of blocking startup.
    pub fn load_shape(&mut self, shape: CursorType, data: &Vec<u8>, size: u32) -> (res: Result<
        CursorImage,
        DecodeError,
    >)
        requires
            36 + decode::pixel_bytes(size) <= usize::MAX as int,
    ensures
            final(self).current == old(self).current,
            res matches Ok(img) ==> {
                &&& final(self).slots@ == old(self).slots@.push(
                    CursorSlot { shape, hotspot: Hotspot { x: img.xhot, y: img.yhot } },
                )
                &&& img.width == size
                &&& img.height == size
                &&& ({
                    let pos = decode::entry_pos(
                        data@,
                        decode::first_match_from(data@, size, 0),
                    ) as int;
                    img.xhot == decode::be32(data@, pos + 24) && img.yhot == decode::be32(
                        data@,
                        pos + 28,
                    )
                })
            },
            res matches Err(_) ==> final(self).slots@ == old(self).slots@,
            (res matches Ok(_)) <==> (decode::header_ok(data@) && decode::first_match_from(
                data@,
                size,
                0,
            ) >= 0),
    {
        match decode::decode_cursor(data, size) {
            Ok(img) => {
                self.slots.push(
                    CursorSlot { shape, hotspot: Hotspot { x: img.xhot, y: img.yhot } },
                );
                Ok(img)
            },
            Err(e) => Err(e),
        }
    }

    /// Requests a cursor shape. Returns the shape's hotspot, and whether a
    /// native cursor-change request must be issued: at most one per distinct
    /// requested shape, a repeated request is free. A shape that never loaded
    /// is refused with `NotFound` and changes nothing; the caller falls back
    /// to the default arrow.
    pub fn set_cursor(&mut self, shape: CursorType) -> (res: Result<CursorChange, DecodeError>)
        ensures
            final(self).slots@ == old(self).slots@,
            final(self).current == old(self).next_current(shape),
            (res matches Ok(_)) <==> old(self).loaded(shape),
            res matches Ok(c) ==> {
                &&& c.issue == old(self).issues_request(shape)
                &&& c.hotspot == final(self).slots@[old(self).slot_index(shape)].hotspot
            },
            res matches Err(e) ==> e == DecodeError::NotFound && final(self).current == old(
                self,
            ).current,
    {
        let mut i: usize = 0;
        let n = self.slots.len();
        while i < n
            invariant
                self.slots@ == old(self).slots@,
                self.current == old(self).current,
                n == self.slots@.len(),
                i <= n,
                forall|j: int| 0 <= j < i as int ==> self.slots@[j].shape != shape,
            decreases n - i,
        {
            if self.slots[i].shape == shape {
                proof {
                    lemma_find_slot_hit(self.slots@, shape, 0, i as int);
                }
                let hotspot = self.slots[i].hotspot;
                let issue = self.current != shape;
                self.current = shape;
                return Ok(CursorChange { hotspot, issue });
            }
            i = i + 1;
        }
        proof {
            lemma_find_slot_miss(self.slots@, shape, 0);
        }
        Err(DecodeError::NotFound)
    }
}

/// The fixed shape set every connection decodes once at construction and
/// caches for the process lifetime.
pub open spec fn standard_shape_list() -> Seq<CursorType> {
    seq![
        CursorType::Arrow,
        CursorType::Pointer,
        CursorType::Text,
        CursorType::NResize,
        CursorType::SResize,
        CursorType::EResize,
        CursorType::WResize,
        CursorType::NEResize,
        CursorType::NWResize,
        CursorType::SEResize,
        CursorType::SWResize,
    ]
}

/// The fixed shape set, for the caller that loads and uploads it.
pub fn standard_shapes() -> (res: Vec<CursorType>)
    ensures
        res@ == standard_shape_list(),
{
    let mut shapes: Vec<CursorType> = Vec::new();
    shapes.push(CursorType::Arrow);
    shapes.push(CursorType::Pointer);
    shapes.push(CursorType::Text);
    shapes.push(CursorType::NResize);
    shapes.push(CursorType::SResize);
    shapes.push(CursorType::EResize);
    shapes.push(CursorType::WResize);
    shapes.push(CursorType::NEResize);
    shapes.push(CursorType::NWResize);
    shapes.push(CursorType::SEResize);
    shapes.push(CursorType::SWResize);
    proof {
        assert(shapes@ =~= standard_shape_list());
    }
    shapes
}

/// A shape that decoded at startup, with its image for the native upload.
pub struct LoadedShape {
    pub shape: CursorType,
    pub image: CursorImage,
}

/// The slot a theme file contributes for a shape: present exactly when the
/// file holds an image chunk of the nominal size, carrying that chunk's
/// embedded hotspot.
pub open spec fn decoded_slot(file: Seq<u8>, shape: CursorType, size: u32) -> Option<CursorSlot> {
    if decode::header_ok(file) && decode::first_match_from(file, size, 0) >= 0 {
        let pos = decode::entry_pos(file, decode::first_match_from(file, size, 0)) as int;
        Some(
            CursorSlot {
                shape,
                hotspot: Hotspot {
                    x: decode::be32(file, pos + 24),
                    y: decode::be32(file, pos + 28),
                },
            },
        )
    } else {
        None
    }
}

/// The slots the first `i` shape files contribute, in order, shapes whose
/// file does not decode skipped.
pub open spec fn loaded_prefix(
    files: Seq<Vec<u8>>,
    shapes: Seq<CursorType>,
    size: u32,
    i: int,
) -> Seq<CursorSlot>
    decreases i,
{
    if i <= 0 {
        Seq::empty()
    } else {
        loaded_prefix(files, shapes, size, i - 1) + (match decoded_slot(
            files[i - 1]@,
            shapes[i - 1],
            size,
        ) {
            Some(slot) => seq![slot],
            None => Seq::empty(),
        })
    }
}

impl CursorManager {
    /// Builds the connection's cursor cache at construction: decodes the
    /// fixed shape set out of its theme files, one file per shape of
    /// `standard_shapes` in that order, caching each hotspot. A shape whose
    /// file does not decode is skipped: a missing cursor theme degrades
    /// instead of blocking startup. The default arrow is applied when it
    /// loaded. Returns the decoded shapes, in cache order, for the caller to
    /// upload as native cursor objects.
    pub fn load_standard(&mut self, files: &Vec<Vec<u8>>, size: u32) -> (res: Vec<LoadedShape>)
        requires
            old(self).slots@.len() == 0,
            files@.len() == standard_shape_list().len(),
            36 + decode::pixel_bytes(size) <= usize::MAX as int,
        ensures
            final(self).slots@ == loaded_prefix(
                files@,
                standard_shape_list(),
                size,
                standard_shape_list().len() as int,
            ),
            final(self).loaded(CursorType::Arrow) ==> final(self).current == CursorType::Arrow,
            !final(self).loaded(CursorType::Arrow) ==> final(self).current == old(self).current,
            res@.len() == final(self).slots@.len(),
            forall|j: int|
                0 <= j < res@.len() ==> {
                    &&& (#[trigger] res@[j]).shape == final(self).slots@[j].shape
                    &&& res@[j].image.xhot == final(self).slots@[j].hotspot.x
                    &&& res@[j].image.yhot == final(self).slots@[j].hotspot.y
                    &&& res@[j].image.width == size
                    &&& res@[j].image.height == size
                },
    {
        let shapes = standard_shapes();
        let mut res: Vec<LoadedShape> = Vec::new();
        let n = shapes.len();
        let mut i: usize = 0;
        while i < n
            invariant
                shapes@ == standard_shape_list(),
                n == shapes@.len(),
                files@.len() == shapes@.len(),
                i <= n,
                36 + decode::pixel_bytes(size) <= usize::MAX as int,
                self.slots@ == loaded_prefix(files@, shapes@, size, i as int),
                self.current == old(self).current,
                res@.len() == self.slots@.len(),
                forall|j: int|
                    0 <= j < res@.len() ==> {
                        &&& (#[trigger] res@[j]).shape == self.slots@[j].shape
                        &&& res@[j].image.xhot == self.slots@[j].hotspot.x
                        &&& res@[j].image.yhot == self.slots@[j].hotspot.y
                        &&& res@[j].image.width == size
                        &&& res@[j].image.height == size
                    },
            decreases n - i,
        {
            let shape = shapes[i];
            match self.load_shape(shape, &files[i], size) {
                Ok(image) => {
                    res.push(LoadedShape { shape, image });
                },
                Err(_) => {},
            }
            proof {
                assert(self.slots@ =~= loaded_prefix(files@, shapes@, size, i + 1));
            }
            i = i + 1;
        }
        let _ = self.set_cursor(CursorType::Arrow);
        res
    }
}

/// Requesting the same shape twice in a row issues at most one native
/// cursor-change request: after the first request is honored, a manager in
/// the resulting state issues none for that shape.
pub proof fn lemma_second_set_cursor_free(m: CursorManager, m2: CursorManager, shape: CursorType)
    requires
        m.loaded(shape),
        m2.slots@ == m.slots@,
        m2.current == m.next_current(shape),
    ensures
        !m2.issues_request(shape),
{
}

} // verus!
