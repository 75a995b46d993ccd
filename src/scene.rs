//! A retained-mode scene model: colors, vector paths, drawing nodes, and the
//! recorder that accumulates them into a frozen scene.
use std::rc::Rc;
use vstd::prelude::*;

verus! {

/// A floating-point quantity of the host toolkit (an alpha value, a font size,
/// a sink extent), carried as the bit pattern of an `f64` and never computed on
/// here.
#[derive(Clone, Copy, Debug, PartialEq, Eq, Hash)]
pub struct FloatBits(pub u64);

/// An RGB color with 0-255 channels and an alpha value.
#[derive(Clone, Copy, Debug, PartialEq, Eq, Hash)]
pub struct Color {
    pub red: u8,
    pub green: u8,
    pub blue: u8,
    pub alpha: FloatBits,
}

/// A color and a stroke width, as handed to each draw call.
#[derive(Clone, Copy, Debug, PartialEq, Eq, Hash)]
pub struct Style {
    pub color: Color,
    pub stroke_width: u32,
}

/// A position in backend pixel space.
pub type Coord = (i32, i32);

/// One command of a vector path.
#[derive(Clone, Copy, Debug, PartialEq, Eq, Hash)]
pub enum PathOp {
    MoveTo(i32, i32),
    LineTo(i32, i32),
    Close,
    Circle { cx: i32, cy: i32, radius: u32 },
}

/// The rule that decides which parts of a closed path are inside.
#[derive(Clone, Copy, Debug, PartialEq, Eq, Hash)]
pub enum FillRule {
    Winding,
    EvenOdd,
}

/// The rule used for filled polygons and circles unless a backend is told otherwise.
pub const DEFAULT_FILL_RULE: FillRule = FillRule::Winding;

/// An immutable vector path.
#[derive(Debug, PartialEq, Eq, Hash)]
pub struct Path {
    ops: Vec<PathOp>,
}

impl View for Path {
    type V = Seq<PathOp>;

    closed spec fn view(&self) -> Seq<PathOp> {
        self.ops@
    }
}

impl Path {
    pub fn ops(&self) -> (r: &Vec<PathOp>)
        ensures
            r@ == self@,
    {
        &self.ops
    }
}

/// Accumulates path commands until it is frozen into a [`Path`].
#[derive(Debug)]
pub struct PathBuilder {
    ops: Vec<PathOp>,
}

impl View for PathBuilder {
    type V = Seq<PathOp>;

    closed spec fn view(&self) -> Seq<PathOp> {
        self.ops@
    }
}

impl PathBuilder {
    pub fn new() -> (r: PathBuilder)
        ensures
            r@ == Seq::<PathOp>::empty(),
    {
        PathBuilder { ops: Vec::new() }
    }

    pub fn move_to(&mut self, x: i32, y: i32)
        ensures
            final(self)@ == old(self)@.push(PathOp::MoveTo(x, y)),
    {
        self.ops.push(PathOp::MoveTo(x, y));
    }

    pub fn line_to(&mut self, x: i32, y: i32)
        ensures
            final(self)@ == old(self)@.push(PathOp::LineTo(x, y)),
    {
        self.ops.push(PathOp::LineTo(x, y));
    }

    pub fn close(&mut self)
        ensures
            final(self)@ == old(self)@.push(PathOp::Close),
    {
        self.ops.push(PathOp::Close);
    }

    pub fn add_circle(&mut self, cx: i32, cy: i32, radius: u32)
        ensures
            final(self)@ == old(self)@.push(PathOp::Circle { cx, cy, radius }),
    {
        self.ops.push(PathOp::Circle { cx, cy, radius });
    }

    pub fn to_path(self) -> (r: Path)
        ensures
            r@ == self@,
    {
        Path { ops: self.ops }
    }
}

/// An axis-aligned rectangle given by its origin and its (possibly negative)
/// extents.
#[derive(Clone, Copy, Debug, PartialEq, Eq, Hash)]
pub struct Bounds {
    pub x: i64,
    pub y: i64,
    pub width: i64,
    pub height: i64,
}

/// A translation measured in half pixels, so that centring on an odd extent
/// stays exact: the offset in pixels is `(x2 / 2, y2 / 2)`.
#[derive(Clone, Copy, Debug, PartialEq, Eq, Hash)]
pub struct HalfOffset {
    pub x2: i64,
    pub y2: i64,
}

/// How a single face of text is slanted.
#[derive(Clone, Copy, Debug, PartialEq, Eq, Hash)]
pub enum Slant {
    Normal,
    Italic,
    Oblique,
}

/// A font request: family, absolute size, and the slant or the weight it sets.
/// Slant and weight are independent: a request sets at most one of them.
#[derive(Debug, PartialEq, Eq, Hash)]
pub struct FontDescription {
    pub family: String,
    pub absolute_size: FloatBits,
    pub slant: Option<Slant>,
    pub bold: bool,
}

/// What a text layout object is configured with before it measures or draws.
#[derive(Debug, PartialEq, Eq, Hash)]
pub struct LayoutConfig {
    pub text: String,
    pub font: FontDescription,
}

/// One drawing operation of a scene.
#[derive(Debug, PartialEq, Eq, Hash)]
pub enum Node {
    /// A rectangle filled with one color.
    ColorRect { color: Color, bounds: Bounds },
    /// A path stroked with a line of the given width.
    Stroke { path: Path, width: u32, color: Color },
    /// A path filled by the given rule.
    Fill { path: Path, rule: FillRule, color: Color },
    /// A rectangle outlined as four edges, each with this width and color.
    Border { bounds: Bounds, width: u32, color: Color },
    /// Text laid out with the given configuration.
    Text { layout: LayoutConfig, color: Color },
    Save,
    Restore,
    Translate(HalfOffset),
    /// A rotation in degrees about the current origin.
    Rotate(u32),
    /// A scale by `sink / own` along each axis.
    Scale { sink_width: FloatBits, own_width: u32, sink_height: FloatBits, own_height: u32 },
    PushClip(Bounds),
    Pop,
    /// A retained scene replayed as a whole.
    Retained(Rc<SceneNode>),
}

/// A frozen, replayable scene holding at least one node.
#[derive(Debug, PartialEq, Eq, Hash)]
pub struct SceneNode {
    nodes: Vec<Node>,
}

impl View for SceneNode {
    type V = Seq<Node>;

    closed spec fn view(&self) -> Seq<Node> {
        self.nodes@
    }
}

impl SceneNode {
    pub fn nodes(&self) -> (r: &Vec<Node>)
        ensures
            r@ == self@,
    {
        &self.nodes
    }
}

/// A write-only accumulator of nodes.
#[derive(Debug)]
pub struct Recorder {
    nodes: Vec<Node>,
}

impl View for Recorder {
    type V = Seq<Node>;

    closed spec fn view(&self) -> Seq<Node> {
        self.nodes@
    }
}

/// The retained node a recording freezes into: none when nothing was recorded.
pub open spec fn frozen(nodes: Seq<Node>) -> Option<Seq<Node>> {
    if nodes.len() == 0 {
        None
    } else {
        Some(nodes)
    }
}

impl Recorder {
    pub fn new() -> (r: Recorder)
        ensures
            r@ == Seq::<Node>::empty(),
    {
        Recorder { nodes: Vec::new() }
    }

    pub fn nodes(&self) -> (r: &Vec<Node>)
        ensures
            r@ == self@,
    {
        &self.nodes
    }

    pub fn len(&self) -> (r: usize)
        ensures
            r == self@.len(),
    {
        self.nodes.len()
    }

    pub fn append(&mut self, node: Node)
        ensures
            final(self)@ == old(self)@.push(node),
    {
        self.nodes.push(node);
    }

    /// Freezes the recording; an empty recording yields no node.
    pub fn to_node(self) -> (r: Option<SceneNode>)
        ensures
            r matches Some(n) ==> frozen(self@) == Some(n@),
            r is None <==> frozen(self@) is None,
    {
        if self.nodes.len() == 0 {
            None
        } else {
            Some(SceneNode { nodes: self.nodes })
        }
    }
}

} // verus!
