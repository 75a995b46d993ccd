//! A displayable surface holding a retained scene, and the backend that records
//! one drawing session into it.
use crate::common;
use crate::common::{
    circle_drawn, is_stroke, line_drawn, open_path, path_drawn, pixel_drawn, polygon_filled,
    rect_drawn, text_drawn,
};
use crate::scene::{
    frozen, Bounds, Color, Coord, FillRule, FloatBits, Node, Recorder, SceneNode, Style,
    DEFAULT_FILL_RULE,
};
use crate::text::TextStyle;
use std::rc::Rc;
use vstd::prelude::*;

verus! {

/// What a surface is: its fixed size, its content, and whether a change of its
/// content awaits a repaint.
pub ghost struct SurfaceModel {
    pub width: u32,
    pub height: u32,
    pub content: Option<Seq<Node>>,
    pub redraw_pending: bool,
}

/// A surface of fixed size whose content is a retained scene, replaced
/// wholesale on every commit and painted at any requested size.
#[derive(Debug)]
pub struct Paintable {
    width: u32,
    height: u32,
    node: Option<Rc<SceneNode>>,
    redraw_pending: bool,
}

pub open spec fn content_view(node: Option<Rc<SceneNode>>) -> Option<Seq<Node>> {
    match node {
        Some(n) => Some(n@),
        None => None,
    }
}

impl View for Paintable {
    type V = SurfaceModel;

    closed spec fn view(&self) -> SurfaceModel {
        SurfaceModel {
            width: self.width,
            height: self.height,
            content: content_view(self.node),
            redraw_pending: self.redraw_pending,
        }
    }
}

/// The nodes a surface holding `content` of size `(width, height)` adds to a
/// sink when painted at `(sink_width, sink_height)`: none without content;
/// otherwise the content, scaled to the sink and clipped to the surface.
pub open spec fn painted(
    surface: SurfaceModel,
    sink_width: FloatBits,
    sink_height: FloatBits,
    before: Seq<Node>,
    after: Seq<Node>,
) -> bool {
    match surface.content {
        None => after == before,
        Some(content) => {
            let n = before.len() as int;
            &&& after.len() == before.len() + 6
            &&& after.take(before.len() as int) == before
            &&& after[n + 0] == Node::Save
            &&& after[n + 1] == Node::Scale {
                sink_width,
                own_width: surface.width,
                sink_height,
                own_height: surface.height,
            }
            &&& after[n + 2] == Node::PushClip(
                Bounds { x: 0, y: 0, width: surface.width as i64, height: surface.height as i64 },
            )
            &&& after[n + 3] matches Node::Retained(r) && r@ == content
            &&& after[n + 4] == Node::Pop
            &&& after[n + 5] == Node::Restore
        },
    }
}

impl Paintable {
    /// The size stays positive and fits an `i32`, as toolkits report it.
    #[verifier::type_invariant]
    spec fn size_in_range(&self) -> bool {
        0 < self.width <= i32::MAX && 0 < self.height <= i32::MAX
    }

    /// A surface of the given size with no content.
    pub fn new(size: (u32, u32)) -> (r: Paintable)
        requires
            0 < size.0 <= i32::MAX,
            0 < size.1 <= i32::MAX,
        ensures
            r@ == (SurfaceModel {
                width: size.0,
                height: size.1,
                content: None,
                redraw_pending: false,
            }),
    {
        Paintable { width: size.0, height: size.1, node: None, redraw_pending: false }
    }

    pub fn width(&self) -> (r: u32)
        ensures
            r == self@.width,
    {
        self.width
    }

    pub fn height(&self) -> (r: u32)
        ensures
            r == self@.height,
    {
        self.height
    }

    pub fn size(&self) -> (r: (u32, u32))
        ensures
            r == (self@.width, self@.height),
    {
        (self.width, self.height)
    }

    /// The current content, if any.
    pub fn node(&self) -> (r: Option<Rc<SceneNode>>)
        ensures
            content_view(r) == self@.content,
    {
        match &self.node {
            Some(n) => Some(n.clone()),
            None => None,
        }
    }

    /// Removes the content.
    pub fn clear(&mut self)
        ensures
            final(self)@ == (SurfaceModel {
                content: None,
                redraw_pending: true,
                ..old(self)@
            }),
    {
        self.set_node(None);
    }

    /// Replaces the content and marks the surface as changed.
    pub fn set_node(&mut self, node: Option<SceneNode>)
        ensures
            final(self)@ == (SurfaceModel {
                content: match node {
                    Some(n) => Some(n@),
                    None => None,
                },
                redraw_pending: true,
                ..old(self)@
            }),
    {
        proof {
            use_type_invariant(&*self);
        }
        self.node = match node {
            Some(n) => Some(Rc::new(n)),
            None => None,
        };
        self.redraw_pending = true;
    }

    /// Reports whether the content changed since the last call, and forgets it.
    pub fn take_redraw(&mut self) -> (r: bool)
        ensures
            r == old(self)@.redraw_pending,
            final(self)@ == (SurfaceModel { redraw_pending: false, ..old(self)@ }),
    {
        proof {
            use_type_invariant(&*self);
        }
        let r = self.redraw_pending;
        self.redraw_pending = false;
        r
    }

    /// Paints the content into `sink` at size `(sink_width, sink_height)`.
    pub fn snapshot(&self, sink: &mut Recorder, sink_width: FloatBits, sink_height: FloatBits)
        ensures
            painted(self@, sink_width, sink_height, old(sink)@, final(sink)@),
    {
        match &self.node {
            None => {},
            Some(node) => {
                sink.append(Node::Save);
                sink.append(
                    Node::Scale {
                        sink_width,
                        own_width: self.width,
                        sink_height,
                        own_height: self.height,
                    },
                );
                sink.append(
                    Node::PushClip(
                        Bounds { x: 0, y: 0, width: self.width as i64, height: self.height as i64 },
                    ),
                );
                sink.append(Node::Retained(node.clone()));
                sink.append(Node::Pop);
                sink.append(Node::Restore);
                assert(final(sink)@.take(old(sink)@.len() as int) =~= old(sink)@);
            },
        }
    }

    pub fn intrinsic_width(&self) -> (r: i32)
        ensures
            r == self@.width,
    {
        proof {
            use_type_invariant(self);
        }
        self.width as i32
    }

    pub fn intrinsic_height(&self) -> (r: i32)
        ensures
            r == self@.height,
    {
        proof {
            use_type_invariant(self);
        }
        self.height as i32
    }
}

/// Where a drawing session stands.
#[derive(Debug)]
enum Session {
    /// No recorder yet.
    Idle,
    /// Primitives are being recorded.
    Recording(Recorder),
    /// The recording was committed; nothing more is drawn.
    Finalized,
}

pub ghost enum Phase {
    Idle,
    Recording,
    Finalized,
}

/// What a surface-backed backend is: its session's phase, what it has
/// recorded so far, the surface it commits to, and its fixed settings.
pub ghost struct BackendModel {
    pub phase: Phase,
    pub recorded: Seq<Node>,
    pub surface: SurfaceModel,
    pub size: (u32, u32),
    pub fill_rule: FillRule,
}

/// The recording that a draw call extends: an idle session starts afresh.
pub open spec fn pending(m: BackendModel) -> Seq<Node> {
    if m.phase is Recording {
        m.recorded
    } else {
        Seq::empty()
    }
}

/// The backend after a draw call whose nodes turned the pending recording into
/// `recorded`.
pub open spec fn recording(m: BackendModel, recorded: Seq<Node>) -> BackendModel {
    BackendModel { phase: Phase::Recording, recorded, ..m }
}

/// The backend after preparation: an idle session starts recording.
pub open spec fn prepared(m: BackendModel) -> BackendModel {
    if m.phase is Idle {
        recording(m, Seq::empty())
    } else {
        m
    }
}

/// The backend after it presents: a recording session commits what it
/// recorded to the surface and is finalized; any other session is unchanged.
pub open spec fn presented(m: BackendModel) -> BackendModel {
    if m.phase is Recording {
        BackendModel {
            phase: Phase::Finalized,
            recorded: Seq::empty(),
            surface: SurfaceModel { content: frozen(m.recorded), redraw_pending: true, ..m.surface },
            ..m
        }
    } else {
        m
    }
}

/// Presenting twice commits once: a second present, or finishing after a
/// present, leaves the backend and its surface as the first present left them.
pub proof fn lemma_present_idempotent(m: BackendModel)
    ensures
        presented(presented(m)) == presented(m),
        presented(presented(m)).surface == presented(m).surface,
{
}

/// Committing a session never changes the size of its surface.
pub proof fn lemma_present_keeps_size(m: BackendModel)
    ensures
        presented(m).surface.width == m.surface.width,
        presented(m).surface.height == m.surface.height,
        presented(m).size == m.size,
{
}

/// A fresh session that draws one path of at least one point and presents
/// commits exactly one node: the stroke of the open polyline through the
/// points, with the style's width and color.
pub proof fn lemma_committed_path(m: BackendModel, after: Seq<Node>, points: Seq<Coord>, style: Style)
    requires
        m.phase is Idle,
        points.len() > 0,
        path_drawn(pending(m), after, points, style),
    ensures
        presented(recording(m, after)).surface.content matches Some(c) && c.len() == 1
            && is_stroke(c[0], open_path(points), style),
{
}

/// A backend that records a drawing session and, when it presents or is
/// finished, commits the recording as the content of its surface.
#[derive(Debug)]
pub struct PaintableBackend {
    session: Session,
    paintable: Paintable,
    size: (u32, u32),
    fill_rule: FillRule,
}

impl View for PaintableBackend {
    type V = BackendModel;

    closed spec fn view(&self) -> BackendModel {
        BackendModel {
            phase: match self.session {
                Session::Idle => Phase::Idle,
                Session::Recording(_) => Phase::Recording,
                Session::Finalized => Phase::Finalized,
            },
            recorded: match self.session {
                Session::Recording(r) => r@,
                _ => Seq::empty(),
            },
            surface: self.paintable@,
            size: self.size,
            fill_rule: self.fill_rule,
        }
    }
}

impl PaintableBackend {
    /// A backend over `paintable`, with the surface's size and the default
    /// fill rule.
    pub fn new(paintable: Paintable) -> (r: PaintableBackend)
        ensures
            r@ == (BackendModel {
                phase: Phase::Idle,
                recorded: Seq::empty(),
                surface: paintable@,
                size: (paintable@.width, paintable@.height),
                fill_rule: DEFAULT_FILL_RULE,
            }),
    {
        let size = paintable.size();
        PaintableBackend { session: Session::Idle, paintable, size, fill_rule: DEFAULT_FILL_RULE }
    }

    /// The same backend, filling polygons and circles by `rule`.
    pub fn with_fill_rule(self, rule: FillRule) -> (r: PaintableBackend)
        ensures
            r@ == (BackendModel { fill_rule: rule, ..self@ }),
    {
        PaintableBackend { fill_rule: rule, ..self }
    }

    pub fn paintable(&self) -> (r: &Paintable)
        ensures
            r@ == self@.surface,
    {
        &self.paintable
    }

    pub fn get_size(&self) -> (r: (u32, u32))
        ensures
            r == self@.size,
    {
        self.size
    }

    /// Whether the session was committed; a finalized session draws nothing more.
    pub fn is_finalized(&self) -> (r: bool)
        ensures
            r == (self@.phase is Finalized),
    {
        match self.session {
            Session::Finalized => true,
            _ => false,
        }
    }

    /// Starts recording unless a recording is under way or done.
    pub fn ensure_prepared(&mut self)
        ensures
            final(self)@ == prepared(old(self)@),
    {
        if let Session::Idle = self.session {
            self.session = Session::Recording(Recorder::new());
        }
    }

    /// Commits the recording to the surface and ends the session; does nothing
    /// if no recording is under way.
    pub fn present(&mut self)
        ensures
            final(self)@ == presented(old(self)@),
    {
        if let Session::Recording(_) = self.session {
            let mut session = Session::Finalized;
            std::mem::swap(&mut self.session, &mut session);
            if let Session::Recording(recorder) = session {
                self.paintable.set_node(recorder.to_node());
            }
        }
    }

    /// Ends the session as [`PaintableBackend::present`] does, and hands the
    /// surface back.
    pub fn finish(self) -> (r: Paintable)
        ensures
            r@ == presented(self@).surface,
    {
        let mut backend = self;
        backend.present();
        backend.paintable
    }

    /// Takes the pending recording out, leaving the session idle.
    fn take_recorder(&mut self) -> (r: Recorder)
        ensures
            r@ == pending(old(self)@),
            final(self)@ == (BackendModel {
                phase: Phase::Idle,
                recorded: Seq::empty(),
                ..old(self)@
            }),
    {
        let mut session = Session::Idle;
        std::mem::swap(&mut self.session, &mut session);
        match session {
            Session::Recording(recorder) => recorder,
            _ => Recorder::new(),
        }
    }

    pub fn draw_pixel(&mut self, point: Coord, color: Color)
        requires
            !(old(self)@.phase is Finalized),
        ensures
            final(self)@ == recording(old(self)@, final(self)@.recorded),
            pixel_drawn(pending(old(self)@), final(self)@.recorded, point, color),
    {
        let mut recorder = self.take_recorder();
        common::draw_pixel(&mut recorder, point, color);
        self.session = Session::Recording(recorder);
    }

    pub fn draw_line(&mut self, from: Coord, to: Coord, style: &Style)
        requires
            !(old(self)@.phase is Finalized),
        ensures
            final(self)@ == recording(old(self)@, final(self)@.recorded),
            line_drawn(pending(old(self)@), final(self)@.recorded, from, to, *style),
    {
        let mut recorder = self.take_recorder();
        common::draw_line(&mut recorder, from, to, style);
        self.session = Session::Recording(recorder);
    }

    pub fn draw_rect(&mut self, upper_left: Coord, bottom_right: Coord, style: &Style, fill: bool)
        requires
            !(old(self)@.phase is Finalized),
        ensures
            final(self)@ == recording(old(self)@, final(self)@.recorded),
            rect_drawn(
                pending(old(self)@),
                final(self)@.recorded,
                upper_left,
                bottom_right,
                *style,
                fill,
            ),
    {
        let mut recorder = self.take_recorder();
        common::draw_rect(&mut recorder, upper_left, bottom_right, style, fill);
        self.session = Session::Recording(recorder);
    }

    pub fn draw_path(&mut self, points: &[Coord], style: &Style)
        requires
            !(old(self)@.phase is Finalized),
        ensures
            final(self)@ == recording(old(self)@, final(self)@.recorded),
            path_drawn(pending(old(self)@), final(self)@.recorded, points@, *style),
    {
        let mut recorder = self.take_recorder();
        common::draw_path(&mut recorder, points, style);
        self.session = Session::Recording(recorder);
    }

    pub fn fill_polygon(&mut self, points: &[Coord], style: &Style)
        requires
            !(old(self)@.phase is Finalized),
        ensures
            final(self)@ == recording(old(self)@, final(self)@.recorded),
            polygon_filled(
                pending(old(self)@),
                final(self)@.recorded,
                points@,
                *style,
                old(self)@.fill_rule,
            ),
    {
        let mut recorder = self.take_recorder();
        common::fill_polygon(&mut recorder, points, style, self.fill_rule);
        self.session = Session::Recording(recorder);
    }

    pub fn draw_circle(&mut self, center: Coord, radius: u32, style: &Style, fill: bool)
        requires
            !(old(self)@.phase is Finalized),
        ensures
            final(self)@ == recording(old(self)@, final(self)@.recorded),
            circle_drawn(
                pending(old(self)@),
                final(self)@.recorded,
                center,
                radius,
                *style,
                fill,
                old(self)@.fill_rule,
            ),
    {
        let mut recorder = self.take_recorder();
        common::draw_circle(&mut recorder, center, radius, style, fill, self.fill_rule);
        self.session = Session::Recording(recorder);
    }

    /// Draws `text` whose configured layout measured `(extent_width,
    /// extent_height)` pixels.
    pub fn draw_text(&mut self, text: &str, style: &TextStyle, pos: Coord, extent_width: i32, extent_height: i32)
        requires
            !(old(self)@.phase is Finalized),
        ensures
            final(self)@ == recording(old(self)@, final(self)@.recorded),
            text_drawn(
                pending(old(self)@),
                final(self)@.recorded,
                text@,
                *style,
                pos,
                extent_width as int,
                extent_height as int,
            ),
    {
        let mut recorder = self.take_recorder();
        common::draw_text(&mut recorder, text, style, pos, extent_width, extent_height);
        self.session = Session::Recording(recorder);
    }

    /// The size of a text whose configured layout reports the given pixel size.
    pub fn estimate_text_size(&self, pixel_width: i32, pixel_height: i32) -> (r: (u32, u32))
        ensures
            r == (pixel_width as u32, pixel_height as u32),
    {
        common::estimate_text_size(pixel_width, pixel_height)
    }
}

} // verus!
