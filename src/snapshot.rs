//! A backend that draws straight into a recorder it was handed.
use crate::common;
use crate::common::{
    circle_drawn, line_drawn, path_drawn, pixel_drawn, polygon_filled, rect_drawn, text_drawn,
};
use crate::scene::{Color, Coord, FillRule, Node, Recorder, Style, DEFAULT_FILL_RULE};
use crate::text::TextStyle;
use vstd::prelude::*;

verus! {

/// What a recorder-backed backend is: the nodes in its recorder and its fixed
/// settings.
pub ghost struct RecorderModel {
    pub recorded: Seq<Node>,
    pub size: (u32, u32),
    pub fill_rule: FillRule,
}

/// A backend that appends every primitive to a recorder, over a canvas of
/// fixed size.
#[derive(Debug)]
pub struct SnapshotBackend {
    recorder: Recorder,
    size: (u32, u32),
    fill_rule: FillRule,
}

impl View for SnapshotBackend {
    type V = RecorderModel;

    closed spec fn view(&self) -> RecorderModel {
        RecorderModel { recorded: self.recorder@, size: self.size, fill_rule: self.fill_rule }
    }
}

impl SnapshotBackend {
    /// A backend drawing into `recorder` on a canvas of `size`, with the
    /// default fill rule.
    pub fn new(recorder: Recorder, size: (u32, u32)) -> (r: SnapshotBackend)
        ensures
            r@ == (RecorderModel { recorded: recorder@, size, fill_rule: DEFAULT_FILL_RULE }),
    {
        SnapshotBackend { recorder, size, fill_rule: DEFAULT_FILL_RULE }
    }

    /// The same backend, filling polygons and circles by `rule`.
    pub fn with_fill_rule(self, rule: FillRule) -> (r: SnapshotBackend)
        ensures
            r@ == (RecorderModel { fill_rule: rule, ..self@ }),
    {
        SnapshotBackend { fill_rule: rule, ..self }
    }

    pub fn recorder(&self) -> (r: &Recorder)
        ensures
            r@ == self@.recorded,
    {
        &self.recorder
    }

    /// Hands the recorder back.
    pub fn into_recorder(self) -> (r: Recorder)
        ensures
            r@ == self@.recorded,
    {
        self.recorder
    }

    pub fn get_size(&self) -> (r: (u32, u32))
        ensures
            r == self@.size,
    {
        self.size
    }

    /// The recorder is ready from the start: nothing to do.
    pub fn ensure_prepared(&mut self)
        ensures
            final(self)@ == old(self)@,
    {
    }

    /// The recorder belongs to the caller, who freezes it: nothing to do.
    pub fn present(&mut self)
        ensures
            final(self)@ == old(self)@,
    {
    }

    pub fn draw_pixel(&mut self, point: Coord, color: Color)
        ensures
            final(self)@ == (RecorderModel { recorded: final(self)@.recorded, ..old(self)@ }),
            pixel_drawn(old(self)@.recorded, final(self)@.recorded, point, color),
    {
        common::draw_pixel(&mut self.recorder, point, color);
    }

    pub fn draw_line(&mut self, from: Coord, to: Coord, style: &Style)
        ensures
            final(self)@ == (RecorderModel { recorded: final(self)@.recorded, ..old(self)@ }),
            line_drawn(old(self)@.recorded, final(self)@.recorded, from, to, *style),
    {
        common::draw_line(&mut self.recorder, from, to, style);
    }

    pub fn draw_rect(&mut self, upper_left: Coord, bottom_right: Coord, style: &Style, fill: bool)
        ensures
            final(self)@ == (RecorderModel { recorded: final(self)@.recorded, ..old(self)@ }),
            rect_drawn(
                old(self)@.recorded,
                final(self)@.recorded,
                upper_left,
                bottom_right,
                *style,
                fill,
            ),
    {
        common::draw_rect(&mut self.recorder, upper_left, bottom_right, style, fill);
    }

    pub fn draw_path(&mut self, points: &[Coord], style: &Style)
        ensures
            final(self)@ == (RecorderModel { recorded: final(self)@.recorded, ..old(self)@ }),
            path_drawn(old(self)@.recorded, final(self)@.recorded, points@, *style),
    {
        common::draw_path(&mut self.recorder, points, style);
    }

    pub fn fill_polygon(&mut self, points: &[Coord], style: &Style)
        ensures
            final(self)@ == (RecorderModel { recorded: final(self)@.recorded, ..old(self)@ }),
            polygon_filled(
                old(self)@.recorded,
                final(self)@.recorded,
                points@,
                *style,
                old(self)@.fill_rule,
            ),
    {
        common::fill_polygon(&mut self.recorder, points, style, self.fill_rule);
    }

    pub fn draw_circle(&mut self, center: Coord, radius: u32, style: &Style, fill: bool)
        ensures
            final(self)@ == (RecorderModel { recorded: final(self)@.recorded, ..old(self)@ }),
            circle_drawn(
                old(self)@.recorded,
                final(self)@.recorded,
                center,
                radius,
                *style,
                fill,
                old(self)@.fill_rule,
            ),
    {
        common::draw_circle(&mut self.recorder, center, radius, style, fill, self.fill_rule);
    }

    /// Draws `text` whose configured layout measured `(extent_width,
    /// extent_height)` pixels.
    pub fn draw_text(&mut self, text: &str, style: &TextStyle, pos: Coord, extent_width: i32, extent_height: i32)
        ensures
            final(self)@ == (RecorderModel { recorded: final(self)@.recorded, ..old(self)@ }),
            text_drawn(
                old(self)@.recorded,
                final(self)@.recorded,
                text@,
                *style,
                pos,
                extent_width as int,
                extent_height as int,
            ),
    {
        common::draw_text(&mut self.recorder, text, style, pos, extent_width, extent_height);
    }

    /// The size of a text whose configured layout reports the given pixel size.
    pub fn estimate_text_size(&self, pixel_width: i32, pixel_height: i32) -> (r: (u32, u32))
        ensures
            r == (pixel_width as u32, pixel_height as u32),
    {
        common::estimate_text_size(pixel_width, pixel_height)
    }
}

} // verus!
