//! Text styles, and how they configure a text layout object.
use crate::scene::{Color, FloatBits, FontDescription, LayoutConfig, Slant};
use vstd::prelude::*;

verus! {

/// The face a text style asks for.
#[derive(Clone, Copy, Debug, PartialEq, Eq, Hash)]
pub enum FontStyle {
    Normal,
    Bold,
    Italic,
    Oblique,
}

/// Horizontal alignment of text against its draw position.
#[derive(Clone, Copy, Debug, PartialEq, Eq, Hash)]
pub enum HPos {
    Left,
    Center,
    Right,
}

/// Vertical alignment of text against its draw position.
#[derive(Clone, Copy, Debug, PartialEq, Eq, Hash)]
pub enum VPos {
    Top,
    Center,
    Bottom,
}

/// A rotation of text by a multiple of a right angle.
#[derive(Clone, Copy, Debug, PartialEq, Eq, Hash)]
pub enum FontTransform {
    Identity,
    Rotate90,
    Rotate180,
    Rotate270,
}

/// Everything a text draw or measure call is told about the text's look.
#[derive(Debug, PartialEq, Eq, Hash)]
pub struct TextStyle {
    pub family: String,
    /// The font size in pixels; positive.
    pub size: FloatBits,
    pub style: FontStyle,
    pub h_pos: HPos,
    pub v_pos: VPos,
    pub transform: FontTransform,
    pub color: Color,
}

/// The slant a font style sets, if it sets one.
pub open spec fn slant_of(style: FontStyle) -> Option<Slant> {
    match style {
        FontStyle::Normal => Some(Slant::Normal),
        FontStyle::Bold => None,
        FontStyle::Italic => Some(Slant::Italic),
        FontStyle::Oblique => Some(Slant::Oblique),
    }
}

/// The angle in degrees of a text rotation.
pub open spec fn degrees_of(t: FontTransform) -> u32 {
    match t {
        FontTransform::Identity => 0,
        FontTransform::Rotate90 => 90,
        FontTransform::Rotate180 => 180,
        FontTransform::Rotate270 => 270,
    }
}

/// The font description a text style configures: its family and size, and
/// either its slant or, for bold, its weight.
pub open spec fn font_of(style: TextStyle) -> (Seq<char>, FloatBits, Option<Slant>, bool) {
    (style.family@, style.size, slant_of(style.style), style.style == FontStyle::Bold)
}

pub open spec fn font_view(f: FontDescription) -> (Seq<char>, FloatBits, Option<Slant>, bool) {
    (f.family@, f.absolute_size, f.slant, f.bold)
}

pub fn rotation_degrees(t: FontTransform) -> (r: u32)
    ensures
        r == degrees_of(t),
{
    match t {
        FontTransform::Identity => 0,
        FontTransform::Rotate90 => 90,
        FontTransform::Rotate180 => 180,
        FontTransform::Rotate270 => 270,
    }
}

/// The font description that a text style sets on a layout object.
pub fn layout_set_style(style: &TextStyle) -> (r: FontDescription)
    ensures
        font_view(r) == font_of(*style),
{
    let slant = match style.style {
        FontStyle::Normal => Some(Slant::Normal),
        FontStyle::Bold => None,
        FontStyle::Italic => Some(Slant::Italic),
        FontStyle::Oblique => Some(Slant::Oblique),
    };
    let bold = match style.style {
        FontStyle::Bold => true,
        _ => false,
    };
    FontDescription {
        family: style.family.clone(),
        absolute_size: style.size,
        slant,
        bold,
    }
}

/// Configures a layout object with a text and a style. The result depends on
/// these two alone: nothing from an earlier call carries over.
pub fn configure_layout(text: &str, style: &TextStyle) -> (r: LayoutConfig)
    ensures
        r.text@ == text@,
        font_view(r.font) == font_of(*style),
{
    LayoutConfig { text: text.to_owned(), font: layout_set_style(style) }
}

} // verus!
