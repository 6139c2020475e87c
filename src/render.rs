//! The fixed parameters handed to the SVG renderer, and the failures a
//! render job can end in.

use vstd::prelude::*;
use vstd::string::*;

verus! {

/// Horizontal size of one character cell, in SVG units.
pub const X_SCALE: u32 = 8;
/// Vertical size of one character cell, in SVG units.
pub const Y_SCALE: u32 = 13;
/// Font size of the text kept in the drawing.
pub const FONT_SIZE: u32 = 13;

/// The settings of one render. All are fixed but the diagram's name.
#[derive(Clone, Debug)]
pub struct RenderConfig {
    pub x_scale: u32,
    pub y_scale: u32,
    pub font_family: String,
    pub font_size: u32,
    pub show_gridlines: bool,
    pub infer_rect_elements: bool,
    pub name: String,
}

impl RenderConfig {
    /// The fixed settings, with `name` as the diagram's name.
    pub open spec fn fixed_for(self, name: Seq<char>) -> bool {
        &&& self.x_scale == X_SCALE
        &&& self.y_scale == Y_SCALE
        &&& self.font_family@ == "monospace"@
        &&& self.font_size == FONT_SIZE
        &&& !self.show_gridlines
        &&& !self.infer_rect_elements
        &&& self.name@ == name
    }
}

/// The settings used to render a diagram called `name`.
pub fn render_config(name: &str) -> (r: RenderConfig)
    ensures
        r.fixed_for(name@),
{
    RenderConfig {
        x_scale: X_SCALE,
        y_scale: Y_SCALE,
        font_family: String::from_str("monospace"),
        font_size: FONT_SIZE,
        show_gridlines: false,
        infer_rect_elements: false,
        name: String::from_str(name),
    }
}

/// A failed render job, with the detail the failing step reported.
#[derive(Clone, Debug, PartialEq, Eq)]
pub enum Error {
    /// Opening, reading or writing a file failed.
    IO(String),
    /// The diagram text could not be parsed.
    Parse(String),
}

} // verus!
