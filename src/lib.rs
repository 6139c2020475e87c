//! Coordination layer that turns ASCII-art diagrams into SVG through an
//! external renderer: render-table selection, batch job planning, and the
//! byte-level contract of the C-callable boundary.

pub mod text;
pub mod table;
pub mod tally;
pub mod jobs;
pub mod render;
pub mod batch;
pub mod foreign;
