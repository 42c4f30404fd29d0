//! Text-box anchor layout.
//!
//! Computes where on screen a text block should be drawn for each of the nine
//! combinations of horizontal and vertical alignment within a viewport: a
//! screen-space anchor point, and the fractional point of the text's own
//! bounding box that is aligned to that anchor.
//!
//! Every quantity the calculator produces is an integer multiple of one half
//! of a pixel, so coordinates are carried exactly as counts of half pixels.

pub mod align;
pub mod layout;
pub mod text_box;
