//! Stroke geometry and selection transforms for a note-taking canvas, over
//! exact fixed-point coordinates.
//!
//! * `units`: the scalar, the conversion from device space to document
//!   space, and decimal notation.
//! * `geometry`: vectors and axis-aligned bounding boxes; translation and
//!   clamping.
//! * `selection`: the engine that turns drags on the handles of a selection
//!   into new bounds or a translation.
//! * `bitmapimage`: the bitmap image stroke, from import to render request.
//! * `markup`: the vector markup that a rendered stroke is wrapped in.
//! * `plain`: the templates that are rendered, those with placeholders alone.
//! * `codec`, `template`: what is taken on trust from the crates that encode
//!   base64 and render templates.

pub mod bitmapimage;
pub mod codec;
pub mod geometry;
pub mod markup;
pub mod plain;
pub mod selection;
pub mod template;
pub mod units;
