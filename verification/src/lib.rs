//! Typed model of a bibliographic reference service's item records.
//!
//! The library converts between the service's JSON wire objects and a
//! strongly typed in-memory form: a schema registry describes the field
//! set of each item-type variant, a decoder turns a JSON object into an
//! [`model::Item`], an encoder is the decoder's inverse, and a localizer
//! renders a display name for each item type.

pub mod strutil;
pub mod digits;
pub mod json;
pub mod model;
pub mod registry;
pub mod codec;
pub mod decode;
pub mod encode;
pub mod locale;
pub mod laws;
