//! A codec adapter that lets any byte-convertible value travel through a
//! structured serialization format as compact tick-encoded text.
//!
//! The adapter exposes three operations: encoding a byte sequence as text,
//! decoding such text back into bytes (and on into a target value), and
//! describing the textual wire shape to schema tooling.

pub mod codec;
pub mod model;
pub mod schema;
pub mod tick;
