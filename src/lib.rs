//! Scatter-gather byte payloads with one canonical wire shape.
//!
//! A payload may be one owned buffer, a list of owned buffers, a list of
//! borrowed windows onto bytes that the caller keeps alive, or a list of
//! elements that are either such windows or runs of zero bytes. Every one of
//! them encodes to one of two shapes: a single byte sequence, or a sequence of
//! byte sequences. Decoding always gives back owned buffers.
pub mod element;
pub mod laws;
pub mod sglist;
pub mod sgdata;
pub mod wire;

pub use element::Element;
pub use sglist::SgList;
pub use sgdata::SgData;
pub use wire::{Decoded, Encoded, Shape, Unsupported};
