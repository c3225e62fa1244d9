//! Decoding and normalising OpenStreetMap elements into plain entity records.
pub mod tags;
pub mod text;
pub mod entity;
pub mod normalize;
pub mod query;
pub mod laws;
