//! Decoder for the header of recorded game replays: a self-describing type
//! registry, then entity records whose layout depends on each type's name and
//! schema version, sharing one table of transforms.
//!
//! Every decoder is specified by a parser written as spec functions over the
//! byte sequence, and proved to return exactly what that parser describes.
use vstd::prelude::*;

pub mod error;
pub mod identifier;
pub mod primitives;
pub mod rotation;
pub mod datatypes;
pub mod types;
pub mod entities;
pub mod header;

verus! {

} // verus!
