use vstd::prelude::*;

use crate::identifier::Identifier;

verus! {

/// What went wrong while decoding.
#[derive(Clone, Copy, Debug, PartialEq, Eq, Structural)]
pub enum ErrorKind {
    /// The buffer is shorter than a field demands.
    Truncated,
    /// A string's bytes are not valid UTF-8.
    InvalidEncoding,
    /// A record refers to a numeric id that the type registry does not hold.
    UnknownTypeId,
    /// The registry maps the id to a type name that no decoder handles.
    UnsupportedType,
    /// The type name is known but its schema version is not.
    UnsupportedVersion,
    /// A byte of a closed set (the dropped rotation component) is out of range.
    InvalidDiscriminant,
}

/// A failure inside one field read: its kind, the offset in the buffer at
/// which the failing read started, and, inside a tagged identifier payload,
/// the variant whose payload was being read.
#[derive(Clone, Copy, Debug, PartialEq, Eq, Structural)]
pub struct Fault {
    pub kind: ErrorKind,
    pub offset: usize,
    pub identifier: Option<Identifier>,
}

/// The record kinds that the header decoder knows, one per accepted
/// `(type name, schema version)` pair.
#[derive(Clone, Copy, Debug, PartialEq, Eq, Structural)]
pub enum RecordKind {
    ReplayHeader,
    EndOfHeader,
    MetadataV1,
    MetadataV2,
    Geometry,
    GeometryEnd,
    Doors,
    Ladders,
    Terminals,
    Generators,
    DisinfectStations,
    BulkheadControllers,
    ResourceContainersV1,
    ResourceContainersV2,
    ResourceContainersV3,
    Spitters,
}

/// The part of the file being decoded when a failure happened.
#[derive(Clone, Copy, Debug, PartialEq, Eq, Structural)]
pub enum Section {
    /// The `u32` length prefix and the header segment it announces.
    Prefix,
    /// The type registry at the start of the header segment.
    Typemap,
    /// The numeric type id that starts each header record, and its resolution.
    RecordId,
    /// The payload of a header record of the given kind.
    Record(RecordKind),
}

/// A failed decode: the fault and the section it happened in. Offsets count
/// from the start of the header segment, except in `Section::Prefix`, where
/// they count from the start of the file.
#[derive(Clone, Copy, Debug, PartialEq, Eq, Structural)]
pub struct DecodeError {
    pub kind: ErrorKind,
    pub offset: usize,
    pub section: Section,
    pub identifier: Option<Identifier>,
}

pub open spec fn truncated(pos: usize) -> Fault {
    Fault { kind: ErrorKind::Truncated, offset: pos, identifier: None }
}

pub open spec fn fault_in(f: Fault, section: Section) -> DecodeError {
    DecodeError { kind: f.kind, offset: f.offset, section, identifier: f.identifier }
}

impl Fault {
    /// A truncation fault at the given offset.
    pub fn truncated_at(pos: usize) -> (r: Fault)
        ensures
            r == truncated(pos),
    {
        Fault { kind: ErrorKind::Truncated, offset: pos, identifier: None }
    }

    /// Places the fault in the section of the file being decoded.
    pub fn within(self, section: Section) -> (r: DecodeError)
        ensures
            r == fault_in(self, section),
    {
        DecodeError {
            kind: self.kind,
            offset: self.offset,
            section,
            identifier: self.identifier,
        }
    }
}

} // verus!
