//! The tagged identifier payload: a one-byte discriminant followed by a
//! payload whose shape depends on it.
use vstd::prelude::*;

use crate::error::Fault;
use crate::primitives::{le_u16, le_u8, parse_replay_string, read_view, spec_string, spec_u16, spec_u8};

verus! {

/// The discriminant of a tagged identifier payload.
#[derive(Clone, Copy, Debug, PartialEq, Eq, Structural)]
pub enum Identifier {
    Unknown,
    Gear,
    AliasGear,
    Item,
    Enemy,
    Vanity,
}

impl Identifier {
    /// The variant for a discriminant byte; a value outside `0..=5` is `Unknown`.
    pub open spec fn spec_from_repr(v: u8) -> Identifier {
        if v == 1 {
            Identifier::Gear
        } else if v == 2 {
            Identifier::AliasGear
        } else if v == 3 {
            Identifier::Item
        } else if v == 4 {
            Identifier::Enemy
        } else if v == 5 {
            Identifier::Vanity
        } else {
            Identifier::Unknown
        }
    }

    /// The value for a wire byte, if the byte names one.
    pub fn from_repr(v: u8) -> (r: Identifier)
        ensures
            r == Self::spec_from_repr(v),
    {
        match v {
            1 => Identifier::Gear,
            2 => Identifier::AliasGear,
            3 => Identifier::Item,
            4 => Identifier::Enemy,
            5 => Identifier::Vanity,
            _ => Identifier::Unknown,
        }
    }
}

/// A decoded identifier: the variant and its payload.
#[derive(Clone, Debug)]
pub enum IdentifierType {
    Unknown,
    Gear(String, u16),
    AliasGear(u16),
    Item(u16),
    Enemy(u16),
    Vanity(u16),
}

/// The mathematical value of an `IdentifierType`.
pub ghost enum IdentifierModel {
    Unknown,
    Gear(Seq<char>, u16),
    AliasGear(u16),
    Item(u16),
    Enemy(u16),
    Vanity(u16),
}

impl View for IdentifierType {
    type V = IdentifierModel;

    open spec fn view(&self) -> IdentifierModel {
        match self {
            IdentifierType::Unknown => IdentifierModel::Unknown,
            IdentifierType::Gear(name, alias) => IdentifierModel::Gear(name@, *alias),
            IdentifierType::AliasGear(a) => IdentifierModel::AliasGear(*a),
            IdentifierType::Item(a) => IdentifierModel::Item(*a),
            IdentifierType::Enemy(a) => IdentifierModel::Enemy(*a),
            IdentifierType::Vanity(a) => IdentifierModel::Vanity(*a),
        }
    }
}

/// A fault met while reading the payload of the given variant.
pub open spec fn tagged(f: Fault, id: Identifier) -> Fault {
    Fault { identifier: Some(id), ..f }
}

/// A `u16` payload, with a fault tagged by the variant.
pub open spec fn spec_u16_payload(b: Seq<u8>, pos: usize, id: Identifier) -> Result<(usize, u16), Fault> {
    match spec_u16(b, pos) {
        Ok(r) => Ok(r),
        Err(e) => Err(tagged(e, id)),
    }
}

#[verifier::opaque]
pub open spec fn spec_identifier(b: Seq<u8>, pos: usize) -> Result<(usize, IdentifierModel), Fault> {
    match spec_u8(b, pos) {
        Err(e) => Err(e),
        Ok((p, v)) => match Identifier::spec_from_repr(v) {
            Identifier::Unknown => Ok((p, IdentifierModel::Unknown)),
            Identifier::Gear => match spec_string(b, p) {
                Err(e) => Err(tagged(e, Identifier::Gear)),
                Ok((q, name)) => match spec_u16_payload(b, q, Identifier::Gear) {
                    Err(e) => Err(e),
                    Ok((r, alias)) => Ok((r, IdentifierModel::Gear(name, alias))),
                },
            },
            Identifier::AliasGear => match spec_u16_payload(b, p, Identifier::AliasGear) {
                Err(e) => Err(e),
                Ok((q, a)) => Ok((q, IdentifierModel::AliasGear(a))),
            },
            Identifier::Item => match spec_u16_payload(b, p, Identifier::Item) {
                Err(e) => Err(e),
                Ok((q, a)) => Ok((q, IdentifierModel::Item(a))),
            },
            Identifier::Enemy => match spec_u16_payload(b, p, Identifier::Enemy) {
                Err(e) => Err(e),
                Ok((q, a)) => Ok((q, IdentifierModel::Enemy(a))),
            },
            Identifier::Vanity => match spec_u16_payload(b, p, Identifier::Vanity) {
                Err(e) => Err(e),
                Ok((q, a)) => Ok((q, IdentifierModel::Vanity(a))),
            },
        },
    }
}

fn u16_payload(i: &[u8], pos: usize, id: Identifier) -> (r: Result<(usize, u16), Fault>)
    ensures
        r matches Ok((q, _)) ==> pos <= q <= i@.len(),
        r == spec_u16_payload(i@, pos, id),
{
    match le_u16(i, pos) {
        Ok(r) => Ok(r),
        Err(e) => Err(Fault { identifier: Some(id), ..e }),
    }
}

/// Reads a discriminant byte and the payload of its variant. An unknown
/// discriminant is the `Unknown` variant, with nothing read after it.
pub fn parse_replay_identifier_type(i: &[u8], pos: usize) -> (r: Result<(usize, IdentifierType), Fault>)
    ensures
        r matches Ok((q, _)) ==> pos <= q <= i@.len(),
        read_view(r) == spec_identifier(i@, pos),
{
    reveal(spec_identifier);
    let (p, v) = match le_u8(i, pos) {
        Ok(x) => x,
        Err(e) => return Err(e),
    };
    match Identifier::from_repr(v) {
        Identifier::Unknown => Ok((p, IdentifierType::Unknown)),
        Identifier::Gear => {
            let (q, name) = match parse_replay_string(i, p) {
                Ok(x) => x,
                Err(e) => return Err(Fault { identifier: Some(Identifier::Gear), ..e }),
            };
            let (r, alias) = match u16_payload(i, q, Identifier::Gear) {
                Ok(x) => x,
                Err(e) => return Err(e),
            };
            Ok((r, IdentifierType::Gear(name, alias)))
        },
        Identifier::AliasGear => match u16_payload(i, p, Identifier::AliasGear) {
            Ok((q, a)) => Ok((q, IdentifierType::AliasGear(a))),
            Err(e) => Err(e),
        },
        Identifier::Item => match u16_payload(i, p, Identifier::Item) {
            Ok((q, a)) => Ok((q, IdentifierType::Item(a))),
            Err(e) => Err(e),
        },
        Identifier::Enemy => match u16_payload(i, p, Identifier::Enemy) {
            Ok((q, a)) => Ok((q, IdentifierType::Enemy(a))),
            Err(e) => Err(e),
        },
        Identifier::Vanity => match u16_payload(i, p, Identifier::Vanity) {
            Ok((q, a)) => Ok((q, IdentifierType::Vanity(a))),
            Err(e) => Err(e),
        },
    }
}

/// A discriminant byte outside `0..=5` decodes as `Unknown`, and the read ends
/// right after that byte.
pub proof fn lemma_unknown_discriminant(b: Seq<u8>, pos: usize)
    requires
        pos < b.len(),
        b[pos as int] > 5,
    ensures
        spec_identifier(b, pos) == Ok::<(usize, IdentifierModel), Fault>(
            ((pos + 1) as usize, IdentifierModel::Unknown),
        ),
{
    reveal(spec_identifier);
}

} // verus!
