//! Rotations stored as three half-precision quaternion components and the
//! index of the fourth, dropped one.
use vstd::prelude::*;

use crate::error::{ErrorKind, Fault};
use crate::primitives::{le_f16, le_u8, spec_u16, spec_u8};

verus! {

/// A quaternion component slot.
#[derive(Clone, Copy, Debug, PartialEq, Eq, Structural)]
pub enum QuatSlot {
    X,
    Y,
    Z,
    W,
}

/// A compressed rotation: the dropped slot and the three stored components, as
/// half-precision bit patterns, for the other slots in ascending order. The
/// dropped component is the non-negative one that makes the quaternion unit.
#[derive(Clone, Copy, Debug, PartialEq, Eq, Structural)]
pub struct HalfQuat {
    pub dropped: QuatSlot,
    pub a: u16,
    pub b: u16,
    pub c: u16,
}

pub open spec fn slot_of(v: u8) -> Option<QuatSlot> {
    if v == 0 {
        Some(QuatSlot::X)
    } else if v == 1 {
        Some(QuatSlot::Y)
    } else if v == 2 {
        Some(QuatSlot::Z)
    } else if v == 3 {
        Some(QuatSlot::W)
    } else {
        None
    }
}

/// The dropped-slot byte, then three half-precision components. The byte must
/// name a slot; it is checked once all seven bytes have been read.
#[verifier::opaque]
pub open spec fn spec_half_quat(b: Seq<u8>, pos: usize) -> Result<(usize, HalfQuat), Fault> {
    match spec_u8(b, pos) {
        Err(e) => Err(e),
        Ok((after_slot, idx)) => match spec_u16(b, after_slot) {
            Err(e) => Err(e),
            Ok((after_a, x)) => match spec_u16(b, after_a) {
                Err(e) => Err(e),
                Ok((after_b, y)) => match spec_u16(b, after_b) {
                    Err(e) => Err(e),
                    Ok((after_c, z)) => match slot_of(idx) {
                        Some(dropped) => Ok((after_c, HalfQuat { dropped, a: x, b: y, c: z })),
                        None => Err(
                            Fault { kind: ErrorKind::InvalidDiscriminant, offset: pos, identifier: None },
                        ),
                    },
                },
            },
        },
    }
}

impl HalfQuat {
    /// The components in slot order x, y, z, w: `None` at the dropped slot and
    /// the stored components, in order, at the others.
    pub open spec fn spec_components(&self) -> Seq<Option<u16>> {
        match self.dropped {
            QuatSlot::X => seq![None, Some(self.a), Some(self.b), Some(self.c)],
            QuatSlot::Y => seq![Some(self.a), None, Some(self.b), Some(self.c)],
            QuatSlot::Z => seq![Some(self.a), Some(self.b), None, Some(self.c)],
            QuatSlot::W => seq![Some(self.a), Some(self.b), Some(self.c), None],
        }
    }

    /// The stored components placed in their slots, x, y, z, w.
    pub fn components(&self) -> (r: [Option<u16>; 4])
        ensures
            r@ == self.spec_components(),
    {
        let r = match self.dropped {
            QuatSlot::X => [None, Some(self.a), Some(self.b), Some(self.c)],
            QuatSlot::Y => [Some(self.a), None, Some(self.b), Some(self.c)],
            QuatSlot::Z => [Some(self.a), Some(self.b), None, Some(self.c)],
            QuatSlot::W => [Some(self.a), Some(self.b), Some(self.c), None],
        };
        assert(r@ =~= self.spec_components());
        r
    }
}

/// Reads a compressed rotation; a dropped-slot byte above 3 is an
/// `InvalidDiscriminant` fault at the byte's offset.
pub fn parse_half_quat(i: &[u8], pos: usize) -> (r: Result<(usize, HalfQuat), Fault>)
    ensures
        r matches Ok((q, _)) ==> pos <= q <= i@.len(),
        r == spec_half_quat(i@, pos),
{
    reveal(spec_half_quat);
    let (p, idx) = match le_u8(i, pos) {
        Ok(x) => x,
        Err(e) => return Err(e),
    };
    let (p, a) = match le_f16(i, p) {
        Ok(x) => x,
        Err(e) => return Err(e),
    };
    let (p, b) = match le_f16(i, p) {
        Ok(x) => x,
        Err(e) => return Err(e),
    };
    let (p, c) = match le_f16(i, p) {
        Ok(x) => x,
        Err(e) => return Err(e),
    };
    let dropped = match idx {
        0 => QuatSlot::X,
        1 => QuatSlot::Y,
        2 => QuatSlot::Z,
        3 => QuatSlot::W,
        _ => {
            return Err(
                Fault { kind: ErrorKind::InvalidDiscriminant, offset: pos, identifier: None },
            )
        },
    };
    Ok((p, HalfQuat { dropped, a, b, c }))
}

} // verus!
