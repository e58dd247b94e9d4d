//! The items of the entity records. Each item is read as the entity's transform
//! and the entity itself, whose `idx` is not yet set: the record decoders give
//! it the index at which the transform is appended to the shared table.
use vstd::prelude::*;

use crate::datatypes::{
    BulkheadController, Common, DisinfectStation, Door, DoorSize, DoorVariant, Generator, Ladder,
    LockType, ResourceContainer, ResourceContainerModel, Spitter, Terminal,
};
use crate::error::Fault;
use crate::identifier::{parse_replay_identifier_type, spec_identifier};
use crate::primitives::{
    le_f16, le_i32, le_u16, le_u8, parse_replay_bool, parse_vec3, spec_bool, spec_i32, spec_u16,
    spec_u8, spec_vec3,
};
use crate::rotation::{parse_half_quat, spec_half_quat};

verus! {

/// A transform: `u8` dimension, position, compressed rotation.
#[verifier::opaque]
pub open spec fn spec_common(b: Seq<u8>, pos: usize) -> Result<(usize, Common), Fault> {
    match spec_u8(b, pos) {
        Err(e) => Err(e),
        Ok((p, dimension)) => match spec_vec3(b, p) {
            Err(e) => Err(e),
            Ok((q, position)) => match spec_half_quat(b, q) {
                Err(e) => Err(e),
                Ok((r, rotation)) => Ok((r, Common { dimension, position, rotation })),
            },
        },
    }
}

/// A presence flag, then an `i32` door id only where the flag is set.
pub open spec fn spec_door_ref(b: Seq<u8>, pos: usize) -> Result<(usize, Option<i32>), Fault> {
    match spec_bool(b, pos) {
        Err(e) => Err(e),
        Ok((p, present)) => if present {
            match spec_i32(b, p) {
                Err(e) => Err(e),
                Ok((q, id)) => Ok((q, Some(id))),
            }
        } else {
            Ok((p, None))
        },
    }
}

/// The main, secondary and overload door ids of a bulkhead controller.
pub type BulkheadLayers = (Option<i32>, Option<i32>, Option<i32>);

#[verifier::opaque]
pub open spec fn spec_bulkhead_dc(b: Seq<u8>, pos: usize) -> Result<(usize, BulkheadLayers), Fault> {
    match spec_door_ref(b, pos) {
        Err(e) => Err(e),
        Ok((p, main)) => match spec_door_ref(b, p) {
            Err(e) => Err(e),
            Ok((q, secondary)) => match spec_door_ref(b, q) {
                Err(e) => Err(e),
                Ok((r, overload)) => Ok((r, (main, secondary, overload))),
            },
        },
    }
}

/// The `i32` id and the transform that open most entity items.
#[verifier::opaque]
pub open spec fn spec_id_common(b: Seq<u8>, pos: usize) -> Result<(usize, (i32, Common)), Fault> {
    match spec_i32(b, pos) {
        Err(e) => Err(e),
        Ok((p, id)) => match spec_common(b, p) {
            Err(e) => Err(e),
            Ok((q, c)) => Ok((q, (id, c))),
        },
    }
}

/// A door: id, transform, `u16` serial, checkpoint flag, variant byte, size
/// byte. Unknown variant and size bytes give the defaults.
#[verifier::opaque]
pub open spec fn spec_door_item(b: Seq<u8>, pos: usize) -> Result<(usize, (Common, Door)), Fault> {
    match spec_id_common(b, pos) {
        Err(e) => Err(e),
        Ok((p, (id, c))) => match spec_u16(b, p) {
            Err(e) => Err(e),
            Ok((q, serial)) => match spec_bool(b, q) {
                Err(e) => Err(e),
                Ok((r, checkpoint)) => match spec_u8(b, r) {
                    Err(e) => Err(e),
                    Ok((s, variant)) => match spec_u8(b, s) {
                        Err(e) => Err(e),
                        Ok((t, size)) => Ok(
                            (
                                t,
                                (
                                    c,
                                    Door {
                                        id,
                                        idx: 0,
                                        serial,
                                        checkpoint,
                                        variant: DoorVariant::spec_from_repr_or_default(variant),
                                        size: DoorSize::spec_from_repr_or_default(size),
                                    },
                                ),
                            ),
                        ),
                    },
                },
            },
        },
    }
}

/// A ladder: transform, half-precision height.
#[verifier::opaque]
pub open spec fn spec_ladder_item(b: Seq<u8>, pos: usize) -> Result<(usize, (Common, Ladder)), Fault> {
    match spec_common(b, pos) {
        Err(e) => Err(e),
        Ok((p, c)) => match spec_u16(b, p) {
            Err(e) => Err(e),
            Ok((q, height)) => Ok((q, (c, Ladder { idx: 0, height }))),
        },
    }
}

/// A terminal: id, transform.
#[verifier::opaque]
pub open spec fn spec_terminal_item(b: Seq<u8>, pos: usize) -> Result<(usize, (Common, Terminal)), Fault> {
    match spec_id_common(b, pos) {
        Err(e) => Err(e),
        Ok((p, (id, c))) => Ok((p, (c, Terminal { id, idx: 0 }))),
    }
}

/// A generator: id, transform, `u16` serial.
#[verifier::opaque]
pub open spec fn spec_generator_item(b: Seq<u8>, pos: usize) -> Result<(usize, (Common, Generator)), Fault> {
    match spec_id_common(b, pos) {
        Err(e) => Err(e),
        Ok((p, (id, c))) => match spec_u16(b, p) {
            Err(e) => Err(e),
            Ok((q, serial)) => Ok((q, (c, Generator { id, idx: 0, serial }))),
        },
    }
}

/// A disinfect station: id, transform, `u16` serial.
#[verifier::opaque]
pub open spec fn spec_disinfect_item(b: Seq<u8>, pos: usize) -> Result<
    (usize, (Common, DisinfectStation)),
    Fault,
> {
    match spec_id_common(b, pos) {
        Err(e) => Err(e),
        Ok((p, (id, c))) => match spec_u16(b, p) {
            Err(e) => Err(e),
            Ok((q, serial)) => Ok((q, (c, DisinfectStation { id, idx: 0, serial }))),
        },
    }
}

/// A bulkhead controller: id, transform, `u16` serial, then its three
/// optional door ids.
#[verifier::opaque]
pub open spec fn spec_bulkhead_item(b: Seq<u8>, pos: usize) -> Result<
    (usize, (Common, BulkheadController)),
    Fault,
> {
    match spec_id_common(b, pos) {
        Err(e) => Err(e),
        Ok((p, (id, c))) => match spec_u16(b, p) {
            Err(e) => Err(e),
            Ok((q, serial)) => match spec_bulkhead_dc(b, q) {
                Err(e) => Err(e),
                Ok((r, (main, secondary, ovl))) => Ok(
                    (r, (c, BulkheadController { id, idx: 0, serial, main, secondary, ovl })),
                ),
            },
        },
    }
}

/// A spitter: id, transform, half-precision scale.
#[verifier::opaque]
pub open spec fn spec_spitter_item(b: Seq<u8>, pos: usize) -> Result<(usize, (Common, Spitter)), Fault> {
    match spec_id_common(b, pos) {
        Err(e) => Err(e),
        Ok((p, (id, c))) => match spec_u16(b, p) {
            Err(e) => Err(e),
            Ok((q, scale)) => Ok((q, (c, Spitter { id, idx: 0, scale }))),
        },
    }
}

/// The schema generations of the resource container record.
#[derive(Clone, Copy, Debug, PartialEq, Eq, Structural)]
pub enum ContainerSchema {
    /// 0.0.1: id, transform, serial, locker flag.
    V1,
    /// 0.0.2: adds the consumable identifier and the registered flag.
    V2,
    /// 0.0.3: adds the lock type byte.
    V3,
}

/// A resource container of the given schema. In 0.0.3 a lock byte outside
/// `0..=2` leaves `lock_type` unset.
#[verifier::opaque]
pub open spec fn spec_container_item(b: Seq<u8>, pos: usize, schema: ContainerSchema) -> Result<
    (usize, (Common, ResourceContainerModel)),
    Fault,
> {
    match spec_id_common(b, pos) {
        Err(e) => Err(e),
        Ok((p, (id, c))) => match spec_u16(b, p) {
            Err(e) => Err(e),
            Ok((q, serial)) => match spec_bool(b, q) {
                Err(e) => Err(e),
                Ok((r, locker)) => {
                    let base = ResourceContainerModel {
                        id,
                        idx: 0,
                        serial,
                        locker,
                        consumable_type: None,
                        registered: None,
                        lock_type: None,
                    };
                    if schema == ContainerSchema::V1 {
                        Ok((r, (c, base)))
                    } else {
                        match spec_identifier(b, r) {
                            Err(e) => Err(e),
                            Ok((s, consumable)) => match spec_bool(b, s) {
                                Err(e) => Err(e),
                                Ok((t, registered)) => {
                                    let v2 = ResourceContainerModel {
                                        consumable_type: Some(consumable),
                                        registered: Some(registered),
                                        ..base
                                    };
                                    if schema == ContainerSchema::V2 {
                                        Ok((t, (c, v2)))
                                    } else {
                                        match spec_u8(b, t) {
                                            Err(e) => Err(e),
                                            Ok((u, lock)) => Ok(
                                                (
                                                    u,
                                                    (
                                                        c,
                                                        ResourceContainerModel {
                                                            lock_type: LockType::spec_from_repr(lock),
                                                            ..v2
                                                        },
                                                    ),
                                                ),
                                            ),
                                        }
                                    }
                                },
                            },
                        }
                    }
                },
            },
        },
    }
}

/// Reads a transform table entry.
pub fn parse_commons(i: &[u8], pos: usize) -> (r: Result<(usize, Common), Fault>)
    ensures
        r matches Ok((q, _)) ==> pos <= q <= i@.len(),
        r == spec_common(i@, pos),
{
    reveal(spec_common);
    let (p, dimension) = match le_u8(i, pos) {
        Ok(x) => x,
        Err(e) => return Err(e),
    };
    let (q, position) = match parse_vec3(i, p) {
        Ok(x) => x,
        Err(e) => return Err(e),
    };
    let (r, rotation) = match parse_half_quat(i, q) {
        Ok(x) => x,
        Err(e) => return Err(e),
    };
    Ok((r, Common { dimension, position, rotation }))
}

fn parse_door_ref(i: &[u8], pos: usize) -> (r: Result<(usize, Option<i32>), Fault>)
    ensures
        r matches Ok((q, _)) ==> pos <= q <= i@.len(),
        r == spec_door_ref(i@, pos),
{
    let (p, present) = match parse_replay_bool(i, pos) {
        Ok(x) => x,
        Err(e) => return Err(e),
    };
    if present {
        match le_i32(i, p) {
            Ok((q, id)) => Ok((q, Some(id))),
            Err(e) => Err(e),
        }
    } else {
        Ok((p, None))
    }
}

/// Reads the three optional door ids of a bulkhead controller.
pub fn parse_bulkhead_dc(i: &[u8], pos: usize) -> (r: Result<(usize, BulkheadLayers), Fault>)
    ensures
        r matches Ok((q, _)) ==> pos <= q <= i@.len(),
        r == spec_bulkhead_dc(i@, pos),
{
    reveal(spec_bulkhead_dc);
    let (p, main) = match parse_door_ref(i, pos) {
        Ok(x) => x,
        Err(e) => return Err(e),
    };
    let (q, secondary) = match parse_door_ref(i, p) {
        Ok(x) => x,
        Err(e) => return Err(e),
    };
    let (r, overload) = match parse_door_ref(i, q) {
        Ok(x) => x,
        Err(e) => return Err(e),
    };
    Ok((r, (main, secondary, overload)))
}

fn parse_id_common(i: &[u8], pos: usize) -> (r: Result<(usize, (i32, Common)), Fault>)
    ensures
        r matches Ok((q, _)) ==> pos <= q <= i@.len(),
        r == spec_id_common(i@, pos),
{
    reveal(spec_id_common);
    let (p, id) = match le_i32(i, pos) {
        Ok(x) => x,
        Err(e) => return Err(e),
    };
    match parse_commons(i, p) {
        Ok((q, c)) => Ok((q, (id, c))),
        Err(e) => Err(e),
    }
}

/// Reads one door item.
pub fn parse_door_item(i: &[u8], pos: usize) -> (r: Result<(usize, (Common, Door)), Fault>)
    ensures
        r matches Ok((q, _)) ==> pos <= q <= i@.len(),
        r == spec_door_item(i@, pos),
{
    reveal(spec_door_item);
    let (p, (id, c)) = match parse_id_common(i, pos) {
        Ok(x) => x,
        Err(e) => return Err(e),
    };
    let (q, serial) = match le_u16(i, p) {
        Ok(x) => x,
        Err(e) => return Err(e),
    };
    let (r, checkpoint) = match parse_replay_bool(i, q) {
        Ok(x) => x,
        Err(e) => return Err(e),
    };
    let (s, variant) = match le_u8(i, r) {
        Ok(x) => x,
        Err(e) => return Err(e),
    };
    let (t, size) = match le_u8(i, s) {
        Ok(x) => x,
        Err(e) => return Err(e),
    };
    let door = Door {
        id,
        idx: 0,
        serial,
        checkpoint,
        variant: DoorVariant::from_repr_or_default(variant),
        size: DoorSize::from_repr_or_default(size),
    };
    Ok((t, (c, door)))
}

/// Reads one ladder item.
pub fn parse_ladder_item(i: &[u8], pos: usize) -> (r: Result<(usize, (Common, Ladder)), Fault>)
    ensures
        r matches Ok((q, _)) ==> pos <= q <= i@.len(),
        r == spec_ladder_item(i@, pos),
{
    reveal(spec_ladder_item);
    let (p, c) = match parse_commons(i, pos) {
        Ok(x) => x,
        Err(e) => return Err(e),
    };
    match le_f16(i, p) {
        Ok((q, height)) => Ok((q, (c, Ladder { idx: 0, height }))),
        Err(e) => Err(e),
    }
}

/// Reads one terminal item.
pub fn parse_terminal_item(i: &[u8], pos: usize) -> (r: Result<(usize, (Common, Terminal)), Fault>)
    ensures
        r matches Ok((q, _)) ==> pos <= q <= i@.len(),
        r == spec_terminal_item(i@, pos),
{
    reveal(spec_terminal_item);
    match parse_id_common(i, pos) {
        Ok((p, (id, c))) => Ok((p, (c, Terminal { id, idx: 0 }))),
        Err(e) => Err(e),
    }
}

/// Reads one generator item.
pub fn parse_generator_item(i: &[u8], pos: usize) -> (r: Result<(usize, (Common, Generator)), Fault>)
    ensures
        r matches Ok((q, _)) ==> pos <= q <= i@.len(),
        r == spec_generator_item(i@, pos),
{
    reveal(spec_generator_item);
    let (p, (id, c)) = match parse_id_common(i, pos) {
        Ok(x) => x,
        Err(e) => return Err(e),
    };
    match le_u16(i, p) {
        Ok((q, serial)) => Ok((q, (c, Generator { id, idx: 0, serial }))),
        Err(e) => Err(e),
    }
}

/// Reads one disinfect station item.
pub fn parse_disinfect_item(i: &[u8], pos: usize) -> (r: Result<
    (usize, (Common, DisinfectStation)),
    Fault,
>)
    ensures
        r matches Ok((q, _)) ==> pos <= q <= i@.len(),
        r == spec_disinfect_item(i@, pos),
{
    reveal(spec_disinfect_item);
    let (p, (id, c)) = match parse_id_common(i, pos) {
        Ok(x) => x,
        Err(e) => return Err(e),
    };
    match le_u16(i, p) {
        Ok((q, serial)) => Ok((q, (c, DisinfectStation { id, idx: 0, serial }))),
        Err(e) => Err(e),
    }
}

/// Reads one bulkhead controller item.
pub fn parse_bulkhead_item(i: &[u8], pos: usize) -> (r: Result<
    (usize, (Common, BulkheadController)),
    Fault,
>)
    ensures
        r matches Ok((q, _)) ==> pos <= q <= i@.len(),
        r == spec_bulkhead_item(i@, pos),
{
    reveal(spec_bulkhead_item);
    let (p, (id, c)) = match parse_id_common(i, pos) {
        Ok(x) => x,
        Err(e) => return Err(e),
    };
    let (q, serial) = match le_u16(i, p) {
        Ok(x) => x,
        Err(e) => return Err(e),
    };
    match parse_bulkhead_dc(i, q) {
        Ok((r, (main, secondary, ovl))) => Ok(
            (r, (c, BulkheadController { id, idx: 0, serial, main, secondary, ovl })),
        ),
        Err(e) => Err(e),
    }
}

/// Reads one spitter item.
pub fn parse_spitter_item(i: &[u8], pos: usize) -> (r: Result<(usize, (Common, Spitter)), Fault>)
    ensures
        r matches Ok((q, _)) ==> pos <= q <= i@.len(),
        r == spec_spitter_item(i@, pos),
{
    reveal(spec_spitter_item);
    let (p, (id, c)) = match parse_id_common(i, pos) {
        Ok(x) => x,
        Err(e) => return Err(e),
    };
    match le_f16(i, p) {
        Ok((q, scale)) => Ok((q, (c, Spitter { id, idx: 0, scale }))),
        Err(e) => Err(e),
    }
}

/// Reads one resource container item of the given schema.
pub fn parse_container_item(i: &[u8], pos: usize, schema: ContainerSchema) -> (r: Result<
    (usize, (Common, ResourceContainer)),
    Fault,
>)
    ensures
        r matches Ok((q, _)) ==> pos <= q <= i@.len(),
        match r {
            Ok((p, (c, rc))) => spec_container_item(i@, pos, schema) == Ok::<
                (usize, (Common, ResourceContainerModel)),
                Fault,
            >((p, (c, rc@))),
            Err(e) => spec_container_item(i@, pos, schema) == Err::<
                (usize, (Common, ResourceContainerModel)),
                Fault,
            >(e),
        },
{
    reveal(spec_container_item);
    let (p, (id, c)) = match parse_id_common(i, pos) {
        Ok(x) => x,
        Err(e) => return Err(e),
    };
    let (q, serial) = match le_u16(i, p) {
        Ok(x) => x,
        Err(e) => return Err(e),
    };
    let (r, locker) = match parse_replay_bool(i, q) {
        Ok(x) => x,
        Err(e) => return Err(e),
    };
    if schema == ContainerSchema::V1 {
        let rc = ResourceContainer {
            id,
            idx: 0,
            serial,
            locker,
            consumable_type: None,
            registered: None,
            lock_type: None,
        };
        return Ok((r, (c, rc)));
    }
    let (s, consumable) = match parse_replay_identifier_type(i, r) {
        Ok(x) => x,
        Err(e) => return Err(e),
    };
    let (t, registered) = match parse_replay_bool(i, s) {
        Ok(x) => x,
        Err(e) => return Err(e),
    };
    if schema == ContainerSchema::V2 {
        let rc = ResourceContainer {
            id,
            idx: 0,
            serial,
            locker,
            consumable_type: Some(consumable),
            registered: Some(registered),
            lock_type: None,
        };
        return Ok((t, (c, rc)));
    }
    let (u, lock) = match le_u8(i, t) {
        Ok(x) => x,
        Err(e) => return Err(e),
    };
    let rc = ResourceContainer {
        id,
        idx: 0,
        serial,
        locker,
        consumable_type: Some(consumable),
        registered: Some(registered),
        lock_type: LockType::from_repr(lock),
    };
    Ok((u, (c, rc)))
}

/// Schema 0.0.3 only adds trailing fields to 0.0.1. Wherever a 0.0.3 item
/// reads, the 0.0.1 reading of the same bytes succeeds too and ends strictly
/// earlier. The two agree on the transform, id, serial and locker flag. The
/// 0.0.1 item leaves the consumable, registered and lock fields unset, and the
/// 0.0.3 item sets the consumable and registered fields.
pub proof fn lemma_container_schema_gating(b: Seq<u8>, pos: usize)
    requires
        b.len() <= usize::MAX,
        spec_container_item(b, pos, ContainerSchema::V3) is Ok,
    ensures
        spec_container_item(b, pos, ContainerSchema::V1) matches Ok((q1, (c1, r1)))
            && spec_container_item(b, pos, ContainerSchema::V3) matches Ok((q3, (c3, r3))) && q1
            < q3 && c1 == c3 && r1.id == r3.id && r1.serial == r3.serial && r1.locker == r3.locker
            && r1.consumable_type is None && r1.registered is None && r1.lock_type is None
            && r3.consumable_type is Some && r3.registered is Some,
{
    reveal(spec_container_item);
    reveal(spec_identifier);
}

} // verus!
