//! The decoded header: the shared transform table and one sequence per entity
//! kind, with the mathematical views that the decoders' contracts speak of.
use vstd::prelude::*;

use crate::identifier::{IdentifierModel, IdentifierType};
use crate::primitives::Vec3Bits;
use crate::rotation::HalfQuat;

verus! {

/// The replay recorder's own header record.
#[derive(Clone, Debug)]
pub struct ReplayHeader {
    pub version: String,
    pub master: bool,
}

pub ghost struct ReplayHeaderModel {
    pub version: Seq<char>,
    pub master: bool,
}

impl View for ReplayHeader {
    type V = ReplayHeaderModel;

    open spec fn view(&self) -> ReplayHeaderModel {
        ReplayHeaderModel { version: self.version@, master: self.master }
    }
}

/// One entry of the transform table: a dimension, a position (as `f32` bit
/// patterns) and a compressed rotation.
#[derive(Clone, Copy, Debug, PartialEq, Eq, Structural)]
pub struct Common {
    pub dimension: u8,
    pub position: Vec3Bits,
    pub rotation: HalfQuat,
}

/// The transform table.
pub type Commons = Vec<Common>;

/// Level metadata; schema 0.0.2 adds the compatibility flag.
#[derive(Clone, Debug)]
pub struct Metadata {
    pub version: String,
    pub compatability_old_dc: Option<bool>,
}

pub ghost struct MetadataModel {
    pub version: Seq<char>,
    pub compatability_old_dc: Option<bool>,
}

impl View for Metadata {
    type V = MetadataModel;

    open spec fn view(&self) -> MetadataModel {
        MetadataModel { version: self.version@, compatability_old_dc: self.compatability_old_dc }
    }
}

/// A mesh of one dimension: vertices as `f32` bit patterns and triangle indices.
#[derive(Clone, Debug)]
pub struct Geometry {
    pub dimension: u8,
    pub vertices: Vec<Vec3Bits>,
    pub indices: Vec<u16>,
}

pub ghost struct GeometryModel {
    pub dimension: u8,
    pub vertices: Seq<Vec3Bits>,
    pub indices: Seq<u16>,
}

impl View for Geometry {
    type V = GeometryModel;

    open spec fn view(&self) -> GeometryModel {
        GeometryModel { dimension: self.dimension, vertices: self.vertices@, indices: self.indices@ }
    }
}

#[derive(Clone, Copy, Debug, PartialEq, Eq, Structural)]
pub enum DoorVariant {
    WeakDoor,
    SecurityDoor,
    BulkheadDoor,
    BulkheadDoorMain,
    ApexDoor,
}

impl DoorVariant {
    pub open spec fn spec_from_repr(v: u8) -> Option<DoorVariant> {
        if v == 0 {
            Some(DoorVariant::WeakDoor)
        } else if v == 1 {
            Some(DoorVariant::SecurityDoor)
        } else if v == 2 {
            Some(DoorVariant::BulkheadDoor)
        } else if v == 3 {
            Some(DoorVariant::BulkheadDoorMain)
        } else if v == 4 {
            Some(DoorVariant::ApexDoor)
        } else {
            None
        }
    }

    /// The value for a wire byte, if the byte names one.
    pub fn from_repr(v: u8) -> (r: Option<DoorVariant>)
        ensures
            r == Self::spec_from_repr(v),
    {
        match v {
            0 => Some(DoorVariant::WeakDoor),
            1 => Some(DoorVariant::SecurityDoor),
            2 => Some(DoorVariant::BulkheadDoor),
            3 => Some(DoorVariant::BulkheadDoorMain),
            4 => Some(DoorVariant::ApexDoor),
            _ => None,
        }
    }

    /// The variant for a byte; an unknown value is the default, `WeakDoor`.
    pub open spec fn spec_from_repr_or_default(v: u8) -> DoorVariant {
        match Self::spec_from_repr(v) {
            Some(d) => d,
            None => DoorVariant::WeakDoor,
        }
    }

    /// The variant for a byte, or `WeakDoor` for an unknown one.
    pub fn from_repr_or_default(v: u8) -> (r: DoorVariant)
        ensures
            r == Self::spec_from_repr_or_default(v),
    {
        match Self::from_repr(v) {
            Some(d) => d,
            None => DoorVariant::WeakDoor,
        }
    }
}

#[derive(Clone, Copy, Debug, PartialEq, Eq, Structural)]
pub enum DoorSize {
    Small,
    Medium,
    Large,
}

impl DoorSize {
    pub open spec fn spec_from_repr(v: u8) -> Option<DoorSize> {
        if v == 0 {
            Some(DoorSize::Small)
        } else if v == 1 {
            Some(DoorSize::Medium)
        } else if v == 2 {
            Some(DoorSize::Large)
        } else {
            None
        }
    }

    /// The value for a wire byte, if the byte names one.
    pub fn from_repr(v: u8) -> (r: Option<DoorSize>)
        ensures
            r == Self::spec_from_repr(v),
    {
        match v {
            0 => Some(DoorSize::Small),
            1 => Some(DoorSize::Medium),
            2 => Some(DoorSize::Large),
            _ => None,
        }
    }

    /// The size for a byte; an unknown value is the default, `Small`.
    pub open spec fn spec_from_repr_or_default(v: u8) -> DoorSize {
        match Self::spec_from_repr(v) {
            Some(d) => d,
            None => DoorSize::Small,
        }
    }

    /// The size for a byte, or `Small` for an unknown one.
    pub fn from_repr_or_default(v: u8) -> (r: DoorSize)
        ensures
            r == Self::spec_from_repr_or_default(v),
    {
        match Self::from_repr(v) {
            Some(d) => d,
            None => DoorSize::Small,
        }
    }
}

/// A door; `idx` is the index of its entry in the transform table.
#[derive(Clone, Copy, Debug, PartialEq, Eq, Structural)]
pub struct Door {
    pub id: i32,
    pub idx: usize,
    pub serial: u16,
    pub checkpoint: bool,
    pub variant: DoorVariant,
    pub size: DoorSize,
}

/// A ladder; its height is a half-precision bit pattern.
#[derive(Clone, Copy, Debug, PartialEq, Eq, Structural)]
pub struct Ladder {
    pub idx: usize,
    pub height: u16,
}

#[derive(Clone, Copy, Debug, PartialEq, Eq, Structural)]
pub struct Terminal {
    pub id: i32,
    pub idx: usize,
}

#[derive(Clone, Copy, Debug, PartialEq, Eq, Structural)]
pub struct Generator {
    pub id: i32,
    pub idx: usize,
    pub serial: u16,
}

/// How a container is locked; `NoLock` is the wire value 0.
#[derive(Clone, Copy, Debug, PartialEq, Eq, Structural)]
pub enum LockType {
    NoLock,
    Melee,
    Hack,
}

impl LockType {
    pub open spec fn spec_from_repr(v: u8) -> Option<LockType> {
        if v == 0 {
            Some(LockType::NoLock)
        } else if v == 1 {
            Some(LockType::Melee)
        } else if v == 2 {
            Some(LockType::Hack)
        } else {
            None
        }
    }

    /// The value for a wire byte, if the byte names one.
    pub fn from_repr(v: u8) -> (r: Option<LockType>)
        ensures
            r == Self::spec_from_repr(v),
    {
        match v {
            0 => Some(LockType::NoLock),
            1 => Some(LockType::Melee),
            2 => Some(LockType::Hack),
            _ => None,
        }
    }
}

/// A resource container. Schema 0.0.2 adds `consumable_type` and `registered`,
/// schema 0.0.3 adds `lock_type`; fields of a later schema are `None` in
/// records of an earlier one.
#[derive(Clone, Debug)]
pub struct ResourceContainer {
    pub id: i32,
    pub idx: usize,
    pub serial: u16,
    pub locker: bool,
    pub consumable_type: Option<IdentifierType>,
    pub registered: Option<bool>,
    pub lock_type: Option<LockType>,
}

pub ghost struct ResourceContainerModel {
    pub id: i32,
    pub idx: usize,
    pub serial: u16,
    pub locker: bool,
    pub consumable_type: Option<IdentifierModel>,
    pub registered: Option<bool>,
    pub lock_type: Option<LockType>,
}

impl View for ResourceContainer {
    type V = ResourceContainerModel;

    open spec fn view(&self) -> ResourceContainerModel {
        ResourceContainerModel {
            id: self.id,
            idx: self.idx,
            serial: self.serial,
            locker: self.locker,
            consumable_type: match self.consumable_type {
                Some(c) => Some(c@),
                None => None,
            },
            registered: self.registered,
            lock_type: self.lock_type,
        }
    }
}

#[derive(Clone, Copy, Debug, PartialEq, Eq, Structural)]
pub struct DisinfectStation {
    pub id: i32,
    pub idx: usize,
    pub serial: u16,
}

/// A bulkhead controller and the ids of the doors it drives, each present
/// only where the record's flag for it was set.
#[derive(Clone, Copy, Debug, PartialEq, Eq, Structural)]
pub struct BulkheadController {
    pub id: i32,
    pub idx: usize,
    pub serial: u16,
    pub main: Option<i32>,
    pub secondary: Option<i32>,
    pub ovl: Option<i32>,
}

/// A spitter; its scale is a half-precision bit pattern.
#[derive(Clone, Copy, Debug, PartialEq, Eq, Structural)]
pub struct Spitter {
    pub id: i32,
    pub idx: usize,
    pub scale: u16,
}

/// Everything the header records describe.
#[derive(Clone, Debug)]
pub struct Header {
    pub commons: Commons,
    pub replay_header: Option<ReplayHeader>,
    pub metadata: Option<Metadata>,
    pub level_geometry: Vec<Geometry>,
    pub doors: Vec<Door>,
    pub ladders: Vec<Ladder>,
    pub terminals: Vec<Terminal>,
    pub generators: Vec<Generator>,
    pub resource_containers: Vec<ResourceContainer>,
    pub disinfect_stations: Vec<DisinfectStation>,
    pub bulkhead_controllers: Vec<BulkheadController>,
    pub spitters: Vec<Spitter>,
}

pub ghost struct HeaderModel {
    pub commons: Seq<Common>,
    pub replay_header: Option<ReplayHeaderModel>,
    pub metadata: Option<MetadataModel>,
    pub level_geometry: Seq<GeometryModel>,
    pub doors: Seq<Door>,
    pub ladders: Seq<Ladder>,
    pub terminals: Seq<Terminal>,
    pub generators: Seq<Generator>,
    pub resource_containers: Seq<ResourceContainerModel>,
    pub disinfect_stations: Seq<DisinfectStation>,
    pub bulkhead_controllers: Seq<BulkheadController>,
    pub spitters: Seq<Spitter>,
}

impl View for Header {
    type V = HeaderModel;

    open spec fn view(&self) -> HeaderModel {
        HeaderModel {
            commons: self.commons@,
            replay_header: match self.replay_header {
                Some(r) => Some(r@),
                None => None,
            },
            metadata: match self.metadata {
                Some(m) => Some(m@),
                None => None,
            },
            level_geometry: self.level_geometry@.map_values(|g: Geometry| g@),
            doors: self.doors@,
            ladders: self.ladders@,
            terminals: self.terminals@,
            generators: self.generators@,
            resource_containers: self.resource_containers@.map_values(|c: ResourceContainer| c@),
            disinfect_stations: self.disinfect_stations@,
            bulkhead_controllers: self.bulkhead_controllers@,
            spitters: self.spitters@,
        }
    }
}

/// The header before any record: every sequence empty, nothing set.
pub open spec fn empty_header() -> HeaderModel {
    HeaderModel {
        commons: seq![],
        replay_header: None,
        metadata: None,
        level_geometry: seq![],
        doors: seq![],
        ladders: seq![],
        terminals: seq![],
        generators: seq![],
        resource_containers: seq![],
        disinfect_stations: seq![],
        bulkhead_controllers: seq![],
        spitters: seq![],
    }
}

impl Header {
    /// The empty header.
    pub fn new() -> (r: Header)
        ensures
            r@ == empty_header(),
            table_indices_wf(r@),
    {
        let r = Header {
            commons: Vec::new(),
            replay_header: None,
            metadata: None,
            level_geometry: Vec::new(),
            doors: Vec::new(),
            ladders: Vec::new(),
            terminals: Vec::new(),
            generators: Vec::new(),
            resource_containers: Vec::new(),
            disinfect_stations: Vec::new(),
            bulkhead_controllers: Vec::new(),
            spitters: Vec::new(),
        };
        assert(r@.level_geometry =~= seq![]);
        assert(r@.resource_containers =~= seq![]);
        assert(table_indices_wf(r@));
        r
    }
}

/// The transform-table indices of each entity kind, in the order doors,
/// ladders, terminals, generators, resource containers, disinfect stations,
/// bulkhead controllers, spitters.
pub open spec fn index_seqs(h: HeaderModel) -> Seq<Seq<usize>> {
    seq![
        h.doors.map_values(|e: Door| e.idx),
        h.ladders.map_values(|e: Ladder| e.idx),
        h.terminals.map_values(|e: Terminal| e.idx),
        h.generators.map_values(|e: Generator| e.idx),
        h.resource_containers.map_values(|e: ResourceContainerModel| e.idx),
        h.disinfect_stations.map_values(|e: DisinfectStation| e.idx),
        h.bulkhead_controllers.map_values(|e: BulkheadController| e.idx),
        h.spitters.map_values(|e: Spitter| e.idx),
    ]
}

/// Index sequences into a table of `n` entries: each strictly increasing,
/// each index in the table, and no index in two sequences.
pub open spec fn indices_disjoint_increasing(s: Seq<Seq<usize>>, n: int) -> bool {
    &&& forall|k: int, i: int, j: int|
        0 <= k < s.len() && 0 <= i < j < s[k].len() ==> #[trigger] s[k][i] < #[trigger] s[k][j]
    &&& forall|k: int, i: int| 0 <= k < s.len() && 0 <= i < s[k].len() ==> #[trigger] s[k][i] < n
    &&& forall|k1: int, k2: int, i1: int, i2: int|
        0 <= k1 < s.len() && 0 <= k2 < s.len() && k1 != k2 && 0 <= i1 < s[k1].len() && 0 <= i2
            < s[k2].len() ==> #[trigger] s[k1][i1] != #[trigger] s[k2][i2]
}

/// Every entity's table index points into the transform table; within a kind
/// the indices strictly increase in record order, and no two entities, of one
/// kind or of two, share an index.
pub open spec fn table_indices_wf(h: HeaderModel) -> bool {
    indices_disjoint_increasing(index_seqs(h), h.commons.len() as int)
}

/// Appending the table's next index to one sequence keeps the sequences
/// disjoint and increasing in a table one entry longer.
pub proof fn lemma_push_next_index(s: Seq<Seq<usize>>, n: int, k: int)
    requires
        indices_disjoint_increasing(s, n),
        0 <= k < s.len(),
        0 <= n <= usize::MAX,
    ensures
        indices_disjoint_increasing(s.update(k, s[k].push(n as usize)), n + 1),
{
    let t = s.update(k, s[k].push(n as usize));
    assert forall|a: int, i: int| 0 <= a < t.len() && 0 <= i < t[a].len() implies #[trigger] t[a][i]
        < n + 1 by {
        if a != k || i < s[k].len() {
            assert(t[a][i] == s[a][i]);
        }
    }
    assert forall|a: int, i: int, j: int|
        0 <= a < t.len() && 0 <= i < j < t[a].len() implies #[trigger] t[a][i] < #[trigger] t[a][j] by {
        if a != k || j < s[k].len() {
            assert(t[a][i] == s[a][i]);
            assert(t[a][j] == s[a][j]);
        } else {
            assert(t[a][i] == s[a][i]);
        }
    }
    assert forall|a1: int, a2: int, i1: int, i2: int|
        0 <= a1 < t.len() && 0 <= a2 < t.len() && a1 != a2 && 0 <= i1 < t[a1].len() && 0 <= i2
            < t[a2].len() implies #[trigger] t[a1][i1] != #[trigger] t[a2][i2] by {
        if a1 != k || i1 < s[k].len() {
            assert(t[a1][i1] == s[a1][i1]);
        }
        if a2 != k || i2 < s[k].len() {
            assert(t[a2][i2] == s[a2][i2]);
        }
    }
}

} // verus!
