use rrv_core::datatypes::{DoorSize, DoorVariant, LockType};
use rrv_core::error::{ErrorKind, RecordKind, Section};
use rrv_core::header::{parse_replay, parse_typemap_and_header, record_kind};
use rrv_core::identifier::{parse_replay_identifier_type, Identifier, IdentifierType};
use rrv_core::primitives::{
    le_i32, le_u16, le_u32, parse_replay_bool, parse_replay_string, parse_vec3, Vec3Bits,
};
use rrv_core::rotation::{parse_half_quat, QuatSlot};
use rrv_core::types::str_eq;

fn put_u16(b: &mut Vec<u8>, v: u16) {
    b.extend_from_slice(&v.to_le_bytes());
}

fn put_u32(b: &mut Vec<u8>, v: u32) {
    b.extend_from_slice(&v.to_le_bytes());
}

fn put_str(b: &mut Vec<u8>, s: &str) {
    put_u16(b, s.len() as u16);
    b.extend_from_slice(s.as_bytes());
}

/// A header segment that opens with a registry of the given entries.
fn registry(entries: &[(u16, &str, &str)]) -> Vec<u8> {
    let mut b = Vec::new();
    put_str(&mut b, "0.0.1");
    put_u16(&mut b, entries.len() as u16);
    for (id, name, version) in entries {
        put_u16(&mut b, *id);
        put_str(&mut b, name);
        put_str(&mut b, version);
    }
    b
}

/// A transform: dimension, position, rotation dropping slot `w`.
fn put_common(b: &mut Vec<u8>, dimension: u8, x: f32) {
    b.push(dimension);
    put_u32(b, x.to_bits());
    put_u32(b, 2.0f32.to_bits());
    put_u32(b, 3.0f32.to_bits());
    b.push(3);
    put_u16(b, 0x3800);
    put_u16(b, 0);
    put_u16(b, 0);
}

fn put_door(b: &mut Vec<u8>, id: i32, variant: u8, size: u8) {
    b.extend_from_slice(&id.to_le_bytes());
    put_common(b, 1, id as f32);
    put_u16(b, 40 + id as u16);
    b.push(1);
    b.push(variant);
    b.push(size);
}

#[test]
fn end_to_end_replay_header() {
    let mut seg = registry(&[
        (1, "ReplayRecorder.Header", "1.0"),
        (2, "ReplayRecorder.EndOfHeader", "1.0"),
    ]);
    put_u16(&mut seg, 1);
    put_str(&mut seg, "1.2.3");
    seg.push(1);
    put_u16(&mut seg, 2);
    seg.extend_from_slice(&[0xAB, 0xCD]);
    let (rest, (typemap, header)) = parse_typemap_and_header(&seg).unwrap();
    assert_eq!(rest, &[0xAB, 0xCD]);
    let info = header.replay_header.as_ref().unwrap();
    assert_eq!(info.version, "1.2.3");
    assert!(info.master);
    assert!(header.metadata.is_none());
    assert!(header.commons.is_empty());
    assert!(header.level_geometry.is_empty());
    assert!(header.doors.is_empty());
    assert!(header.resource_containers.is_empty());
    assert_eq!(typemap.version, "0.0.1");
    assert_eq!(typemap.entries, 2);
    assert_eq!(typemap.types.len(), 2);
    assert_eq!(typemap.types[1].typename, "ReplayRecorder.EndOfHeader");
    assert_eq!(typemap.types[1].version, "1.0");
}

#[test]
fn replay_file_returns_event_stream() {
    let mut seg = registry(&[(7, "ReplayRecorder.EndOfHeader", "0.0.1")]);
    put_u16(&mut seg, 7);
    seg.extend_from_slice(&[5, 5]);
    let mut file = Vec::new();
    put_u32(&mut file, seg.len() as u32);
    file.extend_from_slice(&seg);
    file.extend_from_slice(&[9, 8, 7]);
    let (rest, replay) = parse_replay(&file).unwrap();
    assert_eq!(rest, &[9, 8, 7]);
    assert_eq!(replay.typemap.types[0].id, 7);
}

#[test]
fn decoding_twice_gives_equal_results() {
    let mut seg = registry(&[
        (1, "Vanilla.Map.Doors", "0.0.1"),
        (2, "ReplayRecorder.EndOfHeader", "0.0.1"),
    ]);
    put_u16(&mut seg, 1);
    put_u16(&mut seg, 2);
    put_door(&mut seg, 3, 1, 2);
    put_door(&mut seg, 4, 2, 1);
    put_u16(&mut seg, 2);
    let first = parse_typemap_and_header(&seg).unwrap();
    let second = parse_typemap_and_header(&seg).unwrap();
    assert_eq!(format!("{:?}", first), format!("{:?}", second));
}

#[test]
fn prefix_longer_than_file_is_truncated() {
    let mut file = Vec::new();
    put_u32(&mut file, 100);
    file.extend_from_slice(&[1, 2, 3]);
    let err = parse_replay(&file).unwrap_err();
    assert_eq!(err.kind, ErrorKind::Truncated);
    assert_eq!(err.offset, 4);
    assert_eq!(err.section, Section::Prefix);
}

#[test]
fn missing_type_id_is_unknown() {
    let mut seg = registry(&[(1, "ReplayRecorder.EndOfHeader", "1")]);
    let at = seg.len();
    put_u16(&mut seg, 5);
    let err = parse_typemap_and_header(&seg).unwrap_err();
    assert_eq!(err.kind, ErrorKind::UnknownTypeId);
    assert_eq!(err.offset, at);
    assert_eq!(err.section, Section::RecordId);
}

#[test]
fn unknown_name_is_unsupported_type() {
    let mut seg = registry(&[(1, "Vanilla.Map.Unknown", "1")]);
    put_u16(&mut seg, 1);
    let err = parse_typemap_and_header(&seg).unwrap_err();
    assert_eq!(err.kind, ErrorKind::UnsupportedType);
}

#[test]
fn unknown_schema_is_unsupported_version() {
    let mut seg = registry(&[(1, "Vanilla.Metadata", "0.0.9")]);
    put_u16(&mut seg, 1);
    let err = parse_typemap_and_header(&seg).unwrap_err();
    assert_eq!(err.kind, ErrorKind::UnsupportedVersion);
    let mut seg = registry(&[(1, "Vanilla.Map.ResourceContainers", "0.0.4")]);
    put_u16(&mut seg, 1);
    let err = parse_typemap_and_header(&seg).unwrap_err();
    assert_eq!(err.kind, ErrorKind::UnsupportedVersion);
}

#[test]
fn invalid_utf8_is_invalid_encoding() {
    let bytes = [2, 0, 0xff, 0xfe];
    let err = parse_replay_string(&bytes, 0).unwrap_err();
    assert_eq!(err.kind, ErrorKind::InvalidEncoding);
    assert_eq!(err.offset, 2);
}

#[test]
fn string_reads_its_characters() {
    let bytes = [3, 0, b'a', 0xc3, 0xa9, 7];
    let (p, s) = parse_replay_string(&bytes, 0).unwrap();
    assert_eq!(p, 5);
    assert_eq!(s, "a\u{e9}");
    let err = parse_replay_string(&[4, 0, b'a'], 0).unwrap_err();
    assert_eq!(err.kind, ErrorKind::Truncated);
    assert_eq!(err.offset, 2);
}

#[test]
fn dropped_slot_above_three_is_invalid_discriminant() {
    let mut seg = registry(&[(1, "Vanilla.Map.Doors", "0.0.1")]);
    put_u16(&mut seg, 1);
    put_u16(&mut seg, 1);
    let item = seg.len();
    put_door(&mut seg, 1, 0, 0);
    seg[item + 4 + 13] = 4;
    let err = parse_typemap_and_header(&seg).unwrap_err();
    assert_eq!(err.kind, ErrorKind::InvalidDiscriminant);
    assert_eq!(err.offset, item + 4 + 13);
    assert_eq!(err.section, Section::Record(RecordKind::Doors));
}

#[test]
fn unknown_identifier_discriminant_reads_nothing_more() {
    for tag in [6u8, 9, 255] {
        let (p, id) = parse_replay_identifier_type(&[tag, 1, 2], 0).unwrap();
        assert_eq!(p, 1);
        assert!(matches!(id, IdentifierType::Unknown));
    }
    let (p, id) = parse_replay_identifier_type(&[0], 0).unwrap();
    assert_eq!(p, 1);
    assert!(matches!(id, IdentifierType::Unknown));
}

#[test]
fn identifier_payloads() {
    let (p, id) = parse_replay_identifier_type(&[1, 3, 0, b'g', b'u', b'n', 2, 1], 0).unwrap();
    assert_eq!(p, 8);
    match id {
        IdentifierType::Gear(name, alias) => {
            assert_eq!(name, "gun");
            assert_eq!(alias, 0x0102);
        }
        other => panic!("unexpected {:?}", other),
    }
    let (_, id) = parse_replay_identifier_type(&[2, 5, 0], 0).unwrap();
    assert!(matches!(id, IdentifierType::AliasGear(5)));
    let (_, id) = parse_replay_identifier_type(&[3, 6, 0], 0).unwrap();
    assert!(matches!(id, IdentifierType::Item(6)));
    let (_, id) = parse_replay_identifier_type(&[4, 7, 0], 0).unwrap();
    assert!(matches!(id, IdentifierType::Enemy(7)));
    let (_, id) = parse_replay_identifier_type(&[5, 8, 0], 0).unwrap();
    assert!(matches!(id, IdentifierType::Vanity(8)));
}

#[test]
fn truncated_identifier_payload_names_its_variant() {
    let err = parse_replay_identifier_type(&[3, 1], 0).unwrap_err();
    assert_eq!(err.kind, ErrorKind::Truncated);
    assert_eq!(err.offset, 1);
    assert_eq!(err.identifier, Some(Identifier::Item));
    let err = parse_replay_identifier_type(&[1, 9, 0, b'a'], 0).unwrap_err();
    assert_eq!(err.identifier, Some(Identifier::Gear));
}

#[test]
fn any_nonzero_byte_is_true() {
    assert_eq!(parse_replay_bool(&[2], 0).unwrap(), (1, true));
    assert_eq!(parse_replay_bool(&[255], 0).unwrap(), (1, true));
    assert_eq!(parse_replay_bool(&[0], 0).unwrap(), (1, false));
    assert_eq!(parse_replay_bool(&[], 0).unwrap_err().kind, ErrorKind::Truncated);
}

#[test]
fn little_endian_integers() {
    assert_eq!(le_u16(&[0x34, 0x12], 0).unwrap(), (2, 0x1234));
    assert_eq!(le_u32(&[0, 0x78, 0x56, 0x34, 0x12], 1).unwrap(), (5, 0x1234_5678));
    assert_eq!(le_i32(&[0xff, 0xff, 0xff, 0xff], 0).unwrap(), (4, -1));
    assert_eq!(le_i32(&[0, 0, 0, 0x80], 0).unwrap(), (4, i32::MIN));
    assert_eq!(le_u16(&[1], 0).unwrap_err().offset, 0);
    let v = 1.5f32.to_bits().to_le_bytes();
    let mut b = Vec::new();
    for _ in 0..3 {
        b.extend_from_slice(&v);
    }
    let (p, xyz) = parse_vec3(&b, 0).unwrap();
    assert_eq!(p, 12);
    assert_eq!(xyz, Vec3Bits { x: 1.5f32.to_bits(), y: 1.5f32.to_bits(), z: 1.5f32.to_bits() });
}

#[test]
fn rotation_places_stored_components_around_the_dropped_slot() {
    let bytes = [2, 1, 0, 2, 0, 3, 0];
    let (p, q) = parse_half_quat(&bytes, 0).unwrap();
    assert_eq!(p, 7);
    assert_eq!(q.dropped, QuatSlot::Z);
    assert_eq!(q.components(), [Some(1), Some(2), None, Some(3)]);
    let (_, q) = parse_half_quat(&[0, 1, 0, 2, 0, 3, 0], 0).unwrap();
    assert_eq!(q.components(), [None, Some(1), Some(2), Some(3)]);
    let err = parse_half_quat(&[7, 1, 0, 2, 0, 3, 0], 0).unwrap_err();
    assert_eq!(err.kind, ErrorKind::InvalidDiscriminant);
    let err = parse_half_quat(&[7, 1, 0], 0).unwrap_err();
    assert_eq!(err.kind, ErrorKind::Truncated);
}

#[test]
fn doors_take_table_indices_in_insertion_order() {
    let mut seg = registry(&[
        (1, "Vanilla.Map.Doors", "0.0.1"),
        (2, "Vanilla.Map.Ladders", "0.0.1"),
        (3, "ReplayRecorder.EndOfHeader", "0.0.1"),
    ]);
    put_u16(&mut seg, 1);
    put_u16(&mut seg, 2);
    put_door(&mut seg, 10, 1, 2);
    put_door(&mut seg, 11, 9, 9);
    put_u16(&mut seg, 2);
    put_u16(&mut seg, 1);
    put_common(&mut seg, 2, 50.0);
    put_u16(&mut seg, 0x3c00);
    put_u16(&mut seg, 1);
    put_u16(&mut seg, 1);
    put_door(&mut seg, 12, 4, 1);
    put_u16(&mut seg, 3);
    let (_, (_, header)) = parse_typemap_and_header(&seg).unwrap();
    let idx: Vec<usize> = header.doors.iter().map(|d| d.idx).collect();
    assert_eq!(idx, vec![0, 1, 3]);
    assert_eq!(header.ladders[0].idx, 2);
    assert_eq!(header.ladders[0].height, 0x3c00);
    assert_eq!(header.commons.len(), 4);
    assert_eq!(header.commons[3].position.x, 12.0f32.to_bits());
    assert_eq!(header.commons[2].dimension, 2);
    assert_eq!(header.doors[0].variant, DoorVariant::SecurityDoor);
    assert_eq!(header.doors[0].size, DoorSize::Large);
    assert_eq!(header.doors[0].serial, 50);
    assert!(header.doors[0].checkpoint);
    assert_eq!(header.doors[1].variant, DoorVariant::WeakDoor);
    assert_eq!(header.doors[1].size, DoorSize::Small);
    assert_eq!(header.doors[2].variant, DoorVariant::ApexDoor);
}

/// A segment with one resource container record of the given schema whose
/// item is followed by `tail`, then the end-of-header record.
fn container_segment(version: &str, tail: &[u8]) -> (Vec<u8>, usize) {
    let mut seg = registry(&[
        (1, "Vanilla.Map.ResourceContainers", version),
        (2, "ReplayRecorder.EndOfHeader", "0.0.1"),
    ]);
    put_u16(&mut seg, 1);
    put_u16(&mut seg, 1);
    let start = seg.len();
    seg.extend_from_slice(&21i32.to_le_bytes());
    put_common(&mut seg, 0, 1.0);
    put_u16(&mut seg, 77);
    seg.push(1);
    seg.extend_from_slice(tail);
    put_u16(&mut seg, 2);
    (seg, start)
}

#[test]
fn container_schemas_read_different_fields() {
    let later_fields = [3, 9, 0, 1, 1];
    let (seg, start) = container_segment("0.0.1", &later_fields);
    let err = parse_typemap_and_header(&seg).unwrap_err();
    assert_eq!(err.kind, ErrorKind::UnknownTypeId);
    assert_eq!(err.offset, start + 27);

    let (seg, _) = container_segment("0.0.3", &later_fields);
    let (rest, (_, header)) = parse_typemap_and_header(&seg).unwrap();
    assert!(rest.is_empty());
    let c = &header.resource_containers[0];
    assert_eq!(c.id, 21);
    assert_eq!(c.serial, 77);
    assert!(matches!(c.consumable_type, Some(IdentifierType::Item(9))));
    assert_eq!(c.registered, Some(true));
    assert_eq!(c.lock_type, Some(LockType::Melee));

    let (seg, _) = container_segment("0.0.1", &[]);
    let (_, (_, header)) = parse_typemap_and_header(&seg).unwrap();
    let c = &header.resource_containers[0];
    assert_eq!(c.id, 21);
    assert_eq!(c.serial, 77);
    assert!(c.locker);
    assert!(c.consumable_type.is_none());
    assert!(c.registered.is_none());
    assert!(c.lock_type.is_none());

    let (seg, _) = container_segment("0.0.2", &[4, 3, 0, 0]);
    let (_, (_, header)) = parse_typemap_and_header(&seg).unwrap();
    let c = &header.resource_containers[0];
    assert!(matches!(c.consumable_type, Some(IdentifierType::Enemy(3))));
    assert_eq!(c.registered, Some(false));
    assert!(c.lock_type.is_none());
}

#[test]
fn lock_byte_out_of_range_leaves_lock_unset() {
    let (seg, _) = container_segment("0.0.3", &[0, 1, 7]);
    let (_, (_, header)) = parse_typemap_and_header(&seg).unwrap();
    assert!(header.resource_containers[0].lock_type.is_none());
    assert_eq!(header.resource_containers[0].registered, Some(true));
}

#[test]
fn count_beyond_buffer_is_truncated() {
    let mut seg = registry(&[(1, "Vanilla.Map.Doors", "0.0.1")]);
    put_u16(&mut seg, 1);
    put_u16(&mut seg, 5);
    put_door(&mut seg, 1, 0, 0);
    let err = parse_typemap_and_header(&seg).unwrap_err();
    assert_eq!(err.kind, ErrorKind::Truncated);
    assert_eq!(err.section, Section::Record(RecordKind::Doors));
    assert_eq!(err.offset, seg.len());

    let mut seg = registry(&[(1, "Vanilla.Map.Geometry", "0.0.1")]);
    put_u16(&mut seg, 1);
    seg.push(0);
    put_u16(&mut seg, 1);
    put_u32(&mut seg, u32::MAX);
    put_u32(&mut seg, 0);
    put_u32(&mut seg, 0);
    put_u32(&mut seg, 0);
    put_u16(&mut seg, 4);
    let err = parse_typemap_and_header(&seg).unwrap_err();
    assert_eq!(err.kind, ErrorKind::Truncated);
    assert_eq!(err.section, Section::Record(RecordKind::Geometry));
}

#[test]
fn geometry_and_metadata_records() {
    let mut seg = registry(&[
        (1, "Vanilla.Map.Geometry", "0.0.1"),
        (2, "Vanilla.Map.Geometry.EOH", "0.0.1"),
        (3, "Vanilla.Metadata", "0.0.2"),
        (4, "ReplayRecorder.EndOfHeader", "0.0.1"),
    ]);
    put_u16(&mut seg, 1);
    seg.push(3);
    put_u16(&mut seg, 2);
    put_u32(&mut seg, 3);
    for v in [1.0f32, 2.0, 3.0, 4.0, 5.0, 6.0] {
        put_u32(&mut seg, v.to_bits());
    }
    for i in [0u16, 1, 0] {
        put_u16(&mut seg, i);
    }
    put_u16(&mut seg, 2);
    put_u16(&mut seg, 3);
    put_str(&mut seg, "R8E2");
    seg.push(0);
    put_u16(&mut seg, 4);
    let (rest, (_, header)) = parse_typemap_and_header(&seg).unwrap();
    assert!(rest.is_empty());
    let g = &header.level_geometry[0];
    assert_eq!(g.dimension, 3);
    assert_eq!(g.vertices.len(), 2);
    assert_eq!(g.vertices[1].x, 4.0f32.to_bits());
    assert_eq!(g.indices, vec![0, 1, 0]);
    let m = header.metadata.as_ref().unwrap();
    assert_eq!(m.version, "R8E2");
    assert_eq!(m.compatability_old_dc, Some(false));
}

#[test]
fn metadata_first_schema_has_no_flag() {
    let mut seg = registry(&[
        (1, "Vanilla.Metadata", "0.0.1"),
        (2, "ReplayRecorder.EndOfHeader", "0.0.1"),
    ]);
    put_u16(&mut seg, 1);
    put_str(&mut seg, "v");
    put_u16(&mut seg, 2);
    let (_, (_, header)) = parse_typemap_and_header(&seg).unwrap();
    let m = header.metadata.as_ref().unwrap();
    assert_eq!(m.version, "v");
    assert_eq!(m.compatability_old_dc, None);
}

#[test]
fn bulkhead_controller_door_ids_follow_their_flags() {
    let mut seg = registry(&[
        (1, "Vanilla.Map.BulkheadControllers", "0.0.1"),
        (2, "ReplayRecorder.EndOfHeader", "0.0.1"),
    ]);
    put_u16(&mut seg, 1);
    put_u16(&mut seg, 1);
    seg.extend_from_slice(&8i32.to_le_bytes());
    put_common(&mut seg, 1, 0.0);
    put_u16(&mut seg, 3);
    seg.push(1);
    seg.extend_from_slice(&100i32.to_le_bytes());
    seg.push(0);
    seg.push(5);
    seg.extend_from_slice(&(-2i32).to_le_bytes());
    put_u16(&mut seg, 2);
    let (_, (_, header)) = parse_typemap_and_header(&seg).unwrap();
    let c = &header.bulkhead_controllers[0];
    assert_eq!(c.id, 8);
    assert_eq!(c.serial, 3);
    assert_eq!(c.main, Some(100));
    assert_eq!(c.secondary, None);
    assert_eq!(c.ovl, Some(-2));
}

#[test]
fn entity_kinds_share_one_table() {
    let mut seg = registry(&[
        (1, "Vanilla.Map.Terminals", "0.0.1"),
        (2, "Vanilla.Map.Generators", "0.0.1"),
        (3, "Vanilla.Map.DisinfectStations", "0.0.1"),
        (4, "Vanilla.Enemy.Spitters", "0.0.1"),
        (5, "ReplayRecorder.EndOfHeader", "0.0.1"),
    ]);
    for (rec, extra) in [(1u16, None), (2, Some(11u16)), (3, Some(12)), (4, Some(0x4000))] {
        put_u16(&mut seg, rec);
        put_u16(&mut seg, 1);
        seg.extend_from_slice(&(rec as i32).to_le_bytes());
        put_common(&mut seg, 0, 0.0);
        if let Some(v) = extra {
            put_u16(&mut seg, v);
        }
    }
    put_u16(&mut seg, 5);
    let (_, (_, header)) = parse_typemap_and_header(&seg).unwrap();
    assert_eq!(header.terminals[0].idx, 0);
    assert_eq!(header.generators[0].idx, 1);
    assert_eq!(header.generators[0].serial, 11);
    assert_eq!(header.disinfect_stations[0].idx, 2);
    assert_eq!(header.disinfect_stations[0].serial, 12);
    assert_eq!(header.spitters[0].idx, 3);
    assert_eq!(header.spitters[0].scale, 0x4000);
    assert_eq!(header.commons.len(), 4);
}

#[test]
fn duplicate_ids_resolve_to_the_first_entry() {
    let mut seg = registry(&[
        (1, "ReplayRecorder.EndOfHeader", "1"),
        (1, "Vanilla.Map.Unknown", "1"),
    ]);
    put_u16(&mut seg, 1);
    let (rest, (typemap, _)) = parse_typemap_and_header(&seg).unwrap();
    assert!(rest.is_empty());
    assert_eq!(typemap.find(1).unwrap().typename, "ReplayRecorder.EndOfHeader");
    assert!(typemap.find(2).is_none());
}

#[test]
fn record_kinds_by_name_and_version() {
    assert_eq!(record_kind("Vanilla.Map.Doors", "anything"), Ok(RecordKind::Doors));
    assert_eq!(
        record_kind("Vanilla.Map.ResourceContainers", "0.0.2"),
        Ok(RecordKind::ResourceContainersV2)
    );
    assert_eq!(record_kind("Vanilla.Metadata", "0.0.1"), Ok(RecordKind::MetadataV1));
    assert_eq!(record_kind("Vanilla.Map.Door", "0.0.1"), Err(ErrorKind::UnsupportedType));
    assert!(str_eq("abc", "abc"));
    assert!(!str_eq("abc", "abd"));
    assert!(!str_eq("abc", "ab"));
}

#[test]
fn empty_registry_and_empty_segment() {
    let err = parse_typemap_and_header(&[]).unwrap_err();
    assert_eq!(err.kind, ErrorKind::Truncated);
    assert_eq!(err.section, Section::Typemap);
    let seg = registry(&[]);
    let err = parse_typemap_and_header(&seg).unwrap_err();
    assert_eq!(err.section, Section::RecordId);
    assert_eq!(err.offset, seg.len());
}

#[test]
fn count_beyond_buffer_after_invalid_rotation_reports_the_rotation() {
    let mut seg = registry(&[(1, "Vanilla.Map.Doors", "0.0.1")]);
    put_u16(&mut seg, 1);
    put_u16(&mut seg, 5);
    let item = seg.len();
    put_door(&mut seg, 1, 0, 0);
    seg[item + 4 + 13] = 9;
    let err = parse_typemap_and_header(&seg).unwrap_err();
    assert_eq!(err.kind, ErrorKind::InvalidDiscriminant);
}
