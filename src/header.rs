//! The header records: one decoder per record kind, and the dispatcher that
//! resolves each record's type id through the registry and runs its decoder
//! until the end-of-header record.
use vstd::prelude::*;

use crate::datatypes::{
    BulkheadController, Common, DisinfectStation, Door, Generator, Geometry, GeometryModel, Header,
    HeaderModel, Ladder, ResourceContainer, ResourceContainerModel, Spitter, Terminal,
};
use crate::entities::{
    spec_bulkhead_dc, spec_common, spec_id_common,
    parse_bulkhead_item, parse_container_item, parse_disinfect_item, parse_door_item,
    parse_generator_item, parse_ladder_item, parse_spitter_item, parse_terminal_item,
    spec_bulkhead_item, spec_container_item, spec_disinfect_item, spec_door_item,
    spec_generator_item, spec_ladder_item, spec_spitter_item, spec_terminal_item, ContainerSchema,
};
use crate::datatypes::{
    Metadata, MetadataModel, ReplayHeader, ReplayHeaderModel, empty_header, index_seqs,
    lemma_push_next_index, table_indices_wf,
};
use crate::identifier::spec_identifier;
use crate::rotation::spec_half_quat;
use crate::error::{fault_in, truncated, DecodeError, ErrorKind, Fault, RecordKind, Section};
use crate::primitives::{
    content_fault, exact_size, fails_on_length_or_content, lemma_fold_at_least,
    lemma_fold_fails_on_length_or_content, lemma_fold_exact, lemma_fold_err, le_u16, le_u32, le_u8,
    takes_at_least, parse_replay_bool, parse_replay_string, parse_vec3,
    push_step, spec_bool, spec_counted, spec_fold, spec_string, spec_u16, spec_u32, spec_u8,
    spec_vec3, Vec3Bits,
};
use crate::types::{DataTypeModel, parse_typemap, spec_lookup, spec_typemap, str_eq, Typemap, TypemapModel};

verus! {

/// A decoder's result with the header it left: the position after the record,
/// or the failure.
pub open spec fn outcome<E>(r: Result<usize, E>, h: HeaderModel) -> Result<(usize, HeaderModel), E> {
    match r {
        Ok(q) => Ok((q, h)),
        Err(e) => Err(e),
    }
}

pub open spec fn vec3_item() -> spec_fn(Seq<u8>, usize) -> Result<(usize, Vec3Bits), Fault> {
    |b: Seq<u8>, p: usize| spec_vec3(b, p)
}

pub open spec fn u16_item() -> spec_fn(Seq<u8>, usize) -> Result<(usize, u16), Fault> {
    |b: Seq<u8>, p: usize| spec_u16(b, p)
}

/// A mesh: `u8` dimension, `u16` vertex count, `u32` index count, the
/// vertices, then the `u16` indices.
#[verifier::opaque]
pub open spec fn spec_geometry(b: Seq<u8>, pos: usize) -> Result<(usize, GeometryModel), Fault> {
    match spec_u8(b, pos) {
        Err(e) => Err(e),
        Ok((p, dimension)) => match spec_u16(b, p) {
            Err(e) => Err(e),
            Ok((q, num_vert)) => match spec_u32(b, q) {
                Err(e) => Err(e),
                Ok((r, num_idx)) => match spec_fold(
                    vec3_item(),
                    push_step::<Vec3Bits>(),
                    b,
                    r,
                    num_vert as nat,
                    seq![],
                ) {
                    Err(e) => Err(e),
                    Ok((s, vertices)) => match spec_fold(
                        u16_item(),
                        push_step::<u16>(),
                        b,
                        s,
                        num_idx as nat,
                        seq![],
                    ) {
                        Err(e) => Err(e),
                        Ok((t, indices)) => Ok((t, GeometryModel { dimension, vertices, indices })),
                    },
                },
            },
        },
    }
}

/// Reads a mesh.
pub fn parse_geometry(i: &[u8], pos: usize) -> (r: Result<(usize, Geometry), Fault>)
    ensures
        r matches Ok((q, _)) ==> pos <= q <= i@.len(),
        match r {
            Ok((q, g)) => spec_geometry(i@, pos) == Ok::<(usize, GeometryModel), Fault>((q, g@)),
            Err(e) => spec_geometry(i@, pos) == Err::<(usize, GeometryModel), Fault>(e),
        },
{
    reveal(spec_geometry);
    let (p, dimension) = match le_u8(i, pos) {
        Ok(x) => x,
        Err(e) => return Err(e),
    };
    let (q, num_vert) = match le_u16(i, p) {
        Ok(x) => x,
        Err(e) => return Err(e),
    };
    let (r, num_idx) = match le_u32(i, q) {
        Ok(x) => x,
        Err(e) => return Err(e),
    };
    let mut vertices: Vec<Vec3Bits> = Vec::new();
    let mut s = r;
    let mut k: u16 = 0;
    while k < num_vert
        invariant
            k <= num_vert,
            pos <= r <= s <= i@.len(),
            spec_u8(i@, pos) == Ok::<(usize, u8), Fault>((p, dimension)),
            spec_u16(i@, p) == Ok::<(usize, u16), Fault>((q, num_vert)),
            spec_u32(i@, q) == Ok::<(usize, u32), Fault>((r, num_idx)),
            spec_fold(vec3_item(), push_step::<Vec3Bits>(), i@, r, k as nat, seq![]) == Ok::<
                (usize, Seq<Vec3Bits>),
                Fault,
            >((s, vertices@)),
        decreases num_vert - k,
    {
        let res = parse_vec3(i, s);
        assert(vec3_item()(i@, s) == spec_vec3(i@, s));
        match res {
            Ok((next, v)) => {
                vertices.push(v);
                s = next;
                k = k + 1;
            },
            Err(e) => {
                proof {
                    reveal(spec_geometry);
                    lemma_fold_err(
                        vec3_item(),
                        push_step::<Vec3Bits>(),
                        i@,
                        r,
                        (k + 1) as nat,
                        num_vert as nat,
                        seq![],
                    );
                }
                return Err(e);
            },
        }
    }
    let mut indices: Vec<u16> = Vec::new();
    let mut t = s;
    let mut m: u32 = 0;
    while m < num_idx
        invariant
            m <= num_idx,
            pos <= s <= t <= i@.len(),
            spec_u8(i@, pos) == Ok::<(usize, u8), Fault>((p, dimension)),
            spec_u16(i@, p) == Ok::<(usize, u16), Fault>((q, num_vert)),
            spec_u32(i@, q) == Ok::<(usize, u32), Fault>((r, num_idx)),
            spec_fold(vec3_item(), push_step::<Vec3Bits>(), i@, r, num_vert as nat, seq![])
                == Ok::<(usize, Seq<Vec3Bits>), Fault>((s, vertices@)),
            spec_fold(u16_item(), push_step::<u16>(), i@, s, m as nat, seq![]) == Ok::<
                (usize, Seq<u16>),
                Fault,
            >((t, indices@)),
        decreases num_idx - m,
    {
        let res = le_u16(i, t);
        assert(u16_item()(i@, t) == spec_u16(i@, t));
        match res {
            Ok((next, v)) => {
                indices.push(v);
                t = next;
                m = m + 1;
            },
            Err(e) => {
                proof {
                    reveal(spec_geometry);
                    lemma_fold_err(
                        u16_item(),
                        push_step::<u16>(),
                        i@,
                        s,
                        (m + 1) as nat,
                        num_idx as nat,
                        seq![],
                    );
                }
                return Err(e);
            },
        }
    }
    proof {
        reveal(spec_geometry);
    }
    Ok((t, Geometry { dimension, vertices, indices }))
}

pub open spec fn doors_item() -> spec_fn(Seq<u8>, usize) -> Result<(usize, (Common, Door)), Fault> {
    |b: Seq<u8>, p: usize| spec_door_item(b, p)
}

/// Appends a door at the next table index, and its transform to the table.
pub open spec fn add_doors() -> spec_fn(HeaderModel, (Common, Door)) -> HeaderModel {
    |h: HeaderModel, t: (Common, Door)|
        HeaderModel {
            commons: h.commons.push(t.0),
            doors: h.doors.push(Door { idx: h.commons.len() as usize, ..t.1 }),
            ..h
        }
}

/// Adding an item keeps the table indices well formed.
pub proof fn lemma_add_doors_indices(h: HeaderModel, t: (Common, Door))
    requires
        table_indices_wf(h),
        h.commons.len() <= usize::MAX,
    ensures
        table_indices_wf(add_doors()(h, t)),
{
    let s = index_seqs(h);
    lemma_push_next_index(s, h.commons.len() as int, 0);
    assert(index_seqs(add_doors()(h, t)) =~~= s.update(0, s[0].push(h.commons.len() as usize)));
}

/// Reads a `u16` count and that many door items, appending each door with
/// the index of its transform, which is appended to the shared table.
pub fn parse_doors(i: &[u8], pos: usize, header: &mut Header) -> (r: Result<usize, Fault>)
    requires
        table_indices_wf(old(header)@),
    ensures
        r is Ok ==> table_indices_wf(final(header)@),
        r matches Ok(q) ==> pos <= q <= i@.len(),
        outcome(r, final(header)@) == spec_counted(
            doors_item(),
            add_doors(),
            i@,
            pos,
            old(header)@,
        ),
{
    let (start, n) = match le_u16(i, pos) {
        Ok(x) => x,
        Err(e) => return Err(e),
    };
    let mut q = start;
    let mut k: u16 = 0;
    while k < n
        invariant
            table_indices_wf(header@),
            k <= n,
            pos <= start <= q <= i@.len(),
            spec_u16(i@, pos) == Ok::<(usize, u16), Fault>((start, n)),
            spec_fold(doors_item(), add_doors(), i@, start, k as nat, old(header)@) == Ok::<
                (usize, HeaderModel),
                Fault,
            >((q, header@)),
        decreases n - k,
    {
        let res = parse_door_item(i, q);
        assert(doors_item()(i@, q) == spec_door_item(i@, q));
        match res {
            Ok((next, (c, item))) => {
                let idx = header.commons.len();
                proof {
                    lemma_add_doors_indices(header@, (c, item));
                }
                header.doors.push(Door { idx, ..item });
                header.commons.push(c);
                q = next;
                k = k + 1;
            },
            Err(e) => {
                proof {
                    lemma_fold_err(
                        doors_item(),
                        add_doors(),
                        i@,
                        start,
                        (k + 1) as nat,
                        n as nat,
                        old(header)@,
                    );
                }
                return Err(e);
            },
        }
    }
    Ok(q)
}

pub open spec fn ladders_item() -> spec_fn(Seq<u8>, usize) -> Result<
    (usize, (Common, Ladder)),
    Fault,
> {
    |b: Seq<u8>, p: usize| spec_ladder_item(b, p)
}

/// Appends a ladder at the next table index, and its transform to the table.
pub open spec fn add_ladders() -> spec_fn(HeaderModel, (Common, Ladder)) -> HeaderModel {
    |h: HeaderModel, t: (Common, Ladder)|
        HeaderModel {
            commons: h.commons.push(t.0),
            ladders: h.ladders.push(Ladder { idx: h.commons.len() as usize, ..t.1 }),
            ..h
        }
}

/// Adding an item keeps the table indices well formed.
pub proof fn lemma_add_ladders_indices(h: HeaderModel, t: (Common, Ladder))
    requires
        table_indices_wf(h),
        h.commons.len() <= usize::MAX,
    ensures
        table_indices_wf(add_ladders()(h, t)),
{
    let s = index_seqs(h);
    lemma_push_next_index(s, h.commons.len() as int, 1);
    assert(index_seqs(add_ladders()(h, t)) =~~= s.update(1, s[1].push(h.commons.len() as usize)));
}

/// Reads a `u16` count and that many ladder items, appending each ladder with
/// the index of its transform, which is appended to the shared table.
pub fn parse_ladders(i: &[u8], pos: usize, header: &mut Header) -> (r: Result<usize, Fault>)
    requires
        table_indices_wf(old(header)@),
    ensures
        r is Ok ==> table_indices_wf(final(header)@),
        r matches Ok(q) ==> pos <= q <= i@.len(),
        outcome(r, final(header)@) == spec_counted(
            ladders_item(),
            add_ladders(),
            i@,
            pos,
            old(header)@,
        ),
{
    let (start, n) = match le_u16(i, pos) {
        Ok(x) => x,
        Err(e) => return Err(e),
    };
    let mut q = start;
    let mut k: u16 = 0;
    while k < n
        invariant
            table_indices_wf(header@),
            k <= n,
            pos <= start <= q <= i@.len(),
            spec_u16(i@, pos) == Ok::<(usize, u16), Fault>((start, n)),
            spec_fold(ladders_item(), add_ladders(), i@, start, k as nat, old(header)@) == Ok::<
                (usize, HeaderModel),
                Fault,
            >((q, header@)),
        decreases n - k,
    {
        let res = parse_ladder_item(i, q);
        assert(ladders_item()(i@, q) == spec_ladder_item(i@, q));
        match res {
            Ok((next, (c, item))) => {
                let idx = header.commons.len();
                proof {
                    lemma_add_ladders_indices(header@, (c, item));
                }
                header.ladders.push(Ladder { idx, ..item });
                header.commons.push(c);
                q = next;
                k = k + 1;
            },
            Err(e) => {
                proof {
                    lemma_fold_err(
                        ladders_item(),
                        add_ladders(),
                        i@,
                        start,
                        (k + 1) as nat,
                        n as nat,
                        old(header)@,
                    );
                }
                return Err(e);
            },
        }
    }
    Ok(q)
}

pub open spec fn terminals_item() -> spec_fn(Seq<u8>, usize) -> Result<
    (usize, (Common, Terminal)),
    Fault,
> {
    |b: Seq<u8>, p: usize| spec_terminal_item(b, p)
}

/// Appends a terminal at the next table index, and its transform to the table.
pub open spec fn add_terminals() -> spec_fn(HeaderModel, (Common, Terminal)) -> HeaderModel {
    |h: HeaderModel, t: (Common, Terminal)|
        HeaderModel {
            commons: h.commons.push(t.0),
            terminals: h.terminals.push(Terminal { idx: h.commons.len() as usize, ..t.1 }),
            ..h
        }
}

/// Adding an item keeps the table indices well formed.
pub proof fn lemma_add_terminals_indices(h: HeaderModel, t: (Common, Terminal))
    requires
        table_indices_wf(h),
        h.commons.len() <= usize::MAX,
    ensures
        table_indices_wf(add_terminals()(h, t)),
{
    let s = index_seqs(h);
    lemma_push_next_index(s, h.commons.len() as int, 2);
    assert(index_seqs(add_terminals()(h, t)) =~~= s.update(2, s[2].push(h.commons.len() as usize)));
}

/// Reads a `u16` count and that many terminal items, appending each terminal with
/// the index of its transform, which is appended to the shared table.
pub fn parse_terminals(i: &[u8], pos: usize, header: &mut Header) -> (r: Result<usize, Fault>)
    requires
        table_indices_wf(old(header)@),
    ensures
        r is Ok ==> table_indices_wf(final(header)@),
        r matches Ok(q) ==> pos <= q <= i@.len(),
        outcome(r, final(header)@) == spec_counted(
            terminals_item(),
            add_terminals(),
            i@,
            pos,
            old(header)@,
        ),
{
    let (start, n) = match le_u16(i, pos) {
        Ok(x) => x,
        Err(e) => return Err(e),
    };
    let mut q = start;
    let mut k: u16 = 0;
    while k < n
        invariant
            table_indices_wf(header@),
            k <= n,
            pos <= start <= q <= i@.len(),
            spec_u16(i@, pos) == Ok::<(usize, u16), Fault>((start, n)),
            spec_fold(terminals_item(), add_terminals(), i@, start, k as nat, old(header)@) == Ok::<
                (usize, HeaderModel),
                Fault,
            >((q, header@)),
        decreases n - k,
    {
        let res = parse_terminal_item(i, q);
        assert(terminals_item()(i@, q) == spec_terminal_item(i@, q));
        match res {
            Ok((next, (c, item))) => {
                let idx = header.commons.len();
                proof {
                    lemma_add_terminals_indices(header@, (c, item));
                }
                header.terminals.push(Terminal { idx, ..item });
                header.commons.push(c);
                q = next;
                k = k + 1;
            },
            Err(e) => {
                proof {
                    lemma_fold_err(
                        terminals_item(),
                        add_terminals(),
                        i@,
                        start,
                        (k + 1) as nat,
                        n as nat,
                        old(header)@,
                    );
                }
                return Err(e);
            },
        }
    }
    Ok(q)
}

pub open spec fn generators_item() -> spec_fn(Seq<u8>, usize) -> Result<
    (usize, (Common, Generator)),
    Fault,
> {
    |b: Seq<u8>, p: usize| spec_generator_item(b, p)
}

/// Appends a generator at the next table index, and its transform to the table.
pub open spec fn add_generators() -> spec_fn(HeaderModel, (Common, Generator)) -> HeaderModel {
    |h: HeaderModel, t: (Common, Generator)|
        HeaderModel {
            commons: h.commons.push(t.0),
            generators: h.generators.push(Generator { idx: h.commons.len() as usize, ..t.1 }),
            ..h
        }
}

/// Adding an item keeps the table indices well formed.
pub proof fn lemma_add_generators_indices(h: HeaderModel, t: (Common, Generator))
    requires
        table_indices_wf(h),
        h.commons.len() <= usize::MAX,
    ensures
        table_indices_wf(add_generators()(h, t)),
{
    let s = index_seqs(h);
    lemma_push_next_index(s, h.commons.len() as int, 3);
    let pushed = s.update(3, s[3].push(h.commons.len() as usize));
    assert(index_seqs(add_generators()(h, t)) =~~= pushed);
}

/// Reads a `u16` count and that many generator items, appending each generator with
/// the index of its transform, which is appended to the shared table.
pub fn parse_generators(i: &[u8], pos: usize, header: &mut Header) -> (r: Result<usize, Fault>)
    requires
        table_indices_wf(old(header)@),
    ensures
        r is Ok ==> table_indices_wf(final(header)@),
        r matches Ok(q) ==> pos <= q <= i@.len(),
        outcome(r, final(header)@) == spec_counted(
            generators_item(),
            add_generators(),
            i@,
            pos,
            old(header)@,
        ),
{
    let (start, n) = match le_u16(i, pos) {
        Ok(x) => x,
        Err(e) => return Err(e),
    };
    let mut q = start;
    let mut k: u16 = 0;
    while k < n
        invariant
            table_indices_wf(header@),
            k <= n,
            pos <= start <= q <= i@.len(),
            spec_u16(i@, pos) == Ok::<(usize, u16), Fault>((start, n)),
            spec_fold(
                generators_item(),
                add_generators(),
                i@,
                start,
                k as nat,
                old(header)@,
            ) == Ok::<
                (usize, HeaderModel),
                Fault,
            >((q, header@)),
        decreases n - k,
    {
        let res = parse_generator_item(i, q);
        assert(generators_item()(i@, q) == spec_generator_item(i@, q));
        match res {
            Ok((next, (c, item))) => {
                let idx = header.commons.len();
                proof {
                    lemma_add_generators_indices(header@, (c, item));
                }
                header.generators.push(Generator { idx, ..item });
                header.commons.push(c);
                q = next;
                k = k + 1;
            },
            Err(e) => {
                proof {
                    lemma_fold_err(
                        generators_item(),
                        add_generators(),
                        i@,
                        start,
                        (k + 1) as nat,
                        n as nat,
                        old(header)@,
                    );
                }
                return Err(e);
            },
        }
    }
    Ok(q)
}

pub open spec fn disinfect_stations_item() -> spec_fn(Seq<u8>, usize) -> Result<
    (usize, (Common, DisinfectStation)),
    Fault,
> {
    |b: Seq<u8>, p: usize| spec_disinfect_item(b, p)
}

/// Appends a disinfect station at the next table index, and its transform to the table.
pub open spec fn add_disinfect_stations() -> spec_fn(
    HeaderModel,
    (Common, DisinfectStation),
) -> HeaderModel {
    |h: HeaderModel, t: (Common, DisinfectStation)|
        HeaderModel {
            commons: h.commons.push(t.0),
            disinfect_stations: h.disinfect_stations.push(
                DisinfectStation { idx: h.commons.len() as usize, ..t.1 },
            ),
            ..h
        }
}

/// Adding an item keeps the table indices well formed.
pub proof fn lemma_add_disinfect_stations_indices(h: HeaderModel, t: (Common, DisinfectStation))
    requires
        table_indices_wf(h),
        h.commons.len() <= usize::MAX,
    ensures
        table_indices_wf(add_disinfect_stations()(h, t)),
{
    let s = index_seqs(h);
    lemma_push_next_index(s, h.commons.len() as int, 5);
    let pushed = s.update(5, s[5].push(h.commons.len() as usize));
    assert(index_seqs(add_disinfect_stations()(h, t)) =~~= pushed);
}

/// Reads a `u16` count and that many disinfect station items, appending each disinfect station with
/// the index of its transform, which is appended to the shared table.
pub fn parse_disinfect_stations(i: &[u8], pos: usize, header: &mut Header) -> (r: Result<usize, Fault>)
    requires
        table_indices_wf(old(header)@),
    ensures
        r is Ok ==> table_indices_wf(final(header)@),
        r matches Ok(q) ==> pos <= q <= i@.len(),
        outcome(r, final(header)@) == spec_counted(
            disinfect_stations_item(),
            add_disinfect_stations(),
            i@,
            pos,
            old(header)@,
        ),
{
    let (start, n) = match le_u16(i, pos) {
        Ok(x) => x,
        Err(e) => return Err(e),
    };
    let mut q = start;
    let mut k: u16 = 0;
    while k < n
        invariant
            table_indices_wf(header@),
            k <= n,
            pos <= start <= q <= i@.len(),
            spec_u16(i@, pos) == Ok::<(usize, u16), Fault>((start, n)),
            spec_fold(
                disinfect_stations_item(),
                add_disinfect_stations(),
                i@,
                start,
                k as nat,
                old(header)@,
            ) == Ok::<
                (usize, HeaderModel),
                Fault,
            >((q, header@)),
        decreases n - k,
    {
        let res = parse_disinfect_item(i, q);
        assert(disinfect_stations_item()(i@, q) == spec_disinfect_item(i@, q));
        match res {
            Ok((next, (c, item))) => {
                let idx = header.commons.len();
                proof {
                    lemma_add_disinfect_stations_indices(header@, (c, item));
                }
                header.disinfect_stations.push(DisinfectStation { idx, ..item });
                header.commons.push(c);
                q = next;
                k = k + 1;
            },
            Err(e) => {
                proof {
                    lemma_fold_err(
                        disinfect_stations_item(),
                        add_disinfect_stations(),
                        i@,
                        start,
                        (k + 1) as nat,
                        n as nat,
                        old(header)@,
                    );
                }
                return Err(e);
            },
        }
    }
    Ok(q)
}

pub open spec fn bulkhead_controllers_item() -> spec_fn(Seq<u8>, usize) -> Result<
    (usize, (Common, BulkheadController)),
    Fault,
> {
    |b: Seq<u8>, p: usize| spec_bulkhead_item(b, p)
}

/// Appends a bulkhead controller at the next table index, and its transform to the table.
pub open spec fn add_bulkhead_controllers() -> spec_fn(
    HeaderModel,
    (Common, BulkheadController),
) -> HeaderModel {
    |h: HeaderModel, t: (Common, BulkheadController)|
        HeaderModel {
            commons: h.commons.push(t.0),
            bulkhead_controllers: h.bulkhead_controllers.push(
                BulkheadController { idx: h.commons.len() as usize, ..t.1 },
            ),
            ..h
        }
}

/// Adding an item keeps the table indices well formed.
pub proof fn lemma_add_bulkhead_controllers_indices(h: HeaderModel, t: (Common, BulkheadController))
    requires
        table_indices_wf(h),
        h.commons.len() <= usize::MAX,
    ensures
        table_indices_wf(add_bulkhead_controllers()(h, t)),
{
    let s = index_seqs(h);
    lemma_push_next_index(s, h.commons.len() as int, 6);
    let pushed = s.update(6, s[6].push(h.commons.len() as usize));
    assert(index_seqs(add_bulkhead_controllers()(h, t)) =~~= pushed);
}

/// Reads a `u16` count and that many bulkhead controller items, appending each bulkhead controller with
/// the index of its transform, which is appended to the shared table.
pub fn parse_bulkhead_controllers(i: &[u8], pos: usize, header: &mut Header) -> (r: Result<usize, Fault>)
    requires
        table_indices_wf(old(header)@),
    ensures
        r is Ok ==> table_indices_wf(final(header)@),
        r matches Ok(q) ==> pos <= q <= i@.len(),
        outcome(r, final(header)@) == spec_counted(
            bulkhead_controllers_item(),
            add_bulkhead_controllers(),
            i@,
            pos,
            old(header)@,
        ),
{
    let (start, n) = match le_u16(i, pos) {
        Ok(x) => x,
        Err(e) => return Err(e),
    };
    let mut q = start;
    let mut k: u16 = 0;
    while k < n
        invariant
            table_indices_wf(header@),
            k <= n,
            pos <= start <= q <= i@.len(),
            spec_u16(i@, pos) == Ok::<(usize, u16), Fault>((start, n)),
            spec_fold(
                bulkhead_controllers_item(),
                add_bulkhead_controllers(),
                i@,
                start,
                k as nat,
                old(header)@,
            ) == Ok::<
                (usize, HeaderModel),
                Fault,
            >((q, header@)),
        decreases n - k,
    {
        let res = parse_bulkhead_item(i, q);
        assert(bulkhead_controllers_item()(i@, q) == spec_bulkhead_item(i@, q));
        match res {
            Ok((next, (c, item))) => {
                let idx = header.commons.len();
                proof {
                    lemma_add_bulkhead_controllers_indices(header@, (c, item));
                }
                header.bulkhead_controllers.push(BulkheadController { idx, ..item });
                header.commons.push(c);
                q = next;
                k = k + 1;
            },
            Err(e) => {
                proof {
                    lemma_fold_err(
                        bulkhead_controllers_item(),
                        add_bulkhead_controllers(),
                        i@,
                        start,
                        (k + 1) as nat,
                        n as nat,
                        old(header)@,
                    );
                }
                return Err(e);
            },
        }
    }
    Ok(q)
}

pub open spec fn spitters_item() -> spec_fn(Seq<u8>, usize) -> Result<
    (usize, (Common, Spitter)),
    Fault,
> {
    |b: Seq<u8>, p: usize| spec_spitter_item(b, p)
}

/// Appends a spitter at the next table index, and its transform to the table.
pub open spec fn add_spitters() -> spec_fn(HeaderModel, (Common, Spitter)) -> HeaderModel {
    |h: HeaderModel, t: (Common, Spitter)|
        HeaderModel {
            commons: h.commons.push(t.0),
            spitters: h.spitters.push(Spitter { idx: h.commons.len() as usize, ..t.1 }),
            ..h
        }
}

/// Adding an item keeps the table indices well formed.
pub proof fn lemma_add_spitters_indices(h: HeaderModel, t: (Common, Spitter))
    requires
        table_indices_wf(h),
        h.commons.len() <= usize::MAX,
    ensures
        table_indices_wf(add_spitters()(h, t)),
{
    let s = index_seqs(h);
    lemma_push_next_index(s, h.commons.len() as int, 7);
    assert(index_seqs(add_spitters()(h, t)) =~~= s.update(7, s[7].push(h.commons.len() as usize)));
}

/// Reads a `u16` count and that many spitter items, appending each spitter with
/// the index of its transform, which is appended to the shared table.
pub fn parse_spitters(i: &[u8], pos: usize, header: &mut Header) -> (r: Result<usize, Fault>)
    requires
        table_indices_wf(old(header)@),
    ensures
        r is Ok ==> table_indices_wf(final(header)@),
        r matches Ok(q) ==> pos <= q <= i@.len(),
        outcome(r, final(header)@) == spec_counted(
            spitters_item(),
            add_spitters(),
            i@,
            pos,
            old(header)@,
        ),
{
    let (start, n) = match le_u16(i, pos) {
        Ok(x) => x,
        Err(e) => return Err(e),
    };
    let mut q = start;
    let mut k: u16 = 0;
    while k < n
        invariant
            table_indices_wf(header@),
            k <= n,
            pos <= start <= q <= i@.len(),
            spec_u16(i@, pos) == Ok::<(usize, u16), Fault>((start, n)),
            spec_fold(spitters_item(), add_spitters(), i@, start, k as nat, old(header)@) == Ok::<
                (usize, HeaderModel),
                Fault,
            >((q, header@)),
        decreases n - k,
    {
        let res = parse_spitter_item(i, q);
        assert(spitters_item()(i@, q) == spec_spitter_item(i@, q));
        match res {
            Ok((next, (c, item))) => {
                let idx = header.commons.len();
                proof {
                    lemma_add_spitters_indices(header@, (c, item));
                }
                header.spitters.push(Spitter { idx, ..item });
                header.commons.push(c);
                q = next;
                k = k + 1;
            },
            Err(e) => {
                proof {
                    lemma_fold_err(
                        spitters_item(),
                        add_spitters(),
                        i@,
                        start,
                        (k + 1) as nat,
                        n as nat,
                        old(header)@,
                    );
                }
                return Err(e);
            },
        }
    }
    Ok(q)
}

pub open spec fn container_item(schema: ContainerSchema) -> spec_fn(Seq<u8>, usize) -> Result<
    (usize, (Common, ResourceContainerModel)),
    Fault,
> {
    |b: Seq<u8>, p: usize| spec_container_item(b, p, schema)
}

/// Appends a resource container at the next table index, and its transform
/// to the table.
pub open spec fn add_resource_containers() -> spec_fn(
    HeaderModel,
    (Common, ResourceContainerModel),
) -> HeaderModel {
    |h: HeaderModel, t: (Common, ResourceContainerModel)|
        HeaderModel {
            commons: h.commons.push(t.0),
            resource_containers: h.resource_containers.push(
                ResourceContainerModel { idx: h.commons.len() as usize, ..t.1 },
            ),
            ..h
        }
}

/// Adding an item keeps the table indices well formed.
pub proof fn lemma_add_resource_containers_indices(h: HeaderModel, t: (Common, ResourceContainerModel))
    requires
        table_indices_wf(h),
        h.commons.len() <= usize::MAX,
    ensures
        table_indices_wf(add_resource_containers()(h, t)),
{
    let s = index_seqs(h);
    lemma_push_next_index(s, h.commons.len() as int, 4);
    let pushed = s.update(4, s[4].push(h.commons.len() as usize));
    assert(index_seqs(add_resource_containers()(h, t)) =~~= pushed);
}

/// Reads a `u16` count and that many resource containers of the given schema,
/// appending each with the index of its transform, which is appended to the
/// shared table.
pub fn parse_resource_containers(
    i: &[u8],
    pos: usize,
    schema: ContainerSchema,
    header: &mut Header,
) -> (r: Result<usize, Fault>)
    requires
        table_indices_wf(old(header)@),
    ensures
        r is Ok ==> table_indices_wf(final(header)@),
        r matches Ok(q) ==> pos <= q <= i@.len(),
        outcome(r, final(header)@) == spec_counted(
            container_item(schema),
            add_resource_containers(),
            i@,
            pos,
            old(header)@,
        ),
{
    let (start, n) = match le_u16(i, pos) {
        Ok(x) => x,
        Err(e) => return Err(e),
    };
    let mut q = start;
    let mut k: u16 = 0;
    while k < n
        invariant
            table_indices_wf(header@),
            k <= n,
            pos <= start <= q <= i@.len(),
            spec_u16(i@, pos) == Ok::<(usize, u16), Fault>((start, n)),
            spec_fold(
                container_item(schema),
                add_resource_containers(),
                i@,
                start,
                k as nat,
                old(header)@,
            ) == Ok::<(usize, HeaderModel), Fault>((q, header@)),
        decreases n - k,
    {
        let res = parse_container_item(i, q, schema);
        assert(container_item(schema)(i@, q) == spec_container_item(i@, q, schema));
        match res {
            Ok((next, (c, item))) => {
                let ghost before = header@;
                let idx = header.commons.len();
                proof {
                    lemma_add_resource_containers_indices(header@, (c, item@));
                }
                header.resource_containers.push(ResourceContainer { idx, ..item });
                header.commons.push(c);
                proof {
                    assert(header@.resource_containers =~= before.resource_containers.push(
                        ResourceContainerModel { idx: before.commons.len() as usize, ..item@ },
                    ));
                }
                q = next;
                k = k + 1;
            },
            Err(e) => {
                proof {
                    lemma_fold_err(
                        container_item(schema),
                        add_resource_containers(),
                        i@,
                        start,
                        (k + 1) as nat,
                        n as nat,
                        old(header)@,
                    );
                }
                return Err(e);
            },
        }
    }
    Ok(q)
}

/// The record kind for a registry entry's type name and schema version.
/// Names whose layout does not change between schemas are accepted at any
/// version; a known name at an unknown version is `UnsupportedVersion`, an
/// unknown name `UnsupportedType`.
pub open spec fn spec_record_kind(name: Seq<char>, version: Seq<char>) -> Result<RecordKind, ErrorKind> {
    if name == "ReplayRecorder.Header"@ {
        Ok(RecordKind::ReplayHeader)
    } else if name == "ReplayRecorder.EndOfHeader"@ {
        Ok(RecordKind::EndOfHeader)
    } else if name == "Vanilla.Metadata"@ {
        if version == "0.0.1"@ {
            Ok(RecordKind::MetadataV1)
        } else if version == "0.0.2"@ {
            Ok(RecordKind::MetadataV2)
        } else {
            Err(ErrorKind::UnsupportedVersion)
        }
    } else if name == "Vanilla.Map.Geometry"@ {
        Ok(RecordKind::Geometry)
    } else if name == "Vanilla.Map.Geometry.EOH"@ {
        Ok(RecordKind::GeometryEnd)
    } else if name == "Vanilla.Map.Doors"@ {
        Ok(RecordKind::Doors)
    } else if name == "Vanilla.Map.Ladders"@ {
        Ok(RecordKind::Ladders)
    } else if name == "Vanilla.Map.Terminals"@ {
        Ok(RecordKind::Terminals)
    } else if name == "Vanilla.Map.Generators"@ {
        Ok(RecordKind::Generators)
    } else if name == "Vanilla.Map.DisinfectStations"@ {
        Ok(RecordKind::DisinfectStations)
    } else if name == "Vanilla.Map.BulkheadControllers"@ {
        Ok(RecordKind::BulkheadControllers)
    } else if name == "Vanilla.Map.ResourceContainers"@ {
        if version == "0.0.1"@ {
            Ok(RecordKind::ResourceContainersV1)
        } else if version == "0.0.2"@ {
            Ok(RecordKind::ResourceContainersV2)
        } else if version == "0.0.3"@ {
            Ok(RecordKind::ResourceContainersV3)
        } else {
            Err(ErrorKind::UnsupportedVersion)
        }
    } else if name == "Vanilla.Enemy.Spitters"@ {
        Ok(RecordKind::Spitters)
    } else {
        Err(ErrorKind::UnsupportedType)
    }
}

/// Resolves a type name and schema version to the record kind that decodes it.
pub fn record_kind(name: &str, version: &str) -> (r: Result<RecordKind, ErrorKind>)
    ensures
        r == spec_record_kind(name@, version@),
{
    if str_eq(name, "ReplayRecorder.Header") {
        Ok(RecordKind::ReplayHeader)
    } else if str_eq(name, "ReplayRecorder.EndOfHeader") {
        Ok(RecordKind::EndOfHeader)
    } else if str_eq(name, "Vanilla.Metadata") {
        if str_eq(version, "0.0.1") {
            Ok(RecordKind::MetadataV1)
        } else if str_eq(version, "0.0.2") {
            Ok(RecordKind::MetadataV2)
        } else {
            Err(ErrorKind::UnsupportedVersion)
        }
    } else if str_eq(name, "Vanilla.Map.Geometry") {
        Ok(RecordKind::Geometry)
    } else if str_eq(name, "Vanilla.Map.Geometry.EOH") {
        Ok(RecordKind::GeometryEnd)
    } else if str_eq(name, "Vanilla.Map.Doors") {
        Ok(RecordKind::Doors)
    } else if str_eq(name, "Vanilla.Map.Ladders") {
        Ok(RecordKind::Ladders)
    } else if str_eq(name, "Vanilla.Map.Terminals") {
        Ok(RecordKind::Terminals)
    } else if str_eq(name, "Vanilla.Map.Generators") {
        Ok(RecordKind::Generators)
    } else if str_eq(name, "Vanilla.Map.DisinfectStations") {
        Ok(RecordKind::DisinfectStations)
    } else if str_eq(name, "Vanilla.Map.BulkheadControllers") {
        Ok(RecordKind::BulkheadControllers)
    } else if str_eq(name, "Vanilla.Map.ResourceContainers") {
        if str_eq(version, "0.0.1") {
            Ok(RecordKind::ResourceContainersV1)
        } else if str_eq(version, "0.0.2") {
            Ok(RecordKind::ResourceContainersV2)
        } else if str_eq(version, "0.0.3") {
            Ok(RecordKind::ResourceContainersV3)
        } else {
            Err(ErrorKind::UnsupportedVersion)
        }
    } else if str_eq(name, "Vanilla.Enemy.Spitters") {
        Ok(RecordKind::Spitters)
    } else {
        Err(ErrorKind::UnsupportedType)
    }
}

/// The payload of one record of the given kind, read from `pos` into the header.
#[verifier::opaque]
pub open spec fn spec_record(kind: RecordKind, b: Seq<u8>, pos: usize, h: HeaderModel) -> Result<
    (usize, HeaderModel),
    Fault,
> {
    match kind {
        RecordKind::ReplayHeader => match spec_string(b, pos) {
            Err(e) => Err(e),
            Ok((p, version)) => match spec_bool(b, p) {
                Err(e) => Err(e),
                Ok((q, master)) => Ok(
                    (q, HeaderModel { replay_header: Some(ReplayHeaderModel { version, master }), ..h }),
                ),
            },
        },
        RecordKind::EndOfHeader => Ok((pos, h)),
        RecordKind::MetadataV1 => match spec_string(b, pos) {
            Err(e) => Err(e),
            Ok((p, version)) => Ok(
                (
                    p,
                    HeaderModel {
                        metadata: Some(MetadataModel { version, compatability_old_dc: None }),
                        ..h
                    },
                ),
            ),
        },
        RecordKind::MetadataV2 => match spec_string(b, pos) {
            Err(e) => Err(e),
            Ok((p, version)) => match spec_bool(b, p) {
                Err(e) => Err(e),
                Ok((q, compat)) => Ok(
                    (
                        q,
                        HeaderModel {
                            metadata: Some(
                                MetadataModel { version, compatability_old_dc: Some(compat) },
                            ),
                            ..h
                        },
                    ),
                ),
            },
        },
        RecordKind::Geometry => match spec_geometry(b, pos) {
            Err(e) => Err(e),
            Ok((p, g)) => Ok((p, HeaderModel { level_geometry: h.level_geometry.push(g), ..h })),
        },
        RecordKind::GeometryEnd => Ok((pos, h)),
        RecordKind::Doors => spec_counted(doors_item(), add_doors(), b, pos, h),
        RecordKind::Ladders => spec_counted(ladders_item(), add_ladders(), b, pos, h),
        RecordKind::Terminals => spec_counted(terminals_item(), add_terminals(), b, pos, h),
        RecordKind::Generators => spec_counted(generators_item(), add_generators(), b, pos, h),
        RecordKind::DisinfectStations => spec_counted(
            disinfect_stations_item(),
            add_disinfect_stations(),
            b,
            pos,
            h,
        ),
        RecordKind::BulkheadControllers => spec_counted(
            bulkhead_controllers_item(),
            add_bulkhead_controllers(),
            b,
            pos,
            h,
        ),
        RecordKind::ResourceContainersV1 => spec_counted(
            container_item(ContainerSchema::V1),
            add_resource_containers(),
            b,
            pos,
            h,
        ),
        RecordKind::ResourceContainersV2 => spec_counted(
            container_item(ContainerSchema::V2),
            add_resource_containers(),
            b,
            pos,
            h,
        ),
        RecordKind::ResourceContainersV3 => spec_counted(
            container_item(ContainerSchema::V3),
            add_resource_containers(),
            b,
            pos,
            h,
        ),
        RecordKind::Spitters => spec_counted(spitters_item(), add_spitters(), b, pos, h),
    }
}

/// Reads the payload of one record of the given kind into the header.
pub fn parse_record(kind: RecordKind, i: &[u8], pos: usize, header: &mut Header) -> (r: Result<
    usize,
    Fault,
>)
    requires
        pos <= i@.len(),
        table_indices_wf(old(header)@),
    ensures
        r matches Ok(q) ==> pos <= q <= i@.len(),
        r is Ok ==> table_indices_wf(final(header)@),
        outcome(r, final(header)@) == spec_record(kind, i@, pos, old(header)@),
{
    reveal(spec_record);
    match kind {
        RecordKind::ReplayHeader => {
            let (p, version) = match parse_replay_string(i, pos) {
                Ok(x) => x,
                Err(e) => return Err(e),
            };
            let (q, master) = match parse_replay_bool(i, p) {
                Ok(x) => x,
                Err(e) => return Err(e),
            };
            header.replay_header = Some(ReplayHeader { version, master });
            Ok(q)
        },
        RecordKind::EndOfHeader => Ok(pos),
        RecordKind::MetadataV1 => {
            let (p, version) = match parse_replay_string(i, pos) {
                Ok(x) => x,
                Err(e) => return Err(e),
            };
            header.metadata = Some(Metadata { version, compatability_old_dc: None });
            Ok(p)
        },
        RecordKind::MetadataV2 => {
            let (p, version) = match parse_replay_string(i, pos) {
                Ok(x) => x,
                Err(e) => return Err(e),
            };
            let (q, compat) = match parse_replay_bool(i, p) {
                Ok(x) => x,
                Err(e) => return Err(e),
            };
            header.metadata = Some(Metadata { version, compatability_old_dc: Some(compat) });
            Ok(q)
        },
        RecordKind::Geometry => {
            let (p, g) = match parse_geometry(i, pos) {
                Ok(x) => x,
                Err(e) => return Err(e),
            };
            let ghost before = header@;
            let ghost gv = g@;
            header.level_geometry.push(g);
            assert(header@.level_geometry =~= before.level_geometry.push(gv));
            Ok(p)
        },
        RecordKind::GeometryEnd => Ok(pos),
        RecordKind::Doors => parse_doors(i, pos, header),
        RecordKind::Ladders => parse_ladders(i, pos, header),
        RecordKind::Terminals => parse_terminals(i, pos, header),
        RecordKind::Generators => parse_generators(i, pos, header),
        RecordKind::DisinfectStations => parse_disinfect_stations(i, pos, header),
        RecordKind::BulkheadControllers => parse_bulkhead_controllers(i, pos, header),
        RecordKind::ResourceContainersV1 => parse_resource_containers(
            i,
            pos,
            ContainerSchema::V1,
            header,
        ),
        RecordKind::ResourceContainersV2 => parse_resource_containers(
            i,
            pos,
            ContainerSchema::V2,
            header,
        ),
        RecordKind::ResourceContainersV3 => parse_resource_containers(
            i,
            pos,
            ContainerSchema::V3,
            header,
        ),
        RecordKind::Spitters => parse_spitters(i, pos, header),
    }
}

/// The records from `pos` on: each a `u16` type id, resolved through the
/// registry entries (the first with that id), then the payload of its kind;
/// the end-of-header record ends the read right after its id. An id that no
/// entry has is `UnknownTypeId`, and an entry whose name or version no decoder
/// handles is `UnsupportedType` or `UnsupportedVersion`, each at the record's
/// offset. Every record reads at least its id, so positions only move forward;
/// the test on them keeps the recursion well-founded.
pub open spec fn spec_records(
    types: Seq<DataTypeModel>,
    b: Seq<u8>,
    pos: usize,
    h: HeaderModel,
) -> Result<(usize, HeaderModel), DecodeError>
    decreases b.len() - pos,
{
    match spec_u16(b, pos) {
        Err(e) => Err(fault_in(e, Section::RecordId)),
        Ok((p, id)) => match spec_lookup(types, id) {
            None => Err(
                DecodeError {
                    kind: ErrorKind::UnknownTypeId,
                    offset: pos,
                    section: Section::RecordId,
                    identifier: None,
                },
            ),
            Some(d) => match spec_record_kind(d.typename, d.version) {
                Err(k) => Err(
                    DecodeError { kind: k, offset: pos, section: Section::RecordId, identifier: None },
                ),
                Ok(kind) => if kind == RecordKind::EndOfHeader {
                    Ok((p, h))
                } else {
                    match spec_record(kind, b, p, h) {
                        Err(e) => Err(fault_in(e, Section::Record(kind))),
                        Ok((q, h2)) => if pos < q <= b.len() {
                            spec_records(types, b, q, h2)
                        } else {
                            Err(fault_in(truncated(q), Section::Record(kind)))
                        },
                    }
                },
            },
        },
    }
}

/// Reads records into the header until the end-of-header record, and returns
/// the position right after it.
pub fn parse_records(typemap: &Typemap, i: &[u8], pos: usize, header: &mut Header) -> (r: Result<
    usize,
    DecodeError,
>)
    requires
        table_indices_wf(old(header)@),
    ensures
        r matches Ok(q) ==> q <= i@.len(),
        r is Ok ==> table_indices_wf(final(header)@),
        outcome(r, final(header)@) == spec_records(typemap@.types, i@, pos, old(header)@),
{
    let mut p = pos;
    loop
        invariant
            table_indices_wf(header@),
            spec_records(typemap@.types, i@, pos, old(header)@) == spec_records(
                typemap@.types,
                i@,
                p,
                header@,
            ),
        decreases i@.len() - p,
    {
        let (q, id) = match le_u16(i, p) {
            Ok(x) => x,
            Err(e) => return Err(e.within(Section::RecordId)),
        };
        let d = match typemap.find(id) {
            Some(d) => d,
            None => {
                return Err(
                    DecodeError {
                        kind: ErrorKind::UnknownTypeId,
                        offset: p,
                        section: Section::RecordId,
                        identifier: None,
                    },
                )
            },
        };
        let kind = match record_kind(d.typename.as_str(), d.version.as_str()) {
            Ok(k) => k,
            Err(k) => {
                return Err(
                    DecodeError { kind: k, offset: p, section: Section::RecordId, identifier: None },
                )
            },
        };
        if kind == RecordKind::EndOfHeader {
            return Ok(q);
        }
        let ghost before = header@;
        match parse_record(kind, i, q, header) {
            Ok(next) => {
                assert(spec_record(kind, i@, q, before) == Ok::<(usize, HeaderModel), Fault>(
                    (next, header@),
                ));
                assert(p < next <= i@.len());
                assert(spec_records(typemap@.types, i@, p, before) == spec_records(
                    typemap@.types,
                    i@,
                    next,
                    header@,
                ));
                p = next;
            },
            Err(e) => return Err(e.within(Section::Record(kind))),
        }
    }
}

/// What decoding the header segment gives: the position right after the
/// end-of-header record, the registry and the header.
pub open spec fn spec_typemap_and_header(b: Seq<u8>) -> Result<
    (usize, TypemapModel, HeaderModel),
    DecodeError,
> {
    match spec_typemap(b, 0) {
        Err(e) => Err(fault_in(e, Section::Typemap)),
        Ok((p, tm)) => match spec_records(tm.types, b, p, empty_header()) {
            Err(e) => Err(e),
            Ok((q, h)) => Ok((q, tm, h)),
        },
    }
}

/// Whether a decode's result is the one the spec gives: the same error, or the
/// registry and header it describes, with the bytes left from the position it
/// names.
pub open spec fn decodes_to(
    b: Seq<u8>,
    r: Result<(&[u8], (Typemap, Header)), DecodeError>,
    s: Result<(usize, TypemapModel, HeaderModel), DecodeError>,
) -> bool {
    match r {
        Ok((rest, (t, h))) => s matches Ok((q, tm, hm)) && q <= b.len() && rest@ == b.subrange(
            q as int,
            b.len() as int,
        ) && t@ == tm && h@ == hm,
        Err(e) => s == Err::<(usize, TypemapModel, HeaderModel), DecodeError>(e),
    }
}

/// Decodes a header segment: the type registry, then the header records up to
/// and including the end-of-header record. Returns the bytes after it.
pub fn parse_typemap_and_header(i: &[u8]) -> (r: Result<(&[u8], (Typemap, Header)), DecodeError>)
    ensures
        r matches Ok((_, (_, h))) ==> table_indices_wf(h@),
        decodes_to(i@, r, spec_typemap_and_header(i@)),
{
    let (p, typemap) = match parse_typemap(i, 0) {
        Ok(x) => x,
        Err(e) => return Err(e.within(Section::Typemap)),
    };
    let mut header = Header::new();
    match parse_records(&typemap, i, p, &mut header) {
        Ok(q) => Ok((&i[q..i.len()], (typemap, header))),
        Err(e) => Err(e),
    }
}

/// A replay file: a `u32` length, the header segment of that length, then the
/// event stream. Gives the position where the event stream starts, the
/// registry and the header; offsets of failures inside the segment count from
/// its start.
pub open spec fn spec_replay(b: Seq<u8>) -> Result<(usize, TypemapModel, HeaderModel), DecodeError> {
    match spec_u32(b, 0) {
        Err(e) => Err(fault_in(e, Section::Prefix)),
        Ok((p, len)) => if p + len <= b.len() {
            match spec_typemap_and_header(b.subrange(p as int, p + len)) {
                Err(e) => Err(e),
                Ok((_, tm, h)) => Ok(((p + len) as usize, tm, h)),
            }
        } else {
            Err(fault_in(truncated(p), Section::Prefix))
        },
    }
}

/// Decodes the header segment of a replay file, and returns the bytes after
/// it, which hold the event stream.
pub fn parse_replay_file_commons(i: &[u8]) -> (r: Result<(&[u8], (Typemap, Header)), DecodeError>)
    ensures
        r matches Ok((_, (_, h))) ==> table_indices_wf(h@),
        decodes_to(i@, r, spec_replay(i@)),
{
    let (p, len) = match le_u32(i, 0) {
        Ok(x) => x,
        Err(e) => return Err(e.within(Section::Prefix)),
    };
    if len as usize > i.len() - p {
        return Err(Fault::truncated_at(p).within(Section::Prefix));
    }
    let end = p + len as usize;
    let segment = &i[p..end];
    match parse_typemap_and_header(segment) {
        Ok((_, (typemap, header))) => Ok((&i[end..i.len()], (typemap, header))),
        Err(e) => Err(e),
    }
}

/// A decoded replay: its type registry and its header.
#[derive(Debug)]
pub struct Replay {
    pub typemap: Typemap,
    pub header: Header,
}

/// Decodes a replay file's registry and header, and returns the bytes of the
/// event stream after them.
pub fn parse_replay(i: &[u8]) -> (r: Result<(&[u8], Replay), DecodeError>)
    ensures
        r matches Ok((_, replay)) ==> table_indices_wf(replay.header@),
        match r {
            Ok((rest, replay)) => spec_replay(i@) matches Ok((q, tm, hm)) && q <= i@.len()
                && rest@ == i@.subrange(q as int, i@.len() as int) && replay.typemap@ == tm
                && replay.header@ == hm,
            Err(e) => spec_replay(i@) == Err::<(usize, TypemapModel, HeaderModel), DecodeError>(e),
        },
{
    match parse_replay_file_commons(i) {
        Ok((rest, (typemap, header))) => Ok((rest, Replay { typemap, header })),
        Err(e) => Err(e),
    }
}

/// The fewest bytes an item of an entity record can take.
pub open spec fn min_item_size(kind: RecordKind) -> nat {
    match kind {
        RecordKind::Doors => 29,
        RecordKind::Ladders => 22,
        RecordKind::Terminals => 24,
        RecordKind::Generators => 26,
        RecordKind::DisinfectStations => 26,
        RecordKind::BulkheadControllers => 29,
        RecordKind::ResourceContainersV1 => 27,
        RecordKind::ResourceContainersV2 => 29,
        RecordKind::ResourceContainersV3 => 30,
        RecordKind::Spitters => 26,
        _ => 0,
    }
}

proof fn lemma_common_size()
    ensures
        forall|b: Seq<u8>, p: usize|
            b.len() <= usize::MAX && #[trigger] spec_id_common(b, p) is Ok ==> p + 24
                <= spec_id_common(b, p)->Ok_0.0 <= b.len(),
        forall|b: Seq<u8>, p: usize|
            b.len() <= usize::MAX && #[trigger] spec_common(b, p) is Ok ==> p + 20 <= spec_common(
                b,
                p,
            )->Ok_0.0 <= b.len(),
        forall|b: Seq<u8>, p: usize|
            #[trigger] spec_id_common(b, p) is Err ==> spec_id_common(b, p)->Err_0.kind
                == ErrorKind::Truncated || content_fault(spec_id_common(b, p)->Err_0.kind),
        forall|b: Seq<u8>, p: usize|
            #[trigger] spec_common(b, p) is Err ==> spec_common(b, p)->Err_0.kind
                == ErrorKind::Truncated || content_fault(spec_common(b, p)->Err_0.kind),
{
    reveal(spec_common);
    reveal(spec_half_quat);
    reveal(spec_id_common);
}

proof fn lemma_size_doors()
    ensures
        takes_at_least(doors_item(), 29),
        fails_on_length_or_content(doors_item()),
{
    lemma_common_size();
    reveal(spec_door_item);
}

proof fn lemma_size_ladders()
    ensures
        takes_at_least(ladders_item(), 22),
        fails_on_length_or_content(ladders_item()),
{
    lemma_common_size();
    reveal(spec_ladder_item);
}

proof fn lemma_size_terminals()
    ensures
        takes_at_least(terminals_item(), 24),
        fails_on_length_or_content(terminals_item()),
{
    lemma_common_size();
    reveal(spec_terminal_item);
}

proof fn lemma_size_generators()
    ensures
        takes_at_least(generators_item(), 26),
        fails_on_length_or_content(generators_item()),
{
    lemma_common_size();
    reveal(spec_generator_item);
}

proof fn lemma_size_disinfect_stations()
    ensures
        takes_at_least(disinfect_stations_item(), 26),
        fails_on_length_or_content(disinfect_stations_item()),
{
    lemma_common_size();
    reveal(spec_disinfect_item);
}

proof fn lemma_size_bulkhead_controllers()
    ensures
        takes_at_least(bulkhead_controllers_item(), 29),
        fails_on_length_or_content(bulkhead_controllers_item()),
{
    lemma_common_size();
    reveal(spec_bulkhead_item);
    reveal(spec_bulkhead_dc);
}

proof fn lemma_size_container_v1()
    ensures
        takes_at_least(container_item(ContainerSchema::V1), 27),
        fails_on_length_or_content(container_item(ContainerSchema::V1)),
{
    lemma_common_size();
    reveal(spec_container_item);
    reveal(spec_identifier);
}

proof fn lemma_size_container_v2()
    ensures
        takes_at_least(container_item(ContainerSchema::V2), 29),
        fails_on_length_or_content(container_item(ContainerSchema::V2)),
{
    lemma_common_size();
    reveal(spec_container_item);
    reveal(spec_identifier);
}

proof fn lemma_size_container_v3()
    ensures
        takes_at_least(container_item(ContainerSchema::V3), 30),
        fails_on_length_or_content(container_item(ContainerSchema::V3)),
{
    lemma_common_size();
    reveal(spec_container_item);
    reveal(spec_identifier);
}

proof fn lemma_size_spitters()
    ensures
        takes_at_least(spitters_item(), 26),
        fails_on_length_or_content(spitters_item()),
{
    lemma_common_size();
    reveal(spec_spitter_item);
}

/// An entity record whose `u16` count announces more items than the bytes
/// left after it can hold, at the fewest bytes an item takes, is an error:
/// the decoder never reads past the end of the buffer. The error is a
/// truncation unless the content of an item read before it was invalid (a
/// dropped-slot byte above 3, or a name that is not UTF-8).
pub proof fn lemma_entity_record_truncated(kind: RecordKind, b: Seq<u8>, pos: usize, h: HeaderModel)
    requires
        min_item_size(kind) > 0,
        b.len() <= usize::MAX,
        pos + 2 <= b.len(),
        pos + 2 + spec_u16(b, pos)->Ok_0.1 * min_item_size(kind) > b.len(),
    ensures
        spec_record(kind, b, pos, h) matches Err(e) && (e.kind == ErrorKind::Truncated
            || content_fault(e.kind)),
{
    reveal(spec_record);
    lemma_size_doors();
    lemma_size_ladders();
    lemma_size_terminals();
    lemma_size_generators();
    lemma_size_disinfect_stations();
    lemma_size_bulkhead_controllers();
    lemma_size_container_v1();
    lemma_size_container_v2();
    lemma_size_container_v3();
    lemma_size_spitters();
    let p = (pos + 2) as usize;
    let n = spec_u16(b, pos)->Ok_0.1 as nat;
    match kind {
        RecordKind::Doors => lemma_fold_at_least(doors_item(), add_doors(), 29, b, p, n, h),
        RecordKind::Ladders => lemma_fold_at_least(ladders_item(), add_ladders(), 22, b, p, n, h),
        RecordKind::Terminals => lemma_fold_at_least(
            terminals_item(),
            add_terminals(),
            24,
            b,
            p,
            n,
            h,
        ),
        RecordKind::Generators => lemma_fold_at_least(
            generators_item(),
            add_generators(),
            26,
            b,
            p,
            n,
            h,
        ),
        RecordKind::DisinfectStations => lemma_fold_at_least(
            disinfect_stations_item(),
            add_disinfect_stations(),
            26,
            b,
            p,
            n,
            h,
        ),
        RecordKind::BulkheadControllers => lemma_fold_at_least(
            bulkhead_controllers_item(),
            add_bulkhead_controllers(),
            29,
            b,
            p,
            n,
            h,
        ),
        RecordKind::ResourceContainersV1 => lemma_fold_at_least(
            container_item(ContainerSchema::V1),
            add_resource_containers(),
            27,
            b,
            p,
            n,
            h,
        ),
        RecordKind::ResourceContainersV2 => lemma_fold_at_least(
            container_item(ContainerSchema::V2),
            add_resource_containers(),
            29,
            b,
            p,
            n,
            h,
        ),
        RecordKind::ResourceContainersV3 => lemma_fold_at_least(
            container_item(ContainerSchema::V3),
            add_resource_containers(),
            30,
            b,
            p,
            n,
            h,
        ),
        RecordKind::Spitters => lemma_fold_at_least(spitters_item(), add_spitters(), 26, b, p, n, h),
        _ => {},
    }
    match kind {
        RecordKind::Doors => lemma_fold_fails_on_length_or_content(doors_item(), add_doors(), b, p, n, h),
        RecordKind::Ladders => lemma_fold_fails_on_length_or_content(
            ladders_item(),
            add_ladders(),
            b,
            p,
            n,
            h,
        ),
        RecordKind::Terminals => lemma_fold_fails_on_length_or_content(
            terminals_item(),
            add_terminals(),
            b,
            p,
            n,
            h,
        ),
        RecordKind::Generators => lemma_fold_fails_on_length_or_content(
            generators_item(),
            add_generators(),
            b,
            p,
            n,
            h,
        ),
        RecordKind::DisinfectStations => lemma_fold_fails_on_length_or_content(
            disinfect_stations_item(),
            add_disinfect_stations(),
            b,
            p,
            n,
            h,
        ),
        RecordKind::BulkheadControllers => lemma_fold_fails_on_length_or_content(
            bulkhead_controllers_item(),
            add_bulkhead_controllers(),
            b,
            p,
            n,
            h,
        ),
        RecordKind::ResourceContainersV1 => lemma_fold_fails_on_length_or_content(
            container_item(ContainerSchema::V1),
            add_resource_containers(),
            b,
            p,
            n,
            h,
        ),
        RecordKind::ResourceContainersV2 => lemma_fold_fails_on_length_or_content(
            container_item(ContainerSchema::V2),
            add_resource_containers(),
            b,
            p,
            n,
            h,
        ),
        RecordKind::ResourceContainersV3 => lemma_fold_fails_on_length_or_content(
            container_item(ContainerSchema::V3),
            add_resource_containers(),
            b,
            p,
            n,
            h,
        ),
        RecordKind::Spitters => lemma_fold_fails_on_length_or_content(
            spitters_item(),
            add_spitters(),
            b,
            p,
            n,
            h,
        ),
        _ => {},
    }
}

/// A mesh whose vertex and index counts announce more bytes than remain
/// after its seven leading bytes fails as truncated.
pub proof fn lemma_geometry_truncated(b: Seq<u8>, pos: usize)
    requires
        b.len() <= usize::MAX,
        pos + 7 <= b.len(),
        pos + 7 + 12 * spec_u16(b, (pos + 1) as usize)->Ok_0.1 + 2 * spec_u32(
            b,
            (pos + 3) as usize,
        )->Ok_0.1 > b.len(),
    ensures
        spec_geometry(b, pos) matches Err(e) && e.kind == ErrorKind::Truncated,
{
    reveal(spec_geometry);
    assert(exact_size(vec3_item(), 12));
    assert(exact_size(u16_item(), 2));
    let r = (pos + 7) as usize;
    let nv = spec_u16(b, (pos + 1) as usize)->Ok_0.1 as nat;
    let ni = spec_u32(b, (pos + 3) as usize)->Ok_0.1 as nat;
    lemma_fold_exact(vec3_item(), push_step::<Vec3Bits>(), 12, b, r, nv, seq![]);
    if let Ok((s, _)) = spec_fold(vec3_item(), push_step::<Vec3Bits>(), b, r, nv, seq![]) {
        lemma_fold_exact(u16_item(), push_step::<u16>(), 2, b, s, ni, seq![]);
    }
}

/// Decoding is a function of the bytes alone: equal buffers decode to equal
/// registries and headers, or fail with equal errors, and leave the event
/// stream at the same position.
pub proof fn lemma_decode_deterministic(b1: Seq<u8>, b2: Seq<u8>)
    requires
        b1 == b2,
    ensures
        spec_replay(b1) == spec_replay(b2),
        spec_typemap_and_header(b1) == spec_typemap_and_header(b2),
{
}

} // verus!
