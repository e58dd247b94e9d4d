//! The type registry (typemap) that opens the header segment, and the
//! placeholder types of the event stream that follows the header.
use vstd::prelude::*;
use vstd::string::StringSliceAdditionalSpecFns;
use vstd::utf8::encode_utf8_decode_utf8;

use crate::error::Fault;
use crate::primitives::{
    le_u16, parse_replay_string, push_step, spec_fold, spec_string, spec_u16, lemma_fold_err,
};

verus! {

/// One registry entry: an on-wire id and the type name and schema version it stands for.
#[derive(Clone, Debug)]
pub struct DataType {
    pub id: u16,
    pub typename: String,
    pub version: String,
}

pub ghost struct DataTypeModel {
    pub id: u16,
    pub typename: Seq<char>,
    pub version: Seq<char>,
}

impl View for DataType {
    type V = DataTypeModel;

    open spec fn view(&self) -> DataTypeModel {
        DataTypeModel { id: self.id, typename: self.typename@, version: self.version@ }
    }
}

/// The type registry: its format version, its declared entry count and its
/// entries in file order.
#[derive(Clone, Debug)]
pub struct Typemap {
    pub version: String,
    pub entries: u16,
    pub types: Vec<DataType>,
}

pub ghost struct TypemapModel {
    pub version: Seq<char>,
    pub entries: u16,
    pub types: Seq<DataTypeModel>,
}

impl View for Typemap {
    type V = TypemapModel;

    open spec fn view(&self) -> TypemapModel {
        TypemapModel {
            version: self.version@,
            entries: self.entries,
            types: self.types@.map_values(|d: DataType| d@),
        }
    }
}

/// The first entry with the given id, in file order.
pub open spec fn spec_lookup(types: Seq<DataTypeModel>, id: u16) -> Option<DataTypeModel>
    decreases types.len(),
{
    if types.len() == 0 {
        None
    } else if types[0].id == id {
        Some(types[0])
    } else {
        spec_lookup(types.drop_first(), id)
    }
}

/// A registry entry: `u16` id, type name, schema version.
#[verifier::opaque]
pub open spec fn spec_datatype(b: Seq<u8>, pos: usize) -> Result<(usize, DataTypeModel), Fault> {
    match spec_u16(b, pos) {
        Err(e) => Err(e),
        Ok((p, id)) => match spec_string(b, p) {
            Err(e) => Err(e),
            Ok((q, typename)) => match spec_string(b, q) {
                Err(e) => Err(e),
                Ok((r, version)) => Ok((r, DataTypeModel { id, typename, version })),
            },
        },
    }
}

pub open spec fn datatype_item() -> spec_fn(Seq<u8>, usize) -> Result<(usize, DataTypeModel), Fault> {
    |b: Seq<u8>, p: usize| spec_datatype(b, p)
}


/// The registry: format version, entry count, then that many entries.
#[verifier::opaque]
pub open spec fn spec_typemap(b: Seq<u8>, pos: usize) -> Result<(usize, TypemapModel), Fault> {
    match spec_string(b, pos) {
        Err(e) => Err(e),
        Ok((p, version)) => match spec_u16(b, p) {
            Err(e) => Err(e),
            Ok((q, entries)) => match spec_fold(
                datatype_item(),
                push_step::<DataTypeModel>(),
                b,
                q,
                entries as nat,
                seq![],
            ) {
                Err(e) => Err(e),
                Ok((r, types)) => Ok((r, TypemapModel { version, entries, types })),
            },
        },
    }
}

/// Reads one registry entry.
pub fn parse_datatype(i: &[u8], pos: usize) -> (r: Result<(usize, DataType), Fault>)
    ensures
        r matches Ok((q, _)) ==> pos <= q <= i@.len(),
        match r {
            Ok((p, d)) => spec_datatype(i@, pos) == Ok::<(usize, DataTypeModel), Fault>((p, d@)),
            Err(e) => spec_datatype(i@, pos) == Err::<(usize, DataTypeModel), Fault>(e),
        },
{
    reveal(spec_datatype);
    let (p, id) = match le_u16(i, pos) {
        Ok(x) => x,
        Err(e) => return Err(e),
    };
    let (q, typename) = match parse_replay_string(i, p) {
        Ok(x) => x,
        Err(e) => return Err(e),
    };
    let (r, version) = match parse_replay_string(i, q) {
        Ok(x) => x,
        Err(e) => return Err(e),
    };
    Ok((r, DataType { id, typename, version }))
}

/// Reads the type registry.
pub fn parse_typemap(i: &[u8], pos: usize) -> (r: Result<(usize, Typemap), Fault>)
    ensures
        r matches Ok((q, _)) ==> pos <= q <= i@.len(),
        match r {
            Ok((p, t)) => spec_typemap(i@, pos) == Ok::<(usize, TypemapModel), Fault>((p, t@)),
            Err(e) => spec_typemap(i@, pos) == Err::<(usize, TypemapModel), Fault>(e),
        },
{
    reveal(spec_typemap);
    let (p, version) = match parse_replay_string(i, pos) {
        Ok(x) => x,
        Err(e) => return Err(e),
    };
    let (start, entries) = match le_u16(i, p) {
        Ok(x) => x,
        Err(e) => return Err(e),
    };
    let ghost item = datatype_item();
    let ghost step = push_step::<DataTypeModel>();
    let mut types: Vec<DataType> = Vec::new();
    assert(types@.map_values(|d: DataType| d@) =~= seq![]);
    let mut q = start;
    let mut k: u16 = 0;
    while k < entries
        invariant
            k <= entries,
            pos <= start <= q <= i@.len(),
            item == datatype_item(),
            step == push_step::<DataTypeModel>(),
            spec_string(i@, pos) == Ok::<(usize, Seq<char>), Fault>((p, version@)),
            spec_u16(i@, p) == Ok::<(usize, u16), Fault>((start, entries)),
            spec_fold(item, step, i@, start, k as nat, seq![]) == Ok::<
                (usize, Seq<DataTypeModel>),
                Fault,
            >((q, types@.map_values(|d: DataType| d@))),
        decreases entries - k,
    {
        let res = parse_datatype(i, q);
        assert(item(i@, q) == spec_datatype(i@, q));
        match res {
            Ok((next, d)) => {
                proof {
                    assert(types@.push(d).map_values(|d: DataType| d@) =~= types@.map_values(
                        |d: DataType| d@,
                    ).push(d@));
                }
                types.push(d);
                q = next;
                k = k + 1;
            },
            Err(e) => {
                proof {
                    reveal(spec_typemap);
                    lemma_fold_err(item, step, i@, start, (k + 1) as nat, entries as nat, seq![]);
                }
                return Err(e);
            },
        }
    }
    Ok((q, Typemap { version, entries, types }))
}

/// Whether two strings hold the same characters.
pub fn str_eq(a: &str, b: &str) -> (r: bool)
    ensures
        r == (a@ == b@),
{
    let x = a.as_bytes();
    let y = b.as_bytes();
    proof {
        encode_utf8_decode_utf8(a@);
        encode_utf8_decode_utf8(b@);
    }
    if x.len() != y.len() {
        return false;
    }
    let mut k: usize = 0;
    while k < x.len()
        invariant
            x.len() == y.len(),
            x@ == a.spec_bytes(),
            y@ == b.spec_bytes(),
            k <= x.len(),
            forall|j: int| 0 <= j < k ==> x@[j] == y@[j],
        decreases x.len() - k,
    {
        if x[k] != y[k] {
            return false;
        }
        k = k + 1;
    }
    assert(x@ =~= y@);
    true
}

impl Typemap {
    /// The first entry with the given id, in file order.
    pub fn find(&self, id: u16) -> (r: Option<&DataType>)
        ensures
            match r {
                Some(d) => spec_lookup(self@.types, id) == Some(d@),
                None => spec_lookup(self@.types, id) is None,
            },
    {
        let ghost all = self@.types;
        let mut k: usize = 0;
        assert(all.subrange(0, all.len() as int) =~= all);
        while k < self.types.len()
            invariant
                k <= self.types@.len(),
                all == self.types@.map_values(|d: DataType| d@),
                spec_lookup(all, id) == spec_lookup(all.subrange(k as int, all.len() as int), id),
            decreases self.types.len() - k,
        {
            let ghost rest = all.subrange(k as int, all.len() as int);
            assert(rest.drop_first() =~= all.subrange(k + 1, all.len() as int));
            if self.types[k].id == id {
                return Some(&self.types[k]);
            }
            k = k + 1;
        }
        assert(all.subrange(k as int, all.len() as int) =~= Seq::<DataTypeModel>::empty());
        None
    }
}

/// A snapshot of the event stream that follows the header.
pub struct Snapshot {
    timestamp: u32,
}

/// An event of the event stream that follows the header.
pub struct Event {
    id: u16,
    offset: u16,
}

/// A dynamic object of the event stream that follows the header.
pub struct Dynamic {}

} // verus!
