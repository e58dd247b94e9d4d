//! Fixed-width little-endian fields, booleans and length-prefixed strings.
//!
//! Every reader takes the whole buffer and the position at which to read, and
//! returns the position after the field together with its value. Floating-point
//! fields are kept as their raw bit patterns.
use vstd::prelude::*;
use vstd::utf8::{decode_utf8, valid_utf8};

use crate::error::{truncated, ErrorKind, Fault};

verus! {

/// The three components of an `f32` vector, each as its IEEE-754 bit pattern.
#[derive(Clone, Copy, Debug, PartialEq, Eq, Structural)]
pub struct Vec3Bits {
    pub x: u32,
    pub y: u32,
    pub z: u32,
}

pub open spec fn le_u16_of(b0: u8, b1: u8) -> u16 {
    (b0 as int + 256 * b1 as int) as u16
}

pub open spec fn le_u32_of(b0: u8, b1: u8, b2: u8, b3: u8) -> u32 {
    (b0 as int + 256 * b1 as int + 65536 * b2 as int + 16777216 * b3 as int) as u32
}

/// The two's-complement reading of a 32-bit pattern.
pub open spec fn i32_of_bits(u: u32) -> i32 {
    if u < 0x8000_0000 {
        u as i32
    } else {
        (u as int - 0x1_0000_0000) as i32
    }
}

pub open spec fn spec_u8(b: Seq<u8>, pos: usize) -> Result<(usize, u8), Fault> {
    if pos + 1 <= b.len() {
        Ok(((pos + 1) as usize, b[pos as int]))
    } else {
        Err(truncated(pos))
    }
}

pub open spec fn spec_u16(b: Seq<u8>, pos: usize) -> Result<(usize, u16), Fault> {
    if pos + 2 <= b.len() {
        Ok(((pos + 2) as usize, le_u16_of(b[pos as int], b[pos + 1])))
    } else {
        Err(truncated(pos))
    }
}

pub open spec fn spec_u32(b: Seq<u8>, pos: usize) -> Result<(usize, u32), Fault> {
    if pos + 4 <= b.len() {
        Ok(
            (
                (pos + 4) as usize,
                le_u32_of(b[pos as int], b[pos + 1], b[pos + 2], b[pos + 3]),
            ),
        )
    } else {
        Err(truncated(pos))
    }
}

pub open spec fn spec_i32(b: Seq<u8>, pos: usize) -> Result<(usize, i32), Fault> {
    match spec_u32(b, pos) {
        Ok((p, u)) => Ok((p, i32_of_bits(u))),
        Err(e) => Err(e),
    }
}

/// A boolean byte: any nonzero value is `true`.
pub open spec fn spec_bool(b: Seq<u8>, pos: usize) -> Result<(usize, bool), Fault> {
    match spec_u8(b, pos) {
        Ok((p, v)) => Ok((p, v != 0)),
        Err(e) => Err(e),
    }
}

/// Three `f32` bit patterns, x then y then z.
pub open spec fn spec_vec3(b: Seq<u8>, pos: usize) -> Result<(usize, Vec3Bits), Fault> {
    match spec_u32(b, pos) {
        Err(e) => Err(e),
        Ok((p, x)) => match spec_u32(b, p) {
            Err(e) => Err(e),
            Ok((q, y)) => match spec_u32(b, q) {
                Err(e) => Err(e),
                Ok((r, z)) => Ok((r, Vec3Bits { x, y, z })),
            },
        },
    }
}

/// A `u16` length, then that many bytes of UTF-8.
pub open spec fn spec_string(b: Seq<u8>, pos: usize) -> Result<(usize, Seq<char>), Fault> {
    match spec_u16(b, pos) {
        Err(e) => Err(e),
        Ok((p, len)) => if p + len <= b.len() {
            let bytes = b.subrange(p as int, p + len);
            if valid_utf8(bytes) {
                Ok(((p + len) as usize, decode_utf8(bytes)))
            } else {
                Err(Fault { kind: ErrorKind::InvalidEncoding, offset: p, identifier: None })
            }
        } else {
            Err(truncated(p))
        },
    }
}

/// The view of a read's result: the value's view in place of the value.
pub open spec fn read_view<T: View>(r: Result<(usize, T), Fault>) -> Result<(usize, T::V), Fault> {
    match r {
        Ok((p, v)) => Ok((p, v@)),
        Err(e) => Err(e),
    }
}

/// `n` items read one after another from `pos`, each folded into the state
/// with `step`; the first failing item ends the read with its fault.
pub open spec fn spec_fold<T, S>(
    item: spec_fn(Seq<u8>, usize) -> Result<(usize, T), Fault>,
    step: spec_fn(S, T) -> S,
    b: Seq<u8>,
    pos: usize,
    n: nat,
    s: S,
) -> Result<(usize, S), Fault>
    decreases n,
{
    if n == 0 {
        Ok((pos, s))
    } else {
        match spec_fold(item, step, b, pos, (n - 1) as nat, s) {
            Err(e) => Err(e),
            Ok((p, s1)) => match item(b, p) {
                Err(e) => Err(e),
                Ok((q, t)) => Ok((q, step(s1, t))),
            },
        }
    }
}

/// The step that appends each item read to a sequence.
pub open spec fn push_step<T>() -> spec_fn(Seq<T>, T) -> Seq<T> {
    |s: Seq<T>, t: T| s.push(t)
}

/// A `u16` count, then that many items folded into the state.
pub open spec fn spec_counted<T, S>(
    item: spec_fn(Seq<u8>, usize) -> Result<(usize, T), Fault>,
    step: spec_fn(S, T) -> S,
    b: Seq<u8>,
    pos: usize,
    s: S,
) -> Result<(usize, S), Fault> {
    match spec_u16(b, pos) {
        Err(e) => Err(e),
        Ok((p, n)) => spec_fold(item, step, b, p, n as nat, s),
    }
}

/// Once the first `i` items fail, any longer read fails the same way.
pub proof fn lemma_fold_err<T, S>(
    item: spec_fn(Seq<u8>, usize) -> Result<(usize, T), Fault>,
    step: spec_fn(S, T) -> S,
    b: Seq<u8>,
    pos: usize,
    i: nat,
    n: nat,
    s: S,
)
    requires
        i <= n,
        spec_fold(item, step, b, pos, i, s) is Err,
    ensures
        spec_fold(item, step, b, pos, n, s) == spec_fold(item, step, b, pos, i, s),
    decreases n - i,
{
    if i < n {
        lemma_fold_err(item, step, b, pos, i, (n - 1) as nat, s);
    }
}

/// A read that takes exactly `size` bytes: it succeeds when they remain, and
/// fails as truncated otherwise.
pub open spec fn exact_size<T>(
    item: spec_fn(Seq<u8>, usize) -> Result<(usize, T), Fault>,
    size: nat,
) -> bool {
    forall|b: Seq<u8>, p: usize|
        b.len() <= usize::MAX ==> match #[trigger] item(b, p) {
            Ok((q, _)) => p + size <= b.len() && q == p + size,
            Err(e) => p + size > b.len() && e.kind == ErrorKind::Truncated,
        }
}

/// A read that, when it succeeds, has taken at least `size` bytes.
pub open spec fn takes_at_least<T>(
    item: spec_fn(Seq<u8>, usize) -> Result<(usize, T), Fault>,
    size: nat,
) -> bool {
    forall|b: Seq<u8>, p: usize|
        b.len() <= usize::MAX && #[trigger] item(b, p) is Ok ==> p + size <= item(b, p)->Ok_0.0
            <= b.len()
}

/// `n` reads of exactly `size` bytes each succeed when `n * size` bytes
/// remain, and fail as truncated otherwise.
pub proof fn lemma_fold_exact<T, S>(
    item: spec_fn(Seq<u8>, usize) -> Result<(usize, T), Fault>,
    step: spec_fn(S, T) -> S,
    size: nat,
    b: Seq<u8>,
    pos: usize,
    n: nat,
    s: S,
)
    requires
        exact_size(item, size),
        b.len() <= usize::MAX,
        pos <= b.len(),
    ensures
        match spec_fold(item, step, b, pos, n, s) {
            Ok((q, _)) => q == pos + n * size && q <= b.len(),
            Err(e) => pos + n * size > b.len() && e.kind == ErrorKind::Truncated,
        },
    decreases n,
{
    if n == 0 {
        assert(n * size == 0) by (nonlinear_arith)
            requires
                n == 0,
        ;
    } else {
        lemma_fold_exact(item, step, size, b, pos, (n - 1) as nat, s);
        assert(n * size == (n - 1) * size + size) by (nonlinear_arith)
            requires
                n > 0,
        ;
        assert((n - 1) * size >= 0) by (nonlinear_arith)
            requires
                n > 0,
        ;
        if let Ok((p, _)) = spec_fold(item, step, b, pos, (n - 1) as nat, s) {
            let _ = item(b, p);
        }
    }
}

/// A fault that the bytes' content causes, as opposed to their length.
pub open spec fn content_fault(k: ErrorKind) -> bool {
    k == ErrorKind::InvalidDiscriminant || k == ErrorKind::InvalidEncoding
}

/// A read whose faults are truncations or content faults.
pub open spec fn fails_on_length_or_content<T>(
    item: spec_fn(Seq<u8>, usize) -> Result<(usize, T), Fault>,
) -> bool {
    forall|b: Seq<u8>, p: usize|
        #[trigger] item(b, p) is Err ==> item(b, p)->Err_0.kind == ErrorKind::Truncated
            || content_fault(item(b, p)->Err_0.kind)
}

/// A fold of such reads fails only in the same ways.
pub proof fn lemma_fold_fails_on_length_or_content<T, S>(
    item: spec_fn(Seq<u8>, usize) -> Result<(usize, T), Fault>,
    step: spec_fn(S, T) -> S,
    b: Seq<u8>,
    pos: usize,
    n: nat,
    s: S,
)
    requires
        fails_on_length_or_content(item),
    ensures
        spec_fold(item, step, b, pos, n, s) matches Err(e) ==> e.kind == ErrorKind::Truncated
            || content_fault(e.kind),
    decreases n,
{
    if n > 0 {
        lemma_fold_fails_on_length_or_content(item, step, b, pos, (n - 1) as nat, s);
        if let Ok((p, _)) = spec_fold(item, step, b, pos, (n - 1) as nat, s) {
            let _ = item(b, p);
        }
    }
}

/// `n` reads that each take at least `size` bytes: if they all succeed,
/// `n * size` bytes remained.
pub proof fn lemma_fold_at_least<T, S>(
    item: spec_fn(Seq<u8>, usize) -> Result<(usize, T), Fault>,
    step: spec_fn(S, T) -> S,
    size: nat,
    b: Seq<u8>,
    pos: usize,
    n: nat,
    s: S,
)
    requires
        takes_at_least(item, size),
        b.len() <= usize::MAX,
        pos <= b.len(),
    ensures
        spec_fold(item, step, b, pos, n, s) matches Ok((q, _)) ==> pos + n * size <= q <= b.len(),
    decreases n,
{
    if n == 0 {
        assert(n * size == 0) by (nonlinear_arith)
            requires
                n == 0,
        ;
    } else {
        lemma_fold_at_least(item, step, size, b, pos, (n - 1) as nat, s);
        assert(n * size == (n - 1) * size + size) by (nonlinear_arith)
            requires
                n > 0,
        ;
        if let Ok((p, _)) = spec_fold(item, step, b, pos, (n - 1) as nat, s) {
            let _ = item(b, p);
        }
    }
}

/// Relies on `String::from_utf8`: it succeeds exactly when the bytes are valid
/// UTF-8, and the string then holds the characters they encode.
#[verifier::external_body]
fn utf8_to_string(bytes: &[u8]) -> (r: Option<String>)
    ensures
        r is Some <==> valid_utf8(bytes@),
        r matches Some(s) ==> s@ == decode_utf8(bytes@),
{
    String::from_utf8(bytes.to_vec()).ok()
}

/// Reads one byte.
pub fn le_u8(i: &[u8], pos: usize) -> (r: Result<(usize, u8), Fault>)
    ensures
        r matches Ok((q, _)) ==> pos <= q <= i@.len(),
        r == spec_u8(i@, pos),
{
    if pos < i.len() {
        Ok((pos + 1, i[pos]))
    } else {
        Err(Fault::truncated_at(pos))
    }
}

/// Reads a little-endian `u16`.
pub fn le_u16(i: &[u8], pos: usize) -> (r: Result<(usize, u16), Fault>)
    ensures
        r matches Ok((q, _)) ==> q == pos + 2 && q <= i@.len(),
        r == spec_u16(i@, pos),
{
    if i.len() >= 2 && pos <= i.len() - 2 {
        let v = (i[pos] as u16) + (i[pos + 1] as u16) * 256;
        Ok((pos + 2, v))
    } else {
        Err(Fault::truncated_at(pos))
    }
}

/// Reads a little-endian `u32`.
pub fn le_u32(i: &[u8], pos: usize) -> (r: Result<(usize, u32), Fault>)
    ensures
        r matches Ok((q, _)) ==> pos <= q <= i@.len(),
        r == spec_u32(i@, pos),
{
    if i.len() >= 4 && pos <= i.len() - 4 {
        let v = (i[pos] as u32) + (i[pos + 1] as u32) * 256 + (i[pos + 2] as u32) * 65536 + (
        i[pos + 3] as u32) * 16777216;
        Ok((pos + 4, v))
    } else {
        Err(Fault::truncated_at(pos))
    }
}

/// The two's-complement reading of a 32-bit pattern.
pub fn i32_from_bits(u: u32) -> (r: i32)
    ensures
        r == i32_of_bits(u),
{
    if u < 0x8000_0000 {
        u as i32
    } else {
        ((u - 0x8000_0000) as i32) - 0x7fff_ffff - 1
    }
}

/// Reads a little-endian two's-complement `i32`.
pub fn le_i32(i: &[u8], pos: usize) -> (r: Result<(usize, i32), Fault>)
    ensures
        r matches Ok((q, _)) ==> pos <= q <= i@.len(),
        r == spec_i32(i@, pos),
{
    match le_u32(i, pos) {
        Ok((p, u)) => Ok((p, i32_from_bits(u))),
        Err(e) => Err(e),
    }
}

/// Reads one byte as a boolean; any nonzero value is `true`.
pub fn parse_replay_bool(i: &[u8], pos: usize) -> (r: Result<(usize, bool), Fault>)
    ensures
        r matches Ok((q, _)) ==> pos <= q <= i@.len(),
        r == spec_bool(i@, pos),
{
    match le_u8(i, pos) {
        Ok((p, v)) => Ok((p, v > 0)),
        Err(e) => Err(e),
    }
}

/// Reads a half-precision float as its raw bit pattern.
pub fn le_f16(i: &[u8], pos: usize) -> (r: Result<(usize, u16), Fault>)
    ensures
        r matches Ok((q, _)) ==> pos <= q <= i@.len(),
        r == spec_u16(i@, pos),
{
    le_u16(i, pos)
}

/// Reads three `f32` values as their bit patterns.
pub fn parse_vec3(i: &[u8], pos: usize) -> (r: Result<(usize, Vec3Bits), Fault>)
    ensures
        r matches Ok((q, _)) ==> pos <= q <= i@.len(),
        r == spec_vec3(i@, pos),
{
    let (p, x) = match le_u32(i, pos) {
        Ok(v) => v,
        Err(e) => return Err(e),
    };
    let (p, y) = match le_u32(i, p) {
        Ok(v) => v,
        Err(e) => return Err(e),
    };
    let (p, z) = match le_u32(i, p) {
        Ok(v) => v,
        Err(e) => return Err(e),
    };
    Ok((p, Vec3Bits { x, y, z }))
}

/// Reads a `u16` length prefix, then that many bytes as a UTF-8 string.
pub fn parse_replay_string(i: &[u8], pos: usize) -> (r: Result<(usize, String), Fault>)
    ensures
        r matches Ok((q, _)) ==> pos <= q <= i@.len(),
        read_view(r) == spec_string(i@, pos),
{
    let (p, len) = match le_u16(i, pos) {
        Ok(v) => v,
        Err(e) => return Err(e),
    };
    if len as usize > i.len() - p {
        return Err(Fault::truncated_at(p));
    }
    let end = p + len as usize;
    let bytes = &i[p..end];
    match utf8_to_string(bytes) {
        Some(s) => Ok((end, s)),
        None => Err(Fault { kind: ErrorKind::InvalidEncoding, offset: p, identifier: None }),
    }
}

} // verus!
