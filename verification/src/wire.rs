//! Primitive wire fields: fixed-width little-endian integers and
//! null-terminated UTF-8 strings, with their byte-level specifications.

use vstd::bytes::{
    spec_u16_from_le_bytes, spec_u16_to_le_bytes, spec_u32_from_le_bytes, spec_u32_to_le_bytes,
    spec_u64_from_le_bytes, spec_u64_to_le_bytes, u16_from_le_bytes, u16_to_le_bytes,
    u32_from_le_bytes, u32_to_le_bytes, u64_from_le_bytes, u64_to_le_bytes,
};
use vstd::prelude::*;
use vstd::slice::{slice_subrange, slice_to_vec};

verus! {

use crate::error::DecodeError;
use vstd::utf8::{decode_utf8, encode_utf8, valid_utf8};

/// Relates the result of an executable decoder to the result of its
/// byte-level specification: same success or failure, same error, same
/// value (up to views) and same final cursor position.
pub open spec fn decoded_as<T: DeepView>(
    r: Result<(T, usize), DecodeError>,
    s: Result<(T::V, int), DecodeError>,
) -> bool {
    match (r, s) {
        (Ok((v, p)), Ok((sv, sp))) => v.deep_view() == sv && p as int == sp,
        (Err(e), Err(se)) => e == se,
        _ => false,
    }
}

/// Pushing onto a vector pushes the element's view onto the vector's view.
pub proof fn lemma_deep_view_push<T: DeepView>(before: Vec<T>, after: Vec<T>, x: T)
    requires
        after@ == before@.push(x),
    ensures
        after.deep_view() == before.deep_view().push(x.deep_view()),
{
    assert(after.deep_view() =~= before.deep_view().push(x.deep_view()));
}

/// An empty vector's view is the empty sequence.
pub proof fn lemma_deep_view_empty<T: DeepView>(v: Vec<T>)
    requires
        v@.len() == 0,
    ensures
        v.deep_view() == Seq::<T::V>::empty(),
{
    assert(v.deep_view() =~= Seq::<T::V>::empty());
}

// ---------------------------------------------------------------------------
// Fixed-width little-endian integers
// ---------------------------------------------------------------------------

/// The `u16` stored little-endian at `pos`.
pub open spec fn spec_u16_at(b: Seq<u8>, pos: int) -> u16
    recommends
        0 <= pos,
        pos + 2 <= b.len(),
{
    spec_u16_from_le_bytes(b.subrange(pos, pos + 2))
}

/// The `u32` stored little-endian at `pos`.
pub open spec fn spec_u32_at(b: Seq<u8>, pos: int) -> u32
    recommends
        0 <= pos,
        pos + 4 <= b.len(),
{
    spec_u32_from_le_bytes(b.subrange(pos, pos + 4))
}

/// The `u64` stored little-endian at `pos`.
pub open spec fn spec_u64_at(b: Seq<u8>, pos: int) -> u64
    recommends
        0 <= pos,
        pos + 8 <= b.len(),
{
    spec_u64_from_le_bytes(b.subrange(pos, pos + 8))
}

/// The `i32` stored little-endian (two's complement) at `pos`.
pub open spec fn spec_i32_at(b: Seq<u8>, pos: int) -> i32 {
    spec_u32_at(b, pos) as i32
}

/// The `i16` stored little-endian (two's complement) at `pos`.
pub open spec fn spec_i16_at(b: Seq<u8>, pos: int) -> i16 {
    spec_u16_at(b, pos) as i16
}

pub open spec fn spec_read_u16(b: Seq<u8>, pos: int) -> Result<(u16, int), DecodeError> {
    if 0 <= pos && pos + 2 <= b.len() {
        Ok((spec_u16_at(b, pos), pos + 2))
    } else {
        Err(DecodeError::Underflow)
    }
}

pub open spec fn spec_read_u32(b: Seq<u8>, pos: int) -> Result<(u32, int), DecodeError> {
    if 0 <= pos && pos + 4 <= b.len() {
        Ok((spec_u32_at(b, pos), pos + 4))
    } else {
        Err(DecodeError::Underflow)
    }
}

pub open spec fn spec_read_u64(b: Seq<u8>, pos: int) -> Result<(u64, int), DecodeError> {
    if 0 <= pos && pos + 8 <= b.len() {
        Ok((spec_u64_at(b, pos), pos + 8))
    } else {
        Err(DecodeError::Underflow)
    }
}

pub open spec fn spec_read_i32(b: Seq<u8>, pos: int) -> Result<(i32, int), DecodeError> {
    if 0 <= pos && pos + 4 <= b.len() {
        Ok((spec_i32_at(b, pos), pos + 4))
    } else {
        Err(DecodeError::Underflow)
    }
}

pub open spec fn spec_read_i16(b: Seq<u8>, pos: int) -> Result<(i16, int), DecodeError> {
    if 0 <= pos && pos + 2 <= b.len() {
        Ok((spec_i16_at(b, pos), pos + 2))
    } else {
        Err(DecodeError::Underflow)
    }
}

pub fn read_u16(src: &Vec<u8>, pos: usize) -> (r: Result<(u16, usize), DecodeError>)
    ensures
        decoded_as(r, spec_read_u16(src@, pos as int)),
{
    if pos < src.len() && src.len() - pos >= 2 {
        let s = slice_subrange(src.as_slice(), pos, pos + 2);
        let v = u16_from_le_bytes(s);
        Ok((v, pos + 2))
    } else {
        Err(DecodeError::Underflow)
    }
}

pub fn read_u32(src: &Vec<u8>, pos: usize) -> (r: Result<(u32, usize), DecodeError>)
    ensures
        decoded_as(r, spec_read_u32(src@, pos as int)),
{
    if pos < src.len() && src.len() - pos >= 4 {
        let s = slice_subrange(src.as_slice(), pos, pos + 4);
        let v = u32_from_le_bytes(s);
        Ok((v, pos + 4))
    } else {
        Err(DecodeError::Underflow)
    }
}

pub fn read_u64(src: &Vec<u8>, pos: usize) -> (r: Result<(u64, usize), DecodeError>)
    ensures
        decoded_as(r, spec_read_u64(src@, pos as int)),
{
    if pos < src.len() && src.len() - pos >= 8 {
        let s = slice_subrange(src.as_slice(), pos, pos + 8);
        let v = u64_from_le_bytes(s);
        Ok((v, pos + 8))
    } else {
        Err(DecodeError::Underflow)
    }
}

pub fn read_i32(src: &Vec<u8>, pos: usize) -> (r: Result<(i32, usize), DecodeError>)
    ensures
        decoded_as(r, spec_read_i32(src@, pos as int)),
{
    match read_u32(src, pos) {
        Ok((v, p)) => Ok((v as i32, p)),
        Err(e) => Err(e),
    }
}

pub fn read_i16(src: &Vec<u8>, pos: usize) -> (r: Result<(i16, usize), DecodeError>)
    ensures
        decoded_as(r, spec_read_i16(src@, pos as int)),
{
    match read_u16(src, pos) {
        Ok((v, p)) => Ok((v as i16, p)),
        Err(e) => Err(e),
    }
}

/// The little-endian bytes of an `i32` (two's complement).
pub open spec fn spec_i32_to_le_bytes(v: i32) -> Seq<u8> {
    spec_u32_to_le_bytes(v as u32)
}

/// The little-endian bytes of an `i16` (two's complement).
pub open spec fn spec_i16_to_le_bytes(v: i16) -> Seq<u8> {
    spec_u16_to_le_bytes(v as u16)
}

pub fn write_u16(dst: &mut Vec<u8>, v: u16)
    ensures
        final(dst)@ == old(dst)@ + spec_u16_to_le_bytes(v),
{
    let mut b = u16_to_le_bytes(v);
    dst.append(&mut b);
}

pub fn write_u32(dst: &mut Vec<u8>, v: u32)
    ensures
        final(dst)@ == old(dst)@ + spec_u32_to_le_bytes(v),
{
    let mut b = u32_to_le_bytes(v);
    dst.append(&mut b);
}

pub fn write_u64(dst: &mut Vec<u8>, v: u64)
    ensures
        final(dst)@ == old(dst)@ + spec_u64_to_le_bytes(v),
{
    let mut b = u64_to_le_bytes(v);
    dst.append(&mut b);
}

pub fn write_i32(dst: &mut Vec<u8>, v: i32)
    ensures
        final(dst)@ == old(dst)@ + spec_i32_to_le_bytes(v),
{
    write_u32(dst, v as u32);
}

pub fn write_i16(dst: &mut Vec<u8>, v: i16)
    ensures
        final(dst)@ == old(dst)@ + spec_i16_to_le_bytes(v),
{
    write_u16(dst, v as u16);
}

/// Consecutive little-endian `u32` values: `n` of them.
pub open spec fn spec_read_u32s(b: Seq<u8>, pos: int, n: nat) -> Result<(Seq<u32>, int), DecodeError>
    decreases n,
{
    if n == 0 {
        Ok((Seq::empty(), pos))
    } else {
        match spec_read_u32(b, pos) {
            Ok((v, p)) => match spec_read_u32s(b, p, (n - 1) as nat) {
                Ok((vs, p2)) => Ok((seq![v] + vs, p2)),
                Err(e) => Err(e),
            },
            Err(e) => Err(e),
        }
    }
}

pub open spec fn spec_enc_u32s_from(items: Seq<u32>, i: int) -> Seq<u8>
    decreases items.len() - i,
{
    if i < 0 || i >= items.len() {
        Seq::empty()
    } else {
        spec_u32_to_le_bytes(items[i]) + spec_enc_u32s_from(items, i + 1)
    }
}

pub open spec fn spec_enc_u32s(items: Seq<u32>) -> Seq<u8> {
    spec_enc_u32s_from(items, 0)
}

pub(crate) fn read_u32s(src: &Vec<u8>, pos: usize, n: u32) -> (r: Result<
    (Vec<u32>, usize),
    DecodeError,
>)
    ensures
        decoded_as(r, spec_read_u32s(src@, pos as int, n as nat)),
{
    let mut acc: Vec<u32> = Vec::new();
    let mut cur: usize = pos;
    let mut i: u32 = 0;
    proof {
        lemma_deep_view_empty(acc);
        match spec_read_u32s(src@, pos as int, n as nat) {
            Ok((vs, p)) => {
                assert(Seq::<u32>::empty() + vs =~= vs);
            },
            Err(_) => {},
        }
    }
    while i < n
        invariant
            i <= n,
            spec_read_u32s(src@, pos as int, n as nat) == (match spec_read_u32s(
                src@,
                cur as int,
                (n - i) as nat,
            ) {
                Ok((vs, p)) => Ok::<(Seq<u32>, int), DecodeError>((acc.deep_view() + vs, p)),
                Err(e) => Err::<(Seq<u32>, int), DecodeError>(e),
            }),
        decreases n - i,
    {
        let (v, p) = match read_u32(src, cur) {
            Ok(t) => t,
            Err(e) => { return Err(e) },
        };
        proof {
            match spec_read_u32s(src@, p as int, (n - i - 1) as nat) {
                Ok((vs2, p3)) => {
                    assert((acc.deep_view() + (seq![v.deep_view()] + vs2)) =~= (
                    acc.deep_view().push(v.deep_view()) + vs2));
                },
                Err(_) => {},
            }
        }
        let ghost before = acc;
        acc.push(v);
        proof {
            lemma_deep_view_push(before, acc, v);
        }
        cur = p;
        i = i + 1;
    }
    proof {
        assert(acc.deep_view() + Seq::<u32>::empty() =~= acc.deep_view());
    }
    Ok((acc, cur))
}

pub(crate) fn write_u32s(dst: &mut Vec<u8>, items: &Vec<u32>)
    ensures
        final(dst)@ == old(dst)@ + spec_enc_u32s(items.deep_view()),
{
    let ghost vs = items.deep_view();
    let mut k: usize = 0;
    while k < items.len()
        invariant
            k <= items@.len(),
            vs == items.deep_view(),
            vs.len() == items@.len(),
            dst@ + spec_enc_u32s_from(vs, k as int) == old(dst)@ + spec_enc_u32s_from(vs, 0),
        decreases items@.len() - k,
    {
        let ghost pre = dst@;
        write_u32(dst, items[k]);
        proof {
            assert(vs[k as int] == items@[k as int].deep_view());
            assert((pre + spec_u32_to_le_bytes(vs[k as int]) + spec_enc_u32s_from(vs, k as int + 1))
                =~= (pre + spec_enc_u32s_from(vs, k as int)));
        }
        k = k + 1;
    }
    assert(spec_enc_u32s_from(vs, items@.len() as int) =~= Seq::<u8>::empty());
    assert(final(dst)@ =~= final(dst)@ + Seq::<u8>::empty());
}

// ---------------------------------------------------------------------------
// Null-terminated UTF-8 strings
// ---------------------------------------------------------------------------

/// Index of the first zero byte at or after `pos`, if any.
pub open spec fn spec_find_nul(b: Seq<u8>, pos: int) -> Option<int>
    decreases b.len() - pos,
{
    if pos < 0 || pos >= b.len() {
        None
    } else if b[pos] == 0 {
        Some(pos)
    } else {
        spec_find_nul(b, pos + 1)
    }
}

pub proof fn lemma_find_nul(b: Seq<u8>, pos: int)
    requires
        0 <= pos,
    ensures
        match spec_find_nul(b, pos) {
            Some(e) => pos <= e < b.len() && b[e] == 0 && (forall|j: int|
                pos <= j < e ==> b[j] != 0),
            None => forall|j: int| pos <= j < b.len() ==> b[j] != 0,
        },
    decreases b.len() - pos,
{
    if pos < b.len() && b[pos] != 0 {
        lemma_find_nul(b, pos + 1);
    }
}

/// A successfully read string starts at a valid position and ends past its
/// terminator, inside the buffer.
pub proof fn lemma_read_str_pos(b: Seq<u8>, pos: int)
    ensures
        spec_read_str(b, pos) matches Ok((s, p)) ==> 0 <= pos < p <= b.len(),
{
    if pos >= 0 {
        lemma_find_nul(b, pos);
    }
}

/// A name on the wire: the UTF-8 bytes of its characters followed by a
/// single zero terminator.
pub open spec fn spec_enc_str(s: Seq<char>) -> Seq<u8> {
    encode_utf8(s) + seq![0u8]
}

/// Reads bytes up to (not including) the first zero byte and decodes them
/// as UTF-8; consumes the terminator. No terminator before the end of the
/// buffer is an underflow; invalid UTF-8 is malformed text.
pub open spec fn spec_read_str(b: Seq<u8>, pos: int) -> Result<(Seq<char>, int), DecodeError> {
    match spec_find_nul(b, pos) {
        Some(end) => if valid_utf8(b.subrange(pos, end)) {
            Ok((decode_utf8(b.subrange(pos, end)), end + 1))
        } else {
            Err(DecodeError::MalformedText)
        },
        None => Err(DecodeError::Underflow),
    }
}

/// Relies on `String::from_utf8`: it succeeds exactly on valid UTF-8 input
/// and yields the sequence of characters that the bytes encode.
#[verifier::external_body]
fn string_from_utf8(bytes: &Vec<u8>) -> (r: Option<String>)
    ensures
        match r {
            Some(s) => valid_utf8(bytes@) && s@ == decode_utf8(bytes@),
            None => !valid_utf8(bytes@),
        },
{
    String::from_utf8(bytes.clone()).ok()
}

pub fn read_str(src: &Vec<u8>, pos: usize) -> (r: Result<(String, usize), DecodeError>)
    ensures
        decoded_as(r, spec_read_str(src@, pos as int)),
{
    if pos >= src.len() {
        return Err(DecodeError::Underflow);
    }
    let mut i = pos;
    while i < src.len() && *vstd::slice::slice_index_get(src.as_slice(), i) != 0
        invariant
            pos <= i <= src@.len(),
            spec_find_nul(src@, pos as int) == spec_find_nul(src@, i as int),
        decreases src@.len() - i,
    {
        i = i + 1;
    }
    if i == src.len() {
        assert(spec_find_nul(src@, i as int) is None);
        return Err(DecodeError::Underflow);
    }
    assert(spec_find_nul(src@, i as int) == Some(i as int));
    let name_bytes = slice_to_vec(slice_subrange(src.as_slice(), pos, i));
    match string_from_utf8(&name_bytes) {
        Some(s) => Ok((s, i + 1)),
        None => Err(DecodeError::MalformedText),
    }
}

pub fn write_str(dst: &mut Vec<u8>, s: &String)
    ensures
        final(dst)@ == old(dst)@ + spec_enc_str(s@),
{
    dst.extend_from_slice(s.as_str().as_bytes());
    dst.push(0);
    assert(dst@ =~= old(dst)@ + spec_enc_str(s@));
}


pub open spec fn spec_read_i32s(b: Seq<u8>, pos: int, n: nat) -> Result<(Seq<i32>, int), DecodeError>
    decreases n,
{
    if n == 0 {
        Ok((Seq::empty(), pos))
    } else {
        match spec_read_i32(b, pos) {
            Ok((v, p)) => match spec_read_i32s(b, p, (n - 1) as nat) {
                Ok((vs, p2)) => Ok((seq![v] + vs, p2)),
                Err(e) => Err(e),
            },
            Err(e) => Err(e),
        }
    }
}

pub(crate) fn read_i32s(src: &Vec<u8>, pos: usize, n: u32) -> (r: Result<
    (Vec<i32>, usize),
    DecodeError,
>)
    ensures
        decoded_as(r, spec_read_i32s(src@, pos as int, n as nat)),
{
    let mut acc: Vec<i32> = Vec::new();
    let mut cur: usize = pos;
    let mut i: u32 = 0;
    proof {
        lemma_deep_view_empty(acc);
        match spec_read_i32s(src@, pos as int, n as nat) {
            Ok((vs, p)) => {
                assert(Seq::<i32>::empty() + vs =~= vs);
            },
            Err(_) => {},
        }
    }
    while i < n
        invariant
            i <= n,
            spec_read_i32s(src@, pos as int, n as nat) == (match spec_read_i32s(
                src@,
                cur as int,
                (n - i) as nat,
            ) {
                Ok((vs, p)) => Ok::<(Seq<i32>, int), DecodeError>((acc.deep_view() + vs, p)),
                Err(e) => Err::<(Seq<i32>, int), DecodeError>(e),
            }),
        decreases n - i,
    {
        let (v, p) = match read_i32(src, cur) {
            Ok(t) => t,
            Err(e) => { return Err(e) },
        };
        proof {
            match spec_read_i32s(src@, p as int, (n - i - 1) as nat) {
                Ok((vs2, p3)) => {
                    assert((acc.deep_view() + (seq![v.deep_view()] + vs2)) =~= (
                    acc.deep_view().push(v.deep_view()) + vs2));
                },
                Err(_) => {},
            }
        }
        let ghost before = acc;
        acc.push(v);
        proof {
            lemma_deep_view_push(before, acc, v);
        }
        cur = p;
        i = i + 1;
    }
    proof {
        assert(acc.deep_view() + Seq::<i32>::empty() =~= acc.deep_view());
    }
    Ok((acc, cur))
}

pub open spec fn spec_enc_i32s_from(items: Seq<i32>, i: int) -> Seq<u8>
    decreases items.len() - i,
{
    if i < 0 || i >= items.len() {
        Seq::empty()
    } else {
        spec_i32_to_le_bytes(items[i]) + spec_enc_i32s_from(items, i + 1)
    }
}

pub open spec fn spec_enc_i32s(items: Seq<i32>) -> Seq<u8> {
    spec_enc_i32s_from(items, 0)
}

pub(crate) fn write_i32s(dst: &mut Vec<u8>, items: &Vec<i32>)
    ensures
        final(dst)@ == old(dst)@ + spec_enc_i32s(items.deep_view()),
{
    let ghost vs = items.deep_view();
    let mut k: usize = 0;
    while k < items.len()
        invariant
            k <= items@.len(),
            vs == items.deep_view(),
            vs.len() == items@.len(),
            dst@ + spec_enc_i32s_from(vs, k as int) == old(dst)@ + spec_enc_i32s_from(vs, 0),
        decreases items@.len() - k,
    {
        let ghost pre = dst@;
        write_i32(dst, items[k]);
        proof {
            assert(vs[k as int] == items@[k as int].deep_view());
            assert((pre + spec_i32_to_le_bytes(vs[k as int]) + spec_enc_i32s_from(vs, k as int + 1))
                =~= (pre + spec_enc_i32s_from(vs, k as int)));
        }
        k = k + 1;
    }
    assert(spec_enc_i32s_from(vs, items@.len() as int) =~= Seq::<u8>::empty());
    assert(final(dst)@ =~= final(dst)@ + Seq::<u8>::empty());
}

pub open spec fn spec_read_strs(b: Seq<u8>, pos: int, n: nat) -> Result<(Seq<Seq<char>>, int), DecodeError>
    decreases n,
{
    if n == 0 {
        Ok((Seq::empty(), pos))
    } else {
        match spec_read_str(b, pos) {
            Ok((v, p)) => match spec_read_strs(b, p, (n - 1) as nat) {
                Ok((vs, p2)) => Ok((seq![v] + vs, p2)),
                Err(e) => Err(e),
            },
            Err(e) => Err(e),
        }
    }
}

pub(crate) fn read_strs(src: &Vec<u8>, pos: usize, n: u32) -> (r: Result<
    (Vec<String>, usize),
    DecodeError,
>)
    ensures
        decoded_as(r, spec_read_strs(src@, pos as int, n as nat)),
{
    let mut acc: Vec<String> = Vec::new();
    let mut cur: usize = pos;
    let mut i: u32 = 0;
    proof {
        lemma_deep_view_empty(acc);
        match spec_read_strs(src@, pos as int, n as nat) {
            Ok((vs, p)) => {
                assert(Seq::<Seq<char>>::empty() + vs =~= vs);
            },
            Err(_) => {},
        }
    }
    while i < n
        invariant
            i <= n,
            spec_read_strs(src@, pos as int, n as nat) == (match spec_read_strs(
                src@,
                cur as int,
                (n - i) as nat,
            ) {
                Ok((vs, p)) => Ok::<(Seq<Seq<char>>, int), DecodeError>((acc.deep_view() + vs, p)),
                Err(e) => Err::<(Seq<Seq<char>>, int), DecodeError>(e),
            }),
        decreases n - i,
    {
        let (v, p) = match read_str(src, cur) {
            Ok(t) => t,
            Err(e) => { return Err(e) },
        };
        proof {
            match spec_read_strs(src@, p as int, (n - i - 1) as nat) {
                Ok((vs2, p3)) => {
                    assert((acc.deep_view() + (seq![v.deep_view()] + vs2)) =~= (
                    acc.deep_view().push(v.deep_view()) + vs2));
                },
                Err(_) => {},
            }
        }
        let ghost before = acc;
        acc.push(v);
        proof {
            lemma_deep_view_push(before, acc, v);
        }
        cur = p;
        i = i + 1;
    }
    proof {
        assert(acc.deep_view() + Seq::<Seq<char>>::empty() =~= acc.deep_view());
    }
    Ok((acc, cur))
}

pub open spec fn spec_enc_strs_from(items: Seq<Seq<char>>, i: int) -> Seq<u8>
    decreases items.len() - i,
{
    if i < 0 || i >= items.len() {
        Seq::empty()
    } else {
        spec_enc_str(items[i]) + spec_enc_strs_from(items, i + 1)
    }
}

pub open spec fn spec_enc_strs(items: Seq<Seq<char>>) -> Seq<u8> {
    spec_enc_strs_from(items, 0)
}

pub(crate) fn write_strs(dst: &mut Vec<u8>, items: &Vec<String>)
    ensures
        final(dst)@ == old(dst)@ + spec_enc_strs(items.deep_view()),
{
    let ghost vs = items.deep_view();
    let mut k: usize = 0;
    while k < items.len()
        invariant
            k <= items@.len(),
            vs == items.deep_view(),
            vs.len() == items@.len(),
            dst@ + spec_enc_strs_from(vs, k as int) == old(dst)@ + spec_enc_strs_from(vs, 0),
        decreases items@.len() - k,
    {
        let ghost pre = dst@;
        write_str(dst, &items[k]);
        proof {
            assert(vs[k as int] == items@[k as int].deep_view());
            assert((pre + spec_enc_str(vs[k as int]) + spec_enc_strs_from(vs, k as int + 1)) =~= (
            pre + spec_enc_strs_from(vs, k as int)));
        }
        k = k + 1;
    }
    assert(spec_enc_strs_from(vs, items@.len() as int) =~= Seq::<u8>::empty());
    assert(final(dst)@ =~= final(dst)@ + Seq::<u8>::empty());
}

} // verus!
