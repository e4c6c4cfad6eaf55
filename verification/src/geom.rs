//! Three-component vectors and four-component rotations.
//!
//! Components are carried as the bit patterns of IEEE 754 single-precision
//! values: the codec moves them between the wire and records without
//! arithmetic, so the bit pattern is the exact content of each field.
//! Rotation normalization is floating-point work done by an outside crate
//! behind a trusted wrapper.

use vstd::bytes::{spec_u32_to_le_bytes, spec_u64_to_le_bytes};
use vstd::prelude::*;

verus! {

use crate::error::DecodeError;
use crate::wire::{decoded_as, read_u32, spec_u32_at, write_u32};

/// A 3D position or offset; each field is the bit pattern of an IEEE 754
/// single-precision component.
#[derive(Debug, Clone, Copy, PartialEq, Eq, Structural)]
pub struct Vec3 {
    pub x: u32,
    pub y: u32,
    pub z: u32,
}

/// A rotation quaternion in (x, y, z, w) order; each field is the bit
/// pattern of an IEEE 754 single-precision component.
#[derive(Debug, Clone, Copy, PartialEq, Eq, Structural)]
pub struct Quat {
    pub x: u32,
    pub y: u32,
    pub z: u32,
    pub w: u32,
}

impl DeepView for Vec3 {
    type V = Vec3;

    open spec fn deep_view(&self) -> Vec3 {
        *self
    }
}

impl DeepView for Quat {
    type V = Quat;

    open spec fn deep_view(&self) -> Quat {
        *self
    }
}

/// The component bit patterns of the normalized form of the quaternion
/// whose component bit patterns are `(x, y, z, w)`. Normalization is
/// floating-point arithmetic whose result is a function of the input bit
/// patterns alone; the codec never inspects it.
pub uninterp spec fn quat_norm(x: u32, y: u32, z: u32, w: u32) -> (u32, u32, u32, u32);

/// `q` normalized to unit length, component-wise.
pub open spec fn spec_normalize(q: Quat) -> Quat {
    let t = quat_norm(q.x, q.y, q.z, q.w);
    Quat { x: t.0, y: t.1, z: t.2, w: t.3 }
}

/// Relies on `glam::Quat::normalize`: IEEE 754 multiplication, addition,
/// square root and division are exactly rounded, so the normalized
/// component bit patterns are a function of the input bit patterns alone.
#[verifier::external_body]
pub(crate) fn normalize_quat(x: u32, y: u32, z: u32, w: u32) -> (r: Quat)
    ensures
        (r.x, r.y, r.z, r.w) == quat_norm(x, y, z, w),
{
    let g = glam::Quat::from_array(bytemuck::cast([x, y, z, w]));
    let a: [u32; 4] = bytemuck::cast(g.normalize().to_array());
    Quat { x: a[0], y: a[1], z: a[2], w: a[3] }
}

/// The wire form of a vector: three single-precision components, each as
/// four little-endian bytes.
pub open spec fn spec_enc_vec3(v: Vec3) -> Seq<u8> {
    spec_u32_to_le_bytes(v.x) + spec_u32_to_le_bytes(v.y) + spec_u32_to_le_bytes(v.z)
}

/// The wire form of a rotation: four single-precision components in
/// (x, y, z, w) order, each as four little-endian bytes.
pub open spec fn spec_enc_quat(q: Quat) -> Seq<u8> {
    spec_u32_to_le_bytes(q.x) + spec_u32_to_le_bytes(q.y) + spec_u32_to_le_bytes(q.z)
        + spec_u32_to_le_bytes(q.w)
}

pub open spec fn spec_read_vec3(b: Seq<u8>, pos: int) -> Result<(Vec3, int), DecodeError> {
    if 0 <= pos && pos + 12 <= b.len() {
        Ok(
            (
                Vec3 { x: spec_u32_at(b, pos), y: spec_u32_at(b, pos + 4), z: spec_u32_at(b, pos + 8) },
                pos + 12,
            ),
        )
    } else {
        Err(DecodeError::Underflow)
    }
}

/// Reads four raw components and normalizes them: callers never see an
/// unnormalized rotation.
pub open spec fn spec_read_quat(b: Seq<u8>, pos: int) -> Result<(Quat, int), DecodeError> {
    if 0 <= pos && pos + 16 <= b.len() {
        Ok(
            (
                spec_normalize(
                    Quat {
                        x: spec_u32_at(b, pos),
                        y: spec_u32_at(b, pos + 4),
                        z: spec_u32_at(b, pos + 8),
                        w: spec_u32_at(b, pos + 12),
                    },
                ),
                pos + 16,
            ),
        )
    } else {
        Err(DecodeError::Underflow)
    }
}

pub(crate) fn read_vec3(src: &Vec<u8>, pos: usize) -> (r: Result<(Vec3, usize), DecodeError>)
    ensures
        decoded_as(r, spec_read_vec3(src@, pos as int)),
{
    let (x, p1) = match read_u32(src, pos) {
        Ok(v) => v,
        Err(e) => { return Err(e) },
    };
    let (y, p2) = match read_u32(src, p1) {
        Ok(v) => v,
        Err(e) => { return Err(e) },
    };
    let (z, p3) = match read_u32(src, p2) {
        Ok(v) => v,
        Err(e) => { return Err(e) },
    };
    Ok((Vec3 { x, y, z }, p3))
}

pub(crate) fn read_quat(src: &Vec<u8>, pos: usize) -> (r: Result<(Quat, usize), DecodeError>)
    ensures
        decoded_as(r, spec_read_quat(src@, pos as int)),
{
    let (x, p1) = match read_u32(src, pos) {
        Ok(v) => v,
        Err(e) => { return Err(e) },
    };
    let (y, p2) = match read_u32(src, p1) {
        Ok(v) => v,
        Err(e) => { return Err(e) },
    };
    let (z, p3) = match read_u32(src, p2) {
        Ok(v) => v,
        Err(e) => { return Err(e) },
    };
    let (w, p4) = match read_u32(src, p3) {
        Ok(v) => v,
        Err(e) => { return Err(e) },
    };
    Ok((normalize_quat(x, y, z, w), p4))
}

/// Relies on `bincode::serialize` of a `glam::Vec3`: the default
/// configuration writes each single-precision component as its four
/// little-endian bytes, and serialization into a byte vector cannot fail.
#[verifier::external_body]
fn bincode_vec3(v: &Vec3) -> (r: Vec<u8>)
    ensures
        r@ == spec_enc_vec3(*v),
{
    let g = glam::Vec3::from_array(bytemuck::cast([v.x, v.y, v.z]));
    bincode::serialize(&g).unwrap()
}

/// Relies on `bincode::serialize` of a `glam::Quat`: the default
/// configuration writes the four single-precision components in
/// (x, y, z, w) order, each as its four little-endian bytes, and
/// serialization into a byte vector cannot fail.
#[verifier::external_body]
fn bincode_quat(q: &Quat) -> (r: Vec<u8>)
    ensures
        r@ == spec_enc_quat(*q),
{
    let g = glam::Quat::from_array(bytemuck::cast([q.x, q.y, q.z, q.w]));
    bincode::serialize(&g).unwrap()
}

pub(crate) fn write_vec3(dst: &mut Vec<u8>, v: &Vec3)
    ensures
        final(dst)@ == old(dst)@ + spec_enc_vec3(*v),
{
    write_u32(dst, v.x);
    write_u32(dst, v.y);
    write_u32(dst, v.z);
    assert(final(dst)@ =~= old(dst)@ + spec_enc_vec3(*v));
}

pub(crate) fn write_quat(dst: &mut Vec<u8>, q: &Quat)
    ensures
        final(dst)@ == old(dst)@ + spec_enc_quat(*q),
{
    write_u32(dst, q.x);
    write_u32(dst, q.y);
    write_u32(dst, q.z);
    write_u32(dst, q.w);
    assert(final(dst)@ =~= old(dst)@ + spec_enc_quat(*q));
}

/// Consecutive raw 3D positions: `n` of them, decoded left to right.
pub open spec fn spec_read_vec3s(b: Seq<u8>, pos: int, n: nat) -> Result<
    (Seq<Vec3>, int),
    DecodeError,
>
    decreases n,
{
    if n == 0 {
        Ok((Seq::empty(), pos))
    } else {
        match spec_read_vec3(b, pos) {
            Ok((v, p)) => match spec_read_vec3s(b, p, (n - 1) as nat) {
                Ok((vs, p2)) => Ok((seq![v] + vs, p2)),
                Err(e) => Err(e),
            },
            Err(e) => Err(e),
        }
    }
}

pub open spec fn spec_enc_vec3s_from(items: Seq<Vec3>, i: int) -> Seq<u8>
    decreases items.len() - i,
{
    if i < 0 || i >= items.len() {
        Seq::empty()
    } else {
        spec_enc_vec3(items[i]) + spec_enc_vec3s_from(items, i + 1)
    }
}

pub open spec fn spec_enc_vec3s(items: Seq<Vec3>) -> Seq<u8> {
    spec_enc_vec3s_from(items, 0)
}

pub(crate) fn read_vec3s(src: &Vec<u8>, pos: usize, n: u32) -> (r: Result<
    (Vec<Vec3>, usize),
    DecodeError,
>)
    ensures
        decoded_as(r, spec_read_vec3s(src@, pos as int, n as nat)),
{
    let mut acc: Vec<Vec3> = Vec::new();
    let mut cur: usize = pos;
    let mut i: u32 = 0;
    proof {
        crate::wire::lemma_deep_view_empty(acc);
        match spec_read_vec3s(src@, pos as int, n as nat) {
            Ok((vs, p)) => {
                assert(Seq::<Vec3>::empty() + vs =~= vs);
            },
            Err(_) => {},
        }
    }
    while i < n
        invariant
            i <= n,
            spec_read_vec3s(src@, pos as int, n as nat) == (match spec_read_vec3s(
                src@,
                cur as int,
                (n - i) as nat,
            ) {
                Ok((vs, p)) => Ok::<(Seq<Vec3>, int), DecodeError>((acc.deep_view() + vs, p)),
                Err(e) => Err::<(Seq<Vec3>, int), DecodeError>(e),
            }),
        decreases n - i,
    {
        let (v, p) = match read_vec3(src, cur) {
            Ok(t) => t,
            Err(e) => { return Err(e) },
        };
        proof {
            match spec_read_vec3s(src@, p as int, (n - i - 1) as nat) {
                Ok((vs2, p3)) => {
                    assert((acc.deep_view() + (seq![v.deep_view()] + vs2)) =~= (
                    acc.deep_view().push(v.deep_view()) + vs2));
                },
                Err(_) => {},
            }
        }
        let ghost before = acc;
        acc.push(v);
        proof {
            crate::wire::lemma_deep_view_push(before, acc, v);
        }
        cur = p;
        i = i + 1;
    }
    proof {
        assert(acc.deep_view() + Seq::<Vec3>::empty() =~= acc.deep_view());
    }
    Ok((acc, cur))
}

pub(crate) fn write_vec3s(dst: &mut Vec<u8>, items: &Vec<Vec3>)
    ensures
        final(dst)@ == old(dst)@ + spec_enc_vec3s(items.deep_view()),
{
    let ghost vs = items.deep_view();
    let mut k: usize = 0;
    while k < items.len()
        invariant
            k <= items@.len(),
            vs == items.deep_view(),
            vs.len() == items@.len(),
            dst@ + spec_enc_vec3s_from(vs, k as int) == old(dst)@ + spec_enc_vec3s_from(vs, 0),
        decreases items@.len() - k,
    {
        let ghost pre = dst@;
        write_vec3(dst, &items[k]);
        proof {
            assert(vs[k as int] == items@[k as int].deep_view());
            assert((pre + spec_enc_vec3(vs[k as int]) + spec_enc_vec3s_from(vs, k as int + 1)) =~= (
            pre + spec_enc_vec3s_from(vs, k as int)));
        }
        k = k + 1;
    }
    assert(spec_enc_vec3s_from(vs, items@.len() as int) =~= Seq::<u8>::empty());
    assert(final(dst)@ =~= final(dst)@ + Seq::<u8>::empty());
}

/// Codec for a bare 3-component vector.
#[derive(Debug, Default)]
pub struct Vec3Codec;

impl Vec3Codec {
    pub fn decode(&self, src: &Vec<u8>, pos: usize) -> (r: Result<(Vec3, usize), DecodeError>)
        ensures
            decoded_as(r, spec_read_vec3(src@, pos as int)),
    {
        read_vec3(src, pos)
    }

    pub fn encode(&self, item: &Vec3, dst: &mut Vec<u8>)
        ensures
            final(dst)@ == old(dst)@ + spec_enc_vec3(*item),
    {
        let mut b = bincode_vec3(item);
        dst.append(&mut b);
    }
}

/// Codec for a bare rotation; decoding normalizes.
#[derive(Debug, Default)]
pub struct QuatCodec;

impl QuatCodec {
    pub fn decode(&self, src: &Vec<u8>, pos: usize) -> (r: Result<(Quat, usize), DecodeError>)
        ensures
            decoded_as(r, spec_read_quat(src@, pos as int)),
    {
        read_quat(src, pos)
    }

    pub fn encode(&self, item: &Quat, dst: &mut Vec<u8>)
        ensures
            final(dst)@ == old(dst)@ + spec_enc_quat(*item),
    {
        let mut b = bincode_quat(item);
        dst.append(&mut b);
    }
}

} // verus!
