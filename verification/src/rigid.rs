//! Rigid-body pose samples, rigid-body asset templates, and the skeletons
//! and assets that group them.

use vstd::bytes::{spec_u16_to_le_bytes, spec_u32_to_le_bytes};
use vstd::prelude::*;

verus! {

use crate::error::DecodeError;
use crate::geom::{
    read_quat, read_vec3, spec_enc_quat, spec_enc_vec3, spec_normalize, write_quat, write_vec3,
    Quat, Vec3,
};
use crate::wire::{
    decoded_as, lemma_deep_view_empty, lemma_deep_view_push, read_i16, read_u16, read_u32,
    spec_i16_to_le_bytes, spec_i16_at, spec_read_u32, spec_u16_at, spec_u32_at, write_i16,
    write_u16, write_u32,
};

/// One rigid-body pose sample: a tracked object's position and orientation
/// for a single frame. The rotation is normalized on decode.
#[derive(Debug, Clone, Copy, PartialEq, Eq, Structural)]
pub struct RigidBody {
    pub id: u32,
    pub pos: Vec3,
    pub rot: Quat,
    pub is_tracking_valid: bool,
    /// Bit pattern of the single-precision mean marker error.
    pub mean_marker_err: u32,
}

impl DeepView for RigidBody {
    type V = RigidBody;

    open spec fn deep_view(&self) -> RigidBody {
        *self
    }
}

impl RigidBody {
    /// Converts the position from the right-handed right-up-back frame to
    /// front-right-down by permuting axes and negating one; on bit patterns
    /// the negation is a sign-bit flip. The rotation is untouched.
    pub fn rub_to_frd(self) -> (r: Self)
        ensures
            r == (RigidBody {
                pos: Vec3 { x: self.pos.x, y: self.pos.z, z: self.pos.y ^ 0x8000_0000u32 },
                ..self
            }),
    {
        Self { pos: Vec3 { x: self.pos.x, y: self.pos.z, z: self.pos.y ^ 0x8000_0000u32 }, ..self }
    }
}

/// A rigid-body template inside a composite asset.
#[derive(Debug, Clone, Copy, PartialEq, Eq, Structural)]
pub struct RigidBodyAsset {
    pub id: u32,
    pub pos: Vec3,
    pub rot: Quat,
    /// Bit pattern of the single-precision marker error.
    pub marker_error: u32,
    pub param: i16,
}

impl DeepView for RigidBodyAsset {
    type V = RigidBodyAsset;

    open spec fn deep_view(&self) -> RigidBodyAsset {
        *self
    }
}

/// A named hierarchy of rigid bodies, decoded as a counted collection.
#[derive(Debug, Clone, PartialEq)]
pub struct Skeleton {
    pub id: u32,
    pub rigid_body_count: u32,
    pub rigid_bodies: Vec<RigidBody>,
}

pub ghost struct SkeletonView {
    pub id: u32,
    pub rigid_body_count: u32,
    pub rigid_bodies: Seq<RigidBody>,
}

impl DeepView for Skeleton {
    type V = SkeletonView;

    open spec fn deep_view(&self) -> SkeletonView {
        SkeletonView {
            id: self.id,
            rigid_body_count: self.rigid_body_count,
            rigid_bodies: self.rigid_bodies.deep_view(),
        }
    }
}

/// A composite of rigid-body asset templates.
#[derive(Debug, Clone, PartialEq)]
pub struct Asset {
    pub id: u32,
    pub rigid_body_count: u32,
    pub rigid_bodies: Vec<RigidBodyAsset>,
}

pub ghost struct AssetView {
    pub id: u32,
    pub rigid_body_count: u32,
    pub rigid_bodies: Seq<RigidBodyAsset>,
}

impl DeepView for Asset {
    type V = AssetView;

    open spec fn deep_view(&self) -> AssetView {
        AssetView {
            id: self.id,
            rigid_body_count: self.rigid_body_count,
            rigid_bodies: self.rigid_bodies.deep_view(),
        }
    }
}

// ---------------------------------------------------------------------------
// RigidBody wire form: u32 id, 3 x f32 position, 4 x f32 rotation,
// f32 mean marker error, u16 tracking flags (bit 0 = tracking valid).
// ---------------------------------------------------------------------------

pub open spec fn spec_read_rigid_body(b: Seq<u8>, pos: int) -> Result<(RigidBody, int), DecodeError> {
    if 0 <= pos && pos + 38 <= b.len() {
        Ok(
            (
                RigidBody {
                    id: spec_u32_at(b, pos),
                    pos: Vec3 {
                        x: spec_u32_at(b, pos + 4),
                        y: spec_u32_at(b, pos + 8),
                        z: spec_u32_at(b, pos + 12),
                    },
                    rot: spec_normalize(
                        Quat {
                            x: spec_u32_at(b, pos + 16),
                            y: spec_u32_at(b, pos + 20),
                            z: spec_u32_at(b, pos + 24),
                            w: spec_u32_at(b, pos + 28),
                        },
                    ),
                    mean_marker_err: spec_u32_at(b, pos + 32),
                    is_tracking_valid: (spec_u16_at(b, pos + 36) & 1) != 0,
                },
                pos + 38,
            ),
        )
    } else {
        Err(DecodeError::Underflow)
    }
}

pub open spec fn spec_enc_rigid_body(rb: RigidBody) -> Seq<u8> {
    spec_u32_to_le_bytes(rb.id) + spec_enc_vec3(rb.pos) + spec_enc_quat(rb.rot)
        + spec_u32_to_le_bytes(rb.mean_marker_err) + spec_u16_to_le_bytes(
        if rb.is_tracking_valid {
            1u16
        } else {
            0u16
        },
    )
}

pub(crate) fn read_rigid_body(src: &Vec<u8>, pos: usize) -> (r: Result<
    (RigidBody, usize),
    DecodeError,
>)
    ensures
        decoded_as(r, spec_read_rigid_body(src@, pos as int)),
{
    if !(pos < src.len() && src.len() - pos >= 38) {
        return Err(DecodeError::Underflow);
    }
    let (id, p1) = match read_u32(src, pos) {
        Ok(v) => v,
        Err(e) => { return Err(e) },
    };
    let (position, p2) = match read_vec3(src, p1) {
        Ok(v) => v,
        Err(e) => { return Err(e) },
    };
    let (rot, p3) = match read_quat(src, p2) {
        Ok(v) => v,
        Err(e) => { return Err(e) },
    };
    let (err, p4) = match read_u32(src, p3) {
        Ok(v) => v,
        Err(e) => { return Err(e) },
    };
    let (flags, p5) = match read_u16(src, p4) {
        Ok(v) => v,
        Err(e) => { return Err(e) },
    };
    Ok(
        (
            RigidBody {
                id,
                pos: position,
                rot,
                is_tracking_valid: (flags & 1) != 0,
                mean_marker_err: err,
            },
            p5,
        ),
    )
}

pub(crate) fn write_rigid_body(dst: &mut Vec<u8>, rb: &RigidBody)
    ensures
        final(dst)@ == old(dst)@ + spec_enc_rigid_body(*rb),
{
    write_u32(dst, rb.id);
    write_vec3(dst, &rb.pos);
    write_quat(dst, &rb.rot);
    write_u32(dst, rb.mean_marker_err);
    let flags: u16 = if rb.is_tracking_valid {
        1
    } else {
        0
    };
    write_u16(dst, flags);
    assert(final(dst)@ =~= old(dst)@ + spec_enc_rigid_body(*rb));
}

/// Consecutive rigid bodies: `n` of them, decoded left to right.
pub open spec fn spec_read_rigid_bodies(b: Seq<u8>, pos: int, n: nat) -> Result<
    (Seq<RigidBody>, int),
    DecodeError,
>
    decreases n,
{
    if n == 0 {
        Ok((Seq::empty(), pos))
    } else {
        match spec_read_rigid_body(b, pos) {
            Ok((v, p)) => match spec_read_rigid_bodies(b, p, (n - 1) as nat) {
                Ok((vs, p2)) => Ok((seq![v] + vs, p2)),
                Err(e) => Err(e),
            },
            Err(e) => Err(e),
        }
    }
}

pub open spec fn spec_enc_rigid_bodies_from(items: Seq<RigidBody>, i: int) -> Seq<u8>
    decreases items.len() - i,
{
    if i < 0 || i >= items.len() {
        Seq::empty()
    } else {
        spec_enc_rigid_body(items[i]) + spec_enc_rigid_bodies_from(items, i + 1)
    }
}

pub open spec fn spec_enc_rigid_bodies(items: Seq<RigidBody>) -> Seq<u8> {
    spec_enc_rigid_bodies_from(items, 0)
}

pub(crate) fn read_rigid_bodies(src: &Vec<u8>, pos: usize, n: u32) -> (r: Result<
    (Vec<RigidBody>, usize),
    DecodeError,
>)
    ensures
        decoded_as(r, spec_read_rigid_bodies(src@, pos as int, n as nat)),
{
    let mut acc: Vec<RigidBody> = Vec::new();
    let mut cur: usize = pos;
    let mut i: u32 = 0;
    proof {
        lemma_deep_view_empty(acc);
        match spec_read_rigid_bodies(src@, pos as int, n as nat) {
            Ok((vs, p)) => {
                assert(Seq::<RigidBody>::empty() + vs =~= vs);
            },
            Err(_) => {},
        }
    }
    while i < n
        invariant
            i <= n,
            spec_read_rigid_bodies(src@, pos as int, n as nat) == (match spec_read_rigid_bodies(
                src@,
                cur as int,
                (n - i) as nat,
            ) {
                Ok((vs, p)) => Ok::<(Seq<RigidBody>, int), DecodeError>((acc.deep_view() + vs, p)),
                Err(e) => Err::<(Seq<RigidBody>, int), DecodeError>(e),
            }),
        decreases n - i,
    {
        let (v, p) = match read_rigid_body(src, cur) {
            Ok(t) => t,
            Err(e) => { return Err(e) },
        };
        proof {
            match spec_read_rigid_bodies(src@, p as int, (n - i - 1) as nat) {
                Ok((vs2, p3)) => {
                    assert((acc.deep_view() + (seq![v.deep_view()] + vs2)) =~= (
                    acc.deep_view().push(v.deep_view()) + vs2));
                },
                Err(_) => {},
            }
        }
        let ghost before = acc;
        acc.push(v);
        proof {
            lemma_deep_view_push(before, acc, v);
        }
        cur = p;
        i = i + 1;
    }
    proof {
        assert(acc.deep_view() + Seq::<RigidBody>::empty() =~= acc.deep_view());
    }
    Ok((acc, cur))
}

pub(crate) fn write_rigid_bodies(dst: &mut Vec<u8>, items: &Vec<RigidBody>)
    ensures
        final(dst)@ == old(dst)@ + spec_enc_rigid_bodies(items.deep_view()),
{
    let ghost vs = items.deep_view();
    let mut k: usize = 0;
    while k < items.len()
        invariant
            k <= items@.len(),
            vs == items.deep_view(),
            vs.len() == items@.len(),
            dst@ + spec_enc_rigid_bodies_from(vs, k as int) == old(dst)@
                + spec_enc_rigid_bodies_from(vs, 0),
        decreases items@.len() - k,
    {
        let ghost pre = dst@;
        write_rigid_body(dst, &items[k]);
        proof {
            assert(vs[k as int] == items@[k as int].deep_view());
            assert((pre + spec_enc_rigid_body(vs[k as int]) + spec_enc_rigid_bodies_from(
                vs,
                k as int + 1,
            )) =~= (pre + spec_enc_rigid_bodies_from(vs, k as int)));
        }
        k = k + 1;
    }
    assert(spec_enc_rigid_bodies_from(vs, items@.len() as int) =~= Seq::<u8>::empty());
    assert(final(dst)@ =~= final(dst)@ + Seq::<u8>::empty());
}

/// Codec for one rigid-body pose sample.
#[derive(Debug, Default)]
pub struct RigidBodyCodec;

impl RigidBodyCodec {
    pub fn decode(&self, src: &Vec<u8>, pos: usize) -> (r: Result<(RigidBody, usize), DecodeError>)
        ensures
            decoded_as(r, spec_read_rigid_body(src@, pos as int)),
    {
        read_rigid_body(src, pos)
    }

    pub fn encode(&self, item: &RigidBody, dst: &mut Vec<u8>)
        ensures
            final(dst)@ == old(dst)@ + spec_enc_rigid_body(*item),
    {
        write_rigid_body(dst, item);
    }
}

// ---------------------------------------------------------------------------
// RigidBodyAsset wire form: u32 id, 3 x f32 position, 4 x f32 rotation,
// f32 marker error, i16 param.
// ---------------------------------------------------------------------------

pub open spec fn spec_read_rigid_body_asset(b: Seq<u8>, pos: int) -> Result<
    (RigidBodyAsset, int),
    DecodeError,
> {
    if 0 <= pos && pos + 38 <= b.len() {
        Ok(
            (
                RigidBodyAsset {
                    id: spec_u32_at(b, pos),
                    pos: Vec3 {
                        x: spec_u32_at(b, pos + 4),
                        y: spec_u32_at(b, pos + 8),
                        z: spec_u32_at(b, pos + 12),
                    },
                    rot: spec_normalize(
                        Quat {
                            x: spec_u32_at(b, pos + 16),
                            y: spec_u32_at(b, pos + 20),
                            z: spec_u32_at(b, pos + 24),
                            w: spec_u32_at(b, pos + 28),
                        },
                    ),
                    marker_error: spec_u32_at(b, pos + 32),
                    param: spec_i16_at(b, pos + 36),
                },
                pos + 38,
            ),
        )
    } else {
        Err(DecodeError::Underflow)
    }
}

pub open spec fn spec_enc_rigid_body_asset(rb: RigidBodyAsset) -> Seq<u8> {
    spec_u32_to_le_bytes(rb.id) + spec_enc_vec3(rb.pos) + spec_enc_quat(rb.rot)
        + spec_u32_to_le_bytes(rb.marker_error) + spec_i16_to_le_bytes(rb.param)
}

pub(crate) fn read_rigid_body_asset(src: &Vec<u8>, pos: usize) -> (r: Result<
    (RigidBodyAsset, usize),
    DecodeError,
>)
    ensures
        decoded_as(r, spec_read_rigid_body_asset(src@, pos as int)),
{
    if !(pos < src.len() && src.len() - pos >= 38) {
        return Err(DecodeError::Underflow);
    }
    let (id, p1) = match read_u32(src, pos) {
        Ok(v) => v,
        Err(e) => { return Err(e) },
    };
    let (position, p2) = match read_vec3(src, p1) {
        Ok(v) => v,
        Err(e) => { return Err(e) },
    };
    let (rot, p3) = match read_quat(src, p2) {
        Ok(v) => v,
        Err(e) => { return Err(e) },
    };
    let (err, p4) = match read_u32(src, p3) {
        Ok(v) => v,
        Err(e) => { return Err(e) },
    };
    let (param, p5) = match read_i16(src, p4) {
        Ok(v) => v,
        Err(e) => { return Err(e) },
    };
    Ok((RigidBodyAsset { id, pos: position, rot, marker_error: err, param }, p5))
}

pub(crate) fn write_rigid_body_asset(dst: &mut Vec<u8>, rb: &RigidBodyAsset)
    ensures
        final(dst)@ == old(dst)@ + spec_enc_rigid_body_asset(*rb),
{
    write_u32(dst, rb.id);
    write_vec3(dst, &rb.pos);
    write_quat(dst, &rb.rot);
    write_u32(dst, rb.marker_error);
    write_i16(dst, rb.param);
    assert(final(dst)@ =~= old(dst)@ + spec_enc_rigid_body_asset(*rb));
}

pub open spec fn spec_read_rigid_body_assets(b: Seq<u8>, pos: int, n: nat) -> Result<
    (Seq<RigidBodyAsset>, int),
    DecodeError,
>
    decreases n,
{
    if n == 0 {
        Ok((Seq::empty(), pos))
    } else {
        match spec_read_rigid_body_asset(b, pos) {
            Ok((v, p)) => match spec_read_rigid_body_assets(b, p, (n - 1) as nat) {
                Ok((vs, p2)) => Ok((seq![v] + vs, p2)),
                Err(e) => Err(e),
            },
            Err(e) => Err(e),
        }
    }
}

pub open spec fn spec_enc_rigid_body_assets_from(items: Seq<RigidBodyAsset>, i: int) -> Seq<u8>
    decreases items.len() - i,
{
    if i < 0 || i >= items.len() {
        Seq::empty()
    } else {
        spec_enc_rigid_body_asset(items[i]) + spec_enc_rigid_body_assets_from(items, i + 1)
    }
}

pub open spec fn spec_enc_rigid_body_assets(items: Seq<RigidBodyAsset>) -> Seq<u8> {
    spec_enc_rigid_body_assets_from(items, 0)
}

pub(crate) fn read_rigid_body_assets(src: &Vec<u8>, pos: usize, n: u32) -> (r: Result<
    (Vec<RigidBodyAsset>, usize),
    DecodeError,
>)
    ensures
        decoded_as(r, spec_read_rigid_body_assets(src@, pos as int, n as nat)),
{
    let mut acc: Vec<RigidBodyAsset> = Vec::new();
    let mut cur: usize = pos;
    let mut i: u32 = 0;
    proof {
        lemma_deep_view_empty(acc);
        match spec_read_rigid_body_assets(src@, pos as int, n as nat) {
            Ok((vs, p)) => {
                assert(Seq::<RigidBodyAsset>::empty() + vs =~= vs);
            },
            Err(_) => {},
        }
    }
    while i < n
        invariant
            i <= n,
            spec_read_rigid_body_assets(src@, pos as int, n as nat) == (match
                spec_read_rigid_body_assets(src@, cur as int, (n - i) as nat) {
                Ok((vs, p)) => Ok::<(Seq<RigidBodyAsset>, int), DecodeError>(
                    (acc.deep_view() + vs, p),
                ),
                Err(e) => Err::<(Seq<RigidBodyAsset>, int), DecodeError>(e),
            }),
        decreases n - i,
    {
        let (v, p) = match read_rigid_body_asset(src, cur) {
            Ok(t) => t,
            Err(e) => { return Err(e) },
        };
        proof {
            match spec_read_rigid_body_assets(src@, p as int, (n - i - 1) as nat) {
                Ok((vs2, p3)) => {
                    assert((acc.deep_view() + (seq![v.deep_view()] + vs2)) =~= (
                    acc.deep_view().push(v.deep_view()) + vs2));
                },
                Err(_) => {},
            }
        }
        let ghost before = acc;
        acc.push(v);
        proof {
            lemma_deep_view_push(before, acc, v);
        }
        cur = p;
        i = i + 1;
    }
    proof {
        assert(acc.deep_view() + Seq::<RigidBodyAsset>::empty() =~= acc.deep_view());
    }
    Ok((acc, cur))
}

pub(crate) fn write_rigid_body_assets(dst: &mut Vec<u8>, items: &Vec<RigidBodyAsset>)
    ensures
        final(dst)@ == old(dst)@ + spec_enc_rigid_body_assets(items.deep_view()),
{
    let ghost vs = items.deep_view();
    let mut k: usize = 0;
    while k < items.len()
        invariant
            k <= items@.len(),
            vs == items.deep_view(),
            vs.len() == items@.len(),
            dst@ + spec_enc_rigid_body_assets_from(vs, k as int) == old(dst)@
                + spec_enc_rigid_body_assets_from(vs, 0),
        decreases items@.len() - k,
    {
        let ghost pre = dst@;
        write_rigid_body_asset(dst, &items[k]);
        proof {
            assert(vs[k as int] == items@[k as int].deep_view());
            assert((pre + spec_enc_rigid_body_asset(vs[k as int])
                + spec_enc_rigid_body_assets_from(vs, k as int + 1)) =~= (pre
                + spec_enc_rigid_body_assets_from(vs, k as int)));
        }
        k = k + 1;
    }
    assert(spec_enc_rigid_body_assets_from(vs, items@.len() as int) =~= Seq::<u8>::empty());
    assert(final(dst)@ =~= final(dst)@ + Seq::<u8>::empty());
}

/// Codec for one rigid-body asset template.
#[derive(Debug, Default)]
pub struct RigidBodyAssetCodec;

impl RigidBodyAssetCodec {
    pub fn decode(&self, src: &Vec<u8>, pos: usize) -> (r: Result<
        (RigidBodyAsset, usize),
        DecodeError,
    >)
        ensures
            decoded_as(r, spec_read_rigid_body_asset(src@, pos as int)),
    {
        read_rigid_body_asset(src, pos)
    }

    pub fn encode(&self, item: &RigidBodyAsset, dst: &mut Vec<u8>)
        ensures
            final(dst)@ == old(dst)@ + spec_enc_rigid_body_asset(*item),
    {
        write_rigid_body_asset(dst, item);
    }
}

// ---------------------------------------------------------------------------
// Skeleton wire form: u32 id, u32 rigid-body count, then that many
// rigid bodies.
// ---------------------------------------------------------------------------

pub open spec fn spec_read_skeleton(b: Seq<u8>, pos: int) -> Result<(SkeletonView, int), DecodeError> {
    match spec_read_u32(b, pos) {
        Ok((id, p1)) => match spec_read_u32(b, p1) {
            Ok((n, p2)) => match spec_read_rigid_bodies(b, p2, n as nat) {
                Ok((rbs, p3)) => Ok(
                    (SkeletonView { id, rigid_body_count: n, rigid_bodies: rbs }, p3),
                ),
                Err(e) => Err(e),
            },
            Err(e) => Err(e),
        },
        Err(e) => Err(e),
    }
}

/// The declared rigid-body count is written, whatever the collection's
/// actual length; the entries written are the collection's.
pub open spec fn spec_enc_skeleton(s: SkeletonView) -> Seq<u8> {
    spec_u32_to_le_bytes(s.id) + spec_u32_to_le_bytes(s.rigid_body_count) + spec_enc_rigid_bodies(
        s.rigid_bodies,
    )
}

pub(crate) fn read_skeleton(src: &Vec<u8>, pos: usize) -> (r: Result<(Skeleton, usize), DecodeError>)
    ensures
        decoded_as(r, spec_read_skeleton(src@, pos as int)),
{
    let (id, p1) = match read_u32(src, pos) {
        Ok(v) => v,
        Err(e) => { return Err(e) },
    };
    let (n, p2) = match read_u32(src, p1) {
        Ok(v) => v,
        Err(e) => { return Err(e) },
    };
    let (rbs, p3) = match read_rigid_bodies(src, p2, n) {
        Ok(v) => v,
        Err(e) => { return Err(e) },
    };
    Ok((Skeleton { id, rigid_body_count: n, rigid_bodies: rbs }, p3))
}

pub(crate) fn write_skeleton(dst: &mut Vec<u8>, s: &Skeleton)
    ensures
        final(dst)@ == old(dst)@ + spec_enc_skeleton(s.deep_view()),
{
    write_u32(dst, s.id);
    write_u32(dst, s.rigid_body_count);
    write_rigid_bodies(dst, &s.rigid_bodies);
    assert(final(dst)@ =~= old(dst)@ + spec_enc_skeleton(s.deep_view()));
}

/// Codec for a skeleton.
#[derive(Debug, Default)]
pub struct SkeletonCodec;

impl SkeletonCodec {
    pub fn decode(&self, src: &Vec<u8>, pos: usize) -> (r: Result<(Skeleton, usize), DecodeError>)
        ensures
            decoded_as(r, spec_read_skeleton(src@, pos as int)),
    {
        read_skeleton(src, pos)
    }

    pub fn encode(&self, item: &Skeleton, dst: &mut Vec<u8>)
        ensures
            final(dst)@ == old(dst)@ + spec_enc_skeleton(item.deep_view()),
    {
        write_skeleton(dst, item);
    }
}

// ---------------------------------------------------------------------------
// Asset wire form: u32 id, u32 rigid-body count, then that many
// rigid-body asset templates.
// ---------------------------------------------------------------------------

pub open spec fn spec_read_asset(b: Seq<u8>, pos: int) -> Result<(AssetView, int), DecodeError> {
    match spec_read_u32(b, pos) {
        Ok((id, p1)) => match spec_read_u32(b, p1) {
            Ok((n, p2)) => match spec_read_rigid_body_assets(b, p2, n as nat) {
                Ok((rbs, p3)) => Ok((AssetView { id, rigid_body_count: n, rigid_bodies: rbs }, p3)),
                Err(e) => Err(e),
            },
            Err(e) => Err(e),
        },
        Err(e) => Err(e),
    }
}

/// The declared rigid-body count is written, whatever the collection's
/// actual length; the entries written are the collection's.
pub open spec fn spec_enc_asset(a: AssetView) -> Seq<u8> {
    spec_u32_to_le_bytes(a.id) + spec_u32_to_le_bytes(a.rigid_body_count)
        + spec_enc_rigid_body_assets(a.rigid_bodies)
}

pub(crate) fn read_asset(src: &Vec<u8>, pos: usize) -> (r: Result<(Asset, usize), DecodeError>)
    ensures
        decoded_as(r, spec_read_asset(src@, pos as int)),
{
    let (id, p1) = match read_u32(src, pos) {
        Ok(v) => v,
        Err(e) => { return Err(e) },
    };
    let (n, p2) = match read_u32(src, p1) {
        Ok(v) => v,
        Err(e) => { return Err(e) },
    };
    let (rbs, p3) = match read_rigid_body_assets(src, p2, n) {
        Ok(v) => v,
        Err(e) => { return Err(e) },
    };
    Ok((Asset { id, rigid_body_count: n, rigid_bodies: rbs }, p3))
}

pub(crate) fn write_asset(dst: &mut Vec<u8>, a: &Asset)
    ensures
        final(dst)@ == old(dst)@ + spec_enc_asset(a.deep_view()),
{
    write_u32(dst, a.id);
    write_u32(dst, a.rigid_body_count);
    write_rigid_body_assets(dst, &a.rigid_bodies);
    assert(final(dst)@ =~= old(dst)@ + spec_enc_asset(a.deep_view()));
}

/// Codec for a composite asset.
#[derive(Debug, Default)]
pub struct AssetCodec;

impl AssetCodec {
    pub fn decode(&self, src: &Vec<u8>, pos: usize) -> (r: Result<(Asset, usize), DecodeError>)
        ensures
            decoded_as(r, spec_read_asset(src@, pos as int)),
    {
        read_asset(src, pos)
    }

    pub fn encode(&self, item: &Asset, dst: &mut Vec<u8>)
        ensures
            final(dst)@ == old(dst)@ + spec_enc_asset(item.deep_view()),
    {
        write_asset(dst, item);
    }
}


pub open spec fn spec_read_skeletons(b: Seq<u8>, pos: int, n: nat) -> Result<
    (Seq<SkeletonView>, int),
    DecodeError,
>
    decreases n,
{
    if n == 0 {
        Ok((Seq::empty(), pos))
    } else {
        match spec_read_skeleton(b, pos) {
            Ok((v, p)) => match spec_read_skeletons(b, p, (n - 1) as nat) {
                Ok((vs, p2)) => Ok((seq![v] + vs, p2)),
                Err(e) => Err(e),
            },
            Err(e) => Err(e),
        }
    }
}

pub(crate) fn read_skeletons(src: &Vec<u8>, pos: usize, n: u32) -> (r: Result<
    (Vec<Skeleton>, usize),
    DecodeError,
>)
    ensures
        decoded_as(r, spec_read_skeletons(src@, pos as int, n as nat)),
{
    let mut acc: Vec<Skeleton> = Vec::new();
    let mut cur: usize = pos;
    let mut i: u32 = 0;
    proof {
        lemma_deep_view_empty(acc);
        match spec_read_skeletons(src@, pos as int, n as nat) {
            Ok((vs, p)) => {
                assert(Seq::<SkeletonView>::empty() + vs =~= vs);
            },
            Err(_) => {},
        }
    }
    while i < n
        invariant
            i <= n,
            spec_read_skeletons(src@, pos as int, n as nat) == (match spec_read_skeletons(
                src@,
                cur as int,
                (n - i) as nat,
            ) {
                Ok((vs, p)) => Ok::<(Seq<SkeletonView>, int), DecodeError>((acc.deep_view() + vs, p)),
                Err(e) => Err::<(Seq<SkeletonView>, int), DecodeError>(e),
            }),
        decreases n - i,
    {
        let (v, p) = match read_skeleton(src, cur) {
            Ok(t) => t,
            Err(e) => { return Err(e) },
        };
        proof {
            match spec_read_skeletons(src@, p as int, (n - i - 1) as nat) {
                Ok((vs2, p3)) => {
                    assert((acc.deep_view() + (seq![v.deep_view()] + vs2)) =~= (
                    acc.deep_view().push(v.deep_view()) + vs2));
                },
                Err(_) => {},
            }
        }
        let ghost before = acc;
        acc.push(v);
        proof {
            lemma_deep_view_push(before, acc, v);
        }
        cur = p;
        i = i + 1;
    }
    proof {
        assert(acc.deep_view() + Seq::<SkeletonView>::empty() =~= acc.deep_view());
    }
    Ok((acc, cur))
}

pub open spec fn spec_enc_skeletons_from(items: Seq<SkeletonView>, i: int) -> Seq<u8>
    decreases items.len() - i,
{
    if i < 0 || i >= items.len() {
        Seq::empty()
    } else {
        spec_enc_skeleton(items[i]) + spec_enc_skeletons_from(items, i + 1)
    }
}

pub open spec fn spec_enc_skeletons(items: Seq<SkeletonView>) -> Seq<u8> {
    spec_enc_skeletons_from(items, 0)
}

pub(crate) fn write_skeletons(dst: &mut Vec<u8>, items: &Vec<Skeleton>)
    ensures
        final(dst)@ == old(dst)@ + spec_enc_skeletons(items.deep_view()),
{
    let ghost vs = items.deep_view();
    let mut k: usize = 0;
    while k < items.len()
        invariant
            k <= items@.len(),
            vs == items.deep_view(),
            vs.len() == items@.len(),
            dst@ + spec_enc_skeletons_from(vs, k as int) == old(dst)@ + spec_enc_skeletons_from(vs, 0),
        decreases items@.len() - k,
    {
        let ghost pre = dst@;
        write_skeleton(dst, &items[k]);
        proof {
            assert(vs[k as int] == items@[k as int].deep_view());
            assert((pre + spec_enc_skeleton(vs[k as int]) + spec_enc_skeletons_from(vs, k as int + 1)) =~= (
            pre + spec_enc_skeletons_from(vs, k as int)));
        }
        k = k + 1;
    }
    assert(spec_enc_skeletons_from(vs, items@.len() as int) =~= Seq::<u8>::empty());
    assert(final(dst)@ =~= final(dst)@ + Seq::<u8>::empty());
}

pub open spec fn spec_read_assets(b: Seq<u8>, pos: int, n: nat) -> Result<
    (Seq<AssetView>, int),
    DecodeError,
>
    decreases n,
{
    if n == 0 {
        Ok((Seq::empty(), pos))
    } else {
        match spec_read_asset(b, pos) {
            Ok((v, p)) => match spec_read_assets(b, p, (n - 1) as nat) {
                Ok((vs, p2)) => Ok((seq![v] + vs, p2)),
                Err(e) => Err(e),
            },
            Err(e) => Err(e),
        }
    }
}

pub(crate) fn read_assets(src: &Vec<u8>, pos: usize, n: u32) -> (r: Result<
    (Vec<Asset>, usize),
    DecodeError,
>)
    ensures
        decoded_as(r, spec_read_assets(src@, pos as int, n as nat)),
{
    let mut acc: Vec<Asset> = Vec::new();
    let mut cur: usize = pos;
    let mut i: u32 = 0;
    proof {
        lemma_deep_view_empty(acc);
        match spec_read_assets(src@, pos as int, n as nat) {
            Ok((vs, p)) => {
                assert(Seq::<AssetView>::empty() + vs =~= vs);
            },
            Err(_) => {},
        }
    }
    while i < n
        invariant
            i <= n,
            spec_read_assets(src@, pos as int, n as nat) == (match spec_read_assets(
                src@,
                cur as int,
                (n - i) as nat,
            ) {
                Ok((vs, p)) => Ok::<(Seq<AssetView>, int), DecodeError>((acc.deep_view() + vs, p)),
                Err(e) => Err::<(Seq<AssetView>, int), DecodeError>(e),
            }),
        decreases n - i,
    {
        let (v, p) = match read_asset(src, cur) {
            Ok(t) => t,
            Err(e) => { return Err(e) },
        };
        proof {
            match spec_read_assets(src@, p as int, (n - i - 1) as nat) {
                Ok((vs2, p3)) => {
                    assert((acc.deep_view() + (seq![v.deep_view()] + vs2)) =~= (
                    acc.deep_view().push(v.deep_view()) + vs2));
                },
                Err(_) => {},
            }
        }
        let ghost before = acc;
        acc.push(v);
        proof {
            lemma_deep_view_push(before, acc, v);
        }
        cur = p;
        i = i + 1;
    }
    proof {
        assert(acc.deep_view() + Seq::<AssetView>::empty() =~= acc.deep_view());
    }
    Ok((acc, cur))
}

} // verus!
