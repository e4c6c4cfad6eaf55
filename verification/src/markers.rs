//! Marker entities: named marker sets, labeled markers with solve status,
//! and marker assets.

use vstd::bytes::{spec_u16_to_le_bytes, spec_u32_to_le_bytes};
use vstd::prelude::*;

verus! {

use crate::error::DecodeError;
use crate::geom::{
    read_vec3, read_vec3s, spec_enc_vec3, spec_enc_vec3s, spec_read_vec3s, write_vec3, write_vec3s,
    Vec3,
};
use crate::rigid::{
    read_rigid_bodies, spec_enc_rigid_bodies, spec_read_rigid_bodies, write_rigid_bodies, RigidBody,
};
use crate::wire::{
    decoded_as, lemma_deep_view_empty, lemma_deep_view_push, read_str, read_u16, read_u32,
    spec_enc_str, spec_read_str, spec_read_u32, spec_u16_at, spec_u32_at, write_str, write_u16,
    write_u32,
};

// ---------------------------------------------------------------------------
// MarkerSet: a named group of 3D marker positions.
// Wire form: name (zero-terminated UTF-8), u32 marker count, then that
// many raw 3D positions.
// ---------------------------------------------------------------------------

/// A named group of 3D marker positions. The declared `marker_count` is
/// carried separately from the collection and wins on encode.
#[derive(Debug, Clone, PartialEq)]
pub struct MarkerSet {
    pub name: String,
    pub marker_count: u32,
    pub positions: Vec<Vec3>,
}

pub ghost struct MarkerSetView {
    pub name: Seq<char>,
    pub marker_count: u32,
    pub positions: Seq<Vec3>,
}

impl DeepView for MarkerSet {
    type V = MarkerSetView;

    open spec fn deep_view(&self) -> MarkerSetView {
        MarkerSetView {
            name: self.name@,
            marker_count: self.marker_count,
            positions: self.positions.deep_view(),
        }
    }
}

impl MarkerSet {
    /// An empty marker set with the given name and declared count.
    pub fn new(name: &str, marker_count: u32) -> (r: Self)
        ensures
            r.name@ == name@,
            r.marker_count == marker_count,
            r.positions@.len() == 0,
    {
        Self { name: name.to_owned(), marker_count, positions: Vec::new() }
    }
}

pub open spec fn spec_read_marker_set(b: Seq<u8>, pos: int) -> Result<
    (MarkerSetView, int),
    DecodeError,
> {
    match spec_read_str(b, pos) {
        Ok((name, p1)) => match spec_read_u32(b, p1) {
            Ok((n, p2)) => match spec_read_vec3s(b, p2, n as nat) {
                Ok((ps, p3)) => Ok((MarkerSetView { name, marker_count: n, positions: ps }, p3)),
                Err(e) => Err(e),
            },
            Err(e) => Err(e),
        },
        Err(e) => Err(e),
    }
}

/// The declared marker count is written, whatever the position list's
/// actual length; the positions written are the list's.
pub open spec fn spec_enc_marker_set(m: MarkerSetView) -> Seq<u8> {
    spec_enc_str(m.name) + spec_u32_to_le_bytes(m.marker_count) + spec_enc_vec3s(m.positions)
}

pub(crate) fn read_marker_set(src: &Vec<u8>, pos: usize) -> (r: Result<
    (MarkerSet, usize),
    DecodeError,
>)
    ensures
        decoded_as(r, spec_read_marker_set(src@, pos as int)),
{
    let (name, p1) = match read_str(src, pos) {
        Ok(v) => v,
        Err(e) => { return Err(e) },
    };
    let (n, p2) = match read_u32(src, p1) {
        Ok(v) => v,
        Err(e) => { return Err(e) },
    };
    let (ps, p3) = match read_vec3s(src, p2, n) {
        Ok(v) => v,
        Err(e) => { return Err(e) },
    };
    Ok((MarkerSet { name, marker_count: n, positions: ps }, p3))
}

pub(crate) fn write_marker_set(dst: &mut Vec<u8>, m: &MarkerSet)
    ensures
        final(dst)@ == old(dst)@ + spec_enc_marker_set(m.deep_view()),
{
    write_str(dst, &m.name);
    write_u32(dst, m.marker_count);
    write_vec3s(dst, &m.positions);
    assert(final(dst)@ =~= old(dst)@ + spec_enc_marker_set(m.deep_view()));
}

pub open spec fn spec_read_marker_sets(b: Seq<u8>, pos: int, n: nat) -> Result<
    (Seq<MarkerSetView>, int),
    DecodeError,
>
    decreases n,
{
    if n == 0 {
        Ok((Seq::empty(), pos))
    } else {
        match spec_read_marker_set(b, pos) {
            Ok((v, p)) => match spec_read_marker_sets(b, p, (n - 1) as nat) {
                Ok((vs, p2)) => Ok((seq![v] + vs, p2)),
                Err(e) => Err(e),
            },
            Err(e) => Err(e),
        }
    }
}

pub open spec fn spec_enc_marker_sets_from(items: Seq<MarkerSetView>, i: int) -> Seq<u8>
    decreases items.len() - i,
{
    if i < 0 || i >= items.len() {
        Seq::empty()
    } else {
        spec_enc_marker_set(items[i]) + spec_enc_marker_sets_from(items, i + 1)
    }
}

pub open spec fn spec_enc_marker_sets(items: Seq<MarkerSetView>) -> Seq<u8> {
    spec_enc_marker_sets_from(items, 0)
}

pub(crate) fn read_marker_sets(src: &Vec<u8>, pos: usize, n: u32) -> (r: Result<
    (Vec<MarkerSet>, usize),
    DecodeError,
>)
    ensures
        decoded_as(r, spec_read_marker_sets(src@, pos as int, n as nat)),
{
    let mut acc: Vec<MarkerSet> = Vec::new();
    let mut cur: usize = pos;
    let mut i: u32 = 0;
    proof {
        lemma_deep_view_empty(acc);
        match spec_read_marker_sets(src@, pos as int, n as nat) {
            Ok((vs, p)) => {
                assert(Seq::<MarkerSetView>::empty() + vs =~= vs);
            },
            Err(_) => {},
        }
    }
    while i < n
        invariant
            i <= n,
            spec_read_marker_sets(src@, pos as int, n as nat) == (match spec_read_marker_sets(
                src@,
                cur as int,
                (n - i) as nat,
            ) {
                Ok((vs, p)) => Ok::<(Seq<MarkerSetView>, int), DecodeError>(
                    (acc.deep_view() + vs, p),
                ),
                Err(e) => Err::<(Seq<MarkerSetView>, int), DecodeError>(e),
            }),
        decreases n - i,
    {
        let (v, p) = match read_marker_set(src, cur) {
            Ok(t) => t,
            Err(e) => { return Err(e) },
        };
        proof {
            match spec_read_marker_sets(src@, p as int, (n - i - 1) as nat) {
                Ok((vs2, p3)) => {
                    assert((acc.deep_view() + (seq![v.deep_view()] + vs2)) =~= (
                    acc.deep_view().push(v.deep_view()) + vs2));
                },
                Err(_) => {},
            }
        }
        let ghost before = acc;
        acc.push(v);
        proof {
            lemma_deep_view_push(before, acc, v);
        }
        cur = p;
        i = i + 1;
    }
    proof {
        assert(acc.deep_view() + Seq::<MarkerSetView>::empty() =~= acc.deep_view());
    }
    Ok((acc, cur))
}

pub(crate) fn write_marker_sets(dst: &mut Vec<u8>, items: &Vec<MarkerSet>)
    ensures
        final(dst)@ == old(dst)@ + spec_enc_marker_sets(items.deep_view()),
{
    let ghost vs = items.deep_view();
    let mut k: usize = 0;
    while k < items.len()
        invariant
            k <= items@.len(),
            vs == items.deep_view(),
            vs.len() == items@.len(),
            dst@ + spec_enc_marker_sets_from(vs, k as int) == old(dst)@ + spec_enc_marker_sets_from(
                vs,
                0,
            ),
        decreases items@.len() - k,
    {
        let ghost pre = dst@;
        write_marker_set(dst, &items[k]);
        proof {
            assert(vs[k as int] == items@[k as int].deep_view());
            assert((pre + spec_enc_marker_set(vs[k as int]) + spec_enc_marker_sets_from(
                vs,
                k as int + 1,
            )) =~= (pre + spec_enc_marker_sets_from(vs, k as int)));
        }
        k = k + 1;
    }
    assert(spec_enc_marker_sets_from(vs, items@.len() as int) =~= Seq::<u8>::empty());
    assert(final(dst)@ =~= final(dst)@ + Seq::<u8>::empty());
}

/// Codec for a marker set.
#[derive(Debug, Default)]
pub struct MarkerSetCodec;

impl MarkerSetCodec {
    pub fn decode(&self, src: &Vec<u8>, pos: usize) -> (r: Result<(MarkerSet, usize), DecodeError>)
        ensures
            decoded_as(r, spec_read_marker_set(src@, pos as int)),
    {
        read_marker_set(src, pos)
    }

    pub fn encode(&self, item: &MarkerSet, dst: &mut Vec<u8>)
        ensures
            final(dst)@ == old(dst)@ + spec_enc_marker_set(item.deep_view()),
    {
        write_marker_set(dst, item);
    }
}

// ---------------------------------------------------------------------------
// LabeledMarker: a tracked marker with solve status.
// Wire form: u32 id, 3 x f32 position, f32 size, u16 status, f32 residual.
// ---------------------------------------------------------------------------

/// How a labeled marker was solved. Decoded from a bit value; anything
/// unrecognized maps to `Unrecognized`, never to a failure.
#[derive(Debug, Clone, Copy, PartialEq, Eq, Structural)]
pub enum LabeledMarkerStatus {
    Occluded,
    PointCloudSolved,
    ModelSolved,
    Unrecognized,
}

/// The status named by a wire bit value.
pub open spec fn spec_status_of(v: u16) -> LabeledMarkerStatus {
    if v == 1 {
        LabeledMarkerStatus::Occluded
    } else if v == 2 {
        LabeledMarkerStatus::PointCloudSolved
    } else if v == 4 {
        LabeledMarkerStatus::ModelSolved
    } else {
        LabeledMarkerStatus::Unrecognized
    }
}

/// The wire bit value of a status; `Unrecognized` is written as zero.
pub open spec fn spec_status_code(s: LabeledMarkerStatus) -> u16 {
    match s {
        LabeledMarkerStatus::Occluded => 1,
        LabeledMarkerStatus::PointCloudSolved => 2,
        LabeledMarkerStatus::ModelSolved => 4,
        LabeledMarkerStatus::Unrecognized => 0,
    }
}

/// A tracked marker with a persistent identity.
#[derive(Debug, Clone, Copy, PartialEq, Eq, Structural)]
pub struct LabeledMarker {
    pub id: u32,
    pub pos: Vec3,
    /// Bit pattern of the single-precision marker size.
    pub size: u32,
    pub status: LabeledMarkerStatus,
    /// Bit pattern of the single-precision solve residual.
    pub residual: u32,
}

impl DeepView for LabeledMarker {
    type V = LabeledMarker;

    open spec fn deep_view(&self) -> LabeledMarker {
        *self
    }
}

pub open spec fn spec_read_labeled_marker(b: Seq<u8>, pos: int) -> Result<
    (LabeledMarker, int),
    DecodeError,
> {
    if 0 <= pos && pos + 26 <= b.len() {
        Ok(
            (
                LabeledMarker {
                    id: spec_u32_at(b, pos),
                    pos: Vec3 {
                        x: spec_u32_at(b, pos + 4),
                        y: spec_u32_at(b, pos + 8),
                        z: spec_u32_at(b, pos + 12),
                    },
                    size: spec_u32_at(b, pos + 16),
                    status: spec_status_of(spec_u16_at(b, pos + 20)),
                    residual: spec_u32_at(b, pos + 22),
                },
                pos + 26,
            ),
        )
    } else {
        Err(DecodeError::Underflow)
    }
}

pub open spec fn spec_enc_labeled_marker(m: LabeledMarker) -> Seq<u8> {
    spec_u32_to_le_bytes(m.id) + spec_enc_vec3(m.pos) + spec_u32_to_le_bytes(m.size)
        + spec_u16_to_le_bytes(spec_status_code(m.status)) + spec_u32_to_le_bytes(m.residual)
}

pub(crate) fn read_labeled_marker(src: &Vec<u8>, pos: usize) -> (r: Result<
    (LabeledMarker, usize),
    DecodeError,
>)
    ensures
        decoded_as(r, spec_read_labeled_marker(src@, pos as int)),
{
    if !(pos < src.len() && src.len() - pos >= 26) {
        return Err(DecodeError::Underflow);
    }
    let (id, p1) = match read_u32(src, pos) {
        Ok(v) => v,
        Err(e) => { return Err(e) },
    };
    let (position, p2) = match read_vec3(src, p1) {
        Ok(v) => v,
        Err(e) => { return Err(e) },
    };
    let (size, p3) = match read_u32(src, p2) {
        Ok(v) => v,
        Err(e) => { return Err(e) },
    };
    let (status_bits, p4) = match read_u16(src, p3) {
        Ok(v) => v,
        Err(e) => { return Err(e) },
    };
    let (residual, p5) = match read_u32(src, p4) {
        Ok(v) => v,
        Err(e) => { return Err(e) },
    };
    let status = if status_bits == 1 {
        LabeledMarkerStatus::Occluded
    } else if status_bits == 2 {
        LabeledMarkerStatus::PointCloudSolved
    } else if status_bits == 4 {
        LabeledMarkerStatus::ModelSolved
    } else {
        LabeledMarkerStatus::Unrecognized
    };
    Ok((LabeledMarker { id, pos: position, size, status, residual }, p5))
}

pub(crate) fn write_labeled_marker(dst: &mut Vec<u8>, m: &LabeledMarker)
    ensures
        final(dst)@ == old(dst)@ + spec_enc_labeled_marker(*m),
{
    write_u32(dst, m.id);
    write_vec3(dst, &m.pos);
    write_u32(dst, m.size);
    let code: u16 = match m.status {
        LabeledMarkerStatus::Occluded => 1,
        LabeledMarkerStatus::PointCloudSolved => 2,
        LabeledMarkerStatus::ModelSolved => 4,
        LabeledMarkerStatus::Unrecognized => 0,
    };
    write_u16(dst, code);
    write_u32(dst, m.residual);
    assert(final(dst)@ =~= old(dst)@ + spec_enc_labeled_marker(*m));
}

pub open spec fn spec_read_labeled_markers(b: Seq<u8>, pos: int, n: nat) -> Result<
    (Seq<LabeledMarker>, int),
    DecodeError,
>
    decreases n,
{
    if n == 0 {
        Ok((Seq::empty(), pos))
    } else {
        match spec_read_labeled_marker(b, pos) {
            Ok((v, p)) => match spec_read_labeled_markers(b, p, (n - 1) as nat) {
                Ok((vs, p2)) => Ok((seq![v] + vs, p2)),
                Err(e) => Err(e),
            },
            Err(e) => Err(e),
        }
    }
}

pub open spec fn spec_enc_labeled_markers_from(items: Seq<LabeledMarker>, i: int) -> Seq<u8>
    decreases items.len() - i,
{
    if i < 0 || i >= items.len() {
        Seq::empty()
    } else {
        spec_enc_labeled_marker(items[i]) + spec_enc_labeled_markers_from(items, i + 1)
    }
}

pub open spec fn spec_enc_labeled_markers(items: Seq<LabeledMarker>) -> Seq<u8> {
    spec_enc_labeled_markers_from(items, 0)
}

pub(crate) fn read_labeled_markers(src: &Vec<u8>, pos: usize, n: u32) -> (r: Result<
    (Vec<LabeledMarker>, usize),
    DecodeError,
>)
    ensures
        decoded_as(r, spec_read_labeled_markers(src@, pos as int, n as nat)),
{
    let mut acc: Vec<LabeledMarker> = Vec::new();
    let mut cur: usize = pos;
    let mut i: u32 = 0;
    proof {
        lemma_deep_view_empty(acc);
        match spec_read_labeled_markers(src@, pos as int, n as nat) {
            Ok((vs, p)) => {
                assert(Seq::<LabeledMarker>::empty() + vs =~= vs);
            },
            Err(_) => {},
        }
    }
    while i < n
        invariant
            i <= n,
            spec_read_labeled_markers(src@, pos as int, n as nat) == (match
                spec_read_labeled_markers(src@, cur as int, (n - i) as nat) {
                Ok((vs, p)) => Ok::<(Seq<LabeledMarker>, int), DecodeError>(
                    (acc.deep_view() + vs, p),
                ),
                Err(e) => Err::<(Seq<LabeledMarker>, int), DecodeError>(e),
            }),
        decreases n - i,
    {
        let (v, p) = match read_labeled_marker(src, cur) {
            Ok(t) => t,
            Err(e) => { return Err(e) },
        };
        proof {
            match spec_read_labeled_markers(src@, p as int, (n - i - 1) as nat) {
                Ok((vs2, p3)) => {
                    assert((acc.deep_view() + (seq![v.deep_view()] + vs2)) =~= (
                    acc.deep_view().push(v.deep_view()) + vs2));
                },
                Err(_) => {},
            }
        }
        let ghost before = acc;
        acc.push(v);
        proof {
            lemma_deep_view_push(before, acc, v);
        }
        cur = p;
        i = i + 1;
    }
    proof {
        assert(acc.deep_view() + Seq::<LabeledMarker>::empty() =~= acc.deep_view());
    }
    Ok((acc, cur))
}

pub(crate) fn write_labeled_markers(dst: &mut Vec<u8>, items: &Vec<LabeledMarker>)
    ensures
        final(dst)@ == old(dst)@ + spec_enc_labeled_markers(items.deep_view()),
{
    let ghost vs = items.deep_view();
    let mut k: usize = 0;
    while k < items.len()
        invariant
            k <= items@.len(),
            vs == items.deep_view(),
            vs.len() == items@.len(),
            dst@ + spec_enc_labeled_markers_from(vs, k as int) == old(dst)@
                + spec_enc_labeled_markers_from(vs, 0),
        decreases items@.len() - k,
    {
        let ghost pre = dst@;
        write_labeled_marker(dst, &items[k]);
        proof {
            assert(vs[k as int] == items@[k as int].deep_view());
            assert((pre + spec_enc_labeled_marker(vs[k as int]) + spec_enc_labeled_markers_from(
                vs,
                k as int + 1,
            )) =~= (pre + spec_enc_labeled_markers_from(vs, k as int)));
        }
        k = k + 1;
    }
    assert(spec_enc_labeled_markers_from(vs, items@.len() as int) =~= Seq::<u8>::empty());
    assert(final(dst)@ =~= final(dst)@ + Seq::<u8>::empty());
}

/// Codec for a labeled marker.
#[derive(Debug, Default)]
pub struct LabeledMarkerCodec;

impl LabeledMarkerCodec {
    pub fn decode(&self, src: &Vec<u8>, pos: usize) -> (r: Result<
        (LabeledMarker, usize),
        DecodeError,
    >)
        ensures
            decoded_as(r, spec_read_labeled_marker(src@, pos as int)),
    {
        read_labeled_marker(src, pos)
    }

    pub fn encode(&self, item: &LabeledMarker, dst: &mut Vec<u8>)
        ensures
            final(dst)@ == old(dst)@ + spec_enc_labeled_marker(*item),
    {
        write_labeled_marker(dst, item);
    }
}

// ---------------------------------------------------------------------------
// MarkerAsset: rigid-body templates plus raw marker positions.
// Wire form: u32 id, u32 rigid-body count, that many rigid bodies,
// u32 marker count, that many raw 3D positions.
// ---------------------------------------------------------------------------

/// A marker asset: a group of rigid bodies and raw marker positions under
/// one id. Declared counts are carried separately and win on encode.
#[derive(Debug, Clone, PartialEq, Default)]
pub struct MarkerAsset {
    pub id: u32,
    pub rigid_body_count: u32,
    pub rigid_bodies: Vec<RigidBody>,
    pub marker_count: u32,
    pub marker_positions: Vec<Vec3>,
}

pub ghost struct MarkerAssetView {
    pub id: u32,
    pub rigid_body_count: u32,
    pub rigid_bodies: Seq<RigidBody>,
    pub marker_count: u32,
    pub marker_positions: Seq<Vec3>,
}

impl DeepView for MarkerAsset {
    type V = MarkerAssetView;

    open spec fn deep_view(&self) -> MarkerAssetView {
        MarkerAssetView {
            id: self.id,
            rigid_body_count: self.rigid_body_count,
            rigid_bodies: self.rigid_bodies.deep_view(),
            marker_count: self.marker_count,
            marker_positions: self.marker_positions.deep_view(),
        }
    }
}

pub open spec fn spec_read_marker_asset(b: Seq<u8>, pos: int) -> Result<
    (MarkerAssetView, int),
    DecodeError,
> {
    match spec_read_u32(b, pos) {
        Ok((id, p1)) => match spec_read_u32(b, p1) {
            Ok((rbn, p2)) => match spec_read_rigid_bodies(b, p2, rbn as nat) {
                Ok((rbs, p3)) => match spec_read_u32(b, p3) {
                    Ok((mn, p4)) => match spec_read_vec3s(b, p4, mn as nat) {
                        Ok((ps, p5)) => Ok(
                            (
                                MarkerAssetView {
                                    id,
                                    rigid_body_count: rbn,
                                    rigid_bodies: rbs,
                                    marker_count: mn,
                                    marker_positions: ps,
                                },
                                p5,
                            ),
                        ),
                        Err(e) => Err(e),
                    },
                    Err(e) => Err(e),
                },
                Err(e) => Err(e),
            },
            Err(e) => Err(e),
        },
        Err(e) => Err(e),
    }
}

/// The declared counts are written, whatever the collections' actual
/// lengths; the entries written are the collections'.
pub open spec fn spec_enc_marker_asset(m: MarkerAssetView) -> Seq<u8> {
    spec_u32_to_le_bytes(m.id) + spec_u32_to_le_bytes(m.rigid_body_count) + spec_enc_rigid_bodies(
        m.rigid_bodies,
    ) + spec_u32_to_le_bytes(m.marker_count) + spec_enc_vec3s(m.marker_positions)
}

pub(crate) fn read_marker_asset(src: &Vec<u8>, pos: usize) -> (r: Result<
    (MarkerAsset, usize),
    DecodeError,
>)
    ensures
        decoded_as(r, spec_read_marker_asset(src@, pos as int)),
{
    let (id, p1) = match read_u32(src, pos) {
        Ok(v) => v,
        Err(e) => { return Err(e) },
    };
    let (rbn, p2) = match read_u32(src, p1) {
        Ok(v) => v,
        Err(e) => { return Err(e) },
    };
    let (rbs, p3) = match read_rigid_bodies(src, p2, rbn) {
        Ok(v) => v,
        Err(e) => { return Err(e) },
    };
    let (mn, p4) = match read_u32(src, p3) {
        Ok(v) => v,
        Err(e) => { return Err(e) },
    };
    let (ps, p5) = match read_vec3s(src, p4, mn) {
        Ok(v) => v,
        Err(e) => { return Err(e) },
    };
    Ok(
        (
            MarkerAsset {
                id,
                rigid_body_count: rbn,
                rigid_bodies: rbs,
                marker_count: mn,
                marker_positions: ps,
            },
            p5,
        ),
    )
}

pub(crate) fn write_marker_asset(dst: &mut Vec<u8>, m: &MarkerAsset)
    ensures
        final(dst)@ == old(dst)@ + spec_enc_marker_asset(m.deep_view()),
{
    write_u32(dst, m.id);
    write_u32(dst, m.rigid_body_count);
    write_rigid_bodies(dst, &m.rigid_bodies);
    write_u32(dst, m.marker_count);
    write_vec3s(dst, &m.marker_positions);
    assert(final(dst)@ =~= old(dst)@ + spec_enc_marker_asset(m.deep_view()));
}

/// Codec for a marker asset.
#[derive(Debug, Default)]
pub struct MarkerAssetCodec;

impl MarkerAssetCodec {
    pub fn decode(&self, src: &Vec<u8>, pos: usize) -> (r: Result<(MarkerAsset, usize), DecodeError>)
        ensures
            decoded_as(r, spec_read_marker_asset(src@, pos as int)),
    {
        read_marker_asset(src, pos)
    }

    pub fn encode(&self, item: &MarkerAsset, dst: &mut Vec<u8>)
        ensures
            final(dst)@ == old(dst)@ + spec_enc_marker_asset(item.deep_view()),
    {
        write_marker_asset(dst, item);
    }
}

} // verus!
