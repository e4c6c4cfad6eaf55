//! Protocol-level laws, stated and proved over the byte-level
//! specifications of the codecs.

use vstd::bytes::{
    lemma_auto_spec_u16_to_from_le_bytes, lemma_auto_spec_u32_to_from_le_bytes,
    spec_u32_to_le_bytes,
};
use vstd::prelude::*;

verus! {

use crate::channel::{
    spec_read_device, spec_read_device_channel, spec_read_force_plate,
    spec_read_force_plate_channel, DeviceChannelView, DeviceView, ForcePlateChannelView,
    ForcePlateView,
};
use crate::desc::{spec_read_marker_set_desc, spec_read_model_def, spec_read_rigid_body_desc};
use crate::error::DecodeError;
use crate::geom::{spec_normalize, spec_read_quat, spec_read_vec3, Quat};
use crate::markers::{spec_enc_marker_set, spec_read_marker_set, MarkerSetView};
use crate::rigid::{
    spec_enc_rigid_body, spec_read_asset, spec_read_rigid_body, spec_read_skeleton, AssetView,
    RigidBody, SkeletonView,
};
use crate::wire::{
    decoded_as, spec_enc_str, spec_i32_at, spec_read_str, spec_read_u32, spec_u16_at, spec_u32_at,
};

// ---------------------------------------------------------------------------
// Round trip of a rigid body
// ---------------------------------------------------------------------------

/// Round trip: decoding an encoded rigid body yields every field back
/// bit-identically except the rotation, which comes back as the normalized
/// form of the encoded rotation. Trailing bytes do not disturb the decode.
pub proof fn lemma_rigid_body_round_trip(rb: RigidBody, rest: Seq<u8>)
    ensures
        spec_read_rigid_body(spec_enc_rigid_body(rb) + rest, 0) == Ok::<
            (RigidBody, int),
            DecodeError,
        >((RigidBody { rot: spec_normalize(rb.rot), ..rb }, 38)),
{
    lemma_auto_spec_u32_to_from_le_bytes();
    lemma_auto_spec_u16_to_from_le_bytes();
    let b = spec_enc_rigid_body(rb) + rest;
    let flag: u16 = if rb.is_tracking_valid {
        1u16
    } else {
        0u16
    };
    assert(b.subrange(0, 4) =~= spec_u32_to_le_bytes(rb.id));
    assert(b.subrange(4, 8) =~= spec_u32_to_le_bytes(rb.pos.x));
    assert(b.subrange(8, 12) =~= spec_u32_to_le_bytes(rb.pos.y));
    assert(b.subrange(12, 16) =~= spec_u32_to_le_bytes(rb.pos.z));
    assert(b.subrange(16, 20) =~= spec_u32_to_le_bytes(rb.rot.x));
    assert(b.subrange(20, 24) =~= spec_u32_to_le_bytes(rb.rot.y));
    assert(b.subrange(24, 28) =~= spec_u32_to_le_bytes(rb.rot.z));
    assert(b.subrange(28, 32) =~= spec_u32_to_le_bytes(rb.rot.w));
    assert(b.subrange(32, 36) =~= spec_u32_to_le_bytes(rb.mean_marker_err));
    assert(b.subrange(36, 38) =~= vstd::bytes::spec_u16_to_le_bytes(flag));
    assert(spec_u16_at(b, 36) == flag);
    assert(1u16 & 1 != 0) by (bit_vector);
    assert(0u16 & 1 == 0) by (bit_vector);
    assert((spec_u16_at(b, 36) & 1 != 0) == rb.is_tracking_valid);
}

// ---------------------------------------------------------------------------
// Idempotence of rotation normalization on decode
// ---------------------------------------------------------------------------

/// Decoding a rotation twice from the same bytes yields the same
/// normalized value: the decoder's contract pins the result, so any two
/// results it allows on the same input are equal.
pub proof fn lemma_quat_decode_deterministic(
    b: Seq<u8>,
    pos: int,
    r1: Result<(Quat, usize), DecodeError>,
    r2: Result<(Quat, usize), DecodeError>,
)
    requires
        decoded_as(r1, spec_read_quat(b, pos)),
        decoded_as(r2, spec_read_quat(b, pos)),
    ensures
        r1 == r2,
{
}

// ---------------------------------------------------------------------------
// Declared-count-wins encode policy
// ---------------------------------------------------------------------------

/// Mismatch policy: the four bytes after the name terminator of an encoded
/// marker set are the declared marker count, whatever the length of the
/// position list. (Encoding is total: the encoder has no failure case.)
pub proof fn lemma_marker_set_declared_count_wins(m: MarkerSetView)
    ensures
        spec_enc_marker_set(m).subrange(
            spec_enc_str(m.name).len() as int,
            spec_enc_str(m.name).len() as int + 4,
        ) == spec_u32_to_le_bytes(m.marker_count),
{
    lemma_auto_spec_u32_to_from_le_bytes();
    assert(spec_enc_marker_set(m).subrange(
        spec_enc_str(m.name).len() as int,
        spec_enc_str(m.name).len() as int + 4,
    ) =~= spec_u32_to_le_bytes(m.marker_count));
}

// ---------------------------------------------------------------------------
// A declared element count of zero decodes to an empty collection, not an
// error, for every counted entity type.
// ---------------------------------------------------------------------------

/// A marker set whose count field is zero decodes to an empty position
/// list, whatever follows it.
pub proof fn lemma_marker_set_zero_count(b: Seq<u8>, pos: int)
    requires
        spec_read_str(b, pos) matches Ok((name, p1)) && p1 + 4 <= b.len() && spec_u32_at(b, p1)
            == 0,
    ensures
        spec_read_marker_set(b, pos) matches Ok((m, p2)) && m.positions.len() == 0 && m.marker_count
            == 0,
{
    crate::wire::lemma_read_str_pos(b, pos);
}

/// A skeleton whose rigid-body count is zero decodes to an empty
/// collection after its 8-byte header.
pub proof fn lemma_skeleton_zero_count(b: Seq<u8>, pos: int)
    requires
        0 <= pos,
        pos + 8 <= b.len(),
        spec_u32_at(b, pos + 4) == 0,
    ensures
        spec_read_skeleton(b, pos) == Ok::<(SkeletonView, int), DecodeError>(
            (
                SkeletonView {
                    id: spec_u32_at(b, pos),
                    rigid_body_count: 0,
                    rigid_bodies: Seq::empty(),
                },
                pos + 8,
            ),
        ),
{
}

/// An asset whose rigid-body count is zero decodes to an empty collection
/// after its 8-byte header.
pub proof fn lemma_asset_zero_count(b: Seq<u8>, pos: int)
    requires
        0 <= pos,
        pos + 8 <= b.len(),
        spec_u32_at(b, pos + 4) == 0,
    ensures
        spec_read_asset(b, pos) == Ok::<(AssetView, int), DecodeError>(
            (
                AssetView { id: spec_u32_at(b, pos), rigid_body_count: 0, rigid_bodies: Seq::empty() },
                pos + 8,
            ),
        ),
{
}

/// A force plate whose channel count is zero decodes to an empty channel
/// collection after its 8-byte header.
pub proof fn lemma_force_plate_zero_count(b: Seq<u8>, pos: int)
    requires
        0 <= pos,
        pos + 8 <= b.len(),
        spec_u32_at(b, pos + 4) == 0,
    ensures
        spec_read_force_plate(b, pos) == Ok::<(ForcePlateView, int), DecodeError>(
            (
                ForcePlateView {
                    id: spec_u32_at(b, pos),
                    channel_count: 0,
                    channels: Seq::empty(),
                },
                pos + 8,
            ),
        ),
{
}

/// A device whose channel count is zero decodes to an empty channel
/// collection after its 8-byte header.
pub proof fn lemma_device_zero_count(b: Seq<u8>, pos: int)
    requires
        0 <= pos,
        pos + 8 <= b.len(),
        spec_u32_at(b, pos + 4) == 0,
    ensures
        spec_read_device(b, pos) == Ok::<(DeviceView, int), DecodeError>(
            (
                DeviceView { id: spec_u32_at(b, pos), channel_count: 0, channels: Seq::empty() },
                pos + 8,
            ),
        ),
{
}

/// A force-plate channel whose value count is zero decodes to an empty
/// sample run after its 4-byte count: exactly 4 bytes suffice.
pub proof fn lemma_force_plate_channel_zero_count(b: Seq<u8>, pos: int)
    requires
        0 <= pos,
        pos + 4 <= b.len(),
        spec_u32_at(b, pos) == 0,
    ensures
        spec_read_force_plate_channel(b, pos) == Ok::<(ForcePlateChannelView, int), DecodeError>(
            (ForcePlateChannelView { value_count: 0, values: Seq::empty() }, pos + 4),
        ),
{
}

/// A device channel whose value count is zero decodes to an empty sample
/// run after its 4-byte count: exactly 4 bytes suffice.
pub proof fn lemma_device_channel_zero_count(b: Seq<u8>, pos: int)
    requires
        0 <= pos,
        pos + 4 <= b.len(),
        spec_u32_at(b, pos) == 0,
    ensures
        spec_read_device_channel(b, pos) == Ok::<(DeviceChannelView, int), DecodeError>(
            (DeviceChannelView { value_count: 0, values: Seq::empty() }, pos + 4),
        ),
{
}

/// A marker asset with zero rigid bodies and zero markers decodes to two
/// empty collections after its 12 bytes of id and counts.
pub proof fn lemma_marker_asset_zero_counts(b: Seq<u8>, pos: int)
    requires
        0 <= pos,
        pos + 12 <= b.len(),
        spec_u32_at(b, pos + 4) == 0,
        spec_u32_at(b, pos + 8) == 0,
    ensures
        crate::markers::spec_read_marker_asset(b, pos) matches Ok((m, p)) && p == pos + 12
            && m.rigid_bodies.len() == 0 && m.marker_positions.len() == 0,
{
}

/// A marker-set descriptor whose count field is zero or negative decodes
/// to an empty name list, whatever follows it.
pub proof fn lemma_marker_set_desc_zero_count(b: Seq<u8>, pos: int)
    requires
        spec_read_str(b, pos) matches Ok((name, p1)) && p1 + 4 <= b.len() && spec_i32_at(b, p1)
            <= 0,
    ensures
        spec_read_marker_set_desc(b, pos) matches Ok((m, p2)) && m.marker_names.len() == 0,
{
    crate::wire::lemma_read_str_pos(b, pos);
}

/// A rigid-body descriptor whose marker count is zero or negative decodes
/// to three empty runs right after its fixed fields.
pub proof fn lemma_rigid_body_desc_zero_count(b: Seq<u8>, pos: int)
    requires
        spec_read_str(b, pos) matches Ok((name, p1)) && p1 + 24 <= b.len() && spec_i32_at(
            b,
            p1 + 20,
        ) <= 0,
    ensures
        spec_read_rigid_body_desc(b, pos) matches Ok((d, p2)) && p2 == spec_read_str(
            b,
            pos,
        )->Ok_0.1 + 24 && d.marker_offsets.len() == 0 && d.marker_active_labels.len() == 0
            && d.marker_names.len() == 0,
{
    crate::wire::lemma_read_str_pos(b, pos);
    let p1 = spec_read_str(b, pos)->Ok_0.1;
    assert(spec_read_u32(b, p1) is Ok);
    assert(spec_read_u32(b, p1 + 4) is Ok);
    assert(spec_read_vec3(b, p1 + 8) is Ok) by {
        assert(p1 + 8 + 12 <= b.len());
    }
}

/// A model-definition catalog whose dataset count is zero decodes to an
/// empty dataset after its 6-byte header.
pub proof fn lemma_model_def_zero_count(b: Seq<u8>, pos: int)
    requires
        0 <= pos,
        pos + 6 <= b.len(),
        spec_u32_at(b, pos + 2) == 0,
    ensures
        spec_read_model_def(b, pos) matches Ok((m, p)) && p == pos + 6 && m.dataset.len() == 0
            && m.dataset_count == 0,
{
}

} // verus!
