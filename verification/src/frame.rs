//! The FrameData aggregate: one telemetry snapshot, decoded as a fixed
//! sequence of counted sections followed by timecodes and an optional
//! timing tail.

use vstd::bytes::{spec_u16_to_le_bytes, spec_u32_to_le_bytes};
use vstd::prelude::*;

verus! {

use crate::channel::{
    read_devices, read_force_plates, spec_enc_devices, spec_enc_force_plates, spec_read_devices,
    spec_read_force_plates, write_devices, write_force_plates, Device, DeviceView, ForcePlate,
    ForcePlateView,
};
use crate::error::DecodeError;
use crate::geom::{read_vec3s, spec_enc_vec3s, spec_read_vec3s, write_vec3s, Vec3};
use crate::markers::{
    read_labeled_markers, read_marker_sets, spec_enc_labeled_markers, spec_enc_marker_sets,
    spec_read_labeled_markers, spec_read_marker_sets, write_labeled_markers, write_marker_sets,
    LabeledMarker, MarkerSet, MarkerSetView,
};
use crate::rigid::{
    read_assets, read_rigid_bodies, read_skeletons, spec_enc_rigid_bodies, spec_enc_skeletons,
    spec_read_assets, spec_read_rigid_bodies, spec_read_skeletons, write_rigid_bodies,
    write_skeletons, Asset, AssetView, RigidBody, Skeleton, SkeletonView,
};
use crate::stamps::{
    read_frame_params, read_stamps, spec_default_stamps, spec_enc_frame_params, spec_enc_stamps,
    write_frame_params,
    spec_read_frame_params, spec_read_stamps, FrameParameters, Stamps,
};
use crate::wire::{decoded_as, read_u16, read_u32, spec_read_u16, spec_read_u32};

/// One telemetry snapshot. Every `*_count` field is the count declared on
/// the wire, carried independently of its collection's actual length; the
/// `*_bytes` fields are the advisory section byte lengths the producer
/// declared, read but never used to bound decoding.
#[derive(Debug, Clone, PartialEq)]
pub struct FrameData {
    pub packet_size: u16,
    pub frame_number: u32,
    pub markerset_count: u32,
    pub markerset_bytes: u32,
    pub markersets: Vec<MarkerSet>,
    pub unlabeled_marker_count: u32,
    pub unlabeled_marker_bytes: u32,
    pub unlabeled_marker_positions: Vec<Vec3>,
    pub rigid_body_count: u32,
    pub rigid_body_bytes: u32,
    pub rigid_bodies: Vec<RigidBody>,
    pub skeleton_count: u32,
    pub skeleton_bytes: u32,
    pub skeletons: Vec<Skeleton>,
    pub labeled_marker_count: u32,
    pub labeled_marker_bytes: u32,
    pub labeled_marker_positions: Vec<LabeledMarker>,
    pub asset_count: u32,
    pub asset_bytes: u32,
    pub assets: Vec<Asset>,
    pub force_plate_count: u32,
    pub force_plate_bytes: u32,
    pub force_plates: Vec<ForcePlate>,
    pub device_count: u32,
    pub device_bytes: u32,
    pub devices: Vec<Device>,
    pub timecode: u32,
    pub timecode_sub: u32,
    pub stamps: Stamps,
    pub frame_parameters: FrameParameters,
}

pub ghost struct FrameDataView {
    pub packet_size: u16,
    pub frame_number: u32,
    pub markerset_count: u32,
    pub markerset_bytes: u32,
    pub markersets: Seq<MarkerSetView>,
    pub unlabeled_marker_count: u32,
    pub unlabeled_marker_bytes: u32,
    pub unlabeled_marker_positions: Seq<Vec3>,
    pub rigid_body_count: u32,
    pub rigid_body_bytes: u32,
    pub rigid_bodies: Seq<RigidBody>,
    pub skeleton_count: u32,
    pub skeleton_bytes: u32,
    pub skeletons: Seq<SkeletonView>,
    pub labeled_marker_count: u32,
    pub labeled_marker_bytes: u32,
    pub labeled_marker_positions: Seq<LabeledMarker>,
    pub asset_count: u32,
    pub asset_bytes: u32,
    pub assets: Seq<AssetView>,
    pub force_plate_count: u32,
    pub force_plate_bytes: u32,
    pub force_plates: Seq<ForcePlateView>,
    pub device_count: u32,
    pub device_bytes: u32,
    pub devices: Seq<DeviceView>,
    pub timecode: u32,
    pub timecode_sub: u32,
    pub stamps: Stamps,
    pub frame_parameters: FrameParameters,
}

impl DeepView for FrameData {
    type V = FrameDataView;

    open spec fn deep_view(&self) -> FrameDataView {
        FrameDataView {
            packet_size: self.packet_size,
            frame_number: self.frame_number,
            markerset_count: self.markerset_count,
            markerset_bytes: self.markerset_bytes,
            markersets: self.markersets.deep_view(),
            unlabeled_marker_count: self.unlabeled_marker_count,
            unlabeled_marker_bytes: self.unlabeled_marker_bytes,
            unlabeled_marker_positions: self.unlabeled_marker_positions.deep_view(),
            rigid_body_count: self.rigid_body_count,
            rigid_body_bytes: self.rigid_body_bytes,
            rigid_bodies: self.rigid_bodies.deep_view(),
            skeleton_count: self.skeleton_count,
            skeleton_bytes: self.skeleton_bytes,
            skeletons: self.skeletons.deep_view(),
            labeled_marker_count: self.labeled_marker_count,
            labeled_marker_bytes: self.labeled_marker_bytes,
            labeled_marker_positions: self.labeled_marker_positions.deep_view(),
            asset_count: self.asset_count,
            asset_bytes: self.asset_bytes,
            assets: self.assets.deep_view(),
            force_plate_count: self.force_plate_count,
            force_plate_bytes: self.force_plate_bytes,
            force_plates: self.force_plates.deep_view(),
            device_count: self.device_count,
            device_bytes: self.device_bytes,
            devices: self.devices.deep_view(),
            timecode: self.timecode,
            timecode_sub: self.timecode_sub,
            stamps: self.stamps,
            frame_parameters: self.frame_parameters,
        }
    }
}

// ---------------------------------------------------------------------------
// Counted sections: u32 declared count, u32 advisory byte length, then
// `count` entries. The advisory length is read and kept but never bounds
// the decode.
// ---------------------------------------------------------------------------


pub open spec fn spec_read_marker_set_section(b: Seq<u8>, pos: int) -> Result<
    ((u32, u32, Seq<MarkerSetView>), int),
    DecodeError,
> {
    match spec_read_u32(b, pos) {
        Ok((n, p1)) => match spec_read_u32(b, p1) {
            Ok((nb, p2)) => match spec_read_marker_sets(b, p2, n as nat) {
                Ok((vs, p3)) => Ok(((n, nb, vs), p3)),
                Err(e) => Err(e),
            },
            Err(e) => Err(e),
        },
        Err(e) => Err(e),
    }
}

fn read_marker_set_section(src: &Vec<u8>, pos: usize) -> (r: Result<
    ((u32, u32, Vec<MarkerSet>), usize),
    DecodeError,
>)
    ensures
        (match r {
            Ok(((n, nb, vs), p)) => spec_read_marker_set_section(src@, pos as int) == Ok::<
                ((u32, u32, Seq<MarkerSetView>), int),
                DecodeError,
            >(((n, nb, vs.deep_view()), p as int)),
            Err(e) => spec_read_marker_set_section(src@, pos as int) == Err::<
                ((u32, u32, Seq<MarkerSetView>), int),
                DecodeError,
            >(e),
        }),
{
    let (n, p1) = match read_u32(src, pos) {
        Ok(v) => v,
        Err(e) => { return Err(e) },
    };
    let (nb, p2) = match read_u32(src, p1) {
        Ok(v) => v,
        Err(e) => { return Err(e) },
    };
    let (vs, p3) = match read_marker_sets(src, p2, n) {
        Ok(v) => v,
        Err(e) => { return Err(e) },
    };
    Ok(((n, nb, vs), p3))
}

pub open spec fn spec_read_unlabeled_marker_section(b: Seq<u8>, pos: int) -> Result<
    ((u32, u32, Seq<Vec3>), int),
    DecodeError,
> {
    match spec_read_u32(b, pos) {
        Ok((n, p1)) => match spec_read_u32(b, p1) {
            Ok((nb, p2)) => match spec_read_vec3s(b, p2, n as nat) {
                Ok((vs, p3)) => Ok(((n, nb, vs), p3)),
                Err(e) => Err(e),
            },
            Err(e) => Err(e),
        },
        Err(e) => Err(e),
    }
}

fn read_unlabeled_marker_section(src: &Vec<u8>, pos: usize) -> (r: Result<
    ((u32, u32, Vec<Vec3>), usize),
    DecodeError,
>)
    ensures
        (match r {
            Ok(((n, nb, vs), p)) => spec_read_unlabeled_marker_section(src@, pos as int) == Ok::<
                ((u32, u32, Seq<Vec3>), int),
                DecodeError,
            >(((n, nb, vs.deep_view()), p as int)),
            Err(e) => spec_read_unlabeled_marker_section(src@, pos as int) == Err::<
                ((u32, u32, Seq<Vec3>), int),
                DecodeError,
            >(e),
        }),
{
    let (n, p1) = match read_u32(src, pos) {
        Ok(v) => v,
        Err(e) => { return Err(e) },
    };
    let (nb, p2) = match read_u32(src, p1) {
        Ok(v) => v,
        Err(e) => { return Err(e) },
    };
    let (vs, p3) = match read_vec3s(src, p2, n) {
        Ok(v) => v,
        Err(e) => { return Err(e) },
    };
    Ok(((n, nb, vs), p3))
}

pub open spec fn spec_read_rigid_body_section(b: Seq<u8>, pos: int) -> Result<
    ((u32, u32, Seq<RigidBody>), int),
    DecodeError,
> {
    match spec_read_u32(b, pos) {
        Ok((n, p1)) => match spec_read_u32(b, p1) {
            Ok((nb, p2)) => match spec_read_rigid_bodies(b, p2, n as nat) {
                Ok((vs, p3)) => Ok(((n, nb, vs), p3)),
                Err(e) => Err(e),
            },
            Err(e) => Err(e),
        },
        Err(e) => Err(e),
    }
}

fn read_rigid_body_section(src: &Vec<u8>, pos: usize) -> (r: Result<
    ((u32, u32, Vec<RigidBody>), usize),
    DecodeError,
>)
    ensures
        (match r {
            Ok(((n, nb, vs), p)) => spec_read_rigid_body_section(src@, pos as int) == Ok::<
                ((u32, u32, Seq<RigidBody>), int),
                DecodeError,
            >(((n, nb, vs.deep_view()), p as int)),
            Err(e) => spec_read_rigid_body_section(src@, pos as int) == Err::<
                ((u32, u32, Seq<RigidBody>), int),
                DecodeError,
            >(e),
        }),
{
    let (n, p1) = match read_u32(src, pos) {
        Ok(v) => v,
        Err(e) => { return Err(e) },
    };
    let (nb, p2) = match read_u32(src, p1) {
        Ok(v) => v,
        Err(e) => { return Err(e) },
    };
    let (vs, p3) = match read_rigid_bodies(src, p2, n) {
        Ok(v) => v,
        Err(e) => { return Err(e) },
    };
    Ok(((n, nb, vs), p3))
}

pub open spec fn spec_read_skeleton_section(b: Seq<u8>, pos: int) -> Result<
    ((u32, u32, Seq<SkeletonView>), int),
    DecodeError,
> {
    match spec_read_u32(b, pos) {
        Ok((n, p1)) => match spec_read_u32(b, p1) {
            Ok((nb, p2)) => match spec_read_skeletons(b, p2, n as nat) {
                Ok((vs, p3)) => Ok(((n, nb, vs), p3)),
                Err(e) => Err(e),
            },
            Err(e) => Err(e),
        },
        Err(e) => Err(e),
    }
}

fn read_skeleton_section(src: &Vec<u8>, pos: usize) -> (r: Result<
    ((u32, u32, Vec<Skeleton>), usize),
    DecodeError,
>)
    ensures
        (match r {
            Ok(((n, nb, vs), p)) => spec_read_skeleton_section(src@, pos as int) == Ok::<
                ((u32, u32, Seq<SkeletonView>), int),
                DecodeError,
            >(((n, nb, vs.deep_view()), p as int)),
            Err(e) => spec_read_skeleton_section(src@, pos as int) == Err::<
                ((u32, u32, Seq<SkeletonView>), int),
                DecodeError,
            >(e),
        }),
{
    let (n, p1) = match read_u32(src, pos) {
        Ok(v) => v,
        Err(e) => { return Err(e) },
    };
    let (nb, p2) = match read_u32(src, p1) {
        Ok(v) => v,
        Err(e) => { return Err(e) },
    };
    let (vs, p3) = match read_skeletons(src, p2, n) {
        Ok(v) => v,
        Err(e) => { return Err(e) },
    };
    Ok(((n, nb, vs), p3))
}

pub open spec fn spec_read_asset_section(b: Seq<u8>, pos: int) -> Result<
    ((u32, u32, Seq<AssetView>), int),
    DecodeError,
> {
    match spec_read_u32(b, pos) {
        Ok((n, p1)) => match spec_read_u32(b, p1) {
            Ok((nb, p2)) => match spec_read_assets(b, p2, n as nat) {
                Ok((vs, p3)) => Ok(((n, nb, vs), p3)),
                Err(e) => Err(e),
            },
            Err(e) => Err(e),
        },
        Err(e) => Err(e),
    }
}

fn read_asset_section(src: &Vec<u8>, pos: usize) -> (r: Result<
    ((u32, u32, Vec<Asset>), usize),
    DecodeError,
>)
    ensures
        (match r {
            Ok(((n, nb, vs), p)) => spec_read_asset_section(src@, pos as int) == Ok::<
                ((u32, u32, Seq<AssetView>), int),
                DecodeError,
            >(((n, nb, vs.deep_view()), p as int)),
            Err(e) => spec_read_asset_section(src@, pos as int) == Err::<
                ((u32, u32, Seq<AssetView>), int),
                DecodeError,
            >(e),
        }),
{
    let (n, p1) = match read_u32(src, pos) {
        Ok(v) => v,
        Err(e) => { return Err(e) },
    };
    let (nb, p2) = match read_u32(src, p1) {
        Ok(v) => v,
        Err(e) => { return Err(e) },
    };
    let (vs, p3) = match read_assets(src, p2, n) {
        Ok(v) => v,
        Err(e) => { return Err(e) },
    };
    Ok(((n, nb, vs), p3))
}

pub open spec fn spec_read_labeled_marker_section(b: Seq<u8>, pos: int) -> Result<
    ((u32, u32, Seq<LabeledMarker>), int),
    DecodeError,
> {
    match spec_read_u32(b, pos) {
        Ok((n, p1)) => match spec_read_u32(b, p1) {
            Ok((nb, p2)) => match spec_read_labeled_markers(b, p2, n as nat) {
                Ok((vs, p3)) => Ok(((n, nb, vs), p3)),
                Err(e) => Err(e),
            },
            Err(e) => Err(e),
        },
        Err(e) => Err(e),
    }
}

fn read_labeled_marker_section(src: &Vec<u8>, pos: usize) -> (r: Result<
    ((u32, u32, Vec<LabeledMarker>), usize),
    DecodeError,
>)
    ensures
        (match r {
            Ok(((n, nb, vs), p)) => spec_read_labeled_marker_section(src@, pos as int) == Ok::<
                ((u32, u32, Seq<LabeledMarker>), int),
                DecodeError,
            >(((n, nb, vs.deep_view()), p as int)),
            Err(e) => spec_read_labeled_marker_section(src@, pos as int) == Err::<
                ((u32, u32, Seq<LabeledMarker>), int),
                DecodeError,
            >(e),
        }),
{
    let (n, p1) = match read_u32(src, pos) {
        Ok(v) => v,
        Err(e) => { return Err(e) },
    };
    let (nb, p2) = match read_u32(src, p1) {
        Ok(v) => v,
        Err(e) => { return Err(e) },
    };
    let (vs, p3) = match read_labeled_markers(src, p2, n) {
        Ok(v) => v,
        Err(e) => { return Err(e) },
    };
    Ok(((n, nb, vs), p3))
}

pub open spec fn spec_read_force_plate_section(b: Seq<u8>, pos: int) -> Result<
    ((u32, u32, Seq<ForcePlateView>), int),
    DecodeError,
> {
    match spec_read_u32(b, pos) {
        Ok((n, p1)) => match spec_read_u32(b, p1) {
            Ok((nb, p2)) => match spec_read_force_plates(b, p2, n as nat) {
                Ok((vs, p3)) => Ok(((n, nb, vs), p3)),
                Err(e) => Err(e),
            },
            Err(e) => Err(e),
        },
        Err(e) => Err(e),
    }
}

fn read_force_plate_section(src: &Vec<u8>, pos: usize) -> (r: Result<
    ((u32, u32, Vec<ForcePlate>), usize),
    DecodeError,
>)
    ensures
        (match r {
            Ok(((n, nb, vs), p)) => spec_read_force_plate_section(src@, pos as int) == Ok::<
                ((u32, u32, Seq<ForcePlateView>), int),
                DecodeError,
            >(((n, nb, vs.deep_view()), p as int)),
            Err(e) => spec_read_force_plate_section(src@, pos as int) == Err::<
                ((u32, u32, Seq<ForcePlateView>), int),
                DecodeError,
            >(e),
        }),
{
    let (n, p1) = match read_u32(src, pos) {
        Ok(v) => v,
        Err(e) => { return Err(e) },
    };
    let (nb, p2) = match read_u32(src, p1) {
        Ok(v) => v,
        Err(e) => { return Err(e) },
    };
    let (vs, p3) = match read_force_plates(src, p2, n) {
        Ok(v) => v,
        Err(e) => { return Err(e) },
    };
    Ok(((n, nb, vs), p3))
}

pub open spec fn spec_read_device_section(b: Seq<u8>, pos: int) -> Result<
    ((u32, u32, Seq<DeviceView>), int),
    DecodeError,
> {
    match spec_read_u32(b, pos) {
        Ok((n, p1)) => match spec_read_u32(b, p1) {
            Ok((nb, p2)) => match spec_read_devices(b, p2, n as nat) {
                Ok((vs, p3)) => Ok(((n, nb, vs), p3)),
                Err(e) => Err(e),
            },
            Err(e) => Err(e),
        },
        Err(e) => Err(e),
    }
}

fn read_device_section(src: &Vec<u8>, pos: usize) -> (r: Result<
    ((u32, u32, Vec<Device>), usize),
    DecodeError,
>)
    ensures
        (match r {
            Ok(((n, nb, vs), p)) => spec_read_device_section(src@, pos as int) == Ok::<
                ((u32, u32, Seq<DeviceView>), int),
                DecodeError,
            >(((n, nb, vs.deep_view()), p as int)),
            Err(e) => spec_read_device_section(src@, pos as int) == Err::<
                ((u32, u32, Seq<DeviceView>), int),
                DecodeError,
            >(e),
        }),
{
    let (n, p1) = match read_u32(src, pos) {
        Ok(v) => v,
        Err(e) => { return Err(e) },
    };
    let (nb, p2) = match read_u32(src, p1) {
        Ok(v) => v,
        Err(e) => { return Err(e) },
    };
    let (vs, p3) = match read_devices(src, p2, n) {
        Ok(v) => v,
        Err(e) => { return Err(e) },
    };
    Ok(((n, nb, vs), p3))
}

/// The fixed prefix of a frame, through `timecode_sub`; the timing tail is
/// left at its documented defaults.
pub open spec fn spec_read_frame_core(b: Seq<u8>, pos: int) -> Result<
    (FrameDataView, int),
    DecodeError,
> {
    match spec_read_u16(b, pos) {
        Err(e) => Err(e),
        Ok((packet_size, p0)) => match spec_read_u32(b, p0) {
            Err(e) => Err(e),
            Ok((frame_number, p1)) => match spec_read_marker_set_section(b, p1) {
                Err(e) => Err(e),
                Ok(((msc, msb, mss), p2)) => match spec_read_unlabeled_marker_section(b, p2) {
                    Err(e) => Err(e),
                    Ok(((umc, umb, ums), p3)) => match spec_read_rigid_body_section(b, p3) {
                        Err(e) => Err(e),
                        Ok(((rbc, rbb, rbs), p4)) => match spec_read_skeleton_section(b, p4) {
                            Err(e) => Err(e),
                            Ok(((skc, skb, sks), p5)) => match spec_read_asset_section(b, p5) {
                                Err(e) => Err(e),
                                Ok(((asc, asb, ass), p6)) => match spec_read_labeled_marker_section(
                                    b,
                                    p6,
                                ) {
                                    Err(e) => Err(e),
                                    Ok(((lmc, lmb, lms), p7)) => match spec_read_force_plate_section(
                                        b,
                                        p7,
                                    ) {
                                        Err(e) => Err(e),
                                        Ok(((fpc, fpb, fps), p8)) => match spec_read_device_section(
                                            b,
                                            p8,
                                        ) {
                                            Err(e) => Err(e),
                                            Ok(((dvc, dvb, dvs), p9)) => match spec_read_u32(b, p9) {
                                                Err(e) => Err(e),
                                                Ok((timecode, p10)) => match spec_read_u32(b, p10) {
                                                    Err(e) => Err(e),
                                                    Ok((timecode_sub, p11)) => Ok(
                                                        (
                                                            FrameDataView {
                                                                packet_size,
                                                                frame_number,
                                                                markerset_count: msc,
                                                                markerset_bytes: msb,
                                                                markersets: mss,
                                                                unlabeled_marker_count: umc,
                                                                unlabeled_marker_bytes: umb,
                                                                unlabeled_marker_positions: ums,
                                                                rigid_body_count: rbc,
                                                                rigid_body_bytes: rbb,
                                                                rigid_bodies: rbs,
                                                                skeleton_count: skc,
                                                                skeleton_bytes: skb,
                                                                skeletons: sks,
                                                                asset_count: asc,
                                                                asset_bytes: asb,
                                                                assets: ass,
                                                                labeled_marker_count: lmc,
                                                                labeled_marker_bytes: lmb,
                                                                labeled_marker_positions: lms,
                                                                force_plate_count: fpc,
                                                                force_plate_bytes: fpb,
                                                                force_plates: fps,
                                                                device_count: dvc,
                                                                device_bytes: dvb,
                                                                devices: dvs,
                                                                timecode,
                                                                timecode_sub,
                                                                stamps: spec_default_stamps(),
                                                                frame_parameters:
                                                                    FrameParameters::Unrecognized,
                                                            },
                                                            p11,
                                                        ),
                                                    ),
                                                },
                                            },
                                        },
                                    },
                                },
                            },
                        },
                    },
                },
            },
        },
    }
}

/// A whole frame: the fixed prefix, then the timing tail. A missing or
/// short tail degrades to the documented defaults instead of failing.
pub open spec fn spec_read_frame(b: Seq<u8>, pos: int) -> Result<(FrameDataView, int), DecodeError> {
    match spec_read_frame_core(b, pos) {
        Err(e) => Err(e),
        Ok((core, p)) => {
            let (stamps, p2) = match spec_read_stamps(b, p) {
                Ok((s, q)) => (s, q),
                Err(_) => (spec_default_stamps(), p),
            };
            let (params, p3) = match spec_read_frame_params(b, p2) {
                Ok((f, q)) => (f, q),
                Err(_) => (FrameParameters::Unrecognized, p2),
            };
            Ok((FrameDataView { stamps, frame_parameters: params, ..core }, p3))
        },
    }
}

/// Tail tolerance: a frame whose buffer ends exactly after `timecode_sub`
/// still decodes, and yields the default stamps (all-zero timestamps) and
/// unrecognized frame parameters.
pub proof fn lemma_frame_tail_tolerance(b: Seq<u8>, pos: int)
    requires
        spec_read_frame_core(b, pos) matches Ok((core, p)) && p == b.len(),
    ensures
        spec_read_frame(b, pos) matches Ok((fd, p2)) && p2 == b.len() && fd.stamps
            == spec_default_stamps() && fd.frame_parameters == FrameParameters::Unrecognized,
{
}

pub(crate) fn read_frame(src: &Vec<u8>, pos: usize) -> (r: Result<(FrameData, usize), DecodeError>)
    ensures
        decoded_as(r, spec_read_frame(src@, pos as int)),
{
    let (packet_size, p0) = match read_u16(src, pos) {
        Ok(v) => v,
        Err(e) => { return Err(e) },
    };
    let (frame_number, p1) = match read_u32(src, p0) {
        Ok(v) => v,
        Err(e) => { return Err(e) },
    };
    let ((msc, msb, mss), p2) = match read_marker_set_section(src, p1) {
        Ok(v) => v,
        Err(e) => { return Err(e) },
    };
    let ((umc, umb, ums), p3) = match read_unlabeled_marker_section(src, p2) {
        Ok(v) => v,
        Err(e) => { return Err(e) },
    };
    let ((rbc, rbb, rbs), p4) = match read_rigid_body_section(src, p3) {
        Ok(v) => v,
        Err(e) => { return Err(e) },
    };
    let ((skc, skb, sks), p5) = match read_skeleton_section(src, p4) {
        Ok(v) => v,
        Err(e) => { return Err(e) },
    };
    let ((asc, asb, ass), p6) = match read_asset_section(src, p5) {
        Ok(v) => v,
        Err(e) => { return Err(e) },
    };
    let ((lmc, lmb, lms), p7) = match read_labeled_marker_section(src, p6) {
        Ok(v) => v,
        Err(e) => { return Err(e) },
    };
    let ((fpc, fpb, fps), p8) = match read_force_plate_section(src, p7) {
        Ok(v) => v,
        Err(e) => { return Err(e) },
    };
    let ((dvc, dvb, dvs), p9) = match read_device_section(src, p8) {
        Ok(v) => v,
        Err(e) => { return Err(e) },
    };
    let (timecode, p10) = match read_u32(src, p9) {
        Ok(v) => v,
        Err(e) => { return Err(e) },
    };
    let (timecode_sub, p11) = match read_u32(src, p10) {
        Ok(v) => v,
        Err(e) => { return Err(e) },
    };
    let (stamps, p12) = match read_stamps(src, p11) {
        Ok(v) => v,
        Err(_) => (Stamps::default(), p11),
    };
    let (frame_parameters, p13) = match read_frame_params(src, p12) {
        Ok(v) => v,
        Err(_) => (FrameParameters::Unrecognized, p12),
    };
    Ok(
        (
            FrameData {
                packet_size,
                frame_number,
                markerset_count: msc,
                markerset_bytes: msb,
                markersets: mss,
                unlabeled_marker_count: umc,
                unlabeled_marker_bytes: umb,
                unlabeled_marker_positions: ums,
                rigid_body_count: rbc,
                rigid_body_bytes: rbb,
                rigid_bodies: rbs,
                skeleton_count: skc,
                skeleton_bytes: skb,
                skeletons: sks,
                asset_count: asc,
                asset_bytes: asb,
                assets: ass,
                labeled_marker_count: lmc,
                labeled_marker_bytes: lmb,
                labeled_marker_positions: lms,
                force_plate_count: fpc,
                force_plate_bytes: fpb,
                force_plates: fps,
                device_count: dvc,
                device_bytes: dvb,
                devices: dvs,
                timecode,
                timecode_sub,
                stamps,
                frame_parameters,
            },
            p13,
        ),
    )
}

/// What this codec's encode direction emits. It mirrors the decode order
/// but, as a protocol asymmetry, re-emits neither the advisory `*_bytes`
/// fields nor the asset section; every declared count is written as
/// carried, whatever its collection's actual length.
pub open spec fn spec_enc_frame(f: FrameDataView) -> Seq<u8> {
    spec_u16_to_le_bytes(f.packet_size) + spec_u32_to_le_bytes(f.frame_number)
        + spec_u32_to_le_bytes(f.markerset_count) + spec_enc_marker_sets(f.markersets)
        + spec_u32_to_le_bytes(f.unlabeled_marker_count) + spec_enc_vec3s(
        f.unlabeled_marker_positions,
    ) + spec_u32_to_le_bytes(f.rigid_body_count) + spec_enc_rigid_bodies(f.rigid_bodies)
        + spec_u32_to_le_bytes(f.skeleton_count) + spec_enc_skeletons(f.skeletons)
        + spec_u32_to_le_bytes(f.labeled_marker_count) + spec_enc_labeled_markers(
        f.labeled_marker_positions,
    ) + spec_u32_to_le_bytes(f.force_plate_count) + spec_enc_force_plates(f.force_plates)
        + spec_u32_to_le_bytes(f.device_count) + spec_enc_devices(f.devices) + spec_u32_to_le_bytes(
        f.timecode,
    ) + spec_u32_to_le_bytes(f.timecode_sub) + spec_enc_stamps(f.stamps) + spec_enc_frame_params(
        f.frame_parameters,
    )
}

#[verifier::rlimit(100)]
pub(crate) fn write_frame(dst: &mut Vec<u8>, f: &FrameData)
    ensures
        final(dst)@ == old(dst)@ + spec_enc_frame(f.deep_view()),
{
    crate::wire::write_u16(dst, f.packet_size);
    crate::wire::write_u32(dst, f.frame_number);
    crate::wire::write_u32(dst, f.markerset_count);
    write_marker_sets(dst, &f.markersets);
    crate::wire::write_u32(dst, f.unlabeled_marker_count);
    write_vec3s(dst, &f.unlabeled_marker_positions);
    crate::wire::write_u32(dst, f.rigid_body_count);
    write_rigid_bodies(dst, &f.rigid_bodies);
    crate::wire::write_u32(dst, f.skeleton_count);
    write_skeletons(dst, &f.skeletons);
    crate::wire::write_u32(dst, f.labeled_marker_count);
    write_labeled_markers(dst, &f.labeled_marker_positions);
    crate::wire::write_u32(dst, f.force_plate_count);
    write_force_plates(dst, &f.force_plates);
    crate::wire::write_u32(dst, f.device_count);
    write_devices(dst, &f.devices);
    crate::wire::write_u32(dst, f.timecode);
    crate::wire::write_u32(dst, f.timecode_sub);
    crate::stamps::write_stamps(dst, &f.stamps);
    write_frame_params(dst, &f.frame_parameters);
    assert(final(dst)@ =~= old(dst)@ + spec_enc_frame(f.deep_view()));
}

/// Codec for a whole telemetry frame.
#[derive(Debug, Default)]
pub struct FrameDataCodec;

impl FrameDataCodec {
    pub fn decode(&self, src: &Vec<u8>, pos: usize) -> (r: Result<(FrameData, usize), DecodeError>)
        ensures
            decoded_as(r, spec_read_frame(src@, pos as int)),
    {
        read_frame(src, pos)
    }

    pub fn encode(&self, item: &FrameData, dst: &mut Vec<u8>)
        ensures
            final(dst)@ == old(dst)@ + spec_enc_frame(item.deep_view()),
    {
        write_frame(dst, item);
    }
}

} // verus!
