//! Scene-model descriptors and the ModelDef catalog that carries them.
//!
//! A ModelDef message is a counted sequence of dataset entries, each tagged
//! with a data type and a declared payload size. Only the marker-set,
//! rigid-body and camera descriptors have decodable content; every other
//! data type is kept as a "not yet supported" entry carrying the declared
//! size, and its payload bytes are skipped so the rest of the catalog
//! still decodes.

use vstd::bytes::{spec_u16_to_le_bytes, spec_u32_to_le_bytes};
use vstd::prelude::*;

verus! {

use crate::error::DecodeError;
use crate::geom::{
    read_quat, read_vec3, read_vec3s, spec_enc_quat, spec_enc_vec3, spec_enc_vec3s, spec_read_quat,
    spec_read_vec3, spec_read_vec3s, write_quat, write_vec3, write_vec3s, Quat, Vec3,
};
use crate::wire::{
    decoded_as, lemma_deep_view_empty, lemma_deep_view_push, read_i32, read_i32s, read_str,
    read_strs, read_u16, read_u32, spec_enc_i32s, spec_enc_str, spec_enc_strs, spec_i32_to_le_bytes,
    spec_read_i32, spec_read_i32s, spec_read_str, spec_read_strs, spec_read_u16, spec_read_u32,
    write_i32, write_i32s, write_str, write_strs,
};

/// The number of repeated sub-fields a signed declared count drives: a
/// negative count drives none.
pub open spec fn spec_count_nat(c: i32) -> nat {
    if c >= 0 {
        c as nat
    } else {
        0
    }
}

// ---------------------------------------------------------------------------
// MarkerSetDesc. Wire form: name, i32 marker count, then that many
// zero-terminated marker names.
// ---------------------------------------------------------------------------

/// A marker-set descriptor: the set's name and its markers' names. The
/// declared `marker_count` is carried separately and wins on encode.
#[derive(Debug, Clone, PartialEq)]
pub struct MarkerSetDesc {
    pub name: String,
    pub marker_count: i32,
    pub marker_names: Vec<String>,
}

pub ghost struct MarkerSetDescView {
    pub name: Seq<char>,
    pub marker_count: i32,
    pub marker_names: Seq<Seq<char>>,
}

impl DeepView for MarkerSetDesc {
    type V = MarkerSetDescView;

    open spec fn deep_view(&self) -> MarkerSetDescView {
        MarkerSetDescView {
            name: self.name@,
            marker_count: self.marker_count,
            marker_names: self.marker_names.deep_view(),
        }
    }
}

impl MarkerSetDesc {
    /// An empty descriptor with the given name and declared count.
    pub fn new(name: &str, marker_count: i32) -> (r: Self)
        ensures
            r.name@ == name@,
            r.marker_count == marker_count,
            r.marker_names@.len() == 0,
    {
        Self { name: name.to_owned(), marker_count, marker_names: Vec::new() }
    }
}

pub open spec fn spec_read_marker_set_desc(b: Seq<u8>, pos: int) -> Result<
    (MarkerSetDescView, int),
    DecodeError,
> {
    match spec_read_str(b, pos) {
        Ok((name, p1)) => match spec_read_i32(b, p1) {
            Ok((n, p2)) => match spec_read_strs(b, p2, spec_count_nat(n)) {
                Ok((names, p3)) => Ok(
                    (MarkerSetDescView { name, marker_count: n, marker_names: names }, p3),
                ),
                Err(e) => Err(e),
            },
            Err(e) => Err(e),
        },
        Err(e) => Err(e),
    }
}

/// The declared marker count is written, whatever the name list's actual
/// length; the names written are the list's, each zero-terminated.
pub open spec fn spec_enc_marker_set_desc(m: MarkerSetDescView) -> Seq<u8> {
    spec_enc_str(m.name) + spec_i32_to_le_bytes(m.marker_count) + spec_enc_strs(m.marker_names)
}

pub(crate) fn read_marker_set_desc(src: &Vec<u8>, pos: usize) -> (r: Result<
    (MarkerSetDesc, usize),
    DecodeError,
>)
    ensures
        decoded_as(r, spec_read_marker_set_desc(src@, pos as int)),
{
    let (name, p1) = match read_str(src, pos) {
        Ok(v) => v,
        Err(e) => { return Err(e) },
    };
    let (n, p2) = match read_i32(src, p1) {
        Ok(v) => v,
        Err(e) => { return Err(e) },
    };
    let count: u32 = if n >= 0 {
        n as u32
    } else {
        0
    };
    let (names, p3) = match read_strs(src, p2, count) {
        Ok(v) => v,
        Err(e) => { return Err(e) },
    };
    Ok((MarkerSetDesc { name, marker_count: n, marker_names: names }, p3))
}

pub(crate) fn write_marker_set_desc(dst: &mut Vec<u8>, m: &MarkerSetDesc)
    ensures
        final(dst)@ == old(dst)@ + spec_enc_marker_set_desc(m.deep_view()),
{
    write_str(dst, &m.name);
    write_i32(dst, m.marker_count);
    write_strs(dst, &m.marker_names);
    assert(final(dst)@ =~= old(dst)@ + spec_enc_marker_set_desc(m.deep_view()));
}

/// Codec for a marker-set descriptor.
#[derive(Debug, Default)]
pub struct MarkerSetDescCodec;

impl MarkerSetDescCodec {
    pub fn decode(&self, src: &Vec<u8>, pos: usize) -> (r: Result<
        (MarkerSetDesc, usize),
        DecodeError,
    >)
        ensures
            decoded_as(r, spec_read_marker_set_desc(src@, pos as int)),
    {
        read_marker_set_desc(src, pos)
    }

    pub fn encode(&self, item: &MarkerSetDesc, dst: &mut Vec<u8>)
        ensures
            final(dst)@ == old(dst)@ + spec_enc_marker_set_desc(item.deep_view()),
    {
        write_marker_set_desc(dst, item);
    }
}

// ---------------------------------------------------------------------------
// RigidBodyDesc. Wire form: name, i32 id, i32 parent id, 3 x f32 offset,
// i32 marker count, then that many marker offsets, active labels and
// zero-terminated marker names.
// ---------------------------------------------------------------------------

/// A rigid-body descriptor: identity, parenting, offset, and per-marker
/// data. The declared `marker_count` drives all three repeated runs and
/// wins on encode.
#[derive(Debug, Clone, PartialEq)]
pub struct RigidBodyDesc {
    pub name: String,
    pub id: i32,
    pub parent_id: i32,
    pub pos: Vec3,
    pub marker_count: i32,
    pub marker_offsets: Vec<Vec3>,
    pub marker_active_labels: Vec<i32>,
    pub marker_names: Vec<String>,
}

pub ghost struct RigidBodyDescView {
    pub name: Seq<char>,
    pub id: i32,
    pub parent_id: i32,
    pub pos: Vec3,
    pub marker_count: i32,
    pub marker_offsets: Seq<Vec3>,
    pub marker_active_labels: Seq<i32>,
    pub marker_names: Seq<Seq<char>>,
}

impl DeepView for RigidBodyDesc {
    type V = RigidBodyDescView;

    open spec fn deep_view(&self) -> RigidBodyDescView {
        RigidBodyDescView {
            name: self.name@,
            id: self.id,
            parent_id: self.parent_id,
            pos: self.pos,
            marker_count: self.marker_count,
            marker_offsets: self.marker_offsets.deep_view(),
            marker_active_labels: self.marker_active_labels.deep_view(),
            marker_names: self.marker_names.deep_view(),
        }
    }
}

pub open spec fn spec_read_rigid_body_desc(b: Seq<u8>, pos: int) -> Result<
    (RigidBodyDescView, int),
    DecodeError,
> {
    match spec_read_str(b, pos) {
        Err(e) => Err(e),
        Ok((name, p1)) => match spec_read_i32(b, p1) {
            Err(e) => Err(e),
            Ok((id, p2)) => match spec_read_i32(b, p2) {
                Err(e) => Err(e),
                Ok((parent_id, p3)) => match spec_read_vec3(b, p3) {
                    Err(e) => Err(e),
                    Ok((offset, p4)) => match spec_read_i32(b, p4) {
                        Err(e) => Err(e),
                        Ok((n, p5)) => match spec_read_vec3s(b, p5, spec_count_nat(n)) {
                            Err(e) => Err(e),
                            Ok((offsets, p6)) => match spec_read_i32s(b, p6, spec_count_nat(n)) {
                                Err(e) => Err(e),
                                Ok((labels, p7)) => match spec_read_strs(b, p7, spec_count_nat(n)) {
                                    Err(e) => Err(e),
                                    Ok((names, p8)) => Ok(
                                        (
                                            RigidBodyDescView {
                                                name,
                                                id,
                                                parent_id,
                                                pos: offset,
                                                marker_count: n,
                                                marker_offsets: offsets,
                                                marker_active_labels: labels,
                                                marker_names: names,
                                            },
                                            p8,
                                        ),
                                    ),
                                },
                            },
                        },
                    },
                },
            },
        },
    }
}

/// The declared marker count is written, whatever the three lists' actual
/// lengths; the runs written are the lists', in offset, label, name order.
pub open spec fn spec_enc_rigid_body_desc(d: RigidBodyDescView) -> Seq<u8> {
    spec_enc_str(d.name) + spec_i32_to_le_bytes(d.id) + spec_i32_to_le_bytes(d.parent_id)
        + spec_enc_vec3(d.pos) + spec_i32_to_le_bytes(d.marker_count) + spec_enc_vec3s(
        d.marker_offsets,
    ) + spec_enc_i32s(d.marker_active_labels) + spec_enc_strs(d.marker_names)
}

pub(crate) fn read_rigid_body_desc(src: &Vec<u8>, pos: usize) -> (r: Result<
    (RigidBodyDesc, usize),
    DecodeError,
>)
    ensures
        decoded_as(r, spec_read_rigid_body_desc(src@, pos as int)),
{
    let (name, p1) = match read_str(src, pos) {
        Ok(v) => v,
        Err(e) => { return Err(e) },
    };
    let (id, p2) = match read_i32(src, p1) {
        Ok(v) => v,
        Err(e) => { return Err(e) },
    };
    let (parent_id, p3) = match read_i32(src, p2) {
        Ok(v) => v,
        Err(e) => { return Err(e) },
    };
    let (offset, p4) = match read_vec3(src, p3) {
        Ok(v) => v,
        Err(e) => { return Err(e) },
    };
    let (n, p5) = match read_i32(src, p4) {
        Ok(v) => v,
        Err(e) => { return Err(e) },
    };
    let count: u32 = if n >= 0 {
        n as u32
    } else {
        0
    };
    let (offsets, p6) = match read_vec3s(src, p5, count) {
        Ok(v) => v,
        Err(e) => { return Err(e) },
    };
    let (labels, p7) = match read_i32s(src, p6, count) {
        Ok(v) => v,
        Err(e) => { return Err(e) },
    };
    let (names, p8) = match read_strs(src, p7, count) {
        Ok(v) => v,
        Err(e) => { return Err(e) },
    };
    Ok(
        (
            RigidBodyDesc {
                name,
                id,
                parent_id,
                pos: offset,
                marker_count: n,
                marker_offsets: offsets,
                marker_active_labels: labels,
                marker_names: names,
            },
            p8,
        ),
    )
}

pub(crate) fn write_rigid_body_desc(dst: &mut Vec<u8>, d: &RigidBodyDesc)
    ensures
        final(dst)@ == old(dst)@ + spec_enc_rigid_body_desc(d.deep_view()),
{
    write_str(dst, &d.name);
    write_i32(dst, d.id);
    write_i32(dst, d.parent_id);
    write_vec3(dst, &d.pos);
    write_i32(dst, d.marker_count);
    write_vec3s(dst, &d.marker_offsets);
    write_i32s(dst, &d.marker_active_labels);
    write_strs(dst, &d.marker_names);
    assert(final(dst)@ =~= old(dst)@ + spec_enc_rigid_body_desc(d.deep_view()));
}

/// Codec for a rigid-body descriptor.
#[derive(Debug, Default)]
pub struct RigidBodyDescCodec;

impl RigidBodyDescCodec {
    pub fn decode(&self, src: &Vec<u8>, pos: usize) -> (r: Result<
        (RigidBodyDesc, usize),
        DecodeError,
    >)
        ensures
            decoded_as(r, spec_read_rigid_body_desc(src@, pos as int)),
    {
        read_rigid_body_desc(src, pos)
    }

    pub fn encode(&self, item: &RigidBodyDesc, dst: &mut Vec<u8>)
        ensures
            final(dst)@ == old(dst)@ + spec_enc_rigid_body_desc(item.deep_view()),
    {
        write_rigid_body_desc(dst, item);
    }
}

// ---------------------------------------------------------------------------
// CameraDesc. Wire form: name, 3 x f32 position, 4 x f32 orientation.
// ---------------------------------------------------------------------------

/// A camera descriptor: name, position and orientation. The orientation is
/// normalized on decode like every other rotation.
#[derive(Debug, Clone, PartialEq)]
pub struct CameraDesc {
    pub name: String,
    pub pos: Vec3,
    pub rot: Quat,
}

pub ghost struct CameraDescView {
    pub name: Seq<char>,
    pub pos: Vec3,
    pub rot: Quat,
}

impl DeepView for CameraDesc {
    type V = CameraDescView;

    open spec fn deep_view(&self) -> CameraDescView {
        CameraDescView { name: self.name@, pos: self.pos, rot: self.rot }
    }
}

pub open spec fn spec_read_camera_desc(b: Seq<u8>, pos: int) -> Result<
    (CameraDescView, int),
    DecodeError,
> {
    match spec_read_str(b, pos) {
        Ok((name, p1)) => match spec_read_vec3(b, p1) {
            Ok((position, p2)) => match spec_read_quat(b, p2) {
                Ok((rot, p3)) => Ok((CameraDescView { name, pos: position, rot }, p3)),
                Err(e) => Err(e),
            },
            Err(e) => Err(e),
        },
        Err(e) => Err(e),
    }
}

pub open spec fn spec_enc_camera_desc(c: CameraDescView) -> Seq<u8> {
    spec_enc_str(c.name) + spec_enc_vec3(c.pos) + spec_enc_quat(c.rot)
}

pub(crate) fn read_camera_desc(src: &Vec<u8>, pos: usize) -> (r: Result<
    (CameraDesc, usize),
    DecodeError,
>)
    ensures
        decoded_as(r, spec_read_camera_desc(src@, pos as int)),
{
    let (name, p1) = match read_str(src, pos) {
        Ok(v) => v,
        Err(e) => { return Err(e) },
    };
    let (position, p2) = match read_vec3(src, p1) {
        Ok(v) => v,
        Err(e) => { return Err(e) },
    };
    let (rot, p3) = match read_quat(src, p2) {
        Ok(v) => v,
        Err(e) => { return Err(e) },
    };
    Ok((CameraDesc { name, pos: position, rot }, p3))
}

pub(crate) fn write_camera_desc(dst: &mut Vec<u8>, c: &CameraDesc)
    ensures
        final(dst)@ == old(dst)@ + spec_enc_camera_desc(c.deep_view()),
{
    write_str(dst, &c.name);
    write_vec3(dst, &c.pos);
    write_quat(dst, &c.rot);
    assert(final(dst)@ =~= old(dst)@ + spec_enc_camera_desc(c.deep_view()));
}

/// Codec for a camera descriptor.
#[derive(Debug, Default)]
pub struct CameraDescCodec;

impl CameraDescCodec {
    pub fn decode(&self, src: &Vec<u8>, pos: usize) -> (r: Result<(CameraDesc, usize), DecodeError>)
        ensures
            decoded_as(r, spec_read_camera_desc(src@, pos as int)),
    {
        read_camera_desc(src, pos)
    }

    pub fn encode(&self, item: &CameraDesc, dst: &mut Vec<u8>)
        ensures
            final(dst)@ == old(dst)@ + spec_enc_camera_desc(item.deep_view()),
    {
        write_camera_desc(dst, item);
    }
}

// ---------------------------------------------------------------------------
// ModelDefData: one tagged dataset entry.
// Wire form: u32 data type, u32 declared payload size, then the payload.
// Data types 0, 1 and 5 have decodable payloads; all others are kept as
// unsupported entries and their declared size of bytes is skipped.
// ---------------------------------------------------------------------------

/// One dataset entry of a ModelDef catalog. Entries without a decode path
/// carry their declared payload size so a caller can account for the
/// skipped bytes.
#[derive(Debug, Clone, PartialEq)]
pub enum ModelDefData {
    MarkerSetDesc { size: u32, data: Box<MarkerSetDesc> },
    RigidBodyDesc { size: u32, data: Box<RigidBodyDesc> },
    SkeletonDesc { size: u32 },
    ForcePlateDesc { size: u32 },
    DeviceDesc { size: u32 },
    CameraDesc { size: u32, data: Box<CameraDesc> },
    AssetDesc { size: u32 },
    Unknown { data_type: u32, size: u32 },
}

pub ghost enum ModelDefDataView {
    MarkerSetDesc { size: u32, data: MarkerSetDescView },
    RigidBodyDesc { size: u32, data: RigidBodyDescView },
    SkeletonDesc { size: u32 },
    ForcePlateDesc { size: u32 },
    DeviceDesc { size: u32 },
    CameraDesc { size: u32, data: CameraDescView },
    AssetDesc { size: u32 },
    Unknown { data_type: u32, size: u32 },
}

impl DeepView for ModelDefData {
    type V = ModelDefDataView;

    open spec fn deep_view(&self) -> ModelDefDataView {
        match self {
            ModelDefData::MarkerSetDesc { size, data } => ModelDefDataView::MarkerSetDesc {
                size: *size,
                data: data.deep_view(),
            },
            ModelDefData::RigidBodyDesc { size, data } => ModelDefDataView::RigidBodyDesc {
                size: *size,
                data: data.deep_view(),
            },
            ModelDefData::SkeletonDesc { size } => ModelDefDataView::SkeletonDesc { size: *size },
            ModelDefData::ForcePlateDesc { size } => ModelDefDataView::ForcePlateDesc {
                size: *size,
            },
            ModelDefData::DeviceDesc { size } => ModelDefDataView::DeviceDesc { size: *size },
            ModelDefData::CameraDesc { size, data } => ModelDefDataView::CameraDesc {
                size: *size,
                data: data.deep_view(),
            },
            ModelDefData::AssetDesc { size } => ModelDefDataView::AssetDesc { size: *size },
            ModelDefData::Unknown { data_type, size } => ModelDefDataView::Unknown {
                data_type: *data_type,
                size: *size,
            },
        }
    }
}

/// Skipping a payload: the declared size of bytes must be present.
pub open spec fn spec_skip(b: Seq<u8>, pos: int, size: u32) -> Result<int, DecodeError> {
    if 0 <= pos && pos + size <= b.len() {
        Ok(pos + size)
    } else {
        Err(DecodeError::Underflow)
    }
}

pub open spec fn spec_read_model_def_data(b: Seq<u8>, pos: int) -> Result<
    (ModelDefDataView, int),
    DecodeError,
> {
    match spec_read_u32(b, pos) {
        Err(e) => Err(e),
        Ok((data_type, p1)) => match spec_read_u32(b, p1) {
            Err(e) => Err(e),
            Ok((size, p2)) => if data_type == 0 {
                match spec_read_marker_set_desc(b, p2) {
                    Ok((d, p3)) => Ok((ModelDefDataView::MarkerSetDesc { size, data: d }, p3)),
                    Err(e) => Err(e),
                }
            } else if data_type == 1 {
                match spec_read_rigid_body_desc(b, p2) {
                    Ok((d, p3)) => Ok((ModelDefDataView::RigidBodyDesc { size, data: d }, p3)),
                    Err(e) => Err(e),
                }
            } else if data_type == 5 {
                match spec_read_camera_desc(b, p2) {
                    Ok((d, p3)) => Ok((ModelDefDataView::CameraDesc { size, data: d }, p3)),
                    Err(e) => Err(e),
                }
            } else {
                match spec_skip(b, p2, size) {
                    Ok(p3) => if data_type == 2 {
                        Ok((ModelDefDataView::SkeletonDesc { size }, p3))
                    } else if data_type == 3 {
                        Ok((ModelDefDataView::ForcePlateDesc { size }, p3))
                    } else if data_type == 4 {
                        Ok((ModelDefDataView::DeviceDesc { size }, p3))
                    } else if data_type == 6 {
                        Ok((ModelDefDataView::AssetDesc { size }, p3))
                    } else {
                        Ok((ModelDefDataView::Unknown { data_type, size }, p3))
                    },
                    Err(e) => Err(e),
                }
            },
        },
    }
}

pub(crate) fn read_model_def_data(src: &Vec<u8>, pos: usize) -> (r: Result<
    (ModelDefData, usize),
    DecodeError,
>)
    ensures
        decoded_as(r, spec_read_model_def_data(src@, pos as int)),
{
    let (data_type, p1) = match read_u32(src, pos) {
        Ok(v) => v,
        Err(e) => { return Err(e) },
    };
    let (size, p2) = match read_u32(src, p1) {
        Ok(v) => v,
        Err(e) => { return Err(e) },
    };
    if data_type == 0 {
        match read_marker_set_desc(src, p2) {
            Ok((d, p3)) => Ok((ModelDefData::MarkerSetDesc { size, data: Box::new(d) }, p3)),
            Err(e) => Err(e),
        }
    } else if data_type == 1 {
        match read_rigid_body_desc(src, p2) {
            Ok((d, p3)) => Ok((ModelDefData::RigidBodyDesc { size, data: Box::new(d) }, p3)),
            Err(e) => Err(e),
        }
    } else if data_type == 5 {
        match read_camera_desc(src, p2) {
            Ok((d, p3)) => Ok((ModelDefData::CameraDesc { size, data: Box::new(d) }, p3)),
            Err(e) => Err(e),
        }
    } else {
        if !(p2 <= src.len() && size as usize <= src.len() - p2) {
            return Err(DecodeError::Underflow);
        }
        let p3 = p2 + size as usize;
        if data_type == 2 {
            Ok((ModelDefData::SkeletonDesc { size }, p3))
        } else if data_type == 3 {
            Ok((ModelDefData::ForcePlateDesc { size }, p3))
        } else if data_type == 4 {
            Ok((ModelDefData::DeviceDesc { size }, p3))
        } else if data_type == 6 {
            Ok((ModelDefData::AssetDesc { size }, p3))
        } else {
            Ok((ModelDefData::Unknown { data_type, size }, p3))
        }
    }
}

pub open spec fn spec_read_model_def_datas(b: Seq<u8>, pos: int, n: nat) -> Result<
    (Seq<ModelDefDataView>, int),
    DecodeError,
>
    decreases n,
{
    if n == 0 {
        Ok((Seq::empty(), pos))
    } else {
        match spec_read_model_def_data(b, pos) {
            Ok((v, p)) => match spec_read_model_def_datas(b, p, (n - 1) as nat) {
                Ok((vs, p2)) => Ok((seq![v] + vs, p2)),
                Err(e) => Err(e),
            },
            Err(e) => Err(e),
        }
    }
}

pub(crate) fn read_model_def_datas(src: &Vec<u8>, pos: usize, n: u32) -> (r: Result<
    (Vec<ModelDefData>, usize),
    DecodeError,
>)
    ensures
        decoded_as(r, spec_read_model_def_datas(src@, pos as int, n as nat)),
{
    let mut acc: Vec<ModelDefData> = Vec::new();
    let mut cur: usize = pos;
    let mut i: u32 = 0;
    proof {
        lemma_deep_view_empty(acc);
        match spec_read_model_def_datas(src@, pos as int, n as nat) {
            Ok((vs, p)) => {
                assert(Seq::<ModelDefDataView>::empty() + vs =~= vs);
            },
            Err(_) => {},
        }
    }
    while i < n
        invariant
            i <= n,
            spec_read_model_def_datas(src@, pos as int, n as nat) == (match
                spec_read_model_def_datas(src@, cur as int, (n - i) as nat) {
                Ok((vs, p)) => Ok::<(Seq<ModelDefDataView>, int), DecodeError>(
                    (acc.deep_view() + vs, p),
                ),
                Err(e) => Err::<(Seq<ModelDefDataView>, int), DecodeError>(e),
            }),
        decreases n - i,
    {
        let (v, p) = match read_model_def_data(src, cur) {
            Ok(t) => t,
            Err(e) => { return Err(e) },
        };
        proof {
            match spec_read_model_def_datas(src@, p as int, (n - i - 1) as nat) {
                Ok((vs2, p3)) => {
                    assert((acc.deep_view() + (seq![v.deep_view()] + vs2)) =~= (
                    acc.deep_view().push(v.deep_view()) + vs2));
                },
                Err(_) => {},
            }
        }
        let ghost before = acc;
        acc.push(v);
        proof {
            lemma_deep_view_push(before, acc, v);
        }
        cur = p;
        i = i + 1;
    }
    proof {
        assert(acc.deep_view() + Seq::<ModelDefDataView>::empty() =~= acc.deep_view());
    }
    Ok((acc, cur))
}

// ---------------------------------------------------------------------------
// ModelDef: the catalog. Wire form: u16 packet size, u32 dataset count,
// then that many dataset entries.
// ---------------------------------------------------------------------------

/// A scene-description catalog: an ordered sequence of dataset entries.
#[derive(Debug, Clone, PartialEq)]
pub struct ModelDef {
    pub packet_size: u16,
    pub dataset_count: u32,
    pub dataset: Vec<ModelDefData>,
}

pub ghost struct ModelDefView {
    pub packet_size: u16,
    pub dataset_count: u32,
    pub dataset: Seq<ModelDefDataView>,
}

impl DeepView for ModelDef {
    type V = ModelDefView;

    open spec fn deep_view(&self) -> ModelDefView {
        ModelDefView {
            packet_size: self.packet_size,
            dataset_count: self.dataset_count,
            dataset: self.dataset.deep_view(),
        }
    }
}

pub open spec fn spec_read_model_def(b: Seq<u8>, pos: int) -> Result<(ModelDefView, int), DecodeError> {
    match spec_read_u16(b, pos) {
        Ok((packet_size, p1)) => match spec_read_u32(b, p1) {
            Ok((n, p2)) => match spec_read_model_def_datas(b, p2, n as nat) {
                Ok((ds, p3)) => Ok((ModelDefView { packet_size, dataset_count: n, dataset: ds }, p3)),
                Err(e) => Err(e),
            },
            Err(e) => Err(e),
        },
        Err(e) => Err(e),
    }
}

pub(crate) fn read_model_def(src: &Vec<u8>, pos: usize) -> (r: Result<(ModelDef, usize), DecodeError>)
    ensures
        decoded_as(r, spec_read_model_def(src@, pos as int)),
{
    let (packet_size, p1) = match read_u16(src, pos) {
        Ok(v) => v,
        Err(e) => { return Err(e) },
    };
    let (n, p2) = match read_u32(src, p1) {
        Ok(v) => v,
        Err(e) => { return Err(e) },
    };
    let (ds, p3) = match read_model_def_datas(src, p2, n) {
        Ok(v) => v,
        Err(e) => { return Err(e) },
    };
    Ok((ModelDef { packet_size, dataset_count: n, dataset: ds }, p3))
}

/// Codec for the scene-description catalog. Decode only: this codec's
/// encode direction does not exist in the protocol.
#[derive(Debug, Default)]
pub struct ModelDefCodec;

impl ModelDefCodec {
    pub fn decode(&self, src: &Vec<u8>, pos: usize) -> (r: Result<(ModelDef, usize), DecodeError>)
        ensures
            decoded_as(r, spec_read_model_def(src@, pos as int)),
    {
        read_model_def(src, pos)
    }
}

} // verus!
