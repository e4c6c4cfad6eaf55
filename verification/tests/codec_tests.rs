use natnet_codec::channel::{
    Device, DeviceChannel, DeviceChannelCodec, DeviceCodec, ForcePlate, ForcePlateChannel,
    ForcePlateChannelCodec, ForcePlateCodec,
};
use natnet_codec::desc::{MarkerSetDesc, MarkerSetDescCodec, ModelDefCodec, ModelDefData};
use natnet_codec::error::DecodeError;
use natnet_codec::frame::FrameDataCodec;
use natnet_codec::geom::{Quat, QuatCodec, Vec3, Vec3Codec};
use natnet_codec::markers::{
    LabeledMarkerCodec, LabeledMarkerStatus, MarkerAssetCodec, MarkerSet, MarkerSetCodec,
};
use natnet_codec::message::{Message, MessageId};
use natnet_codec::rigid::{AssetCodec, RigidBody, RigidBodyCodec, SkeletonCodec};
use natnet_codec::stamps::{FrameParameters, FrameParametersCodec, Stamps, StampsCodec};

fn push_u16(v: &mut Vec<u8>, x: u16) {
    v.extend_from_slice(&x.to_le_bytes());
}

fn push_u32(v: &mut Vec<u8>, x: u32) {
    v.extend_from_slice(&x.to_le_bytes());
}

fn push_i32(v: &mut Vec<u8>, x: i32) {
    v.extend_from_slice(&x.to_le_bytes());
}

fn push_f32(v: &mut Vec<u8>, x: f32) {
    v.extend_from_slice(&x.to_le_bytes());
}

fn push_f64(v: &mut Vec<u8>, x: f64) {
    v.extend_from_slice(&x.to_le_bytes());
}

fn push_name(v: &mut Vec<u8>, s: &str) {
    v.extend_from_slice(s.as_bytes());
    v.push(0);
}

fn vec3_bits(x: f32, y: f32, z: f32) -> Vec3 {
    Vec3 { x: x.to_bits(), y: y.to_bits(), z: z.to_bits() }
}

/// A frame buffer with the canonical scalar values: two marker sets, one
/// rigid body, every other section empty. Returns the buffer without the
/// leading message tag.
fn frame_payload(with_stamps: bool) -> Vec<u8> {
    let mut b = Vec::new();
    push_u16(&mut b, 369); // packet_size
    push_u32(&mut b, 197792); // frame_number
    push_u32(&mut b, 2); // markerset_count
    push_u32(&mut b, 209); // markerset_bytes (advisory)
    // marker set 1: three positions
    push_name(&mut b, "all");
    push_u32(&mut b, 3);
    for i in 0..3 {
        push_f32(&mut b, i as f32);
        push_f32(&mut b, 0.5);
        push_f32(&mut b, -1.0);
    }
    // marker set 2: one position
    push_name(&mut b, "one");
    push_u32(&mut b, 1);
    push_f32(&mut b, 7.0);
    push_f32(&mut b, 8.0);
    push_f32(&mut b, 9.0);
    push_u32(&mut b, 0); // unlabeled_marker_count
    push_u32(&mut b, 0); // unlabeled_marker_bytes
    push_u32(&mut b, 1); // rigid_body_count
    push_u32(&mut b, 38); // rigid_body_bytes (advisory)
    push_u32(&mut b, 257); // rigid body id
    push_f32(&mut b, 1.0);
    push_f32(&mut b, 2.0);
    push_f32(&mut b, 3.0);
    push_f32(&mut b, 0.0); // rotation x
    push_f32(&mut b, 0.0);
    push_f32(&mut b, 0.0);
    push_f32(&mut b, 1.0); // rotation w
    push_f32(&mut b, 0.25); // mean marker error
    push_u16(&mut b, 1); // tracking flags: valid
    push_u32(&mut b, 0); // skeleton_count
    push_u32(&mut b, 0); // skeleton_bytes
    push_u32(&mut b, 0); // asset_count
    push_u32(&mut b, 0); // asset_bytes
    push_u32(&mut b, 0); // labeled_marker_count
    push_u32(&mut b, 0); // labeled_marker_bytes
    push_u32(&mut b, 0); // force_plate_count
    push_u32(&mut b, 0); // force_plate_bytes
    push_u32(&mut b, 0); // device_count
    push_u32(&mut b, 0); // device_bytes
    push_u32(&mut b, 12345); // timecode
    push_u32(&mut b, 678); // timecode_sub
    if with_stamps {
        push_f64(&mut b, 1.5);
        push_f64(&mut b, 2.5);
        push_f64(&mut b, 3.5);
        push_f64(&mut b, 4.5);
        push_i32(&mut b, -1);
        push_i32(&mut b, 42);
        push_u16(&mut b, 2); // stamps parameter: tracking models changed
        push_u16(&mut b, 1); // frame parameters: is recording
    }
    b
}

#[test]
fn parse_frame() {
    let mut buf = Vec::new();
    push_u16(&mut buf, 7); // message id: frame data
    buf.extend_from_slice(&frame_payload(true));
    let message = Message::from_bytes(&buf).expect("Failed to decode message from bytes");
    match message {
        Message::FrameData(frame) => {
            assert_eq!(frame.packet_size, 369);
            assert_eq!(frame.frame_number, 197792);
            assert_eq!(frame.markerset_count, 2);
            assert_eq!(frame.markerset_bytes, 209);
            assert_eq!(frame.unlabeled_marker_count, 0);
            assert_eq!(frame.unlabeled_marker_bytes, 0);
            assert_eq!(frame.rigid_body_count, 1);
            assert_eq!(frame.rigid_body_bytes, 38);
            assert_eq!(frame.markersets.len(), 2);
            assert_eq!(frame.markersets[0].name, "all");
            assert_eq!(frame.markersets[0].positions.len(), 3);
            assert_eq!(frame.markersets[1].name, "one");
            assert_eq!(frame.rigid_bodies.len(), 1);
            assert_eq!(frame.rigid_bodies[0].id, 257);
            assert!(frame.rigid_bodies[0].is_tracking_valid);
            assert_eq!(frame.timecode, 12345);
            assert_eq!(frame.timecode_sub, 678);
            assert_eq!(frame.stamps.timestamp, 1.5f64.to_bits());
            assert_eq!(frame.stamps.timestamp_precision, -1);
            assert!(matches!(frame.stamps.param, FrameParameters::TrackingModelsChanged));
            assert!(matches!(frame.frame_parameters, FrameParameters::IsRecording));
        }
        val => panic!("Expected FrameData, got {:?}", val),
    };
}

#[test]
fn parse_modeldef() {
    let mut buf = Vec::new();
    push_u16(&mut buf, 5); // message id: model definition
    push_u16(&mut buf, 99); // packet_size
    push_u32(&mut buf, 2); // dataset_count
    // entry 1: marker-set descriptor
    push_u32(&mut buf, 0); // data_type
    push_u32(&mut buf, 17); // declared size (advisory)
    push_name(&mut buf, "set");
    push_i32(&mut buf, 2);
    push_name(&mut buf, "m1");
    push_name(&mut buf, "m2");
    // entry 2: skeleton descriptor, no decode path; 4 payload bytes skipped
    push_u32(&mut buf, 2); // data_type
    push_u32(&mut buf, 4); // declared size
    buf.extend_from_slice(&[0xAA, 0xBB, 0xCC, 0xDD]);
    let message = Message::from_bytes(&buf);
    assert!(message.is_ok());
    match message.unwrap() {
        Message::ModelDef(md) => {
            assert_eq!(md.packet_size, 99);
            assert_eq!(md.dataset_count, 2);
            assert_eq!(md.dataset.len(), 2);
            match &md.dataset[0] {
                ModelDefData::MarkerSetDesc { size, data } => {
                    assert_eq!(*size, 17);
                    assert_eq!(data.name, "set");
                    assert_eq!(data.marker_count, 2);
                    assert_eq!(data.marker_names, vec!["m1".to_string(), "m2".to_string()]);
                }
                other => panic!("Expected MarkerSetDesc, got {:?}", other),
            }
            match &md.dataset[1] {
                ModelDefData::SkeletonDesc { size } => assert_eq!(*size, 4),
                other => panic!("Expected SkeletonDesc, got {:?}", other),
            }
        }
        val => panic!("Expected ModelDef, got {:?}", val),
    }
}

#[test]
fn rigid_body_round_trip() {
    let rb = RigidBody {
        id: 77,
        pos: vec3_bits(1.25, -2.5, 3.75),
        rot: Quat {
            x: 0.0f32.to_bits(),
            y: 1.0f32.to_bits(),
            z: 0.0f32.to_bits(),
            w: 0.0f32.to_bits(),
        },
        is_tracking_valid: true,
        mean_marker_err: 0.125f32.to_bits(),
    };
    let codec = RigidBodyCodec;
    let mut buf = Vec::new();
    codec.encode(&rb, &mut buf);
    assert_eq!(buf.len(), 38);
    let (back, end) = codec.decode(&buf, 0).expect("round trip decode failed");
    assert_eq!(end, 38);
    assert_eq!(back.id, rb.id);
    assert_eq!(back.pos, rb.pos);
    assert_eq!(back.is_tracking_valid, rb.is_tracking_valid);
    assert_eq!(back.mean_marker_err, rb.mean_marker_err);
    // the rotation must still be a unit quaternion within tolerance
    let (x, y, z, w) = (
        f32::from_bits(back.rot.x),
        f32::from_bits(back.rot.y),
        f32::from_bits(back.rot.z),
        f32::from_bits(back.rot.w),
    );
    let norm = (x * x + y * y + z * z + w * w).sqrt();
    assert!((norm - 1.0).abs() <= 1e-5, "rotation norm {} drifted", norm);
}

#[test]
fn rigid_body_round_trip_invalid_flag() {
    let rb = RigidBody {
        id: 5,
        pos: vec3_bits(0.0, 0.0, 0.0),
        rot: Quat {
            x: 0.0f32.to_bits(),
            y: 0.0f32.to_bits(),
            z: 0.0f32.to_bits(),
            w: 1.0f32.to_bits(),
        },
        is_tracking_valid: false,
        mean_marker_err: 0,
    };
    let codec = RigidBodyCodec;
    let mut buf = Vec::new();
    codec.encode(&rb, &mut buf);
    let (back, _) = codec.decode(&buf, 0).unwrap();
    assert!(!back.is_tracking_valid);
}

#[test]
fn quat_normalization_idempotent() {
    // raw components (2, 0, 0, 0): the decoder must normalize to (1, 0, 0, 0)
    let mut buf = Vec::new();
    push_f32(&mut buf, 2.0);
    push_f32(&mut buf, 0.0);
    push_f32(&mut buf, 0.0);
    push_f32(&mut buf, 0.0);
    let codec = QuatCodec;
    let (q1, _) = codec.decode(&buf, 0).unwrap();
    let (q2, _) = codec.decode(&buf, 0).unwrap();
    assert_eq!(q1, q2);
    assert_eq!(f32::from_bits(q1.x), 1.0);
    assert_eq!(f32::from_bits(q1.y), 0.0);
    assert_eq!(f32::from_bits(q1.z), 0.0);
    assert_eq!(f32::from_bits(q1.w), 0.0);
}

#[test]
fn marker_set_count_mismatch_keeps_declared_count() {
    let ms = MarkerSet {
        name: "lone".to_string(),
        marker_count: 5,
        positions: vec![vec3_bits(1.0, 2.0, 3.0)],
    };
    let codec = MarkerSetCodec;
    let mut buf = Vec::new();
    codec.encode(&ms, &mut buf); // must not fail: encoding is total
    // name (4 bytes) + terminator, then the declared count, then 1 position
    assert_eq!(&buf[0..5], b"lone\0");
    assert_eq!(u32::from_le_bytes([buf[5], buf[6], buf[7], buf[8]]), 5);
    assert_eq!(buf.len(), 5 + 4 + 12);
}

#[test]
fn frame_truncated_after_timecode_sub_decodes_with_defaults() {
    let payload = frame_payload(false);
    let codec = FrameDataCodec;
    let (frame, end) = codec.decode(&payload, 0).expect("truncated tail must not fail");
    assert_eq!(end, payload.len());
    assert_eq!(frame.stamps, Stamps::default());
    assert_eq!(frame.stamps.timestamp, 0);
    assert_eq!(frame.stamps.timestamp_mid, 0);
    assert_eq!(frame.stamps.timestamp_recv, 0);
    assert_eq!(frame.stamps.timestamp_tx, 0);
    assert!(matches!(frame.frame_parameters, FrameParameters::Unrecognized));
}

#[test]
fn dispatcher_underflow_on_one_byte() {
    let buf = vec![0x07u8];
    assert_eq!(Message::from_bytes(&buf), Err(DecodeError::Underflow));
    let empty: Vec<u8> = Vec::new();
    assert_eq!(Message::from_bytes(&empty), Err(DecodeError::Underflow));
}

#[test]
fn dispatcher_routes_tags() {
    assert!(matches!(Message::from_bytes(&vec![1, 0]), Ok(Message::PingResponse)));
    // a recognized tag without a decode path is a structured error
    assert_eq!(
        Message::from_bytes(&vec![0, 0]),
        Err(DecodeError::UnsupportedMessageType(0))
    );
    assert_eq!(
        Message::from_bytes(&vec![9, 0]),
        Err(DecodeError::UnsupportedMessageType(9))
    );
    // a tag outside the known set is an unknown message, not an error
    assert!(matches!(Message::from_bytes(&vec![100, 0]), Ok(Message::Unknown)));
    assert!(matches!(Message::from_bytes(&vec![0xFF, 0xFF]), Ok(Message::Unknown)));
}

#[test]
fn message_id_mapping() {
    assert_eq!(MessageId::from(0u16), MessageId::Ping);
    assert_eq!(MessageId::from(7u16), MessageId::FrameData);
    assert_eq!(MessageId::from(14u16), MessageId::Discovery);
    assert_eq!(MessageId::from(15u16), MessageId::Unrecognized);
    assert_eq!(MessageId::from(100u16), MessageId::Unrecognized);
}

#[test]
fn malformed_name_is_a_text_error() {
    // 0xFF is not valid UTF-8 before the terminator
    let buf = vec![0xFFu8, 0x00, 0, 0, 0, 0];
    let codec = MarkerSetCodec;
    assert_eq!(codec.decode(&buf, 0), Err(DecodeError::MalformedText));
}

#[test]
fn missing_terminator_is_underflow() {
    let buf = vec![b'a', b'b', b'c'];
    let codec = MarkerSetCodec;
    assert_eq!(codec.decode(&buf, 0), Err(DecodeError::Underflow));
}

#[test]
fn marker_set_new_is_empty() {
    let ms = MarkerSet::new("hand", 4);
    assert_eq!(ms.name, "hand");
    assert_eq!(ms.marker_count, 4);
    assert!(ms.positions.is_empty());
}

#[test]
fn marker_set_non_ascii_name_round_trips() {
    let ms = MarkerSet { name: "t\u{00EA}te".to_string(), marker_count: 0, positions: vec![] };
    let codec = MarkerSetCodec;
    let mut buf = Vec::new();
    codec.encode(&ms, &mut buf);
    let (back, _) = codec.decode(&buf, 0).unwrap();
    assert_eq!(back.name, "t\u{00EA}te");
}

#[test]
fn zero_counts_decode_to_empty_collections() {
    // marker set: name, count 0
    let mut b = Vec::new();
    push_name(&mut b, "ms");
    push_u32(&mut b, 0);
    let (ms, end) = MarkerSetCodec.decode(&b, 0).unwrap();
    assert_eq!(end, b.len());
    assert!(ms.positions.is_empty());

    // skeleton: id, count 0
    let mut b = Vec::new();
    push_u32(&mut b, 9);
    push_u32(&mut b, 0);
    let (sk, end) = SkeletonCodec.decode(&b, 0).unwrap();
    assert_eq!(end, 8);
    assert_eq!(sk.id, 9);
    assert!(sk.rigid_bodies.is_empty());

    // asset: id, count 0
    let (a, end) = AssetCodec.decode(&b, 0).unwrap();
    assert_eq!(end, 8);
    assert!(a.rigid_bodies.is_empty());

    // marker asset: id, rigid-body count 0, marker count 0
    let mut b = Vec::new();
    push_u32(&mut b, 3);
    push_u32(&mut b, 0);
    push_u32(&mut b, 0);
    let (ma, end) = MarkerAssetCodec.decode(&b, 0).unwrap();
    assert_eq!(end, 12);
    assert!(ma.rigid_bodies.is_empty());
    assert!(ma.marker_positions.is_empty());

    // force plate and device: id, channel count 0
    let mut b = Vec::new();
    push_u32(&mut b, 4);
    push_u32(&mut b, 0);
    let (fp, _) = ForcePlateCodec.decode(&b, 0).unwrap();
    assert!(fp.channels.is_empty());
    let (dv, _) = DeviceCodec.decode(&b, 0).unwrap();
    assert!(dv.channels.is_empty());

    // channels: value count 0, with exactly 4 bytes in the buffer
    let mut b = Vec::new();
    push_u32(&mut b, 0);
    let (fc, end) = ForcePlateChannelCodec.decode(&b, 0).unwrap();
    assert_eq!(end, 4);
    assert!(fc.values.is_empty());
    let (dc, end) = DeviceChannelCodec.decode(&b, 0).unwrap();
    assert_eq!(end, 4);
    assert!(dc.values.is_empty());

    // model definition: packet size, dataset count 0
    let mut b = Vec::new();
    push_u16(&mut b, 10);
    push_u32(&mut b, 0);
    let (md, end) = ModelDefCodec.decode(&b, 0).unwrap();
    assert_eq!(end, 6);
    assert!(md.dataset.is_empty());

    // marker-set descriptor: name, count 0
    let mut b = Vec::new();
    push_name(&mut b, "d");
    push_i32(&mut b, 0);
    let (msd, _) = MarkerSetDescCodec.decode(&b, 0).unwrap();
    assert!(msd.marker_names.is_empty());
}

#[test]
fn marker_set_desc_negative_count_decodes_empty() {
    let mut b = Vec::new();
    push_name(&mut b, "neg");
    push_i32(&mut b, -3);
    let (msd, end) = MarkerSetDescCodec.decode(&b, 0).unwrap();
    assert_eq!(end, b.len());
    assert_eq!(msd.marker_count, -3);
    assert!(msd.marker_names.is_empty());
}

#[test]
fn marker_set_desc_new_is_empty() {
    let d = MarkerSetDesc::new("torso", 6);
    assert_eq!(d.name, "torso");
    assert_eq!(d.marker_count, 6);
    assert!(d.marker_names.is_empty());
}

#[test]
fn vec3_codec_encodes_little_endian_components() {
    let v = vec3_bits(1.0, -2.0, 0.5);
    let codec = Vec3Codec;
    let mut buf = Vec::new();
    codec.encode(&v, &mut buf);
    let mut expect = Vec::new();
    push_f32(&mut expect, 1.0);
    push_f32(&mut expect, -2.0);
    push_f32(&mut expect, 0.5);
    assert_eq!(buf, expect);
    let (back, end) = codec.decode(&buf, 0).unwrap();
    assert_eq!(end, 12);
    assert_eq!(back, v);
}

#[test]
fn quat_codec_encodes_little_endian_components() {
    let q = Quat {
        x: 0.5f32.to_bits(),
        y: (-0.5f32).to_bits(),
        z: 0.5f32.to_bits(),
        w: 0.5f32.to_bits(),
    };
    let codec = QuatCodec;
    let mut buf = Vec::new();
    codec.encode(&q, &mut buf);
    let mut expect = Vec::new();
    push_f32(&mut expect, 0.5);
    push_f32(&mut expect, -0.5);
    push_f32(&mut expect, 0.5);
    push_f32(&mut expect, 0.5);
    assert_eq!(buf, expect);
    // (0.5, -0.5, 0.5, 0.5) is already unit length, so decode returns it
    let (back, _) = codec.decode(&buf, 0).unwrap();
    assert_eq!(back, q);
}

#[test]
fn rub_to_frd_permutes_and_negates() {
    let rb = RigidBody {
        id: 1,
        pos: vec3_bits(1.0, 2.0, 3.0),
        rot: Quat {
            x: 0.0f32.to_bits(),
            y: 0.0f32.to_bits(),
            z: 0.0f32.to_bits(),
            w: 1.0f32.to_bits(),
        },
        is_tracking_valid: true,
        mean_marker_err: 0,
    };
    let rot_before = rb.rot;
    let out = rb.rub_to_frd();
    assert_eq!(f32::from_bits(out.pos.x), 1.0);
    assert_eq!(f32::from_bits(out.pos.y), 3.0);
    assert_eq!(f32::from_bits(out.pos.z), -2.0);
    assert_eq!(out.rot, rot_before);
    assert_eq!(out.id, 1);
}

#[test]
fn labeled_marker_status_bits() {
    let mut b = Vec::new();
    push_u32(&mut b, 11); // id
    push_f32(&mut b, 0.0);
    push_f32(&mut b, 0.0);
    push_f32(&mut b, 0.0);
    push_f32(&mut b, 0.02); // size
    push_u16(&mut b, 4); // status: model solved
    push_f32(&mut b, 0.001); // residual
    let (m, end) = LabeledMarkerCodec.decode(&b, 0).unwrap();
    assert_eq!(end, 26);
    assert_eq!(m.id, 11);
    assert!(matches!(m.status, LabeledMarkerStatus::ModelSolved));

    // an unrecognized bit value maps to Unrecognized, never a failure
    b[20] = 3;
    b[21] = 0;
    let (m, _) = LabeledMarkerCodec.decode(&b, 0).unwrap();
    assert!(matches!(m.status, LabeledMarkerStatus::Unrecognized));

    // encoding Unrecognized writes a zero status
    let mut out = Vec::new();
    LabeledMarkerCodec.encode(&m, &mut out);
    assert_eq!(u16::from_le_bytes([out[20], out[21]]), 0);
}

#[test]
fn stamps_need_all_forty_two_bytes() {
    let mut b = Vec::new();
    for _ in 0..4 {
        push_f64(&mut b, 0.25);
    }
    push_i32(&mut b, 1);
    push_i32(&mut b, 2);
    // 40 bytes so far: two short of the full block
    assert_eq!(StampsCodec.decode(&b, 0), Err(DecodeError::Underflow));
    push_u16(&mut b, 1);
    let (st, end) = StampsCodec.decode(&b, 0).unwrap();
    assert_eq!(end, 42);
    assert_eq!(st.timestamp, 0.25f64.to_bits());
    assert_eq!(st.timestamp_precision, 1);
    assert_eq!(st.timestamp_precision_fraction, 2);
    assert!(matches!(st.param, FrameParameters::IsRecording));
}

#[test]
fn frame_parameters_round_trip() {
    let codec = FrameParametersCodec;
    for p in [
        FrameParameters::IsRecording,
        FrameParameters::TrackingModelsChanged,
        FrameParameters::Unrecognized,
    ] {
        let mut b = Vec::new();
        codec.encode(&p, &mut b);
        assert_eq!(b.len(), 2);
        let (back, _) = codec.decode(&b, 0).unwrap();
        assert_eq!(back, p);
    }
    // the tag is little-endian: 0x0001 is [0x01, 0x00]
    let (p, _) = codec.decode(&vec![0x01, 0x00], 0).unwrap();
    assert!(matches!(p, FrameParameters::IsRecording));
}

#[test]
fn skeleton_with_bodies_round_trips() {
    let rb = RigidBody {
        id: 2,
        pos: vec3_bits(0.0, 1.0, 2.0),
        rot: Quat {
            x: 0.0f32.to_bits(),
            y: 0.0f32.to_bits(),
            z: 0.0f32.to_bits(),
            w: 1.0f32.to_bits(),
        },
        is_tracking_valid: true,
        mean_marker_err: 0,
    };
    let sk = natnet_codec::rigid::Skeleton {
        id: 31,
        rigid_body_count: 1,
        rigid_bodies: vec![rb],
    };
    let codec = SkeletonCodec;
    let mut buf = Vec::new();
    codec.encode(&sk, &mut buf);
    assert_eq!(buf.len(), 8 + 38);
    let (back, _) = codec.decode(&buf, 0).unwrap();
    assert_eq!(back.id, 31);
    assert_eq!(back.rigid_body_count, 1);
    assert_eq!(back.rigid_bodies.len(), 1);
    assert_eq!(back.rigid_bodies[0].id, 2);
}

#[test]
fn device_channels_round_trip() {
    let dev = Device {
        id: 6,
        channel_count: 2,
        channels: vec![
            DeviceChannel { value_count: 3, values: vec![10, 20, 30] },
            DeviceChannel { value_count: 0, values: vec![] },
        ],
    };
    let codec = DeviceCodec;
    let mut buf = Vec::new();
    codec.encode(&dev, &mut buf);
    let (back, end) = codec.decode(&buf, 0).unwrap();
    assert_eq!(end, buf.len());
    assert_eq!(back, dev);
}

#[test]
fn force_plate_channels_round_trip() {
    let fp = ForcePlate {
        id: 1,
        channel_count: 1,
        channels: vec![ForcePlateChannel { value_count: 2, values: vec![5, 6] }],
    };
    let codec = ForcePlateCodec;
    let mut buf = Vec::new();
    codec.encode(&fp, &mut buf);
    let (back, _) = codec.decode(&buf, 0).unwrap();
    assert_eq!(back, fp);
}

#[test]
fn rigid_body_underflow() {
    let buf = vec![0u8; 37];
    assert_eq!(RigidBodyCodec.decode(&buf, 0), Err(DecodeError::Underflow));
}

#[test]
fn unsupported_descriptor_skip_underflows_when_short() {
    let mut buf = Vec::new();
    push_u16(&mut buf, 5); // message id: model definition
    push_u16(&mut buf, 0); // packet_size
    push_u32(&mut buf, 1); // dataset_count
    push_u32(&mut buf, 3); // data_type: force plate descriptor, no decode path
    push_u32(&mut buf, 8); // declared size
    buf.extend_from_slice(&[0u8; 4]); // only 4 of the declared 8 bytes
    assert_eq!(Message::from_bytes(&buf), Err(DecodeError::Underflow));
}
