//! Codec for a length-framed, little-endian binary motion-capture streaming
//! protocol: a message-type dispatcher over nested decoders and encoders for
//! per-frame telemetry (rigid bodies, skeletons, markers, force plates,
//! devices, timing stamps) and scene-model descriptors.
//!
//! Every decoder is a pure function of a byte buffer and a cursor position,
//! specified against a byte-level description of the wire format; every
//! encoder appends exactly the bytes that specification names.

pub mod channel;
pub mod desc;
pub mod error;
pub mod frame;
pub mod geom;
pub mod laws;
pub mod markers;
pub mod message;
pub mod rigid;
pub mod stamps;
pub mod wire;
