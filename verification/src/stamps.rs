//! Timing metadata for a frame: four double-precision timestamps, two
//! signed precision fields, and the trailing frame-parameter flags.

use vstd::bytes::{spec_u16_to_le_bytes, spec_u64_to_le_bytes};
use vstd::prelude::*;

verus! {

use crate::error::DecodeError;
use crate::wire::{
    decoded_as, read_i32, read_u16, read_u64, spec_i16_to_le_bytes, spec_i32_at,
    spec_i32_to_le_bytes, spec_u16_at, spec_u64_at, write_i32, write_u16, write_u64,
};

/// Bitset flags attached to a frame. An absent or unparseable tail decodes
/// to `Unrecognized`, never to a failure.
#[derive(Debug, Clone, Copy, PartialEq, Eq, Structural)]
pub enum FrameParameters {
    IsRecording,
    TrackingModelsChanged,
    Unrecognized,
}

impl DeepView for FrameParameters {
    type V = FrameParameters;

    open spec fn deep_view(&self) -> FrameParameters {
        *self
    }
}

/// The flags named by a wire value.
pub open spec fn spec_frame_params_of(v: u16) -> FrameParameters {
    if v == 1 {
        FrameParameters::IsRecording
    } else if v == 2 {
        FrameParameters::TrackingModelsChanged
    } else {
        FrameParameters::Unrecognized
    }
}

/// The wire value of the flags; `Unrecognized` is written as zero.
pub open spec fn spec_frame_params_code(p: FrameParameters) -> u16 {
    match p {
        FrameParameters::IsRecording => 1,
        FrameParameters::TrackingModelsChanged => 2,
        FrameParameters::Unrecognized => 0,
    }
}

pub open spec fn spec_read_frame_params(b: Seq<u8>, pos: int) -> Result<
    (FrameParameters, int),
    DecodeError,
> {
    if 0 <= pos && pos + 2 <= b.len() {
        Ok((spec_frame_params_of(spec_u16_at(b, pos)), pos + 2))
    } else {
        Err(DecodeError::Underflow)
    }
}

pub open spec fn spec_enc_frame_params(p: FrameParameters) -> Seq<u8> {
    spec_u16_to_le_bytes(spec_frame_params_code(p))
}

pub(crate) fn read_frame_params(src: &Vec<u8>, pos: usize) -> (r: Result<
    (FrameParameters, usize),
    DecodeError,
>)
    ensures
        decoded_as(r, spec_read_frame_params(src@, pos as int)),
{
    let (v, p) = match read_u16(src, pos) {
        Ok(t) => t,
        Err(e) => { return Err(e) },
    };
    let param = if v == 1 {
        FrameParameters::IsRecording
    } else if v == 2 {
        FrameParameters::TrackingModelsChanged
    } else {
        FrameParameters::Unrecognized
    };
    Ok((param, p))
}

pub(crate) fn write_frame_params(dst: &mut Vec<u8>, p: &FrameParameters)
    ensures
        final(dst)@ == old(dst)@ + spec_enc_frame_params(*p),
{
    let code: u16 = match p {
        FrameParameters::IsRecording => 1,
        FrameParameters::TrackingModelsChanged => 2,
        FrameParameters::Unrecognized => 0,
    };
    write_u16(dst, code);
}

/// Codec for the frame-parameter flags.
#[derive(Debug, Default)]
pub struct FrameParametersCodec;

impl FrameParametersCodec {
    pub fn decode(&self, src: &Vec<u8>, pos: usize) -> (r: Result<
        (FrameParameters, usize),
        DecodeError,
    >)
        ensures
            decoded_as(r, spec_read_frame_params(src@, pos as int)),
    {
        read_frame_params(src, pos)
    }

    pub fn encode(&self, item: &FrameParameters, dst: &mut Vec<u8>)
        ensures
            final(dst)@ == old(dst)@ + spec_enc_frame_params(*item),
    {
        write_frame_params(dst, item);
    }
}

// ---------------------------------------------------------------------------
// Stamps. Wire form: 4 x f64 timestamps, 2 x i32 precision fields, then
// the 2-byte frame-parameter flags. All 42 bytes must be present; a caller
// that finds fewer falls back to the default instance.
// ---------------------------------------------------------------------------

/// Timing metadata for one frame. Each timestamp field is the bit pattern
/// of an IEEE 754 double-precision value.
#[derive(Debug, Clone, Copy, PartialEq, Eq, Structural)]
pub struct Stamps {
    pub timestamp: u64,
    pub timestamp_mid: u64,
    pub timestamp_recv: u64,
    pub timestamp_tx: u64,
    pub timestamp_precision: i32,
    pub timestamp_precision_fraction: i32,
    pub param: FrameParameters,
}

impl DeepView for Stamps {
    type V = Stamps;

    open spec fn deep_view(&self) -> Stamps {
        *self
    }
}

/// The documented fallback: all-zero timestamps and unrecognized flags.
pub open spec fn spec_default_stamps() -> Stamps {
    Stamps {
        timestamp: 0,
        timestamp_mid: 0,
        timestamp_recv: 0,
        timestamp_tx: 0,
        timestamp_precision: 0,
        timestamp_precision_fraction: 0,
        param: FrameParameters::Unrecognized,
    }
}

impl core::default::Default for Stamps {
    /// All-zero timestamps and precisions, unrecognized flags.
    fn default() -> (r: Self)
        ensures
            r == spec_default_stamps(),
    {
        Stamps {
            timestamp: 0,
            timestamp_mid: 0,
            timestamp_recv: 0,
            timestamp_tx: 0,
            timestamp_precision: 0,
            timestamp_precision_fraction: 0,
            param: FrameParameters::Unrecognized,
        }
    }
}

pub open spec fn spec_read_stamps(b: Seq<u8>, pos: int) -> Result<(Stamps, int), DecodeError> {
    if 0 <= pos && pos + 42 <= b.len() {
        Ok(
            (
                Stamps {
                    timestamp: spec_u64_at(b, pos),
                    timestamp_mid: spec_u64_at(b, pos + 8),
                    timestamp_recv: spec_u64_at(b, pos + 16),
                    timestamp_tx: spec_u64_at(b, pos + 24),
                    timestamp_precision: spec_i32_at(b, pos + 32),
                    timestamp_precision_fraction: spec_i32_at(b, pos + 36),
                    param: spec_frame_params_of(spec_u16_at(b, pos + 40)),
                },
                pos + 42,
            ),
        )
    } else {
        Err(DecodeError::Underflow)
    }
}

pub open spec fn spec_enc_stamps(s: Stamps) -> Seq<u8> {
    spec_u64_to_le_bytes(s.timestamp) + spec_u64_to_le_bytes(s.timestamp_mid) + spec_u64_to_le_bytes(
        s.timestamp_recv,
    ) + spec_u64_to_le_bytes(s.timestamp_tx) + spec_i32_to_le_bytes(s.timestamp_precision)
        + spec_i32_to_le_bytes(s.timestamp_precision_fraction) + spec_enc_frame_params(s.param)
}

pub(crate) fn read_stamps(src: &Vec<u8>, pos: usize) -> (r: Result<(Stamps, usize), DecodeError>)
    ensures
        decoded_as(r, spec_read_stamps(src@, pos as int)),
{
    if !(pos < src.len() && src.len() - pos >= 42) {
        return Err(DecodeError::Underflow);
    }
    let (ts, p1) = match read_u64(src, pos) {
        Ok(v) => v,
        Err(e) => { return Err(e) },
    };
    let (ts_mid, p2) = match read_u64(src, p1) {
        Ok(v) => v,
        Err(e) => { return Err(e) },
    };
    let (ts_recv, p3) = match read_u64(src, p2) {
        Ok(v) => v,
        Err(e) => { return Err(e) },
    };
    let (ts_tx, p4) = match read_u64(src, p3) {
        Ok(v) => v,
        Err(e) => { return Err(e) },
    };
    let (precision, p5) = match read_i32(src, p4) {
        Ok(v) => v,
        Err(e) => { return Err(e) },
    };
    let (fraction, p6) = match read_i32(src, p5) {
        Ok(v) => v,
        Err(e) => { return Err(e) },
    };
    let (param, p7) = match read_frame_params(src, p6) {
        Ok(v) => v,
        Err(_) => (FrameParameters::Unrecognized, p6),
    };
    Ok(
        (
            Stamps {
                timestamp: ts,
                timestamp_mid: ts_mid,
                timestamp_recv: ts_recv,
                timestamp_tx: ts_tx,
                timestamp_precision: precision,
                timestamp_precision_fraction: fraction,
                param,
            },
            p7,
        ),
    )
}

pub(crate) fn write_stamps(dst: &mut Vec<u8>, s: &Stamps)
    ensures
        final(dst)@ == old(dst)@ + spec_enc_stamps(*s),
{
    write_u64(dst, s.timestamp);
    write_u64(dst, s.timestamp_mid);
    write_u64(dst, s.timestamp_recv);
    write_u64(dst, s.timestamp_tx);
    write_i32(dst, s.timestamp_precision);
    write_i32(dst, s.timestamp_precision_fraction);
    write_frame_params(dst, &s.param);
    assert(final(dst)@ =~= old(dst)@ + spec_enc_stamps(*s));
}

/// Codec for a frame's timing stamps.
#[derive(Debug, Default)]
pub struct StampsCodec;

impl StampsCodec {
    pub fn decode(&self, src: &Vec<u8>, pos: usize) -> (r: Result<(Stamps, usize), DecodeError>)
        ensures
            decoded_as(r, spec_read_stamps(src@, pos as int)),
    {
        read_stamps(src, pos)
    }

    pub fn encode(&self, item: &Stamps, dst: &mut Vec<u8>)
        ensures
            final(dst)@ == old(dst)@ + spec_enc_stamps(*item),
    {
        write_stamps(dst, item);
    }
}

} // verus!
