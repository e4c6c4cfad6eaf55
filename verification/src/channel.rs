//! Force plates and generic devices: sensors carrying counted channels,
//! each channel a counted run of `u32` samples.

use vstd::bytes::spec_u32_to_le_bytes;
use vstd::prelude::*;

verus! {

use crate::error::DecodeError;
use crate::wire::{
    decoded_as, lemma_deep_view_empty, lemma_deep_view_push, read_u32, read_u32s, spec_enc_u32s,
    spec_read_u32, spec_read_u32s, write_u32, write_u32s,
};

// ---------------------------------------------------------------------------
// Channels. Wire form: u32 value count, then that many u32 samples.
// ---------------------------------------------------------------------------

/// One force-plate channel: a counted run of samples. The declared
/// `value_count` is carried separately and wins on encode.
#[derive(Debug, Clone, PartialEq)]
pub struct ForcePlateChannel {
    pub value_count: u32,
    pub values: Vec<u32>,
}

pub ghost struct ForcePlateChannelView {
    pub value_count: u32,
    pub values: Seq<u32>,
}

impl DeepView for ForcePlateChannel {
    type V = ForcePlateChannelView;

    open spec fn deep_view(&self) -> ForcePlateChannelView {
        ForcePlateChannelView { value_count: self.value_count, values: self.values.deep_view() }
    }
}

/// One generic-device channel: a counted run of samples. The declared
/// `value_count` is carried separately and wins on encode.
#[derive(Debug, Clone, PartialEq)]
pub struct DeviceChannel {
    pub value_count: u32,
    pub values: Vec<u32>,
}

pub ghost struct DeviceChannelView {
    pub value_count: u32,
    pub values: Seq<u32>,
}

impl DeepView for DeviceChannel {
    type V = DeviceChannelView;

    open spec fn deep_view(&self) -> DeviceChannelView {
        DeviceChannelView { value_count: self.value_count, values: self.values.deep_view() }
    }
}

pub open spec fn spec_read_force_plate_channel(b: Seq<u8>, pos: int) -> Result<
    (ForcePlateChannelView, int),
    DecodeError,
> {
    match spec_read_u32(b, pos) {
        Ok((n, p1)) => match spec_read_u32s(b, p1, n as nat) {
            Ok((vals, p2)) => Ok((ForcePlateChannelView { value_count: n, values: vals }, p2)),
            Err(e) => Err(e),
        },
        Err(e) => Err(e),
    }
}

pub open spec fn spec_enc_force_plate_channel(c: ForcePlateChannelView) -> Seq<u8> {
    spec_u32_to_le_bytes(c.value_count) + spec_enc_u32s(c.values)
}

pub open spec fn spec_read_device_channel(b: Seq<u8>, pos: int) -> Result<
    (DeviceChannelView, int),
    DecodeError,
> {
    match spec_read_u32(b, pos) {
        Ok((n, p1)) => match spec_read_u32s(b, p1, n as nat) {
            Ok((vals, p2)) => Ok((DeviceChannelView { value_count: n, values: vals }, p2)),
            Err(e) => Err(e),
        },
        Err(e) => Err(e),
    }
}

pub open spec fn spec_enc_device_channel(c: DeviceChannelView) -> Seq<u8> {
    spec_u32_to_le_bytes(c.value_count) + spec_enc_u32s(c.values)
}

pub(crate) fn read_force_plate_channel(src: &Vec<u8>, pos: usize) -> (r: Result<
    (ForcePlateChannel, usize),
    DecodeError,
>)
    ensures
        decoded_as(r, spec_read_force_plate_channel(src@, pos as int)),
{
    let (n, p1) = match read_u32(src, pos) {
        Ok(v) => v,
        Err(e) => { return Err(e) },
    };
    let (vals, p2) = match read_u32s(src, p1, n) {
        Ok(v) => v,
        Err(e) => { return Err(e) },
    };
    Ok((ForcePlateChannel { value_count: n, values: vals }, p2))
}

pub(crate) fn write_force_plate_channel(dst: &mut Vec<u8>, c: &ForcePlateChannel)
    ensures
        final(dst)@ == old(dst)@ + spec_enc_force_plate_channel(c.deep_view()),
{
    write_u32(dst, c.value_count);
    write_u32s(dst, &c.values);
    assert(final(dst)@ =~= old(dst)@ + spec_enc_force_plate_channel(c.deep_view()));
}

pub(crate) fn read_device_channel(src: &Vec<u8>, pos: usize) -> (r: Result<
    (DeviceChannel, usize),
    DecodeError,
>)
    ensures
        decoded_as(r, spec_read_device_channel(src@, pos as int)),
{
    let (n, p1) = match read_u32(src, pos) {
        Ok(v) => v,
        Err(e) => { return Err(e) },
    };
    let (vals, p2) = match read_u32s(src, p1, n) {
        Ok(v) => v,
        Err(e) => { return Err(e) },
    };
    Ok((DeviceChannel { value_count: n, values: vals }, p2))
}

pub(crate) fn write_device_channel(dst: &mut Vec<u8>, c: &DeviceChannel)
    ensures
        final(dst)@ == old(dst)@ + spec_enc_device_channel(c.deep_view()),
{
    write_u32(dst, c.value_count);
    write_u32s(dst, &c.values);
    assert(final(dst)@ =~= old(dst)@ + spec_enc_device_channel(c.deep_view()));
}

pub open spec fn spec_read_force_plate_channels(b: Seq<u8>, pos: int, n: nat) -> Result<
    (Seq<ForcePlateChannelView>, int),
    DecodeError,
>
    decreases n,
{
    if n == 0 {
        Ok((Seq::empty(), pos))
    } else {
        match spec_read_force_plate_channel(b, pos) {
            Ok((v, p)) => match spec_read_force_plate_channels(b, p, (n - 1) as nat) {
                Ok((vs, p2)) => Ok((seq![v] + vs, p2)),
                Err(e) => Err(e),
            },
            Err(e) => Err(e),
        }
    }
}

pub open spec fn spec_enc_force_plate_channels_from(items: Seq<ForcePlateChannelView>, i: int) -> Seq<
    u8,
>
    decreases items.len() - i,
{
    if i < 0 || i >= items.len() {
        Seq::empty()
    } else {
        spec_enc_force_plate_channel(items[i]) + spec_enc_force_plate_channels_from(items, i + 1)
    }
}

pub open spec fn spec_enc_force_plate_channels(items: Seq<ForcePlateChannelView>) -> Seq<u8> {
    spec_enc_force_plate_channels_from(items, 0)
}

pub open spec fn spec_read_device_channels(b: Seq<u8>, pos: int, n: nat) -> Result<
    (Seq<DeviceChannelView>, int),
    DecodeError,
>
    decreases n,
{
    if n == 0 {
        Ok((Seq::empty(), pos))
    } else {
        match spec_read_device_channel(b, pos) {
            Ok((v, p)) => match spec_read_device_channels(b, p, (n - 1) as nat) {
                Ok((vs, p2)) => Ok((seq![v] + vs, p2)),
                Err(e) => Err(e),
            },
            Err(e) => Err(e),
        }
    }
}

pub open spec fn spec_enc_device_channels_from(items: Seq<DeviceChannelView>, i: int) -> Seq<u8>
    decreases items.len() - i,
{
    if i < 0 || i >= items.len() {
        Seq::empty()
    } else {
        spec_enc_device_channel(items[i]) + spec_enc_device_channels_from(items, i + 1)
    }
}

pub open spec fn spec_enc_device_channels(items: Seq<DeviceChannelView>) -> Seq<u8> {
    spec_enc_device_channels_from(items, 0)
}

pub(crate) fn read_force_plate_channels(src: &Vec<u8>, pos: usize, n: u32) -> (r: Result<
    (Vec<ForcePlateChannel>, usize),
    DecodeError,
>)
    ensures
        decoded_as(r, spec_read_force_plate_channels(src@, pos as int, n as nat)),
{
    let mut acc: Vec<ForcePlateChannel> = Vec::new();
    let mut cur: usize = pos;
    let mut i: u32 = 0;
    proof {
        lemma_deep_view_empty(acc);
        match spec_read_force_plate_channels(src@, pos as int, n as nat) {
            Ok((vs, p)) => {
                assert(Seq::<ForcePlateChannelView>::empty() + vs =~= vs);
            },
            Err(_) => {},
        }
    }
    while i < n
        invariant
            i <= n,
            spec_read_force_plate_channels(src@, pos as int, n as nat) == (match
                spec_read_force_plate_channels(src@, cur as int, (n - i) as nat) {
                Ok((vs, p)) => Ok::<(Seq<ForcePlateChannelView>, int), DecodeError>(
                    (acc.deep_view() + vs, p),
                ),
                Err(e) => Err::<(Seq<ForcePlateChannelView>, int), DecodeError>(e),
            }),
        decreases n - i,
    {
        let (v, p) = match read_force_plate_channel(src, cur) {
            Ok(t) => t,
            Err(e) => { return Err(e) },
        };
        proof {
            match spec_read_force_plate_channels(src@, p as int, (n - i - 1) as nat) {
                Ok((vs2, p3)) => {
                    assert((acc.deep_view() + (seq![v.deep_view()] + vs2)) =~= (
                    acc.deep_view().push(v.deep_view()) + vs2));
                },
                Err(_) => {},
            }
        }
        let ghost before = acc;
        acc.push(v);
        proof {
            lemma_deep_view_push(before, acc, v);
        }
        cur = p;
        i = i + 1;
    }
    proof {
        assert(acc.deep_view() + Seq::<ForcePlateChannelView>::empty() =~= acc.deep_view());
    }
    Ok((acc, cur))
}

pub(crate) fn write_force_plate_channels(dst: &mut Vec<u8>, items: &Vec<ForcePlateChannel>)
    ensures
        final(dst)@ == old(dst)@ + spec_enc_force_plate_channels(items.deep_view()),
{
    let ghost vs = items.deep_view();
    let mut k: usize = 0;
    while k < items.len()
        invariant
            k <= items@.len(),
            vs == items.deep_view(),
            vs.len() == items@.len(),
            dst@ + spec_enc_force_plate_channels_from(vs, k as int) == old(dst)@
                + spec_enc_force_plate_channels_from(vs, 0),
        decreases items@.len() - k,
    {
        let ghost pre = dst@;
        write_force_plate_channel(dst, &items[k]);
        proof {
            assert(vs[k as int] == items@[k as int].deep_view());
            assert((pre + spec_enc_force_plate_channel(vs[k as int])
                + spec_enc_force_plate_channels_from(vs, k as int + 1)) =~= (pre
                + spec_enc_force_plate_channels_from(vs, k as int)));
        }
        k = k + 1;
    }
    assert(spec_enc_force_plate_channels_from(vs, items@.len() as int) =~= Seq::<u8>::empty());
    assert(final(dst)@ =~= final(dst)@ + Seq::<u8>::empty());
}

pub(crate) fn read_device_channels(src: &Vec<u8>, pos: usize, n: u32) -> (r: Result<
    (Vec<DeviceChannel>, usize),
    DecodeError,
>)
    ensures
        decoded_as(r, spec_read_device_channels(src@, pos as int, n as nat)),
{
    let mut acc: Vec<DeviceChannel> = Vec::new();
    let mut cur: usize = pos;
    let mut i: u32 = 0;
    proof {
        lemma_deep_view_empty(acc);
        match spec_read_device_channels(src@, pos as int, n as nat) {
            Ok((vs, p)) => {
                assert(Seq::<DeviceChannelView>::empty() + vs =~= vs);
            },
            Err(_) => {},
        }
    }
    while i < n
        invariant
            i <= n,
            spec_read_device_channels(src@, pos as int, n as nat) == (match
                spec_read_device_channels(src@, cur as int, (n - i) as nat) {
                Ok((vs, p)) => Ok::<(Seq<DeviceChannelView>, int), DecodeError>(
                    (acc.deep_view() + vs, p),
                ),
                Err(e) => Err::<(Seq<DeviceChannelView>, int), DecodeError>(e),
            }),
        decreases n - i,
    {
        let (v, p) = match read_device_channel(src, cur) {
            Ok(t) => t,
            Err(e) => { return Err(e) },
        };
        proof {
            match spec_read_device_channels(src@, p as int, (n - i - 1) as nat) {
                Ok((vs2, p3)) => {
                    assert((acc.deep_view() + (seq![v.deep_view()] + vs2)) =~= (
                    acc.deep_view().push(v.deep_view()) + vs2));
                },
                Err(_) => {},
            }
        }
        let ghost before = acc;
        acc.push(v);
        proof {
            lemma_deep_view_push(before, acc, v);
        }
        cur = p;
        i = i + 1;
    }
    proof {
        assert(acc.deep_view() + Seq::<DeviceChannelView>::empty() =~= acc.deep_view());
    }
    Ok((acc, cur))
}

pub(crate) fn write_device_channels(dst: &mut Vec<u8>, items: &Vec<DeviceChannel>)
    ensures
        final(dst)@ == old(dst)@ + spec_enc_device_channels(items.deep_view()),
{
    let ghost vs = items.deep_view();
    let mut k: usize = 0;
    while k < items.len()
        invariant
            k <= items@.len(),
            vs == items.deep_view(),
            vs.len() == items@.len(),
            dst@ + spec_enc_device_channels_from(vs, k as int) == old(dst)@
                + spec_enc_device_channels_from(vs, 0),
        decreases items@.len() - k,
    {
        let ghost pre = dst@;
        write_device_channel(dst, &items[k]);
        proof {
            assert(vs[k as int] == items@[k as int].deep_view());
            assert((pre + spec_enc_device_channel(vs[k as int]) + spec_enc_device_channels_from(
                vs,
                k as int + 1,
            )) =~= (pre + spec_enc_device_channels_from(vs, k as int)));
        }
        k = k + 1;
    }
    assert(spec_enc_device_channels_from(vs, items@.len() as int) =~= Seq::<u8>::empty());
    assert(final(dst)@ =~= final(dst)@ + Seq::<u8>::empty());
}

/// Codec for one force-plate channel.
#[derive(Debug, Default)]
pub struct ForcePlateChannelCodec;

impl ForcePlateChannelCodec {
    pub fn decode(&self, src: &Vec<u8>, pos: usize) -> (r: Result<
        (ForcePlateChannel, usize),
        DecodeError,
    >)
        ensures
            decoded_as(r, spec_read_force_plate_channel(src@, pos as int)),
    {
        read_force_plate_channel(src, pos)
    }

    pub fn encode(&self, item: &ForcePlateChannel, dst: &mut Vec<u8>)
        ensures
            final(dst)@ == old(dst)@ + spec_enc_force_plate_channel(item.deep_view()),
    {
        write_force_plate_channel(dst, item);
    }
}

/// Codec for one generic-device channel.
#[derive(Debug, Default)]
pub struct DeviceChannelCodec;

impl DeviceChannelCodec {
    pub fn decode(&self, src: &Vec<u8>, pos: usize) -> (r: Result<
        (DeviceChannel, usize),
        DecodeError,
    >)
        ensures
            decoded_as(r, spec_read_device_channel(src@, pos as int)),
    {
        read_device_channel(src, pos)
    }

    pub fn encode(&self, item: &DeviceChannel, dst: &mut Vec<u8>)
        ensures
            final(dst)@ == old(dst)@ + spec_enc_device_channel(item.deep_view()),
    {
        write_device_channel(dst, item);
    }
}

// ---------------------------------------------------------------------------
// ForcePlate / Device. Wire form: u32 id, u32 channel count, then that
// many channels.
// ---------------------------------------------------------------------------

/// A force plate with counted channels. The declared `channel_count` is
/// carried separately and wins on encode.
#[derive(Debug, Clone, PartialEq)]
pub struct ForcePlate {
    pub id: u32,
    pub channel_count: u32,
    pub channels: Vec<ForcePlateChannel>,
}

pub ghost struct ForcePlateView {
    pub id: u32,
    pub channel_count: u32,
    pub channels: Seq<ForcePlateChannelView>,
}

impl DeepView for ForcePlate {
    type V = ForcePlateView;

    open spec fn deep_view(&self) -> ForcePlateView {
        ForcePlateView {
            id: self.id,
            channel_count: self.channel_count,
            channels: self.channels.deep_view(),
        }
    }
}

/// A generic device with counted channels. The declared `channel_count` is
/// carried separately and wins on encode.
#[derive(Debug, Clone, PartialEq)]
pub struct Device {
    pub id: u32,
    pub channel_count: u32,
    pub channels: Vec<DeviceChannel>,
}

pub ghost struct DeviceView {
    pub id: u32,
    pub channel_count: u32,
    pub channels: Seq<DeviceChannelView>,
}

impl DeepView for Device {
    type V = DeviceView;

    open spec fn deep_view(&self) -> DeviceView {
        DeviceView {
            id: self.id,
            channel_count: self.channel_count,
            channels: self.channels.deep_view(),
        }
    }
}

pub open spec fn spec_read_force_plate(b: Seq<u8>, pos: int) -> Result<
    (ForcePlateView, int),
    DecodeError,
> {
    match spec_read_u32(b, pos) {
        Ok((id, p1)) => match spec_read_u32(b, p1) {
            Ok((n, p2)) => match spec_read_force_plate_channels(b, p2, n as nat) {
                Ok((cs, p3)) => Ok((ForcePlateView { id, channel_count: n, channels: cs }, p3)),
                Err(e) => Err(e),
            },
            Err(e) => Err(e),
        },
        Err(e) => Err(e),
    }
}

pub open spec fn spec_enc_force_plate(f: ForcePlateView) -> Seq<u8> {
    spec_u32_to_le_bytes(f.id) + spec_u32_to_le_bytes(f.channel_count)
        + spec_enc_force_plate_channels(f.channels)
}

pub open spec fn spec_read_device(b: Seq<u8>, pos: int) -> Result<(DeviceView, int), DecodeError> {
    match spec_read_u32(b, pos) {
        Ok((id, p1)) => match spec_read_u32(b, p1) {
            Ok((n, p2)) => match spec_read_device_channels(b, p2, n as nat) {
                Ok((cs, p3)) => Ok((DeviceView { id, channel_count: n, channels: cs }, p3)),
                Err(e) => Err(e),
            },
            Err(e) => Err(e),
        },
        Err(e) => Err(e),
    }
}

pub open spec fn spec_enc_device(d: DeviceView) -> Seq<u8> {
    spec_u32_to_le_bytes(d.id) + spec_u32_to_le_bytes(d.channel_count) + spec_enc_device_channels(
        d.channels,
    )
}

pub(crate) fn read_force_plate(src: &Vec<u8>, pos: usize) -> (r: Result<
    (ForcePlate, usize),
    DecodeError,
>)
    ensures
        decoded_as(r, spec_read_force_plate(src@, pos as int)),
{
    let (id, p1) = match read_u32(src, pos) {
        Ok(v) => v,
        Err(e) => { return Err(e) },
    };
    let (n, p2) = match read_u32(src, p1) {
        Ok(v) => v,
        Err(e) => { return Err(e) },
    };
    let (cs, p3) = match read_force_plate_channels(src, p2, n) {
        Ok(v) => v,
        Err(e) => { return Err(e) },
    };
    Ok((ForcePlate { id, channel_count: n, channels: cs }, p3))
}

pub(crate) fn write_force_plate(dst: &mut Vec<u8>, f: &ForcePlate)
    ensures
        final(dst)@ == old(dst)@ + spec_enc_force_plate(f.deep_view()),
{
    write_u32(dst, f.id);
    write_u32(dst, f.channel_count);
    write_force_plate_channels(dst, &f.channels);
    assert(final(dst)@ =~= old(dst)@ + spec_enc_force_plate(f.deep_view()));
}

pub(crate) fn read_device(src: &Vec<u8>, pos: usize) -> (r: Result<(Device, usize), DecodeError>)
    ensures
        decoded_as(r, spec_read_device(src@, pos as int)),
{
    let (id, p1) = match read_u32(src, pos) {
        Ok(v) => v,
        Err(e) => { return Err(e) },
    };
    let (n, p2) = match read_u32(src, p1) {
        Ok(v) => v,
        Err(e) => { return Err(e) },
    };
    let (cs, p3) = match read_device_channels(src, p2, n) {
        Ok(v) => v,
        Err(e) => { return Err(e) },
    };
    Ok((Device { id, channel_count: n, channels: cs }, p3))
}

pub(crate) fn write_device(dst: &mut Vec<u8>, d: &Device)
    ensures
        final(dst)@ == old(dst)@ + spec_enc_device(d.deep_view()),
{
    write_u32(dst, d.id);
    write_u32(dst, d.channel_count);
    write_device_channels(dst, &d.channels);
    assert(final(dst)@ =~= old(dst)@ + spec_enc_device(d.deep_view()));
}

/// Codec for a force plate.
#[derive(Debug, Default)]
pub struct ForcePlateCodec;

impl ForcePlateCodec {
    pub fn decode(&self, src: &Vec<u8>, pos: usize) -> (r: Result<(ForcePlate, usize), DecodeError>)
        ensures
            decoded_as(r, spec_read_force_plate(src@, pos as int)),
    {
        read_force_plate(src, pos)
    }

    pub fn encode(&self, item: &ForcePlate, dst: &mut Vec<u8>)
        ensures
            final(dst)@ == old(dst)@ + spec_enc_force_plate(item.deep_view()),
    {
        write_force_plate(dst, item);
    }
}

/// Codec for a generic device.
#[derive(Debug, Default)]
pub struct DeviceCodec;

impl DeviceCodec {
    pub fn decode(&self, src: &Vec<u8>, pos: usize) -> (r: Result<(Device, usize), DecodeError>)
        ensures
            decoded_as(r, spec_read_device(src@, pos as int)),
    {
        read_device(src, pos)
    }

    pub fn encode(&self, item: &Device, dst: &mut Vec<u8>)
        ensures
            final(dst)@ == old(dst)@ + spec_enc_device(item.deep_view()),
    {
        write_device(dst, item);
    }
}


pub open spec fn spec_read_force_plates(b: Seq<u8>, pos: int, n: nat) -> Result<
    (Seq<ForcePlateView>, int),
    DecodeError,
>
    decreases n,
{
    if n == 0 {
        Ok((Seq::empty(), pos))
    } else {
        match spec_read_force_plate(b, pos) {
            Ok((v, p)) => match spec_read_force_plates(b, p, (n - 1) as nat) {
                Ok((vs, p2)) => Ok((seq![v] + vs, p2)),
                Err(e) => Err(e),
            },
            Err(e) => Err(e),
        }
    }
}

pub(crate) fn read_force_plates(src: &Vec<u8>, pos: usize, n: u32) -> (r: Result<
    (Vec<ForcePlate>, usize),
    DecodeError,
>)
    ensures
        decoded_as(r, spec_read_force_plates(src@, pos as int, n as nat)),
{
    let mut acc: Vec<ForcePlate> = Vec::new();
    let mut cur: usize = pos;
    let mut i: u32 = 0;
    proof {
        lemma_deep_view_empty(acc);
        match spec_read_force_plates(src@, pos as int, n as nat) {
            Ok((vs, p)) => {
                assert(Seq::<ForcePlateView>::empty() + vs =~= vs);
            },
            Err(_) => {},
        }
    }
    while i < n
        invariant
            i <= n,
            spec_read_force_plates(src@, pos as int, n as nat) == (match spec_read_force_plates(
                src@,
                cur as int,
                (n - i) as nat,
            ) {
                Ok((vs, p)) => Ok::<(Seq<ForcePlateView>, int), DecodeError>((acc.deep_view() + vs, p)),
                Err(e) => Err::<(Seq<ForcePlateView>, int), DecodeError>(e),
            }),
        decreases n - i,
    {
        let (v, p) = match read_force_plate(src, cur) {
            Ok(t) => t,
            Err(e) => { return Err(e) },
        };
        proof {
            match spec_read_force_plates(src@, p as int, (n - i - 1) as nat) {
                Ok((vs2, p3)) => {
                    assert((acc.deep_view() + (seq![v.deep_view()] + vs2)) =~= (
                    acc.deep_view().push(v.deep_view()) + vs2));
                },
                Err(_) => {},
            }
        }
        let ghost before = acc;
        acc.push(v);
        proof {
            lemma_deep_view_push(before, acc, v);
        }
        cur = p;
        i = i + 1;
    }
    proof {
        assert(acc.deep_view() + Seq::<ForcePlateView>::empty() =~= acc.deep_view());
    }
    Ok((acc, cur))
}

pub open spec fn spec_enc_force_plates_from(items: Seq<ForcePlateView>, i: int) -> Seq<u8>
    decreases items.len() - i,
{
    if i < 0 || i >= items.len() {
        Seq::empty()
    } else {
        spec_enc_force_plate(items[i]) + spec_enc_force_plates_from(items, i + 1)
    }
}

pub open spec fn spec_enc_force_plates(items: Seq<ForcePlateView>) -> Seq<u8> {
    spec_enc_force_plates_from(items, 0)
}

pub(crate) fn write_force_plates(dst: &mut Vec<u8>, items: &Vec<ForcePlate>)
    ensures
        final(dst)@ == old(dst)@ + spec_enc_force_plates(items.deep_view()),
{
    let ghost vs = items.deep_view();
    let mut k: usize = 0;
    while k < items.len()
        invariant
            k <= items@.len(),
            vs == items.deep_view(),
            vs.len() == items@.len(),
            dst@ + spec_enc_force_plates_from(vs, k as int) == old(dst)@ + spec_enc_force_plates_from(vs, 0),
        decreases items@.len() - k,
    {
        let ghost pre = dst@;
        write_force_plate(dst, &items[k]);
        proof {
            assert(vs[k as int] == items@[k as int].deep_view());
            assert((pre + spec_enc_force_plate(vs[k as int]) + spec_enc_force_plates_from(vs, k as int + 1)) =~= (
            pre + spec_enc_force_plates_from(vs, k as int)));
        }
        k = k + 1;
    }
    assert(spec_enc_force_plates_from(vs, items@.len() as int) =~= Seq::<u8>::empty());
    assert(final(dst)@ =~= final(dst)@ + Seq::<u8>::empty());
}

pub open spec fn spec_read_devices(b: Seq<u8>, pos: int, n: nat) -> Result<
    (Seq<DeviceView>, int),
    DecodeError,
>
    decreases n,
{
    if n == 0 {
        Ok((Seq::empty(), pos))
    } else {
        match spec_read_device(b, pos) {
            Ok((v, p)) => match spec_read_devices(b, p, (n - 1) as nat) {
                Ok((vs, p2)) => Ok((seq![v] + vs, p2)),
                Err(e) => Err(e),
            },
            Err(e) => Err(e),
        }
    }
}

pub(crate) fn read_devices(src: &Vec<u8>, pos: usize, n: u32) -> (r: Result<
    (Vec<Device>, usize),
    DecodeError,
>)
    ensures
        decoded_as(r, spec_read_devices(src@, pos as int, n as nat)),
{
    let mut acc: Vec<Device> = Vec::new();
    let mut cur: usize = pos;
    let mut i: u32 = 0;
    proof {
        lemma_deep_view_empty(acc);
        match spec_read_devices(src@, pos as int, n as nat) {
            Ok((vs, p)) => {
                assert(Seq::<DeviceView>::empty() + vs =~= vs);
            },
            Err(_) => {},
        }
    }
    while i < n
        invariant
            i <= n,
            spec_read_devices(src@, pos as int, n as nat) == (match spec_read_devices(
                src@,
                cur as int,
                (n - i) as nat,
            ) {
                Ok((vs, p)) => Ok::<(Seq<DeviceView>, int), DecodeError>((acc.deep_view() + vs, p)),
                Err(e) => Err::<(Seq<DeviceView>, int), DecodeError>(e),
            }),
        decreases n - i,
    {
        let (v, p) = match read_device(src, cur) {
            Ok(t) => t,
            Err(e) => { return Err(e) },
        };
        proof {
            match spec_read_devices(src@, p as int, (n - i - 1) as nat) {
                Ok((vs2, p3)) => {
                    assert((acc.deep_view() + (seq![v.deep_view()] + vs2)) =~= (
                    acc.deep_view().push(v.deep_view()) + vs2));
                },
                Err(_) => {},
            }
        }
        let ghost before = acc;
        acc.push(v);
        proof {
            lemma_deep_view_push(before, acc, v);
        }
        cur = p;
        i = i + 1;
    }
    proof {
        assert(acc.deep_view() + Seq::<DeviceView>::empty() =~= acc.deep_view());
    }
    Ok((acc, cur))
}

pub open spec fn spec_enc_devices_from(items: Seq<DeviceView>, i: int) -> Seq<u8>
    decreases items.len() - i,
{
    if i < 0 || i >= items.len() {
        Seq::empty()
    } else {
        spec_enc_device(items[i]) + spec_enc_devices_from(items, i + 1)
    }
}

pub open spec fn spec_enc_devices(items: Seq<DeviceView>) -> Seq<u8> {
    spec_enc_devices_from(items, 0)
}

pub(crate) fn write_devices(dst: &mut Vec<u8>, items: &Vec<Device>)
    ensures
        final(dst)@ == old(dst)@ + spec_enc_devices(items.deep_view()),
{
    let ghost vs = items.deep_view();
    let mut k: usize = 0;
    while k < items.len()
        invariant
            k <= items@.len(),
            vs == items.deep_view(),
            vs.len() == items@.len(),
            dst@ + spec_enc_devices_from(vs, k as int) == old(dst)@ + spec_enc_devices_from(vs, 0),
        decreases items@.len() - k,
    {
        let ghost pre = dst@;
        write_device(dst, &items[k]);
        proof {
            assert(vs[k as int] == items@[k as int].deep_view());
            assert((pre + spec_enc_device(vs[k as int]) + spec_enc_devices_from(vs, k as int + 1)) =~= (
            pre + spec_enc_devices_from(vs, k as int)));
        }
        k = k + 1;
    }
    assert(spec_enc_devices_from(vs, items@.len() as int) =~= Seq::<u8>::empty());
    assert(final(dst)@ =~= final(dst)@ + Seq::<u8>::empty());
}

} // verus!
