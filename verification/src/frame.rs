//! Frames, and how a streamed payload becomes one.

use cameleon::payload::Payload;
use vstd::prelude::*;

verus! {

/// A payload as the stream of `cameleon` delivers it.
#[verifier::external_type_specification]
#[verifier::external_body]
pub struct ExPayload(Payload);

/// The identifier that `Payload::id` reports.
pub uninterp spec fn payload_id(payload: Payload) -> u64;

/// The device time of a payload, `Payload::timestamp`, in nanoseconds.
pub uninterp spec fn payload_timestamp_ns(payload: Payload) -> u128;

/// The image bytes that `Payload::image` lends out, if the payload has any.
pub uninterp spec fn payload_image(payload: Payload) -> Option<Seq<u8>>;

/// Width and height of `Payload::image_info`, if the payload has an image.
pub uninterp spec fn payload_dimensions(payload: Payload) -> Option<(usize, usize)>;

/// Calls `Payload::id`, a plain getter. The contract names its result.
#[verifier::external_body]
fn read_id(payload: &Payload) -> (id: u64)
    ensures
        id == payload_id(*payload),
{
    payload.id()
}

/// Calls `Payload::timestamp`, a plain getter, and takes the duration it
/// returns as its number of nanoseconds. The contract names the number.
#[verifier::external_body]
fn read_timestamp_ns(payload: &Payload) -> (ns: u128)
    ensures
        ns == payload_timestamp_ns(*payload),
{
    payload.timestamp().as_nanos()
}

/// Calls `Payload::image`, which lends out the leading bytes of the payload
/// buffer that are the image, and copies them. The contract names the bytes.
/// `Payload::image` indexes the buffer by the image size of the payload; the
/// stream builds no payload whose image is larger than its buffer.
#[verifier::external_body]
fn read_image(payload: &Payload) -> (image: Option<Vec<u8>>)
    ensures
        image is Some <==> payload_image(*payload) is Some,
        image matches Some(bytes) ==> payload_image(*payload) == Some(bytes@),
{
    match payload.image() {
        Some(bytes) => Some(bytes.to_vec()),
        None => None,
    }
}

/// Calls `Payload::image_info`, a plain getter, and picks width and height
/// out of what it lends. The contract names the pair.
#[verifier::external_body]
fn read_dimensions(payload: &Payload) -> (dimensions: Option<(usize, usize)>)
    ensures
        dimensions == payload_dimensions(*payload),
{
    match payload.image_info() {
        Some(info) => Some((info.width, info.height)),
        None => None,
    }
}

/// What the capture reads of a payload.
#[derive(Debug)]
pub struct StreamPayload {
    /// Block identifier of the payload.
    pub id: u64,
    /// Device time, in nanoseconds.
    pub timestamp_ns: u128,
    /// The image bytes.
    pub image: Option<Vec<u8>>,
    /// Width and height of the image.
    pub dimensions: Option<(usize, usize)>,
}

/// A `StreamPayload`, with its bytes as a sequence.
#[verifier::ext_equal]
pub struct PayloadView {
    pub id: u64,
    pub timestamp_ns: u128,
    pub image: Option<Seq<u8>>,
    pub dimensions: Option<(usize, usize)>,
}

impl View for StreamPayload {
    type V = PayloadView;

    open spec fn view(&self) -> PayloadView {
        PayloadView {
            id: self.id,
            timestamp_ns: self.timestamp_ns,
            image: match self.image {
                Some(bytes) => Some(bytes@),
                None => None,
            },
            dimensions: self.dimensions,
        }
    }
}

/// What the capture reads of a payload of `cameleon`.
pub open spec fn payload_view(payload: Payload) -> PayloadView {
    PayloadView {
        id: payload_id(payload),
        timestamp_ns: payload_timestamp_ns(payload),
        image: payload_image(payload),
        dimensions: payload_dimensions(payload),
    }
}

/// Reads a payload of `cameleon`.
pub fn read_payload(payload: &Payload) -> (read: StreamPayload)
    ensures
        read@ == payload_view(*payload),
        read.id == payload_id(*payload),
        read.timestamp_ns == payload_timestamp_ns(*payload),
        read.image is Some <==> payload_image(*payload) is Some,
        read.image matches Some(bytes) ==> payload_image(*payload) == Some(bytes@),
        read.dimensions == payload_dimensions(*payload),
{
    let image = read_image(payload);
    StreamPayload {
        id: read_id(payload),
        timestamp_ns: read_timestamp_ns(payload),
        image,
        dimensions: read_dimensions(payload),
    }
}

/// One captured frame.
#[derive(Debug)]
pub struct CmlnFrameData {
    /// Block identifier of the payload that carried the frame.
    pub id: u64,
    /// Width in pixels.
    pub width: u32,
    /// Height in pixels.
    pub height: u32,
    /// The image bytes, as the device sent them.
    pub data: Vec<u8>,
    /// Device time, in microseconds.
    pub timestamp_us: u64,
}

/// A frame, with its bytes as a sequence.
#[verifier::ext_equal]
pub struct FrameView {
    pub id: u64,
    pub width: u32,
    pub height: u32,
    pub data: Seq<u8>,
    pub timestamp_us: u64,
}

impl View for CmlnFrameData {
    type V = FrameView;

    open spec fn view(&self) -> FrameView {
        FrameView {
            id: self.id,
            width: self.width,
            height: self.height,
            data: self.data@,
            timestamp_us: self.timestamp_us,
        }
    }
}

/// The low 32 bits of a number: what a 32-bit field of the C interface holds
/// of it.
pub open spec fn low32(n: int) -> u32 {
    (n % 0x1_0000_0000) as u32
}

/// The low 64 bits of a number.
pub open spec fn low64(n: int) -> u64 {
    (n % 0x1_0000_0000_0000_0000) as u64
}

/// The frame that a payload becomes. Bytes are taken as they are; without an
/// image there are none, and without dimensions both are zero. The time is
/// that in whole microseconds.
pub open spec fn frame_of(payload: PayloadView) -> FrameView {
    FrameView {
        id: payload.id,
        width: match payload.dimensions {
            Some(wh) => low32(wh.0 as int),
            None => 0,
        },
        height: match payload.dimensions {
            Some(wh) => low32(wh.1 as int),
            None => 0,
        },
        data: match payload.image {
            Some(bytes) => bytes,
            None => Seq::empty(),
        },
        timestamp_us: low64(payload.timestamp_ns as int / 1000),
    }
}

/// Narrows a length or dimension to a 32-bit field.
pub fn to_u32(n: usize) -> (r: u32)
    ensures
        r == low32(n as int),
        r == n as int % 0x1_0000_0000,
{
    let wide: u64 = n as u64;
    let r: u32 = #[verifier::truncate] (wide as u32);
    assert(r == wide % 0x1_0000_0000u64) by (bit_vector)
        requires
            r == wide as u32,
    ;
    r
}

/// Turns a payload into a frame.
pub fn frame_from_payload(payload: StreamPayload) -> (frame: CmlnFrameData)
    ensures
        frame@ == frame_of(payload@),
        frame.id == payload.id,
        frame.timestamp_us == payload.timestamp_ns as int / 1000 % 0x1_0000_0000_0000_0000,
        payload.image matches Some(bytes) ==> frame.data@ == bytes@,
        payload.image is None ==> frame.data@.len() == 0,
        payload.dimensions matches Some(wh) ==> frame.width == wh.0 as int % 0x1_0000_0000
            && frame.height == wh.1 as int % 0x1_0000_0000,
        payload.dimensions is None ==> frame.width == 0 && frame.height == 0,
{
    let us: u128 = payload.timestamp_ns / 1000;
    let timestamp_us: u64 = #[verifier::truncate] (us as u64);
    assert(timestamp_us == us % 0x1_0000_0000_0000_0000u128) by (bit_vector)
        requires
            timestamp_us == us as u64,
    ;
    let (width, height): (u32, u32) = match payload.dimensions {
        Some((w, h)) => (to_u32(w), to_u32(h)),
        None => (0, 0),
    };
    let data: Vec<u8> = match payload.image {
        Some(bytes) => bytes,
        None => Vec::new(),
    };
    CmlnFrameData { id: payload.id, width, height, data, timestamp_us }
}

} // verus!
