//! Video formats, frames as decoders get them, and what decoders can do.

use smallvec::SmallVec;
use std::time::Duration;
use vstd::prelude::*;

verus! {

pub const VIDEO_FORMAT_H264: u32 = 0x0001;

pub const VIDEO_FORMAT_H264_HIGH8_444: u32 = 0x0004;

pub const VIDEO_FORMAT_H265: u32 = 0x0100;

pub const VIDEO_FORMAT_H265_MAIN10: u32 = 0x0200;

pub const VIDEO_FORMAT_H265_REXT8_444: u32 = 0x0400;

pub const VIDEO_FORMAT_H265_REXT10_444: u32 = 0x0800;

pub const VIDEO_FORMAT_AV1_MAIN8: u32 = 0x1000;

pub const VIDEO_FORMAT_AV1_MAIN10: u32 = 0x2000;

pub const VIDEO_FORMAT_AV1_HIGH8_444: u32 = 0x4000;

pub const VIDEO_FORMAT_AV1_HIGH10_444: u32 = 0x8000;

pub const VIDEO_FORMAT_MASK_H264: u32 = 0x000F;

pub const VIDEO_FORMAT_MASK_H265: u32 = 0x0F00;

pub const VIDEO_FORMAT_MASK_AV1: u32 = 0xF000;

/// Every bit that a video format or a mask of formats uses.
pub const VIDEO_FORMAT_ALL: u32 = 0xFF0F;

/// The format of one video stream.
#[derive(Debug, Clone, Copy, PartialEq, Eq, Structural)]
pub enum VideoFormat {
    H264,
    H264High8_444,
    H265,
    H265Main10,
    H265Rext8_444,
    H265Rext10_444,
    Av1Main8,
    Av1Main10,
    Av1High8_444,
    Av1High10_444,
}

impl VideoFormat {
    /// The number of the format in the protocol: one bit.
    pub open spec fn code(self) -> u32 {
        match self {
            VideoFormat::H264 => VIDEO_FORMAT_H264,
            VideoFormat::H264High8_444 => VIDEO_FORMAT_H264_HIGH8_444,
            VideoFormat::H265 => VIDEO_FORMAT_H265,
            VideoFormat::H265Main10 => VIDEO_FORMAT_H265_MAIN10,
            VideoFormat::H265Rext8_444 => VIDEO_FORMAT_H265_REXT8_444,
            VideoFormat::H265Rext10_444 => VIDEO_FORMAT_H265_REXT10_444,
            VideoFormat::Av1Main8 => VIDEO_FORMAT_AV1_MAIN8,
            VideoFormat::Av1Main10 => VIDEO_FORMAT_AV1_MAIN10,
            VideoFormat::Av1High8_444 => VIDEO_FORMAT_AV1_HIGH8_444,
            VideoFormat::Av1High10_444 => VIDEO_FORMAT_AV1_HIGH10_444,
        }
    }

    /// The number of the format in the protocol.
    pub fn bits(self) -> (r: u32)
        ensures
            r == self.code(),
    {
        match self {
            VideoFormat::H264 => VIDEO_FORMAT_H264,
            VideoFormat::H264High8_444 => VIDEO_FORMAT_H264_HIGH8_444,
            VideoFormat::H265 => VIDEO_FORMAT_H265,
            VideoFormat::H265Main10 => VIDEO_FORMAT_H265_MAIN10,
            VideoFormat::H265Rext8_444 => VIDEO_FORMAT_H265_REXT8_444,
            VideoFormat::H265Rext10_444 => VIDEO_FORMAT_H265_REXT10_444,
            VideoFormat::Av1Main8 => VIDEO_FORMAT_AV1_MAIN8,
            VideoFormat::Av1Main10 => VIDEO_FORMAT_AV1_MAIN10,
            VideoFormat::Av1High8_444 => VIDEO_FORMAT_AV1_HIGH8_444,
            VideoFormat::Av1High10_444 => VIDEO_FORMAT_AV1_HIGH10_444,
        }
    }

    /// The format with that number, if there is one.
    pub fn from_i32(raw: i32) -> (r: Option<VideoFormat>)
        ensures
            match r {
                Some(format) => format.code() == raw,
                None => forall|format: VideoFormat| #[trigger] format.code() != raw,
            },
    {
        match raw {
            0x0001 => Some(VideoFormat::H264),
            0x0004 => Some(VideoFormat::H264High8_444),
            0x0100 => Some(VideoFormat::H265),
            0x0200 => Some(VideoFormat::H265Main10),
            0x0400 => Some(VideoFormat::H265Rext8_444),
            0x0800 => Some(VideoFormat::H265Rext10_444),
            0x1000 => Some(VideoFormat::Av1Main8),
            0x2000 => Some(VideoFormat::Av1Main10),
            0x4000 => Some(VideoFormat::Av1High8_444),
            0x8000 => Some(VideoFormat::Av1High10_444),
            _ => None,
        }
    }

    /// Whether the format is one of those.
    pub fn contained_in(self, formats: VideoFormats) -> (r: bool)
        ensures
            r == formats.has(self.code()),
    {
        formats.contains(VideoFormats { bits: self.bits() })
    }
}

/// No two formats share a number.
pub proof fn lemma_video_format_codes(a: VideoFormat, b: VideoFormat)
    requires
        a.code() == b.code(),
    ensures
        a == b,
{
}

/// A set of video formats.
#[derive(Debug, Clone, Copy, PartialEq, Eq, Structural)]
pub struct VideoFormats {
    pub bits: u32,
}

impl VideoFormats {
    /// Whether every one of the bits is set.
    pub open spec fn has(self, bits: u32) -> bool {
        self.bits & bits == bits
    }

    /// Whether all of the other formats are in the set.
    pub fn contains(self, other: VideoFormats) -> (r: bool)
        ensures
            r == self.has(other.bits),
    {
        self.bits & other.bits == other.bits
    }

    /// The formats of either set.
    pub fn union(self, other: VideoFormats) -> (r: VideoFormats)
        ensures
            r.bits == self.bits | other.bits,
    {
        VideoFormats { bits: self.bits | other.bits }
    }

    /// The known formats outside the set.
    pub fn complement(self) -> (r: VideoFormats)
        ensures
            r.bits == !self.bits & VIDEO_FORMAT_ALL,
    {
        VideoFormats { bits: !self.bits & VIDEO_FORMAT_ALL }
    }
}

pub const SCM_H264: u32 = 0x00001;

pub const SCM_HEVC: u32 = 0x00100;

pub const SCM_HEVC_MAIN10: u32 = 0x00200;

pub const SCM_AV1_MAIN8: u32 = 0x10000;

pub const SCM_AV1_MAIN10: u32 = 0x20000;

/// The codec modes that a server says it supports.
#[derive(Debug, Clone, Copy, PartialEq, Eq, Structural)]
pub struct ServerCodecModeSupport {
    pub bits: u32,
}

impl ServerCodecModeSupport {
    /// Whether every one of the bits is set.
    pub open spec fn has(self, bits: u32) -> bool {
        self.bits & bits == bits
    }

    /// Whether all of the other modes are supported.
    pub fn contains(self, other: ServerCodecModeSupport) -> (r: bool)
        ensures
            r == self.has(other.bits),
    {
        self.bits & other.bits == other.bits
    }
}

#[derive(Debug, Clone, Copy, PartialEq, Eq, Structural)]
pub enum ColorSpace {
    Rec601,
    Rec709,
    Rec2020,
}

impl ColorSpace {
    /// The number of the color space in the protocol.
    pub open spec fn code(self) -> u8 {
        match self {
            ColorSpace::Rec601 => 0,
            ColorSpace::Rec709 => 1,
            ColorSpace::Rec2020 => 2,
        }
    }

    /// The color space with that number, if there is one.
    pub fn from_u8(raw: u8) -> (r: Option<ColorSpace>)
        ensures
            match r {
                Some(space) => space.code() == raw,
                None => forall|space: ColorSpace| #[trigger] space.code() != raw,
            },
    {
        match raw {
            0 => Some(ColorSpace::Rec601),
            1 => Some(ColorSpace::Rec709),
            2 => Some(ColorSpace::Rec2020),
            _ => None,
        }
    }
}

#[derive(Debug, Clone, Copy, PartialEq, Eq, Structural)]
pub enum ColorRange {
    Limited,
    Full,
}

/// What a buffer of a frame holds.
#[derive(Debug, Clone, Copy, PartialEq, Eq, Structural)]
pub enum BufferType {
    PicData,
    Sps,
    Pps,
    Vps,
}

impl BufferType {
    /// The number of the buffer type in the protocol.
    pub open spec fn code(self) -> i32 {
        match self {
            BufferType::PicData => 0,
            BufferType::Sps => 1,
            BufferType::Pps => 2,
            BufferType::Vps => 3,
        }
    }

    /// The buffer type with that number, if there is one.
    pub fn from_i32(raw: i32) -> (r: Option<BufferType>)
        ensures
            match r {
                Some(kind) => kind.code() == raw,
                None => forall|kind: BufferType| #[trigger] kind.code() != raw,
            },
    {
        match raw {
            0 => Some(BufferType::PicData),
            1 => Some(BufferType::Sps),
            2 => Some(BufferType::Pps),
            3 => Some(BufferType::Vps),
            _ => None,
        }
    }
}

/// Whether a frame stands on its own.
#[derive(Debug, Clone, Copy, PartialEq, Eq, Structural)]
pub enum FrameType {
    PFrame,
    Idr,
}

impl FrameType {
    /// The number of the frame type in the protocol.
    pub open spec fn code(self) -> i32 {
        match self {
            FrameType::PFrame => 0,
            FrameType::Idr => 1,
        }
    }

    /// The frame type with that number, if there is one.
    pub fn from_i32(raw: i32) -> (r: Option<FrameType>)
        ensures
            match r {
                Some(kind) => kind.code() == raw,
                None => forall|kind: FrameType| #[trigger] kind.code() != raw,
            },
    {
        match raw {
            0 => Some(FrameType::PFrame),
            1 => Some(FrameType::Idr),
            _ => None,
        }
    }
}

/// The number of a frame.
#[derive(Debug, Clone, Copy, PartialEq, Eq, Structural)]
pub struct FrameIndex(pub u32);

/// One buffer of a frame.
#[derive(Debug, Clone, Copy, PartialEq)]
pub struct VideoFrameBuffer<'a> {
    pub buffer_type: BufferType,
    pub data: &'a [u8],
}

impl<'a> View for VideoFrameBuffer<'a> {
    type V = (BufferType, Seq<u8>);

    open spec fn view(&self) -> (BufferType, Seq<u8>) {
        (self.buffer_type, self.data@)
    }
}

/// The buffers of a frame, in order. Few buffers are kept without a heap allocation.
#[verifier::external_body]
#[derive(Debug, PartialEq)]
pub struct VideoDecodeUnitBuffers<'a> {
    buffers: SmallVec<[VideoFrameBuffer<'a>; 4]>,
}

/// The buffers that the collection holds, in order.
pub uninterp spec fn buffer_contents(buffers: VideoDecodeUnitBuffers) -> Seq<
    (BufferType, Seq<u8>),
>;

impl<'a> View for VideoDecodeUnitBuffers<'a> {
    type V = Seq<(BufferType, Seq<u8>)>;

    open spec fn view(&self) -> Seq<(BufferType, Seq<u8>)> {
        buffer_contents(*self)
    }
}

/// `smallvec::SmallVec::new`: a collection without items.
#[verifier::external_body]
fn no_buffers<'a>() -> (r: VideoDecodeUnitBuffers<'a>)
    ensures
        buffer_contents(r) == Seq::<(BufferType, Seq<u8>)>::empty(),
{
    VideoDecodeUnitBuffers { buffers: SmallVec::new() }
}

/// `smallvec::SmallVec::push`: the item goes behind those that are there.
#[verifier::external_body]
fn push_buffer<'a>(buffers: &mut VideoDecodeUnitBuffers<'a>, buffer: VideoFrameBuffer<'a>)
    ensures
        buffer_contents(*final(buffers)) == buffer_contents(*old(buffers)).push(buffer@),
{
    buffers.buffers.push(buffer)
}

/// `smallvec::SmallVec::len`: the number of items.
#[verifier::external_body]
fn buffer_count(buffers: &VideoDecodeUnitBuffers) -> (r: usize)
    ensures
        r == buffer_contents(*buffers).len(),
{
    buffers.buffers.len()
}

/// Indexing a `smallvec::SmallVec`: the item at that place.
#[verifier::external_body]
fn buffer_at<'a>(buffers: &VideoDecodeUnitBuffers<'a>, index: usize) -> (r: VideoFrameBuffer<'a>)
    requires
        index < buffer_contents(*buffers).len(),
    ensures
        r@ == buffer_contents(*buffers)[index as int],
{
    buffers.buffers[index]
}

impl<'a> VideoDecodeUnitBuffers<'a> {
    /// No buffers yet.
    pub fn new() -> (r: VideoDecodeUnitBuffers<'a>)
        ensures
            r@.len() == 0,
    {
        no_buffers()
    }

    /// Puts a buffer behind the others.
    pub fn push(&mut self, buffer: VideoFrameBuffer<'a>)
        ensures
            final(self)@ == old(self)@.push(buffer@),
    {
        push_buffer(self, buffer)
    }

    pub fn len(&self) -> (r: usize)
        ensures
            r == self@.len(),
    {
        buffer_count(self)
    }

    /// The buffer at a place, if there is one.
    pub fn get(&self, index: usize) -> (r: Option<VideoFrameBuffer<'a>>)
        ensures
            match r {
                Some(buffer) => index < self@.len() && buffer@ == self@[index as int],
                None => index >= self@.len(),
            },
    {
        if index < buffer_count(self) {
            Some(buffer_at(self, index))
        } else {
            None
        }
    }
}

/// The duration of so many microseconds.
pub uninterp spec fn micros_duration(micros: u64) -> Duration;

/// `std::time::Duration::from_micros`: the duration of that many microseconds. No other number
/// of microseconds gives the same duration.
pub assume_specification[ std::time::Duration::from_micros ](micros: u64) -> (r:
    std::time::Duration)
    ensures
        r == micros_duration(micros),
        forall|other: u64| #[trigger] micros_duration(other) == r ==> other == micros,
;

/// One frame as a decoder gets it.
#[derive(Debug, PartialEq)]
pub struct VideoDecodeUnit<'a> {
    pub frame_number: FrameIndex,
    pub frame_type: FrameType,
    /// The processing latency of the host, if it reported one.
    pub frame_processing_latency: Option<Duration>,
    /// From the first packet of the frame to the complete frame.
    pub receive_duration: Option<Duration>,
    /// From the complete frame to the decoder.
    pub queue_duration: Option<Duration>,
    pub timestamp: Duration,
    pub color_space: ColorSpace,
    pub buffers: VideoDecodeUnitBuffers<'a>,
}

/// How a video stream is set up.
#[derive(Debug, Clone, Copy, PartialEq, Eq, Structural)]
pub struct VideoSetup {
    pub format: VideoFormat,
    pub width: u32,
    pub height: u32,
    pub redraw_rate: u32,
}

/// What became of a frame.
#[derive(Debug, Clone, Copy, PartialEq, Eq, Structural)]
pub enum DecodeResult {
    Decoded,
    NeedIdr,
}

impl DecodeResult {
    /// The number of the result in the protocol.
    pub open spec fn code(self) -> i32 {
        match self {
            DecodeResult::Decoded => 0,
            DecodeResult::NeedIdr => -1i32,
        }
    }

    /// The number of the result in the protocol.
    pub fn raw(self) -> (r: i32)
        ensures
            r == self.code(),
    {
        match self {
            DecodeResult::Decoded => 0,
            DecodeResult::NeedIdr => -1,
        }
    }
}

impl Default for DecodeResult {
    fn default() -> (r: Self)
        ensures
            r == DecodeResult::Decoded,
    {
        DecodeResult::Decoded
    }
}

/// What a decoder can do.
#[derive(Debug, Clone, Copy, PartialEq, Eq, Structural)]
pub struct VideoCapabilities {
    /// The decoder fetches frames itself.
    pub pull_renderer: bool,
    /// Frames go to the decoder on the thread that received them.
    pub direct_submit: bool,
    pub reference_frame_invalidation_h264: bool,
    pub reference_frame_invalidation_h265: bool,
    pub reference_frame_invalidation_av1: bool,
    /// How many slices a frame should have.
    pub slices_per_frame: Option<u32>,
}

/// A decoder that can do nothing special.
pub open spec fn no_capabilities() -> VideoCapabilities {
    VideoCapabilities {
        pull_renderer: false,
        direct_submit: false,
        reference_frame_invalidation_h264: false,
        reference_frame_invalidation_h265: false,
        reference_frame_invalidation_av1: false,
        slices_per_frame: None,
    }
}

impl Default for VideoCapabilities {
    fn default() -> (r: Self)
        ensures
            r == no_capabilities(),
    {
        VideoCapabilities {
            pull_renderer: false,
            direct_submit: false,
            reference_frame_invalidation_h264: false,
            reference_frame_invalidation_h265: false,
            reference_frame_invalidation_av1: false,
            slices_per_frame: None,
        }
    }
}

/// What frames are decoded by.
///
/// An implementation outside the verified code leaves open what the spec functions say of it.
pub trait VideoDecoder {
    /// Whether the decoder fetches frames itself, so that none is ever submitted to it.
    open spec fn pulls_frames(&self) -> bool {
        arbitrary()
    }

    /// Prepares for a stream. Returns 0 on success, non-zero on failure.
    fn setup(&mut self, setup: VideoSetup) -> i32;

    /// The stream starts.
    fn start(&mut self);

    /// The stream stops.
    fn stop(&mut self);

    /// Takes a frame.
    fn submit_decode_unit(&mut self, unit: VideoDecodeUnit) -> DecodeResult
        requires
            !old(self).pulls_frames(),
    ;

    fn supported_formats(&self) -> VideoFormats;

    fn capabilities(&self) -> (r: VideoCapabilities)
        ensures
            r.pull_renderer == self.pulls_frames(),
    ;
}

/// The numbers of the protocol, format by format.
pub proof fn lemma_video_format_numbers(format: VideoFormat)
    ensures
        format is H264 <==> format.code() == 0x1,
        format is H264High8_444 <==> format.code() == 0x4,
        format is H265 <==> format.code() == 0x100,
        format is H265Main10 <==> format.code() == 0x200,
        format is H265Rext8_444 <==> format.code() == 0x400,
        format is H265Rext10_444 <==> format.code() == 0x800,
        format is Av1Main8 <==> format.code() == 0x1000,
        format is Av1Main10 <==> format.code() == 0x2000,
        format is Av1High8_444 <==> format.code() == 0x4000,
        format is Av1High10_444 <==> format.code() == 0x8000,
{
}

/// The numbers of the protocol for color spaces, buffers, frames and results.
pub proof fn lemma_video_numbers(
    space: ColorSpace,
    buffer: BufferType,
    frame: FrameType,
    result: DecodeResult,
)
    ensures
        space is Rec601 <==> space.code() == 0,
        space is Rec709 <==> space.code() == 1,
        space is Rec2020 <==> space.code() == 2,
        buffer is PicData <==> buffer.code() == 0,
        buffer is Sps <==> buffer.code() == 1,
        buffer is Pps <==> buffer.code() == 2,
        buffer is Vps <==> buffer.code() == 3,
        frame is PFrame <==> frame.code() == 0,
        frame is Idr <==> frame.code() == 1,
        result is Decoded <==> result.code() == 0,
        result is NeedIdr <==> result.code() == -1,
{
}

/// Formats are in a set exactly where none of their bits is missing from it, so a set has the
/// formats of two others exactly where it has those of each.
pub proof fn lemma_formats_have(formats: VideoFormats, one: u32, other: u32)
    ensures
        formats.has(one) <==> one & !formats.bits == 0,
        formats.has(one | other) <==> formats.has(one) && formats.has(other),
        formats.has(formats.bits),
{
    let all = formats.bits;
    assert((all & one == one) == (one & !all == 0) && (all & (one | other) == one | other) == (all
        & one == one && all & other == other) && all & all == all) by (bit_vector);
}

/// A codec mode is supported exactly where none of its bits is missing.
pub proof fn lemma_codec_modes_have(support: ServerCodecModeSupport, one: u32, other: u32)
    ensures
        support.has(one) <==> one & !support.bits == 0,
        support.has(one | other) <==> support.has(one) && support.has(other),
        support.has(support.bits),
{
    let all = support.bits;
    assert((all & one == one) == (one & !all == 0) && (all & (one | other) == one | other) == (all
        & one == one && all & other == other) && all & all == all) by (bit_vector);
}

/// A decoder that can do nothing special asks for nothing.
pub proof fn lemma_no_capabilities()
    ensures
        !no_capabilities().pull_renderer,
        !no_capabilities().direct_submit,
        !no_capabilities().reference_frame_invalidation_h264,
        !no_capabilities().reference_frame_invalidation_h265,
        !no_capabilities().reference_frame_invalidation_av1,
        no_capabilities().slices_per_frame is None,
{
}

/// What contracts see of a buffer: its type, and all of its bytes.
pub proof fn lemma_buffer_view(buffer: VideoFrameBuffer)
    ensures
        buffer@.0 == buffer.buffer_type,
        buffer@.1 == buffer.data@,
{
}

} // verus!
