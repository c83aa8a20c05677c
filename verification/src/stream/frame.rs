//! Video frames as the protocol assembles them.

use crate::stream::video::{
    BufferType, ColorSpace, FrameIndex, FrameType, VideoDecodeUnit, VideoDecodeUnitBuffers,
    VideoFormat, VideoFormats, VideoFrameBuffer, VIDEO_FORMAT_MASK_H264, VIDEO_FORMAT_MASK_H265,
};
use bytes::Bytes;
use std::time::Duration;
use vstd::prelude::*;

verus! {

/// The type of a frame, as the server says in its packets.
#[derive(Debug, Clone, Copy, PartialEq, Eq, Structural)]
pub enum PacketFrameType {
    PFrame,
    Idr,
    IntraRefresh,
    /// A P-frame after reference frames were invalidated.
    RefsInvalidated,
}

/// What is known of a frame besides its data.
#[derive(Debug, Clone, Copy, PartialEq)]
pub struct VideoFrameMetadata {
    /// The index of the frame
    pub frame_index: FrameIndex,
    /// Type of this frame.
    ///
    /// This is received from the server and mostly used for Reference Frame Invalidation.
    ///
    /// Prefer [`VideoFrame::parsed_frame_type`] over this.
    pub frame_type: PacketFrameType,
    /// The timestamp that the server sent.
    /// 90kHz clock time representation.
    pub timestamp: Duration,
    /// The processing latency of the host
    pub host_processing_latency: Option<Duration>,
}

/// A frame with its data parsed.
#[derive(Debug, PartialEq)]
pub struct VideoFrame<'a> {
    /// Metadata of a video frame.
    pub metadata: VideoFrameMetadata,
    /// Parsed type of this frame.
    ///
    /// The difference to [`VideoFrameMetadata::frame_type`] is that this is directly parsed
    /// from the bitstream for some codecs.
    /// - For H264 and H265 this will be parsed using the nalus from the bitstream.
    /// - For other codecs (Av1) this will be the value from the server
    pub parsed_frame_type: FrameType,
    /// The buffers this frame consists of.
    ///
    /// Different codecs split buffers differently:
    /// - H264: each buffer starts with an annex b start code followed by a h264 nalu.
    /// - H265: each buffer starts with an annex b start code followed by a h265 nalu.
    /// - Av1: no specific point where they're being split
    pub buffers: VideoDecodeUnitBuffers<'a>,
}

impl<'a> VideoFrame<'a> {
    /// The frame as a decoder gets it. How long it was received and queued is not tracked.
    pub fn into_decode_unit(self) -> (r: VideoDecodeUnit<'a>)
        ensures
            r.frame_number == self.metadata.frame_index,
            r.frame_type == self.parsed_frame_type,
            r.frame_processing_latency == self.metadata.host_processing_latency,
            r.receive_duration is None,
            r.queue_duration is None,
            r.timestamp == self.metadata.timestamp,
            r.color_space == ColorSpace::Rec709,
            r.buffers == self.buffers,
    {
        VideoDecodeUnit {
            frame_number: self.metadata.frame_index,
            frame_type: self.parsed_frame_type,
            frame_processing_latency: self.metadata.host_processing_latency,
            receive_duration: None,
            queue_duration: None,
            timestamp: self.metadata.timestamp,
            color_space: ColorSpace::Rec709,
            buffers: self.buffers,
        }
    }
}

/// The outside type of shared bytes.
#[verifier::external_type_specification]
#[verifier::external_body]
pub struct ExBytes(bytes::Bytes);

/// The bytes that a `Bytes` holds.
pub uninterp spec fn bytes_contents(data: bytes::Bytes) -> Seq<u8>;

/// `bytes::Bytes::as_ref`: the bytes that it holds.
#[verifier::external_body]
pub(crate) fn bytes_slice(data: &Bytes) -> (r: &[u8])
    ensures
        r@ == bytes_contents(*data),
{
    data.as_ref()
}

/// `bytes::Bytes::clone`: another handle to the same bytes.
pub assume_specification[ <bytes::Bytes as Clone>::clone ](data: &bytes::Bytes) -> (r:
    bytes::Bytes)
    ensures
        bytes_contents(r) == bytes_contents(*data),
;

/// A cheaply clonable video frame.
///
/// Use [`OwnedVideoFrame::as_ref`] to access it.
#[derive(Debug)]
pub struct OwnedVideoFrame {
    pub format: VideoFormat,
    pub metadata: VideoFrameMetadata,
    pub frame_data: Bytes,
}

impl Clone for OwnedVideoFrame {
    fn clone(&self) -> (r: Self)
        ensures
            r.format == self.format,
            r.metadata == self.metadata,
            bytes_contents(r.frame_data) == bytes_contents(self.frame_data),
    {
        OwnedVideoFrame {
            format: self.format,
            metadata: self.metadata,
            frame_data: self.frame_data.clone(),
        }
    }
}

/// What the nalus of a frame tell.
pub struct ParsedNalus<'a> {
    pub parsed_frame_type: FrameType,
    pub buffers: VideoDecodeUnitBuffers<'a>,
}

impl OwnedVideoFrame {
    /// What is known of the frame besides its data.
    pub fn metadata(&self) -> (r: VideoFrameMetadata)
        ensures
            r == self.metadata,
    {
        self.metadata
    }

    /// The data of the frame.
    pub fn raw(&self) -> (r: &[u8])
        ensures
            r@ == bytes_contents(self.frame_data),
    {
        bytes_slice(&self.frame_data)
    }

    /// The frame parsed, where `parse_nalus` splits the data of H264 and H265 frames.
    pub fn as_ref<'a, F: FnOnce(&'a [u8], VideoFormat) -> ParsedNalus<'a>>(
        &'a self,
        parse_nalus: F,
    ) -> (r: VideoFrame<'a>)
        requires
            forall|data: &'a [u8]|
                has_nalus(self.format) && data@ == bytes_contents(self.frame_data)
                    ==> #[trigger] parse_nalus.requires((data, self.format)),
        ensures
            exists|data: &'a [u8]|
                data@ == bytes_contents(self.frame_data) && #[trigger] is_parsed_frame(
                    self.metadata,
                    data,
                    self.format,
                    parse_nalus,
                    r,
                ),
    {
        let data = bytes_slice(&self.frame_data);
        parse_frame(self.metadata, data, self.format, parse_nalus)
    }
}

/// Whether the data of a format is made of nalus: that of H264 and H265 is.
pub open spec fn has_nalus(format: VideoFormat) -> bool {
    match format {
        VideoFormat::H264 => true,
        VideoFormat::H264High8_444 => true,
        VideoFormat::H265 => true,
        VideoFormat::H265Main10 => true,
        VideoFormat::H265Rext8_444 => true,
        VideoFormat::H265Rext10_444 => true,
        VideoFormat::Av1Main8 => false,
        VideoFormat::Av1Main10 => false,
        VideoFormat::Av1High8_444 => false,
        VideoFormat::Av1High10_444 => false,
    }
}

/// What parsing a frame gives: the type and the buffers that the nalus tell, where there are
/// nalus, and otherwise the type that the server said and all of the data as one buffer.
pub open spec fn is_parsed_frame<'a, F: FnOnce(&'a [u8], VideoFormat) -> ParsedNalus<'a>>(
    metadata: VideoFrameMetadata,
    frame_data: &'a [u8],
    format: VideoFormat,
    parse_nalus: F,
    frame: VideoFrame<'a>,
) -> bool {
    &&& frame.metadata == metadata
    &&& has_nalus(format) ==> parse_nalus.ensures(
        (frame_data, format),
        ParsedNalus { parsed_frame_type: frame.parsed_frame_type, buffers: frame.buffers },
    )
    &&& !has_nalus(format) ==> {
        &&& frame.parsed_frame_type == FrameType::Idr <==> metadata.frame_type
            == PacketFrameType::Idr
        &&& frame.buffers@ == seq![(BufferType::PicData, frame_data@)]
    }
}

/// What the server says of an H264 or H265 frame has no say in its type and its buffers: those
/// that parsing may give with one description of the frame, it may give with every other.
pub proof fn lemma_metadata_has_no_say<'a, F: FnOnce(&'a [u8], VideoFormat) -> ParsedNalus<'a>>(
    one: VideoFrameMetadata,
    other: VideoFrameMetadata,
    frame_data: &'a [u8],
    format: VideoFormat,
    parse_nalus: F,
    frame: VideoFrame<'a>,
)
    requires
        has_nalus(format),
        is_parsed_frame(one, frame_data, format, parse_nalus, frame),
    ensures
        is_parsed_frame(
            other,
            frame_data,
            format,
            parse_nalus,
            (VideoFrame { metadata: other, ..frame }),
        ),
{
}

/// The type and the buffers of an H264 or H265 frame are read from its data alone: whatever
/// the server says of it, the same data gives the same frame. `parse_nalus` has to give one
/// result for one input.
pub proof fn lemma_nalus_decide<'a, F: FnOnce(&'a [u8], VideoFormat) -> ParsedNalus<'a>>(
    one: VideoFrameMetadata,
    other: VideoFrameMetadata,
    frame_data: &'a [u8],
    format: VideoFormat,
    parse_nalus: F,
    first: VideoFrame<'a>,
    second: VideoFrame<'a>,
)
    requires
        has_nalus(format),
        forall|a: ParsedNalus<'a>, b: ParsedNalus<'a>| #[trigger]
            parse_nalus.ensures((frame_data, format), a) && #[trigger] parse_nalus.ensures(
                (frame_data, format),
                b,
            ) ==> a == b,
        is_parsed_frame(one, frame_data, format, parse_nalus, first),
        is_parsed_frame(other, frame_data, format, parse_nalus, second),
    ensures
        first.parsed_frame_type == second.parsed_frame_type,
        first.buffers == second.buffers,
        first.metadata == one,
        second.metadata == other,
{
}

proof fn lemma_nalu_mask(format: VideoFormat)
    ensures
        (VideoFormats { bits: VIDEO_FORMAT_MASK_H264 | VIDEO_FORMAT_MASK_H265 }).has(format.code())
            == has_nalus(format),
{
    assert((0x000Fu32 | 0x0F00u32) & 0x0001 == 0x0001 && (0x000Fu32 | 0x0F00u32) & 0x0004 == 0x0004
        && (0x000Fu32 | 0x0F00u32) & 0x0100 == 0x0100 && (0x000Fu32 | 0x0F00u32) & 0x0200 == 0x0200
        && (0x000Fu32 | 0x0F00u32) & 0x0400 == 0x0400 && (0x000Fu32 | 0x0F00u32) & 0x0800 == 0x0800
        && (0x000Fu32 | 0x0F00u32) & 0x1000 == 0 && (0x000Fu32 | 0x0F00u32) & 0x2000 == 0 && (
    0x000Fu32 | 0x0F00u32) & 0x4000 == 0 && (0x000Fu32 | 0x0F00u32) & 0x8000 == 0) by (bit_vector);
}

/// Parses a frame, where `parse_nalus` splits the data of H264 and H265 frames.
pub fn parse_frame<'a, F: FnOnce(&'a [u8], VideoFormat) -> ParsedNalus<'a>>(
    metadata: VideoFrameMetadata,
    frame_data: &'a [u8],
    format: VideoFormat,
    parse_nalus: F,
) -> (r: VideoFrame<'a>)
    requires
        has_nalus(format) ==> parse_nalus.requires((frame_data, format)),
    ensures
        is_parsed_frame(metadata, frame_data, format, parse_nalus, r),
{
    proof {
        lemma_nalu_mask(format);
    }
    let nalu_formats = VideoFormats { bits: VIDEO_FORMAT_MASK_H264 }.union(
        VideoFormats { bits: VIDEO_FORMAT_MASK_H265 },
    );
    if format.contained_in(nalu_formats) {
        let parsed = parse_nalus(frame_data, format);
        VideoFrame {
            parsed_frame_type: parsed.parsed_frame_type,
            metadata,
            buffers: parsed.buffers,
        }
    } else {
        let parsed_frame_type = match metadata.frame_type {
            PacketFrameType::Idr => FrameType::Idr,
            _ => FrameType::PFrame,
        };
        let mut buffers = VideoDecodeUnitBuffers::new();
        buffers.push(VideoFrameBuffer { buffer_type: BufferType::PicData, data: frame_data });
        assert(buffers@ =~= seq![(BufferType::PicData, frame_data@)]);
        VideoFrame { parsed_frame_type, metadata, buffers }
    }
}

/// H264 and H265 have nalus, AV1 has none: its formats are those with a number of 0x1000 or
/// more.
pub proof fn lemma_formats_with_nalus(format: VideoFormat)
    ensures
        has_nalus(format) <==> format.code() < 0x1000,
{
}

/// A frame without nalus is one buffer with all of its data, and is an IDR frame exactly where
/// the server says so. Its metadata is kept, as that of every frame is.
pub proof fn lemma_frame_without_nalus<'a, F: FnOnce(&'a [u8], VideoFormat) -> ParsedNalus<'a>>(
    metadata: VideoFrameMetadata,
    frame_data: &'a [u8],
    format: VideoFormat,
    parse_nalus: F,
    frame: VideoFrame<'a>,
)
    requires
        format.code() >= 0x1000,
        is_parsed_frame(metadata, frame_data, format, parse_nalus, frame),
    ensures
        frame.metadata == metadata,
        metadata.frame_type is Idr ==> frame.parsed_frame_type is Idr,
        metadata.frame_type !is Idr ==> frame.parsed_frame_type is PFrame,
        frame.buffers@.len() == 1,
        frame.buffers@[0].0 is PicData,
        frame.buffers@[0].1 == frame_data@,
{
}

/// A frame with nalus is what the parser makes of its data and its format.
pub proof fn lemma_frame_with_nalus<'a, F: FnOnce(&'a [u8], VideoFormat) -> ParsedNalus<'a>>(
    metadata: VideoFrameMetadata,
    frame_data: &'a [u8],
    format: VideoFormat,
    parse_nalus: F,
    frame: VideoFrame<'a>,
    nalus: ParsedNalus<'a>,
)
    requires
        format.code() < 0x1000,
        is_parsed_frame(metadata, frame_data, format, parse_nalus, frame),
        forall|other: ParsedNalus<'a>| #[trigger]
            parse_nalus.ensures((frame_data, format), other) ==> other == nalus,
    ensures
        frame.metadata == metadata,
        frame.parsed_frame_type == nalus.parsed_frame_type,
        frame.buffers == nalus.buffers,
{
}

} // verus!
