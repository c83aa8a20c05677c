//! Video between moonlight-common-c and a decoder.
//!
//! The C library hands over plain numbers and buffers; here they become the types that
//! decoders work with.

use crate::stream::video;
use crate::stream::video::{
    BufferType, ColorSpace, DecodeResult, FrameIndex, FrameType, VideoCapabilities, VideoDecodeUnit,
    VideoDecodeUnitBuffers, VideoFormat, VideoFrameBuffer, VideoSetup,
};
use std::time::Duration;
use vstd::prelude::*;

verus! {

/// One element of the buffer list of a frame.
#[derive(Debug, Clone, Copy)]
pub struct RawBuffer<'a> {
    pub data: &'a [u8],
    pub buffer_type: i32,
}

/// A frame as the C library describes it. Times are microseconds on the clock of the C
/// library.
#[derive(Debug)]
pub struct RawDecodeUnit<'a> {
    pub frame_number: i32,
    pub frame_type: i32,
    /// In tenths of a millisecond; zero where the host did not report it.
    pub frame_host_processing_latency: u16,
    pub receive_time_us: u64,
    pub enqueue_time_us: u64,
    pub presentation_time_us: u64,
    pub colorspace: u8,
    /// The buffer list, from its head to its end.
    pub buffers: Vec<RawBuffer<'a>>,
}

/// Whether the number stands for a buffer type.
pub open spec fn is_buffer_type(raw: i32) -> bool {
    exists|kind: BufferType| #[trigger] kind.code() == raw
}

impl<'a> RawDecodeUnit<'a> {
    /// Whether each number stands for something.
    pub open spec fn valid(&self) -> bool {
        &&& exists|kind: FrameType| #[trigger] kind.code() == self.frame_type
        &&& exists|space: ColorSpace| #[trigger] space.code() == self.colorspace
        &&& forall|i: int|
            0 <= i < self.buffers@.len() ==> is_buffer_type(
                (#[trigger] self.buffers@[i]).buffer_type,
            )
    }

    /// Whether each number stands for something.
    pub fn is_valid(&self) -> (r: bool)
        ensures
            r == self.valid(),
    {
        if FrameType::from_i32(self.frame_type).is_none() {
            return false;
        }
        if ColorSpace::from_u8(self.colorspace).is_none() {
            return false;
        }
        let mut i: usize = 0;
        while i < self.buffers.len()
            invariant
                i <= self.buffers@.len(),
                forall|j: int|
                    0 <= j < i ==> is_buffer_type((#[trigger] self.buffers@[j]).buffer_type),
            decreases self.buffers@.len() - i,
        {
            if BufferType::from_i32(self.buffers[i].buffer_type).is_none() {
                assert(!is_buffer_type(self.buffers@[i as int].buffer_type));
                return false;
            }
            i = i + 1;
        }
        true
    }
}

/// The time from `earlier` to `later`, or none of it where `later` is the earlier one.
pub open spec fn micros_between(earlier: u64, later: u64) -> u64 {
    if later >= earlier {
        (later - earlier) as u64
    } else {
        0
    }
}

/// What a decoder gets of a frame at the time `now_us`: the numbers by what they stand for,
/// the latency in its unit of a tenth of a millisecond, the two delays, and the buffers one for
/// one, in the order of the list.
pub open spec fn converted(raw: RawDecodeUnit, now_us: u64, unit: VideoDecodeUnit) -> bool {
    &&& unit.frame_number == FrameIndex(raw.frame_number as u32)
    &&& unit.frame_type.code() == raw.frame_type
    &&& unit.frame_processing_latency == (if raw.frame_host_processing_latency == 0 {
        None
    } else {
        Some(video::micros_duration((raw.frame_host_processing_latency * 100) as u64))
    })
    &&& unit.receive_duration == Some(
        video::micros_duration(micros_between(raw.receive_time_us, raw.enqueue_time_us)),
    )
    &&& unit.queue_duration == Some(
        video::micros_duration(micros_between(raw.enqueue_time_us, now_us)),
    )
    &&& unit.timestamp == video::micros_duration(raw.presentation_time_us)
    &&& unit.color_space.code() == raw.colorspace
    &&& unit.buffers@.len() == raw.buffers@.len()
    &&& forall|i: int|
        0 <= i < raw.buffers@.len() ==> (#[trigger] unit.buffers@[i]).0.code()
            == raw.buffers@[i].buffer_type && unit.buffers@[i].1 == raw.buffers@[i].data@
}

/// Converts a frame of the C library, which a decoder gets at the time `now_us`. However short
/// a reported latency is, it is not rounded down to nothing.
pub fn convert_decode_unit<'a>(raw: &RawDecodeUnit<'a>, now_us: u64) -> (r: VideoDecodeUnit<'a>)
    requires
        raw.valid(),
    ensures
        converted(*raw, now_us, r),
        raw.frame_host_processing_latency != 0 ==> r.frame_processing_latency != Some(
            video::micros_duration(0),
        ),
{
    let mut buffers = VideoDecodeUnitBuffers::new();
    let mut i: usize = 0;
    while i < raw.buffers.len()
        invariant
            i <= raw.buffers@.len(),
            raw.valid(),
            buffers@.len() == i,
            forall|j: int|
                0 <= j < i ==> (#[trigger] buffers@[j]).0.code() == raw.buffers@[j].buffer_type
                    && buffers@[j].1 == raw.buffers@[j].data@,
        decreases raw.buffers@.len() - i,
    {
        let element = raw.buffers[i];
        assert(is_buffer_type(raw.buffers@[i as int].buffer_type));
        if let Some(buffer_type) = BufferType::from_i32(element.buffer_type) {
            buffers.push(VideoFrameBuffer { buffer_type, data: element.data });
        }
        i = i + 1;
    }
    let frame_type = match FrameType::from_i32(raw.frame_type) {
        Some(frame_type) => frame_type,
        None => FrameType::PFrame,
    };
    let color_space = match ColorSpace::from_u8(raw.colorspace) {
        Some(color_space) => color_space,
        None => ColorSpace::Rec709,
    };
    let latency_us: u64 = raw.frame_host_processing_latency as u64 * 100;
    let frame_processing_latency = if raw.frame_host_processing_latency == 0 {
        None
    } else {
        Some(Duration::from_micros(latency_us))
    };
    VideoDecodeUnit {
        frame_number: FrameIndex(raw.frame_number as u32),
        frame_type,
        frame_processing_latency,
        receive_duration: Some(
            Duration::from_micros(raw.enqueue_time_us.saturating_sub(raw.receive_time_us)),
        ),
        queue_duration: Some(Duration::from_micros(now_us.saturating_sub(raw.enqueue_time_us))),
        timestamp: Duration::from_micros(raw.presentation_time_us),
        color_space,
        buffers,
    }
}

/// The setup of a stream, out of the numbers of the C library.
pub fn video_setup(video_format: i32, width: i32, height: i32, redraw_rate: i32) -> (r: VideoSetup)
    requires
        exists|format: VideoFormat| #[trigger] format.code() == video_format,
    ensures
        r.format.code() == video_format,
        r.width == width as u32,
        r.height == height as u32,
        r.redraw_rate == redraw_rate as u32,
{
    let format = match VideoFormat::from_i32(video_format) {
        Some(format) => format,
        None => VideoFormat::H264,
    };
    VideoSetup {
        format,
        width: width as u32,
        height: height as u32,
        redraw_rate: redraw_rate as u32,
    }
}

/// The answer to a setup. Where no decoder is installed (teardown or restart), success is
/// reported, so that the C side continues its own shutdown.
pub fn setup_code(decoder_answer: Option<i32>) -> (r: i32)
    ensures
        r == (match decoder_answer {
            Some(code) => code,
            None => 0i32,
        }),
{
    match decoder_answer {
        Some(code) => code,
        None => 0,
    }
}

/// The answer to a submitted frame. Where no decoder is installed, success is reported, so
/// that the C side finishes shutting the stream down instead of retrying.
pub fn submit_code(decoder_answer: Option<DecodeResult>) -> (r: i32)
    ensures
        r == (match decoder_answer {
            Some(result) => result.code(),
            None => 0i32,
        }),
{
    match decoder_answer {
        Some(result) => result.raw(),
        None => 0,
    }
}

pub const CAPABILITY_DIRECT_SUBMIT: u32 = 0x1;

pub const CAPABILITY_REFERENCE_FRAME_INVALIDATION_AVC: u32 = 0x2;

pub const CAPABILITY_REFERENCE_FRAME_INVALIDATION_HEVC: u32 = 0x4;

pub const CAPABILITY_SLOW_OPUS_DECODER: u32 = 0x8;

pub const CAPABILITY_SUPPORTS_ARBITRARY_AUDIO_DURATION: u32 = 0x10;

pub const CAPABILITY_PULL_RENDERER: u32 = 0x20;

pub const CAPABILITY_REFERENCE_FRAME_INVALIDATION_AV1: u32 = 0x40;

/// Every capability flag.
pub const CAPABILITY_ALL: u32 = 0x7F;

/// A set of capability flags of the C library.
#[derive(Debug, Clone, Copy, PartialEq, Eq, Structural)]
pub struct Capabilities {
    pub bits: u32,
}

impl Capabilities {
    /// No flag.
    pub fn empty() -> (r: Capabilities)
        ensures
            r.bits == 0,
    {
        Capabilities { bits: 0 }
    }

    /// Every flag.
    pub fn all() -> (r: Capabilities)
        ensures
            r.bits == CAPABILITY_ALL,
    {
        Capabilities { bits: CAPABILITY_ALL }
    }

    pub fn bits(self) -> (r: u32)
        ensures
            r == self.bits,
    {
        self.bits
    }

    /// Whether every one of the bits is set.
    pub open spec fn has(self, bits: u32) -> bool {
        self.bits & bits == bits
    }

    /// Whether all of the other flags are set.
    pub fn contains(self, other: Capabilities) -> (r: bool)
        ensures
            r == self.has(other.bits),
    {
        self.bits & other.bits == other.bits
    }

    /// The set with one more flag, where `wanted`.
    fn with(self, wanted: bool, flag: u32) -> (r: Capabilities)
        ensures
            r.bits == self.bits | flag_if(wanted, flag),
    {
        let bits = self.bits;
        assert(bits | 0 == bits) by (bit_vector);
        if wanted {
            Capabilities { bits: self.bits | flag }
        } else {
            self
        }
    }
}

/// The flag, or no bit.
pub open spec fn flag_if(wanted: bool, flag: u32) -> u32 {
    if wanted {
        flag
    } else {
        0
    }
}

/// The flags that say what a decoder can do. Pulling frames and direct submission exclude
/// each other; pulling wins.
pub open spec fn capability_flags(capabilities: VideoCapabilities) -> u32 {
    flag_if(capabilities.pull_renderer, CAPABILITY_PULL_RENDERER) | flag_if(
        capabilities.direct_submit && !capabilities.pull_renderer,
        CAPABILITY_DIRECT_SUBMIT,
    ) | flag_if(
        capabilities.reference_frame_invalidation_h264,
        CAPABILITY_REFERENCE_FRAME_INVALIDATION_AVC,
    ) | flag_if(
        capabilities.reference_frame_invalidation_h265,
        CAPABILITY_REFERENCE_FRAME_INVALIDATION_HEVC,
    ) | flag_if(
        capabilities.reference_frame_invalidation_av1,
        CAPABILITY_REFERENCE_FRAME_INVALIDATION_AV1,
    )
}

/// The slice count that fits in the top byte of the capabilities.
pub open spec fn capped_slices(slices: u32) -> u32 {
    if slices <= 255 {
        slices
    } else {
        255
    }
}

/// The capabilities as the C library reads them: the flags, and the slice count in the top
/// byte.
pub open spec fn raw_capabilities(capabilities: VideoCapabilities) -> u32 {
    match capabilities.slices_per_frame {
        Some(slices) => capability_flags(capabilities) | (capped_slices(slices) << 24),
        None => capability_flags(capabilities),
    }
}

/// `CAPABILITY_SLICES_PER_FRAME(x)` from Limelight.h. It is a function-like macro: the slice
/// count lives in the top byte of the capabilities, and moonlight-common-c asks the host for
/// that many slices per frame. Zero means "not set" there and falls back to one slice.
pub fn slices_per_frame_capability(slices: u32) -> (r: u32)
    ensures
        r == capped_slices(slices) << 24,
        r == capped_slices(slices) * 0x100_0000,
        r >> 24 == capped_slices(slices),
        r & CAPABILITY_ALL == 0,
{
    let capped: u32 = if slices <= 255 {
        slices
    } else {
        255
    };
    assert(capped << 24 == capped * 0x100_0000 && (capped << 24) >> 24 == capped && (capped << 24)
        & 0x7F == 0) by (bit_vector)
        requires
            capped <= 255,
    ;
    capped << 24
}

/// What the C library is told about a decoder.
#[derive(Debug, Clone, Copy, PartialEq, Eq, Structural)]
pub struct DecoderCallbacks {
    /// Whether frames are submitted to the decoder; otherwise it pulls them.
    pub submit_decode_unit: bool,
    pub capabilities: i32,
}

/// What the C library is told about the decoder that is installed, if one is.
pub fn raw_callbacks(decoder: Option<VideoCapabilities>) -> (r: DecoderCallbacks)
    ensures
        match decoder {
            Some(capabilities) => {
                &&& r.submit_decode_unit == !capabilities.pull_renderer
                &&& r.capabilities == raw_capabilities(capabilities) as i32
            },
            None => r.submit_decode_unit && r.capabilities == 0,
        },
{
    let video_capabilities = match decoder {
        Some(capabilities) => capabilities,
        None => VideoCapabilities::default(),
    };
    let capabilities = Capabilities::empty().with(
        video_capabilities.pull_renderer,
        CAPABILITY_PULL_RENDERER,
    ).with(
        video_capabilities.direct_submit && !video_capabilities.pull_renderer,
        CAPABILITY_DIRECT_SUBMIT,
    ).with(
        video_capabilities.reference_frame_invalidation_h264,
        CAPABILITY_REFERENCE_FRAME_INVALIDATION_AVC,
    ).with(
        video_capabilities.reference_frame_invalidation_h265,
        CAPABILITY_REFERENCE_FRAME_INVALIDATION_HEVC,
    ).with(
        video_capabilities.reference_frame_invalidation_av1,
        CAPABILITY_REFERENCE_FRAME_INVALIDATION_AV1,
    );
    proof {
        let pull = flag_if(video_capabilities.pull_renderer, CAPABILITY_PULL_RENDERER);
        assert(0 | pull == pull) by (bit_vector);
        assert(capabilities.bits == capability_flags(video_capabilities));
        lemma_pull_flag(video_capabilities);
        assert(0u32 | 0 | 0 | 0 | 0 == 0) by (bit_vector);
    }
    let mut bits: u32 = capabilities.bits();
    if let Some(slices) = video_capabilities.slices_per_frame {
        bits = bits | slices_per_frame_capability(slices);
    }
    DecoderCallbacks {
        submit_decode_unit: !capabilities.contains(
            Capabilities { bits: CAPABILITY_PULL_RENDERER },
        ),
        capabilities: bits as i32,
    }
}

proof fn lemma_pull_flag(capabilities: VideoCapabilities)
    ensures
        (capability_flags(capabilities) & CAPABILITY_PULL_RENDERER == CAPABILITY_PULL_RENDERER)
            == capabilities.pull_renderer,
        (capability_flags(capabilities) & CAPABILITY_DIRECT_SUBMIT == CAPABILITY_DIRECT_SUBMIT)
            == (capabilities.direct_submit && !capabilities.pull_renderer),
        capability_flags(capabilities) & CAPABILITY_ALL == capability_flags(capabilities),
{
    let a = flag_if(capabilities.pull_renderer, CAPABILITY_PULL_RENDERER);
    let b = flag_if(
        capabilities.direct_submit && !capabilities.pull_renderer,
        CAPABILITY_DIRECT_SUBMIT,
    );
    let c = flag_if(
        capabilities.reference_frame_invalidation_h264,
        CAPABILITY_REFERENCE_FRAME_INVALIDATION_AVC,
    );
    let d = flag_if(
        capabilities.reference_frame_invalidation_h265,
        CAPABILITY_REFERENCE_FRAME_INVALIDATION_HEVC,
    );
    let e = flag_if(
        capabilities.reference_frame_invalidation_av1,
        CAPABILITY_REFERENCE_FRAME_INVALIDATION_AV1,
    );
    assert(((a | b | c | d | e) & 0x20 == 0x20) == (a == 0x20) && ((a | b | c | d | e) & 0x1 == 0x1)
        == (b == 0x1) && (a | b | c | d | e) & 0x7F == (a | b | c | d | e)) by (bit_vector)
        requires
            a == 0x20 || a == 0,
            b == 0x1 || b == 0,
            c == 0x2 || c == 0,
            d == 0x4 || d == 0,
            e == 0x40 || e == 0,
    ;
}

/// What the C library reads out of the capabilities: never both pulling and direct
/// submission, each exactly where the decoder asks for it, and the slice count in the top
/// byte without touching any flag.
pub proof fn lemma_raw_capabilities(capabilities: VideoCapabilities)
    ensures
        (raw_capabilities(capabilities) & CAPABILITY_PULL_RENDERER == CAPABILITY_PULL_RENDERER)
            == capabilities.pull_renderer,
        (raw_capabilities(capabilities) & CAPABILITY_DIRECT_SUBMIT == CAPABILITY_DIRECT_SUBMIT)
            == (capabilities.direct_submit && !capabilities.pull_renderer),
        raw_capabilities(capabilities) & CAPABILITY_ALL == capability_flags(capabilities),
        raw_capabilities(capabilities) >> 24 == (match capabilities.slices_per_frame {
            Some(slices) => capped_slices(slices),
            None => 0,
        }),
{
    lemma_pull_flag(capabilities);
    let flags = capability_flags(capabilities);
    let top = match capabilities.slices_per_frame {
        Some(slices) => capped_slices(slices),
        None => 0,
    };
    assert((flags | (top << 24)) & 0x20 == flags & 0x20 && (flags | (top << 24)) & 0x1 == flags
        & 0x1 && (flags | (top << 24)) & 0x7F == flags && (flags | (top << 24)) >> 24 == top && (top
        == 0 ==> flags | (top << 24) == flags) && flags >> 24 == 0) by (bit_vector)
        requires
            flags & 0x7F == flags,
            top <= 255,
    ;
}

/// The delay between two clock readings in order is exactly what leads from the one to the
/// other, and readings out of order have none between them. So delays add up.
pub proof fn lemma_delays_are_exact(a: u64, b: u64, c: u64)
    ensures
        a <= b ==> a + micros_between(a, b) == b,
        b < a ==> micros_between(a, b) == 0,
        a <= b <= c ==> micros_between(a, b) + micros_between(b, c) == micros_between(a, c),
{
}

/// A frame makes sense exactly where its numbers are in the ranges of the protocol.
pub proof fn lemma_valid_numbers(raw: RawDecodeUnit)
    ensures
        raw.valid() <==> {
            &&& 0 <= raw.frame_type <= 1
            &&& raw.colorspace <= 2
            &&& forall|i: int|
                0 <= i < raw.buffers@.len() ==> 0 <= (#[trigger] raw.buffers@[i]).buffer_type <= 3
        },
{
    assert(FrameType::PFrame.code() == 0 && FrameType::Idr.code() == 1);
    assert(ColorSpace::Rec601.code() == 0 && ColorSpace::Rec709.code() == 1
        && ColorSpace::Rec2020.code() == 2);
    assert(BufferType::PicData.code() == 0 && BufferType::Sps.code() == 1 && BufferType::Pps.code()
        == 2 && BufferType::Vps.code() == 3);
    if raw.valid() {
        assert forall|i: int| 0 <= i < raw.buffers@.len() implies 0 <= (
        #[trigger] raw.buffers@[i]).buffer_type <= 3 by {
            assert(is_buffer_type(raw.buffers@[i].buffer_type));
        }
    }
}

/// What a decoder gets of a frame, number by number: the frame number as it is counted, the
/// type and the color space by the numbers of the protocol, a hundred microseconds for each
/// tenth of a millisecond of latency, the delay that leads from one clock reading to the next,
/// the presentation time as it is, and every buffer in its place with all of its bytes.
pub proof fn lemma_converted_frame(raw: RawDecodeUnit, now_us: u64, unit: VideoDecodeUnit)
    requires
        converted(raw, now_us, unit),
    ensures
        raw.frame_number >= 0 ==> unit.frame_number.0 == raw.frame_number,
        raw.frame_number < 0 ==> unit.frame_number.0 == raw.frame_number + 0x1_0000_0000,
        unit.frame_type is PFrame <==> raw.frame_type == 0,
        unit.frame_type is Idr <==> raw.frame_type == 1,
        unit.color_space is Rec601 <==> raw.colorspace == 0,
        unit.color_space is Rec709 <==> raw.colorspace == 1,
        unit.color_space is Rec2020 <==> raw.colorspace == 2,
        unit.frame_processing_latency is None <==> raw.frame_host_processing_latency == 0,
        forall|d: u64|
            d != 0 && d == 100 * raw.frame_host_processing_latency ==> unit.frame_processing_latency
                == Some(#[trigger] video::micros_duration(d)),
        forall|d: u64|
            raw.receive_time_us + d == raw.enqueue_time_us ==> unit.receive_duration == Some(
                #[trigger] video::micros_duration(d),
            ),
        raw.enqueue_time_us < raw.receive_time_us ==> unit.receive_duration == Some(
            video::micros_duration(0),
        ),
        forall|d: u64|
            raw.enqueue_time_us + d == now_us ==> unit.queue_duration == Some(
                #[trigger] video::micros_duration(d),
            ),
        now_us < raw.enqueue_time_us ==> unit.queue_duration == Some(video::micros_duration(0)),
        forall|d: u64|
            d == raw.presentation_time_us ==> unit.timestamp == #[trigger] video::micros_duration(
                d,
            ),
        unit.buffers@.len() == raw.buffers@.len(),
        forall|i: int|
            0 <= i < raw.buffers@.len() ==> {
                &&& (#[trigger] unit.buffers@[i]).1 == raw.buffers@[i].data@
                &&& unit.buffers@[i].0 is PicData <==> raw.buffers@[i].buffer_type == 0
                &&& unit.buffers@[i].0 is Sps <==> raw.buffers@[i].buffer_type == 1
                &&& unit.buffers@[i].0 is Pps <==> raw.buffers@[i].buffer_type == 2
                &&& unit.buffers@[i].0 is Vps <==> raw.buffers@[i].buffer_type == 3
            },
{
    let n = raw.frame_number;
    assert(n >= 0 ==> (n as u32) == n) by (bit_vector);
    assert(n < 0 ==> (n as u32) == n + 0x1_0000_0000) by (bit_vector);
}

/// A later look at the same frame changes nothing but how long it waited, and that by exactly
/// the time between the two looks.
pub proof fn lemma_later_looks(
    raw: RawDecodeUnit,
    now_us: u64,
    later_us: u64,
    unit: VideoDecodeUnit,
    later: VideoDecodeUnit,
    queued: u64,
)
    requires
        converted(raw, now_us, unit),
        converted(raw, later_us, later),
        raw.enqueue_time_us <= now_us <= later_us,
        raw.enqueue_time_us + queued == now_us,
    ensures
        unit.queue_duration == Some(video::micros_duration(queued)),
        later.queue_duration == Some(
            video::micros_duration((queued + (later_us - now_us)) as u64),
        ),
        later.frame_number == unit.frame_number,
        later.frame_type == unit.frame_type,
        later.frame_processing_latency == unit.frame_processing_latency,
        later.receive_duration == unit.receive_duration,
        later.timestamp == unit.timestamp,
        later.color_space == unit.color_space,
        later.buffers@ == unit.buffers@,
{
    assert forall|i: int| 0 <= i < raw.buffers@.len() implies later.buffers@[i]
        == #[trigger] unit.buffers@[i] by {
        assert(later.buffers@[i].1 == unit.buffers@[i].1);
        assert(later.buffers@[i].0 == unit.buffers@[i].0);
    }
    assert(later.buffers@ =~= unit.buffers@);
}

/// The slice count is the wanted one as long as a byte can hold it, and else the largest that a
/// byte can hold.
pub proof fn lemma_slices_fit_a_byte(slices: u32, more: u32)
    ensures
        slices < 0x100 ==> capped_slices(slices) == slices,
        slices >= 0x100 ==> capped_slices(slices) == 0xFF,
        slices <= more ==> capped_slices(slices) <= capped_slices(more),
{
}

/// Each bit of the capabilities is there exactly where the decoder asks for what it stands for:
/// direct submission only where no frames are pulled, reference frame invalidation codec by
/// codec. No other flag is ever there, and the top byte is the slice count.
pub proof fn lemma_capability_bits(capabilities: VideoCapabilities)
    ensures
        (raw_capabilities(capabilities) & 0x20 != 0) == capabilities.pull_renderer,
        (raw_capabilities(capabilities) & 0x01 != 0) == (capabilities.direct_submit
            && !capabilities.pull_renderer),
        (raw_capabilities(capabilities) & 0x02 != 0)
            == capabilities.reference_frame_invalidation_h264,
        (raw_capabilities(capabilities) & 0x04 != 0)
            == capabilities.reference_frame_invalidation_h265,
        (raw_capabilities(capabilities) & 0x40 != 0)
            == capabilities.reference_frame_invalidation_av1,
        raw_capabilities(capabilities) & 0x00FF_FF98 == 0,
        capabilities.slices_per_frame is None ==> raw_capabilities(capabilities) >> 24 == 0,
        capabilities.slices_per_frame matches Some(slices) ==> {
            &&& slices < 0x100 ==> raw_capabilities(capabilities) >> 24 == slices
            &&& slices >= 0x100 ==> raw_capabilities(capabilities) >> 24 == 0xFF
        },
{
    let a = flag_if(capabilities.pull_renderer, CAPABILITY_PULL_RENDERER);
    let b = flag_if(
        capabilities.direct_submit && !capabilities.pull_renderer,
        CAPABILITY_DIRECT_SUBMIT,
    );
    let c = flag_if(
        capabilities.reference_frame_invalidation_h264,
        CAPABILITY_REFERENCE_FRAME_INVALIDATION_AVC,
    );
    let d = flag_if(
        capabilities.reference_frame_invalidation_h265,
        CAPABILITY_REFERENCE_FRAME_INVALIDATION_HEVC,
    );
    let e = flag_if(
        capabilities.reference_frame_invalidation_av1,
        CAPABILITY_REFERENCE_FRAME_INVALIDATION_AV1,
    );
    let top = match capabilities.slices_per_frame {
        Some(slices) => capped_slices(slices),
        None => 0,
    };
    let flags = a | b | c | d | e;
    let raw = flags | (top << 24);
    assert((raw & 0x20 != 0) == (a != 0) && (raw & 0x01 != 0) == (b != 0) && (raw & 0x02 != 0) == (c
        != 0) && (raw & 0x04 != 0) == (d != 0) && (raw & 0x40 != 0) == (e != 0) && raw & 0x00FF_FF98
        == 0 && raw >> 24 == top && (top == 0 ==> raw == flags)) by (bit_vector)
        requires
            a == 0x20 || a == 0,
            b == 0x1 || b == 0,
            c == 0x2 || c == 0,
            d == 0x4 || d == 0,
            e == 0x40 || e == 0,
            top <= 255,
            flags == a | b | c | d | e,
            raw == flags | (top << 24),
    ;
}

/// A flag is in a set exactly where none of its bits is missing from it.
pub proof fn lemma_capabilities_have(capabilities: Capabilities, bits: u32)
    ensures
        capabilities.has(bits) <==> bits & !capabilities.bits == 0,
{
    let all = capabilities.bits;
    assert((all & bits == bits) == (bits & !all == 0)) by (bit_vector);
}

} // verus!
