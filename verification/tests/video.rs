//! Video between the C library, the protocol and decoders.

use bytes::Bytes;
use moonlight_common::stream::c_video::{
    convert_decode_unit, raw_callbacks, setup_code, slices_per_frame_capability, submit_code,
    video_setup, Capabilities, RawBuffer, RawDecodeUnit, CAPABILITY_DIRECT_SUBMIT,
    CAPABILITY_PULL_RENDERER, CAPABILITY_REFERENCE_FRAME_INVALIDATION_AV1,
    CAPABILITY_REFERENCE_FRAME_INVALIDATION_AVC, CAPABILITY_REFERENCE_FRAME_INVALIDATION_HEVC,
};
use moonlight_common::stream::connection::{
    hdr_metadata, ConnectionStatus, MotionType, Primary, RawHdrMetadata, Stage,
};
use moonlight_common::stream::frame::{
    parse_frame, OwnedVideoFrame, PacketFrameType, ParsedNalus, VideoFrameMetadata,
};
use moonlight_common::stream::pull::{
    pull_setup_code, PullVideoManager, PulledFrame, VideoPullResult, ML_PULL_RENDERER_ERROR,
};
use moonlight_common::stream::video::{
    BufferType, ColorSpace, DecodeResult, FrameIndex, FrameType, VideoCapabilities,
    VideoDecodeUnitBuffers, VideoDecoder, VideoFormat, VideoFormats, VideoFrameBuffer, VideoSetup,
    VIDEO_FORMAT_H264, VIDEO_FORMAT_MASK_AV1, VIDEO_FORMAT_MASK_H264, VIDEO_FORMAT_MASK_H265,
};
use std::time::Duration;

/// Same layout as `CAPABILITY_SLICES_PER_FRAME(x)`: `(unsigned char)x << 24`.
#[test]
fn slices_per_frame_goes_to_the_top_byte() {
    assert_eq!(slices_per_frame_capability(4), 4 << 24);
    assert_eq!(slices_per_frame_capability(4) >> 24, 4);
    assert_eq!(slices_per_frame_capability(1000) >> 24, 255);
    assert_eq!(
        slices_per_frame_capability(4) & Capabilities::all().bits(),
        0,
        "must not overlap the capability flags"
    );
}

#[test]
fn capabilities_become_flags() {
    let none = VideoCapabilities::default();
    let cases = [
        (none, 0),
        (
            VideoCapabilities {
                pull_renderer: true,
                direct_submit: true,
                ..none
            },
            CAPABILITY_PULL_RENDERER,
        ),
        (
            VideoCapabilities {
                direct_submit: true,
                slices_per_frame: Some(3),
                ..none
            },
            CAPABILITY_DIRECT_SUBMIT | 3 << 24,
        ),
        (
            VideoCapabilities {
                reference_frame_invalidation_h264: true,
                reference_frame_invalidation_h265: true,
                reference_frame_invalidation_av1: true,
                ..none
            },
            CAPABILITY_REFERENCE_FRAME_INVALIDATION_AVC
                | CAPABILITY_REFERENCE_FRAME_INVALIDATION_HEVC
                | CAPABILITY_REFERENCE_FRAME_INVALIDATION_AV1,
        ),
        (
            VideoCapabilities {
                slices_per_frame: Some(256),
                ..none
            },
            255 << 24,
        ),
    ];
    for (capabilities, bits) in cases {
        let callbacks = raw_callbacks(Some(capabilities));
        assert_eq!(callbacks.capabilities, bits as i32);
        assert_eq!(callbacks.submit_decode_unit, !capabilities.pull_renderer);
    }
    let callbacks = raw_callbacks(None);
    assert_eq!(callbacks.capabilities, 0);
    assert!(callbacks.submit_decode_unit);
}

const PICTURE: &[u8] = &[1, 2, 3];

const HEADER: &[u8] = &[9];

fn raw_unit() -> RawDecodeUnit<'static> {
    RawDecodeUnit {
        frame_number: 17,
        frame_type: 1,
        frame_host_processing_latency: 7,
        receive_time_us: 1_000,
        enqueue_time_us: 1_250,
        presentation_time_us: 33_333,
        colorspace: 2,
        buffers: vec![
            RawBuffer {
                data: HEADER,
                buffer_type: 1,
            },
            RawBuffer {
                data: PICTURE,
                buffer_type: 0,
            },
        ],
    }
}

#[test]
fn a_frame_of_the_c_library_is_converted() {
    let raw = raw_unit();
    assert!(raw.is_valid());
    let unit = convert_decode_unit(&raw, 2_000);
    assert_eq!(unit.frame_number, FrameIndex(17));
    assert_eq!(unit.frame_type, FrameType::Idr);
    assert_eq!(unit.frame_processing_latency, Some(Duration::from_micros(700)));
    assert_eq!(unit.receive_duration, Some(Duration::from_micros(250)));
    assert_eq!(unit.queue_duration, Some(Duration::from_micros(750)));
    assert_eq!(unit.timestamp, Duration::from_micros(33_333));
    assert_eq!(unit.color_space, ColorSpace::Rec2020);
    assert_eq!(unit.buffers.len(), 2);
    let first = unit.buffers.get(0).unwrap();
    assert_eq!(first.buffer_type, BufferType::Sps);
    assert_eq!(first.data, HEADER);
    let second = unit.buffers.get(1).unwrap();
    assert_eq!(second.buffer_type, BufferType::PicData);
    assert_eq!(second.data, PICTURE);
    assert!(unit.buffers.get(2).is_none());
}

#[test]
fn an_unreported_latency_is_no_latency() {
    let mut raw = raw_unit();
    raw.frame_host_processing_latency = 0;
    raw.frame_number = -1;
    let unit = convert_decode_unit(&raw, 0);
    assert_eq!(unit.frame_processing_latency, None);
    assert_eq!(unit.frame_number, FrameIndex(u32::MAX));
    assert_eq!(unit.queue_duration, Some(Duration::ZERO));
    raw.frame_host_processing_latency = u16::MAX;
    raw.receive_time_us = 2_000;
    let unit = convert_decode_unit(&raw, 0);
    assert_eq!(unit.frame_processing_latency, Some(Duration::from_micros(6_553_500)));
    assert_eq!(unit.receive_duration, Some(Duration::ZERO));
}

#[test]
fn unknown_numbers_make_a_frame_invalid() {
    let mut raw = raw_unit();
    raw.frame_type = 2;
    assert!(!raw.is_valid());
    let mut raw = raw_unit();
    raw.colorspace = 3;
    assert!(!raw.is_valid());
    let mut raw = raw_unit();
    raw.buffers[1].buffer_type = 4;
    assert!(!raw.is_valid());
    raw.buffers.clear();
    assert!(raw.is_valid());
    assert_eq!(convert_decode_unit(&raw, 0).buffers.len(), 0);
}

#[test]
fn many_buffers_keep_their_order() {
    let mut buffers = VideoDecodeUnitBuffers::new();
    for i in 0..9usize {
        assert_eq!(buffers.len(), i);
        buffers.push(VideoFrameBuffer {
            buffer_type: BufferType::PicData,
            data: &PICTURE[..i % 3],
        });
    }
    for i in 0..9usize {
        assert_eq!(buffers.get(i).unwrap().data, &PICTURE[..i % 3]);
    }
    assert!(buffers.get(9).is_none());
}

#[test]
fn a_setup_is_made_of_the_numbers() {
    let setup = video_setup(0x0200, 1920, 1080, 60);
    assert_eq!(
        setup,
        VideoSetup {
            format: VideoFormat::H265Main10,
            width: 1920,
            height: 1080,
            redraw_rate: 60,
        }
    );
    assert_eq!(video_setup(1, -1, 0, 0).width, u32::MAX);
}

#[test]
fn a_missing_decoder_counts_as_success() {
    assert_eq!(setup_code(None), 0);
    assert_eq!(setup_code(Some(-7)), -7);
    assert_eq!(submit_code(None), 0);
    assert_eq!(submit_code(Some(DecodeResult::Decoded)), 0);
    assert_eq!(submit_code(Some(DecodeResult::NeedIdr)), -1);
}

const FORMATS: [(VideoFormat, u32); 10] = [
    (VideoFormat::H264, 0x0001),
    (VideoFormat::H264High8_444, 0x0004),
    (VideoFormat::H265, 0x0100),
    (VideoFormat::H265Main10, 0x0200),
    (VideoFormat::H265Rext8_444, 0x0400),
    (VideoFormat::H265Rext10_444, 0x0800),
    (VideoFormat::Av1Main8, 0x1000),
    (VideoFormat::Av1Main10, 0x2000),
    (VideoFormat::Av1High8_444, 0x4000),
    (VideoFormat::Av1High10_444, 0x8000),
];

#[test]
fn formats_have_their_numbers() {
    for (format, bits) in FORMATS {
        assert_eq!(format.bits(), bits);
        assert_eq!(VideoFormat::from_i32(bits as i32), Some(format));
    }
    for raw in [0, 2, 3, 0x10000, -1] {
        assert_eq!(VideoFormat::from_i32(raw), None);
    }
    let h264 = VideoFormats {
        bits: VIDEO_FORMAT_MASK_H264,
    };
    assert!(VideoFormat::H264.contained_in(h264));
    assert!(!VideoFormat::H265.contained_in(h264));
    assert_eq!(h264.complement().bits, VIDEO_FORMAT_MASK_H265 | VIDEO_FORMAT_MASK_AV1);
    assert_eq!(h264.union(h264.complement()).bits, 0xFF0F);
}

#[test]
fn connection_numbers_are_read() {
    assert_eq!(Stage::from_i32(0), Some(Stage::Nothing));
    assert_eq!(Stage::from_i32(4), Some(Stage::RtspHandshake));
    assert_eq!(Stage::from_i32(11), Some(Stage::InputStreamStart));
    assert_eq!(Stage::from_i32(12), None);
    assert_eq!(ConnectionStatus::from_i32(0), Some(ConnectionStatus::Okay));
    assert_eq!(ConnectionStatus::from_i32(1), Some(ConnectionStatus::Poor));
    assert_eq!(ConnectionStatus::from_i32(2), None);
    assert_eq!(MotionType::from_i8(1), Some(MotionType::Acceleration));
    assert_eq!(MotionType::from_i8(2), Some(MotionType::Gyroscope));
    assert_eq!(MotionType::from_i8(0), None);
    assert_eq!(MotionType::from_i8(-1), None);
}

#[test]
fn hdr_metadata_is_there_where_the_c_library_has_it() {
    let raw = RawHdrMetadata {
        display_primaries: [(1, 2), (3, 4), (5, 6)],
        white_point: (7, 8),
        max_display_luminance: 9,
        min_display_luminance: 10,
        max_content_light_level: 11,
        max_frame_average_light_level: 12,
        max_full_frame_luminance: 13,
    };
    assert_eq!(hdr_metadata(false, raw), None);
    let metadata = hdr_metadata(true, raw).unwrap();
    assert_eq!(
        metadata.display_primaries,
        [
            Primary { x: 1, y: 2 },
            Primary { x: 3, y: 4 },
            Primary { x: 5, y: 6 }
        ]
    );
    assert_eq!(metadata.white_point, Primary { x: 7, y: 8 });
    assert_eq!(metadata.max_display_luminance, 9);
    assert_eq!(metadata.min_display_luminance, 10);
    assert_eq!(metadata.max_content_light_level, 11);
    assert_eq!(metadata.max_frame_average_light_level, 12);
    assert_eq!(metadata.max_full_frame_luminance, 13);
}

fn metadata(frame_type: PacketFrameType) -> VideoFrameMetadata {
    VideoFrameMetadata {
        frame_index: FrameIndex(5),
        frame_type,
        timestamp: Duration::from_millis(40),
        host_processing_latency: Some(Duration::from_micros(300)),
    }
}

fn split_in_two(data: &[u8], format: VideoFormat) -> ParsedNalus<'_> {
    let mut buffers = VideoDecodeUnitBuffers::new();
    buffers.push(VideoFrameBuffer {
        buffer_type: BufferType::Sps,
        data: &data[..1],
    });
    buffers.push(VideoFrameBuffer {
        buffer_type: BufferType::PicData,
        data: &data[1..],
    });
    ParsedNalus {
        parsed_frame_type: if format == VideoFormat::H264 {
            FrameType::Idr
        } else {
            FrameType::PFrame
        },
        buffers,
    }
}

#[test]
fn frames_with_nalus_are_split() {
    let frame = parse_frame(
        metadata(PacketFrameType::PFrame),
        PICTURE,
        VideoFormat::H264,
        split_in_two,
    );
    assert_eq!(frame.metadata, metadata(PacketFrameType::PFrame));
    assert_eq!(frame.parsed_frame_type, FrameType::Idr);
    assert_eq!(frame.buffers.len(), 2);
    assert_eq!(frame.buffers.get(0).unwrap().data, &PICTURE[..1]);
    let frame = parse_frame(
        metadata(PacketFrameType::Idr),
        PICTURE,
        VideoFormat::H265Rext10_444,
        split_in_two,
    );
    assert_eq!(frame.parsed_frame_type, FrameType::PFrame);
}

#[test]
fn frames_without_nalus_are_one_buffer() {
    let types = [
        (PacketFrameType::Idr, FrameType::Idr),
        (PacketFrameType::PFrame, FrameType::PFrame),
        (PacketFrameType::IntraRefresh, FrameType::PFrame),
        (PacketFrameType::RefsInvalidated, FrameType::PFrame),
    ];
    for (said, parsed) in types {
        let frame = parse_frame(metadata(said), PICTURE, VideoFormat::Av1Main10, split_in_two);
        assert_eq!(frame.parsed_frame_type, parsed);
        assert_eq!(frame.buffers.len(), 1);
        let buffer = frame.buffers.get(0).unwrap();
        assert_eq!(buffer.buffer_type, BufferType::PicData);
        assert_eq!(buffer.data, PICTURE);
    }
}

#[test]
fn an_owned_frame_is_parsed_when_it_is_looked_at() {
    let owned = OwnedVideoFrame {
        format: VideoFormat::Av1Main8,
        metadata: metadata(PacketFrameType::Idr),
        frame_data: Bytes::from_static(PICTURE),
    };
    let copy = owned.clone();
    assert_eq!(copy.raw(), PICTURE);
    assert_eq!(copy.metadata(), metadata(PacketFrameType::Idr));
    let unit = copy.as_ref(split_in_two).into_decode_unit();
    assert_eq!(unit.frame_number, FrameIndex(5));
    assert_eq!(unit.frame_type, FrameType::Idr);
    assert_eq!(unit.frame_processing_latency, Some(Duration::from_micros(300)));
    assert_eq!(unit.receive_duration, None);
    assert_eq!(unit.queue_duration, None);
    assert_eq!(unit.timestamp, Duration::from_millis(40));
    assert_eq!(unit.color_space, ColorSpace::Rec709);
    assert_eq!(unit.buffers.get(0).unwrap().data, PICTURE);
}

const SETUP: VideoSetup = VideoSetup {
    format: VideoFormat::H264,
    width: 1280,
    height: 720,
    redraw_rate: 60,
};

fn formats() -> VideoFormats {
    VideoFormats {
        bits: VIDEO_FORMAT_H264,
    }
}

#[test]
fn a_pulling_decoder_says_so() {
    let (decoder, _manager) = PullVideoManager::new(formats());
    assert_eq!(decoder.supported_formats(), formats());
    assert_eq!(
        decoder.capabilities(),
        VideoCapabilities {
            pull_renderer: true,
            ..VideoCapabilities::default()
        }
    );
}

#[test]
fn a_setup_travels_to_the_manager_and_its_answer_back() {
    let (mut decoder, mut manager) = PullVideoManager::new(formats());
    assert_eq!(manager.poll_setup(), Err(VideoPullResult::NotActive));
    assert_eq!(manager.send_setup_result(5), Ok(()));
    assert_eq!(decoder.setup(SETUP), 5);
    assert_eq!(manager.poll_setup(), Ok(SETUP));
    assert_eq!(manager.wait_for_setup(), Ok(SETUP));
    assert_eq!(manager.poll_setup(), Err(VideoPullResult::NotActive));
    assert_eq!(manager.wait_for_setup(), Ok(SETUP));
    assert_eq!(
        manager.send_setup_result(6),
        Err(VideoPullResult::SetupSuccessAlreadySent)
    );
}

#[test]
fn a_decoder_without_a_manager_reports_an_error() {
    let (mut decoder, manager) = PullVideoManager::new(formats());
    drop(manager);
    assert_eq!(decoder.setup(SETUP), ML_PULL_RENDERER_ERROR);
    assert_eq!(ML_PULL_RENDERER_ERROR, -100001);
    assert_eq!(pull_setup_code(None), -100001);
    assert_eq!(pull_setup_code(Some(3)), 3);
}

#[test]
fn a_manager_without_a_decoder_still_owes_the_answer() {
    let (decoder, mut manager) = PullVideoManager::new(formats());
    drop(decoder);
    for _ in 0..2 {
        assert_eq!(
            manager.send_setup_result(0),
            Err(VideoPullResult::CannotFinishSetup)
        );
    }
    assert_eq!(manager.wait_for_setup(), Err(VideoPullResult::NotActive));
}

#[test]
fn waiting_takes_no_further_setup() {
    let (mut decoder, mut manager) = PullVideoManager::new(formats());
    let second = VideoSetup { width: 1920, ..SETUP };
    assert_eq!(manager.send_setup_result(5), Ok(()));
    assert_eq!(decoder.setup(SETUP), 5);
    assert_eq!(decoder.setup(second), ML_PULL_RENDERER_ERROR);
    assert_eq!(manager.wait_for_setup(), Ok(SETUP));
    assert_eq!(manager.wait_for_setup(), Ok(SETUP));
    drop(decoder);
    assert_eq!(manager.poll_setup(), Ok(second));
    assert_eq!(manager.wait_for_setup(), Ok(second));
    assert_eq!(manager.poll_setup(), Err(VideoPullResult::NotActive));
    assert_eq!(
        manager.send_setup_result(6),
        Err(VideoPullResult::SetupSuccessAlreadySent)
    );
}

#[test]
fn only_the_first_answer_arrives() {
    let (mut decoder, mut manager) = PullVideoManager::new(formats());
    assert_eq!(manager.send_setup_result(1), Ok(()));
    for code in 2..5 {
        assert_eq!(
            manager.send_setup_result(code),
            Err(VideoPullResult::SetupSuccessAlreadySent)
        );
    }
    assert_eq!(decoder.setup(SETUP), 1);
    assert_eq!(decoder.setup(SETUP), ML_PULL_RENDERER_ERROR);
    drop(decoder);
    assert_eq!(
        manager.send_setup_result(5),
        Err(VideoPullResult::SetupSuccessAlreadySent)
    );
}

#[test]
fn activity_is_what_was_written_last() {
    let (mut decoder, mut manager) = PullVideoManager::new(formats());
    assert_eq!(manager.check_active(), Err(VideoPullResult::NotActive));
    decoder.stop();
    assert_eq!(manager.check_active(), Err(VideoPullResult::NotActive));
    decoder.start();
    decoder.start();
    assert_eq!(manager.poll_setup(), Err(VideoPullResult::NotActive));
    assert_eq!(manager.check_active(), Ok(()));
    decoder.stop();
    decoder.start();
    assert_eq!(manager.check_active(), Ok(()));
}

fn sendable<T: Send>(value: T) -> T {
    value
}

#[test]
fn both_halves_can_go_to_other_threads() {
    let (decoder, manager) = PullVideoManager::new(formats());
    let decoder = sendable(decoder);
    let manager = sendable(manager);
    assert_eq!(decoder.supported_formats(), formats());
    assert_eq!(manager.check_active(), Err(VideoPullResult::NotActive));
}

#[test]
fn the_server_has_no_say_in_nalus() {
    let frames = [PacketFrameType::Idr, PacketFrameType::IntraRefresh]
        .map(|said| parse_frame(metadata(said), PICTURE, VideoFormat::H265, split_in_two));
    assert_eq!(frames[0].parsed_frame_type, frames[1].parsed_frame_type);
    assert_eq!(frames[0].buffers, frames[1].buffers);
    assert_ne!(frames[0].metadata, frames[1].metadata);
}

fn pulled() -> PulledFrame<'static> {
    PulledFrame {
        frame_handle: 0x1234,
        decode_unit: raw_unit(),
        now_us: 2_000,
    }
}

#[test]
fn frames_are_pulled_only_while_the_stream_runs() {
    let (mut decoder, mut manager) = PullVideoManager::new(formats());
    assert!(matches!(
        manager.poll_next_video_frame(|| panic!("not asked")),
        Err(VideoPullResult::NotActive)
    ));
    decoder.start();
    assert_eq!(manager.check_active(), Ok(()));
    assert!(matches!(
        manager.poll_next_video_frame(|| None),
        Err(VideoPullResult::ValueNotPresent)
    ));
    {
        let mut unit = match manager.wait_for_next_video_frame(|| Some(pulled())) {
            Ok(unit) => unit,
            Err(_) => panic!("there is a frame"),
        };
        assert_eq!(unit.frame_number, FrameIndex(17));
        assert_eq!(unit.queue_duration, Some(Duration::from_micros(750)));
        unit.set_result(DecodeResult::NeedIdr);
        assert_eq!(unit.completion(), (0x1234, -1));
    }
    decoder.stop();
    assert_eq!(manager.check_active(), Err(VideoPullResult::NotActive));
    assert!(matches!(
        manager.wait_for_next_video_frame(|| panic!("not asked")),
        Err(VideoPullResult::NotActive)
    ));
}

#[test]
fn the_result_that_was_set_last_is_reported() {
    let unset = PullVideoManager::pulled_frame(Some(pulled()));
    match unset {
        Ok(unit) => assert_eq!(unit.completion(), (0x1234, 0)),
        Err(_) => panic!("there is a frame"),
    }
    let results = [
        DecodeResult::NeedIdr,
        DecodeResult::Decoded,
        DecodeResult::NeedIdr,
    ];
    for count in 1..4 {
        let mut unit = match PullVideoManager::pulled_frame(Some(pulled())) {
            Ok(unit) => unit,
            Err(_) => panic!("there is a frame"),
        };
        for result in &results[..count] {
            unit.set_result(*result);
        }
        assert_eq!(unit.completion(), (0x1234, results[count - 1].raw()));
    }
}

#[test]
fn pull_results_say_what_is_wrong() {
    let cases = [
        (VideoPullResult::ValueNotPresent, "no video decode unit present"),
        (VideoPullResult::NotActive, "this video renderer is not active"),
        (
            VideoPullResult::CannotFinishSetup,
            "cannot finish the video renderer setup",
        ),
        (
            VideoPullResult::SetupSuccessAlreadySent,
            "the setup success was already sent",
        ),
    ];
    for (result, message) in cases {
        assert_eq!(result.message(), message);
    }
}
