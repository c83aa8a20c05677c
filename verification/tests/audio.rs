//! Audio configurations and frames.

use bytes::Bytes;
use moonlight_common::stream::audio::{
    AudioConfig, AudioFrame, FromRawAudioConfigError, OpusMultistreamConfig, DEFAULT_AUDIO_PORT,
};
use std::borrow::Cow;
use std::rc::Rc;
use std::sync::Arc;
use std::time::Duration;

#[test]
fn stereo_has_one_coupled_stream() {
    let config = OpusMultistreamConfig::stereo();
    assert_eq!(config.sample_rate, 48000);
    assert_eq!(config.channel_count, 2);
    assert_eq!(config.streams, 1);
    assert_eq!(config.coupled_streams, 1);
    assert_eq!(config.samples_per_frame, 960);
    assert_eq!(config.mapping, [0, 1, 0, 0, 0, 0, 0, 0]);
    assert_eq!(DEFAULT_AUDIO_PORT, 48000);
}

#[test]
fn short_surround_params_give_no_channels() {
    for param in [0, 7, 42, 99] {
        let config = OpusMultistreamConfig::from_surround_param(param);
        assert_eq!(config.sample_rate, 48000);
        assert_eq!(config.samples_per_frame, 960);
        assert_eq!(config.channel_count, 0);
        assert_eq!(config.streams, 0);
        assert_eq!(config.coupled_streams, 0);
        assert_eq!(config.mapping, [0; 8]);
    }
}

#[test]
fn stereo_surround_param_keeps_its_mapping() {
    let config = OpusMultistreamConfig::from_surround_param(21101);
    assert_eq!(config.channel_count, 2);
    assert_eq!(config.streams, 1);
    assert_eq!(config.coupled_streams, 1);
    assert_eq!(config.mapping, [0, 1, 0, 0, 0, 0, 0, 0]);
}

#[test]
fn the_lfe_channel_moves_behind_the_center() {
    let config = OpusMultistreamConfig::from_surround_param(642012453);
    assert_eq!(config.channel_count, 6);
    assert_eq!(config.streams, 4);
    assert_eq!(config.coupled_streams, 2);
    assert_eq!(config.mapping, [0, 1, 2, 3, 4, 5, 0, 0]);

    let config = OpusMultistreamConfig::from_surround_param(85301245673);
    assert_eq!(config.channel_count, 8);
    assert_eq!(config.streams, 5);
    assert_eq!(config.coupled_streams, 3);
    assert_eq!(config.mapping, [0, 1, 2, 3, 4, 5, 6, 7]);
}

#[test]
fn digits_behind_the_eighth_channel_are_ignored() {
    let config = OpusMultistreamConfig::from_surround_param(71112345678999);
    assert_eq!(config.channel_count, 7);
    assert_eq!(config.mapping, [1, 2, 3, 4, 5, 6, 7, 8]);
    let config = OpusMultistreamConfig::from_surround_param(u64::MAX);
    assert_eq!(config.channel_count, 1);
    assert_eq!(config.streams, 8);
    assert_eq!(config.coupled_streams, 4);
    assert_eq!(config.mapping, [4, 6, 7, 4, 4, 0, 7, 3]);
}

#[test]
fn configurations_have_their_numbers() {
    assert_eq!(AudioConfig::stereo(), AudioConfig::new(2, 0x03));
    assert_eq!(AudioConfig::stereo().raw(), 0x0003_02CA);
    assert_eq!(AudioConfig::surround_51().raw(), 0x003F_06CA);
    assert_eq!(AudioConfig::surround_71().raw(), 0x063F_08CA);
    assert_eq!(AudioConfig::stereo().to_surround_audio_info(), 0x0003_0002);
    assert_eq!(AudioConfig::surround_71().to_surround_audio_info(), 0x063F_0008);
}

#[test]
fn numbers_read_back_as_they_were_written() {
    for config in [
        AudioConfig::stereo(),
        AudioConfig::surround_51(),
        AudioConfig::surround_71(),
        AudioConfig::new(0xFF, 0xFFFF),
        AudioConfig::new(0, 0),
    ] {
        assert_eq!(AudioConfig::from_raw(config.raw()), Ok(config));
        let info = config.to_surround_audio_info();
        assert_eq!(AudioConfig::from_surround_audio_info(info), config);
    }
    let config = AudioConfig::from_raw(0x1234_56CA).unwrap();
    assert_eq!(config, AudioConfig::new(0x56, 0x1234));
    assert_eq!(config.raw(), 0x1234_56CA);
}

#[test]
fn a_number_without_the_magic_byte_is_refused() {
    for raw in [0, 1, 0x0003_02CB, 0xCA00] {
        assert_eq!(AudioConfig::from_raw(raw), Err(FromRawAudioConfigError));
    }
    assert_eq!(
        FromRawAudioConfigError.message(),
        "failed to deserialize audio config!"
    );
}

#[test]
fn frames_keep_timestamp_and_bytes() {
    let bytes: &[u8] = &[1, 2, 3];
    let frame = AudioFrame {
        timestamp: Duration::from_millis(20),
        buffer: bytes,
    };
    let copy = frame.to_vec();
    assert_eq!(copy.timestamp, Duration::from_millis(20));
    assert_eq!(copy.buffer, vec![1, 2, 3]);
    assert_eq!(copy.as_ref(), frame);
}

#[test]
fn frames_take_their_bytes_from_many_buffers() {
    let timestamp = Duration::from_millis(5);
    let array = AudioFrame { timestamp, buffer: [1u8, 2, 3] };
    assert_eq!(array.to_vec().buffer, vec![1, 2, 3]);
    let shared = AudioFrame { timestamp, buffer: Bytes::from_static(&[4, 5]) };
    assert_eq!(shared.as_ref().buffer, &[4, 5]);
    let borrowed = AudioFrame { timestamp, buffer: &shared.buffer };
    assert_eq!(borrowed.to_vec().buffer, vec![4, 5]);
    let boxed = AudioFrame { timestamp, buffer: Box::new(vec![6u8]) };
    assert_eq!(boxed.as_ref().buffer, &[6]);
    let slice: Box<[u8]> = vec![7u8, 8].into_boxed_slice();
    let boxed = AudioFrame { timestamp, buffer: slice };
    assert_eq!(boxed.as_ref().buffer, &[7, 8]);
    let counted: Arc<[u8]> = Arc::from(vec![9u8]);
    let counted = AudioFrame { timestamp, buffer: counted };
    assert_eq!(counted.to_vec().buffer, vec![9]);
    let local: Rc<[u8]> = Rc::from(vec![10u8]);
    let local = AudioFrame { timestamp, buffer: local };
    assert_eq!(local.to_vec().buffer, vec![10]);
    let whole: &[u8] = &[11, 12];
    for buffer in [Cow::Borrowed(whole), Cow::Owned(vec![11, 12])] {
        assert_eq!(AudioFrame { timestamp, buffer }.to_vec().buffer, vec![11, 12]);
    }
    let text = AudioFrame { timestamp, buffer: "a\u{e4}" };
    assert_eq!(text.to_vec().buffer, vec![0x61, 0xc3, 0xa4]);
    let owned = AudioFrame { timestamp, buffer: String::from("b") };
    assert_eq!(owned.to_vec().buffer, vec![0x62]);
}
