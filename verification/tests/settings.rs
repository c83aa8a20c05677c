//! Settings, host features, keys and small texts.

use moonlight_common::stream::audio::AudioConfig;
use moonlight_common::stream::keys::{AesIv, AesKey, PairingCryptoBackend};
use moonlight_common::stream::settings::{
    ActiveGamepads, EncryptionFlags, HostFeatures, HostProtocolExtensions,
    MoonlightStreamSettings, RawHostFeatures, StreamConfigError, StreamingConfig, ENCFLG_ALL,
    ENCFLG_AUDIO, ENCFLG_FOUNDATION_MICROPHONE, ENCFLG_NONE, ENCFLG_VIDEO,
    LI_FF_CONTROLLER_TOUCH_EVENTS, LI_FF_PEN_TOUCH_EVENTS,
};
use moonlight_common::stream::video::{
    ColorRange, ColorSpace, ServerCodecModeSupport, VideoFormats, SCM_AV1_MAIN10, SCM_H264,
    SCM_HEVC, SCM_HEVC_MAIN10, VIDEO_FORMAT_H264, VIDEO_FORMAT_MASK_AV1, VIDEO_FORMAT_MASK_H265,
};
use moonlight_common::text::{trim_brackets, trim_line_end};
use moonlight_common::version::ServerVersion;

const SUNSHINE: ServerVersion = ServerVersion {
    major: 7,
    minor: 1,
    patch: 431,
    mini_patch: -1,
};

const NVIDIA: ServerVersion = ServerVersion {
    major: 7,
    minor: 1,
    patch: 431,
    mini_patch: 0,
};

const GFE: &str = "3.23.0.74";

fn support(bits: u32) -> ServerCodecModeSupport {
    ServerCodecModeSupport { bits }
}

fn settings(width: u32, height: u32) -> MoonlightStreamSettings {
    MoonlightStreamSettings {
        width,
        height,
        fps: 120,
        fps_x100: 12000,
        bitrate: 10000,
        packet_size: 1024,
        encryption_flags: EncryptionFlags { bits: ENCFLG_AUDIO },
        streaming_remotely: StreamingConfig::Auto,
        sops: true,
        hdr: false,
        supported_video_formats: VideoFormats {
            bits: VIDEO_FORMAT_H264,
        },
        color_space: ColorSpace::Rec709,
        color_range: ColorRange::Limited,
        local_audio_play_mode: false,
        audio_config: AudioConfig::stereo(),
        gamepads_attached: ActiveGamepads { bits: 1 },
        gamepads_persist_after_disconnect: false,
        enable_mic: false,
    }
}

#[test]
fn sunshine_gets_the_settings_as_they_are() {
    let mut adjusted = settings(2560, 1440);
    assert_eq!(
        adjusted.adjust_for_server(SUNSHINE, GFE, support(SCM_H264)),
        Ok(())
    );
    assert_eq!(adjusted, settings(2560, 1440));
}

#[test]
fn nvidia_gets_no_high_frame_rate_and_no_unknown_resolution_with_sops() {
    let mut adjusted = settings(2560, 1440);
    assert_eq!(
        adjusted.adjust_for_server(NVIDIA, GFE, support(SCM_H264)),
        Ok(())
    );
    assert_eq!(adjusted.fps, 0);
    assert!(!adjusted.sops);
    assert_eq!(
        adjusted,
        MoonlightStreamSettings {
            fps: 0,
            sops: false,
            ..settings(2560, 1440)
        }
    );
    let once = adjusted;
    assert_eq!(
        adjusted.adjust_for_server(NVIDIA, GFE, support(SCM_H264)),
        Ok(())
    );
    assert_eq!(adjusted, once);
}

#[test]
fn nvidia_keeps_sops_at_its_own_resolutions() {
    for (width, height) in [(1280, 720), (1920, 1080), (3840, 2160)] {
        let mut adjusted = settings(width, height);
        adjusted.fps = 60;
        assert!(!adjusted.should_disable_sops(NVIDIA));
        assert_eq!(
            adjusted.adjust_for_server(NVIDIA, GFE, support(SCM_HEVC)),
            Ok(())
        );
        assert!(adjusted.sops);
        assert_eq!(adjusted.fps, 60);
    }
    assert!(settings(720, 1280).should_disable_sops(NVIDIA));
    assert!(settings(2560, 1440).should_disable_sops(NVIDIA));
    assert!(!settings(2560, 1440).should_disable_sops(SUNSHINE));
}

#[test]
fn nvidia_keeps_sops_under_720p() {
    for (width, height) in [(640, 360), (854, 480), (1279, 719)] {
        let mut adjusted = settings(width, height);
        assert!(!adjusted.should_disable_sops(NVIDIA));
        assert!(!adjusted.should_disable_sops(SUNSHINE));
        assert_eq!(
            adjusted.adjust_for_server(NVIDIA, GFE, support(SCM_H264)),
            Ok(())
        );
        assert!(adjusted.sops);
        assert_eq!(adjusted.fps, 0);
    }
    for (width, height) in [(1280, 719), (1279, 720), (1280, 800)] {
        assert!(settings(width, height).should_disable_sops(NVIDIA));
    }
}

#[test]
fn hdr_needs_a_ten_bit_codec() {
    let mut wanted = settings(1920, 1080);
    wanted.hdr = true;
    let mut adjusted = wanted;
    assert_eq!(
        adjusted.adjust_for_server(SUNSHINE, GFE, support(SCM_H264 | SCM_HEVC)),
        Err(StreamConfigError::NotSupportedHdr)
    );
    assert_eq!(adjusted, wanted);
    for bits in [SCM_HEVC_MAIN10, SCM_AV1_MAIN10, SCM_H264 | SCM_AV1_MAIN10] {
        assert!(MoonlightStreamSettings::is_hdr_supported(support(bits)));
        assert_eq!(adjusted.adjust_for_server(SUNSHINE, GFE, support(bits)), Ok(()));
    }
}

#[test]
fn hdr_is_looked_at_before_the_resolution() {
    let mut adjusted = settings(8192, 4320);
    adjusted.hdr = true;
    assert_eq!(
        adjusted.adjust_for_server(NVIDIA, GFE, support(SCM_H264)),
        Err(StreamConfigError::NotSupportedHdr)
    );
}

#[test]
fn nvidia_needs_hevc_main10_beyond_4k() {
    let mut adjusted = settings(4097, 2160);
    assert_eq!(
        adjusted.adjust_for_server(NVIDIA, GFE, support(SCM_H264)),
        Err(StreamConfigError::NotSupported4k)
    );
    assert_eq!(adjusted, settings(4097, 2160));
    assert!(!MoonlightStreamSettings::is_4k_supported(NVIDIA, support(SCM_AV1_MAIN10)));
    assert!(MoonlightStreamSettings::is_4k_supported(NVIDIA, support(SCM_HEVC_MAIN10)));
    assert!(MoonlightStreamSettings::is_4k_supported(SUNSHINE, support(0)));
    assert_eq!(
        settings(4096, 2160).check_resolution_supported(NVIDIA, GFE, support(SCM_H264)),
        Ok(())
    );
}

#[test]
fn every_other_codec_at_once_is_refused_beyond_4k() {
    let mut wanted = settings(4097, 2160);
    wanted.supported_video_formats = VideoFormats {
        bits: VIDEO_FORMAT_MASK_H265 | VIDEO_FORMAT_MASK_AV1,
    };
    assert_eq!(
        wanted.check_resolution_supported(SUNSHINE, GFE, support(SCM_HEVC)),
        Err(StreamConfigError::NotSupported4kCodecMissing)
    );
    wanted.width = 4096;
    assert_eq!(
        wanted.check_resolution_supported(SUNSHINE, GFE, support(SCM_HEVC)),
        Ok(())
    );
    wanted.width = 4097;
    wanted.supported_video_formats = VideoFormats {
        bits: VIDEO_FORMAT_MASK_H265,
    };
    assert_eq!(
        wanted.check_resolution_supported(SUNSHINE, GFE, support(SCM_HEVC)),
        Ok(())
    );
}

#[test]
fn high_pictures_depend_on_the_gfe_version() {
    let wanted = settings(3840, 2161);
    for gfe in ["3.23.0.74", "", "2", "20.1", "12."] {
        assert!(MoonlightStreamSettings::is_4k_supported_gfe(gfe));
        assert_eq!(
            wanted.check_resolution_supported(SUNSHINE, gfe, support(SCM_HEVC)),
            Err(StreamConfigError::NotSupported4kUpdateGfe)
        );
    }
    for gfe in ["2.", "2.11.4"] {
        assert!(!MoonlightStreamSettings::is_4k_supported_gfe(gfe));
        assert_eq!(
            wanted.check_resolution_supported(SUNSHINE, gfe, support(SCM_HEVC)),
            Ok(())
        );
    }
}

#[test]
fn host_features_follow_the_raw_bits() {
    let none = RawHostFeatures { bits: 0 }.into_host_features(NVIDIA);
    assert_eq!(none, HostFeatures::default());
    assert_eq!(none.extensions, HostProtocolExtensions::default());
    assert_eq!(none.controller_limit, 4);

    let all = RawHostFeatures {
        bits: LI_FF_PEN_TOUCH_EVENTS | LI_FF_CONTROLLER_TOUCH_EVENTS,
    }
    .into_host_features(SUNSHINE);
    assert_eq!(all.controller_limit, 16);
    assert!(all.pen && all.touch && all.controller_touch && !all.microphone);
    assert!(all.extensions.sunshine_pen && all.extensions.sunshine_touch);
    assert!(all.extensions.sunshine_controller_touch);
    assert!(!all.extensions.foundation_microphone);
    assert!(all.extensions.apollo_permissions.is_none());

    let pen = RawHostFeatures {
        bits: LI_FF_PEN_TOUCH_EVENTS,
    }
    .into_host_features(SUNSHINE);
    assert!(pen.pen && pen.touch && !pen.controller_touch);
}

#[test]
fn encryption_flags_are_bits() {
    let all = EncryptionFlags { bits: ENCFLG_ALL };
    let audio = EncryptionFlags { bits: ENCFLG_AUDIO };
    let none = EncryptionFlags { bits: ENCFLG_NONE };
    for bits in [ENCFLG_AUDIO, ENCFLG_VIDEO, ENCFLG_FOUNDATION_MICROPHONE] {
        assert!(all.contains(EncryptionFlags { bits }));
        assert!(!none.contains(EncryptionFlags { bits }));
    }
    assert!(audio.contains(none));
    assert!(!audio.contains(all));
}

#[test]
fn streaming_configs_have_their_numbers() {
    assert_eq!(StreamingConfig::from_u32(0), Some(StreamingConfig::Local));
    assert_eq!(StreamingConfig::from_u32(1), Some(StreamingConfig::Remote));
    assert_eq!(StreamingConfig::from_u32(2), Some(StreamingConfig::Auto));
    assert_eq!(StreamingConfig::from_u32(3), None);
}

struct Counter(Option<u8>);

impl PairingCryptoBackend for Counter {
    type Error = &'static str;

    fn random_bytes(&self, buffer: &mut [u8]) -> Result<(), &'static str> {
        match self.0 {
            Some(first) => {
                for (i, byte) in buffer.iter_mut().enumerate() {
                    *byte = first + i as u8;
                }
                Ok(())
            }
            None => Err("no entropy"),
        }
    }
}

#[test]
fn keys_are_made_of_the_bytes_of_the_backend() {
    let key = AesKey::new_random(&Counter(Some(1))).unwrap_or(AesKey([0; 16]));
    assert_eq!(key.0, [1, 2, 3, 4, 5, 6, 7, 8, 9, 10, 11, 12, 13, 14, 15, 16]);
    let bytes: &[u8] = &key;
    assert_eq!(bytes.len(), 16);
    assert_eq!(key.debug_text(), "[AesKey]");
    assert!(matches!(AesKey::new_random(&Counter(None)), Err("no entropy")));
}

#[test]
fn vectors_are_little_endian() {
    let iv = AesIv::new_random(&Counter(Some(1))).unwrap_or(AesIv(0));
    assert_eq!(iv.0, 0x0403_0201);
    assert_eq!(*iv, 0x0403_0201);
    assert_eq!(iv.to_array(), [1, 2, 3, 4]);
    assert_eq!(AesIv::from_array([0xff, 0, 0, 0x80]).0, 0x8000_00ff);
    assert_eq!(AesIv(u32::MAX).to_array(), [0xff; 4]);
    assert_eq!(iv.debug_text(), "[AesIv]");
    assert!(matches!(AesIv::new_random(&Counter(None)), Err("no entropy")));
}

#[test]
fn line_ends_are_cut_off_log_lines() {
    assert_eq!(trim_line_end("line\r\n"), "line");
    assert_eq!(trim_line_end("line\n\n\r"), "line");
    assert_eq!(trim_line_end("\nline"), "\nline");
    assert_eq!(trim_line_end("a\nb"), "a\nb");
    assert_eq!(trim_line_end("\r\n"), "");
    assert_eq!(trim_line_end(""), "");
}

#[test]
fn brackets_are_cut_off_hosts() {
    assert_eq!(trim_brackets("[::1]"), "::1");
    assert_eq!(trim_brackets("]]host[["), "host");
    assert_eq!(trim_brackets("a[b]c"), "a[b]c");
    assert_eq!(trim_brackets("[]"), "");
    assert_eq!(trim_brackets(""), "");
}
