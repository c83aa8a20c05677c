//! What a stream is asked for, and what a server can give.

use crate::stream::audio::AudioConfig;
use crate::stream::keys::SunshineEncryption;
use crate::stream::video::{
    ColorRange, ColorSpace, ServerCodecModeSupport, VideoFormats, SCM_AV1_MAIN10, SCM_HEVC_MAIN10,
    VIDEO_FORMAT_ALL, VIDEO_FORMAT_MASK_H264,
};
use crate::version::ServerVersion;
use vstd::prelude::*;

verus! {

/// Why a server cannot give what the settings ask for.
#[derive(Debug, Clone, Copy, PartialEq, Eq, Structural)]
pub enum StreamConfigError {
    NotSupportedHdr,
    NotSupported4k,
    NotSupported4kCodecMissing,
    NotSupported4kUpdateGfe,
}

pub const ENCFLG_NONE: u32 = 0x0000_0000;

pub const ENCFLG_AUDIO: u32 = 0x0000_0001;

pub const ENCFLG_VIDEO: u32 = 0x0000_0002;

/// Foundation Extension
///
/// If microphone encryption should be enabled.
pub const ENCFLG_FOUNDATION_MICROPHONE: u32 = 0x0000_0004;

pub const ENCFLG_ALL: u32 = 0xFFFF_FFFF;

/// Which streams are to be encrypted.
#[derive(Debug, Clone, Copy, PartialEq, Eq, Structural)]
pub struct EncryptionFlags {
    pub bits: u32,
}

impl EncryptionFlags {
    /// Whether every one of the bits is set.
    pub open spec fn has(self, bits: u32) -> bool {
        self.bits & bits == bits
    }

    /// Whether all of the other flags are set.
    pub fn contains(self, other: EncryptionFlags) -> (r: bool)
        ensures
            r == self.has(other.bits),
    {
        self.bits & other.bits == other.bits
    }
}

/// Where the server is, seen from the client.
#[derive(Debug, Clone, Copy, PartialEq, Eq, Structural)]
pub enum StreamingConfig {
    Local,
    Remote,
    Auto,
}

impl StreamingConfig {
    /// The number in the C library.
    pub open spec fn code(self) -> u32 {
        match self {
            StreamingConfig::Local => 0,
            StreamingConfig::Remote => 1,
            StreamingConfig::Auto => 2,
        }
    }

    /// The value with that number, if there is one.
    pub fn from_u32(raw: u32) -> (r: Option<StreamingConfig>)
        ensures
            match r {
                Some(config) => config.code() == raw,
                None => forall|config: StreamingConfig| #[trigger] config.code() != raw,
            },
    {
        match raw {
            0 => Some(StreamingConfig::Local),
            1 => Some(StreamingConfig::Remote),
            2 => Some(StreamingConfig::Auto),
            _ => None,
        }
    }
}

/// Which gamepads are attached, one bit each.
#[derive(Debug, Clone, Copy, PartialEq, Eq, Structural)]
pub struct ActiveGamepads {
    pub bits: u16,
}

/// What an Apollo server lets the client do.
#[derive(Debug, Clone, Copy, PartialEq, Eq, Structural)]
pub struct ApolloPermissions {
    pub bits: u32,
}

/// This contains technical details that are required for a stream to start.
pub struct MoonlightStreamConfig {
    /// The address of the server
    pub address: String,
    /// The `appversion` of the server from the `/serverinfo` response
    pub version: ServerVersion,
    /// The `GfeVersion` of the server from the `/serverinfo` response
    pub gfe_version: Option<String>,
    /// The `ServerCodeModeSupport` of the server from the `/serverinfo` response
    pub server_codec_mode_support: ServerCodecModeSupport,
    /// The rtsp session from the `/launch` or `/resume` response
    pub rtsp_session_url: Option<String>,
    /// See [`SunshineEncryption`]
    pub encryption: SunshineEncryption,
    /// Apollo Extension
    pub apollo_permissions: Option<ApolloPermissions>,
    /// Foundation Extension
    ///
    /// If the foundation microphone should be enabled.
    ///
    /// Only enable this if the server supports foundation's microphone protocol.
    pub foundation_enable_mic: bool,
}

/// What the client wants of a stream.
///
/// Before starting a stream [`MoonlightStreamSettings::adjust_for_server`] should be called to
/// support older servers.
#[derive(Debug, Clone, Copy, PartialEq, Eq, Structural)]
pub struct MoonlightStreamSettings {
    pub width: u32,
    pub height: u32,
    pub fps: u32,
    pub fps_x100: u32,
    pub bitrate: u32,
    pub packet_size: u32,
    pub encryption_flags: EncryptionFlags,
    pub streaming_remotely: StreamingConfig,
    pub sops: bool,
    pub hdr: bool,
    pub supported_video_formats: VideoFormats,
    pub color_space: ColorSpace,
    pub color_range: ColorRange,
    pub local_audio_play_mode: bool,
    pub audio_config: AudioConfig,
    pub gamepads_attached: ActiveGamepads,
    pub gamepads_persist_after_disconnect: bool,
    /// This will enable microphone support, if the server supports it.
    pub enable_mic: bool,
}

/// Whether a server with these codec modes can stream HDR.
pub open spec fn hdr_supported(support: ServerCodecModeSupport) -> bool {
    support.has(SCM_HEVC_MAIN10) || support.has(SCM_AV1_MAIN10)
}

/// Whether a server can stream more than 4K.
pub open spec fn beyond_4k_supported(
    version: ServerVersion,
    support: ServerCodecModeSupport,
) -> bool {
    support.has(SCM_HEVC_MAIN10) || version.sunshine_like()
}

/// Whether the GFE version is not of the 2.x line.
pub open spec fn gfe_is_not_2(gfe_version: Seq<char>) -> bool {
    !(gfe_version.len() >= 2 && gfe_version[0] == '2' && gfe_version[1] == '.')
}

/// The resolutions that the software of Nvidia supports with optimal game settings.
pub open spec fn nvidia_supports(width: u32, height: u32) -> bool {
    ||| width == 1280 && height == 720
    ||| width == 1920 && height == 1080
    ||| width == 3840 && height == 2160
}

/// Whether a picture is smaller than 720p in both dimensions.
pub open spec fn under_720p(width: u32, height: u32) -> bool {
    width < 1280 && height < 720
}

impl MoonlightStreamSettings {
    /// Whether one of the dimensions is above 4096.
    pub open spec fn above_4k(self) -> bool {
        self.width > 4096 || self.height > 4096
    }

    /// What keeps a server from the resolution, if anything does. The first of the three
    /// reasons counts.
    pub open spec fn resolution_problem(
        self,
        version: ServerVersion,
        gfe_version: Seq<char>,
        support: ServerCodecModeSupport,
    ) -> Option<StreamConfigError> {
        if self.above_4k() && !beyond_4k_supported(version, support) {
            Some(StreamConfigError::NotSupported4k)
        } else if self.above_4k() && self.supported_video_formats.has(
            !VIDEO_FORMAT_MASK_H264 & VIDEO_FORMAT_ALL,
        ) {
            Some(StreamConfigError::NotSupported4kCodecMissing)
        } else if self.height > 2160 && gfe_is_not_2(gfe_version) {
            Some(StreamConfigError::NotSupported4kUpdateGfe)
        } else {
            None
        }
    }

    /// What keeps a server from the settings, if anything does: HDR is looked at first.
    pub open spec fn problem(
        self,
        version: ServerVersion,
        gfe_version: Seq<char>,
        support: ServerCodecModeSupport,
    ) -> Option<StreamConfigError> {
        if self.hdr && !hdr_supported(support) {
            Some(StreamConfigError::NotSupportedHdr)
        } else {
            self.resolution_problem(version, gfe_version, support)
        }
    }

    /// The settings as a server needs them. Only the software of Nvidia needs a change: no
    /// frame rate above 60, and no optimal game settings at a resolution that it does not
    /// support, unless that is under 720p.
    pub open spec fn adjusted(self, version: ServerVersion) -> MoonlightStreamSettings {
        if version.sunshine_like() {
            self
        } else {
            MoonlightStreamSettings {
                fps: if self.fps > 60 {
                    0
                } else {
                    self.fps
                },
                sops: self.sops && (nvidia_supports(self.width, self.height) || under_720p(
                    self.width,
                    self.height,
                )),
                ..self
            }
        }
    }

    /// Some servers don't support certain settings.
    /// This will try to make the settings compatible with older servers.
    ///
    /// If this doesn't work it'll fail.
    pub fn adjust_for_server(
        &mut self,
        version: ServerVersion,
        gfe_version: &str,
        server_codec_mode_support: ServerCodecModeSupport,
    ) -> (r: Result<(), StreamConfigError>)
        ensures
            match old(self).problem(version, gfe_version@, server_codec_mode_support) {
                Some(error) => r == Err::<(), StreamConfigError>(error) && *final(self) == *old(
                    self,
                ),
                None => r is Ok && *final(self) == old(self).adjusted(version),
            },
    {
        let supports_hdr = MoonlightStreamSettings::is_hdr_supported(server_codec_mode_support);
        if self.hdr && !supports_hdr {
            return Err(StreamConfigError::NotSupportedHdr);
        }
        match self.check_resolution_supported(version, gfe_version, server_codec_mode_support) {
            Ok(()) => {},
            Err(error) => {
                return Err(error);
            },
        }
        if version.is_nvidia_software() {
            // Using an FPS value over 60 causes SOPS to default to 720p60,
            // so force it to 0 to ensure the correct resolution is set. We
            // used to use 60 here but that locked the frame rate to 60 FPS
            // on GFE 3.20.3. We don't need this hack for Sunshine.
            if self.fps > 60 {
                self.fps = 0;
            }
            if self.should_disable_sops(version) {
                self.sops = false;
            }
        }
        Ok(())
    }

    pub fn is_hdr_supported(server_codec_mode_support: ServerCodecModeSupport) -> (r: bool)
        ensures
            r == hdr_supported(server_codec_mode_support),
    {
        server_codec_mode_support.contains(ServerCodecModeSupport { bits: SCM_HEVC_MAIN10 })
            || server_codec_mode_support.contains(ServerCodecModeSupport { bits: SCM_AV1_MAIN10 })
    }

    pub fn is_4k_supported(
        version: ServerVersion,
        server_codec_mode_support: ServerCodecModeSupport,
    ) -> (r: bool)
        ensures
            r == beyond_4k_supported(version, server_codec_mode_support),
    {
        server_codec_mode_support.contains(ServerCodecModeSupport { bits: SCM_HEVC_MAIN10 })
            || !version.is_nvidia_software()
    }

    pub fn is_4k_supported_gfe(gfe_version: &str) -> (r: bool)
        ensures
            r == gfe_is_not_2(gfe_version@),
    {
        !(gfe_version.unicode_len() >= 2 && gfe_version.get_char(0) == '2' && gfe_version.get_char(
            1,
        ) == '.')
    }

    pub fn check_resolution_supported(
        &self,
        version: ServerVersion,
        gfe_version: &str,
        server_codec_mode_support: ServerCodecModeSupport,
    ) -> (r: Result<(), StreamConfigError>)
        ensures
            r == (match self.resolution_problem(
                version,
                gfe_version@,
                server_codec_mode_support,
            ) {
                Some(error) => Err::<(), StreamConfigError>(error),
                None => Ok(()),
            }),
    {
        let resolution_above_4k = self.width > 4096 || self.height > 4096;
        let supports_4k = MoonlightStreamSettings::is_4k_supported(
            version,
            server_codec_mode_support,
        );
        let supports_4k_gfe = MoonlightStreamSettings::is_4k_supported_gfe(gfe_version);
        let other_than_h264 = VideoFormats { bits: VIDEO_FORMAT_MASK_H264 }.complement();
        if resolution_above_4k && !supports_4k {
            return Err(StreamConfigError::NotSupported4k);
        } else if resolution_above_4k && self.supported_video_formats.contains(other_than_h264) {
            return Err(StreamConfigError::NotSupported4kCodecMissing);
        } else if self.height > 2160 && supports_4k_gfe {
            return Err(StreamConfigError::NotSupported4kUpdateGfe);
        }
        Ok(())
    }

    /// Using an unsupported resolution (not 720p, 1080p, or 4K) causes
    /// GFE to force SOPS to 720p60. This is fine for < 720p resolutions like
    /// 360p or 480p, but it is not ideal for 1440p and other resolutions.
    /// When we detect an unsupported resolution, disable SOPS unless it's under 720p.
    pub fn should_disable_sops(&self, version: ServerVersion) -> (r: bool)
        ensures
            r == (!nvidia_supports(self.width, self.height) && !under_720p(self.width, self.height)
                && !version.sunshine_like()),
    {
        let supported = (self.width == 1280 && self.height == 720) || (self.width == 1920
            && self.height == 1080) || (self.width == 3840 && self.height == 2160);
        let under_720p = self.width < 1280 && self.height < 720;
        !supported && !under_720p && version.is_nvidia_software()
    }
}

/// Settings that were adjusted once need no further adjustment, and a server that could give
/// what they asked for still can.
pub proof fn lemma_adjustment_is_final(
    settings: MoonlightStreamSettings,
    version: ServerVersion,
    gfe_version: Seq<char>,
    support: ServerCodecModeSupport,
)
    ensures
        settings.adjusted(version).adjusted(version) == settings.adjusted(version),
        settings.adjusted(version).problem(version, gfe_version, support) == settings.problem(
            version,
            gfe_version,
            support,
        ),
{
}

/// Adjusted settings ask the software of Nvidia for at most 60 frames per second, and for
/// optimal game settings only at a resolution that it supports or under 720p. Everything else stays as the
/// client wants it.
pub proof fn lemma_adjusted_settings(settings: MoonlightStreamSettings, version: ServerVersion)
    ensures
        !version.sunshine_like() ==> settings.adjusted(version).fps <= 60,
        !version.sunshine_like() && settings.adjusted(version).sops ==> nvidia_supports(
            settings.width,
            settings.height,
        ) || under_720p(settings.width, settings.height),
        settings.adjusted(version).sops ==> settings.sops,
        settings.adjusted(version) == (MoonlightStreamSettings {
            fps: settings.adjusted(version).fps,
            sops: settings.adjusted(version).sops,
            ..settings
        }),
{
}

pub const LI_FF_PEN_TOUCH_EVENTS: u32 = 0x01;

pub const LI_FF_CONTROLLER_TOUCH_EVENTS: u32 = 0x02;

/// The features of a host as the C library reports them.
#[derive(Debug, Clone, Copy, PartialEq, Eq, Structural)]
pub struct RawHostFeatures {
    pub bits: u32,
}

impl RawHostFeatures {
    /// Whether every one of the bits is set.
    pub open spec fn has(self, bits: u32) -> bool {
        self.bits & bits == bits
    }

    /// Whether all of the other features are there.
    pub fn contains(self, other: RawHostFeatures) -> (r: bool)
        ensures
            r == self.has(other.bits),
    {
        self.bits & other.bits == other.bits
    }

    /// What the host supports, given the version of its software.
    pub fn into_host_features(self, server_version: ServerVersion) -> (r: HostFeatures)
        ensures
            r == (HostFeatures {
                controller_limit: if server_version.sunshine_like() {
                    16
                } else {
                    4
                },
                pen: self.has(LI_FF_PEN_TOUCH_EVENTS),
                touch: self.has(LI_FF_PEN_TOUCH_EVENTS),
                controller_touch: self.has(LI_FF_CONTROLLER_TOUCH_EVENTS),
                microphone: false,
                extensions: HostProtocolExtensions {
                    sunshine_pen: self.has(LI_FF_PEN_TOUCH_EVENTS),
                    sunshine_touch: self.has(LI_FF_PEN_TOUCH_EVENTS),
                    sunshine_controller_touch: self.has(LI_FF_CONTROLLER_TOUCH_EVENTS),
                    apollo_permissions: None,
                    foundation_microphone: false,
                },
            }),
    {
        let extensions = HostProtocolExtensions {
            sunshine_pen: self.contains(RawHostFeatures { bits: LI_FF_PEN_TOUCH_EVENTS }),
            sunshine_touch: self.contains(RawHostFeatures { bits: LI_FF_PEN_TOUCH_EVENTS }),
            sunshine_controller_touch: self.contains(
                RawHostFeatures { bits: LI_FF_CONTROLLER_TOUCH_EVENTS },
            ),
            ..HostProtocolExtensions::default()
        };
        HostFeatures {
            controller_limit: if server_version.is_sunshine_like() {
                16
            } else {
                4
            },
            pen: extensions.sunshine_pen,
            touch: extensions.sunshine_touch,
            controller_touch: extensions.sunshine_controller_touch,
            extensions,
            ..HostFeatures::default()
        }
    }
}

/// The extensions of the protocol that a host supports.
#[derive(Debug, Clone, Copy, PartialEq, Eq, Structural)]
pub struct HostProtocolExtensions {
    /// Sunshine Extension
    ///
    /// If the host supports pen touch events.
    pub sunshine_pen: bool,
    /// Sunshine Extension
    ///
    /// If the host supports general touch events.
    pub sunshine_touch: bool,
    /// Sunshine Extension
    ///
    /// If the host supports controller touch events.
    pub sunshine_controller_touch: bool,
    /// Apollo Extension
    ///
    /// The permissions from Apollo.
    ///
    /// Use this to query if specific apollo packets are supported or not and if you have
    /// permissions to send these packets or also other packets.
    pub apollo_permissions: Option<ApolloPermissions>,
    /// Foundation Sunshine Extension
    pub foundation_microphone: bool,
}

/// No extension.
pub open spec fn no_extensions() -> HostProtocolExtensions {
    HostProtocolExtensions {
        sunshine_pen: false,
        sunshine_touch: false,
        sunshine_controller_touch: false,
        apollo_permissions: None,
        foundation_microphone: false,
    }
}

impl Default for HostProtocolExtensions {
    fn default() -> (r: Self)
        ensures
            r == no_extensions(),
    {
        HostProtocolExtensions {
            sunshine_pen: false,
            sunshine_touch: false,
            sunshine_controller_touch: false,
            apollo_permissions: None,
            foundation_microphone: false,
        }
    }
}

/// What a host supports.
#[derive(Debug, Clone, Copy, PartialEq, Eq, Structural)]
pub struct HostFeatures {
    /// The controller limit of the host.
    pub controller_limit: usize,
    /// If the host supports pen events
    pub pen: bool,
    /// If the host supports touch events
    pub touch: bool,
    /// If the host supports controller touch events
    pub controller_touch: bool,
    /// If the host supports any microphone protocol.
    pub microphone: bool,
    /// More details about the extensions this host supports
    pub extensions: HostProtocolExtensions,
}

impl Default for HostFeatures {
    fn default() -> (r: Self)
        ensures
            r == (HostFeatures {
                controller_limit: 4,
                pen: false,
                touch: false,
                controller_touch: false,
                microphone: false,
                extensions: no_extensions(),
            }),
    {
        HostFeatures {
            controller_limit: 4,
            controller_touch: false,
            pen: false,
            touch: false,
            microphone: false,
            extensions: HostProtocolExtensions::default(),
        }
    }
}

/// A frame rate of at most 60 is kept for every server, and so is every one for Sunshine. Only
/// one above 60 becomes 0, and that only for the software of Nvidia.
pub proof fn lemma_adjusted_frame_rate(settings: MoonlightStreamSettings, version: ServerVersion)
    ensures
        settings.fps <= 60 || version.mini_patch < 0 ==> settings.adjusted(version).fps
            == settings.fps,
        settings.fps > 60 && version.mini_patch >= 0 ==> settings.adjusted(version).fps == 0,
{
}

/// Optimal game settings stay on exactly where they were on and the server is Sunshine, the
/// picture is 720p, 1080p or 4K, or it is smaller than 720p both ways.
pub proof fn lemma_adjusted_sops(settings: MoonlightStreamSettings, version: ServerVersion)
    ensures
        !settings.sops ==> !settings.adjusted(version).sops,
        settings.sops && version.mini_patch < 0 ==> settings.adjusted(version).sops,
        settings.sops && (settings.width, settings.height) == (1280u32, 720u32)
            ==> settings.adjusted(version).sops,
        settings.sops && (settings.width, settings.height) == (1920u32, 1080u32)
            ==> settings.adjusted(version).sops,
        settings.sops && (settings.width, settings.height) == (3840u32, 2160u32)
            ==> settings.adjusted(version).sops,
        settings.sops && settings.width <= 1279 && settings.height <= 719 ==> settings.adjusted(
            version,
        ).sops,
        settings.adjusted(version).sops && version.mini_patch >= 0 ==> {
            ||| (settings.width, settings.height) == (1280u32, 720u32)
            ||| (settings.width, settings.height) == (1920u32, 1080u32)
            ||| (settings.width, settings.height) == (3840u32, 2160u32)
            ||| settings.width <= 1279 && settings.height <= 719
        },
{
}

/// An adjustment leaves alone whatever is neither the frame rate nor the optimal game settings.
pub proof fn lemma_adjustment_keeps_the_rest(
    settings: MoonlightStreamSettings,
    version: ServerVersion,
)
    ensures
        settings.adjusted(version).width == settings.width,
        settings.adjusted(version).height == settings.height,
        settings.adjusted(version).fps_x100 == settings.fps_x100,
        settings.adjusted(version).bitrate == settings.bitrate,
        settings.adjusted(version).packet_size == settings.packet_size,
        settings.adjusted(version).encryption_flags == settings.encryption_flags,
        settings.adjusted(version).streaming_remotely == settings.streaming_remotely,
        settings.adjusted(version).hdr == settings.hdr,
        settings.adjusted(version).supported_video_formats == settings.supported_video_formats,
        settings.adjusted(version).color_space == settings.color_space,
        settings.adjusted(version).color_range == settings.color_range,
        settings.adjusted(version).local_audio_play_mode == settings.local_audio_play_mode,
        settings.adjusted(version).audio_config == settings.audio_config,
        settings.adjusted(version).gamepads_attached == settings.gamepads_attached,
        settings.adjusted(version).gamepads_persist_after_disconnect
            == settings.gamepads_persist_after_disconnect,
        settings.adjusted(version).enable_mic == settings.enable_mic,
{
}

/// What a server cannot give, reason by reason. HDR needs a codec mode of ten bits, HEVC or AV1.
/// More than 4096 either way needs HEVC Main10 on the software of Nvidia, and a client that
/// does not support every format besides H264. More than 2160 lines need a GFE version that
/// begins with `2.`. The first reason counts, and without a reason there is no problem.
pub proof fn lemma_problem_reasons(
    settings: MoonlightStreamSettings,
    version: ServerVersion,
    gfe_version: Seq<char>,
    support: ServerCodecModeSupport,
)
    ensures
        ({
            let hdr = settings.hdr && support.bits & 0x200 == 0 && support.bits & 0x2_0000 == 0;
            let large = settings.width >= 4097 || settings.height >= 4097;
            let server = large && support.bits & 0x200 == 0 && version.mini_patch >= 0;
            let codecs = large && settings.supported_video_formats.bits & 0xFF00 == 0xFF00;
            let gfe = settings.height >= 2161 && !seq!['2', '.'].is_prefix_of(gfe_version);
            let problem = settings.problem(version, gfe_version, support);
            let resolution = settings.resolution_problem(version, gfe_version, support);
            &&& hdr <==> problem == Some(StreamConfigError::NotSupportedHdr)
            &&& !hdr ==> problem == resolution
            &&& resolution != Some(StreamConfigError::NotSupportedHdr)
            &&& server <==> resolution == Some(StreamConfigError::NotSupported4k)
            &&& !server && codecs <==> resolution == Some(
                StreamConfigError::NotSupported4kCodecMissing,
            )
            &&& !server && !codecs && gfe <==> resolution == Some(
                StreamConfigError::NotSupported4kUpdateGfe,
            )
            &&& !server && !codecs && !gfe <==> resolution is None
        }),
{
    let s = support.bits;
    let f = settings.supported_video_formats.bits;
    assert((s & 0x200 == 0x200) == (s & 0x200 != 0) && (s & 0x2_0000 == 0x2_0000) == (s & 0x2_0000
        != 0)) by (bit_vector);
    assert(!0x000Fu32 & 0xFF0Fu32 == 0xFF00u32) by (bit_vector);
    let start = seq!['2', '.'];
    if start.is_prefix_of(gfe_version) {
        assert(gfe_version[0] == start[0] && gfe_version[1] == start[1]);
    } else if !gfe_is_not_2(gfe_version) {
        assert(start =~= gfe_version.subrange(0, 2));
    }
}

/// What a host supports is read from single bits: bit 0 for pen and touch, bit 1 for the touch
/// of controllers. A feature is there exactly where none of its bits is missing.
pub proof fn lemma_host_feature_bits(raw: RawHostFeatures, other: RawHostFeatures)
    ensures
        raw.has(LI_FF_PEN_TOUCH_EVENTS) <==> raw.bits & 0x01 != 0,
        raw.has(LI_FF_CONTROLLER_TOUCH_EVENTS) <==> raw.bits & 0x02 != 0,
        raw.has(other.bits) <==> other.bits & !raw.bits == 0,
{
    let a = raw.bits;
    let b = other.bits;
    assert((a & 0x01 == 0x01) == (a & 0x01 != 0) && (a & 0x02 == 0x02) == (a & 0x02 != 0) && (a & b
        == b) == (b & !a == 0)) by (bit_vector);
}

/// A flag is set exactly where none of its bits is missing: bit 0 for audio, bit 1 for video,
/// bit 2 for the microphone.
pub proof fn lemma_encryption_bits(flags: EncryptionFlags, other: EncryptionFlags)
    ensures
        flags.has(other.bits) <==> other.bits & !flags.bits == 0,
        flags.has(ENCFLG_AUDIO) <==> flags.bits & 0x01 != 0,
        flags.has(ENCFLG_VIDEO) <==> flags.bits & 0x02 != 0,
        flags.has(ENCFLG_FOUNDATION_MICROPHONE) <==> flags.bits & 0x04 != 0,
        flags.has(ENCFLG_NONE),
        flags.has(ENCFLG_ALL) <==> flags.bits == u32::MAX,
{
    let a = flags.bits;
    let b = other.bits;
    assert((a & b == b) == (b & !a == 0) && (a & 0x01 == 0x01) == (a & 0x01 != 0) && (a & 0x02
        == 0x02) == (a & 0x02 != 0) && (a & 0x04 == 0x04) == (a & 0x04 != 0) && a & 0 == 0 && (a
        & 0xFFFF_FFFF == 0xFFFF_FFFF) == (a == 0xFFFF_FFFF)) by (bit_vector);
}

/// The numbers of the C library for where a server is.
pub proof fn lemma_streaming_numbers(config: StreamingConfig)
    ensures
        config is Local <==> config.code() == 0,
        config is Remote <==> config.code() == 1,
        config is Auto <==> config.code() == 2,
{
}

/// A host without extensions has none of them.
pub proof fn lemma_no_extensions()
    ensures
        !no_extensions().sunshine_pen,
        !no_extensions().sunshine_touch,
        !no_extensions().sunshine_controller_touch,
        no_extensions().apollo_permissions is None,
        !no_extensions().foundation_microphone,
{
}

/// What the checks of a server look at, in numbers: the codec modes with ten bits, the sign of
/// the last number of the version, the first two characters of the GFE version, and the size
/// of the picture.
pub proof fn lemma_server_checks(
    version: ServerVersion,
    gfe_version: Seq<char>,
    support: ServerCodecModeSupport,
    width: u32,
    height: u32,
)
    ensures
        hdr_supported(support) <==> support.bits & 0x2_0200 != 0,
        beyond_4k_supported(version, support) <==> support.bits & 0x200 != 0 || version.mini_patch
            < 0,
        gfe_is_not_2(gfe_version) <==> !seq!['2', '.'].is_prefix_of(gfe_version),
        nvidia_supports(width, height) <==> {
            ||| (width, height) == (1280u32, 720u32)
            ||| (width, height) == (1920u32, 1080u32)
            ||| (width, height) == (3840u32, 2160u32)
        },
        under_720p(width, height) <==> !(width >= 1280 || height >= 720),
{
    let s = support.bits;
    assert((s & 0x200 == 0x200) == (s & 0x200 != 0) && (s & 0x200 == 0x200 || s & 0x2_0000
        == 0x2_0000) == (s & 0x2_0200 != 0)) by (bit_vector);
    let start = seq!['2', '.'];
    if start.is_prefix_of(gfe_version) {
        assert(gfe_version[0] == start[0] && gfe_version[1] == start[1]);
    } else if !gfe_is_not_2(gfe_version) {
        assert(start =~= gfe_version.subrange(0, 2));
    }
}

} // verus!
