//! Events of a connection, out of the numbers of moonlight-common-c.

use vstd::prelude::*;

verus! {

/// The stages of the start of a connection.
#[derive(Debug, Clone, Copy, PartialEq, Eq, Structural)]
pub enum Stage {
    Nothing,
    PlatformInit,
    NameResolution,
    AudioStreamInit,
    RtspHandshake,
    ControlStreamInit,
    VideoStreamInit,
    InputStreamInit,
    ControlStreamStart,
    VideoStreamStart,
    AudioStreamStart,
    InputStreamStart,
}

impl Stage {
    /// The number of the stage in the C library.
    pub open spec fn code(self) -> i32 {
        match self {
            Stage::Nothing => 0,
            Stage::PlatformInit => 1,
            Stage::NameResolution => 2,
            Stage::AudioStreamInit => 3,
            Stage::RtspHandshake => 4,
            Stage::ControlStreamInit => 5,
            Stage::VideoStreamInit => 6,
            Stage::InputStreamInit => 7,
            Stage::ControlStreamStart => 8,
            Stage::VideoStreamStart => 9,
            Stage::AudioStreamStart => 10,
            Stage::InputStreamStart => 11,
        }
    }

    /// The stage with that number, if there is one.
    pub fn from_i32(raw: i32) -> (r: Option<Stage>)
        ensures
            match r {
                Some(stage) => stage.code() == raw,
                None => forall|stage: Stage| #[trigger] stage.code() != raw,
            },
    {
        match raw {
            0 => Some(Stage::Nothing),
            1 => Some(Stage::PlatformInit),
            2 => Some(Stage::NameResolution),
            3 => Some(Stage::AudioStreamInit),
            4 => Some(Stage::RtspHandshake),
            5 => Some(Stage::ControlStreamInit),
            6 => Some(Stage::VideoStreamInit),
            7 => Some(Stage::InputStreamInit),
            8 => Some(Stage::ControlStreamStart),
            9 => Some(Stage::VideoStreamStart),
            10 => Some(Stage::AudioStreamStart),
            11 => Some(Stage::InputStreamStart),
            _ => None,
        }
    }
}

/// How well a connection does.
#[derive(Debug, Clone, Copy, PartialEq, Eq, Structural)]
pub enum ConnectionStatus {
    Okay,
    Poor,
}

impl ConnectionStatus {
    /// The number of the status in the C library.
    pub open spec fn code(self) -> i32 {
        match self {
            ConnectionStatus::Okay => 0,
            ConnectionStatus::Poor => 1,
        }
    }

    /// The status with that number, if there is one.
    pub fn from_i32(raw: i32) -> (r: Option<ConnectionStatus>)
        ensures
            match r {
                Some(status) => status.code() == raw,
                None => forall|status: ConnectionStatus| #[trigger] status.code() != raw,
            },
    {
        match raw {
            0 => Some(ConnectionStatus::Okay),
            1 => Some(ConnectionStatus::Poor),
            _ => None,
        }
    }
}

/// What a controller measures of its motion.
#[derive(Debug, Clone, Copy, PartialEq, Eq, Structural)]
pub enum MotionType {
    Acceleration,
    Gyroscope,
}

impl MotionType {
    /// The number of the motion type in the C library.
    pub open spec fn code(self) -> i8 {
        match self {
            MotionType::Acceleration => 1,
            MotionType::Gyroscope => 2,
        }
    }

    /// The motion type with that number, if there is one. An event of another type is
    /// dropped.
    pub fn from_i8(raw: i8) -> (r: Option<MotionType>)
        ensures
            match r {
                Some(motion) => motion.code() == raw,
                None => forall|motion: MotionType| #[trigger] motion.code() != raw,
            },
    {
        match raw {
            1 => Some(MotionType::Acceleration),
            2 => Some(MotionType::Gyroscope),
            _ => None,
        }
    }
}

/// No two stages, statuses or motion types share a number.
pub proof fn lemma_connection_codes(
    stages: (Stage, Stage),
    statuses: (ConnectionStatus, ConnectionStatus),
    motions: (MotionType, MotionType),
)
    ensures
        stages.0.code() == stages.1.code() ==> stages.0 == stages.1,
        statuses.0.code() == statuses.1.code() ==> statuses.0 == statuses.1,
        motions.0.code() == motions.1.code() ==> motions.0 == motions.1,
{
}

/// A point of a color space.
#[derive(Debug, Clone, Copy, PartialEq, Eq, Structural)]
pub struct Primary {
    pub x: u16,
    pub y: u16,
}

/// What the display of the host can show.
#[derive(Debug, Clone, Copy, PartialEq, Eq)]
pub struct SunshineHdrMetadata {
    /// Red, green and blue.
    pub display_primaries: [Primary; 3],
    pub white_point: Primary,
    pub max_display_luminance: u16,
    pub min_display_luminance: u16,
    pub max_content_light_level: u16,
    pub max_frame_average_light_level: u16,
    pub max_full_frame_luminance: u16,
}

/// The HDR metadata as the C library fills it in, the coordinates in pairs of x and y.
#[derive(Debug, Clone, Copy)]
pub struct RawHdrMetadata {
    pub display_primaries: [(u16, u16); 3],
    pub white_point: (u16, u16),
    pub max_display_luminance: u16,
    pub min_display_luminance: u16,
    pub max_content_light_level: u16,
    pub max_frame_average_light_level: u16,
    pub max_full_frame_luminance: u16,
}

/// Whether a point has those coordinates.
pub open spec fn is_point(point: Primary, raw: (u16, u16)) -> bool {
    point.x == raw.0 && point.y == raw.1
}

fn point(raw: (u16, u16)) -> (r: Primary)
    ensures
        is_point(r, raw),
{
    Primary { x: raw.0, y: raw.1 }
}

/// The HDR metadata of the host, where the C library has any: `available` is what it answered
/// when asked to fill in `raw`.
pub fn hdr_metadata(available: bool, raw: RawHdrMetadata) -> (r: Option<SunshineHdrMetadata>)
    ensures
        r is Some == available,
        r matches Some(metadata) ==> {
            &&& forall|i: int|
                0 <= i < 3 ==> is_point(
                    #[trigger] metadata.display_primaries@[i],
                    raw.display_primaries@[i],
                )
            &&& is_point(metadata.white_point, raw.white_point)
            &&& metadata.max_display_luminance == raw.max_display_luminance
            &&& metadata.min_display_luminance == raw.min_display_luminance
            &&& metadata.max_content_light_level == raw.max_content_light_level
            &&& metadata.max_frame_average_light_level == raw.max_frame_average_light_level
            &&& metadata.max_full_frame_luminance == raw.max_full_frame_luminance
        },
{
    if !available {
        return None;
    }
    Some(
        SunshineHdrMetadata {
            display_primaries: [
                point(raw.display_primaries[0]),
                point(raw.display_primaries[1]),
                point(raw.display_primaries[2]),
            ],
            white_point: point(raw.white_point),
            max_display_luminance: raw.max_display_luminance,
            min_display_luminance: raw.min_display_luminance,
            max_content_light_level: raw.max_content_light_level,
            max_frame_average_light_level: raw.max_frame_average_light_level,
            max_full_frame_luminance: raw.max_full_frame_luminance,
        },
    )
}

/// This adds special connection events specifically for moonlight common c
pub trait ConnectionListenerC {
    /// This callback is invoked to indicate that a stage of initialization is about to begin
    fn stage_starting(&mut self, stage: Stage);

    /// This callback is invoked to indicate that a stage of initialization has completed
    fn stage_complete(&mut self, stage: Stage);

    /// This callback is invoked to indicate that a stage of initialization has failed.
    /// ConnListenerConnectionTerminated() will not be invoked because the connection was
    /// not yet fully established. LiInterruptConnection() and LiStopConnection() may
    /// result in this callback being invoked, but it is not guaranteed.
    fn stage_failed(&mut self, stage: Stage, error_code: i32);

    /// This callback is invoked after the connection is successfully established
    fn connection_started(&mut self);

    /// This callback is invoked to log debug message
    fn log_message(&mut self, message: &str);

    /// This callback is used to notify the client of a connection status change.
    /// Consider displaying an overlay for the user to notify them why their stream
    /// is not performing as expected.
    fn connection_status_update(&mut self, status: ConnectionStatus);
}

/// The numbers of the C library, stage by stage: they count up in the order in which a
/// connection starts.
pub proof fn lemma_stage_numbers(stage: Stage)
    ensures
        stage is Nothing <==> stage.code() == 0,
        stage is PlatformInit <==> stage.code() == 1,
        stage is NameResolution <==> stage.code() == 2,
        stage is AudioStreamInit <==> stage.code() == 3,
        stage is RtspHandshake <==> stage.code() == 4,
        stage is ControlStreamInit <==> stage.code() == 5,
        stage is VideoStreamInit <==> stage.code() == 6,
        stage is InputStreamInit <==> stage.code() == 7,
        stage is ControlStreamStart <==> stage.code() == 8,
        stage is VideoStreamStart <==> stage.code() == 9,
        stage is AudioStreamStart <==> stage.code() == 10,
        stage is InputStreamStart <==> stage.code() == 11,
{
}

/// The numbers of the C library for the status of a connection and for motions.
pub proof fn lemma_event_numbers(status: ConnectionStatus, motion: MotionType)
    ensures
        status is Okay <==> status.code() == 0,
        status is Poor <==> status.code() == 1,
        motion is Acceleration <==> motion.code() == 1,
        motion is Gyroscope <==> motion.code() == 2,
{
}

/// A point has one pair of coordinates: its x, then its y.
pub proof fn lemma_points(point: Primary, raw: (u16, u16))
    ensures
        is_point(point, raw) <==> (point.x, point.y) == raw,
{
}

} // verus!
