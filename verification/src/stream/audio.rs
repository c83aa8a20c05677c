//! Audio configurations and audio frames.

use crate::stream::frame;
use crate::stream::frame::bytes_slice;
use bytes::Bytes;
use std::borrow::Cow;
use std::rc::Rc;
use std::sync::Arc;
use std::time::Duration;
use vstd::prelude::*;
use vstd::slice::slice_to_vec;
use vstd::utf8::*;

verus! {

pub const DEFAULT_AUDIO_PORT: u16 = 48000;

/// This structure provides the Opus multistream decoder parameters required to successfully
/// decode the audio stream being sent from the computer. See opus_multistream_decoder_init docs
/// for details about these fields.
///
/// The supplied mapping array is indexed according to the following output channel order:
/// 0 - Front Left
/// 1 - Front Right
/// 2 - Center
/// 3 - LFE
/// 4 - Back Left
/// 5 - Back Right
/// 6 - Side Left
/// 7 - Side Right
///
/// If the mapping order does not match the channel order of the audio renderer, you may swap
/// the values in the mismatched indices until the mapping array matches the desired channel
/// order.
#[derive(Debug, Clone)]
pub struct OpusMultistreamConfig {
    pub sample_rate: u32,
    pub channel_count: u32,
    pub streams: u32,
    pub coupled_streams: u32,
    pub samples_per_frame: u32,
    pub mapping: [u8; 8],
}

/// The decimal digits of a number, the first one first. Zero has one digit.
pub open spec fn decimal_digits(n: nat) -> Seq<nat>
    decreases n,
{
    if n < 10 {
        seq![n]
    } else {
        decimal_digits(n / 10).push(n % 10)
    }
}

/// The channel mapping that the digits give: those behind the first three, as far as there
/// are any, and zero for the rest.
pub open spec fn digit_mapping(digits: Seq<nat>) -> Seq<u8> {
    Seq::new(
        8,
        |i: int|
            if i + 3 < digits.len() {
                digits[i + 3] as u8
            } else {
                0
            },
    )
}

/// A mapping with the last of its channels moved to the place behind the center, where the
/// LFE channel belongs; the channels from there on move up by one.
pub open spec fn lfe_behind_center(mapping: Seq<u8>, channels: int) -> Seq<u8> {
    Seq::new(
        8,
        |i: int|
            if i == 3 {
                mapping[channels - 1]
            } else if 4 <= i < channels {
                mapping[i - 1]
            } else {
                mapping[i]
            },
    )
}

/// The mapping that a surround parameter with those digits gives.
pub open spec fn surround_mapping(digits: Seq<nat>) -> Seq<u8> {
    if digits[0] == 6 || digits[0] == 8 {
        lfe_behind_center(digit_mapping(digits), digits[0] as int)
    } else {
        digit_mapping(digits)
    }
}

proof fn lemma_decimal_digits(n: nat)
    ensures
        decimal_digits(n).len() >= 1,
        forall|i: int| 0 <= i < decimal_digits(n).len() ==> #[trigger] decimal_digits(n)[i] < 10,
    decreases n,
{
    if n >= 10 {
        lemma_decimal_digits(n / 10);
    }
}

/// The decimal digits of a number, the first one first.
fn digits_of(n: u64) -> (r: Vec<u8>)
    ensures
        r@.len() == decimal_digits(n as nat).len(),
        forall|i: int| 0 <= i < r@.len() ==> #[trigger] r@[i] == decimal_digits(n as nat)[i],
        forall|i: int| 0 <= i < r@.len() ==> #[trigger] r@[i] < 10,
    decreases n,
{
    let mut digits = if n < 10 {
        Vec::new()
    } else {
        digits_of(n / 10)
    };
    digits.push((n % 10) as u8);
    proof {
        lemma_decimal_digits(n as nat);
    }
    digits
}

impl OpusMultistreamConfig {
    /// Two channels in one coupled stream.
    pub fn stereo() -> (r: OpusMultistreamConfig)
        ensures
            r.sample_rate == 48000,
            r.channel_count == 2,
            r.streams == 1,
            r.coupled_streams == 1,
            r.samples_per_frame == 960,
            r.mapping@ == seq![0u8, 1, 0, 0, 0, 0, 0, 0],
    {
        OpusMultistreamConfig {
            sample_rate: 48000,
            channel_count: 2,
            streams: 1,
            coupled_streams: 1,
            samples_per_frame: 960,
            mapping: [0, 1, 0, 0, 0, 0, 0, 0],
        }
    }

    /// Parse a single surround-param integer into an OpusMultistreamConfig
    ///
    /// The first three digits are the channel count, the streams and the coupled streams; the
    /// rest is the mapping. A number with fewer digits gives a configuration without channels.
    pub fn from_surround_param(param: u64) -> (r: Self)
        ensures
            r.sample_rate == 48000,
            r.samples_per_frame == 960,
            decimal_digits(param as nat).len() < 3 ==> r.channel_count == 0 && r.streams == 0
                && r.coupled_streams == 0 && r.mapping@ == seq![0u8, 0, 0, 0, 0, 0, 0, 0],
            decimal_digits(param as nat).len() >= 3 ==> {
                let digits = decimal_digits(param as nat);
                &&& r.channel_count == digits[0]
                &&& r.streams == digits[1]
                &&& r.coupled_streams == digits[2]
                &&& r.mapping@ == surround_mapping(digits)
            },
    {
        let mut config = OpusMultistreamConfig {
            sample_rate: 48000,
            channel_count: 0,
            streams: 0,
            coupled_streams: 0,
            samples_per_frame: 960,
            mapping: [0, 0, 0, 0, 0, 0, 0, 0],
        };
        let ghost all = decimal_digits(param as nat);
        let digits = digits_of(param);
        if digits.len() < 3 {
            return config;
        }
        config.channel_count = digits[0] as u32;
        config.streams = digits[1] as u32;
        config.coupled_streams = digits[2] as u32;
        let mut mapping: [u8; 8] = [0, 0, 0, 0, 0, 0, 0, 0];
        let mut i: usize = 0;
        while i < 8 && i < digits.len() - 3
            invariant
                0 <= i <= 8,
                digits@.len() >= 3,
                i <= digits@.len() - 3,
                all == decimal_digits(param as nat),
                digits@.len() == all.len(),
                forall|j: int| 0 <= j < digits@.len() ==> #[trigger] digits@[j] == all[j],
                forall|j: int| 0 <= j < i ==> #[trigger] mapping@[j] == digits@[j + 3],
                forall|j: int| i <= j < 8 ==> #[trigger] mapping@[j] == 0,
            decreases 8 - i,
        {
            mapping[i] = digits[i + 3];
            i = i + 1;
        }
        assert(mapping@ =~= digit_mapping(all)) by {
            assert forall|j: int| 0 <= j < 8 implies mapping@[j] == #[trigger] digit_mapping(
                all,
            )[j] by {
                if j + 3 < all.len() {
                    assert(digits@[j + 3] == all[j + 3]);
                }
            }
        }
        config.mapping = mapping;
        if config.channel_count == 6 || config.channel_count == 8 {
            let channels: usize = config.channel_count as usize;
            let original: [u8; 8] = mapping;
            mapping[3] = original[channels - 1];
            let mut k: usize = 4;
            while k < channels
                invariant
                    channels == 6 || channels == 8,
                    4 <= k <= channels,
                    mapping@[3] == original@[channels - 1],
                    forall|j: int| 4 <= j < k ==> #[trigger] mapping@[j] == original@[j - 1],
                    forall|j: int| k <= j < 8 ==> #[trigger] mapping@[j] == original@[j],
                    forall|j: int| 0 <= j < 3 ==> #[trigger] mapping@[j] == original@[j],
                decreases channels - k,
            {
                mapping[k] = original[k - 1];
                k = k + 1;
            }
            assert(mapping@ =~= lfe_behind_center(original@, channels as int));
            config.mapping = mapping;
        }
        config
    }
}

/// Moving the LFE channel loses no channel and invents none.
pub proof fn lemma_lfe_keeps_channels(mapping: Seq<u8>, channels: int)
    requires
        mapping.len() == 8,
        channels == 6 || channels == 8,
    ensures
        lfe_behind_center(mapping, channels).to_multiset() == mapping.to_multiset(),
{
    broadcast use vstd::seq_lib::group_to_multiset_ensures;

    let moved = lfe_behind_center(mapping, channels);
    let last = mapping[channels - 1];
    let taken = mapping.remove(channels - 1);
    assert(moved =~= taken.insert(3, last));
    vstd::seq_lib::to_multiset_remove(mapping, channels - 1);
    vstd::seq_lib::to_multiset_insert(taken, 3, last);
    assert(mapping.to_multiset().count(last) > 0);
    assert(moved.to_multiset() =~= mapping.to_multiset());
}

/// How many channels a stream has, and which.
#[derive(Debug, Clone, Copy, PartialEq, Eq, Structural)]
pub struct AudioConfig {
    pub channel_count: u32,
    pub channel_mask: u32,
}

/// A number that is no audio configuration.
#[derive(Debug, Clone, Copy, PartialEq, Eq, Structural)]
pub struct FromRawAudioConfigError;

impl FromRawAudioConfigError {
    /// The error in words.
    pub fn message(&self) -> (r: &'static str)
        ensures
            r@ == "failed to deserialize audio config!"@,
    {
        "failed to deserialize audio config!"
    }
}

impl AudioConfig {
    /// Specifies that the audio stream should be encoded in stereo (default)
    pub fn stereo() -> (r: AudioConfig)
        ensures
            r == (AudioConfig { channel_count: 2, channel_mask: 0x03 }),
    {
        AudioConfig::new(2, 0x03)
    }

    /// Specifies that the audio stream should be in 5.1 surround sound if the PC is able
    pub fn surround_51() -> (r: AudioConfig)
        ensures
            r == (AudioConfig { channel_count: 6, channel_mask: 0x3F }),
    {
        AudioConfig::new(6, 0x3F)
    }

    /// Specifies that the audio stream should be in 7.1 surround sound if the PC is able
    pub fn surround_71() -> (r: AudioConfig)
        ensures
            r == (AudioConfig { channel_count: 8, channel_mask: 0x63F }),
    {
        AudioConfig::new(8, 0x63F)
    }

    /// Specifies an audio configuration by channel count and channel mask
    /// NOTE: Not all combinations are supported by GFE and/or this library.
    pub fn new(channel_count: u32, channel_mask: u32) -> (r: Self)
        ensures
            r == (AudioConfig { channel_count, channel_mask }),
    {
        AudioConfig { channel_count, channel_mask }
    }

    /// Reads the surroundAudioInfo parameter: the channel count in the low half, the mask in
    /// the high half.
    pub fn from_surround_audio_info(info: u32) -> (r: Self)
        ensures
            r == audio_config_of_info(info),
    {
        AudioConfig { channel_count: info & 0xFFFF, channel_mask: info >> 16 }
    }

    /// Reads a configuration of the C library. The magic byte tells whether it is one, and not
    /// something else like a hardcoded value from an earlier version of moonlight-common-c.
    pub fn from_raw(raw: u32) -> (r: Result<Self, FromRawAudioConfigError>)
        ensures
            r == audio_config_of_raw(raw),
    {
        if (raw & 0xFF) != 0xCA {
            return Err(FromRawAudioConfigError);
        }
        Ok(
            AudioConfig {
                channel_count: (raw >> 8) & 0xFF,
                channel_mask: (raw >> 16) & 0xFFFF,
            },
        )
    }

    /// The surroundAudioInfo parameter of a configuration.
    pub open spec fn info(self) -> u32 {
        (self.channel_mask << 16) | self.channel_count
    }

    /// A configuration as the C library has it.
    pub open spec fn code(self) -> u32 {
        (self.channel_mask << 16) | (self.channel_count << 8) | 0xCA
    }

    /// Helper function to retreive the surroundAudioInfo parameter value that must be passed in
    /// the /launch and /resume HTTPS requests when starting the session.
    pub fn to_surround_audio_info(&self) -> (r: u32)
        ensures
            r == self.info(),
    {
        (self.channel_mask << 16) | self.channel_count
    }

    /// The configuration as the C library has it.
    pub fn raw(&self) -> (r: u32)
        ensures
            r == self.code(),
    {
        (self.channel_mask << 16) | (self.channel_count << 8) | 0xCA
    }
}

/// The configuration that a surroundAudioInfo parameter stands for.
pub open spec fn audio_config_of_info(info: u32) -> AudioConfig {
    AudioConfig { channel_count: info & 0xFFFF, channel_mask: info >> 16 }
}

/// The configuration that a number of the C library stands for, if its low byte is the magic
/// one.
pub open spec fn audio_config_of_raw(raw: u32) -> Result<AudioConfig, FromRawAudioConfigError> {
    if raw & 0xFF == 0xCA {
        Ok(AudioConfig { channel_count: (raw >> 8) & 0xFF, channel_mask: (raw >> 16) & 0xFFFF })
    } else {
        Err(FromRawAudioConfigError)
    }
}

/// Reading a number of the C library gives back the configuration that was written, for every
/// channel count of one byte and every mask of two.
pub proof fn lemma_audio_raw_round_trip(config: AudioConfig)
    requires
        config.channel_count <= 0xFF,
        config.channel_mask <= 0xFFFF,
    ensures
        audio_config_of_raw(config.code()) == Ok::<AudioConfig, FromRawAudioConfigError>(config),
        config.code() == config.channel_mask * 0x10000 + config.channel_count * 0x100 + 0xCA,
{
    let c = config.channel_count;
    let m = config.channel_mask;
    let raw = (m << 16) | (c << 8) | 0xCA;
    assert(raw & 0xFF == 0xCA && (raw >> 8) & 0xFF == c && (raw >> 16) & 0xFFFF == m && raw == m
        * 0x10000 + c * 0x100 + 0xCA) by (bit_vector)
        requires
            raw == (m << 16) | (c << 8) | 0xCA,
            c <= 0xFF,
            m <= 0xFFFF,
    ;
}

/// Writing a number of the C library that was read gives the same number.
pub proof fn lemma_audio_raw_is_faithful(raw: u32)
    ensures
        audio_config_of_raw(raw) matches Ok(config) ==> config.code() == raw,
{
    assert(raw & 0xFF == 0xCA ==> (((raw >> 16) & 0xFFFF) << 16) | (((raw >> 8) & 0xFF) << 8) | 0xCA
        == raw) by (bit_vector);
}

/// Reading a surroundAudioInfo parameter gives back the configuration that was written, for
/// every channel count and mask of two bytes, and writing gives back what was read.
pub proof fn lemma_surround_info_round_trip(config: AudioConfig, info: u32)
    ensures
        config.channel_count <= 0xFFFF && config.channel_mask <= 0xFFFF ==> audio_config_of_info(
            config.info(),
        ) == config,
        audio_config_of_info(info).info() == info,
{
    let c = config.channel_count;
    let m = config.channel_mask;
    assert(c <= 0xFFFF && m <= 0xFFFF ==> ((m << 16) | c) & 0xFFFF == c && ((m << 16) | c) >> 16
        == m) by (bit_vector);
    assert(((info >> 16) << 16) | (info & 0xFFFF) == info) by (bit_vector);
}

/// What the bytes of an audio frame are kept in.
///
/// An implementation outside the verified code leaves open what the spec functions say of it.
pub trait ByteBuffer {
    /// The bytes.
    open spec fn content(&self) -> Seq<u8> {
        arbitrary()
    }

    fn as_bytes(&self) -> (r: &[u8])
        ensures
            r@ == self.content(),
    ;
}

impl ByteBuffer for Vec<u8> {
    open spec fn content(&self) -> Seq<u8> {
        self@
    }

    fn as_bytes(&self) -> (r: &[u8]) {
        self.as_slice()
    }
}

impl ByteBuffer for [u8] {
    open spec fn content(&self) -> Seq<u8> {
        self@
    }

    fn as_bytes(&self) -> (r: &[u8]) {
        self
    }
}

impl<const N: usize> ByteBuffer for [u8; N] {
    open spec fn content(&self) -> Seq<u8> {
        self@
    }

    fn as_bytes(&self) -> (r: &[u8]) {
        self.as_slice()
    }
}

impl ByteBuffer for str {
    open spec fn content(&self) -> Seq<u8> {
        encode_utf8(self@)
    }

    fn as_bytes(&self) -> (r: &[u8]) {
        str::as_bytes(self)
    }
}

impl ByteBuffer for String {
    open spec fn content(&self) -> Seq<u8> {
        encode_utf8(self@)
    }

    fn as_bytes(&self) -> (r: &[u8]) {
        str::as_bytes(self.as_str())
    }
}

impl ByteBuffer for Bytes {
    open spec fn content(&self) -> Seq<u8> {
        frame::bytes_contents(*self)
    }

    fn as_bytes(&self) -> (r: &[u8]) {
        bytes_slice(self)
    }
}

impl<B: ByteBuffer + ?Sized> ByteBuffer for Box<B> {
    open spec fn content(&self) -> Seq<u8> {
        (**self).content()
    }

    fn as_bytes(&self) -> (r: &[u8]) {
        (**self).as_bytes()
    }
}

impl<B: ByteBuffer + ?Sized> ByteBuffer for Arc<B> {
    open spec fn content(&self) -> Seq<u8> {
        (**self).content()
    }

    fn as_bytes(&self) -> (r: &[u8]) {
        (**self).as_bytes()
    }
}

impl<B: ByteBuffer + ?Sized> ByteBuffer for Rc<B> {
    open spec fn content(&self) -> Seq<u8> {
        (**self).content()
    }

    fn as_bytes(&self) -> (r: &[u8]) {
        (**self).as_bytes()
    }
}

impl<'a> ByteBuffer for Cow<'a, [u8]> {
    open spec fn content(&self) -> Seq<u8> {
        match self {
            Cow::Borrowed(bytes) => bytes@,
            Cow::Owned(bytes) => bytes@,
        }
    }

    fn as_bytes(&self) -> (r: &[u8]) {
        match self {
            Cow::Borrowed(bytes) => *bytes,
            Cow::Owned(bytes) => bytes.as_slice(),
        }
    }
}

impl<B: ByteBuffer + ?Sized> ByteBuffer for &B {
    open spec fn content(&self) -> Seq<u8> {
        (**self).content()
    }

    fn as_bytes(&self) -> (r: &[u8]) {
        (**self).as_bytes()
    }
}

/// One frame of audio.
#[derive(Debug, PartialEq)]
pub struct AudioFrame<Buf> {
    /// Timestamps are in milliseconds
    ///
    /// When using moonlight common c timestamps are simulated because the library doesn't
    /// provide. This means that they could theoretically desync.
    pub timestamp: Duration,
    pub buffer: Buf,
}

impl<Buf: ByteBuffer> AudioFrame<Buf> {
    /// The frame with a copy of its bytes.
    pub fn to_vec(&self) -> (r: AudioFrame<Vec<u8>>)
        ensures
            r.timestamp == self.timestamp,
            r.buffer@ == self.buffer.content(),
    {
        AudioFrame { timestamp: self.timestamp, buffer: slice_to_vec(self.buffer.as_bytes()) }
    }

    /// The frame with its bytes borrowed.
    pub fn as_ref(&self) -> (r: AudioFrame<&[u8]>)
        ensures
            r.timestamp == self.timestamp,
            r.buffer@ == self.buffer.content(),
    {
        AudioFrame { timestamp: self.timestamp, buffer: self.buffer.as_bytes() }
    }
}

/// What audio is decoded by.
pub trait AudioDecoder {
    /// This callback initializes the audio renderer. The audio configuration parameter
    /// provides the negotiated audio configuration. This may differ from the one
    /// specified in the stream configuration. Returns 0 on success, non-zero on failure.
    fn setup(&mut self, audio_config: AudioConfig, stream_config: OpusMultistreamConfig) -> i32;

    /// This callback notifies the decoder that the stream is starting. No audio can be
    /// submitted before this callback returns.
    fn start(&mut self);

    /// This callback notifies the decoder that the stream is stopping. Audio samples may still
    /// be submitted but they may be safely discarded.
    fn stop(&mut self);

    /// This callback provides Opus audio data to be decoded and played. sampleLength is in
    /// bytes.
    ///
    /// An empty `sample.buffer` marks a lost packet; the decoder may apply packet loss
    /// concealment for it (libopus conceals when decoding an empty payload).
    fn decode_and_play_sample(&mut self, sample: AudioFrame<&[u8]>);

    fn config(&self) -> AudioConfig;
}

/// The number that decimal digits stand for.
pub open spec fn number_of(digits: Seq<nat>) -> nat
    decreases digits.len(),
{
    if digits.len() == 0 {
        0
    } else {
        10 * number_of(digits.drop_last()) + digits.last()
    }
}

/// The digits of a number stand for it, each of them is one digit, and only zero begins with a
/// zero.
pub proof fn lemma_digits_stand_for_the_number(n: nat)
    ensures
        number_of(decimal_digits(n)) == n,
        decimal_digits(n).len() >= 1,
        forall|i: int| 0 <= i < decimal_digits(n).len() ==> #[trigger] decimal_digits(n)[i] <= 9,
        n >= 1 ==> decimal_digits(n)[0] >= 1,
    decreases n,
{
    let digits = decimal_digits(n);
    if n < 10 {
        assert(digits.drop_last() =~= Seq::<nat>::empty());
        reveal_with_fuel(number_of, 2);
    } else {
        lemma_digits_stand_for_the_number(n / 10);
        assert(digits.drop_last() =~= decimal_digits(n / 10));
        assert(digits[0] == decimal_digits(n / 10)[0]);
    }
}

/// Where each place of a mapping gets its channel from, for every number with at least three
/// digits. With six or eight channels the last of them is the LFE channel and goes to place 3,
/// and those from there on move up by one; with any other count each stays in its place. A
/// place without a digit is 0.
pub proof fn lemma_mapping_places(digits: Seq<nat>, i: int)
    requires
        digits.len() >= 3,
        forall|j: int| 0 <= j < digits.len() ==> #[trigger] digits[j] <= 9,
        0 <= i < 8,
    ensures
        surround_mapping(digits).len() == 8,
        ({
            let c = digits[0] as int;
            let from = if c != 6 && c != 8 || i < 3 || i >= c {
                i + 3
            } else if i == 3 {
                c + 2
            } else {
                i + 2
            };
            &&& from < digits.len() ==> surround_mapping(digits)[i] == digits[from]
            &&& from >= digits.len() ==> surround_mapping(digits)[i] == 0
        }),
{
}

/// The numbers of streams have no say in the mapping: only the channel count and the digits
/// behind the third do.
pub proof fn lemma_streams_have_no_say(one: Seq<nat>, other: Seq<nat>)
    requires
        one.len() >= 3,
        one.len() == other.len(),
        one[0] == other[0],
        forall|i: int| 3 <= i < one.len() ==> #[trigger] one[i] == other[i],
    ensures
        surround_mapping(one) == surround_mapping(other),
{
    assert(digit_mapping(one) =~= digit_mapping(other));
    assert(surround_mapping(one) =~= surround_mapping(other));
}

/// The surroundAudioInfo parameter has the channel count below and the mask above. What is
/// wider than its half spills into the other or is cut off.
pub proof fn lemma_info_halves(config: AudioConfig, info: u32)
    ensures
        config.channel_count <= 0xFFFF && config.channel_mask <= 0xFFFF ==> config.info()
            == config.channel_mask * 0x1_0000 + config.channel_count,
        config.info() % 0x1_0000 == config.channel_count % 0x1_0000,
        config.info() / 0x1_0000 == (config.channel_mask % 0x1_0000) | (config.channel_count
            / 0x1_0000),
        audio_config_of_info(info).channel_count == info % 0x1_0000,
        audio_config_of_info(info).channel_mask == info / 0x1_0000,
{
    let c = config.channel_count;
    let m = config.channel_mask;
    let w = (m << 16) | c;
    assert((c <= 0xFFFF && m <= 0xFFFF ==> w == m * 0x1_0000 + c) && w % 0x1_0000 == c % 0x1_0000
        && w / 0x1_0000 == ((m % 0x1_0000) | (c / 0x1_0000))) by (bit_vector)
        requires
            w == (m << 16) | c,
    ;
    assert(info & 0xFFFF == info % 0x1_0000 && info >> 16 == info / 0x1_0000) by (bit_vector);
}

/// A number of the C library has the magic byte at its end, the channel count before it and the
/// mask in its upper half. It is read exactly where the magic byte is there, part by part.
pub proof fn lemma_raw_parts(config: AudioConfig, raw: u32)
    ensures
        config.code() % 0x100 == 0xCA,
        config.code() / 0x100 % 0x100 == config.channel_count % 0x100,
        config.code() / 0x1_0000 == (config.channel_mask % 0x1_0000) | (config.channel_count / 0x100
            % 0x1_0000),
        raw % 0x100 != 0xCA ==> audio_config_of_raw(raw) is Err,
        raw % 0x100 == 0xCA ==> (audio_config_of_raw(raw) matches Ok(read) && read.channel_count
            == raw / 0x100 % 0x100 && read.channel_mask == raw / 0x1_0000),
{
    let c = config.channel_count;
    let m = config.channel_mask;
    let w = (m << 16) | (c << 8) | 0xCA;
    assert(w % 0x100 == 0xCA && w / 0x100 % 0x100 == c % 0x100 && w / 0x1_0000 == ((m % 0x1_0000) | (
    c / 0x100 % 0x1_0000))) by (bit_vector)
        requires
            w == (m << 16) | (c << 8) | 0xCA,
    ;
    assert(raw & 0xFF == raw % 0x100 && (raw >> 8) & 0xFF == raw / 0x100 % 0x100 && (raw >> 16)
        & 0xFFFF == raw / 0x1_0000) by (bit_vector);
}

/// The bytes of a buffer are all that it holds, in order; those of a text are its UTF-8 form.
pub proof fn lemma_buffer_contents<const N: usize>(
    owned: Vec<u8>,
    slice: &[u8],
    array: [u8; N],
    text: String,
    part: &str,
    data: Bytes,
    cow: Cow<[u8]>,
)
    ensures
        owned.content() == owned@,
        slice.content() == slice@,
        array.content() == array@,
        text.content() == encode_utf8(text@),
        part.content() == encode_utf8(part@),
        data.content() == frame::bytes_contents(data),
        cow matches Cow::Borrowed(bytes) ==> cow.content() == bytes@,
        cow matches Cow::Owned(bytes) ==> cow.content() == bytes@,
{
}

/// What points to a buffer has the bytes of that buffer.
pub proof fn lemma_pointed_contents<B: ByteBuffer>(
    buffer: B,
    boxed: Box<B>,
    shared: Arc<B>,
    counted: Rc<B>,
)
    ensures
        (&buffer).content() == buffer.content(),
        boxed.content() == (*boxed).content(),
        shared.content() == (*shared).content(),
        counted.content() == (*counted).content(),
{
}

} // verus!
