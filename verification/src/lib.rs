//! Safe, verified layer around the Opus audio codec.
//!
//! The native codec manipulates opaque, variable-sized state objects through
//! a uniform control protocol: a request tag together with one value set or
//! read. This crate owns the storage for those objects, performs every value
//! conversion and status-code translation of that protocol in verified code,
//! and leaves only the raw foreign calls to an unverified shell.

use vstd::prelude::*;

pub mod mem;
pub mod encoder;
pub mod decoder;
pub mod dred;
pub mod multistream;
pub mod repacketizer;

pub use encoder::Encoder;
pub use decoder::Decoder;

verus! {

/// Native value meaning "automatic/default" in the control protocol.
pub const NATIVE_AUTO: i32 = -1000;
/// Native value asking the encoder for the maximum achievable bitrate.
pub const NATIVE_BITRATE_MAX: i32 = -1;

/// Status codes reported by the native codec library.
#[derive(Debug, Clone, Copy, PartialEq, Eq, Structural)]
pub enum ErrorCode {
    /// No error.
    NoError,
    /// One or more invalid/out of range arguments.
    BadArg,
    /// Memory allocation has failed.
    AllocFail,
    /// An encoder or decoder structure is invalid or already freed.
    InvalidState,
    /// The compressed data passed is corrupted.
    InvalidPacket,
    /// Not enough bytes allocated in the buffer.
    BufferTooSmall,
    /// An internal error was detected.
    Internal,
    /// Invalid/unsupported request number.
    Unimplemented,
    /// Unknown error variant. Should not be possible.
    Unknown,
}

impl ErrorCode {
    /// The status-to-error mapping, stated over the native status values.
    pub open spec fn spec_from_native(value: i32) -> ErrorCode {
        if value == 0 {
            ErrorCode::NoError
        } else if value == -1 {
            ErrorCode::BadArg
        } else if value == -2 {
            ErrorCode::BufferTooSmall
        } else if value == -3 {
            ErrorCode::Internal
        } else if value == -4 {
            ErrorCode::InvalidPacket
        } else if value == -5 {
            ErrorCode::Unimplemented
        } else if value == -6 {
            ErrorCode::InvalidState
        } else if value == -7 {
            ErrorCode::AllocFail
        } else {
            ErrorCode::Unknown
        }
    }

    /// Translates a native status value into the closed error taxonomy.
    ///
    /// Every status outside the documented set maps to `Unknown`.
    pub fn from_native(value: i32) -> (r: ErrorCode)
        ensures
            r == ErrorCode::spec_from_native(value),
    {
        match value {
            0 => ErrorCode::NoError,
            -1 => ErrorCode::BadArg,
            -2 => ErrorCode::BufferTooSmall,
            -3 => ErrorCode::Internal,
            -4 => ErrorCode::InvalidPacket,
            -5 => ErrorCode::Unimplemented,
            -6 => ErrorCode::InvalidState,
            -7 => ErrorCode::AllocFail,
            _ => ErrorCode::Unknown,
        }
    }

    /// The text of each error, as a sequence of characters.
    pub open spec fn spec_message(&self) -> Seq<char> {
        match self {
            ErrorCode::NoError => "No error"@,
            ErrorCode::BadArg => "One or more invalid/out of range arguments"@,
            ErrorCode::AllocFail => "Memory allocation has failed"@,
            ErrorCode::InvalidState => "An encoder or decoder structure is invalid or already freed"@,
            ErrorCode::InvalidPacket => "The compressed data passed is corrupted"@,
            ErrorCode::BufferTooSmall => "Not enough bytes allocated in the buffer"@,
            ErrorCode::Internal => "An internal error was detected"@,
            ErrorCode::Unimplemented => "Invalid/unsupported request number"@,
            ErrorCode::Unknown => "Unknown error"@,
        }
    }

    /// Returns text representation of error.
    pub fn message(&self) -> (r: &'static str)
        ensures
            r@ == self.spec_message(),
    {
        match self {
            ErrorCode::NoError => "No error",
            ErrorCode::BadArg => "One or more invalid/out of range arguments",
            ErrorCode::AllocFail => "Memory allocation has failed",
            ErrorCode::InvalidState => "An encoder or decoder structure is invalid or already freed",
            ErrorCode::InvalidPacket => "The compressed data passed is corrupted",
            ErrorCode::BufferTooSmall => "Not enough bytes allocated in the buffer",
            ErrorCode::Internal => "An internal error was detected",
            ErrorCode::Unimplemented => "Invalid/unsupported request number",
            ErrorCode::Unknown => "Unknown error",
        }
    }
}

/// Maps the result of a native call that reports a count on success.
///
/// A negative status carries the error; any other status is the count.
pub fn map_status(status: i32) -> (r: Result<u32, ErrorCode>)
    ensures
        status < 0 ==> r == Result::<u32, ErrorCode>::Err(ErrorCode::spec_from_native(status)),
        status >= 0 ==> r == Result::<u32, ErrorCode>::Ok(status as u32),
{
    if status < 0 {
        Err(ErrorCode::from_native(status))
    } else {
        Ok(status as u32)
    }
}

/// Maps the result of a native call that reports no value on success.
pub fn ctl_done(status: i32) -> (r: Result<(), ErrorCode>)
    ensures
        status < 0 ==> r == Result::<(), ErrorCode>::Err(ErrorCode::spec_from_native(status)),
        status >= 0 ==> r == Result::<(), ErrorCode>::Ok(()),
{
    if status < 0 {
        Err(ErrorCode::from_native(status))
    } else {
        Ok(())
    }
}

/// Reads a boolean out of a control-protocol value: one means enabled.
pub fn native_flag(value: i32) -> (r: bool)
    ensures
        r == (value == 1),
{
    value == 1
}

/// Writes a boolean into a control-protocol value.
pub fn flag_to_native(value: bool) -> (r: i32)
    ensures
        value ==> r == 1,
        !value ==> r == 0,
{
    if value {
        1
    } else {
        0
    }
}

/// Narrows a control-protocol value whose domain fits a byte.
pub fn native_u8(value: i32) -> (r: u8)
    ensures
        r == value as u8,
{
    #[verifier::truncate] (value as u8)
}

/// Widens a control-protocol value documented as a nonnegative count.
pub fn native_u32(value: i32) -> (r: u32)
    ensures
        r == value as u32,
{
    #[verifier::truncate] (value as u32)
}

/// Reads a nonnegative count, rejecting a value the protocol never allows.
pub fn native_look_ahead(value: i32) -> (r: Result<u32, ErrorCode>)
    ensures
        value >= 0 ==> r == Result::<u32, ErrorCode>::Ok(value as u32),
        value < 0 ==> r == Result::<u32, ErrorCode>::Err(ErrorCode::Unknown),
{
    if value >= 0 {
        Ok(value as u32)
    } else {
        Err(ErrorCode::Unknown)
    }
}

/// Reads the pitch query: zero means the last frame was unvoiced or uncoded.
pub fn native_pitch(value: i32) -> (r: Option<u32>)
    ensures
        value == 0 ==> r is None,
        value != 0 ==> r == Option::<u32>::Some(value as u32),
{
    if value == 0 {
        None
    } else {
        Some(#[verifier::truncate] (value as u32))
    }
}

/// Converts a buffer length to the 32-bit width the native calls take.
///
/// A length that cannot be represented is a bad argument.
pub fn packet_len_to_native(len: usize) -> (r: Result<i32, ErrorCode>)
    ensures
        len <= i32::MAX ==> r == Result::<i32, ErrorCode>::Ok(len as i32),
        len > i32::MAX ==> r == Result::<i32, ErrorCode>::Err(ErrorCode::BadArg),
{
    if len <= 0x7fff_ffff {
        Ok(len as i32)
    } else {
        Err(ErrorCode::BadArg)
    }
}

/// Converts a packet length for the sample-count query.
///
/// A length that cannot be represented never came from a valid packet.
pub fn sample_query_len_to_native(len: usize) -> (r: Result<i32, ErrorCode>)
    ensures
        len <= i32::MAX ==> r == Result::<i32, ErrorCode>::Ok(len as i32),
        len > i32::MAX ==> r == Result::<i32, ErrorCode>::Err(ErrorCode::InvalidPacket),
{
    if len <= 0x7fff_ffff {
        Ok(len as i32)
    } else {
        Err(ErrorCode::InvalidPacket)
    }
}

/// Converts a frame index to the 32-bit width the native calls take.
pub fn frame_index_to_native(value: u32) -> (r: Result<i32, ErrorCode>)
    ensures
        value <= i32::MAX ==> r == Result::<i32, ErrorCode>::Ok(value as i32),
        value > i32::MAX ==> r == Result::<i32, ErrorCode>::Err(ErrorCode::BadArg),
{
    if value <= 0x7fff_ffff {
        Ok(value as i32)
    } else {
        Err(ErrorCode::BadArg)
    }
}

/// Possible sample rates to use.
#[derive(Debug, Clone, Copy, PartialEq, Eq, Structural)]
pub enum SampleRate {
    /// 8000
    Hz8000,
    /// 12000
    Hz12000,
    /// 16000
    Hz16000,
    /// 24000
    Hz24000,
    /// 48000
    Hz48000,
}

impl SampleRate {
    /// The rate in hertz.
    pub open spec fn spec_hz(self) -> nat {
        match self {
            SampleRate::Hz8000 => 8000,
            SampleRate::Hz12000 => 12000,
            SampleRate::Hz16000 => 16000,
            SampleRate::Hz24000 => 24000,
            SampleRate::Hz48000 => 48000,
        }
    }

    /// The rate as the native calls encode it.
    pub fn to_native(self) -> (r: i32)
        ensures
            r == self.spec_hz(),
    {
        match self {
            SampleRate::Hz8000 => 8000,
            SampleRate::Hz12000 => 12000,
            SampleRate::Hz16000 => 16000,
            SampleRate::Hz24000 => 24000,
            SampleRate::Hz48000 => 48000,
        }
    }

    /// Reads a sample-rate query; a rate outside the supported domain is
    /// an unknown answer.
    pub fn from_native(value: i32) -> (r: Result<SampleRate, ErrorCode>)
        ensures
            value == 8000 ==> r == Result::<SampleRate, ErrorCode>::Ok(SampleRate::Hz8000),
            value == 12000 ==> r == Result::<SampleRate, ErrorCode>::Ok(SampleRate::Hz12000),
            value == 16000 ==> r == Result::<SampleRate, ErrorCode>::Ok(SampleRate::Hz16000),
            value == 24000 ==> r == Result::<SampleRate, ErrorCode>::Ok(SampleRate::Hz24000),
            value == 48000 ==> r == Result::<SampleRate, ErrorCode>::Ok(SampleRate::Hz48000),
            !(value == 8000 || value == 12000 || value == 16000 || value == 24000
                || value == 48000) ==> r == Result::<SampleRate, ErrorCode>::Err(
                ErrorCode::Unknown,
            ),
    {
        match value {
            8000 => Ok(SampleRate::Hz8000),
            12000 => Ok(SampleRate::Hz12000),
            16000 => Ok(SampleRate::Hz16000),
            24000 => Ok(SampleRate::Hz24000),
            48000 => Ok(SampleRate::Hz48000),
            _ => Err(ErrorCode::Unknown),
        }
    }
}

/// Number of channels.
#[derive(Debug, Clone, Copy, PartialEq, Eq, Structural)]
pub enum Channels {
    /// Single channel.
    Mono,
    /// Two channels.
    Stereo,
}

impl Channels {
    /// How many channels the variant stands for.
    pub open spec fn spec_count(self) -> nat {
        match self {
            Channels::Mono => 1,
            Channels::Stereo => 2,
        }
    }

    /// The channel count as the native calls encode it.
    pub fn to_native(self) -> (r: i32)
        ensures
            r == self.spec_count(),
    {
        match self {
            Channels::Mono => 1,
            Channels::Stereo => 2,
        }
    }

    /// Reads a forced-channel query: automatic forcing reports no channels.
    pub fn from_force_native(value: i32) -> (r: Option<Channels>)
        ensures
            value == 1 ==> r == Option::<Channels>::Some(Channels::Mono),
            value == 2 ==> r == Option::<Channels>::Some(Channels::Stereo),
            !(value == 1 || value == 2) ==> r is None,
    {
        match value {
            1 => Some(Channels::Mono),
            2 => Some(Channels::Stereo),
            _ => None,
        }
    }

    /// Writes a forced-channel request; no forcing asks for automatic.
    pub fn force_to_native(value: Option<Channels>) -> (r: i32)
        ensures
            value == Option::<Channels>::Some(Channels::Mono) ==> r == 1,
            value == Option::<Channels>::Some(Channels::Stereo) ==> r == 2,
            value is None ==> r == NATIVE_AUTO,
    {
        match value {
            Some(Channels::Mono) => 1,
            Some(Channels::Stereo) => 2,
            None => NATIVE_AUTO,
        }
    }
}

/// The size of a frame of `duration_ms` milliseconds: samples per second,
/// times channels, times the duration, in whole units.
pub open spec fn spec_frame_bytes_size(
    sample_rate: SampleRate,
    channels: Channels,
    duration_ms: nat,
) -> nat {
    sample_rate.spec_hz() * channels.spec_count() * duration_ms / 1000
}

/// Computes the Opus frame size in samples (or, for byte-sized sample
/// formats, in bytes) for the specified duration.
pub fn frame_bytes_size(sample_rate: SampleRate, channels: Channels, duration_ms: usize) -> (r:
    usize)
    requires
        sample_rate.spec_hz() * channels.spec_count() * duration_ms <= usize::MAX,
    ensures
        r == spec_frame_bytes_size(sample_rate, channels, duration_ms as nat),
{
    let rate: usize = match sample_rate {
        SampleRate::Hz8000 => 8000,
        SampleRate::Hz12000 => 12000,
        SampleRate::Hz16000 => 16000,
        SampleRate::Hz24000 => 24000,
        SampleRate::Hz48000 => 48000,
    };
    let ch: usize = match channels {
        Channels::Mono => 1,
        Channels::Stereo => 2,
    };
    (rate * ch * duration_ms) / 1000
}

/// For every supported sample rate and both channel counts, the size of a
/// ten-millisecond frame is the rate times the channel count divided by one
/// hundred.
pub proof fn lemma_frame_size_10ms(sample_rate: SampleRate, channels: Channels)
    ensures
        spec_frame_bytes_size(sample_rate, channels, 10) == sample_rate.spec_hz()
            * channels.spec_count() / 100,
{
}

/// Codec's bitrate configuration.
#[derive(Debug, Clone, Copy, PartialEq, Eq, Structural)]
pub enum Bitrate {
    /// Value set in bits rates per second.
    Value(u32),
    /// Default setting. Determined by number of channels and sample rate.
    Auto,
    /// Specifies to the codec to use as much rate as it can, which is
    /// useful for controlling the rate by adjusting the output buffer
    /// size.
    Max,
}

impl Bitrate {
    /// What a bitrate query reports: the automatic and maximum markers,
    /// or the rate itself.
    pub open spec fn spec_from_native(value: i32) -> Bitrate {
        if value == NATIVE_AUTO {
            Bitrate::Auto
        } else if value == NATIVE_BITRATE_MAX {
            Bitrate::Max
        } else {
            Bitrate::Value(value as u32)
        }
    }

    /// Reads a bitrate query.
    pub fn from_native(value: i32) -> (r: Bitrate)
        ensures
            r == Bitrate::spec_from_native(value),
    {
        match value {
            NATIVE_AUTO => Bitrate::Auto,
            NATIVE_BITRATE_MAX => Bitrate::Max,
            value => Bitrate::Value(#[verifier::truncate] (value as u32)),
        }
    }

    /// What a bitrate request carries.
    pub open spec fn spec_to_native(self) -> i32 {
        match self {
            Bitrate::Max => NATIVE_BITRATE_MAX,
            Bitrate::Auto => NATIVE_AUTO,
            Bitrate::Value(value) => value as i32,
        }
    }

    /// Writes a bitrate request.
    pub fn to_native(self) -> (r: i32)
        ensures
            r == self.spec_to_native(),
    {
        match self {
            Bitrate::Max => NATIVE_BITRATE_MAX,
            Bitrate::Auto => NATIVE_AUTO,
            Bitrate::Value(value) => #[verifier::truncate] (value as i32),
        }
    }
}

/// Coding mode.
#[derive(Debug, Clone, Copy, PartialEq, Eq, Structural)]
pub enum Application {
    /// Best for most VoIP/videoconference applications where listening
    /// quality and intelligibility matter most.
    Voip,
    /// Best for broadcast/high-fidelity application where the decoded
    /// audio should be as close as possible to the input.
    Audio,
    /// Only use when lowest-achievable latency is what matters most.
    ///
    /// Voice-optimized modes cannot be used.
    LowDelay,
}

impl Application {
    /// What an application query reports; any other value is an unknown
    /// answer.
    pub open spec fn spec_from_native(value: i32) -> Result<Application, ErrorCode> {
        if value == 2048 {
            Result::Ok(Application::Voip)
        } else if value == 2049 {
            Result::Ok(Application::Audio)
        } else if value == 2051 {
            Result::Ok(Application::LowDelay)
        } else {
            Result::Err(ErrorCode::Unknown)
        }
    }

    /// Reads an application query.
    pub fn from_native(value: i32) -> (r: Result<Application, ErrorCode>)
        ensures
            r == Application::spec_from_native(value),
    {
        match value {
            2048 => Ok(Application::Voip),
            2049 => Ok(Application::Audio),
            2051 => Ok(Application::LowDelay),
            _ => Err(ErrorCode::Unknown),
        }
    }

    /// What an application request carries.
    pub open spec fn spec_to_native(self) -> i32 {
        match self {
            Application::Voip => 2048,
            Application::Audio => 2049,
            Application::LowDelay => 2051,
        }
    }

    /// Writes an application request.
    pub fn to_native(self) -> (r: i32)
        ensures
            r == self.spec_to_native(),
    {
        match self {
            Application::Voip => 2048,
            Application::Audio => 2049,
            Application::LowDelay => 2051,
        }
    }
}

/// The available bandwidth level settings.
#[derive(Debug, Clone, Copy, PartialEq, Eq, Structural)]
pub enum Bandwidth {
    /// Auto/default setting.
    Auto,
    /// 4kHz bandpass.
    Narrow,
    /// 6kHz bandpass.
    Medium,
    /// 8kHz bandpass.
    Wide,
    /// 12kHz bandpass.
    Superwide,
    /// 20kHz bandpass.
    Full,
}

impl Bandwidth {
    /// What a bandwidth query reports; any other value means automatic.
    pub open spec fn spec_from_native(value: i32) -> Bandwidth {
        if value == 1105 {
            Bandwidth::Full
        } else if value == 1104 {
            Bandwidth::Superwide
        } else if value == 1103 {
            Bandwidth::Wide
        } else if value == 1102 {
            Bandwidth::Medium
        } else if value == 1101 {
            Bandwidth::Narrow
        } else {
            Bandwidth::Auto
        }
    }

    /// Reads a bandwidth query.
    pub fn from_native(value: i32) -> (r: Bandwidth)
        ensures
            r == Bandwidth::spec_from_native(value),
    {
        match value {
            1105 => Bandwidth::Full,
            1104 => Bandwidth::Superwide,
            1103 => Bandwidth::Wide,
            1102 => Bandwidth::Medium,
            1101 => Bandwidth::Narrow,
            _ => Bandwidth::Auto,
        }
    }

    /// What a bandwidth request carries.
    pub open spec fn spec_to_native(self) -> i32 {
        match self {
            Bandwidth::Auto => NATIVE_AUTO,
            Bandwidth::Narrow => 1101,
            Bandwidth::Medium => 1102,
            Bandwidth::Wide => 1103,
            Bandwidth::Superwide => 1104,
            Bandwidth::Full => 1105,
        }
    }

    /// Writes a bandwidth request.
    pub fn to_native(self) -> (r: i32)
        ensures
            r == self.spec_to_native(),
    {
        match self {
            Bandwidth::Auto => NATIVE_AUTO,
            Bandwidth::Narrow => 1101,
            Bandwidth::Medium => 1102,
            Bandwidth::Wide => 1103,
            Bandwidth::Superwide => 1104,
            Bandwidth::Full => 1105,
        }
    }
}

/// Signal type.
#[derive(Debug, Clone, Copy, PartialEq, Eq, Structural)]
pub enum Signal {
    /// Default value.
    Auto,
    /// Bias thresholds towards choosing LPC or Hybrid modes.
    Voice,
    /// Bias thresholds towards choosing MDCT modes.
    Music,
}

impl Signal {
    /// What a signal query reports; any other value means automatic.
    pub open spec fn spec_from_native(value: i32) -> Signal {
        if value == 3002 {
            Signal::Music
        } else if value == 3001 {
            Signal::Voice
        } else {
            Signal::Auto
        }
    }

    /// Reads a signal query.
    pub fn from_native(value: i32) -> (r: Signal)
        ensures
            r == Signal::spec_from_native(value),
    {
        match value {
            3002 => Signal::Music,
            3001 => Signal::Voice,
            _ => Signal::Auto,
        }
    }

    /// What a signal request carries.
    pub open spec fn spec_to_native(self) -> i32 {
        match self {
            Signal::Auto => NATIVE_AUTO,
            Signal::Voice => 3001,
            Signal::Music => 3002,
        }
    }

    /// Writes a signal request.
    pub fn to_native(self) -> (r: i32)
        ensures
            r == self.spec_to_native(),
    {
        match self {
            Signal::Auto => NATIVE_AUTO,
            Signal::Voice => 3001,
            Signal::Music => 3002,
        }
    }
}

/// Possible values of inband forward error correction configuration.
#[derive(Debug, Clone, Copy, PartialEq, Eq, Structural)]
pub enum InbandFec {
    /// Inband FEC disabled (default).
    Off,
    /// Inband FEC enabled.
    ///
    /// If the packet loss rate is sufficiently high, Opus will
    /// automatically switch to SILK even at high rates to enable use of
    /// that FEC.
    Mode1,
    /// Inband FEC enabled, but does not necessarily switch to SILK if we
    /// have music.
    Mode2,
}

impl InbandFec {
    /// What a forward-error-correction query reports; any other value is
    /// an unknown answer.
    pub open spec fn spec_from_native(value: i32) -> Result<InbandFec, ErrorCode> {
        if value == 0 {
            Result::Ok(InbandFec::Off)
        } else if value == 1 {
            Result::Ok(InbandFec::Mode1)
        } else if value == 2 {
            Result::Ok(InbandFec::Mode2)
        } else {
            Result::Err(ErrorCode::Unknown)
        }
    }

    /// Reads a forward-error-correction query.
    pub fn from_native(value: i32) -> (r: Result<InbandFec, ErrorCode>)
        ensures
            r == InbandFec::spec_from_native(value),
    {
        match value {
            0 => Ok(InbandFec::Off),
            1 => Ok(InbandFec::Mode1),
            2 => Ok(InbandFec::Mode2),
            _ => Err(ErrorCode::Unknown),
        }
    }

    /// What a forward-error-correction request carries.
    pub open spec fn spec_to_native(self) -> i32 {
        match self {
            InbandFec::Off => 0,
            InbandFec::Mode1 => 1,
            InbandFec::Mode2 => 2,
        }
    }

    /// Writes a forward-error-correction request.
    pub fn to_native(self) -> (r: i32)
        ensures
            r == self.spec_to_native(),
    {
        match self {
            InbandFec::Off => 0,
            InbandFec::Mode1 => 1,
            InbandFec::Mode2 => 2,
        }
    }
}

/// Frame duration configuration values.
#[derive(Debug, Clone, Copy, PartialEq, Eq, Structural)]
pub enum FrameDuration {
    /// Select frame size from the argument (default).
    SizeArg,
    /// Use 2.5 ms frames.
    Size2_5,
    /// Use 5 ms frames.
    Size5,
    /// Use 10 ms frames.
    Size10,
    /// Use 20 ms frames.
    Size20,
    /// Use 40 ms frames.
    Size40,
    /// Use 60 ms frames.
    Size60,
    /// Use 80 ms frames.
    Size80,
    /// Use 100 ms frames.
    Size100,
    /// Use 120 ms frames.
    Size120,
}

impl FrameDuration {
    /// What a frame-duration query reports; any other value is an unknown
    /// answer.
    pub open spec fn spec_from_native(value: i32) -> Result<FrameDuration, ErrorCode> {
        if value == 5000 {
            Result::Ok(FrameDuration::SizeArg)
        } else if value == 5001 {
            Result::Ok(FrameDuration::Size2_5)
        } else if value == 5002 {
            Result::Ok(FrameDuration::Size5)
        } else if value == 5003 {
            Result::Ok(FrameDuration::Size10)
        } else if value == 5004 {
            Result::Ok(FrameDuration::Size20)
        } else if value == 5005 {
            Result::Ok(FrameDuration::Size40)
        } else if value == 5006 {
            Result::Ok(FrameDuration::Size60)
        } else if value == 5007 {
            Result::Ok(FrameDuration::Size80)
        } else if value == 5008 {
            Result::Ok(FrameDuration::Size100)
        } else if value == 5009 {
            Result::Ok(FrameDuration::Size120)
        } else {
            Result::Err(ErrorCode::Unknown)
        }
    }

    /// Reads a frame-duration query.
    pub fn from_native(value: i32) -> (r: Result<FrameDuration, ErrorCode>)
        ensures
            r == FrameDuration::spec_from_native(value),
    {
        match value {
            5000 => Ok(FrameDuration::SizeArg),
            5001 => Ok(FrameDuration::Size2_5),
            5002 => Ok(FrameDuration::Size5),
            5003 => Ok(FrameDuration::Size10),
            5004 => Ok(FrameDuration::Size20),
            5005 => Ok(FrameDuration::Size40),
            5006 => Ok(FrameDuration::Size60),
            5007 => Ok(FrameDuration::Size80),
            5008 => Ok(FrameDuration::Size100),
            5009 => Ok(FrameDuration::Size120),
            _ => Err(ErrorCode::Unknown),
        }
    }

    /// What a frame-duration request carries.
    pub open spec fn spec_to_native(self) -> i32 {
        match self {
            FrameDuration::SizeArg => 5000,
            FrameDuration::Size2_5 => 5001,
            FrameDuration::Size5 => 5002,
            FrameDuration::Size10 => 5003,
            FrameDuration::Size20 => 5004,
            FrameDuration::Size40 => 5005,
            FrameDuration::Size60 => 5006,
            FrameDuration::Size80 => 5007,
            FrameDuration::Size100 => 5008,
            FrameDuration::Size120 => 5009,
        }
    }

    /// Writes a frame-duration request.
    pub fn to_native(self) -> (r: i32)
        ensures
            r == self.spec_to_native(),
    {
        match self {
            FrameDuration::SizeArg => 5000,
            FrameDuration::Size2_5 => 5001,
            FrameDuration::Size5 => 5002,
            FrameDuration::Size10 => 5003,
            FrameDuration::Size20 => 5004,
            FrameDuration::Size40 => 5005,
            FrameDuration::Size60 => 5006,
            FrameDuration::Size80 => 5007,
            FrameDuration::Size100 => 5008,
            FrameDuration::Size120 => 5009,
        }
    }
}

} // verus!
