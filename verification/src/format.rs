//! Format descriptors: the configuration that is asked of the audio
//! subsystem, and the test that the negotiated one has to pass.

use crate::frames::pair_up;
use vstd::prelude::*;

verus! {

/// The number of channels of the engine's output: left and right.
pub const STEREO_CHANNELS: u8 = 2;

/// The largest sample rate, in Hz, that the audio subsystem can be asked for.
pub const MAX_SAMPLE_RATE_HZ: u32 = 2147483647;

/// The largest number of frames per callback that the audio subsystem can be
/// asked for.
pub const MAX_FRAMES_PER_CALLBACK: usize = 65535;

/// How one sample is encoded. Encodings of more than one byte are in the
/// byte order of the host, but for `ByteSwapped`.
#[derive(Clone, Copy, Debug, PartialEq, Eq, Structural)]
pub enum SampleFormat {
    /// Unsigned 8-bit integer.
    Unsigned8,
    /// Signed 8-bit integer.
    Signed8,
    /// Unsigned 16-bit integer.
    Unsigned16,
    /// Signed 16-bit integer.
    Signed16,
    /// Signed 32-bit integer.
    Signed32,
    /// 32-bit IEEE float: the only encoding the engine renders.
    Float32,
    /// Any encoding of more than one byte in the byte order that the host
    /// does not use.
    ByteSwapped,
}

/// An audio configuration, as it is asked of the audio subsystem (desired) or
/// as the subsystem reports it after negotiation (obtained).
#[derive(Clone, Copy, Debug, PartialEq, Eq, Structural)]
pub struct FormatDescriptor {
    /// Frames per second.
    pub sample_rate_hz: i32,
    /// Samples per frame.
    pub channel_count: u8,
    /// Encoding of one sample.
    pub sample_format: SampleFormat,
    /// Frames that one callback has to fill.
    pub frames_per_callback: u16,
}

/// Why the engine's requirements cannot be asked of the audio subsystem.
#[derive(Clone, Copy, Debug, PartialEq, Eq, Structural)]
pub enum ConfigError {
    /// The sample rate is zero.
    SampleRateZero,
    /// The sample rate is above [`MAX_SAMPLE_RATE_HZ`].
    SampleRateTooLarge,
    /// The render buffer holds no frame.
    BufferEmpty,
    /// The render buffer holds more than [`MAX_FRAMES_PER_CALLBACK`] frames.
    BufferTooLarge,
}

/// The first field, in the order rate, channels, encoding, buffer size, in
/// which an obtained descriptor differs from the desired one.
#[derive(Clone, Copy, Debug, PartialEq, Eq, Structural)]
pub enum FormatMismatch {
    /// The sample rates differ.
    SampleRate,
    /// The sample rates agree, the channel counts differ.
    Channels,
    /// Rates and channel counts agree, the sample encodings differ.
    SampleFormat,
    /// All agree but the number of frames per callback.
    BufferSize,
}

impl ConfigError {
    /// The text of [`ConfigError::message`].
    pub open spec fn message_text(&self) -> Seq<char> {
        match self {
            ConfigError::SampleRateZero => "Sample rate is zero"@,
            ConfigError::SampleRateTooLarge => "Sample rate too large"@,
            ConfigError::BufferEmpty => "Audio buffer is empty"@,
            ConfigError::BufferTooLarge => "Audio buffer too large"@,
        }
    }

    /// What went wrong, in words.
    pub fn message(&self) -> (text: &'static str)
        ensures
            text@ == self.message_text(),
    {
        match self {
            ConfigError::SampleRateZero => "Sample rate is zero",
            ConfigError::SampleRateTooLarge => "Sample rate too large",
            ConfigError::BufferEmpty => "Audio buffer is empty",
            ConfigError::BufferTooLarge => "Audio buffer too large",
        }
    }
}

impl FormatMismatch {
    /// The text of [`FormatMismatch::message`].
    pub open spec fn message_text(&self) -> Seq<char> {
        match self {
            FormatMismatch::SampleRate => "Invalid sample rate"@,
            FormatMismatch::Channels => "Invalid number of channels"@,
            FormatMismatch::SampleFormat => "Invalid sample format"@,
            FormatMismatch::BufferSize => "Invalid buffer size"@,
        }
    }

    /// What went wrong, in words.
    pub fn message(&self) -> (text: &'static str)
        ensures
            text@ == self.message_text(),
    {
        match self {
            FormatMismatch::SampleRate => "Invalid sample rate",
            FormatMismatch::Channels => "Invalid number of channels",
            FormatMismatch::SampleFormat => "Invalid sample format",
            FormatMismatch::BufferSize => "Invalid buffer size",
        }
    }
}

impl FormatDescriptor {
    /// The rate and both counts are positive. The audio subsystem reads a
    /// zero in a request as "whatever the device prefers", so only such a
    /// descriptor asks for what it says.
    pub open spec fn can_be_requested(&self) -> bool {
        &&& 0 < self.sample_rate_hz
        &&& 0 < self.channel_count
        &&& 0 < self.frames_per_callback
    }

    /// The only shape of audio that the engine renders: stereo frames of
    /// 32-bit floats.
    pub open spec fn is_stereo_float(&self) -> bool {
        &&& self.channel_count == STEREO_CHANNELS
        &&& self.sample_format == SampleFormat::Float32
    }

    /// The length of the flat sample buffer that one callback hands over.
    pub open spec fn samples_per_callback(&self) -> int {
        self.channel_count * self.frames_per_callback
    }
}

/// The descriptor that an engine with the given output rate and render
/// buffer length needs, or the reason why it cannot be asked for. The rate
/// is looked at first.
pub open spec fn desired_format(sample_rate: u32, render_buffer_len: usize) -> Result<
    FormatDescriptor,
    ConfigError,
> {
    if sample_rate == 0 {
        Err(ConfigError::SampleRateZero)
    } else if sample_rate > MAX_SAMPLE_RATE_HZ {
        Err(ConfigError::SampleRateTooLarge)
    } else if render_buffer_len == 0 {
        Err(ConfigError::BufferEmpty)
    } else if render_buffer_len > MAX_FRAMES_PER_CALLBACK {
        Err(ConfigError::BufferTooLarge)
    } else {
        Ok(
            FormatDescriptor {
                sample_rate_hz: sample_rate as i32,
                channel_count: STEREO_CHANNELS,
                sample_format: SampleFormat::Float32,
                frames_per_callback: render_buffer_len as u16,
            },
        )
    }
}

/// Builds the descriptor to ask the audio subsystem for, from the engine's
/// output rate in Hz and the number of frames it renders per call.
///
/// The result is stereo, 32-bit float, with the engine's rate and one render
/// buffer per callback. A rate or a length that is zero, or that the
/// subsystem's fields cannot hold, is refused, so that no device is opened
/// with a configuration the engine cannot feed.
pub fn desired_spec(sample_rate: u32, render_buffer_len: usize) -> (r: Result<
    FormatDescriptor,
    ConfigError,
>)
    ensures
        r == desired_format(sample_rate, render_buffer_len),
        r matches Ok(d) ==> {
            &&& d.is_stereo_float()
            &&& d.can_be_requested()
            &&& d.sample_rate_hz == sample_rate
            &&& d.frames_per_callback == render_buffer_len
        },
        r is Err <==> sample_rate == 0 || sample_rate > MAX_SAMPLE_RATE_HZ || render_buffer_len
            == 0 || render_buffer_len > MAX_FRAMES_PER_CALLBACK,
{
    if sample_rate == 0 {
        return Err(ConfigError::SampleRateZero);
    }
    if sample_rate > MAX_SAMPLE_RATE_HZ {
        return Err(ConfigError::SampleRateTooLarge);
    }
    if render_buffer_len == 0 {
        return Err(ConfigError::BufferEmpty);
    }
    if render_buffer_len > MAX_FRAMES_PER_CALLBACK {
        return Err(ConfigError::BufferTooLarge);
    }
    Ok(
        FormatDescriptor {
            sample_rate_hz: sample_rate as i32,
            channel_count: STEREO_CHANNELS,
            sample_format: SampleFormat::Float32,
            frames_per_callback: render_buffer_len as u16,
        },
    )
}

/// The first field in which `obtained` differs from `desired`, if any.
pub open spec fn first_mismatch(desired: FormatDescriptor, obtained: FormatDescriptor) -> Option<
    FormatMismatch,
> {
    if obtained.sample_rate_hz != desired.sample_rate_hz {
        Some(FormatMismatch::SampleRate)
    } else if obtained.channel_count != desired.channel_count {
        Some(FormatMismatch::Channels)
    } else if obtained.sample_format != desired.sample_format {
        Some(FormatMismatch::SampleFormat)
    } else if obtained.frames_per_callback != desired.frames_per_callback {
        Some(FormatMismatch::BufferSize)
    } else {
        None
    }
}

/// No field differs exactly when the two descriptors are equal: a difference
/// in any one field is a mismatch, and equality in all four is none.
pub proof fn lemma_no_mismatch_iff_equal(desired: FormatDescriptor, obtained: FormatDescriptor)
    ensures
        first_mismatch(desired, obtained) is None <==> obtained == desired,
        obtained.sample_rate_hz != desired.sample_rate_hz ==> first_mismatch(desired, obtained)
            is Some,
        obtained.channel_count != desired.channel_count ==> first_mismatch(desired, obtained)
            is Some,
        obtained.sample_format != desired.sample_format ==> first_mismatch(desired, obtained)
            is Some,
        obtained.frames_per_callback != desired.frames_per_callback ==> first_mismatch(
            desired,
            obtained,
        ) is Some,
{
}

/// Decides whether the configuration that the audio subsystem negotiated is
/// the one that was asked for.
///
/// The engine has no rendering path for any other rate, channel count,
/// encoding or buffer size, so nothing short of equality in every field is
/// accepted. On `Err` the caller must not bind a callback to the device; the
/// error names the first field that differs.
pub fn validate(desired: &FormatDescriptor, obtained: &FormatDescriptor) -> (r: Result<
    (),
    FormatMismatch,
>)
    ensures
        r is Ok <==> *obtained == *desired,
        r == match first_mismatch(*desired, *obtained) {
            Some(m) => Err::<(), FormatMismatch>(m),
            None => Ok(()),
        },
{
    if obtained.sample_rate_hz != desired.sample_rate_hz {
        Err(FormatMismatch::SampleRate)
    } else if obtained.channel_count != desired.channel_count {
        Err(FormatMismatch::Channels)
    } else if obtained.sample_format != desired.sample_format {
        Err(FormatMismatch::SampleFormat)
    } else if obtained.frames_per_callback != desired.frames_per_callback {
        Err(FormatMismatch::BufferSize)
    } else {
        Ok(())
    }
}

/// Once `validate` has accepted a negotiation for a stereo request, every
/// flat buffer of the negotiated size has even length and holds exactly the
/// requested number of frames.
pub proof fn lemma_accepted_buffer_holds_requested_frames<T>(
    desired: FormatDescriptor,
    obtained: FormatDescriptor,
    raw: Seq<T>,
)
    requires
        desired.is_stereo_float(),
        first_mismatch(desired, obtained) is None,
        raw.len() == obtained.samples_per_callback(),
    ensures
        obtained == desired,
        raw.len() % 2 == 0,
        pair_up(raw).len() == desired.frames_per_callback,
{
    assert(obtained.channel_count == 2);
    assert(obtained.samples_per_callback() == 2 * obtained.frames_per_callback);
}

} // verus!
