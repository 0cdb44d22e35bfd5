//! Sample specification data type.

use vstd::prelude::*;

verus! {

/// Maximum number of channels.
pub const CHANNELS_MAX: u8 = 32;

/// The highest nominal sample rate.
pub const RATE_MAX: u32 = 48000 * 8;

/// The highest sample rate that is accepted: the nominal maximum and 1% on top of it.
pub const RATE_LIMIT: u32 = 387840;

/// Describes how individual samples are encoded.
#[derive(Clone, Copy, Debug, PartialEq, Eq, Structural)]
pub enum SampleFormat {
    /// Unsigned 8 Bit PCM
    U8,
    /// 8 Bit a-Law
    Alaw,
    /// 8 Bit mu-Law
    Ulaw,
    /// Signed 16 Bit PCM, little endian (PC)
    S16Le,
    /// Signed 16 Bit PCM, big endian
    S16Be,
    /// 32 Bit IEEE floating point, little endian (PC), range -1.0 to 1.0
    Float32Le,
    /// 32 Bit IEEE floating point, big endian, range -1.0 to 1.0
    Float32Be,
    /// Signed 32 Bit PCM, little endian (PC)
    S32Le,
    /// Signed 32 Bit PCM, big endian
    S32Be,
    /// Signed 24 Bit PCM packed, little endian (PC)
    S24Le,
    /// Signed 24 Bit PCM packed, big endian
    S24Be,
    /// Signed 24 Bit PCM in LSB of 32 Bit words, little endian (PC)
    S24In32Le,
    /// Signed 24 Bit PCM in LSB of 32 Bit words, big endian
    S24In32Be,
}

impl SampleFormat {
    /// The number that stands for the format on the wire.
    pub open spec fn spec_as_u8(self) -> u8 {
        match self {
            SampleFormat::U8 => 0,
            SampleFormat::Alaw => 1,
            SampleFormat::Ulaw => 2,
            SampleFormat::S16Le => 3,
            SampleFormat::S16Be => 4,
            SampleFormat::Float32Le => 5,
            SampleFormat::Float32Be => 6,
            SampleFormat::S32Le => 7,
            SampleFormat::S32Be => 8,
            SampleFormat::S24Le => 9,
            SampleFormat::S24Be => 10,
            SampleFormat::S24In32Le => 11,
            SampleFormat::S24In32Be => 12,
        }
    }

    /// The format that a number stands for, if it stands for one.
    pub open spec fn spec_from_u8(raw: u8) -> Option<SampleFormat> {
        if raw == 0 {
            Some(SampleFormat::U8)
        } else if raw == 1 {
            Some(SampleFormat::Alaw)
        } else if raw == 2 {
            Some(SampleFormat::Ulaw)
        } else if raw == 3 {
            Some(SampleFormat::S16Le)
        } else if raw == 4 {
            Some(SampleFormat::S16Be)
        } else if raw == 5 {
            Some(SampleFormat::Float32Le)
        } else if raw == 6 {
            Some(SampleFormat::Float32Be)
        } else if raw == 7 {
            Some(SampleFormat::S32Le)
        } else if raw == 8 {
            Some(SampleFormat::S32Be)
        } else if raw == 9 {
            Some(SampleFormat::S24Le)
        } else if raw == 10 {
            Some(SampleFormat::S24Be)
        } else if raw == 11 {
            Some(SampleFormat::S24In32Le)
        } else if raw == 12 {
            Some(SampleFormat::S24In32Be)
        } else {
            None
        }
    }

    /// Gets the number that stands for the format on the wire.
    pub fn as_u8(self) -> (raw: u8)
        ensures
            raw == self.spec_as_u8(),
            raw <= 12,
    {
        match self {
            SampleFormat::U8 => 0,
            SampleFormat::Alaw => 1,
            SampleFormat::Ulaw => 2,
            SampleFormat::S16Le => 3,
            SampleFormat::S16Be => 4,
            SampleFormat::Float32Le => 5,
            SampleFormat::Float32Be => 6,
            SampleFormat::S32Le => 7,
            SampleFormat::S32Be => 8,
            SampleFormat::S24Le => 9,
            SampleFormat::S24Be => 10,
            SampleFormat::S24In32Le => 11,
            SampleFormat::S24In32Be => 12,
        }
    }

    /// Reads a format from the number that stands for it. Numbers above 12 stand for none.
    pub fn from_u8(raw: u8) -> (format: Option<SampleFormat>)
        ensures
            format == Self::spec_from_u8(raw),
            format is Some <==> raw <= 12,
            format matches Some(f) ==> f.spec_as_u8() == raw,
    {
        match raw {
            0 => Some(SampleFormat::U8),
            1 => Some(SampleFormat::Alaw),
            2 => Some(SampleFormat::Ulaw),
            3 => Some(SampleFormat::S16Le),
            4 => Some(SampleFormat::S16Be),
            5 => Some(SampleFormat::Float32Le),
            6 => Some(SampleFormat::Float32Be),
            7 => Some(SampleFormat::S32Le),
            8 => Some(SampleFormat::S32Be),
            9 => Some(SampleFormat::S24Le),
            10 => Some(SampleFormat::S24Be),
            11 => Some(SampleFormat::S24In32Le),
            12 => Some(SampleFormat::S24In32Be),
            _ => None,
        }
    }
}

/// Reading a format back from its own number gives the format again.
pub proof fn lemma_sample_format_roundtrip(format: SampleFormat)
    ensures
        SampleFormat::spec_from_u8(format.spec_as_u8()) == Some(format),
{
}

/// What a sample specification holds.
pub struct SampleSpecView {
    /// Format / Encoding of individual samples.
    pub format: SampleFormat,
    /// Number of independent channels.
    pub channels: u8,
    /// Number of samples per second (and per channel).
    pub sample_rate: u32,
}

/// Whether the channel count and the sample rate are in the accepted range.
pub open spec fn valid_sample_spec(v: SampleSpecView) -> bool {
    &&& 1 <= v.channels <= CHANNELS_MAX
    &&& 1 <= v.sample_rate <= RATE_LIMIT
}

/// What a sample specification becomes for a peer that speaks `protocol_version`: before
/// version 15 the 24 bit formats are unknown and stand as 32 bit float of the same byte order.
pub open spec fn spec_downgrade(v: SampleSpecView, protocol_version: u16) -> SampleSpecView {
    if protocol_version < 15 {
        match v.format {
            SampleFormat::S24Le | SampleFormat::S24In32Le => SampleSpecView {
                format: SampleFormat::Float32Le,
                ..v
            },
            SampleFormat::S24Be | SampleFormat::S24In32Be => SampleSpecView {
                format: SampleFormat::Float32Be,
                ..v
            },
            _ => v,
        }
    } else {
        v
    }
}

/// Why sample specification parameters were refused.
#[derive(Clone, Copy, Debug, PartialEq, Eq, Structural)]
pub enum InvalidSampleSpecError {
    /// The channel count is zero or above `CHANNELS_MAX`.
    ChannelCount(u8),
    /// The sample rate is zero or above `RATE_LIMIT`.
    SampleRate(u32),
}

/// A sample specification that fully describes the format of a sample stream between 2 endpoints.
#[derive(Clone, Copy, Debug)]
pub struct SampleSpec {
    /// Format / Encoding of individual samples.
    format: SampleFormat,
    /// Number of independent channels. Must be at least 1.
    channels: u8,
    /// Number of samples per second (and per channel).
    sample_rate: u32,
}

impl View for SampleSpec {
    type V = SampleSpecView;

    closed spec fn view(&self) -> SampleSpecView {
        SampleSpecView {
            format: self.format,
            channels: self.channels,
            sample_rate: self.sample_rate,
        }
    }
}

impl SampleSpec {
    #[verifier::type_invariant]
    spec fn well_formed(&self) -> bool {
        valid_sample_spec(self@)
    }

    /// Creates a new sample specification.
    ///
    /// # Parameters
    ///
    /// * `format`: Format of individual samples.
    /// * `channels`: Number of independent channels (must be at least 1).
    /// * `sample_rate`: Samples per second and per channel.
    pub fn new_checked(format: SampleFormat, channels: u8, sample_rate: u32) -> (r: Result<
        SampleSpec,
        InvalidSampleSpecError,
    >)
        ensures
            match r {
                Ok(s) => valid_sample_spec(s@) && s@ == (SampleSpecView {
                    format,
                    channels,
                    sample_rate,
                }),
                Err(InvalidSampleSpecError::ChannelCount(c)) => c == channels && (channels == 0
                    || channels > CHANNELS_MAX),
                Err(InvalidSampleSpecError::SampleRate(s)) => s == sample_rate && 1 <= channels
                    <= CHANNELS_MAX && (sample_rate == 0 || sample_rate > RATE_LIMIT),
            },
    {
        if channels == 0 || channels > CHANNELS_MAX {
            return Err(InvalidSampleSpecError::ChannelCount(channels));
        }
        // The extra 1% is due to module-loopback: it temporarily sets a higher-than-nominal rate
        // to get rid of excessive buffer latency.
        if sample_rate == 0 || sample_rate > RATE_LIMIT {
            return Err(InvalidSampleSpecError::SampleRate(sample_rate));
        }
        Ok(SampleSpec { format, channels, sample_rate })
    }

    /// Format / Encoding of individual samples.
    pub fn format(&self) -> (f: SampleFormat)
        ensures
            f == self@.format,
    {
        self.format
    }

    /// Number of independent channels, between 1 and `CHANNELS_MAX`.
    pub fn channels(&self) -> (c: u8)
        ensures
            c == self@.channels,
            1 <= c <= CHANNELS_MAX,
    {
        proof {
            use_type_invariant(self);
        }
        self.channels
    }

    /// Number of samples per second (and per channel), between 1 and `RATE_LIMIT`.
    pub fn sample_rate(&self) -> (rate: u32)
        ensures
            rate == self@.sample_rate,
            1 <= rate <= RATE_LIMIT,
    {
        proof {
            use_type_invariant(self);
        }
        self.sample_rate
    }

    /// Modifies a `SampleSpec` to be compatible with a different `protocol_version` so that older
    /// clients can understand it.
    pub fn protocol_downgrade(&self, protocol_version: u16) -> (fixed: SampleSpec)
        ensures
            fixed@ == spec_downgrade(self@, protocol_version),
            valid_sample_spec(fixed@),
    {
        proof {
            use_type_invariant(self);
        }
        let mut format = self.format;
        if protocol_version < 15 {
            // S24 samples were added in version 15, downgrade them to something vaguely similar
            match format {
                SampleFormat::S24Le | SampleFormat::S24In32Le => {
                    format = SampleFormat::Float32Le;
                },
                SampleFormat::S24Be | SampleFormat::S24In32Be => {
                    format = SampleFormat::Float32Be;
                },
                _ => {},
            }
        }
        SampleSpec { format, channels: self.channels, sample_rate: self.sample_rate }
    }
}

/// Downgrading does not touch a specification at version 15 or later, keeps channels and rate
/// at every version, and leaves no 24 bit format before version 15.
pub proof fn lemma_downgrade_properties(v: SampleSpecView, protocol_version: u16)
    ensures
        protocol_version >= 15 ==> spec_downgrade(v, protocol_version) == v,
        spec_downgrade(v, protocol_version).channels == v.channels,
        spec_downgrade(v, protocol_version).sample_rate == v.sample_rate,
        valid_sample_spec(v) ==> valid_sample_spec(spec_downgrade(v, protocol_version)),
        protocol_version < 15 ==> spec_downgrade(v, protocol_version).format.spec_as_u8() <= 8,
        spec_downgrade(spec_downgrade(v, protocol_version), protocol_version) == spec_downgrade(
            v,
            protocol_version,
        ),
{
}

} // verus!
