//! Error types and the error codes that travel over the wire.

use vstd::prelude::*;

verus! {

/// An error code understood by the PulseAudio protocol.
///
/// Can be sent to clients to inform them of a specific error.
#[derive(Clone, Copy, Debug, PartialEq, Eq, Structural)]
pub enum PulseError {
    /// Access failure
    Access,
    /// Unknown command
    Command,
    /// Invalid argument
    Invalid,
    /// Entity exists
    Exist,
    /// No such entity
    NoEntity,
    /// Connection refused
    ConnectionRefused,
    /// Protocol error
    Protocol,
    /// Timeout
    Timeout,
    /// No authentication key
    AuthKey,
    /// Internal error
    Internal,
    /// Connection terminated
    ConnectionTerminated,
    /// Entity killed
    Killed,
    /// Invalid server
    InvalidServer,
    /// Module initialization failed
    ModInitFailed,
    /// Bad state
    BadState,
    /// No data
    NoData,
    /// Incompatible protocol version
    Version,
    /// Data too large
    TooLarge,
    /// Operation not supported
    NotSupported,
    /// The error code was unknown to the client
    Unknown,
    /// Extension does not exist
    NoExtension,
    /// Obsolete functionality
    Obsolete,
    /// Missing implementation
    NotImplemented,
    /// The caller forked without calling execve() and tried to reuse the context
    Forked,
    /// An IO error happened
    Io,
    /// Device or resource busy
    Busy,
}

impl PulseError {
    /// The numeric value of the code on the wire.
    pub open spec fn spec_code(self) -> u32 {
        match self {
            PulseError::Access => 1,
            PulseError::Command => 2,
            PulseError::Invalid => 3,
            PulseError::Exist => 4,
            PulseError::NoEntity => 5,
            PulseError::ConnectionRefused => 6,
            PulseError::Protocol => 7,
            PulseError::Timeout => 8,
            PulseError::AuthKey => 9,
            PulseError::Internal => 10,
            PulseError::ConnectionTerminated => 11,
            PulseError::Killed => 12,
            PulseError::InvalidServer => 13,
            PulseError::ModInitFailed => 14,
            PulseError::BadState => 15,
            PulseError::NoData => 16,
            PulseError::Version => 17,
            PulseError::TooLarge => 18,
            PulseError::NotSupported => 19,
            PulseError::Unknown => 20,
            PulseError::NoExtension => 21,
            PulseError::Obsolete => 22,
            PulseError::NotImplemented => 23,
            PulseError::Forked => 24,
            PulseError::Io => 25,
            PulseError::Busy => 26,
        }
    }

    /// The code that a wire value stands for, if it stands for one.
    pub open spec fn spec_from_u32(raw: u32) -> Option<PulseError> {
        if raw == 1 {
            Some(PulseError::Access)
        } else if raw == 2 {
            Some(PulseError::Command)
        } else if raw == 3 {
            Some(PulseError::Invalid)
        } else if raw == 4 {
            Some(PulseError::Exist)
        } else if raw == 5 {
            Some(PulseError::NoEntity)
        } else if raw == 6 {
            Some(PulseError::ConnectionRefused)
        } else if raw == 7 {
            Some(PulseError::Protocol)
        } else if raw == 8 {
            Some(PulseError::Timeout)
        } else if raw == 9 {
            Some(PulseError::AuthKey)
        } else if raw == 10 {
            Some(PulseError::Internal)
        } else if raw == 11 {
            Some(PulseError::ConnectionTerminated)
        } else if raw == 12 {
            Some(PulseError::Killed)
        } else if raw == 13 {
            Some(PulseError::InvalidServer)
        } else if raw == 14 {
            Some(PulseError::ModInitFailed)
        } else if raw == 15 {
            Some(PulseError::BadState)
        } else if raw == 16 {
            Some(PulseError::NoData)
        } else if raw == 17 {
            Some(PulseError::Version)
        } else if raw == 18 {
            Some(PulseError::TooLarge)
        } else if raw == 19 {
            Some(PulseError::NotSupported)
        } else if raw == 20 {
            Some(PulseError::Unknown)
        } else if raw == 21 {
            Some(PulseError::NoExtension)
        } else if raw == 22 {
            Some(PulseError::Obsolete)
        } else if raw == 23 {
            Some(PulseError::NotImplemented)
        } else if raw == 24 {
            Some(PulseError::Forked)
        } else if raw == 25 {
            Some(PulseError::Io)
        } else if raw == 26 {
            Some(PulseError::Busy)
        } else {
            None
        }
    }

    /// Gets the numeric value that is sent to the peer for this code.
    pub fn code(self) -> (raw: u32)
        ensures
            raw == self.spec_code(),
            1 <= raw <= 26,
    {
        match self {
            PulseError::Access => 1,
            PulseError::Command => 2,
            PulseError::Invalid => 3,
            PulseError::Exist => 4,
            PulseError::NoEntity => 5,
            PulseError::ConnectionRefused => 6,
            PulseError::Protocol => 7,
            PulseError::Timeout => 8,
            PulseError::AuthKey => 9,
            PulseError::Internal => 10,
            PulseError::ConnectionTerminated => 11,
            PulseError::Killed => 12,
            PulseError::InvalidServer => 13,
            PulseError::ModInitFailed => 14,
            PulseError::BadState => 15,
            PulseError::NoData => 16,
            PulseError::Version => 17,
            PulseError::TooLarge => 18,
            PulseError::NotSupported => 19,
            PulseError::Unknown => 20,
            PulseError::NoExtension => 21,
            PulseError::Obsolete => 22,
            PulseError::NotImplemented => 23,
            PulseError::Forked => 24,
            PulseError::Io => 25,
            PulseError::Busy => 26,
        }
    }

    /// Reads a code from its numeric value. Values outside `1..=26` stand for no code.
    pub fn from_u32(raw: u32) -> (code: Option<PulseError>)
        ensures
            code == Self::spec_from_u32(raw),
            code is Some <==> 1 <= raw <= 26,
            code matches Some(c) ==> c.spec_code() == raw,
    {
        match raw {
            1 => Some(PulseError::Access),
            2 => Some(PulseError::Command),
            3 => Some(PulseError::Invalid),
            4 => Some(PulseError::Exist),
            5 => Some(PulseError::NoEntity),
            6 => Some(PulseError::ConnectionRefused),
            7 => Some(PulseError::Protocol),
            8 => Some(PulseError::Timeout),
            9 => Some(PulseError::AuthKey),
            10 => Some(PulseError::Internal),
            11 => Some(PulseError::ConnectionTerminated),
            12 => Some(PulseError::Killed),
            13 => Some(PulseError::InvalidServer),
            14 => Some(PulseError::ModInitFailed),
            15 => Some(PulseError::BadState),
            16 => Some(PulseError::NoData),
            17 => Some(PulseError::Version),
            18 => Some(PulseError::TooLarge),
            19 => Some(PulseError::NotSupported),
            20 => Some(PulseError::Unknown),
            21 => Some(PulseError::NoExtension),
            22 => Some(PulseError::Obsolete),
            23 => Some(PulseError::NotImplemented),
            24 => Some(PulseError::Forked),
            25 => Some(PulseError::Io),
            26 => Some(PulseError::Busy),
            _ => None,
        }
    }
}

/// Reading a code back from its own numeric value gives the code again.
pub proof fn lemma_pulse_error_code_roundtrip(code: PulseError)
    ensures
        PulseError::spec_from_u32(code.spec_code()) == Some(code),
{
}

/// What went wrong while bytes were decoded or a value was encoded.
#[derive(Clone, Copy, Debug, PartialEq, Eq, Structural)]
pub enum ErrorKind {
    /// The data ends in the middle of a value.
    UnexpectedEof,
    /// A value was expected, but the data is at its end.
    UnexpectedEnd,
    /// A string is not terminated by a nul byte.
    MissingTerminator,
    /// The tag byte names no kind of value.
    InvalidTag(u8),
    /// The tag byte is reserved and its value cannot be decoded.
    ReservedTag(u8),
    /// The next value is of another kind than the one asked for. Holds the tag that was found.
    UnexpectedValue(u8),
    /// A property list key is empty.
    EmptyPropKey,
    /// A property list key holds a byte outside of ASCII.
    NonAsciiPropKey,
    /// A property list value is larger than the hard limit.
    PropTooLarge,
    /// A property list value does not have the size that was announced for it.
    PropLengthMismatch,
    /// The sample format is not a known one.
    InvalidSampleFormat(u8),
    /// The channel count of a sample specification is zero or above the maximum.
    InvalidChannelCount(u8),
    /// The sample rate is zero or above the maximum.
    InvalidSampleRate(u32),
    /// A channel map announces more channels than the maximum.
    ChannelMapTooLarge(u8),
    /// A channel position is not a known one.
    InvalidChannelPosition(u8),
    /// A channel volume list announces no channel, or more than the maximum.
    InvalidVolumeCount(u8),
    /// The format encoding is not a known one.
    InvalidEncoding(u8),
    /// The protocol version is older than the oldest supported one.
    UnsupportedVersion(u16),
    /// The opcode names no command.
    InvalidOpcode(u32),
    /// The error code names no error.
    InvalidErrorCode(u32),
    /// Data follows the last parameter of a command.
    ExtraParameter,
    /// A stream names its sink both by index and by name.
    SinkIndexAndName,
    /// A packet is shorter than its header announces.
    PacketTruncated,
    /// A packet announces a payload above the accepted size. Holds the announced size.
    PacketTooLarge(u32),
    /// A blob is too large for its length to be written.
    BlobTooLarge,
    /// A packet came for a client that is not, or no longer, known to the server.
    UnknownClient,
}

impl ErrorKind {
    /// The protocol error code that describes this failure to a peer.
    pub open spec fn spec_code(self) -> PulseError {
        match self {
            ErrorKind::SinkIndexAndName => PulseError::Invalid,
            ErrorKind::UnsupportedVersion(_) => PulseError::Version,
            ErrorKind::PacketTooLarge(_) => PulseError::TooLarge,
            ErrorKind::PropTooLarge => PulseError::TooLarge,
            ErrorKind::BlobTooLarge => PulseError::TooLarge,
            _ => PulseError::Protocol,
        }
    }
}

/// Generic error used by the library.
#[derive(Clone, Copy, Debug, PartialEq, Eq, Structural)]
pub struct Error {
    /// The cause of the error.
    pub kind: ErrorKind,
}

impl Error {
    /// Creates an error from its cause.
    pub fn new(kind: ErrorKind) -> (e: Error)
        ensures
            e.kind == kind,
    {
        Error { kind }
    }

    /// The cause of the error.
    pub fn kind(&self) -> (k: ErrorKind)
        ensures
            k == self.kind,
    {
        self.kind
    }

    /// The protocol error code that describes this error to a peer.
    pub fn code(&self) -> (c: PulseError)
        ensures
            c == self.kind.spec_code(),
    {
        match self.kind {
            ErrorKind::SinkIndexAndName => PulseError::Invalid,
            ErrorKind::UnsupportedVersion(_) => PulseError::Version,
            ErrorKind::PacketTooLarge(_) => PulseError::TooLarge,
            ErrorKind::PropTooLarge => PulseError::TooLarge,
            ErrorKind::BlobTooLarge => PulseError::TooLarge,
            _ => PulseError::Protocol,
        }
    }
}

} // verus!
