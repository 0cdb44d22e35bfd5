//! This module contains parsing and serialization code for the different commands that can be sent
//! to a PulseAudio server (along with the corresponding replies to the client).
//!
//! For every command, type safe wrappers are defined that handle the (de)serialization of that
//! command. Differences between PulseAudio protocol versions are handled via a `protocol_version`
//! parameter that many functions accept.
//!
//! `Command` is probably the type of interest for any users of this module. It can (de)serialize
//! arbitrary commands and provides access to the type-safe information within each command via the
//! `CommandKind` enum.

pub mod auth;
pub mod create_playback_stream;
pub mod get_info;
pub mod laws;
pub mod opcode;
pub mod playback_laws;
pub mod register_memfd_shmid;
pub mod set_client_name;

pub use self::auth::{Auth, AuthReply};
pub use self::create_playback_stream::{
    CreatePlaybackStream, CreatePlaybackStreamReply, SinkSpec,
};
pub use self::get_info::{
    ClientInfo, GetClientInfoListReply, GetModuleInfoListReply, GetSinkInfoListReply,
};
pub use self::opcode::Opcode;
pub use self::register_memfd_shmid::RegisterMemfdShmid;
pub use self::set_client_name::{SetClientName, SetClientNameReply};

use vstd::prelude::*;
use crate::types::tagstruct::grammar::Parsed;
use crate::types::tagstruct::grammar::ValueView;
use crate::types::tagstruct::grammar::spec_encode_proplist;
use crate::types::tagstruct::grammar::spec_encode_u32;
use crate::types::tagstruct::grammar::spec_read_proplist;
use crate::types::tagstruct::grammar::spec_read_u32;
use crate::types::tagstruct::grammar::valid_value;
use crate::command::auth::spec_encode_auth;
use crate::command::auth::spec_read_auth;
use crate::command::auth::AuthView;
use crate::command::create_playback_stream::spec_encode_playback;
use crate::command::create_playback_stream::spec_read_playback;
use crate::command::create_playback_stream::CreatePlaybackStreamView;
use crate::error::Error;
use crate::error::ErrorKind;
use crate::error::PulseError;
use crate::packet::Descriptor;
use crate::packet::Packet;
use crate::packet::CONTROL_CHANNEL;
use crate::types::proplist::PropSeq;
use crate::types::tagstruct::reader::FromTagStruct;
use crate::types::tagstruct::reader::TagStructReader;
use crate::types::tagstruct::reader::Value;
use crate::types::tagstruct::sequence::spec_encode_values;
use crate::types::tagstruct::sequence::spec_read_all;
use crate::types::tagstruct::sequence::spec_views;
use crate::types::tagstruct::sequence::lemma_read_all_valid;
use crate::types::tagstruct::writer::lemma_append_assoc;
use crate::types::tagstruct::writer::spec_value_encodable;
use crate::types::tagstruct::writer::TagStructWriter;
use crate::types::tagstruct::writer::ToTagStruct;

verus! {

/// Minimum protocol version understood by the library.
pub const PROTOCOL_MIN_VERSION: u16 = 13;

/// PulseAudio protocol version implemented by this library.
///
/// This library can still work with clients and servers down to `PROTOCOL_MIN_VERSION` and up to
/// any higher version, but features added by versions higher than this are not supported.
pub const PROTOCOL_VERSION: u16 = 32;

/// What a `CommandKind` holds.
pub enum CommandKindView {
    Auth(AuthView),
    /// The properties to set.
    SetClientName(PropSeq),
    CreatePlaybackStream(CreatePlaybackStreamView),
    GetSinkInfoList,
    GetSourceInfoList,
    GetClientInfoList,
    GetCardInfoList,
    GetModuleInfoList,
    GetSinkInputInfoList,
    GetSourceOutputInfoList,
    GetSampleInfoList,
    /// The id of the shared memory.
    RegisterMemfdShmid(u32),
    /// The bytes of the parameters.
    Reply { params: Seq<u8> },
    Error { code: PulseError },
    /// The opcode, and the bytes of the parameters.
    Other { opcode: Opcode, params: Seq<u8> },
}

/// The payload of a command: what kind of command it is, and its parameters.
#[derive(Debug)]
pub enum CommandKind<'a> {
    /// Authentication request (and protocol handshake).
    Auth(Auth<'a>),
    /// Updates client properties (not just the name).
    SetClientName(SetClientName),
    /// Create a new playback stream.
    CreatePlaybackStream(CreatePlaybackStream<'a>),
    GetSinkInfoList,
    GetSourceInfoList,
    GetClientInfoList,
    GetCardInfoList,
    GetModuleInfoList,
    GetSinkInputInfoList,
    GetSourceOutputInfoList,
    GetSampleInfoList,
    /// Register `memfd`-based shared memory.
    ///
    /// This command can be sent from client to server and from server to client. It can only be
    /// sent over a Unix domain socket and *must* be accompanied by the `memfd` file descriptor to
    /// share.
    RegisterMemfdShmid(RegisterMemfdShmid),
    /// Reply from server to client.
    Reply { params: TagStructReader<'a> },
    /// Command error, sent to client when a command fails.
    Error { code: PulseError },
    /// Any other command of the enumeration. Its parameters are kept as they came.
    Other { opcode: Opcode, params: TagStructReader<'a> },
}

impl<'a> View for CommandKind<'a> {
    type V = CommandKindView;

    open spec fn view(&self) -> CommandKindView {
        match *self {
            CommandKind::Auth(auth) => CommandKindView::Auth(auth@),
            CommandKind::SetClientName(params) => CommandKindView::SetClientName(params@),
            CommandKind::CreatePlaybackStream(params) => CommandKindView::CreatePlaybackStream(
                params@,
            ),
            CommandKind::GetSinkInfoList => CommandKindView::GetSinkInfoList,
            CommandKind::GetSourceInfoList => CommandKindView::GetSourceInfoList,
            CommandKind::GetClientInfoList => CommandKindView::GetClientInfoList,
            CommandKind::GetCardInfoList => CommandKindView::GetCardInfoList,
            CommandKind::GetModuleInfoList => CommandKindView::GetModuleInfoList,
            CommandKind::GetSinkInputInfoList => CommandKindView::GetSinkInputInfoList,
            CommandKind::GetSourceOutputInfoList => CommandKindView::GetSourceOutputInfoList,
            CommandKind::GetSampleInfoList => CommandKindView::GetSampleInfoList,
            CommandKind::RegisterMemfdShmid(params) => CommandKindView::RegisterMemfdShmid(params@),
            CommandKind::Reply { params } => CommandKindView::Reply { params: params.remaining() },
            CommandKind::Error { code } => CommandKindView::Error { code },
            CommandKind::Other { opcode, params } => CommandKindView::Other {
                opcode,
                params: params.remaining(),
            },
        }
    }
}

/// What a command holds.
pub struct CommandView {
    /// The correlation id that the client chose.
    pub tag: u32,
    pub kind: CommandKindView,
}

/// The opcode of a command of each kind.
pub open spec fn spec_opcode_of(kind: CommandKindView) -> Opcode {
    match kind {
        CommandKindView::Auth(_) => Opcode::Auth,
        CommandKindView::SetClientName(_) => Opcode::SetClientName,
        CommandKindView::CreatePlaybackStream(_) => Opcode::CreatePlaybackStream,
        CommandKindView::GetSinkInfoList => Opcode::GetSinkInfoList,
        CommandKindView::GetSourceInfoList => Opcode::GetSourceInfoList,
        CommandKindView::GetClientInfoList => Opcode::GetClientInfoList,
        CommandKindView::GetCardInfoList => Opcode::GetCardInfoList,
        CommandKindView::GetModuleInfoList => Opcode::GetModuleInfoList,
        CommandKindView::GetSinkInputInfoList => Opcode::GetSinkInputInfoList,
        CommandKindView::GetSourceOutputInfoList => Opcode::GetSourceOutputInfoList,
        CommandKindView::GetSampleInfoList => Opcode::GetSampleInfoList,
        CommandKindView::RegisterMemfdShmid(_) => Opcode::RegisterMemfdShmid,
        CommandKindView::Reply { .. } => Opcode::Reply,
        CommandKindView::Error { .. } => Opcode::Error,
        CommandKindView::Other { opcode, .. } => opcode,
    }
}

/// The parameters that were read, where nothing follows them: trailing bytes are refused.
pub open spec fn spec_all_of<T>(payload: Seq<u8>, r: Parsed<T>) -> Result<T, ErrorKind> {
    match r {
        Err(e) => Err(e),
        Ok((v, n)) => if n == payload.len() {
            Ok(v)
        } else {
            Err(ErrorKind::ExtraParameter)
        },
    }
}

/// A command without parameters, where there are none: any byte is refused.
pub open spec fn spec_no_params(payload: Seq<u8>, kind: CommandKindView) -> Result<
    CommandKindView,
    ErrorKind,
> {
    if payload.len() == 0 {
        Ok(kind)
    } else {
        Err(ErrorKind::ExtraParameter)
    }
}

/// Reads the parameters of the command that `opcode` names from the rest of the payload.
///
/// The parameters of a reply and of a command that has no parser of its own are kept as they
/// are.
pub open spec fn spec_parse_kind(opcode: Opcode, payload: Seq<u8>, protocol_version: u16) -> Result<
    CommandKindView,
    ErrorKind,
> {
    match opcode {
        Opcode::Reply => Ok(CommandKindView::Reply { params: payload }),
        Opcode::Error => match spec_all_of(payload, spec_read_u32(payload)) {
            Err(e) => Err(e),
            Ok(raw) => match PulseError::spec_from_u32(raw) {
                Some(code) => Ok(CommandKindView::Error { code }),
                None => Err(ErrorKind::InvalidErrorCode(raw)),
            },
        },
        Opcode::CreatePlaybackStream => match spec_all_of(
            payload,
            spec_read_playback(payload, protocol_version),
        ) {
            Err(e) => Err(e),
            Ok(params) => Ok(CommandKindView::CreatePlaybackStream(params)),
        },
        Opcode::Auth => match spec_all_of(payload, spec_read_auth(payload)) {
            Err(e) => Err(e),
            Ok(auth) => Ok(CommandKindView::Auth(auth)),
        },
        Opcode::SetClientName => match spec_all_of(payload, spec_read_proplist(payload)) {
            Err(e) => Err(e),
            Ok(props) => Ok(CommandKindView::SetClientName(props)),
        },
        Opcode::GetSinkInfoList => spec_no_params(payload, CommandKindView::GetSinkInfoList),
        Opcode::GetSourceInfoList => spec_no_params(payload, CommandKindView::GetSourceInfoList),
        Opcode::GetModuleInfoList => spec_no_params(payload, CommandKindView::GetModuleInfoList),
        Opcode::GetClientInfoList => spec_no_params(payload, CommandKindView::GetClientInfoList),
        Opcode::GetSinkInputInfoList => spec_no_params(
            payload,
            CommandKindView::GetSinkInputInfoList,
        ),
        Opcode::GetSourceOutputInfoList => spec_no_params(
            payload,
            CommandKindView::GetSourceOutputInfoList,
        ),
        Opcode::GetSampleInfoList => spec_no_params(payload, CommandKindView::GetSampleInfoList),
        Opcode::GetCardInfoList => spec_no_params(payload, CommandKindView::GetCardInfoList),
        Opcode::RegisterMemfdShmid => match spec_all_of(payload, spec_read_u32(payload)) {
            Err(e) => Err(e),
            Ok(shmid) => Ok(CommandKindView::RegisterMemfdShmid(shmid)),
        },
        _ => Ok(CommandKindView::Other { opcode, params: payload }),
    }
}

/// Reads a command from the payload of a control packet: the opcode and the tag, both unsigned
/// 32 bit values, then the parameters of the command.
pub open spec fn spec_parse_command(s: Seq<u8>, protocol_version: u16) -> Result<
    CommandView,
    ErrorKind,
> {
    if protocol_version < PROTOCOL_MIN_VERSION {
        Err(ErrorKind::UnsupportedVersion(protocol_version))
    } else {
        match spec_read_u32(s) {
            Err(e) => Err(e),
            Ok((raw, n)) => match spec_read_u32(s.skip(n)) {
                Err(e) => Err(e),
                Ok((tag, m)) => match Opcode::spec_from_u32(raw) {
                    None => Err(ErrorKind::InvalidOpcode(raw)),
                    Some(opcode) => match spec_parse_kind(
                        opcode,
                        s.skip(n + m),
                        protocol_version,
                    ) {
                        Err(e) => Err(e),
                        Ok(kind) => Ok(CommandView { tag, kind }),
                    },
                },
            },
        }
    }
}

/// The bytes of the parameters of a command at a protocol version. The parameters of a reply,
/// and of a command that has no parser of its own, are the values that are read from them.
pub open spec fn spec_encode_params(kind: CommandKindView, protocol_version: u16) -> Seq<u8> {
    match kind {
        CommandKindView::Auth(auth) => spec_encode_auth(auth),
        CommandKindView::SetClientName(props) => spec_encode_proplist(props),
        CommandKindView::CreatePlaybackStream(params) => spec_encode_playback(
            params,
            protocol_version,
        ),
        CommandKindView::RegisterMemfdShmid(shmid) => spec_encode_u32(shmid),
        CommandKindView::Reply { params } => match spec_read_all(params) {
            Ok(values) => spec_encode_values(values),
            Err(_) => Seq::empty(),
        },
        CommandKindView::Error { code } => spec_encode_u32(code.spec_code()),
        CommandKindView::Other { opcode, params } => match spec_read_all(params) {
            Ok(values) => spec_encode_values(values),
            Err(_) => Seq::empty(),
        },
        _ => Seq::empty(),
    }
}

/// The bytes of a command at a protocol version: opcode, tag, parameters.
pub open spec fn spec_encode_command(v: CommandView, protocol_version: u16) -> Seq<u8> {
    spec_encode_u32(spec_opcode_of(v.kind).spec_as_u32()) + spec_encode_u32(v.tag)
        + spec_encode_params(v.kind, protocol_version)
}

/// Why a command cannot be written, if it cannot: the cookie of an `Auth` command is too large
/// for its length to be written, or parameters that were kept as they came are refused when
/// they are read.
pub open spec fn spec_encode_error(kind: CommandKindView) -> Option<ErrorKind> {
    match kind {
        CommandKindView::Auth(auth) => if auth.cookie.len() <= u32::MAX {
            None
        } else {
            Some(ErrorKind::BlobTooLarge)
        },
        CommandKindView::Reply { params } => match spec_read_all(params) {
            Ok(_) => None,
            Err(e) => Some(e),
        },
        CommandKindView::Other { opcode, params } => match spec_read_all(params) {
            Ok(_) => None,
            Err(e) => Some(e),
        },
        _ => None,
    }
}

/// The bytes of a reply to the command with the given tag: the opcode of a reply, the tag, and
/// the bytes of what is replied.
pub open spec fn spec_encode_reply(tag: u32, reply: Seq<u8>) -> Seq<u8> {
    spec_encode_u32(Opcode::Reply.spec_as_u32()) + spec_encode_u32(tag) + reply
}

/// A command from client to server (or a reply/error sent to the client).
///
/// A command is transmitted as a `TagStruct` in the payload of a control message.
#[derive(Debug)]
pub struct Command<'a> {
    tag: u32,
    kind: CommandKind<'a>,
}

impl<'a> View for Command<'a> {
    type V = CommandView;

    closed spec fn view(&self) -> CommandView {
        CommandView { tag: self.tag, kind: self.kind@ }
    }
}

/// Refuses bytes that follow the parameters of a command.
fn ensure_all_read(ts: &TagStructReader<'_>) -> (r: Result<(), Error>)
    ensures
        match r {
            Ok(()) => ts.remaining().len() == 0,
            Err(e) => ts.remaining().len() > 0 && e.kind == ErrorKind::ExtraParameter,
        },
{
    if ts.remaining_len() == 0 {
        Ok(())
    } else {
        Err(Error::new(ErrorKind::ExtraParameter))
    }
}

/// Reads the parameters of the command that `opcode` names.
#[verifier::rlimit(40)]
fn parse_kind<'a>(opcode: Opcode, ts: TagStructReader<'a>, protocol_version: u16) -> (r: Result<
    CommandKind<'a>,
    Error,
>)
    ensures
        match spec_parse_kind(opcode, ts.remaining(), protocol_version) {
            Ok(v) => r matches Ok(kind) && kind@ == v,
            Err(k) => r matches Err(e) && e.kind == k,
        },
{
    let mut ts = ts;
    let ghost payload = ts.remaining();
    let kind = match opcode {
        Opcode::Reply => {
            return Ok(CommandKind::Reply { params: ts });
        },
        Opcode::Error => {
            let raw = match ts.read_u32() {
                Ok(raw) => raw,
                Err(e) => {
                    return Err(e);
                },
            };
            match ensure_all_read(&ts) {
                Ok(()) => {},
                Err(e) => {
                    return Err(e);
                },
            }
            match PulseError::from_u32(raw) {
                Some(code) => {
                    return Ok(CommandKind::Error { code });
                },
                None => {
                    return Err(Error::new(ErrorKind::InvalidErrorCode(raw)));
                },
            }
        },
        Opcode::CreatePlaybackStream => {
            match CreatePlaybackStream::from_tag_struct(&mut ts, protocol_version) {
                Ok(params) => CommandKind::CreatePlaybackStream(params),
                Err(e) => {
                    return Err(e);
                },
            }
        },
        Opcode::Auth => {
            match Auth::from_tag_struct(&mut ts, protocol_version) {
                Ok(auth) => CommandKind::Auth(auth),
                Err(e) => {
                    return Err(e);
                },
            }
        },
        Opcode::SetClientName => {
            match SetClientName::from_tag_struct(&mut ts, protocol_version) {
                Ok(params) => CommandKind::SetClientName(params),
                Err(e) => {
                    return Err(e);
                },
            }
        },
        Opcode::GetSinkInfoList => CommandKind::GetSinkInfoList,
        Opcode::GetSourceInfoList => CommandKind::GetSourceInfoList,
        Opcode::GetModuleInfoList => CommandKind::GetModuleInfoList,
        Opcode::GetClientInfoList => CommandKind::GetClientInfoList,
        Opcode::GetSinkInputInfoList => CommandKind::GetSinkInputInfoList,
        Opcode::GetSourceOutputInfoList => CommandKind::GetSourceOutputInfoList,
        Opcode::GetSampleInfoList => CommandKind::GetSampleInfoList,
        Opcode::GetCardInfoList => CommandKind::GetCardInfoList,
        Opcode::RegisterMemfdShmid => {
            match RegisterMemfdShmid::from_tag_struct(&mut ts, protocol_version) {
                Ok(params) => CommandKind::RegisterMemfdShmid(params),
                Err(e) => {
                    return Err(e);
                },
            }
        },
        _ => {
            return Ok(CommandKind::Other { opcode, params: ts });
        },
    };
    // ensure that all parameters are consumed
    match ensure_all_read(&ts) {
        Ok(()) => Ok(kind),
        Err(e) => Err(e),
    }
}

impl<'a> Command<'a> {
    /// Creates a command from its tag and its payload.
    pub fn new(tag: u32, kind: CommandKind<'a>) -> (command: Command<'a>)
        ensures
            command@ == (CommandView { tag, kind: kind@ }),
    {
        Command { tag, kind }
    }

    /// Parses a command encoded as a tagstruct.
    ///
    /// # Parameters
    ///
    /// * `ts`: The tagstruct to parse the command from.
    /// * `protocol_version`: PulseAudio protocol version used by the sender of the Command. If the
    ///   version isn't yet known, you can set this to `PROTOCOL_MIN_VERSION`.
    #[verifier::rlimit(40)]
    pub fn from_tagstruct(ts: TagStructReader<'a>, protocol_version: u16) -> (r: Result<
        Command<'a>,
        Error,
    >)
        ensures
            match spec_parse_command(ts.remaining(), protocol_version) {
                Ok(v) => r matches Ok(command) && command@ == v,
                Err(k) => r matches Err(e) && e.kind == k,
            },
    {
        if protocol_version < PROTOCOL_MIN_VERSION {
            return Err(Error::new(ErrorKind::UnsupportedVersion(protocol_version)));
        }
        let mut ts = ts;
        let ghost start = ts;
        let raw = match ts.read_u32() {
            Ok(raw) => raw,
            Err(e) => {
                return Err(e);
            },
        };
        let ghost behind_opcode = ts;
        let tag = match ts.read_u32() {
            Ok(tag) => tag,
            Err(e) => {
                return Err(e);
            },
        };
        proof {
            ts.lemma_advanced_chain(&start, &behind_opcode);
        }
        let opcode = match Opcode::from_u32(raw) {
            Some(opcode) => opcode,
            None => {
                return Err(Error::new(ErrorKind::InvalidOpcode(raw)));
            },
        };
        match parse_kind(opcode, ts, protocol_version) {
            Ok(kind) => Ok(Command { tag, kind }),
            Err(e) => Err(e),
        }
    }

    /// The correlation id of the command.
    pub fn tag(&self) -> (tag: u32)
        ensures
            tag == self@.tag,
    {
        self.tag
    }

    /// The payload of the command.
    pub fn kind(&self) -> (kind: &CommandKind<'a>)
        ensures
            kind@ == self@.kind,
    {
        &self.kind
    }

    /// Creates an error reply.
    pub fn error_reply(&self, code: PulseError) -> (reply: Command<'static>)
        ensures
            reply@ == (CommandView { tag: self@.tag, kind: CommandKindView::Error { code } }),
    {
        Command { tag: self.tag, kind: CommandKind::Error { code } }
    }

    /// Whether the command requires an authenticated client to be executed.
    ///
    /// This is an extremely conservative implementation (every command needs auth, except
    /// `CommandKind::Auth` itself).
    pub fn needs_auth(&self) -> (r: bool)
        ensures
            r == !(self@.kind is Auth),
    {
        match self.kind {
            CommandKind::Auth(_) => false,
            _ => true,
        }
    }
}

/// Writes the opcode and the tag that every command starts with.
fn write_envelope(w: &mut TagStructWriter, opcode: Opcode, tag: u32)
    ensures
        final(w)@ == old(w)@ + (spec_encode_u32(opcode.spec_as_u32()) + spec_encode_u32(tag)),
{
    let ghost start = w@;
    w.write(opcode.as_u32());
    w.write(tag);
    proof {
        lemma_append_assoc(
            start,
            spec_encode_u32(opcode.spec_as_u32()),
            spec_encode_u32(tag),
        );
    }
}

/// Puts the bytes of a writer into a packet, or refuses them where they are too many for a
/// descriptor to announce.
fn packet_from(bytes: &[u8]) -> (r: Result<Packet, Error>)
    ensures
        match r {
            Ok(packet) => bytes@.len() <= u32::MAX && packet@.payload == bytes@ && packet@.desc == (
            Descriptor {
                length: bytes@.len() as u32,
                channel: CONTROL_CHANNEL,
                offset_hi: 0,
                offset_lo: 0,
                flags: 0,
            }),
            Err(e) => bytes@.len() > u32::MAX && e.kind == ErrorKind::PacketTooLarge(u32::MAX),
        },
{
    if bytes.len() > u32::MAX as usize {
        Err(Error::new(ErrorKind::PacketTooLarge(u32::MAX)))
    } else {
        Ok(Packet::new_command(bytes))
    }
}

impl<'a> ToTagStruct for Command<'a> {
    open spec fn spec_encoding(&self, protocol_version: u16) -> Seq<u8> {
        spec_encode_command(self@, protocol_version)
    }

    open spec fn spec_encodable(&self) -> bool {
        spec_encode_error(self@.kind) is None
    }

    /// Writes opcode, tag and parameters. Parameters that were kept as they came are read
    /// first, and written value by value.
    #[verifier::rlimit(40)]
    fn to_tag_struct(&self, w: &mut TagStructWriter, protocol_version: u16) -> (r: Result<
        (),
        Error,
    >)
        ensures
            r matches Err(e) ==> Some(e.kind) == spec_encode_error(self@.kind),
    {
        let ghost start = w@;
        let ghost envelope = spec_encode_u32(spec_opcode_of(self@.kind).spec_as_u32())
            + spec_encode_u32(self@.tag);
        let ghost params = spec_encode_params(self@.kind, protocol_version);
        proof {
            lemma_append_assoc(start, envelope, params);
        }
        match &self.kind {
            CommandKind::Auth(auth) => {
                if auth.auth_cookie().len() > u32::MAX as usize {
                    return Err(Error::new(ErrorKind::BlobTooLarge));
                }
                write_envelope(w, Opcode::Auth, self.tag);
                auth.to_tag_struct(w, protocol_version).unwrap();
            },
            CommandKind::SetClientName(params) => {
                write_envelope(w, Opcode::SetClientName, self.tag);
                params.to_tag_struct(w, protocol_version).unwrap();
            },
            CommandKind::CreatePlaybackStream(params) => {
                write_envelope(w, Opcode::CreatePlaybackStream, self.tag);
                params.to_tag_struct(w, protocol_version).unwrap();
            },
            CommandKind::GetSinkInfoList => {
                write_envelope(w, Opcode::GetSinkInfoList, self.tag);
                proof {
                    assert(w@ + params =~= w@);
                }
            },
            CommandKind::GetSourceInfoList => {
                write_envelope(w, Opcode::GetSourceInfoList, self.tag);
                proof {
                    assert(w@ + params =~= w@);
                }
            },
            CommandKind::GetClientInfoList => {
                write_envelope(w, Opcode::GetClientInfoList, self.tag);
                proof {
                    assert(w@ + params =~= w@);
                }
            },
            CommandKind::GetCardInfoList => {
                write_envelope(w, Opcode::GetCardInfoList, self.tag);
                proof {
                    assert(w@ + params =~= w@);
                }
            },
            CommandKind::GetModuleInfoList => {
                write_envelope(w, Opcode::GetModuleInfoList, self.tag);
                proof {
                    assert(w@ + params =~= w@);
                }
            },
            CommandKind::GetSinkInputInfoList => {
                write_envelope(w, Opcode::GetSinkInputInfoList, self.tag);
                proof {
                    assert(w@ + params =~= w@);
                }
            },
            CommandKind::GetSourceOutputInfoList => {
                write_envelope(w, Opcode::GetSourceOutputInfoList, self.tag);
                proof {
                    assert(w@ + params =~= w@);
                }
            },
            CommandKind::GetSampleInfoList => {
                write_envelope(w, Opcode::GetSampleInfoList, self.tag);
                proof {
                    assert(w@ + params =~= w@);
                }
            },
            CommandKind::RegisterMemfdShmid(params) => {
                write_envelope(w, Opcode::RegisterMemfdShmid, self.tag);
                params.to_tag_struct(w, protocol_version).unwrap();
            },
            CommandKind::Reply { params } => {
                let values = match params.checked_iter() {
                    Ok(values) => values,
                    Err(e) => {
                        return Err(e);
                    },
                };
                proof {
                    lemma_values_encodable(params.remaining(), values@);
                }
                write_envelope(w, Opcode::Reply, self.tag);
                w.extend(values.as_slice());
            },
            CommandKind::Error { code } => {
                write_envelope(w, Opcode::Error, self.tag);
                w.write(code.code());
            },
            CommandKind::Other { opcode, params } => {
                let values = match params.checked_iter() {
                    Ok(values) => values,
                    Err(e) => {
                        return Err(e);
                    },
                };
                proof {
                    lemma_values_encodable(params.remaining(), values@);
                }
                write_envelope(w, *opcode, self.tag);
                w.extend(values.as_slice());
            },
        }
        Ok(())
    }
}

/// Values that were read can be written.
proof fn lemma_values_encodable(s: Seq<u8>, values: Seq<Value<'_>>)
    requires
        spec_read_all(s) == Ok::<Seq<ValueView>, ErrorKind>(spec_views(values)),
    ensures
        forall|i: int| 0 <= i < values.len() ==> spec_value_encodable(#[trigger] values[i]@),
{
    lemma_read_all_valid(s);
    assert forall|i: int| 0 <= i < values.len() implies spec_value_encodable(
        #[trigger] values[i]@,
    ) by {
        assert(valid_value(spec_views(values)[i]));
    }
}

impl<'a> Command<'a> {
    /// Serialize this command as a control packet that can be sent over the wire.
    ///
    /// Fails where the command cannot be written, or its bytes are too many for one packet.
    ///
    /// # Parameters
    ///
    /// * `payload_buf`: Reusable payload buffer to use for serialization.
    /// * `protocol_version`: Negotiated protocol version to use for the serialization format.
    #[verifier::rlimit(40)]
    pub fn to_packet(&self, payload_buf: &mut Vec<u8>, protocol_version: u16) -> (r: Result<
        Packet,
        Error,
    >)
        ensures
            match spec_encode_error(self@.kind) {
                Some(k) => r matches Err(e) && e.kind == k,
                None => if spec_encode_command(self@, protocol_version).len() <= u32::MAX {
                    r matches Ok(packet) && packet@.payload == spec_encode_command(
                        self@,
                        protocol_version,
                    ) && packet@.desc.channel == CONTROL_CHANNEL && final(payload_buf)@
                        == packet@.payload
                } else {
                    r matches Err(e) && e.kind == ErrorKind::PacketTooLarge(u32::MAX)
                },
            },
    {
        let mut buf: Vec<u8> = Vec::new();
        core::mem::swap(&mut buf, payload_buf);
        let mut w = TagStructWriter::new(buf);
        let written = self.to_tag_struct(&mut w, protocol_version);
        let mut buf = w.into_inner();
        core::mem::swap(&mut buf, payload_buf);
        proof {
            assert(Seq::<u8>::empty() + spec_encode_command(self@, protocol_version)
                =~= spec_encode_command(self@, protocol_version));
        }
        match written {
            Err(e) => Err(e),
            Ok(()) => packet_from(payload_buf.as_slice()),
        }
    }

    /// Creates a reply command containing a tagstruct.
    ///
    /// Fails where the reply cannot be written, or its bytes are too many for one packet.
    #[verifier::rlimit(40)]
    pub fn reply_packet<T: ToTagStruct>(
        &self,
        buffer: &mut Vec<u8>,
        protocol_version: u16,
        reply: T,
    ) -> (r: Result<Packet, Error>)
        ensures
            r is Ok <==> reply.spec_encodable() && spec_encode_reply(
                self@.tag,
                reply.spec_encoding(protocol_version),
            ).len() <= u32::MAX,
            r matches Ok(packet) ==> packet@.payload == spec_encode_reply(
                self@.tag,
                reply.spec_encoding(protocol_version),
            ) && packet@.desc.channel == CONTROL_CHANNEL && final(buffer)@ == packet@.payload,
    {
        let mut buf: Vec<u8> = Vec::new();
        core::mem::swap(&mut buf, buffer);
        // Skip the `Command` middleman and serialize the reply directly into the buffer:
        let mut w = TagStructWriter::new(buf);
        write_envelope(&mut w, Opcode::Reply, self.tag);
        let ghost envelope = w@;
        let written = reply.to_tag_struct(&mut w, protocol_version);
        let mut buf = w.into_inner();
        core::mem::swap(&mut buf, buffer);
        proof {
            assert(Seq::<u8>::empty() + (spec_encode_u32(Opcode::Reply.spec_as_u32())
                + spec_encode_u32(self@.tag)) =~= envelope);
        }
        match written {
            Err(e) => Err(e),
            Ok(()) => packet_from(buffer.as_slice()),
        }
    }

    /// Creates an empty reply packet.
    pub fn empty_reply_packet(&self, buffer: &mut Vec<u8>) -> (packet: Packet)
        ensures
            packet@.payload == spec_encode_reply(self@.tag, Seq::empty()),
            packet@.desc.channel == CONTROL_CHANNEL,
            final(buffer)@ == packet@.payload,
    {
        let mut buf: Vec<u8> = Vec::new();
        core::mem::swap(&mut buf, buffer);
        let mut w = TagStructWriter::new(buf);
        write_envelope(&mut w, Opcode::Reply, self.tag);
        let mut buf = w.into_inner();
        core::mem::swap(&mut buf, buffer);
        proof {
            let envelope = spec_encode_u32(Opcode::Reply.spec_as_u32()) + spec_encode_u32(
                self@.tag,
            );
            assert(Seq::<u8>::empty() + envelope =~= envelope);
            assert(envelope + Seq::<u8>::empty() =~= envelope);
            assert(envelope.len() == 10);
        }
        Packet::new_command(buffer.as_slice())
    }
}

} // verus!
