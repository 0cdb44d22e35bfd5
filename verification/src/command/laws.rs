//! What holds of commands: a command that was written is read back.

use vstd::prelude::*;
use crate::command::auth::lemma_auth_roundtrip;
use crate::command::opcode::lemma_opcode_roundtrip;
use crate::command::playback_laws::lemma_playback_roundtrip;
use crate::command::playback_laws::spec_playback_representable;
use crate::command::spec_encode_command;
use crate::command::spec_encode_error;
use crate::command::spec_encode_params;
use crate::command::spec_opcode_of;
use crate::command::spec_parse_command;
use crate::command::spec_parse_kind;
use crate::command::CommandKindView;
use crate::command::CommandView;
use crate::command::Opcode;
use crate::command::PROTOCOL_MIN_VERSION;
use crate::error::lemma_pulse_error_code_roundtrip;
use crate::error::ErrorKind;
use crate::types::proplist::valid_proplist;
use crate::types::tagstruct::grammar::spec_encode_u32;
use crate::types::tagstruct::laws::lemma_proplist_roundtrip;
use crate::types::tagstruct::laws::lemma_u32_roundtrip;
use crate::types::tagstruct::sequence::lemma_read_write_read;
use crate::types::tagstruct::sequence::spec_read_all;
use crate::types::tagstruct::writer::lemma_append_assoc;

verus! {

/// Whether `opcode` names a command whose parameters are kept as they come.
pub open spec fn spec_is_other(opcode: Opcode) -> bool {
    spec_parse_kind(opcode, Seq::empty(), PROTOCOL_MIN_VERSION) is Ok && spec_parse_kind(
        opcode,
        Seq::empty(),
        PROTOCOL_MIN_VERSION,
    )->Ok_0 is Other
}

/// Whether a command can be written at a protocol version so that it is read back: the version
/// is supported, the values of the command are valid, and it holds nothing that the version
/// cannot say.
pub open spec fn spec_command_representable(v: CommandView, protocol_version: u16) -> bool {
    &&& protocol_version >= PROTOCOL_MIN_VERSION
    &&& spec_encode_error(v.kind) is None
    &&& match v.kind {
        CommandKindView::SetClientName(props) => valid_proplist(props),
        CommandKindView::CreatePlaybackStream(params) => spec_playback_representable(
            params,
            protocol_version,
        ),
        CommandKindView::Other { opcode, params } => spec_is_other(opcode),
        _ => true,
    }
}

/// What a command is read back as: itself, with parameters that were kept as they came written
/// value by value.
pub open spec fn spec_read_back(v: CommandView, protocol_version: u16) -> CommandView {
    match v.kind {
        CommandKindView::Reply { params } => CommandView {
            tag: v.tag,
            kind: CommandKindView::Reply { params: spec_encode_params(v.kind, protocol_version) },
        },
        CommandKindView::Other { opcode, params } => CommandView {
            tag: v.tag,
            kind: CommandKindView::Other {
                opcode,
                params: spec_encode_params(v.kind, protocol_version),
            },
        },
        _ => v,
    }
}

/// The parameters of an `Auth` command are read back from their bytes.
proof fn lemma_auth_params(v: CommandView, protocol_version: u16)
    requires
        spec_command_representable(v, protocol_version),
        v.kind is Auth,
    ensures
        spec_parse_kind(Opcode::Auth, spec_encode_params(v.kind, protocol_version), protocol_version)
            == Ok::<CommandKindView, ErrorKind>(v.kind),
{
    let payload = spec_encode_params(v.kind, protocol_version);
    assert(payload + Seq::<u8>::empty() =~= payload);
    lemma_auth_roundtrip(v.kind->Auth_0, Seq::empty());
}

/// The parameters of a `SetClientName` command are read back from their bytes.
proof fn lemma_set_client_name_params(v: CommandView, protocol_version: u16)
    requires
        spec_command_representable(v, protocol_version),
        v.kind is SetClientName,
    ensures
        spec_parse_kind(
            Opcode::SetClientName,
            spec_encode_params(v.kind, protocol_version),
            protocol_version,
        ) == Ok::<CommandKindView, ErrorKind>(v.kind),
{
    let payload = spec_encode_params(v.kind, protocol_version);
    assert(payload + Seq::<u8>::empty() =~= payload);
    lemma_proplist_roundtrip(v.kind->SetClientName_0, Seq::empty());
}

/// The parameters of a `CreatePlaybackStream` command are read back from their bytes.
#[verifier::rlimit(40)]
proof fn lemma_playback_params(v: CommandView, protocol_version: u16)
    requires
        spec_command_representable(v, protocol_version),
        v.kind is CreatePlaybackStream,
    ensures
        spec_parse_kind(
            Opcode::CreatePlaybackStream,
            spec_encode_params(v.kind, protocol_version),
            protocol_version,
        ) == Ok::<CommandKindView, ErrorKind>(v.kind),
{
    let payload = spec_encode_params(v.kind, protocol_version);
    assert(payload + Seq::<u8>::empty() =~= payload);
    lemma_playback_roundtrip(v.kind->CreatePlaybackStream_0, protocol_version, Seq::empty());
}

/// The parameters of a `RegisterMemfdShmid` command and of an error are read back from their
/// bytes.
proof fn lemma_number_params(v: CommandView, protocol_version: u16)
    requires
        v.kind is RegisterMemfdShmid || v.kind is Error,
    ensures
        spec_parse_kind(
            spec_opcode_of(v.kind),
            spec_encode_params(v.kind, protocol_version),
            protocol_version,
        ) == Ok::<CommandKindView, ErrorKind>(v.kind),
{
    let payload = spec_encode_params(v.kind, protocol_version);
    assert(payload + Seq::<u8>::empty() =~= payload);
    match v.kind {
        CommandKindView::RegisterMemfdShmid(shmid) => {
            lemma_u32_roundtrip(shmid, Seq::empty());
        },
        CommandKindView::Error { code } => {
            lemma_u32_roundtrip(code.spec_code(), Seq::empty());
            lemma_pulse_error_code_roundtrip(code);
        },
        _ => {},
    }
}

/// The parameters of a command are read back from their bytes.
pub proof fn lemma_params_roundtrip(v: CommandView, protocol_version: u16)
    requires
        spec_command_representable(v, protocol_version),
    ensures
        spec_parse_kind(
            spec_opcode_of(v.kind),
            spec_encode_params(v.kind, protocol_version),
            protocol_version,
        ) == Ok::<CommandKindView, ErrorKind>(spec_read_back(v, protocol_version).kind),
{
    match v.kind {
        CommandKindView::Auth(_) => lemma_auth_params(v, protocol_version),
        CommandKindView::SetClientName(_) => lemma_set_client_name_params(v, protocol_version),
        CommandKindView::CreatePlaybackStream(_) => lemma_playback_params(v, protocol_version),
        CommandKindView::RegisterMemfdShmid(_) => lemma_number_params(v, protocol_version),
        CommandKindView::Error { .. } => lemma_number_params(v, protocol_version),
        _ => {},
    }
}

/// Reading what was written for a command at a protocol version gives the command back. Every
/// field of it is as it was, but for parameters that were kept as they came: those hold the
/// same values as before.
#[verifier::rlimit(40)]
pub proof fn lemma_command_roundtrip(v: CommandView, protocol_version: u16)
    requires
        spec_command_representable(v, protocol_version),
    ensures
        spec_parse_command(spec_encode_command(v, protocol_version), protocol_version) == Ok::<
            CommandView,
            ErrorKind,
        >(spec_read_back(v, protocol_version)),
        !(v.kind is Reply) && !(v.kind is Other) ==> spec_read_back(v, protocol_version) == v,
        v.kind matches CommandKindView::Reply { params } ==> spec_read_all(
            spec_encode_params(v.kind, protocol_version),
        ) == spec_read_all(params),
        v.kind matches CommandKindView::Other { opcode, params } ==> spec_read_all(
            spec_encode_params(v.kind, protocol_version),
        ) == spec_read_all(params),
{
    let opcode = spec_opcode_of(v.kind);
    let payload = spec_encode_params(v.kind, protocol_version);
    let e1 = spec_encode_u32(opcode.spec_as_u32());
    let e2 = spec_encode_u32(v.tag);
    let bytes = spec_encode_command(v, protocol_version);
    assert(bytes == e1 + (e2 + payload)) by {
        lemma_append_assoc(e1, e2, payload);
    }
    lemma_u32_roundtrip(opcode.spec_as_u32(), e2 + payload);
    assert(bytes.skip(5) =~= e2 + payload);
    lemma_u32_roundtrip(v.tag, payload);
    assert(bytes.skip(10) =~= payload);
    lemma_opcode_roundtrip(opcode);
    lemma_params_roundtrip(v, protocol_version);
    match v.kind {
        CommandKindView::Reply { params } => {
            lemma_read_write_read(params);
        },
        CommandKindView::Other { opcode, params } => {
            lemma_read_write_read(params);
        },
        _ => {},
    }
}

} // verus!
