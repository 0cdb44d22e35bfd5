//! What an observer between a client and a server makes of the bytes that pass.
//!
//! The observer decodes every message with the protocol version that the client announced. It
//! learns that version from the `Auth` command, and starts with the oldest supported one.

use vstd::prelude::*;
use crate::command::spec_parse_command;
use crate::command::Command;
use crate::command::CommandKind;
use crate::command::CommandKindView;
use crate::error::Error;
use crate::error::ErrorKind;
use crate::packet::spec_classify;
use crate::packet::spec_decode;
use crate::packet::Decoded;
use crate::packet::Message;
use crate::packet::MessageKind;
use crate::packet::Packet;

verus! {

/// The protocol version at which what follows a message is to be decoded, when the message was
/// decoded at `current`: the version that an `Auth` command announces, and `current` after every
/// other message. Bytes that hold no whole packet, or a control packet that holds no command,
/// are refused.
pub open spec fn spec_observe(bytes: Seq<u8>, current: u16) -> Result<u16, ErrorKind> {
    match spec_decode(bytes, u32::MAX) {
        Decoded::Frame(packet, _) => if spec_classify(packet.desc) == MessageKind::Control {
            match spec_parse_command(packet.payload, current) {
                Ok(command) => match command.kind {
                    CommandKindView::Auth(auth) => Ok(auth.version),
                    _ => Ok(current),
                },
                Err(e) => Err(e),
            }
        } else {
            Ok(current)
        },
        _ => Err(ErrorKind::PacketTruncated),
    }
}

/// Decodes the message that `bytes` hold at the protocol version `current`, and gives the
/// protocol version at which what follows is to be decoded.
pub fn observe(bytes: &[u8], current: u16) -> (r: Result<u16, Error>)
    ensures
        match spec_observe(bytes@, current) {
            Ok(version) => r == Ok::<u16, Error>(version),
            Err(k) => r matches Err(e) && e.kind == k,
        },
{
    let packet = match Packet::decode(bytes) {
        Ok(packet) => packet,
        Err(e) => {
            return Err(e);
        },
    };
    let message = match Message::from_packet(&packet) {
        Ok(message) => message,
        Err(e) => {
            return Err(e);
        },
    };
    match message {
        Message::Control { tagstruct } => {
            let command = match Command::from_tagstruct(tagstruct, current) {
                Ok(command) => command,
                Err(e) => {
                    return Err(e);
                },
            };
            match command.kind() {
                CommandKind::Auth(auth) => Ok(auth.protocol_version()),
                _ => Ok(current),
            }
        },
        _ => Ok(current),
    }
}

} // verus!
