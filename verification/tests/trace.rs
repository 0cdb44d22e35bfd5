use pa_proto::command::{Auth, Command, CommandKind, SetClientName};
use pa_proto::error::ErrorKind;
use pa_proto::packet::{Descriptor, Packet};
use pa_proto::server::{socket_file_action, ConnectOutcome, SocketFileAction};
use pa_proto::trace::observe;
use pa_proto::{PropList, TagStructWriter};

fn wire(packet: &Packet) -> Vec<u8> {
    let mut bytes = Vec::new();
    packet.descriptor().encode(&mut bytes);
    bytes.extend_from_slice(packet.payload());
    bytes
}

fn wire_of(command: &Command, version: u16) -> Vec<u8> {
    let mut buf = Vec::new();
    wire(&command.to_packet(&mut buf, version).unwrap())
}

#[test]
fn an_auth_command_sets_the_observed_version() {
    let cookie = [7u8; 256];
    let command = Command::new(0, CommandKind::Auth(Auth::new(32, true, false, &cookie)));
    assert_eq!(observe(&wire_of(&command, 13), 13).unwrap(), 32);
    let command = Command::new(0, CommandKind::Auth(Auth::new(13, false, false, &cookie)));
    assert_eq!(observe(&wire_of(&command, 32), 32).unwrap(), 13);
}

#[test]
fn other_commands_keep_the_observed_version() {
    let command = Command::new(1, CommandKind::SetClientName(SetClientName::new(PropList::new())));
    assert_eq!(observe(&wire_of(&command, 32), 32).unwrap(), 32);
    assert_eq!(observe(&wire_of(&command, 13), 13).unwrap(), 13);
}

#[test]
fn other_packets_keep_the_observed_version() {
    let desc = Descriptor { length: 4, channel: 3, offset_hi: 0, offset_lo: 0, flags: 0 };
    let mut bytes = Vec::new();
    desc.encode(&mut bytes);
    bytes.extend_from_slice(&[1, 2, 3, 4]);
    assert_eq!(observe(&bytes, 20).unwrap(), 20);
}

#[test]
fn observing_half_a_packet_is_an_error() {
    let cookie = [7u8; 256];
    let command = Command::new(0, CommandKind::Auth(Auth::new(32, true, false, &cookie)));
    let bytes = wire_of(&command, 13);
    let e = observe(&bytes[..bytes.len() - 1], 13).unwrap_err();
    assert_eq!(e.kind(), ErrorKind::PacketTruncated);
    let e = observe(&bytes[..10], 13).unwrap_err();
    assert_eq!(e.kind(), ErrorKind::PacketTruncated);
}

#[test]
fn observing_a_malformed_command_is_an_error() {
    let mut w = TagStructWriter::new(Vec::new());
    w.write(8u32);
    let bytes = wire(&Packet::new_command(w.as_bytes()));
    let e = observe(&bytes, 13).unwrap_err();
    assert_eq!(e.kind(), ErrorKind::UnexpectedEnd);
}

#[test]
fn a_socket_file_that_answers_belongs_to_a_running_server() {
    assert_eq!(socket_file_action(ConnectOutcome::Connected), SocketFileAction::AlreadyRunning);
    assert_eq!(socket_file_action(ConnectOutcome::Refused), SocketFileAction::RemoveStale);
    assert_eq!(socket_file_action(ConnectOutcome::Failed), SocketFileAction::GiveUp);
}
