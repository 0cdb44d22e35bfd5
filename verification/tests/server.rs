use pa_proto::command::{Auth, Command, CommandKind, SetClientName};
use pa_proto::cookie::AuthCookie;
use pa_proto::error::{ErrorKind, PulseError};
use pa_proto::packet::{Descriptor, Packet, FLAG_SHMRELEASE, FLAG_SHMREVOKE};
use pa_proto::server::{ClientHandler, ServerData};
use pa_proto::sink::{Sink, SinkState};
use pa_proto::{Prop, PropList, SampleFormat, TagStructReader, TagStructWriter};

fn cookie_bytes() -> Vec<u8> {
    (0..256u32).map(|i| (i * 7 + 1) as u8).collect()
}

fn server() -> ServerData {
    ServerData::new(AuthCookie::from_bytes(&cookie_bytes()).unwrap())
}

fn packet_of(command: &Command, version: u16) -> Packet {
    let mut buf = Vec::new();
    command.to_packet(&mut buf, version).unwrap()
}

fn bare(opcode: u32, tag: u32) -> Packet {
    let mut w = TagStructWriter::new(Vec::new());
    w.write(opcode);
    w.write(tag);
    Packet::new_command(w.as_bytes())
}

fn auth(version: u16, cookie: &[u8], tag: u32) -> Packet {
    packet_of(&Command::new(tag, CommandKind::Auth(Auth::new(version, false, false, cookie))), 13)
}

fn expect_error(reply: Option<Packet>, tag: u32, code: u32) {
    let reply = reply.unwrap();
    assert_eq!(reply.descriptor().channel, -1);
    let mut r = TagStructReader::from_raw(reply.payload());
    assert_eq!(r.read_u32().unwrap(), 0);
    assert_eq!(r.read_u32().unwrap(), tag);
    assert_eq!(r.read_u32().unwrap(), code);
    assert!(r.read().unwrap().is_none());
}

fn reply_params(reply: &Packet, tag: u32) -> TagStructReader<'_> {
    assert_eq!(reply.descriptor().channel, -1);
    assert_eq!(reply.descriptor().length as usize, reply.payload().len());
    let mut r = TagStructReader::from_raw(reply.payload());
    assert_eq!(r.read_u32().unwrap(), 2);
    assert_eq!(r.read_u32().unwrap(), tag);
    r
}

fn handshake(data: &mut ServerData, handler: &mut ClientHandler, version: u16) {
    let reply = handler.handle_packet(data, &auth(version, &cookie_bytes(), 1)).unwrap().unwrap();
    let mut r = reply_params(&reply, 1);
    assert_eq!(r.read_u32().unwrap(), 32);
}

#[test]
fn a_new_client_is_not_authenticated() {
    let mut data = server();
    assert_eq!(data.client_count(), 0);
    let handler = ClientHandler::new(&mut data).unwrap();
    assert_eq!(handler.client().value(), 0);
    let client = data.client(handler.client()).unwrap();
    assert_eq!(client.id(), 0);
    assert_eq!(client.protocol_version(), 13);
    assert!(!client.authed());
    assert_eq!(client.props().len(), 0);
    assert_eq!(data.client_count(), 1);
    let second = ClientHandler::new(&mut data).unwrap();
    assert_eq!(second.client().value(), 1);
}

#[test]
fn the_dummy_sink_is_there_from_the_start() {
    let data = server();
    let sinks = data.sinks();
    assert_eq!(sinks.len(), 1);
    assert_eq!(sinks[0].index(), 0);
    assert_eq!(sinks[0].name().to_bytes(), b"Dummy Sink");
    assert_eq!(sinks[0].state(), SinkState::Idle);
    assert_eq!(sinks[0].sample_spec().format(), SampleFormat::Float32Le);
    assert_eq!(sinks[0].sample_spec().channels(), 2);
    assert_eq!(sinks[0].sample_spec().sample_rate(), 48000);
    assert_eq!(sinks[0].channel_map().len(), 2);
    assert_eq!(sinks[0].cvolume().volumes()[0].as_u32(), 0x10000);
    assert_eq!(sinks[0].cvolume().volumes()[1].as_u32(), 0x10000);
    assert!(!sinks[0].muted());
    assert_eq!(sinks[0].flags().bits(), 0);
    assert_eq!(sinks[0].ports().len(), 1);
    assert_eq!(sinks[0].active_port().name().to_bytes(), b"Stereo Output");
    assert_eq!(sinks[0].active_port().description().to_bytes(), b"");
    assert_eq!(sinks[0].formats().len(), 1);
    assert_eq!(sinks[0].base_volume().as_u32(), 0x10000);
    assert_eq!(sinks[0].volume_steps(), 100);
}

#[test]
fn auth_with_version_8_is_answered_with_version_error() {
    let mut data = server();
    let mut handler = ClientHandler::new(&mut data).unwrap();
    let mut w = TagStructWriter::new(Vec::new());
    w.write(8u32);
    w.write(21u32);
    w.write(0x0000_0008u32);
    w.write(&b""[..]);
    let reply = handler.handle_packet(&mut data, &Packet::new_command(w.as_bytes())).unwrap();
    expect_error(reply, 21, 17);
    // the connection stays open, and the client is as it was
    let client = data.client(handler.client()).unwrap();
    assert_eq!(client.protocol_version(), 13);
    assert!(!client.authed());
    handshake(&mut data, &mut handler, 13);
}

#[test]
fn auth_with_version_12_is_rejected_with_version() {
    let mut data = server();
    let mut handler = ClientHandler::new(&mut data).unwrap();
    let reply = handler.handle_packet(&mut data, &auth(12, &cookie_bytes(), 3)).unwrap();
    expect_error(reply, 3, PulseError::Version.code());
    assert!(!data.client(handler.client()).unwrap().authed());
    let command = Command::new(3, CommandKind::Auth(Auth::new(12, false, false, &[])));
    assert_eq!(handler.handle_control(&mut data, &command).err().unwrap(), PulseError::Version);
}

#[test]
fn handshake_with_the_right_cookie() {
    let mut data = server();
    let mut handler = ClientHandler::new(&mut data).unwrap();
    let mut w = TagStructWriter::new(Vec::new());
    w.write(8u32);
    w.write(1u32);
    w.write(0x0000_000Du32);
    w.write(&cookie_bytes()[..]);
    let reply = handler.handle_packet(&mut data, &Packet::new_command(w.as_bytes())).unwrap().unwrap();
    assert_eq!(
        reply.payload(),
        &[b'L', 0, 0, 0, 2, b'L', 0, 0, 0, 1, b'L', 0, 0, 0, 32]
    );
    let client = data.client(handler.client()).unwrap();
    assert!(client.authed());
    assert_eq!(client.protocol_version(), 13);
}

#[test]
fn auth_sets_the_version_of_the_client() {
    let mut data = server();
    let mut handler = ClientHandler::new(&mut data).unwrap();
    handshake(&mut data, &mut handler, 27);
    assert_eq!(data.client(handler.client()).unwrap().protocol_version(), 27);
}

#[test]
fn auth_with_a_wrong_cookie_is_answered_with_access() {
    let mut data = server();
    let mut handler = ClientHandler::new(&mut data).unwrap();
    let mut wrong = cookie_bytes();
    wrong[255] ^= 1;
    let reply = handler.handle_packet(&mut data, &auth(20, &wrong, 4)).unwrap();
    expect_error(reply, 4, 1);
    let client = data.client(handler.client()).unwrap();
    assert!(!client.authed());
    // the version is set before the cookie is looked at
    assert_eq!(client.protocol_version(), 20);
    let reply = handler.handle_packet(&mut data, &auth(20, &[], 5)).unwrap();
    expect_error(reply, 5, 1);
}

#[test]
fn commands_before_auth_are_answered_with_access() {
    let mut data = server();
    let mut handler = ClientHandler::new(&mut data).unwrap();
    for opcode in [9u32, 22, 26, 28, 7, 2] {
        let packet = if opcode == 9 {
            packet_of(&Command::new(6, CommandKind::SetClientName(SetClientName::new(PropList::new()))), 13)
        } else {
            bare(opcode, 6)
        };
        let reply = handler.handle_packet(&mut data, &packet).unwrap();
        expect_error(reply, 6, 1);
    }
    assert_eq!(data.client(handler.client()).unwrap().props().len(), 0);
}

#[test]
fn set_client_name_then_client_list() {
    let mut data = server();
    let mut other = ClientHandler::new(&mut data).unwrap();
    let mut handler = ClientHandler::new(&mut data).unwrap();
    handshake(&mut data, &mut handler, 13);
    let mut props = PropList::new();
    props.set(Prop::ApplicationName, b"probe\0").unwrap();
    let command = Command::new(2, CommandKind::SetClientName(SetClientName::new(props)));
    let reply = handler.handle_packet(&mut data, &packet_of(&command, 13)).unwrap().unwrap();
    let mut r = reply_params(&reply, 2);
    assert_eq!(r.read_u32().unwrap(), 1);
    assert!(r.read().unwrap().is_none());
    assert_eq!(
        data.client(handler.client()).unwrap().props().get(Prop::ApplicationName),
        Some(&b"probe\0"[..])
    );

    let reply = handler.handle_packet(&mut data, &bare(28, 3)).unwrap().unwrap();
    let mut r = reply_params(&reply, 3);
    // the other client, which has no name
    assert_eq!(r.read_u32().unwrap(), 0);
    assert_eq!(r.read_string().unwrap().unwrap().to_bytes(), b"");
    assert_eq!(r.read_u32().unwrap(), u32::MAX);
    assert_eq!(r.read_string().unwrap().unwrap().to_bytes(), b"");
    assert_eq!(r.read_proplist().unwrap().len(), 0);
    // this client
    assert_eq!(r.read_u32().unwrap(), 1);
    assert_eq!(r.read_string().unwrap().unwrap().to_bytes(), b"probe");
    assert_eq!(r.read_u32().unwrap(), u32::MAX);
    assert_eq!(r.read_string().unwrap().unwrap().to_bytes(), b"");
    let listed = r.read_proplist().unwrap();
    assert_eq!(listed.len(), 1);
    assert_eq!(listed.get(Prop::ApplicationName), Some(&b"probe\0"[..]));
    assert!(r.read().unwrap().is_none());
    handshake(&mut data, &mut other, 13);
}

#[test]
fn set_client_name_merges_properties() {
    let mut data = server();
    let mut handler = ClientHandler::new(&mut data).unwrap();
    handshake(&mut data, &mut handler, 13);
    let mut first = PropList::new();
    first.set(Prop::ApplicationName, b"one\0").unwrap();
    first.set(Prop::ApplicationId, b"id\0").unwrap();
    let mut second = PropList::new();
    second.set(Prop::ApplicationName, b"two\0").unwrap();
    for props in [first, second] {
        let command = Command::new(2, CommandKind::SetClientName(SetClientName::new(props)));
        assert!(handler.handle_control(&mut data, &command).is_ok());
    }
    let props = data.client(handler.client()).unwrap().props();
    assert_eq!(props.len(), 2);
    assert_eq!(props.get(Prop::ApplicationName), Some(&b"two\0"[..]));
    assert_eq!(props.get(Prop::ApplicationId), Some(&b"id\0"[..]));
}

fn module_list(version: u16) -> Vec<u8> {
    let mut data = server();
    let mut handler = ClientHandler::new(&mut data).unwrap();
    handshake(&mut data, &mut handler, version);
    let reply = handler.handle_packet(&mut data, &bare(26, 9)).unwrap().unwrap();
    reply.payload().to_vec()
}

#[test]
fn module_list_is_one_dummy_module() {
    let payload = module_list(15);
    let mut r = TagStructReader::from_raw(&payload);
    assert_eq!(r.read_u32().unwrap(), 2);
    assert_eq!(r.read_u32().unwrap(), 9);
    assert_eq!(r.read_u32().unwrap(), 0);
    assert_eq!(r.read_string().unwrap().unwrap().to_bytes(), b"Default Module");
    assert_eq!(r.read_string().unwrap().unwrap().to_bytes(), b"");
    assert_eq!(r.read_u32().unwrap(), 1);
    assert_eq!(r.read_proplist().unwrap().len(), 0);
    assert!(r.read().unwrap().is_none());

    let payload = module_list(14);
    let mut r = TagStructReader::from_raw(&payload);
    assert_eq!(r.read_u32().unwrap(), 2);
    assert_eq!(r.read_u32().unwrap(), 9);
    assert_eq!(r.read_u32().unwrap(), 0);
    assert_eq!(r.read_string().unwrap().unwrap().to_bytes(), b"Default Module");
    assert_eq!(r.read_string().unwrap().unwrap().to_bytes(), b"");
    assert_eq!(r.read_u32().unwrap(), 1);
    assert!(!r.read_bool().unwrap());
    assert!(r.read().unwrap().is_none());
}

fn check_sink_list(version: u16) {
    let mut data = server();
    let mut handler = ClientHandler::new(&mut data).unwrap();
    handshake(&mut data, &mut handler, version);
    let reply = handler.handle_packet(&mut data, &bare(22, 5)).unwrap().unwrap();
    let mut r = reply_params(&reply, 5);
    assert_eq!(r.read_u32().unwrap(), 0);
    assert_eq!(r.read_string().unwrap().unwrap().to_bytes(), b"Dummy Sink");
    assert_eq!(r.read_string().unwrap().unwrap().to_bytes(), b"(null)");
    let spec = r.read_sample_spec().unwrap();
    assert_eq!(spec.format(), SampleFormat::Float32Le);
    assert_eq!(r.read_channel_map().unwrap().len(), 2);
    assert_eq!(r.read_u32().unwrap(), u32::MAX);
    assert_eq!(r.read_cvolume().unwrap().len(), 2);
    assert!(!r.read_bool().unwrap());
    assert_eq!(r.read_u32().unwrap(), u32::MAX);
    assert!(r.read_string().unwrap().is_none());
    assert_eq!(r.read_usec().unwrap().0, 0);
    assert_eq!(r.read_string().unwrap().unwrap().to_bytes(), b"Unknown Driver");
    assert_eq!(r.read_u32().unwrap(), 0);
    assert_eq!(r.read_proplist().unwrap().len(), 0);
    assert_eq!(r.read_usec().unwrap().0, 0);
    if version >= 15 {
        assert_eq!(r.read_volume().unwrap().as_u32(), 0x10000);
        assert_eq!(r.read_u32().unwrap(), 1);
        assert_eq!(r.read_u32().unwrap(), 100);
        assert_eq!(r.read_u32().unwrap(), u32::MAX);
    }
    if version >= 16 {
        assert_eq!(r.read_u32().unwrap(), 1);
        assert_eq!(r.read_string().unwrap().unwrap().to_bytes(), b"Stereo Output");
        assert_eq!(r.read_string().unwrap().unwrap().to_bytes(), b"");
        assert_eq!(r.read_u32().unwrap(), 0);
        if version >= 24 {
            assert_eq!(r.read_u32().unwrap(), 0);
        }
        assert_eq!(r.read_string().unwrap().unwrap().to_bytes(), b"Stereo Output");
    }
    if version >= 21 {
        assert_eq!(r.read_u8().unwrap(), 1);
        assert_eq!(r.read_format_info().unwrap().encoding(), pa_proto::FormatEncoding::Pcm);
    }
    assert!(r.read().unwrap().is_none());
}

#[test]
fn sink_list_at_every_version() {
    for version in 13u16..=32 {
        check_sink_list(version);
    }
}

#[test]
fn unhandled_opcodes_are_answered_with_not_implemented() {
    let mut data = server();
    let mut handler = ClientHandler::new(&mut data).unwrap();
    handshake(&mut data, &mut handler, 13);
    for opcode in [7u32, 13, 20, 24, 30, 32, 34, 35, 89, 100] {
        let reply = handler.handle_packet(&mut data, &bare(opcode, 0xABCD)).unwrap();
        expect_error(reply, 0xABCD, 23);
    }
    // a command with parameters that nobody reads
    let mut w = TagStructWriter::new(Vec::new());
    w.write(10u32);
    w.write(8u32);
    w.write(true);
    let reply = handler.handle_packet(&mut data, &Packet::new_command(w.as_bytes())).unwrap();
    expect_error(reply, 8, PulseError::NotImplemented.code());
    // shared memory is not registered
    let mut w = TagStructWriter::new(Vec::new());
    w.write(103u32);
    w.write(8u32);
    w.write(1u32);
    let reply = handler.handle_packet(&mut data, &Packet::new_command(w.as_bytes())).unwrap();
    expect_error(reply, 8, 23);
}

#[test]
fn replies_and_errors_from_a_client_are_answered_with_protocol() {
    let mut data = server();
    let mut handler = ClientHandler::new(&mut data).unwrap();
    handshake(&mut data, &mut handler, 13);
    let reply = handler.handle_packet(&mut data, &bare(2, 4)).unwrap();
    expect_error(reply, 4, 7);
    let command = Command::new(5, CommandKind::Error { code: PulseError::Killed });
    let reply = handler.handle_packet(&mut data, &packet_of(&command, 13)).unwrap();
    expect_error(reply, 5, 7);
}

#[test]
fn malformed_payload_is_an_error_without_reply() {
    let mut data = server();
    let mut handler = ClientHandler::new(&mut data).unwrap();
    let error = handler.handle_packet(&mut data, &Packet::new_command(&[0x5A])).err().unwrap();
    assert_eq!(error.kind(), ErrorKind::InvalidTag(0x5A));
    assert_eq!(error.code(), PulseError::Protocol);
    handshake(&mut data, &mut handler, 13);
    let error = handler.handle_packet(&mut data, &Packet::new_command(&[0x5A])).err().unwrap();
    assert_eq!(error.kind(), ErrorKind::InvalidTag(0x5A));
    let error = handler.handle_packet(&mut data, &Packet::new_command(&[])).err().unwrap();
    assert_eq!(error.kind(), ErrorKind::UnexpectedEnd);
    handler.close(&mut data);
    assert_eq!(data.client_count(), 0);
}

#[test]
fn other_packets_are_accepted_and_not_answered() {
    let mut data = server();
    let mut handler = ClientHandler::new(&mut data).unwrap();
    for flags in [0u32, 1, FLAG_SHMRELEASE, FLAG_SHMREVOKE] {
        let desc = Descriptor { length: 3, channel: 0, offset_hi: 0, offset_lo: 0, flags };
        let packet = Packet::from_parts(desc, &[0x5A, 0x5A, 0x5A]).unwrap();
        assert!(handler.handle_packet(&mut data, &packet).unwrap().is_none());
    }
    assert!(!data.client(handler.client()).unwrap().authed());
}

#[test]
fn a_closed_client_is_forgotten_and_its_id_not_given_again() {
    let mut data = server();
    let first = ClientHandler::new(&mut data).unwrap();
    let second = ClientHandler::new(&mut data).unwrap();
    let first_id = first.client();
    first.close(&mut data);
    assert!(data.client(first_id).is_none());
    assert!(data.client(second.client()).is_some());
    assert!(!data.disconnect(first_id));
    let third = ClientHandler::new(&mut data).unwrap();
    assert_eq!(third.client().value(), 2);
    assert_eq!(data.client_count(), 2);
}

#[test]
fn a_forgotten_client_gets_no_answers() {
    let mut data = server();
    let mut handler = ClientHandler::new(&mut data).unwrap();
    assert!(data.disconnect(handler.client()));
    let error = handler.handle_packet(&mut data, &bare(22, 1)).err().unwrap();
    assert_eq!(error.kind(), ErrorKind::UnknownClient);
    let command = Command::new(1, CommandKind::GetSinkInfoList);
    assert_eq!(handler.handle_control(&mut data, &command).err().unwrap(), PulseError::Internal);
}

#[test]
fn create_playback_stream_is_not_implemented() {
    let mut data = server();
    let mut handler = ClientHandler::new(&mut data).unwrap();
    handshake(&mut data, &mut handler, 13);
    let spec = pa_proto::SampleSpec::new_checked(SampleFormat::S16Le, 1, 8000).unwrap();
    let params = pa_proto::command::CreatePlaybackStream::new(
        spec,
        pa_proto::ChannelMap::new(),
        None,
        pa_proto::stream::BufferAttr::new(),
        pa_proto::stream::StreamFlags::empty(),
        0,
        None,
        None,
        PropList::new(),
        Vec::new(),
    )
    .unwrap();
    let command = Command::new(12, CommandKind::CreatePlaybackStream(params));
    let reply = handler.handle_packet(&mut data, &packet_of(&command, 13)).unwrap();
    expect_error(reply, 12, 23);
    // a stream that names its sink twice is no command at all
    let mut w = TagStructWriter::new(Vec::new());
    w.write(Sink::new_dummy(0).index());
    assert_eq!(w.as_bytes(), &[b'L', 0, 0, 0, 0]);
}
