use pa_proto::command::CreatePlaybackStreamReply;
use pa_proto::sink::Sink;
use pa_proto::stream::Stream;
use pa_proto::time::Microseconds;
use std::rc::Rc;
use pa_proto::command::get_info::{ClientInfo, GetClientInfoListReply, GetModuleInfoListReply};
use pa_proto::command::opcode::OPCODE_COUNT;
use pa_proto::command::{
    Auth, AuthReply, Command, CommandKind, CreatePlaybackStream, Opcode, RegisterMemfdShmid,
    SetClientName, SetClientNameReply, SinkSpec, PROTOCOL_MIN_VERSION, PROTOCOL_VERSION,
};
use pa_proto::error::{ErrorKind, PulseError};
use pa_proto::stream::{BufferAttr, StreamBuilder, StreamFlags};
use pa_proto::string::PaStr;
use pa_proto::{
    ChannelMap, ChannelPosition, CVolume, FormatEncoding, FormatInfo, Prop, PropList, SampleFormat,
    SampleSpec, TagStructReader, TagStructWriter, ToTagStruct, Volume,
};

fn parse(bytes: &[u8], version: u16) -> Result<Command<'_>, pa_proto::Error> {
    Command::from_tagstruct(TagStructReader::from_raw(bytes), version)
}

fn parse_error(bytes: &[u8], version: u16) -> ErrorKind {
    parse(bytes, version).err().unwrap().kind()
}

fn encode(command: &Command, version: u16) -> Vec<u8> {
    let mut buf = vec![0xEE; 7];
    let packet = command.to_packet(&mut buf, version).unwrap();
    assert_eq!(packet.payload(), &buf[..]);
    assert_eq!(packet.descriptor().channel, -1);
    assert_eq!(packet.descriptor().length as usize, buf.len());
    buf
}

fn envelope(opcode: u32, tag: u32) -> Vec<u8> {
    let mut w = TagStructWriter::new(Vec::new());
    w.write(opcode);
    w.write(tag);
    w.into_inner()
}

#[test]
fn opcode_numbers_mirror_the_canonical_order() {
    assert_eq!(Opcode::Error.as_u32(), 0);
    assert_eq!(Opcode::Timeout.as_u32(), 1);
    assert_eq!(Opcode::Reply.as_u32(), 2);
    assert_eq!(Opcode::CreatePlaybackStream.as_u32(), 3);
    assert_eq!(Opcode::DeletePlaybackStream.as_u32(), 4);
    assert_eq!(Opcode::CreateRecordStream.as_u32(), 5);
    assert_eq!(Opcode::DeleteRecordStream.as_u32(), 6);
    assert_eq!(Opcode::Exit.as_u32(), 7);
    assert_eq!(Opcode::Auth.as_u32(), 8);
    assert_eq!(Opcode::SetClientName.as_u32(), 9);
    assert_eq!(Opcode::GetServerInfo.as_u32(), 20);
    assert_eq!(Opcode::GetSinkInfoList.as_u32(), 22);
    assert_eq!(Opcode::GetModuleInfoList.as_u32(), 26);
    assert_eq!(Opcode::GetClientInfoList.as_u32(), 28);
    assert_eq!(Opcode::Subscribe.as_u32(), 35);
    assert_eq!(Opcode::Request.as_u32(), 61);
    assert_eq!(Opcode::Extension.as_u32(), 87);
    assert_eq!(Opcode::GetCardInfoList.as_u32(), 89);
    assert_eq!(Opcode::RegisterMemfdShmid.as_u32(), 103);
    assert_eq!(OPCODE_COUNT, 104);
    assert_eq!(Opcode::from_u32(104), None);
    for raw in 0..104u32 {
        assert_eq!(Opcode::from_u32(raw).unwrap().as_u32(), raw);
    }
}

#[test]
fn auth_wire_form() {
    let cookie = [1u8, 2, 3];
    let auth = Command::new(5, CommandKind::Auth(Auth::new(13, true, false, &cookie)));
    let bytes = encode(&auth, 13);
    let mut expected = vec![b'L', 0, 0, 0, 8, b'L', 0, 0, 0, 5];
    expected.extend_from_slice(&[b'L', 0x80, 0, 0, 13]);
    expected.extend_from_slice(&[b'x', 0, 0, 0, 3, 1, 2, 3]);
    assert_eq!(bytes, expected);
}

#[test]
fn auth_round_trip_at_every_version() {
    let cookie = [7u8; 256];
    for version in 13u16..=32 {
        for (shm, memfd) in [(false, false), (true, false), (false, true), (true, true)] {
            let auth = Command::new(42, CommandKind::Auth(Auth::new(version, shm, memfd, &cookie)));
            let bytes = encode(&auth, version);
            let read = parse(&bytes, version).unwrap();
            assert_eq!(read.tag(), 42);
            assert!(!read.needs_auth());
            match read.kind() {
                CommandKind::Auth(auth) => {
                    assert_eq!(auth.protocol_version(), version);
                    assert_eq!(auth.supports_shm(), shm);
                    assert_eq!(auth.supports_memfd(), memfd);
                    assert_eq!(auth.auth_cookie(), &cookie[..]);
                }
                _ => panic!("expected an auth command"),
            }
        }
    }
}

#[test]
fn auth_word_holds_version_and_flags() {
    let mut bytes = envelope(8, 1);
    bytes.extend_from_slice(&[b'L', 0xC0, 0x12, 0x00, 0x20, b'x', 0, 0, 0, 0]);
    let read = parse(&bytes, 13).unwrap();
    match read.kind() {
        CommandKind::Auth(auth) => {
            assert_eq!(auth.protocol_version(), 0x20);
            assert!(auth.supports_shm());
            assert!(auth.supports_memfd());
            assert!(auth.auth_cookie().is_empty());
        }
        _ => panic!("expected an auth command"),
    }
}

#[test]
fn auth_reply_wire_form() {
    let mut reply = AuthReply::new(32);
    assert_eq!(reply.server_protocol_version(), 32);
    assert!(!reply.use_memfd());
    assert!(!reply.use_shm());
    let mut w = TagStructWriter::new(Vec::new());
    reply.to_tag_struct(&mut w, 13).unwrap();
    assert_eq!(w.as_bytes(), &[b'L', 0, 0, 0, 32]);
    reply.set_use_shm(true);
    let mut w = TagStructWriter::new(Vec::new());
    reply.to_tag_struct(&mut w, 13).unwrap();
    assert_eq!(w.as_bytes(), &[b'L', 0x80, 0, 0, 32]);
    reply.set_use_memfd(true);
    reply.set_use_shm(false);
    assert!(reply.use_memfd());
    let mut w = TagStructWriter::new(Vec::new());
    reply.to_tag_struct(&mut w, 13).unwrap();
    assert_eq!(w.as_bytes(), &[b'L', 0x40, 0, 0, 32]);
}

#[test]
fn set_client_name_round_trip() {
    let mut props = PropList::new();
    props.set(Prop::ApplicationName, b"probe\0").unwrap();
    props.set(Prop::ApplicationProcessId, b"4711\0").unwrap();
    let command = Command::new(3, CommandKind::SetClientName(SetClientName::new(props)));
    for version in 13u16..=32 {
        let bytes = encode(&command, version);
        let read = parse(&bytes, version).unwrap();
        assert_eq!(read.tag(), 3);
        assert!(read.needs_auth());
        match read.kind() {
            CommandKind::SetClientName(params) => {
                assert_eq!(params.props().len(), 2);
                assert_eq!(params.props().get(Prop::ApplicationName), Some(&b"probe\0"[..]));
                assert_eq!(params.props().get(Prop::ApplicationProcessId), Some(&b"4711\0"[..]));
            }
            _ => panic!("expected a set client name command"),
        }
    }
}

#[test]
fn set_client_name_reply_is_the_client_id() {
    let mut w = TagStructWriter::new(Vec::new());
    SetClientNameReply::new(0x0A0B).to_tag_struct(&mut w, 13).unwrap();
    assert_eq!(w.as_bytes(), &[b'L', 0, 0, 0x0A, 0x0B]);
}

#[test]
fn register_memfd_shmid_round_trip() {
    let command = Command::new(1, CommandKind::RegisterMemfdShmid(RegisterMemfdShmid::new(99)));
    let bytes = encode(&command, 31);
    assert_eq!(bytes, vec![b'L', 0, 0, 0, 103, b'L', 0, 0, 0, 1, b'L', 0, 0, 0, 99]);
    match parse(&bytes, 31).unwrap().kind() {
        CommandKind::RegisterMemfdShmid(params) => assert_eq!(params.shmid(), 99),
        _ => panic!("expected a register command"),
    }
}

#[test]
fn info_list_commands_have_no_parameters() {
    let kinds: [(u32, fn(&CommandKind) -> bool); 8] = [
        (22, |k| matches!(k, CommandKind::GetSinkInfoList)),
        (24, |k| matches!(k, CommandKind::GetSourceInfoList)),
        (26, |k| matches!(k, CommandKind::GetModuleInfoList)),
        (28, |k| matches!(k, CommandKind::GetClientInfoList)),
        (30, |k| matches!(k, CommandKind::GetSinkInputInfoList)),
        (32, |k| matches!(k, CommandKind::GetSourceOutputInfoList)),
        (34, |k| matches!(k, CommandKind::GetSampleInfoList)),
        (89, |k| matches!(k, CommandKind::GetCardInfoList)),
    ];
    for (opcode, is_kind) in kinds {
        let bytes = envelope(opcode, 11);
        let command = parse(&bytes, 13).unwrap();
        assert!(is_kind(command.kind()));
        assert_eq!(command.tag(), 11);
        assert_eq!(encode(&command, 13), bytes);
        let mut extra = bytes.clone();
        extra.push(b'1');
        assert_eq!(parse_error(&extra, 13), ErrorKind::ExtraParameter);
    }
}

#[test]
fn error_command_round_trip() {
    let command = Command::new(4, CommandKind::GetSinkInfoList).error_reply(PulseError::NoEntity);
    let bytes = encode(&command, 13);
    assert_eq!(bytes, vec![b'L', 0, 0, 0, 0, b'L', 0, 0, 0, 4, b'L', 0, 0, 0, 5]);
    let read = parse(&bytes, 13).unwrap();
    assert_eq!(read.tag(), 4);
    assert!(matches!(read.kind(), CommandKind::Error { code: PulseError::NoEntity }));
    let mut bad = envelope(0, 4);
    bad.extend_from_slice(&[b'L', 0, 0, 0, 27]);
    assert_eq!(parse_error(&bad, 13), ErrorKind::InvalidErrorCode(27));
}

#[test]
fn reply_keeps_its_parameters() {
    let mut bytes = envelope(2, 77);
    bytes.extend_from_slice(&[b'L', 0, 0, 0, 9, b'1', b't', b'a', 0]);
    let read = parse(&bytes, 13).unwrap();
    assert_eq!(read.tag(), 77);
    match read.kind() {
        CommandKind::Reply { params } => {
            let mut params = *params;
            assert_eq!(params.read_u32().unwrap(), 9);
            assert!(params.read_bool().unwrap());
            assert_eq!(params.read_string().unwrap().unwrap().to_bytes(), b"a");
            assert!(params.read().unwrap().is_none());
        }
        _ => panic!("expected a reply"),
    }
    assert_eq!(encode(&read, 13), bytes);
    let mut bad = envelope(2, 77);
    bad.push(0x5A);
    let read = parse(&bad, 13).unwrap();
    let mut buf = Vec::new();
    assert_eq!(read.to_packet(&mut buf, 13).err().unwrap().kind(), ErrorKind::InvalidTag(0x5A));
}

#[test]
fn other_commands_are_recognized() {
    let mut bytes = envelope(7, 1);
    bytes.extend_from_slice(&[b'L', 0, 0, 0, 9]);
    let read = parse(&bytes, 13).unwrap();
    assert!(read.needs_auth());
    match read.kind() {
        CommandKind::Other { opcode, params } => {
            assert_eq!(*opcode, Opcode::Exit);
            assert_eq!(params.remaining_len(), 5);
        }
        _ => panic!("expected another command"),
    }
    assert_eq!(encode(&read, 13), bytes);
}

#[test]
fn malformed_commands_are_refused() {
    assert_eq!(parse_error(&[], 13), ErrorKind::UnexpectedEnd);
    assert_eq!(parse_error(&[0x5A], 13), ErrorKind::InvalidTag(0x5A));
    assert_eq!(parse_error(&[b'L', 0, 0, 0, 8], 13), ErrorKind::UnexpectedEnd);
    assert_eq!(parse_error(&envelope(104, 0), 13), ErrorKind::InvalidOpcode(104));
    assert_eq!(parse_error(&envelope(u32::MAX, 0), 13), ErrorKind::InvalidOpcode(u32::MAX));
    assert_eq!(parse_error(&envelope(8, 0), 13), ErrorKind::UnexpectedEnd);
    assert_eq!(parse_error(&envelope(9, 0), 13), ErrorKind::UnexpectedEnd);
    let mut auth = envelope(8, 0);
    auth.extend_from_slice(&[b'L', 0, 0, 0, 13, b'x', 0, 0, 0, 0, b'N']);
    assert_eq!(parse_error(&auth, 13), ErrorKind::ExtraParameter);
}

#[test]
fn versions_below_13_are_refused() {
    assert_eq!(PROTOCOL_MIN_VERSION, 13);
    assert_eq!(PROTOCOL_VERSION, 32);
    let bytes = envelope(22, 1);
    assert_eq!(parse_error(&bytes, 12), ErrorKind::UnsupportedVersion(12));
    assert_eq!(parse_error(&bytes, 0), ErrorKind::UnsupportedVersion(0));
    assert!(parse(&bytes, 13).is_ok());
}

struct Playback {
    sink_index: u32,
    sink_name: Option<&'static [u8]>,
    muted: bool,
    volume_set: bool,
    muted_set: bool,
    formats: u8,
}

fn playback_payload(p: &Playback, version: u16) -> Vec<u8> {
    let mut w = TagStructWriter::new(Vec::new());
    w.write(3u32);
    w.write(9u32);
    w.put_sample_spec_raw(&SampleSpec::new_checked(SampleFormat::S16Le, 2, 44100).unwrap());
    let mut map = ChannelMap::new();
    map.push(ChannelPosition::FrontLeft).unwrap();
    map.push(ChannelPosition::FrontRight).unwrap();
    w.write(map);
    w.write(p.sink_index);
    w.write(p.sink_name.map(|n| PaStr::from_bytes_with_nul(n).unwrap()));
    w.write(1001u32); // maxlength
    w.write(true); // corked
    w.write(1002u32); // tlength
    w.write(1003u32); // prebuf
    w.write(1004u32); // minreq
    w.write(55u32); // sync id
    let mut volume = CVolume::new();
    volume.push(Volume::norm()).unwrap();
    volume.push(Volume::from_u32_clamped(3)).unwrap();
    w.write(volume);
    w.write(false); // no remap
    w.write(true); // no remix
    w.write(false); // fix format
    w.write(true); // fix rate
    w.write(false); // fix channels
    w.write(true); // don't move
    w.write(false); // variable rate
    w.write(p.muted);
    w.write(true); // adjust latency
    let mut props = PropList::new();
    props.set(Prop::MediaName, b"song\0").unwrap();
    w.write(props);
    if version >= 14 {
        w.write(p.volume_set);
        w.write(true); // early requests
    }
    if version >= 15 {
        w.write(p.muted_set);
        w.write(false); // don't inhibit auto suspend
        w.write(true); // fail on suspend
    }
    if version >= 17 {
        w.write(true); // relative volume
    }
    if version >= 18 {
        w.write(false); // passthrough
    }
    if version >= 21 {
        w.write(p.formats);
        for _ in 0..p.formats {
            w.write(FormatInfo::new(FormatEncoding::Pcm));
        }
    }
    w.into_inner()
}

fn default_playback() -> Playback {
    Playback { sink_index: u32::MAX, sink_name: None, muted: false, volume_set: true, muted_set: false, formats: 2 }
}

fn expected_flags(version: u16) -> u32 {
    let mut flags = StreamFlags::START_CORKED
        | StreamFlags::NO_REMIX_CHANNELS
        | StreamFlags::FIX_RATE
        | StreamFlags::DONT_MOVE
        | StreamFlags::ADJUST_LATENCY;
    if version >= 14 {
        flags |= StreamFlags::EARLY_REQUESTS;
    }
    if version >= 15 {
        flags |= StreamFlags::FAIL_ON_SUSPEND;
    }
    if version >= 17 {
        flags |= StreamFlags::RELATIVE_VOLUME;
    }
    flags
}

#[test]
fn create_playback_stream_is_read_at_every_version() {
    for version in 13u16..=32 {
        let bytes = playback_payload(&default_playback(), version);
        let command = parse(&bytes, version).unwrap();
        assert_eq!(command.tag(), 9);
        match command.kind() {
            CommandKind::CreatePlaybackStream(params) => {
                assert_eq!(params.sample_spec().format(), SampleFormat::S16Le);
                assert_eq!(params.sample_spec().channels(), 2);
                assert_eq!(params.sample_spec().sample_rate(), 44100);
                assert_eq!(params.channel_map().len(), 2);
                assert!(params.sink_spec().is_none());
                assert_eq!(
                    params.buffer_attr(),
                    BufferAttr { maxlength: 1001, tlength: 1002, prebuf: 1003, minreq: 1004, fragsize: 0 }
                );
                assert_eq!(params.sync_id(), 55);
                assert_eq!(params.stream_flags().bits(), expected_flags(version));
                assert_eq!(params.muted(), None);
                assert_eq!(params.volume().unwrap().len(), 2);
                assert_eq!(params.volume().unwrap().volumes()[1].as_u32(), 3);
                assert_eq!(params.stream_props().get(Prop::MediaName), Some(&b"song\0"[..]));
                assert_eq!(params.formats().len(), if version >= 21 { 2 } else { 0 });
            }
            _ => panic!("expected a create playback stream command"),
        }
    }
}

#[test]
fn fields_of_later_versions_are_extra_parameters_before() {
    let bytes = playback_payload(&default_playback(), 14);
    assert_eq!(parse_error(&bytes, 13), ErrorKind::ExtraParameter);
    let bytes = playback_payload(&default_playback(), 13);
    assert_eq!(parse_error(&bytes, 14), ErrorKind::UnexpectedEnd);
    let bytes = playback_payload(&default_playback(), 21);
    assert_eq!(parse_error(&bytes, 20), ErrorKind::ExtraParameter);
}

fn read_playback<R>(p: &Playback, version: u16, check: impl FnOnce(&CreatePlaybackStream) -> R) -> R {
    let bytes = playback_payload(p, version);
    let command = parse(&bytes, version).unwrap();
    match command.kind() {
        CommandKind::CreatePlaybackStream(params) => check(params),
        _ => panic!("expected a create playback stream command"),
    }
}

#[test]
fn sink_selection() {
    let by_index = Playback { sink_index: 4, ..default_playback() };
    read_playback(&by_index, 13, |p| assert!(matches!(p.sink_spec(), Some(SinkSpec::Index(4)))));
    let by_name = Playback { sink_name: Some(b"out\0"), ..default_playback() };
    read_playback(&by_name, 13, |p| match p.sink_spec() {
        Some(SinkSpec::Name(name)) => assert_eq!(name.to_bytes(), b"out"),
        _ => panic!("expected a named sink"),
    });
    read_playback(&default_playback(), 13, |p| assert!(p.sink_spec().is_none()));
    let both = Playback { sink_index: 4, sink_name: Some(b"out\0"), ..default_playback() };
    for version in [13u16, 21, 32] {
        let error = parse(&playback_payload(&both, version), version).err().unwrap();
        assert_eq!(error.kind(), ErrorKind::SinkIndexAndName);
        assert_eq!(error.code(), PulseError::Invalid);
    }
}

#[test]
fn mute_preference() {
    let muted = Playback { muted: true, ..default_playback() };
    read_playback(&muted, 13, |p| assert_eq!(p.muted(), Some(true)));
    read_playback(&muted, 32, |p| assert_eq!(p.muted(), Some(true)));
    let unmuted_set = Playback { muted: false, muted_set: true, ..default_playback() };
    read_playback(&unmuted_set, 15, |p| assert_eq!(p.muted(), Some(false)));
    // before version 15 nothing tells that the state was set
    read_playback(&unmuted_set, 14, |p| assert_eq!(p.muted(), None));
    let muted_set = Playback { muted: true, muted_set: true, ..default_playback() };
    read_playback(&muted_set, 15, |p| assert_eq!(p.muted(), Some(true)));
    read_playback(&default_playback(), 15, |p| assert_eq!(p.muted(), None));
}

#[test]
fn volume_preference() {
    let unset = Playback { volume_set: false, ..default_playback() };
    read_playback(&unset, 14, |p| assert!(p.volume().is_none()));
    // before version 14 the volume always counts as set
    read_playback(&unset, 13, |p| assert!(p.volume().is_some()));
    read_playback(&default_playback(), 14, |p| assert!(p.volume().is_some()));
}

#[test]
fn create_playback_stream_wants_a_volume() {
    let mut w = TagStructWriter::new(Vec::new());
    w.write(3u32);
    w.write(9u32);
    w.put_sample_spec_raw(&SampleSpec::new_checked(SampleFormat::S16Le, 2, 44100).unwrap());
    w.write(ChannelMap::new());
    w.write(u32::MAX);
    w.write(None::<PaStr<'static>>);
    w.write(0u32);
    w.write(false);
    w.write(0u32);
    w.write(0u32);
    w.write(0u32);
    w.write(0u32);
    let mut bytes = w.into_inner();
    bytes.extend_from_slice(&[b'v', 0]);
    assert_eq!(parse_error(&bytes, 13), ErrorKind::InvalidVolumeCount(0));
}

#[test]
fn create_playback_stream_round_trip() {
    let spec = SampleSpec::new_checked(SampleFormat::Float32Le, 2, 48000).unwrap();
    let mut map = ChannelMap::new();
    map.push(ChannelPosition::FrontLeft).unwrap();
    map.push(ChannelPosition::FrontRight).unwrap();
    let mut volume = CVolume::new();
    volume.push(Volume::norm()).unwrap();
    let mut props = PropList::new();
    props.set(Prop::MediaRole, b"music\0").unwrap();
    let mut builder = StreamBuilder::new();
    builder.add_flags(StreamFlags::from_bits(StreamFlags::START_CORKED));
    builder.add_flags(StreamFlags::from_bits(StreamFlags::VARIABLE_RATE | StreamFlags::PASSTHROUGH));
    let flags = builder.flags();
    let name = PaStr::from_bytes_with_nul(b"speakers\0").unwrap();
    let params = CreatePlaybackStream::new(
        spec,
        map,
        Some(SinkSpec::Name(name)),
        BufferAttr { maxlength: 1, tlength: 2, prebuf: 3, minreq: 4, fragsize: 0 },
        flags,
        6,
        Some(false),
        Some(volume),
        props,
        vec![FormatInfo::new(FormatEncoding::Ac3Iec61937)],
    )
    .unwrap();
    let command = Command::new(8, CommandKind::CreatePlaybackStream(params));
    let bytes = encode(&command, 32);
    let read = parse(&bytes, 32).unwrap();
    match read.kind() {
        CommandKind::CreatePlaybackStream(p) => {
            assert_eq!(p.sample_spec().format(), SampleFormat::Float32Le);
            assert_eq!(p.channel_map().positions(), &[ChannelPosition::FrontLeft, ChannelPosition::FrontRight]);
            match p.sink_spec() {
                Some(SinkSpec::Name(name)) => assert_eq!(name.to_bytes(), b"speakers"),
                _ => panic!("expected a named sink"),
            }
            assert_eq!(p.buffer_attr().tlength, 2);
            assert_eq!(
                p.stream_flags().bits(),
                StreamFlags::START_CORKED | StreamFlags::VARIABLE_RATE | StreamFlags::PASSTHROUGH
            );
            assert!(p.stream_flags().contains(StreamFlags::PASSTHROUGH));
            assert!(!p.stream_flags().contains(StreamFlags::FIX_RATE));
            assert_eq!(p.sync_id(), 6);
            assert_eq!(p.muted(), Some(false));
            assert_eq!(p.volume().unwrap().volumes()[0].as_u32(), 0x10000);
            assert_eq!(p.stream_props().get(Prop::MediaRole), Some(&b"music\0"[..]));
            assert_eq!(p.formats().len(), 1);
            assert_eq!(p.formats()[0].encoding(), FormatEncoding::Ac3Iec61937);
        }
        _ => panic!("expected a create playback stream command"),
    }
    assert_eq!(encode(&read, 32), bytes);
    assert!(CreatePlaybackStream::new(
        spec,
        ChannelMap::new(),
        None,
        BufferAttr::new(),
        StreamFlags::empty(),
        0,
        None,
        None,
        PropList::new(),
        (0..256).map(|_| FormatInfo::new(FormatEncoding::Pcm)).collect(),
    )
    .is_none());
}

#[test]
fn unset_volume_is_written_as_normal_volumes() {
    let spec = SampleSpec::new_checked(SampleFormat::U8, 3, 8000).unwrap();
    let params = CreatePlaybackStream::new(
        spec,
        ChannelMap::new(),
        Some(SinkSpec::Index(2)),
        BufferAttr::new(),
        StreamFlags::empty(),
        0,
        None,
        None,
        PropList::new(),
        Vec::new(),
    )
    .unwrap();
    let command = Command::new(1, CommandKind::CreatePlaybackStream(params));
    let bytes = encode(&command, 14);
    match parse(&bytes, 14).unwrap().kind() {
        CommandKind::CreatePlaybackStream(p) => {
            assert!(p.volume().is_none());
            assert!(matches!(p.sink_spec(), Some(SinkSpec::Index(2))));
        }
        _ => panic!("expected a create playback stream command"),
    }
    // a peer of version 13 cannot be told that the volume is not set
    let bytes = encode(&command, 13);
    match parse(&bytes, 13).unwrap().kind() {
        CommandKind::CreatePlaybackStream(p) => {
            let volume = p.volume().unwrap();
            assert_eq!(volume.len(), 3);
            assert!(volume.volumes().iter().all(|v| v.as_u32() == 0x10000));
        }
        _ => panic!("expected a create playback stream command"),
    }
}

#[test]
fn reply_packets() {
    let command = Command::new(0x0102_0304, CommandKind::GetModuleInfoList);
    let mut buf = Vec::new();
    let packet = command.empty_reply_packet(&mut buf);
    assert_eq!(packet.payload(), &[b'L', 0, 0, 0, 2, b'L', 1, 2, 3, 4]);
    let packet = command.reply_packet(&mut buf, 13, SetClientNameReply::new(6)).unwrap();
    assert_eq!(packet.payload(), &[b'L', 0, 0, 0, 2, b'L', 1, 2, 3, 4, b'L', 0, 0, 0, 6]);
    assert_eq!(packet.payload(), &buf[..]);
    assert_eq!(packet.descriptor().channel, -1);
}

#[test]
fn module_list_reply() {
    let reply = GetModuleInfoListReply::new_dummy();
    let mut w = TagStructWriter::new(Vec::new());
    reply.to_tag_struct(&mut w, 15).unwrap();
    let mut expected = vec![b'L', 0, 0, 0, 0];
    expected.extend_from_slice(b"tDefault Module\0");
    expected.extend_from_slice(b"t\0");
    expected.extend_from_slice(&[b'L', 0, 0, 0, 1]);
    let mut with_props = expected.clone();
    with_props.extend_from_slice(&[b'P', b'N']);
    assert_eq!(w.as_bytes(), &with_props[..]);
    let mut w = TagStructWriter::new(Vec::new());
    reply.to_tag_struct(&mut w, 14).unwrap();
    let mut with_flag = expected.clone();
    with_flag.push(b'0');
    assert_eq!(w.as_bytes(), &with_flag[..]);
}

#[test]
fn client_list_reply() {
    let mut props = PropList::new();
    props.set(Prop::ApplicationName, b"probe\0").unwrap();
    let nameless = PropList::new();
    let driver = PaStr::from_bytes_with_nul(b"drv\0").unwrap();
    let reply = GetClientInfoListReply::new(vec![
        ClientInfo::new(1, driver, &props),
        ClientInfo::new(2, PaStr::empty(), &nameless),
    ]);
    let mut w = TagStructWriter::new(Vec::new());
    reply.to_tag_struct(&mut w, 13).unwrap();
    let bytes = w.into_inner();
    let mut r = TagStructReader::from_raw(&bytes);
    assert_eq!(r.read_u32().unwrap(), 1);
    assert_eq!(r.read_string().unwrap().unwrap().to_bytes(), b"probe");
    assert_eq!(r.read_u32().unwrap(), u32::MAX);
    assert_eq!(r.read_string().unwrap().unwrap().to_bytes(), b"drv");
    assert_eq!(r.read_proplist().unwrap().get(Prop::ApplicationName), Some(&b"probe\0"[..]));
    assert_eq!(r.read_u32().unwrap(), 2);
    assert_eq!(r.read_string().unwrap().unwrap().to_bytes(), b"");
    assert_eq!(r.read_u32().unwrap(), u32::MAX);
    assert_eq!(r.read_string().unwrap().unwrap().to_bytes(), b"");
    assert_eq!(r.read_proplist().unwrap().len(), 0);
    assert!(r.read().unwrap().is_none());
}

#[test]
fn create_playback_stream_reply_frame() {
    let sink = Rc::new(Sink::new_dummy(3));
    let stream = Stream::new(Microseconds(250), sink.clone());
    assert_eq!(stream.latency().0, 250);
    assert_eq!(stream.sink().index(), 3);
    let attr = BufferAttr { maxlength: 10, tlength: 20, prebuf: 30, minreq: 40, fragsize: 0 };
    let spec = SampleSpec::new_checked(SampleFormat::S24Le, 1, 8000).unwrap();
    let mut map = ChannelMap::new();
    map.push(ChannelPosition::Mono).unwrap();
    let reply = CreatePlaybackStreamReply {
        stream_index: 1,
        sink_input_index: 2,
        missing: 4096,
        buffer_metrics: &attr,
        sample_spec: &spec,
        channel_map: &map,
        stream: &stream,
        sink: &sink,
    };
    for version in [13u16, 15] {
        let mut w = TagStructWriter::new(Vec::new());
        reply.to_tag_struct(&mut w, version).unwrap();
        let bytes = w.into_inner();
        let mut r = TagStructReader::from_raw(&bytes);
        assert_eq!(r.read_u32().unwrap(), 1);
        assert_eq!(r.read_u32().unwrap(), 2);
        assert_eq!(r.read_u32().unwrap(), 4096);
        assert_eq!(r.read_u32().unwrap(), 10);
        assert_eq!(r.read_u32().unwrap(), 20);
        assert_eq!(r.read_u32().unwrap(), 30);
        assert_eq!(r.read_u32().unwrap(), 40);
        let expected = if version < 15 { SampleFormat::Float32Le } else { SampleFormat::S24Le };
        assert_eq!(r.read_sample_spec().unwrap().format(), expected);
        assert_eq!(r.read_channel_map().unwrap().len(), 1);
        assert_eq!(r.read_u32().unwrap(), 3);
        assert_eq!(r.read_string().unwrap().unwrap().to_bytes(), b"Dummy Sink");
        assert!(!r.read_bool().unwrap());
        assert_eq!(r.read_usec().unwrap().0, 250);
        assert!(r.read().unwrap().is_none());
    }
}
