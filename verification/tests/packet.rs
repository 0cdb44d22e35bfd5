use bytes::BytesMut;
use pa_proto::error::ErrorKind;
use pa_proto::packet::{
    Descriptor, Message, MessageKind, Packet, PacketCodec, CONTROL_CHANNEL, DESCRIPTOR_SIZE,
    FLAG_SHMRELEASE, FLAG_SHMREVOKE,
};

fn frame(payload: &[u8]) -> Vec<u8> {
    let mut dst = BytesMut::new();
    PacketCodec::new().encode(Packet::new_command(payload), &mut dst).unwrap();
    dst.to_vec()
}

#[test]
fn descriptor_layout() {
    let desc = Descriptor {
        length: 0x0102_0304,
        channel: -1,
        offset_hi: 0x1112_1314,
        offset_lo: 0x2122_2324,
        flags: 0x4000_0000,
    };
    let mut bytes = Vec::new();
    desc.encode(&mut bytes);
    assert_eq!(
        bytes,
        vec![
            1, 2, 3, 4, 0xFF, 0xFF, 0xFF, 0xFF, 0x11, 0x12, 0x13, 0x14, 0x21, 0x22, 0x23, 0x24, 0x40, 0, 0,
            0
        ]
    );
    assert_eq!(bytes.len(), DESCRIPTOR_SIZE);
    assert_eq!(Descriptor::decode(&bytes), Some(desc));
    assert_eq!(Descriptor::decode(&bytes[..19]), None);
    let channel_7 = Descriptor { channel: 7, ..desc };
    let mut bytes = Vec::new();
    channel_7.encode(&mut bytes);
    assert_eq!(&bytes[4..8], &[0, 0, 0, 7]);
    assert_eq!(Descriptor::decode(&bytes).unwrap().channel, 7);
    let lowest = Descriptor { channel: i32::MIN, ..desc };
    let mut bytes = Vec::new();
    lowest.encode(&mut bytes);
    assert_eq!(Descriptor::decode(&bytes).unwrap().channel, i32::MIN);
}

#[test]
fn command_packet_frame() {
    let bytes = frame(b"abc");
    assert_eq!(
        bytes,
        vec![0, 0, 0, 3, 0xFF, 0xFF, 0xFF, 0xFF, 0, 0, 0, 0, 0, 0, 0, 0, 0, 0, 0, 0, b'a', b'b', b'c']
    );
    let packet = Packet::new_command(b"abc");
    assert_eq!(packet.payload(), b"abc");
    assert_eq!(packet.descriptor().length, 3);
    assert_eq!(packet.descriptor().channel, CONTROL_CHANNEL);
    assert_eq!(packet.descriptor().flags, 0);
}

#[test]
fn one_frame_round_trip() {
    for payload in [&b""[..], &b"x"[..], &b"hello world"[..], &[0u8; 300][..]] {
        let mut buf = BytesMut::from(frame(payload));
        let mut codec = PacketCodec::new();
        let packet = codec.decode(&mut buf).unwrap().unwrap();
        assert_eq!(packet.payload(), payload);
        assert_eq!(packet.descriptor().length as usize, payload.len());
        assert!(buf.is_empty());
        assert!(codec.decode(&mut buf).unwrap().is_none());
    }
}

#[test]
fn two_frames_round_trip() {
    let mut stream = frame(b"first");
    stream.extend_from_slice(&frame(b"second one"));
    let mut buf = BytesMut::from(stream);
    let mut codec = PacketCodec::new();
    assert_eq!(codec.decode(&mut buf).unwrap().unwrap().payload(), b"first");
    assert_eq!(buf.len(), 20 + 10);
    assert_eq!(codec.decode(&mut buf).unwrap().unwrap().payload(), b"second one");
    assert!(codec.decode(&mut buf).unwrap().is_none());
    assert!(buf.is_empty());
}

#[test]
fn encode_appends_to_what_is_there() {
    let mut dst = BytesMut::from(vec![1u8, 2, 3]);
    PacketCodec::new().encode(Packet::new_command(b"z"), &mut dst).unwrap();
    assert_eq!(&dst[..3], &[1, 2, 3]);
    assert_eq!(dst.len(), 3 + 20 + 1);
    assert_eq!(dst[3 + 20], b'z');
}

#[test]
fn decoder_waits_for_whole_frames() {
    let stream = frame(b"payload");
    let mut codec = PacketCodec::new();
    let mut buf = BytesMut::new();
    for (i, byte) in stream.iter().enumerate() {
        assert!(codec.decode(&mut buf).unwrap().is_none());
        assert_eq!(buf.len(), i);
        buf.extend_from_slice(&[*byte]);
    }
    assert_eq!(codec.decode(&mut buf).unwrap().unwrap().payload(), b"payload");
    assert!(buf.is_empty());
}

#[test]
fn every_split_of_a_stream_gives_the_same_packets() {
    let payloads: [&[u8]; 4] = [b"one", b"", b"three three three", b"4"];
    let mut stream = Vec::new();
    for payload in payloads {
        stream.extend_from_slice(&frame(payload));
    }
    for first in 0..=stream.len() {
        for second in [first, (first + stream.len()) / 2, stream.len()] {
            let mut codec = PacketCodec::new();
            let mut buf = BytesMut::new();
            let mut got: Vec<Vec<u8>> = Vec::new();
            for chunk in [&stream[..first], &stream[first..second], &stream[second..]] {
                buf.extend_from_slice(chunk);
                while let Some(packet) = codec.decode(&mut buf).unwrap() {
                    got.push(packet.payload().to_vec());
                }
            }
            assert!(buf.is_empty());
            assert_eq!(got.len(), 4);
            for (read, payload) in got.iter().zip(payloads.iter()) {
                assert_eq!(&read[..], *payload);
            }
        }
    }
}

#[test]
fn payload_above_the_maximum_is_refused() {
    let mut codec = PacketCodec::with_max_length(4);
    assert_eq!(codec.max_length(), 4);
    let mut buf = BytesMut::from(frame(b"12345"));
    let before = buf.to_vec();
    assert_eq!(codec.decode(&mut buf).unwrap_err().kind(), ErrorKind::PacketTooLarge(5));
    assert_eq!(buf.to_vec(), before);
    let mut buf = BytesMut::from(frame(b"1234"));
    assert_eq!(codec.decode(&mut buf).unwrap().unwrap().payload(), b"1234");
    // the descriptor alone is enough to refuse
    let mut buf = BytesMut::from(frame(b"12345")[..20].to_vec());
    assert_eq!(codec.decode(&mut buf).unwrap_err().kind(), ErrorKind::PacketTooLarge(5));
    assert_eq!(PacketCodec::new().max_length(), u32::MAX);
}

#[test]
fn packet_decode_wants_the_whole_packet() {
    let bytes = frame(b"abc");
    assert_eq!(Packet::decode(&bytes).unwrap().payload(), b"abc");
    assert_eq!(Packet::decode(&bytes[..22]).err().unwrap().kind(), ErrorKind::PacketTruncated);
    assert_eq!(Packet::decode(&bytes[..5]).err().unwrap().kind(), ErrorKind::PacketTruncated);
    assert_eq!(Packet::decode(&[]).err().unwrap().kind(), ErrorKind::PacketTruncated);
    let mut longer = bytes.clone();
    longer.extend_from_slice(b"more");
    assert_eq!(Packet::decode(&longer).unwrap().payload(), b"abc");
}

#[test]
fn packets_are_classified_by_their_descriptor() {
    let control = Descriptor { length: 0, channel: -1, offset_hi: 0, offset_lo: 0, flags: FLAG_SHMRELEASE };
    assert_eq!(control.kind(), MessageKind::Control);
    let release = Descriptor { channel: 0, flags: FLAG_SHMRELEASE, ..control };
    assert_eq!(release.kind(), MessageKind::ShmRelease);
    let revoke = Descriptor { channel: 0, flags: FLAG_SHMREVOKE, ..control };
    assert_eq!(revoke.kind(), MessageKind::ShmRevoke);
    let memblock = Descriptor { channel: 3, flags: 0x0000_0001, ..control };
    assert_eq!(memblock.kind(), MessageKind::Memblock);
    let both = Descriptor { channel: 3, flags: FLAG_SHMREVOKE | 1, ..control };
    assert_eq!(both.kind(), MessageKind::Memblock);
}

#[test]
fn messages_from_packets() {
    let packet = Packet::new_command(&[b'B', 7]);
    match Message::from_packet(&packet).unwrap() {
        Message::Control { mut tagstruct } => assert_eq!(tagstruct.read_u8().unwrap(), 7),
        _ => panic!("expected a control message"),
    }
    let desc = Descriptor { length: 2, channel: 1, offset_hi: 0, offset_lo: 0, flags: 0 };
    let packet = Packet::from_parts(desc, &[1, 2]).unwrap();
    assert!(matches!(Message::from_packet(&packet).unwrap(), Message::Memblock {}));
    let desc = Descriptor { flags: FLAG_SHMRELEASE, ..desc };
    let packet = Packet::from_parts(desc, &[1, 2]).unwrap();
    assert!(matches!(Message::from_packet(&packet).unwrap(), Message::ShmRelease {}));
    let desc = Descriptor { flags: FLAG_SHMREVOKE, ..desc };
    let packet = Packet::from_parts(desc, &[1, 2]).unwrap();
    assert!(matches!(Message::from_packet(&packet).unwrap(), Message::ShmRevoke {}));
    assert!(Packet::from_parts(desc, &[1, 2, 3]).is_none());
}

#[test]
fn memblock_frames_pass_the_codec() {
    let desc = Descriptor { length: 3, channel: 2, offset_hi: 1, offset_lo: 2, flags: 1 };
    let mut dst = BytesMut::new();
    let mut codec = PacketCodec::new();
    codec.encode(Packet::from_parts(desc, &[9, 9, 9]).unwrap(), &mut dst).unwrap();
    let packet = codec.decode(&mut dst).unwrap().unwrap();
    assert_eq!(packet.descriptor(), desc);
    assert_eq!(packet.payload(), &[9, 9, 9]);
}

#[test]
fn decode_all_takes_every_complete_packet() {
    let mut stream = frame(b"a");
    stream.extend_from_slice(&frame(b"bb"));
    stream.extend_from_slice(&frame(b"ccc"));
    for split in 0..=stream.len() {
        let mut codec = PacketCodec::new();
        let mut buf = BytesMut::new();
        let mut out = Vec::new();
        buf.extend_from_slice(&stream[..split]);
        codec.decode_all(&mut buf, &mut out).unwrap();
        buf.extend_from_slice(&stream[split..]);
        codec.decode_all(&mut buf, &mut out).unwrap();
        assert!(buf.is_empty());
        let payloads: Vec<&[u8]> = out.iter().map(|p| p.payload()).collect();
        assert_eq!(payloads, vec![&b"a"[..], &b"bb"[..], &b"ccc"[..]]);
    }
}

#[test]
fn decode_all_stops_at_a_refused_packet() {
    let mut stream = frame(b"ok");
    stream.extend_from_slice(&frame(b"too large"));
    stream.extend_from_slice(&frame(b"ok"));
    let mut codec = PacketCodec::with_max_length(4);
    let mut buf = BytesMut::from(stream);
    let mut out = Vec::new();
    let error = codec.decode_all(&mut buf, &mut out).unwrap_err();
    assert_eq!(error.kind(), ErrorKind::PacketTooLarge(9));
    assert_eq!(out.len(), 1);
    assert_eq!(out[0].payload(), b"ok");
    assert_eq!(buf.len(), 20 + 9 + 20 + 2);
}
