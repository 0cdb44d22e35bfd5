use pa_proto::error::ErrorKind;
use pa_proto::string::{PaStr, UnicodeCString};
use pa_proto::time::Microseconds;
use pa_proto::types::tagstruct::reader::is_known_tag;
use pa_proto::{
    ChannelMap, ChannelPosition, CVolume, FormatEncoding, FormatInfo, Prop, PropList, SampleFormat,
    SampleSpec, TagStructReader, TagStructWriter, ToTagStruct, Value, Volume,
};

fn written(value: &Value) -> Vec<u8> {
    let mut w = TagStructWriter::new(Vec::new());
    w.write_value(value);
    w.into_inner()
}

fn read_one(bytes: &[u8]) -> Value<'_> {
    let mut reader = TagStructReader::from_raw(bytes);
    let value = reader.read().unwrap().unwrap();
    assert_eq!(reader.remaining_len(), 0);
    assert!(reader.read().unwrap().is_none());
    value
}

fn read_error(bytes: &[u8]) -> ErrorKind {
    let mut reader = TagStructReader::from_raw(bytes);
    reader.read().unwrap_err().kind()
}

#[test]
fn u32_is_written_big_endian() {
    let bytes = written(&Value::U32(0x0102_0304));
    assert_eq!(bytes, vec![b'L', 1, 2, 3, 4]);
    assert!(matches!(read_one(&bytes), Value::U32(0x0102_0304)));
}

#[test]
fn u8_round_trip() {
    let bytes = written(&Value::U8(0xAB));
    assert_eq!(bytes, vec![b'B', 0xAB]);
    assert!(matches!(read_one(&bytes), Value::U8(0xAB)));
}

#[test]
fn u64_is_written_big_endian() {
    let bytes = written(&Value::U64(0x0102_0304_0506_0708));
    assert_eq!(bytes, vec![b'R', 1, 2, 3, 4, 5, 6, 7, 8]);
    assert!(matches!(read_one(&bytes), Value::U64(0x0102_0304_0506_0708)));
}

#[test]
fn s64_round_trip_of_negative_numbers() {
    let bytes = written(&Value::S64(-2));
    assert_eq!(bytes, vec![b'r', 0xFF, 0xFF, 0xFF, 0xFF, 0xFF, 0xFF, 0xFF, 0xFE]);
    assert!(matches!(read_one(&bytes), Value::S64(-2)));
    let bytes = written(&Value::S64(i64::MIN));
    assert!(matches!(read_one(&bytes), Value::S64(i64::MIN)));
    let bytes = written(&Value::S64(i64::MAX));
    assert!(matches!(read_one(&bytes), Value::S64(i64::MAX)));
}

#[test]
fn usec_round_trip() {
    let bytes = written(&Value::Usec(Microseconds(1_000_000)));
    assert_eq!(bytes, vec![b'U', 0, 0, 0, 0, 0, 0x0F, 0x42, 0x40]);
    match read_one(&bytes) {
        Value::Usec(us) => assert_eq!(us.0, 1_000_000),
        _ => panic!("expected microseconds"),
    }
}

#[test]
fn booleans_are_tags_alone() {
    assert_eq!(written(&Value::Boolean(true)), vec![b'1']);
    assert_eq!(written(&Value::Boolean(false)), vec![b'0']);
    assert!(matches!(read_one(&[b'1']), Value::Boolean(true)));
    assert!(matches!(read_one(&[b'0']), Value::Boolean(false)));
}

#[test]
fn string_round_trip() {
    let s = PaStr::from_bytes_with_nul(b"hello\0").unwrap();
    let bytes = written(&Value::String(s));
    assert_eq!(bytes, b"thello\0".to_vec());
    match read_one(&bytes) {
        Value::String(read) => {
            assert_eq!(read.to_bytes(), b"hello");
            assert_eq!(read.to_bytes_with_nul(), b"hello\0");
        }
        _ => panic!("expected a string"),
    }
}

#[test]
fn empty_string_is_not_the_null_string() {
    let bytes = written(&Value::String(PaStr::empty()));
    assert_eq!(bytes, vec![b't', 0]);
    assert!(matches!(read_one(&bytes), Value::String(_)));
    let bytes = written(&Value::NullString);
    assert_eq!(bytes, vec![b'N']);
    assert!(matches!(read_one(&bytes), Value::NullString));
}

#[test]
fn arbitrary_round_trip() {
    let blob = [9u8, 8, 7];
    let bytes = written(&Value::Arbitrary(&blob));
    assert_eq!(bytes, vec![b'x', 0, 0, 0, 3, 9, 8, 7]);
    match read_one(&bytes) {
        Value::Arbitrary(read) => assert_eq!(read, &blob),
        _ => panic!("expected a blob"),
    }
}

#[test]
fn sample_spec_round_trip() {
    let spec = SampleSpec::new_checked(SampleFormat::S16Le, 2, 44100).unwrap();
    let bytes = written(&Value::SampleSpec(spec));
    assert_eq!(bytes, vec![b'a', 3, 2, 0, 0, 0xAC, 0x44]);
    match read_one(&bytes) {
        Value::SampleSpec(read) => {
            assert_eq!(read.format(), SampleFormat::S16Le);
            assert_eq!(read.channels(), 2);
            assert_eq!(read.sample_rate(), 44100);
        }
        _ => panic!("expected a sample spec"),
    }
}

#[test]
fn sample_spec_is_downgraded_for_old_versions_only() {
    let spec = SampleSpec::new_checked(SampleFormat::S24Be, 1, 8000).unwrap();
    for version in 13u16..=32 {
        let mut w = TagStructWriter::new(Vec::new());
        w.write_versioned(&spec, version);
        let bytes = w.into_inner();
        match read_one(&bytes) {
            Value::SampleSpec(read) => {
                let expected = if version < 15 { SampleFormat::Float32Be } else { SampleFormat::S24Be };
                assert_eq!(read.format(), expected);
                assert_eq!(read.format(), spec.protocol_downgrade(version).format());
                assert_eq!(read.channels(), 1);
                assert_eq!(read.sample_rate(), 8000);
            }
            _ => panic!("expected a sample spec"),
        }
    }
}

#[test]
fn value_written_at_a_version_round_trips() {
    let spec = SampleSpec::new_checked(SampleFormat::S24In32Le, 2, 48000).unwrap();
    let value = Value::SampleSpec(spec);
    let mut w = TagStructWriter::new(Vec::new());
    value.to_tag_struct(&mut w, 14).unwrap();
    let bytes = w.into_inner();
    match read_one(&bytes) {
        Value::SampleSpec(read) => assert_eq!(read.format(), SampleFormat::Float32Le),
        _ => panic!("expected a sample spec"),
    }
    let mut w = TagStructWriter::new(Vec::new());
    value.to_tag_struct(&mut w, 15).unwrap();
    let bytes = w.into_inner();
    match read_one(&bytes) {
        Value::SampleSpec(read) => assert_eq!(read.format(), SampleFormat::S24In32Le),
        _ => panic!("expected a sample spec"),
    }
}

#[test]
fn channel_map_round_trip() {
    let mut map = ChannelMap::new();
    map.push(ChannelPosition::FrontLeft).unwrap();
    map.push(ChannelPosition::FrontRight).unwrap();
    map.push(ChannelPosition::TopRearCenter).unwrap();
    let bytes = written(&Value::ChannelMap(map));
    assert_eq!(bytes, vec![b'm', 3, 1, 2, 50]);
    match read_one(&bytes) {
        Value::ChannelMap(read) => {
            assert_eq!(read.len(), 3);
            assert_eq!(
                read.positions(),
                &[ChannelPosition::FrontLeft, ChannelPosition::FrontRight, ChannelPosition::TopRearCenter]
            );
        }
        _ => panic!("expected a channel map"),
    }
}

#[test]
fn empty_channel_map_round_trip() {
    let bytes = written(&Value::ChannelMap(ChannelMap::new()));
    assert_eq!(bytes, vec![b'm', 0]);
    match read_one(&bytes) {
        Value::ChannelMap(read) => assert_eq!(read.len(), 0),
        _ => panic!("expected a channel map"),
    }
}

#[test]
fn cvolume_round_trip() {
    let mut volumes = CVolume::new();
    volumes.push(Volume::norm()).unwrap();
    volumes.push(Volume::from_u32_clamped(5)).unwrap();
    let bytes = written(&Value::CVolume(volumes));
    assert_eq!(bytes, vec![b'v', 2, 0, 1, 0, 0, 0, 0, 0, 5]);
    match read_one(&bytes) {
        Value::CVolume(read) => {
            assert_eq!(read.len(), 2);
            assert_eq!(read.volumes()[0].as_u32(), 0x10000);
            assert_eq!(read.volumes()[1].as_u32(), 5);
        }
        _ => panic!("expected channel volumes"),
    }
}

#[test]
fn volumes_are_clamped_when_read() {
    match read_one(&[b'V', 0xFF, 0xFF, 0xFF, 0xFF]) {
        Value::Volume(v) => assert_eq!(v.as_u32(), 0x7FFF_FFFF),
        _ => panic!("expected a volume"),
    }
    match read_one(&[b'v', 1, 0x80, 0, 0, 0]) {
        Value::CVolume(v) => assert_eq!(v.volumes()[0].as_u32(), 0x7FFF_FFFF),
        _ => panic!("expected channel volumes"),
    }
    match read_one(&[b'V', 0x7F, 0xFF, 0xFF, 0xFF]) {
        Value::Volume(v) => assert_eq!(v.as_u32(), 0x7FFF_FFFF),
        _ => panic!("expected a volume"),
    }
}

#[test]
fn volume_round_trip() {
    let bytes = written(&Value::Volume(Volume::from_u32_clamped(0x1234)));
    assert_eq!(bytes, vec![b'V', 0, 0, 0x12, 0x34]);
    match read_one(&bytes) {
        Value::Volume(v) => assert_eq!(v.as_u32(), 0x1234),
        _ => panic!("expected a volume"),
    }
}

fn sample_props() -> PropList {
    let mut props = PropList::new();
    props.set(Prop::MediaName, b"song\0").unwrap();
    props.set(Prop::ApplicationName, b"player\0").unwrap();
    props
}

#[test]
fn proplist_wire_form() {
    let mut props = PropList::new();
    props.set(Prop::MediaRole, b"hi").unwrap();
    let bytes = written(&Value::PropList(props));
    let mut expected = vec![b'P', b't'];
    expected.extend_from_slice(b"media.role\0");
    expected.extend_from_slice(&[b'L', 0, 0, 0, 2]);
    expected.extend_from_slice(&[b'x', 0, 0, 0, 2, b'h', b'i']);
    expected.push(b'N');
    assert_eq!(bytes, expected);
}

#[test]
fn proplist_round_trip() {
    let bytes = written(&Value::PropList(sample_props()));
    match read_one(&bytes) {
        Value::PropList(read) => {
            assert_eq!(read.len(), 2);
            assert_eq!(read.get(Prop::MediaName), Some(&b"song\0"[..]));
            assert_eq!(read.get(Prop::ApplicationName), Some(&b"player\0"[..]));
            assert_eq!(read.key_at(0).as_str(), "application.name");
            assert_eq!(read.key_at(1).as_str(), "media.name");
        }
        _ => panic!("expected a property list"),
    }
}

#[test]
fn empty_proplist_round_trip() {
    let bytes = written(&Value::PropList(PropList::new()));
    assert_eq!(bytes, vec![b'P', b'N']);
    match read_one(&bytes) {
        Value::PropList(read) => assert_eq!(read.len(), 0),
        _ => panic!("expected a property list"),
    }
}

#[test]
fn later_duplicate_key_overwrites() {
    let mut bytes = vec![b'P'];
    for value in [&b"one"[..], &b"two"[..]] {
        bytes.extend_from_slice(b"tkey\0");
        bytes.extend_from_slice(&[b'L', 0, 0, 0, 3]);
        bytes.extend_from_slice(&[b'x', 0, 0, 0, 3]);
        bytes.extend_from_slice(value);
    }
    bytes.push(b'N');
    match read_one(&bytes) {
        Value::PropList(read) => {
            assert_eq!(read.len(), 1);
            assert_eq!(read.get_raw(b"key"), Some(&b"two"[..]));
        }
        _ => panic!("expected a property list"),
    }
}

#[test]
fn keys_read_in_any_order_are_kept_in_order() {
    let mut bytes = vec![b'P'];
    for key in [&b"tzz\0"[..], &b"taa\0"[..], &b"tmm\0"[..]] {
        bytes.extend_from_slice(key);
        bytes.extend_from_slice(&[b'L', 0, 0, 0, 0]);
        bytes.extend_from_slice(&[b'x', 0, 0, 0, 0]);
    }
    bytes.push(b'N');
    match read_one(&bytes) {
        Value::PropList(read) => {
            assert_eq!(read.len(), 3);
            assert_eq!(read.key_at(0).as_bytes(), b"aa");
            assert_eq!(read.key_at(1).as_bytes(), b"mm");
            assert_eq!(read.key_at(2).as_bytes(), b"zz");
        }
        _ => panic!("expected a property list"),
    }
}

#[test]
fn format_info_round_trip() {
    let mut info = FormatInfo::new(FormatEncoding::Pcm);
    info.props_mut().set(Prop::FormatRate, b"48000\0").unwrap();
    let bytes = written(&Value::FormatInfo(info));
    assert_eq!(&bytes[..4], &[b'f', b'B', 1, b'P']);
    match read_one(&bytes) {
        Value::FormatInfo(read) => {
            assert_eq!(read.encoding(), FormatEncoding::Pcm);
            assert_eq!(read.props().get(Prop::FormatRate), Some(&b"48000\0"[..]));
        }
        _ => panic!("expected a format info"),
    }
}

#[test]
fn values_follow_each_other_without_framing() {
    let mut w = TagStructWriter::new(Vec::new());
    w.write(7u32);
    w.write(true);
    w.write(PaStr::from_bytes_with_nul(b"x\0").unwrap());
    w.write(None::<PaStr<'static>>);
    w.write(&b"ab"[..]);
    w.write(9u8);
    w.write(10u64);
    w.write(-1i64);
    w.write(Microseconds(3));
    let bytes = w.into_inner();
    let mut reader = TagStructReader::from_raw(&bytes);
    assert_eq!(reader.read_u32().unwrap(), 7);
    assert!(reader.read_bool().unwrap());
    assert_eq!(reader.read_string().unwrap().unwrap().to_bytes(), b"x");
    assert!(reader.read_string().unwrap().is_none());
    assert_eq!(reader.read_arbitrary().unwrap(), b"ab");
    assert_eq!(reader.read_u8().unwrap(), 9);
    assert_eq!(reader.read_u64().unwrap(), 10);
    assert_eq!(reader.read_i64().unwrap(), -1);
    assert_eq!(reader.read_usec().unwrap().0, 3);
    assert!(reader.read().unwrap().is_none());
}

#[test]
fn clean_end_is_none_and_expect_turns_it_into_an_error() {
    let mut reader = TagStructReader::from_raw(&[]);
    assert!(reader.read().unwrap().is_none());
    assert_eq!(reader.expect().unwrap_err().kind(), ErrorKind::UnexpectedEnd);
    assert_eq!(reader.read_u32().unwrap_err().kind(), ErrorKind::UnexpectedEnd);
}

#[test]
fn unknown_tag_is_refused() {
    assert_eq!(read_error(&[0x5A]), ErrorKind::InvalidTag(0x5A));
    assert_eq!(read_error(&[0x00, 1, 2]), ErrorKind::InvalidTag(0));
    for tag in 0u8..=255 {
        let known = b"tNLBRraxX10TUmvPVf".contains(&tag) && tag != b'X';
        assert_eq!(is_known_tag(tag), known);
        if !known {
            assert_eq!(read_error(&[tag, 0, 0, 0, 0, 0, 0, 0, 0]), ErrorKind::InvalidTag(tag));
        }
    }
}

#[test]
fn reserved_timeval_tag_is_refused() {
    assert_eq!(read_error(&[b'T', 0, 0, 0, 0, 0, 0, 0, 0]), ErrorKind::ReservedTag(b'T'));
}

#[test]
fn truncated_values_are_refused() {
    assert_eq!(read_error(&[b'L', 0, 0, 0]), ErrorKind::UnexpectedEof);
    assert_eq!(read_error(&[b'B']), ErrorKind::UnexpectedEof);
    assert_eq!(read_error(&[b'R', 0, 0, 0, 0, 0, 0, 0]), ErrorKind::UnexpectedEof);
    assert_eq!(read_error(&[b'r']), ErrorKind::UnexpectedEof);
    assert_eq!(read_error(&[b'U', 1]), ErrorKind::UnexpectedEof);
    assert_eq!(read_error(&[b'V', 0, 0]), ErrorKind::UnexpectedEof);
    assert_eq!(read_error(&[b'a', 0, 1, 0, 0, 0]), ErrorKind::UnexpectedEof);
    assert_eq!(read_error(&[b'm']), ErrorKind::UnexpectedEof);
    assert_eq!(read_error(&[b'm', 2, 0]), ErrorKind::UnexpectedEof);
    assert_eq!(read_error(&[b'v', 1, 0, 0, 0]), ErrorKind::UnexpectedEof);
    assert_eq!(read_error(b"tabc"), ErrorKind::MissingTerminator);
}

#[test]
fn blob_longer_than_the_rest_is_refused() {
    assert_eq!(read_error(&[b'x', 0, 0, 0, 4, 1, 2, 3]), ErrorKind::UnexpectedEof);
    assert_eq!(read_error(&[b'x', 0xFF, 0xFF, 0xFF, 0xFF]), ErrorKind::UnexpectedEof);
    assert_eq!(read_error(&[b'x', 0, 0]), ErrorKind::UnexpectedEof);
}

#[test]
fn invalid_sample_specs_are_refused() {
    assert_eq!(read_error(&[b'a', 13, 2, 0, 0, 0xAC, 0x44]), ErrorKind::InvalidSampleFormat(13));
    assert_eq!(read_error(&[b'a', 0, 0, 0, 0, 0xAC, 0x44]), ErrorKind::InvalidChannelCount(0));
    assert_eq!(read_error(&[b'a', 0, 33, 0, 0, 0xAC, 0x44]), ErrorKind::InvalidChannelCount(33));
    assert_eq!(read_error(&[b'a', 0, 2, 0, 0, 0, 0]), ErrorKind::InvalidSampleRate(0));
    // 387840 is the highest rate, 387841 the first that is refused
    assert!(matches!(read_one(&[b'a', 0, 2, 0, 0x05, 0xEB, 0x00]), Value::SampleSpec(_)));
    assert_eq!(read_error(&[b'a', 0, 2, 0, 0x05, 0xEB, 0x01]), ErrorKind::InvalidSampleRate(387841));
}

#[test]
fn invalid_channel_maps_are_refused() {
    assert_eq!(read_error(&[b'm', 33]), ErrorKind::ChannelMapTooLarge(33));
    assert_eq!(read_error(&[b'm', 1, 51]), ErrorKind::InvalidChannelPosition(51));
    let mut full = vec![b'm', 32];
    full.extend_from_slice(&[0u8; 32]);
    match read_one(&full) {
        Value::ChannelMap(map) => assert_eq!(map.len(), 32),
        _ => panic!("expected a channel map"),
    }
}

#[test]
fn invalid_cvolume_counts_are_refused() {
    assert_eq!(read_error(&[b'v', 0]), ErrorKind::InvalidVolumeCount(0));
    assert_eq!(read_error(&[b'v', 33]), ErrorKind::InvalidVolumeCount(33));
}

#[test]
fn invalid_proplist_keys_are_refused() {
    let mut empty_key = vec![b'P'];
    empty_key.extend_from_slice(b"t\0");
    empty_key.extend_from_slice(&[b'L', 0, 0, 0, 0, b'x', 0, 0, 0, 0, b'N']);
    assert_eq!(read_error(&empty_key), ErrorKind::EmptyPropKey);
    let mut non_ascii = vec![b'P', b't', 0xC3, 0xA4, 0];
    non_ascii.extend_from_slice(&[b'L', 0, 0, 0, 0, b'x', 0, 0, 0, 0, b'N']);
    assert_eq!(read_error(&non_ascii), ErrorKind::NonAsciiPropKey);
}

#[test]
fn proplist_value_length_must_match() {
    let mut bytes = vec![b'P'];
    bytes.extend_from_slice(b"tkey\0");
    bytes.extend_from_slice(&[b'L', 0, 0, 0, 3]);
    bytes.extend_from_slice(&[b'x', 0, 0, 0, 2, 1, 2]);
    bytes.push(b'N');
    assert_eq!(read_error(&bytes), ErrorKind::PropLengthMismatch);
}

#[test]
fn proplist_value_above_the_limit_is_refused() {
    let mut bytes = vec![b'P'];
    bytes.extend_from_slice(b"tkey\0");
    bytes.extend_from_slice(&[b'L', 0, 1, 0, 1]);
    assert_eq!(read_error(&bytes), ErrorKind::PropTooLarge);
    // exactly 64 KiB is accepted
    let mut bytes = vec![b'P'];
    bytes.extend_from_slice(b"tkey\0");
    bytes.extend_from_slice(&[b'L', 0, 1, 0, 0]);
    bytes.extend_from_slice(&[b'x', 0, 1, 0, 0]);
    bytes.extend_from_slice(&vec![7u8; 65536]);
    bytes.push(b'N');
    match read_one(&bytes) {
        Value::PropList(read) => assert_eq!(read.get_raw(b"key").unwrap().len(), 65536),
        _ => panic!("expected a property list"),
    }
}

#[test]
fn proplist_without_terminator_is_refused() {
    assert_eq!(read_error(&[b'P']), ErrorKind::UnexpectedEnd);
    let mut bytes = vec![b'P'];
    bytes.extend_from_slice(b"tkey\0");
    bytes.extend_from_slice(&[b'B', 1]);
    assert_eq!(read_error(&bytes), ErrorKind::UnexpectedValue(b'B'));
}

#[test]
fn invalid_format_encoding_is_refused() {
    assert_eq!(read_error(&[b'f', b'B', 7, b'P', b'N']), ErrorKind::InvalidEncoding(7));
    assert!(matches!(read_one(&[b'f', b'B', 6, b'P', b'N']), Value::FormatInfo(_)));
}

#[test]
fn typed_reads_refuse_other_values() {
    let mut reader = TagStructReader::from_raw(&[b'B', 1]);
    assert_eq!(reader.read_u32().unwrap_err().kind(), ErrorKind::UnexpectedValue(b'B'));
    let mut reader = TagStructReader::from_raw(&[b'L', 0, 0, 0, 1]);
    assert_eq!(reader.read_bool().unwrap_err().kind(), ErrorKind::UnexpectedValue(b'L'));
    let mut reader = TagStructReader::from_raw(&[b'N']);
    assert_eq!(reader.read_string_non_null().unwrap_err().kind(), ErrorKind::UnexpectedValue(b'N'));
    let mut reader = TagStructReader::from_raw(&[b'?']);
    assert_eq!(reader.read_proplist().unwrap_err().kind(), ErrorKind::InvalidTag(b'?'));
}

#[test]
fn sized_arbitrary_checks_the_length() {
    let bytes = [b'x', 0, 0, 0, 2, 1, 2];
    let mut reader = TagStructReader::from_raw(&bytes);
    assert_eq!(reader.read_sized_arbitrary(2).unwrap(), &[1, 2]);
    let mut reader = TagStructReader::from_raw(&bytes);
    assert_eq!(reader.read_sized_arbitrary(3).unwrap_err().kind(), ErrorKind::PropLengthMismatch);
}

#[test]
fn reader_can_be_reset_and_copied() {
    let bytes = [b'B', 1, b'B', 2];
    let mut reader = TagStructReader::from_raw(&bytes);
    assert_eq!(reader.read_u8().unwrap(), 1);
    let copy = reader;
    assert_eq!(reader.read_u8().unwrap(), 2);
    assert_eq!(copy.remaining_len(), 2);
    let mut fresh = reader.to_reset();
    assert_eq!(fresh.read_u8().unwrap(), 1);
    reader.reset();
    assert_eq!(reader.remaining_len(), 4);
}

#[test]
fn checked_iter_reads_all_or_fails() {
    let bytes = [b'B', 1, b'1', b'N'];
    let reader = TagStructReader::from_raw(&bytes);
    let values = reader.checked_iter().unwrap();
    assert_eq!(values.len(), 3);
    assert!(matches!(values[0], Value::U8(1)));
    assert!(matches!(values[1], Value::Boolean(true)));
    assert!(matches!(values[2], Value::NullString));
    assert_eq!(reader.remaining_len(), 4);
    let bad = [b'B', 1, b'L', 0];
    assert_eq!(
        TagStructReader::from_raw(&bad).checked_iter().unwrap_err().kind(),
        ErrorKind::UnexpectedEof
    );
}

#[test]
fn extend_writes_values_again() {
    let bytes = [b'B', 1, b'L', 0, 0, 0, 2, b't', b'a', 0, b'x', 0, 0, 0, 1, 5];
    let values = TagStructReader::from_raw(&bytes).checked_iter().unwrap();
    let mut w = TagStructWriter::new(vec![1, 2, 3]);
    w.extend(&values);
    assert_eq!(w.as_bytes(), &bytes);
    let mut again = w.to_reader();
    assert_eq!(again.read_u8().unwrap(), 1);
}

#[test]
fn writer_drops_what_its_buffer_held() {
    let w = TagStructWriter::new(vec![1, 2, 3]);
    assert!(w.as_bytes().is_empty());
}

#[test]
fn unicode_string_is_written_as_a_string() {
    let name = UnicodeCString::from_str("ab").unwrap();
    let mut w = TagStructWriter::new(Vec::new());
    w.write(&name);
    assert_eq!(w.into_inner(), b"tab\0".to_vec());
}
