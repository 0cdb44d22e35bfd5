use pa_proto::stream::{StreamBuilder, StreamFlags};
use pa_proto::sink::{Available, Direction, Port, SinkFlags, SinkState};
use pa_proto::paths::{ config_home_dir, cookie_path, runtime_dir, ConfigHomeDir, CookiePath, RuntimeDir, };
use pa_proto::error::PulseError;
use pa_proto::lex::{lex_compare, Order};
use pa_proto::sample_spec::{InvalidSampleSpecError, CHANNELS_MAX, RATE_LIMIT, RATE_MAX};
use pa_proto::string::{all_ascii, find_byte, PaStr, PaString, StringError, UnicodeCString};
use pa_proto::types::cvolume::{VOLUME_MAX, VOLUME_MUTED, VOLUME_NORM};
use pa_proto::{
    ChannelMap, ChannelPosition, CVolume, ErrorKind, FormatEncoding, FormatInfo, Prop, PropList,
    SampleFormat, SampleSpec, Volume,
};

#[test]
fn error_codes_follow_the_enumeration() {
    assert_eq!(PulseError::Access.code(), 1);
    assert_eq!(PulseError::Command.code(), 2);
    assert_eq!(PulseError::Invalid.code(), 3);
    assert_eq!(PulseError::Protocol.code(), 7);
    assert_eq!(PulseError::Version.code(), 17);
    assert_eq!(PulseError::TooLarge.code(), 18);
    assert_eq!(PulseError::NotImplemented.code(), 23);
    assert_eq!(PulseError::Busy.code(), 26);
    assert_eq!(PulseError::from_u32(0), None);
    assert_eq!(PulseError::from_u32(27), None);
    for raw in 1u32..=26 {
        assert_eq!(PulseError::from_u32(raw).unwrap().code(), raw);
    }
}

#[test]
fn errors_map_to_codes() {
    assert_eq!(pa_proto::Error::new(ErrorKind::SinkIndexAndName).code(), PulseError::Invalid);
    assert_eq!(pa_proto::Error::new(ErrorKind::UnsupportedVersion(12)).code(), PulseError::Version);
    assert_eq!(pa_proto::Error::new(ErrorKind::InvalidTag(1)).code(), PulseError::Protocol);
    assert_eq!(pa_proto::Error::new(ErrorKind::PacketTooLarge(9)).code(), PulseError::TooLarge);
    assert_eq!(pa_proto::Error::new(ErrorKind::ExtraParameter).kind(), ErrorKind::ExtraParameter);
}

#[test]
fn sample_format_numbers() {
    assert_eq!(SampleFormat::U8.as_u8(), 0);
    assert_eq!(SampleFormat::Float32Le.as_u8(), 5);
    assert_eq!(SampleFormat::S24In32Be.as_u8(), 12);
    assert_eq!(SampleFormat::from_u8(13), None);
    for raw in 0u8..=12 {
        assert_eq!(SampleFormat::from_u8(raw).unwrap().as_u8(), raw);
    }
}

#[test]
fn sample_spec_limits() {
    assert_eq!(CHANNELS_MAX, 32);
    assert_eq!(RATE_MAX, 384000);
    assert_eq!(RATE_LIMIT, 387840);
    assert!(SampleSpec::new_checked(SampleFormat::U8, 1, 1).is_ok());
    assert!(SampleSpec::new_checked(SampleFormat::U8, 32, 387840).is_ok());
    assert_eq!(
        SampleSpec::new_checked(SampleFormat::U8, 0, 44100).unwrap_err(),
        InvalidSampleSpecError::ChannelCount(0)
    );
    assert_eq!(
        SampleSpec::new_checked(SampleFormat::U8, 33, 44100).unwrap_err(),
        InvalidSampleSpecError::ChannelCount(33)
    );
    assert_eq!(
        SampleSpec::new_checked(SampleFormat::U8, 2, 0).unwrap_err(),
        InvalidSampleSpecError::SampleRate(0)
    );
    assert_eq!(
        SampleSpec::new_checked(SampleFormat::U8, 2, 387841).unwrap_err(),
        InvalidSampleSpecError::SampleRate(387841)
    );
    // the channel count is looked at first
    assert_eq!(
        SampleSpec::new_checked(SampleFormat::U8, 0, 0).unwrap_err(),
        InvalidSampleSpecError::ChannelCount(0)
    );
}

#[test]
fn downgrade_rewrites_24_bit_formats_before_version_15() {
    let cases = [
        (SampleFormat::S24Le, SampleFormat::Float32Le),
        (SampleFormat::S24In32Le, SampleFormat::Float32Le),
        (SampleFormat::S24Be, SampleFormat::Float32Be),
        (SampleFormat::S24In32Be, SampleFormat::Float32Be),
    ];
    for (from, to) in cases {
        let spec = SampleSpec::new_checked(from, 2, 48000).unwrap();
        assert_eq!(spec.protocol_downgrade(13).format(), to);
        assert_eq!(spec.protocol_downgrade(14).format(), to);
        assert_eq!(spec.protocol_downgrade(15).format(), from);
        assert_eq!(spec.protocol_downgrade(32).format(), from);
        assert_eq!(spec.protocol_downgrade(14).channels(), 2);
        assert_eq!(spec.protocol_downgrade(14).sample_rate(), 48000);
    }
    for raw in 0u8..=8 {
        let format = SampleFormat::from_u8(raw).unwrap();
        let spec = SampleSpec::new_checked(format, 1, 8000).unwrap();
        assert_eq!(spec.protocol_downgrade(13).format(), format);
    }
}

#[test]
fn channel_position_numbers() {
    assert_eq!(ChannelPosition::Mono.as_u8(), 0);
    assert_eq!(ChannelPosition::SideRight.as_u8(), 11);
    assert_eq!(ChannelPosition::Aux0.as_u8(), 12);
    assert_eq!(ChannelPosition::Aux31.as_u8(), 43);
    assert_eq!(ChannelPosition::TopCenter.as_u8(), 44);
    assert_eq!(ChannelPosition::TopRearCenter.as_u8(), 50);
    assert_eq!(ChannelPosition::from_u8(51), None);
    for raw in 0u8..=50 {
        assert_eq!(ChannelPosition::from_u8(raw).unwrap().as_u8(), raw);
    }
}

#[test]
fn channel_map_holds_32_positions_at_most() {
    let mut map = ChannelMap::new();
    assert_eq!(map.len(), 0);
    for i in 0..32u8 {
        assert!(map.push(ChannelPosition::from_u8(i).unwrap()).is_ok());
    }
    assert_eq!(map.len(), 32);
    assert!(map.push(ChannelPosition::Mono).is_err());
    assert_eq!(map.len(), 32);
    assert_eq!(map.positions()[5], ChannelPosition::RearLeft);
    let copy = map.clone();
    assert_eq!(copy.positions(), map.positions());
}

#[test]
fn volume_constants_and_clamping() {
    assert_eq!(VOLUME_NORM, 0x10000);
    assert_eq!(VOLUME_MUTED, 0);
    assert_eq!(VOLUME_MAX, 0x7FFF_FFFF);
    assert_eq!(Volume::norm().as_u32(), 0x10000);
    assert_eq!(Volume::muted().as_u32(), 0);
    assert_eq!(Volume::from_u32_clamped(0).as_u32(), 0);
    assert_eq!(Volume::from_u32_clamped(123).as_u32(), 123);
    assert_eq!(Volume::from_u32_clamped(0x7FFF_FFFF).as_u32(), 0x7FFF_FFFF);
    assert_eq!(Volume::from_u32_clamped(0x8000_0000).as_u32(), 0x7FFF_FFFF);
    assert_eq!(Volume::from_u32_clamped(u32::MAX).as_u32(), 0x7FFF_FFFF);
}

#[test]
fn cvolume_holds_32_volumes_at_most() {
    let mut volumes = CVolume::new();
    assert_eq!(volumes.len(), 0);
    for i in 0..32u32 {
        assert_eq!(volumes.push(Volume::from_u32_clamped(i)).unwrap(), i as u8);
    }
    assert!(volumes.push(Volume::norm()).is_err());
    assert_eq!(volumes.len(), 32);
    assert_eq!(volumes.volumes()[31].as_u32(), 31);
    let copy = volumes.clone();
    assert_eq!(copy.len(), 32);
    assert_eq!(copy.volumes()[7].as_u32(), 7);
}

#[test]
fn format_encoding_numbers() {
    assert_eq!(FormatEncoding::Any.as_u8(), 0);
    assert_eq!(FormatEncoding::Pcm.as_u8(), 1);
    assert_eq!(FormatEncoding::Mpeg2Iec61937.as_u8(), 6);
    assert_eq!(FormatEncoding::from_u8(7), None);
    for raw in 0u8..=6 {
        assert_eq!(FormatEncoding::from_u8(raw).unwrap().as_u8(), raw);
    }
}

#[test]
fn format_info_from_raw() {
    let info = FormatInfo::from_raw(1, PropList::new()).unwrap();
    assert_eq!(info.encoding(), FormatEncoding::Pcm);
    assert_eq!(info.props().len(), 0);
    assert_eq!(FormatInfo::from_raw(200, PropList::new()).unwrap_err().raw, 200);
    let mut info = FormatInfo::new(FormatEncoding::Any);
    info.props_mut().set(Prop::FormatChannels, b"2\0").unwrap();
    assert_eq!(info.props().len(), 1);
    let copy = info.clone();
    assert_eq!(copy.props().get(Prop::FormatChannels), Some(&b"2\0"[..]));
}

#[test]
fn proplist_insert_get_and_overwrite() {
    let mut props = PropList::new();
    assert_eq!(props.len(), 0);
    assert_eq!(props.get(Prop::MediaName), None);
    let key = UnicodeCString::from_str("media.name").unwrap();
    assert_eq!(props.insert(key.clone(), b"one".to_vec()).unwrap(), None);
    assert_eq!(props.get(Prop::MediaName), Some(&b"one"[..]));
    assert_eq!(props.insert(key, b"two".to_vec()).unwrap(), Some(b"one".to_vec()));
    assert_eq!(props.get(Prop::MediaName), Some(&b"two"[..]));
    assert_eq!(props.len(), 1);
    props.set(Prop::MediaName, b"three").unwrap();
    assert_eq!(props.get_raw(b"media.name"), Some(&b"three"[..]));
    assert_eq!(props.len(), 1);
}

#[test]
fn proplist_keeps_keys_in_order() {
    let mut props = PropList::new();
    for key in ["m", "z", "a", "mm", "b"] {
        props.insert(UnicodeCString::from_str(key).unwrap(), key.as_bytes().to_vec()).unwrap();
    }
    let keys: Vec<&str> = (0..props.len()).map(|i| props.key_at(i).as_str()).collect();
    assert_eq!(keys, vec!["a", "b", "m", "mm", "z"]);
    for i in 0..props.len() {
        assert_eq!(props.value_at(i), props.key_at(i).as_bytes());
    }
    assert_eq!(props.get_raw(b"mm"), Some(&b"mm"[..]));
    assert_eq!(props.get_raw(b"mmm"), None);
    assert_eq!(props.get_raw(b""), None);
}

#[test]
fn proplist_refuses_invalid_entries() {
    let mut props = PropList::new();
    let empty = UnicodeCString::from_str("").unwrap();
    assert_eq!(props.insert(empty, vec![]).unwrap_err().kind(), ErrorKind::EmptyPropKey);
    let umlaut = UnicodeCString::from_str("k\u{e4}y").unwrap();
    assert_eq!(props.insert(umlaut, vec![]).unwrap_err().kind(), ErrorKind::NonAsciiPropKey);
    let key = UnicodeCString::from_str("key").unwrap();
    assert_eq!(
        props.insert(key.clone(), vec![0; 65537]).unwrap_err().kind(),
        ErrorKind::PropTooLarge
    );
    assert_eq!(props.set(Prop::MediaIcon, &vec![0; 65537]).unwrap_err().kind(), ErrorKind::PropTooLarge);
    assert_eq!(props.len(), 0);
    assert!(props.insert(key, vec![0; 65536]).is_ok());
    assert_eq!(props.len(), 1);
}

#[test]
fn proplist_extend_overwrites() {
    let mut ours = PropList::new();
    ours.set(Prop::ApplicationName, b"old\0").unwrap();
    ours.set(Prop::MediaRole, b"music\0").unwrap();
    let mut theirs = PropList::new();
    theirs.set(Prop::ApplicationName, b"new\0").unwrap();
    theirs.set(Prop::WindowName, b"w\0").unwrap();
    ours.extend(&theirs);
    assert_eq!(ours.len(), 3);
    assert_eq!(ours.get(Prop::ApplicationName), Some(&b"new\0"[..]));
    assert_eq!(ours.get(Prop::MediaRole), Some(&b"music\0"[..]));
    assert_eq!(ours.get(Prop::WindowName), Some(&b"w\0"[..]));
    let copy = ours.clone();
    assert_eq!(copy.len(), 3);
    assert_eq!(copy.get(Prop::WindowName), Some(&b"w\0"[..]));
}

#[test]
fn proplist_get_string_wants_a_utf8_c_string() {
    let mut props = PropList::new();
    props.set(Prop::ApplicationName, b"probe\0").unwrap();
    props.set(Prop::MediaName, b"no terminator").unwrap();
    props.set(Prop::MediaTitle, b"in\0side\0").unwrap();
    props.set(Prop::MediaArtist, &[0xFF, 0xFE, 0]).unwrap();
    assert_eq!(props.get_string(Prop::ApplicationName).unwrap().to_bytes(), b"probe");
    assert!(props.get_string(Prop::MediaName).is_none());
    assert!(props.get_string(Prop::MediaTitle).is_none());
    assert!(props.get_string(Prop::MediaArtist).is_none());
    assert!(props.get_string(Prop::MediaRole).is_none());
}

#[test]
fn proplist_value_text() {
    assert_eq!(PropList::value_text(b"abc\0"), Some("abc"));
    assert_eq!(PropList::value_text(b"abcd"), Some("abc"));
    assert_eq!(PropList::value_text(b""), None);
    assert_eq!(PropList::value_text(&[0xFF, 0]), None);
    assert_eq!(PropList::value_text(&[0]), Some(""));
}

#[test]
fn prop_names() {
    assert_eq!(Prop::MediaName.as_str(), "media.name");
    assert_eq!(Prop::ApplicationName.as_str(), "application.name");
    assert_eq!(Prop::DeviceDescription.as_str(), "device.description");
    assert_eq!(Prop::FormatChannelMap.as_str(), "format.channel_map");
    assert_eq!(Prop::ApplicationProcessMachineId.as_str(), "application.process.machine_id");
    assert_eq!(Prop::WindowX11Xid.to_unicode_cstring().as_str(), "window.x11.xid");
    assert_eq!(Prop::EventMouseButton.to_unicode_cstring().as_bytes(), b"event.mouse.button");
}

#[test]
fn byte_strings_are_ordered_byte_by_byte() {
    assert_eq!(lex_compare(b"", b""), Order::Equal);
    assert_eq!(lex_compare(b"", b"a"), Order::Less);
    assert_eq!(lex_compare(b"a", b""), Order::Greater);
    assert_eq!(lex_compare(b"abc", b"abd"), Order::Less);
    assert_eq!(lex_compare(b"abd", b"abc"), Order::Greater);
    assert_eq!(lex_compare(b"ab", b"abc"), Order::Less);
    assert_eq!(lex_compare(b"abc", b"abc"), Order::Equal);
    assert_eq!(lex_compare(&[0xFF], &[0x00, 0xFF]), Order::Greater);
}

#[test]
fn c_strings_end_in_their_only_nul() {
    assert!(PaStr::from_bytes_with_nul(b"abc\0").is_ok());
    assert_eq!(PaStr::from_bytes_with_nul(b"abc").unwrap_err(), StringError::NotNulTerminated);
    assert_eq!(PaStr::from_bytes_with_nul(b"").unwrap_err(), StringError::NotNulTerminated);
    assert_eq!(PaStr::from_bytes_with_nul(b"a\0c\0").unwrap_err(), StringError::InteriorNul(1));
    let s = PaStr::from_bytes_with_nul(b"abc\0").unwrap();
    assert_eq!(s.to_bytes(), b"abc");
    assert_eq!(s.to_bytes_with_nul(), b"abc\0");
    assert_eq!(s.to_str(), Some("abc"));
    assert_eq!(PaStr::from_bytes_with_nul(&[0xFF, 0]).unwrap().to_str(), None);
    assert_eq!(PaStr::empty().to_bytes(), b"");
    assert_eq!(s.to_owned().as_pastr().to_bytes(), b"abc");
}

#[test]
fn owned_c_strings() {
    let s = PaString::new(b"abc".to_vec()).unwrap();
    assert_eq!(s.as_pastr().to_bytes_with_nul(), b"abc\0");
    assert_eq!(PaString::new(b"a\0bc".to_vec()).unwrap_err(), StringError::InteriorNul(1));
    assert_eq!(PaString::from_str("x y").unwrap().as_pastr().to_bytes(), b"x y");
    assert!(PaString::from_str("x\0y").is_err());
    assert_eq!(s.clone().as_pastr().to_bytes(), b"abc");
    assert_eq!(PaString::from_plain_text("Dummy Sink").as_pastr().to_bytes(), b"Dummy Sink");
}

#[test]
fn unicode_c_strings() {
    let s = UnicodeCString::from_str("gr\u{fc}n").unwrap();
    assert_eq!(s.as_str(), "gr\u{fc}n");
    assert_eq!(s.as_bytes(), "gr\u{fc}n".as_bytes());
    assert_eq!(s.as_pastr().to_bytes_with_nul(), b"gr\xc3\xbcn\0");
    assert_eq!(UnicodeCString::from_str("a\0b").unwrap_err(), StringError::InteriorNul(1));
    assert_eq!(UnicodeCString::from_string(String::from("ok")).unwrap().as_str(), "ok");
    let c = PaStr::from_bytes_with_nul(b"abc\0").unwrap();
    assert_eq!(UnicodeCString::from_cstr(c).unwrap().as_str(), "abc");
    let bad = PaStr::from_bytes_with_nul(&[0xC3, 0]).unwrap();
    assert_eq!(UnicodeCString::from_cstr(bad).unwrap_err(), StringError::InvalidUtf8);
    assert_eq!(UnicodeCString::from_ascii(b"abc").unwrap().as_str(), "abc");
    assert!(UnicodeCString::from_ascii(&[0xC3, 0xA4]).is_none());
    assert!(UnicodeCString::from_ascii(b"a\0").is_none());
    assert_eq!(s.clone().as_str(), "gr\u{fc}n");
}

#[test]
fn byte_searches() {
    assert_eq!(find_byte(b"abcabc", 0, b'c'), Some(2));
    assert_eq!(find_byte(b"abcabc", 3, b'c'), Some(5));
    assert_eq!(find_byte(b"abcabc", 6, b'c'), None);
    assert_eq!(find_byte(b"abc", 0, b'x'), None);
    assert!(all_ascii(b"abc\x7f"));
    assert!(!all_ascii(b"ab\x80"));
    assert!(all_ascii(b""));
}

#[test]
fn stream_flags_are_bits() {
    let mut flags = StreamFlags::empty();
    assert_eq!(flags.bits(), 0);
    flags.set(StreamFlags::START_CORKED, true);
    flags.set(StreamFlags::PASSTHROUGH, true);
    flags.set(StreamFlags::FIX_RATE, false);
    assert_eq!(flags.bits(), 0x80001);
    assert!(flags.contains(StreamFlags::START_CORKED));
    assert!(flags.contains(StreamFlags::START_CORKED | StreamFlags::PASSTHROUGH));
    assert!(!flags.contains(StreamFlags::START_CORKED | StreamFlags::FIX_RATE));
    flags.set(StreamFlags::START_CORKED, false);
    assert_eq!(flags.bits(), 0x80000);
    flags.insert(StreamFlags::ADJUST_LATENCY);
    assert_eq!(flags, StreamFlags::from_bits(0x82000));
    assert_eq!(StreamFlags::EARLY_REQUESTS, 0x4000);
    assert_eq!(StreamFlags::DONT_INHIBIT_AUTO_SUSPEND, 0x8000);
    assert_eq!(StreamFlags::FAIL_ON_SUSPEND, 0x20000);
    assert_eq!(StreamFlags::RELATIVE_VOLUME, 0x40000);
    let mut builder = StreamBuilder::new();
    assert_eq!(builder.flags().bits(), 0);
    builder.add_flags(StreamFlags::from_bits(1)).add_flags(StreamFlags::from_bits(4));
    assert_eq!(builder.flags().bits(), 5);
}

#[test]
fn sink_flags_and_states() {
    assert_eq!(SinkFlags::empty().bits(), 0);
    let flags = SinkFlags::from_bits(SinkFlags::HARDWARE | SinkFlags::LATENCY);
    assert_eq!(flags.bits(), 6);
    assert!(flags.contains(SinkFlags::HARDWARE));
    assert!(!flags.contains(SinkFlags::NETWORK));
    assert_eq!(SinkFlags::SET_FORMATS, 0x100);
    assert_eq!(SinkState::Running.as_u32(), 0);
    assert_eq!(SinkState::Idle.as_u32(), 1);
    assert_eq!(SinkState::Suspended.as_u32(), 2);
    assert_eq!(Available::Unknown.as_u32(), 0);
    assert_eq!(Available::No.as_u32(), 1);
    assert_eq!(Available::Yes.as_u32(), 2);
    let port = Port::new_input(PaString::from_str("mic").unwrap(), PaString::from_str("d").unwrap(), 3);
    assert_eq!(port.name().to_bytes(), b"mic");
    assert_eq!(port.description().to_bytes(), b"d");
    assert_eq!(port.priority(), 3);
    assert_eq!(port.direction(), Direction::Input);
    assert_eq!(port.available(), Available::Unknown);
    assert_eq!(port.props().len(), 0);
    let port = Port::new_output(PaString::from_str("out").unwrap(), PaString::from_str("").unwrap(), 0);
    assert_eq!(port.direction(), Direction::Output);
}

#[test]
fn path_choices() {
    assert_eq!(runtime_dir(true, true), RuntimeDir::PulseRuntimePath);
    assert_eq!(runtime_dir(true, false), RuntimeDir::PulseRuntimePath);
    assert_eq!(runtime_dir(false, true), RuntimeDir::XdgRuntimeDir);
    assert_eq!(runtime_dir(false, false), RuntimeDir::Home);
    assert_eq!(config_home_dir(true), ConfigHomeDir::XdgConfigHome);
    assert_eq!(config_home_dir(false), ConfigHomeDir::Home);
    assert_eq!(cookie_path(true, true), CookiePath::Config);
    assert_eq!(cookie_path(true, false), CookiePath::Config);
    assert_eq!(cookie_path(false, true), CookiePath::HomeFallback);
    assert_eq!(cookie_path(false, false), CookiePath::Config);
}
