//! The command that creates a playback stream, and its reply.

use vstd::prelude::*;
use crate::types::tagstruct::grammar::Cursor;
use crate::types::tagstruct::grammar::Parsed;
use crate::types::tagstruct::grammar::TAG_STRING_NULL;
use crate::types::tagstruct::grammar::TAG_U8;
use crate::types::tagstruct::grammar::ValueView;
use crate::types::tagstruct::grammar::cursor_start;
use crate::types::tagstruct::grammar::cursor_take;
use crate::types::tagstruct::grammar::spec_encode_formats;
use crate::types::tagstruct::grammar::spec_encode_proplist;
use crate::types::tagstruct::grammar::spec_encode_sample_spec;
use crate::types::tagstruct::grammar::spec_encode_string;
use crate::types::tagstruct::grammar::spec_encode_u32;
use crate::types::tagstruct::grammar::spec_encode_value;
use crate::types::tagstruct::grammar::spec_read_bool;
use crate::types::tagstruct::grammar::spec_read_channel_map;
use crate::types::tagstruct::grammar::spec_read_cvolume;
use crate::types::tagstruct::grammar::spec_read_formats;
use crate::types::tagstruct::grammar::spec_read_proplist;
use crate::types::tagstruct::grammar::spec_read_sample_spec;
use crate::types::tagstruct::grammar::spec_read_string;
use crate::types::tagstruct::grammar::spec_read_u32;
use crate::types::tagstruct::grammar::spec_read_u8;
use crate::error::Error;
use crate::error::ErrorKind;
use crate::sink::Sink;
use crate::sink::SinkState;
use crate::stream::spec_has_flags;
use crate::stream::spec_set_flags;
use crate::stream::BufferAttr;
use crate::stream::Stream;
use crate::stream::StreamFlags;
use crate::string::PaStr;
use crate::types::channel_map::ChannelMap;
use crate::types::channel_map::ChannelPosition;
use crate::types::cvolume::CVolume;
use crate::types::cvolume::Volume;
use crate::types::cvolume::VOLUME_NORM;
use crate::types::format_info::FormatInfo;
use crate::types::format_info::FormatInfoView;
use crate::types::proplist::PropList;
use crate::types::proplist::PropSeq;
use crate::types::sample_spec::SampleSpec;
use crate::types::sample_spec::SampleSpecView;
use crate::types::tagstruct::reader::FromTagStruct;
use crate::types::tagstruct::reader::TagStructReader;
use crate::types::tagstruct::writer::TagStructWriter;
use crate::types::tagstruct::writer::ToTagStruct;
use crate::types::tagstruct::writer::lemma_append_assoc;
use crate::sink::spec_format_views;

verus! {

/// The sink index that stands for no sink.
pub const INVALID_INDEX: u32 = 0xFFFF_FFFF;

/// What a `SinkSpec` holds.
pub enum SinkSpecView {
    Index(u32),
    /// The bytes of the name.
    Name(Seq<u8>),
}

/// Specifies a sink to connect a playback stream to.
///
/// Said sink might not exist (in which case a `NoEntity` error should be returned).
#[derive(Clone, Copy, Debug)]
pub enum SinkSpec<'a> {
    /// Sink index.
    ///
    /// PA specifies `u32::MAX` as an invalid index, which does not occur here.
    Index(u32),
    /// Named sink.
    Name(PaStr<'a>),
}

impl<'a> View for SinkSpec<'a> {
    type V = SinkSpecView;

    open spec fn view(&self) -> SinkSpecView {
        match *self {
            SinkSpec::Index(index) => SinkSpecView::Index(index),
            SinkSpec::Name(name) => SinkSpecView::Name(name@),
        }
    }
}

/// The first fields of the command as they stand on the wire, in their order.
pub struct PlaybackHead {
    pub sample_spec: SampleSpecView,
    pub channel_map: Seq<ChannelPosition>,
    pub sink_index: u32,
    pub sink_name: Option<Seq<u8>>,
    pub maxlength: u32,
    pub start_corked: bool,
    pub tlength: u32,
    pub prebuf: u32,
    pub minreq: u32,
    pub sync_id: u32,
    pub cvolume: Seq<u32>,
}

/// The fields that follow them at every protocol version, in their order.
pub struct PlaybackBody {
    pub no_remap_channels: bool,
    pub no_remix_channels: bool,
    pub fix_format: bool,
    pub fix_rate: bool,
    pub fix_channels: bool,
    pub dont_move: bool,
    pub variable_rate: bool,
    pub muted: bool,
    pub adjust_latency: bool,
    pub props: PropSeq,
}

/// The fields that later protocol versions added, in their order. A field that the version
/// does not know holds what stands for it: the volume counts as set, every flag as not set, and
/// the list of formats is empty.
pub struct PlaybackTail {
    /// Since version 14.
    pub volume_set: bool,
    /// Since version 14.
    pub early_requests: bool,
    /// Since version 15.
    pub muted_set: bool,
    /// Since version 15.
    pub dont_inhibit_auto_suspend: bool,
    /// Since version 15.
    pub fail_on_suspend: bool,
    /// Since version 17.
    pub relative_volume: bool,
    /// Since version 18.
    pub passthrough: bool,
    /// Since version 21.
    pub formats: Seq<FormatInfoView>,
}

/// Reads the first fields of the command.
pub open spec fn spec_read_head(c0: Cursor) -> (Cursor, PlaybackHead) {
    let (c1, sample_spec) = cursor_take(c0, spec_read_sample_spec(c0.rest));
    let (c2, channel_map) = cursor_take(c1, spec_read_channel_map(c1.rest));
    let (c3, sink_index) = cursor_take(c2, spec_read_u32(c2.rest));
    let (c4, sink_name) = cursor_take(c3, spec_read_string(c3.rest));
    let (c5, maxlength) = cursor_take(c4, spec_read_u32(c4.rest));
    let (c6, start_corked) = cursor_take(c5, spec_read_bool(c5.rest));
    let (c7, tlength) = cursor_take(c6, spec_read_u32(c6.rest));
    let (c8, prebuf) = cursor_take(c7, spec_read_u32(c7.rest));
    let (c9, minreq) = cursor_take(c8, spec_read_u32(c8.rest));
    let (c10, sync_id) = cursor_take(c9, spec_read_u32(c9.rest));
    let (c11, cvolume) = cursor_take(c10, spec_read_cvolume(c10.rest));
    (
        c11,
        PlaybackHead {
            sample_spec,
            channel_map,
            sink_index,
            sink_name,
            maxlength,
            start_corked,
            tlength,
            prebuf,
            minreq,
            sync_id,
            cvolume,
        },
    )
}

/// Reads the fields that follow the first ones at every protocol version.
pub open spec fn spec_read_body(c0: Cursor) -> (Cursor, PlaybackBody) {
    let (c1, no_remap_channels) = cursor_take(c0, spec_read_bool(c0.rest));
    let (c2, no_remix_channels) = cursor_take(c1, spec_read_bool(c1.rest));
    let (c3, fix_format) = cursor_take(c2, spec_read_bool(c2.rest));
    let (c4, fix_rate) = cursor_take(c3, spec_read_bool(c3.rest));
    let (c5, fix_channels) = cursor_take(c4, spec_read_bool(c4.rest));
    let (c6, dont_move) = cursor_take(c5, spec_read_bool(c5.rest));
    let (c7, variable_rate) = cursor_take(c6, spec_read_bool(c6.rest));
    let (c8, muted) = cursor_take(c7, spec_read_bool(c7.rest));
    let (c9, adjust_latency) = cursor_take(c8, spec_read_bool(c8.rest));
    let (c10, props) = cursor_take(c9, spec_read_proplist(c9.rest));
    (
        c10,
        PlaybackBody {
            no_remap_channels,
            no_remix_channels,
            fix_format,
            fix_rate,
            fix_channels,
            dont_move,
            variable_rate,
            muted,
            adjust_latency,
            props,
        },
    )
}

/// Reads a boolean that stands on the wire since version `since`, and is `default` before.
pub open spec fn spec_take_bool_since(
    c: Cursor,
    protocol_version: u16,
    since: u16,
    default: bool,
) -> (Cursor, bool) {
    if protocol_version >= since {
        cursor_take(c, spec_read_bool(c.rest))
    } else {
        (c, default)
    }
}

/// Reads the count of the formats and the formats, which stand on the wire since version 21.
pub open spec fn spec_take_formats(c: Cursor, protocol_version: u16) -> (
    Cursor,
    Seq<FormatInfoView>,
) {
    if protocol_version >= 21 {
        let (c1, count) = cursor_take(c, spec_read_u8(c.rest));
        cursor_take(c1, spec_read_formats(c1.rest, count as nat))
    } else {
        (c, Seq::empty())
    }
}

/// Reads the fields that later protocol versions added, as far as the version knows them.
pub open spec fn spec_read_tail(c0: Cursor, protocol_version: u16) -> (Cursor, PlaybackTail) {
    let (c1, volume_set) = spec_take_bool_since(c0, protocol_version, 14, true);
    let (c2, early_requests) = spec_take_bool_since(c1, protocol_version, 14, false);
    let (c3, muted_set) = spec_take_bool_since(c2, protocol_version, 15, false);
    let (c4, dont_inhibit_auto_suspend) = spec_take_bool_since(c3, protocol_version, 15, false);
    let (c5, fail_on_suspend) = spec_take_bool_since(c4, protocol_version, 15, false);
    let (c6, relative_volume) = spec_take_bool_since(c5, protocol_version, 17, false);
    let (c7, passthrough) = spec_take_bool_since(c6, protocol_version, 18, false);
    let (c8, formats) = spec_take_formats(c7, protocol_version);
    (
        c8,
        PlaybackTail {
            volume_set,
            early_requests,
            muted_set,
            dont_inhibit_auto_suspend,
            fail_on_suspend,
            relative_volume,
            passthrough,
            formats,
        },
    )
}

/// The flags of a stream that the booleans on the wire stand for.
pub open spec fn spec_wire_flags(head: PlaybackHead, body: PlaybackBody, tail: PlaybackTail) -> u32 {
    let f0 = spec_set_flags(0, StreamFlags::START_CORKED, head.start_corked);
    let f1 = spec_set_flags(f0, StreamFlags::NO_REMAP_CHANNELS, body.no_remap_channels);
    let f2 = spec_set_flags(f1, StreamFlags::NO_REMIX_CHANNELS, body.no_remix_channels);
    let f3 = spec_set_flags(f2, StreamFlags::FIX_FORMAT, body.fix_format);
    let f4 = spec_set_flags(f3, StreamFlags::FIX_RATE, body.fix_rate);
    let f5 = spec_set_flags(f4, StreamFlags::FIX_CHANNELS, body.fix_channels);
    let f6 = spec_set_flags(f5, StreamFlags::DONT_MOVE, body.dont_move);
    let f7 = spec_set_flags(f6, StreamFlags::VARIABLE_RATE, body.variable_rate);
    let f8 = spec_set_flags(f7, StreamFlags::ADJUST_LATENCY, body.adjust_latency);
    let f9 = spec_set_flags(f8, StreamFlags::EARLY_REQUESTS, tail.early_requests);
    let f10 = spec_set_flags(
        f9,
        StreamFlags::DONT_INHIBIT_AUTO_SUSPEND,
        tail.dont_inhibit_auto_suspend,
    );
    let f11 = spec_set_flags(f10, StreamFlags::FAIL_ON_SUSPEND, tail.fail_on_suspend);
    let f12 = spec_set_flags(f11, StreamFlags::RELATIVE_VOLUME, tail.relative_volume);
    spec_set_flags(f12, StreamFlags::PASSTHROUGH, tail.passthrough)
}

/// The sink that an index and a name select: neither selects the default sink, one of them the
/// sink it names, and both together are refused.
pub open spec fn spec_select_sink(sink_index: u32, sink_name: Option<Seq<u8>>) -> Result<
    Option<SinkSpecView>,
    ErrorKind,
> {
    match sink_name {
        None => if sink_index == INVALID_INDEX {
            Ok(None)
        } else {
            Ok(Some(SinkSpecView::Index(sink_index)))
        },
        Some(name) => if sink_index == INVALID_INDEX {
            Ok(Some(SinkSpecView::Name(name)))
        } else {
            Err(ErrorKind::SinkIndexAndName)
        },
    }
}

/// The mute preference: whether to start the stream muted or not, where that was set. Before
/// version 15 nothing tells whether it was set, and it counts as set where it is to mute.
pub open spec fn spec_mute_preference(muted: bool, muted_set: bool) -> Option<bool> {
    if muted_set || muted {
        Some(muted)
    } else {
        None
    }
}

/// What a `CreatePlaybackStream` command holds.
pub struct CreatePlaybackStreamView {
    pub sample_spec: SampleSpecView,
    pub channel_map: Seq<ChannelPosition>,
    /// The sink to connect the stream to, or `None` for the default sink.
    pub sink_spec: Option<SinkSpecView>,
    /// The buffer metrics that playback knows: `fragsize` is 0.
    pub buffer_attr: BufferAttr,
    /// The bits of the stream flags.
    pub stream_flags: u32,
    pub sync_id: u32,
    /// Whether to start the stream muted, or `None` for no preference.
    pub muted: Option<bool>,
    /// The raw volumes of the channels, or `None` where no volume is set.
    pub volume: Option<Seq<u32>>,
    pub stream_props: PropSeq,
    pub formats: Seq<FormatInfoView>,
}

/// The command that the fields on the wire stand for.
pub open spec fn spec_playback_from_wire(
    head: PlaybackHead,
    body: PlaybackBody,
    tail: PlaybackTail,
) -> Result<CreatePlaybackStreamView, ErrorKind> {
    match spec_select_sink(head.sink_index, head.sink_name) {
        Err(e) => Err(e),
        Ok(sink_spec) => Ok(
            CreatePlaybackStreamView {
                sample_spec: head.sample_spec,
                channel_map: head.channel_map,
                sink_spec,
                buffer_attr: BufferAttr {
                    maxlength: head.maxlength,
                    tlength: head.tlength,
                    prebuf: head.prebuf,
                    minreq: head.minreq,
                    fragsize: 0,
                },
                stream_flags: spec_wire_flags(head, body, tail),
                sync_id: head.sync_id,
                muted: spec_mute_preference(body.muted, tail.muted_set),
                volume: if tail.volume_set {
                    Some(head.cvolume)
                } else {
                    None
                },
                stream_props: body.props,
                formats: tail.formats,
            },
        ),
    }
}

/// Reads a `CreatePlaybackStream` command at a protocol version: all fields are read, then the
/// sink is selected.
pub open spec fn spec_read_playback(s: Seq<u8>, protocol_version: u16) -> Parsed<
    CreatePlaybackStreamView,
> {
    let (c1, head) = spec_read_head(cursor_start(s));
    let (c2, body) = spec_read_body(c1);
    let (c3, tail) = spec_read_tail(c2, protocol_version);
    match c3.failed {
        Some(e) => Err(e),
        None => match spec_playback_from_wire(head, body, tail) {
            Err(e) => Err(e),
            Ok(command) => Ok((command, c3.taken)),
        },
    }
}

/// Parameters for `CreatePlaybackStream` command.
#[derive(Debug)]
pub struct CreatePlaybackStream<'a> {
    /// Stream properties to set (such as the media name).
    stream_props: PropList,
    sample_spec: SampleSpec,
    channel_map: ChannelMap,
    stream_flags: StreamFlags,
    sink_spec: Option<SinkSpec<'a>>,
    /// Whether to start the stream in muted or unmuted state.
    ///
    /// `None` means no preference and the server should decide.
    muted: Option<bool>,
    /// Set the channel volumes.
    volume: Option<CVolume>,
    syncid: u32,
    buffer_attr: BufferAttr,
    /// The formats that the client offers. Their number fits in 8 bits.
    formats: Vec<FormatInfo>,
}

impl<'a> View for CreatePlaybackStream<'a> {
    type V = CreatePlaybackStreamView;

    closed spec fn view(&self) -> CreatePlaybackStreamView {
        CreatePlaybackStreamView {
            sample_spec: self.sample_spec@,
            channel_map: self.channel_map@,
            sink_spec: match self.sink_spec {
                Some(spec) => Some(spec@),
                None => None,
            },
            buffer_attr: self.buffer_attr,
            stream_flags: self.stream_flags@,
            sync_id: self.syncid,
            muted: self.muted,
            volume: match self.volume {
                Some(volume) => Some(volume@),
                None => None,
            },
            stream_props: self.stream_props@,
            formats: spec_format_views(self.formats@),
        }
    }
}

impl<'a> CreatePlaybackStream<'a> {
    #[verifier::type_invariant]
    spec fn well_formed(&self) -> bool {
        self.formats@.len() <= u8::MAX
    }

    pub fn stream_props(&self) -> (r: &PropList)
        ensures
            r@ == self@.stream_props,
    {
        &self.stream_props
    }

    pub fn stream_flags(&self) -> (r: StreamFlags)
        ensures
            r@ == self@.stream_flags,
    {
        self.stream_flags
    }

    pub fn sample_spec(&self) -> (r: &SampleSpec)
        ensures
            r@ == self@.sample_spec,
    {
        &self.sample_spec
    }

    pub fn channel_map(&self) -> (r: &ChannelMap)
        ensures
            r@ == self@.channel_map,
    {
        &self.channel_map
    }

    /// Get the sink specification.
    ///
    /// This tells the server which sink to connect the stream to. If `None`, the stream will be
    /// connected to the default sink.
    pub fn sink_spec(&self) -> (r: Option<&SinkSpec<'a>>)
        ensures
            match r {
                Some(spec) => self@.sink_spec == Some(spec@),
                None => self@.sink_spec is None,
            },
    {
        self.sink_spec.as_ref()
    }

    /// Get the stream mute preference.
    ///
    /// * `None`: No preference, let the server decide.
    /// * `Some(true)`: Create the stream in muted state.
    /// * `Some(false)`: Create the stream in unmuted state.
    pub fn muted(&self) -> (r: Option<bool>)
        ensures
            r == self@.muted,
    {
        self.muted
    }

    /// The volumes of the channels, where a volume is set.
    pub fn volume(&self) -> (r: Option<&CVolume>)
        ensures
            match r {
                Some(volume) => self@.volume == Some(volume@),
                None => self@.volume is None,
            },
    {
        self.volume.as_ref()
    }

    /// Get the specified sync ID group.
    ///
    /// All streams with the same sync ID are synced with each other. They all have the same sink.
    pub fn sync_id(&self) -> (r: u32)
        ensures
            r == self@.sync_id,
    {
        self.syncid
    }

    /// The buffer metrics that the client asks for.
    pub fn buffer_attr(&self) -> (r: BufferAttr)
        ensures
            r == self@.buffer_attr,
    {
        self.buffer_attr
    }

    /// The formats that the client offers.
    pub fn formats(&self) -> (r: &[FormatInfo])
        ensures
            spec_format_views(r@) == self@.formats,
            r@.len() <= u8::MAX,
    {
        proof {
            use_type_invariant(self);
        }
        self.formats.as_slice()
    }
}

/// Reads `count` format infos.
#[verifier::loop_isolation(false)]
#[verifier::rlimit(40)]
fn read_formats<'a>(ts: &mut TagStructReader<'a>, count: u8) -> (r: Result<Vec<FormatInfo>, Error>)
    ensures
        final(ts).data() == old(ts).data(),
        match spec_read_formats(old(ts).remaining(), count as nat) {
            Ok((v, n)) => r matches Ok(x) && spec_format_views(x@) == v && x@.len() == count
                && final(ts).advanced(old(ts), n),
            Err(k) => r matches Err(e) && e.kind == k,
        },
{
    let ghost start = *ts;
    let mut formats: Vec<FormatInfo> = Vec::new();
    let mut i: u8 = 0;
    proof {
        start.lemma_advanced_zero();
        if let Ok((rest, m)) = spec_read_formats(start.remaining(), count as nat) {
            assert(spec_format_views(formats@) + rest =~= rest);
        }
    }
    while i < count
        invariant
            0 <= i <= count,
            formats@.len() == i,
            ts.advanced(&start, ts.position() - start.position()),
            spec_read_formats(start.remaining(), count as nat) == match spec_read_formats(
                ts.remaining(),
                (count - i) as nat,
            ) {
                Ok((rest, m)) => Ok::<(Seq<FormatInfoView>, int), ErrorKind>(
                    (spec_format_views(formats@) + rest, ts.position() - start.position() + m),
                ),
                Err(e) => Err(e),
            },
        decreases count - i,
    {
        let ghost here = *ts;
        let ghost read_before = spec_format_views(formats@);
        let format = match ts.read_format_info() {
            Ok(format) => format,
            Err(e) => {
                return Err(e);
            },
        };
        let ghost f = format@;
        formats.push(format);
        proof {
            ts.lemma_advanced_chain(&start, &here);
            assert(spec_format_views(formats@) =~= read_before.push(f));
            if let Ok((rest, m)) = spec_read_formats(ts.remaining(), (count - i - 1) as nat) {
                assert(read_before + (seq![f] + rest) =~= spec_format_views(formats@) + rest);
            }
        }
        i = i + 1;
    }
    proof {
        assert(spec_format_views(formats@) + Seq::<FormatInfoView>::empty() =~= spec_format_views(
            formats@,
        ));
    }
    Ok(formats)
}

/// The first fields of the command as they were read.
struct HeadFields<'a> {
    sample_spec: SampleSpec,
    channel_map: ChannelMap,
    sink_index: u32,
    sink_name: Option<PaStr<'a>>,
    maxlength: u32,
    start_corked: bool,
    tlength: u32,
    prebuf: u32,
    minreq: u32,
    sync_id: u32,
    cvolume: CVolume,
}

impl<'a> View for HeadFields<'a> {
    type V = PlaybackHead;

    closed spec fn view(&self) -> PlaybackHead {
        PlaybackHead {
            sample_spec: self.sample_spec@,
            channel_map: self.channel_map@,
            sink_index: self.sink_index,
            sink_name: match self.sink_name {
                Some(name) => Some(name@),
                None => None,
            },
            maxlength: self.maxlength,
            start_corked: self.start_corked,
            tlength: self.tlength,
            prebuf: self.prebuf,
            minreq: self.minreq,
            sync_id: self.sync_id,
            cvolume: self.cvolume@,
        }
    }
}

/// The fields that follow at every protocol version as they were read.
struct BodyFields {
    no_remap_channels: bool,
    no_remix_channels: bool,
    fix_format: bool,
    fix_rate: bool,
    fix_channels: bool,
    dont_move: bool,
    variable_rate: bool,
    muted: bool,
    adjust_latency: bool,
    props: PropList,
}

impl View for BodyFields {
    type V = PlaybackBody;

    closed spec fn view(&self) -> PlaybackBody {
        PlaybackBody {
            no_remap_channels: self.no_remap_channels,
            no_remix_channels: self.no_remix_channels,
            fix_format: self.fix_format,
            fix_rate: self.fix_rate,
            fix_channels: self.fix_channels,
            dont_move: self.dont_move,
            variable_rate: self.variable_rate,
            muted: self.muted,
            adjust_latency: self.adjust_latency,
            props: self.props@,
        }
    }
}

/// The fields that later protocol versions added as they were read.
struct TailFields {
    volume_set: bool,
    early_requests: bool,
    muted_set: bool,
    dont_inhibit_auto_suspend: bool,
    fail_on_suspend: bool,
    relative_volume: bool,
    passthrough: bool,
    formats: Vec<FormatInfo>,
}

impl View for TailFields {
    type V = PlaybackTail;

    closed spec fn view(&self) -> PlaybackTail {
        PlaybackTail {
            volume_set: self.volume_set,
            early_requests: self.early_requests,
            muted_set: self.muted_set,
            dont_inhibit_auto_suspend: self.dont_inhibit_auto_suspend,
            fail_on_suspend: self.fail_on_suspend,
            relative_volume: self.relative_volume,
            passthrough: self.passthrough,
            formats: spec_format_views(self.formats@),
        }
    }
}

/// Reads the first fields of the command.
#[verifier::rlimit(30)]
fn read_head<'a>(ts: &mut TagStructReader<'a>, Ghost(c0): Ghost<Cursor>) -> (r: Result<HeadFields<'a>, Error>)
    requires
        c0.failed is None,
        c0.rest == old(ts).remaining(),
    ensures
        final(ts).data() == old(ts).data(),
        match spec_read_head(c0).0.failed {
            Some(k) => r matches Err(e) && e.kind == k,
            None => r matches Ok(x) && x@ == spec_read_head(c0).1 && final(ts).advanced(
                old(ts),
                spec_read_head(c0).0.taken - c0.taken,
            ) && spec_read_head(c0).0.rest == final(ts).remaining(),
        },
{
    let ghost start = *ts;
    let ghost here0 = *ts;
    proof {
        start.lemma_advanced_zero();
    }
    let ghost c1 = cursor_take(c0, spec_read_sample_spec(c0.rest)).0;
    let sample_spec = match ts.read_sample_spec() {
        Ok(v) => v,
        Err(e) => {
            assert(c1.failed == Some(e.kind));
            assert(spec_read_head(c0).0.failed == Some(e.kind));
            return Err(e);
        },
    };
    proof {
        ts.lemma_advanced_chain(&start, &here0);
        assert(c1.failed is None && c1.rest == ts.remaining() && c1.taken - c0.taken
            == ts.position() - start.position());
    }
    let ghost here1 = *ts;
    let ghost c2 = cursor_take(c1, spec_read_channel_map(c1.rest)).0;
    let channel_map = match ts.read_channel_map() {
        Ok(v) => v,
        Err(e) => {
            assert(c2.failed == Some(e.kind));
            assert(spec_read_head(c0).0.failed == Some(e.kind));
            return Err(e);
        },
    };
    proof {
        ts.lemma_advanced_chain(&start, &here1);
        assert(c2.failed is None && c2.rest == ts.remaining() && c2.taken - c0.taken
            == ts.position() - start.position());
    }
    let ghost here2 = *ts;
    let ghost c3 = cursor_take(c2, spec_read_u32(c2.rest)).0;
    let sink_index = match ts.read_u32() {
        Ok(v) => v,
        Err(e) => {
            assert(c3.failed == Some(e.kind));
            assert(spec_read_head(c0).0.failed == Some(e.kind));
            return Err(e);
        },
    };
    proof {
        ts.lemma_advanced_chain(&start, &here2);
        assert(c3.failed is None && c3.rest == ts.remaining() && c3.taken - c0.taken
            == ts.position() - start.position());
    }
    let ghost here3 = *ts;
    let ghost c4 = cursor_take(c3, spec_read_string(c3.rest)).0;
    let sink_name = match ts.read_string() {
        Ok(v) => v,
        Err(e) => {
            assert(c4.failed == Some(e.kind));
            assert(spec_read_head(c0).0.failed == Some(e.kind));
            return Err(e);
        },
    };
    proof {
        ts.lemma_advanced_chain(&start, &here3);
        assert(c4.failed is None && c4.rest == ts.remaining() && c4.taken - c0.taken
            == ts.position() - start.position());
    }
    let ghost here4 = *ts;
    let ghost c5 = cursor_take(c4, spec_read_u32(c4.rest)).0;
    let maxlength = match ts.read_u32() {
        Ok(v) => v,
        Err(e) => {
            assert(c5.failed == Some(e.kind));
            assert(spec_read_head(c0).0.failed == Some(e.kind));
            return Err(e);
        },
    };
    proof {
        ts.lemma_advanced_chain(&start, &here4);
        assert(c5.failed is None && c5.rest == ts.remaining() && c5.taken - c0.taken
            == ts.position() - start.position());
    }
    let ghost here5 = *ts;
    let ghost c6 = cursor_take(c5, spec_read_bool(c5.rest)).0;
    let start_corked = match ts.read_bool() {
        Ok(v) => v,
        Err(e) => {
            assert(c6.failed == Some(e.kind));
            assert(spec_read_head(c0).0.failed == Some(e.kind));
            return Err(e);
        },
    };
    proof {
        ts.lemma_advanced_chain(&start, &here5);
        assert(c6.failed is None && c6.rest == ts.remaining() && c6.taken - c0.taken
            == ts.position() - start.position());
    }
    let ghost here6 = *ts;
    let ghost c7 = cursor_take(c6, spec_read_u32(c6.rest)).0;
    let tlength = match ts.read_u32() {
        Ok(v) => v,
        Err(e) => {
            assert(c7.failed == Some(e.kind));
            assert(spec_read_head(c0).0.failed == Some(e.kind));
            return Err(e);
        },
    };
    proof {
        ts.lemma_advanced_chain(&start, &here6);
        assert(c7.failed is None && c7.rest == ts.remaining() && c7.taken - c0.taken
            == ts.position() - start.position());
    }
    let ghost here7 = *ts;
    let ghost c8 = cursor_take(c7, spec_read_u32(c7.rest)).0;
    let prebuf = match ts.read_u32() {
        Ok(v) => v,
        Err(e) => {
            assert(c8.failed == Some(e.kind));
            assert(spec_read_head(c0).0.failed == Some(e.kind));
            return Err(e);
        },
    };
    proof {
        ts.lemma_advanced_chain(&start, &here7);
        assert(c8.failed is None && c8.rest == ts.remaining() && c8.taken - c0.taken
            == ts.position() - start.position());
    }
    let ghost here8 = *ts;
    let ghost c9 = cursor_take(c8, spec_read_u32(c8.rest)).0;
    let minreq = match ts.read_u32() {
        Ok(v) => v,
        Err(e) => {
            assert(c9.failed == Some(e.kind));
            assert(spec_read_head(c0).0.failed == Some(e.kind));
            return Err(e);
        },
    };
    proof {
        ts.lemma_advanced_chain(&start, &here8);
        assert(c9.failed is None && c9.rest == ts.remaining() && c9.taken - c0.taken
            == ts.position() - start.position());
    }
    let ghost here9 = *ts;
    let ghost c10 = cursor_take(c9, spec_read_u32(c9.rest)).0;
    let sync_id = match ts.read_u32() {
        Ok(v) => v,
        Err(e) => {
            assert(c10.failed == Some(e.kind));
            assert(spec_read_head(c0).0.failed == Some(e.kind));
            return Err(e);
        },
    };
    proof {
        ts.lemma_advanced_chain(&start, &here9);
        assert(c10.failed is None && c10.rest == ts.remaining() && c10.taken - c0.taken
            == ts.position() - start.position());
    }
    let ghost here10 = *ts;
    let ghost c11 = cursor_take(c10, spec_read_cvolume(c10.rest)).0;
    let cvolume = match ts.read_cvolume() {
        Ok(v) => v,
        Err(e) => {
            assert(c11.failed == Some(e.kind));
            assert(spec_read_head(c0).0.failed == Some(e.kind));
            return Err(e);
        },
    };
    proof {
        ts.lemma_advanced_chain(&start, &here10);
        assert(c11.failed is None && c11.rest == ts.remaining() && c11.taken - c0.taken
            == ts.position() - start.position());
    }
    let ghost here11 = *ts;
    proof {
        assert(spec_read_head(c0).0 == c11);
    }
    Ok(
        HeadFields {
            sample_spec,
            channel_map,
            sink_index,
            sink_name,
            maxlength,
            start_corked,
            tlength,
            prebuf,
            minreq,
            sync_id,
            cvolume,
        },
    )
}

/// Reads the fields that follow the first ones at every protocol version.
#[verifier::rlimit(30)]
fn read_body<'a>(ts: &mut TagStructReader<'a>, Ghost(c0): Ghost<Cursor>) -> (r: Result<BodyFields, Error>)
    requires
        c0.failed is None,
        c0.rest == old(ts).remaining(),
    ensures
        final(ts).data() == old(ts).data(),
        match spec_read_body(c0).0.failed {
            Some(k) => r matches Err(e) && e.kind == k,
            None => r matches Ok(x) && x@ == spec_read_body(c0).1 && final(ts).advanced(
                old(ts),
                spec_read_body(c0).0.taken - c0.taken,
            ) && spec_read_body(c0).0.rest == final(ts).remaining(),
        },
{
    let ghost start = *ts;
    let ghost here0 = *ts;
    proof {
        start.lemma_advanced_zero();
    }
    let ghost c1 = cursor_take(c0, spec_read_bool(c0.rest)).0;
    let no_remap_channels = match ts.read_bool() {
        Ok(v) => v,
        Err(e) => {
            assert(c1.failed == Some(e.kind));
            assert(spec_read_body(c0).0.failed == Some(e.kind));
            return Err(e);
        },
    };
    proof {
        ts.lemma_advanced_chain(&start, &here0);
        assert(c1.failed is None && c1.rest == ts.remaining() && c1.taken - c0.taken
            == ts.position() - start.position());
    }
    let ghost here1 = *ts;
    let ghost c2 = cursor_take(c1, spec_read_bool(c1.rest)).0;
    let no_remix_channels = match ts.read_bool() {
        Ok(v) => v,
        Err(e) => {
            assert(c2.failed == Some(e.kind));
            assert(spec_read_body(c0).0.failed == Some(e.kind));
            return Err(e);
        },
    };
    proof {
        ts.lemma_advanced_chain(&start, &here1);
        assert(c2.failed is None && c2.rest == ts.remaining() && c2.taken - c0.taken
            == ts.position() - start.position());
    }
    let ghost here2 = *ts;
    let ghost c3 = cursor_take(c2, spec_read_bool(c2.rest)).0;
    let fix_format = match ts.read_bool() {
        Ok(v) => v,
        Err(e) => {
            assert(c3.failed == Some(e.kind));
            assert(spec_read_body(c0).0.failed == Some(e.kind));
            return Err(e);
        },
    };
    proof {
        ts.lemma_advanced_chain(&start, &here2);
        assert(c3.failed is None && c3.rest == ts.remaining() && c3.taken - c0.taken
            == ts.position() - start.position());
    }
    let ghost here3 = *ts;
    let ghost c4 = cursor_take(c3, spec_read_bool(c3.rest)).0;
    let fix_rate = match ts.read_bool() {
        Ok(v) => v,
        Err(e) => {
            assert(c4.failed == Some(e.kind));
            assert(spec_read_body(c0).0.failed == Some(e.kind));
            return Err(e);
        },
    };
    proof {
        ts.lemma_advanced_chain(&start, &here3);
        assert(c4.failed is None && c4.rest == ts.remaining() && c4.taken - c0.taken
            == ts.position() - start.position());
    }
    let ghost here4 = *ts;
    let ghost c5 = cursor_take(c4, spec_read_bool(c4.rest)).0;
    let fix_channels = match ts.read_bool() {
        Ok(v) => v,
        Err(e) => {
            assert(c5.failed == Some(e.kind));
            assert(spec_read_body(c0).0.failed == Some(e.kind));
            return Err(e);
        },
    };
    proof {
        ts.lemma_advanced_chain(&start, &here4);
        assert(c5.failed is None && c5.rest == ts.remaining() && c5.taken - c0.taken
            == ts.position() - start.position());
    }
    let ghost here5 = *ts;
    let ghost c6 = cursor_take(c5, spec_read_bool(c5.rest)).0;
    let dont_move = match ts.read_bool() {
        Ok(v) => v,
        Err(e) => {
            assert(c6.failed == Some(e.kind));
            assert(spec_read_body(c0).0.failed == Some(e.kind));
            return Err(e);
        },
    };
    proof {
        ts.lemma_advanced_chain(&start, &here5);
        assert(c6.failed is None && c6.rest == ts.remaining() && c6.taken - c0.taken
            == ts.position() - start.position());
    }
    let ghost here6 = *ts;
    let ghost c7 = cursor_take(c6, spec_read_bool(c6.rest)).0;
    let variable_rate = match ts.read_bool() {
        Ok(v) => v,
        Err(e) => {
            assert(c7.failed == Some(e.kind));
            assert(spec_read_body(c0).0.failed == Some(e.kind));
            return Err(e);
        },
    };
    proof {
        ts.lemma_advanced_chain(&start, &here6);
        assert(c7.failed is None && c7.rest == ts.remaining() && c7.taken - c0.taken
            == ts.position() - start.position());
    }
    let ghost here7 = *ts;
    let ghost c8 = cursor_take(c7, spec_read_bool(c7.rest)).0;
    let muted = match ts.read_bool() {
        Ok(v) => v,
        Err(e) => {
            assert(c8.failed == Some(e.kind));
            assert(spec_read_body(c0).0.failed == Some(e.kind));
            return Err(e);
        },
    };
    proof {
        ts.lemma_advanced_chain(&start, &here7);
        assert(c8.failed is None && c8.rest == ts.remaining() && c8.taken - c0.taken
            == ts.position() - start.position());
    }
    let ghost here8 = *ts;
    let ghost c9 = cursor_take(c8, spec_read_bool(c8.rest)).0;
    let adjust_latency = match ts.read_bool() {
        Ok(v) => v,
        Err(e) => {
            assert(c9.failed == Some(e.kind));
            assert(spec_read_body(c0).0.failed == Some(e.kind));
            return Err(e);
        },
    };
    proof {
        ts.lemma_advanced_chain(&start, &here8);
        assert(c9.failed is None && c9.rest == ts.remaining() && c9.taken - c0.taken
            == ts.position() - start.position());
    }
    let ghost here9 = *ts;
    let ghost c10 = cursor_take(c9, spec_read_proplist(c9.rest)).0;
    let props = match ts.read_proplist() {
        Ok(v) => v,
        Err(e) => {
            assert(c10.failed == Some(e.kind));
            assert(spec_read_body(c0).0.failed == Some(e.kind));
            return Err(e);
        },
    };
    proof {
        ts.lemma_advanced_chain(&start, &here9);
        assert(c10.failed is None && c10.rest == ts.remaining() && c10.taken - c0.taken
            == ts.position() - start.position());
    }
    let ghost here10 = *ts;
    proof {
        assert(spec_read_body(c0).0 == c10);
    }
    Ok(
        BodyFields {
            no_remap_channels,
            no_remix_channels,
            fix_format,
            fix_rate,
            fix_channels,
            dont_move,
            variable_rate,
            muted,
            adjust_latency,
            props,
        },
    )
}

/// Reads a boolean that stands on the wire since version `since`, and is `default` before.
fn take_bool_since<'a>(
    ts: &mut TagStructReader<'a>,
    protocol_version: u16,
    since: u16,
    default: bool,
    Ghost(c0): Ghost<Cursor>,
) -> (r: Result<bool, Error>)
    requires
        c0.failed is None,
        c0.rest == old(ts).remaining(),
    ensures
        final(ts).data() == old(ts).data(),
        match spec_take_bool_since(c0, protocol_version, since, default).0.failed {
            Some(k) => r matches Err(e) && e.kind == k,
            None => r matches Ok(x) && x == spec_take_bool_since(
                c0,
                protocol_version,
                since,
                default,
            ).1 && final(ts).advanced(
                old(ts),
                spec_take_bool_since(c0, protocol_version, since, default).0.taken - c0.taken,
            ) && spec_take_bool_since(c0, protocol_version, since, default).0.rest == final(ts).remaining(),
        },
{
    proof {
        ts.lemma_advanced_zero();
    }
    if protocol_version >= since {
        ts.read_bool()
    } else {
        Ok(default)
    }
}

/// Reads the count of the formats and the formats, which stand on the wire since version 21.
#[verifier::rlimit(40)]
fn take_formats<'a>(ts: &mut TagStructReader<'a>, protocol_version: u16, Ghost(c0): Ghost<Cursor>) -> (r:
    Result<Vec<FormatInfo>, Error>)
    requires
        c0.failed is None,
        c0.rest == old(ts).remaining(),
    ensures
        final(ts).data() == old(ts).data(),
        match spec_take_formats(c0, protocol_version).0.failed {
            Some(k) => r matches Err(e) && e.kind == k,
            None => r matches Ok(x) && spec_format_views(x@) == spec_take_formats(
                c0,
                protocol_version,
            ).1 && x@.len() <= u8::MAX && final(ts).advanced(
                old(ts),
                spec_take_formats(c0, protocol_version).0.taken - c0.taken,
            ) && spec_take_formats(c0, protocol_version).0.rest == final(ts).remaining(),
        },
{
    let ghost start = *ts;
    proof {
        ts.lemma_advanced_zero();
    }
    if protocol_version >= 21 {
        let count = match ts.read_u8() {
            Ok(count) => count,
            Err(e) => {
                return Err(e);
            },
        };
        let ghost behind_count = *ts;
        let formats = match read_formats(ts, count) {
            Ok(formats) => formats,
            Err(e) => {
                return Err(e);
            },
        };
        proof {
            ts.lemma_advanced_chain(&start, &behind_count);
        }
        Ok(formats)
    } else {
        let formats: Vec<FormatInfo> = Vec::new();
        proof {
            assert(spec_format_views(formats@) =~= Seq::<FormatInfoView>::empty());
        }
        Ok(formats)
    }
}

/// Reads the fields that later protocol versions added, as far as the version knows them.
#[verifier::rlimit(30)]
fn read_tail<'a>(ts: &mut TagStructReader<'a>, protocol_version: u16, Ghost(c0): Ghost<Cursor>) -> (r:
    Result<TailFields, Error>)
    requires
        c0.failed is None,
        c0.rest == old(ts).remaining(),
    ensures
        final(ts).data() == old(ts).data(),
        match spec_read_tail(c0, protocol_version).0.failed {
            Some(k) => r matches Err(e) && e.kind == k,
            None => r matches Ok(x) && x@ == spec_read_tail(c0, protocol_version).1 && x.formats@.len()
                <= u8::MAX && final(ts).advanced(
                old(ts),
                spec_read_tail(c0, protocol_version).0.taken - c0.taken,
            ) && spec_read_tail(c0, protocol_version).0.rest == final(ts).remaining(),
        },
{
    let ghost start = *ts;
    let ghost here0 = *ts;
    proof {
        start.lemma_advanced_zero();
    }
    let ghost c1 = spec_take_bool_since(c0, protocol_version, 14, true).0;
    proof {
        lemma_sticky_bool(c0, protocol_version, 14, true);
    }
    let volume_set = match take_bool_since(ts, protocol_version, 14, true, Ghost(c0)) {
        Ok(v) => v,
        Err(e) => {
            assert(c1.failed == Some(e.kind));
            proof {
                lemma_tail_failed(c0, protocol_version, 1);
            }
            return Err(e);
        },
    };
    proof {
        ts.lemma_advanced_chain(&start, &here0);
        assert(c1.failed is None && c1.rest == ts.remaining() && c1.taken - c0.taken
            == ts.position() - start.position());
    }
    let ghost here1 = *ts;
    let ghost c2 = spec_take_bool_since(c1, protocol_version, 14, false).0;
    proof {
        lemma_sticky_bool(c1, protocol_version, 14, false);
    }
    let early_requests = match take_bool_since(ts, protocol_version, 14, false, Ghost(c1)) {
        Ok(v) => v,
        Err(e) => {
            assert(c2.failed == Some(e.kind));
            proof {
                lemma_tail_failed(c0, protocol_version, 2);
            }
            return Err(e);
        },
    };
    proof {
        ts.lemma_advanced_chain(&start, &here1);
        assert(c2.failed is None && c2.rest == ts.remaining() && c2.taken - c0.taken
            == ts.position() - start.position());
    }
    let ghost here2 = *ts;
    let ghost c3 = spec_take_bool_since(c2, protocol_version, 15, false).0;
    proof {
        lemma_sticky_bool(c2, protocol_version, 15, false);
    }
    let muted_set = match take_bool_since(ts, protocol_version, 15, false, Ghost(c2)) {
        Ok(v) => v,
        Err(e) => {
            assert(c3.failed == Some(e.kind));
            proof {
                lemma_tail_failed(c0, protocol_version, 3);
            }
            return Err(e);
        },
    };
    proof {
        ts.lemma_advanced_chain(&start, &here2);
        assert(c3.failed is None && c3.rest == ts.remaining() && c3.taken - c0.taken
            == ts.position() - start.position());
    }
    let ghost here3 = *ts;
    let ghost c4 = spec_take_bool_since(c3, protocol_version, 15, false).0;
    proof {
        lemma_sticky_bool(c3, protocol_version, 15, false);
    }
    let dont_inhibit_auto_suspend = match take_bool_since(ts, protocol_version, 15, false, Ghost(c3)) {
        Ok(v) => v,
        Err(e) => {
            assert(c4.failed == Some(e.kind));
            proof {
                lemma_tail_failed(c0, protocol_version, 4);
            }
            return Err(e);
        },
    };
    proof {
        ts.lemma_advanced_chain(&start, &here3);
        assert(c4.failed is None && c4.rest == ts.remaining() && c4.taken - c0.taken
            == ts.position() - start.position());
    }
    let ghost here4 = *ts;
    let ghost c5 = spec_take_bool_since(c4, protocol_version, 15, false).0;
    proof {
        lemma_sticky_bool(c4, protocol_version, 15, false);
    }
    let fail_on_suspend = match take_bool_since(ts, protocol_version, 15, false, Ghost(c4)) {
        Ok(v) => v,
        Err(e) => {
            assert(c5.failed == Some(e.kind));
            proof {
                lemma_tail_failed(c0, protocol_version, 5);
            }
            return Err(e);
        },
    };
    proof {
        ts.lemma_advanced_chain(&start, &here4);
        assert(c5.failed is None && c5.rest == ts.remaining() && c5.taken - c0.taken
            == ts.position() - start.position());
    }
    let ghost here5 = *ts;
    let ghost c6 = spec_take_bool_since(c5, protocol_version, 17, false).0;
    proof {
        lemma_sticky_bool(c5, protocol_version, 17, false);
    }
    let relative_volume = match take_bool_since(ts, protocol_version, 17, false, Ghost(c5)) {
        Ok(v) => v,
        Err(e) => {
            assert(c6.failed == Some(e.kind));
            proof {
                lemma_tail_failed(c0, protocol_version, 6);
            }
            return Err(e);
        },
    };
    proof {
        ts.lemma_advanced_chain(&start, &here5);
        assert(c6.failed is None && c6.rest == ts.remaining() && c6.taken - c0.taken
            == ts.position() - start.position());
    }
    let ghost here6 = *ts;
    let ghost c7 = spec_take_bool_since(c6, protocol_version, 18, false).0;
    proof {
        lemma_sticky_bool(c6, protocol_version, 18, false);
    }
    let passthrough = match take_bool_since(ts, protocol_version, 18, false, Ghost(c6)) {
        Ok(v) => v,
        Err(e) => {
            assert(c7.failed == Some(e.kind));
            proof {
                lemma_tail_failed(c0, protocol_version, 7);
            }
            return Err(e);
        },
    };
    proof {
        ts.lemma_advanced_chain(&start, &here6);
        assert(c7.failed is None && c7.rest == ts.remaining() && c7.taken - c0.taken
            == ts.position() - start.position());
    }
    let ghost here7 = *ts;
    let ghost c8 = spec_take_formats(c7, protocol_version).0;
    let formats = match take_formats(ts, protocol_version, Ghost(c7)) {
        Ok(v) => v,
        Err(e) => {
            assert(c8.failed == Some(e.kind));
            return Err(e);
        },
    };
    proof {
        ts.lemma_advanced_chain(&start, &here7);
        assert(spec_read_tail(c0, protocol_version).0 == c8);
    }
    Ok(
        TailFields {
            volume_set,
            early_requests,
            muted_set,
            dont_inhibit_auto_suspend,
            fail_on_suspend,
            relative_volume,
            passthrough,
            formats,
        },
    )
}

/// The cursor behind the first `n` of the fields that later protocol versions added.
pub open spec fn spec_tail_cursor(c0: Cursor, protocol_version: u16, n: int) -> Cursor {
    let c1 = spec_take_bool_since(c0, protocol_version, 14, true).0;
    let c2 = spec_take_bool_since(c1, protocol_version, 14, false).0;
    let c3 = spec_take_bool_since(c2, protocol_version, 15, false).0;
    let c4 = spec_take_bool_since(c3, protocol_version, 15, false).0;
    let c5 = spec_take_bool_since(c4, protocol_version, 15, false).0;
    let c6 = spec_take_bool_since(c5, protocol_version, 17, false).0;
    let c7 = spec_take_bool_since(c6, protocol_version, 18, false).0;
    if n == 1 {
        c1
    } else if n == 2 {
        c2
    } else if n == 3 {
        c3
    } else if n == 4 {
        c4
    } else if n == 5 {
        c5
    } else if n == 6 {
        c6
    } else {
        c7
    }
}

/// A failure stays a failure when a boolean is read behind it.
pub proof fn lemma_sticky_bool(c: Cursor, protocol_version: u16, since: u16, default: bool)
    ensures
        c.failed is Some ==> spec_take_bool_since(c, protocol_version, since, default).0 == c,
        c.failed is Some ==> spec_take_formats(c, protocol_version).0.failed == c.failed,
{
}

/// Where reading one of the fields that later protocol versions added fails, reading all of
/// them fails for the same reason.
pub proof fn lemma_tail_failed(c0: Cursor, protocol_version: u16, n: int)
    requires
        1 <= n <= 7,
        spec_tail_cursor(c0, protocol_version, n).failed is Some,
    ensures
        spec_read_tail(c0, protocol_version).0.failed == spec_tail_cursor(
            c0,
            protocol_version,
            n,
        ).failed,
{
    let c1 = spec_take_bool_since(c0, protocol_version, 14, true).0;
    let c2 = spec_take_bool_since(c1, protocol_version, 14, false).0;
    let c3 = spec_take_bool_since(c2, protocol_version, 15, false).0;
    let c4 = spec_take_bool_since(c3, protocol_version, 15, false).0;
    let c5 = spec_take_bool_since(c4, protocol_version, 15, false).0;
    let c6 = spec_take_bool_since(c5, protocol_version, 17, false).0;
    let c7 = spec_take_bool_since(c6, protocol_version, 18, false).0;
    lemma_sticky_bool(c1, protocol_version, 14, false);
    lemma_sticky_bool(c2, protocol_version, 15, false);
    lemma_sticky_bool(c3, protocol_version, 15, false);
    lemma_sticky_bool(c4, protocol_version, 15, false);
    lemma_sticky_bool(c5, protocol_version, 17, false);
    lemma_sticky_bool(c6, protocol_version, 18, false);
    lemma_sticky_bool(c7, protocol_version, 18, false);
}

/// Selects the sink that an index and a name stand for.
fn select_sink<'a>(sink_index: u32, sink_name: Option<PaStr<'a>>) -> (r: Result<
    Option<SinkSpec<'a>>,
    Error,
>)
    ensures
        match spec_select_sink(
            sink_index,
            match sink_name {
                Some(name) => Some(name@),
                None => None,
            },
        ) {
            Ok(Some(spec)) => r matches Ok(Some(x)) && x@ == spec,
            Ok(None) => r matches Ok(None),
            Err(k) => r matches Err(e) && e.kind == k,
        },
{
    match sink_name {
        None => {
            if sink_index == INVALID_INDEX {
                // default sink
                Ok(None)
            } else {
                Ok(Some(SinkSpec::Index(sink_index)))
            }
        },
        Some(name) => {
            if sink_index == INVALID_INDEX {
                Ok(Some(SinkSpec::Name(name)))
            } else {
                // PA rejects this as well
                Err(Error::new(ErrorKind::SinkIndexAndName))
            }
        },
    }
}

/// Collects the flags of a stream from the booleans on the wire.
fn wire_flags(head: &HeadFields<'_>, body: &BodyFields, tail: &TailFields) -> (flags: StreamFlags)
    ensures
        flags@ == spec_wire_flags(head@, body@, tail@),
{
    let mut flags = StreamFlags::empty();
    flags.set(StreamFlags::START_CORKED, head.start_corked);
    flags.set(StreamFlags::NO_REMAP_CHANNELS, body.no_remap_channels);
    flags.set(StreamFlags::NO_REMIX_CHANNELS, body.no_remix_channels);
    flags.set(StreamFlags::FIX_FORMAT, body.fix_format);
    flags.set(StreamFlags::FIX_RATE, body.fix_rate);
    flags.set(StreamFlags::FIX_CHANNELS, body.fix_channels);
    flags.set(StreamFlags::DONT_MOVE, body.dont_move);
    flags.set(StreamFlags::VARIABLE_RATE, body.variable_rate);
    flags.set(StreamFlags::ADJUST_LATENCY, body.adjust_latency);
    flags.set(StreamFlags::EARLY_REQUESTS, tail.early_requests);
    flags.set(StreamFlags::DONT_INHIBIT_AUTO_SUSPEND, tail.dont_inhibit_auto_suspend);
    flags.set(StreamFlags::FAIL_ON_SUSPEND, tail.fail_on_suspend);
    flags.set(StreamFlags::RELATIVE_VOLUME, tail.relative_volume);
    flags.set(StreamFlags::PASSTHROUGH, tail.passthrough);
    flags
}

impl<'a> FromTagStruct<'a> for CreatePlaybackStream<'a> {
    open spec fn spec_from_tag_struct(s: Seq<u8>, protocol_version: u16) -> Parsed<
        CreatePlaybackStreamView,
    > {
        spec_read_playback(s, protocol_version)
    }

    /// This one contains a *lot* of stuff, and many flags that were added over time.
    fn from_tag_struct(ts: &mut TagStructReader<'a>, protocol_version: u16) -> (r: Result<
        Self,
        Error,
    >) {
        let ghost start = *ts;
        let ghost c0 = cursor_start(ts.remaining());
        let ghost c1 = spec_read_head(c0).0;
        let ghost c2 = spec_read_body(c1).0;
        let head = match read_head(ts, Ghost(c0)) {
            Ok(head) => head,
            Err(e) => {
                return Err(e);
            },
        };
        let ghost behind_head = *ts;
        let body = match read_body(ts, Ghost(c1)) {
            Ok(body) => body,
            Err(e) => {
                return Err(e);
            },
        };
        proof {
            ts.lemma_advanced_chain(&start, &behind_head);
        }
        let ghost behind_body = *ts;
        let tail = match read_tail(ts, protocol_version, Ghost(c2)) {
            Ok(tail) => tail,
            Err(e) => {
                return Err(e);
            },
        };
        proof {
            ts.lemma_advanced_chain(&start, &behind_body);
        }
        proof {
            assert(spec_read_tail(c2, protocol_version).0.taken == ts.position() - start.position());
        }
        assemble(head, body, tail)
    }
}

/// Makes the command of the fields that were read.
#[verifier::rlimit(40)]
fn assemble<'a>(head: HeadFields<'a>, body: BodyFields, tail: TailFields) -> (r: Result<
    CreatePlaybackStream<'a>,
    Error,
>)
    requires
        tail.formats@.len() <= u8::MAX,
    ensures
        match spec_playback_from_wire(head@, body@, tail@) {
            Ok(v) => r matches Ok(x) && x@ == v,
            Err(k) => r matches Err(e) && e.kind == k,
        },
{
    let stream_flags = wire_flags(&head, &body, &tail);
    let sink_spec = match select_sink(head.sink_index, head.sink_name) {
        Ok(sink_spec) => sink_spec,
        Err(e) => {
            return Err(e);
        },
    };
    // Whether to change the muted state is told since version 15 only. It counts as told
    // where the stream is to be muted.
    let muted = if tail.muted_set || body.muted {
        Some(body.muted)
    } else {
        None
    };
    let volume = if tail.volume_set {
        Some(head.cvolume)
    } else {
        None
    };
    Ok(
        CreatePlaybackStream {
            stream_props: body.props,
            sample_spec: head.sample_spec,
            channel_map: head.channel_map,
            stream_flags,
            sink_spec,
            muted,
            volume,
            syncid: head.sync_id,
            buffer_attr: BufferAttr {
                maxlength: head.maxlength,
                tlength: head.tlength,
                prebuf: head.prebuf,
                minreq: head.minreq,
                fragsize: 0,
            },
            formats: tail.formats,
        },
    )
}

/// The bytes of a boolean.
pub open spec fn spec_encode_bool(b: bool) -> Seq<u8> {
    spec_encode_value(ValueView::Boolean(b))
}

/// The bytes of a string, or of the null string for `None`.
pub open spec fn spec_encode_optional_string(s: Option<Seq<u8>>) -> Seq<u8> {
    match s {
        Some(s) => spec_encode_string(s),
        None => seq![TAG_STRING_NULL],
    }
}

/// The bytes of the first fields of the command.
pub open spec fn spec_encode_head(h: PlaybackHead) -> Seq<u8> {
    spec_encode_sample_spec(h.sample_spec) + spec_encode_value(ValueView::ChannelMap(h.channel_map))
        + spec_encode_u32(h.sink_index) + spec_encode_optional_string(h.sink_name)
        + spec_encode_u32(h.maxlength) + spec_encode_bool(h.start_corked) + spec_encode_u32(
        h.tlength,
    ) + spec_encode_u32(h.prebuf) + spec_encode_u32(h.minreq) + spec_encode_u32(h.sync_id)
        + spec_encode_value(ValueView::CVolume(h.cvolume))
}

/// The bytes of the fields that follow the first ones at every protocol version.
pub open spec fn spec_encode_body(b: PlaybackBody) -> Seq<u8> {
    spec_encode_bool(b.no_remap_channels) + spec_encode_bool(b.no_remix_channels)
        + spec_encode_bool(b.fix_format) + spec_encode_bool(b.fix_rate) + spec_encode_bool(
        b.fix_channels,
    ) + spec_encode_bool(b.dont_move) + spec_encode_bool(b.variable_rate) + spec_encode_bool(
        b.muted,
    ) + spec_encode_bool(b.adjust_latency) + spec_encode_proplist(b.props)
}

/// The bytes of a boolean that stands on the wire since version `since`.
pub open spec fn spec_encode_bool_since(b: bool, protocol_version: u16, since: u16) -> Seq<u8> {
    if protocol_version >= since {
        spec_encode_bool(b)
    } else {
        Seq::empty()
    }
}

/// The bytes of the fields that later protocol versions added, as far as the version knows
/// them.
pub open spec fn spec_encode_tail(t: PlaybackTail, protocol_version: u16) -> Seq<u8> {
    spec_encode_bool_since(t.volume_set, protocol_version, 14) + spec_encode_bool_since(
        t.early_requests,
        protocol_version,
        14,
    ) + spec_encode_bool_since(t.muted_set, protocol_version, 15) + spec_encode_bool_since(
        t.dont_inhibit_auto_suspend,
        protocol_version,
        15,
    ) + spec_encode_bool_since(t.fail_on_suspend, protocol_version, 15) + spec_encode_bool_since(
        t.relative_volume,
        protocol_version,
        17,
    ) + spec_encode_bool_since(t.passthrough, protocol_version, 18) + (if protocol_version >= 21 {
        seq![TAG_U8, t.formats.len() as u8] + spec_encode_formats(t.formats)
    } else {
        Seq::<u8>::empty()
    })
}

/// The volumes that are written where no volume is set: the normal volume for every channel.
pub open spec fn spec_default_volumes(channels: u8) -> Seq<u32> {
    Seq::new(channels as nat, |i: int| VOLUME_NORM)
}

/// The first fields on the wire that stand for a command.
pub open spec fn spec_head_of(v: CreatePlaybackStreamView) -> PlaybackHead {
    PlaybackHead {
        sample_spec: v.sample_spec,
        channel_map: v.channel_map,
        sink_index: match v.sink_spec {
            Some(SinkSpecView::Index(index)) => index,
            _ => INVALID_INDEX,
        },
        sink_name: match v.sink_spec {
            Some(SinkSpecView::Name(name)) => Some(name),
            _ => None,
        },
        maxlength: v.buffer_attr.maxlength,
        start_corked: spec_has_flags(v.stream_flags, StreamFlags::START_CORKED),
        tlength: v.buffer_attr.tlength,
        prebuf: v.buffer_attr.prebuf,
        minreq: v.buffer_attr.minreq,
        sync_id: v.sync_id,
        cvolume: match v.volume {
            Some(volume) => volume,
            None => spec_default_volumes(v.sample_spec.channels),
        },
    }
}

/// The fields on the wire that follow at every protocol version for a command.
pub open spec fn spec_body_of(v: CreatePlaybackStreamView) -> PlaybackBody {
    PlaybackBody {
        no_remap_channels: spec_has_flags(v.stream_flags, StreamFlags::NO_REMAP_CHANNELS),
        no_remix_channels: spec_has_flags(v.stream_flags, StreamFlags::NO_REMIX_CHANNELS),
        fix_format: spec_has_flags(v.stream_flags, StreamFlags::FIX_FORMAT),
        fix_rate: spec_has_flags(v.stream_flags, StreamFlags::FIX_RATE),
        fix_channels: spec_has_flags(v.stream_flags, StreamFlags::FIX_CHANNELS),
        dont_move: spec_has_flags(v.stream_flags, StreamFlags::DONT_MOVE),
        variable_rate: spec_has_flags(v.stream_flags, StreamFlags::VARIABLE_RATE),
        muted: v.muted == Some(true),
        adjust_latency: spec_has_flags(v.stream_flags, StreamFlags::ADJUST_LATENCY),
        props: v.stream_props,
    }
}

/// The fields on the wire that later protocol versions added for a command.
pub open spec fn spec_tail_of(v: CreatePlaybackStreamView) -> PlaybackTail {
    PlaybackTail {
        volume_set: v.volume is Some,
        early_requests: spec_has_flags(v.stream_flags, StreamFlags::EARLY_REQUESTS),
        muted_set: v.muted is Some,
        dont_inhibit_auto_suspend: spec_has_flags(
            v.stream_flags,
            StreamFlags::DONT_INHIBIT_AUTO_SUSPEND,
        ),
        fail_on_suspend: spec_has_flags(v.stream_flags, StreamFlags::FAIL_ON_SUSPEND),
        relative_volume: spec_has_flags(v.stream_flags, StreamFlags::RELATIVE_VOLUME),
        passthrough: spec_has_flags(v.stream_flags, StreamFlags::PASSTHROUGH),
        formats: v.formats,
    }
}

/// The bytes of a `CreatePlaybackStream` command at a protocol version.
pub open spec fn spec_encode_playback(v: CreatePlaybackStreamView, protocol_version: u16) -> Seq<
    u8,
> {
    spec_encode_head(spec_head_of(v)) + spec_encode_body(spec_body_of(v)) + spec_encode_tail(
        spec_tail_of(v),
        protocol_version,
    )
}

/// Creates the volumes that are written where no volume is set.
fn default_volumes(channels: u8) -> (volumes: CVolume)
    requires
        channels <= crate::types::sample_spec::CHANNELS_MAX,
    ensures
        volumes@ == spec_default_volumes(channels),
{
    let mut volumes = CVolume::new();
    let mut i: u8 = 0;
    while i < channels
        invariant
            0 <= i <= channels <= crate::types::sample_spec::CHANNELS_MAX,
            volumes@ == spec_default_volumes(i),
        decreases channels - i,
    {
        volumes.push(Volume::norm()).unwrap();
        proof {
            assert(spec_default_volumes(i).push(VOLUME_NORM) =~= spec_default_volumes(
                (i + 1) as u8,
            ));
        }
        i = i + 1;
    }
    volumes
}

impl<'a> CreatePlaybackStream<'a> {
    /// Creates the command from its parts. Gives nothing where there are more than 255 formats,
    /// whose number could not be written.
    pub fn new(
        sample_spec: SampleSpec,
        channel_map: ChannelMap,
        sink_spec: Option<SinkSpec<'a>>,
        buffer_attr: BufferAttr,
        stream_flags: StreamFlags,
        sync_id: u32,
        muted: Option<bool>,
        volume: Option<CVolume>,
        stream_props: PropList,
        formats: Vec<FormatInfo>,
    ) -> (r: Option<CreatePlaybackStream<'a>>)
        ensures
            r is Some <==> formats@.len() <= u8::MAX,
            r matches Some(command) ==> command@ == (CreatePlaybackStreamView {
                sample_spec: sample_spec@,
                channel_map: channel_map@,
                sink_spec: match sink_spec {
                    Some(spec) => Some(spec@),
                    None => None,
                },
                buffer_attr,
                stream_flags: stream_flags@,
                sync_id,
                muted,
                volume: match volume {
                    Some(volume) => Some(volume@),
                    None => None,
                },
                stream_props: stream_props@,
                formats: spec_format_views(formats@),
            }),
    {
        if formats.len() > 255 {
            return None;
        }
        Some(
            CreatePlaybackStream {
                stream_props,
                sample_spec,
                channel_map,
                stream_flags,
                sink_spec,
                muted,
                volume,
                syncid: sync_id,
                buffer_attr,
                formats,
            },
        )
    }

    /// Writes the first fields of the command.
    #[verifier::rlimit(40)]
    fn write_head(&self, w: &mut TagStructWriter)
        ensures
            final(w)@ == old(w)@ + spec_encode_head(spec_head_of(self@)),
    {
        let ghost start = w@;
        let ghost h = spec_head_of(self@);
        w.put_sample_spec_raw(&self.sample_spec);
        let ghost mut acc = spec_encode_sample_spec(h.sample_spec);
        w.write(&self.channel_map);
        proof {
            lemma_append_assoc(start, acc, spec_encode_value(ValueView::ChannelMap(h.channel_map)));
            acc = acc + spec_encode_value(ValueView::ChannelMap(h.channel_map));
        }
        match self.sink_spec {
            Some(SinkSpec::Index(index)) => {
                w.write(index);
                proof {
                    lemma_append_assoc(start, acc, spec_encode_u32(h.sink_index));
                    acc = acc + spec_encode_u32(h.sink_index);
                }
                w.write(None::<PaStr<'a>>);
            },
            Some(SinkSpec::Name(name)) => {
                w.write(INVALID_INDEX);
                proof {
                    lemma_append_assoc(start, acc, spec_encode_u32(h.sink_index));
                    acc = acc + spec_encode_u32(h.sink_index);
                }
                w.write(name);
            },
            None => {
                w.write(INVALID_INDEX);
                proof {
                    lemma_append_assoc(start, acc, spec_encode_u32(h.sink_index));
                    acc = acc + spec_encode_u32(h.sink_index);
                }
                w.write(None::<PaStr<'a>>);
            },
        }
        proof {
            lemma_append_assoc(start, acc, spec_encode_optional_string(h.sink_name));
            acc = acc + spec_encode_optional_string(h.sink_name);
        }
        w.write(self.buffer_attr.maxlength);
        proof {
            lemma_append_assoc(start, acc, spec_encode_u32(h.maxlength));
            acc = acc + spec_encode_u32(h.maxlength);
        }
        w.write(self.stream_flags.contains(StreamFlags::START_CORKED));
        proof {
            lemma_append_assoc(start, acc, spec_encode_bool(h.start_corked));
            acc = acc + spec_encode_bool(h.start_corked);
        }
        w.write(self.buffer_attr.tlength);
        proof {
            lemma_append_assoc(start, acc, spec_encode_u32(h.tlength));
            acc = acc + spec_encode_u32(h.tlength);
        }
        w.write(self.buffer_attr.prebuf);
        proof {
            lemma_append_assoc(start, acc, spec_encode_u32(h.prebuf));
            acc = acc + spec_encode_u32(h.prebuf);
        }
        w.write(self.buffer_attr.minreq);
        proof {
            lemma_append_assoc(start, acc, spec_encode_u32(h.minreq));
            acc = acc + spec_encode_u32(h.minreq);
        }
        w.write(self.syncid);
        proof {
            lemma_append_assoc(start, acc, spec_encode_u32(h.sync_id));
            acc = acc + spec_encode_u32(h.sync_id);
        }
        // The volumes are written even where none is set, and there has to be one at least.
        match &self.volume {
            Some(volume) => {
                w.write(volume);
            },
            None => {
                let volume = default_volumes(self.sample_spec.channels());
                w.write(&volume);
            },
        }
        proof {
            lemma_append_assoc(start, acc, spec_encode_value(ValueView::CVolume(h.cvolume)));
            acc = acc + spec_encode_value(ValueView::CVolume(h.cvolume));
            assert(acc == spec_encode_head(h));
        }
    }

    /// Writes the fields that follow the first ones at every protocol version.
    #[verifier::rlimit(40)]
    fn write_body(&self, w: &mut TagStructWriter)
        ensures
            final(w)@ == old(w)@ + spec_encode_body(spec_body_of(self@)),
    {
        let ghost start = w@;
        let ghost b = spec_body_of(self@);
        let flags = self.stream_flags;
        let muted = match self.muted {
            Some(true) => true,
            _ => false,
        };
        w.write(flags.contains(StreamFlags::NO_REMAP_CHANNELS));
        let ghost mut acc = spec_encode_bool(b.no_remap_channels);
        w.write(flags.contains(StreamFlags::NO_REMIX_CHANNELS));
        proof {
            lemma_append_assoc(start, acc, spec_encode_bool(b.no_remix_channels));
            acc = acc + spec_encode_bool(b.no_remix_channels);
        }
        w.write(flags.contains(StreamFlags::FIX_FORMAT));
        proof {
            lemma_append_assoc(start, acc, spec_encode_bool(b.fix_format));
            acc = acc + spec_encode_bool(b.fix_format);
        }
        w.write(flags.contains(StreamFlags::FIX_RATE));
        proof {
            lemma_append_assoc(start, acc, spec_encode_bool(b.fix_rate));
            acc = acc + spec_encode_bool(b.fix_rate);
        }
        w.write(flags.contains(StreamFlags::FIX_CHANNELS));
        proof {
            lemma_append_assoc(start, acc, spec_encode_bool(b.fix_channels));
            acc = acc + spec_encode_bool(b.fix_channels);
        }
        w.write(flags.contains(StreamFlags::DONT_MOVE));
        proof {
            lemma_append_assoc(start, acc, spec_encode_bool(b.dont_move));
            acc = acc + spec_encode_bool(b.dont_move);
        }
        w.write(flags.contains(StreamFlags::VARIABLE_RATE));
        proof {
            lemma_append_assoc(start, acc, spec_encode_bool(b.variable_rate));
            acc = acc + spec_encode_bool(b.variable_rate);
        }
        w.write(muted);
        proof {
            lemma_append_assoc(start, acc, spec_encode_bool(b.muted));
            acc = acc + spec_encode_bool(b.muted);
        }
        w.write(flags.contains(StreamFlags::ADJUST_LATENCY));
        proof {
            lemma_append_assoc(start, acc, spec_encode_bool(b.adjust_latency));
            acc = acc + spec_encode_bool(b.adjust_latency);
        }
        w.write(&self.stream_props);
        proof {
            lemma_append_assoc(start, acc, spec_encode_proplist(b.props));
            acc = acc + spec_encode_proplist(b.props);
        }
        proof {
            assert(acc == spec_encode_body(b));
        }
    }

    /// Writes the formats, one after the other.
    #[verifier::loop_isolation(false)]
    fn write_formats(&self, w: &mut TagStructWriter)
        ensures
            final(w)@ == old(w)@ + spec_encode_formats(self@.formats),
    {
        let formats = self.formats();
        let ghost views = spec_format_views(formats@);
        let mut i: usize = 0;
        while i < formats.len()
            invariant
                0 <= i <= formats@.len(),
                w@ == old(w)@ + spec_encode_formats(views.take(i as int)),
            decreases formats@.len() - i,
        {
            w.write(&formats[i]);
            proof {
                assert(views.take(i + 1).drop_last() =~= views.take(i as int));
                assert(views.take(i + 1).last() == formats@[i as int]@);
                assert(w@ =~= old(w)@ + spec_encode_formats(views.take(i + 1)));
            }
            i = i + 1;
        }
        proof {
            assert(views.take(formats@.len() as int) =~= views);
        }
    }

    /// Writes the fields that later protocol versions added, as far as the version knows them.
    #[verifier::rlimit(40)]
    fn write_tail(&self, w: &mut TagStructWriter, protocol_version: u16)
        ensures
            final(w)@ == old(w)@ + spec_encode_tail(spec_tail_of(self@), protocol_version),
    {
        let ghost start = w@;
        let ghost t = spec_tail_of(self@);
        let flags = self.stream_flags;
        if protocol_version >= 14 {
            w.write(self.volume.is_some());
        }
        let ghost mut acc = spec_encode_bool_since(t.volume_set, protocol_version, 14);
        proof {
            assert(start + Seq::<u8>::empty() =~= start);
        }
        if protocol_version >= 14 {
            w.write(flags.contains(StreamFlags::EARLY_REQUESTS));
        }
        proof {
            lemma_append_assoc(start, acc, spec_encode_bool_since(t.early_requests, protocol_version, 14));
            assert(acc + Seq::<u8>::empty() =~= acc);
            acc = acc + spec_encode_bool_since(t.early_requests, protocol_version, 14);
        }
        if protocol_version >= 15 {
            w.write(self.muted.is_some());
        }
        proof {
            lemma_append_assoc(start, acc, spec_encode_bool_since(t.muted_set, protocol_version, 15));
            assert(acc + Seq::<u8>::empty() =~= acc);
            acc = acc + spec_encode_bool_since(t.muted_set, protocol_version, 15);
        }
        if protocol_version >= 15 {
            w.write(flags.contains(StreamFlags::DONT_INHIBIT_AUTO_SUSPEND));
        }
        proof {
            lemma_append_assoc(start, acc, spec_encode_bool_since(t.dont_inhibit_auto_suspend, protocol_version, 15));
            assert(acc + Seq::<u8>::empty() =~= acc);
            acc = acc + spec_encode_bool_since(t.dont_inhibit_auto_suspend, protocol_version, 15);
        }
        if protocol_version >= 15 {
            w.write(flags.contains(StreamFlags::FAIL_ON_SUSPEND));
        }
        proof {
            lemma_append_assoc(start, acc, spec_encode_bool_since(t.fail_on_suspend, protocol_version, 15));
            assert(acc + Seq::<u8>::empty() =~= acc);
            acc = acc + spec_encode_bool_since(t.fail_on_suspend, protocol_version, 15);
        }
        if protocol_version >= 17 {
            w.write(flags.contains(StreamFlags::RELATIVE_VOLUME));
        }
        proof {
            lemma_append_assoc(start, acc, spec_encode_bool_since(t.relative_volume, protocol_version, 17));
            assert(acc + Seq::<u8>::empty() =~= acc);
            acc = acc + spec_encode_bool_since(t.relative_volume, protocol_version, 17);
        }
        if protocol_version >= 18 {
            w.write(flags.contains(StreamFlags::PASSTHROUGH));
        }
        proof {
            lemma_append_assoc(start, acc, spec_encode_bool_since(t.passthrough, protocol_version, 18));
            assert(acc + Seq::<u8>::empty() =~= acc);
            acc = acc + spec_encode_bool_since(t.passthrough, protocol_version, 18);
        }
        let ghost formats_bytes = if protocol_version >= 21 {
            seq![TAG_U8, t.formats.len() as u8] + spec_encode_formats(t.formats)
        } else {
            Seq::<u8>::empty()
        };
        if protocol_version >= 21 {
            let ghost before = w@;
            w.write(self.formats().len() as u8);
            self.write_formats(w);
            proof {
                lemma_append_assoc(
                    before,
                    seq![TAG_U8, t.formats.len() as u8],
                    spec_encode_formats(t.formats),
                );
            }
        }
        proof {
            lemma_append_assoc(start, acc, formats_bytes);
            assert(acc + Seq::<u8>::empty() =~= acc);
            acc = acc + formats_bytes;
            assert(acc == spec_encode_tail(t, protocol_version));
        }
    }
}

impl<'a> ToTagStruct for CreatePlaybackStream<'a> {
    open spec fn spec_encoding(&self, protocol_version: u16) -> Seq<u8> {
        spec_encode_playback(self@, protocol_version)
    }

    open spec fn spec_encodable(&self) -> bool {
        true
    }

    /// Writes all fields that the protocol version knows, in the order in which they are read.
    fn to_tag_struct(&self, w: &mut TagStructWriter, protocol_version: u16) -> (r: Result<
        (),
        Error,
    >) {
        let ghost start = w@;
        self.write_head(w);
        self.write_body(w);
        proof {
            lemma_append_assoc(
                start,
                spec_encode_head(spec_head_of(self@)),
                spec_encode_body(spec_body_of(self@)),
            );
        }
        self.write_tail(w, protocol_version);
        proof {
            lemma_append_assoc(
                start,
                spec_encode_head(spec_head_of(self@)) + spec_encode_body(spec_body_of(self@)),
                spec_encode_tail(spec_tail_of(self@), protocol_version),
            );
        }
        Ok(())
    }
}

/// The reply to a `CreatePlaybackStream` command.
pub struct CreatePlaybackStreamReply<'a> {
    /// Server-internal stream index.
    pub stream_index: u32,
    pub sink_input_index: u32,
    /// Number of bytes that can be written to the playback buffer.
    pub missing: u32,
    /// Attributes of the created buffer.
    pub buffer_metrics: &'a BufferAttr,
    /// Actually chosen sample specs.
    pub sample_spec: &'a SampleSpec,
    /// Actually chosen channel map.
    pub channel_map: &'a ChannelMap,
    pub stream: &'a Stream,
    /// The sink the created stream has been connected to.
    pub sink: &'a Sink,
}

/// The bytes of a reply to a `CreatePlaybackStream` command at a protocol version: the indices
/// of the stream and of the sink input, the number of missing bytes, the buffer metrics, the
/// sample specification as the version knows it, the channel map, index and name of the sink,
/// whether the sink is suspended, and the latency of the stream.
pub open spec fn spec_encode_playback_reply(
    reply: CreatePlaybackStreamReply<'_>,
    protocol_version: u16,
) -> Seq<u8> {
    spec_encode_u32(reply.stream_index) + spec_encode_u32(reply.sink_input_index)
        + spec_encode_u32(reply.missing) + spec_encode_u32(reply.buffer_metrics.maxlength)
        + spec_encode_u32(reply.buffer_metrics.tlength) + spec_encode_u32(
        reply.buffer_metrics.prebuf,
    ) + spec_encode_u32(reply.buffer_metrics.minreq) + spec_encode_sample_spec(
        crate::types::sample_spec::spec_downgrade(reply.sample_spec@, protocol_version),
    ) + spec_encode_value(ValueView::ChannelMap(reply.channel_map@)) + spec_encode_u32(
        reply.sink@.index,
    ) + spec_encode_string(reply.sink@.name) + spec_encode_bool(
        reply.sink@.state == SinkState::Suspended,
    ) + spec_encode_value(ValueView::Usec(reply.stream.spec_latency().0))
}

impl<'a> ToTagStruct for CreatePlaybackStreamReply<'a> {
    open spec fn spec_encoding(&self, protocol_version: u16) -> Seq<u8> {
        spec_encode_playback_reply(*self, protocol_version)
    }

    open spec fn spec_encodable(&self) -> bool {
        true
    }

    fn to_tag_struct(&self, w: &mut TagStructWriter, protocol_version: u16) -> (r: Result<
        (),
        Error,
    >) {
        let ghost start = w@;
        let suspended = match self.sink.state() {
            SinkState::Suspended => true,
            _ => false,
        };
        w.write(self.stream_index);
        let ghost mut acc = spec_encode_u32(self.stream_index);
        w.write(self.sink_input_index);
        proof {
            lemma_append_assoc(start, acc, spec_encode_u32(self.sink_input_index));
            acc = acc + spec_encode_u32(self.sink_input_index);
        }
        w.write(self.missing);
        proof {
            lemma_append_assoc(start, acc, spec_encode_u32(self.missing));
            acc = acc + spec_encode_u32(self.missing);
        }
        w.write(self.buffer_metrics.maxlength);
        proof {
            lemma_append_assoc(start, acc, spec_encode_u32(self.buffer_metrics.maxlength));
            acc = acc + spec_encode_u32(self.buffer_metrics.maxlength);
        }
        w.write(self.buffer_metrics.tlength);
        proof {
            lemma_append_assoc(start, acc, spec_encode_u32(self.buffer_metrics.tlength));
            acc = acc + spec_encode_u32(self.buffer_metrics.tlength);
        }
        w.write(self.buffer_metrics.prebuf);
        proof {
            lemma_append_assoc(start, acc, spec_encode_u32(self.buffer_metrics.prebuf));
            acc = acc + spec_encode_u32(self.buffer_metrics.prebuf);
        }
        w.write(self.buffer_metrics.minreq);
        proof {
            lemma_append_assoc(start, acc, spec_encode_u32(self.buffer_metrics.minreq));
            acc = acc + spec_encode_u32(self.buffer_metrics.minreq);
        }
        w.write_versioned(self.sample_spec, protocol_version);
        proof {
            lemma_append_assoc(start, acc, spec_encode_sample_spec(
                crate::types::sample_spec::spec_downgrade(self.sample_spec@, protocol_version),
            ));
            acc = acc + spec_encode_sample_spec(
                crate::types::sample_spec::spec_downgrade(self.sample_spec@, protocol_version),
            );
        }
        w.write(self.channel_map);
        proof {
            lemma_append_assoc(start, acc, spec_encode_value(ValueView::ChannelMap(self.channel_map@)));
            acc = acc + spec_encode_value(ValueView::ChannelMap(self.channel_map@));
        }
        w.write(self.sink.index());
        proof {
            lemma_append_assoc(start, acc, spec_encode_u32(self.sink@.index));
            acc = acc + spec_encode_u32(self.sink@.index);
        }
        w.write(self.sink.name());
        proof {
            lemma_append_assoc(start, acc, spec_encode_string(self.sink@.name));
            acc = acc + spec_encode_string(self.sink@.name);
        }
        w.write(suspended);
        proof {
            lemma_append_assoc(start, acc, spec_encode_bool(self.sink@.state == SinkState::Suspended));
            acc = acc + spec_encode_bool(self.sink@.state == SinkState::Suspended);
        }
        w.write(self.stream.latency());
        proof {
            lemma_append_assoc(start, acc, spec_encode_value(ValueView::Usec(self.stream.spec_latency().0)));
            acc = acc + spec_encode_value(ValueView::Usec(self.stream.spec_latency().0));
        }
        Ok(())
    }
}

} // verus!
