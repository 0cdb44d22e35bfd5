//! Defines sink data and utilities.

use vstd::prelude::*;
use crate::string::PaStr;
use crate::string::PaString;
use vstd::string::StringSliceAdditionalSpecFns;
use crate::time::Microseconds;
use crate::types::channel_map::ChannelMap;
use crate::types::channel_map::ChannelPosition;
use crate::types::cvolume::CVolume;
use crate::types::cvolume::Volume;
use crate::types::cvolume::VOLUME_NORM;
use crate::types::format_info::FormatEncoding;
use crate::types::format_info::FormatInfo;
use crate::types::format_info::FormatInfoView;
use crate::types::proplist::PropList;
use crate::types::proplist::PropSeq;
use crate::types::sample_spec::SampleFormat;
use crate::types::sample_spec::SampleSpec;
use crate::types::sample_spec::SampleSpecView;

verus! {

/// A set of sink flags, one bit for each.
#[derive(Clone, Copy, Debug, PartialEq, Eq, Structural)]
pub struct SinkFlags {
    bits: u32,
}

impl View for SinkFlags {
    type V = u32;

    closed spec fn view(&self) -> u32 {
        self.bits
    }
}

impl SinkFlags {
    /// Supports hardware volume control. This is a dynamic flag and may change at runtime after
    /// the sink has initialized.
    pub const HW_VOLUME_CTRL: u32 = 0x0001;

    /// Supports latency querying.
    pub const LATENCY: u32 = 0x0002;

    /// Is a hardware sink of some kind, in contrast to "virtual"/software sinks.
    pub const HARDWARE: u32 = 0x0004;

    /// Is a networked sink of some kind.
    pub const NETWORK: u32 = 0x0008;

    /// Supports hardware mute control. This is a dynamic flag and may change at runtime after the
    /// sink has initialized.
    pub const HW_MUTE_CTRL: u32 = 0x0010;

    /// Volume can be translated to dB. This is a dynamic flag and may change at runtime after the
    /// sink has initialized.
    pub const DECIBEL_VOLUME: u32 = 0x0020;

    /// This sink is in flat volume mode, i.e. always the maximum of the volume of all connected
    /// inputs.
    pub const FLAT_VOLUME: u32 = 0x0040;

    /// The latency can be adjusted dynamically depending on the needs of the connected streams.
    pub const DYNAMIC_LATENCY: u32 = 0x0080;

    /// The sink allows setting what formats are supported by the connected hardware. The actual
    /// functionality to do this might be provided by an extension.
    pub const SET_FORMATS: u32 = 0x0100;

    /// The set of no flags.
    pub fn empty() -> (flags: SinkFlags)
        ensures
            flags@ == 0,
    {
        SinkFlags { bits: 0 }
    }

    /// The set of the flags whose bits are set in `bits`.
    pub fn from_bits(bits: u32) -> (flags: SinkFlags)
        ensures
            flags@ == bits,
    {
        SinkFlags { bits }
    }

    /// The bits of the flags that are set.
    pub fn bits(&self) -> (bits: u32)
        ensures
            bits == self@,
    {
        self.bits
    }

    /// Tells whether all of `flags` are set.
    pub fn contains(&self, flags: u32) -> (r: bool)
        ensures
            r == (self@ & flags == flags),
    {
        self.bits & flags == flags
    }
}

/// What a sink is doing.
#[derive(Clone, Copy, Debug, PartialEq, Eq, Structural)]
pub enum SinkState {
    /// Sink is playing samples: The sink is used by at least one non-paused input.
    Running,
    /// Sink is playing but has no connected inputs that send samples.
    Idle,
    /// Sink is not currently playing and can be closed.
    Suspended,
}

impl SinkState {
    /// The number that stands for the state on the wire.
    pub open spec fn spec_as_u32(self) -> u32 {
        match self {
            SinkState::Running => 0,
            SinkState::Idle => 1,
            SinkState::Suspended => 2,
        }
    }

    /// Gets the number that stands for the state on the wire.
    pub fn as_u32(self) -> (raw: u32)
        ensures
            raw == self.spec_as_u32(),
    {
        match self {
            SinkState::Running => 0,
            SinkState::Idle => 1,
            SinkState::Suspended => 2,
        }
    }
}

/// Specifies the direction of a port.
#[derive(Clone, Copy, Debug, PartialEq, Eq, Structural)]
pub enum Direction {
    /// The port is an input, ie. part of a source.
    Input,
    /// The port is an output, ie. part of a sink.
    Output,
}

/// Port availability / jack detection status.
#[derive(Clone, Copy, Debug, PartialEq, Eq, Structural)]
pub enum Available {
    /// This port does not support jack detection.
    Unknown,
    /// This port is not available, likely because the jack is not plugged in.
    No,
    /// This port is available, likely because the jack is plugged in.
    Yes,
}

impl Available {
    /// The number that stands for the availability on the wire.
    pub open spec fn spec_as_u32(self) -> u32 {
        match self {
            Available::Unknown => 0,
            Available::No => 1,
            Available::Yes => 2,
        }
    }

    /// Gets the number that stands for the availability on the wire.
    pub fn as_u32(self) -> (raw: u32)
        ensures
            raw == self.spec_as_u32(),
    {
        match self {
            Available::Unknown => 0,
            Available::No => 1,
            Available::Yes => 2,
        }
    }
}

/// What a port holds.
pub struct PortView {
    /// The bytes of the name.
    pub name: Seq<u8>,
    /// The bytes of the description.
    pub description: Seq<u8>,
    pub props: PropSeq,
    pub direction: Direction,
    pub priority: u32,
    pub available: Available,
}

/// A port on a sink, to which a speaker or microphone can be connected.
#[derive(Debug)]
pub struct Port {
    name: PaString,
    desc: PaString,
    props: PropList,
    dir: Direction,
    priority: u32,
    avail: Available,
}

impl View for Port {
    type V = PortView;

    closed spec fn view(&self) -> PortView {
        PortView {
            name: self.name@,
            description: self.desc@,
            props: self.props@,
            direction: self.dir,
            priority: self.priority,
            available: self.avail,
        }
    }
}

impl Port {
    /// Creates a port that is part of a sink.
    pub fn new_output(name: PaString, description: PaString, priority: u32) -> (port: Port)
        ensures
            port@ == (PortView {
                name: name@,
                description: description@,
                props: PropSeq::empty(),
                direction: Direction::Output,
                priority,
                available: Available::Unknown,
            }),
    {
        Port {
            name,
            desc: description,
            props: PropList::new(),
            dir: Direction::Output,
            priority,
            avail: Available::Unknown,
        }
    }

    /// Creates a port that is part of a source.
    pub fn new_input(name: PaString, description: PaString, priority: u32) -> (port: Port)
        ensures
            port@ == (PortView {
                name: name@,
                description: description@,
                props: PropSeq::empty(),
                direction: Direction::Input,
                priority,
                available: Available::Unknown,
            }),
    {
        Port {
            name,
            desc: description,
            props: PropList::new(),
            dir: Direction::Input,
            priority,
            avail: Available::Unknown,
        }
    }

    pub fn name(&self) -> (r: PaStr<'_>)
        ensures
            r@ == self@.name,
    {
        self.name.as_pastr()
    }

    pub fn description(&self) -> (r: PaStr<'_>)
        ensures
            r@ == self@.description,
    {
        self.desc.as_pastr()
    }

    pub fn props(&self) -> (r: &PropList)
        ensures
            r@ == self@.props,
    {
        &self.props
    }

    pub fn direction(&self) -> (r: Direction)
        ensures
            r == self@.direction,
    {
        self.dir
    }

    pub fn priority(&self) -> (r: u32)
        ensures
            r == self@.priority,
    {
        self.priority
    }

    pub fn available(&self) -> (r: Available)
        ensures
            r == self@.available,
    {
        self.avail
    }
}

/// The actual implementation behind a sink.
pub trait SinkImpl: Send + Sync {

}

/// A sink that simply drops all samples sent to it. `/dev/null`.
#[derive(Debug)]
pub struct DummySink;

impl SinkImpl for DummySink {

}

/// What a sink holds, but for the implementation behind it.
pub struct SinkView {
    pub index: u32,
    /// The bytes of the name.
    pub name: Seq<u8>,
    pub props: PropSeq,
    pub state: SinkState,
    pub sample_spec: SampleSpecView,
    pub channel_map: Seq<ChannelPosition>,
    /// The raw volumes of the channels.
    pub cvolume: Seq<u32>,
    pub muted: bool,
    /// The bits of the flags.
    pub flags: u32,
    pub ports: Seq<PortView>,
    /// The index of the active port among the ports.
    pub active_port: int,
    pub formats: Seq<FormatInfoView>,
}

/// What the ports of a sink hold, one for one.
pub open spec fn spec_port_views(ports: Seq<Port>) -> Seq<PortView> {
    Seq::new(ports.len(), |i: int| ports[i]@)
}

/// What format infos hold, one for one.
pub open spec fn spec_format_views(formats: Seq<FormatInfo>) -> Seq<FormatInfoView> {
    Seq::new(formats.len(), |i: int| formats[i]@)
}

/// Whether the view is that of a sink: one of its ports is the active one, the number of its
/// ports fits in 32 bits and the number of its formats in 8.
pub open spec fn valid_sink(v: SinkView) -> bool {
    &&& 0 <= v.active_port < v.ports.len()
    &&& v.ports.len() <= u32::MAX
    &&& v.formats.len() <= u8::MAX
}

/// What the dummy sink with the given index holds: an idle sink of two channels of 32 bit float
/// samples at 48 kHz, at the normal volume, with one output port and the format PCM.
pub open spec fn spec_dummy_sink(index: u32) -> SinkView {
    SinkView {
        index,
        name: "Dummy Sink".spec_bytes(),
        props: PropSeq::empty(),
        state: SinkState::Idle,
        sample_spec: SampleSpecView {
            format: SampleFormat::Float32Le,
            channels: 2,
            sample_rate: 48000,
        },
        channel_map: seq![ChannelPosition::FrontLeft, ChannelPosition::FrontRight],
        cvolume: seq![VOLUME_NORM, VOLUME_NORM],
        muted: false,
        flags: 0,
        ports: seq![
            PortView {
                name: "Stereo Output".spec_bytes(),
                description: "".spec_bytes(),
                props: PropSeq::empty(),
                direction: Direction::Output,
                priority: 0,
                available: Available::Unknown,
            },
        ],
        active_port: 0,
        formats: seq![FormatInfoView { encoding: FormatEncoding::Pcm, props: PropSeq::empty() }],
    }
}

/// A sink connected to a PulseAudio server.
///
/// Every sink can have any number of Sink Inputs, or streams connected to it. If more than one
/// input is connected, the inputs will be mixed together.
///
/// A sink always has a single configured sample spec, and all sink inputs are converted to that
/// format (using resampling to match the sample rates, if necessary).
pub struct Sink {
    index: u32,
    name: PaString,
    props: PropList,
    state: SinkState,
    sample_spec: SampleSpec,
    channel_map: ChannelMap,
    cvolume: CVolume,
    /// Overrides `cvolume`.
    muted: bool,
    flags: SinkFlags,
    ports: Vec<Port>,
    active_port: usize,
    /// Supported sample formats.
    formats: Vec<FormatInfo>,
    /// The actual sink implementation.
    kind: Box<dyn SinkImpl>,
}

impl View for Sink {
    type V = SinkView;

    closed spec fn view(&self) -> SinkView {
        SinkView {
            index: self.index,
            name: self.name@,
            props: self.props@,
            state: self.state,
            sample_spec: self.sample_spec@,
            channel_map: self.channel_map@,
            cvolume: self.cvolume@,
            muted: self.muted,
            flags: self.flags@,
            ports: spec_port_views(self.ports@),
            active_port: self.active_port as int,
            formats: spec_format_views(self.formats@),
        }
    }
}

impl Sink {
    #[verifier::type_invariant]
    spec fn well_formed(&self) -> bool {
        valid_sink(self@)
    }

    /// Creates a dummy sink that will simply drop all samples sent to it.
    ///
    /// The server will create a dummy sink on startup if no other sinks can be found.
    pub fn new_dummy(index: u32) -> (sink: Sink)
        ensures
            sink@ == spec_dummy_sink(index),
            valid_sink(sink@),
    {
        proof {
            reveal_strlit("Dummy Sink");
            reveal_strlit("Stereo Output");
            reveal_strlit("");
        }
        let name = PaString::from_plain_text("Dummy Sink");
        let sample_spec = SampleSpec::new_checked(SampleFormat::Float32Le, 2, 48000).unwrap();
        let mut channel_map = ChannelMap::new();
        channel_map.push(ChannelPosition::FrontLeft).unwrap();
        channel_map.push(ChannelPosition::FrontRight).unwrap();
        let mut cvolume = CVolume::new();
        cvolume.push(Volume::norm()).unwrap();
        cvolume.push(Volume::norm()).unwrap();
        let mut ports: Vec<Port> = Vec::new();
        ports.push(
            Port::new_output(
                PaString::from_plain_text("Stereo Output"),
                PaString::from_plain_text(""),
                0,
            ),
        );
        let mut formats: Vec<FormatInfo> = Vec::new();
        formats.push(FormatInfo::new(FormatEncoding::Pcm));
        proof {
            assert(channel_map@ =~= seq![ChannelPosition::FrontLeft, ChannelPosition::FrontRight]);
            assert(cvolume@ =~= seq![VOLUME_NORM, VOLUME_NORM]);
            assert(spec_port_views(ports@) =~= spec_dummy_sink(index).ports);
            assert(spec_format_views(formats@) =~= spec_dummy_sink(index).formats);
        }
        Sink {
            index,
            name,
            props: PropList::new(),
            state: SinkState::Idle,
            sample_spec,
            channel_map,
            cvolume,
            muted: false,
            flags: SinkFlags::empty(),
            ports,
            active_port: 0,
            formats,
            kind: Box::new(DummySink),
        }
    }

    /// Server-internal sink ID.
    pub fn index(&self) -> (r: u32)
        ensures
            r == self@.index,
    {
        self.index
    }

    /// The human readable name of the sink.
    ///
    /// This is likely to be something like the device name.
    pub fn name(&self) -> (r: PaStr<'_>)
        ensures
            r@ == self@.name,
    {
        self.name.as_pastr()
    }

    /// Gets the property list storing the properties associated with this sink.
    pub fn props(&self) -> (r: &PropList)
        ensures
            r@ == self@.props,
    {
        &self.props
    }

    /// Current sink state (eg. whether the sink is actively playing samples).
    pub fn state(&self) -> (r: SinkState)
        ensures
            r == self@.state,
    {
        self.state
    }

    pub fn sample_spec(&self) -> (r: &SampleSpec)
        ensures
            r@ == self@.sample_spec,
    {
        &self.sample_spec
    }

    pub fn channel_map(&self) -> (r: &ChannelMap)
        ensures
            r@ == self@.channel_map,
    {
        &self.channel_map
    }

    pub fn cvolume(&self) -> (r: &CVolume)
        ensures
            r@ == self@.cvolume,
    {
        &self.cvolume
    }

    pub fn muted(&self) -> (r: bool)
        ensures
            r == self@.muted,
    {
        self.muted
    }

    /// The latency of the sink, which is not measured: 0.
    pub fn actual_latency(&self) -> (r: Microseconds)
        ensures
            r.0 == 0,
    {
        Microseconds(0)
    }

    /// The latency that was asked for, which is not kept: 0.
    pub fn requested_latency(&self) -> (r: Microseconds)
        ensures
            r.0 == 0,
    {
        Microseconds(0)
    }

    pub fn flags(&self) -> (r: SinkFlags)
        ensures
            r@ == self@.flags,
    {
        self.flags
    }

    /// The volume at which the sink neither attenuates nor amplifies: the normal volume.
    pub fn base_volume(&self) -> (r: Volume)
        ensures
            r@ == VOLUME_NORM,
    {
        Volume::norm()
    }

    /// The number of steps of the volume: 100.
    pub fn volume_steps(&self) -> (r: u32)
        ensures
            r == 100,
    {
        100
    }

    /// Get the ports of this sink.
    ///
    /// A sink has at least one port a plug can be plugged into, and only *one* port can be active
    /// at any given time. To obtain the currently active port, call `active_port()`.
    pub fn ports(&self) -> (r: &[Port])
        ensures
            spec_port_views(r@) == self@.ports,
            1 <= r@.len() <= u32::MAX,
    {
        proof {
            use_type_invariant(self);
        }
        self.ports.as_slice()
    }

    /// Get a reference to the currently active port of this sink.
    pub fn active_port(&self) -> (r: &Port)
        ensures
            r@ == self@.ports[self@.active_port],
            0 <= self@.active_port < self@.ports.len(),
    {
        proof {
            use_type_invariant(self);
        }
        &self.ports[self.active_port]
    }

    /// Get the list of supported sample formats.
    ///
    /// Most commonly used sinks of consumer hardware will only have support for a single format,
    /// PCM.
    pub fn formats(&self) -> (r: &[FormatInfo])
        ensures
            spec_format_views(r@) == self@.formats,
            r@.len() <= u8::MAX,
    {
        proof {
            use_type_invariant(self);
        }
        self.formats.as_slice()
    }
}

} // verus!
