//! The `GET_*_INFO` and `GET_*_INFO_LIST` commands.

use vstd::prelude::*;
use vstd::string::StringSliceAdditionalSpecFns;
use crate::command::create_playback_stream::spec_encode_bool;
use crate::command::create_playback_stream::spec_encode_optional_string;
use crate::command::create_playback_stream::INVALID_INDEX;
use crate::error::Error;
use crate::sink::Port;
use crate::sink::PortView;
use crate::sink::Sink;
use crate::sink::SinkView;
use crate::string::is_c_string;
use crate::string::PaStr;
use crate::string::PaString;
use crate::types::cvolume::VOLUME_NORM;
use crate::types::format_info::FormatInfo;
use crate::types::proplist::spec_lookup;
use crate::types::proplist::Prop;
use crate::types::proplist::PropList;
use crate::types::proplist::PropSeq;
use crate::types::sample_spec::spec_downgrade;
use crate::types::tagstruct::grammar::TAG_U8;
use crate::types::tagstruct::grammar::ValueView;
use crate::types::tagstruct::grammar::spec_encode_formats;
use crate::types::tagstruct::grammar::spec_encode_proplist;
use crate::types::tagstruct::grammar::spec_encode_sample_spec;
use crate::types::tagstruct::grammar::spec_encode_string;
use crate::types::tagstruct::grammar::spec_encode_u32;
use crate::types::tagstruct::grammar::spec_encode_value;
use crate::types::tagstruct::writer::lemma_append_assoc;
use crate::types::tagstruct::writer::TagStructWriter;
use crate::types::tagstruct::writer::ToTagStruct;
use vstd::utf8::valid_utf8;

verus! {

/// The description of a sink on the wire: its device description, where that is a string, and
/// `(null)` where it is not.
pub open spec fn spec_sink_description(props: PropSeq) -> Seq<u8> {
    match spec_lookup(props, Prop::DeviceDescription.spec_key()) {
        Some(blob) => if is_c_string(blob) {
            blob.drop_last()
        } else {
            "(null)".spec_bytes()
        },
        None => "(null)".spec_bytes(),
    }
}

/// The bytes of one port of a sink at a protocol version: name, description and priority, and
/// since version 24 whether it is available.
pub open spec fn spec_encode_port(port: PortView, protocol_version: u16) -> Seq<u8> {
    spec_encode_string(port.name) + spec_encode_string(port.description) + spec_encode_u32(
        port.priority,
    ) + (if protocol_version >= 24 {
        spec_encode_u32(port.available.spec_as_u32())
    } else {
        Seq::empty()
    })
}

/// The bytes of ports, one after the other.
pub open spec fn spec_encode_ports(ports: Seq<PortView>, protocol_version: u16) -> Seq<u8>
    decreases ports.len(),
{
    if ports.len() == 0 {
        Seq::empty()
    } else {
        spec_encode_ports(ports.drop_last(), protocol_version) + spec_encode_port(
            ports.last(),
            protocol_version,
        )
    }
}

/// The fields of a sink that every protocol version knows.
pub open spec fn spec_encode_sink_base(sink: SinkView, protocol_version: u16) -> Seq<u8> {
    spec_encode_u32(sink.index) + spec_encode_string(sink.name) + spec_encode_string(
        spec_sink_description(sink.props),
    ) + spec_encode_sample_spec(spec_downgrade(sink.sample_spec, protocol_version))
        + spec_encode_value(ValueView::ChannelMap(sink.channel_map)) + spec_encode_u32(
        INVALID_INDEX,
    ) + spec_encode_value(ValueView::CVolume(sink.cvolume)) + spec_encode_bool(sink.muted)
        + spec_encode_u32(INVALID_INDEX) + spec_encode_optional_string(None) + spec_encode_value(
        ValueView::Usec(0),
    ) + spec_encode_string("Unknown Driver".spec_bytes()) + spec_encode_u32(sink.flags)
        + spec_encode_proplist(sink.props) + spec_encode_value(ValueView::Usec(0))
}

/// The fields of a sink that version 15 added: base volume, state, volume steps, card index.
pub open spec fn spec_encode_sink_state(sink: SinkView) -> Seq<u8> {
    spec_encode_value(ValueView::Volume(VOLUME_NORM)) + spec_encode_u32(sink.state.spec_as_u32())
        + spec_encode_u32(100) + spec_encode_u32(INVALID_INDEX)
}

/// The fields of a sink that version 16 added: the number of ports, the ports, and the name of
/// the active port.
pub open spec fn spec_encode_sink_ports(sink: SinkView, protocol_version: u16) -> Seq<u8> {
    spec_encode_u32(sink.ports.len() as u32) + spec_encode_ports(sink.ports, protocol_version)
        + spec_encode_string(sink.ports[sink.active_port].name)
}

/// The fields of a sink that version 21 added: the number of formats, and the formats.
pub open spec fn spec_encode_sink_formats(sink: SinkView) -> Seq<u8> {
    seq![TAG_U8, sink.formats.len() as u8] + spec_encode_formats(sink.formats)
}

/// The bytes of one sink at a protocol version.
pub open spec fn spec_encode_sink_info(sink: SinkView, protocol_version: u16) -> Seq<u8> {
    spec_encode_sink_base(sink, protocol_version) + (if protocol_version >= 15 {
        spec_encode_sink_state(sink)
    } else {
        Seq::empty()
    }) + (if protocol_version >= 16 {
        spec_encode_sink_ports(sink, protocol_version)
    } else {
        Seq::empty()
    }) + (if protocol_version >= 21 {
        spec_encode_sink_formats(sink)
    } else {
        Seq::empty()
    })
}

/// The bytes of sinks, one after the other, without separators.
pub open spec fn spec_encode_sink_infos(sinks: Seq<SinkView>, protocol_version: u16) -> Seq<u8>
    decreases sinks.len(),
{
    if sinks.len() == 0 {
        Seq::empty()
    } else {
        spec_encode_sink_infos(sinks.drop_last(), protocol_version) + spec_encode_sink_info(
            sinks.last(),
            protocol_version,
        )
    }
}

/// What sinks hold, one for one.
pub open spec fn spec_sink_views(sinks: Seq<&Sink>) -> Seq<SinkView> {
    Seq::new(sinks.len(), |i: int| (*sinks[i])@)
}

/// The reply to a `GetSinkInfoList` command: all sinks.
pub struct GetSinkInfoListReply<'a> {
    sinks: Vec<&'a Sink>,
}

impl<'a> View for GetSinkInfoListReply<'a> {
    type V = Seq<SinkView>;

    closed spec fn view(&self) -> Seq<SinkView> {
        spec_sink_views(self.sinks@)
    }
}

/// The text of a sink's description where it has none.
fn null_description() -> (r: PaString)
    ensures
        r@ == "(null)".spec_bytes(),
{
    proof {
        reveal_strlit("(null)");
    }
    PaString::from_plain_text("(null)")
}

/// The name of the driver of every sink.
fn driver_name() -> (r: PaString)
    ensures
        r@ == "Unknown Driver".spec_bytes(),
{
    proof {
        reveal_strlit("Unknown Driver");
    }
    PaString::from_plain_text("Unknown Driver")
}

/// Writes the fields of a sink that every protocol version knows.
#[verifier::rlimit(40)]
fn write_sink_base(w: &mut TagStructWriter, sink: &Sink, protocol_version: u16)
    ensures
        final(w)@ == old(w)@ + spec_encode_sink_base(sink@, protocol_version),
{
    let ghost start = w@;
    let ghost v = sink@;
    let fallback = null_description();
    // sink description (which may not be a null string)
    let description = match sink.props().get(Prop::DeviceDescription) {
        Some(bytes) => match PaStr::from_bytes_with_nul(bytes) {
            Ok(description) => description,
            Err(_) => fallback.as_pastr(),
        },
        None => fallback.as_pastr(),
    };
    let driver = driver_name();
        w.write(sink.index());
        let ghost mut acc = spec_encode_u32(v.index);
        w.write(sink.name());
        proof {
            lemma_append_assoc(start, acc, spec_encode_string(v.name));
            acc = acc + spec_encode_string(v.name);
        }
        w.write(description);
        proof {
            lemma_append_assoc(start, acc, spec_encode_string(spec_sink_description(v.props)));
            acc = acc + spec_encode_string(spec_sink_description(v.props));
        }
        w.write_versioned(sink.sample_spec(), protocol_version);
        proof {
            lemma_append_assoc(start, acc, spec_encode_sample_spec(spec_downgrade(v.sample_spec, protocol_version)));
            acc = acc + spec_encode_sample_spec(spec_downgrade(v.sample_spec, protocol_version));
        }
        w.write(sink.channel_map());
        proof {
            lemma_append_assoc(start, acc, spec_encode_value(ValueView::ChannelMap(v.channel_map)));
            acc = acc + spec_encode_value(ValueView::ChannelMap(v.channel_map));
        }
        // sink module (we don't have modules)
        w.write(INVALID_INDEX);
        proof {
            lemma_append_assoc(start, acc, spec_encode_u32(INVALID_INDEX));
            acc = acc + spec_encode_u32(INVALID_INDEX);
        }
        w.write(sink.cvolume());
        proof {
            lemma_append_assoc(start, acc, spec_encode_value(ValueView::CVolume(v.cvolume)));
            acc = acc + spec_encode_value(ValueView::CVolume(v.cvolume));
        }
        w.write(sink.muted());
        proof {
            lemma_append_assoc(start, acc, spec_encode_bool(v.muted));
            acc = acc + spec_encode_bool(v.muted);
        }
        // sink's monitor source
        w.write(INVALID_INDEX);
        proof {
            lemma_append_assoc(start, acc, spec_encode_u32(INVALID_INDEX));
            acc = acc + spec_encode_u32(INVALID_INDEX);
        }
        // sink's monitor source name
        w.write(None::<PaStr<'_>>);
        proof {
            lemma_append_assoc(start, acc, spec_encode_optional_string(None));
            acc = acc + spec_encode_optional_string(None);
        }
        w.write(sink.actual_latency());
        proof {
            lemma_append_assoc(start, acc, spec_encode_value(ValueView::Usec(0)));
            acc = acc + spec_encode_value(ValueView::Usec(0));
        }
        w.write(driver.as_pastr());
        proof {
            lemma_append_assoc(start, acc, spec_encode_string("Unknown Driver".spec_bytes()));
            acc = acc + spec_encode_string("Unknown Driver".spec_bytes());
        }
        w.write(sink.flags().bits());
        proof {
            lemma_append_assoc(start, acc, spec_encode_u32(v.flags));
            acc = acc + spec_encode_u32(v.flags);
        }
        w.write(sink.props());
        proof {
            lemma_append_assoc(start, acc, spec_encode_proplist(v.props));
            acc = acc + spec_encode_proplist(v.props);
        }
        w.write(sink.requested_latency());
        proof {
            lemma_append_assoc(start, acc, spec_encode_value(ValueView::Usec(0)));
            acc = acc + spec_encode_value(ValueView::Usec(0));
        }
    proof {
        assert(acc == spec_encode_sink_base(v, protocol_version));
    }
}

/// Writes the fields of a sink that version 15 added.
fn write_sink_state(w: &mut TagStructWriter, sink: &Sink)
    ensures
        final(w)@ == old(w)@ + spec_encode_sink_state(sink@),
{
    let ghost start = w@;
    let ghost v = sink@;
    w.write(sink.base_volume());
    let ghost mut acc = spec_encode_value(ValueView::Volume(VOLUME_NORM));
    w.write(sink.state().as_u32());
    proof {
        lemma_append_assoc(start, acc, spec_encode_u32(v.state.spec_as_u32()));
        acc = acc + spec_encode_u32(v.state.spec_as_u32());
    }
    w.write(sink.volume_steps());
    proof {
        lemma_append_assoc(start, acc, spec_encode_u32(100));
        acc = acc + spec_encode_u32(100);
    }
    // card index (we don't have cards)
    w.write(INVALID_INDEX);
    proof {
        lemma_append_assoc(start, acc, spec_encode_u32(INVALID_INDEX));
        acc = acc + spec_encode_u32(INVALID_INDEX);
    }
    proof {
        assert(acc == spec_encode_sink_state(v));
    }
}

/// Writes one port of a sink.
fn write_port(w: &mut TagStructWriter, port: &Port, protocol_version: u16)
    ensures
        final(w)@ == old(w)@ + spec_encode_port(port@, protocol_version),
{
    let ghost start = w@;
    let ghost v = port@;
    w.write(port.name());
    let ghost mut acc = spec_encode_string(v.name);
    w.write(port.description());
    proof {
        lemma_append_assoc(start, acc, spec_encode_string(v.description));
        acc = acc + spec_encode_string(v.description);
    }
    w.write(port.priority());
    proof {
        lemma_append_assoc(start, acc, spec_encode_u32(v.priority));
        acc = acc + spec_encode_u32(v.priority);
    }
    if protocol_version >= 24 {
        w.write(port.available().as_u32());
        proof {
            lemma_append_assoc(start, acc, spec_encode_u32(v.available.spec_as_u32()));
        }
    } else {
        proof {
            assert(acc + Seq::<u8>::empty() =~= acc);
        }
    }
}

/// Writes the fields of a sink that version 16 added.
#[verifier::loop_isolation(false)]
#[verifier::rlimit(40)]
fn write_sink_ports(w: &mut TagStructWriter, sink: &Sink, protocol_version: u16)
    ensures
        final(w)@ == old(w)@ + spec_encode_sink_ports(sink@, protocol_version),
{
    let ghost start = w@;
    let ghost v = sink@;
    let ports = sink.ports();
    // send sink port info
    w.write(ports.len() as u32);
    let ghost count = spec_encode_u32(v.ports.len() as u32);
    let mut i: usize = 0;
    proof {
        assert(count + Seq::<u8>::empty() =~= count);
    }
    while i < ports.len()
        invariant
            0 <= i <= ports@.len(),
            w@ == start + (count + spec_encode_ports(v.ports.take(i as int), protocol_version)),
        decreases ports@.len() - i,
    {
        let ghost before = spec_encode_ports(v.ports.take(i as int), protocol_version);
        write_port(w, &ports[i], protocol_version);
        proof {
            assert(v.ports.take(i + 1).drop_last() =~= v.ports.take(i as int));
            assert(v.ports.take(i + 1).last() == ports@[i as int]@);
            lemma_append_assoc(count, before, spec_encode_port(ports@[i as int]@, protocol_version));
            lemma_append_assoc(
                start,
                count + before,
                spec_encode_port(ports@[i as int]@, protocol_version),
            );
        }
        i = i + 1;
    }
    // active port name
    w.write(sink.active_port().name());
    proof {
        assert(v.ports.take(ports@.len() as int) =~= v.ports);
        lemma_append_assoc(
            start,
            count + spec_encode_ports(v.ports, protocol_version),
            spec_encode_string(v.ports[v.active_port].name),
        );
    }
}

/// Writes the fields of a sink that version 21 added.
#[verifier::loop_isolation(false)]
fn write_sink_formats(w: &mut TagStructWriter, sink: &Sink)
    ensures
        final(w)@ == old(w)@ + spec_encode_sink_formats(sink@),
{
    let ghost start = w@;
    let ghost v = sink@;
    let formats = sink.formats();
    // send supported sample formats
    w.write(formats.len() as u8);
    let ghost count = seq![TAG_U8, v.formats.len() as u8];
    let mut i: usize = 0;
    proof {
        assert(count + Seq::<u8>::empty() =~= count);
        assert(spec_encode_value(ValueView::U8(formats@.len() as u8)) =~= count);
    }
    while i < formats.len()
        invariant
            0 <= i <= formats@.len(),
            w@ == start + (count + spec_encode_formats(v.formats.take(i as int))),
        decreases formats@.len() - i,
    {
        let ghost before = spec_encode_formats(v.formats.take(i as int));
        w.write(&formats[i]);
        proof {
            assert(v.formats.take(i + 1).drop_last() =~= v.formats.take(i as int));
            assert(v.formats.take(i + 1).last() == formats@[i as int]@);
            lemma_append_assoc(
                count,
                before,
                spec_encode_value(ValueView::FormatInfo(formats@[i as int]@)),
            );
            lemma_append_assoc(
                start,
                count + before,
                spec_encode_value(ValueView::FormatInfo(formats@[i as int]@)),
            );
        }
        i = i + 1;
    }
    proof {
        assert(v.formats.take(formats@.len() as int) =~= v.formats);
    }
}

/// Writes one sink at a protocol version.
#[verifier::rlimit(40)]
fn write_sink_info(w: &mut TagStructWriter, sink: &Sink, protocol_version: u16)
    ensures
        final(w)@ == old(w)@ + spec_encode_sink_info(sink@, protocol_version),
{
    let ghost start = w@;
    let ghost v = sink@;
    write_sink_base(w, sink, protocol_version);
    let ghost mut acc = spec_encode_sink_base(v, protocol_version);
    let ghost state = if protocol_version >= 15 {
        spec_encode_sink_state(v)
    } else {
        Seq::<u8>::empty()
    };
    if protocol_version >= 15 {
        write_sink_state(w, sink);
    }
    proof {
        lemma_append_assoc(start, acc, state);
        assert(acc + Seq::<u8>::empty() =~= acc);
        acc = acc + state;
    }
    let ghost ports = if protocol_version >= 16 {
        spec_encode_sink_ports(v, protocol_version)
    } else {
        Seq::<u8>::empty()
    };
    if protocol_version >= 16 {
        write_sink_ports(w, sink, protocol_version);
    }
    proof {
        lemma_append_assoc(start, acc, ports);
        assert(acc + Seq::<u8>::empty() =~= acc);
        acc = acc + ports;
    }
    let ghost formats = if protocol_version >= 21 {
        spec_encode_sink_formats(v)
    } else {
        Seq::<u8>::empty()
    };
    if protocol_version >= 21 {
        write_sink_formats(w, sink);
    }
    proof {
        lemma_append_assoc(start, acc, formats);
        assert(acc + Seq::<u8>::empty() =~= acc);
        acc = acc + formats;
        assert(acc == spec_encode_sink_info(v, protocol_version));
    }
}

impl<'a> GetSinkInfoListReply<'a> {
    /// Creates the reply that lists the given sinks, in their order.
    pub fn new(sinks: Vec<&'a Sink>) -> (reply: GetSinkInfoListReply<'a>)
        ensures
            reply@ == spec_sink_views(sinks@),
    {
        GetSinkInfoListReply { sinks }
    }
}

impl<'a> ToTagStruct for GetSinkInfoListReply<'a> {
    open spec fn spec_encoding(&self, protocol_version: u16) -> Seq<u8> {
        spec_encode_sink_infos(self@, protocol_version)
    }

    open spec fn spec_encodable(&self) -> bool {
        true
    }

    /// Sink info is simply concatenated onto the tagstruct, without separator or length or
    /// anything.
    #[verifier::loop_isolation(false)]
    fn to_tag_struct(&self, w: &mut TagStructWriter, protocol_version: u16) -> (r: Result<
        (),
        Error,
    >) {
        let ghost start = w@;
        let ghost views = self@;
        let mut i: usize = 0;
        proof {
            assert(start + Seq::<u8>::empty() =~= start);
        }
        while i < self.sinks.len()
            invariant
                0 <= i <= self.sinks@.len(),
                w@ == start + spec_encode_sink_infos(views.take(i as int), protocol_version),
            decreases self.sinks@.len() - i,
        {
            let ghost before = spec_encode_sink_infos(views.take(i as int), protocol_version);
            write_sink_info(w, self.sinks[i], protocol_version);
            proof {
                assert(views.take(i + 1).drop_last() =~= views.take(i as int));
                assert(views.take(i + 1).last() == (*self.sinks@[i as int])@);
                lemma_append_assoc(
                    start,
                    before,
                    spec_encode_sink_info((*self.sinks@[i as int])@, protocol_version),
                );
            }
            i = i + 1;
        }
        proof {
            assert(views.take(self.sinks@.len() as int) =~= views);
        }
        Ok(())
    }
}

/// What the entry of a module in a module list holds.
pub struct ModuleInfoView {
    pub index: u32,
    /// The bytes of the name of the module.
    pub name: Seq<u8>,
    /// The bytes of the argument that the module was loaded with.
    pub argument: Seq<u8>,
    /// How many users the module has.
    pub users: u32,
    pub props: PropSeq,
}

/// The one module that a server without modules lists: index 0, the name `Default Module`, an
/// empty argument, one user, and no properties.
pub open spec fn spec_default_module() -> ModuleInfoView {
    ModuleInfoView {
        index: 0,
        name: "Default Module".spec_bytes(),
        argument: Seq::empty(),
        users: 1,
        props: PropSeq::empty(),
    }
}

/// The bytes of one module at a protocol version: index, name, argument, number of users, and
/// the property list, in place of which versions before 15 have a boolean, which is `false`.
pub open spec fn spec_encode_module(module: ModuleInfoView, protocol_version: u16) -> Seq<u8> {
    spec_encode_u32(module.index) + spec_encode_string(module.name) + spec_encode_string(
        module.argument,
    ) + spec_encode_u32(module.users) + (if protocol_version < 15 {
        spec_encode_bool(false)
    } else {
        spec_encode_proplist(module.props)
    })
}

/// The bytes of the one module that a server without modules lists.
pub open spec fn spec_encode_module_info(protocol_version: u16) -> Seq<u8> {
    spec_encode_module(spec_default_module(), protocol_version)
}

/// The reply to a `GetModuleInfoList` command: the one module that it lists.
#[derive(Debug)]
pub struct GetModuleInfoListReply {
    index: u32,
    name: PaString,
    argument: PaString,
    users: u32,
    props: PropList,
}

impl View for GetModuleInfoListReply {
    type V = ModuleInfoView;

    closed spec fn view(&self) -> ModuleInfoView {
        ModuleInfoView {
            index: self.index,
            name: self.name@,
            argument: self.argument@,
            users: self.users,
            props: self.props@,
        }
    }
}

impl GetModuleInfoListReply {
    /// Creates a dummy reply for servers that do not support modules: it lists one module,
    /// with index 0, the name `Default Module`, an empty argument, one user, and no properties.
    pub fn new_dummy() -> (reply: GetModuleInfoListReply)
        ensures
            reply@ == spec_default_module(),
    {
        proof {
            reveal_strlit("Default Module");
        }
        GetModuleInfoListReply {
            index: 0,
            name: PaString::from_plain_text("Default Module"),
            argument: PaStr::empty().to_owned(),
            users: 1,
            props: PropList::new(),
        }
    }
}

impl ToTagStruct for GetModuleInfoListReply {
    open spec fn spec_encoding(&self, protocol_version: u16) -> Seq<u8> {
        spec_encode_module(self@, protocol_version)
    }

    open spec fn spec_encodable(&self) -> bool {
        true
    }

    fn to_tag_struct(&self, w: &mut TagStructWriter, protocol_version: u16) -> (r: Result<
        (),
        Error,
    >) {
        let ghost start = w@;
        let ghost v = self@;
        // ID
        w.write(self.index);
        let ghost mut acc = spec_encode_u32(v.index);
        w.write(self.name.as_pastr());
        proof {
            lemma_append_assoc(start, acc, spec_encode_string(v.name));
            acc = acc + spec_encode_string(v.name);
        }
        // "argument"
        w.write(self.argument.as_pastr());
        proof {
            lemma_append_assoc(start, acc, spec_encode_string(v.argument));
            acc = acc + spec_encode_string(v.argument);
        }
        // users of the module
        w.write(self.users);
        proof {
            lemma_append_assoc(start, acc, spec_encode_u32(v.users));
            acc = acc + spec_encode_u32(v.users);
        }
        if protocol_version < 15 {
            // autoload
            w.write(false);
            proof {
                lemma_append_assoc(start, acc, spec_encode_bool(false));
            }
        } else {
            // module props
            w.write(&self.props);
            proof {
                lemma_append_assoc(start, acc, spec_encode_proplist(v.props));
            }
        }
        Ok(())
    }
}

/// What the entry of a client in a client list holds.
pub struct ClientInfoView {
    pub index: u32,
    /// The bytes of the name of the application.
    pub app_name: Seq<u8>,
    /// The bytes of the name of the driver.
    pub driver: Seq<u8>,
    pub props: PropSeq,
}

/// The name of the application of a client: its application name property, where that is a
/// string of valid UTF-8, and the empty string where it is not.
pub open spec fn spec_app_name(props: PropSeq) -> Seq<u8> {
    match spec_lookup(props, Prop::ApplicationName.spec_key()) {
        Some(blob) => if is_c_string(blob) && valid_utf8(blob.drop_last()) {
            blob.drop_last()
        } else {
            Seq::empty()
        },
        None => Seq::empty(),
    }
}

/// The entry of a client in a client list.
#[derive(Clone, Copy, Debug)]
pub struct ClientInfo<'a> {
    index: u32,
    app_name: PaStr<'a>,
    driver: PaStr<'a>,
    props: &'a PropList,
}

impl<'a> View for ClientInfo<'a> {
    type V = ClientInfoView;

    closed spec fn view(&self) -> ClientInfoView {
        ClientInfoView {
            index: self.index,
            app_name: self.app_name@,
            driver: self.driver@,
            props: (*self.props)@,
        }
    }
}

impl<'a> ClientInfo<'a> {
    /// Creates the entry of the client with the given index, driver and properties.
    pub fn new(index: u32, driver: PaStr<'a>, props: &'a PropList) -> (info: ClientInfo<'a>)
        ensures
            info@ == (ClientInfoView {
                index,
                app_name: spec_app_name(props@),
                driver: driver@,
                props: props@,
            }),
    {
        let app_name = match props.get_string(Prop::ApplicationName) {
            Some(name) => name,
            None => PaStr::empty(),
        };
        proof {
            if let Some(blob) = spec_lookup(props@, Prop::ApplicationName.spec_key()) {
                if is_c_string(blob) {
                    assert(blob =~= blob.drop_last().push(0));
                }
                assert(app_name@.push(0).drop_last() =~= app_name@);
            }
        }
        ClientInfo { index, app_name, driver, props }
    }
}

/// The bytes of one client: index, application name, the index of no module, driver, and
/// properties.
pub open spec fn spec_encode_client_info(client: ClientInfoView) -> Seq<u8> {
    spec_encode_u32(client.index) + spec_encode_string(client.app_name) + spec_encode_u32(
        INVALID_INDEX,
    ) + spec_encode_string(client.driver) + spec_encode_proplist(client.props)
}

/// The bytes of clients, one after the other, without separators.
pub open spec fn spec_encode_client_infos(clients: Seq<ClientInfoView>) -> Seq<u8>
    decreases clients.len(),
{
    if clients.len() == 0 {
        Seq::empty()
    } else {
        spec_encode_client_infos(clients.drop_last()) + spec_encode_client_info(clients.last())
    }
}

/// What the entries of a client list hold, one for one.
pub open spec fn spec_client_views(clients: Seq<ClientInfo<'_>>) -> Seq<ClientInfoView> {
    Seq::new(clients.len(), |i: int| clients[i]@)
}

/// The reply to a `GetClientInfoList` command: all clients.
#[derive(Debug)]
pub struct GetClientInfoListReply<'a> {
    clients: Vec<ClientInfo<'a>>,
}

impl<'a> View for GetClientInfoListReply<'a> {
    type V = Seq<ClientInfoView>;

    closed spec fn view(&self) -> Seq<ClientInfoView> {
        spec_client_views(self.clients@)
    }
}

impl<'a> GetClientInfoListReply<'a> {
    /// Creates the reply that lists the given clients, in their order.
    pub fn new(clients: Vec<ClientInfo<'a>>) -> (reply: GetClientInfoListReply<'a>)
        ensures
            reply@ == spec_client_views(clients@),
    {
        GetClientInfoListReply { clients }
    }
}

/// Writes one client.
fn write_client_info(w: &mut TagStructWriter, client: &ClientInfo<'_>)
    ensures
        final(w)@ == old(w)@ + spec_encode_client_info(client@),
{
    let ghost start = w@;
    let ghost v = client@;
    w.write(client.index);
    let ghost mut acc = spec_encode_u32(v.index);
    w.write(client.app_name);
    proof {
        lemma_append_assoc(start, acc, spec_encode_string(v.app_name));
        acc = acc + spec_encode_string(v.app_name);
    }
    // no/unknown module
    w.write(INVALID_INDEX);
    proof {
        lemma_append_assoc(start, acc, spec_encode_u32(INVALID_INDEX));
        acc = acc + spec_encode_u32(INVALID_INDEX);
    }
    w.write(client.driver);
    proof {
        lemma_append_assoc(start, acc, spec_encode_string(v.driver));
        acc = acc + spec_encode_string(v.driver);
    }
    w.write(client.props);
    proof {
        lemma_append_assoc(start, acc, spec_encode_proplist(v.props));
    }
}

impl<'a> ToTagStruct for GetClientInfoListReply<'a> {
    open spec fn spec_encoding(&self, protocol_version: u16) -> Seq<u8> {
        spec_encode_client_infos(self@)
    }

    open spec fn spec_encodable(&self) -> bool {
        true
    }

    #[verifier::loop_isolation(false)]
    fn to_tag_struct(&self, w: &mut TagStructWriter, protocol_version: u16) -> (r: Result<
        (),
        Error,
    >) {
        let ghost start = w@;
        let ghost views = self@;
        let mut i: usize = 0;
        proof {
            assert(start + Seq::<u8>::empty() =~= start);
        }
        while i < self.clients.len()
            invariant
                0 <= i <= self.clients@.len(),
                w@ == start + spec_encode_client_infos(views.take(i as int)),
            decreases self.clients@.len() - i,
        {
            let ghost before = spec_encode_client_infos(views.take(i as int));
            write_client_info(w, &self.clients[i]);
            proof {
                assert(views.take(i + 1).drop_last() =~= views.take(i as int));
                assert(views.take(i + 1).last() == self.clients@[i as int]@);
                lemma_append_assoc(start, before, spec_encode_client_info(self.clients@[i as int]@));
            }
            i = i + 1;
        }
        proof {
            assert(views.take(self.clients@.len() as int) =~= views);
        }
        Ok(())
    }
}

} // verus!
