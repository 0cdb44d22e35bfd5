//! The server side of a connection: the clients and sinks that a server knows, and what it does
//! with the packets of a client.
//!
//! Nothing in here touches a socket. The owner of the sockets hands every packet that it
//! received to `ClientHandler::handle_packet`, together with the data of the server, and sends
//! what comes back.

use vstd::prelude::*;
use crate::command::auth::spec_handshake_word;
use crate::command::auth::AuthView;
use crate::command::get_info::spec_app_name;
use crate::command::get_info::spec_client_views;
use crate::command::get_info::spec_encode_client_infos;
use crate::command::get_info::spec_encode_module_info;
use crate::command::get_info::spec_encode_sink_infos;
use crate::command::get_info::spec_sink_views;
use crate::command::get_info::ClientInfo;
use crate::command::get_info::ClientInfoView;
use crate::command::get_info::GetClientInfoListReply;
use crate::command::get_info::GetModuleInfoListReply;
use crate::command::get_info::GetSinkInfoListReply;
use crate::command::spec_encode_command;
use crate::command::spec_encode_reply;
use crate::command::spec_parse_command;
use crate::command::AuthReply;
use crate::command::Command;
use crate::command::CommandKind;
use crate::command::CommandKindView;
use crate::command::CommandView;
use crate::command::SetClientNameReply;
use crate::command::PROTOCOL_MIN_VERSION;
use crate::command::PROTOCOL_VERSION;
use crate::cookie::AuthCookie;
use crate::error::Error;
use crate::error::ErrorKind;
use crate::error::PulseError;
use crate::idxset::spec_place;
use crate::idxset::Idx;
use crate::idxset::IdxSet;
use crate::packet::spec_classify;
use crate::packet::Message;
use crate::packet::MessageKind;
use crate::packet::Packet;
use crate::packet::CONTROL_CHANNEL;
use crate::sink::Sink;
use crate::sink::SinkView;
use crate::string::PaStr;
use crate::types::proplist::spec_extend;
use crate::types::proplist::PropList;
use crate::types::proplist::PropSeq;
use crate::types::tagstruct::grammar::spec_encode_u32;
use crate::types::tagstruct::writer::ToTagStruct;

verus! {

/// What the record of a client holds.
pub struct ClientView {
    pub id: u32,
    pub protocol_version: u16,
    pub authed: bool,
    pub props: PropSeq,
}

/// Data associated with every client connected to the server.
#[derive(Debug)]
pub struct Client {
    id: u32,
    /// Version of the PulseAudio protocol implemented by the client.
    ///
    /// This starts off as `PROTOCOL_MIN_VERSION` and is set to the actual version when the client
    /// informs us. If the client only supports an older version, is it rejected.
    protocol_version: u16,
    /// Whether this client is authenticated to the server.
    authed: bool,
    /// Client properties.
    props: PropList,
}

impl View for Client {
    type V = ClientView;

    closed spec fn view(&self) -> ClientView {
        ClientView {
            id: self.id,
            protocol_version: self.protocol_version,
            authed: self.authed,
            props: self.props@,
        }
    }
}

impl Client {
    /// Creates the record of a client that has just connected: it speaks the oldest protocol
    /// version that is understood, is not authenticated and has no properties.
    pub fn new(id: u32) -> (client: Client)
        ensures
            client@ == (ClientView {
                id,
                protocol_version: PROTOCOL_MIN_VERSION,
                authed: false,
                props: PropSeq::empty(),
            }),
    {
        Client { id, protocol_version: PROTOCOL_MIN_VERSION, authed: false, props: PropList::new() }
    }

    /// The index of the client.
    pub fn id(&self) -> (r: u32)
        ensures
            r == self@.id,
    {
        self.id
    }

    /// The protocol version that the client speaks.
    pub fn protocol_version(&self) -> (r: u16)
        ensures
            r == self@.protocol_version,
    {
        self.protocol_version
    }

    /// Whether the client is authenticated.
    pub fn authed(&self) -> (r: bool)
        ensures
            r == self@.authed,
    {
        self.authed
    }

    /// The properties of the client.
    pub fn props(&self) -> (r: &PropList)
        ensures
            r@ == self@.props,
    {
        &self.props
    }
}

/// What the records of clients hold, in the order of their indices.
pub open spec fn spec_client_records(entries: Seq<(u32, Client)>) -> Seq<ClientView> {
    Seq::new(entries.len(), |i: int| entries[i].1@)
}

/// What sinks hold, in the order of their indices.
pub open spec fn spec_sink_records(entries: Seq<(u32, Sink)>) -> Seq<SinkView> {
    Seq::new(entries.len(), |i: int| entries[i].1@)
}

/// What a server answers to a command.
pub enum Response {
    /// A reply, with the bytes that follow opcode and tag.
    Reply(Seq<u8>),
    /// An error, with its code.
    Error(PulseError),
}

/// What a server does with an `Auth` command: a version below the oldest supported one is
/// refused. Else the client speaks the version from now on, and is authenticated if its cookie
/// is that of the server. The server never enables shared memory.
pub open spec fn spec_authenticate(client: ClientView, cookie: Seq<u8>, auth: AuthView) -> (
    ClientView,
    Response,
) {
    if auth.version < PROTOCOL_MIN_VERSION {
        (client, Response::Error(PulseError::Version))
    } else {
        let informed = ClientView { protocol_version: auth.version, ..client };
        if auth.cookie == cookie {
            (
                ClientView { authed: true, ..informed },
                Response::Reply(
                    spec_encode_u32(spec_handshake_word(PROTOCOL_VERSION, false, false)),
                ),
            )
        } else {
            (informed, Response::Error(PulseError::Access))
        }
    }
}

/// The entries of a client list for the records of clients.
pub open spec fn spec_client_infos(clients: Seq<ClientView>) -> Seq<ClientInfoView> {
    Seq::new(
        clients.len(),
        |i: int|
            ClientInfoView {
                index: clients[i].id,
                app_name: spec_app_name(clients[i].props),
                driver: Seq::empty(),
                props: clients[i].props,
            },
    )
}

/// What a server does with the command of a client: what becomes of the record of the client,
/// and what is answered.
///
/// `idx` is the index of the client, `clients` and `sinks` are all clients and sinks that the
/// server knows, in the order of their indices.
pub open spec fn spec_execute(
    idx: u32,
    client: ClientView,
    cookie: Seq<u8>,
    clients: Seq<ClientView>,
    sinks: Seq<SinkView>,
    kind: CommandKindView,
) -> (ClientView, Response) {
    if !(kind is Auth) && !client.authed {
        (client, Response::Error(PulseError::Access))
    } else {
        match kind {
            CommandKindView::Auth(auth) => spec_authenticate(client, cookie, auth),
            CommandKindView::SetClientName(props) => (
                ClientView { props: spec_extend(client.props, props), ..client },
                Response::Reply(spec_encode_u32(idx)),
            ),
            CommandKindView::GetSinkInfoList => (
                client,
                Response::Reply(spec_encode_sink_infos(sinks, client.protocol_version)),
            ),
            CommandKindView::GetClientInfoList => (
                client,
                Response::Reply(spec_encode_client_infos(spec_client_infos(clients))),
            ),
            CommandKindView::GetModuleInfoList => (
                client,
                Response::Reply(spec_encode_module_info(client.protocol_version)),
            ),
            CommandKindView::Reply { .. } => (client, Response::Error(PulseError::Protocol)),
            CommandKindView::Error { .. } => (client, Response::Error(PulseError::Protocol)),
            _ => (client, Response::Error(PulseError::NotImplemented)),
        }
    }
}

/// The bytes of an error reply to the command with the given tag.
pub open spec fn spec_encode_error_reply(tag: u32, code: PulseError) -> Seq<u8> {
    spec_encode_command(CommandView { tag, kind: CommandKindView::Error { code } }, 0)
}

/// What is answered in the end: a reply whose bytes are too many for one packet becomes an
/// error.
pub open spec fn spec_settle(tag: u32, response: Response) -> Response {
    match response {
        Response::Reply(body) => if spec_encode_reply(tag, body).len() <= u32::MAX {
            response
        } else {
            Response::Error(PulseError::TooLarge)
        },
        Response::Error(_) => response,
    }
}

/// The payload of the packet that carries an answer.
pub open spec fn spec_response_payload(tag: u32, response: Response) -> Seq<u8> {
    match spec_settle(tag, response) {
        Response::Reply(body) => spec_encode_reply(tag, body),
        Response::Error(code) => spec_encode_error_reply(tag, code),
    }
}

/// Server data used by server and client handlers.
pub struct ServerData {
    cookie: AuthCookie,
    /// Currently registered clients.
    ///
    /// A client will be added to this list just by opening the control socket, so there might be
    /// bogus clients in here.
    clients: IdxSet<Client>,
    /// Sinks connected to the server.
    ///
    /// Starts out with a dummy sink that ignores all samples, which is never removed to ensure
    /// that there's always at least a fallback sink to connect to.
    sinks: IdxSet<Sink>,
}

impl ServerData {
    /// The bytes of the cookie of the server.
    pub closed spec fn spec_cookie(&self) -> Seq<u8> {
        self.cookie@
    }

    /// The clients with their indices, in the order of the indices.
    pub closed spec fn spec_client_entries(&self) -> Seq<(u32, Client)> {
        self.clients@
    }

    /// The sinks with their indices, in the order of the indices.
    pub closed spec fn spec_sink_entries(&self) -> Seq<(u32, Sink)> {
        self.sinks@
    }

    /// The index that the next client gets.
    pub closed spec fn spec_next_client(&self) -> u32 {
        self.clients.spec_next_idx()
    }

    /// What the records of all clients hold.
    pub open spec fn spec_clients(&self) -> Seq<ClientView> {
        spec_client_records(self.spec_client_entries())
    }

    /// What all sinks hold.
    pub open spec fn spec_sinks(&self) -> Seq<SinkView> {
        spec_sink_records(self.spec_sink_entries())
    }

    /// What the record of the client with the given index holds, if the client is known.
    pub open spec fn spec_client(&self, idx: u32) -> Option<ClientView> {
        match spec_place(self.spec_client_entries(), idx) {
            Some(i) => Some(self.spec_client_entries()[i].1@),
            None => None,
        }
    }

    /// Whether `self` is `before` but for the record of the client with index `idx`, which
    /// holds `client`.
    pub open spec fn differs_in_client(&self, before: &Self, idx: u32, client: ClientView) -> bool {
        &&& self.spec_cookie() == before.spec_cookie()
        &&& self.spec_sinks() == before.spec_sinks()
        &&& self.spec_next_client() == before.spec_next_client()
        &&& spec_place(before.spec_client_entries(), idx) matches Some(i)
        &&& self.spec_clients() == before.spec_clients().update(i, client)
        &&& self.spec_client(idx) == Some(client)
        &&& self.spec_client_entries().len() == before.spec_client_entries().len()
        &&& forall|j: int|
            0 <= j < self.spec_client_entries().len() ==> (#[trigger] self.spec_client_entries()[j]).0
                == before.spec_client_entries()[j].0
    }

    /// Creates the data of a server with the given cookie, no client, and the dummy sink, whose
    /// index is 0.
    pub fn new(auth_cookie: AuthCookie) -> (data: ServerData)
        ensures
            data.spec_cookie() == auth_cookie@,
            data.spec_clients() == Seq::<ClientView>::empty(),
            data.spec_next_client() == 0,
            data.spec_sinks() == seq![crate::sink::spec_dummy_sink(0)],
            data.spec_sink_entries().len() == 1,
            data.spec_sink_entries()[0].0 == 0,
    {
        let mut sinks: IdxSet<Sink> = IdxSet::new();
        let dummy = Sink::new_dummy(sinks.next_idx().value());
        sinks.insert_next(dummy);
        let data = ServerData { cookie: auth_cookie, clients: IdxSet::new(), sinks };
        proof {
            assert(data.spec_clients() =~= Seq::<ClientView>::empty());
            assert(data.spec_sinks() =~= seq![crate::sink::spec_dummy_sink(0)]);
        }
        data
    }

    /// Registers a client that has just connected, and gives its index. Gives nothing once all
    /// indices were given away.
    pub fn connect(&mut self) -> (r: Option<Idx<Client>>)
        ensures
            final(self).spec_cookie() == old(self).spec_cookie(),
            final(self).spec_sinks() == old(self).spec_sinks(),
            match r {
                Some(idx) => {
                    &&& idx@ == old(self).spec_next_client()
                    &&& final(self).spec_next_client() == idx@ + 1
                    &&& old(self).spec_client(idx@) is None
                    &&& final(self).spec_clients() == old(self).spec_clients().push(
                        ClientView {
                            id: idx@,
                            protocol_version: PROTOCOL_MIN_VERSION,
                            authed: false,
                            props: PropSeq::empty(),
                        },
                    )
                    &&& final(self).spec_client(idx@) == Some(final(self).spec_clients().last())
                },
                None => old(self).spec_next_client() == u32::MAX && final(self).spec_clients()
                    == old(self).spec_clients() && final(self).spec_next_client() == old(
                    self,
                ).spec_next_client(),
            },
    {
        if self.clients.is_exhausted() {
            return None;
        }
        let ghost before = self.clients@;
        let client = Client::new(self.clients.next_idx().value());
        let idx = self.clients.insert_next(client);
        proof {
            let after = self.clients@;
            assert(spec_client_records(after) =~= spec_client_records(before).push(after.last().1@));
        }
        Some(idx)
    }

    /// Forgets a client whose connection is closed. Tells whether the client was known.
    pub fn disconnect(&mut self, client: Idx<Client>) -> (known: bool)
        ensures
            final(self).spec_cookie() == old(self).spec_cookie(),
            final(self).spec_sinks() == old(self).spec_sinks(),
            final(self).spec_next_client() == old(self).spec_next_client(),
            known == old(self).spec_client(client@) is Some,
            final(self).spec_client(client@) is None,
            match spec_place(old(self).spec_client_entries(), client@) {
                Some(i) => final(self).spec_clients() == old(self).spec_clients().remove(i),
                None => final(self).spec_clients() == old(self).spec_clients(),
            },
    {
        let ghost before = self.clients@;
        let removed = self.clients.remove(client);
        proof {
            if let Some(i) = spec_place(before, client@) {
                assert(spec_client_records(self.clients@) =~= spec_client_records(before).remove(i));
            }
        }
        removed.is_some()
    }

    /// The number of clients that are connected.
    pub fn client_count(&self) -> (n: usize)
        ensures
            n == self.spec_clients().len(),
    {
        self.clients.len()
    }

    /// The record of the client with the given index, if the client is known.
    pub fn client(&self, idx: Idx<Client>) -> (r: Option<&Client>)
        ensures
            match r {
                Some(client) => self.spec_client(idx@) == Some(client@),
                None => self.spec_client(idx@) is None,
            },
    {
        self.clients.get(idx)
    }

    /// All sinks, in the order of their indices.
    pub fn sinks(&self) -> (sinks: Vec<&Sink>)
        ensures
            spec_sink_views(sinks@) == self.spec_sinks(),
    {
        let sinks = self.sinks.iter();
        proof {
            assert(spec_sink_views(sinks@) =~= self.spec_sinks());
        }
        sinks
    }

    /// The entries of a client list for all clients, in the order of their indices.
    #[verifier::loop_isolation(false)]
    fn client_infos(&self) -> (infos: Vec<ClientInfo<'_>>)
        ensures
            spec_client_views(infos@) == spec_client_infos(self.spec_clients()),
    {
        let clients = self.clients.iter();
        let mut infos: Vec<ClientInfo<'_>> = Vec::new();
        let mut i: usize = 0;
        while i < clients.len()
            invariant
                0 <= i <= clients@.len(),
                infos@.len() == i,
                forall|j: int|
                    0 <= j < i ==> (#[trigger] infos@[j])@ == spec_client_infos(
                        self.spec_clients(),
                    )[j],
            decreases clients@.len() - i,
        {
            let client = clients[i];
            infos.push(ClientInfo::new(client.id, PaStr::empty(), &client.props));
            i = i + 1;
        }
        proof {
            assert(spec_client_views(infos@) =~= spec_client_infos(self.spec_clients()));
        }
        infos
    }
}

impl ServerData {
    /// Whether `self` holds what `before` holds.
    pub open spec fn same_as(&self, before: &Self) -> bool {
        &&& self.spec_cookie() == before.spec_cookie()
        &&& self.spec_sinks() == before.spec_sinks()
        &&& self.spec_next_client() == before.spec_next_client()
        &&& self.spec_clients() == before.spec_clients()
        &&& self.spec_client_entries().len() == before.spec_client_entries().len()
        &&& forall|j: int|
            0 <= j < self.spec_client_entries().len() ==> (#[trigger] self.spec_client_entries()[j]).0
                == before.spec_client_entries()[j].0
    }

    /// Puts what an `Auth` command brought into the record of a client: the protocol version,
    /// and whether the client is authenticated now.
    fn authenticate(&mut self, idx: Idx<Client>, protocol_version: u16, authed: bool)
        requires
            old(self).spec_client(idx@) is Some,
        ensures
            final(self).differs_in_client(
                old(self),
                idx@,
                ClientView {
                    protocol_version,
                    authed: authed || old(self).spec_client(idx@)->Some_0.authed,
                    ..old(self).spec_client(idx@)->Some_0
                },
            ),
    {
        let ghost before = self.clients@;
        let ghost place = spec_place(before, idx@)->Some_0;
        match self.clients.get_mut(idx) {
            Some(client) => {
                client.protocol_version = protocol_version;
                if authed {
                    client.authed = true;
                }
            },
            None => {},
        }
        proof {
            let after = self.clients@;
            assert(spec_client_records(after) =~= spec_client_records(before).update(
                place,
                after[place].1@,
            ));
            crate::idxset::lemma_update_valid(
                before,
                self.clients.spec_next_idx(),
                place,
                after[place].1,
            );
        }
    }

    /// Merges properties into those of a client, overwriting existing values.
    fn merge_props(&mut self, idx: Idx<Client>, props: &PropList)
        requires
            old(self).spec_client(idx@) is Some,
        ensures
            final(self).differs_in_client(
                old(self),
                idx@,
                ClientView {
                    props: spec_extend(old(self).spec_client(idx@)->Some_0.props, props@),
                    ..old(self).spec_client(idx@)->Some_0
                },
            ),
    {
        let ghost before = self.clients@;
        let ghost place = spec_place(before, idx@)->Some_0;
        match self.clients.get_mut(idx) {
            Some(client) => {
                client.props.extend(props);
            },
            None => {},
        }
        proof {
            let after = self.clients@;
            assert(spec_client_records(after) =~= spec_client_records(before).update(
                place,
                after[place].1@,
            ));
            crate::idxset::lemma_update_valid(
                before,
                self.clients.spec_next_idx(),
                place,
                after[place].1,
            );
        }
    }
}

/// Communication processor for a connected client.
pub struct ClientHandler {
    /// Client handle. The managed `Client` structure is stored in the `ServerData`.
    client: Idx<Client>,
    /// Buffer for command replies and errors sent to the client.
    reply_buf: Vec<u8>,
}

/// Frames a reply, or gives the error for a reply whose bytes are too many for one packet.
fn frame_reply<T: ToTagStruct>(
    cmd: &Command<'_>,
    buffer: &mut Vec<u8>,
    protocol_version: u16,
    reply: T,
) -> (r: Result<Packet, PulseError>)
    requires
        reply.spec_encodable(),
    ensures
        match spec_settle(cmd@.tag, Response::Reply(reply.spec_encoding(protocol_version))) {
            Response::Reply(body) => r matches Ok(packet) && packet@.payload == spec_encode_reply(
                cmd@.tag,
                body,
            ) && packet@.desc.channel == CONTROL_CHANNEL,
            Response::Error(code) => r == Err::<Packet, PulseError>(code),
        },
{
    match cmd.reply_packet(buffer, protocol_version, reply) {
        Ok(packet) => Ok(packet),
        Err(_) => Err(PulseError::TooLarge),
    }
}

impl ClientHandler {
    /// The raw index of the client that the handler works for.
    pub closed spec fn spec_client(&self) -> u32 {
        self.client@
    }

    /// Create a new client handler.
    ///
    /// This will create and register a new `Client` with the server automatically. Gives nothing
    /// once all indices were given away.
    pub fn new(data: &mut ServerData) -> (r: Option<ClientHandler>)
        ensures
            final(data).spec_cookie() == old(data).spec_cookie(),
            final(data).spec_sinks() == old(data).spec_sinks(),
            match r {
                Some(handler) => {
                    &&& handler.spec_client() == old(data).spec_next_client()
                    &&& final(data).spec_next_client() == handler.spec_client() + 1
                    &&& final(data).spec_clients() == old(data).spec_clients().push(
                        ClientView {
                            id: handler.spec_client(),
                            protocol_version: PROTOCOL_MIN_VERSION,
                            authed: false,
                            props: PropSeq::empty(),
                        },
                    )
                    &&& final(data).spec_client(handler.spec_client()) == Some(
                        final(data).spec_clients().last(),
                    )
                },
                None => old(data).spec_next_client() == u32::MAX && final(data).spec_clients()
                    == old(data).spec_clients(),
            },
    {
        match data.connect() {
            Some(client) => Some(ClientHandler { client, reply_buf: Vec::with_capacity(512) }),
            None => None,
        }
    }

    /// The index of the client that the handler works for.
    pub fn client(&self) -> (idx: Idx<Client>)
        ensures
            idx@ == self.spec_client(),
    {
        self.client
    }

    /// Forgets the client of the handler, whose connection is closed.
    pub fn close(self, data: &mut ServerData)
        ensures
            final(data).spec_cookie() == old(data).spec_cookie(),
            final(data).spec_sinks() == old(data).spec_sinks(),
            final(data).spec_client(self.spec_client()) is None,
            match spec_place(old(data).spec_client_entries(), self.spec_client()) {
                Some(i) => final(data).spec_clients() == old(data).spec_clients().remove(i),
                None => final(data).spec_clients() == old(data).spec_clients(),
            },
    {
        data.disconnect(self.client);
    }

    /// Handle a `Command` type message and return the response `Packet` to send back to the
    /// client, or the code of the error to send back.
    ///
    /// A client that the server does not know is answered with an internal error.
    #[verifier::rlimit(40)]
    pub fn handle_control(&mut self, data: &mut ServerData, cmd: &Command<'_>) -> (r: Result<
        Packet,
        PulseError,
    >)
        ensures
            final(self).spec_client() == old(self).spec_client(),
            match old(data).spec_client(old(self).spec_client()) {
                None => r == Err::<Packet, PulseError>(PulseError::Internal) && final(data).same_as(
                    old(data),
                ),
                Some(client) => {
                    let (after, response) = spec_execute(
                        old(self).spec_client(),
                        client,
                        old(data).spec_cookie(),
                        old(data).spec_clients(),
                        old(data).spec_sinks(),
                        cmd@.kind,
                    );
                    &&& final(data).differs_in_client(old(data), old(self).spec_client(), after)
                    &&& match spec_settle(cmd@.tag, response) {
                        Response::Reply(body) => r matches Ok(packet) && packet@.payload
                            == spec_encode_reply(cmd@.tag, body) && packet@.desc.channel
                            == CONTROL_CHANNEL,
                        Response::Error(code) => r == Err::<Packet, PulseError>(code),
                    }
                },
            },
    {
        let idx = self.client;
        let (authed, protocol_version) = match data.clients.get(idx) {
            Some(client) => (client.authed, client.protocol_version),
            None => {
                return Err(PulseError::Internal);
            },
        };
        proof {
            data.lemma_same_client(idx@);
        }
        if cmd.needs_auth() && !authed {
            return Err(PulseError::Access);
        }
        match cmd.kind() {
            CommandKind::Auth(auth) => {
                let requested = auth.protocol_version();
                if requested < PROTOCOL_MIN_VERSION {
                    return Err(PulseError::Version);
                }
                let accepted = data.cookie.matches(auth.auth_cookie());
                data.authenticate(idx, requested, accepted);
                if accepted {
                    // The server never enables shared memory.
                    let mut reply = AuthReply::new(PROTOCOL_VERSION);
                    reply.set_use_memfd(false);
                    reply.set_use_shm(false);
                    frame_reply(cmd, &mut self.reply_buf, requested, reply)
                } else {
                    Err(PulseError::Access)
                }
            },
            CommandKind::SetClientName(params) => {
                data.merge_props(idx, params.props());
                frame_reply(
                    cmd,
                    &mut self.reply_buf,
                    protocol_version,
                    SetClientNameReply::new(idx.value()),
                )
            },
            CommandKind::GetSinkInfoList => {
                frame_reply(
                    cmd,
                    &mut self.reply_buf,
                    protocol_version,
                    GetSinkInfoListReply::new(data.sinks()),
                )
            },
            CommandKind::GetClientInfoList => {
                frame_reply(
                    cmd,
                    &mut self.reply_buf,
                    protocol_version,
                    GetClientInfoListReply::new(data.client_infos()),
                )
            },
            CommandKind::GetModuleInfoList => {
                frame_reply(
                    cmd,
                    &mut self.reply_buf,
                    protocol_version,
                    GetModuleInfoListReply::new_dummy(),
                )
            },
            CommandKind::Reply { .. } => Err(PulseError::Protocol),
            // clients shouldn't send this
            CommandKind::Error { .. } => Err(PulseError::Protocol),
            _ => Err(PulseError::NotImplemented),
        }
    }

    /// Process a packet sent to the server and return the response packet to send back to the
    /// client, if there is one to send.
    ///
    /// Only control packets are answered. A payload that is no command is an error, after which
    /// the connection is to be closed: nothing is sent back.
    #[verifier::rlimit(40)]
    pub fn handle_packet(&mut self, data: &mut ServerData, packet: &Packet) -> (r: Result<
        Option<Packet>,
        Error,
    >)
        ensures
            final(self).spec_client() == old(self).spec_client(),
            match spec_classify(packet@.desc) {
                MessageKind::Control => match old(data).spec_client(old(self).spec_client()) {
                    None => r matches Err(e) && e.kind == ErrorKind::UnknownClient && final(data).same_as(old(data)),
                    Some(client) => match spec_parse_command(
                        packet@.payload,
                        client.protocol_version,
                    ) {
                        Err(k) => r matches Err(e) && e.kind == k && final(data).same_as(old(data)),
                        Ok(cmd) => {
                            let (after, response) = spec_execute(
                                old(self).spec_client(),
                                client,
                                old(data).spec_cookie(),
                                old(data).spec_clients(),
                                old(data).spec_sinks(),
                                cmd.kind,
                            );
                            &&& final(data).differs_in_client(
                                old(data),
                                old(self).spec_client(),
                                after,
                            )
                            &&& r matches Ok(Some(reply))
                            &&& reply@.payload == spec_response_payload(cmd.tag, response)
                            &&& reply@.desc.channel == CONTROL_CHANNEL
                        },
                    },
                },
                _ => r matches Ok(None) && final(data).same_as(old(data)),
            },
    {
        let message = match Message::from_packet(packet) {
            Ok(message) => message,
            Err(e) => {
                return Err(e);
            },
        };
        match message {
            Message::Control { tagstruct } => {
                let protocol_version = match data.client(self.client) {
                    Some(client) => client.protocol_version(),
                    None => {
                        return Err(Error::new(ErrorKind::UnknownClient));
                    },
                };
                let cmd = match Command::from_tagstruct(tagstruct, protocol_version) {
                    Ok(cmd) => cmd,
                    Err(e) => {
                        return Err(e);
                    },
                };
                match self.handle_control(data, &cmd) {
                    Ok(reply) => Ok(Some(reply)),
                    Err(code) => {
                        let error = cmd.error_reply(code);
                        proof {
                            lemma_error_reply_small(cmd@.tag, code);
                        }
                        match error.to_packet(&mut self.reply_buf, 0) {
                            Ok(reply) => Ok(Some(reply)),
                            Err(e) => Err(e),
                        }
                    },
                }
            },
            _ => Ok(None),
        }
    }
}

/// An error reply takes 15 bytes.
pub proof fn lemma_error_reply_small(tag: u32, code: PulseError)
    ensures
        spec_encode_error_reply(tag, code).len() == 15,
{
    crate::wire::lemma_be_u32_roundtrip(0, Seq::empty());
    crate::wire::lemma_be_u32_roundtrip(tag, Seq::empty());
    crate::wire::lemma_be_u32_roundtrip(code.spec_code(), Seq::empty());
}

impl ServerData {
    /// A data holds what it holds, and differs from itself in no client.
    pub proof fn lemma_same_client(&self, idx: u32)
        ensures
            self.same_as(self),
            self.spec_client(idx) matches Some(client) ==> self.differs_in_client(self, idx, client),
    {
        if let Some(i) = spec_place(self.spec_client_entries(), idx) {
            assert(self.spec_clients().update(i, self.spec_client_entries()[i].1@)
                =~= self.spec_clients());
        }
    }
}

/// An `Auth` command with a protocol version below the oldest supported one is answered with
/// the error `Version`, and leaves the record of the client as it is, whatever the cookie.
pub proof fn lemma_old_version_rejected(
    idx: u32,
    client: ClientView,
    cookie: Seq<u8>,
    clients: Seq<ClientView>,
    sinks: Seq<SinkView>,
    auth: AuthView,
)
    requires
        auth.version < PROTOCOL_MIN_VERSION,
    ensures
        spec_execute(idx, client, cookie, clients, sinks, CommandKindView::Auth(auth)) == (
            client,
            Response::Error(PulseError::Version),
        ),
{
}

/// Whatever a client that is not authenticated sends but an `Auth` command is answered with the
/// error `Access`, and leaves the record of the client as it is.
pub proof fn lemma_unauthenticated_rejected(
    idx: u32,
    client: ClientView,
    cookie: Seq<u8>,
    clients: Seq<ClientView>,
    sinks: Seq<SinkView>,
    kind: CommandKindView,
)
    requires
        !client.authed,
        !(kind is Auth),
    ensures
        spec_execute(idx, client, cookie, clients, sinks, kind) == (
            client,
            Response::Error(PulseError::Access),
        ),
{
}

/// A client becomes authenticated by nothing but an `Auth` command with a supported protocol
/// version and the cookie of the server. No command takes the authentication away, none changes
/// the index of a client, and only an `Auth` command changes its protocol version.
pub proof fn lemma_authentication(
    idx: u32,
    client: ClientView,
    cookie: Seq<u8>,
    clients: Seq<ClientView>,
    sinks: Seq<SinkView>,
    kind: CommandKindView,
)
    ensures
        ({
            let after = spec_execute(idx, client, cookie, clients, sinks, kind).0;
            &&& after.id == client.id
            &&& client.authed ==> after.authed
            &&& after.authed && !client.authed ==> (kind matches CommandKindView::Auth(auth)
                && auth.version >= PROTOCOL_MIN_VERSION && auth.cookie == cookie)
            &&& after.protocol_version != client.protocol_version ==> kind is Auth
            &&& after.protocol_version >= PROTOCOL_MIN_VERSION || after.protocol_version
                == client.protocol_version
        }),
{
}

/// The answer to a successful `Auth` command announces the protocol version of the server and
/// enables no shared memory: the word of the reply is the version itself.
pub proof fn lemma_auth_reply_word()
    ensures
        spec_handshake_word(PROTOCOL_VERSION, false, false) == 32,
{
    assert(32u32 | 0u32 | 0u32 == 32u32) by (bit_vector);
}

/// What came of trying to connect to a socket file that is already there.
#[derive(Clone, Copy, Debug, PartialEq, Eq, Structural)]
pub enum ConnectOutcome {
    /// Somebody accepted the connection.
    Connected,
    /// The connection was refused: nobody listens on the socket.
    Refused,
    /// Connecting failed for another reason.
    Failed,
}

/// What to do with a socket file that is already there.
#[derive(Clone, Copy, Debug, PartialEq, Eq, Structural)]
pub enum SocketFileAction {
    /// A server is still running on the socket: give up.
    AlreadyRunning,
    /// The socket was left over by an earlier server: remove it, and bind.
    RemoveStale,
    /// Something unexpected happened: give up with the error that connecting gave.
    GiveUp,
}

/// Decides what to do with a socket file that is already there, from what came of trying to
/// connect to it.
pub fn socket_file_action(outcome: ConnectOutcome) -> (action: SocketFileAction)
    ensures
        action == match outcome {
            ConnectOutcome::Connected => SocketFileAction::AlreadyRunning,
            ConnectOutcome::Refused => SocketFileAction::RemoveStale,
            ConnectOutcome::Failed => SocketFileAction::GiveUp,
        },
{
    match outcome {
        ConnectOutcome::Connected => SocketFileAction::AlreadyRunning,
        ConnectOutcome::Refused => SocketFileAction::RemoveStale,
        ConnectOutcome::Failed => SocketFileAction::GiveUp,
    }
}

} // verus!
