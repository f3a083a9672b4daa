use crate::identity::{generate_stable_id, stable_id_of};
use crate::message::{decode_message, decoded, encode_event};
use crate::registry::EventRegistry;
use vstd::prelude::*;
use vstd::utf8::encode_utf8;

verus! {

/// Event name under which a server keeps the handler it runs for each new
/// peer.
pub const CONNECTION_EVENT: &'static str = "connection";

/// Event name of the handler that message-oriented transports run for
/// every inbound message, whatever its text.
pub const MESSAGE_EVENT: &'static str = "message";

/// The one transport handle that a socket owns: a byte stream or a
/// datagram socket.
pub enum Transport<S, U> {
    Tcp(S),
    Udp(U),
}

/// A connection wrapper: one transport handle, an identifier derived from
/// an address, and handlers keyed by message text.
pub struct Socket<S, U, H> {
    id: i32,
    transport: Transport<S, U>,
    handlers: EventRegistry<H>,
}

impl<S, U, H> Socket<S, U, H> {
    /// The identifier fixed at construction.
    pub closed spec fn spec_id(&self) -> i32 {
        self.id
    }

    /// The transport handle the socket owns.
    pub closed spec fn spec_transport(&self) -> &Transport<S, U> {
        &self.transport
    }

    /// The registered handlers, by event name.
    pub closed spec fn spec_handlers(&self) -> Map<Seq<char>, H> {
        self.handlers@
    }

    pub closed spec fn well_formed(&self) -> bool {
        self.handlers.well_formed()
    }

    /// A socket over a connected stream, identified by the peer's address.
    pub fn new_tcp(peer_addr: &str, stream: S) -> (r: Self)
        ensures
            r.well_formed(),
            r.spec_id() as int == stable_id_of(peer_addr@),
            r.spec_transport() == Transport::<S, U>::Tcp(stream),
            r.spec_handlers() == Map::<Seq<char>, H>::empty(),
    {
        Socket {
            id: generate_stable_id(peer_addr),
            transport: Transport::Tcp(stream),
            handlers: EventRegistry::new(),
        }
    }

    /// A socket over a bound datagram socket, identified by its local
    /// address.
    pub fn new_udp(local_addr: &str, socket: U) -> (r: Self)
        ensures
            r.well_formed(),
            r.spec_id() as int == stable_id_of(local_addr@),
            r.spec_transport() == Transport::<S, U>::Udp(socket),
            r.spec_handlers() == Map::<Seq<char>, H>::empty(),
    {
        Socket {
            id: generate_stable_id(local_addr),
            transport: Transport::Udp(socket),
            handlers: EventRegistry::new(),
        }
    }

    pub fn id(&self) -> (r: i32)
        ensures
            r == self.spec_id(),
    {
        self.id
    }

    /// Registers `callback` for messages whose text is exactly `event`,
    /// replacing any earlier handler for it.
    pub fn on(&mut self, event: &str, callback: H)
        requires
            old(self).well_formed(),
        ensures
            final(self).well_formed(),
            final(self).spec_handlers() == old(self).spec_handlers().insert(event@, callback),
            final(self).spec_id() == old(self).spec_id(),
            final(self).spec_transport() == old(self).spec_transport(),
    {
        self.handlers.register(event, callback);
    }

    /// The stream to read from or write to, when the socket owns one.
    pub fn stream(&self) -> (r: Option<&S>)
        ensures
            match self.spec_transport() {
                Transport::Tcp(s) => r == Some(s),
                Transport::Udp(_) => r.is_none(),
            },
    {
        match &self.transport {
            Transport::Tcp(s) => Some(s),
            Transport::Udp(_) => None,
        }
    }

    /// What emitting `event` writes, and where: the UTF-8 bytes of the
    /// text, verbatim, to the owned stream. A datagram socket has no peer
    /// to emit to, so nothing is written.
    pub fn emit_target<'a>(&'a self, event: &'a str) -> (r: Option<(&'a S, &'a [u8])>)
        ensures
            match self.spec_transport() {
                Transport::Tcp(s) => r matches Some(w) && *w.0 == s && w.1@ == encode_utf8(event@),
                Transport::Udp(_) => r.is_none(),
            },
    {
        match &self.transport {
            Transport::Tcp(s) => Some((s, encode_event(event))),
            Transport::Udp(_) => None,
        }
    }

    /// Dispatch of one received chunk: the decoded text, and the handler
    /// registered under exactly that text, if any.
    pub fn dispatch(&self, data: &[u8]) -> (r: (String, Option<&H>))
        requires
            self.well_formed(),
        ensures
            r.0@ == decoded(data@),
            match r.1 {
                Some(h) => self.spec_handlers().contains_key(r.0@) && *h == self.spec_handlers()[r.0@],
                None => !self.spec_handlers().contains_key(r.0@),
            },
    {
        let message = decode_message(data);
        let handler = self.handlers.lookup(message.as_str());
        (message, handler)
    }

    /// Dispatch of one received message on a message-oriented transport:
    /// the decoded text, the generic handler registered under
    /// [`MESSAGE_EVENT`], and the handler registered under the text itself.
    /// Both run for the same message when both are present.
    pub fn dispatch_message(&self, data: &[u8]) -> (r: (String, Option<&H>, Option<&H>))
        requires
            self.well_formed(),
        ensures
            r.0@ == decoded(data@),
            match r.1 {
                Some(h) => self.spec_handlers().contains_key(MESSAGE_EVENT@)
                    && *h == self.spec_handlers()[MESSAGE_EVENT@],
                None => !self.spec_handlers().contains_key(MESSAGE_EVENT@),
            },
            match r.2 {
                Some(h) => self.spec_handlers().contains_key(r.0@) && *h == self.spec_handlers()[r.0@],
                None => !self.spec_handlers().contains_key(r.0@),
            },
    {
        let (message, handler) = self.dispatch(data);
        let generic = self.handlers.lookup(MESSAGE_EVENT);
        (message, generic, handler)
    }
}

/// Round trip: when socket `receiver` has a handler for `event`, the bytes
/// that emitting `event` writes, received whole, decode to `event` itself
/// and select exactly that handler.
pub proof fn lemma_emit_dispatch_round_trip<S, U, H>(receiver: Socket<S, U, H>, event: Seq<char>)
    requires
        receiver.spec_handlers().contains_key(event),
    ensures
        decoded(encode_utf8(event)) == event,
        receiver.spec_handlers().contains_key(decoded(encode_utf8(event))),
        receiver.spec_handlers()[decoded(encode_utf8(event))] == receiver.spec_handlers()[event],
{
    crate::message::lemma_decode_encode(event);
}

/// A server's lifecycle handlers; the accept and receive loops run the
/// handler registered under [`CONNECTION_EVENT`] once per new peer.
pub struct EasySocketServer<C> {
    handlers: EventRegistry<C>,
}

impl<C> EasySocketServer<C> {
    /// The registered lifecycle handlers, by event name.
    pub closed spec fn spec_handlers(&self) -> Map<Seq<char>, C> {
        self.handlers@
    }

    pub closed spec fn well_formed(&self) -> bool {
        self.handlers.well_formed()
    }

    pub fn new() -> (r: Self)
        ensures
            r.well_formed(),
            r.spec_handlers() == Map::<Seq<char>, C>::empty(),
    {
        EasySocketServer { handlers: EventRegistry::new() }
    }

    /// Registers `callback` for the lifecycle event `event`, replacing any
    /// earlier handler for it.
    pub fn on(&mut self, event: &str, callback: C)
        requires
            old(self).well_formed(),
        ensures
            final(self).well_formed(),
            final(self).spec_handlers() == old(self).spec_handlers().insert(event@, callback),
    {
        self.handlers.register(event, callback);
    }

    /// The handler to run for a new peer, if one is registered.
    pub fn connection_handler(&self) -> (r: Option<&C>)
        requires
            self.well_formed(),
        ensures
            match r {
                Some(h) => self.spec_handlers().contains_key(CONNECTION_EVENT@)
                    && *h == self.spec_handlers()[CONNECTION_EVENT@],
                None => !self.spec_handlers().contains_key(CONNECTION_EVENT@),
            },
    {
        self.handlers.lookup(CONNECTION_EVENT)
    }
}

} // verus!
