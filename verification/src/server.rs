use vstd::prelude::*;
use vstd::hash_map::StringHashMap;
use crate::error::ProtocolError;
use crate::state::ClientChannelSignal;

verus! {

/// Number of characters of a connection identifier.
pub const CLIENT_ID_LEN: usize = 22;

/// `nuid::next`, turned into a `String`: the next identifier of the
/// process-wide generator. It is drawn at random, so two calls tell nothing
/// of each other; every identifier has 22 characters.
#[verifier::external_body]
fn next_client_id() -> (id: String)
    ensures
        id@.len() == CLIENT_ID_LEN,
{
    nuid::next().to_string()
}

/// What the accept loop met.
pub enum ServerEvent<T> {
    /// A socket was accepted; `T` is what the server keeps of the connection.
    Accepted(T),
    /// Accepting a socket failed.
    AcceptFailed,
    /// The handler of the connection `id` has finished, with `outcome`.
    HandlerFinished { id: String, outcome: Result<ClientChannelSignal, ProtocolError> },
}

/// What the accept loop is to do next.
#[derive(Debug, PartialEq, Eq)]
pub enum ServerAction {
    /// Start a handler for the connection registered under `id`.
    StartHandler { id: String },
    /// Report that accepting failed, and go on accepting.
    ReportAcceptFailure,
    /// Go on accepting.
    Proceed,
}

/// The live connections of a server, by identifier.
///
/// A connection is in the registry from the moment it is accepted until its
/// handler has finished. Only the accept loop changes the registry.
#[verifier::reject_recursive_types(T)]
pub struct ClientRegistry<T> {
    clients: StringHashMap<T>,
}

impl<T> View for ClientRegistry<T> {
    type V = Map<Seq<char>, T>;

    closed spec fn view(&self) -> Map<Seq<char>, T> {
        self.clients@
    }
}

impl<T> ClientRegistry<T> {
    /// A registry without connections.
    pub fn new() -> (registry: ClientRegistry<T>)
        ensures
            registry@ == Map::<Seq<char>, T>::empty(),
    {
        ClientRegistry { clients: StringHashMap::new() }
    }

    /// Registers `client` under `id`. A connection that was registered under
    /// `id` before is replaced.
    pub fn add_client(&mut self, id: String, client: T)
        ensures
            final(self)@ == old(self)@.insert(id@, client),
    {
        self.clients.insert(id, client);
    }

    /// Takes the connection `id` out of the registry. Nothing happens where
    /// it is not registered.
    pub fn drop_client(&mut self, id: &str)
        ensures
            final(self)@ == old(self)@.remove(id@),
            !final(self)@.contains_key(id@),
    {
        self.clients.remove(id);
    }

    /// Whether a connection is registered under `id`.
    pub fn contains(&self, id: &str) -> (found: bool)
        ensures
            found == self@.contains_key(id@),
    {
        self.clients.contains_key(id)
    }

    /// The connection registered under `id`, if there is one.
    pub fn get(&self, id: &str) -> (client: Option<&T>)
        ensures
            match client {
                Some(c) => self@.contains_key(id@) && *c == self@[id@],
                None => !self@.contains_key(id@),
            },
    {
        self.clients.get(id)
    }

    /// Whether no connection is registered.
    pub fn is_empty(&self) -> (empty: bool)
        ensures
            empty == self@.is_empty(),
    {
        self.clients.is_empty()
    }

    /// Registers a newly accepted connection under a fresh identifier and
    /// returns the identifier.
    pub fn accept(&mut self, client: T) -> (id: String)
        ensures
            id@.len() == CLIENT_ID_LEN,
            final(self)@ == old(self)@.insert(id@, client),
    {
        let id = next_client_id();
        self.add_client(id.clone(), client);
        id
    }

    /// Takes note that the handler of the connection `id` has finished. The
    /// connection leaves the registry, however the handler ended.
    pub fn handler_finished(&mut self, id: &str, outcome: &Result<ClientChannelSignal, ProtocolError>)
        ensures
            !final(self)@.contains_key(id@),
            final(self)@ == old(self)@.remove(id@),
    {
        self.drop_client(id);
    }

    /// One turn of the accept loop: takes in what happened and says what the
    /// loop is to do next.
    ///
    /// An accepted connection is registered under a fresh identifier and gets
    /// a handler. A failed accept is reported and changes nothing. A handler
    /// that has finished has its connection taken out of the registry.
    pub fn on_event(&mut self, event: ServerEvent<T>) -> (action: ServerAction)
        ensures
            match event {
                ServerEvent::Accepted(client) => action matches ServerAction::StartHandler { id }
                    && id@.len() == CLIENT_ID_LEN && final(self)@ == old(self)@.insert(id@, client),
                ServerEvent::AcceptFailed => action == ServerAction::ReportAcceptFailure
                    && final(self)@ == old(self)@,
                ServerEvent::HandlerFinished { id, outcome } => action == ServerAction::Proceed
                    && final(self)@ == old(self)@.remove(id@) && !final(self)@.contains_key(id@),
            },
    {
        match event {
            ServerEvent::Accepted(client) => {
                let id = self.accept(client);
                ServerAction::StartHandler { id }
            },
            ServerEvent::AcceptFailed => ServerAction::ReportAcceptFailure,
            ServerEvent::HandlerFinished { id, outcome } => {
                self.handler_finished(id.as_str(), &outcome);
                ServerAction::Proceed
            },
        }
    }
}

/// A connection that is accepted and whose handler then finishes is gone
/// from the registry, and the other connections are as they were.
pub proof fn lemma_finished_connection_is_absent<T>(
    before: Map<Seq<char>, T>,
    id: Seq<char>,
    client: T,
)
    ensures
        !before.insert(id, client).remove(id).contains_key(id),
        forall|other: Seq<char>|
            other != id ==> (#[trigger] before.insert(id, client).remove(id).contains_key(other)
                <==> before.contains_key(other)),
        !before.contains_key(id) ==> before.insert(id, client).remove(id) == before,
{
    assert(!before.contains_key(id) ==> before.insert(id, client).remove(id) =~= before);
}

} // verus!
