//! Reload broadcaster: the set of connected clients, drained on every
//! reload signal.

use vstd::prelude::*;

verus! {

/// The text frame that tells a client to reload the page.
pub const RELOAD_MESSAGE: &'static str = "RELOAD NOW PLS";

/// The connected clients, in the order in which they connected.
pub struct ClientSet<C> {
    clients: Vec<C>,
}

impl<C> View for ClientSet<C> {
    type V = Seq<C>;

    closed spec fn view(&self) -> Seq<C> {
        self.clients@
    }
}

impl<C> ClientSet<C> {
    /// A set without clients.
    pub fn new() -> (set: Self)
        ensures
            set@ == Seq::<C>::empty(),
    {
        ClientSet { clients: Vec::new() }
    }

    /// Number of connected clients.
    pub fn len(&self) -> (n: usize)
        ensures
            n == self@.len(),
    {
        self.clients.len()
    }

    /// Appends a client whose handshake is done.
    pub fn connect(&mut self, client: C)
        ensures
            final(self)@ == old(self)@.push(client),
    {
        self.clients.push(client);
    }

    /// Removes every client from the set and hands them out, the first
    /// that connected first.
    pub fn drain(&mut self) -> (clients: Vec<C>)
        ensures
            clients@ == old(self)@,
            final(self)@ == Seq::<C>::empty(),
    {
        let mut clients: Vec<C> = Vec::new();
        core::mem::swap(&mut self.clients, &mut clients);
        clients
    }

    /// Answers one reload signal: empties the set and calls `notify` once
    /// on each client that was in it, in the order in which they
    /// connected.
    pub fn broadcast<F: Fn(C) -> bool>(&mut self, notify: F) -> (delivered: Vec<bool>)
        requires
            forall|i: int| 0 <= i < old(self)@.len() ==> call_requires(notify, (old(self)@[i],)),
        ensures
            final(self)@ == Seq::<C>::empty(),
            deliveries(notify, old(self)@, delivered@),
    {
        let clients = self.drain();
        deliver(clients, notify)
    }
}

/// `delivered` holds, client by client, what `notify` answered when it was
/// called on that client.
pub open spec fn deliveries<C, F: Fn(C) -> bool>(
    notify: F,
    clients: Seq<C>,
    delivered: Seq<bool>,
) -> bool {
    &&& delivered.len() == clients.len()
    &&& forall|i: int|
        0 <= i < clients.len() ==> call_ensures(notify, (clients[i],), #[trigger] delivered[i])
}

/// Calls `notify` once on each of `clients`, in their order. `notify`
/// sends the reload message and says whether that went well; a failure on
/// one client does not keep the others from their turn.
pub fn deliver<C, F: Fn(C) -> bool>(clients: Vec<C>, notify: F) -> (delivered: Vec<bool>)
    requires
        forall|i: int| 0 <= i < clients@.len() ==> call_requires(notify, (clients@[i],)),
    ensures
        deliveries(notify, clients@, delivered@),
{
    let ghost all = clients@;
    let mut delivered: Vec<bool> = Vec::new();
    for client in it: clients
        invariant
            it.seq() == all,
            forall|i: int| 0 <= i < all.len() ==> call_requires(notify, (all[i],)),
            delivered@.len() == it.index(),
            forall|i: int|
                0 <= i < it.index() ==> call_ensures(notify, (all[i],), #[trigger] delivered@[i]),
    {
        let sent = notify(client);
        delivered.push(sent);
    }
    delivered
}

} // verus!
