use std::collections::HashMap;
use vstd::prelude::*;
use vstd::std_specs::iter::IteratorSpec;

verus! {

broadcast use vstd::std_specs::hash::group_hash_axioms;

/// The connected clients of a server (terminal and application), each under
/// the identifier of the connection that owns it.
///
/// The registry never holds more clients than the limit it was made with: a
/// new client is refused once the limit is reached.
#[verifier::reject_recursive_types(C)]
pub struct ClientRegistry<C> {
    clients: HashMap<usize, C>,
    limit: usize,
}

/// The abstract state of a [`ClientRegistry`].
pub struct RegistryView<C> {
    /// Each registered client under its connection's identifier.
    pub clients: Map<usize, C>,
    /// The most clients the registry holds at once.
    pub limit: usize,
}

impl<C> View for ClientRegistry<C> {
    type V = RegistryView<C>;

    closed spec fn view(&self) -> RegistryView<C> {
        RegistryView { clients: self.clients@, limit: self.limit }
    }
}

/// Whether a client may be registered under `id`: it replaces the client
/// already there, or fewer than `limit` are registered.
pub open spec fn may_register<C>(clients: Map<usize, C>, id: usize, limit: usize) -> bool {
    clients.contains_key(id) || clients.len() < limit
}

impl<C> ClientRegistry<C> {
    #[verifier::type_invariant]
    spec fn within_limit(self) -> bool {
        self.clients@.len() <= self.limit
    }

    /// A registry with no clients, holding at most `limit` at once.
    pub fn new(limit: usize) -> (r: Self)
        ensures
            r@.clients == Map::<usize, C>::empty(),
            r@.limit == limit,
    {
        ClientRegistry { clients: HashMap::new(), limit }
    }

    /// The number of registered clients; never above the limit.
    pub fn len(&self) -> (r: usize)
        ensures
            r == self@.clients.len(),
            r <= self@.limit,
            self@.clients.dom().finite(),
    {
        proof {
            use_type_invariant(self);
        }
        self.clients.len()
    }

    /// The most clients the registry holds at once.
    pub fn limit(&self) -> (r: usize)
        ensures
            r == self@.limit,
    {
        self.limit
    }

    /// Whether a client is registered under `id`.
    pub fn contains(&self, id: usize) -> (r: bool)
        ensures
            r == self@.clients.contains_key(id),
    {
        self.clients.contains_key(&id)
    }

    /// Registers `client` under `id` when [`may_register`] allows it,
    /// replacing any client there; otherwise nothing changes and the client
    /// is handed back.
    pub fn register(&mut self, id: usize, client: C) -> (r: Result<(), C>)
        ensures
            final(self)@.limit == old(self)@.limit,
            final(self)@.clients.len() <= final(self)@.limit,
            r is Ok <==> may_register(old(self)@.clients, id, old(self)@.limit),
            old(self)@.clients.contains_key(id) ==> r is Ok,
            !old(self)@.clients.contains_key(id) ==> (r is Ok <==> old(self)@.clients.len()
                < old(self)@.limit),
            r is Ok ==> final(self)@.clients == old(self)@.clients.insert(id, client),
            r matches Err(c) ==> c == client && final(self)@.clients == old(self)@.clients,
    {
        proof {
            use_type_invariant(&*self);
        }
        if self.clients.contains_key(&id) || self.clients.len() < self.limit {
            let mut clients = HashMap::new();
            std::mem::swap(&mut clients, &mut self.clients);
            clients.insert(id, client);
            proof {
                if old(self)@.clients.contains_key(id) {
                    assert(clients@.dom() =~= old(self)@.clients.dom());
                }
            }
            self.clients = clients;
            Ok(())
        } else {
            Err(client)
        }
    }

    /// Removes and returns the client registered under `id`, if any.
    pub fn remove(&mut self, id: usize) -> (r: Option<C>)
        ensures
            final(self)@.clients == old(self)@.clients.remove(id),
            final(self)@.limit == old(self)@.limit,
            final(self)@.clients.len() <= final(self)@.limit,
            match r {
                Some(c) => old(self)@.clients.contains_key(id) && old(self)@.clients[id] == c,
                None => !old(self)@.clients.contains_key(id),
            },
    {
        proof {
            use_type_invariant(&*self);
        }
        let mut clients = HashMap::new();
        std::mem::swap(&mut clients, &mut self.clients);
        let r = clients.remove(&id);
        self.clients = clients;
        r
    }

    /// The identifiers of all registered clients, each once, in no
    /// particular order.
    pub fn ids(&self) -> (r: Vec<usize>)
        ensures
            r@.to_set() == self@.clients.dom(),
            r@.no_duplicates(),
    {
        let mut r: Vec<usize> = Vec::new();
        let ghost all: Seq<usize> = vstd::std_specs::hash::spec_keys_iter(&self.clients).remaining().unref();
        let ghost mut n: int = 0;
        for k in it: self.clients.keys()
            invariant
                it.seq().unref() == all,
                n == it.index(),
                0 <= n <= all.len(),
                r@ == all.take(n),
        {
            r.push(*k);
            proof {
                n = n + 1;
                assert(r@ =~= all.take(n));
            }
        }
        proof {
            assert(n == all.len());
            assert(all.take(n) =~= all);
        }
        r
    }
}

/// Taking a client out and registering it again under the same identifier,
/// as `remove` and `register` describe, is allowed and leaves the registry
/// as it was.
pub proof fn take_and_put_back_restores<C>(before: Map<usize, C>, id: usize, limit: usize)
    requires
        before.dom().finite(),
        before.len() <= limit,
        before.contains_key(id),
    ensures
        may_register(before.remove(id), id, limit),
        before.remove(id).insert(id, before[id]) == before,
{
    assert(before.remove(id).insert(id, before[id]) =~= before);
}

/// No operation takes the number of clients above the limit: a registration
/// that `may_register` allows, or a removal, started from a registry within
/// its limit, ends within it.
pub proof fn clients_stay_within_limit<C>(
    before: Map<usize, C>,
    limit: usize,
    id: usize,
    client: C,
)
    requires
        before.dom().finite(),
        before.len() <= limit,
    ensures
        may_register(before, id, limit) ==> before.insert(id, client).len() <= limit,
        before.remove(id).len() <= limit,
{
    if before.contains_key(id) {
        assert(before.insert(id, client).dom() =~= before.dom());
    }
}

/// Replacing the client of a registered connection is always allowed; a
/// new connection is registered exactly while fewer than the limit are.
pub proof fn replacing_is_always_allowed<C>(clients: Map<usize, C>, id: usize, limit: usize)
    ensures
        clients.contains_key(id) ==> may_register(clients, id, limit),
        !clients.contains_key(id) ==> (may_register(clients, id, limit) <==> clients.len()
            < limit),
{
}

} // verus!
