//! The connection registry: live connection handles by identifier.

use std::sync::Arc;
use vstd::hash_map::StringHashMap;
use vstd::prelude::*;

verus! {

/// `std::sync::Arc::clone`: another pointer to the same value. The contract
/// claims that the new pointer equals the old one.
#[verifier::external_body]
fn share<C>(handle: &Arc<C>) -> (shared: Arc<C>)
    ensures
        shared == *handle,
{
    Arc::clone(handle)
}

/// The registry of live connections. Each identifier has at most one handle;
/// registering under an identifier that is taken replaces the handle.
///
/// The handle type `C` is the caller's: the registry stores and shares
/// handles and never looks inside one.
#[verifier::reject_recursive_types(C)]
pub struct ClientState<C> {
    clients: StringHashMap<Arc<C>>,
}

impl<C> View for ClientState<C> {
    type V = Map<Seq<char>, Arc<C>>;

    closed spec fn view(&self) -> Map<Seq<char>, Arc<C>> {
        self.clients@
    }
}

impl<C> ClientState<C> {
    /// An empty registry.
    pub fn new() -> (state: ClientState<C>)
        ensures
            state@ == (Map::<Seq<char>, Arc<C>>::empty()),
    {
        ClientState { clients: StringHashMap::new() }
    }

    /// Registers `client` under `id`. A handle registered under `id` before
    /// is replaced; every other entry stays.
    pub fn add_client(&mut self, id: String, client: Arc<C>)
        ensures
            final(self)@ == old(self)@.insert(id@, client),
    {
        self.clients.insert(id, client);
    }

    /// The handle registered under `id`, shared with the registry, or `None`
    /// when nothing is registered under `id`.
    pub fn get_client(&self, id: &str) -> (client: Option<Arc<C>>)
        ensures
            client == (if self@.contains_key(id@) {
                Some(self@[id@])
            } else {
                None
            }),
    {
        match self.clients.get(id) {
            Some(handle) => Some(share(handle)),
            None => None,
        }
    }
}

/// Registering twice under one identifier leaves what registering the second
/// handle alone would leave: the second handle is the one found, and no
/// other entry is touched. A lookup between the two registrations finds the
/// first handle, one after them the second: never anything else.
pub proof fn lemma_second_registration_replaces<C>(
    registry: Map<Seq<char>, Arc<C>>,
    id: Seq<char>,
    first: Arc<C>,
    second: Arc<C>,
)
    ensures
        registry.insert(id, first).insert(id, second) == registry.insert(id, second),
        registry.insert(id, first)[id] == first,
        registry.insert(id, first).insert(id, second)[id] == second,
        registry.insert(id, first).insert(id, second).dom() == registry.insert(id, first).dom(),
{
    assert(registry.insert(id, first).insert(id, second) =~= registry.insert(id, second));
    assert(registry.insert(id, first).insert(id, second).dom() =~= registry.insert(
        id,
        first,
    ).dom());
}

} // verus!
