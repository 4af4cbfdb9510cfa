//! The live sessions: at most one delivery channel per user.

use std::collections::HashMap;
use vstd::prelude::*;

verus! {

broadcast use vstd::std_specs::hash::group_hash_axioms;

/// A map from user identifier to the delivery channel of that user's session.
pub struct ConnectionRegistry<C> {
    connections: HashMap<u128, C>,
}

impl<C> View for ConnectionRegistry<C> {
    type V = Map<u128, C>;

    closed spec fn view(&self) -> Map<u128, C> {
        self.connections@
    }
}

impl<C> ConnectionRegistry<C> {
    /// A registry with no sessions.
    pub fn new() -> (r: ConnectionRegistry<C>)
        ensures
            r@ == Map::<u128, C>::empty(),
    {
        ConnectionRegistry { connections: HashMap::new() }
    }

    /// Records `channel` as the session of `user_id`, replacing any earlier one.
    pub fn register(&mut self, user_id: u128, channel: C)
        ensures
            final(self)@ == old(self)@.insert(user_id, channel),
    {
        self.connections.insert(user_id, channel);
    }

    /// Forgets the session of `user_id`; does nothing if there is none.
    pub fn deregister(&mut self, user_id: u128)
        ensures
            final(self)@ == old(self)@.remove(user_id),
    {
        let _ = self.connections.remove(&user_id);
    }

    /// The delivery channel of `user_id`'s session, if one is registered.
    pub fn lookup(&self, user_id: u128) -> (r: Option<&C>)
        ensures
            match r {
                Some(c) => self@.contains_key(user_id) && *c == self@[user_id],
                None => !self@.contains_key(user_id),
            },
    {
        self.connections.get(&user_id)
    }

    /// Whether `user_id` has a registered session.
    pub fn is_connected(&self, user_id: u128) -> (r: bool)
        ensures
            r == self@.contains_key(user_id),
    {
        self.connections.contains_key(&user_id)
    }
}

/// Last write wins: after registering `c1` and then `c2` for `user_id`, only
/// `c2` is found for that user, and the registry is as if `c1` never came.
pub proof fn lemma_register_last_write_wins<C>(reg: Map<u128, C>, user_id: u128, c1: C, c2: C)
    ensures
        reg.insert(user_id, c1).insert(user_id, c2).contains_key(user_id),
        reg.insert(user_id, c1).insert(user_id, c2)[user_id] == c2,
        reg.insert(user_id, c1).insert(user_id, c2) == reg.insert(user_id, c2),
{
    assert(reg.insert(user_id, c1).insert(user_id, c2) =~= reg.insert(user_id, c2));
}

/// Deregistering a user who has no session changes nothing, however often it
/// is repeated.
pub proof fn lemma_deregister_absent_is_noop<C>(reg: Map<u128, C>, user_id: u128)
    requires
        !reg.contains_key(user_id),
    ensures
        reg.remove(user_id) == reg,
        reg.remove(user_id).remove(user_id) == reg,
{
    assert(reg.remove(user_id) =~= reg);
}

} // verus!
