//! A registry that gives participants an identity marker.

use crate::primitives::{AccountId, IdentityInterface, H256};
use std::collections::HashMap;
use vstd::prelude::*;

verus! {

broadcast use vstd::std_specs::hash::group_hash_axioms;

/// What the registry reports after a successful call.
#[derive(Clone, Copy, Debug, PartialEq, Eq)]
pub enum Event {
    /// User has been given an identity
    IdentityCreated(AccountId, H256),
    /// Identity has been removed
    IdentityDeleted(AccountId),
}

#[derive(Clone, Copy, Debug, PartialEq, Eq, Structural)]
pub enum Error {
    /// No identity
    IdentityDoesNotExist,
}

/// The identity registry: at most one marker per participant.
pub struct Pallet {
    identities: HashMap<AccountId, H256>,
}

impl View for Pallet {
    type V = Map<AccountId, H256>;

    /// The identity marker recorded for each participant that has one.
    closed spec fn view(&self) -> Map<AccountId, H256> {
        self.identities@
    }
}

impl Pallet {
    /// A registry in which nobody has an identity.
    pub fn new() -> (registry: Pallet)
        ensures
            registry@ == Map::<AccountId, H256>::empty(),
    {
        Pallet { identities: HashMap::new() }
    }

    /// Gives `who` the identity `name`, replacing any earlier one.
    pub fn create_identity(&mut self, who: AccountId, name: H256) -> (event: Event)
        ensures
            final(self)@ == old(self)@.insert(who, name),
            event == Event::IdentityCreated(who, name),
    {
        self.set_identity(&who, name);
        Event::IdentityCreated(who, name)
    }

    /// Removes the identity of `who`, or fails, changing nothing, where `who`
    /// has none.
    pub fn delete_identity(&mut self, who: AccountId) -> (res: Result<Event, Error>)
        ensures
            res is Ok <==> old(self)@.contains_key(who),
            res matches Ok(event) ==> {
                &&& event == Event::IdentityDeleted(who)
                &&& final(self)@ == old(self)@.remove(who)
            },
            res matches Err(e) ==> e == Error::IdentityDoesNotExist && final(self)@ == old(self)@,
    {
        if !self.has_identity(&who) {
            return Err(Error::IdentityDoesNotExist);
        }
        self.clear_identity(&who);
        Ok(Event::IdentityDeleted(who))
    }

    /// The identity of `who`, if any.
    pub fn identities(&self, who: AccountId) -> (name: Option<H256>)
        ensures
            name is Some <==> self@.contains_key(who),
            name matches Some(n) ==> n == self@[who],
    {
        self.get_identity(&who)
    }
}

impl IdentityInterface<AccountId, H256> for Pallet {
    fn has_identity(&self, who: &AccountId) -> (has: bool)
        ensures
            has == self@.contains_key(*who),
    {
        self.identities.contains_key(who)
    }

    fn set_identity(&mut self, who: &AccountId, name: H256)
        ensures
            final(self)@ == old(self)@.insert(*who, name),
    {
        self.identities.insert(*who, name);
    }

    fn get_identity(&self, who: &AccountId) -> (name: Option<H256>)
        ensures
            name is Some <==> self@.contains_key(*who),
            name matches Some(n) ==> n == self@[*who],
    {
        match self.identities.get(who) {
            Some(name) => Some(*name),
            None => None,
        }
    }

    fn clear_identity(&mut self, who: &AccountId)
        ensures
            final(self)@ == old(self)@.remove(*who),
    {
        self.identities.remove(who);
    }
}

} // verus!
