//! Listener tables: which callbacks of the host are registered for a class of
//! events, and under which delivery handle each is reached.
//!
//! A table is a concurrent map from the `dashmap` crate. Verus does not look
//! inside it, so the table's contents have a name, `listener_entries`, and the
//! few operations of the map that the library uses are declared here with what
//! the crate's source shows of them. Everything else in this module is proved
//! from those declarations.

use crate::events::{Delivery, HostEvent};
use dashmap::DashMap;
use vstd::prelude::*;

verus! {

/// `dashmap::DashMap`, declared so that it can stand in fields and signatures.
#[verifier::external_type_specification]
#[verifier::external_body]
#[verifier::reject_recursive_types(K)]
#[verifier::reject_recursive_types(V)]
#[verifier::reject_recursive_types(S)]
pub struct ExDashMap<K, V, S>(DashMap<K, V, S>);

/// What a listener table holds: for each registered callback identity, the
/// handle under which the callback is delivered.
pub uninterp spec fn listener_entries(table: DashMap<usize, u64>) -> Map<usize, u64>;

/// `DashMap::new`: a new table holds nothing.
#[verifier::external_body]
fn table_new() -> (table: DashMap<usize, u64>)
    ensures
        listener_entries(table) == (Map::<usize, u64>::empty()),
{
    DashMap::new()
}

/// `DashMap::contains_key`: whether the table holds an entry for the key.
#[verifier::external_body]
fn table_contains(table: &DashMap<usize, u64>, identity: usize) -> (found: bool)
    ensures
        found == listener_entries(*table).dom().contains(identity),
{
    table.contains_key(&identity)
}

/// `DashMap::insert`: afterwards the key maps to the value and every other
/// entry is as before.
#[verifier::external_body]
fn table_insert(table: &mut DashMap<usize, u64>, identity: usize, handle: u64)
    ensures
        listener_entries(*final(table)) == listener_entries(*old(table)).insert(identity, handle),
{
    table.insert(identity, handle);
}

/// `DashMap::remove`: afterwards the key has no entry and every other entry is
/// as before; the value that the key had, if it had one, is handed back.
#[verifier::external_body]
fn table_remove(table: &mut DashMap<usize, u64>, identity: usize) -> (removed: Option<u64>)
    ensures
        listener_entries(*final(table)) == listener_entries(*old(table)).remove(identity),
        removed == entry_of(listener_entries(*old(table)), identity),
{
    table.remove(&identity).map(|entry| entry.1)
}

/// `DashMap::clear`: afterwards the table holds nothing.
#[verifier::external_body]
fn table_clear(table: &mut DashMap<usize, u64>)
    ensures
        listener_entries(*final(table)) == (Map::<usize, u64>::empty()),
{
    table.clear();
}

/// `DashMap::iter`: every entry of the table is handed out exactly once, in an
/// order that the map does not fix.
#[verifier::external_body]
fn table_pairs(table: &DashMap<usize, u64>) -> (pairs: Vec<(usize, u64)>)
    ensures
        forall|i: int, j: int|
            0 <= i < j < pairs@.len() ==> (#[trigger] pairs@[i]).0 != (#[trigger] pairs@[j]).0,
        forall|i: int|
            0 <= i < pairs@.len() ==> listener_entries(*table).contains_pair(
                (#[trigger] pairs@[i]).0,
                pairs@[i].1,
            ),
        forall|identity: usize| #[trigger]
            listener_entries(*table).dom().contains(identity) ==> exists|i: int|
                0 <= i < pairs@.len() && (#[trigger] pairs@[i]).0 == identity,
{
    table.iter().map(|entry| (*entry.key(), *entry.value())).collect()
}

/// The listeners registered for one class of events.
///
/// A listener is known by a stable identity. Registering an identity that is
/// already there changes nothing; so does removing one that is not there.
pub struct ListenerTable {
    table: DashMap<usize, u64>,
}

/// The handle registered under an identity, if one is.
pub open spec fn entry_of(listeners: Map<usize, u64>, identity: usize) -> Option<u64> {
    if listeners.dom().contains(identity) {
        Some(listeners[identity])
    } else {
        None
    }
}

/// Every listener of `listeners` is invoked exactly once with `event`, through
/// its own handle, and nobody else is invoked.
pub open spec fn delivered_once(
    deliveries: Seq<Delivery>,
    listeners: Map<usize, u64>,
    event: HostEvent,
) -> bool {
    &&& forall|i: int, j: int|
        0 <= i < j < deliveries.len() ==> (#[trigger] deliveries[i]).listener != (
        #[trigger] deliveries[j]).listener
    &&& forall|i: int|
        0 <= i < deliveries.len() ==> {
            &&& listeners.contains_pair((#[trigger] deliveries[i]).listener, deliveries[i].handle)
            &&& deliveries[i].event == event
        }
    &&& forall|identity: usize| #[trigger]
        listeners.dom().contains(identity) ==> exists|i: int|
            0 <= i < deliveries.len() && (#[trigger] deliveries[i]).listener == identity
}

impl ListenerTable {
    /// The table as a map from identity to handle.
    pub closed spec fn view(&self) -> Map<usize, u64> {
        listener_entries(self.table)
    }

    /// A table without listeners.
    pub fn new() -> (table: ListenerTable)
        ensures
            table@ == (Map::<usize, u64>::empty()),
    {
        ListenerTable { table: table_new() }
    }

    /// Whether a listener is registered under the identity.
    pub fn contains(&self, identity: usize) -> (found: bool)
        ensures
            found == self@.dom().contains(identity),
    {
        table_contains(&self.table, identity)
    }

    /// Registers a listener unless its identity is registered already, and
    /// says whether it was added.
    pub fn add(&mut self, identity: usize, handle: u64) -> (added: bool)
        ensures
            added == !old(self)@.dom().contains(identity),
            added ==> final(self)@ == old(self)@.insert(identity, handle),
            !added ==> final(self)@ == old(self)@,
    {
        if table_contains(&self.table, identity) {
            false
        } else {
            table_insert(&mut self.table, identity, handle);
            true
        }
    }

    /// Removes the listener registered under the identity, if there is one,
    /// and hands its handle back.
    pub fn remove(&mut self, identity: usize) -> (removed: Option<u64>)
        ensures
            removed == entry_of(old(self)@, identity),
            final(self)@ == old(self)@.remove(identity),
            removed is None ==> final(self)@ == old(self)@,
    {
        if table_contains(&self.table, identity) {
            table_remove(&mut self.table, identity)
        } else {
            assert(self@.remove(identity) =~= self@);
            None
        }
    }

    /// Removes every listener.
    pub fn clear(&mut self)
        ensures
            final(self)@ == (Map::<usize, u64>::empty()),
    {
        table_clear(&mut self.table);
    }

    /// One delivery of `event` for each registered listener.
    pub fn dispatch(&self, event: HostEvent) -> (deliveries: Vec<Delivery>)
        ensures
            delivered_once(deliveries@, self@, event),
    {
        let pairs = table_pairs(&self.table);
        let mut deliveries: Vec<Delivery> = Vec::new();
        let mut next: usize = 0;
        while next < pairs.len()
            invariant
                next <= pairs@.len(),
                deliveries@.len() == next,
                forall|k: int|
                    #![trigger pairs@[k]]
                    #![trigger deliveries@[k]]
                    0 <= k < next ==> deliveries@[k] == (Delivery {
                        listener: pairs@[k].0,
                        handle: pairs@[k].1,
                        event: event,
                    }),
            decreases pairs@.len() - next,
        {
            let pair = pairs[next];
            deliveries.push(Delivery { listener: pair.0, handle: pair.1, event });
            next = next + 1;
        }
        deliveries
    }
}

/// Exactly as many deliveries are made as listeners are registered.
pub proof fn lemma_delivery_count(
    deliveries: Seq<Delivery>,
    listeners: Map<usize, u64>,
    event: HostEvent,
)
    requires
        delivered_once(deliveries, listeners, event),
    ensures
        listeners.dom().finite(),
        deliveries.len() == listeners.dom().len(),
{
    let identities = deliveries.map_values(|delivery: Delivery| delivery.listener);
    assert(identities.no_duplicates()) by {
        assert forall|i: int, j: int|
            0 <= i < identities.len() && 0 <= j < identities.len() && i != j implies identities[i]
            != identities[j] by {
            if i < j {
                assert(deliveries[i].listener != deliveries[j].listener);
            } else {
                assert(deliveries[j].listener != deliveries[i].listener);
            }
        }
    }
    assert(identities.to_set() =~= listeners.dom()) by {
        assert forall|identity: usize|
            identities.to_set().contains(identity) implies listeners.dom().contains(identity) by {
            let i = choose|i: int| 0 <= i < identities.len() && identities[i] == identity;
            assert(listeners.contains_pair(deliveries[i].listener, deliveries[i].handle));
        }
        assert forall|identity: usize|
            listeners.dom().contains(identity) implies identities.to_set().contains(identity) by {
            let i = choose|i: int|
                0 <= i < deliveries.len() && (#[trigger] deliveries[i]).listener == identity;
            assert(identities[i] == identity);
        }
    }
    identities.unique_seq_to_set();
}

} // verus!
