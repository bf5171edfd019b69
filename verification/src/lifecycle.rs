//! Record lifecycle: idempotent creation of one record per owner.
//!
//! The hosting ledger stores one record per owner at an address that is a
//! pure function of the owner's identity, so the registry of records is
//! modelled here as a map keyed by the owner identity itself (a byte
//! string): existence and uniqueness are structural.

use vstd::prelude::*;

use crate::record::INITIAL_HAPPINESS;
use crate::record::PetDataAccount;

verus! {

/// The record that creation yields: the existing record unchanged if one
/// is already present, otherwise a fresh record with full happiness and
/// the current tick.
pub open spec fn initialize_spec(existing: Option<PetDataAccount>, current_tick: u64) -> PetDataAccount {
    match existing {
        Option::Some(prior) => prior,
        Option::None => PetDataAccount { happiness: INITIAL_HAPPINESS, played_at_slot: current_tick },
    }
}

/// Creates the record for an owner, idempotently.  `existing` is the
/// record currently stored at the owner's address, if any; the result is
/// the record to persist there.
pub fn initialize(existing: Option<PetDataAccount>, current_tick: u64) -> (r: PetDataAccount)
    ensures
        r == initialize_spec(existing, current_tick),
        existing matches Some(prior) ==> r == prior,
        existing is None ==> r.happiness == INITIAL_HAPPINESS && r.played_at_slot == current_tick,
{
    match existing {
        Option::Some(prior) => prior,
        Option::None => PetDataAccount { happiness: INITIAL_HAPPINESS, played_at_slot: current_tick },
    }
}

/// The whole registry after a creation request for `owner`: untouched if
/// the owner already has a record, otherwise extended with a fresh one.
pub open spec fn store_initialize(
    store: Map<Seq<u8>, PetDataAccount>,
    owner: Seq<u8>,
    current_tick: u64,
) -> Map<Seq<u8>, PetDataAccount> {
    if store.dom().contains(owner) {
        store
    } else {
        store.insert(owner, initialize_spec(Option::None, current_tick))
    }
}

/// Idempotent creation: initializing a second time, at any later tick,
/// yields exactly the record of the first call.
pub proof fn lemma_initialize_idempotent(t1: u64, t2: u64)
    ensures
        initialize_spec(Some(initialize_spec(None, t1)), t2) == initialize_spec(None, t1),
{
}

/// Idempotent creation over the registry: a second creation request for
/// the same owner is a no-op, whatever tick it carries.
pub proof fn lemma_store_initialize_idempotent(
    store: Map<Seq<u8>, PetDataAccount>,
    owner: Seq<u8>,
    t1: u64,
    t2: u64,
)
    ensures
        store_initialize(store_initialize(store, owner, t1), owner, t2)
            == store_initialize(store, owner, t1),
{
}

/// Creating a record for one owner never reads or changes another
/// owner's record.
pub proof fn lemma_initialize_independent_owners(
    store: Map<Seq<u8>, PetDataAccount>,
    owner_a: Seq<u8>,
    owner_b: Seq<u8>,
    current_tick: u64,
)
    requires
        owner_a != owner_b,
        store.dom().contains(owner_b),
    ensures
        store_initialize(store, owner_a, current_tick).dom().contains(owner_b),
        store_initialize(store, owner_a, current_tick)[owner_b] == store[owner_b],
{
}

} // verus!
