//! The "play" interaction: a pipeline of checked arithmetic steps that
//! validates the request, applies time-based decay to the happiness
//! score, and computes the token quantity to burn.
//!
//! The pipeline either succeeds as a whole — yielding the record to
//! persist and the burn quantity — or fails with a precise error, in
//! which case nothing is persisted and nothing is burned.  The order of
//! the steps is part of the contract: the happiness debit is checked
//! before the zero-amount validation, so a zero request on any record
//! fails with `NoTokensToPlay`, never with an underflow fault.

use vstd::prelude::*;

use crate::record::ArithmeticOp;
use crate::record::ArithmeticStage;
use crate::record::ErrorCode;
use crate::record::PetDataAccount;

verus! {

/// The effects of a successful interaction: the record to persist and
/// the token quantity to burn from the owner's balance.
#[derive(Clone, Copy, Debug, PartialEq, Eq, Structural)]
pub struct PlayEffects {
    pub record: PetDataAccount,
    pub burn_amount: u64,
}

/// An `ArithmeticFault` error for the given operation and stage.
pub open spec fn arithmetic_fault(operation: ArithmeticOp, stage: ArithmeticStage) -> ErrorCode {
    ErrorCode::ArithmeticFault { operation: operation, stage: stage }
}

/// `10^exponent`.
pub open spec fn pow10(exponent: nat) -> nat
    decreases exponent,
{
    if exponent == 0 {
        1
    } else {
        10 * pow10((exponent - 1) as nat)
    }
}

proof fn lemma_pow10_monotone(i: nat, j: nat)
    requires
        i <= j,
    ensures
        pow10(i) <= pow10(j),
    decreases j,
{
    if i < j {
        lemma_pow10_monotone(i, (j - 1) as nat);
    }
}

/// `10^exponent` as a `u64`, or `None` where it does not fit.
pub fn checked_pow10(exponent: u8) -> (r: Option<u64>)
    ensures
        r matches Some(p) ==> p == pow10(exponent as nat),
        r is None <==> pow10(exponent as nat) > u64::MAX,
{
    let mut acc: u64 = 1;
    let mut i: u8 = 0;
    while i < exponent
        invariant
            i <= exponent,
            acc == pow10(i as nat),
        decreases exponent - i,
    {
        acc = match acc.checked_mul(10) {
            Some(v) => v,
            None => {
                proof {
                    lemma_pow10_monotone((i + 1) as nat, exponent as nat);
                }
                return None;
            },
        };
        i = i + 1;
    }
    Some(acc)
}

/// The outcome of one "play" unit of work on a record, before the burn
/// request is issued.  The steps, in order:
/// a checked debit of `amount` from the happiness score (underflow
/// fault); rejection of a zero amount; a checked difference between the
/// current tick and the record's tick (underflow fault); a checked
/// subtraction of that difference from the debited score (underflow
/// fault, also covering a difference too large for the score's width);
/// and a checked scaling of `amount` by `10^decimals` (overflow fault).
/// On success the record keeps its tick unmodified: decay is always
/// measured from the record's creation.
pub open spec fn play_spec(
    record: PetDataAccount,
    amount: u8,
    current_tick: u64,
    decimals: u8,
) -> Result<PlayEffects, ErrorCode> {
    if amount > record.happiness {
        Err(arithmetic_fault(ArithmeticOp::Sub, ArithmeticStage::HappinessDebit))
    } else if amount == 0 {
        Err(ErrorCode::NoTokensToPlay)
    } else if current_tick < record.played_at_slot {
        Err(arithmetic_fault(ArithmeticOp::Sub, ArithmeticStage::TickDiff))
    } else if current_tick - record.played_at_slot > record.happiness - amount {
        Err(arithmetic_fault(ArithmeticOp::Sub, ArithmeticStage::Decay))
    } else if (amount as nat) * pow10(decimals as nat) > u64::MAX {
        Err(arithmetic_fault(ArithmeticOp::Mul, ArithmeticStage::BurnScaling))
    } else {
        Ok(PlayEffects {
            record: PetDataAccount {
                happiness: (record.happiness - amount - (current_tick - record.played_at_slot)) as u8,
                played_at_slot: record.played_at_slot,
            },
            burn_amount: ((amount as nat) * pow10(decimals as nat)) as u64,
        })
    }
}

/// Runs the interaction pipeline on one record.  The record itself is
/// not mutated: on success the caller receives the record to persist and
/// the quantity to burn, and must persist only after the burn succeeded.
pub fn play_pet(record: &PetDataAccount, amount: u8, current_tick: u64, decimals: u8) -> (r:
    Result<PlayEffects, ErrorCode>)
    ensures
        r == play_spec(*record, amount, current_tick, decimals),
{
    let after_debit: u8 = match record.happiness.checked_sub(amount) {
        Some(v) => v,
        None => {
            return Err(
                ErrorCode::ArithmeticFault {
                    operation: ArithmeticOp::Sub,
                    stage: ArithmeticStage::HappinessDebit,
                },
            );
        },
    };
    if amount == 0 {
        return Err(ErrorCode::NoTokensToPlay);
    }
    let diff: u64 = match current_tick.checked_sub(record.played_at_slot) {
        Some(v) => v,
        None => {
            return Err(
                ErrorCode::ArithmeticFault {
                    operation: ArithmeticOp::Sub,
                    stage: ArithmeticStage::TickDiff,
                },
            );
        },
    };
    if diff > after_debit as u64 {
        return Err(
            ErrorCode::ArithmeticFault { operation: ArithmeticOp::Sub, stage: ArithmeticStage::Decay },
        );
    }
    let after_decay: u8 = after_debit - (diff as u8);
    let scale: u64 = match checked_pow10(decimals) {
        Some(p) => p,
        None => {
            proof {
                assert((amount as nat) * pow10(decimals as nat) >= pow10(decimals as nat))
                    by (nonlinear_arith)
                    requires
                        amount >= 1,
                ;
            }
            return Err(
                ErrorCode::ArithmeticFault {
                    operation: ArithmeticOp::Mul,
                    stage: ArithmeticStage::BurnScaling,
                },
            );
        },
    };
    let burn_amount: u64 = match (amount as u64).checked_mul(scale) {
        Some(b) => b,
        None => {
            return Err(
                ErrorCode::ArithmeticFault {
                    operation: ArithmeticOp::Mul,
                    stage: ArithmeticStage::BurnScaling,
                },
            );
        },
    };
    Ok(
        PlayEffects {
            record: PetDataAccount { happiness: after_decay, played_at_slot: record.played_at_slot },
            burn_amount,
        },
    )
}

/// The record to persist once the burn request has returned: the updated
/// record where the token ledger accepted the burn, the prior record
/// unchanged where it rejected it.  A rejected burn thus discards the
/// happiness update computed by the pipeline.
pub fn commit_play(prior: &PetDataAccount, effects: &PlayEffects, burn_accepted: bool) -> (r:
    PetDataAccount)
    ensures
        burn_accepted ==> r == effects.record,
        !burn_accepted ==> r == *prior,
{
    if burn_accepted {
        effects.record
    } else {
        *prior
    }
}

/// The whole registry after one "play" unit of work for `owner`: the
/// owner's record is replaced only where the pipeline succeeded and the
/// token ledger accepted the burn; any failure leaves the registry
/// exactly as it was.
pub open spec fn store_play(
    store: Map<Seq<u8>, PetDataAccount>,
    owner: Seq<u8>,
    amount: u8,
    current_tick: u64,
    decimals: u8,
    burn_accepted: bool,
) -> Map<Seq<u8>, PetDataAccount>
    recommends
        store.dom().contains(owner),
{
    match play_spec(store[owner], amount, current_tick, decimals) {
        Ok(effects) => if burn_accepted {
            store.insert(owner, effects.record)
        } else {
            store
        },
        Err(_) => store,
    }
}

/// A play succeeds exactly when the amount is positive and within the
/// current happiness, the clock has not gone backwards, the elapsed-time
/// decay fits in the remaining happiness, and the scaled burn quantity
/// fits in 64 bits.  The new happiness compounds the direct cost with
/// the decay, the record's tick is left unmodified, and the burn is the
/// amount scaled by the token's decimal precision.
pub proof fn lemma_play_success(record: PetDataAccount, amount: u8, current_tick: u64, decimals: u8)
    ensures
        play_spec(record, amount, current_tick, decimals) is Ok <==> (0 < amount <= record.happiness
            && record.played_at_slot <= current_tick && current_tick - record.played_at_slot
            <= record.happiness - amount && (amount as nat) * pow10(decimals as nat) <= u64::MAX),
        play_spec(record, amount, current_tick, decimals) matches Ok(effects) ==> (
        effects.record.happiness == record.happiness - amount - (current_tick
            - record.played_at_slot) && effects.record.played_at_slot == record.played_at_slot
            && effects.burn_amount == (amount as nat) * pow10(decimals as nat)),
{
}

/// A zero-magnitude interaction is rejected with `NoTokensToPlay` and
/// persists nothing, whatever the record holds and whatever the token
/// ledger would have answered: the happiness debit computed before the
/// zero check is never visible, and no burn is requested.
pub proof fn lemma_play_zero_amount(
    store: Map<Seq<u8>, PetDataAccount>,
    owner: Seq<u8>,
    current_tick: u64,
    decimals: u8,
    burn_accepted: bool,
)
    requires
        store.dom().contains(owner),
    ensures
        play_spec(store[owner], 0, current_tick, decimals) == Err::<PlayEffects, ErrorCode>(
            ErrorCode::NoTokensToPlay,
        ),
        store_play(store, owner, 0, current_tick, decimals, burn_accepted) == store,
{
}

/// An interaction larger than the current happiness fails with an
/// underflow fault at the happiness debit and persists nothing: the
/// score is neither clamped to zero nor wrapped around.
pub proof fn lemma_play_underflow_aborts(
    store: Map<Seq<u8>, PetDataAccount>,
    owner: Seq<u8>,
    amount: u8,
    current_tick: u64,
    decimals: u8,
    burn_accepted: bool,
)
    requires
        store.dom().contains(owner),
        amount > store[owner].happiness,
    ensures
        play_spec(store[owner], amount, current_tick, decimals) == Err::<PlayEffects, ErrorCode>(
            arithmetic_fault(ArithmeticOp::Sub, ArithmeticStage::HappinessDebit),
        ),
        store_play(store, owner, amount, current_tick, decimals, burn_accepted) == store,
{
}

/// Atomicity: a unit of work that fails at any step — validation,
/// checked arithmetic, or the external burn — leaves the whole registry
/// unchanged.
pub proof fn lemma_failed_play_leaves_store(
    store: Map<Seq<u8>, PetDataAccount>,
    owner: Seq<u8>,
    amount: u8,
    current_tick: u64,
    decimals: u8,
    burn_accepted: bool,
)
    requires
        store.dom().contains(owner),
        play_spec(store[owner], amount, current_tick, decimals) is Err || !burn_accepted,
    ensures
        store_play(store, owner, amount, current_tick, decimals, burn_accepted) == store,
{
}

/// A burn rejected by the token ledger aborts the unit of work: the
/// happiness update computed by the pipeline is discarded and the
/// persisted record keeps its pre-call value.
pub proof fn lemma_burn_failure_aborts(
    store: Map<Seq<u8>, PetDataAccount>,
    owner: Seq<u8>,
    amount: u8,
    current_tick: u64,
    decimals: u8,
)
    requires
        store.dom().contains(owner),
    ensures
        store_play(store, owner, amount, current_tick, decimals, false) == store,
        store_play(store, owner, amount, current_tick, decimals, false)[owner] == store[owner],
{
}

/// Interactions on one owner's record never read or mutate another
/// owner's record: the registry is keyed by the owner identity itself —
/// mirroring an address that is a pure function of that identity — so
/// the records of distinct owners never collide.
pub proof fn lemma_play_independent_owners(
    store: Map<Seq<u8>, PetDataAccount>,
    owner_a: Seq<u8>,
    owner_b: Seq<u8>,
    amount: u8,
    current_tick: u64,
    decimals: u8,
    burn_accepted: bool,
)
    requires
        owner_a != owner_b,
        store.dom().contains(owner_a),
        store.dom().contains(owner_b),
    ensures
        store_play(store, owner_a, amount, current_tick, decimals, burn_accepted).dom().contains(
            owner_b,
        ),
        store_play(store, owner_a, amount, current_tick, decimals, burn_accepted)[owner_b]
            == store[owner_b],
{
}

} // verus!
