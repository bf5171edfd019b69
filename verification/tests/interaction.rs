use pet_program::play::checked_pow10;
use pet_program::play::commit_play;
use pet_program::play::play_pet;
use pet_program::record::ArithmeticOp;
use pet_program::record::ArithmeticStage;
use pet_program::record::ErrorCode;
use pet_program::record::PetDataAccount;

fn sub_fault(stage: ArithmeticStage) -> ErrorCode {
    ErrorCode::ArithmeticFault { operation: ArithmeticOp::Sub, stage }
}

fn mul_fault(stage: ArithmeticStage) -> ErrorCode {
    ErrorCode::ArithmeticFault { operation: ArithmeticOp::Mul, stage }
}

#[test]
fn zero_amount_is_rejected_without_any_effect() {
    let rec = PetDataAccount { happiness: 80, played_at_slot: 500 };
    let r = play_pet(&rec, 0, 600, 6);
    assert_eq!(r, Err(ErrorCode::NoTokensToPlay));
    assert_eq!(rec.happiness, 80);
    assert_eq!(rec.played_at_slot, 500);
}

#[test]
fn zero_amount_on_a_drained_record_still_reports_no_tokens() {
    // The happiness debit runs before the zero check, but a debit of zero
    // cannot underflow, so the zero check always decides.
    let rec = PetDataAccount { happiness: 0, played_at_slot: 500 };
    let r = play_pet(&rec, 0, 600, 6);
    assert_eq!(r, Err(ErrorCode::NoTokensToPlay));
}

#[test]
fn amount_above_happiness_faults_and_leaves_state() {
    let rec = PetDataAccount { happiness: 10, played_at_slot: 500 };
    let r = play_pet(&rec, 50, 600, 6);
    assert_eq!(r, Err(sub_fault(ArithmeticStage::HappinessDebit)));
    assert_eq!(rec.happiness, 10);
    assert_eq!(rec.played_at_slot, 500);
}

#[test]
fn amount_one_on_a_drained_record_faults_at_the_debit() {
    let rec = PetDataAccount { happiness: 0, played_at_slot: 500 };
    let r = play_pet(&rec, 1, 600, 6);
    assert_eq!(r, Err(sub_fault(ArithmeticStage::HappinessDebit)));
}

#[test]
fn clock_behind_record_faults_at_the_tick_difference() {
    let rec = PetDataAccount { happiness: 100, played_at_slot: 1000 };
    let r = play_pet(&rec, 5, 999, 6);
    assert_eq!(r, Err(sub_fault(ArithmeticStage::TickDiff)));
}

#[test]
fn decay_larger_than_remaining_happiness_faults() {
    // 100 - 5 leaves 95, but 96 ticks have elapsed.
    let rec = PetDataAccount { happiness: 100, played_at_slot: 1000 };
    let r = play_pet(&rec, 5, 1096, 6);
    assert_eq!(r, Err(sub_fault(ArithmeticStage::Decay)));
}

#[test]
fn decay_beyond_the_score_width_faults() {
    // An elapsed time of 1000 ticks cannot fit an 8-bit score at all.
    let rec = PetDataAccount { happiness: 255, played_at_slot: 1000 };
    let r = play_pet(&rec, 1, 2000, 6);
    assert_eq!(r, Err(sub_fault(ArithmeticStage::Decay)));
}

#[test]
fn decay_compounds_with_the_direct_cost() {
    let rec = PetDataAccount { happiness: 100, played_at_slot: 1000 };
    let effects = play_pet(&rec, 5, 1050, 6).unwrap();
    assert_eq!(effects.record.happiness, 45);
    // The record's tick is left unmodified by a successful play.
    assert_eq!(effects.record.played_at_slot, 1000);
    assert_eq!(effects.burn_amount, 5_000_000);
}

#[test]
fn exact_cost_with_no_elapsed_time_drains_the_score() {
    let rec = PetDataAccount { happiness: 255, played_at_slot: 1000 };
    let effects = play_pet(&rec, 255, 1000, 0).unwrap();
    assert_eq!(effects.record.happiness, 0);
    assert_eq!(effects.burn_amount, 255);
}

#[test]
fn burn_scaling_overflow_faults() {
    // 2 * 10^19 does not fit in 64 bits.
    let rec = PetDataAccount { happiness: 100, played_at_slot: 1000 };
    let r = play_pet(&rec, 2, 1000, 19);
    assert_eq!(r, Err(mul_fault(ArithmeticStage::BurnScaling)));
}

#[test]
fn burn_scaling_overflow_in_the_power_itself_faults() {
    // 10^20 does not fit in 64 bits, whatever the amount.
    let rec = PetDataAccount { happiness: 100, played_at_slot: 1000 };
    let r = play_pet(&rec, 1, 1000, 20);
    assert_eq!(r, Err(mul_fault(ArithmeticStage::BurnScaling)));
}

#[test]
fn largest_representable_burn_succeeds() {
    let rec = PetDataAccount { happiness: 100, played_at_slot: 1000 };
    let effects = play_pet(&rec, 1, 1000, 19).unwrap();
    assert_eq!(effects.burn_amount, 10_000_000_000_000_000_000);
}

#[test]
fn checked_pow10_exact_values() {
    assert_eq!(checked_pow10(0), Some(1));
    assert_eq!(checked_pow10(3), Some(1000));
    assert_eq!(checked_pow10(19), Some(10_000_000_000_000_000_000));
    assert_eq!(checked_pow10(20), None);
    assert_eq!(checked_pow10(255), None);
}

#[test]
fn rejected_burn_discards_the_computed_update() {
    // A token ledger that always rejects the burn: the computed effects
    // are never committed and the record keeps its pre-call value.
    let rec = PetDataAccount { happiness: 100, played_at_slot: 1000 };
    let effects = play_pet(&rec, 5, 1050, 6).unwrap();
    let persisted = commit_play(&rec, &effects, false);
    assert_eq!(persisted, rec);
    assert_eq!(persisted.happiness, 100);
}

#[test]
fn accepted_burn_commits_the_computed_update() {
    let rec = PetDataAccount { happiness: 100, played_at_slot: 1000 };
    let effects = play_pet(&rec, 5, 1050, 6).unwrap();
    let persisted = commit_play(&rec, &effects, true);
    assert_eq!(persisted, effects.record);
    assert_eq!(persisted.happiness, 45);
}

#[test]
fn interleaved_owners_never_touch_each_other() {
    let rec_a = PetDataAccount { happiness: 100, played_at_slot: 1000 };
    let rec_b = PetDataAccount { happiness: 30, played_at_slot: 2000 };

    let effects_a = play_pet(&rec_a, 5, 1050, 6).unwrap();
    let r_b = play_pet(&rec_b, 40, 2001, 6);
    let committed_a = commit_play(&rec_a, &effects_a, true);

    // Owner B's interaction failed on its own record alone, and owner
    // A's commit changed nothing of owner B's record.
    assert_eq!(r_b, Err(sub_fault(ArithmeticStage::HappinessDebit)));
    assert_eq!(rec_b.happiness, 30);
    assert_eq!(rec_b.played_at_slot, 2000);
    assert_eq!(committed_a.happiness, 45);
}
