use pet_program::lifecycle::initialize;
use pet_program::record::PetDataAccount;

#[test]
fn fresh_record_has_full_happiness_and_current_tick() {
    let rec = initialize(None, 4242);
    assert_eq!(rec.happiness, 100);
    assert_eq!(rec.played_at_slot, 4242);
}

#[test]
fn initialize_twice_is_a_no_op() {
    let first = initialize(None, 1000);
    let second = initialize(Some(first), 2000);
    assert_eq!(second, first);
    assert_eq!(second.happiness, 100);
    assert_eq!(second.played_at_slot, 1000);
}

#[test]
fn initialize_keeps_an_existing_record_untouched() {
    let existing = PetDataAccount { happiness: 7, played_at_slot: 99 };
    let after = initialize(Some(existing), 123456);
    assert_eq!(after, existing);
}
