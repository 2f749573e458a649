use protected_integer::{ProtectedInteger, State};

#[test]
fn state_variants_can_be_matched() {
    let mut cell = ProtectedInteger::new(8i64);
    match cell.get() {
        State::Untampered(v) => assert_eq!(v, 8),
        State::Tampered(_) => panic!("fresh cell reported tampered"),
    }
    cell.value = 9;
    match cell.get() {
        State::Untampered(_) => panic!("corrupted cell reported untampered"),
        State::Tampered(v) => assert_eq!(v, 8),
    }
}

#[test]
fn basic_mutations() {
    let mut number = ProtectedInteger::new(114514);
    println!("{}", number.get().to_value());
    number.set(1919810);
    println!("{}", number.get().to_value());
    println!("{}", number.check());
    assert_eq!(number.get().to_value(), 1919810);
}

#[test]
fn new_reads_back_untampered() {
    let cell = ProtectedInteger::new(42u32);
    let state = cell.get();
    assert!(state.is_untampered());
    assert!(!state.is_tampered());
    assert_eq!(state.to_value(), 42);
}

#[test]
fn set_round_trip() {
    let mut cell = ProtectedInteger::new(1u64);
    cell.set(2);
    let state = cell.get();
    assert!(state.is_untampered());
    assert_eq!(state.to_value(), 2);
}

#[test]
fn check_true_after_every_write() {
    let mut cell = ProtectedInteger::new(9i32);
    assert!(cell.check());
    cell.set(-9);
    assert!(cell.check());
    cell.set(0);
    assert!(cell.check());
}

#[test]
fn repeated_reads_change_nothing() {
    let cell = ProtectedInteger::new(77u16);
    let value = cell.value;
    let verification = cell.verification;
    let magic = cell.magic;

    let first = cell.get();
    let second = cell.get();
    assert_eq!(first.is_untampered(), second.is_untampered());
    assert_eq!(first.to_value(), second.to_value());
    assert_eq!(cell.check(), cell.check());

    assert_eq!(cell.value, value);
    assert_eq!(cell.verification, verification);
    assert_eq!(cell.magic, magic);
}

#[test]
fn value_tamper_is_detected_and_old_value_recovered() {
    let mut cell = ProtectedInteger::new(5u32);
    cell.value = 6;
    assert!(!cell.check());
    let state = cell.get();
    assert!(state.is_tampered());
    assert!(!state.is_untampered());
    assert_eq!(state.to_value(), 5);
}

#[test]
fn tamper_by_one_bit_is_detected() {
    let mut cell = ProtectedInteger::new(0x1000u64);
    cell.value ^= 1;
    assert!(!cell.check());
    assert_eq!(cell.get().to_value(), 0x1000);
}

#[test]
fn rewriting_the_same_value_redraws_the_mask() {
    let mut cell = ProtectedInteger::new(7u64);
    cell.set(7);
    let magic = cell.magic;
    let verification = cell.verification;
    cell.set(7);
    // A 64-bit mask repeating across two draws is overwhelmingly unlikely;
    // a repeat here would mean the mask is not being redrawn on write.
    assert!(magic != cell.magic);
    assert!(verification != cell.verification);
}

#[test]
fn scenario_corrupt_then_overwrite() {
    let mut cell = ProtectedInteger::new(123i16);
    let state = cell.get();
    assert!(state.is_untampered());
    assert_eq!(state.to_value(), 123);

    cell.value = 999;
    assert!(!cell.check());
    let state = cell.get();
    assert!(state.is_tampered());
    assert_eq!(state.to_value(), 123);

    cell.set(124);
    let state = cell.get();
    assert!(state.is_untampered());
    assert_eq!(state.to_value(), 124);
    assert!(cell.check());
}

#[test]
fn zero_and_extreme_values_round_trip() {
    let cell = ProtectedInteger::new(0u8);
    assert!(cell.get().is_untampered());
    assert_eq!(cell.get().to_value(), 0);

    let cell = ProtectedInteger::new(u64::MAX);
    assert!(cell.check());
    assert_eq!(cell.get().to_value(), u64::MAX);

    let cell = ProtectedInteger::new(i64::MIN);
    assert!(cell.check());
    assert_eq!(cell.get().to_value(), i64::MIN);

    let cell = ProtectedInteger::new(i8::MIN);
    assert!(cell.check());
    assert_eq!(cell.get().to_value(), i8::MIN);
}

#[test]
fn tamper_to_zero_is_detected() {
    let mut cell = ProtectedInteger::new(u32::MAX);
    cell.value = 0;
    assert!(!cell.check());
    let state = cell.get();
    assert!(state.is_tampered());
    assert_eq!(state.to_value(), u32::MAX);
}
