use chain_sync::slot::NewSlot;

#[test]
fn new_slot_keeps_its_fields() {
    let s = NewSlot::new("mainnet".to_string(), 42, Some(7));
    assert_eq!(s.height(), 42);
    assert_eq!(s.validators_count(), Some(7));
    assert_eq!(s.spec(), "mainnet".to_string());
    assert_eq!(s.height_column_value(), 42);
    assert_eq!(s.validators_count_column_value(), Some(7));
}

#[test]
fn new_slot_without_validator_count() {
    let s = NewSlot::new("kiln".to_string(), 0, None);
    assert_eq!(s.height(), 0);
    assert_eq!(s.validators_count(), None);
    assert_eq!(s.validators_count_column_value(), None);
}

#[test]
fn large_heights_round_trip_through_signed_columns() {
    let s = NewSlot::new(String::new(), u64::MAX, Some(usize::MAX));
    assert_eq!(s.height_column_value(), -1);
    assert_eq!(s.height(), u64::MAX);
    assert_eq!(s.validators_count(), Some(usize::MAX as u64));

    let t = NewSlot::new(String::new(), 1u64 << 63, None);
    assert_eq!(t.height_column_value(), i64::MIN);
    assert_eq!(t.height(), 1u64 << 63);

    let u = NewSlot::new(String::new(), i64::MAX as u64, None);
    assert_eq!(u.height_column_value(), i64::MAX);
    assert_eq!(u.height(), i64::MAX as u64);
}
