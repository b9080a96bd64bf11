use stormint::primitives::{Address, Amount, TxHash, Value};

#[test]
fn zero_is_zero() {
    assert_eq!(Amount::zero(), Amount { hi: 0, lo: 0 });
    assert!(Amount::zero().is_zero());
    assert!(!Amount::from_u128(1).is_zero());
    assert!(!(Amount { hi: 1, lo: 0 }).is_zero());
}

#[test]
fn from_u128_fills_the_lower_half() {
    assert_eq!(Amount::from_u128(1_000_000_000_000_000), Amount { hi: 0, lo: 1_000_000_000_000_000 });
    assert_eq!(Amount::from_u128(u128::MAX), Amount { hi: 0, lo: u128::MAX });
}

#[test]
fn small_amounts_add_up() {
    let sum = Amount::from_u128(40).checked_add(Amount::from_u128(2));
    assert_eq!(sum, Some(Amount { hi: 0, lo: 42 }));
}

#[test]
fn the_lower_half_carries_into_the_upper() {
    let sum = Amount::from_u128(u128::MAX).checked_add(Amount::from_u128(1));
    assert_eq!(sum, Some(Amount { hi: 1, lo: 0 }));
    let sum = (Amount { hi: 7, lo: u128::MAX - 1 }).checked_add(Amount { hi: 2, lo: 5 });
    assert_eq!(sum, Some(Amount { hi: 10, lo: 3 }));
}

#[test]
fn the_largest_amount_can_be_reached() {
    let sum = (Amount { hi: u128::MAX, lo: u128::MAX - 1 }).checked_add(Amount::from_u128(1));
    assert_eq!(sum, Some(Amount { hi: u128::MAX, lo: u128::MAX }));
    let sum = (Amount { hi: u128::MAX - 1, lo: u128::MAX }).checked_add(Amount { hi: 1, lo: 0 });
    assert_eq!(sum, Some(Amount { hi: u128::MAX, lo: u128::MAX }));
}

#[test]
fn a_sum_beyond_256_bits_is_refused() {
    let max = Amount { hi: u128::MAX, lo: u128::MAX };
    assert_eq!(max.checked_add(Amount::from_u128(1)), None);
    assert_eq!(max.checked_add(max), None);
    assert_eq!((Amount { hi: u128::MAX, lo: 0 }).checked_add(Amount { hi: 1, lo: 0 }), None);
    assert_eq!(
        (Amount { hi: u128::MAX, lo: u128::MAX }).checked_add(Amount::zero()),
        Some(max)
    );
    let carry_overflows = (Amount { hi: u128::MAX, lo: 1 }).checked_add(Amount { hi: 0, lo: u128::MAX });
    assert_eq!(carry_overflows, None);
}

#[test]
fn adding_agrees_with_the_256_bit_integers_of_alloy() {
    let cases = [
        (Amount { hi: 0, lo: 0 }, Amount { hi: 0, lo: 0 }),
        (Amount { hi: 3, lo: u128::MAX }, Amount { hi: 4, lo: 9 }),
        (Amount { hi: u128::MAX, lo: u128::MAX }, Amount { hi: 0, lo: 1 }),
        (Amount { hi: 1 << 127, lo: 12 }, Amount { hi: 1 << 127, lo: 30 }),
        (Amount { hi: 12345, lo: 1 << 127 }, Amount { hi: 54321, lo: 1 << 127 }),
    ];
    for (a, b) in cases {
        let expected = to_u256(a).checked_add(to_u256(b));
        let got = a.checked_add(b).map(to_u256);
        assert_eq!(got, expected);
    }
}

fn to_u256(amount: Amount) -> alloy::primitives::U256 {
    (alloy::primitives::U256::from(amount.hi) << 128) | alloy::primitives::U256::from(amount.lo)
}

#[test]
fn values_compare_by_content() {
    let a = Value::Tuple(vec![
        Value::Address(Address { bytes: [1; 20] }),
        Value::Uint(Amount::from_u128(5), 256),
    ]);
    let b = Value::Tuple(vec![
        Value::Address(Address { bytes: [1; 20] }),
        Value::Uint(Amount::from_u128(5), 256),
    ]);
    let c = Value::Tuple(vec![
        Value::Address(Address { bytes: [2; 20] }),
        Value::Uint(Amount::from_u128(5), 256),
    ]);
    assert_eq!(a, b);
    assert_ne!(a, c);
    assert_ne!(TxHash { bytes: [0; 32] }, TxHash { bytes: [1; 32] });
}
