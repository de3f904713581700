use marketplace_builder::FeeAmount;

#[test]
fn small_amounts_are_u64s() {
    assert_eq!(FeeAmount::from(0).as_u64(), Some(0));
    assert_eq!(FeeAmount::from(10).as_u64(), Some(10));
    assert_eq!(FeeAmount::from(u64::MAX).as_u64(), Some(u64::MAX));
}

#[test]
fn large_amounts_are_not_u64s() {
    for limb in 1..4 {
        let mut limbs = [0; 4];
        limbs[limb] = 1;
        assert_eq!(FeeAmount { limbs }.as_u64(), None);
        limbs[0] = u64::MAX;
        assert_eq!(FeeAmount { limbs }.as_u64(), None);
    }
    assert_eq!(FeeAmount { limbs: [u64::MAX; 4] }.as_u64(), None);
}

#[test]
fn an_amount_from_a_u64_has_one_limb() {
    assert_eq!(FeeAmount::from(7).limbs, [7, 0, 0, 0]);
}
