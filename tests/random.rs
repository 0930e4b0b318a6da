use shape_clicker::rand::RandomGenerator;

#[test]
fn rand_mod_applies_xorshift_steps() {
    let mut g = RandomGenerator::from_seed(1);
    assert_eq!(g.rand_mod(1_000_000), 270369);
    assert_eq!(g.rand_mod(10), 5);
    assert_eq!(g.rand_mod(u64::MAX), 18597760640231621);
}

#[test]
fn rand_in_range_offsets_by_min() {
    let mut g = RandomGenerator::from_seed(1);
    assert_eq!(g.rand_in_range(5, 12), 6);
}

#[test]
fn same_seed_gives_same_sequence() {
    let mut a = RandomGenerator::from_seed(0x9e37_79b9_7f4a_7c15);
    let mut b = RandomGenerator::from_seed(0x9e37_79b9_7f4a_7c15);
    for k in 0..100u64 {
        assert_eq!(a.rand_in_range(k, k + 17), b.rand_in_range(k, k + 17));
    }
}

#[test]
fn rand_in_range_stays_in_bounds() {
    let mut g = RandomGenerator::from_seed(42);
    for n in 1..200u64 {
        let r = g.rand_in_range(0, n);
        assert!(r < n);
    }
    let mut h = RandomGenerator::new();
    for n in 1..200u64 {
        let r = h.rand_in_range(3, 3 + n);
        assert!(3 <= r && r < 3 + n);
    }
}

#[test]
fn single_value_range_gives_min() {
    let mut g = RandomGenerator::from_seed(7);
    assert_eq!(g.rand_in_range(9, 10), 9);
}
