use lumina::rng::TinyRng;

fn xorshift(mut x: u64) -> u64 {
    x ^= x << 13;
    x ^= x >> 7;
    x ^= x << 17;
    x
}

#[test]
fn next_is_xorshift_of_seed() {
    let nanos = 123_456_789u64;
    let counter = 1u64;
    let seed = nanos ^ counter.rotate_left(17) ^ 0xDEADBEEF;
    let mut r = TinyRng::from_parts(nanos, counter);
    let a = r.next_u64();
    assert_eq!(a, xorshift(seed));
    let b = r.next_u64();
    assert_eq!(b, xorshift(a));
}

#[test]
fn zero_seed_is_replaced() {
    // nanos chosen so that the mixed seed is zero.
    let counter = 5u64;
    let nanos = counter.rotate_left(17) ^ 0xDEADBEEF;
    let mut r = TinyRng::from_parts(nanos, counter);
    assert_eq!(r.next_u64(), xorshift(0xDEADBEEF));
}

#[test]
fn never_stuck_at_zero() {
    let mut r = TinyRng::from_parts(0, 0);
    for _ in 0..10_000 {
        assert_ne!(r.next_u64(), 0);
    }
}

#[test]
fn unit_bits_are_top_53_bits_of_next_state() {
    let mut a = TinyRng::from_parts(42, 7);
    let mut b = TinyRng::from_parts(42, 7);
    for _ in 0..1000 {
        let bits = a.next_unit_bits();
        assert_eq!(bits, b.next_u64() >> 11);
        assert!(bits < (1u64 << 53));
    }
}
