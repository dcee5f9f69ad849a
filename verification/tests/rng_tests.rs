use zerotrust::rng::Rng;

#[test]
fn rng_same_seed_same_sequence() {
    let mut a = Rng::new("determinism-check");
    let mut b = Rng::new("determinism-check");
    for _ in 0..100 {
        assert_eq!(a.next_fp(), b.next_fp());
    }
    for n in 1..50usize {
        assert_eq!(a.next_usize(n), b.next_usize(n));
    }
}

#[test]
fn rng_known_fraction_sequence() {
    let mut r = Rng::new("abc");
    assert_eq!(r.next_fp(), 13890);
    assert_eq!(r.next_fp(), 800623);
    assert_eq!(r.next_fp(), 210241);
    assert_eq!(r.next_fp(), 709703);
    assert_eq!(r.next_fp(), 395943);
}

#[test]
fn rng_known_bounded_sequence() {
    let mut r = Rng::new("abc");
    assert_eq!(r.next_usize(10), 0);
    assert_eq!(r.next_usize(9), 4);
    assert_eq!(r.next_usize(5), 1);
}

#[test]
fn rng_fraction_in_range() {
    let mut r = Rng::new("range");
    for _ in 0..1000 {
        assert!(r.next_fp() < 1_000_000);
    }
}

#[test]
fn rng_bounded_in_range() {
    let mut r = Rng::new("range");
    for n in 1..200usize {
        assert!(r.next_usize(n) < n);
    }
}

#[test]
fn rng_different_seeds_differ() {
    let mut a = Rng::new("seed-one");
    let mut b = Rng::new("seed-two");
    let sa: Vec<u32> = (0..8).map(|_| a.next_fp()).collect();
    let sb: Vec<u32> = (0..8).map(|_| b.next_fp()).collect();
    assert_ne!(sa, sb);
}
