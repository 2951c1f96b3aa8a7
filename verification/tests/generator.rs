use pcg_rand::{PcgXshRr, Rand};

#[test]
fn pcg_xsh_rr() {
    let mut rng = PcgXshRr::new2(&42, &54);
    let expecteds: [u32; 6] = [
        2707161783, 2068313097, 3122475824, 2211639955, 3215226955, 3421331566,
    ];
    for i in 0..6 {
        let val = rng.next();
        assert_eq!(val, expecteds[i]);
    }
}

#[test]
fn rand_next() {
    let mut rand = Rand::new();
    let expecteds: [f64; 6] = [
        2707161783.0,
        2068313097.0,
        3122475824.0,
        2211639955.0,
        3215226955.0,
        3421331566.0,
    ];
    for i in 0..6 {
        let val = f64::from(rand.next_int());
        assert_eq!(val, expecteds[i]);
    }
}

#[test]
fn rand_next_bounded() {
    let mut rand = Rand::new();
    let expecteds: [f64; 6] = [
        559678133.0,
        994571272.0,
        974992174.0,
        64156305.0,
        1067743305.0,
        200106091.0,
    ];
    let bound: u32 = 1073741825.0f64 as u32;
    for i in 0..6 {
        let val = f64::from(rand.next_int_bounded(bound).unwrap());
        assert_eq!(val, expecteds[i]);
    }
}

#[test]
fn same_seed_same_stream() {
    let mut a = PcgXshRr::new2(&123456789, &987654321);
    let mut b = PcgXshRr::new2(&123456789, &987654321);
    for _ in 0..50 {
        assert_eq!(a.next(), b.next());
    }
    let mut c = PcgXshRr::new(&7);
    let mut d = PcgXshRr::new(&7);
    for _ in 0..50 {
        assert_eq!(c.next(), d.next());
    }
    let mut e = Rand::new();
    let mut f = Rand::new();
    for _ in 0..50 {
        assert_eq!(e.next_int(), f.next_int());
    }
}

#[test]
fn bounded_values_in_range() {
    let mut rng = PcgXshRr::new2(&1, &2);
    let bounds: [u32; 6] = [1, 2, 3, 7, 1000, u32::MAX];
    for &bound in bounds.iter() {
        for _ in 0..20 {
            let val = rng.next_bounded(&bound);
            assert!(val < bound);
        }
    }
    let mut ones = PcgXshRr::new(&99);
    for _ in 0..20 {
        assert_eq!(ones.next_bounded(&1), 0);
    }
}

#[test]
fn zero_bound_rejected() {
    let mut rand = Rand::new();
    assert_eq!(rand.next_int_bounded(0), None);
    // The rejection happens before the generator is touched: the stream
    // still starts at its first reference value.
    assert_eq!(rand.next_int(), 2707161783);
}

#[test]
fn sanitization_boundary_cases() {
    // The facade's numeric coercion is the saturating, truncating
    // float-to-unsigned cast: fractional parts are dropped, NaN and
    // negative values become 0, anything above 2^32 - 1 becomes
    // 2^32 - 1.
    assert_eq!((-5.0f64) as u32, 0);
    assert_eq!(f64::NAN as u32, 0);
    assert_eq!(3.9f64 as u32, 3);
    assert_eq!((4294967296.0f64 + 100.0) as u32, u32::MAX);

    // A negative or NaN bound therefore behaves as a zero bound.
    let mut rand = Rand::new();
    assert_eq!(rand.next_int_bounded((-5.0f64) as u32), None);
    assert_eq!(rand.next_int_bounded(f64::NAN as u32), None);

    // An overflowing bound behaves as 2^32 - 1.
    let mut clipped = Rand::new();
    let mut max = Rand::new();
    for _ in 0..10 {
        assert_eq!(
            clipped.next_int_bounded((4294967296.0f64 + 100.0) as u32),
            max.next_int_bounded(u32::MAX)
        );
    }

    // A fractional bound behaves as its integer part.
    let mut frac = Rand::new();
    let mut trunc = Rand::new();
    for _ in 0..10 {
        assert_eq!(frac.next_int_bounded(3.9f64 as u32), trunc.next_int_bounded(3));
    }
}

#[test]
fn every_call_advances_the_stream() {
    // Calling next twice does not repeat the first output: the state
    // advances on every call.
    let mut rand = Rand::new();
    let first = rand.next_int();
    let second = rand.next_int();
    assert_eq!(first, 2707161783);
    assert_eq!(second, 2068313097);
    assert_ne!(first, second);

    // A bounded call advances the state too: the raw stream does not
    // start over afterwards.
    let mut mixed = Rand::new();
    mixed.next_int_bounded(1073741825).unwrap();
    assert_ne!(mixed.next_int(), 2707161783);
}
