use ran::generators::{ran_irange, ran_urange, ranvi64_in, ranvvu64, xoshiu64};
use ran::impls::{Rnum, Rv, Rvv};
use ran::random::{ranf64_numerator, ranvu, ranvu8, ranvvu8};
use ran::{
    get_seed, get_xoshi, map_irange, map_urange, put_xoshi, ran_fast_unit, ran_i64,
    ran_i64_range, ran_u16, ran_u64, ran_u64_range, ran_u8, ran_ubits, ran_unit, ranv_i64,
    ranv_i64_range, ranv_u16, ranv_u64, ranv_u64_range, ranv_u8, ranv_unit, ranvv_i64,
    ranvv_i64_range, ranvv_u16, ranvv_u64, ranvv_u64_range, ranvv_u8, ranvv_unit, rerror,
    set_seeds, splitmix, xoshi_step, RanError, RanState, Re,
};

const MANTISSA_MAX: f64 = 9007199254740992.0;

fn seeded(s: u64) -> RanState {
    let mut g = RanState::new();
    set_seeds(&mut g, s);
    g
}

#[test]
fn ran() {
    let mut g = RanState::new();
    println!("ran_u8:     {}", ran_u8(&mut g));
    println!("ran_u16:    {}", ran_u16(&mut g));
    println!("ran_u64:    {}", ran_u64(&mut g));
    println!("ran_i64:    {}", ran_i64(&mut g));
    println!("ran_f64:    {}", ran_unit(&mut g) as f64 / MANTISSA_MAX);
    println!("ran_u64_range: {}", ran_u64_range(&mut g, 1, 6).unwrap());
    println!("ran_i64_range: {}", ran_i64_range(&mut g, -6, 6).unwrap());
    println!("ran_f64_range: {}", 200.0 * (ran_unit(&mut g) as f64 / MANTISSA_MAX) - 100.0);
}

#[test]
fn ranv() -> Result<(), Re> {
    let mut g = RanState::new();
    println!("ranv_u8:     {:?}", ranv_u8(&mut g, 5)?);
    println!("ranv_u16:    {:?}", ranv_u16(&mut g, 5)?);
    println!("ranv_u64:    {:?}", ranv_u64(&mut g, 5)?);
    println!("ranv_i64:    {:?}", ranv_i64(&mut g, 5)?);
    let f: Vec<f64> = ranv_unit(&mut g, 5)?.iter().map(|&u| u as f64 / MANTISSA_MAX).collect();
    println!("ranv_f64:    {:?}", f);
    println!("ranv_u64_range: {:?}", ranv_u64_range(&mut g, 5, 1, 6)?);
    println!("ranv_i64_range: {:?}", ranv_i64_range(&mut g, 5, -6, 6)?);
    let f: Vec<f64> = ranv_unit(&mut g, 5)?
        .iter()
        .map(|&u| 200.0 * (u as f64 / MANTISSA_MAX) - 100.0)
        .collect();
    println!("ranv_f64_range: {:?}", f);
    Ok(())
}

#[test]
fn ranvv() -> Result<(), Re> {
    let mut g = RanState::new();
    set_seeds(&mut g, 0);
    println!("ranvv_u8:     {:?}", ranvv_u8(&mut g, 2, 5)?);
    println!("ranvv_u16:    {:?}", ranvv_u16(&mut g, 2, 5)?);
    println!("ranvv_u64:    {:?}", ranvv_u64(&mut g, 2, 5)?);
    println!("ranvv_i64:    {:?}", ranvv_i64(&mut g, 2, 5)?);
    println!("ranvv_f64:    {:?}", ranvv_unit(&mut g, 2, 5)?);
    println!("ranvv_u64_range: {:?}", ranvv_u64_range(&mut g, 2, 5, 1, 6)?);
    println!("ranvv_i64_range: {:?}", ranvv_i64_range(&mut g, 2, 5, -6, 6)?);
    println!("ranvv_f64_range: {:?}", ranvv_unit(&mut g, 2, 5)?);
    Ok(())
}

#[test]
fn golden_seeding_1234567() {
    let g = seeded(1234567);
    assert_eq!(get_seed(&g), 8709371129874925275);
    assert_eq!(
        get_xoshi(&g),
        [6457827717110365317, 3203168211198807973, 9817491932198370423, 4593380528125082431]
    );
}

#[test]
fn golden_first_outputs() {
    let mut g = seeded(1234567);
    let first: Vec<u64> = (0..5).map(|_| ran_u64(&mut g)).collect();
    assert_eq!(
        first,
        vec![
            3504822795582309479,
            1819558768956484042,
            1250851346055027673,
            16940231675099994102,
            11585879347611423030
        ]
    );
}

#[test]
fn golden_die_roll() {
    let mut g = seeded(1234567);
    assert_eq!(ran_u64_range(&mut g, 1, 6), Ok(6));
    let mut g = seeded(1234567);
    assert_eq!(ran_urange(&mut g, 1, 6), 6);
    let mut g = seeded(1234567);
    assert_eq!(ran_i64_range(&mut g, -6, 6), Ok(-1));
    let mut g = seeded(1234567);
    assert_eq!(ran_irange(&mut g, -6, 6), -1);
}

#[test]
fn golden_scalar_float() {
    let mut g = seeded(1234567);
    let u = ran_fast_unit(&mut g);
    assert_eq!(u, 4025394563268621);
    assert_eq!(u as f64 / MANTISSA_MAX, 0.44690857273417495);
    let mut g = seeded(1234567);
    assert_eq!(ran_unit(&mut g), 5396097775993870);
}

#[test]
fn narrow_types_take_top_bits() {
    let mut g = seeded(1234567);
    assert_eq!(ran_u16(&mut g), 12451);
    let mut g = seeded(1234567);
    assert_eq!(ran_u8(&mut g), 48);
    let mut g = seeded(1234567);
    assert_eq!(ran_ubits(&mut g, 64), 3504822795582309479);
    let mut g = seeded(1234567);
    assert_eq!(ran_ubits(&mut g, 1), 0);
    let mut g = seeded(1234567);
    assert_eq!(ran_i64(&mut g), 3504822795582309479);
}

#[test]
fn splitmix_from_zero() {
    let mut g = RanState { seed: 0, xoshi: [0; 4] };
    assert_eq!(splitmix(&mut g), 16294208416658607535);
    assert_eq!(g.seed, 0x9e3779b97f4a7c15);
}

#[test]
fn step_and_put_agree_with_generator() {
    let mut g = seeded(99);
    let mut s = get_xoshi(&g);
    xoshi_step(&mut s);
    ran_u64(&mut g);
    assert_eq!(get_xoshi(&g), s);
    put_xoshi(&mut g, &[1, 2, 3, 4]);
    assert_eq!(get_xoshi(&g), [1, 2, 3, 4]);
}

#[test]
fn determinism_across_contexts() {
    for s in [1u64, 7, 1234567, u64::MAX] {
        let mut a = RanState::new();
        let mut b = RanState::new();
        ran_u64(&mut b);
        set_seeds(&mut a, s);
        set_seeds(&mut b, s);
        assert_eq!(a, b);
        for _ in 0..100 {
            assert_eq!(ran_u64(&mut a), ran_u64(&mut b));
            assert_eq!(ran_fast_unit(&mut a), ran_fast_unit(&mut b));
            assert_eq!(ran_u64_range(&mut a, 3, 9), ran_u64_range(&mut b, 3, 9));
            assert_eq!(ran_unit(&mut a), ran_unit(&mut b));
        }
        assert_eq!(ranvv_i64(&mut a, 3, 4), ranvv_i64(&mut b, 3, 4));
    }
}

#[test]
fn range_containment_many_samples() {
    let mut g = seeded(2024);
    let uranges = [(1u64, 6u64), (0, 0), (5, 5), (0, u64::MAX - 1), (1, u64::MAX), (1000, 1003)];
    for (lo, hi) in uranges {
        for _ in 0..10000 {
            let v = ran_u64_range(&mut g, lo, hi).unwrap();
            assert!(lo <= v && v <= hi);
        }
    }
    let iranges = [(-6i64, 6i64), (i64::MIN, i64::MAX - 1), (i64::MIN + 1, i64::MAX), (-3, -3), (-10, -2)];
    for (lo, hi) in iranges {
        for _ in 0..10000 {
            let v = ran_i64_range(&mut g, lo, hi).unwrap();
            assert!(lo <= v && v <= hi);
        }
    }
    for _ in 0..10000 {
        let u = ran_unit(&mut g) as f64 / MANTISSA_MAX;
        let x = 200.0 * u - 100.0;
        assert!((0.0..1.0).contains(&u));
        assert!(-100.0 <= x && x < 100.0);
    }
}

#[test]
fn range_mappers_at_the_edges() {
    assert_eq!(map_urange(u64::MAX, 0, u64::MAX - 1), 0);
    assert_eq!(map_urange(u64::MAX - 1, 0, u64::MAX - 1), u64::MAX - 1);
    assert_eq!(map_urange(17, 10, 12), 12);
    assert_eq!(map_irange(u64::MAX, i64::MIN, i64::MAX - 1), i64::MIN);
    assert_eq!(map_irange(u64::MAX - 1, i64::MIN, i64::MAX - 1), i64::MAX - 1);
    assert_eq!(map_irange(17, -6, 6), -2);
    assert_eq!(map_irange(5, 3, 3), 3);
}

#[test]
fn range_errors_leave_state_untouched() {
    let mut g = seeded(5);
    let before = g.clone();
    assert!(matches!(ran_u64_range(&mut g, 6, 1), Err(RanError::Range(_))));
    assert!(matches!(ran_u64_range(&mut g, 0, u64::MAX), Err(RanError::Range(_))));
    assert!(matches!(ran_i64_range(&mut g, 1, -1), Err(RanError::Range(_))));
    assert!(matches!(ran_i64_range(&mut g, i64::MIN, i64::MAX), Err(RanError::Range(_))));
    assert!(matches!(ranv_u64_range(&mut g, 3, 9, 2), Err(RanError::Range(_))));
    assert!(matches!(ranv_i64_range(&mut g, 3, 9, 2), Err(RanError::Range(_))));
    assert!(matches!(ranvv_u64_range(&mut g, 2, 3, 9, 2), Err(RanError::Range(_))));
    assert!(matches!(ranvv_i64_range(&mut g, 2, 3, 9, 2), Err(RanError::Range(_))));
    assert!(matches!(ranvi64_in(&mut g, 3, 9, 2), Err(RanError::Range(_))));
    assert_eq!(g, before);
}

#[test]
fn dimension_validation() {
    let mut g = seeded(5);
    let before = g.clone();
    assert!(matches!(ranv_u64(&mut g, 0), Err(RanError::Dimensions(_))));
    assert!(matches!(ranv_u8(&mut g, 0), Err(RanError::Dimensions(_))));
    assert!(matches!(ranv_u16(&mut g, 0), Err(RanError::Dimensions(_))));
    assert!(matches!(ranv_i64(&mut g, 0), Err(RanError::Dimensions(_))));
    assert!(matches!(ranv_unit(&mut g, 0), Err(RanError::Dimensions(_))));
    assert!(matches!(ranv_u64_range(&mut g, 0, 1, 6), Err(RanError::Dimensions(_))));
    assert!(matches!(ranv_u64_range(&mut g, 0, 6, 1), Err(RanError::Dimensions(_))));
    for (n, d) in [(0usize, 0usize), (0, 5), (5, 0), (1, 1)] {
        assert!(matches!(ranvv_u64(&mut g, n, d), Err(RanError::Dimensions(_))));
        assert!(matches!(ranvv_u8(&mut g, n, d), Err(RanError::Dimensions(_))));
        assert!(matches!(ranvv_u16(&mut g, n, d), Err(RanError::Dimensions(_))));
        assert!(matches!(ranvv_i64(&mut g, n, d), Err(RanError::Dimensions(_))));
        assert!(matches!(ranvv_unit(&mut g, n, d), Err(RanError::Dimensions(_))));
        assert!(matches!(ranvv_i64_range(&mut g, n, d, 6, 1), Err(RanError::Dimensions(_))));
        assert!(matches!(ranvvu64(&mut g, d, n), Err(RanError::Dimensions(_))));
    }
    assert_eq!(g, before);
    assert_eq!(ranvv_u64(&mut g, 1, 2).unwrap().len(), 1);
    assert_eq!(ranvv_u64(&mut g, 2, 1).unwrap().len(), 2);
}

#[test]
fn dimension_message_names_the_shape() {
    let mut g = seeded(5);
    match ranvv_u64(&mut g, 1, 1) {
        Err(RanError::Dimensions(m)) => assert_eq!(m, "ranvv_u64: 1 1"),
        other => panic!("unexpected {:?}", other),
    }
    match ranvv_u8(&mut g, 0, 3) {
        Err(RanError::Dimensions(m)) => assert_eq!(m, "ranvv_u8: 3 0"),
        other => panic!("unexpected {:?}", other),
    }
}

#[test]
fn matrix_shape_five_by_five() {
    let mut g = seeded(77);
    let m = ranvv_u64(&mut g, 5, 5).unwrap();
    assert_eq!(m.len(), 5);
    assert!(m.iter().all(|row| row.len() == 5));
    assert_eq!(m.iter().map(|row| row.len()).sum::<usize>(), 25);
    let m = ranvv_i64_range(&mut g, 5, 5, -3, 3).unwrap();
    assert_eq!(m.len(), 5);
    assert!(m.iter().all(|row| row.len() == 5 && row.iter().all(|&x| (-3..=3).contains(&x))));
}

#[test]
fn matrix_rows_continue_the_stream() {
    let mut a = seeded(31);
    let mut b = seeded(31);
    let m = ranvv_u64(&mut a, 3, 4).unwrap();
    let flat: Vec<u64> = m.into_iter().flatten().collect();
    let v = ranv_u64(&mut b, 12).unwrap();
    assert_eq!(flat, v);
    assert_eq!(a, b);
    let mut c = seeded(31);
    assert_eq!(ranvvu64(&mut c, 4, 3).unwrap().into_iter().flatten().collect::<Vec<u64>>(), v);
    let mut d = seeded(31);
    let xs: Vec<u64> = (0..12).map(|_| xoshiu64(&mut d)).collect();
    assert_eq!(xs, v);
}

#[test]
fn no_repeated_output_pairs_in_short_horizon() {
    let mut g = seeded(1234567);
    let outs: Vec<u64> = (0..(1usize << 16)).map(|_| ran_u64(&mut g)).collect();
    let mut pairs: Vec<(u64, u64)> = outs.windows(2).map(|w| (w[0], w[1])).collect();
    let n = pairs.len();
    pairs.sort_unstable();
    pairs.dedup();
    assert_eq!(pairs.len(), n);
}

#[test]
fn seed_zero_takes_clock() {
    let mut g = seeded(1);
    set_seeds(&mut g, 0);
    assert_ne!(get_seed(&g), 0);
    let first = g.clone();
    let mut differs = false;
    for _ in 0..1000 {
        set_seeds(&mut g, 0);
        assert_ne!(get_seed(&g), 0);
        if g != first {
            differs = true;
            break;
        }
    }
    assert!(differs);
}

#[test]
fn rerror_kinds() {
    assert_eq!(rerror::<u8>("type", "t".to_string()), Err(RanError::Type("t".to_string())));
    assert_eq!(
        rerror::<u8>("dimensions", "d".to_string()),
        Err(RanError::Dimensions("d".to_string()))
    );
    assert_eq!(rerror::<u8>("range", "r".to_string()), Err(RanError::Range("r".to_string())));
    assert_eq!(rerror::<u8>("other", "o".to_string()), Err(RanError::Other("o".to_string())));
    assert!(matches!(rerror::<u8>("bogus", "x".to_string()), Err(RanError::Other(_))));
}

#[test]
fn rnum_generation_and_extraction() {
    let mut g = seeded(1234567);
    let r = Rnum::newu64().rannum(&mut g);
    assert_eq!(r, Rnum::U64(3504822795582309479));
    assert_eq!(r.getu64(), Ok(3504822795582309479));
    assert!(matches!(r.geti64(), Err(RanError::Type(_))));
    assert!(matches!(r.getu16(), Err(RanError::Type(_))));
    assert!(matches!(r.getu8(), Err(RanError::Type(_))));
    let mut g = seeded(1234567);
    assert_eq!(Rnum::newu16().rannum(&mut g).getu16(), Ok(12451));
    let mut g = seeded(1234567);
    assert_eq!(Rnum::newu8().rannum(&mut g).getu8(), Ok(48));
    let mut g = seeded(1234567);
    assert_eq!(Rnum::newi64().rannum(&mut g).geti64(), Ok(3504822795582309479));
    let mut g = seeded(1234567);
    assert_eq!(Rnum::newf64().rannum(&mut g), Rnum::F64(5396097775993870));
}

#[test]
fn rv_and_rvv_generation_and_extraction() {
    let mut g = seeded(8);
    let v = Rnum::newu8().ranv(&mut g, 7).unwrap();
    assert_eq!(v.clone().getvu8().unwrap().len(), 7);
    assert!(matches!(v.getvu64(), Err(RanError::Type(_))));
    assert!(matches!(Rnum::newi64().ranv(&mut g, 0), Err(RanError::Dimensions(_))));
    let v = Rnum::newi64().ranv(&mut g, 3).unwrap();
    assert_eq!(v.getvi64().unwrap().len(), 3);
    let v = Rnum::newu16().ranv(&mut g, 2).unwrap();
    assert!(matches!(v, Rv::U16(_)));
    assert_eq!(v.getvu16().unwrap().len(), 2);
    let m = Rnum::newu64().ranvv(&mut g, 4, 3).unwrap();
    let rows = m.clone().getvvu64().unwrap();
    assert_eq!(rows.len(), 3);
    assert!(rows.iter().all(|r| r.len() == 4));
    assert!(matches!(m.getvvu8(), Err(RanError::Type(_))));
    assert!(matches!(Rnum::newu8().ranvv(&mut g, 1, 1), Err(RanError::Dimensions(_))));
    let m = Rnum::newf64().ranvv(&mut g, 2, 2).unwrap();
    assert!(matches!(m, Rvv::F64(_)));
    assert!(matches!(Rnum::newi64().ranvv(&mut g, 2, 2).unwrap().getvi64(), Ok(_)));
    assert!(matches!(Rnum::newu16().ranvv(&mut g, 2, 2).unwrap().getvvu16(), Ok(_)));
}

#[test]
fn caller_seed_generators() {
    let mut s = 42u64;
    assert_eq!(ranvu8(5, &mut s), vec![0, 160, 139, 40, 78]);
    assert_eq!(s, 5661411637479084162);
    let mut s = 42u64;
    let m = ranvvu8(5, 1, &mut s);
    assert_eq!(m, vec![vec![0, 160, 139, 40, 78]]);
    let mut s = 42u64;
    assert_eq!(ranvu(5, &mut s), vec![21, 79, 16, 78, 0]);
    assert_eq!(s, 8709371129873690750);
    let mut s = 42u64;
    let u = ranf64_numerator(&mut s);
    assert!(u < (1u64 << 53));
    assert_ne!(s, 42);
}
