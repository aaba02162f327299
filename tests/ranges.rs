use iced_audio::{FloatRange, IntRange, LogDBRange, Normal, Range, NORMAL_ONE, VALUE_ONE};

#[test]
fn normal_clamps_on_construction() {
    assert_eq!(Normal::from_units(-5).value(), 0);
    assert_eq!(Normal::from_units(1_300_000).value(), NORMAL_ONE);
    assert_eq!(Normal::from_units(250_000).value(), 250_000);
    assert_eq!(Normal::center().value(), 500_000);
    assert_eq!(Normal::min().value(), 0);
    assert_eq!(Normal::max().value(), NORMAL_ONE);
}

#[test]
fn normal_offset_clamps() {
    let n = Normal::from_units(900_000);
    assert_eq!(n.offset(200_000).value(), NORMAL_ONE);
    assert_eq!(n.offset(-950_000).value(), 0);
    assert_eq!(n.offset(-100_000).value(), 800_000);
    let mut m = n;
    m.set(2_000_000);
    assert_eq!(m.value(), NORMAL_ONE);
}

#[test]
fn normal_scale_and_mirror() {
    let n = Normal::from_units(250_000);
    assert_eq!(n.scale(200), 50);
    assert_eq!(n.scale_inv(200), 150);
    assert_eq!(Normal::max().scale(77), 77);
    assert_eq!(Normal::min().scale_inv(77), 77);
}

#[test]
fn float_range_round_trip_within_one_millionth() {
    let r = FloatRange::default_bipolar();
    for n in [0u32, 1, 2, 3, 123_457, 333_333, 500_000, 666_667, 999_999, NORMAL_ONE] {
        let back = r.to_normal(r.to_value(Normal::from_units(n as i64))).value();
        assert!(back >= n && back <= n + 1, "normal {} came back as {}", n, back);
    }
}

#[test]
fn float_range_linear_law() {
    let r = FloatRange::default_bipolar();
    assert_eq!(r.to_value(Normal::min()), -VALUE_ONE);
    assert_eq!(r.to_value(Normal::max()), VALUE_ONE);
    assert_eq!(r.to_value(Normal::center()), 0);
    assert_eq!(r.to_value(Normal::from_units(750_000)), VALUE_ONE / 2);
    assert_eq!(r.to_normal(0).value(), 500_000);
    assert_eq!(r.to_normal(-VALUE_ONE / 2).value(), 250_000);
    assert_eq!(r.default_value(), 0);
    assert_eq!(r.default_normal().value(), 500_000);
}

#[test]
fn float_range_clamps_out_of_range_values() {
    let r = FloatRange::new(0, 10 * VALUE_ONE);
    assert_eq!(r.to_normal(-3 * VALUE_ONE).value(), 0);
    assert_eq!(r.to_normal(11 * VALUE_ONE).value(), NORMAL_ONE);
}

#[test]
fn float_range_snap_is_identity() {
    let r = FloatRange::default_bipolar();
    let mut n = Normal::from_units(123_456);
    r.snap_normal(&mut n);
    assert_eq!(n.value(), 123_456);
}

#[test]
fn float_range_create_param() {
    let r = FloatRange::default_bipolar();
    let p = r.create_param(7u32, VALUE_ONE / 2, 0);
    assert_eq!(p.id, 7);
    assert_eq!(p.normal.value(), 750_000);
    assert_eq!(p.default_normal.value(), 500_000);
    let d = r.create_param_default(8u32);
    assert_eq!(d.normal.value(), 500_000);
    assert_eq!(d.default_normal.value(), 500_000);
}

#[test]
fn int_range_round_trip_is_exact() {
    let r = IntRange::new(0, 5);
    assert_eq!(r.to_value(r.to_normal(3)), 3);
    for v in 0..=5 {
        assert_eq!(r.to_value(r.to_normal(v)), v);
    }
    let wide = IntRange::new(-1000, 999);
    for v in [-1000, -999, -1, 0, 1, 500, 998, 999] {
        assert_eq!(wide.to_value(wide.to_normal(v)), v);
    }
}

#[test]
fn int_range_snaps_to_nearest_step() {
    let r = IntRange::new(0, 5);
    let target = r.to_normal(3).value();
    assert_eq!(target, 600_000);
    for units in [500_001, 550_000, 600_000, 650_000, 699_999] {
        let mut n = Normal::from_units(units);
        r.snap_normal(&mut n);
        assert_eq!(n.value(), target, "normal {} snapped to {}", units, n.value());
        assert_eq!(r.to_value(Normal::from_units(units)), 3);
    }
    let mut below = Normal::from_units(499_999);
    r.snap_normal(&mut below);
    assert_eq!(below.value(), r.to_normal(2).value());
}

#[test]
fn int_range_round_trip_of_normal_moves_at_most_half_a_step() {
    let r = IntRange::new(0, 10);
    for n in [0i64, 40_000, 49_999, 50_000, 333_333, 999_999] {
        let back = r.to_normal(r.to_value(Normal::from_units(n))).value() as i64;
        assert!((back - n).abs() <= 50_000);
    }
}

#[test]
fn int_range_defaults_and_params() {
    let r = IntRange::new(0, 10);
    assert_eq!(r.default_value(), 0);
    assert_eq!(r.default_normal().value(), 0);
    let p = r.create_param(1u8, 5, 5);
    assert_eq!(p.normal.value(), 500_000);
    assert_eq!(p.default_normal.value(), 500_000);
    assert_eq!(r.to_normal(-4).value(), 0);
    assert_eq!(r.to_normal(40).value(), NORMAL_ONE);
}

fn db_range() -> LogDBRange {
    LogDBRange::new(-12 * VALUE_ONE, 12 * VALUE_ONE, Normal::center())
}

#[test]
fn db_range_square_law() {
    let r = db_range();
    assert_eq!(r.to_value(Normal::center()), 0);
    assert_eq!(r.to_value(Normal::min()), -12 * VALUE_ONE);
    assert_eq!(r.to_value(Normal::max()), 12 * VALUE_ONE);
    // Halfway to an end gives a quarter of its value.
    assert_eq!(r.to_value(Normal::from_units(750_000)), 3 * VALUE_ONE);
    assert_eq!(r.to_value(Normal::from_units(250_000)), -3 * VALUE_ONE);
    assert_eq!(r.to_normal(3 * VALUE_ONE).value(), 750_000);
    assert_eq!(r.to_normal(-3 * VALUE_ONE).value(), 250_000);
    assert_eq!(r.to_normal(0).value(), 500_000);
}

#[test]
fn db_range_steps_are_finer_near_zero() {
    let r = db_range();
    let near = r.to_value(Normal::from_units(510_000)) - r.to_value(Normal::center());
    let far = r.to_value(Normal::max()) - r.to_value(Normal::from_units(990_000));
    assert!(near > 0);
    assert!(far > 10 * near);
}

#[test]
fn db_range_round_trip_is_exact() {
    let r = db_range();
    for n in [0i64, 1, 2, 10, 123_456, 499_999, 500_000, 500_001, 500_002, 777_777, 999_999, 1_000_000] {
        let back = r.to_normal(r.to_value(Normal::from_units(n))).value() as i64;
        assert_eq!(back, n);
    }
    let skew = LogDBRange::new(-60 * VALUE_ONE, 6 * VALUE_ONE, Normal::from_units(800_000));
    for n in [0i64, 1, 400_000, 799_999, 800_000, 800_001, 900_000, 1_000_000] {
        let back = skew.to_normal(skew.to_value(Normal::from_units(n))).value() as i64;
        assert_eq!(back, n);
    }
}

#[test]
fn db_range_clamps_and_defaults() {
    let r = db_range();
    assert_eq!(r.to_normal(-40 * VALUE_ONE).value(), 0);
    assert_eq!(r.to_normal(40 * VALUE_ONE).value(), NORMAL_ONE);
    assert_eq!(r.default_value(), 0);
    assert_eq!(r.default_normal().value(), 500_000);
    let p = r.create_param_default('g');
    assert_eq!(p.id, 'g');
    assert_eq!(p.normal.value(), 500_000);
    let q = r.create_param('h', 12 * VALUE_ONE, 0);
    assert_eq!(q.normal.value(), NORMAL_ONE);
    assert_eq!(q.default_normal.value(), 500_000);
}

#[test]
fn range_enum_dispatches_to_each_law() {
    let float = Range::Float(FloatRange::default_bipolar());
    let int = Range::Int(IntRange::new(0, 5));
    let db = Range::LogDB(db_range());
    let n = Normal::from_units(750_000);
    assert_eq!(float.to_value(n), VALUE_ONE / 2);
    assert_eq!(int.to_value(n), 4);
    assert_eq!(db.to_value(n), 3 * VALUE_ONE);
    assert_eq!(float.to_normal(0).value(), 500_000);
    assert_eq!(int.to_normal(3).value(), 600_000);
    assert_eq!(int.to_normal(i64::MAX).value(), NORMAL_ONE);
    assert_eq!(int.to_normal(i64::MIN).value(), 0);
    assert_eq!(db.to_normal(-3 * VALUE_ONE).value(), 250_000);
    for r in [float, int, db] {
        for units in [0i64, 1, 250_000, 640_000, 999_999, 1_000_000] {
            let back = r.to_normal(r.to_value(Normal::from_units(units))).value() as i64;
            match r {
                Range::Int(_) => assert!((back - units).abs() <= 100_000),
                _ => assert!(back >= units && back <= units + 1),
            }
        }
    }
}

#[test]
fn range_enum_snaps_only_stepped_ranges() {
    let mut a = Normal::from_units(640_000);
    Range::Int(IntRange::new(0, 5)).snap_normal(&mut a);
    assert_eq!(a.value(), 600_000);
    let mut b = Normal::from_units(640_000);
    Range::Float(FloatRange::default_bipolar()).snap_normal(&mut b);
    assert_eq!(b.value(), 640_000);
    let mut c = Normal::from_units(640_000);
    Range::LogDB(db_range()).snap_normal(&mut c);
    assert_eq!(c.value(), 640_000);
}

#[test]
fn int_range_with_the_most_steps_round_trips_every_value() {
    let r = IntRange::new(0, NORMAL_ONE as i32);
    for v in [0, 1, 2, 3, 499_999, 500_001, 999_999, 1_000_000] {
        assert_eq!(r.to_normal(v).value(), v as u32);
        assert_eq!(r.to_value(r.to_normal(v)), v);
    }
    let shifted = IntRange::new(-7, -7 + NORMAL_ONE as i32);
    for v in [-7, -6, 0, 1, 12_345, 999_993] {
        assert_eq!(shifted.to_value(shifted.to_normal(v)), v);
    }
}

#[test]
fn narrowest_linear_range_round_trips_within_one_millionth() {
    let r = FloatRange::new(0, NORMAL_ONE as i64);
    for n in [0i64, 1, 2, 3, 777_777, 999_999, 1_000_000] {
        let back = r.to_normal(r.to_value(Normal::from_units(n))).value() as i64;
        assert!(back >= n && back <= n + 1);
    }
}

#[test]
fn db_range_with_an_empty_side_round_trips() {
    // No positive side: the zero position sits at the top.
    let r = LogDBRange::new(-24 * VALUE_ONE, 0, Normal::max());
    for n in [0i64, 1, 250_000, 999_999, 1_000_000] {
        let back = r.to_normal(r.to_value(Normal::from_units(n))).value() as i64;
        assert_eq!(back, n);
    }
    assert_eq!(r.to_value(Normal::max()), 0);
    assert_eq!(r.to_value(Normal::min()), -24 * VALUE_ONE);
}
