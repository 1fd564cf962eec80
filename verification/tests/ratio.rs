use numeric::Ratio;
use std::cmp::Ordering;

#[test]
fn rcp_swaps_fields() {
    let r = Ratio { num: 3, div: 4 };
    assert_eq!(r.rcp(), Ratio { num: 4, div: 3 });
    assert_eq!(Ratio { num: 0, div: 5 }.rcp(), Ratio { num: 5, div: 0 });
}

#[test]
fn rcp_roundtrip_is_identity() {
    for &(a, b) in &[(1u32, 2u32), (2, 4), (0, 0), (0, 7), (7, 0), (u32::MAX, 1)] {
        let r = Ratio { num: a, div: b };
        assert_eq!(r.rcp().rcp(), r);
    }
}

#[test]
fn structural_equality_value_ordering_asymmetry() {
    // {1,2} and {2,4} are distinct values that denote the same rational:
    // `==` is structural, `cmp` is mathematical.
    let r1 = Ratio { num: 1, div: 2 };
    let r2 = Ratio { num: 2, div: 4 };
    assert_ne!(r1, r2);
    assert_eq!(r1.cmp(&r2), Ordering::Equal);
}

#[test]
fn cmp_orders_by_value() {
    let half = Ratio { num: 1, div: 2 };
    let third = Ratio { num: 1, div: 3 };
    assert_eq!(half.cmp(&third), Ordering::Greater);
    assert_eq!(third.cmp(&half), Ordering::Less);
    assert_eq!(half.cmp(&half), Ordering::Equal);
}

#[test]
fn ceil_scales_and_rounds_up() {
    // ceil(10 * 3 / 4) == ceil(7.5) == 8.
    assert_eq!(Ratio { num: 3, div: 4 }.ceil(10), 8);
    assert_eq!(Ratio { num: 1, div: 2 }.ceil(10), 5);
    assert_eq!(Ratio { num: 1, div: 3 }.ceil(0), 0);
}

#[test]
fn floor_scales_and_rounds_down() {
    // floor(10 * 3 / 4) == floor(7.5) == 7.
    assert_eq!(Ratio { num: 3, div: 4 }.floor(10), 7);
    assert_eq!(Ratio { num: 1, div: 2 }.floor(10), 5);
}

#[test]
fn ceil_never_below_floor() {
    for &(num, div, x) in &[(3u32, 4u32, 10u32), (1, 2, 10), (2, 3, 7), (5, 5, 9), (0, 3, 8)] {
        let r = Ratio { num, div };
        assert!(r.ceil(x) >= r.floor(x));
        if (x * num) % div == 0 {
            assert_eq!(r.ceil(x), r.floor(x));
            assert_eq!(r.floor(x), x * num / div);
        }
    }
}

#[test]
fn signed_scaling_floor_and_ceiling() {
    let half = Ratio { num: 1, div: 2 };
    assert_eq!(half.ifloor(-5), -3);
    assert_eq!(half.iceil(-5), -2);
    assert_eq!(half.ifloor(5), 2);
    assert_eq!(half.iceil(5), 3);
    assert_eq!(half.ifloor(-4), -2);
    assert_eq!(half.iceil(-4), -2);
}

#[test]
fn division_multiplies_by_the_reciprocal() {
    // 5 / (2/3) == floor(5 * 3 / 2) == 7.
    assert_eq!(Ratio { num: 2, div: 3 }.udiv(5), 7);
    assert_eq!(Ratio { num: 1, div: 2 }.udiv(5), 10);
    // -5 / (2/3) == floor(-15 / 2) == -8.
    assert_eq!(Ratio { num: 2, div: 3 }.idiv(-5), -8);
    assert_eq!(Ratio { num: 1, div: 2 }.idiv(-5), -10);
}

#[test]
fn mul_ratio_is_componentwise_and_unreduced() {
    let a = Ratio { num: 1, div: 2 };
    let b = Ratio { num: 2, div: 3 };
    assert_eq!(a.mul_ratio(b), Ratio { num: 2, div: 6 });
    let c = Ratio { num: 2, div: 4 };
    assert_eq!(a.mul_ratio(c), Ratio { num: 2, div: 8 });
}

#[test]
fn default_is_the_multiplicative_identity() {
    let r = Ratio::default();
    assert_eq!(r, Ratio { num: 1, div: 1 });
    assert_eq!(r.floor(42), 42);
    assert_eq!(r.ceil(42), 42);
}
