use choco_solver::Bounds;

fn b(lb: i32, ub: i32) -> Bounds {
    Bounds { lb, ub }
}

#[test]
fn sum_bounds() {
    // [1, 10] + [2, 5]
    assert_eq!(b(1, 10).plus(b(2, 5)), b(3, 15));
}

#[test]
fn difference_bounds() {
    // [10, 20] - [2, 5]
    assert_eq!(b(10, 20).minus(b(2, 5)), b(5, 18));
    assert_eq!(b(-3, 4).minus(b(-1, 2)), b(-5, 5));
}

#[test]
fn product_bounds() {
    assert_eq!(b(1, 10).times(b(2, 5)), b(2, 50));
    // signs mixed: corners -3*-2=6, -3*4=-12, 5*-2=-10, 5*4=20
    assert_eq!(b(-3, 5).times(b(-2, 4)), b(-12, 20));
}

#[test]
fn quotient_bounds() {
    assert_eq!(b(10, 20).divided_by(b(2, 5)), b(2, 10));
    // rounding toward zero: -7/2 = -3, 7/-2 = -3
    assert_eq!(b(-7, 7).divided_by(b(2, 2)), b(-3, 3));
    assert_eq!(b(-7, 7).divided_by(b(-2, -2)), b(-3, 3));
}

#[test]
fn quotient_by_constant_bounds() {
    assert_eq!(b(10, 20).divided_by_constant(2), b(5, 10));
    assert_eq!(b(10, 20).divided_by_constant(-3), b(-6, -3));
    assert_eq!(b(i32::MIN, 0).divided_by_constant(1), b(i32::MIN, 0));
}

#[test]
fn remainder_bounds() {
    assert_eq!(b(10, 20).remainder(b(3, 7)), b(1, 6));
    // remainder takes the sign of the dividend
    assert_eq!(b(-7, -7).remainder(b(3, -3)), b(-1, -1));
}

#[test]
fn remainder_by_constant_bounds() {
    assert_eq!(b(4, 5).remainder_by_constant(3), b(1, 2));
    assert_eq!(b(-5, 5).remainder_by_constant(-3), b(-2, 2));
}

#[test]
fn remainder_bounds_come_from_corners_only() {
    // The domain of x % y is taken from the corners of the operands' domains:
    // for [0, 10] % 3 that is [0, 1], although 5 % 3 == 2.
    assert_eq!(b(0, 10).remainder_by_constant(3), b(0, 1));
    assert_eq!(5 % 3, 2);
}

#[test]
fn product_bounds_contain_every_product() {
    let x = b(-4, 3);
    let y = b(-2, 5);
    let r = x.times(y);
    for a in x.lb..=x.ub {
        for c in y.lb..=y.ub {
            assert!(r.lb <= a * c && a * c <= r.ub);
        }
    }
}

#[test]
fn quotient_bounds_contain_every_quotient() {
    let x = b(-9, 13);
    let y = b(-5, -2);
    let r = x.divided_by(y);
    for a in x.lb..=x.ub {
        for c in y.lb..=y.ub {
            assert!(r.lb <= a / c && a / c <= r.ub);
        }
    }
}
