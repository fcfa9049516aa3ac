use ppga::trig::PI_BITS;
use ppga::trig::TWO_PI_BITS;
use ppga::Fx;
use ppga::Line;
use ppga::Point;

fn fx(i: i64) -> Fx {
    Fx::from_int(i)
}

fn fxr(n: i64, d: i64) -> Fx {
    Fx::ratio(n, d)
}

#[test]
fn line_new() {
    let l = Line::new(&[fx(4), fx(3), fx(2)], &[fx(2), fx(7), fx(6)]);
    let l_ = Line {
        v_bivector: [fx(-4), fx(20), fx(-22)],
        e_bivector: [fx(2), fx(7), fx(6)],
    };
    assert_eq!(l, l_);

    let l = Line::new(&[fx(5), fx(3), fx(4)], &[fx(3), fx(2), fx(1)]);
    let l_ = Line {
        v_bivector: [fx(5), fx(-7), fx(-1)],
        e_bivector: [fx(3), fx(2), fx(1)],
    };
    assert_eq!(l, l_);
}

#[test]
fn line_dual() {
    let d = Line {
        v_bivector: [fx(2), fx(3), fx(4)],
        e_bivector: [fx(8), fx(5), fx(2)],
    }
    .dual();

    let d_ = Line {
        v_bivector: [fx(8), fx(5), fx(2)],
        e_bivector: [fx(2), fx(3), fx(4)],
    };
    assert_eq!(d, d_);

    let l = Line::new(&[fx(4), fx(-2), fx(9)], &[fx(-4), fx(6), fx(3)]);
    assert_eq!(l, l.dual().dual());
}

#[test]
fn decompose() {
    // decomposition should add up to original result,
    // and to parts should commute.
    let l1 = Line::random();
    let (e, v) = l1.decompose();
    assert_eq!(l1, e.add(&v));
    assert_eq!(e.mul(&v), v.mul(&e));
}

#[test]
fn neg() {
    let l = Line {
        v_bivector: [fx(1), fx(1), fx(1)],
        e_bivector: [fx(1), fx(1), fx(1)],
    };
    let ln = Line {
        v_bivector: [fx(-1), fx(-1), fx(-1)],
        e_bivector: [fx(-1), fx(-1), fx(-1)],
    };
    assert_eq!(l.neg(), ln);
}

#[test]
fn exp_sanity1() {
    // rotated 360 degrees around normalized line,
    // should do nothing.
    let l = Line {
        v_bivector: [fx(0), fx(0), fx(0)],
        e_bivector: [fx(9), fxr(-24, 10), fx(1)],
    }
    .normalize();
    let angle = Fx::from_bits(TWO_PI_BITS);
    let v = l.mul_scalar(angle.neg().half()).exp();
    let p = Point::new(&[fx(3), fx(-9), fxr(28, 10)]);
    assert_eq!(p, v.apply_to_point(&p));
}

#[test]
fn exp_sanity2() {
    // 1, 0, 0 rotated 180 deg around y axis should become -1, 0, 0
    // and translating it 0, 1, 1, should make -1, 1, 1
    let t = Line {
        v_bivector: [fx(0), fx(1), fx(1)],
        e_bivector: [fx(0), fx(0), fx(0)],
    };
    let l = Line {
        v_bivector: [fx(0), fx(0), fx(0)],
        e_bivector: [fx(0), fx(1), fx(0)],
    };
    let angle = Fx::from_bits(PI_BITS);
    let v = t
        .mul_scalar(fxr(1, 2))
        .exp()
        .mul(&l.mul_scalar(angle.neg().half()).exp());
    let p = Point::new(&[fx(1), fx(0), fx(0)]);
    assert_eq!(Point::new(&[fx(-1), fx(1), fx(1)]), v.apply_to_point(&p));
}

#[test]
fn exp_sanity3() {
    // Should translate by 0, 1, 0
    let l = Line {
        e_bivector: [fx(0), fx(0), fx(0)],
        v_bivector: [fx(0), fx(1), fx(0)],
    };
    let v = l.mul_scalar(fxr(1, 2)).exp();
    let p = Point::new(&[fx(1), fx(0), fx(0)]);
    assert_eq!(Point::new(&[fx(1), fx(1), fx(0)]), v.apply_to_point(&p));
}

#[test]
fn decompose_ideal_line() {
    // a purely ideal line is already simple: it decomposes into itself
    // and zero.
    let l = Line {
        e_bivector: [fx(0), fx(0), fx(0)],
        v_bivector: [fx(2), fx(-5), fx(7)],
    };
    let (e, v) = l.decompose();
    assert!(e.is_zero());
    assert_eq!(v.v_bivector[0].bits, l.v_bivector[0].bits);
    assert_eq!(v.v_bivector[1].bits, l.v_bivector[1].bits);
    assert_eq!(v.v_bivector[2].bits, l.v_bivector[2].bits);
}
