use ppga::Fx;
use ppga::Plane;
use ppga::Point;

fn fx(i: i64) -> Fx {
    Fx::from_int(i)
}

#[test]
fn point_new() {
    let p = Point::new(&[fx(4), fx(3), fx(9)]);
    let p_ = Point {
        trivector: [fx(1), fx(-4), fx(-3), fx(-9)],
    };
    assert_eq!(p, p_);
}

#[test]
fn point_dual() {
    let p = Point {
        trivector: [fx(5), fx(2), fx(3), fx(1)],
    }
    .dual();
    let p_ = Plane {
        vector: [fx(5), fx(2), fx(3), fx(1)],
    };
    assert_eq!(p, p_);

    let p = Point::new(&[fx(4), fx(-2), fx(7)]);
    assert_eq!(p, p.dual().dual());
}

#[test]
fn point_move_to() {
    let p1 = Point::random().normalize();
    let p2 = Point::random().normalize();
    let p3 = Point::random().normalize();
    let m1 = p1.move_to(&p2);
    let m2 = p2.move_to(&p3);
    assert_eq!(p2, m1.apply_to_point(&p1));
    assert_eq!(p3, m2.apply_to_point(&p2));
}

#[test]
fn point_inverse_roundtrip() {
    let p = Point::new(&[fx(2), fx(-3), fx(5)]);
    let t = p.div(&p);
    // a point divided by itself is the identity translator
    assert_eq!(t.scalar, fx(1));
    let q = t.v_bivector;
    assert!(q[0].abs().le(Fx::from_bits(ppga::fx::FX_CENTI)));
    assert!(q[1].abs().le(Fx::from_bits(ppga::fx::FX_CENTI)));
    assert!(q[2].abs().le(Fx::from_bits(ppga::fx::FX_CENTI)));
}

#[test]
fn point_is_inf() {
    let p = Point::new(&[fx(1), fx(2), fx(3)]);
    assert!(!p.is_inf());
    let d = Point::inf(&[fx(1), fx(2), fx(3)]);
    assert!(d.is_inf());
}
