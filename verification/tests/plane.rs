use ppga::Fx;
use ppga::Plane;
use ppga::Point;

fn fx(i: i64) -> Fx {
    Fx::from_int(i)
}

fn fxr(n: i64, d: i64) -> Fx {
    Fx::ratio(n, d)
}

#[test]
fn plane_new() {
    let p = Plane::new(fx(1), &[fx(3), fx(2), fx(4)]);
    let p_ = Plane {
        vector: [fx(1), fx(3), fx(2), fx(4)],
    };
    assert_eq!(p, p_);
}

#[test]
fn plane_dual() {
    let p = Plane {
        vector: [fx(2), fx(4), fx(5), fx(6)],
    }
    .dual();
    let p_ = Point {
        trivector: [fx(2), fx(4), fx(5), fx(6)],
    };
    assert_eq!(p, p_);

    let p = Plane::new(fx(-5), &[fx(4), fx(-3), fx(7)]);
    assert_eq!(p, p.dual().dual());
}

#[test]
fn plane_move_to() {
    let p1 = Plane::random().mul_scalar(fxr(-45, 10)).nnormalize();
    let p2 = Plane::random().mul_scalar(fx(18)).nnormalize();
    let p3 = Plane::random().mul_scalar(fxr(-39, 10)).nnormalize();

    let m1 = p1.move_to(&p2);
    let m2 = p2.move_to(&p3);
    assert_eq!(p2, m1.apply_to_plane(&p1));
    assert_eq!(p3, m2.apply_to_plane(&p2));
}

#[test]
fn plane_norm_exact() {
    // a 3-4-5 triangle normal has an exactly representable length
    let p = Plane::new(fx(2), &[fx(3), fx(4), fx(0)]);
    assert_eq!(p.norm(), fx(5));
}
