use ppga::meet;
use ppga::Fx;
use ppga::Line;
use ppga::Plane;
use ppga::Point;

fn fx(i: i64) -> Fx {
    Fx::from_int(i)
}

#[test]
fn meet_sanity1() {
    let pxy = Plane::new(fx(1), &[fx(0), fx(0), fx(1)]);
    let pxz = Plane::new(fx(1), &[fx(0), fx(1), fx(0)]);
    let l = Line::new(&[fx(0), fx(1), fx(1)], &[fx(-1), fx(0), fx(0)]);
    assert_eq!(meet::planes(&pxy, &pxz), l);
}

#[test]
fn meet_sanity2() {
    let p1 = Plane::new(fx(1), &[fx(1), fx(0), fx(0)]);
    let p2 = Plane::new(fx(1), &[fx(0), fx(1), fx(0)]);
    let p3 = Plane::new(fx(1), &[fx(0), fx(0), fx(1)]);
    assert_eq!(
        meet::plane_with_line(&p1, &meet::planes(&p2, &p3)),
        Point::new(&[fx(1), fx(1), fx(1)])
    );
}

#[test]
fn sanity3() {
    let p = Plane::new(fx(4), &[fx(0), fx(1), fx(0)]);
    let l = Line::new(&[fx(4), fx(0), fx(1)], &[fx(0), fx(1), fx(0)]);
    assert_eq!(meet::plane_with_line(&p, &l), Point::new(&[fx(4), fx(4), fx(1)]));
}

#[test]
fn meet_parallel_planes_is_ideal() {
    let p1 = Plane::new(fx(1), &[fx(0), fx(0), fx(1)]);
    let p2 = Plane::new(fx(2), &[fx(0), fx(0), fx(1)]);
    let l = meet::planes(&p1, &p2);
    assert_eq!(l.e_bivector[0].bits, 0);
    assert_eq!(l.e_bivector[1].bits, 0);
    assert_eq!(l.e_bivector[2].bits, 0);
}
