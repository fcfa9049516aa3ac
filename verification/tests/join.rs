use ppga::join;
use ppga::meet;
use ppga::Fx;
use ppga::Line;
use ppga::Plane;
use ppga::Point;

fn fx(i: i64) -> Fx {
    Fx::from_int(i)
}

fn fxr(n: i64, d: i64) -> Fx {
    Fx::ratio(n, d)
}

#[test]
fn join_sanity1() {
    let p1 = Point::new(&[fx(3), fx(4), fx(5)]);
    let p2 = Point::new(&[fx(8), fx(3), fx(2)]);
    let l = join::points(&p1, &p2);
    assert_eq!(
        l,
        Line::new(&[fx(8), fx(3), fx(2)], &[fx(8 - 3), fx(3 - 4), fx(2 - 5)])
    );
}

#[test]
fn join_sanity2() {
    let l = Line::new(&[fx(0), fx(0), fx(0)], &[fx(1), fx(0), fx(0)]);
    let p = Point::new(&[fx(1), fx(0), fx(-1)]);
    let p = join::line_to_point(&l, &p);
    assert_eq!(p, Plane::new(fx(0), &[fx(0), fx(-1), fx(0)]));
}

// The meet operation is defined as a & b = (a* ^ b*)-*.
// So meet(&p1.dual(), &p2.dual()).dual().neg() should also work.

#[test]
fn dual_meet_points() {
    let p1 = Point::new(&[fx(3), fxr(-23, 10), fxr(17, 10)]);
    let p2 = Point::new(&[fx(8), fxr(-73, 10), fxr(-17, 10)]);
    assert_eq!(
        join::points(&p1, &p2),
        meet::planes(&p1.dual(), &p2.dual()).dual().neg()
    )
}

#[test]
fn dual_meet_point_line() {
    let p1 = Point::new(&[fx(3), fxr(-23, 10), fxr(17, 10)]);
    let l1 = Line::new(
        &[fx(3), fxr(-17, 10), fxr(34, 10)],
        &[fx(-10), fx(2), fx(6)],
    );
    assert_eq!(
        join::line_to_point(&l1, &p1),
        meet::plane_with_line(&p1.dual(), &l1.dual()).dual().neg()
    )
}

#[test]
fn join_coincident_points_is_ideal() {
    let p1 = Point::new(&[fx(2), fx(-1), fx(4)]);
    let p2 = Point::new(&[fx(2), fx(-1), fx(4)]);
    let l = join::points(&p1, &p2);
    assert_eq!(l.e_bivector[0].bits, 0);
    assert_eq!(l.e_bivector[1].bits, 0);
    assert_eq!(l.e_bivector[2].bits, 0);
    assert_eq!(l.v_bivector[0].bits, 0);
    assert_eq!(l.v_bivector[1].bits, 0);
    assert_eq!(l.v_bivector[2].bits, 0);
}
