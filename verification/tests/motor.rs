use ppga::fx::FX_CENTI;
use ppga::join;
use ppga::trig::PI_BITS;
use ppga::Fx;
use ppga::Motor;
use ppga::Plane;
use ppga::Point;
use ppga::Rotor;
use ppga::Translator;

fn fx(i: i64) -> Fx {
    Fx::from_int(i)
}

fn fxr(n: i64, d: i64) -> Fx {
    Fx::ratio(n, d)
}

fn centi() -> Fx {
    Fx::from_bits(FX_CENTI)
}

fn rand_unit() -> [Fx; 3] {
    let v = Point::random().r3();
    let n = v[0]
        .mul(v[0])
        .add(v[1].mul(v[1]))
        .add(v[2].mul(v[2]))
        .sqrt();
    [v[0].div(n), v[1].div(n), v[2].div(n)]
}

fn test_motor() -> Motor {
    let p1 = Plane::new(fx(3), &rand_unit());
    let p2 = Plane::new(fx(-2), &rand_unit());
    let p3 = Plane::new(fx(-5), &rand_unit());
    let p4 = Plane::new(fx(20), &rand_unit());
    let p5 = Plane::random().nnormalize();
    p1.move_to(&p2).mul(&p3.move_to(&p4)).mul(&p3.move_to(&p5))
}

fn test_motor2() -> Motor {
    let p1 = Plane::new(fx(1), &rand_unit());
    let p2 = Plane::new(fx(6), &rand_unit());
    let p3 = Plane::new(fx(-4), &rand_unit());
    p1.move_to(&p2).mul(&p2.move_to(&p3))
}

fn rotating_test_motor() -> Motor {
    let p1 = Point::new(&[fx(0), fx(0), fx(0)]);
    let p2 = Point::new(&[fxr(-64, 10), fxr(91, 10), fxr(4, 10)]);
    let p3 = Point::new(&[fx(0), fx(-10), fx(3)]);
    let l1 = join::points(&p1, &p2).normalize();
    let l2 = join::points(&p1, &p3).normalize();
    l1.div(&l2).sqrt()
}

fn translating_test_motor() -> Motor {
    let p1 = Point::new(&[fx(0), fx(0), fx(0)]);
    let p2 = Point::new(&[fxr(-64, 10), fxr(91, 10), fxr(4, 10)]);
    Motor::from(&p1.div(&p2).sqrt())
}

#[test]
fn sqrt1() {
    // Taking the square root and then squaring
    // should leave it unchanged
    let m = test_motor();
    let m_ = m.sqrt().squared();
    assert_eq!(m, m_);
    assert!(m.is_similar_to(centi(), &m_));
}

#[test]
fn sqrt2() {
    let m = test_motor2();
    let m_ = m.sqrt().squared();
    assert_eq!(m, m_);
    assert!(m.is_similar_to(centi(), &m_));
}

#[test]
fn sqrt3() {
    let m = rotating_test_motor();
    let m_ = m.sqrt().squared();
    assert_eq!(m, m_);
    assert!(m.is_similar_to(centi(), &m_));
    let m = translating_test_motor();
    let m_ = m.sqrt().squared();
    assert_eq!(m, m_);
    assert!(m.is_similar_to(centi(), &m_));
}

#[test]
fn sqrt4() {
    // For a translator and rotor the simple sqrt can be used.
    let m = rotating_test_motor();
    let m_ = m.ssqrt().squared();
    assert_eq!(m, m_);
    assert!(m.is_similar_to(centi(), &m_));
    let m = translating_test_motor();
    let m_ = m.ssqrt().squared();
    assert_eq!(m, m_);
    assert!(m.is_similar_to(centi(), &m_));
}

#[test]
fn point_corr() {
    let a = Point::new(&[fx(2), fx(3), fx(5)]);
    let b = Point::new(&[fx(2), fx(8), fx(7)]);
    let c = Point::new(&[fx(3), fx(-2), fx(1)]);

    let axis = [fxr(12, 10), fx(1), fx(0)];
    let n = axis[0]
        .mul(axis[0])
        .add(axis[1].mul(axis[1]))
        .add(axis[2].mul(axis[2]))
        .sqrt();
    let rot = Rotor::new(
        fxr(26, 10),
        &[axis[0].div(n), axis[1].div(n), axis[2].div(n)],
    );
    let trans = Point::new(&[fx(6), fx(4), fx(1)])
        .div(&Point::new(&[fx(2), fx(0), fx(9)]))
        .sqrt();
    let rot = rot.mul_translator(&trans);

    let a_ = rot.apply_to_point(&a);
    let b_ = rot.apply_to_point(&b);
    let c_ = rot.apply_to_point(&c);

    let v_cba = Motor::from_point_correspondences(&a, &a_, &b, &b_, &c, &c_);
    assert_eq!(v_cba, rot);
}

#[test]
fn logarithm1() {
    let m = test_motor2();
    let m_ = m.ln().exp();
    println!("{:?}", m);
    println!("{:?}", m_);
    let p = Point::new(&[fx(2), fx(3), fx(4)]);
    println!("{:?}", p);
    println!("{:?}", m.apply_to_point(&p));
    println!("{:?}", m_.apply_to_point(&p));
    assert!(m.is_similar_to(centi(), &m_));
}

#[test]
fn logarithm2() {
    let l = join::points(&Point::random(), &Point::random());
    let l_ = l.exp().ln();
    println!("{:?}", l.exp());
    println!("{:?}", l_.exp());
    assert_eq!(l, l_);
}

#[test]
fn logrithm3() {
    let m = rotating_test_motor();
    assert_eq!(m, m.ln().exp());
}

#[test]
fn logrithm4() {
    let m = translating_test_motor();
    assert_eq!(m, m.ln().exp());
}

#[test]
fn apply_plane() {
    let t = Translator::new(&[fx(1), fx(0), fx(0)]);
    let r = Rotor::new(Fx::from_bits(PI_BITS), &[fx(0), fx(1), fx(0)]);
    let m = t.mul_rotor(&r);
    let p = Plane::new(fx(0), &[fx(1), fx(0), fx(0)]);
    assert_eq!(m.apply_to_plane(&p), Plane::new(fx(-1), &[fx(-1), fx(0), fx(0)]))
}

#[test]
fn into_rotor_rejects_translation() {
    let t = Translator::new(&[fx(1), fx(2), fx(3)]);
    let m = Motor::from(&t);
    let r = m.into_rotor_checked();
    assert!(r.is_err());
    let e = r.err().unwrap();
    assert_eq!(e.target(), "Rotor");
}

#[test]
fn into_rotor_accepts_rotation() {
    let r = Rotor::new(fxr(3, 2), &[fx(0), fx(0), fx(1)]);
    let m = Motor::from(&r);
    let back = m.into_rotor_checked();
    assert!(back.is_ok());
    let rr = back.ok().unwrap();
    assert!(rr == r);
}

#[test]
fn motor_random_in_unit_range() {
    let m = Motor::random();
    assert!(0 <= m.scalar.bits && m.scalar.bits < 1048576);
    assert!(0 <= m.pseudo.bits && m.pseudo.bits < 1048576);
}

#[test]
fn into_klein_layout() {
    let t = Translator::new(&[fx(2), fx(4), fx(6)]);
    let r = Rotor::new(fx(1), &[fx(0), fx(0), fx(1)]);
    let m = t.mul_rotor(&r);
    let k = m.into_klein();
    assert_eq!(k[0][0], m.scalar);
    assert_eq!(k[0][1], m.e_bivector[0]);
    assert_eq!(k[0][2], m.e_bivector[1]);
    assert_eq!(k[0][3], m.e_bivector[2]);
    assert_eq!(k[1][0], m.pseudo);
    assert_eq!(k[1][1], m.v_bivector[0]);
    assert_eq!(k[1][2], m.v_bivector[1]);
    assert_eq!(k[1][3], m.v_bivector[2]);
}

#[test]
fn point_corr_known_motion() {
    // a known rotor composed with a known translator is recovered from
    // three point correspondences.
    let rot = Rotor::new(fx(1), &[fx(0), fx(0), fx(1)]);
    let t = Translator::new(&[fx(1), fx(-2), fx(3)]);
    let m = t.mul_rotor(&rot);

    let a = Point::new(&[fx(1), fx(0), fx(0)]);
    let b = Point::new(&[fx(0), fx(2), fx(0)]);
    let c = Point::new(&[fx(0), fx(0), fx(3)]);
    let a_ = m.apply_to_point(&a);
    let b_ = m.apply_to_point(&b);
    let c_ = m.apply_to_point(&c);

    let got = Motor::from_point_correspondences(&a, &a_, &b, &b_, &c, &c_);
    assert_eq!(got, m);
}
