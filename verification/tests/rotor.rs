use ppga::fx::FX_CENTI;
use ppga::trig::TWO_PI_BITS;
use ppga::Fx;
use ppga::Motor;
use ppga::Point;
use ppga::Rotor;
use ppga::Translator;

fn fx(i: i64) -> Fx {
    Fx::from_int(i)
}

fn fxr(n: i64, d: i64) -> Fx {
    Fx::ratio(n, d)
}

#[test]
fn sanity1() {
    let p = Point::new(&[fx(3), fx(4), fx(5)]);
    let two_pi = Fx::from_bits(TWO_PI_BITS);
    let rot = Rotor::new(two_pi, &[fx(4), fx(-3), fxr(13, 10)]);
    assert_eq!(rot.apply_to_point(&p), p);
}

#[test]
fn for_steven() {
    let r = Rotor::from_base(
        &[fxr(-95, 100), fx(0), fxr(31, 100)],
        &[fx(0), fx(1), fx(0)],
        &[fxr(-31, 100), fx(0), fxr(-95, 100)],
    )
    .normalize();
    let pos = [fxr(7, 10), fx(3), fxr(-26, 10)];
    let t = Translator::new(&pos);
    let m = t.mul_rotor(&r).normalize();

    let m_ = m.ln().exp().normalize();
    println!("{:?}", m);
    println!("{:?}", m.ln());
    println!("{:?}", m_);
    let p = Point::random();
    println!("True Point After Motor {:?}", m.apply_to(&p));
    println!("Point After Log Motor {:?}", m_.apply_to(&p));
    assert_eq!(m, m_);
}

#[test]
fn ln() {
    let r = Rotor::random().normalize();
    let m = Motor::from(&r);
    let m_ = r.ln().exp();
    println!("{:?}", m);
    println!("{:?}", m_);
    assert!(m.is_similar_to(Fx::from_bits(FX_CENTI), &m_));
}

#[test]
fn qtangent() {
    let r = Rotor::random().normalize();
    let r_ = Rotor::qtangent_exp(&r.qtangent_ln());
    assert!(r == r_ || r == r_.neg());
}

#[test]
fn rotor_quarter_turn() {
    // a quarter turn about z moves the x axis point onto the y axis.
    let quarter = Fx::from_bits(TWO_PI_BITS / 4);
    let rot = Rotor::new(quarter, &[fx(0), fx(0), fx(1)]);
    let p = Point::new(&[fx(1), fx(0), fx(0)]);
    let q = rot.apply_to_point(&p);
    let up = Point::new(&[fx(0), fx(1), fx(0)]);
    let down = Point::new(&[fx(0), fx(-1), fx(0)]);
    assert!(q == up || q == down);
}
