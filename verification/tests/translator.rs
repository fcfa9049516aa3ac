use ppga::Fx;
use ppga::Point;
use ppga::Translator;

fn fx(i: i64) -> Fx {
    Fx::from_int(i)
}

#[test]
fn new() {
    let t = Translator::new(&[fx(1), fx(2), fx(-3)]);
    let p = Point::new(&[fx(0), fx(0), fx(0)]);
    assert_eq!(t.apply_to_point(&p), Point::new(&[fx(1), fx(2), fx(-3)]));
}

#[test]
fn translator_sqrt_halves_motion() {
    // the square root of a translator does half the translation, so
    // applying it twice is the whole translation.
    let t = Translator::new(&[fx(2), fx(4), fx(-6)]);
    let h = t.sqrt();
    let p = Point::new(&[fx(1), fx(1), fx(1)]);
    let once = t.apply_to_point(&p);
    let twice = h.apply_to_point(&h.apply_to_point(&p));
    assert_eq!(once, twice);
}
