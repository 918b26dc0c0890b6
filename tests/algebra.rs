use vector2d::transform::Vec2;
use vector2d::transform::Vector2;

#[test]
fn dot_and_magnitude() {
    let v = Vec2::<i32>::new(3, 4);
    assert_eq!(v.dot(v), 25);
    assert_eq!(v.mag2(), 25);
    assert_eq!(Vector2::<i32>::new(3, 4).mag2(), 25);
}

#[test]
fn dot_is_symmetric() {
    let a = Vec2::<i64>::new(-2, 9);
    let b = Vec2::<i64>::new(5, 3);
    assert_eq!(a.dot(b), 17);
    assert_eq!(b.dot(a), 17);
    let c = Vector2::<i32>::new(1, -1);
    let d = Vector2::<i32>::new(6, 2);
    assert_eq!(c.dot(&d), d.dot(&c));
    assert_eq!(c.dot(&d), 4);
}

#[test]
fn mag2_is_dot_with_itself() {
    let a = Vec2::<i32>::new(-7, 2);
    assert_eq!(a.mag2(), a.dot(a));
    assert_eq!(a.mag2(), 53);
}

#[test]
fn cardinal_directions() {
    assert_eq!(Vector2::<i32>::new(-5, 3).cardinal(), Vector2::new(-1, 0));
    assert_eq!(Vector2::<i32>::new(2, -2).cardinal(), Vector2::new(1, -1));
    assert_eq!(Vector2::<i32>::new(1, 9).cardinal(), Vector2::new(0, 1));
    assert_eq!(Vector2::<i32>::new(0, 0).cardinal(), Vector2::new(0, 0));
    assert_eq!(Vector2::<i32>::new(i32::MIN, i32::MAX).cardinal(), Vector2::new(-1, 0));
}

#[test]
fn rendering() {
    assert_eq!(Vec2::<i32>::new(-12, 0).to_string(), "-12 0");
    assert_eq!(Vec2::<u64, i8>::new(u64::MAX, -128).to_string(), "18446744073709551615 -128");
    assert_eq!(Vec2::<i64>::new(i64::MIN, 7).to_string(), "-9223372036854775808 7");
}
