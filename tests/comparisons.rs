use vector2d::transform::Vec2;
use vector2d::transform::Vector2 as V2;

#[test]
fn equality() {
    assert!(V2::<u32> { x: 9u32, y: 7u32 } == V2 { x: 9u32, y: 7u32 });
    assert!(V2::<f32> { x: 9f32, y: 7f32 } == V2 { x: 9f32, y: 7f32 });
    assert!(V2::<f64, f32> { x: 9f64, y: 7f32 } == V2 { x: 9f64, y: 7f32 });
    assert!(V2::<i16, i64> { x: 2i16, y: 5i64 } == V2 { x: 2i16, y: 5i64 });
}

// A vector is neither greater nor less than an equal one.
#[test]
fn greater_lesser() {
    assert!(!(V2::<u32> { x: 9u32, y: 7u32 } > V2 { x: 9u32, y: 7u32 }));
    assert!(!(V2::<u32> { x: 9u32, y: 7u32 } < V2 { x: 9u32, y: 7u32 }));
    assert!(V2::<f32> { x: 9f32, y: 7f32 } == V2 { x: 9f32, y: 7f32 });
    assert!(V2::<f64, f32> { x: 9f64, y: 7f32 } == V2 { x: 9f64, y: 7f32 });
    assert!(V2::<i16, i64> { x: 2i16, y: 5i64 } == V2 { x: 2i16, y: 5i64 });
}

#[test]
fn lexicographic_order() {
    assert!(Vec2::<i32>::new(9, 7) == Vec2::new(9, 7));
    assert!(Vec2::<i32>::new(9, 7) < Vec2::new(9, 8));
    assert!(!(Vec2::<i32>::new(9, 7) < Vec2::new(9, 7)));
    assert_eq!(Vec2::<i32>::new(1, 2).partial_cmp(&Vec2::new(2, 1)), None);
    assert!(!(Vec2::<i32>::new(1, 2) < Vec2::new(2, 1)));
    assert!(!(Vec2::<i32>::new(2, 1) > Vec2::new(1, 2)));
    assert_eq!(V2::<i32>::new(2, 1).partial_cmp(&V2::new(1, 2)), None);
    assert!(Vec2::<i32>::new(1, 1) < Vec2::new(2, 3));
    assert!(V2::<i32>::new(5, 4) > V2::new(5, 3));
    assert!(Vec2::<i32>::new(1, 5) <= Vec2::new(1, 5));
    assert!(Vec2::<i32>::new(3, 0) != Vec2::new(3, 1));
    assert_eq!(Vec2::<i32>::new(1, 2).cmp(&Vec2::new(2, 1)), std::cmp::Ordering::Less);
    assert_eq!(V2::<i32>::new(4, 4).cmp(&V2::new(4, 3)), std::cmp::Ordering::Greater);
    assert_eq!(V2::<f32>::new(f32::NAN, 1.0).partial_cmp(&V2::new(0.0, 1.0)), None);
}

#[test]
fn total_order_is_lexicographic() {
    assert_eq!(Vec2::<i32>::new(1, 2).lex_cmp(&Vec2::new(2, 1)), std::cmp::Ordering::Less);
    assert_eq!(Vec2::<i32>::new(3, 9).lex_cmp(&Vec2::new(3, 2)), std::cmp::Ordering::Greater);
    assert_eq!(V2::<u8>::new(3, 9).lex_cmp(&V2::new(3, 9)), std::cmp::Ordering::Equal);
    assert_eq!(V2::<i64>::new(-1, 50).lex_cmp(&V2::new(0, -50)), std::cmp::Ordering::Less);
    let a = V2::<i32>::new(7, -3);
    let b = V2::<i32>::new(7, 4);
    assert_eq!(a.lex_cmp(&b), a.cmp(&b));
}
