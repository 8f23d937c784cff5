use latent::vector2int::Vector2Int;

#[test]
fn construction() {
    assert_eq!(Vector2Int::new(3, -4), Vector2Int { x: 3, y: -4 });
    assert_eq!(Vector2Int::zero(), Vector2Int { x: 0, y: 0 });
    assert_eq!(Vector2Int::from((5, 6)), Vector2Int { x: 5, y: 6 });
}

#[test]
fn length_is_integer_square_root() {
    assert_eq!(Vector2Int::new(3, 4).length(), 5);
    assert_eq!(Vector2Int::new(-3, -4).length(), 5);
    assert_eq!(Vector2Int::new(1, 1).length(), 1);
    assert_eq!(Vector2Int::new(2, 3).length(), 3);
    assert_eq!(Vector2Int::zero().length(), 0);
    assert_eq!(Vector2Int::new(46340, 0).length(), 46340);
    assert_eq!(Vector2Int::new(32767, 32767).length(), 46339);
}

#[test]
fn normalize_divides_by_integer_length() {
    assert_eq!(Vector2Int::new(10, 0).normalize(), Vector2Int::new(1, 0));
    assert_eq!(Vector2Int::new(0, -7).normalize(), Vector2Int::new(0, -1));
    assert_eq!(Vector2Int::new(3, 4).normalize(), Vector2Int::new(0, 0));
    assert_eq!(Vector2Int::new(-6, 8).normalize(), Vector2Int::new(0, 0));
    assert_eq!(Vector2Int::new(7, 1).normalize(), Vector2Int::new(1, 0));
}

#[test]
fn normalize_of_zero_is_zero() {
    assert_eq!(Vector2Int::zero().normalize(), Vector2Int::zero());
}

#[test]
fn dot_product() {
    assert_eq!(Vector2Int::new(1, 2).dot(Vector2Int::new(3, 4)), 11);
    assert_eq!(Vector2Int::new(-2, 5).dot(Vector2Int::new(5, 2)), 0);
}

#[test]
fn distance_is_squared() {
    // dx = 3, dy = 4: the squared distance 25, not 5.
    assert_eq!(Vector2Int::new(1, 2).distance(Vector2Int::new(4, 6)), 25);
    assert_eq!(Vector2Int::new(-1, -1).distance(Vector2Int::new(-1, -1)), 0);
}

#[test]
fn arithmetic_operators() {
    let a = Vector2Int::new(7, -3);
    let b = Vector2Int::new(2, 5);
    assert_eq!(a + b, Vector2Int::new(9, 2));
    assert_eq!(a - b, Vector2Int::new(5, -8));
    assert_eq!(a * 3, Vector2Int::new(21, -9));
    assert_eq!(a * -2, Vector2Int::new(-14, 6));
}

#[test]
fn division_rounds_toward_zero() {
    assert_eq!(Vector2Int::new(7, -7) / 2, Vector2Int::new(3, -3));
    assert_eq!(Vector2Int::new(7, -7) / -2, Vector2Int::new(-3, 3));
    assert_eq!(Vector2Int::new(i32::MIN, 5) / i32::MIN, Vector2Int::new(1, 0));
    assert_eq!(Vector2Int::new(i32::MIN, i32::MAX) / 1, Vector2Int::new(i32::MIN, i32::MAX));
    assert_eq!(Vector2Int::new(i32::MAX, -9) / -1, Vector2Int::new(-i32::MAX, 9));
}
