use trivert::SCALE;
use trivert::rect::Rect;
use trivert::vec2::Vec2;

fn v(x: i64, y: i64) -> Vec2 {
    Vec2 { x: x * SCALE, y: y * SCALE }
}

#[test]
fn rect_new_is_zero() {
    let r = Rect::new();
    assert!(r.position == Vec2::new());
    assert!(r.size == Vec2::new());
}

#[test]
fn rect_equality_is_componentwise() {
    let a = Rect { position: v(10, 10), size: v(800, 600) };
    let b = Rect { position: v(10, 10), size: v(800, 600) };
    let c = Rect { position: v(10, 10), size: v(800, 601) };
    assert!(a == b);
    assert!(a != c);
}

#[test]
fn rect_to_string_renders_position_then_size() {
    // The end-to-end example: position (10, 10), size (800, 600).
    let r = Rect { position: v(10, 10), size: v(800, 600) };
    assert_eq!(r.to_string(), "10, 10, 800, 600");
}
