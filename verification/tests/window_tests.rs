use trivert::SCALE;
use trivert::vec2::Vec2;
use trivert::window::{WindowInterface, WindowInterfaceNull};

#[test]
fn null_window_starts_empty() {
    let w = WindowInterfaceNull::new();
    assert!(w.get_position() == Vec2::new());
    assert!(w.get_size() == Vec2::new());
    assert_eq!(w.get_title(), "");
}

#[test]
fn null_window_stores_position_and_size() {
    let mut w = WindowInterfaceNull::new();
    w.set_position(Vec2 { x: 10 * SCALE, y: 10 * SCALE });
    w.set_size(Vec2 { x: 800 * SCALE, y: 600 * SCALE });
    assert!(w.get_position() == Vec2 { x: 10 * SCALE, y: 10 * SCALE });
    assert!(w.get_size() == Vec2 { x: 800 * SCALE, y: 600 * SCALE });
}

#[test]
fn null_window_stores_the_title() {
    let mut w = WindowInterfaceNull::new();
    w.set_title(String::from("main window"));
    assert_eq!(w.get_title(), "main window");
    // Setting the title leaves position and size alone.
    assert!(w.get_position() == Vec2::new());
    assert!(w.get_size() == Vec2::new());
}

#[test]
fn null_window_initialize_succeeds() {
    let w = WindowInterfaceNull::new();
    assert!(w.initialize().is_ok());
    w.release();
    // Release is idempotent.
    w.release();
}
