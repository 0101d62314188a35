use batch2d::batch::GpuCommand;
use batch2d::engine::Engine;
use batch2d::geom::FP_ONE;
use batch2d::input::{InputEvent, MouseButton};

fn engine() -> Engine {
    Engine::new(16 * FP_ONE, 9 * FP_ONE)
}

#[test]
fn key_edges_last_one_frame() {
    let mut e = engine();
    e.handle_event(InputEvent::KeyDown {
        key: Some(97),
        physical: Some(4),
        ctrl: false,
        alt: false,
        shift: false,
    });
    assert!(e.is_key_down(97));
    assert!(e.is_key_pressed(97));
    assert!(e.is_physical_key_down(4));
    assert!(e.is_physical_key_pressed(4));
    e.present();
    // The press edge is cleared at the frame boundary; the level persists.
    assert!(e.is_key_down(97));
    assert!(!e.is_key_pressed(97));
    assert!(e.is_physical_key_down(4));
    assert!(!e.is_physical_key_pressed(4));
    e.handle_event(InputEvent::KeyUp {
        key: Some(97),
        physical: Some(4),
        ctrl: false,
        alt: false,
        shift: false,
    });
    assert!(!e.is_key_down(97));
    assert!(!e.is_physical_key_down(4));
}

#[test]
fn modifier_state_follows_events() {
    let mut e = engine();
    e.handle_event(InputEvent::KeyDown {
        key: Some(99),
        physical: None,
        ctrl: true,
        alt: false,
        shift: true,
    });
    assert!(e.input.ctrl_down);
    assert!(!e.input.alt_down);
    assert!(e.input.shift_down);
    assert_eq!(e.get_key_string("a"), "c-s-a");
    // Releasing with the modifier no longer reported clears it.
    e.handle_event(InputEvent::KeyUp {
        key: Some(99),
        physical: None,
        ctrl: false,
        alt: false,
        shift: true,
    });
    assert!(!e.input.ctrl_down);
    assert!(e.input.shift_down);
    assert_eq!(e.get_key_string("a"), "s-a");
}

#[test]
fn mouse_buttons_and_motion() {
    let mut e = engine();
    e.handle_event(InputEvent::MouseMotion { x: 120, y: 80 });
    assert_eq!((e.input.mouse.x, e.input.mouse.y), (120, 80));
    e.handle_event(InputEvent::MouseButtonDown { button: MouseButton::Left, clicks: 2 });
    assert!(e.input.mouse_left_down);
    assert!(e.input.mouse_left_pressed);
    assert_eq!(e.input.mouse_left_clicks, 2);
    e.present();
    assert!(e.input.mouse_left_down);
    assert!(!e.input.mouse_left_pressed);
    assert_eq!(e.input.mouse_left_clicks, 0);
    e.handle_event(InputEvent::MouseButtonUp { button: MouseButton::Left });
    assert!(!e.input.mouse_left_down);
    // Position survives the frame boundary.
    assert_eq!((e.input.mouse.x, e.input.mouse.y), (120, 80));
}

#[test]
fn scroll_accumulates_within_a_frame() {
    let mut e = engine();
    e.handle_event(InputEvent::MouseWheel { dx: 2, dy: -3 });
    e.handle_event(InputEvent::MouseWheel { dx: 1, dy: -1 });
    assert_eq!((e.input.scroll.x, e.input.scroll.y), (3, -4));
    e.present();
    assert_eq!((e.input.scroll.x, e.input.scroll.y), (0, 0));
}

#[test]
fn scroll_saturates_instead_of_wrapping() {
    let mut e = engine();
    e.handle_event(InputEvent::MouseWheel { dx: i64::MAX, dy: i64::MIN });
    e.handle_event(InputEvent::MouseWheel { dx: 5, dy: -5 });
    assert_eq!(e.input.scroll.x, i64::MAX);
    assert_eq!(e.input.scroll.y, i64::MIN);
}

#[test]
fn entered_text_is_collected_in_order() {
    let mut e = engine();
    e.handle_event(InputEvent::TextInput { text: "ab".to_string() });
    e.handle_event(InputEvent::TextInput { text: "c".to_string() });
    assert_eq!(e.input.text_entered, vec!["ab".to_string(), "c".to_string()]);
    e.present();
    assert!(e.input.text_entered.is_empty());
}

#[test]
fn quit_event_latches() {
    let mut e = engine();
    assert!(!e.should_quit());
    e.handle_event(InputEvent::Quit);
    assert!(e.should_quit());
    e.present();
    assert!(e.should_quit());
}

#[test]
fn quit_call_latches() {
    let mut e = engine();
    e.quit();
    assert!(e.should_quit());
}

#[test]
fn resize_event_reaches_the_driver() {
    let mut e = engine();
    e.handle_event(InputEvent::WindowResized { width: 640, height: 480 });
    assert!(e.window_size_changed);
    assert_eq!((e.viewport_width, e.viewport_height), (640, 480));
    let cmds = e.take_commands();
    assert!(matches!(cmds[0], GpuCommand::SetViewport { width: 640, height: 480 }));
    e.present();
    // The size-changed flag is a one-frame signal.
    assert!(!e.window_size_changed);
}

#[test]
fn events_mark_the_frame() {
    let mut e = engine();
    assert!(e.input.has_events);
    e.present();
    assert!(!e.input.has_events);
    e.handle_event(InputEvent::MouseMotion { x: 1, y: 1 });
    assert!(e.input.has_events);
}
