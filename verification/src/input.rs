//! The per-frame input snapshot.
//!
//! The window system is polled outside the engine; each event is converted to
//! a plain [`InputEvent`] and handed to the engine, which folds it into an
//! [`InputState`].  Level state (buttons or keys held down, pointer position,
//! modifiers) persists across frames; edge state (presses, clicks, scroll
//! deltas, entered text) is one-shot and is cleared exactly once per frame,
//! at present time, so a press is observed for at most one frame.

use std::collections::HashSet;
use vstd::prelude::*;

use crate::types::Point;

verus! {

broadcast use vstd::std_specs::hash::group_hash_axioms;

/// A mouse button, as far as the engine tracks them.
#[derive(Clone, Copy, Debug, PartialEq, Eq, Structural)]
pub enum MouseButton {
    Left,
    Right,
    Middle,
    /// Any further button; the engine ignores it.
    Other,
}

/// One window-system event, reduced to plain values.  Key codes and physical
/// scan codes are carried as the window system's 32-bit identifiers; wheel
/// deltas are in whatever unit the driver chooses, the engine only
/// accumulates them.
#[derive(Debug, PartialEq)]
pub enum InputEvent {
    /// The user asked to close the window.
    Quit,
    /// The window was resized to the given pixel dimensions.
    WindowResized { width: u32, height: u32 },
    /// The mouse wheel moved.
    MouseWheel { dx: i64, dy: i64 },
    /// The pointer moved to the given pixel position.
    MouseMotion { x: i64, y: i64 },
    /// A mouse button went down, with the click count reported.
    MouseButtonDown { button: MouseButton, clicks: u8 },
    /// A mouse button went up.
    MouseButtonUp { button: MouseButton },
    /// A key went down; `ctrl`, `alt` and `shift` report the modifier state
    /// carried by the event.
    KeyDown { key: Option<i32>, physical: Option<i32>, ctrl: bool, alt: bool, shift: bool },
    /// A key went up.
    KeyUp { key: Option<i32>, physical: Option<i32>, ctrl: bool, alt: bool, shift: bool },
    /// Text was entered.
    TextInput { text: String },
}

/// The input snapshot an application reads during a frame.
pub struct InputState {
    /// Pointer position in pixels.
    pub mouse: Point,
    /// Scroll accumulated this frame (saturating).
    pub scroll: Point,
    pub mouse_left_down: bool,
    pub mouse_left_pressed: bool,
    pub mouse_left_clicks: u8,
    pub mouse_right_down: bool,
    pub mouse_right_pressed: bool,
    pub mouse_right_clicks: u8,
    pub mouse_middle_down: bool,
    pub mouse_middle_pressed: bool,
    pub mouse_middle_clicks: u8,
    pub keys_down: HashSet<i32>,
    pub keys_pressed: HashSet<i32>,
    pub physical_keys_down: HashSet<i32>,
    pub physical_keys_pressed: HashSet<i32>,
    pub ctrl_down: bool,
    pub alt_down: bool,
    pub shift_down: bool,
    /// Text entered this frame, in arrival order.
    pub text_entered: Vec<String>,
    /// Whether any event arrived since the last frame boundary.
    pub has_events: bool,
}

/// Mathematical model of an [`InputState`].
#[verifier::ext_equal]
pub struct InputView {
    pub mouse: Point,
    pub scroll: Point,
    pub mouse_left_down: bool,
    pub mouse_left_pressed: bool,
    pub mouse_left_clicks: u8,
    pub mouse_right_down: bool,
    pub mouse_right_pressed: bool,
    pub mouse_right_clicks: u8,
    pub mouse_middle_down: bool,
    pub mouse_middle_pressed: bool,
    pub mouse_middle_clicks: u8,
    pub keys_down: Set<i32>,
    pub keys_pressed: Set<i32>,
    pub physical_keys_down: Set<i32>,
    pub physical_keys_pressed: Set<i32>,
    pub ctrl_down: bool,
    pub alt_down: bool,
    pub shift_down: bool,
    pub text_entered: Seq<Seq<char>>,
    pub has_events: bool,
}

impl View for InputState {
    type V = InputView;

    open spec fn view(&self) -> InputView {
        InputView {
            mouse: self.mouse,
            scroll: self.scroll,
            mouse_left_down: self.mouse_left_down,
            mouse_left_pressed: self.mouse_left_pressed,
            mouse_left_clicks: self.mouse_left_clicks,
            mouse_right_down: self.mouse_right_down,
            mouse_right_pressed: self.mouse_right_pressed,
            mouse_right_clicks: self.mouse_right_clicks,
            mouse_middle_down: self.mouse_middle_down,
            mouse_middle_pressed: self.mouse_middle_pressed,
            mouse_middle_clicks: self.mouse_middle_clicks,
            keys_down: self.keys_down@,
            keys_pressed: self.keys_pressed@,
            physical_keys_down: self.physical_keys_down@,
            physical_keys_pressed: self.physical_keys_pressed@,
            ctrl_down: self.ctrl_down,
            alt_down: self.alt_down,
            shift_down: self.shift_down,
            text_entered: self.text_entered.deep_view(),
            has_events: self.has_events,
        }
    }
}

/// The state every field starts in: pointer at the origin, nothing held,
/// nothing pending.
pub open spec fn initial_input() -> InputView {
    InputView {
        mouse: Point { x: 0, y: 0 },
        scroll: Point { x: 0, y: 0 },
        mouse_left_down: false,
        mouse_left_pressed: false,
        mouse_left_clicks: 0,
        mouse_right_down: false,
        mouse_right_pressed: false,
        mouse_right_clicks: 0,
        mouse_middle_down: false,
        mouse_middle_pressed: false,
        mouse_middle_clicks: 0,
        keys_down: Set::empty(),
        keys_pressed: Set::empty(),
        physical_keys_down: Set::empty(),
        physical_keys_pressed: Set::empty(),
        ctrl_down: false,
        alt_down: false,
        shift_down: false,
        text_entered: Seq::empty(),
        has_events: true,
    }
}

/// `a + b` clamped to the `i64` range.
pub open spec fn sat_add_i64(a: i64, b: i64) -> i64 {
    if a + b > i64::MAX {
        i64::MAX
    } else if a + b < i64::MIN {
        i64::MIN
    } else {
        (a + b) as i64
    }
}

/// Saturating addition on `i64`.
pub fn sat_add(a: i64, b: i64) -> (r: i64)
    ensures
        r == sat_add_i64(a, b),
{
    if b >= 0 {
        if a > i64::MAX - b {
            i64::MAX
        } else {
            a + b
        }
    } else {
        if a < i64::MIN - b {
            i64::MIN
        } else {
            a + b
        }
    }
}

/// The input snapshot after folding in one event.  A resize or quit request
/// does not touch the snapshot (the engine handles those), but still counts
/// as an event.
pub open spec fn after_event(v: InputView, ev: InputEvent) -> InputView {
    let seen = InputView { has_events: true, ..v };
    match ev {
        InputEvent::Quit => seen,
        InputEvent::WindowResized { .. } => seen,
        InputEvent::MouseWheel { dx, dy } => (InputView {
            scroll: (Point {
                x: sat_add_i64(v.scroll.x, dx),
                y: sat_add_i64(v.scroll.y, dy),
            }),
            ..seen
        }),
        InputEvent::MouseMotion { x, y } => InputView { mouse: Point { x, y }, ..seen },
        InputEvent::MouseButtonDown { button, clicks } => match button {
            MouseButton::Left => (InputView {
                mouse_left_down: true,
                mouse_left_pressed: true,
                mouse_left_clicks: clicks,
                ..seen
            }),
            MouseButton::Right => (InputView {
                mouse_right_down: true,
                mouse_right_pressed: true,
                mouse_right_clicks: clicks,
                ..seen
            }),
            MouseButton::Middle => (InputView {
                mouse_middle_down: true,
                mouse_middle_pressed: true,
                mouse_middle_clicks: clicks,
                ..seen
            }),
            MouseButton::Other => seen,
        },
        InputEvent::MouseButtonUp { button } => match button {
            MouseButton::Left => InputView { mouse_left_down: false, ..seen },
            MouseButton::Right => InputView { mouse_right_down: false, ..seen },
            MouseButton::Middle => InputView { mouse_middle_down: false, ..seen },
            MouseButton::Other => seen,
        },
        InputEvent::KeyDown { key, physical, ctrl, alt, shift } => (InputView {
            ctrl_down: if ctrl {
                true
            } else {
                v.ctrl_down
            },
            alt_down: if alt {
                true
            } else {
                v.alt_down
            },
            shift_down: if shift {
                true
            } else {
                v.shift_down
            },
            physical_keys_down: match physical {
                Some(sc) => v.physical_keys_down.insert(sc),
                None => v.physical_keys_down,
            },
            physical_keys_pressed: match physical {
                Some(sc) => v.physical_keys_pressed.insert(sc),
                None => v.physical_keys_pressed,
            },
            keys_down: match key {
                Some(k) => v.keys_down.insert(k),
                None => v.keys_down,
            },
            keys_pressed: match key {
                Some(k) => v.keys_pressed.insert(k),
                None => v.keys_pressed,
            },
            ..seen
        }),
        InputEvent::KeyUp { key, physical, ctrl, alt, shift } => (InputView {
            ctrl_down: if !ctrl {
                false
            } else {
                v.ctrl_down
            },
            alt_down: if !alt {
                false
            } else {
                v.alt_down
            },
            shift_down: if !shift {
                false
            } else {
                v.shift_down
            },
            physical_keys_down: match physical {
                Some(sc) => v.physical_keys_down.remove(sc),
                None => v.physical_keys_down,
            },
            keys_down: match key {
                Some(k) => v.keys_down.remove(k),
                None => v.keys_down,
            },
            ..seen
        }),
        InputEvent::TextInput { text } => (InputView {
            text_entered: v.text_entered.push(text@),
            ..seen
        }),
    }
}

/// The input snapshot after the end-of-frame reset: every one-shot field is
/// cleared, level state persists.  This is the only place edge state is
/// cleared, so a press is never observed across more than one frame.
pub open spec fn frame_reset(v: InputView) -> InputView {
    InputView {
        scroll: Point { x: 0, y: 0 },
        mouse_left_pressed: false,
        mouse_left_clicks: 0,
        mouse_right_pressed: false,
        mouse_right_clicks: 0,
        mouse_middle_pressed: false,
        mouse_middle_clicks: 0,
        keys_pressed: Set::empty(),
        physical_keys_pressed: Set::empty(),
        text_entered: Seq::empty(),
        has_events: false,
        ..v
    }
}

impl InputState {
    /// A fresh snapshot.
    pub fn new() -> (s: InputState)
        ensures
            s@ == initial_input(),
    {
        let s = InputState {
            mouse: Point { x: 0, y: 0 },
            scroll: Point { x: 0, y: 0 },
            mouse_left_down: false,
            mouse_left_pressed: false,
            mouse_left_clicks: 0,
            mouse_right_down: false,
            mouse_right_pressed: false,
            mouse_right_clicks: 0,
            mouse_middle_down: false,
            mouse_middle_pressed: false,
            mouse_middle_clicks: 0,
            keys_down: HashSet::new(),
            keys_pressed: HashSet::new(),
            physical_keys_down: HashSet::new(),
            physical_keys_pressed: HashSet::new(),
            ctrl_down: false,
            alt_down: false,
            shift_down: false,
            text_entered: Vec::new(),
            has_events: true,
        };
        proof {
            assert(s@.text_entered =~= initial_input().text_entered);
            assert(s@ =~= initial_input());
        }
        s
    }

    /// Fold one event into the snapshot.
    #[verifier::rlimit(100)]
    pub fn handle(&mut self, ev: InputEvent)
        ensures
            final(self)@ == after_event(old(self)@, ev),
    {
        let ghost ev0 = ev;
        self.has_events = true;
        match ev {
            InputEvent::Quit => {},
            InputEvent::WindowResized { .. } => {},
            InputEvent::MouseWheel { dx, dy } => {
                self.scroll.x = sat_add(self.scroll.x, dx);
                self.scroll.y = sat_add(self.scroll.y, dy);
            },
            InputEvent::MouseMotion { x, y } => {
                self.mouse.x = x;
                self.mouse.y = y;
            },
            InputEvent::MouseButtonDown { button, clicks } => match button {
                MouseButton::Left => {
                    self.mouse_left_down = true;
                    self.mouse_left_pressed = true;
                    self.mouse_left_clicks = clicks;
                },
                MouseButton::Right => {
                    self.mouse_right_down = true;
                    self.mouse_right_pressed = true;
                    self.mouse_right_clicks = clicks;
                },
                MouseButton::Middle => {
                    self.mouse_middle_down = true;
                    self.mouse_middle_pressed = true;
                    self.mouse_middle_clicks = clicks;
                },
                MouseButton::Other => {},
            },
            InputEvent::MouseButtonUp { button } => match button {
                MouseButton::Left => {
                    self.mouse_left_down = false;
                },
                MouseButton::Right => {
                    self.mouse_right_down = false;
                },
                MouseButton::Middle => {
                    self.mouse_middle_down = false;
                },
                MouseButton::Other => {},
            },
            InputEvent::KeyDown { key, physical, ctrl, alt, shift } => {
                if ctrl {
                    self.ctrl_down = true;
                }
                if alt {
                    self.alt_down = true;
                }
                if shift {
                    self.shift_down = true;
                }
                if let Some(sc) = physical {
                    self.physical_keys_down.insert(sc);
                    self.physical_keys_pressed.insert(sc);
                }
                if let Some(k) = key {
                    self.keys_down.insert(k);
                    self.keys_pressed.insert(k);
                }
            },
            InputEvent::KeyUp { key, physical, ctrl, alt, shift } => {
                if !ctrl {
                    self.ctrl_down = false;
                }
                if !alt {
                    self.alt_down = false;
                }
                if !shift {
                    self.shift_down = false;
                }
                if let Some(sc) = physical {
                    self.physical_keys_down.remove(&sc);
                }
                if let Some(k) = key {
                    self.keys_down.remove(&k);
                }
            },
            InputEvent::TextInput { text } => {
                self.text_entered.push(text);
            },
        }
        proof {
            assert(self@ =~= after_event(old(self)@, ev0));
        }
    }

    /// Clear the one-shot state at the end of a frame.
    pub fn begin_frame(&mut self)
        ensures
            final(self)@ == frame_reset(old(self)@),
    {
        self.scroll.x = 0;
        self.scroll.y = 0;
        self.mouse_left_pressed = false;
        self.mouse_left_clicks = 0;
        self.mouse_right_pressed = false;
        self.mouse_right_clicks = 0;
        self.mouse_middle_pressed = false;
        self.mouse_middle_clicks = 0;
        self.keys_pressed.clear();
        self.physical_keys_pressed.clear();
        self.text_entered.clear();
        self.has_events = false;
        proof {
            assert(self@ =~= frame_reset(old(self)@));
        }
    }
}

} // verus!
