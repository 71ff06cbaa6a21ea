//! Keyboard and mouse events, and the decoding of the browser's event data.
use vstd::prelude::*;
use vstd::utf8::is_ascii_chars;
use crate::cell::same_text;

verus! {

/// A key event.
#[derive(Debug, Clone, Copy, PartialEq, Eq, Structural)]
pub struct KeyEvent {
    /// The key code.
    pub code: KeyCode,
    /// Whether the control key is pressed.
    pub ctrl: bool,
    /// Whether the alt key is pressed.
    pub alt: bool,
    /// Whether the shift key is pressed.
    pub shift: bool,
}

/// A mouse event in grid coordinates.
#[derive(Debug, Clone, Copy, PartialEq, Eq, Structural)]
pub struct MouseEvent {
    /// What happened.
    pub kind: MouseEventKind,
    /// The grid column of the pointer.
    pub col: u16,
    /// The grid row of the pointer.
    pub row: u16,
    /// Whether the control key is pressed.
    pub ctrl: bool,
    /// Whether the alt key is pressed.
    pub alt: bool,
    /// Whether the shift key is pressed.
    pub shift: bool,
}

/// A key code.
#[derive(Debug, Clone, Copy, PartialEq, Eq, Structural)]
pub enum KeyCode {
    /// Normal letter key input.
    Char(char),
    /// F keys.
    F(u8),
    Backspace,
    Enter,
    Left,
    Right,
    Up,
    Down,
    Tab,
    Delete,
    Home,
    End,
    PageUp,
    PageDown,
    Esc,
    Unidentified,
}

/// A mouse button.
#[derive(Debug, Clone, Copy, PartialEq, Eq, Structural)]
pub enum MouseButton {
    Left,
    Right,
    Middle,
    Back,
    Forward,
    Unidentified,
}

/// Scroll delta with the browser's delta mode.
#[derive(Debug, Clone, Copy, PartialEq, Eq, Structural)]
pub enum ScrollDelta {
    /// Delta in pixels.
    Pixels(i32),
    /// Delta in lines (typically wheel notches).
    Lines(i32),
    /// Delta in pages.
    Pages(i32),
}

/// What a mouse event reports.
#[derive(Debug, Clone, Copy, PartialEq, Eq, Structural)]
pub enum MouseEventKind {
    Moved,
    ButtonDown(MouseButton),
    ButtonUp(MouseButton),
    SingleClick(MouseButton),
    DoubleClick(MouseButton),
    Entered,
    Exited,
    /// Scrolled vertically (positive = down, negative = up).
    ScrolledVertical(ScrollDelta),
    /// Scrolled horizontally (positive = right, negative = left).
    ScrolledHorizontal(ScrollDelta),
    Unidentified,
}

/// Delta mode: the deltas are in pixels.
pub const DOM_DELTA_PIXEL: u32 = 0;
/// Delta mode: the deltas are in lines.
pub const DOM_DELTA_LINE: u32 = 1;
/// Delta mode: the deltas are in pages.
pub const DOM_DELTA_PAGE: u32 = 2;

/// The integer quotient of `a` by `d`, rounded toward zero.
pub open spec fn div_toward_zero(a: int, d: int) -> int {
    if a >= 0 {
        a / d
    } else {
        -((-a) / d)
    }
}

/// The number of wheel notches a delta stands for.
pub open spec fn steps_spec(d: ScrollDelta) -> int {
    match d {
        ScrollDelta::Pixels(px) => div_toward_zero(px as int, 100),
        ScrollDelta::Lines(lines) => lines as int,
        ScrollDelta::Pages(pages) => pages * 10,
    }
}

impl ScrollDelta {
    /// Whether the delta's step count fits an `i32`.
    pub open spec fn steps_fit(self) -> bool {
        match self {
            ScrollDelta::Pages(pages) => -214748364 <= pages <= 214748364,
            _ => true,
        }
    }

    /// Normalizes the delta to wheel notches: lines as they are, pixels
    /// divided by 100 (rounded toward zero), pages times 10.
    pub fn to_steps(self) -> (r: i32)
        requires
            self.steps_fit(),
        ensures
            r == steps_spec(self),
    {
        match self {
            ScrollDelta::Pixels(px) => px / 100,
            ScrollDelta::Lines(lines) => lines,
            ScrollDelta::Pages(pages) => pages * 10,
        }
    }
}

/// The key code of a key name as the browser reports it: a single ASCII
/// character stands for itself; the named keys map to their codes; anything
/// else is unidentified.
pub open spec fn key_code_spec(key: Seq<char>) -> KeyCode {
    if key.len() == 1 && is_ascii_chars(key) {
        KeyCode::Char(key[0])
    } else if key == "F1"@ {
        KeyCode::F(1)
    } else if key == "F2"@ {
        KeyCode::F(2)
    } else if key == "F3"@ {
        KeyCode::F(3)
    } else if key == "F4"@ {
        KeyCode::F(4)
    } else if key == "F5"@ {
        KeyCode::F(5)
    } else if key == "F6"@ {
        KeyCode::F(6)
    } else if key == "F7"@ {
        KeyCode::F(7)
    } else if key == "F8"@ {
        KeyCode::F(8)
    } else if key == "F9"@ {
        KeyCode::F(9)
    } else if key == "F10"@ {
        KeyCode::F(10)
    } else if key == "F11"@ {
        KeyCode::F(11)
    } else if key == "F12"@ {
        KeyCode::F(12)
    } else if key == "Backspace"@ {
        KeyCode::Backspace
    } else if key == "Enter"@ {
        KeyCode::Enter
    } else if key == "ArrowLeft"@ {
        KeyCode::Left
    } else if key == "ArrowRight"@ {
        KeyCode::Right
    } else if key == "ArrowUp"@ {
        KeyCode::Up
    } else if key == "ArrowDown"@ {
        KeyCode::Down
    } else if key == "Tab"@ {
        KeyCode::Tab
    } else if key == "Delete"@ {
        KeyCode::Delete
    } else if key == "Home"@ {
        KeyCode::Home
    } else if key == "End"@ {
        KeyCode::End
    } else if key == "PageUp"@ {
        KeyCode::PageUp
    } else if key == "PageDown"@ {
        KeyCode::PageDown
    } else if key == "Escape"@ {
        KeyCode::Esc
    } else {
        KeyCode::Unidentified
    }
}

impl KeyCode {
    /// Decodes a key name as the browser reports it.
    pub fn from_key(key: &str) -> (r: KeyCode)
        ensures
            r == key_code_spec(key@),
    {
        if key.unicode_len() == 1 && key.is_ascii() {
            KeyCode::Char(key.get_char(0))
        } else if same_text(key, "F1") {
            KeyCode::F(1)
        } else if same_text(key, "F2") {
            KeyCode::F(2)
        } else if same_text(key, "F3") {
            KeyCode::F(3)
        } else if same_text(key, "F4") {
            KeyCode::F(4)
        } else if same_text(key, "F5") {
            KeyCode::F(5)
        } else if same_text(key, "F6") {
            KeyCode::F(6)
        } else if same_text(key, "F7") {
            KeyCode::F(7)
        } else if same_text(key, "F8") {
            KeyCode::F(8)
        } else if same_text(key, "F9") {
            KeyCode::F(9)
        } else if same_text(key, "F10") {
            KeyCode::F(10)
        } else if same_text(key, "F11") {
            KeyCode::F(11)
        } else if same_text(key, "F12") {
            KeyCode::F(12)
        } else if same_text(key, "Backspace") {
            KeyCode::Backspace
        } else if same_text(key, "Enter") {
            KeyCode::Enter
        } else if same_text(key, "ArrowLeft") {
            KeyCode::Left
        } else if same_text(key, "ArrowRight") {
            KeyCode::Right
        } else if same_text(key, "ArrowUp") {
            KeyCode::Up
        } else if same_text(key, "ArrowDown") {
            KeyCode::Down
        } else if same_text(key, "Tab") {
            KeyCode::Tab
        } else if same_text(key, "Delete") {
            KeyCode::Delete
        } else if same_text(key, "Home") {
            KeyCode::Home
        } else if same_text(key, "End") {
            KeyCode::End
        } else if same_text(key, "PageUp") {
            KeyCode::PageUp
        } else if same_text(key, "PageDown") {
            KeyCode::PageDown
        } else if same_text(key, "Escape") {
            KeyCode::Esc
        } else {
            KeyCode::Unidentified
        }
    }
}

impl KeyEvent {
    /// A key event for a key name and the modifier keys held.
    pub fn new(key: &str, ctrl: bool, alt: bool, shift: bool) -> (r: KeyEvent)
        ensures
            r == (KeyEvent { code: key_code_spec(key@), ctrl, alt, shift }),
    {
        KeyEvent { code: KeyCode::from_key(key), ctrl, alt, shift }
    }
}

/// The button a browser button number stands for.
pub open spec fn button_spec(button: i16) -> MouseButton {
    if button == 0 {
        MouseButton::Left
    } else if button == 1 {
        MouseButton::Middle
    } else if button == 2 {
        MouseButton::Right
    } else if button == 3 {
        MouseButton::Back
    } else if button == 4 {
        MouseButton::Forward
    } else {
        MouseButton::Unidentified
    }
}

impl MouseButton {
    /// Decodes a browser button number.
    pub fn from_code(button: i16) -> (r: MouseButton)
        ensures
            r == button_spec(button),
    {
        match button {
            0 => MouseButton::Left,
            1 => MouseButton::Middle,
            2 => MouseButton::Right,
            3 => MouseButton::Back,
            4 => MouseButton::Forward,
            _ => MouseButton::Unidentified,
        }
    }
}

/// The event kind of a browser mouse event type.
pub open spec fn event_kind_spec(event_type: Seq<char>, button: MouseButton) -> MouseEventKind {
    if event_type == "mousemove"@ {
        MouseEventKind::Moved
    } else if event_type == "mousedown"@ {
        MouseEventKind::ButtonDown(button)
    } else if event_type == "mouseup"@ {
        MouseEventKind::ButtonUp(button)
    } else if event_type == "click"@ {
        MouseEventKind::SingleClick(button)
    } else if event_type == "dblclick"@ {
        MouseEventKind::DoubleClick(button)
    } else if event_type == "mouseenter"@ {
        MouseEventKind::Entered
    } else if event_type == "mouseleave"@ {
        MouseEventKind::Exited
    } else {
        MouseEventKind::Unidentified
    }
}

/// Converts a browser mouse event type to an event kind.
pub fn event_type_to_kind(event_type: &str, button: MouseButton) -> (r: MouseEventKind)
    ensures
        r == event_kind_spec(event_type@, button),
{
    if same_text(event_type, "mousemove") {
        MouseEventKind::Moved
    } else if same_text(event_type, "mousedown") {
        MouseEventKind::ButtonDown(button)
    } else if same_text(event_type, "mouseup") {
        MouseEventKind::ButtonUp(button)
    } else if same_text(event_type, "click") {
        MouseEventKind::SingleClick(button)
    } else if same_text(event_type, "dblclick") {
        MouseEventKind::DoubleClick(button)
    } else if same_text(event_type, "mouseenter") {
        MouseEventKind::Entered
    } else if same_text(event_type, "mouseleave") {
        MouseEventKind::Exited
    } else {
        MouseEventKind::Unidentified
    }
}

/// A wheel delta in the browser's delta mode; an unknown mode counts as pixels.
pub open spec fn scroll_delta_spec(delta_mode: u32, delta: i32) -> ScrollDelta {
    if delta_mode == DOM_DELTA_LINE {
        ScrollDelta::Lines(delta)
    } else if delta_mode == DOM_DELTA_PAGE {
        ScrollDelta::Pages(delta)
    } else {
        ScrollDelta::Pixels(delta)
    }
}

/// A wheel delta in the browser's delta mode; an unknown mode counts as pixels.
pub fn scroll_delta(delta_mode: u32, delta: i32) -> (r: ScrollDelta)
    ensures
        r == scroll_delta_spec(delta_mode, delta),
{
    if delta_mode == DOM_DELTA_PIXEL {
        ScrollDelta::Pixels(delta)
    } else if delta_mode == DOM_DELTA_LINE {
        ScrollDelta::Lines(delta)
    } else if delta_mode == DOM_DELTA_PAGE {
        ScrollDelta::Pages(delta)
    } else {
        ScrollDelta::Pixels(delta)
    }
}

/// The absolute value of an integer.
pub open spec fn abs(a: int) -> int {
    if a < 0 {
        -a
    } else {
        a
    }
}

/// The kind of a wheel event: horizontal when the horizontal delta is more
/// wheel notches than the vertical one, vertical otherwise.
pub open spec fn wheel_kind_spec(delta_mode: u32, delta_x: i32, delta_y: i32) -> MouseEventKind {
    let sx = scroll_delta_spec(delta_mode, delta_x);
    let sy = scroll_delta_spec(delta_mode, delta_y);
    if abs(steps_spec(sx)) > abs(steps_spec(sy)) {
        MouseEventKind::ScrolledHorizontal(sx)
    } else {
        MouseEventKind::ScrolledVertical(sy)
    }
}

/// The kind of a wheel event from its delta mode and deltas.
pub fn wheel_kind(delta_mode: u32, delta_x: i32, delta_y: i32) -> (r: MouseEventKind)
    requires
        scroll_delta_spec(delta_mode, delta_x).steps_fit(),
        scroll_delta_spec(delta_mode, delta_y).steps_fit(),
    ensures
        r == wheel_kind_spec(delta_mode, delta_x, delta_y),
{
    let scroll_x = scroll_delta(delta_mode, delta_x);
    let scroll_y = scroll_delta(delta_mode, delta_y);
    let steps_x = scroll_x.to_steps() as i64;
    let steps_y = scroll_y.to_steps() as i64;
    let abs_x = if steps_x < 0 { -steps_x } else { steps_x };
    let abs_y = if steps_y < 0 { -steps_y } else { steps_y };
    if abs_x > abs_y {
        MouseEventKind::ScrolledHorizontal(scroll_x)
    } else {
        MouseEventKind::ScrolledVertical(scroll_y)
    }
}

/// The pointer events that the GPU renderer's mouse handler reports.
#[derive(Debug, Clone, Copy, PartialEq, Eq, Structural)]
pub enum PointerEventType {
    MouseMove,
    MouseDown,
    MouseUp,
}

/// The event kind of a pointer event of the GPU renderer.
pub open spec fn pointer_kind_spec(event_type: PointerEventType, button: i16) -> MouseEventKind {
    match event_type {
        PointerEventType::MouseMove => MouseEventKind::Moved,
        PointerEventType::MouseDown => MouseEventKind::ButtonDown(button_spec(button)),
        PointerEventType::MouseUp => MouseEventKind::ButtonUp(button_spec(button)),
    }
}

/// A mouse event from a pointer event of the GPU renderer, which already
/// carries grid coordinates.
pub fn pointer_event_to_mouse_event(
    event_type: PointerEventType,
    button: i16,
    col: u16,
    row: u16,
    ctrl: bool,
    alt: bool,
    shift: bool,
) -> (r: MouseEvent)
    ensures
        r == (MouseEvent { kind: pointer_kind_spec(event_type, button), col, row, ctrl, alt, shift }),
{
    let button = MouseButton::from_code(button);
    let kind = match event_type {
        PointerEventType::MouseMove => MouseEventKind::Moved,
        PointerEventType::MouseDown => MouseEventKind::ButtonDown(button),
        PointerEventType::MouseUp => MouseEventKind::ButtonUp(button),
    };
    MouseEvent { kind, col, row, ctrl, alt, shift }
}

} // verus!
