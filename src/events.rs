use vstd::prelude::*;

use crate::swapchain::Size2;

verus! {

/// The state of a button, with the transitions of the last poll.
#[derive(Clone, Copy, Debug, PartialEq, Eq, Structural)]
pub enum ButtonState {
    Released,
    JustReleased,
    Pressed,
    JustPressed,
}

impl Default for ButtonState {
    fn default() -> (r: ButtonState)
        ensures
            r == ButtonState::Released,
    {
        ButtonState::Released
    }
}

impl ButtonState {
    pub open spec fn updated(self) -> ButtonState {
        match self {
            ButtonState::JustPressed => ButtonState::Pressed,
            ButtonState::JustReleased => ButtonState::Released,
            s => s,
        }
    }

    pub open spec fn down(self) -> bool {
        self == ButtonState::Pressed || self == ButtonState::JustPressed
    }

    /// Settles a transition of the last poll.
    pub fn update(&mut self)
        ensures
            *final(self) == old(self).updated(),
    {
        if *self == ButtonState::JustPressed {
            *self = ButtonState::Pressed
        } else if *self == ButtonState::JustReleased {
            *self = ButtonState::Released
        }
    }

    pub fn is_down(&self) -> (r: bool)
        ensures
            r == self.down(),
    {
        *self == ButtonState::Pressed || *self == ButtonState::JustPressed
    }

    pub fn just_updated(&self) -> (r: bool)
        ensures
            r == (*self == ButtonState::JustPressed || *self == ButtonState::JustReleased),
    {
        *self == ButtonState::JustPressed || *self == ButtonState::JustReleased
    }

    /// A press: just pressed, or held where it was just pressed already.
    pub fn press(&mut self)
        ensures
            *final(self) == (if *old(self) == ButtonState::JustPressed {
                ButtonState::Pressed
            } else {
                ButtonState::JustPressed
            }),
    {
        if *self == ButtonState::JustPressed {
            *self = ButtonState::Pressed
        } else {
            *self = ButtonState::JustPressed
        }
    }

    /// A release: just released, or up where it was just released already.
    pub fn release(&mut self)
        ensures
            *final(self) == (if *old(self) == ButtonState::JustReleased {
                ButtonState::Released
            } else {
                ButtonState::JustReleased
            }),
    {
        if *self == ButtonState::JustReleased {
            *self = ButtonState::Released
        } else {
            *self = ButtonState::JustReleased
        }
    }
}

/// The state a key or button event sets.
pub open spec fn event_state(pressed: bool) -> ButtonState {
    if pressed {
        ButtonState::JustPressed
    } else {
        ButtonState::JustReleased
    }
}

fn event_state_exec(pressed: bool) -> (r: ButtonState)
    ensures
        r == event_state(pressed),
{
    if pressed {
        ButtonState::JustPressed
    } else {
        ButtonState::JustReleased
    }
}

/// A point or a displacement in whole physical pixels.
#[derive(Clone, Copy, Debug, PartialEq, Eq, Structural)]
pub struct Vec2i {
    pub x: i64,
    pub y: i64,
}

impl Vec2i {
    pub fn new(x: i64, y: i64) -> (r: Vec2i)
        ensures
            r == (Vec2i { x, y }),
    {
        Vec2i { x, y }
    }

    /// Both coordinates fit in 32 bits, as the coordinates of events do.
    pub open spec fn in_i32(self) -> bool {
        i32::MIN <= self.x <= i32::MAX && i32::MIN <= self.y <= i32::MAX
    }
}

pub struct Mouse {
    pub position: Vec2i,
    /// The displacement of the last cursor move since the last poll.
    pub movement: Vec2i,
    pub left: ButtonState,
    pub right: ButtonState,
}

impl Default for Mouse {
    fn default() -> (r: Mouse)
        ensures
            r.position == (Vec2i { x: 0, y: 0 }),
            r.movement == (Vec2i { x: 0, y: 0 }),
            r.left == ButtonState::Released,
            r.right == ButtonState::Released,
    {
        Mouse {
            position: Vec2i::new(0, 0),
            movement: Vec2i::new(0, 0),
            left: ButtonState::Released,
            right: ButtonState::Released,
        }
    }
}

impl Mouse {
    /// Ends a poll: no movement since, and the buttons' transitions settled.
    pub fn update(&mut self)
        ensures
            final(self).position == old(self).position,
            final(self).movement == (Vec2i { x: 0, y: 0 }),
            final(self).left == old(self).left.updated(),
            final(self).right == old(self).right.updated(),
    {
        self.movement = Vec2i::new(0, 0);
        self.left.update();
        self.right.update();
    }

    /// The cursor moved to `(x, y)`: the movement is measured from the last position.
    pub fn cursor_moved(&mut self, x: i32, y: i32)
        requires
            old(self).position.in_i32(),
        ensures
            final(self).position == (Vec2i { x: x as i64, y: y as i64 }),
            final(self).movement == (Vec2i {
                x: (x - old(self).position.x) as i64,
                y: (y - old(self).position.y) as i64,
            }),
            final(self).left == old(self).left,
            final(self).right == old(self).right,
    {
        self.movement = Vec2i::new(x as i64 - self.position.x, y as i64 - self.position.y);
        self.position = Vec2i::new(x as i64, y as i64);
    }
}

/// Key codes of game controllers on Android.
#[derive(Clone, Copy, Debug, PartialEq, Eq, Structural)]
pub enum AndroidKeyCode {
    Unknown,
    Back,
    A,
    B,
    X,
    Y,
    L1,
    R1,
    L2,
    R2,
    L3,
    R3,
    Play,
    Stop,
}

/// The key of a native Android key code; any other code is `Unknown`.
pub open spec fn android_key(code: u32) -> AndroidKeyCode {
    if code == 0x4 {
        AndroidKeyCode::Back
    } else if code == 0x60 {
        AndroidKeyCode::A
    } else if code == 0x61 {
        AndroidKeyCode::B
    } else if code == 0x63 {
        AndroidKeyCode::X
    } else if code == 0x64 {
        AndroidKeyCode::Y
    } else if code == 0x66 {
        AndroidKeyCode::L1
    } else if code == 0x67 {
        AndroidKeyCode::R1
    } else if code == 0x68 {
        AndroidKeyCode::L2
    } else if code == 0x69 {
        AndroidKeyCode::R2
    } else if code == 0x6A {
        AndroidKeyCode::L3
    } else if code == 0x6B {
        AndroidKeyCode::R3
    } else if code == 0x6C {
        AndroidKeyCode::Play
    } else if code == 0x6D {
        AndroidKeyCode::Stop
    } else {
        AndroidKeyCode::Unknown
    }
}

impl AndroidKeyCode {
    /// The native code of the key; `Unknown` has code zero.
    pub fn code(&self) -> (r: u32)
        ensures
            *self != AndroidKeyCode::Unknown ==> android_key(r) == *self,
            *self == AndroidKeyCode::Unknown ==> r == 0,
    {
        match self {
            AndroidKeyCode::Unknown => 0x0,
            AndroidKeyCode::Back => 0x4,
            AndroidKeyCode::A => 0x60,
            AndroidKeyCode::B => 0x61,
            AndroidKeyCode::X => 0x63,
            AndroidKeyCode::Y => 0x64,
            AndroidKeyCode::L1 => 0x66,
            AndroidKeyCode::R1 => 0x67,
            AndroidKeyCode::L2 => 0x68,
            AndroidKeyCode::R2 => 0x69,
            AndroidKeyCode::L3 => 0x6A,
            AndroidKeyCode::R3 => 0x6B,
            AndroidKeyCode::Play => 0x6C,
            AndroidKeyCode::Stop => 0x6D,
        }
    }
}

impl From<u32> for AndroidKeyCode {
    fn from(code: u32) -> (r: AndroidKeyCode) {
        if code == 0x4 {
            AndroidKeyCode::Back
        } else if code == 0x60 {
            AndroidKeyCode::A
        } else if code == 0x61 {
            AndroidKeyCode::B
        } else if code == 0x63 {
            AndroidKeyCode::X
        } else if code == 0x64 {
            AndroidKeyCode::Y
        } else if code == 0x66 {
            AndroidKeyCode::L1
        } else if code == 0x67 {
            AndroidKeyCode::R1
        } else if code == 0x68 {
            AndroidKeyCode::L2
        } else if code == 0x69 {
            AndroidKeyCode::R2
        } else if code == 0x6A {
            AndroidKeyCode::L3
        } else if code == 0x6B {
            AndroidKeyCode::R3
        } else if code == 0x6C {
            AndroidKeyCode::Play
        } else if code == 0x6D {
            AndroidKeyCode::Stop
        } else {
            AndroidKeyCode::Unknown
        }
    }
}

impl vstd::std_specs::convert::FromSpecImpl<u32> for AndroidKeyCode {
    open spec fn obeys_from_spec() -> bool {
        true
    }

    open spec fn from_spec(code: u32) -> AndroidKeyCode {
        android_key(code)
    }
}

/// The controller state on Android.
pub struct AndroidInput {
    /// The last touch location.
    pub left_axis: Vec2i,
    pub back: ButtonState,
    pub a: ButtonState,
    pub b: ButtonState,
    pub x: ButtonState,
    pub y: ButtonState,
    pub l1: ButtonState,
    pub r1: ButtonState,
    pub l2: ButtonState,
    pub r2: ButtonState,
    pub l3: ButtonState,
    pub r3: ButtonState,
    pub play: ButtonState,
    pub stop: ButtonState,
}

impl Default for AndroidInput {
    fn default() -> (r: AndroidInput)
        ensures
            r.left_axis == (Vec2i { x: 0, y: 0 }),
            r.back == ButtonState::Released,
            r.a == ButtonState::Released,
            r.b == ButtonState::Released,
            r.x == ButtonState::Released,
            r.y == ButtonState::Released,
            r.l1 == ButtonState::Released,
            r.r1 == ButtonState::Released,
            r.l2 == ButtonState::Released,
            r.r2 == ButtonState::Released,
            r.l3 == ButtonState::Released,
            r.r3 == ButtonState::Released,
            r.play == ButtonState::Released,
            r.stop == ButtonState::Released,
    {
        AndroidInput {
            left_axis: Vec2i::new(0, 0),
            back: ButtonState::Released,
            a: ButtonState::Released,
            b: ButtonState::Released,
            x: ButtonState::Released,
            y: ButtonState::Released,
            l1: ButtonState::Released,
            r1: ButtonState::Released,
            l2: ButtonState::Released,
            r2: ButtonState::Released,
            l3: ButtonState::Released,
            r3: ButtonState::Released,
            play: ButtonState::Released,
            stop: ButtonState::Released,
        }
    }
}

impl AndroidInput {
    /// The button of a key, if the controller has one.
    pub open spec fn button(self, key: AndroidKeyCode) -> Option<ButtonState> {
        match key {
            AndroidKeyCode::Back => Some(self.back),
            AndroidKeyCode::A => Some(self.a),
            AndroidKeyCode::B => Some(self.b),
            AndroidKeyCode::X => Some(self.x),
            AndroidKeyCode::Y => Some(self.y),
            AndroidKeyCode::L1 => Some(self.l1),
            AndroidKeyCode::R1 => Some(self.r1),
            AndroidKeyCode::L2 => Some(self.l2),
            AndroidKeyCode::R2 => Some(self.r2),
            AndroidKeyCode::L3 => Some(self.l3),
            AndroidKeyCode::R3 => Some(self.r3),
            AndroidKeyCode::Play => Some(self.play),
            AndroidKeyCode::Stop => Some(self.stop),
            AndroidKeyCode::Unknown => None,
        }
    }

    /// Sets the button of `key` to `state`; an unknown key changes nothing.
    pub fn set_button(&mut self, key: AndroidKeyCode, state: ButtonState)
        ensures
            final(self).left_axis == old(self).left_axis,
            forall|k: AndroidKeyCode| #[trigger] final(self).button(k) == (if k == key && k != AndroidKeyCode::Unknown {
                Some(state)
            } else {
                old(self).button(k)
            }),
    {
        match key {
            AndroidKeyCode::Back => self.back = state,
            AndroidKeyCode::A => self.a = state,
            AndroidKeyCode::B => self.b = state,
            AndroidKeyCode::X => self.x = state,
            AndroidKeyCode::Y => self.y = state,
            AndroidKeyCode::L1 => self.l1 = state,
            AndroidKeyCode::R1 => self.r1 = state,
            AndroidKeyCode::L2 => self.l2 = state,
            AndroidKeyCode::R2 => self.r2 = state,
            AndroidKeyCode::L3 => self.l3 = state,
            AndroidKeyCode::R3 => self.r3 = state,
            AndroidKeyCode::Play => self.play = state,
            AndroidKeyCode::Stop => self.stop = state,
            AndroidKeyCode::Unknown => {},
        }
    }
}

/// The keys of the keyboard that the input state follows.
#[derive(Clone, Copy, Debug, PartialEq, Eq, Structural)]
pub enum Key {
    Q,
    W,
    E,
    A,
    S,
    D,
}

#[derive(Clone, Copy, Debug, PartialEq, Eq, Structural)]
pub enum MouseButton {
    Left,
    Right,
}

pub struct Input {
    pub q: ButtonState,
    pub w: ButtonState,
    pub e: ButtonState,
    pub a: ButtonState,
    pub s: ButtonState,
    pub d: ButtonState,
    pub mouse: Mouse,
    pub android: AndroidInput,
}

impl Default for Input {
    fn default() -> (r: Input)
        ensures
            r.q == ButtonState::Released,
            r.w == ButtonState::Released,
            r.e == ButtonState::Released,
            r.a == ButtonState::Released,
            r.s == ButtonState::Released,
            r.d == ButtonState::Released,
            r.mouse.position == (Vec2i { x: 0, y: 0 }),
            r.mouse.movement == (Vec2i { x: 0, y: 0 }),
            r.mouse.left == ButtonState::Released,
            r.mouse.right == ButtonState::Released,
            r.android.left_axis == (Vec2i { x: 0, y: 0 }),
            forall|k: AndroidKeyCode| k != AndroidKeyCode::Unknown ==> #[trigger] r.android.button(k) == Some(ButtonState::Released),
    {
        Input {
            q: ButtonState::Released,
            w: ButtonState::Released,
            e: ButtonState::Released,
            a: ButtonState::Released,
            s: ButtonState::Released,
            d: ButtonState::Released,
            mouse: Mouse::default(),
            android: AndroidInput::default(),
        }
    }
}

impl Input {
    pub open spec fn key(self, key: Key) -> ButtonState {
        match key {
            Key::Q => self.q,
            Key::W => self.w,
            Key::E => self.e,
            Key::A => self.a,
            Key::S => self.s,
            Key::D => self.d,
        }
    }

    /// Ends a poll of the events.
    pub fn update(&mut self)
        ensures
            final(self).mouse.position == old(self).mouse.position,
            final(self).mouse.movement == (Vec2i { x: 0, y: 0 }),
            final(self).mouse.left == old(self).mouse.left.updated(),
            final(self).mouse.right == old(self).mouse.right.updated(),
            forall|k: Key| #[trigger] final(self).key(k) == old(self).key(k),
            final(self).android == old(self).android,
    {
        self.mouse.update();
    }

    /// Sets the state of a keyboard key.
    pub fn set_key(&mut self, key: Key, state: ButtonState)
        ensures
            forall|k: Key| #[trigger] final(self).key(k) == (if k == key { state } else { old(self).key(k) }),
            final(self).mouse == old(self).mouse,
            final(self).android == old(self).android,
    {
        match key {
            Key::Q => self.q = state,
            Key::W => self.w = state,
            Key::E => self.e = state,
            Key::A => self.a = state,
            Key::S => self.s = state,
            Key::D => self.d = state,
        }
    }
}

/// What the windowing layer reports, as far as the window state follows it.
#[derive(Clone, Copy, Debug, PartialEq, Eq, Structural)]
pub enum WinEvent {
    /// A keyboard key went down (`true`) or up.
    Key(Key, bool),
    /// A native Android key code went down (`true`) or up.
    AndroidKey(u32, bool),
    /// A mouse button went down (`true`) or up.
    MouseButton(MouseButton, bool),
    /// The cursor moved to a position in physical pixels.
    CursorMoved(i32, i32),
    /// A touch at a location in physical pixels.
    Touch(i32, i32),
    /// The window has a new inner size.
    Resized(u32, u32),
    CloseRequested,
}

/// The state of a window: its size, whether it was resized since the flag was
/// last read, whether it was asked to close, and its input.
pub struct WindowState {
    pub size: Size2,
    pub resized: bool,
    pub exit: bool,
    pub input: Input,
}

impl WindowState {
    pub open spec fn resize_pending(&self) -> bool {
        self.resized
    }

    pub open spec fn wf(&self) -> bool {
        self.input.mouse.position.in_i32()
    }

    pub fn new(size: Size2) -> (r: WindowState)
        ensures
            r.wf(),
            r.size == size,
            !r.resize_pending(),
            !r.exit,
    {
        WindowState { size, resized: false, exit: false, input: Input::default() }
    }

    /// Returns whether the window was resized since the last call, and clears the flag.
    pub fn is_resized(&mut self) -> (r: bool)
        ensures
            r == old(self).resize_pending(),
            !final(self).resize_pending(),
            final(self).size == old(self).size,
            final(self).exit == old(self).exit,
            final(self).input == old(self).input,
    {
        let r = self.resized;
        self.resized = false;
        r
    }

    /// The size to rebuild the surface for, once per resize: `None` while the
    /// window is closing or was not resized; otherwise the flag is cleared.
    pub fn poll_resize(&mut self) -> (r: Option<Size2>)
        ensures
            r == (if !old(self).exit && old(self).resized {
                Some(old(self).size)
            } else {
                None
            }),
            final(self).resized == (old(self).resized && old(self).exit),
            final(self).size == old(self).size,
            final(self).exit == old(self).exit,
            final(self).input == old(self).input,
    {
        if self.exit {
            return None;
        }
        if self.is_resized() {
            Some(self.size)
        } else {
            None
        }
    }

    /// Follows one event of the window.
    pub fn window_event(&mut self, event: WinEvent)
        requires
            old(self).wf(),
        ensures
            final(self).wf(),
            match event {
                WinEvent::Key(k, pressed) => final(self).input.key(k) == event_state(pressed),
                WinEvent::AndroidKey(code, pressed) => android_key(code) != AndroidKeyCode::Unknown
                    ==> final(self).input.android.button(android_key(code)) == Some(event_state(pressed)),
                WinEvent::MouseButton(MouseButton::Left, pressed) => final(self).input.mouse.left == event_state(pressed),
                WinEvent::MouseButton(MouseButton::Right, pressed) => final(self).input.mouse.right == event_state(pressed),
                WinEvent::CursorMoved(x, y) => {
                    &&& final(self).input.mouse.position == (Vec2i { x: x as i64, y: y as i64 })
                    &&& final(self).input.mouse.movement == (Vec2i {
                        x: (x - old(self).input.mouse.position.x) as i64,
                        y: (y - old(self).input.mouse.position.y) as i64,
                    })
                },
                WinEvent::Touch(x, y) => final(self).input.android.left_axis == (Vec2i { x: x as i64, y: y as i64 }),
                WinEvent::Resized(w, h) => final(self).size == (Size2 { width: w, height: h }) && final(self).resize_pending(),
                WinEvent::CloseRequested => final(self).exit,
            },
            match event {
                WinEvent::Resized(_, _) => true,
                _ => final(self).size == old(self).size && final(self).resize_pending() == old(self).resize_pending(),
            },
            match event {
                WinEvent::CloseRequested => true,
                _ => final(self).exit == old(self).exit,
            },
    {
        match event {
            WinEvent::Key(k, pressed) => self.input.set_key(k, event_state_exec(pressed)),
            WinEvent::AndroidKey(code, pressed) => {
                let key = AndroidKeyCode::from(code);
                self.input.android.set_button(key, event_state_exec(pressed));
            },
            WinEvent::MouseButton(MouseButton::Left, pressed) => self.input.mouse.left = event_state_exec(pressed),
            WinEvent::MouseButton(MouseButton::Right, pressed) => self.input.mouse.right = event_state_exec(pressed),
            WinEvent::CursorMoved(x, y) => self.input.mouse.cursor_moved(x, y),
            WinEvent::Touch(x, y) => self.input.android.left_axis = Vec2i::new(x as i64, y as i64),
            WinEvent::Resized(w, h) => {
                self.resized = true;
                self.size = Size2::new(w, h);
            },
            WinEvent::CloseRequested => self.exit = true,
        }
    }
}

} // verus!
