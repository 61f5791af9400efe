//! Keyboard, mouse and text input state.
//!
//! The windowing system's events are decoded outside the library into the
//! plain events below (key codes as small integers, cursor positions in
//! fixed point); this module folds them into per-frame input state and
//! answers the queries the game loop asks. Scale factors are floating point
//! and stay with the window layer.

use vstd::prelude::*;
use crate::camera::PixelSize;
use crate::fx::FX_COORD_LIMIT;
use crate::geo::V2;

verus! {

/// How many key and mouse-button codes the held tables track.
pub const HELD_TABLE_SIZE: usize = 255;

/// The library's code for the backspace key; the window layer maps its own
/// key type onto these codes.
pub const KEY_BACK: usize = 8;

/// The library's code for the left shift key.
pub const KEY_LSHIFT: usize = 160;

/// The library's code for the right shift key.
pub const KEY_RSHIFT: usize = 161;

/// The library's code for the left control key.
pub const KEY_LCONTROL: usize = 162;

/// The library's code for the right control key.
pub const KEY_RCONTROL: usize = 163;

/// The library's code for the left alt key.
pub const KEY_LALT: usize = 164;

/// The library's code for the right alt key.
pub const KEY_RALT: usize = 165;

/// A key went down or up this frame.
#[derive(Clone, Copy, PartialEq, Eq, Structural, Debug)]
pub enum KeyAction {
    Pressed(usize),
    Released(usize),
}

/// A mouse button went down or up this frame.
#[derive(Clone, Copy, PartialEq, Eq, Structural, Debug)]
pub enum MouseAction {
    Pressed(usize),
    Released(usize),
}

/// A unit of text input: a printable character or a backspace.
#[derive(Clone, Copy, PartialEq, Eq, Structural, Debug)]
pub enum TextChar {
    Char(char),
    Back,
}

/// One input event, as the window layer hands it over: key codes and mouse
/// buttons as small integers, cursor positions and scroll amounts in fixed
/// point.
#[derive(Clone, Copy, PartialEq, Eq, Structural, Debug)]
pub enum InputEvent {
    Key { code: usize, pressed: bool },
    Character(char),
    MouseButton { button: usize, pressed: bool },
    CursorMoved { x: i64, y: i64 },
    Scroll { amount: i64 },
}

impl InputEvent {
    /// Codes index the held tables; cursor coordinates stay in the
    /// fixed-point range so position differences cannot overflow.
    pub open spec fn wf(self) -> bool {
        match self {
            InputEvent::Key { code, pressed } => code < HELD_TABLE_SIZE,
            InputEvent::MouseButton { button, pressed } => button < HELD_TABLE_SIZE,
            InputEvent::CursorMoved { x, y } =>
                -FX_COORD_LIMIT <= x <= FX_COORD_LIMIT && -FX_COORD_LIMIT <= y <= FX_COORD_LIMIT,
            InputEvent::Scroll { amount } => -FX_COORD_LIMIT <= amount <= FX_COORD_LIMIT,
            InputEvent::Character(c) => true,
        }
    }
}

/// Addition clamped to the fixed-point coordinate range; scroll deltas
/// accumulate without ever overflowing.
pub open spec fn clamped_plus(a: int, b: int) -> int {
    if a + b > FX_COORD_LIMIT {
        FX_COORD_LIMIT as int
    } else if a + b < -FX_COORD_LIMIT {
        -FX_COORD_LIMIT as int
    } else {
        a + b
    }
}

/// The input state as mathematics.
#[verifier::ext_equal]
pub struct InputModel {
    pub mouse_actions: Seq<MouseAction>,
    pub key_actions: Seq<KeyAction>,
    pub key_held: Seq<bool>,
    pub mouse_held: Seq<bool>,
    pub mouse_position: Option<V2>,
    pub mouse_position_prev: Option<V2>,
    pub scroll_diff: int,
    pub text: Seq<TextChar>,
}

/// One event folded into the state: key and button presses are recorded
/// once per hold (a repeat while held adds no action), releases always, a
/// backspace press also enters the text stream, printable characters other
/// than carriage return and line feed enter it directly, cursor moves
/// replace the position, scroll deltas accumulate with clamping.
pub open spec fn event_step(m: InputModel, e: InputEvent) -> InputModel {
    match e {
        InputEvent::Key { code, pressed } => if pressed {
            InputModel {
                key_actions: if !m.key_held[code as int] {
                    m.key_actions.push(KeyAction::Pressed(code))
                } else {
                    m.key_actions
                },
                key_held: m.key_held.update(code as int, true),
                text: if code == KEY_BACK {
                    m.text.push(TextChar::Back)
                } else {
                    m.text
                },
                ..m
            }
        } else {
            InputModel {
                key_actions: m.key_actions.push(KeyAction::Released(code)),
                key_held: m.key_held.update(code as int, false),
                ..m
            }
        },
        InputEvent::Character(c) => if c != '\u{8}' && c != '\r' && c != '\n' {
            InputModel { text: m.text.push(TextChar::Char(c)), ..m }
        } else {
            m
        },
        InputEvent::MouseButton { button, pressed } => InputModel {
            mouse_actions: m.mouse_actions.push(
                if pressed {
                    MouseAction::Pressed(button)
                } else {
                    MouseAction::Released(button)
                }),
            mouse_held: m.mouse_held.update(button as int, pressed),
            ..m
        },
        InputEvent::CursorMoved { x, y } => InputModel {
            mouse_position: Some(V2 { x, y }),
            ..m
        },
        InputEvent::Scroll { amount } => InputModel {
            scroll_diff: clamped_plus(m.scroll_diff, amount as int),
            ..m
        },
    }
}

/// The turn of a frame: per-frame actions, scroll and text are cleared, the
/// held tables persist, and the cursor position moves to "previous".
pub open spec fn frame_step(m: InputModel) -> InputModel {
    InputModel {
        mouse_actions: Seq::empty(),
        key_actions: Seq::empty(),
        scroll_diff: 0,
        mouse_position_prev: m.mouse_position,
        text: Seq::empty(),
        ..m
    }
}

/// Fresh input state: nothing pressed, nothing held, no cursor seen.
pub open spec fn fresh_input() -> InputModel {
    InputModel {
        mouse_actions: Seq::empty(),
        key_actions: Seq::empty(),
        key_held: Seq::new(HELD_TABLE_SIZE as nat, |i: int| false),
        mouse_held: Seq::new(HELD_TABLE_SIZE as nat, |i: int| false),
        mouse_position: None,
        mouse_position_prev: None,
        scroll_diff: 0,
        text: Seq::empty(),
    }
}

/// The input state of one frame.
pub struct Input {
    pub mouse_actions: Vec<MouseAction>,
    pub key_actions: Vec<KeyAction>,
    pub key_held: Vec<bool>,
    pub mouse_held: Vec<bool>,
    pub mouse_position: Option<V2>,
    pub mouse_position_prev: Option<V2>,
    pub scroll_diff: i64,
    pub text: Vec<TextChar>,
}

impl Input {
    pub open spec fn model(self) -> InputModel {
        InputModel {
            mouse_actions: self.mouse_actions@,
            key_actions: self.key_actions@,
            key_held: self.key_held@,
            mouse_held: self.mouse_held@,
            mouse_position: self.mouse_position,
            mouse_position_prev: self.mouse_position_prev,
            scroll_diff: self.scroll_diff as int,
            text: self.text@,
        }
    }

    /// The held tables have their fixed size, and positions and the scroll
    /// total stay in the coordinate range.
    pub open spec fn wf(self) -> bool {
        &&& self.key_held@.len() == HELD_TABLE_SIZE
        &&& self.mouse_held@.len() == HELD_TABLE_SIZE
        &&& match self.mouse_position {
            Some(p) => -FX_COORD_LIMIT <= p.x <= FX_COORD_LIMIT
                && -FX_COORD_LIMIT <= p.y <= FX_COORD_LIMIT,
            None => true,
        }
        &&& match self.mouse_position_prev {
            Some(p) => -FX_COORD_LIMIT <= p.x <= FX_COORD_LIMIT
                && -FX_COORD_LIMIT <= p.y <= FX_COORD_LIMIT,
            None => true,
        }
        &&& -FX_COORD_LIMIT <= self.scroll_diff <= FX_COORD_LIMIT
    }

    pub fn new() -> (r: Input)
        ensures
            r.wf(),
            r.model() == fresh_input(),
    {
        let mut key_held: Vec<bool> = Vec::new();
        let mut i: usize = 0;
        while i < HELD_TABLE_SIZE
            invariant
                i <= HELD_TABLE_SIZE,
                key_held@.len() == i,
                forall|j: int| 0 <= j < i ==> key_held@[j] == false,
            decreases HELD_TABLE_SIZE - i,
        {
            key_held.push(false);
            i += 1;
        }
        let mut mouse_held: Vec<bool> = Vec::new();
        let mut j: usize = 0;
        while j < HELD_TABLE_SIZE
            invariant
                j <= HELD_TABLE_SIZE,
                mouse_held@.len() == j,
                forall|k: int| 0 <= k < j ==> mouse_held@[k] == false,
            decreases HELD_TABLE_SIZE - j,
        {
            mouse_held.push(false);
            j += 1;
        }
        let r = Input {
            mouse_actions: Vec::new(),
            key_actions: Vec::new(),
            key_held,
            mouse_held,
            mouse_position: None,
            mouse_position_prev: None,
            scroll_diff: 0,
            text: Vec::new(),
        };
        proof {
            assert(r.model() =~= fresh_input());
        }
        r
    }

    /// Starts a new frame.
    pub fn update(&mut self)
        requires
            old(self).wf(),
        ensures
            final(self).wf(),
            final(self).model() == frame_step(old(self).model()),
    {
        self.mouse_actions = Vec::new();
        self.key_actions = Vec::new();
        self.scroll_diff = 0;
        self.mouse_position_prev = self.mouse_position;
        self.text = Vec::new();
        proof {
            assert(self.model() =~= frame_step(old(self).model()));
        }
    }

    /// Folds one event into the state, exactly as `event_step` says.
    pub fn handle_event(&mut self, event: &InputEvent)
        requires
            old(self).wf(),
            event.wf(),
        ensures
            final(self).wf(),
            final(self).model() == event_step(old(self).model(), *event),
    {
        match *event {
            InputEvent::Key { code, pressed } => {
                if pressed {
                    if !self.key_held[code] {
                        self.key_actions.push(KeyAction::Pressed(code));
                    }
                    self.key_held.set(code, true);
                    if code == KEY_BACK {
                        self.text.push(TextChar::Back);
                    }
                } else {
                    self.key_held.set(code, false);
                    self.key_actions.push(KeyAction::Released(code));
                }
                proof {
                    assert(self.model() =~= event_step(old(self).model(), *event));
                }
            },
            InputEvent::Character(c) => {
                if c != '\u{8}' && c != '\r' && c != '\n' {
                    self.text.push(TextChar::Char(c));
                }
                proof {
                    assert(self.model() =~= event_step(old(self).model(), *event));
                }
            },
            InputEvent::MouseButton { button, pressed } => {
                self.mouse_held.set(button, pressed);
                self.mouse_actions.push(
                    if pressed {
                        MouseAction::Pressed(button)
                    } else {
                        MouseAction::Released(button)
                    });
                proof {
                    assert(self.model() =~= event_step(old(self).model(), *event));
                }
            },
            InputEvent::CursorMoved { x, y } => {
                self.mouse_position = Some(V2 { x, y });
                proof {
                    assert(self.model() =~= event_step(old(self).model(), *event));
                }
            },
            InputEvent::Scroll { amount } => {
                let total = self.scroll_diff + amount;
                self.scroll_diff = if total > FX_COORD_LIMIT {
                    FX_COORD_LIMIT
                } else if total < -FX_COORD_LIMIT {
                    -FX_COORD_LIMIT
                } else {
                    total
                };
                proof {
                    assert(self.model() =~= event_step(old(self).model(), *event));
                }
            },
        }
    }
}

} // verus!

verus! {

/// A windowing event, decoded to plain values by the window layer.
#[derive(Clone, PartialEq, Eq, Debug)]
pub enum WindowEvent {
    CloseRequested,
    Destroyed,
    Focused(bool),
    DroppedFile(String),
    Resized(PixelSize),
    Input(InputEvent),
    Other,
}

impl WindowEvent {
    pub open spec fn wf(self) -> bool {
        match self {
            WindowEvent::Input(ev) => ev.wf(),
            _ => true,
        }
    }
}

/// One turn of the event loop, as the window layer reports it.
#[derive(Clone, PartialEq, Eq, Debug)]
pub enum SystemEvent {
    /// A new event burst begins; per-frame input state is flushed.
    NewEvents,
    /// A window event to fold into the state.
    Window(WindowEvent),
    /// The burst is over; the frame can be stepped.
    MainEventsCleared,
    /// Anything else; ignored.
    Other,
}

impl SystemEvent {
    pub open spec fn wf(self) -> bool {
        match self {
            SystemEvent::Window(e) => e.wf(),
            _ => true,
        }
    }
}

/// Tracks input and window state across event-loop turns. Input state is
/// dropped while the window is unfocused and restarts fresh on focus.
pub struct InputSubsystem {
    pub current: Option<Input>,
    pub dropped_file: Option<String>,
    pub window_resized: Option<PixelSize>,
    pub window_size: Option<PixelSize>,
    pub destroyed: bool,
    pub close_requested: bool,
}

/// What one window event does to the subsystem: the per-event field it
/// touches changes exactly as stated, everything else is kept, and input
/// events are folded into the current input state by `event_step`.
pub open spec fn process_relation(
    pre: InputSubsystem, post: InputSubsystem, event: WindowEvent,
) -> bool {
    match event {
        WindowEvent::CloseRequested => {
            &&& post.close_requested == true
            &&& post.destroyed == pre.destroyed
            &&& post.dropped_file == pre.dropped_file
            &&& post.window_resized == pre.window_resized
            &&& post.window_size == pre.window_size
            &&& post.current == pre.current
        },
        WindowEvent::Destroyed => {
            &&& post.destroyed == true
            &&& post.close_requested == pre.close_requested
            &&& post.dropped_file == pre.dropped_file
            &&& post.window_resized == pre.window_resized
            &&& post.window_size == pre.window_size
            &&& post.current == pre.current
        },
        WindowEvent::Focused(gained) => {
            &&& (if !gained {
                post.current is None
            } else {
                match pre.current {
                    Some(i) => post.current == pre.current,
                    None => post.current matches Some(i2) && i2.model() == fresh_input()
                        && i2.wf(),
                }
            })
            &&& post.close_requested == pre.close_requested
            &&& post.destroyed == pre.destroyed
            &&& post.dropped_file == pre.dropped_file
            &&& post.window_resized == pre.window_resized
            &&& post.window_size == pre.window_size
        },
        WindowEvent::DroppedFile(path) => {
            &&& post.dropped_file == Some(path)
            &&& post.close_requested == pre.close_requested
            &&& post.destroyed == pre.destroyed
            &&& post.window_resized == pre.window_resized
            &&& post.window_size == pre.window_size
            &&& post.current == pre.current
        },
        WindowEvent::Resized(size) => {
            &&& post.window_resized == Some(size)
            &&& post.window_size == Some(size)
            &&& post.close_requested == pre.close_requested
            &&& post.destroyed == pre.destroyed
            &&& post.dropped_file == pre.dropped_file
            &&& post.current == pre.current
        },
        WindowEvent::Input(ev) => {
            &&& (match pre.current {
                Some(i) => post.current matches Some(i2)
                    && i2.model() == event_step(i.model(), ev) && i2.wf(),
                None => post.current is None,
            })
            &&& post.close_requested == pre.close_requested
            &&& post.destroyed == pre.destroyed
            &&& post.dropped_file == pre.dropped_file
            &&& post.window_resized == pre.window_resized
            &&& post.window_size == pre.window_size
        },
        WindowEvent::Other => post == pre,
    }
}

/// What the start of an event burst does: the per-burst window flags clear,
/// and the current input state, if any, turns its frame.
pub open spec fn flush_relation(pre: InputSubsystem, post: InputSubsystem) -> bool {
    &&& post.dropped_file is None
    &&& post.window_resized is None
    &&& post.close_requested == false
    &&& post.destroyed == pre.destroyed
    &&& post.window_size == pre.window_size
    &&& match pre.current {
        Some(i) => post.current matches Some(i2) && i2.model() == frame_step(i.model())
            && i2.wf(),
        None => post.current is None,
    }
}

impl InputSubsystem {
    pub open spec fn wf(self) -> bool {
        match self.current {
            Some(i) => i.wf(),
            None => true,
        }
    }

    /// A fresh subsystem with fresh input state and no window flags set.
    pub fn new() -> (r: InputSubsystem)
        ensures
            r.wf(),
            r.current matches Some(i) && i.model() == fresh_input(),
            r.dropped_file is None,
            r.window_resized is None,
            r.window_size is None,
            !r.destroyed,
            !r.close_requested,
    {
        InputSubsystem {
            current: Some(Input::new()),
            dropped_file: None,
            window_resized: None,
            window_size: None,
            destroyed: false,
            close_requested: false,
        }
    }

    /// Feeds one event-loop turn; the result says whether the burst is over
    /// and the frame can be stepped.
    pub fn update(&mut self, event: SystemEvent) -> (r: bool)
        requires
            old(self).wf(),
            event.wf(),
        ensures
            final(self).wf(),
            r == (event matches SystemEvent::MainEventsCleared),
            match event {
                SystemEvent::NewEvents => flush_relation(*old(self), *final(self)),
                SystemEvent::Window(e) => process_relation(*old(self), *final(self), e),
                SystemEvent::MainEventsCleared => *final(self) == *old(self),
                SystemEvent::Other => *final(self) == *old(self),
            },
    {
        match event {
            SystemEvent::NewEvents => {
                self.flush();
                false
            },
            SystemEvent::Window(e) => {
                self.process_window_event(e);
                false
            },
            SystemEvent::MainEventsCleared => true,
            SystemEvent::Other => false,
        }
    }

    /// Clears the per-burst window flags and turns the input frame.
    pub fn flush(&mut self)
        requires
            old(self).wf(),
        ensures
            final(self).wf(),
            flush_relation(*old(self), *final(self)),
    {
        self.dropped_file = None;
        self.window_resized = None;
        self.close_requested = false;
        if let Some(current) = &mut self.current {
            current.update();
        }
    }

    /// Folds one window event into the subsystem.
    pub fn process_window_event(&mut self, event: WindowEvent)
        requires
            old(self).wf(),
            event.wf(),
        ensures
            final(self).wf(),
            process_relation(*old(self), *final(self), event),
    {
        match event {
            WindowEvent::CloseRequested => {
                self.close_requested = true;
            },
            WindowEvent::Destroyed => {
                self.destroyed = true;
            },
            WindowEvent::Focused(gained) => {
                if !gained {
                    self.current = None;
                } else {
                    if self.current.is_none() {
                        self.current = Some(Input::new());
                    }
                }
            },
            WindowEvent::DroppedFile(path) => {
                self.dropped_file = Some(path);
            },
            WindowEvent::Resized(size) => {
                self.window_resized = Some(size);
                self.window_size = Some(size);
            },
            WindowEvent::Input(ev) => {
                if let Some(current) = &mut self.current {
                    current.handle_event(&ev);
                }
            },
            WindowEvent::Other => {},
        }
    }

    /// Whether the key went down this frame.
    pub fn key_pressed(&self, check_key_code: usize) -> (r: bool)
        ensures
            r == match self.current {
                Some(i) => i.key_actions@.contains(KeyAction::Pressed(check_key_code)),
                None => false,
            },
    {
        if let Some(current) = &self.current {
            scan_key_actions(&current.key_actions, KeyAction::Pressed(check_key_code))
        } else {
            false
        }
    }

    /// Whether the key went up this frame.
    pub fn key_released(&self, check_key_code: usize) -> (r: bool)
        ensures
            r == match self.current {
                Some(i) => i.key_actions@.contains(KeyAction::Released(check_key_code)),
                None => false,
            },
    {
        if let Some(current) = &self.current {
            scan_key_actions(&current.key_actions, KeyAction::Released(check_key_code))
        } else {
            false
        }
    }

    /// Whether the key is down right now.
    pub fn key_held(&self, key_code: usize) -> (r: bool)
        requires
            self.wf(),
            key_code < HELD_TABLE_SIZE,
        ensures
            r == match self.current {
                Some(i) => i.key_held@[key_code as int],
                None => false,
            },
    {
        match &self.current {
            Some(current) => current.key_held[key_code],
            None => false,
        }
    }

    /// Whether either shift key is down.
    pub fn held_shift(&self) -> (r: bool)
        requires
            self.wf(),
        ensures
            r == match self.current {
                Some(i) => i.key_held@[KEY_LSHIFT as int] || i.key_held@[KEY_RSHIFT as int],
                None => false,
            },
    {
        self.key_held(KEY_LSHIFT) || self.key_held(KEY_RSHIFT)
    }

    /// Whether either alt key is down.
    pub fn held_alt(&self) -> (r: bool)
        requires
            self.wf(),
        ensures
            r == match self.current {
                Some(i) => i.key_held@[KEY_LALT as int] || i.key_held@[KEY_RALT as int],
                None => false,
            },
    {
        self.key_held(KEY_LALT) || self.key_held(KEY_RALT)
    }

    /// Whether either control key is down.
    pub fn held_control(&self) -> (r: bool)
        requires
            self.wf(),
        ensures
            r == match self.current {
                Some(i) => i.key_held@[KEY_LCONTROL as int] || i.key_held@[KEY_RCONTROL as int],
                None => false,
            },
    {
        self.key_held(KEY_LCONTROL) || self.key_held(KEY_RCONTROL)
    }

    /// Whether the mouse button went down this frame.
    pub fn mouse_pressed(&self, check_mouse_button: usize) -> (r: bool)
        ensures
            r == match self.current {
                Some(i) => i.mouse_actions@.contains(MouseAction::Pressed(check_mouse_button)),
                None => false,
            },
    {
        if let Some(current) = &self.current {
            scan_mouse_actions(&current.mouse_actions, MouseAction::Pressed(check_mouse_button))
        } else {
            false
        }
    }

    /// Whether the mouse button went up this frame.
    pub fn mouse_released(&self, check_mouse_button: usize) -> (r: bool)
        ensures
            r == match self.current {
                Some(i) => i.mouse_actions@.contains(MouseAction::Released(check_mouse_button)),
                None => false,
            },
    {
        if let Some(current) = &self.current {
            scan_mouse_actions(&current.mouse_actions, MouseAction::Released(check_mouse_button))
        } else {
            false
        }
    }

    /// Whether the mouse button is down right now.
    pub fn mouse_held(&self, mouse_button: usize) -> (r: bool)
        requires
            self.wf(),
            mouse_button < HELD_TABLE_SIZE,
        ensures
            r == match self.current {
                Some(i) => i.mouse_held@[mouse_button as int],
                None => false,
            },
    {
        match &self.current {
            Some(current) => current.mouse_held[mouse_button],
            None => false,
        }
    }

    /// The scroll total of this frame, in fixed point.
    pub fn scroll_diff(&self) -> (r: i64)
        ensures
            r == match self.current {
                Some(i) => i.scroll_diff,
                None => 0i64,
            },
    {
        match &self.current {
            Some(current) => current.scroll_diff,
            None => 0,
        }
    }

    /// The cursor position, if one has been seen.
    pub fn mouse_pos(&self) -> (r: Option<V2>)
        ensures
            r == match self.current {
                Some(i) => i.mouse_position,
                None => None::<V2>,
            },
    {
        match &self.current {
            Some(current) => current.mouse_position,
            None => None,
        }
    }

    /// How far the cursor moved since the previous frame; zero when either
    /// position is unknown.
    pub fn mouse_diff(&self) -> (r: V2)
        requires
            self.wf(),
        ensures
            r == match self.current {
                Some(i) => match (i.mouse_position, i.mouse_position_prev) {
                    (Some(c), Some(p)) => V2 { x: (c.x - p.x) as i64, y: (c.y - p.y) as i64 },
                    _ => V2 { x: 0, y: 0 },
                },
                None => V2 { x: 0, y: 0 },
            },
    {
        if let Some(current_input) = &self.current {
            if let Some(curr_pos) = current_input.mouse_position {
                if let Some(prev_pos) = current_input.mouse_position_prev {
                    return V2 { x: curr_pos.x - prev_pos.x, y: curr_pos.y - prev_pos.y };
                }
            }
        }
        V2 { x: 0, y: 0 }
    }

    /// The text entered this frame.
    pub fn text(&self) -> (r: Vec<TextChar>)
        ensures
            r@ == match self.current {
                Some(i) => i.text@,
                None => Seq::<TextChar>::empty(),
            },
    {
        let mut out: Vec<TextChar> = Vec::new();
        if let Some(current) = &self.current {
            let mut i: usize = 0;
            while i < current.text.len()
                invariant
                    i <= current.text@.len(),
                    out@ == current.text@.take(i as int),
                decreases current.text@.len() - i,
            {
                out.push(current.text[i]);
                proof {
                    assert(current.text@.take((i + 1) as int)
                        =~= current.text@.take(i as int).push(current.text@[i as int]));
                }
                i += 1;
            }
            proof {
                assert(current.text@.take(current.text@.len() as int) =~= current.text@);
            }
        }
        out
    }

    /// The path dropped onto the window this burst, if any.
    pub fn dropped_file(&self) -> (r: &Option<String>)
        ensures
            r == &self.dropped_file,
    {
        &self.dropped_file
    }

    /// The new size the window was resized to this burst, if any.
    pub fn window_resized(&self) -> (r: Option<PixelSize>)
        ensures
            r == self.window_resized,
    {
        self.window_resized
    }

    /// The window's last known size.
    pub fn resolution(&self) -> (r: Option<PixelSize>)
        ensures
            r == self.window_size,
    {
        self.window_size
    }

    /// Whether the window was destroyed.
    pub fn destroyed(&self) -> (r: bool)
        ensures
            r == self.destroyed,
    {
        self.destroyed
    }

    /// Whether closing was requested this burst.
    pub fn close_requested(&self) -> (r: bool)
        ensures
            r == self.close_requested,
    {
        self.close_requested
    }
}

impl Default for InputSubsystem {
    fn default() -> (r: InputSubsystem)
        ensures
            r.wf(),
            r.current matches Some(i) && i.model() == fresh_input(),
            r.dropped_file is None,
            r.window_resized is None,
            r.window_size is None,
            !r.destroyed,
            !r.close_requested,
    {
        InputSubsystem::new()
    }
}

/// Scans this frame's key actions for one action.
fn scan_key_actions(actions: &Vec<KeyAction>, target: KeyAction) -> (r: bool)
    ensures
        r == actions@.contains(target),
{
    let mut i: usize = 0;
    while i < actions.len()
        invariant
            i <= actions@.len(),
            forall|j: int| 0 <= j < i ==> actions@[j] != target,
        decreases actions@.len() - i,
    {
        if actions[i] == target {
            return true;
        }
        i += 1;
    }
    false
}

/// Scans this frame's mouse actions for one action.
fn scan_mouse_actions(actions: &Vec<MouseAction>, target: MouseAction) -> (r: bool)
    ensures
        r == actions@.contains(target),
{
    let mut i: usize = 0;
    while i < actions.len()
        invariant
            i <= actions@.len(),
            forall|j: int| 0 <= j < i ==> actions@[j] != target,
        decreases actions@.len() - i,
    {
        if actions[i] == target {
            return true;
        }
        i += 1;
    }
    false
}

} // verus!
