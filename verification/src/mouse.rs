//! Low-level mouse events as delivered by the system hook: decoding the hook's
//! messages, and which of them reach the gesture recognizer.
use vstd::prelude::*;

verus! {

/// Mouse event types
#[derive(Debug, Clone, Copy, PartialEq, Eq, Structural)]
pub enum MouseEvent {
    MouseMove(i32, i32),
    LeftButtonDown(i32, i32),
    LeftButtonUp(i32, i32),
    RightButtonDown(i32, i32),
    RightButtonUp(i32, i32),
    MiddleButtonDown(i32, i32),
    MiddleButtonUp(i32, i32),
    XButtonDown(i32, i32, u16),  // x, y, button_number
    XButtonUp(i32, i32, u16),
    MouseWheel(i32, i32, i32),  // x, y, delta
    MouseHWheel(i32, i32, i32),
}

impl MouseEvent {
    /// The screen position carried by the event.
    pub open spec fn spec_position(self) -> (i32, i32) {
        match self {
            MouseEvent::MouseMove(x, y) => (x, y),
            MouseEvent::LeftButtonDown(x, y) => (x, y),
            MouseEvent::LeftButtonUp(x, y) => (x, y),
            MouseEvent::RightButtonDown(x, y) => (x, y),
            MouseEvent::RightButtonUp(x, y) => (x, y),
            MouseEvent::MiddleButtonDown(x, y) => (x, y),
            MouseEvent::MiddleButtonUp(x, y) => (x, y),
            MouseEvent::XButtonDown(x, y, _) => (x, y),
            MouseEvent::XButtonUp(x, y, _) => (x, y),
            MouseEvent::MouseWheel(x, y, _) => (x, y),
            MouseEvent::MouseHWheel(x, y, _) => (x, y),
        }
    }

    /// Get the position of the mouse event
    pub fn position(&self) -> (r: (i32, i32))
        ensures
            r == self.spec_position(),
    {
        match self {
            MouseEvent::MouseMove(x, y) => (*x, *y),
            MouseEvent::LeftButtonDown(x, y) => (*x, *y),
            MouseEvent::LeftButtonUp(x, y) => (*x, *y),
            MouseEvent::RightButtonDown(x, y) => (*x, *y),
            MouseEvent::RightButtonUp(x, y) => (*x, *y),
            MouseEvent::MiddleButtonDown(x, y) => (*x, *y),
            MouseEvent::MiddleButtonUp(x, y) => (*x, *y),
            MouseEvent::XButtonDown(x, y, _) => (*x, *y),
            MouseEvent::XButtonUp(x, y, _) => (*x, *y),
            MouseEvent::MouseWheel(x, y, _) => (*x, *y),
            MouseEvent::MouseHWheel(x, y, _) => (*x, *y),
        }
    }
}

/// Message from mouse hook to main thread
#[derive(Debug, Clone, Copy, PartialEq, Eq, Structural)]
pub enum HookMessage {
    /// Mouse button pressed
    ButtonPressed { x: i32, y: i32 },
    /// Mouse button released
    ButtonReleased { x: i32, y: i32 },
    /// Mouse moved
    MouseMoved { x: i32, y: i32 },
}

/// Hook code of a message the hook must act on.
pub const HC_ACTION: i32 = 0;

/// Mouse message identifiers of the low-level mouse hook.
pub const WM_MOUSEMOVE: u32 = 0x0200;
pub const WM_LBUTTONDOWN: u32 = 0x0201;
pub const WM_LBUTTONUP: u32 = 0x0202;
pub const WM_RBUTTONDOWN: u32 = 0x0204;
pub const WM_RBUTTONUP: u32 = 0x0205;
pub const WM_MBUTTONDOWN: u32 = 0x0207;
pub const WM_MBUTTONUP: u32 = 0x0208;
pub const WM_MOUSEWHEEL: u32 = 0x020A;
pub const WM_XBUTTONDOWN: u32 = 0x020B;
pub const WM_XBUTTONUP: u32 = 0x020C;
pub const WM_MOUSEHWHEEL: u32 = 0x020E;

/// Extra information that marks input the program simulated itself.
pub const SIMULATED_EVENT_TAG: usize = 19900620;

/// Only every this many-th mouse move is passed on while a button is held.
pub const MOVE_SAMPLING: usize = 5;

/// The high 16 bits of `d`.
pub open spec fn high_word(d: u32) -> int {
    d as int / 0x10000
}

/// A 16-bit word read as a signed number.
pub open spec fn signed_word(h: int) -> int {
    if h >= 0x8000 {
        h - 0x10000
    } else {
        h
    }
}

/// The event a hook message `msg` at (`x`, `y`) with mouse data `data` denotes: the
/// X button number and the wheel delta are in the data's high word (the delta
/// signed); an unknown message counts as a move.
pub open spec fn spec_mouse_event(msg: u32, x: i32, y: i32, data: u32) -> MouseEvent {
    if msg == WM_MOUSEMOVE {
        MouseEvent::MouseMove(x, y)
    } else if msg == WM_LBUTTONDOWN {
        MouseEvent::LeftButtonDown(x, y)
    } else if msg == WM_LBUTTONUP {
        MouseEvent::LeftButtonUp(x, y)
    } else if msg == WM_RBUTTONDOWN {
        MouseEvent::RightButtonDown(x, y)
    } else if msg == WM_RBUTTONUP {
        MouseEvent::RightButtonUp(x, y)
    } else if msg == WM_MBUTTONDOWN {
        MouseEvent::MiddleButtonDown(x, y)
    } else if msg == WM_MBUTTONUP {
        MouseEvent::MiddleButtonUp(x, y)
    } else if msg == WM_XBUTTONDOWN {
        MouseEvent::XButtonDown(x, y, high_word(data) as u16)
    } else if msg == WM_XBUTTONUP {
        MouseEvent::XButtonUp(x, y, high_word(data) as u16)
    } else if msg == WM_MOUSEWHEEL {
        MouseEvent::MouseWheel(x, y, signed_word(high_word(data)) as i32)
    } else if msg == WM_MOUSEHWHEEL {
        MouseEvent::MouseHWheel(x, y, signed_word(high_word(data)) as i32)
    } else {
        MouseEvent::MouseMove(x, y)
    }
}

/// Converts a hook message to a mouse event.
pub fn convert_mouse_event(msg: u32, x: i32, y: i32, mouse_data: u32) -> (e: MouseEvent)
    ensures
        e == spec_mouse_event(msg, x, y, mouse_data),
{
    let hi: u32 = mouse_data / 0x10000;
    let delta: i32 = if hi >= 0x8000 {
        hi as i32 - 0x10000
    } else {
        hi as i32
    };
    if msg == WM_MOUSEMOVE {
        MouseEvent::MouseMove(x, y)
    } else if msg == WM_LBUTTONDOWN {
        MouseEvent::LeftButtonDown(x, y)
    } else if msg == WM_LBUTTONUP {
        MouseEvent::LeftButtonUp(x, y)
    } else if msg == WM_RBUTTONDOWN {
        MouseEvent::RightButtonDown(x, y)
    } else if msg == WM_RBUTTONUP {
        MouseEvent::RightButtonUp(x, y)
    } else if msg == WM_MBUTTONDOWN {
        MouseEvent::MiddleButtonDown(x, y)
    } else if msg == WM_MBUTTONUP {
        MouseEvent::MiddleButtonUp(x, y)
    } else if msg == WM_XBUTTONDOWN {
        MouseEvent::XButtonDown(x, y, hi as u16)
    } else if msg == WM_XBUTTONUP {
        MouseEvent::XButtonUp(x, y, hi as u16)
    } else if msg == WM_MOUSEWHEEL {
        MouseEvent::MouseWheel(x, y, delta)
    } else if msg == WM_MOUSEHWHEEL {
        MouseEvent::MouseHWheel(x, y, delta)
    } else {
        MouseEvent::MouseMove(x, y)
    }
}

/// Whether mouse moves are being passed on after `event`: a gesture button going down
/// turns it on, one going up turns it off, other events leave it.
pub open spec fn spec_processing_after(event: MouseEvent, processing: bool) -> bool {
    match event {
        MouseEvent::RightButtonDown(..) | MouseEvent::MiddleButtonDown(..)
        | MouseEvent::XButtonDown(..) => true,
        MouseEvent::RightButtonUp(..) | MouseEvent::MiddleButtonUp(..)
        | MouseEvent::XButtonUp(..) => false,
        _ => processing,
    }
}

/// The counter after one more mouse move (wrapping around at the top).
pub open spec fn next_count(c: usize) -> usize {
    if c == usize::MAX {
        0
    } else {
        (c + 1) as usize
    }
}

/// What the mouse hook remembers between messages: whether moves are passed on (a
/// gesture button is held) and how many moves it has seen while they were.
pub struct HookGate {
    pub processing: bool,
    pub move_counter: usize,
}

impl HookGate {
    /// Nothing held, no moves counted.
    pub fn new() -> (g: Self)
        ensures
            !g.processing,
            g.move_counter == 0,
    {
        HookGate { processing: false, move_counter: 0 }
    }

    /// Whether the hook passes a message on: only action messages; moves only while a
    /// gesture button is held, and then only every fifth; never input the program
    /// simulated itself. Moves seen while a button is held are counted.
    pub fn passes(&mut self, n_code: i32, msg: u32, extra_info: usize) -> (r: bool)
        ensures
            r == (n_code == HC_ACTION && (msg != WM_MOUSEMOVE || (old(self).processing
                && old(self).move_counter % MOVE_SAMPLING == 0)) && extra_info
                != SIMULATED_EVENT_TAG),
            final(self).move_counter == if n_code == HC_ACTION && msg == WM_MOUSEMOVE && old(
                self,
            ).processing {
                next_count(old(self).move_counter)
            } else {
                old(self).move_counter
            },
            final(self).processing == old(self).processing,
    {
        if n_code != HC_ACTION {
            return false;
        }
        if msg == WM_MOUSEMOVE {
            if !self.processing {
                return false;
            }
            let count = self.move_counter;
            self.move_counter = if count == usize::MAX {
                0
            } else {
                count + 1
            };
            if count % MOVE_SAMPLING != 0 {
                return false;
            }
        }
        extra_info != SIMULATED_EVENT_TAG
    }

    /// Handles an event the hook passed on: while gestures are enabled it is forwarded
    /// to the recognizer (the return value) and a gesture button going down or up
    /// switches the passing on of moves; while disabled nothing happens.
    pub fn on_mouse_event(&mut self, enabled: bool, event: &MouseEvent) -> (forward: bool)
        ensures
            forward == enabled,
            final(self).processing == if enabled {
                spec_processing_after(*event, old(self).processing)
            } else {
                old(self).processing
            },
            final(self).move_counter == old(self).move_counter,
    {
        if !enabled {
            return false;
        }
        match event {
            MouseEvent::RightButtonDown(..) | MouseEvent::MiddleButtonDown(..)
            | MouseEvent::XButtonDown(..) => {
                self.processing = true;
            },
            MouseEvent::RightButtonUp(..) | MouseEvent::MiddleButtonUp(..)
            | MouseEvent::XButtonUp(..) => {
                self.processing = false;
            },
            _ => {},
        }
        true
    }
}

/// How the hook's messages decode, by their numbers in the Windows API: each button
/// message gives the event of that button and that transition (0x0201/0x0202 left down
/// and up, 0x0204/0x0205 right, 0x0207/0x0208 middle, 0x020B/0x020C extra buttons with
/// the button number in the data's high word), 0x0200 a move, and 0x020A/0x020E the
/// vertical and horizontal wheel with the signed high word of the data as delta; every
/// event keeps the message's position.
pub proof fn lemma_messages_decode_to_their_events(msg: u32, x: i32, y: i32, data: u32)
    ensures
        spec_mouse_event(0x0200, x, y, data) == MouseEvent::MouseMove(x, y),
        spec_mouse_event(0x0201, x, y, data) == MouseEvent::LeftButtonDown(x, y),
        spec_mouse_event(0x0202, x, y, data) == MouseEvent::LeftButtonUp(x, y),
        spec_mouse_event(0x0204, x, y, data) == MouseEvent::RightButtonDown(x, y),
        spec_mouse_event(0x0205, x, y, data) == MouseEvent::RightButtonUp(x, y),
        spec_mouse_event(0x0207, x, y, data) == MouseEvent::MiddleButtonDown(x, y),
        spec_mouse_event(0x0208, x, y, data) == MouseEvent::MiddleButtonUp(x, y),
        spec_mouse_event(0x020B, x, y, data) == MouseEvent::XButtonDown(x, y, (data / 0x10000) as u16),
        spec_mouse_event(0x020C, x, y, data) == MouseEvent::XButtonUp(x, y, (data / 0x10000) as u16),
        ({
            let e = spec_mouse_event(0x020A, x, y, data);
            &&& e is MouseWheel
            &&& e.spec_position() == (x, y)
            &&& data < 0x80000000 ==> e->MouseWheel_2 == data / 0x10000
            &&& data >= 0x80000000 ==> e->MouseWheel_2 == data / 0x10000 - 0x10000
        }),
        ({
            let e = spec_mouse_event(0x020E, x, y, data);
            &&& e is MouseHWheel
            &&& e.spec_position() == (x, y)
            &&& data < 0x80000000 ==> e->MouseHWheel_2 == data / 0x10000
            &&& data >= 0x80000000 ==> e->MouseHWheel_2 == data / 0x10000 - 0x10000
        }),
        spec_mouse_event(msg, x, y, data).spec_position() == (x, y),
{
}

/// Releasing a button ends what pressing it began: for each button, the release
/// message decodes to the release of the same button (the same extra button, for
/// the extra buttons) as the press message does to its press, and after the release the
/// hook stops passing moves on.
pub proof fn lemma_release_matches_press(x: i32, y: i32, data: u32, processing: bool)
    ensures
        spec_mouse_event(0x0205, x, y, data) is RightButtonUp && spec_mouse_event(0x0204, x, y, data) is RightButtonDown,
        spec_mouse_event(0x0208, x, y, data) is MiddleButtonUp && spec_mouse_event(0x0207, x, y, data) is MiddleButtonDown,
        spec_mouse_event(0x020C, x, y, data)->XButtonUp_2 == spec_mouse_event(0x020B, x, y, data)->XButtonDown_2,
        !spec_processing_after(spec_mouse_event(0x0205, x, y, data), processing),
        !spec_processing_after(spec_mouse_event(0x0208, x, y, data), processing),
        !spec_processing_after(spec_mouse_event(0x020C, x, y, data), processing),
        spec_processing_after(spec_mouse_event(0x0204, x, y, data), processing),
        spec_processing_after(spec_mouse_event(0x0207, x, y, data), processing),
        spec_processing_after(spec_mouse_event(0x020B, x, y, data), processing),
{
}

} // verus!
