//! The frame loop's state machine. One frame is: drain pending platform
//! events (quit, resize-finished, pointer-move), sample the raw button state,
//! resize the surface if a resize was requested, compute the elapsed time,
//! run the render callback, and present. The platform side (the message pump,
//! the blit) lives outside this crate: it hands raw message words in and
//! performs the actions this state machine decides.

use vstd::prelude::*;

use crate::bitmap::AllocationError;
use crate::bitmap::Bitmap;
use crate::bitmap::RawCanvas;
use crate::bitmap::dims_ok;
use crate::input::Input;

verus! {

/// The platform message number that asks the application to quit.
pub const WM_QUIT: u32 = 0x0012;

/// The platform message number sent when the pointer moves; the packed
/// coordinates ride in the message's second parameter word.
pub const WM_MOUSEMOVE: u32 = 0x0200;

/// The platform message number sent when an interactive move or resize of the
/// window has finished.
pub const WM_EXITSIZEMOVE: u32 = 0x0232;

/// What one drained platform event means to the frame loop.
#[derive(Clone, Copy, Debug, PartialEq, Eq, Structural)]
pub enum Event {
    /// End the loop; no further rendering or presentation.
    Quit,
    /// The window's client area changed: resize the surface before the next
    /// frame is rendered.
    ResizeFinished,
    /// The pointer moved to this client-area position.
    PointerMove { x: usize, y: usize },
    /// Anything else: hand it back to the platform's default handling.
    Other,
}

/// The pointer's x position as packed into a pointer-move message's second
/// parameter: its low 16 bits.
pub open spec fn spec_pointer_x(lparam: u64) -> u64 {
    lparam & 0xffff
}

/// The pointer's y position as packed into a pointer-move message's second
/// parameter: its next 16 bits.
pub open spec fn spec_pointer_y(lparam: u64) -> u64 {
    (lparam >> 16) & 0xffff
}

/// The event a raw platform message stands for.
pub open spec fn spec_classify(message: u32, lparam: u64) -> Event {
    if message == WM_QUIT {
        Event::Quit
    } else if message == WM_EXITSIZEMOVE {
        Event::ResizeFinished
    } else if message == WM_MOUSEMOVE {
        Event::PointerMove {
            x: spec_pointer_x(lparam) as usize,
            y: spec_pointer_y(lparam) as usize,
        }
    } else {
        Event::Other
    }
}

/// Classifies one raw platform message: the message number picks the event,
/// and for a pointer move the coordinates are unpacked from the low 32 bits
/// of the second parameter word.
pub fn classify_message(message: u32, lparam: u64) -> (ev: Event)
    ensures
        ev == spec_classify(message, lparam),
{
    if message == WM_QUIT {
        Event::Quit
    } else if message == WM_EXITSIZEMOVE {
        Event::ResizeFinished
    } else if message == WM_MOUSEMOVE {
        let x: u64 = lparam & 0xffff;
        let y: u64 = (lparam >> 16) & 0xffff;
        Event::PointerMove { x: x as usize, y: y as usize }
    } else {
        Event::Other
    }
}

/// The frame loop: the surface, the input edge-state, and the loop's own
/// bookkeeping. Running or terminated; a quit event is the only transition to
/// terminated, and nothing leaves it.
pub struct FrameLoop {
    /// The pixel surface the render callback writes and the platform blits.
    pub bitmap: Bitmap,
    /// The input state handed to the render callback.
    pub input: Input,
    /// Whether a resize-finished event is waiting to be applied before the
    /// next frame is rendered.
    pub resize_pending: bool,
    /// Whether a quit event has been drained; set once and never cleared.
    pub terminated: bool,
    /// The frame clock's reading at the previous frame, if one has run.
    pub last_time_nanos: Option<u64>,
}

impl FrameLoop {
    /// The surface's well-formedness carries over to the loop.
    pub open spec fn inv(&self) -> bool {
        self.bitmap.inv()
    }

    /// A running loop with a surface of the given size, all input released,
    /// no frame run yet, and a resize already pending so that the first frame
    /// adopts the window's real client size. Fails exactly when the surface
    /// cannot be allocated.
    pub fn new(width: usize, height: usize) -> (r: Result<FrameLoop, AllocationError>)
        ensures
            r is Ok <==> dims_ok(width as int, height as int),
            r matches Ok(fl) ==> {
                &&& fl.inv()
                &&& fl.bitmap.width_spec() == width
                &&& fl.bitmap.height_spec() == height
                &&& !fl.terminated
                &&& fl.resize_pending
                &&& fl.last_time_nanos is None
                &&& fl.input.mouse.x == 0
                &&& fl.input.mouse.y == 0
                &&& !fl.input.mouse.left.spec_curr()
                &&& !fl.input.mouse.right.spec_curr()
                &&& !fl.input.keyboard.left.spec_curr()
                &&& !fl.input.keyboard.right.spec_curr()
                &&& !fl.input.keyboard.down.spec_curr()
                &&& !fl.input.keyboard.up.spec_curr()
            },
    {
        let bitmap = match Bitmap::with_size(width, height) {
            Ok(b) => b,
            Err(e) => {
                return Err(e);
            },
        };
        proof {
            crate::input::lemma_button_default_released();
        }
        Ok(
            FrameLoop {
                bitmap,
                input: Input::default(),
                resize_pending: true,
                terminated: false,
                last_time_nanos: None,
            },
        )
    }

    /// Whether a quit event has been drained; once true it stays true, and
    /// the loop must do no further frame work.
    pub fn is_terminated(&self) -> (r: bool)
        ensures
            r == self.terminated,
    {
        self.terminated
    }

    /// Whether a resize-finished event is waiting to be applied.
    pub fn is_resize_pending(&self) -> (r: bool)
        ensures
            r == self.resize_pending,
    {
        self.resize_pending
    }

    /// Takes one drained event: quit terminates the loop, resize-finished
    /// marks a resize as pending, a pointer move overwrites the mouse
    /// position at once — independent of the per-frame button sampling — and
    /// any other event changes nothing here (the platform's default handling
    /// takes it). The surface, the buttons and the frame clock are never
    /// touched.
    pub fn process_event(&mut self, event: Event)
        ensures
            final(self).terminated == (old(self).terminated || event is Quit),
            final(self).resize_pending == (old(self).resize_pending
                || event is ResizeFinished),
            final(self).input.mouse.x == (match event {
                Event::PointerMove { x, .. } => x,
                _ => old(self).input.mouse.x,
            }),
            final(self).input.mouse.y == (match event {
                Event::PointerMove { y, .. } => y,
                _ => old(self).input.mouse.y,
            }),
            final(self).input.mouse.left == old(self).input.mouse.left,
            final(self).input.mouse.right == old(self).input.mouse.right,
            final(self).input.keyboard == old(self).input.keyboard,
            final(self).bitmap == old(self).bitmap,
            final(self).last_time_nanos == old(self).last_time_nanos,
    {
        match event {
            Event::Quit => {
                self.terminated = true;
            },
            Event::ResizeFinished => {
                self.resize_pending = true;
            },
            Event::PointerMove { x, y } => {
                self.input.set_mouse_position(x, y);
            },
            Event::Other => {},
        }
    }

    /// Applies a pending resize to the window's current client size and
    /// clears the pending flag; without one, does nothing. Fails exactly when
    /// a resize is pending and the client size is out of range, and then
    /// leaves everything unchanged (the caller treats that as fatal).
    pub fn apply_resize(&mut self, client_width: usize, client_height: usize) -> (r: Result<
        (),
        AllocationError,
    >)
        requires
            old(self).inv(),
            !old(self).terminated,
        ensures
            final(self).inv(),
            r is Ok <==> (old(self).resize_pending ==> dims_ok(
                client_width as int,
                client_height as int,
            )),
            r is Ok && old(self).resize_pending ==> {
                &&& final(self).bitmap.width_spec() == client_width
                &&& final(self).bitmap.height_spec() == client_height
                &&& !final(self).resize_pending
            },
            r is Ok && !old(self).resize_pending ==> *final(self) == *old(self),
            r is Err ==> *final(self) == *old(self),
            final(self).input == old(self).input,
            final(self).terminated == old(self).terminated,
            final(self).last_time_nanos == old(self).last_time_nanos,
    {
        if self.resize_pending {
            match self.bitmap.resize(client_width, client_height) {
                Ok(()) => {
                    self.resize_pending = false;
                    Ok(())
                },
                Err(e) => Err(e),
            }
        } else {
            Ok(())
        }
    }

    /// Advances the frame clock to `now_nanos` and returns the elapsed
    /// nanoseconds since the previous frame: zero on the very first frame,
    /// and zero rather than negative if the clock ever reads backwards.
    pub fn advance_time(&mut self, now_nanos: u64) -> (dt: u64)
        requires
            !old(self).terminated,
        ensures
            dt == (match old(self).last_time_nanos {
                None => 0u64,
                Some(t) => if now_nanos >= t {
                    (now_nanos - t) as u64
                } else {
                    0u64
                },
            }),
            final(self).last_time_nanos == Some(now_nanos),
            final(self).bitmap == old(self).bitmap,
            final(self).input == old(self).input,
            final(self).terminated == old(self).terminated,
            final(self).resize_pending == old(self).resize_pending,
    {
        let dt: u64 = match self.last_time_nanos {
            None => 0,
            Some(t) => {
                if now_nanos >= t {
                    now_nanos - t
                } else {
                    0
                }
            },
        };
        self.last_time_nanos = Some(now_nanos);
        dt
    }

    /// Whether the surface has any area. With a zero-sized client region
    /// (a minimized window) the render callback and the presentation are
    /// skipped for the frame instead of blitting an empty buffer.
    pub fn can_present(&self) -> (r: bool)
        ensures
            r == (self.bitmap.width_spec() > 0 && self.bitmap.height_spec() > 0),
    {
        RawCanvas::width(&self.bitmap) > 0 && RawCanvas::height(&self.bitmap) > 0
    }
}

} // verus!
