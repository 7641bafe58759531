//! Input edge-state: for each tracked button the raw sample of the current
//! frame and of the previous one, so that a press can be detected on exactly
//! the frame where it happens, plus the absolute mouse position.

use vstd::prelude::*;

verus! {

/// One tracked button: the raw sample of the most recent frame (`curr`) and
/// the one before it (`prev`).
#[derive(Clone, Copy, Debug)]
pub struct Button {
    prev: bool,
    curr: bool,
}

impl Button {
    pub closed spec fn spec_prev(self) -> bool {
        self.prev
    }

    pub closed spec fn spec_curr(self) -> bool {
        self.curr
    }

    /// The state after one raw sample: the old current sample becomes the
    /// previous one.
    pub closed spec fn spec_update(self, curr: bool) -> Button {
        Button { prev: self.curr, curr }
    }

    /// The initial state: both samples released.
    pub closed spec fn spec_default() -> Button {
        Button { prev: false, curr: false }
    }

    /// A press edge: released on the previous frame, pressed on this one.
    pub open spec fn spec_just_pressed(self) -> bool {
        !self.spec_prev() && self.spec_curr()
    }

    /// Whether the button was down when it was last sampled.
    pub fn is_pressed(self) -> (r: bool)
        ensures
            r == self.spec_curr(),
    {
        self.curr
    }

    /// Whether the button went from released to pressed at the most recent
    /// sample.
    pub fn just_pressed(self) -> (r: bool)
        ensures
            r == self.spec_just_pressed(),
    {
        !self.prev && self.curr
    }

    /// Feeds one raw sample: the previous state takes the old current value.
    pub fn update(&mut self, curr: bool)
        ensures
            *final(self) == old(self).spec_update(curr),
            final(self).spec_prev() == old(self).spec_curr(),
            final(self).spec_curr() == curr,
    {
        self.prev = self.curr;
        self.curr = curr;
    }
}

impl Default for Button {
    /// Both samples released.
    fn default() -> (r: Self)
        ensures
            r == Button::spec_default(),
            !r.spec_prev(),
            !r.spec_curr(),
    {
        Button { prev: false, curr: false }
    }
}

/// Edge detection holds exactly once per press: feeding a pressed sample
/// reports a press edge if and only if the button was not already pressed,
/// and a second pressed sample in a row never reports one.
pub proof fn lemma_just_pressed_edge(b: Button)
    ensures
        b.spec_update(true).spec_just_pressed() == !b.spec_curr(),
        !b.spec_update(true).spec_update(true).spec_just_pressed(),
        !b.spec_update(false).spec_just_pressed(),
{
}

/// The default button is fully released: neither sample holds.
pub proof fn lemma_button_default_released()
    ensures
        !Button::spec_default().spec_prev(),
        !Button::spec_default().spec_curr(),
{
}

/// Absolute pointer position and the two mouse buttons.
#[derive(Clone, Copy, Debug)]
pub struct Mouse {
    pub x: usize,
    pub y: usize,
    pub left: Button,
    pub right: Button,
}

impl Default for Mouse {
    /// Position at the origin, both buttons released.
    fn default() -> (r: Self)
        ensures
            r.x == 0,
            r.y == 0,
            r.left == Button::spec_default(),
            r.right == Button::spec_default(),
    {
        Mouse { x: 0, y: 0, left: Button::default(), right: Button::default() }
    }
}

/// The four tracked keys.
#[derive(Clone, Copy, Debug)]
pub struct Keyboard {
    pub left: Button,
    pub right: Button,
    pub down: Button,
    pub up: Button,
}

impl Default for Keyboard {
    /// All keys released.
    fn default() -> (r: Self)
        ensures
            r.left == Button::spec_default(),
            r.right == Button::spec_default(),
            r.down == Button::spec_default(),
            r.up == Button::spec_default(),
    {
        Keyboard {
            left: Button::default(),
            right: Button::default(),
            down: Button::default(),
            up: Button::default(),
        }
    }
}

/// Everything the render callback may ask of the input devices, updated once
/// per frame from raw platform state (the mouse position asynchronously, as
/// pointer-move events are drained).
#[derive(Clone, Copy, Debug)]
pub struct Input {
    pub mouse: Mouse,
    pub keyboard: Keyboard,
}

impl Input {
    /// Feeds the six raw per-frame samples into the tracked buttons. The
    /// mouse position is untouched: it is driven by pointer-move events, not
    /// by the per-frame sampling.
    pub fn update_buttons(
        &mut self,
        mouse_left: bool,
        mouse_right: bool,
        key_left: bool,
        key_right: bool,
        key_down: bool,
        key_up: bool,
    )
        ensures
            final(self).mouse.left == old(self).mouse.left.spec_update(mouse_left),
            final(self).mouse.right == old(self).mouse.right.spec_update(mouse_right),
            final(self).keyboard.left == old(self).keyboard.left.spec_update(key_left),
            final(self).keyboard.right == old(self).keyboard.right.spec_update(key_right),
            final(self).keyboard.down == old(self).keyboard.down.spec_update(key_down),
            final(self).keyboard.up == old(self).keyboard.up.spec_update(key_up),
            final(self).mouse.x == old(self).mouse.x,
            final(self).mouse.y == old(self).mouse.y,
    {
        self.mouse.left.update(mouse_left);
        self.mouse.right.update(mouse_right);
        self.keyboard.left.update(key_left);
        self.keyboard.right.update(key_right);
        self.keyboard.down.update(key_down);
        self.keyboard.up.update(key_up);
    }

    /// Overwrites the absolute pointer position; the buttons are untouched.
    /// Called once per drained pointer-move event, so of several moves in one
    /// frame only the last value is seen by the callback.
    pub fn set_mouse_position(&mut self, x: usize, y: usize)
        ensures
            final(self).mouse.x == x,
            final(self).mouse.y == y,
            final(self).mouse.left == old(self).mouse.left,
            final(self).mouse.right == old(self).mouse.right,
            final(self).keyboard == old(self).keyboard,
    {
        self.mouse.x = x;
        self.mouse.y = y;
    }
}

impl Default for Input {
    /// Pointer at the origin, every button released.
    fn default() -> (r: Self)
        ensures
            r.mouse.x == 0,
            r.mouse.y == 0,
            r.mouse.left == Button::spec_default(),
            r.mouse.right == Button::spec_default(),
            r.keyboard.left == Button::spec_default(),
            r.keyboard.right == Button::spec_default(),
            r.keyboard.down == Button::spec_default(),
            r.keyboard.up == Button::spec_default(),
    {
        Input { mouse: Mouse::default(), keyboard: Keyboard::default() }
    }
}

/// The platform reports a key or mouse button as currently held down through
/// a signed 16-bit state word whose most significant bit is set; any other
/// word means it is up.
pub fn key_state_is_down(state: i16) -> (r: bool)
    ensures
        r == (state < 0),
{
    state != 0 && state < 0
}

} // verus!
