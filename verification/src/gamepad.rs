//! The virtual controller's snapshot: a 16-bit button mask, two triggers and
//! two sticks.

use vstd::prelude::*;

verus! {

/// One button of the virtual controller.
#[derive(Clone, Copy, Debug, PartialEq, Eq, Structural)]
pub enum PadButton {
    Up,
    Down,
    Left,
    Right,
    Start,
    Back,
    LeftShoulder,
    RightShoulder,
    A,
    B,
    X,
    Y,
}

impl PadButton {
    /// The bit that stands for this button in the controller's button word.
    pub open spec fn spec_mask(self) -> u16 {
        match self {
            PadButton::Up => 0x0001,
            PadButton::Down => 0x0002,
            PadButton::Left => 0x0004,
            PadButton::Right => 0x0008,
            PadButton::Start => 0x0010,
            PadButton::Back => 0x0020,
            PadButton::LeftShoulder => 0x0100,
            PadButton::RightShoulder => 0x0200,
            PadButton::A => 0x1000,
            PadButton::B => 0x2000,
            PadButton::X => 0x4000,
            PadButton::Y => 0x8000,
        }
    }

    #[verifier::when_used_as_spec(spec_mask)]
    pub fn mask(self) -> (m: u16)
        ensures
            m == self.spec_mask(),
    {
        match self {
            PadButton::Up => 0x0001,
            PadButton::Down => 0x0002,
            PadButton::Left => 0x0004,
            PadButton::Right => 0x0008,
            PadButton::Start => 0x0010,
            PadButton::Back => 0x0020,
            PadButton::LeftShoulder => 0x0100,
            PadButton::RightShoulder => 0x0200,
            PadButton::A => 0x1000,
            PadButton::B => 0x2000,
            PadButton::X => 0x4000,
            PadButton::Y => 0x8000,
        }
    }
}

/// Which of the two triggers or sticks.
#[derive(Clone, Copy, Debug, PartialEq, Eq, Structural)]
pub enum Side {
    Left,
    Right,
}

/// `mask` with the bits of `bit` set and the others as they were.
pub open spec fn with_bit_set(mask: u16, bit: u16) -> u16 {
    mask | bit
}

/// `mask` with the bits of `bit` cleared and the others as they were.
pub open spec fn with_bit_cleared(mask: u16, bit: u16) -> u16 {
    mask & !bit
}

/// The whole state of the virtual controller. The controller takes no
/// partial update: what is sent to it is always one of these.
#[derive(Clone, Copy, Debug, PartialEq, Eq, Structural)]
pub struct GamepadState {
    pub buttons: u16,
    pub left_trigger: u8,
    pub right_trigger: u8,
    pub thumb_lx: i16,
    pub thumb_ly: i16,
    pub thumb_rx: i16,
    pub thumb_ry: i16,
}

impl GamepadState {
    /// No button held, triggers released, sticks centred.
    pub open spec fn neutral() -> GamepadState {
        GamepadState {
            buttons: 0,
            left_trigger: 0,
            right_trigger: 0,
            thumb_lx: 0,
            thumb_ly: 0,
            thumb_rx: 0,
            thumb_ry: 0,
        }
    }

    /// The button's bit is set.
    pub open spec fn holds(self, button: PadButton) -> bool {
        self.buttons & button.spec_mask() != 0
    }

    /// The state with the button's bit set or cleared, and all else as it
    /// was.
    pub open spec fn with_button(self, button: PadButton, pressed: bool) -> GamepadState {
        GamepadState {
            buttons: if pressed {
                with_bit_set(self.buttons, button.spec_mask())
            } else {
                with_bit_cleared(self.buttons, button.spec_mask())
            },
            ..self
        }
    }

    /// The state with one trigger at `level`, and all else as it was.
    pub open spec fn with_trigger(self, side: Side, level: u8) -> GamepadState {
        match side {
            Side::Left => GamepadState { left_trigger: level, ..self },
            Side::Right => GamepadState { right_trigger: level, ..self },
        }
    }

    /// The state with one stick at `x` and `y`, and all else as it was.
    pub open spec fn with_stick(self, side: Side, x: i16, y: i16) -> GamepadState {
        match side {
            Side::Left => GamepadState { thumb_lx: x, thumb_ly: y, ..self },
            Side::Right => GamepadState { thumb_rx: x, thumb_ry: y, ..self },
        }
    }

    pub fn new() -> (state: GamepadState)
        ensures
            state == GamepadState::neutral(),
    {
        GamepadState {
            buttons: 0,
            left_trigger: 0,
            right_trigger: 0,
            thumb_lx: 0,
            thumb_ly: 0,
            thumb_rx: 0,
            thumb_ry: 0,
        }
    }

    pub fn is_pressed(&self, button: PadButton) -> (held: bool)
        ensures
            held == self.holds(button),
    {
        self.buttons & button.mask() != 0
    }

    /// Sets the button's bit.
    pub fn press(&mut self, button: PadButton)
        ensures
            *final(self) == old(self).with_button(button, true),
    {
        self.buttons = self.buttons | button.mask();
    }

    /// Clears the button's bit.
    pub fn release(&mut self, button: PadButton)
        ensures
            *final(self) == old(self).with_button(button, false),
    {
        self.buttons = self.buttons & !button.mask();
    }

    /// Sets or clears the button's bit; no other bit changes.
    pub fn set_button(&mut self, button: PadButton, pressed: bool)
        ensures
            *final(self) == old(self).with_button(button, pressed),
    {
        if pressed {
            self.press(button);
        } else {
            self.release(button);
        }
    }

    pub fn set_trigger(&mut self, side: Side, level: u8)
        ensures
            *final(self) == old(self).with_trigger(side, level),
    {
        match side {
            Side::Left => {
                self.left_trigger = level;
            },
            Side::Right => {
                self.right_trigger = level;
            },
        }
    }

    pub fn set_stick(&mut self, side: Side, x: i16, y: i16)
        ensures
            *final(self) == old(self).with_stick(side, x, y),
    {
        match side {
            Side::Left => {
                self.thumb_lx = x;
                self.thumb_ly = y;
            },
            Side::Right => {
                self.thumb_rx = x;
                self.thumb_ry = y;
            },
        }
    }
}

impl PadButton {
    /// The position of the button's bit in the button word.
    pub open spec fn bit_index(self) -> u16 {
        match self {
            PadButton::Up => 0,
            PadButton::Down => 1,
            PadButton::Left => 2,
            PadButton::Right => 3,
            PadButton::Start => 4,
            PadButton::Back => 5,
            PadButton::LeftShoulder => 8,
            PadButton::RightShoulder => 9,
            PadButton::A => 12,
            PadButton::B => 13,
            PadButton::X => 14,
            PadButton::Y => 15,
        }
    }
}

/// Each button has one bit of its own.
pub proof fn masks_are_single_bits(a: PadButton, b: PadButton)
    ensures
        a.spec_mask() == 1u16 << a.bit_index(),
        a.spec_mask() != 0,
        a != b ==> a.spec_mask() & b.spec_mask() == 0,
{
    assert(1u16 << 0u16 == 0x0001 && 1u16 << 1u16 == 0x0002 && 1u16 << 2u16 == 0x0004 && 1u16
        << 3u16 == 0x0008 && 1u16 << 4u16 == 0x0010 && 1u16 << 5u16 == 0x0020 && 1u16 << 8u16
        == 0x0100 && 1u16 << 9u16 == 0x0200 && 1u16 << 12u16 == 0x1000 && 1u16 << 13u16 == 0x2000
        && 1u16 << 14u16 == 0x4000 && 1u16 << 15u16 == 0x8000) by (bit_vector);
    let i = a.bit_index();
    let j = b.bit_index();
    assert(b.spec_mask() == 1u16 << j);
    assert(i < 16 && j < 16 && i != j ==> (1u16 << i) & (1u16 << j) == 0) by (bit_vector);
}

/// Pressing a button that is not held and then releasing it gives the mask
/// back as it was.
pub proof fn press_then_release_restores(state: GamepadState, button: PadButton)
    requires
        !state.holds(button),
    ensures
        state.with_button(button, true).with_button(button, false) == state,
{
    let m = state.buttons;
    let b = button.spec_mask();
    assert(m & b == 0 ==> (m | b) & !b == m) by (bit_vector);
}

/// Pressing and then releasing a button leaves what releasing alone leaves,
/// whether or not the button was held before.
pub proof fn press_then_release_is_release(state: GamepadState, button: PadButton)
    ensures
        state.with_button(button, true).with_button(button, false) == state.with_button(
            button,
            false,
        ),
        !state.with_button(button, false).holds(button),
{
    let m = state.buttons;
    let b = button.spec_mask();
    assert((m | b) & !b == m & !b) by (bit_vector);
    assert((m & !b) & b == 0) by (bit_vector);
}

/// Pressing a button twice is pressing it once.
pub proof fn press_is_idempotent(state: GamepadState, button: PadButton)
    ensures
        state.with_button(button, true).with_button(button, true) == state.with_button(
            button,
            true,
        ),
        state.with_button(button, true).holds(button),
{
    let m = state.buttons;
    let b = button.spec_mask();
    masks_are_single_bits(button, button);
    assert((m | b) | b == m | b) by (bit_vector);
    assert(b != 0 ==> (m | b) & b != 0) by (bit_vector);
}

/// Pressing or releasing one button leaves every other button as it was.
pub proof fn other_buttons_are_untouched(
    state: GamepadState,
    button: PadButton,
    pressed: bool,
    other: PadButton,
)
    requires
        other != button,
    ensures
        state.with_button(button, pressed).holds(other) == state.holds(other),
{
    let m = state.buttons;
    let b = button.spec_mask();
    let o = other.spec_mask();
    masks_are_single_bits(button, other);
    assert(b & o == 0 ==> (m | b) & o == m & o) by (bit_vector);
    assert(b & o == 0 ==> (m & !b) & o == m & o) by (bit_vector);
}

} // verus!
