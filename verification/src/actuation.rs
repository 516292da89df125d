//! From decoded commands to what is done with them: pointer actions for the
//! operating system, and the controller snapshot to push after each
//! controller command.

use crate::binary32::{
    beyond_tenth, exceeds_tenth, is_positive, neg_tenth_i32, neg_tenth_to_i32, positive,
    scaled_256_to_u8, scaled_32767_to_i16, scaled_neg_32767_to_i16, times_256_u8,
    times_32767_i16, times_neg_32767_i16, to_i32, truncated_i32,
};
use crate::codec::{
    decode, decode_text, decoded, decoded_text, DecodeError, InputCommand, InputType,
};
use crate::gamepad::{GamepadState, PadButton, Side};
use vstd::prelude::*;

verus! {

#[derive(Clone, Copy, Debug, PartialEq, Eq, Structural)]
pub enum PointerButton {
    Left,
    Right,
}

#[derive(Clone, Copy, Debug, PartialEq, Eq, Structural)]
pub enum ButtonMotion {
    Press,
    Release,
    Click,
}

#[derive(Clone, Copy, Debug, PartialEq, Eq, Structural)]
pub enum ScrollAxis {
    Horizontal,
    Vertical,
}

/// One call on the pointer of the operating system.
#[derive(Clone, Copy, Debug, PartialEq, Eq, Structural)]
pub enum PointerAction {
    /// Move to an absolute screen position.
    MoveTo { x: i32, y: i32 },
    Button { button: PointerButton, motion: ButtonMotion },
    Scroll { amount: i32, axis: ScrollAxis },
}

/// What kind of command a discriminant is.
#[allow(inconsistent_fields)]
#[derive(Clone, Copy, Debug, PartialEq, Eq, Structural)]
pub enum CommandClass {
    /// Move the pointer to the position in the two fields.
    Move,
    /// Move the pointer there, then act on a button.
    MoveAndButton { button: PointerButton, motion: ButtonMotion },
    /// Scroll by the two fields, each along its own axis.
    Scroll,
    /// Press or release a controller button, by the sign of the first field.
    PadButton { button: PadButton },
    /// Set a trigger from the first field.
    Trigger { side: Side },
    /// Set a stick from the two fields.
    Stick { side: Side },
}

/// The kind of each command. The shoulder buttons are `L1` and `R1`, the
/// triggers `L2` and `R2`; `Select` is the controller's back button.
pub open spec fn class_of(t: InputType) -> CommandClass {
    match t {
        InputType::CursorLeftDown => CommandClass::MoveAndButton {
            button: PointerButton::Left,
            motion: ButtonMotion::Press,
        },
        InputType::CursorLeftUp => CommandClass::MoveAndButton {
            button: PointerButton::Left,
            motion: ButtonMotion::Release,
        },
        InputType::CursorLeftClick => CommandClass::MoveAndButton {
            button: PointerButton::Left,
            motion: ButtonMotion::Click,
        },
        InputType::CursorRightClick => CommandClass::MoveAndButton {
            button: PointerButton::Right,
            motion: ButtonMotion::Click,
        },
        InputType::CursorMove => CommandClass::Move,
        InputType::CursorScroll => CommandClass::Scroll,
        InputType::GamepadButtonX => CommandClass::PadButton { button: PadButton::X },
        InputType::GamepadButtonY => CommandClass::PadButton { button: PadButton::Y },
        InputType::GamepadButtonA => CommandClass::PadButton { button: PadButton::A },
        InputType::GamepadButtonB => CommandClass::PadButton { button: PadButton::B },
        InputType::GamepadButtonL1 => CommandClass::PadButton { button: PadButton::LeftShoulder },
        InputType::GamepadButtonR1 => CommandClass::PadButton { button: PadButton::RightShoulder },
        InputType::GamepadButtonL2 => CommandClass::Trigger { side: Side::Left },
        InputType::GamepadButtonR2 => CommandClass::Trigger { side: Side::Right },
        InputType::GamepadButtonUp => CommandClass::PadButton { button: PadButton::Up },
        InputType::GamepadButtonDown => CommandClass::PadButton { button: PadButton::Down },
        InputType::GamepadButtonLeft => CommandClass::PadButton { button: PadButton::Left },
        InputType::GamepadButtonRight => CommandClass::PadButton { button: PadButton::Right },
        InputType::GamepadLeftStick => CommandClass::Stick { side: Side::Left },
        InputType::GamepadRightStick => CommandClass::Stick { side: Side::Right },
        InputType::GamepadButtonStart => CommandClass::PadButton { button: PadButton::Start },
        InputType::GamepadButtonSelect => CommandClass::PadButton { button: PadButton::Back },
    }
}

/// The command changes the controller, so the controller is sent its state.
pub open spec fn is_gamepad_class(t: InputType) -> bool {
    class_of(t) is PadButton || class_of(t) is Trigger || class_of(t) is Stick
}

/// The scroll along one axis that a field asks for: none inside the dead
/// zone of a tenth, else a tenth of the field against its sign.
pub open spec fn scroll_actions(bits: u32, axis: ScrollAxis) -> Seq<PointerAction> {
    if exceeds_tenth(bits) {
        seq![PointerAction::Scroll { amount: neg_tenth_i32(bits) as i32, axis }]
    } else {
        Seq::empty()
    }
}

/// The pointer actions of a command, in the order in which they are made.
/// A move comes before the button action, so that the action lands where
/// the command points.
pub open spec fn pointer_actions(command: InputCommand) -> Seq<PointerAction> {
    let target = PointerAction::MoveTo {
        x: truncated_i32(command.data0) as i32,
        y: truncated_i32(command.data1) as i32,
    };
    match class_of(command.input_type) {
        CommandClass::Move => seq![target],
        CommandClass::MoveAndButton { button, motion } => seq![
            target,
            PointerAction::Button { button, motion },
        ],
        CommandClass::Scroll => scroll_actions(command.data0, ScrollAxis::Horizontal)
            + scroll_actions(command.data1, ScrollAxis::Vertical),
        _ => Seq::empty(),
    }
}

/// The controller's state after a command. A button command sets or clears
/// one bit, a trigger or stick command overwrites its own values, and a
/// pointer command changes nothing. A stick's vertical axis is inverted.
pub open spec fn next_state(state: GamepadState, command: InputCommand) -> GamepadState {
    match class_of(command.input_type) {
        CommandClass::PadButton { button } => state.with_button(
            button,
            is_positive(command.data0),
        ),
        CommandClass::Trigger { side } => state.with_trigger(
            side,
            times_256_u8(command.data0) as u8,
        ),
        CommandClass::Stick { side } => state.with_stick(
            side,
            times_32767_i16(command.data0) as i16,
            times_neg_32767_i16(command.data1) as i16,
        ),
        _ => state,
    }
}

/// What one command has the host do.
pub struct Actuation {
    /// Calls on the pointer, in order.
    pub pointer: Vec<PointerAction>,
    /// The state to send to the controller, whole, if the command was one
    /// for the controller.
    pub push: Option<GamepadState>,
}

/// An `Actuation` with its pointer calls as a sequence.
pub struct ActuationView {
    pub pointer: Seq<PointerAction>,
    pub push: Option<GamepadState>,
}

impl View for Actuation {
    type V = ActuationView;

    open spec fn view(&self) -> ActuationView {
        ActuationView { pointer: self.pointer@, push: self.push }
    }
}

/// What a command has the host do when the controller is in `state`.
pub open spec fn actuation_of(state: GamepadState, command: InputCommand) -> ActuationView {
    ActuationView {
        pointer: pointer_actions(command),
        push: if is_gamepad_class(command.input_type) {
            Some(next_state(state, command))
        } else {
            None
        },
    }
}

/// The kind of a command.
pub fn classify(t: InputType) -> (class: CommandClass)
    ensures
        class == class_of(t),
{
    match t {
        InputType::CursorLeftDown => CommandClass::MoveAndButton {
            button: PointerButton::Left,
            motion: ButtonMotion::Press,
        },
        InputType::CursorLeftUp => CommandClass::MoveAndButton {
            button: PointerButton::Left,
            motion: ButtonMotion::Release,
        },
        InputType::CursorLeftClick => CommandClass::MoveAndButton {
            button: PointerButton::Left,
            motion: ButtonMotion::Click,
        },
        InputType::CursorRightClick => CommandClass::MoveAndButton {
            button: PointerButton::Right,
            motion: ButtonMotion::Click,
        },
        InputType::CursorMove => CommandClass::Move,
        InputType::CursorScroll => CommandClass::Scroll,
        InputType::GamepadButtonX => CommandClass::PadButton { button: PadButton::X },
        InputType::GamepadButtonY => CommandClass::PadButton { button: PadButton::Y },
        InputType::GamepadButtonA => CommandClass::PadButton { button: PadButton::A },
        InputType::GamepadButtonB => CommandClass::PadButton { button: PadButton::B },
        InputType::GamepadButtonL1 => CommandClass::PadButton { button: PadButton::LeftShoulder },
        InputType::GamepadButtonR1 => CommandClass::PadButton { button: PadButton::RightShoulder },
        InputType::GamepadButtonL2 => CommandClass::Trigger { side: Side::Left },
        InputType::GamepadButtonR2 => CommandClass::Trigger { side: Side::Right },
        InputType::GamepadButtonUp => CommandClass::PadButton { button: PadButton::Up },
        InputType::GamepadButtonDown => CommandClass::PadButton { button: PadButton::Down },
        InputType::GamepadButtonLeft => CommandClass::PadButton { button: PadButton::Left },
        InputType::GamepadButtonRight => CommandClass::PadButton { button: PadButton::Right },
        InputType::GamepadLeftStick => CommandClass::Stick { side: Side::Left },
        InputType::GamepadRightStick => CommandClass::Stick { side: Side::Right },
        InputType::GamepadButtonStart => CommandClass::PadButton { button: PadButton::Start },
        InputType::GamepadButtonSelect => CommandClass::PadButton { button: PadButton::Back },
    }
}

/// Appends the scroll that `bits` asks for along `axis`, if any.
fn push_scroll(actions: &mut Vec<PointerAction>, bits: u32, axis: ScrollAxis)
    ensures
        final(actions)@ == old(actions)@ + scroll_actions(bits, axis),
{
    if beyond_tenth(bits) {
        actions.push(PointerAction::Scroll { amount: neg_tenth_to_i32(bits), axis });
    }
    assert(actions@ =~= old(actions)@ + scroll_actions(bits, axis));
}

/// Holds the controller's state and turns commands into actions.
///
/// The state is the source of truth: it does not depend on whether an
/// earlier push reached the controller, and each push carries all of it.
pub struct ActuationDispatcher {
    pub state: GamepadState,
}

impl ActuationDispatcher {
    /// A dispatcher over a controller at rest.
    pub fn new() -> (dispatcher: ActuationDispatcher)
        ensures
            dispatcher.state == GamepadState::neutral(),
    {
        ActuationDispatcher { state: GamepadState::new() }
    }

    /// The controller's current state.
    pub fn snapshot(&self) -> (state: GamepadState)
        ensures
            state == self.state,
    {
        self.state
    }

    /// Applies one command: updates the state and says what to do.
    pub fn apply(&mut self, command: InputCommand) -> (actuation: Actuation)
        ensures
            final(self).state == next_state(old(self).state, command),
            actuation@ == actuation_of(old(self).state, command),
    {
        let mut pointer: Vec<PointerAction> = Vec::new();
        let mut push: Option<GamepadState> = None;
        match classify(command.input_type) {
            CommandClass::Move => {
                pointer.push(
                    PointerAction::MoveTo { x: to_i32(command.data0), y: to_i32(command.data1) },
                );
            },
            CommandClass::MoveAndButton { button, motion } => {
                pointer.push(
                    PointerAction::MoveTo { x: to_i32(command.data0), y: to_i32(command.data1) },
                );
                pointer.push(PointerAction::Button { button, motion });
            },
            CommandClass::Scroll => {
                push_scroll(&mut pointer, command.data0, ScrollAxis::Horizontal);
                push_scroll(&mut pointer, command.data1, ScrollAxis::Vertical);
            },
            CommandClass::PadButton { button } => {
                self.state.set_button(button, positive(command.data0));
                push = Some(self.state);
            },
            CommandClass::Trigger { side } => {
                self.state.set_trigger(side, scaled_256_to_u8(command.data0));
                push = Some(self.state);
            },
            CommandClass::Stick { side } => {
                self.state.set_stick(
                    side,
                    scaled_32767_to_i16(command.data0),
                    scaled_neg_32767_to_i16(command.data1),
                );
                push = Some(self.state);
            },
        }
        assert(pointer@ =~= pointer_actions(command));
        Actuation { pointer, push }
    }

    /// Decodes one packet and applies it. A packet that does not decode
    /// changes nothing and asks for nothing.
    pub fn handle_packet(&mut self, packet: &[u8]) -> (r: Result<Actuation, DecodeError>)
        ensures
            match decoded(packet@) {
                Ok(command) => r is Ok && r->Ok_0@ == actuation_of(old(self).state, command)
                    && final(self).state == next_state(old(self).state, command),
                Err(e) => r is Err && r->Err_0 == e && final(self).state == old(self).state,
            },
    {
        match decode(packet) {
            Ok(command) => Ok(self.apply(command)),
            Err(e) => Err(e),
        }
    }

    /// Decodes the text form of a command and applies it. A text that is
    /// no command changes nothing and asks for nothing.
    pub fn handle_text(&mut self, text: &str) -> (r: Result<Actuation, DecodeError>)
        ensures
            match decoded_text(text@) {
                Ok(command) => r is Ok && r->Ok_0@ == actuation_of(old(self).state, command)
                    && final(self).state == next_state(old(self).state, command),
                Err(e) => r is Err && r->Err_0 == e && final(self).state == old(self).state,
            },
    {
        match decode_text(text) {
            Ok(command) => Ok(self.apply(command)),
            Err(e) => Err(e),
        }
    }
}

/// A pointer command leaves the controller as it is and pushes nothing.
pub proof fn pointer_commands_leave_the_controller(state: GamepadState, command: InputCommand)
    requires
        !is_gamepad_class(command.input_type),
    ensures
        next_state(state, command) == state,
        actuation_of(state, command).push is None,
{
}

/// A controller command touches the pointer not at all and pushes the
/// whole new state.
pub proof fn controller_commands_push_the_new_state(state: GamepadState, command: InputCommand)
    requires
        is_gamepad_class(command.input_type),
    ensures
        actuation_of(state, command).pointer.len() == 0,
        actuation_of(state, command).push == Some(next_state(state, command)),
{
}

} // verus!
