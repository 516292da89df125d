//! The input wire format: one discriminant byte, then two 32-bit fields,
//! least significant byte first. Nine bytes in all. Beside it, the same
//! commands as JSON text.

use crate::binary64::{narrow, narrowed};
use crate::json::{
    has_member, number_member, parse, parsed, read_number, read_presence, read_unsigned,
    unsigned_member,
};
use byteorder::ByteOrder;
use vstd::prelude::*;
use vstd::slice::slice_subrange;

verus! {

/// The length of one input packet.
pub const PACKET_LENGTH: usize = 9;

/// The number of known discriminants; they are the numbers below it.
pub const INPUT_TYPE_COUNT: u8 = 22;

/// What an input command asks for.
#[derive(Clone, Copy, Debug, PartialEq, Eq, Structural)]
pub enum InputType {
    CursorLeftDown,
    CursorLeftUp,
    CursorLeftClick,
    CursorRightClick,
    CursorMove,
    CursorScroll,
    GamepadButtonX,
    GamepadButtonY,
    GamepadButtonA,
    GamepadButtonB,
    GamepadButtonL1,
    GamepadButtonR1,
    GamepadButtonL2,
    GamepadButtonR2,
    GamepadButtonUp,
    GamepadButtonDown,
    GamepadButtonLeft,
    GamepadButtonRight,
    GamepadLeftStick,
    GamepadRightStick,
    GamepadButtonStart,
    GamepadButtonSelect,
}

/// Why a packet was not decoded.
#[derive(Clone, Copy, Debug, PartialEq, Eq, Structural)]
pub enum DecodeError {
    /// The packet is not nine bytes long.
    MalformedPacket { length: usize },
    /// The discriminant is no known one.
    UnknownCommand { discriminant: u8 },
    /// The text is not JSON, or lacks a member of a command.
    MalformedText,
}

/// A decoded command: what is asked for, and the two fields as they came.
/// What the fields mean depends on the command.
#[derive(Clone, Copy, Debug, PartialEq, Eq, Structural)]
pub struct InputCommand {
    pub input_type: InputType,
    pub data0: u32,
    pub data1: u32,
}

impl InputType {
    /// The byte that stands for a command on the wire.
    pub open spec fn discriminant(self) -> u8 {
        match self {
            InputType::CursorLeftDown => 0,
            InputType::CursorLeftUp => 1,
            InputType::CursorLeftClick => 2,
            InputType::CursorRightClick => 3,
            InputType::CursorMove => 4,
            InputType::CursorScroll => 5,
            InputType::GamepadButtonX => 6,
            InputType::GamepadButtonY => 7,
            InputType::GamepadButtonA => 8,
            InputType::GamepadButtonB => 9,
            InputType::GamepadButtonL1 => 10,
            InputType::GamepadButtonR1 => 11,
            InputType::GamepadButtonL2 => 12,
            InputType::GamepadButtonR2 => 13,
            InputType::GamepadButtonUp => 14,
            InputType::GamepadButtonDown => 15,
            InputType::GamepadButtonLeft => 16,
            InputType::GamepadButtonRight => 17,
            InputType::GamepadLeftStick => 18,
            InputType::GamepadRightStick => 19,
            InputType::GamepadButtonStart => 20,
            InputType::GamepadButtonSelect => 21,
        }
    }

    /// The command that a byte stands for, if it stands for one.
    pub open spec fn of_discriminant(value: u8) -> Option<InputType> {
        match value {
            0 => Some(InputType::CursorLeftDown),
            1 => Some(InputType::CursorLeftUp),
            2 => Some(InputType::CursorLeftClick),
            3 => Some(InputType::CursorRightClick),
            4 => Some(InputType::CursorMove),
            5 => Some(InputType::CursorScroll),
            6 => Some(InputType::GamepadButtonX),
            7 => Some(InputType::GamepadButtonY),
            8 => Some(InputType::GamepadButtonA),
            9 => Some(InputType::GamepadButtonB),
            10 => Some(InputType::GamepadButtonL1),
            11 => Some(InputType::GamepadButtonR1),
            12 => Some(InputType::GamepadButtonL2),
            13 => Some(InputType::GamepadButtonR2),
            14 => Some(InputType::GamepadButtonUp),
            15 => Some(InputType::GamepadButtonDown),
            16 => Some(InputType::GamepadButtonLeft),
            17 => Some(InputType::GamepadButtonRight),
            18 => Some(InputType::GamepadLeftStick),
            19 => Some(InputType::GamepadRightStick),
            20 => Some(InputType::GamepadButtonStart),
            21 => Some(InputType::GamepadButtonSelect),
            _ => None,
        }
    }

    /// The command that a byte stands for, or `UnknownCommand` with the byte.
    pub fn try_from(value: u8) -> (r: Result<InputType, DecodeError>)
        ensures
            r == match InputType::of_discriminant(value) {
                Some(t) => Ok::<InputType, DecodeError>(t),
                None => Err(DecodeError::UnknownCommand { discriminant: value }),
            },
            r is Ok <==> value < INPUT_TYPE_COUNT,
    {
        match value {
            0 => Ok(InputType::CursorLeftDown),
            1 => Ok(InputType::CursorLeftUp),
            2 => Ok(InputType::CursorLeftClick),
            3 => Ok(InputType::CursorRightClick),
            4 => Ok(InputType::CursorMove),
            5 => Ok(InputType::CursorScroll),
            6 => Ok(InputType::GamepadButtonX),
            7 => Ok(InputType::GamepadButtonY),
            8 => Ok(InputType::GamepadButtonA),
            9 => Ok(InputType::GamepadButtonB),
            10 => Ok(InputType::GamepadButtonL1),
            11 => Ok(InputType::GamepadButtonR1),
            12 => Ok(InputType::GamepadButtonL2),
            13 => Ok(InputType::GamepadButtonR2),
            14 => Ok(InputType::GamepadButtonUp),
            15 => Ok(InputType::GamepadButtonDown),
            16 => Ok(InputType::GamepadButtonLeft),
            17 => Ok(InputType::GamepadButtonRight),
            18 => Ok(InputType::GamepadLeftStick),
            19 => Ok(InputType::GamepadRightStick),
            20 => Ok(InputType::GamepadButtonStart),
            21 => Ok(InputType::GamepadButtonSelect),
            _ => Err(DecodeError::UnknownCommand { discriminant: value }),
        }
    }

    /// The byte that stands for this command on the wire.
    pub fn to_u8(self) -> (value: u8)
        ensures
            value == self.discriminant(),
    {
        match self {
            InputType::CursorLeftDown => 0,
            InputType::CursorLeftUp => 1,
            InputType::CursorLeftClick => 2,
            InputType::CursorRightClick => 3,
            InputType::CursorMove => 4,
            InputType::CursorScroll => 5,
            InputType::GamepadButtonX => 6,
            InputType::GamepadButtonY => 7,
            InputType::GamepadButtonA => 8,
            InputType::GamepadButtonB => 9,
            InputType::GamepadButtonL1 => 10,
            InputType::GamepadButtonR1 => 11,
            InputType::GamepadButtonL2 => 12,
            InputType::GamepadButtonR2 => 13,
            InputType::GamepadButtonUp => 14,
            InputType::GamepadButtonDown => 15,
            InputType::GamepadButtonLeft => 16,
            InputType::GamepadButtonRight => 17,
            InputType::GamepadLeftStick => 18,
            InputType::GamepadRightStick => 19,
            InputType::GamepadButtonStart => 20,
            InputType::GamepadButtonSelect => 21,
        }
    }
}

/// Every command is the one that its own discriminant stands for, and the
/// discriminants are the numbers below `INPUT_TYPE_COUNT`.
pub proof fn discriminant_round_trip(t: InputType)
    ensures
        InputType::of_discriminant(t.discriminant()) == Some(t),
        t.discriminant() < INPUT_TYPE_COUNT,
{
}

/// A byte stands for a command exactly when it is below `INPUT_TYPE_COUNT`,
/// and then it is that command's discriminant.
pub proof fn known_discriminants(value: u8)
    ensures
        InputType::of_discriminant(value) is Some <==> value < INPUT_TYPE_COUNT,
        InputType::of_discriminant(value) matches Some(t) ==> t.discriminant() == value,
{
}

/// The number that four bytes hold, least significant byte first.
pub open spec fn le_u32(b: Seq<u8>) -> u32
    recommends
        b.len() >= 4,
{
    (b[0] as int + b[1] as int * 0x100 + b[2] as int * 0x1_0000 + b[3] as int * 0x100_0000) as u32
}

/// What a packet decodes to.
pub open spec fn decoded(packet: Seq<u8>) -> Result<InputCommand, DecodeError> {
    if packet.len() != PACKET_LENGTH {
        Err(DecodeError::MalformedPacket { length: packet.len() as usize })
    } else {
        match InputType::of_discriminant(packet[0]) {
            None => Err(DecodeError::UnknownCommand { discriminant: packet[0] }),
            Some(t) => Ok(
                InputCommand {
                    input_type: t,
                    data0: le_u32(packet.subrange(1, 5)),
                    data1: le_u32(packet.subrange(5, 9)),
                },
            ),
        }
    }
}

/// Decoding is a function of the bytes: the same bytes always give the same
/// command, or the same refusal.
pub proof fn equal_bytes_decode_alike(a: Seq<u8>, b: Seq<u8>)
    requires
        a =~= b,
    ensures
        decoded(a) == decoded(b),
{
}

/// Which packets are refused, and how: every buffer of another length than
/// nine as malformed, and every buffer of nine bytes whose first is no
/// discriminant as unknown. All others decode.
pub proof fn refusals(packet: Seq<u8>)
    ensures
        packet.len() != PACKET_LENGTH ==> decoded(packet) == Err::<InputCommand, DecodeError>(
            DecodeError::MalformedPacket { length: packet.len() as usize },
        ),
        packet.len() == PACKET_LENGTH && packet[0] >= INPUT_TYPE_COUNT ==> decoded(packet) == Err::<
            InputCommand,
            DecodeError,
        >(DecodeError::UnknownCommand { discriminant: packet[0] }),
        packet.len() == PACKET_LENGTH && packet[0] < INPUT_TYPE_COUNT ==> decoded(packet) is Ok,
{
}

/// `byteorder::LittleEndian::read_u32`: the first four bytes of `buf` read as
/// a little-endian number. It panics on a shorter buffer, which `requires`
/// leaves out.
#[verifier::external_body]
fn read_u32_le(buf: &[u8]) -> (v: u32)
    requires
        buf@.len() >= 4,
    ensures
        v == le_u32(buf@),
{
    byteorder::LittleEndian::read_u32(buf)
}

/// Decodes one packet. The result depends on the bytes alone: it is
/// `decoded` of them.
pub fn decode(packet: &[u8]) -> (r: Result<InputCommand, DecodeError>)
    ensures
        r == decoded(packet@),
        packet@.len() != PACKET_LENGTH ==> r == Err::<InputCommand, DecodeError>(
            DecodeError::MalformedPacket { length: packet@.len() as usize },
        ),
        packet@.len() == PACKET_LENGTH && packet@[0] >= INPUT_TYPE_COUNT ==> r == Err::<
            InputCommand,
            DecodeError,
        >(DecodeError::UnknownCommand { discriminant: packet@[0] }),
        r is Ok <==> packet@.len() == PACKET_LENGTH && packet@[0] < INPUT_TYPE_COUNT,
{
    if packet.len() != PACKET_LENGTH {
        return Err(DecodeError::MalformedPacket { length: packet.len() });
    }
    match InputType::try_from(packet[0]) {
        Err(e) => Err(e),
        Ok(input_type) => {
            let data0 = read_u32_le(slice_subrange(packet, 1, 5));
            let data1 = read_u32_le(slice_subrange(packet, 5, 9));
            Ok(InputCommand { input_type, data0, data1 })
        },
    }
}

/// The members of a command in its text form: a JSON object with the
/// members `"msg-type"`, `"input-type"`, `"x"` and `"y"`.
#[derive(Clone, Copy, Debug, PartialEq, Eq, Structural)]
pub struct TextCommand {
    /// The object has a member `"msg-type"`.
    pub tagged: bool,
    /// `"input-type"`, where it is a non-negative integer.
    pub input_type: Option<u64>,
    /// `"x"`, where it is a number: its double-precision pattern.
    pub x: Option<u64>,
    /// `"y"`, where it is a number: its double-precision pattern.
    pub y: Option<u64>,
}

/// The key of the message-type tag in the text form.
pub const MESSAGE_TYPE_KEY: &'static str = "msg-type";

/// The key of the discriminant in the text form.
pub const INPUT_TYPE_KEY: &'static str = "input-type";

/// The key of the first field in the text form.
pub const X_KEY: &'static str = "x";

/// The key of the second field in the text form.
pub const Y_KEY: &'static str = "y";

/// The members of a command in a parsed text: the tag by its presence, the
/// discriminant as a non-negative integer, the two fields as numbers.
pub open spec fn members_of(value: serde_json::Value) -> TextCommand {
    TextCommand {
        tagged: has_member(value, MESSAGE_TYPE_KEY@),
        input_type: unsigned_member(value, INPUT_TYPE_KEY@),
        x: number_member(value, X_KEY@),
        y: number_member(value, Y_KEY@),
    }
}

impl TextCommand {
    /// The members of a command in a parsed text.
    pub fn from_value(value: &serde_json::Value) -> (members: TextCommand)
        ensures
            members == members_of(*value),
    {
        TextCommand {
            tagged: read_presence(value, MESSAGE_TYPE_KEY),
            input_type: read_unsigned(value, INPUT_TYPE_KEY),
            x: read_number(value, X_KEY),
            y: read_number(value, Y_KEY),
        }
    }
}

/// The command that the members of a text form give. All four members
/// must be there and the discriminant must be a byte; then the byte is
/// read as on the wire, and the two numbers are narrowed to the
/// single-precision fields that a packet would hold.
pub open spec fn command_of(members: TextCommand) -> Result<InputCommand, DecodeError> {
    if members.tagged && members.input_type is Some && members.x is Some && members.y is Some
        && members.input_type->0 <= 255 {
        let discriminant = members.input_type->0 as u8;
        match InputType::of_discriminant(discriminant) {
            None => Err(DecodeError::UnknownCommand { discriminant }),
            Some(t) => Ok(
                InputCommand {
                    input_type: t,
                    data0: narrowed(members.x->0),
                    data1: narrowed(members.y->0),
                },
            ),
        }
    } else {
        Err(DecodeError::MalformedText)
    }
}

/// What a text frame decodes to.
pub open spec fn decoded_text(text: Seq<char>) -> Result<InputCommand, DecodeError> {
    match parsed(text) {
        None => Err(DecodeError::MalformedText),
        Some(value) => command_of(members_of(value)),
    }
}

/// The command that the members of a text form give.
pub fn command_from_members(members: &TextCommand) -> (r: Result<InputCommand, DecodeError>)
    ensures
        r == command_of(*members),
{
    if !members.tagged {
        return Err(DecodeError::MalformedText);
    }
    match (members.input_type, members.x, members.y) {
        (Some(value), Some(x), Some(y)) => {
            if value > 255 {
                Err(DecodeError::MalformedText)
            } else {
                match InputType::try_from(value as u8) {
                    Err(e) => Err(e),
                    Ok(input_type) => Ok(
                        InputCommand { input_type, data0: narrow(x), data1: narrow(y) },
                    ),
                }
            }
        },
        _ => Err(DecodeError::MalformedText),
    }
}

/// Decodes the text form of a command. The result depends on the text
/// alone: it is `decoded_text` of it.
pub fn decode_text(text: &str) -> (r: Result<InputCommand, DecodeError>)
    ensures
        r == decoded_text(text@),
{
    match parse(text) {
        Err(_) => Err(DecodeError::MalformedText),
        Ok(value) => command_from_members(&TextCommand::from_value(&value)),
    }
}

} // verus!
