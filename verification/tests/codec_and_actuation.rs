use rstream_server::actuation::{
    classify, ActuationDispatcher, ButtonMotion, CommandClass, PointerAction, PointerButton,
    ScrollAxis,
};
use rstream_server::codec::{
    command_from_members, decode, decode_text, DecodeError, InputCommand, InputType, TextCommand,
    INPUT_TYPE_COUNT, PACKET_LENGTH,
};
use rstream_server::gamepad::{GamepadState, PadButton, Side};

fn packet(discriminant: u8, field0: u32, field1: u32) -> Vec<u8> {
    let mut p = vec![discriminant];
    p.extend_from_slice(&field0.to_le_bytes());
    p.extend_from_slice(&field1.to_le_bytes());
    p
}

fn float_packet(discriminant: u8, x: f32, y: f32) -> Vec<u8> {
    packet(discriminant, x.to_bits(), y.to_bits())
}

const ALL_TYPES: [InputType; 22] = [
    InputType::CursorLeftDown,
    InputType::CursorLeftUp,
    InputType::CursorLeftClick,
    InputType::CursorRightClick,
    InputType::CursorMove,
    InputType::CursorScroll,
    InputType::GamepadButtonX,
    InputType::GamepadButtonY,
    InputType::GamepadButtonA,
    InputType::GamepadButtonB,
    InputType::GamepadButtonL1,
    InputType::GamepadButtonR1,
    InputType::GamepadButtonL2,
    InputType::GamepadButtonR2,
    InputType::GamepadButtonUp,
    InputType::GamepadButtonDown,
    InputType::GamepadButtonLeft,
    InputType::GamepadButtonRight,
    InputType::GamepadLeftStick,
    InputType::GamepadRightStick,
    InputType::GamepadButtonStart,
    InputType::GamepadButtonSelect,
];

#[test]
fn the_packet_is_nine_bytes_and_there_are_twenty_two_commands() {
    assert_eq!(PACKET_LENGTH, 9);
    assert_eq!(INPUT_TYPE_COUNT, 22);
}

#[test]
fn every_discriminant_below_22_is_its_command() {
    for (i, t) in ALL_TYPES.iter().enumerate() {
        assert_eq!(InputType::try_from(i as u8), Ok(*t));
        assert_eq!(t.to_u8(), i as u8);
    }
}

#[test]
fn every_discriminant_from_22_on_is_unknown() {
    for value in 22u8..=255 {
        assert_eq!(
            InputType::try_from(value),
            Err(DecodeError::UnknownCommand { discriminant: value })
        );
    }
}

#[test]
fn fields_are_read_least_significant_byte_first() {
    let bytes = [4u8, 0x01, 0x02, 0x03, 0x04, 0xa5, 0xb6, 0xc7, 0xd8];
    assert_eq!(
        decode(&bytes),
        Ok(InputCommand {
            input_type: InputType::CursorMove,
            data0: 0x0403_0201,
            data1: 0xd8c7_b6a5
        })
    );
}

#[test]
fn decoding_the_same_bytes_twice_gives_the_same_command() {
    let mut seed: u32 = 12345;
    for _ in 0..2000 {
        let mut bytes = [0u8; 9];
        for b in bytes.iter_mut() {
            seed = seed.wrapping_mul(1664525).wrapping_add(1013904223);
            *b = (seed >> 24) as u8;
        }
        bytes[0] %= 30;
        let copy = bytes;
        assert_eq!(decode(&bytes), decode(&copy));
    }
}

#[test]
fn a_buffer_of_another_length_is_malformed() {
    for length in 0usize..64 {
        if length == 9 {
            continue;
        }
        let bytes = vec![4u8; length];
        assert_eq!(decode(&bytes), Err(DecodeError::MalformedPacket { length }));
    }
    let oversized = vec![0u8; 1500];
    assert_eq!(decode(&oversized), Err(DecodeError::MalformedPacket { length: 1500 }));
}

#[test]
fn a_malformed_packet_changes_nothing_and_the_next_packet_is_served() {
    let mut d = ActuationDispatcher::new();
    d.handle_packet(&float_packet(8, 1.0, 0.0)).unwrap();
    let before = d.snapshot();
    assert_eq!(
        d.handle_packet(&[6, 0, 0]).err(),
        Some(DecodeError::MalformedPacket { length: 3 })
    );
    assert_eq!(d.snapshot(), before);
    let next = d.handle_packet(&float_packet(6, 1.0, 0.0)).unwrap();
    assert!(next.push.is_some());
    assert!(d.snapshot().is_pressed(PadButton::X));
    assert!(d.snapshot().is_pressed(PadButton::A));
}

#[test]
fn an_unknown_discriminant_is_dropped_without_effect() {
    let mut d = ActuationDispatcher::new();
    d.handle_packet(&float_packet(9, 1.0, 0.0)).unwrap();
    let before = d.snapshot();
    for discriminant in 22u8..=255 {
        let r = d.handle_packet(&float_packet(discriminant, 1.0, 1.0));
        assert_eq!(r.err(), Some(DecodeError::UnknownCommand { discriminant }));
        assert_eq!(d.snapshot(), before);
    }
}

#[test]
fn cursor_move_to_three_zero_moves_the_pointer_there() {
    let bytes = [4u8, 0x00, 0x00, 0x40, 0x40, 0x00, 0x00, 0x00, 0x00];
    assert_eq!(decode(&bytes).unwrap().data0, 3.0f32.to_bits());
    let mut d = ActuationDispatcher::new();
    let a = d.handle_packet(&bytes).unwrap();
    assert_eq!(a.pointer, vec![PointerAction::MoveTo { x: 3, y: 0 }]);
    assert_eq!(a.push, None);
    assert_eq!(d.snapshot(), GamepadState::new());
}

#[test]
fn button_x_pressed_then_released_is_clear_after_two_pushes() {
    let mut d = ActuationDispatcher::new();
    let first = d.handle_packet(&packet(6, 0x3F80_0000, 0)).unwrap();
    assert!(first.pointer.is_empty());
    let pressed = first.push.expect("a push after the press");
    assert_eq!(pressed.buttons, 0x4000);
    assert!(d.snapshot().is_pressed(PadButton::X));
    let second = d.handle_packet(&packet(6, 0, 0)).unwrap();
    let released = second.push.expect("a push after the release");
    assert_eq!(released.buttons, 0);
    assert!(!d.snapshot().is_pressed(PadButton::X));
    assert_eq!(d.snapshot(), GamepadState::new());
}

#[test]
fn pointer_commands_move_before_they_act() {
    let mut d = ActuationDispatcher::new();
    let cases = [
        (0u8, Some((PointerButton::Left, ButtonMotion::Press))),
        (1, Some((PointerButton::Left, ButtonMotion::Release))),
        (2, Some((PointerButton::Left, ButtonMotion::Click))),
        (3, Some((PointerButton::Right, ButtonMotion::Click))),
        (4, None),
    ];
    for (discriminant, action) in cases {
        let a = d.handle_packet(&float_packet(discriminant, 640.7, -12.9)).unwrap();
        let mut expected = vec![PointerAction::MoveTo { x: 640, y: -12 }];
        if let Some((button, motion)) = action {
            expected.push(PointerAction::Button { button, motion });
        }
        assert_eq!(a.pointer, expected);
        assert_eq!(a.push, None);
    }
    assert_eq!(d.snapshot(), GamepadState::new());
}

#[test]
fn scroll_has_a_dead_zone_on_each_axis() {
    let mut d = ActuationDispatcher::new();
    let a = d.handle_packet(&float_packet(5, 0.05, -0.1)).unwrap();
    assert!(a.pointer.is_empty());
    assert_eq!(a.push, None);
    let a = d.handle_packet(&float_packet(5, 25.0, 0.0)).unwrap();
    assert_eq!(a.pointer, vec![PointerAction::Scroll { amount: -2, axis: ScrollAxis::Horizontal }]);
    let a = d.handle_packet(&float_packet(5, 0.0, -120.0)).unwrap();
    assert_eq!(a.pointer, vec![PointerAction::Scroll { amount: 12, axis: ScrollAxis::Vertical }]);
    let a = d.handle_packet(&float_packet(5, 30.0, 40.0)).unwrap();
    assert_eq!(
        a.pointer,
        vec![
            PointerAction::Scroll { amount: -3, axis: ScrollAxis::Horizontal },
            PointerAction::Scroll { amount: -4, axis: ScrollAxis::Vertical },
        ]
    );
    // Past the dead zone but less than ten: a scroll by nothing is still asked for.
    let a = d.handle_packet(&float_packet(5, 0.5, 0.0)).unwrap();
    assert_eq!(a.pointer, vec![PointerAction::Scroll { amount: 0, axis: ScrollAxis::Horizontal }]);
}

#[test]
fn each_button_command_sets_and_clears_its_own_bit() {
    let cases: [(u8, PadButton, u16); 12] = [
        (6, PadButton::X, 0x4000),
        (7, PadButton::Y, 0x8000),
        (8, PadButton::A, 0x1000),
        (9, PadButton::B, 0x2000),
        (10, PadButton::LeftShoulder, 0x0100),
        (11, PadButton::RightShoulder, 0x0200),
        (14, PadButton::Up, 0x0001),
        (15, PadButton::Down, 0x0002),
        (16, PadButton::Left, 0x0004),
        (17, PadButton::Right, 0x0008),
        (20, PadButton::Start, 0x0010),
        (21, PadButton::Back, 0x0020),
    ];
    let mut d = ActuationDispatcher::new();
    let mut mask = 0u16;
    for (discriminant, button, bit) in cases {
        assert_eq!(button.mask(), bit);
        let a = d.handle_packet(&float_packet(discriminant, 0.5, 0.0)).unwrap();
        mask |= bit;
        assert_eq!(a.push.unwrap().buttons, mask);
        assert_eq!(d.snapshot().buttons, mask);
    }
    assert_eq!(mask, 0xf33f);
    for (discriminant, _, bit) in cases {
        let a = d.handle_packet(&float_packet(discriminant, -1.0, 0.0)).unwrap();
        mask &= !bit;
        assert_eq!(a.push.unwrap().buttons, mask);
    }
    assert_eq!(d.snapshot(), GamepadState::new());
}

#[test]
fn a_button_is_pressed_only_by_a_positive_field() {
    let mut d = ActuationDispatcher::new();
    for (field, pressed) in [
        (1.0f32, true),
        (0.0, false),
        (f32::MIN_POSITIVE, true),
        (-0.0, false),
        (-5.0, false),
        (f32::INFINITY, true),
        (f32::NAN, false),
        (1.0e-45, true),
    ] {
        d.handle_packet(&float_packet(8, field, 0.0)).unwrap();
        assert_eq!(d.snapshot().is_pressed(PadButton::A), pressed, "{field}");
    }
}

#[test]
fn triggers_take_the_field_times_256() {
    let mut d = ActuationDispatcher::new();
    let a = d.handle_packet(&float_packet(12, 0.5, 0.0)).unwrap();
    assert_eq!(a.push.unwrap().left_trigger, 128);
    let a = d.handle_packet(&float_packet(13, 0.25, 0.0)).unwrap();
    assert_eq!(a.push.unwrap().right_trigger, 64);
    assert_eq!(d.snapshot().left_trigger, 128);
    d.handle_packet(&float_packet(12, 1.0, 0.0)).unwrap();
    assert_eq!(d.snapshot().left_trigger, 255);
    d.handle_packet(&float_packet(12, 0.999, 0.0)).unwrap();
    assert_eq!(d.snapshot().left_trigger, 255);
    d.handle_packet(&float_packet(12, -0.3, 0.0)).unwrap();
    assert_eq!(d.snapshot().left_trigger, 0);
    assert_eq!(d.snapshot().right_trigger, 64);
    assert_eq!(d.snapshot().buttons, 0);
}

#[test]
fn sticks_take_the_fields_times_32767_with_the_vertical_axis_inverted() {
    let mut d = ActuationDispatcher::new();
    let a = d.handle_packet(&float_packet(18, 1.0, 1.0)).unwrap();
    let s = a.push.unwrap();
    assert_eq!((s.thumb_lx, s.thumb_ly), (32767, -32767));
    let a = d.handle_packet(&float_packet(19, -0.5, -0.5)).unwrap();
    let s = a.push.unwrap();
    assert_eq!((s.thumb_rx, s.thumb_ry), (-16383, 16383));
    assert_eq!((s.thumb_lx, s.thumb_ly), (32767, -32767));
    d.handle_packet(&float_packet(18, 0.0, 0.0)).unwrap();
    assert_eq!((d.snapshot().thumb_lx, d.snapshot().thumb_ly), (0, 0));
    d.handle_packet(&float_packet(18, -3.0, 3.0)).unwrap();
    assert_eq!((d.snapshot().thumb_lx, d.snapshot().thumb_ly), (-32768, -32768));
    d.handle_packet(&float_packet(18, 3.0, -3.0)).unwrap();
    assert_eq!((d.snapshot().thumb_lx, d.snapshot().thumb_ly), (32767, 32767));
}

#[test]
fn the_dispatcher_follows_the_floating_point_arithmetic_of_the_machine() {
    let mut seed: u32 = 99;
    let mut next = || {
        seed = seed.wrapping_mul(1664525).wrapping_add(1013904223);
        f32::from_bits(0x3c00_0000 + (seed >> 8) % 0x0800_0000)
    };
    let mut d = ActuationDispatcher::new();
    for _ in 0..20000 {
        let (x, y) = (next(), -next());
        let a = d.handle_packet(&float_packet(18, x, y)).unwrap().push.unwrap();
        assert_eq!(a.thumb_lx, (x * 32767.0) as i16);
        assert_eq!(a.thumb_ly, (y * -32767.0) as i16);
        let a = d.handle_packet(&float_packet(13, x, y)).unwrap().push.unwrap();
        assert_eq!(a.right_trigger, (x * 256.0) as u8);
        let a = d.handle_packet(&float_packet(4, x * 4000.0, y * 4000.0)).unwrap();
        assert_eq!(
            a.pointer,
            vec![PointerAction::MoveTo { x: (x * 4000.0) as i32, y: (y * 4000.0) as i32 }]
        );
    }
}

#[test]
fn commands_are_classified_by_what_they_act_on() {
    assert_eq!(classify(InputType::CursorMove), CommandClass::Move);
    assert_eq!(classify(InputType::CursorScroll), CommandClass::Scroll);
    assert_eq!(
        classify(InputType::CursorLeftDown),
        CommandClass::MoveAndButton { button: PointerButton::Left, motion: ButtonMotion::Press }
    );
    assert_eq!(
        classify(InputType::GamepadButtonSelect),
        CommandClass::PadButton { button: PadButton::Back }
    );
    assert_eq!(classify(InputType::GamepadButtonL2), CommandClass::Trigger { side: Side::Left });
    assert_eq!(classify(InputType::GamepadRightStick), CommandClass::Stick { side: Side::Right });
}

#[test]
fn a_text_command_decodes_to_the_command_of_the_packet() {
    let text = r#"{"msg-type":"input","input-type":4,"x":3.0,"y":0.0}"#;
    assert_eq!(
        decode_text(text),
        Ok(InputCommand { input_type: InputType::CursorMove, data0: 3.0f32.to_bits(), data1: 0 })
    );
    assert_eq!(decode_text(text), decode(&float_packet(4, 3.0, 0.0)));
    let text = r#"{"y": -0.25, "x": 1, "input-type": 18, "msg-type": 7}"#;
    assert_eq!(decode_text(text), decode(&float_packet(18, 1.0, -0.25)));
    let mut d = ActuationDispatcher::new();
    let a = d.handle_text(text).unwrap();
    assert_eq!(a.push.unwrap().thumb_lx, 32767);
    assert_eq!(d.snapshot().thumb_ly, 8191);
}

#[test]
fn a_text_that_is_no_command_is_malformed() {
    for text in [
        "",
        "hello",
        "{",
        "[1,2,3]",
        "{}",
        r#"{"input-type":4,"x":3.0,"y":0.0}"#,
        r#"{"msg-type":"input","x":3.0,"y":0.0}"#,
        r#"{"msg-type":"input","input-type":4,"y":0.0}"#,
        r#"{"msg-type":"input","input-type":4,"x":3.0}"#,
        r#"{"msg-type":"input","input-type":-4,"x":3.0,"y":0.0}"#,
        r#"{"msg-type":"input","input-type":4.5,"x":3.0,"y":0.0}"#,
        r#"{"msg-type":"input","input-type":256,"x":3.0,"y":0.0}"#,
        r#"{"msg-type":"input","input-type":4,"x":"3.0","y":0.0}"#,
    ] {
        assert_eq!(decode_text(text), Err(DecodeError::MalformedText), "{text}");
    }
    let mut d = ActuationDispatcher::new();
    d.handle_packet(&float_packet(8, 1.0, 0.0)).unwrap();
    let before = d.snapshot();
    assert_eq!(d.handle_text("{}").err(), Some(DecodeError::MalformedText));
    assert_eq!(d.snapshot(), before);
}

#[test]
fn a_text_command_with_an_unknown_discriminant_is_unknown() {
    let text = r#"{"msg-type":"input","input-type":22,"x":3.0,"y":0.0}"#;
    assert_eq!(decode_text(text), Err(DecodeError::UnknownCommand { discriminant: 22 }));
    let text = r#"{"msg-type":"input","input-type":255,"x":3.0,"y":0.0}"#;
    assert_eq!(decode_text(text), Err(DecodeError::UnknownCommand { discriminant: 255 }));
}

#[test]
fn the_members_of_a_text_command_decide_it() {
    let full = TextCommand {
        tagged: true,
        input_type: Some(13),
        x: Some(0.5f64.to_bits()),
        y: Some(0.0f64.to_bits()),
    };
    assert_eq!(
        command_from_members(&full),
        Ok(InputCommand {
            input_type: InputType::GamepadButtonR2,
            data0: 0.5f32.to_bits(),
            data1: 0
        })
    );
    assert_eq!(
        command_from_members(&TextCommand { tagged: false, ..full }),
        Err(DecodeError::MalformedText)
    );
    assert_eq!(
        command_from_members(&TextCommand { x: None, ..full }),
        Err(DecodeError::MalformedText)
    );
    assert_eq!(
        command_from_members(&TextCommand { input_type: Some(1 << 40), ..full }),
        Err(DecodeError::MalformedText)
    );
    assert_eq!(
        command_from_members(&TextCommand { input_type: Some(99), ..full }),
        Err(DecodeError::UnknownCommand { discriminant: 99 })
    );
}
