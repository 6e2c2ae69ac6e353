use thermal_control::command::pump;
use thermal_control::command::temperature;
use thermal_control::framing::Cursor;
use thermal_control::types::pump::PumpState;
use thermal_control::types::temperature::{temperature_from_byte, temperature_to_byte};
use thermal_control::wire::{decode, encode, DecodeError, Decoded, Message};

fn decode_pump_response(bytes: &[u8]) -> (Decoded<pump::FromPeripheral>, usize) {
    let mut cursor = Cursor::new(bytes);
    let outcome = decode::<pump::FromPeripheral>(&mut cursor);
    (outcome, cursor.capture().len())
}

fn decode_pump_command(bytes: &[u8]) -> (Decoded<pump::ToPeripheral>, usize) {
    let mut cursor = Cursor::new(bytes);
    let outcome = decode::<pump::ToPeripheral>(&mut cursor);
    (outcome, cursor.capture().len())
}

fn decode_sensor_response(bytes: &[u8]) -> (Decoded<temperature::FromPeripheral>, usize) {
    let mut cursor = Cursor::new(bytes);
    let outcome = decode::<temperature::FromPeripheral>(&mut cursor);
    (outcome, cursor.capture().len())
}

fn decode_sensor_command(bytes: &[u8]) -> (Decoded<temperature::ToPeripheral>, usize) {
    let mut cursor = Cursor::new(bytes);
    let outcome = decode::<temperature::ToPeripheral>(&mut cursor);
    (outcome, cursor.capture().len())
}

#[test]
fn pump_state_bytes() {
    assert_eq!(PumpState::On.to_byte(), 0x5e);
    assert_eq!(PumpState::Off.to_byte(), 0xed);
    assert_eq!(PumpState::from_byte(0x5e), Some(PumpState::On));
    assert_eq!(PumpState::from_byte(0xed), Some(PumpState::Off));
    assert_eq!(PumpState::from_byte(0x00), None);
    assert_eq!(PumpState::from_byte(0x5f), None);
}

#[test]
fn fault_bytes() {
    assert_eq!(pump::Fault::Temperature.to_byte(), 0xde);
    assert_eq!(pump::Fault::Current.to_byte(), 0xad);
    assert_eq!(pump::Fault::from_byte(0xde), Some(pump::Fault::Temperature));
    assert_eq!(pump::Fault::from_byte(0xad), Some(pump::Fault::Current));
    assert_eq!(pump::Fault::from_byte(0x5e), None);
}

#[test]
fn temperature_bytes_are_twos_complement() {
    assert_eq!(temperature_to_byte(0), 0x00);
    assert_eq!(temperature_to_byte(25), 0x19);
    assert_eq!(temperature_to_byte(127), 0x7f);
    assert_eq!(temperature_to_byte(-1), 0xff);
    assert_eq!(temperature_to_byte(-128), 0x80);
    assert_eq!(temperature_from_byte(0x00), 0);
    assert_eq!(temperature_from_byte(0x7f), 127);
    assert_eq!(temperature_from_byte(0x80), -128);
    assert_eq!(temperature_from_byte(0xff), -1);
}

#[test]
fn temperature_bytes_round_trip_for_every_value() {
    for value in i8::MIN..=i8::MAX {
        assert_eq!(temperature_to_byte(value), value as u8);
        assert_eq!(temperature_from_byte(temperature_to_byte(value)), value);
    }
    for byte in u8::MIN..=u8::MAX {
        assert_eq!(temperature_to_byte(temperature_from_byte(byte)), byte);
    }
}

#[test]
fn frames_of_commands_to_the_pump() {
    assert_eq!(encode(&pump::ToPeripheral::SetState(PumpState::On)), vec![0xca, 0x5e]);
    assert_eq!(encode(&pump::ToPeripheral::SetState(PumpState::Off)), vec![0xca, 0xed]);
    assert_eq!(encode(&pump::ToPeripheral::Get), vec![0x11]);
}

#[test]
fn frames_of_messages_from_the_pump() {
    assert_eq!(encode(&pump::FromPeripheral::PumpState(PumpState::On)), vec![0xaa, 0x5e]);
    assert_eq!(encode(&pump::FromPeripheral::PumpState(PumpState::Off)), vec![0xaa, 0xed]);
    assert_eq!(encode(&pump::FromPeripheral::Fault(pump::Fault::Temperature)), vec![0x1f, 0xde]);
    assert_eq!(encode(&pump::FromPeripheral::Fault(pump::Fault::Current)), vec![0x1f, 0xad]);
}

#[test]
fn frames_of_the_sensor_link() {
    assert_eq!(encode(&temperature::ToPeripheral::Read), vec![0xbe]);
    assert_eq!(encode(&temperature::FromPeripheral::Temperature(61)), vec![0xef, 61]);
    assert_eq!(encode(&temperature::FromPeripheral::Temperature(-5)), vec![0xef, 0xfb]);
}

#[test]
fn opcode_and_payload_make_the_frame() {
    let message = pump::FromPeripheral::Fault(pump::Fault::Current);
    assert_eq!(message.opcode(), 0x1f);
    assert_eq!(message.payload(), vec![0xad]);
    assert_eq!(pump::ToPeripheral::Get.payload(), Vec::<u8>::new());
    assert_eq!(pump::FromPeripheral::payload_size(0x1f), Some(1));
    assert_eq!(pump::FromPeripheral::payload_size(0xca), None);
    assert_eq!(pump::ToPeripheral::payload_size(0xca), Some(1));
    assert_eq!(pump::ToPeripheral::payload_size(0x11), Some(0));
    assert_eq!(temperature::ToPeripheral::payload_size(0xbe), Some(0));
    assert_eq!(temperature::FromPeripheral::payload_size(0xef), Some(1));
    assert_eq!(temperature::FromPeripheral::payload_size(0xbe), None);
    assert_eq!(
        pump::FromPeripheral::assemble(0xaa, &[0xed]),
        Some(pump::FromPeripheral::PumpState(PumpState::Off))
    );
    assert_eq!(pump::FromPeripheral::assemble(0xaa, &[0x00]), None);
}

#[test]
fn round_trip_of_every_pump_command() {
    for message in [
        pump::ToPeripheral::SetState(PumpState::On),
        pump::ToPeripheral::SetState(PumpState::Off),
        pump::ToPeripheral::Get,
    ] {
        let bytes = encode(&message);
        assert_eq!(decode_pump_command(&bytes), (Decoded::Message(message), bytes.len()));
    }
}

#[test]
fn round_trip_of_every_pump_response() {
    for message in [
        pump::FromPeripheral::PumpState(PumpState::On),
        pump::FromPeripheral::PumpState(PumpState::Off),
        pump::FromPeripheral::Fault(pump::Fault::Temperature),
        pump::FromPeripheral::Fault(pump::Fault::Current),
    ] {
        let bytes = encode(&message);
        assert_eq!(decode_pump_response(&bytes), (Decoded::Message(message), bytes.len()));
    }
}

#[test]
fn round_trip_of_every_sensor_message() {
    let bytes = encode(&temperature::ToPeripheral::Read);
    assert_eq!(
        decode_sensor_command(&bytes),
        (Decoded::Message(temperature::ToPeripheral::Read), 1)
    );
    for value in i8::MIN..=i8::MAX {
        let message = temperature::FromPeripheral::Temperature(value);
        let bytes = encode(&message);
        assert_eq!(decode_sensor_response(&bytes), (Decoded::Message(message), 2));
    }
}

#[test]
fn nothing_to_read_needs_more_bytes() {
    assert_eq!(decode_pump_response(&[]), (Decoded::NeedMoreBytes, 0));
    assert_eq!(decode_pump_command(&[]), (Decoded::NeedMoreBytes, 0));
    assert_eq!(decode_sensor_response(&[]), (Decoded::NeedMoreBytes, 0));
    assert_eq!(decode_sensor_command(&[]), (Decoded::NeedMoreBytes, 0));
}

#[test]
fn opcode_without_its_payload_needs_more_bytes() {
    assert_eq!(decode_pump_response(&[0xaa]), (Decoded::NeedMoreBytes, 1));
    assert_eq!(decode_pump_response(&[0x1f]), (Decoded::NeedMoreBytes, 1));
    assert_eq!(decode_pump_command(&[0xca]), (Decoded::NeedMoreBytes, 1));
    assert_eq!(decode_sensor_response(&[0xef]), (Decoded::NeedMoreBytes, 1));
}

#[test]
fn unknown_opcode_is_invalid() {
    assert_eq!(
        decode_pump_response(&[0x00, 0x5e]),
        (Decoded::Invalid(DecodeError::UnknownOpcode), 1)
    );
    assert_eq!(decode_pump_command(&[0xff]), (Decoded::Invalid(DecodeError::UnknownOpcode), 1));
    assert_eq!(
        decode_sensor_response(&[0xbe]),
        (Decoded::Invalid(DecodeError::UnknownOpcode), 1)
    );
    assert_eq!(
        decode_sensor_command(&[0xef, 0x01]),
        (Decoded::Invalid(DecodeError::UnknownOpcode), 1)
    );
}

#[test]
fn opcodes_are_scoped_to_their_direction() {
    // 0xca is a command to the pump and nothing the pump would send.
    assert_eq!(
        decode_pump_response(&[0xca, 0x5e]),
        (Decoded::Invalid(DecodeError::UnknownOpcode), 1)
    );
    assert_eq!(
        decode_pump_command(&[0xaa, 0x5e]),
        (Decoded::Invalid(DecodeError::UnknownOpcode), 1)
    );
}

#[test]
fn payload_that_stands_for_nothing_is_invalid() {
    assert_eq!(
        decode_pump_response(&[0xaa, 0x00]),
        (Decoded::Invalid(DecodeError::MalformedPayload), 2)
    );
    assert_eq!(
        decode_pump_response(&[0x1f, 0x5e]),
        (Decoded::Invalid(DecodeError::MalformedPayload), 2)
    );
    assert_eq!(
        decode_pump_command(&[0xca, 0xde]),
        (Decoded::Invalid(DecodeError::MalformedPayload), 2)
    );
}

#[test]
fn bytes_behind_a_frame_are_left_unread() {
    assert_eq!(
        decode_pump_response(&[0xaa, 0x5e, 0x1f, 0xad]),
        (Decoded::Message(pump::FromPeripheral::PumpState(PumpState::On)), 2)
    );
    assert_eq!(
        decode_pump_command(&[0x11, 0xca]),
        (Decoded::Message(pump::ToPeripheral::Get), 1)
    );
}

#[test]
fn decoding_goes_on_where_the_cursor_stands() {
    let bytes = [0xaa, 0x5e, 0x1f, 0xad, 0xaa];
    let mut cursor = Cursor::new(&bytes);
    assert_eq!(
        decode::<pump::FromPeripheral>(&mut cursor),
        Decoded::Message(pump::FromPeripheral::PumpState(PumpState::On))
    );
    assert_eq!(cursor.available(), 3);
    assert_eq!(
        decode::<pump::FromPeripheral>(&mut cursor),
        Decoded::Message(pump::FromPeripheral::Fault(pump::Fault::Current))
    );
    assert_eq!(cursor.capture().len(), 4);
    assert_eq!(decode::<pump::FromPeripheral>(&mut cursor), Decoded::NeedMoreBytes);
    assert_eq!(cursor.capture().len(), 5);
    assert_eq!(cursor.available(), 0);
}

#[test]
fn every_prefix_of_a_frame_needs_more_bytes() {
    for message in [
        pump::FromPeripheral::PumpState(PumpState::On),
        pump::FromPeripheral::PumpState(PumpState::Off),
        pump::FromPeripheral::Fault(pump::Fault::Temperature),
        pump::FromPeripheral::Fault(pump::Fault::Current),
    ] {
        let bytes = encode(&message);
        for count in 0..bytes.len() {
            assert_eq!(decode_pump_response(&bytes[..count]), (Decoded::NeedMoreBytes, count));
        }
        assert_eq!(decode_pump_response(&bytes), (Decoded::Message(message), bytes.len()));
    }
}

#[test]
fn cursor_reads_forward_and_stops_at_the_end() {
    let bytes = [7u8, 8, 9];
    let mut cursor = Cursor::new(&bytes);
    assert_eq!(cursor.available(), 3);
    assert_eq!(cursor.next(), Some(7));
    assert_eq!(cursor.next(), Some(8));
    assert_eq!(cursor.capture().len(), 2);
    assert_eq!(cursor.next(), Some(9));
    assert_eq!(cursor.next(), None);
    assert_eq!(cursor.next(), None);
    assert_eq!(cursor.capture().len(), 3);
}
