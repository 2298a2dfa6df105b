use midi_shenanigans::decode::decode;
use midi_shenanigans::event::{DecodeError, MidiEvent};
use midi_shenanigans::report::{decimal, describe, note_on_line, report_frame};

#[test]
fn note_on_decodes_channel_note_velocity() {
    for channel in 0u8..16 {
        let r = decode(&[0x90 | channel, 60, 100]);
        assert_eq!(r, Ok(MidiEvent::NoteOn { channel, note: 60, velocity: 100 }));
    }
    assert_eq!(
        decode(&[0x9F, 127, 127]),
        Ok(MidiEvent::NoteOn { channel: 15, note: 127, velocity: 127 })
    );
    assert_eq!(decode(&[0x90, 0, 1]), Ok(MidiEvent::NoteOn { channel: 0, note: 0, velocity: 1 }));
}

#[test]
fn note_on_with_zero_velocity_stays_note_on() {
    assert_eq!(
        decode(&[0x94, 64, 0]),
        Ok(MidiEvent::NoteOn { channel: 4, note: 64, velocity: 0 })
    );
    assert_eq!(
        report_frame(&[0x90, 60, 0]),
        Ok(vec!["Note on:".to_string(), "Channel: Ch1 | Note: C4(60) | Velocity: 0".to_string()])
    );
}

#[test]
fn note_off_decodes() {
    assert_eq!(
        decode(&[0x81, 62, 40]),
        Ok(MidiEvent::NoteOff { channel: 1, note: 62, velocity: 40 })
    );
}

#[test]
fn pitch_bend_combines_lsb_and_msb() {
    assert_eq!(
        decode(&[0xE0, 0x00, 0x40]),
        Ok(MidiEvent::PitchBendChange { channel: 0, value: 8192 })
    );
    assert_eq!(
        decode(&[0xE2, 0x7F, 0x7F]),
        Ok(MidiEvent::PitchBendChange { channel: 2, value: 16383 })
    );
    assert_eq!(decode(&[0xE0, 0x00, 0x00]), Ok(MidiEvent::PitchBendChange { channel: 0, value: 0 }));
    let (lsb, msb) = (0x15u16, 0x33u16);
    assert_eq!(
        decode(&[0xE5, lsb as u8, msb as u8]),
        Ok(MidiEvent::PitchBendChange { channel: 5, value: lsb | (msb << 7) })
    );
}

#[test]
fn control_change_reports_raw_function_code() {
    assert_eq!(
        decode(&[0xB3, 7, 99]),
        Ok(MidiEvent::ControlChange { channel: 3, function: 7, value: 99 })
    );
}

#[test]
fn sysex_payload_excludes_delimiters() {
    assert_eq!(
        decode(&[0xF0, 0x01, 0x02, 0xF7]),
        Ok(MidiEvent::SystemExclusive { payload: vec![0x01, 0x02] })
    );
    assert_eq!(decode(&[0xF0, 0xF7]), Ok(MidiEvent::SystemExclusive { payload: vec![] }));
}

#[test]
fn timing_clock_is_one_byte() {
    assert_eq!(decode(&[0xF8]), Ok(MidiEvent::TimingClock));
}

#[test]
fn unhandled_kinds_are_other() {
    assert_eq!(decode(&[0xFE]), Ok(MidiEvent::Other));
    assert_eq!(decode(&[0xC0, 5]), Ok(MidiEvent::Other));
    assert_eq!(decode(&[0xA0, 60, 10]), Ok(MidiEvent::Other));
    assert_eq!(decode(&[0xFA]), Ok(MidiEvent::Other));
}

#[test]
fn short_frames_fail() {
    assert_eq!(decode(&[0x90]), Err(DecodeError::NotEnoughBytes));
    assert_eq!(decode(&[0x90, 60]), Err(DecodeError::NotEnoughBytes));
    assert_eq!(decode(&[0x80, 60]), Err(DecodeError::NotEnoughBytes));
    assert_eq!(decode(&[0xB0, 1]), Err(DecodeError::NotEnoughBytes));
    assert_eq!(decode(&[0xE0, 0]), Err(DecodeError::NotEnoughBytes));
    assert_eq!(decode(&[0xC0]), Err(DecodeError::NotEnoughBytes));
    assert_eq!(decode(&[0xF2, 1]), Err(DecodeError::NotEnoughBytes));
    assert_eq!(decode(&[0xF0]), Err(DecodeError::NoSysExEndByte));
}

#[test]
fn each_decode_error_has_its_input() {
    assert_eq!(decode(&[]), Err(DecodeError::NoBytes));
    assert_eq!(decode(&[0x40, 0x40]), Err(DecodeError::UnexpectedDataByte));
    assert_eq!(decode(&[0x90, 0x90, 0x10]), Err(DecodeError::UnexpectedStatusByte));
    assert_eq!(decode(&[0xF0, 0x01, 0x02]), Err(DecodeError::NoSysExEndByte));
    assert_eq!(decode(&[0xF0, 0x01, 0xF8]), Err(DecodeError::UnexpectedNonSysExEndByte(0xF8)));
    assert_eq!(decode(&[0xF7]), Err(DecodeError::UnexpectedEndSysExByte));
}

#[test]
fn velocity_byte_error_comes_before_note_byte_error() {
    assert_eq!(decode(&[0x90, 0x80]), Err(DecodeError::NotEnoughBytes));
    assert_eq!(decode(&[0x80, 0x80]), Err(DecodeError::UnexpectedStatusByte));
}

#[test]
fn bytes_after_the_message_are_rejected() {
    assert_eq!(decode(&[0x90, 60, 100, 0x12]), Err(DecodeError::TooManyBytes));
    assert_eq!(decode(&[0xC0, 5, 6]), Err(DecodeError::TooManyBytes));
    assert_eq!(decode(&[0xF8, 0x00]), Err(DecodeError::TooManyBytes));
    assert_eq!(decode(&[0xF0, 0x01, 0xF7, 0x05]), Err(DecodeError::TooManyBytes));
    assert_eq!(decode(&[0xF0, 0x01, 0xF7, 0xF8]), Err(DecodeError::TooManyBytes));
}

#[test]
fn decimal_renders_numbers() {
    assert_eq!(decimal(0), "0");
    assert_eq!(decimal(7), "7");
    assert_eq!(decimal(8192), "8192");
    assert_eq!(decimal(u64::MAX), "18446744073709551615");
}

#[test]
fn report_lines_per_kind() {
    assert_eq!(
        report_frame(&[0x90, 60, 100]),
        Ok(vec!["Note on:".to_string(), "Channel: Ch1 | Note: C4(60) | Velocity: 100".to_string()])
    );
    assert_eq!(report_frame(&[0x80, 60, 0]), Ok(vec!["Note off:".to_string()]));
    assert_eq!(
        report_frame(&[0xEF, 0x00, 0x40]),
        Ok(vec!["Pitch Bend Change:".to_string(), "Channel: Ch16 | Value: 8192".to_string()])
    );
    assert_eq!(
        report_frame(&[0xB1, 74, 12]),
        Ok(vec![
            "Control Change:".to_string(),
            "Channel: Ch2 | Function: 74 | Value: 12".to_string()
        ])
    );
    assert_eq!(
        report_frame(&[0xF0, 0x01, 0x02, 0xF7]),
        Ok(vec!["System Exclusive Message: [1, 2]".to_string()])
    );
    assert_eq!(report_frame(&[0xF8]), Ok(vec!["CLOCK".to_string()]));
    assert_eq!(report_frame(&[0xFE]), Ok(vec!["Placeholder...".to_string()]));
    assert_eq!(report_frame(&[0x90]), Err(DecodeError::NotEnoughBytes));
}

#[test]
fn empty_sysex_report() {
    let e = MidiEvent::SystemExclusive { payload: vec![] };
    assert_eq!(describe(&e), vec!["System Exclusive Message: []".to_string()]);
}

#[test]
fn note_on_line_uses_given_name() {
    assert_eq!(note_on_line(9, 61, 5, "Db4"), "Channel: Ch10 | Note: Db4(61) | Velocity: 5");
}

#[test]
fn note_names_come_from_the_note_number() {
    let r = report_frame(&[0x90, 61, 1]).unwrap();
    assert_eq!(r[1], "Channel: Ch1 | Note: C#/Db4(61) | Velocity: 1");
}

#[test]
fn note_names_span_the_range() {
    let r = report_frame(&[0x90, 0, 9]).unwrap();
    assert_eq!(r[1], "Channel: Ch1 | Note: C-1(0) | Velocity: 9");
    let r = report_frame(&[0x90, 127, 9]).unwrap();
    assert_eq!(r[1], "Channel: Ch1 | Note: G9(127) | Velocity: 9");
    let r = report_frame(&[0x90, 70, 9]).unwrap();
    assert_eq!(r[1], "Channel: Ch1 | Note: A#/Bb4(70) | Velocity: 9");
}
