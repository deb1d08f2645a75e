use i2c_driver::command::{
    extract_ack_check_en, extract_ack_exp, extract_ack_value, extract_length, extract_opcode,
    Command, Opcode,
};

fn round_trip(c: Command) {
    let word = c.encode();
    assert_eq!(extract_opcode(word), Some(c.opcode));
    assert_eq!(extract_ack_value(word), c.ack_value);
    assert_eq!(extract_ack_exp(word), c.ack_exp);
    assert_eq!(extract_ack_check_en(word), c.ack_check_en);
    let expected_length = match c.length {
        Some(l) => l,
        None => 0,
    };
    assert_eq!(extract_length(word), expected_length);
}

#[test]
fn round_trip_data_opcodes_all_lengths() {
    for opcode in [Opcode::Write, Opcode::Read] {
        for length in 0..=255u8 {
            round_trip(Command {
                opcode,
                ack_value: length % 2 == 0,
                ack_exp: length % 3 == 0,
                ack_check_en: length % 5 == 0,
                length: Some(length),
            });
        }
    }
}

#[test]
fn round_trip_control_opcodes_all_flags() {
    for opcode in [Opcode::Rstart, Opcode::Stop, Opcode::End] {
        for bits in 0..8u8 {
            round_trip(Command {
                opcode,
                ack_value: bits & 1 != 0,
                ack_exp: bits & 2 != 0,
                ack_check_en: bits & 4 != 0,
                length: None,
            });
        }
    }
}

#[test]
fn control_opcode_length_field_is_zero_whatever_length() {
    for opcode in [Opcode::Rstart, Opcode::Stop, Opcode::End] {
        for length in [Some(0u8), Some(1), Some(5), Some(255), None] {
            let c = Command {
                opcode,
                ack_value: false,
                ack_exp: false,
                ack_check_en: false,
                length,
            };
            assert_eq!(extract_length(c.encode()), 0);
        }
    }
}

#[test]
fn encode_exact_words() {
    let start = Command::new(Opcode::Rstart, false, false, false, None);
    assert_eq!(start.encode(), 0x0000);

    let write3 = Command::new(Opcode::Write, false, false, true, Some(3));
    assert_eq!(write3.encode(), 0x0903);

    let read2_ack = Command::new(Opcode::Read, true, false, false, Some(2));
    assert_eq!(read2_ack.encode(), 0x1402);

    let stop = Command::new(Opcode::Stop, false, false, false, None);
    assert_eq!(stop.encode(), 0x1800);

    let end = Command::new(Opcode::End, false, false, false, None);
    assert_eq!(end.encode(), 0x2000);

    let write_exp = Command::new(Opcode::Write, false, true, true, Some(1));
    assert_eq!(write_exp.encode(), 0x0B01);
}

#[test]
fn extract_opcode_rejects_unknown_field() {
    for bits in 5..=31u16 {
        assert_eq!(extract_opcode(bits << 11), None);
    }
}
