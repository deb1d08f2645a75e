use i2c_driver::command::{Command, Opcode};
use i2c_driver::plan::{plan_read, plan_write, plan_write_then_read, QUEUE_DEPTH};

fn start() -> Command {
    Command {
        opcode: Opcode::Rstart,
        ack_value: false,
        ack_exp: false,
        ack_check_en: false,
        length: None,
    }
}

fn stop() -> Command {
    Command {
        opcode: Opcode::Stop,
        ack_value: false,
        ack_exp: false,
        ack_check_en: false,
        length: None,
    }
}

#[test]
fn write_plan_is_start_write_stop() {
    let slots = plan_write(2);
    assert_eq!(
        slots,
        vec![
            start(),
            Command {
                opcode: Opcode::Write,
                ack_value: false,
                ack_exp: false,
                ack_check_en: true,
                length: Some(3),
            },
            stop(),
        ]
    );
    assert!(slots.len() <= QUEUE_DEPTH);
}

#[test]
fn read_plan_acknowledges_final_byte_too() {
    let slots = plan_read(4);
    assert_eq!(slots.len(), 5);
    assert_eq!(slots[0], start());
    assert_eq!(
        slots[1],
        Command {
            opcode: Opcode::Write,
            ack_value: false,
            ack_exp: false,
            ack_check_en: true,
            length: Some(1),
        }
    );
    assert_eq!(
        slots[2],
        Command {
            opcode: Opcode::Read,
            ack_value: true,
            ack_exp: false,
            ack_check_en: false,
            length: Some(3),
        }
    );
    // The final receive slot still acknowledges its byte, unlike the
    // write-then-read sequence.
    assert_eq!(
        slots[3],
        Command {
            opcode: Opcode::Read,
            ack_value: true,
            ack_exp: false,
            ack_check_en: false,
            length: Some(1),
        }
    );
    assert_eq!(slots[4], stop());
}

#[test]
fn write_then_read_plan_single_byte_buffer() {
    let slots = plan_write_then_read(0, 1);
    assert_eq!(slots.len(), 6);
    assert_eq!(slots[0], start());
    assert_eq!(
        slots[1],
        Command {
            opcode: Opcode::Write,
            ack_value: false,
            ack_exp: true,
            ack_check_en: true,
            length: Some(1),
        }
    );
    assert_eq!(slots[2], start());
    assert_eq!(
        slots[3],
        Command {
            opcode: Opcode::Write,
            ack_value: false,
            ack_exp: true,
            ack_check_en: true,
            length: Some(1),
        }
    );
    assert_eq!(
        slots[4],
        Command {
            opcode: Opcode::Read,
            ack_value: false,
            ack_exp: false,
            ack_check_en: false,
            length: Some(1),
        }
    );
    assert_eq!(slots[5], stop());
}

#[test]
fn write_then_read_plan_longer_buffer() {
    let slots = plan_write_then_read(2, 8);
    assert_eq!(slots.len(), 7);
    assert!(slots.len() <= QUEUE_DEPTH);
    assert_eq!(
        slots[1],
        Command {
            opcode: Opcode::Write,
            ack_value: false,
            ack_exp: true,
            ack_check_en: true,
            length: Some(3),
        }
    );
    // Penultimate receive slot acknowledges all but the last byte.
    assert_eq!(
        slots[4],
        Command {
            opcode: Opcode::Read,
            ack_value: true,
            ack_exp: false,
            ack_check_en: false,
            length: Some(7),
        }
    );
    // Final receive slot leaves the last byte unacknowledged.
    assert_eq!(
        slots[5],
        Command {
            opcode: Opcode::Read,
            ack_value: false,
            ack_exp: false,
            ack_check_en: false,
            length: Some(1),
        }
    );
    assert_eq!(slots[6], stop());
}
