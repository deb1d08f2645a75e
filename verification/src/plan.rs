//! Transaction planner: the ordered command-slot sequences that realize
//! each logical bus operation.
//!
//! A planned transaction never exceeds the hardware queue depth; a plan
//! that would is a construction-time logic error, so the planners demand
//! in-range lengths from their callers.

use vstd::prelude::*;

use crate::command::{Command, Opcode};

verus! {

/// Number of command slots the hardware queue offers.
pub const QUEUE_DEPTH: usize = 7;

/// A (repeated) start slot.
pub open spec fn start_slot() -> Command {
    Command {
        opcode: Opcode::Rstart,
        ack_value: false,
        ack_exp: false,
        ack_check_en: false,
        length: None,
    }
}

/// A stop slot.
pub open spec fn stop_slot() -> Command {
    Command {
        opcode: Opcode::Stop,
        ack_value: false,
        ack_exp: false,
        ack_check_en: false,
        length: None,
    }
}

/// A transmit slot of `length` bytes with acknowledge checking enabled.
pub open spec fn write_slot(ack_exp: bool, length: u8) -> Command {
    Command {
        opcode: Opcode::Write,
        ack_value: false,
        ack_exp,
        ack_check_en: true,
        length: Some(length),
    }
}

/// A receive slot of `length` bytes; `ack_value` says whether the
/// controller acknowledges each received byte.
pub open spec fn read_slot(ack_value: bool, length: u8) -> Command {
    Command {
        opcode: Opcode::Read,
        ack_value,
        ack_exp: false,
        ack_check_en: false,
        length: Some(length),
    }
}

/// Slots realizing a write of `data_len` payload bytes (the device
/// address byte travels in front of them): start, one transmit slot of
/// `1 + data_len` bytes, stop.
pub open spec fn spec_write_slots(data_len: int) -> Seq<Command> {
    seq![start_slot(), write_slot(false, (1 + data_len) as u8), stop_slot()]
}

/// Slots realizing a read into a buffer of `buffer_len` bytes: start,
/// the address byte transmitted, a receive slot acknowledging the first
/// `buffer_len - 1` bytes, a final receive slot, stop.
///
/// The final receive slot acknowledges its byte too; the usual bus
/// convention leaves the last byte of a read unacknowledged, as the
/// write-then-read sequence does.
pub open spec fn spec_read_slots(buffer_len: int) -> Seq<Command> {
    seq![
        start_slot(),
        write_slot(false, 1),
        read_slot(true, (buffer_len - 1) as u8),
        read_slot(true, 1),
        stop_slot(),
    ]
}

/// Slots realizing a write followed by a repeated-start read: start, the
/// address and payload transmitted, repeated start, the address
/// transmitted again, then the receive slots. A buffer of two or more
/// bytes takes two receive slots (all but the last byte acknowledged,
/// the last one not); a shorter buffer takes a single unacknowledged
/// one-byte receive slot.
pub open spec fn spec_write_then_read_slots(data_len: int, buffer_len: int) -> Seq<Command> {
    let head = seq![
        start_slot(),
        write_slot(true, (1 + data_len) as u8),
        start_slot(),
        write_slot(true, 1),
    ];
    if buffer_len > 1 {
        head + seq![read_slot(true, (buffer_len - 1) as u8), read_slot(false, 1), stop_slot()]
    } else {
        head + seq![read_slot(false, 1), stop_slot()]
    }
}

/// Plan the slots of a write of `data_len` payload bytes.
pub fn plan_write(data_len: u8) -> (t: Vec<Command>)
    requires
        data_len <= 254,
    ensures
        t@ == spec_write_slots(data_len as int),
        t@.len() <= QUEUE_DEPTH,
{
    let mut t: Vec<Command> = Vec::new();
    t.push(Command::new(Opcode::Rstart, false, false, false, None));
    t.push(Command::new(Opcode::Write, false, false, true, Some(1 + data_len)));
    t.push(Command::new(Opcode::Stop, false, false, false, None));
    proof {
        assert(t@ =~= spec_write_slots(data_len as int));
    }
    t
}

/// Plan the slots of a read into a buffer of `buffer_len` bytes.
pub fn plan_read(buffer_len: usize) -> (t: Vec<Command>)
    requires
        2 <= buffer_len <= 256,
    ensures
        t@ == spec_read_slots(buffer_len as int),
        t@.len() <= QUEUE_DEPTH,
{
    let mut t: Vec<Command> = Vec::new();
    t.push(Command::new(Opcode::Rstart, false, false, false, None));
    t.push(Command::new(Opcode::Write, false, false, true, Some(1)));
    t.push(Command::new(Opcode::Read, true, false, false, Some((buffer_len - 1) as u8)));
    t.push(Command::new(Opcode::Read, true, false, false, Some(1)));
    t.push(Command::new(Opcode::Stop, false, false, false, None));
    proof {
        assert(t@ =~= spec_read_slots(buffer_len as int));
    }
    t
}

/// Plan the slots of a write of `data_len` payload bytes followed by a
/// repeated-start read into a buffer of `buffer_len` bytes.
pub fn plan_write_then_read(data_len: u8, buffer_len: usize) -> (t: Vec<Command>)
    requires
        data_len <= 254,
        buffer_len <= 256,
    ensures
        t@ == spec_write_then_read_slots(data_len as int, buffer_len as int),
        t@.len() <= QUEUE_DEPTH,
{
    let mut t: Vec<Command> = Vec::new();
    t.push(Command::new(Opcode::Rstart, false, false, false, None));
    t.push(Command::new(Opcode::Write, false, true, true, Some(1 + data_len)));
    t.push(Command::new(Opcode::Rstart, false, false, false, None));
    t.push(Command::new(Opcode::Write, false, true, true, Some(1)));
    if buffer_len > 1 {
        t.push(Command::new(Opcode::Read, true, false, false, Some((buffer_len - 1) as u8)));
        t.push(Command::new(Opcode::Read, false, false, false, Some(1)));
        t.push(Command::new(Opcode::Stop, false, false, false, None));
    } else {
        t.push(Command::new(Opcode::Read, false, false, false, Some(1)));
        t.push(Command::new(Opcode::Stop, false, false, false, None));
    }
    proof {
        assert(t@ =~= spec_write_then_read_slots(data_len as int, buffer_len as int));
    }
    t
}

/// Law: every slot of every planned transaction satisfies the command
/// length invariant: a length is present exactly on the data-moving
/// slots, and always between 1 and 255.
pub proof fn lemma_plans_well_formed(data_len: int, buffer_len: int)
    requires
        0 <= data_len <= 254,
        0 <= buffer_len <= 256,
    ensures
        forall|i: int|
            0 <= i < spec_write_slots(data_len).len() ==> #[trigger] spec_write_slots(
                data_len,
            )[i].wf(),
        buffer_len >= 2 ==> forall|i: int|
            0 <= i < spec_read_slots(buffer_len).len() ==> #[trigger] spec_read_slots(
                buffer_len,
            )[i].wf(),
        forall|i: int|
            0 <= i < spec_write_then_read_slots(data_len, buffer_len).len()
                ==> #[trigger] spec_write_then_read_slots(data_len, buffer_len)[i].wf(),
{
    assert forall|i: int| 0 <= i < spec_write_slots(data_len).len() implies #[trigger] spec_write_slots(data_len)[i].wf() by {
        let s = spec_write_slots(data_len);
        assert(s[0].wf() && s[1].wf() && s[2].wf());
    }
    if buffer_len >= 2 {
        assert forall|i: int| 0 <= i < spec_read_slots(buffer_len).len() implies #[trigger] spec_read_slots(buffer_len)[i].wf() by {
            let s = spec_read_slots(buffer_len);
            assert(s[0].wf() && s[1].wf() && s[2].wf() && s[3].wf() && s[4].wf());
        }
    }
    assert forall|i: int|
        0 <= i < spec_write_then_read_slots(data_len, buffer_len).len()
            implies #[trigger] spec_write_then_read_slots(data_len, buffer_len)[i].wf() by {
        let s = spec_write_then_read_slots(data_len, buffer_len);
        if buffer_len > 1 {
            assert(s[0].wf() && s[1].wf() && s[2].wf() && s[3].wf() && s[4].wf() && s[5].wf()
                && s[6].wf());
        } else {
            assert(s[0].wf() && s[1].wf() && s[2].wf() && s[3].wf() && s[4].wf() && s[5].wf());
        }
    }
}

/// Law: a write-then-read with a one-byte buffer plans six slots whose
/// final receive slot is unacknowledged with length 1, followed by stop;
/// a buffer of two or more bytes plans seven slots where the penultimate
/// receive slot acknowledges `buffer_len - 1` bytes and the final one is
/// unacknowledged with length 1, followed by stop.
pub proof fn lemma_write_then_read_shape(data_len: int, buffer_len: int)
    requires
        0 <= data_len <= 254,
        1 <= buffer_len <= 256,
    ensures
        buffer_len == 1 ==> spec_write_then_read_slots(data_len, buffer_len).len() == 6,
        buffer_len == 1 ==> spec_write_then_read_slots(data_len, buffer_len)[4] == read_slot(
            false,
            1,
        ),
        buffer_len == 1 ==> spec_write_then_read_slots(data_len, buffer_len)[5] == stop_slot(),
        buffer_len >= 2 ==> spec_write_then_read_slots(data_len, buffer_len).len() == 7,
        buffer_len >= 2 ==> spec_write_then_read_slots(data_len, buffer_len)[4] == read_slot(
            true,
            (buffer_len - 1) as u8,
        ),
        buffer_len >= 2 ==> spec_write_then_read_slots(data_len, buffer_len)[5] == read_slot(
            false,
            1,
        ),
        buffer_len >= 2 ==> spec_write_then_read_slots(data_len, buffer_len)[6] == stop_slot(),
{
}

} // verus!
