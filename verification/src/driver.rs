//! Driver facade: one owned bus engine, its setup sequence, and the
//! blocking transfer operations.
//!
//! Each operation is returned as the exact sequence of hardware
//! operations to replay: command slots staged, bytes pushed through the
//! write-path FIFO window, the transmission trigger, busy-waits on the
//! done flags in slot order, and (for reads) byte pops through the
//! read-path window.
//!
//! The completion protocol observes the per-slot done flags only.
//! Acknowledge checking is encoded into the transmit slots, but the
//! status the hardware records is deliberately left uninspected, so a
//! device that answers no-acknowledge stalls the busy-wait (until an
//! external watchdog intervenes) instead of surfacing as an error. The
//! transmit and receive failure indicators come from boundary
//! validation of the requested lengths alone.

use vstd::prelude::*;

use crate::error::Error;
use crate::instance::{
    spec_fifo_addr, Instance, OperationType, AHB_I2C0_ADDR, AHB_I2C1_ADDR, DPORT_I2C0_ADDR,
    DPORT_I2C1_ADDR, FIFO_OFFSET,
};
use crate::ops::{
    await_ops, completion_ops, enable_ops, filter_ops, lemma_pop_ops_snoc, lemma_push_ops_snoc,
    master_control, pop_ops, push_ops, reset_fifo_ops, reset_ops, ControlConfig, HwOp,
};
use crate::plan::{
    plan_read, plan_write, plan_write_then_read, spec_read_slots, spec_write_slots,
    spec_write_then_read_slots,
};
use crate::timing::{freq_valid, spec_timing, TimingProfile};

verus! {

/// Largest write payload: one address byte plus the payload must fit the
/// 1 to 255 length field of a single transmit slot.
pub const MAX_WRITE_LEN: usize = 254;

/// Largest receive buffer: all but the last byte must fit the 1 to 255
/// length field of the first receive slot.
pub const MAX_READ_LEN: usize = 256;

/// The device address byte that travels first on the bus: the seven-bit
/// address shifted left once, with the direction bit in the low bit.
pub open spec fn spec_address_byte(addr: u8, direction: OperationType) -> u8 {
    ((addr as int % 128) * 2 + direction.spec_direction_bit() as int) as u8
}

/// Executable twin of [`spec_address_byte`].
pub fn address_byte(addr: u8, direction: OperationType) -> (r: u8)
    ensures
        r == spec_address_byte(addr, direction),
{
    (addr % 128) * 2 + direction.direction_bit()
}

/// Law: the address byte equals the address shifted left once with the
/// direction bit or-ed into the vacated low bit.
pub proof fn lemma_address_byte_bits(addr: u8, direction: OperationType)
    ensures
        spec_address_byte(addr, direction) == ((addr << 1u8) | direction.spec_direction_bit()),
{
    let d = direction.spec_direction_bit();
    assert((addr << 1u8) | d == ((addr as int % 128) * 2 + d as int) as u8) by (bit_vector)
        requires
            d == 0 || d == 1,
    ;
}

/// The setup sequence run once at construction: reset pulse and clock
/// gate in the shared controller, interrupts disabled and cleared,
/// master-mode control value, FIFO access mode, FIFO reset, glitch
/// filters on both lines, derived timing, and the controller clock
/// enabled last.
pub open spec fn spec_setup_ops(instance: Instance, freq: u32) -> Seq<HwOp> {
    reset_ops(instance) + enable_ops(instance) + seq![
        HwOp::WriteInterruptEnable(0),
        HwOp::WriteInterruptClear(0x3FFF),
        HwOp::WriteControl(master_control()),
        HwOp::NonFifoEnable(false),
    ] + reset_fifo_ops() + filter_ops(Some(7), Some(7)) + seq![
        HwOp::WriteTiming(spec_timing(freq)),
        HwOp::ControllerClockOn,
    ]
}

/// The operation sequence of a write: FIFO reset, start slot, the
/// address byte and payload pushed through the write path, the transmit
/// and stop slots, then the completion protocol over three slots.
pub open spec fn spec_write_ops(instance: Instance, addr: u8, data: Seq<u8>) -> Seq<HwOp> {
    let slots = spec_write_slots(data.len() as int);
    let wa = spec_fifo_addr(instance, OperationType::Write);
    reset_fifo_ops() + seq![HwOp::WriteSlot(0, slots[0].spec_word())] + push_ops(
        wa,
        seq![spec_address_byte(addr, OperationType::Write)] + data,
    ) + seq![
        HwOp::WriteSlot(1, slots[1].spec_word()),
        HwOp::WriteSlot(2, slots[2].spec_word()),
    ] + completion_ops(3)
}

/// The operation sequence of a read: FIFO reset, start slot, the address
/// byte pushed through the write path, the address-transmit and two
/// receive slots and the stop slot, the completion protocol over five
/// slots, then the buffer popped byte by byte through the read path.
pub open spec fn spec_read_ops(instance: Instance, addr: u8, buffer_len: int) -> Seq<HwOp> {
    let slots = spec_read_slots(buffer_len);
    let wa = spec_fifo_addr(instance, OperationType::Write);
    let ra = spec_fifo_addr(instance, OperationType::Read);
    reset_fifo_ops() + seq![HwOp::WriteSlot(0, slots[0].spec_word())] + push_ops(
        wa,
        seq![spec_address_byte(addr, OperationType::Read)],
    ) + seq![
        HwOp::WriteSlot(1, slots[1].spec_word()),
        HwOp::WriteSlot(2, slots[2].spec_word()),
        HwOp::WriteSlot(3, slots[3].spec_word()),
        HwOp::WriteSlot(4, slots[4].spec_word()),
    ] + completion_ops(5) + pop_ops(ra, buffer_len)
}

/// The operation sequence of a write followed by a repeated-start read.
/// A buffer of two or more bytes consumes seven slots, a shorter one
/// six; either way the buffer is popped through the read path last.
pub open spec fn spec_write_then_read_ops(
    instance: Instance,
    addr: u8,
    data: Seq<u8>,
    buffer_len: int,
) -> Seq<HwOp> {
    let slots = spec_write_then_read_slots(data.len() as int, buffer_len);
    let wa = spec_fifo_addr(instance, OperationType::Write);
    let ra = spec_fifo_addr(instance, OperationType::Read);
    let head = reset_fifo_ops() + seq![HwOp::WriteSlot(0, slots[0].spec_word())] + push_ops(
        wa,
        seq![spec_address_byte(addr, OperationType::Write)] + data,
    ) + seq![
        HwOp::WriteSlot(1, slots[1].spec_word()),
        HwOp::WriteSlot(2, slots[2].spec_word()),
    ] + push_ops(wa, seq![spec_address_byte(addr, OperationType::Read)]) + seq![
        HwOp::WriteSlot(3, slots[3].spec_word()),
    ];
    let tail = if buffer_len > 1 {
        seq![
            HwOp::WriteSlot(4, slots[4].spec_word()),
            HwOp::WriteSlot(5, slots[5].spec_word()),
            HwOp::WriteSlot(6, slots[6].spec_word()),
        ] + completion_ops(7)
    } else {
        seq![
            HwOp::WriteSlot(4, slots[4].spec_word()),
            HwOp::WriteSlot(5, slots[5].spec_word()),
        ] + completion_ops(6)
    };
    head + tail + pop_ops(ra, buffer_len)
}

/// One exclusively owned bus engine, ready for transfers.
pub struct I2C {
    instance: Instance,
}

impl I2C {
    /// The engine this driver owns.
    pub closed spec fn spec_instance(&self) -> Instance {
        self.instance
    }

    /// Construct a driver for an engine and a target bus frequency, and
    /// the setup sequence to replay once before any transfer. An
    /// out-of-range frequency fails fast.
    pub fn new(instance: Instance, frequency: u32) -> (r: Result<(I2C, Vec<HwOp>), Error>)
        ensures
            freq_valid(frequency) ==> (r matches Ok(p) && p.0.spec_instance() == instance
                && p.1@ == spec_setup_ops(instance, frequency)),
            !freq_valid(frequency) ==> r == Err::<(I2C, Vec<HwOp>), Error>(
                Error::InvalidFrequency,
            ),
    {
        let timing = match TimingProfile::derive(frequency) {
            Some(t) => t,
            None => {
                return Err(Error::InvalidFrequency);
            },
        };
        let mut i2c = I2C { instance };
        let mut ops = i2c.reset();
        let mut enable = i2c.enable();
        ops.append(&mut enable);
        ops.push(HwOp::WriteInterruptEnable(0));
        ops.push(HwOp::WriteInterruptClear(0x3FFF));
        ops.push(
            HwOp::WriteControl(
                ControlConfig {
                    master_mode: true,
                    sda_force_out: true,
                    scl_force_out: true,
                    tx_lsb_first: false,
                    rx_lsb_first: false,
                },
            ),
        );
        ops.push(HwOp::NonFifoEnable(false));
        let mut fifo = i2c.reset_fifo();
        ops.append(&mut fifo);
        let mut filter = i2c.set_filter(Some(7), Some(7));
        ops.append(&mut filter);
        ops.push(HwOp::WriteTiming(timing));
        ops.push(HwOp::ControllerClockOn);
        proof {
            assert(ops@ =~= spec_setup_ops(instance, frequency));
        }
        Ok((i2c, ops))
    }

    /// The reset pulse for this engine in the shared clock/reset
    /// controller: set its reset bit, then clear it.
    pub fn reset(&mut self) -> (r: Vec<HwOp>)
        ensures
            *final(self) == *old(self),
            r@ == reset_ops(old(self).spec_instance()),
    {
        let mut ops: Vec<HwOp> = Vec::new();
        ops.push(HwOp::ResetAssert(self.instance));
        ops.push(HwOp::ResetClear(self.instance));
        proof {
            assert(ops@ =~= reset_ops(self.spec_instance()));
        }
        ops
    }

    /// Enable this engine: open its clock gate in the shared controller
    /// and ensure its reset bit is clear.
    pub fn enable(&mut self) -> (r: Vec<HwOp>)
        ensures
            *final(self) == *old(self),
            r@ == enable_ops(old(self).spec_instance()),
    {
        let mut ops: Vec<HwOp> = Vec::new();
        ops.push(HwOp::ClockOn(self.instance));
        ops.push(HwOp::ResetClear(self.instance));
        proof {
            assert(ops@ =~= enable_ops(self.spec_instance()));
        }
        ops
    }

    /// Reset both FIFO directions: pulse the transmit-FIFO reset bit,
    /// then the receive-FIFO reset bit.
    pub fn reset_fifo(&mut self) -> (r: Vec<HwOp>)
        ensures
            *final(self) == *old(self),
            r@ == reset_fifo_ops(),
    {
        let mut ops: Vec<HwOp> = Vec::new();
        ops.push(HwOp::TxFifoReset(true));
        ops.push(HwOp::TxFifoReset(false));
        ops.push(HwOp::RxFifoReset(true));
        ops.push(HwOp::RxFifoReset(false));
        proof {
            assert(ops@ =~= reset_fifo_ops());
        }
        ops
    }

    /// Configure the glitch filter of each line independently: a supplied
    /// threshold (in bus-clock cycles a pulse must persist) enables that
    /// line's filter, an absent one disables it.
    pub fn set_filter(&mut self, sda_threshold: Option<u8>, scl_threshold: Option<u8>) -> (r: Vec<
        HwOp,
    >)
        ensures
            *final(self) == *old(self),
            r@ == filter_ops(sda_threshold, scl_threshold),
    {
        let mut ops: Vec<HwOp> = Vec::new();
        match sda_threshold {
            Some(threshold) => {
                ops.push(HwOp::SdaFilterThreshold(threshold));
                ops.push(HwOp::SdaFilterEnable(true));
            },
            None => {
                ops.push(HwOp::SdaFilterEnable(false));
            },
        }
        match scl_threshold {
            Some(threshold) => {
                ops.push(HwOp::SclFilterThreshold(threshold));
                ops.push(HwOp::SclFilterEnable(true));
            },
            None => {
                ops.push(HwOp::SclFilterEnable(false));
            },
        }
        proof {
            assert(ops@ =~= filter_ops(sda_threshold, scl_threshold));
        }
        ops
    }

    /// Derive and stage the timing registers for a target bus frequency.
    pub fn set_frequency(&mut self, freq: u32) -> (r: Result<Vec<HwOp>, Error>)
        ensures
            *final(self) == *old(self),
            freq_valid(freq) ==> (r matches Ok(ops) && ops@ == seq![
                HwOp::WriteTiming(spec_timing(freq)),
            ]),
            !freq_valid(freq) ==> r == Err::<Vec<HwOp>, Error>(Error::InvalidFrequency),
    {
        let timing = match TimingProfile::derive(freq) {
            Some(t) => t,
            None => {
                return Err(Error::InvalidFrequency);
            },
        };
        let mut ops: Vec<HwOp> = Vec::new();
        ops.push(HwOp::WriteTiming(timing));
        proof {
            assert(ops@ =~= seq![HwOp::WriteTiming(spec_timing(freq))]);
        }
        Ok(ops)
    }

    /// Whether this driver owns the first engine.
    pub fn is_i2c0(&self) -> (r: bool)
        ensures
            r == (self.spec_instance() == Instance::I2c0),
    {
        match self.instance {
            Instance::I2c0 => true,
            Instance::I2c1 => false,
        }
    }

    /// The FIFO window address for the given direction: the read-safe
    /// window for pops, the write-safe window for pushes, each the
    /// engine's window base plus the fixed FIFO offset.
    pub fn fifo_addr(&self, operation_type: OperationType) -> (r: u32)
        ensures
            r == spec_fifo_addr(self.spec_instance(), operation_type),
    {
        let base_addr: u32 = match (operation_type, self.instance) {
            (OperationType::Read, Instance::I2c0) => DPORT_I2C0_ADDR,
            (OperationType::Read, Instance::I2c1) => DPORT_I2C1_ADDR,
            (OperationType::Write, Instance::I2c0) => AHB_I2C0_ADDR,
            (OperationType::Write, Instance::I2c1) => AHB_I2C1_ADDR,
        };
        base_addr + FIFO_OFFSET
    }

    /// Plan a blocking write of `bytes` to the device at `addr`: the
    /// returned sequence stages the transaction, pushes the address byte
    /// and payload, triggers transmission and waits for the three slots.
    /// A payload longer than [`MAX_WRITE_LEN`] is a transmit error.
    pub fn write(&mut self, addr: u8, bytes: &[u8]) -> (r: Result<Vec<HwOp>, Error>)
        ensures
            *final(self) == *old(self),
            bytes@.len() <= MAX_WRITE_LEN ==> (r matches Ok(ops) && ops@ == spec_write_ops(
                old(self).spec_instance(),
                addr,
                bytes@,
            )),
            bytes@.len() > MAX_WRITE_LEN ==> r == Err::<Vec<HwOp>, Error>(Error::Transmit),
    {
        if bytes.len() > MAX_WRITE_LEN {
            return Err(Error::Transmit);
        }
        let ghost instance = self.spec_instance();
        let mut ops = self.reset_fifo();
        let slots = plan_write(bytes.len() as u8);
        let wa = self.fifo_addr(OperationType::Write);
        ops.push(HwOp::WriteSlot(0, slots[0].encode()));
        ops.push(HwOp::FifoPush(wa, address_byte(addr, OperationType::Write)));
        let ghost prefix = reset_fifo_ops() + seq![
            HwOp::WriteSlot(0, spec_write_slots(bytes@.len() as int)[0].spec_word()),
            HwOp::FifoPush(wa, spec_address_byte(addr, OperationType::Write)),
        ];
        proof {
            assert(ops@ =~= prefix + push_ops(wa, bytes@.take(0)));
        }
        let n = bytes.len();
        for i in 0..n
            invariant
                n == bytes@.len(),
                ops@ == prefix + push_ops(wa, bytes@.take(i as int)),
        {
            ops.push(HwOp::FifoPush(wa, bytes[i]));
            proof {
                assert(bytes@.take(i + 1) =~= bytes@.take(i as int).push(bytes@[i as int]));
                lemma_push_ops_snoc(wa, bytes@.take(i as int), bytes@[i as int]);
            }
        }
        ops.push(HwOp::WriteSlot(1, slots[1].encode()));
        ops.push(HwOp::WriteSlot(2, slots[2].encode()));
        ops.push(HwOp::TransStart);
        ops.push(HwOp::AwaitDone(0));
        ops.push(HwOp::AwaitDone(1));
        ops.push(HwOp::AwaitDone(2));
        proof {
            assert(bytes@.take(n as int) =~= bytes@);
            assert(push_ops(wa, seq![spec_address_byte(addr, OperationType::Write)] + bytes@)
                =~= seq![HwOp::FifoPush(wa, spec_address_byte(addr, OperationType::Write))]
                + push_ops(wa, bytes@));
            assert(await_ops(3) =~= seq![HwOp::AwaitDone(0), HwOp::AwaitDone(1), HwOp::AwaitDone(2)]);
            assert(ops@ =~= spec_write_ops(instance, addr, bytes@));
        }
        Ok(ops)
    }

    /// Plan a blocking read of `buffer_len` bytes from the device at
    /// `addr`: the returned sequence stages the transaction, pushes the
    /// address byte, triggers transmission, waits for the five slots and
    /// pops the received bytes. A buffer outside 2 to [`MAX_READ_LEN`]
    /// bytes is a receive error.
    pub fn read(&mut self, addr: u8, buffer_len: usize) -> (r: Result<Vec<HwOp>, Error>)
        ensures
            *final(self) == *old(self),
            (2 <= buffer_len <= MAX_READ_LEN) ==> (r matches Ok(ops) && ops@ == spec_read_ops(
                old(self).spec_instance(),
                addr,
                buffer_len as int,
            )),
            !(2 <= buffer_len <= MAX_READ_LEN) ==> r == Err::<Vec<HwOp>, Error>(Error::Receive),
    {
        if buffer_len < 2 || buffer_len > MAX_READ_LEN {
            return Err(Error::Receive);
        }
        let ghost instance = self.spec_instance();
        let mut ops = self.reset_fifo();
        let slots = plan_read(buffer_len);
        let wa = self.fifo_addr(OperationType::Write);
        let ra = self.fifo_addr(OperationType::Read);
        ops.push(HwOp::WriteSlot(0, slots[0].encode()));
        ops.push(HwOp::FifoPush(wa, address_byte(addr, OperationType::Read)));
        ops.push(HwOp::WriteSlot(1, slots[1].encode()));
        ops.push(HwOp::WriteSlot(2, slots[2].encode()));
        ops.push(HwOp::WriteSlot(3, slots[3].encode()));
        ops.push(HwOp::WriteSlot(4, slots[4].encode()));
        ops.push(HwOp::TransStart);
        ops.push(HwOp::AwaitDone(0));
        ops.push(HwOp::AwaitDone(1));
        ops.push(HwOp::AwaitDone(2));
        ops.push(HwOp::AwaitDone(3));
        ops.push(HwOp::AwaitDone(4));
        let ghost before_pops = ops@;
        proof {
            assert(ops@ =~= before_pops + pop_ops(ra, 0));
        }
        for i in 0..buffer_len
            invariant
                ops@ == before_pops + pop_ops(ra, i as int),
        {
            ops.push(HwOp::FifoPop(ra));
            proof {
                lemma_pop_ops_snoc(ra, i as int);
            }
        }
        proof {
            assert(push_ops(wa, seq![spec_address_byte(addr, OperationType::Read)]) =~= seq![
                HwOp::FifoPush(wa, spec_address_byte(addr, OperationType::Read)),
            ]);
            assert(await_ops(5) =~= seq![
                HwOp::AwaitDone(0),
                HwOp::AwaitDone(1),
                HwOp::AwaitDone(2),
                HwOp::AwaitDone(3),
                HwOp::AwaitDone(4),
            ]);
            assert(ops@ =~= spec_read_ops(instance, addr, buffer_len as int));
        }
        Ok(ops)
    }

    /// Plan a blocking write of `bytes` followed, after a repeated start,
    /// by a read of `buffer_len` bytes from the device at `addr`. An
    /// over-long payload is a transmit error; a buffer longer than
    /// [`MAX_READ_LEN`] is a receive error.
    #[verifier::rlimit(60)]
    pub fn write_then_read(&mut self, addr: u8, bytes: &[u8], buffer_len: usize) -> (r: Result<
        Vec<HwOp>,
        Error,
    >)
        ensures
            *final(self) == *old(self),
            bytes@.len() > MAX_WRITE_LEN ==> r == Err::<Vec<HwOp>, Error>(Error::Transmit),
            bytes@.len() <= MAX_WRITE_LEN && buffer_len > MAX_READ_LEN ==> r == Err::<
                Vec<HwOp>,
                Error,
            >(Error::Receive),
            bytes@.len() <= MAX_WRITE_LEN && buffer_len <= MAX_READ_LEN ==> (r matches Ok(ops)
                && ops@ == spec_write_then_read_ops(
                old(self).spec_instance(),
                addr,
                bytes@,
                buffer_len as int,
            )),
    {
        if bytes.len() > MAX_WRITE_LEN {
            return Err(Error::Transmit);
        }
        if buffer_len > MAX_READ_LEN {
            return Err(Error::Receive);
        }
        let ghost instance = self.spec_instance();
        let mut ops = self.reset_fifo();
        let slots = plan_write_then_read(bytes.len() as u8, buffer_len);
        let wa = self.fifo_addr(OperationType::Write);
        let ra = self.fifo_addr(OperationType::Read);
        ops.push(HwOp::WriteSlot(0, slots[0].encode()));
        ops.push(HwOp::FifoPush(wa, address_byte(addr, OperationType::Write)));
        let ghost prefix = reset_fifo_ops() + seq![
            HwOp::WriteSlot(
                0,
                spec_write_then_read_slots(bytes@.len() as int, buffer_len as int)[0].spec_word(),
            ),
            HwOp::FifoPush(wa, spec_address_byte(addr, OperationType::Write)),
        ];
        proof {
            assert(ops@ =~= prefix + push_ops(wa, bytes@.take(0)));
        }
        let n = bytes.len();
        for i in 0..n
            invariant
                n == bytes@.len(),
                ops@ == prefix + push_ops(wa, bytes@.take(i as int)),
        {
            ops.push(HwOp::FifoPush(wa, bytes[i]));
            proof {
                assert(bytes@.take(i + 1) =~= bytes@.take(i as int).push(bytes@[i as int]));
                lemma_push_ops_snoc(wa, bytes@.take(i as int), bytes@[i as int]);
            }
        }
        proof {
            assert(bytes@.take(n as int) =~= bytes@);
        }
        ops.push(HwOp::WriteSlot(1, slots[1].encode()));
        ops.push(HwOp::WriteSlot(2, slots[2].encode()));
        ops.push(HwOp::FifoPush(wa, address_byte(addr, OperationType::Read)));
        ops.push(HwOp::WriteSlot(3, slots[3].encode()));
        if buffer_len > 1 {
            ops.push(HwOp::WriteSlot(4, slots[4].encode()));
            ops.push(HwOp::WriteSlot(5, slots[5].encode()));
            ops.push(HwOp::WriteSlot(6, slots[6].encode()));
            ops.push(HwOp::TransStart);
            ops.push(HwOp::AwaitDone(0));
            ops.push(HwOp::AwaitDone(1));
            ops.push(HwOp::AwaitDone(2));
            ops.push(HwOp::AwaitDone(3));
            ops.push(HwOp::AwaitDone(4));
            ops.push(HwOp::AwaitDone(5));
            ops.push(HwOp::AwaitDone(6));
            proof {
                assert(await_ops(7) =~= seq![
                    HwOp::AwaitDone(0),
                    HwOp::AwaitDone(1),
                    HwOp::AwaitDone(2),
                    HwOp::AwaitDone(3),
                    HwOp::AwaitDone(4),
                    HwOp::AwaitDone(5),
                    HwOp::AwaitDone(6),
                ]);
            }
        } else {
            ops.push(HwOp::WriteSlot(4, slots[4].encode()));
            ops.push(HwOp::WriteSlot(5, slots[5].encode()));
            ops.push(HwOp::TransStart);
            ops.push(HwOp::AwaitDone(0));
            ops.push(HwOp::AwaitDone(1));
            ops.push(HwOp::AwaitDone(2));
            ops.push(HwOp::AwaitDone(3));
            ops.push(HwOp::AwaitDone(4));
            ops.push(HwOp::AwaitDone(5));
            proof {
                assert(await_ops(6) =~= seq![
                    HwOp::AwaitDone(0),
                    HwOp::AwaitDone(1),
                    HwOp::AwaitDone(2),
                    HwOp::AwaitDone(3),
                    HwOp::AwaitDone(4),
                    HwOp::AwaitDone(5),
                ]);
            }
        }
        let ghost before_pops = ops@;
        proof {
            assert(ops@ =~= before_pops + pop_ops(ra, 0));
        }
        for i in 0..buffer_len
            invariant
                ops@ == before_pops + pop_ops(ra, i as int),
        {
            ops.push(HwOp::FifoPop(ra));
            proof {
                lemma_pop_ops_snoc(ra, i as int);
            }
        }
        proof {
            assert(push_ops(wa, seq![spec_address_byte(addr, OperationType::Write)] + bytes@)
                =~= seq![HwOp::FifoPush(wa, spec_address_byte(addr, OperationType::Write))]
                + push_ops(wa, bytes@));
            assert(push_ops(wa, seq![spec_address_byte(addr, OperationType::Read)]) =~= seq![
                HwOp::FifoPush(wa, spec_address_byte(addr, OperationType::Read)),
            ]);
            assert(ops@ =~= spec_write_then_read_ops(instance, addr, bytes@, buffer_len as int));
        }
        Ok(ops)
    }

    /// Relinquish exclusive ownership and return the raw engine.
    pub fn free(self) -> (r: Instance)
        ensures
            r == self.spec_instance(),
    {
        self.instance
    }
}

} // verus!
