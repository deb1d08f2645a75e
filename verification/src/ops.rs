//! The hardware-operation vocabulary.
//!
//! Every register and FIFO touch the driver decides on is one [`HwOp`].
//! The verified core emits exact sequences of them; an unverified shim
//! replays each sequence onto the memory-mapped registers, in order and
//! without caching or reordering, since every touch has side effects.

use vstd::prelude::*;

use crate::instance::Instance;
use crate::timing::TimingProfile;

verus! {

/// Control-register configuration staged once at setup.
#[derive(Clone, Copy, Debug, PartialEq, Eq, Structural)]
pub struct ControlConfig {
    /// Drive the bus as the master.
    pub master_mode: bool,
    /// Force open-drain output on the data line.
    pub sda_force_out: bool,
    /// Force open-drain output on the clock line.
    pub scl_force_out: bool,
    /// Transmit least-significant bit first (cleared: most significant first).
    pub tx_lsb_first: bool,
    /// Receive least-significant bit first (cleared: most significant first).
    pub rx_lsb_first: bool,
}

/// One operation against the peripheral's registers or the shared
/// clock/reset controller.
#[derive(Clone, Copy, Debug, PartialEq, Eq)]
pub enum HwOp {
    /// Set the engine's reset bit in the shared clock/reset controller.
    ResetAssert(Instance),
    /// Clear the engine's reset bit in the shared clock/reset controller.
    ResetClear(Instance),
    /// Set the engine's clock-enable bit in the shared clock/reset controller.
    ClockOn(Instance),
    /// Write the interrupt-enable register.
    WriteInterruptEnable(u32),
    /// Write the interrupt-clear register.
    WriteInterruptClear(u32),
    /// Write the control register.
    WriteControl(ControlConfig),
    /// Set or clear the non-FIFO (stream) access bit; cleared selects FIFO mode.
    NonFifoEnable(bool),
    /// Set or clear the transmit-FIFO reset bit.
    TxFifoReset(bool),
    /// Set or clear the receive-FIFO reset bit.
    RxFifoReset(bool),
    /// Write the data-line glitch-filter threshold, in bus-clock cycles.
    SdaFilterThreshold(u8),
    /// Enable or disable the data-line glitch filter.
    SdaFilterEnable(bool),
    /// Write the clock-line glitch-filter threshold, in bus-clock cycles.
    SclFilterThreshold(u8),
    /// Enable or disable the clock-line glitch filter.
    SclFilterEnable(bool),
    /// Write all timing registers from a derived profile.
    WriteTiming(TimingProfile),
    /// Set the controller's clock-enable bit in the control register.
    ControllerClockOn,
    /// Write an encoded instruction word into the numbered command slot.
    WriteSlot(u8, u16),
    /// Push one byte through the FIFO write-path window at the address.
    FifoPush(u32, u8),
    /// Set the transmission-trigger bit.
    TransStart,
    /// Busy-wait until the numbered slot's done flag reads set.
    AwaitDone(u8),
    /// Pop one byte through the FIFO read-path window at the address.
    FifoPop(u32),
}

/// The four touches that reset both FIFO directions.
pub open spec fn reset_fifo_ops() -> Seq<HwOp> {
    seq![
        HwOp::TxFifoReset(true),
        HwOp::TxFifoReset(false),
        HwOp::RxFifoReset(true),
        HwOp::RxFifoReset(false),
    ]
}

/// The reset pulse for an engine: set the reset bit, then clear it.
pub open spec fn reset_ops(instance: Instance) -> Seq<HwOp> {
    seq![HwOp::ResetAssert(instance), HwOp::ResetClear(instance)]
}

/// Enabling an engine: open its clock gate and ensure its reset bit is clear.
pub open spec fn enable_ops(instance: Instance) -> Seq<HwOp> {
    seq![HwOp::ClockOn(instance), HwOp::ResetClear(instance)]
}

/// Per-line filter configuration: a supplied threshold is written and the
/// filter enabled; an absent one disables the filter. Lines are independent.
pub open spec fn filter_ops(sda_threshold: Option<u8>, scl_threshold: Option<u8>) -> Seq<HwOp> {
    (match sda_threshold {
        Some(t) => seq![HwOp::SdaFilterThreshold(t), HwOp::SdaFilterEnable(true)],
        None => seq![HwOp::SdaFilterEnable(false)],
    }) + (match scl_threshold {
        Some(t) => seq![HwOp::SclFilterThreshold(t), HwOp::SclFilterEnable(true)],
        None => seq![HwOp::SclFilterEnable(false)],
    })
}

/// The bytes of a sequence pushed in order through one write-path window.
pub open spec fn push_ops(addr: u32, bytes: Seq<u8>) -> Seq<HwOp> {
    bytes.map_values(|b: u8| HwOp::FifoPush(addr, b))
}

/// Busy-waits on the done flags of slots 0 to `n - 1`, strictly in slot order.
pub open spec fn await_ops(n: int) -> Seq<HwOp> {
    Seq::new(n as nat, |i: int| HwOp::AwaitDone(i as u8))
}

/// `n` pops in order through one read-path window.
pub open spec fn pop_ops(addr: u32, n: int) -> Seq<HwOp> {
    Seq::new(n as nat, |i: int| HwOp::FifoPop(addr))
}

/// The completion protocol over `n` consumed slots: trigger transmission,
/// then busy-wait on each slot's done flag in slot order.
pub open spec fn completion_ops(n: int) -> Seq<HwOp> {
    seq![HwOp::TransStart] + await_ops(n)
}

/// The control-register configuration of master-mode setup: master mode,
/// open-drain drive on both lines, most-significant-bit-first both ways.
pub open spec fn master_control() -> ControlConfig {
    ControlConfig {
        master_mode: true,
        sda_force_out: true,
        scl_force_out: true,
        tx_lsb_first: false,
        rx_lsb_first: false,
    }
}

/// Appending one byte to a push sequence appends one push operation.
pub proof fn lemma_push_ops_snoc(addr: u32, bytes: Seq<u8>, b: u8)
    ensures
        push_ops(addr, bytes.push(b)) == push_ops(addr, bytes).push(HwOp::FifoPush(addr, b)),
{
    assert(push_ops(addr, bytes.push(b)) =~= push_ops(addr, bytes).push(
        HwOp::FifoPush(addr, b),
    ));
}

/// Popping one byte more appends one pop operation.
pub proof fn lemma_pop_ops_snoc(addr: u32, n: int)
    requires
        n >= 0,
    ensures
        pop_ops(addr, n + 1) == pop_ops(addr, n).push(HwOp::FifoPop(addr)),
{
    assert(pop_ops(addr, n + 1) =~= pop_ops(addr, n).push(HwOp::FifoPop(addr)));
}

} // verus!
