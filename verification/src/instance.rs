//! The two independent bus engines and their fixed address windows.
//!
//! Each engine's FIFO is reachable through two physically distinct
//! address windows. A hardware erratum makes the window normally used
//! for register access lose consecutive writes to one address, and the
//! alternate window returns unpredictable values on FIFO reads; so
//! outgoing bytes go through the alternate (write-path) window and
//! incoming bytes through the register (read-path) window.

use vstd::prelude::*;

verus! {

/// Base of the address range whose FIFO window is safe for reads.
pub const DPORT_BASE_ADDR: u32 = 0x3FF4_0000;

/// Base of the alternate address range whose FIFO window is safe for writes.
pub const AHB_BASE_ADDR: u32 = 0x6000_0000;

/// Offset of the FIFO register inside an engine's register block.
pub const FIFO_OFFSET: u32 = 0x1C;

/// Offset of the first engine's register block from either base.
pub const I2C0_OFFSET: u32 = 0x1_3000;

/// Offset of the second engine's register block from either base.
pub const I2C1_OFFSET: u32 = 0x2_7000;

/// Read-path window base of the first engine.
pub const DPORT_I2C0_ADDR: u32 = DPORT_BASE_ADDR + I2C0_OFFSET;

/// Read-path window base of the second engine.
pub const DPORT_I2C1_ADDR: u32 = DPORT_BASE_ADDR + I2C1_OFFSET;

/// Write-path window base of the first engine.
pub const AHB_I2C0_ADDR: u32 = AHB_BASE_ADDR + I2C0_OFFSET;

/// Write-path window base of the second engine.
pub const AHB_I2C1_ADDR: u32 = AHB_BASE_ADDR + I2C1_OFFSET;

/// Which of the two independent bus engines is driven.
#[derive(Clone, Copy, Debug, PartialEq, Eq, Structural)]
pub enum Instance {
    /// The first bus engine.
    I2c0,
    /// The second bus engine.
    I2c1,
}

/// Direction of a byte moved through the FIFO.
#[derive(Clone, Copy, Debug, PartialEq, Eq, Structural)]
pub enum OperationType {
    /// A byte pushed towards the bus.
    Write,
    /// A byte popped from the bus.
    Read,
}

impl OperationType {
    /// The direction bit that joins the shifted device address on the bus.
    pub open spec fn spec_direction_bit(self) -> u8 {
        match self {
            OperationType::Write => 0,
            OperationType::Read => 1,
        }
    }

    /// Executable twin of [`OperationType::spec_direction_bit`].
    pub fn direction_bit(self) -> (r: u8)
        ensures
            r == self.spec_direction_bit(),
    {
        match self {
            OperationType::Write => 0,
            OperationType::Read => 1,
        }
    }
}

/// The FIFO window address an engine uses for the given direction.
pub open spec fn spec_fifo_addr(instance: Instance, direction: OperationType) -> u32 {
    match (direction, instance) {
        (OperationType::Read, Instance::I2c0) => (DPORT_I2C0_ADDR + FIFO_OFFSET) as u32,
        (OperationType::Read, Instance::I2c1) => (DPORT_I2C1_ADDR + FIFO_OFFSET) as u32,
        (OperationType::Write, Instance::I2c0) => (AHB_I2C0_ADDR + FIFO_OFFSET) as u32,
        (OperationType::Write, Instance::I2c1) => (AHB_I2C1_ADDR + FIFO_OFFSET) as u32,
    }
}

/// Law: for each engine the write-path and read-path FIFO addresses
/// differ by the fixed distance between the two address ranges.
pub proof fn lemma_fifo_paths_split(instance: Instance)
    ensures
        spec_fifo_addr(instance, OperationType::Write) == spec_fifo_addr(
            instance,
            OperationType::Read,
        ) + (AHB_BASE_ADDR - DPORT_BASE_ADDR),
{
    match instance {
        Instance::I2c0 => {},
        Instance::I2c1 => {},
    }
}

/// Law: the two engines' FIFO windows never overlap: no window address
/// of one engine equals a window address of the other.
pub proof fn lemma_fifo_windows_disjoint(a: OperationType, b: OperationType)
    ensures
        spec_fifo_addr(Instance::I2c0, a) != spec_fifo_addr(Instance::I2c1, b),
{
    match (a, b) {
        (OperationType::Read, OperationType::Read) => {},
        (OperationType::Read, OperationType::Write) => {},
        (OperationType::Write, OperationType::Read) => {},
        (OperationType::Write, OperationType::Write) => {},
    }
}

} // verus!
