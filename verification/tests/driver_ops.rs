use i2c_driver::driver::I2C;
use i2c_driver::error::Error;
use i2c_driver::instance::{Instance, OperationType};
use i2c_driver::ops::{ControlConfig, HwOp};
use i2c_driver::timing::TimingProfile;

fn driver(instance: Instance) -> I2C {
    let (d, _setup) = I2C::new(instance, 100_000).unwrap();
    d
}

fn nominal_timing() -> TimingProfile {
    TimingProfile {
        scl_low: 400,
        scl_high: 400,
        sda_hold: 200,
        sda_sample: 200,
        setup: 400,
        hold: 400,
        timeout: 8000,
    }
}

#[test]
fn timing_derivation_nominal() {
    assert_eq!(TimingProfile::derive(100_000), Some(nominal_timing()));
}

#[test]
fn timing_derivation_edges() {
    assert_eq!(TimingProfile::derive(0), None);
    assert_eq!(TimingProfile::derive(40_000_001), None);
    // A frequency so low that the half cycle leaves its register.
    assert_eq!(TimingProfile::derive(300), None);
    let slowest = TimingProfile::derive(611).unwrap();
    assert_eq!(slowest.scl_low, 65466);
    let fastest = TimingProfile::derive(40_000_000).unwrap();
    assert_eq!(fastest.scl_low, 1);
    assert_eq!(fastest.timeout, 20);
}

#[test]
fn filter_one_line_enabled_one_disabled() {
    let mut d = driver(Instance::I2c0);
    assert_eq!(
        d.set_filter(Some(7), None),
        vec![
            HwOp::SdaFilterThreshold(7),
            HwOp::SdaFilterEnable(true),
            HwOp::SclFilterEnable(false),
        ]
    );
}

#[test]
fn filter_both_disabled() {
    let mut d = driver(Instance::I2c1);
    assert_eq!(
        d.set_filter(None, None),
        vec![HwOp::SdaFilterEnable(false), HwOp::SclFilterEnable(false)]
    );
}

#[test]
fn fifo_paths_differ_by_fixed_offset() {
    let d0 = driver(Instance::I2c0);
    let d1 = driver(Instance::I2c1);
    assert_eq!(d0.fifo_addr(OperationType::Write), 0x6001_301C);
    assert_eq!(d0.fifo_addr(OperationType::Read), 0x3FF5_301C);
    assert_eq!(d1.fifo_addr(OperationType::Write), 0x6002_701C);
    assert_eq!(d1.fifo_addr(OperationType::Read), 0x3FF6_701C);
    for d in [&d0, &d1] {
        assert_eq!(
            d.fifo_addr(OperationType::Write) - d.fifo_addr(OperationType::Read),
            0x200C_0000
        );
    }
    for a in [OperationType::Write, OperationType::Read] {
        for b in [OperationType::Write, OperationType::Read] {
            assert_ne!(d0.fifo_addr(a), d1.fifo_addr(b));
        }
    }
}

#[test]
fn setup_sequence_enables_controller_clock_last() {
    let (_, setup) = I2C::new(Instance::I2c0, 100_000).unwrap();
    assert_eq!(
        setup,
        vec![
            HwOp::ResetAssert(Instance::I2c0),
            HwOp::ResetClear(Instance::I2c0),
            HwOp::ClockOn(Instance::I2c0),
            HwOp::ResetClear(Instance::I2c0),
            HwOp::WriteInterruptEnable(0),
            HwOp::WriteInterruptClear(0x3FFF),
            HwOp::WriteControl(ControlConfig {
                master_mode: true,
                sda_force_out: true,
                scl_force_out: true,
                tx_lsb_first: false,
                rx_lsb_first: false,
            }),
            HwOp::NonFifoEnable(false),
            HwOp::TxFifoReset(true),
            HwOp::TxFifoReset(false),
            HwOp::RxFifoReset(true),
            HwOp::RxFifoReset(false),
            HwOp::SdaFilterThreshold(7),
            HwOp::SdaFilterEnable(true),
            HwOp::SclFilterThreshold(7),
            HwOp::SclFilterEnable(true),
            HwOp::WriteTiming(nominal_timing()),
            HwOp::ControllerClockOn,
        ]
    );
}

#[test]
fn construction_rejects_out_of_range_frequency() {
    assert!(matches!(
        I2C::new(Instance::I2c0, 0),
        Err(Error::InvalidFrequency)
    ));
    assert!(matches!(
        I2C::new(Instance::I2c1, 40_000_001),
        Err(Error::InvalidFrequency)
    ));
}

#[test]
fn set_frequency_stages_derived_timing() {
    let mut d = driver(Instance::I2c0);
    assert_eq!(
        d.set_frequency(100_000).unwrap(),
        vec![HwOp::WriteTiming(nominal_timing())]
    );
    assert!(matches!(d.set_frequency(1), Err(Error::InvalidFrequency)));
}

#[test]
fn write_trace_end_to_end() {
    let mut d = driver(Instance::I2c0);
    let wa: u32 = 0x6001_301C;
    let ops = d.write(0x50, &[0x01, 0x02]).unwrap();
    assert_eq!(
        ops,
        vec![
            HwOp::TxFifoReset(true),
            HwOp::TxFifoReset(false),
            HwOp::RxFifoReset(true),
            HwOp::RxFifoReset(false),
            HwOp::WriteSlot(0, 0x0000),
            HwOp::FifoPush(wa, 0xA0),
            HwOp::FifoPush(wa, 0x01),
            HwOp::FifoPush(wa, 0x02),
            HwOp::WriteSlot(1, 0x0903),
            HwOp::WriteSlot(2, 0x1800),
            HwOp::TransStart,
            HwOp::AwaitDone(0),
            HwOp::AwaitDone(1),
            HwOp::AwaitDone(2),
        ]
    );
}

#[test]
fn write_rejects_overlong_payload() {
    let mut d = driver(Instance::I2c0);
    let payload = vec![0u8; 255];
    assert!(matches!(d.write(0x50, &payload), Err(Error::Transmit)));
    let payload = vec![0u8; 254];
    assert!(d.write(0x50, &payload).is_ok());
}

#[test]
fn read_trace_end_to_end() {
    let mut d = driver(Instance::I2c1);
    let wa: u32 = 0x6002_701C;
    let ra: u32 = 0x3FF6_701C;
    let ops = d.read(0x50, 2).unwrap();
    assert_eq!(
        ops,
        vec![
            HwOp::TxFifoReset(true),
            HwOp::TxFifoReset(false),
            HwOp::RxFifoReset(true),
            HwOp::RxFifoReset(false),
            HwOp::WriteSlot(0, 0x0000),
            HwOp::FifoPush(wa, 0xA1),
            HwOp::WriteSlot(1, 0x0901),
            HwOp::WriteSlot(2, 0x1401),
            HwOp::WriteSlot(3, 0x1401),
            HwOp::WriteSlot(4, 0x1800),
            HwOp::TransStart,
            HwOp::AwaitDone(0),
            HwOp::AwaitDone(1),
            HwOp::AwaitDone(2),
            HwOp::AwaitDone(3),
            HwOp::AwaitDone(4),
            HwOp::FifoPop(ra),
            HwOp::FifoPop(ra),
        ]
    );
}

#[test]
fn read_rejects_bad_buffer_lengths() {
    let mut d = driver(Instance::I2c0);
    assert!(matches!(d.read(0x50, 0), Err(Error::Receive)));
    assert!(matches!(d.read(0x50, 1), Err(Error::Receive)));
    assert!(matches!(d.read(0x50, 257), Err(Error::Receive)));
    assert!(d.read(0x50, 256).is_ok());
}

#[test]
fn write_then_read_trace_single_byte_buffer() {
    let mut d = driver(Instance::I2c0);
    let wa: u32 = 0x6001_301C;
    let ra: u32 = 0x3FF5_301C;
    let ops = d.write_then_read(0x10, &[0xAA], 1).unwrap();
    assert_eq!(
        ops,
        vec![
            HwOp::TxFifoReset(true),
            HwOp::TxFifoReset(false),
            HwOp::RxFifoReset(true),
            HwOp::RxFifoReset(false),
            HwOp::WriteSlot(0, 0x0000),
            HwOp::FifoPush(wa, 0x20),
            HwOp::FifoPush(wa, 0xAA),
            HwOp::WriteSlot(1, 0x0B02),
            HwOp::WriteSlot(2, 0x0000),
            HwOp::FifoPush(wa, 0x21),
            HwOp::WriteSlot(3, 0x0B01),
            HwOp::WriteSlot(4, 0x1001),
            HwOp::WriteSlot(5, 0x1800),
            HwOp::TransStart,
            HwOp::AwaitDone(0),
            HwOp::AwaitDone(1),
            HwOp::AwaitDone(2),
            HwOp::AwaitDone(3),
            HwOp::AwaitDone(4),
            HwOp::AwaitDone(5),
            HwOp::FifoPop(ra),
        ]
    );
}

#[test]
fn write_then_read_trace_longer_buffer() {
    let mut d = driver(Instance::I2c0);
    let wa: u32 = 0x6001_301C;
    let ra: u32 = 0x3FF5_301C;
    let ops = d.write_then_read(0x10, &[], 3).unwrap();
    assert_eq!(
        ops,
        vec![
            HwOp::TxFifoReset(true),
            HwOp::TxFifoReset(false),
            HwOp::RxFifoReset(true),
            HwOp::RxFifoReset(false),
            HwOp::WriteSlot(0, 0x0000),
            HwOp::FifoPush(wa, 0x20),
            HwOp::WriteSlot(1, 0x0B01),
            HwOp::WriteSlot(2, 0x0000),
            HwOp::FifoPush(wa, 0x21),
            HwOp::WriteSlot(3, 0x0B01),
            HwOp::WriteSlot(4, 0x1402),
            HwOp::WriteSlot(5, 0x1001),
            HwOp::WriteSlot(6, 0x1800),
            HwOp::TransStart,
            HwOp::AwaitDone(0),
            HwOp::AwaitDone(1),
            HwOp::AwaitDone(2),
            HwOp::AwaitDone(3),
            HwOp::AwaitDone(4),
            HwOp::AwaitDone(5),
            HwOp::AwaitDone(6),
            HwOp::FifoPop(ra),
            HwOp::FifoPop(ra),
            HwOp::FifoPop(ra),
        ]
    );
}

#[test]
fn write_then_read_rejects_bad_lengths() {
    let mut d = driver(Instance::I2c1);
    let payload = vec![0u8; 255];
    assert!(matches!(
        d.write_then_read(0x10, &payload, 2),
        Err(Error::Transmit)
    ));
    assert!(matches!(
        d.write_then_read(0x10, &[], 257),
        Err(Error::Receive)
    ));
}

#[test]
fn address_high_bit_is_dropped() {
    let mut d = driver(Instance::I2c0);
    let ops = d.write(0xD0, &[]).unwrap();
    // 0xD0 keeps only its low seven bits before the shift.
    assert_eq!(ops[5], HwOp::FifoPush(0x6001_301C, 0xA0));
}

#[test]
fn free_returns_the_raw_instance() {
    let d = driver(Instance::I2c1);
    assert!(!d.is_i2c0());
    assert_eq!(d.free(), Instance::I2c1);
    let d = driver(Instance::I2c0);
    assert!(d.is_i2c0());
    assert_eq!(d.free(), Instance::I2c0);
}
