use adc_pipeline::converter::{ConversionUnit, Resolution};
use adc_pipeline::engine::{TransferConfig, TransferEngine};
use adc_pipeline::error::ConfigurationError;
use adc_pipeline::pipeline::{Pipeline, Settings};
use adc_pipeline::trigger::{CounterWidth, TriggerSource};

fn transfer(dest_a: u32, dest_b: u32, capacity: u16) -> TransferConfig {
    TransferConfig { source: 0x4001_204C, dest_a, dest_b, capacity }
}

#[test]
fn period_must_fit_the_counter() {
    let armed = TriggerSource::arm(CounterWidth::Bits16, 0xFFFF).unwrap();
    assert_eq!(armed.period(), 0xFFFF);
    assert_eq!(armed.width(), CounterWidth::Bits16);
    assert!(!armed.is_running());
    assert_eq!(
        TriggerSource::arm(CounterWidth::Bits16, 0x1_0000).err(),
        Some(ConfigurationError::PeriodUnrepresentable)
    );
    assert_eq!(TriggerSource::arm(CounterWidth::Bits32, 0xFFFF_FFFF).unwrap().period(), 0xFFFF_FFFF);
    assert_eq!(
        TriggerSource::arm(CounterWidth::Bits32, 0x1_0000_0000).err(),
        Some(ConfigurationError::PeriodUnrepresentable)
    );
    assert_eq!(CounterWidth::Bits16.max_period(), 65_535);
    assert_eq!(CounterWidth::Bits32.max_period(), 4_294_967_295);
}

#[test]
fn trigger_source_starts_and_stops() {
    let mut trigger = TriggerSource::arm(CounterWidth::Bits32, 1815).unwrap();
    trigger.start();
    assert!(trigger.is_running());
    assert_eq!(trigger.period(), 1815);
    trigger.stop();
    assert!(!trigger.is_running());
}

#[test]
fn conversion_sequence_is_checked() {
    assert_eq!(
        ConversionUnit::configure(vec![], Resolution::Bits12).err(),
        Some(ConfigurationError::NoChannels)
    );
    assert_eq!(
        ConversionUnit::configure(vec![0; 17], Resolution::Bits12).err(),
        Some(ConfigurationError::TooManyChannels)
    );
    assert_eq!(
        ConversionUnit::configure(vec![0, 19], Resolution::Bits12).err(),
        Some(ConfigurationError::ChannelOutOfRange)
    );
    assert_eq!(
        ConversionUnit::configure(vec![19; 17], Resolution::Bits12).err(),
        Some(ConfigurationError::TooManyChannels)
    );
    let unit = ConversionUnit::configure(vec![18; 16], Resolution::Bits10).unwrap();
    assert_eq!(unit.channels(), &vec![18; 16]);
    assert_eq!(unit.resolution(), Resolution::Bits10);
    assert!(!unit.is_converting());
    assert!(!unit.overrun());
}

#[test]
fn samples_are_clipped_to_full_scale() {
    assert_eq!(Resolution::Bits12.full_scale(), 4095);
    assert_eq!(Resolution::Bits10.full_scale(), 1023);
    assert_eq!(Resolution::Bits8.full_scale(), 255);
    assert_eq!(Resolution::Bits6.full_scale(), 63);
    assert_eq!(Resolution::Bits12.sample(4095), 4095);
    assert_eq!(Resolution::Bits12.sample(4096), 4095);
    assert_eq!(Resolution::Bits12.sample(123), 123);
    assert_eq!(Resolution::Bits6.sample(64), 63);
    assert_eq!(Resolution::Bits6.sample(0), 0);
}

#[test]
fn stalled_conversion_unit_converts_nothing_until_restarted() {
    let mut unit = ConversionUnit::configure(vec![2, 0], Resolution::Bits12).unwrap();
    let mut levels = [0u16; 19];
    levels[0] = 10;
    levels[2] = 5000;
    assert_eq!(unit.sweep(&levels), vec![]);
    unit.start();
    assert!(unit.is_converting());
    assert_eq!(unit.sweep(&levels), vec![4095, 10]);
    unit.flag_overrun();
    assert!(unit.overrun());
    assert_eq!(unit.sweep(&levels), vec![]);
    unit.start();
    assert_eq!(unit.sweep(&levels), vec![]);
    unit.clear_overrun();
    assert!(!unit.overrun());
    assert_eq!(unit.sweep(&levels), vec![]);
    unit.start();
    assert_eq!(unit.sweep(&levels), vec![4095, 10]);
}

#[test]
fn transfer_configuration_is_checked() {
    assert_eq!(transfer(0x2000_0000, 0x2000_0018, 12).check(), Ok(()));
    assert_eq!(transfer(0x2000_0018, 0x2000_0000, 12).check(), Ok(()));
    assert_eq!(
        transfer(0x2000_0000, 0x2000_0018, 0).check(),
        Err(ConfigurationError::ZeroCapacity)
    );
    assert_eq!(
        transfer(0x2000_0001, 0x2000_0018, 12).check(),
        Err(ConfigurationError::Misaligned)
    );
    assert_eq!(
        transfer(0x2000_0000, 0x2000_0019, 12).check(),
        Err(ConfigurationError::Misaligned)
    );
    assert_eq!(
        transfer(0xFFFF_FFF0, 0x2000_0000, 12).check(),
        Err(ConfigurationError::BufferOutOfRange)
    );
    assert_eq!(transfer(0xFFFF_FFE8, 0x2000_0000, 12).check(), Ok(()));
    assert_eq!(
        transfer(0x2000_0000, 0x2000_0016, 12).check(),
        Err(ConfigurationError::BuffersOverlap)
    );
    assert_eq!(
        transfer(0x2000_0000, 0x2000_0000, 12).check(),
        Err(ConfigurationError::BuffersOverlap)
    );
    assert_eq!(transfer(0x2000_0000, 0x2000_0018, 12).address(adc_pipeline::buffer::BufferId::B), 0x2000_0018);
}

#[test]
fn engine_refuses_what_the_check_refuses() {
    assert_eq!(
        TransferEngine::new(transfer(0x2000_0000, 0x2000_0002, 2)).err(),
        Some(ConfigurationError::BuffersOverlap)
    );
    assert!(TransferEngine::new(transfer(0x2000_0000, 0x2000_0004, 2)).is_ok());
}

#[test]
fn settings_are_checked_unit_by_unit() {
    let good = || Settings {
        width: CounterWidth::Bits16,
        period: 1815,
        channels: vec![0],
        resolution: Resolution::Bits12,
        transfer: transfer(0x2000_0000, 0x2000_0018, 12),
    };
    assert!(Pipeline::configure(good()).is_ok());
    let mut bad = good();
    bad.period = 70_000;
    bad.channels = vec![];
    bad.transfer.capacity = 0;
    assert_eq!(
        Pipeline::configure(bad).err(),
        Some(ConfigurationError::PeriodUnrepresentable)
    );
    let mut bad = good();
    bad.channels = vec![];
    bad.transfer.capacity = 0;
    assert_eq!(Pipeline::configure(bad).err(), Some(ConfigurationError::NoChannels));
    let mut bad = good();
    bad.transfer.capacity = 0;
    assert_eq!(Pipeline::configure(bad).err(), Some(ConfigurationError::ZeroCapacity));
}
