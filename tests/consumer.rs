use adc_dma::calibration::{CalibrationConstants, ConversionError, Resolution};
use adc_dma::consumer::{average_double_frame, convert, FrameConsumer};
use adc_dma::sequence::{Channel, ChannelRole, SampleTime, ScanSequence};
use adc_dma::transfer::TransferError;

fn channel(role: ChannelRole) -> Channel {
    Channel { role, sample_time: SampleTime::Cycles_640_5 }
}

fn input_temp_ref() -> ScanSequence {
    ScanSequence::configure(vec![
        channel(ChannelRole::Input),
        channel(ChannelRole::Temperature),
        channel(ChannelRole::Reference),
    ])
    .unwrap()
}

fn constants() -> CalibrationConstants {
    CalibrationConstants { cal30_raw: 100, cal130_raw: 200, vref_cal_raw: 1000, nominal_mv: 3300 }
}

#[test]
fn averaging_pairs_matching_positions() {
    assert_eq!(average_double_frame(&[10, 20, 30, 14, 24, 34], 3), vec![12, 22, 32]);
}

#[test]
fn averaging_truncates_and_does_not_overflow() {
    assert_eq!(average_double_frame(&[1, 65535, 2, 65535], 2), vec![1, 65535]);
    assert_eq!(average_double_frame(&[], 0), Vec::<u16>::new());
}

#[test]
fn convert_reports_supply_channels_and_temperature() {
    let r = convert(&vec![2048, 150, 1000], &input_temp_ref(), constants(), Resolution::Twelve)
        .unwrap();
    assert_eq!(r.supply_mv, 3300);
    assert_eq!(r.channel_mv, vec![1650, 120, 805]);
    assert_eq!(r.temperature_centi, 8000);
}

#[test]
fn convert_at_doubled_supply() {
    let r = convert(&vec![4095, 75, 500], &input_temp_ref(), constants(), Resolution::Twelve)
        .unwrap();
    assert_eq!(r.supply_mv, 6600);
    assert_eq!(r.channel_mv, vec![6600, 120, 805]);
    assert_eq!(r.temperature_centi, 8000);
}

#[test]
fn convert_errors() {
    let no_ref = ScanSequence::configure(vec![
        channel(ChannelRole::Input),
        channel(ChannelRole::Temperature),
    ])
    .unwrap();
    assert_eq!(
        convert(&vec![1, 2], &no_ref, constants(), Resolution::Twelve).err(),
        Some(ConversionError::MissingReferenceChannel)
    );
    let no_temp = ScanSequence::configure(vec![
        channel(ChannelRole::Input),
        channel(ChannelRole::Reference),
    ])
    .unwrap();
    assert_eq!(
        convert(&vec![1, 1000], &no_temp, constants(), Resolution::Twelve).err(),
        Some(ConversionError::MissingTemperatureChannel)
    );
    assert_eq!(
        convert(&vec![1, 150, 0], &input_temp_ref(), constants(), Resolution::Twelve).err(),
        Some(ConversionError::ZeroReference)
    );
    let flat = CalibrationConstants { cal130_raw: 100, ..constants() };
    assert_eq!(
        convert(&vec![1, 150, 1000], &input_temp_ref(), flat, Resolution::Twelve).err(),
        Some(ConversionError::EqualCalibrationPoints)
    );
    let unpowered = CalibrationConstants { nominal_mv: 0, ..constants() };
    assert_eq!(
        convert(&vec![1, 150, 1000], &input_temp_ref(), unpowered, Resolution::Twelve).err(),
        Some(ConversionError::ZeroNominalSupply)
    );
}

#[test]
fn convert_uses_first_channel_of_each_role() {
    let seq = ScanSequence::configure(vec![
        channel(ChannelRole::Reference),
        channel(ChannelRole::Temperature),
        channel(ChannelRole::Reference),
        channel(ChannelRole::Temperature),
    ])
    .unwrap();
    let r = convert(&vec![500, 75, 1000, 150], &seq, constants(), Resolution::Twelve).unwrap();
    assert_eq!(r.supply_mv, 6600);
    assert_eq!(r.temperature_centi, 8000);
}

#[test]
fn consumer_defers_until_a_double_frame_is_available() {
    let consumer = FrameConsumer::new(input_temp_ref(), constants(), Resolution::Twelve);
    assert_eq!(consumer.double_frame_width(), 6);
    let mut ring = consumer.new_ring(12).unwrap();
    ring.start(|| {}).unwrap();
    ring.write_samples(&[1, 1, 1, 1, 1, 1, 1]);
    let mut scratch = [0u16; 7];
    ring.read_exact(&mut scratch).unwrap();
    assert!(!ring.transfer_complete_pending());
    ring.write_samples(&[2048, 150, 1000, 2048, 150]);
    assert!(ring.transfer_complete_pending());
    assert!(consumer.on_transfer_complete(&mut ring).is_none());
    assert!(!ring.transfer_complete_pending());
    assert_eq!(ring.elements_available(), 5);
}

#[test]
fn consumer_drains_averages_and_converts() {
    let consumer = FrameConsumer::new(input_temp_ref(), constants(), Resolution::Twelve);
    let mut ring = consumer.new_ring(12).unwrap();
    ring.start(|| {}).unwrap();
    ring.write_samples(&[2046, 148, 998, 2050, 152, 1002, 7]);
    let out = consumer.on_transfer_complete(&mut ring).unwrap().unwrap();
    assert_eq!(out.supply_mv, 3300);
    assert_eq!(out.channel_mv, vec![1650, 120, 805]);
    assert_eq!(out.temperature_centi, 8000);
    assert_eq!(ring.elements_available(), 1);
    assert!(!ring.transfer_complete_pending());
}

#[test]
fn consumer_reports_conversion_failure_after_draining() {
    let consumer = FrameConsumer::new(input_temp_ref(), constants(), Resolution::Twelve);
    let mut ring = consumer.new_ring(6).unwrap();
    ring.start(|| {}).unwrap();
    ring.write_samples(&[1, 2, 0, 1, 2, 0]);
    assert!(ring.transfer_complete_pending());
    let out = consumer.on_transfer_complete(&mut ring).unwrap();
    assert_eq!(out.err(), Some(ConversionError::ZeroReference));
    assert_eq!(ring.elements_available(), 0);
    assert!(!ring.transfer_complete_pending());
}

#[test]
fn consumer_ring_must_hold_whole_double_frames() {
    let consumer = FrameConsumer::new(input_temp_ref(), constants(), Resolution::Twelve);
    assert_eq!(consumer.new_ring(15).err(), Some(TransferError::InvalidCapacity));
    assert_eq!(consumer.new_ring(9).err(), Some(TransferError::InvalidCapacity));
    assert_eq!(consumer.new_ring(0).err(), Some(TransferError::InvalidCapacity));
    let ring = consumer.new_ring(18).unwrap();
    assert_eq!(ring.capacity(), 18);
    assert_eq!(ring.frame_width(), 6);
    assert_eq!(ring.elements_available(), 0);
    assert!(!ring.is_running());
}
