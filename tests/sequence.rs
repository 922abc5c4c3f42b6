use adc_dma::sequence::{
    find_role, Channel, ChannelRole, ConfigError, ContinuousMode, SampleTime, ScanSequence,
    MAX_CHANNELS,
};

fn input() -> Channel {
    Channel { role: ChannelRole::Input, sample_time: SampleTime::Cycles_2_5 }
}

#[test]
fn configure_rejects_empty_sequence() {
    assert_eq!(ScanSequence::configure(vec![]).err(), Some(ConfigError::EmptySequence));
}

#[test]
fn configure_rejects_too_many_channels() {
    let chs = vec![input(); MAX_CHANNELS + 1];
    assert_eq!(ScanSequence::configure(chs).err(), Some(ConfigError::TooManyChannels));
}

#[test]
fn configure_accepts_largest_sequence() {
    let s = ScanSequence::configure(vec![input(); MAX_CHANNELS]).unwrap();
    assert_eq!(s.frame_width(), 16);
    assert_eq!(s.rank(0), 1);
    assert_eq!(s.rank(15), 16);
}

#[test]
fn configure_keeps_order_and_defaults_to_continuous() {
    let t = Channel { role: ChannelRole::Temperature, sample_time: SampleTime::Cycles_640_5 };
    let s = ScanSequence::configure(vec![input(), t]).unwrap();
    assert_eq!(s.channels(), &vec![input(), t]);
    assert_eq!(s.mode(), ContinuousMode::Continuous);
}

#[test]
fn set_continuous_switches_mode_only() {
    let mut s = ScanSequence::configure(vec![input()]).unwrap();
    s.set_continuous(ContinuousMode::Discontinuous);
    assert_eq!(s.mode(), ContinuousMode::Discontinuous);
    assert_eq!(s.channels(), &vec![input()]);
}

#[test]
fn find_role_returns_first_match() {
    let r = Channel { role: ChannelRole::Reference, sample_time: SampleTime::Cycles_47_5 };
    let chs = vec![input(), r, r];
    assert_eq!(find_role(&chs, ChannelRole::Reference), Some(1));
    assert_eq!(find_role(&chs, ChannelRole::Input), Some(0));
    assert_eq!(find_role(&chs, ChannelRole::Temperature), None);
}
