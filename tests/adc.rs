use capsules::adc::{log2_ceil_exec, sample_value, Adc, ContinuousConfig};
use capsules::return_code::ReturnCode;

#[test]
fn sample_before_initialize_is_off() {
    let mut a = Adc::new();
    assert_eq!(a.sample(1), Err(ReturnCode::EOFF));
    assert!(a.initialize());
    assert!(!a.initialize());
    assert_eq!(a.sample(15), Err(ReturnCode::EINVAL));
    assert_eq!(a.sample(1), Ok(0x0071_8070));
    assert_eq!(a.sample(14), Ok(0x007E_8070));
    assert_eq!(a.cancel_sample(), ReturnCode::FAIL);
}

#[test]
fn ceiling_log() {
    let cases = [(0u32, 0u32), (1, 0), (2, 1), (3, 2), (4, 2), (5, 3), (48000, 16), (65536, 16), (65537, 17)];
    for (n, k) in cases {
        assert_eq!(log2_ceil_exec(n), k);
    }
}

#[test]
fn continuous_setup_at_48_mhz() {
    let mut a = Adc::new();
    let (power_up, r) = a.sample_continuous(3, 500, 48_000_000);
    assert!(power_up);
    assert_eq!(r, Ok(ContinuousConfig { cfg: 0x748, seqcfg: 0x0073_8170, itimer: 186 }));
    assert_eq!(a.max_frequency(), 93_750);
    assert_eq!(a.compute_frequency(500), 501);
    assert_eq!(a.compute_frequency(0), 1);
    assert_eq!(a.compute_frequency(5000), 1000);
    assert_eq!(a.handle_interrupt(0x1), Some(false));
    assert_eq!(a.cancel_sampling(), ReturnCode::SUCCESS);
    assert_eq!(a.handle_interrupt(0x3), Some(true));
    assert_eq!(a.handle_interrupt(0x2), None);
}

#[test]
fn continuous_rejects_bad_channel_and_slow_clock() {
    let mut a = Adc::new();
    assert_eq!(a.sample_continuous(15, 500, 48_000_000), (true, Err(ReturnCode::EINVAL)));
    assert_eq!(a.sample_continuous(2, 1000, 115_000), (false, Err(ReturnCode::EINVAL)));
    let (_, r) = a.sample_continuous(2, 100, 115_000);
    assert_eq!(r, Ok(ContinuousConfig { cfg: 0x548, seqcfg: 0x0072_8170, itimer: 7 }));
}

#[test]
fn converted_value_is_low_half() {
    assert_eq!(sample_value(0xABCD_1234), 0x1234);
    assert_eq!(sample_value(0xFFFF), 0xFFFF);
}
