use framepace::detect::detect_frametime;
use framepace::detect::frametime_for_rate;
use framepace::detect::slowest_refresh_rate;
use framepace::detect::NANOS_TIMES_MILLIHERTZ;
use framepace::detect::RATE_MARGIN_MILLIHERTZ;
use framepace::time::TimeSpan;

#[test]
fn one_window_at_144_hertz() {
    // 1 / (144 - 0.5) s = 6 968 641.1 ns
    let frametime = detect_frametime(&[Some(144_000)]);
    assert_eq!(frametime, Some(TimeSpan::from_nanos(6_968_641)));
    // 6.97 ms, a little over the 6.94 ms of 144 Hz itself
    let nanos = frametime.unwrap().as_nanos();
    assert!(6_965_000 <= nanos && nanos < 6_975_000);
    assert!(nanos > 1_000_000_000 / 144);
}

#[test]
fn frametime_is_the_period_of_the_rate_less_half_a_hertz() {
    assert_eq!(RATE_MARGIN_MILLIHERTZ, 500);
    assert_eq!(NANOS_TIMES_MILLIHERTZ, 1_000_000_000_000);
    // 1 / 59.5 s = 16 806 722.7 ns
    assert_eq!(frametime_for_rate(60_000), Some(TimeSpan::from_nanos(16_806_723)));
    // 1 / 59.44 s = 16 823 687.8 ns
    assert_eq!(frametime_for_rate(59_940), Some(TimeSpan::from_nanos(16_823_688)));
    // 1 / 239.5 s = 4 175 365.3 ns
    assert_eq!(frametime_for_rate(240_000), Some(TimeSpan::from_nanos(4_175_365)));
    // 1 / 74.5 s = 13 422 818.8 ns
    assert_eq!(frametime_for_rate(75_000), Some(TimeSpan::from_nanos(13_422_819)));
    // 1 / 119.5 s = 8 368 200.8 ns
    assert_eq!(frametime_for_rate(120_000), Some(TimeSpan::from_nanos(8_368_201)));
    // 1 / 1.0 s
    assert_eq!(frametime_for_rate(1_500), Some(TimeSpan::from_secs(1)));
}

#[test]
fn frametime_is_longer_than_the_reported_period() {
    let reported_period = 1_000_000_000_000u128 / 144_000;
    let frametime = frametime_for_rate(144_000).unwrap();
    assert!(frametime.as_nanos() > reported_period);
}

#[test]
fn rates_without_a_period_are_unknown() {
    assert_eq!(frametime_for_rate(0), None);
    assert_eq!(frametime_for_rate(499), None);
    assert_eq!(frametime_for_rate(500), None);
    assert_eq!(frametime_for_rate(501), Some(TimeSpan::from_secs(1_000)));
    assert_eq!(detect_frametime(&[Some(500), Some(60_000)]), None);
}

#[test]
fn highest_rate_has_a_frametime() {
    // 10^12 / (4 294 967 295 - 500) = 232.8
    assert_eq!(frametime_for_rate(u32::MAX), Some(TimeSpan::from_nanos(233)));
}

#[test]
fn frametime_agrees_with_the_period_in_floating_point() {
    let rates = (501..5_000u32)
        .chain((5_000..4_000_000).step_by(997))
        .chain((4_000_000..u32::MAX).step_by(1_234_567))
        .chain([8_692, 41_460, 205_300, 1_024_500, 5_120_500, 25_600_500])
        .chain([128_000_500, 640_000_500, 3_200_000_500, u32::MAX]);
    for rate in rates {
        let hertz = rate as f64 / 1000.0 - 0.5;
        let period = std::time::Duration::from_secs_f64(1.0 / hertz);
        let frametime = frametime_for_rate(rate).unwrap();
        assert_eq!(frametime.as_nanos(), period.as_nanos(), "at {} mHz", rate);
    }
}

#[test]
fn half_a_nanosecond_goes_down_on_four_rates() {
    // 10^12 / 8 192 = 122 070 312.5, and so on
    assert_eq!(frametime_for_rate(8_692), Some(TimeSpan::from_nanos(122_070_312)));
    assert_eq!(frametime_for_rate(41_460), Some(TimeSpan::from_nanos(24_414_062)));
    assert_eq!(frametime_for_rate(205_300), Some(TimeSpan::from_nanos(4_882_812)));
    assert_eq!(frametime_for_rate(1_024_500), Some(TimeSpan::from_nanos(976_562)));
}

#[test]
fn half_a_nanosecond_goes_up_on_the_other_rates() {
    // 10^12 / 5 120 000 = 195 312.5, and so on
    assert_eq!(frametime_for_rate(5_120_500), Some(TimeSpan::from_nanos(195_313)));
    assert_eq!(frametime_for_rate(25_600_500), Some(TimeSpan::from_nanos(39_063)));
    assert_eq!(frametime_for_rate(128_000_500), Some(TimeSpan::from_nanos(7_813)));
    assert_eq!(frametime_for_rate(640_000_500), Some(TimeSpan::from_nanos(1_563)));
    assert_eq!(frametime_for_rate(3_200_000_500), Some(TimeSpan::from_nanos(313)));
}

#[test]
fn neighbours_of_a_half_round_to_the_nearest() {
    // 10^12 / 8 191 = 122 085 215.48; 10^12 / 8 193 = 122 055 413.16
    assert_eq!(frametime_for_rate(8_691), Some(TimeSpan::from_nanos(122_085_215)));
    assert_eq!(frametime_for_rate(8_693), Some(TimeSpan::from_nanos(122_055_413)));
}

#[test]
fn slowest_rate_is_the_minimum() {
    assert_eq!(slowest_refresh_rate(&[Some(144_000), Some(60_000), Some(75_000)]), Some(60_000));
    assert_eq!(slowest_refresh_rate(&[Some(60_000), Some(144_000)]), Some(60_000));
    assert_eq!(slowest_refresh_rate(&[Some(60_000), Some(60_000)]), Some(60_000));
    assert_eq!(slowest_refresh_rate(&[Some(59_940)]), Some(59_940));
}

#[test]
fn windows_without_a_rate_are_passed_over() {
    assert_eq!(slowest_refresh_rate(&[None, Some(144_000), None]), Some(144_000));
    assert_eq!(slowest_refresh_rate(&[Some(144_000), None, Some(120_000)]), Some(120_000));
    assert_eq!(
        detect_frametime(&[None, Some(144_000), None]),
        Some(TimeSpan::from_nanos(6_968_641))
    );
}

#[test]
fn nothing_reported_is_unknown() {
    assert_eq!(slowest_refresh_rate(&[]), None);
    assert_eq!(slowest_refresh_rate(&[None, None]), None);
    assert_eq!(detect_frametime(&[]), None);
    assert_eq!(detect_frametime(&[None]), None);
}

#[test]
fn windows_on_two_displays_take_the_slower_one() {
    assert_eq!(
        detect_frametime(&[Some(144_000), Some(60_000)]),
        Some(TimeSpan::from_nanos(16_806_723))
    );
    assert_eq!(
        detect_frametime(&[Some(60_000), Some(144_000)]),
        Some(TimeSpan::from_nanos(16_806_723))
    );
}
