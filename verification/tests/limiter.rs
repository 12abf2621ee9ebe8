use framepace::limiter::FramepaceSettings;
use framepace::limiter::Limiter;
use framepace::time::TimeSpan;

#[test]
fn only_off_is_disabled() {
    assert!(Limiter::Auto.is_enabled());
    assert!(Limiter::Manual(TimeSpan::from_millis(16)).is_enabled());
    assert!(Limiter::Manual(TimeSpan::zero()).is_enabled());
    assert!(!Limiter::Off.is_enabled());
}

#[test]
fn default_mode_is_auto() {
    assert_eq!(Limiter::default(), Limiter::Auto);
    assert_eq!(FramepaceSettings::default().limiter, Limiter::Auto);
    assert_eq!(
        FramepaceSettings::default(),
        FramepaceSettings { limiter: Limiter::Auto }
    );
}

#[test]
fn manual_takes_positive_frametimes_only() {
    let frametime = TimeSpan::from_micros(16_670);
    assert_eq!(Limiter::manual(frametime), Some(Limiter::Manual(frametime)));
    assert_eq!(
        Limiter::manual(TimeSpan::from_nanos(1)),
        Some(Limiter::Manual(TimeSpan::from_nanos(1)))
    );
    assert_eq!(Limiter::manual(TimeSpan::zero()), None);
}
