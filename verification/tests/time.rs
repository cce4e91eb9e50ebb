use tildagon::time::{Duration, Instant};

#[test]
fn instants_count_ticks() {
    assert_eq!(Instant::from_ticks(42).as_ticks(), 42);
    assert_eq!(Duration::from_ticks(7).as_ticks(), 7);
    assert!(Instant::from_ticks(1) < Instant::from_ticks(2));
}

#[test]
fn time_between_two_instants() {
    let earlier = Instant::from_ticks(1_000);
    let later = Instant::from_ticks(1_250);
    assert_eq!(later.duration_since(earlier), Duration::from_ticks(250));
    assert_eq!(later.duration_since(later), Duration::from_ticks(0));
    assert_eq!(later.checked_duration_since(earlier), Some(Duration::from_ticks(250)));
    assert_eq!(earlier.checked_duration_since(later), None);
    assert_eq!(
        Instant::from_ticks(u64::MAX).duration_since(Instant::from_ticks(0)),
        Duration::from_ticks(u64::MAX)
    );
}
