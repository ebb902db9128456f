use spout_transparent::config::{FramePacer, FrameRate};
use spout_transparent::time::{Duration, Instant};

#[test]
fn changing_rate_requests_an_immediate_frame() {
    let start = Instant::from_nanos(1_000_000_000);
    let mut pacer = FramePacer::new(start);
    pacer.presented(start);
    assert_eq!(pacer.cycle(), FrameRate::Fps120);
    assert!(pacer.is_due(start));
}

#[test]
fn capped_rate_waits_after_a_presented_frame() {
    let start = Instant::from_nanos(1_000_000_000);
    let mut pacer = FramePacer::new(start);
    pacer.cycle();
    pacer.presented(start);

    assert!(!pacer.is_due(start + Duration::from_millis(1)));
    assert!(pacer.is_due(start + Duration::from_millis(9)));
}

#[test]
fn capped_rate_returns_its_next_deadline() {
    let start = Instant::from_nanos(1_000_000_000);
    let mut pacer = FramePacer::new(start);
    pacer.cycle();
    pacer.presented(start);

    assert_eq!(
        pacer.next_wake(start, true, true),
        Some(start + FrameRate::Fps120.interval().unwrap())
    );
}

#[test]
fn nothing_is_due_before_the_wake_up() {
    let start = Instant::from_nanos(1_000_000_000);
    let mut pacer = FramePacer::new(start);
    pacer.set_rate(FrameRate::Fps30);
    pacer.presented(start);
    let wake = pacer.next_wake(start, true, true).unwrap();
    assert!(!pacer.is_due(Instant::from_nanos(wake.as_nanos() - 1)));
    assert!(pacer.is_due(wake));
}
