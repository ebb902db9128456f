use spout_transparent::bytes::{contains_nul, nul_position, push_le32, read_le32};
use spout_transparent::config::{FramePacer, FrameRate};
use spout_transparent::spout::{NameRole, SpoutError};
use spout_transparent::spout_util::{
    list_senders, listed_names, receiver_name, ConnectStep, SpoutConnect,
};
use spout_transparent::text::{
    debug_capture_enabled, decimal_text, double_ampersands, matches_ignoring_ascii_case,
    same_bytes, same_text,
};
use spout_transparent::time::{Duration, Instant};

#[test]
fn rates_cycle_in_the_documented_order() {
    assert_eq!(FrameRate::Unlimited.cycle(), FrameRate::Fps120);
    assert_eq!(FrameRate::Fps120.cycle(), FrameRate::Fps60);
    assert_eq!(FrameRate::Fps60.cycle(), FrameRate::Fps30);
    assert_eq!(FrameRate::Fps30.cycle(), FrameRate::Unlimited);
}

#[test]
fn rates_have_their_intervals_and_names() {
    assert_eq!(FrameRate::Unlimited.interval(), None);
    assert_eq!(FrameRate::Fps30.interval(), Some(Duration::from_nanos(33_333_333)));
    assert_eq!(FrameRate::Fps60.interval(), Some(Duration::from_nanos(16_666_667)));
    assert_eq!(FrameRate::Fps120.interval(), Some(Duration::from_nanos(8_333_333)));
    assert_eq!(FrameRate::Unlimited.display_name(), "Unlimited");
    assert_eq!(FrameRate::Fps30.display_name(), "30fps");
    assert_eq!(FrameRate::Fps60.display_name(), "60fps");
    assert_eq!(FrameRate::Fps120.display_name(), "120fps");
}

#[test]
fn disconnected_pacer_retries_slowly() {
    let now = Instant::from_nanos(1_000);
    let mut pacer = FramePacer::new(now);
    assert_eq!(
        pacer.next_wake(now, false, false),
        Some(Instant::from_nanos(16_001_000))
    );
    assert_eq!(
        pacer.next_wake(now, true, false),
        Some(Instant::from_nanos(1_001_000))
    );
    assert_eq!(pacer.next_wake(now, true, true), None);
    pacer.set_rate(FrameRate::Fps60);
    pacer.presented(now);
    let late = Instant::from_nanos(900_000_000);
    assert_eq!(
        pacer.next_wake(late, true, true),
        Some(Instant::from_nanos(901_000_000))
    );
    assert_eq!(pacer.rate(), FrameRate::Fps60);
    pacer.request_frame();
    assert!(pacer.is_due(now));
}

#[test]
fn clock_does_not_run_backwards() {
    let early = Instant::from_nanos(5);
    let late = Instant::from_nanos(9);
    assert_eq!(late.duration_since(early), Duration::from_nanos(4));
    assert_eq!(early.duration_since(late), Duration::from_nanos(0));
    assert_eq!(late.as_nanos(), 9);
    assert_eq!(Duration::from_millis(3).as_nanos(), 3_000_000);
}

#[test]
fn numbers_are_stored_low_byte_first() {
    let mut bytes = vec![7];
    push_le32(&mut bytes, 0x0102_0304);
    assert_eq!(bytes, [7, 4, 3, 2, 1]);
    assert_eq!(read_le32(&bytes, 1), 0x0102_0304);
}

#[test]
fn zeros_are_found() {
    assert_eq!(nul_position(b"ab\0c\0"), 2);
    assert_eq!(nul_position(b"abc"), 3);
    assert!(contains_nul(b"a\0"));
    assert!(!contains_nul(b""));
}

#[test]
fn texts_are_compared() {
    assert!(same_text("größe", "größe"));
    assert!(!same_text("a", "b"));
    assert!(!same_text("a", "ab"));
    assert!(same_bytes(&[], &[]));
    assert!(matches_ignoring_ascii_case("YeS", "yes"));
    assert!(!matches_ignoring_ascii_case("YES!", "yes"));
    assert!(!matches_ignoring_ascii_case("\u{212a}", "k"));
}

#[test]
fn numbers_are_written_in_decimal() {
    assert_eq!(decimal_text(0), "0");
    assert_eq!(decimal_text(10), "10");
    assert_eq!(decimal_text(1_234_567_890), "1234567890");
}

#[test]
fn ampersands_are_doubled() {
    assert_eq!(double_ampersands("a&b&&c"), "a&&b&&&&c");
    assert_eq!(double_ampersands(""), "");
    assert_eq!(double_ampersands("源&"), "源&&");
}

#[test]
fn captures_are_switched_on_by_name() {
    assert!(debug_capture_enabled(Some("1")));
    assert!(debug_capture_enabled(Some("TRUE")));
    assert!(debug_capture_enabled(Some("yEs")));
    assert!(!debug_capture_enabled(Some("0")));
    assert!(!debug_capture_enabled(Some("")));
    assert!(!debug_capture_enabled(None));
}

#[test]
fn unreadable_and_empty_slots_are_not_listed() {
    let slots = vec![
        Some(b"cam\0junk".to_vec()),
        None,
        Some(vec![0; 256]),
        Some(vec![0xff]),
    ];
    assert_eq!(list_senders(&slots), ["cam", "\u{fffd}"]);
    assert_eq!(
        listed_names(&vec!["a".to_string(), String::new(), "b".to_string()]),
        ["a", "b"]
    );
}

#[test]
fn receiver_names_hold_no_zero() {
    assert_eq!(receiver_name("cam"), Ok(()));
    assert_eq!(
        receiver_name("c\0m"),
        Err(SpoutError::NulInName(NameRole::Sender))
    );
}

#[test]
fn connecting_is_given_up_after_five_seconds() {
    let mut connect = SpoutConnect::new();
    let mut waited = 0;
    while connect.next() == ConnectStep::Attempt {
        waited += connect.attempt_failed().as_nanos();
    }
    assert_eq!(connect.failed, 100);
    assert_eq!(waited, 5_000_000_000);
}
