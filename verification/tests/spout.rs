use spout_transparent::spout::discovery::{
    discover_sender_names, list_unavailable, parse_sender_names, sender_list_len,
};
use spout_transparent::spout::order::sort_names;
use spout_transparent::spout::receiver::{
    metadata_poll_interval, PollAction, PollEvent, SpoutReceiver, CONNECTED_METADATA_POLL_MILLIS,
};
use spout_transparent::spout::{
    frame_count_is_new, map_mutex_name, map_name, mutex_wait_outcome, normalize_not_found,
    read_len, read_sender_info, resource_changed, semaphore_was_taken, CounterProbe, ErrorKind,
    FrameCounter, NameRole, SenderInfo, SenderName, SpoutError, WaitOutcome,
    MAX_SENDER_LIST_BYTES, SENDER_NAME_CAPACITY, SHARED_TEXTURE_INFO_SIZE,
};
use spout_transparent::time::{Duration, Instant};

fn sender(name: &str) -> SenderName {
    SenderName::from_slot(name.as_bytes()).unwrap()
}

fn usable(handle: u32) -> SenderInfo {
    SenderInfo {
        share_handle: handle,
        width: 640,
        height: 480,
        format: 87,
        usage: 0,
        description: String::new(),
        partner_id: 1,
    }
}

fn millis(value: u64) -> Instant {
    Instant::from_nanos(value * 1_000_000)
}

/// Polls to the end and answers each read from `known`; counts the reads.
fn poll_to_end(
    receiver: &mut SpoutReceiver,
    now: Instant,
    known: &[(&str, Result<SenderInfo, SpoutError>)],
    reads: &mut Vec<String>,
) -> Result<bool, SpoutError> {
    let mut action = receiver.poll(PollEvent::Start, now);
    loop {
        match action {
            PollAction::Done(result) => return result,
            PollAction::Read(pending) => {
                let name = pending.sender().display_name();
                let outcome = known
                    .iter()
                    .find(|entry| entry.0 == name)
                    .map(|entry| entry.1.clone())
                    .unwrap_or(Err(SpoutError::NotFound));
                reads.push(name);
                action = receiver.poll(PollEvent::Read { pending, outcome }, now);
            }
        }
    }
}

#[test]
fn parses_sender_names_until_empty_slot() {
    let mut bytes = vec![0; SENDER_NAME_CAPACITY * 3];
    bytes[..5].copy_from_slice(b"Alpha");
    bytes[SENDER_NAME_CAPACITY..SENDER_NAME_CAPACITY + 4].copy_from_slice(b"Beta");

    let names: Vec<_> = parse_sender_names(&bytes)
        .iter()
        .map(|name| name.display_name())
        .collect();
    assert_eq!(names, ["Alpha", "Beta"]);
}

#[test]
fn parses_spout_shared_texture_info_layout() {
    let mut bytes = [0u8; SHARED_TEXTURE_INFO_SIZE];
    bytes[0..4].copy_from_slice(&0x89ab_cdefu32.to_le_bytes());
    bytes[4..8].copy_from_slice(&1920u32.to_le_bytes());
    bytes[8..12].copy_from_slice(&1080u32.to_le_bytes());
    bytes[12..16].copy_from_slice(&87u32.to_le_bytes());
    bytes[16..20].copy_from_slice(&1u32.to_le_bytes());
    bytes[20..25].copy_from_slice(b"alpha");
    bytes[276..280].copy_from_slice(&42u32.to_le_bytes());

    let info = SenderInfo::parse(&bytes).unwrap();
    assert_eq!(info.share_handle, 0x89ab_cdef);
    assert_eq!((info.width, info.height), (1920, 1080));
    assert_eq!(info.format, 87);
    assert_eq!(info.usage, 1);
    assert_eq!(info.description, "alpha");
    assert_eq!(info.partner_id, 42);
}

#[test]
fn sign_extends_spout_handle_on_64_bit_targets() {
    let info = SenderInfo {
        share_handle: 0x89ab_cdef,
        width: 1,
        height: 1,
        format: 0,
        usage: 0,
        description: String::new(),
        partner_id: 0,
    };
    assert_eq!(info.raw_handle() as isize, 0x89ab_cdefu32 as i32 as isize);
}

#[test]
fn detects_recreated_resource_even_when_handle_is_reused() {
    let previous = SenderInfo {
        share_handle: 7,
        width: 1920,
        height: 1080,
        format: 87,
        usage: 0,
        description: String::new(),
        partner_id: 10,
    };
    let current = SenderInfo {
        partner_id: 11,
        ..previous.clone()
    };

    assert!(resource_changed(&previous, &current));
}

#[test]
fn disconnected_metadata_polling_is_less_frequent() {
    assert!(metadata_poll_interval(false) > metadata_poll_interval(true));
    assert_eq!(
        metadata_poll_interval(true),
        Duration::from_millis(CONNECTED_METADATA_POLL_MILLIS)
    );
}

#[test]
fn zero_frame_count_keeps_legacy_senders_live() {
    let mut last = 0;
    assert!(frame_count_is_new(&mut last, 0));
    assert!(frame_count_is_new(&mut last, 0));
    assert_eq!(last, 0);
}

#[test]
fn repeated_nonzero_frame_count_is_not_new() {
    let mut last = 0;
    assert!(frame_count_is_new(&mut last, 7));
    assert!(!frame_count_is_new(&mut last, 7));
    assert!(frame_count_is_new(&mut last, 9));
}

#[test]
fn poll_intervals_have_their_lengths() {
    assert_eq!(metadata_poll_interval(true).as_nanos(), 100_000_000);
    assert_eq!(metadata_poll_interval(false).as_nanos(), 500_000_000);
}

#[test]
fn short_description_is_truncated() {
    assert_eq!(SenderInfo::parse(&[0; 279]), Err(SpoutError::Truncated));
    assert!(SenderInfo::parse(&[0; 281]).is_ok());
    assert_eq!(
        read_sender_info(Ok(vec![0; 10])),
        Err(SpoutError::Truncated)
    );
    assert_eq!(
        read_sender_info(Err(SpoutError::Busy)),
        Err(SpoutError::Busy)
    );
}

#[test]
fn description_that_is_no_utf8_is_replaced() {
    let mut bytes = [0u8; SHARED_TEXTURE_INFO_SIZE];
    bytes[20] = 0xff;
    bytes[21] = b'x';
    bytes[23] = b'y';
    assert_eq!(SenderInfo::parse(&bytes).unwrap().description, "\u{fffd}x");
}

#[test]
fn name_without_padding_fills_its_slot() {
    let bytes = vec![b'n'; SENDER_NAME_CAPACITY + 100];
    let names = parse_sender_names(&bytes);
    assert_eq!(names.len(), 1);
    assert_eq!(names[0].as_bytes().len(), SENDER_NAME_CAPACITY);
}

#[test]
fn empty_slot_holds_no_name() {
    assert!(SenderName::from_slot(&[0, b'a']).is_none());
    assert!(SenderName::from_slot(&[]).is_none());
    assert_eq!(
        SenderName::from_slot(b"ab\0cd").unwrap().as_bytes(),
        b"ab"
    );
}

#[test]
fn objects_of_a_sender_have_their_names() {
    let name = sender("Cam");
    assert_eq!(name.counter_name().unwrap(), b"Cam_Count_Semaphore");
    assert_eq!(name.texture_mutex_name().unwrap(), b"Cam_SpoutAccessMutex");
    assert_eq!(map_name(b"Cam").unwrap(), b"Cam");
    assert_eq!(map_mutex_name(b"Cam").unwrap(), b"Cam_mutex");
}

#[test]
fn names_with_a_zero_are_refused() {
    assert_eq!(
        map_name(b"a\0b"),
        Err(SpoutError::NulInName(NameRole::Mapping))
    );
    assert_eq!(
        map_mutex_name(b"a\0b"),
        Err(SpoutError::NulInName(NameRole::Mutex))
    );
    assert_eq!(
        SpoutError::NulInName(NameRole::Sender).message(),
        Some("sender name contains NUL")
    );
    assert_eq!(
        SpoutError::NulInName(NameRole::Mapping).message(),
        Some("map name contains NUL")
    );
    assert_eq!(
        SpoutError::NulInName(NameRole::Mutex).message(),
        Some("mutex name contains NUL")
    );
    assert_eq!(
        SpoutError::Truncated.message(),
        Some("Spout sender metadata is truncated")
    );
    assert_eq!(SpoutError::Busy.message(), Some("Spout metadata is busy"));
}

#[test]
fn system_describes_its_own_failures() {
    let refused = SpoutError::Os {
        code: 5,
        kind: ErrorKind::Other,
    };
    assert_eq!(refused.message(), None);
    assert_eq!(refused.system_code(), Some(5));
    assert_eq!(SpoutError::NotFound.message(), None);
    assert_eq!(SpoutError::NotFound.system_code(), Some(2));
    assert_eq!(SpoutError::Busy.system_code(), None);
}

#[test]
fn names_are_quoted_in_diagnostic_output() {
    assert_eq!(sender("Alpha").debug_text(), "SenderName(\"Alpha\")");
    assert_eq!(sender("a\"b\n").debug_text(), "SenderName(\"a\\\"b\\n\")");
    let odd = SenderName::from_slot(&[0x41, 0xff]).unwrap();
    assert_eq!(odd.debug_text(), "SenderName(\"A\u{fffd}\")");
}

#[test]
fn gone_sender_gives_way_to_another() {
    let mut receiver = SpoutReceiver::new(millis(0));
    receiver.select(sender("gone"), millis(0));
    receiver.update_discovered(vec![sender("gone"), sender("zeta"), sender("beta")]);
    let known = [("beta", Ok(usable(7))), ("zeta", Ok(usable(9)))];
    let mut reads = Vec::new();
    assert_eq!(
        poll_to_end(&mut receiver, millis(0), &known, &mut reads),
        Ok(true)
    );
    assert_eq!(reads, ["gone", "beta"]);
    assert_eq!(receiver.current_name().unwrap().display_name(), "beta");
    assert_eq!(receiver.generation(), 1);
}

#[test]
fn errors_have_their_kinds() {
    assert_eq!(SpoutError::NotFound.kind(), ErrorKind::NotFound);
    assert_eq!(SpoutError::Busy.kind(), ErrorKind::WouldBlock);
    assert_eq!(SpoutError::Truncated.kind(), ErrorKind::UnexpectedEof);
    assert_eq!(
        SpoutError::NulInName(NameRole::Mutex).kind(),
        ErrorKind::InvalidInput
    );
    let refused = SpoutError::Os {
        code: 5,
        kind: ErrorKind::Other,
    };
    assert_eq!(refused.kind(), ErrorKind::Other);
    assert_eq!(normalize_not_found(refused), refused);
    let missing = SpoutError::Os {
        code: 2,
        kind: ErrorKind::Other,
    };
    assert_eq!(normalize_not_found(missing), SpoutError::NotFound);
}

#[test]
fn waits_are_read() {
    assert_eq!(mutex_wait_outcome(0), WaitOutcome::Acquired);
    assert_eq!(mutex_wait_outcome(0x80), WaitOutcome::Acquired);
    assert_eq!(mutex_wait_outcome(0x102), WaitOutcome::TimedOut);
    assert_eq!(mutex_wait_outcome(u32::MAX), WaitOutcome::Failed);
    assert!(semaphore_was_taken(0));
    assert!(!semaphore_was_taken(0x80));
    assert_eq!(read_len(280, 4096), 280);
    assert_eq!(read_len(280, 100), 100);
    assert_eq!(sender_list_len(4096), 4096);
    assert_eq!(sender_list_len(usize::MAX), MAX_SENDER_LIST_BYTES);
}

#[test]
fn unreadable_counter_counts_as_new() {
    let mut counter = FrameCounter::new();
    assert!(counter.is_new_frame(CounterProbe::Count(3)));
    assert!(!counter.is_new_frame(CounterProbe::Count(3)));
    assert!(counter.is_new_frame(CounterProbe::Unavailable));
    assert!(counter.is_new_frame(CounterProbe::NotReleased));
    assert!(!counter.is_new_frame(CounterProbe::Count(3)));
    assert!(counter.is_new_frame(CounterProbe::Count(0)));
    assert!(!counter.is_new_frame(CounterProbe::Count(3)));
}

#[test]
fn usable_textures_have_a_handle_and_an_extent() {
    assert!(usable(7).is_usable());
    assert!(!usable(0).is_usable());
    assert!(!usable(u32::MAX).is_usable());
    let flat = SenderInfo {
        height: 0,
        ..usable(7)
    };
    assert!(!flat.is_usable());
    let narrow = SenderInfo {
        width: 0,
        ..usable(7)
    };
    assert!(!narrow.is_usable());
}

#[test]
fn description_does_not_make_another_texture() {
    let renamed = SenderInfo {
        description: "another".to_string(),
        ..usable(7)
    };
    assert!(!resource_changed(&usable(7), &renamed));
}

#[test]
fn missing_list_means_no_senders() {
    assert_eq!(list_unavailable(SpoutError::NotFound).unwrap().len(), 0);
    assert_eq!(
        list_unavailable(SpoutError::Busy).err(),
        Some(SpoutError::Busy)
    );
}

#[test]
fn busy_senders_stay_in_the_list() {
    let names = vec![sender("gone"), sender("busy"), sender("fine"), sender("odd")];
    let probes = vec![
        Err(SpoutError::NotFound),
        Err(SpoutError::Busy),
        Ok(usable(1)),
        Err(SpoutError::Truncated),
    ];
    let kept: Vec<String> = discover_sender_names(names, &probes)
        .iter()
        .map(|name| name.display_name())
        .collect();
    assert_eq!(kept, ["busy", "fine"]);
}

#[test]
fn names_are_sorted_by_their_bytes() {
    let sorted: Vec<String> = sort_names(&vec![sender("b"), sender("a"), sender("B"), sender("ab")])
        .iter()
        .map(|name| name.display_name())
        .collect();
    assert_eq!(sorted, ["B", "a", "ab", "b"]);
}

#[test]
fn first_valid_sender_by_name_is_followed() {
    let mut receiver = SpoutReceiver::new(millis(0));
    receiver.update_discovered(vec![sender("zeta"), sender("beta"), sender("alpha")]);
    let known = [
        ("alpha", Ok(usable(0))),
        ("beta", Ok(usable(7))),
        ("zeta", Ok(usable(9))),
    ];
    let mut reads = Vec::new();
    assert_eq!(
        poll_to_end(&mut receiver, millis(0), &known, &mut reads),
        Ok(true)
    );
    assert_eq!(reads, ["alpha", "beta"]);
    assert_eq!(receiver.current_name().unwrap().display_name(), "beta");
    assert_eq!(receiver.sender_handle(), 7);
    assert_eq!(receiver.generation(), 1);
}

#[test]
fn returning_sender_is_followed_again() {
    let mut receiver = SpoutReceiver::new(millis(0));
    receiver.update_discovered(vec![sender("cam")]);
    let mut reads = Vec::new();
    let there = [("cam", Ok(usable(7)))];
    let gone = [("cam", Err(SpoutError::NotFound))];
    assert_eq!(
        poll_to_end(&mut receiver, millis(0), &there, &mut reads),
        Ok(true)
    );
    assert_eq!(
        poll_to_end(&mut receiver, millis(100), &gone, &mut reads),
        Ok(false)
    );
    assert_eq!(receiver.sender_handle(), 0);
    assert_eq!(receiver.current_name().unwrap().display_name(), "cam");
    assert_eq!(
        poll_to_end(&mut receiver, millis(599), &there, &mut reads),
        Ok(false)
    );
    assert_eq!(
        poll_to_end(&mut receiver, millis(600), &there, &mut reads),
        Ok(true)
    );
    assert_eq!(receiver.generation(), 2);
}

#[test]
fn busy_sender_stays_connected() {
    let mut receiver = SpoutReceiver::new(millis(0));
    receiver.update_discovered(vec![sender("cam")]);
    let mut reads = Vec::new();
    let there = [("cam", Ok(usable(7)))];
    let busy = [("cam", Err(SpoutError::Busy))];
    assert_eq!(
        poll_to_end(&mut receiver, millis(0), &there, &mut reads),
        Ok(true)
    );
    assert_eq!(
        poll_to_end(&mut receiver, millis(100), &busy, &mut reads),
        Ok(true)
    );
    assert_eq!(receiver.sender_handle(), 7);
    assert_eq!(receiver.generation(), 1);
}

#[test]
fn failures_of_a_poll_are_reported() {
    let mut receiver = SpoutReceiver::new(millis(0));
    receiver.select(sender("cam"), millis(0));
    let broken = [("cam", Err(SpoutError::Truncated))];
    let mut reads = Vec::new();
    assert_eq!(
        poll_to_end(&mut receiver, millis(0), &broken, &mut reads),
        Err(SpoutError::Truncated)
    );
}

#[test]
fn unusable_sender_is_disconnected() {
    let mut receiver = SpoutReceiver::new(millis(0));
    receiver.select(sender("cam"), millis(0));
    let mut reads = Vec::new();
    assert_eq!(
        poll_to_end(&mut receiver, millis(0), &[("cam", Ok(usable(7)))], &mut reads),
        Ok(true)
    );
    assert_eq!(
        poll_to_end(&mut receiver, millis(100), &[("cam", Ok(usable(0)))], &mut reads),
        Ok(false)
    );
    assert_eq!(receiver.sender_handle(), 0);
    assert_eq!(reads, ["cam", "cam"]);
    assert_eq!(
        poll_to_end(&mut receiver, millis(150), &[("cam", Ok(usable(7)))], &mut reads),
        Ok(false)
    );
    assert_eq!(reads.len(), 2);
}

#[test]
fn recreated_texture_gets_a_new_generation() {
    let mut receiver = SpoutReceiver::new(millis(0));
    receiver.select(sender("cam"), millis(0));
    let mut reads = Vec::new();
    let first = [("cam", Ok(usable(7)))];
    let again = [(
        "cam",
        Ok(SenderInfo {
            partner_id: 2,
            ..usable(7)
        }),
    )];
    assert_eq!(poll_to_end(&mut receiver, millis(0), &first, &mut reads), Ok(true));
    assert_eq!(poll_to_end(&mut receiver, millis(100), &first, &mut reads), Ok(true));
    assert_eq!(receiver.generation(), 1);
    assert_eq!(poll_to_end(&mut receiver, millis(200), &again, &mut reads), Ok(true));
    assert_eq!(receiver.generation(), 2);
}
