use spout_transparent::interaction::hook_thread::{
    forwarded_message, forwarded_wparam, has_window_below, needs_client_point, point_to_lparam,
    HookCommand, HookThreadState, PassthroughEvent, Point, Rect, MK_LBUTTON, MK_MBUTTON,
    MK_RBUTTON, WM_LBUTTONDOWN, WM_LBUTTONUP, WM_MBUTTONDOWN, WM_MOUSEWHEEL, WM_RBUTTONDOWN,
};
use spout_transparent::interaction::hotkeys::{
    handle_hotkey_message, modifier_flags, parse_action, parse_hotkeys, parse_modifiers, parse_vk,
    poll_cycle_framerate, poll_quit, poll_toggle_interaction, poll_toggle_topmost,
    subclass_outcome, unregister_all_hotkeys, HotKeyAction, HotKeyBinding, HotkeyRegistry,
    HotkeyRequests, RawHotKeyDef, Registration, DEFAULT_HOTKEY_CONFIG, WM_HOTKEY_MSG,
};
use spout_transparent::interaction::{
    clamp_dimension, InteractionError, InteractionState, MaskDelivery, ScrollDirection, ZoomStep,
    ALPHA_UPDATE_MILLIS, MAX_RENDER_DIMENSION,
};
use spout_transparent::time::{Duration, Instant};

fn def(modifiers: &[&str], key: &str, action: &str) -> RawHotKeyDef {
    RawHotKeyDef {
        modifiers: modifiers.iter().map(|name| name.to_string()).collect(),
        key: key.to_string(),
        action: action.to_string(),
    }
}

fn config_fault(defs: Vec<RawHotKeyDef>) -> String {
    match parse_hotkeys(&defs) {
        Err(InteractionError::Config(text)) => text,
        other => panic!("unexpected outcome {other:?}"),
    }
}

fn screen(x: i32, y: i32) -> Point {
    Point { x, y }
}

#[test]
fn virtual_key_requires_exactly_one_character() {
    assert_eq!(parse_vk("a"), Some('A' as u32));
    assert_eq!(parse_vk("7"), Some('7' as u32));
    assert_eq!(parse_vk("AB"), None);
    assert_eq!(parse_vk(""), None);
}

#[test]
fn alpha_updates_are_time_based() {
    let start = Instant::from_nanos(5_000_000_000);
    let mut state = InteractionState::new(start);
    state.toggle_enabled(start);

    assert!(state.should_update_alpha(start));
    assert!(!state.should_update_alpha(start + Duration::from_millis(ALPHA_UPDATE_MILLIS / 2)));
    assert!(state.should_update_alpha(start + Duration::from_millis(ALPHA_UPDATE_MILLIS)));
}

#[test]
fn early_asks_do_not_put_off_the_next_alpha_update() {
    let at = |millis: u64| Instant::from_nanos(millis * 1_000_000);
    let mut state = InteractionState::new(at(0));
    assert!(!state.should_update_alpha(at(500)));
    state.toggle_enabled(at(1_000));
    assert!(state.should_update_alpha(at(1_000)));
    for early in [1_001, 1_050, 1_099] {
        assert!(!state.should_update_alpha(at(early)));
        state.toggle_topmost();
    }
    assert!(state.should_update_alpha(at(1_100)));
    assert!(!state.should_update_alpha(at(1_199)));
    assert!(state.should_update_alpha(at(1_350)));
    assert!(!state.should_update_alpha(at(1_449)));
}

#[test]
fn point_lparam_preserves_signed_coordinates() {
    let encoded = point_to_lparam(screen(-20, 42)) as u32;
    assert_eq!(encoded as u16 as i16, -20);
    assert_eq!((encoded >> 16) as u16 as i16, 42);
}

#[test]
fn wheel_wparam_preserves_delta() {
    assert_eq!(forwarded_wparam(WM_MOUSEWHEEL, 0xFF88_0000), 0xFF88_0000usize);
}

#[test]
fn extents_are_kept_within_limits() {
    assert_eq!(clamp_dimension(0), 1);
    assert_eq!(clamp_dimension(1), 1);
    assert_eq!(clamp_dimension(640), 640);
    assert_eq!(clamp_dimension(u64::MAX), MAX_RENDER_DIMENSION);
}

#[test]
fn keys_are_single_ascii_letters_or_digits() {
    assert_eq!(parse_vk("z"), Some(0x5A));
    assert_eq!(parse_vk("0"), Some(0x30));
    assert_eq!(parse_vk("-"), None);
    assert_eq!(parse_vk("é"), None);
    assert_eq!(parse_vk("ß"), None);
    assert_eq!(parse_vk("\u{17f}"), None);
    assert_eq!(parse_vk("\u{131}"), None);
}

#[test]
fn modifiers_may_be_written_in_any_case() {
    let names = |list: &[&str]| -> Vec<String> { list.iter().map(|name| name.to_string()).collect() };
    assert_eq!(parse_modifiers(&names(&["ctrl", "Shift"])), Some(0x4006));
    assert_eq!(parse_modifiers(&names(&["CONTROL", "alt", "ALT"])), Some(0x4003));
    assert_eq!(parse_modifiers(&names(&[])), Some(0x4000));
    assert_eq!(parse_modifiers(&names(&["win"])), None);
    assert_eq!(modifier_flags(&names(&["ctrl"])), None);
    assert_eq!(modifier_flags(&names(&["SHIFT", "CTRL"])), Some(0x4006));
}

#[test]
fn actions_have_their_names() {
    assert_eq!(
        parse_action("toggle_interaction"),
        Some(HotKeyAction::ToggleInteraction)
    );
    assert_eq!(parse_action("toggle_topmost"), Some(HotKeyAction::ToggleTopmost));
    assert_eq!(parse_action("cycle_framerate"), Some(HotKeyAction::CycleFrameRate));
    assert_eq!(parse_action("quit"), Some(HotKeyAction::Quit));
    assert_eq!(parse_action("Quit"), None);
}

#[test]
fn default_configuration_binds_the_documented_keys() {
    let config: serde_json::Value = serde_json::from_str(DEFAULT_HOTKEY_CONFIG).unwrap();
    let defs: Vec<RawHotKeyDef> = config["hotkeys"]
        .as_array()
        .unwrap()
        .iter()
        .map(|entry| RawHotKeyDef {
            modifiers: entry["modifiers"]
                .as_array()
                .unwrap()
                .iter()
                .map(|name| name.as_str().unwrap().to_string())
                .collect(),
            key: entry["key"].as_str().unwrap().to_string(),
            action: entry["action"].as_str().unwrap().to_string(),
        })
        .collect();
    let bindings = parse_hotkeys(&defs).unwrap();
    let found: Vec<(u32, char, HotKeyAction)> = bindings
        .iter()
        .map(|b| (b.modifiers, char::from_u32(b.vk).unwrap(), b.action))
        .collect();
    assert_eq!(
        found,
        [
            (0x4006, 'M', HotKeyAction::ToggleInteraction),
            (0x4006, 'F', HotKeyAction::CycleFrameRate),
            (0x4006, 'T', HotKeyAction::ToggleTopmost),
            (0x4006, 'Q', HotKeyAction::Quit),
        ]
    );
    let ids: Vec<i32> = bindings.iter().map(|b| b.id).collect();
    assert_eq!(ids, [1, 2, 3, 4]);
}

#[test]
fn faults_of_a_configuration_are_named() {
    let good = || def(&["CTRL"], "A", "quit");
    assert_eq!(
        config_fault(vec![good(), def(&["META"], "?", "?")]),
        "Invalid modifiers in hotkey 1"
    );
    assert_eq!(
        config_fault(vec![def(&["ALT"], "F1", "?")]),
        "Unknown key 'F1' in hotkey 0"
    );
    let mut many: Vec<RawHotKeyDef> = (0..10).map(|_| good()).collect();
    many.push(def(&["ALT"], "x", "explode"));
    assert_eq!(config_fault(many), "Unknown action 'explode' in hotkey 10");
    assert_eq!(parse_hotkeys(&Vec::new()).unwrap().len(), 0);
}

#[test]
fn refused_hotkey_releases_the_ones_before_it() {
    let bindings = parse_hotkeys(&vec![
        def(&["CTRL"], "A", "quit"),
        def(&["CTRL"], "B", "toggle_topmost"),
        def(&["CTRL"], "C", "cycle_framerate"),
    ])
    .unwrap();
    let mut registration = Registration::new(bindings);
    assert_eq!(registration.next().unwrap().id, 1);
    registration.report(true).unwrap();
    registration.report(true).unwrap();
    assert_eq!(registration.next().unwrap().vk, 'C' as u32);
    let failure = registration.report(false).unwrap_err();
    assert_eq!(failure.undo, [1, 2]);
    assert!(matches!(
        failure.error,
        InteractionError::HotKeyRegistrationFailed { id: 3 }
    ));
}

#[test]
fn registered_hotkeys_raise_their_requests() {
    let binding = |id, action| HotKeyBinding {
        id,
        modifiers: 0x4002,
        vk: 65,
        action,
    };
    let mut registration = Registration::new(vec![
        binding(1, HotKeyAction::Quit),
        binding(2, HotKeyAction::CycleFrameRate),
    ]);
    while registration.next().is_some() {
        registration.report(true).unwrap();
    }
    let mut registry = HotkeyRegistry::new();
    registration.finish(&mut registry);
    assert_eq!(registry.find_action(2), Some(HotKeyAction::CycleFrameRate));
    assert_eq!(registry.find_action(3), None);

    let mut requests = HotkeyRequests::none();
    assert!(!handle_hotkey_message(0x0100, 2, &registry, &mut requests));
    assert!(!poll_cycle_framerate(&mut requests));
    assert!(handle_hotkey_message(WM_HOTKEY_MSG, 2, &registry, &mut requests));
    assert!(handle_hotkey_message(WM_HOTKEY_MSG, 9, &registry, &mut requests));
    assert!(!poll_quit(&mut requests));
    assert!(poll_cycle_framerate(&mut requests));
    assert!(!poll_cycle_framerate(&mut requests));

    assert_eq!(unregister_all_hotkeys(&mut registry), [1, 2]);
    assert_eq!(registry.find_action(1), None);
}

#[test]
fn requests_are_taken_one_by_one() {
    let mut requests = HotkeyRequests::none();
    requests.raise(HotKeyAction::ToggleInteraction);
    requests.raise(HotKeyAction::ToggleTopmost);
    assert!(poll_toggle_topmost(&mut requests));
    assert!(!poll_toggle_topmost(&mut requests));
    assert!(poll_toggle_interaction(&mut requests));
    assert_eq!(requests, HotkeyRequests::none());
}

#[test]
fn missing_subclass_is_an_error() {
    assert!(subclass_outcome(true).is_ok());
    assert!(matches!(
        subclass_outcome(false),
        Err(InteractionError::SubclassInstallFailed)
    ));
}

#[test]
fn dragged_window_follows_the_pointer() {
    let now = Instant::from_nanos(0);
    let mut state = InteractionState::new(now);
    state.handle_mouse_input(true, true, (100, 100), Some((40, 50)));
    assert!(!state.is_dragging());
    assert!(state.toggle_enabled(now));
    state.handle_mouse_input(true, false, (100, 100), Some((40, 50)));
    assert!(!state.is_dragging());
    state.handle_mouse_input(true, true, (100, 100), Some((40, 50)));
    assert!(state.is_dragging());
    assert_eq!(state.handle_cursor_moved((70, 45), Some((40, 50))), Some((50, 45)));
    assert_eq!(state.handle_cursor_moved((70, 45), None), None);
    assert!(state.can_follow((70, 45), Some((40, 50))));
    assert!(!state.can_follow((i32::MAX, 0), Some((1, 0))));
    state.handle_mouse_input(false, true, (0, 0), None);
    assert!(!state.is_dragging());
    assert_eq!(state.handle_cursor_moved((70, 45), Some((40, 50))), None);
}

#[test]
fn switching_interaction_off_ends_a_drag() {
    let now = Instant::from_nanos(0);
    let mut state = InteractionState::new(now);
    state.toggle_enabled(now);
    state.handle_mouse_input(true, true, (1, 1), None);
    assert!(!state.toggle_enabled(now));
    assert!(!state.is_dragging());
    state.toggle_enabled(now);
    state.handle_mouse_input(true, true, (1, 1), None);
    state.cancel_drag();
    assert!(!state.is_dragging());
}

#[test]
fn wheel_zooms_only_during_interaction() {
    let now = Instant::from_nanos(0);
    let mut state = InteractionState::new(now);
    assert_eq!(state.handle_scroll(ScrollDirection::Up), ZoomStep::Keep);
    state.toggle_enabled(now);
    assert_eq!(state.handle_scroll(ScrollDirection::Up), ZoomStep::Larger);
    assert_eq!(state.handle_scroll(ScrollDirection::Down), ZoomStep::Smaller);
    assert_eq!(state.handle_scroll(ScrollDirection::Still), ZoomStep::Keep);
}

#[test]
fn topmost_switches_back_and_forth() {
    let mut state = InteractionState::new(Instant::from_nanos(0));
    assert!(state.toggle_topmost());
    assert!(state.is_topmost());
    assert!(!state.toggle_topmost());
}

#[test]
fn mask_goes_to_the_hook_while_there_is_one() {
    let mut state = InteractionState::new(Instant::from_nanos(0));
    assert!(state.needs_mouse_hook());
    match state.update_alpha_mask(vec![1, 2], 2, 1) {
        MaskDelivery::Unused(buffer) => assert_eq!(buffer, [1, 2]),
        other => panic!("unexpected delivery {other:?}"),
    }
    state.install_mouse_hook();
    assert!(!state.needs_mouse_hook());
    match state.update_alpha_mask(vec![1, 2], 2, 1) {
        MaskDelivery::Send(HookCommand::UpdateMask(alpha, 2, 1)) => assert_eq!(alpha, [1, 2]),
        other => panic!("unexpected delivery {other:?}"),
    }
    match state.invalidate_alpha_mask() {
        MaskDelivery::Send(HookCommand::UpdateMask(alpha, 0, 0)) => assert_eq!(alpha.len(), 0),
        other => panic!("unexpected delivery {other:?}"),
    }
    state.cleanup();
    assert!(state.needs_mouse_hook());
}

#[test]
fn clicks_fall_through_transparent_pixels() {
    let mut hook = HookThreadState::new();
    let rect = Rect {
        left: 100,
        top: 100,
        right: 104,
        bottom: 102,
    };
    // A mask of two by one pixels, shown twice as large: the left half is transparent.
    assert!(hook.apply(HookCommand::UpdateMask(vec![9, 10], 2, 1)));
    assert!(!hook.watches(0, WM_LBUTTONDOWN));
    assert!(hook.apply(HookCommand::SetEnabled(true)));
    assert!(hook.watches(0, WM_LBUTTONDOWN));
    assert!(!hook.watches(-1, WM_LBUTTONDOWN));
    assert!(!hook.watches(0, 0x0200));

    let left = hook.filter(0, WM_LBUTTONDOWN, 7, screen(101, 101), true, rect);
    assert_eq!(
        left,
        Some(PassthroughEvent {
            msg: WM_LBUTTONDOWN,
            mouse_data: 7,
            screen_pt: screen(101, 101),
        })
    );
    assert_eq!(hook.filter(0, WM_LBUTTONDOWN, 7, screen(102, 101), true, rect), None);
    assert_eq!(hook.filter(0, WM_LBUTTONDOWN, 7, screen(101, 101), false, rect), None);
    assert_eq!(hook.filter(0, WM_LBUTTONDOWN, 7, screen(99, 101), true, rect), None);
    assert_eq!(hook.filter(0, WM_LBUTTONDOWN, 7, screen(101, 102), true, rect), None);
    assert!(!hook.apply(HookCommand::Shutdown));
}

#[test]
fn window_without_extent_lets_nothing_through() {
    let mut hook = HookThreadState::new();
    hook.apply(HookCommand::UpdateMask(vec![0], 1, 1));
    hook.apply(HookCommand::SetEnabled(true));
    let flat = Rect {
        left: 0,
        top: 0,
        right: 0,
        bottom: 5,
    };
    assert_eq!(hook.filter(0, WM_LBUTTONUP, 0, screen(0, 0), true, flat), None);
}

#[test]
fn forwarded_messages_carry_their_buttons() {
    assert_eq!(forwarded_wparam(WM_LBUTTONDOWN, 0), MK_LBUTTON);
    assert_eq!(forwarded_wparam(WM_RBUTTONDOWN, 0), MK_RBUTTON);
    assert_eq!(forwarded_wparam(WM_MBUTTONDOWN, 0), MK_MBUTTON);
    assert_eq!(forwarded_wparam(WM_LBUTTONUP, 5), 0);
    assert_eq!(forwarded_wparam(WM_MOUSEWHEEL, 0x0078_1234), 0x0078_0000);

    let click = PassthroughEvent {
        msg: WM_LBUTTONDOWN,
        mouse_data: 0,
        screen_pt: screen(300, 200),
    };
    assert!(needs_client_point(&click));
    let message = forwarded_message(&click, screen(3, 2));
    assert_eq!((message.msg, message.wparam, message.lparam), (WM_LBUTTONDOWN, 1, 0x0002_0003));

    let wheel = PassthroughEvent {
        msg: WM_MOUSEWHEEL,
        mouse_data: 0x0078_0000,
        screen_pt: screen(300, 200),
    };
    assert!(!needs_client_point(&wheel));
    let message = forwarded_message(&wheel, screen(3, 2));
    assert_eq!(message.wparam, 0x0078_0000);
    assert_eq!(message.lparam, 200 * 65_536 + 300);
}

#[test]
fn only_another_window_gets_the_event() {
    assert!(has_window_below(5, 4));
    assert!(!has_window_below(4, 4));
    assert!(!has_window_below(0, 4));
}
