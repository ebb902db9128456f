use spout_transparent::config::FrameRate;
use spout_transparent::interaction::hotkeys::{HotKeyAction, HotkeyRequests};
use spout_transparent::interaction::InteractionState;
use spout_transparent::session::{
    alpha_change, hotkey_source, key_quits, texture_is_owned, window_should_be_visible,
    AlphaChange, Effect, FrameUpdate, HotkeySource, Session, TurnEnd,
};
use spout_transparent::spout::receiver::{PollAction, PollEvent};
use spout_transparent::spout::{SenderInfo, SenderName, SpoutError};
use spout_transparent::time::{Duration, Instant};
use spout_transparent::tray::{TrayAction, TrayChoice};

fn sender(name: &str) -> SenderName {
    SenderName::from_slot(name.as_bytes()).unwrap()
}

fn millis(value: u64) -> Instant {
    Instant::from_nanos(value * 1_000_000)
}

fn texture(partner_id: u32) -> SenderInfo {
    SenderInfo {
        share_handle: 7,
        width: 640,
        height: 480,
        format: 87,
        usage: 0,
        description: String::new(),
        partner_id,
    }
}

fn poll(
    session: &mut Session,
    now: Instant,
    answer: &Result<SenderInfo, SpoutError>,
) -> Result<bool, SpoutError> {
    let mut action = session.poll_sender(PollEvent::Start, now);
    loop {
        match action {
            PollAction::Done(result) => return result,
            PollAction::Read(pending) => {
                let outcome = answer.clone();
                action = session.poll_sender(PollEvent::Read { pending, outcome }, now);
            }
        }
    }
}

/// A session that shows the texture of the sender `cam`.
fn shown_session() -> Session {
    let mut session = Session::new(millis(0));
    assert!(session.refresh_due(millis(0)));
    let menu = session
        .refresh_senders(Some(vec![sender("cam")]), millis(0))
        .unwrap();
    assert_eq!(menu.names.len(), 1);
    assert!(menu.selected.is_none());
    assert_eq!(poll(&mut session, millis(0), &Ok(texture(1))), Ok(true));
    let menu = session.follow_menu().unwrap();
    assert_eq!(menu.selected.unwrap().display_name(), "cam");
    let source = session.rebuild_source(millis(0)).unwrap();
    assert_eq!((source.handle, source.generation), (7, 1));
    session.rebuild_finished(source, true, millis(0));
    session.sender_polled(true);
    assert_eq!(session.settle_visibility(), Some(true));
    session
}

fn pick(session: &mut Session, action: TrayAction) -> Option<Effect> {
    session.apply_choice(TrayChoice::Action(action), millis(1))
}

#[test]
fn unchanged_backbuffer_is_not_presented() {
    assert!(!FrameUpdate::Unchanged.needs_present());
    assert!(FrameUpdate::Rendered.needs_present());
}

#[test]
fn window_stays_hidden_without_a_sender() {
    assert!(!window_should_be_visible(false, true));
    assert!(window_should_be_visible(true, true));
    assert!(!window_should_be_visible(true, false));
}

#[test]
fn fresh_session_shows_nothing() {
    let mut session = Session::new(millis(5));
    assert_eq!(session.settle_visibility(), None);
    assert!(!session.tray_state().visible);
    assert!(!session.tray_state().has_source);
    assert_eq!(session.tray_state().frame_rate, FrameRate::Unlimited);
    assert!(session.rebuild_source(millis(5)).is_none());
    assert!(!session.wants_frame(millis(5)));
    assert_eq!(pick(&mut session, TrayAction::ToggleVisibility), None);
    assert!(session.follow_menu().is_none());
}

#[test]
fn window_appears_and_disappears_with_its_source() {
    let mut session = shown_session();
    assert!(session.tray_state().visible);
    assert!(session.tray_state().visible);
    assert_eq!(session.settle_visibility(), None);
    assert_eq!(
        poll(&mut session, millis(100), &Err(SpoutError::NotFound)),
        Ok(false)
    );
    assert_eq!(session.settle_visibility(), Some(false));
    assert!(!session.tray_state().visible);
    assert_eq!(poll(&mut session, millis(600), &Ok(texture(1))), Ok(true));
    let source = session.rebuild_source(millis(600)).unwrap();
    assert_eq!(source.generation, 2);
    assert_eq!(session.settle_visibility(), Some(true));
}

#[test]
fn window_that_the_user_hid_stays_hidden() {
    let mut session = shown_session();
    assert_eq!(
        pick(&mut session, TrayAction::ToggleVisibility),
        Some(Effect::Visible(false))
    );
    assert_eq!(
        poll(&mut session, millis(100), &Err(SpoutError::NotFound)),
        Ok(false)
    );
    assert_eq!(session.settle_visibility(), Some(false));
    assert_eq!(poll(&mut session, millis(600), &Ok(texture(1))), Ok(true));
    assert_eq!(session.settle_visibility(), Some(false));
    assert_eq!(
        pick(&mut session, TrayAction::ToggleVisibility),
        Some(Effect::Visible(true))
    );
    assert!(session.tray_state().visible);
}

#[test]
fn hiding_the_window_ends_a_drag() {
    let mut session = shown_session();
    pick(&mut session, TrayAction::ToggleInteraction);
    session.handle_mouse_input(true, true, (5, 5), Some((0, 0)));
    assert!(session.interaction().is_dragging());
    pick(&mut session, TrayAction::ToggleVisibility);
    assert!(!session.interaction().is_dragging());
}

#[test]
fn replaced_source_ends_a_drag() {
    let mut session = shown_session();
    pick(&mut session, TrayAction::ToggleInteraction);
    session.handle_mouse_input(true, true, (5, 5), Some((0, 0)));
    assert_eq!(poll(&mut session, millis(100), &Ok(texture(2))), Ok(true));
    let source = session.rebuild_source(millis(100)).unwrap();
    session.rebuild_finished(source, true, millis(100));
    assert!(!session.interaction().is_dragging());
}

#[test]
fn failed_rebuild_waits_before_the_next() {
    let mut session = Session::new(millis(0));
    session.apply_choice(TrayChoice::Source(sender("cam")), millis(0));
    assert_eq!(poll(&mut session, millis(0), &Ok(texture(1))), Ok(true));
    let source = session.rebuild_source(millis(0)).unwrap();
    session.rebuild_finished(source, false, millis(10));
    assert!(session.rebuild_source(millis(510)).is_none());
    assert!(session.rebuild_source(millis(511)).is_some());
    assert_eq!(session.settle_visibility(), None);
}

#[test]
fn opened_source_is_not_opened_again() {
    let mut session = shown_session();
    assert!(session.rebuild_source(millis(5_000)).is_none());
    assert_eq!(poll(&mut session, millis(100), &Ok(texture(2))), Ok(true));
    assert!(session.rebuild_source(millis(5_000)).is_some());
}

#[test]
fn hotkeys_come_before_the_tray() {
    let mut session = shown_session();
    let mut requests = HotkeyRequests::none();
    requests.raise(HotKeyAction::ToggleInteraction);
    requests.raise(HotKeyAction::ToggleTopmost);
    requests.raise(HotKeyAction::CycleFrameRate);
    let effects = session.take_commands(
        &mut requests,
        Some(TrayChoice::Action(TrayAction::ToggleInteraction)),
        millis(1),
    );
    assert_eq!(
        effects,
        [
            Effect::Interaction(true),
            Effect::Topmost(true),
            Effect::Rate(FrameRate::Fps120),
            Effect::Interaction(false),
        ]
    );
    assert_eq!(requests, HotkeyRequests::none());
    let state = session.tray_state();
    assert!(state.topmost);
    assert!(!state.interaction);
    assert_eq!(state.frame_rate, FrameRate::Fps120);
}

#[test]
fn quitting_leaves_the_rest_undone() {
    let mut session = shown_session();
    let mut requests = HotkeyRequests::none();
    requests.raise(HotKeyAction::Quit);
    requests.raise(HotKeyAction::ToggleTopmost);
    let effects = session.take_commands(&mut requests, None, millis(1));
    assert_eq!(effects, [Effect::Quit]);
    assert!(requests.toggle_topmost);
    assert!(!session.tray_state().topmost);
    assert_eq!(pick(&mut session, TrayAction::Quit), Some(Effect::Quit));
}

#[test]
fn chosen_rate_is_set() {
    let mut session = shown_session();
    assert_eq!(
        pick(&mut session, TrayAction::SetFrameRate(FrameRate::Fps30)),
        Some(Effect::Rate(FrameRate::Fps30))
    );
    assert_eq!(session.tray_state().frame_rate, FrameRate::Fps30);
}

#[test]
fn chosen_source_is_followed() {
    let mut session = shown_session();
    assert_eq!(
        session.apply_choice(TrayChoice::Source(sender("other")), millis(1)),
        Some(Effect::Selected)
    );
    assert_eq!(
        session.followed().unwrap().display_name(),
        "other"
    );
    assert_eq!(session.settle_visibility(), Some(false));
    assert_eq!(
        session.follow_menu().unwrap().selected.unwrap().display_name(),
        "other"
    );
    assert_eq!(
        pick(&mut session, TrayAction::SelectSource(0)),
        Some(Effect::Selected)
    );
    assert_eq!(session.followed().unwrap().display_name(), "cam");
    assert_eq!(pick(&mut session, TrayAction::SelectSource(1)), None);
}

#[test]
fn list_of_senders_is_refreshed_twice_a_second() {
    let mut session = Session::new(millis(0));
    assert!(session.refresh_senders(None, millis(0)).is_none());
    assert!(!session.refresh_due(millis(499)));
    assert!(session.refresh_due(millis(500)));
}

#[test]
fn frames_are_drawn_when_there_is_news() {
    let mut session = shown_session();
    assert!(session.wants_frame(millis(1)));
    session.sender_polled(false);
    assert!(!session.wants_frame(millis(1)));
    let busy = session.draw_frame(false, true, millis(1));
    assert_eq!(busy.update, FrameUpdate::Unchanged);
    let first = session.draw_frame(true, false, millis(1));
    assert_eq!(first.update, FrameUpdate::Rendered);
    assert_eq!(first.extract_alpha, None);
    let same = session.draw_frame(true, false, millis(1));
    assert_eq!(same.update, FrameUpdate::Unchanged);
    let next = session.draw_frame(true, true, millis(1));
    assert_eq!(next.update, FrameUpdate::Rendered);
}

#[test]
fn alpha_is_extracted_at_intervals_and_not_during_a_drag() {
    let mut session = shown_session();
    pick(&mut session, TrayAction::ToggleInteraction);
    assert_eq!(session.draw_frame(true, true, millis(1)).extract_alpha, Some(true));
    assert_eq!(session.draw_frame(true, true, millis(50)).extract_alpha, Some(false));
    session.handle_mouse_input(true, true, (5, 5), Some((0, 0)));
    assert_eq!(session.draw_frame(true, true, millis(200)).extract_alpha, None);
}

#[test]
fn turn_ends_with_a_wait() {
    let mut session = shown_session();
    pick(&mut session, TrayAction::SetFrameRate(FrameRate::Fps120));
    let now = millis(1_000);
    assert_eq!(
        session.finish_turn(FrameUpdate::Unchanged, false, now),
        TurnEnd::Wait(Some(now + Duration::from_millis(1)))
    );
    assert_eq!(
        session.finish_turn(FrameUpdate::Rendered, true, now),
        TurnEnd::Wait(Some(now + FrameRate::Fps120.interval().unwrap()))
    );
    assert_eq!(
        session.finish_turn(FrameUpdate::Rendered, false, now),
        TurnEnd::Exit
    );
    pick(&mut session, TrayAction::ToggleVisibility);
    assert_eq!(
        session.finish_turn(FrameUpdate::Unchanged, false, now),
        TurnEnd::Wait(Some(now + Duration::from_millis(16)))
    );
}

#[test]
fn unlimited_rate_does_not_wait_after_a_frame() {
    let mut session = shown_session();
    assert_eq!(
        session.finish_turn(FrameUpdate::Rendered, true, millis(9)),
        TurnEnd::Wait(None)
    );
}

#[test]
fn created_alpha_resources_ask_for_a_frame() {
    let mut session = shown_session();
    session.draw_frame(true, true, millis(1));
    session.alpha_finished(true);
    assert_eq!(
        session.draw_frame(true, false, millis(1)).update,
        FrameUpdate::Rendered
    );
    assert_eq!(session.alpha_needed(), AlphaChange::Release);
    pick(&mut session, TrayAction::ToggleInteraction);
    assert_eq!(session.alpha_needed(), AlphaChange::Keep);
    assert_eq!(alpha_change(false, true), AlphaChange::Release);
    assert_eq!(alpha_change(true, false), AlphaChange::Create);
    assert_eq!(alpha_change(true, true), AlphaChange::Keep);
}

#[test]
fn keyed_mutex_alone_guards_its_texture() {
    assert!(texture_is_owned(true, true, false));
    assert!(!texture_is_owned(true, false, true));
    assert!(texture_is_owned(false, false, true));
    assert!(!texture_is_owned(false, true, false));
}

#[test]
fn first_press_of_escape_quits() {
    assert!(key_quits(true, false, true));
    assert!(!key_quits(true, true, true));
    assert!(!key_quits(false, false, true));
    assert!(!key_quits(true, false, false));
}

#[test]
fn working_directory_comes_first() {
    assert_eq!(hotkey_source(true, true), HotkeySource::WorkingDirectory);
    assert_eq!(hotkey_source(false, true), HotkeySource::ProgramDirectory);
    assert_eq!(hotkey_source(false, false), HotkeySource::Defaults);
}

#[test]
fn session_takes_what_the_window_reports() {
    let mut session = Session::new(millis(0));
    assert!(session.interaction().needs_mouse_hook());
    session.install_mouse_hook();
    assert!(!session.interaction().needs_mouse_hook());
    session.update_modifiers(4);
    session.handle_keyboard(true);
    session.handle_mouse_input(true, true, (1, 1), None);
    assert!(!session.interaction().is_dragging());
    session.cleanup();
    assert!(session.interaction().needs_mouse_hook());
    session.update_discovered(vec![sender("cam")]);
    assert!(session.followed().is_none());
    assert_eq!(poll(&mut session, millis(0), &Ok(texture(1))), Ok(true));
    assert_eq!(session.followed().unwrap().display_name(), "cam");
}

#[test]
fn interaction_state_is_off_at_first() {
    let state = InteractionState::new(millis(0));
    assert!(!state.is_enabled());
    assert!(!state.is_topmost());
}
