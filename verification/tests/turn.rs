use spout_transparent::interaction::hotkeys::{HotKeyAction, HotkeyRequests};
use spout_transparent::session::{AlphaChange, Effect, Session, TurnEnd};
use spout_transparent::spout::{SenderInfo, SenderName, SpoutError};
use spout_transparent::time::Instant;
use spout_transparent::tray::{TrayAction, TrayChoice};
use spout_transparent::session::turn::{Order, Request, TurnEvent};

fn sender(name: &str) -> SenderName {
    SenderName::from_slot(name.as_bytes()).unwrap()
}

fn millis(value: u64) -> Instant {
    Instant::from_nanos(value * 1_000_000)
}

fn texture(partner_id: u32) -> SenderInfo {
    SenderInfo {
        share_handle: 7,
        width: 640,
        height: 480,
        format: 87,
        usage: 0,
        description: String::new(),
        partner_id,
    }
}

/// A world with at most one sender, which is called `cam`.
struct World {
    description: Result<SenderInfo, SpoutError>,
    opens: bool,
    creates_alpha: bool,
    owned: bool,
    new_frame: bool,
    presents: bool,
}

impl World {
    fn with_sender() -> Self {
        World {
            description: Ok(texture(1)),
            opens: true,
            creates_alpha: true,
            owned: true,
            new_frame: true,
            presents: true,
        }
    }

    /// Runs a whole turn; gives back what was asked for, in short, and how the turn ended.
    fn run(
        &self,
        session: &mut Session,
        requests: HotkeyRequests,
        choice: Option<TrayChoice>,
        now: Instant,
    ) -> (Vec<String>, TurnEnd) {
        let mut log = Vec::new();
        let mut event = TurnEvent::Start { requests, choice };
        loop {
            let step = session.advance(event, now);
            for order in step.orders {
                log.push(match order {
                    Order::Follow(effects) => format!("follow {}", effects.len()),
                    Order::Menu(menu) => format!(
                        "menu {} {}",
                        menu.names.len(),
                        menu.selected.map_or("-".to_string(), |name| name.display_name())
                    ),
                    Order::PollFailed(error) => format!("failed {}", error.message().unwrap_or("-")),
                    Order::ClearMask => "clear".to_string(),
                    Order::Visible(visible) => format!("visible {visible}"),
                    Order::Tray(state) => format!("tray {}", state.visible),
                    Order::FitWindow => "fit".to_string(),
                    Order::ReleaseAlpha => "release".to_string(),
                    Order::ReadAlpha => "read".to_string(),
                    Order::Draw => "draw".to_string(),
                    Order::RefreshAlpha(extract) => format!("refresh {extract}"),
                });
            }
            event = match step.request {
                Request::TakeSenders => TurnEvent::Senders(Some(vec![sender("cam")])),
                Request::ReadDescription(pending) => TurnEvent::Description {
                    pending,
                    outcome: self.description.clone(),
                },
                Request::OpenSource(source) => TurnEvent::Opened {
                    source,
                    opened: self.opens,
                },
                Request::CreateAlpha => TurnEvent::AlphaCreated(self.creates_alpha),
                Request::TryTexture => TurnEvent::Texture {
                    owned: self.owned,
                    new_frame: self.new_frame,
                },
                Request::Present => {
                    log.push("present".to_string());
                    TurnEvent::Presented(self.presents)
                }
                Request::End(end) => return (log, end),
            };
        }
    }

    fn quiet(&self, session: &mut Session, now: Instant) -> (Vec<String>, TurnEnd) {
        self.run(session, HotkeyRequests::none(), None, now)
    }
}

#[test]
fn first_turn_shows_the_first_frame() {
    let mut session = Session::new(millis(0));
    let (log, end) = World::with_sender().quiet(&mut session, millis(0));
    assert_eq!(
        log,
        [
            "follow 0",
            "menu 1 -",
            "menu 1 cam",
            "clear",
            "visible true",
            "tray true",
            "fit",
            "release",
            "draw",
            "present",
        ]
    );
    assert_eq!(end, TurnEnd::Wait(None));
    assert!(session.tray_state().visible);
}

#[test]
fn turn_without_senders_waits_in_the_tray() {
    let mut session = Session::new(millis(0));
    let world = World {
        description: Err(SpoutError::NotFound),
        ..World::with_sender()
    };
    let (log, end) = world.quiet(&mut session, millis(0));
    assert_eq!(log, ["follow 0", "menu 1 -", "tray false"]);
    assert_eq!(end, TurnEnd::Wait(Some(millis(16))));
}

#[test]
fn lost_sender_hides_the_window() {
    let mut session = Session::new(millis(0));
    World::with_sender().quiet(&mut session, millis(0));
    let gone = World {
        description: Err(SpoutError::NotFound),
        ..World::with_sender()
    };
    let (log, _) = gone.quiet(&mut session, millis(100));
    assert_eq!(log, ["follow 0", "visible false", "tray false", "fit", "release"]);
    assert!(!session.tray_state().visible);
}

#[test]
fn busy_texture_is_tried_again_soon() {
    let mut session = Session::new(millis(0));
    let busy = World {
        owned: false,
        ..World::with_sender()
    };
    let (log, end) = busy.quiet(&mut session, millis(0));
    assert!(!log.contains(&"draw".to_string()));
    assert_eq!(end, TurnEnd::Wait(Some(millis(1))));
}

#[test]
fn unopened_texture_leaves_the_window_hidden() {
    let mut session = Session::new(millis(0));
    let world = World {
        opens: false,
        ..World::with_sender()
    };
    let (log, _) = world.quiet(&mut session, millis(0));
    assert_eq!(log, ["follow 0", "menu 1 -", "menu 1 cam", "tray false"]);
    let (log, _) = World::with_sender().quiet(&mut session, millis(400));
    assert_eq!(log, ["follow 0", "tray false"]);
    let (log, _) = World::with_sender().quiet(&mut session, millis(501));
    assert!(log.contains(&"visible true".to_string()));
}

#[test]
fn interaction_keeps_the_alpha_mask_up_to_date() {
    let mut session = Session::new(millis(0));
    let world = World::with_sender();
    world.quiet(&mut session, millis(0));
    let mut requests = HotkeyRequests::none();
    requests.raise(HotKeyAction::ToggleInteraction);
    let (log, _) = world.run(&mut session, requests.take(), None, millis(10));
    assert_eq!(requests, HotkeyRequests::none());
    assert_eq!(
        log,
        ["follow 1", "tray true", "fit", "read", "draw", "refresh true", "present"]
    );
    let (log, _) = world.quiet(&mut session, millis(20));
    assert_eq!(
        log,
        ["follow 0", "tray true", "fit", "read", "draw", "refresh false", "present"]
    );
}

#[test]
fn failed_alpha_resources_are_tried_again() {
    let mut session = Session::new(millis(0));
    let world = World {
        creates_alpha: false,
        ..World::with_sender()
    };
    world.quiet(&mut session, millis(0));
    let choice = TrayChoice::Action(TrayAction::ToggleInteraction);
    world.run(&mut session, HotkeyRequests::none(), Some(choice), millis(10));
    assert_eq!(session.alpha_needed(), AlphaChange::Create);
    World::with_sender().quiet(&mut session, millis(20));
    assert_eq!(session.alpha_needed(), AlphaChange::Keep);
}

#[test]
fn failed_present_ends_the_program() {
    let mut session = Session::new(millis(0));
    let world = World {
        presents: false,
        ..World::with_sender()
    };
    let (_, end) = world.quiet(&mut session, millis(0));
    assert_eq!(end, TurnEnd::Exit);
}

#[test]
fn quitting_ends_the_turn() {
    let mut session = Session::new(millis(0));
    let choice = TrayChoice::Action(TrayAction::Quit);
    let step = session.advance(
        TurnEvent::Start {
            requests: HotkeyRequests::none(),
            choice: Some(choice),
        },
        millis(0),
    );
    match &step.orders[0] {
        Order::Follow(effects) => assert_eq!(effects[..], [Effect::Quit]),
        _ => panic!("unexpected order"),
    }
    assert!(matches!(step.request, Request::End(TurnEnd::Exit)));
}

#[test]
fn failed_poll_is_reported() {
    let mut session = Session::new(millis(0));
    World::with_sender().quiet(&mut session, millis(0));
    let broken = World {
        description: Err(SpoutError::Truncated),
        ..World::with_sender()
    };
    let (log, _) = broken.quiet(&mut session, millis(100));
    assert_eq!(
        log,
        [
            "follow 0",
            "failed Spout sender metadata is truncated",
            "tray true",
            "fit",
            "release",
        ]
    );
}

#[test]
fn replaced_texture_is_opened_anew() {
    let mut session = Session::new(millis(0));
    World::with_sender().quiet(&mut session, millis(0));
    let replaced = World {
        description: Ok(texture(2)),
        new_frame: false,
        ..World::with_sender()
    };
    let (log, _) = replaced.quiet(&mut session, millis(100));
    assert_eq!(
        log,
        ["follow 0", "clear", "tray true", "fit", "release", "draw", "present"]
    );
    let (log, _) = replaced.quiet(&mut session, millis(110));
    assert_eq!(log, ["follow 0", "tray true", "fit", "release"]);
}
