//! The decisions of the event loop: what a turn of it does to the window, the source and the
//! frames.
use vstd::prelude::*;

use crate::config::{FramePacer, FrameRate};
use crate::interaction::hotkeys::{
    poll_cycle_framerate, poll_quit, poll_toggle_interaction, poll_toggle_topmost, HotkeyRequests,
};
use crate::interaction::InteractionState;
use crate::spout::receiver::{PollAction, PollEvent, SpoutReceiver};
use crate::spout::SenderName;
use crate::time::{Duration, Instant};
use crate::tray::{copy_names, TrayAction, TrayChoice, TrayState};

pub mod turn;

verus! {

/// How often the list of senders in the menu is brought up to date, in milliseconds.
pub const SENDER_REFRESH_MILLIS: u64 = 500;

/// Wait after a source could not be opened, in milliseconds.
pub const REBUILD_COOLDOWN_MILLIS: u64 = 500;

/// Whether a turn drew a frame.
#[derive(Clone, Copy, Debug, Default, PartialEq, Eq, Structural)]
pub enum FrameUpdate {
    #[default]
    Unchanged,
    Rendered,
}

impl FrameUpdate {
    pub fn needs_present(self) -> (needed: bool)
        ensures
            needed == (self == FrameUpdate::Rendered),
    {
        match self {
            FrameUpdate::Unchanged => false,
            FrameUpdate::Rendered => true,
        }
    }
}

pub fn window_should_be_visible(source_ready: bool, visibility_requested: bool) -> (visible: bool)
    ensures
        visible == (source_ready && visibility_requested),
{
    source_ready && visibility_requested
}

/// A key event ends the program.
pub open spec fn ends_on_key(pressed: bool, repeat: bool, escape: bool) -> bool {
    pressed && !repeat && escape
}

/// Whether a key ends the program: the first press of Escape does.
pub fn key_quits(pressed: bool, repeat: bool, escape: bool) -> (quits: bool)
    ensures
        quits == ends_on_key(pressed, repeat, escape),
{
    pressed && !repeat && escape
}

/// Where the hotkeys come from.
#[derive(Clone, Copy, Debug, PartialEq, Eq, Structural)]
pub enum HotkeySource {
    WorkingDirectory,
    ProgramDirectory,
    Defaults,
}

/// The configuration of the hotkeys that holds.
pub open spec fn holding_source(in_working_directory: bool, beside_program: bool) -> HotkeySource {
    if in_working_directory {
        HotkeySource::WorkingDirectory
    } else if beside_program {
        HotkeySource::ProgramDirectory
    } else {
        HotkeySource::Defaults
    }
}

/// Picks the configuration of the hotkeys: a file in the working directory comes before one
/// beside the program, and both before the built-in one.
pub fn hotkey_source(in_working_directory: bool, beside_program: bool) -> (source: HotkeySource)
    ensures
        source == holding_source(in_working_directory, beside_program),
{
    if in_working_directory {
        HotkeySource::WorkingDirectory
    } else if beside_program {
        HotkeySource::ProgramDirectory
    } else {
        HotkeySource::Defaults
    }
}

/// The sender's texture may be read.
pub open spec fn may_be_read(has_keyed_mutex: bool, keyed: bool, named: bool) -> bool {
    if has_keyed_mutex {
        keyed
    } else {
        named
    }
}

/// Whether the sender's texture may be read now. A texture with a keyed mutex is guarded by that
/// alone, any other by the named one.
pub fn texture_is_owned(has_keyed_mutex: bool, keyed: bool, named: bool) -> (owned: bool)
    ensures
        owned == may_be_read(has_keyed_mutex, keyed, named),
{
    if has_keyed_mutex {
        keyed
    } else {
        named
    }
}

/// What has to be done about the resources behind the alpha mask.
#[derive(Clone, Copy, Debug, PartialEq, Eq, Structural)]
pub enum AlphaChange {
    Release,
    Create,
    Keep,
}

/// The alpha mask is needed exactly while interaction is on.
pub fn alpha_change(enabled: bool, present: bool) -> (change: AlphaChange)
    ensures
        change == if !enabled {
            AlphaChange::Release
        } else if !present {
            AlphaChange::Create
        } else {
            AlphaChange::Keep
        },
{
    if !enabled {
        AlphaChange::Release
    } else if !present {
        AlphaChange::Create
    } else {
        AlphaChange::Keep
    }
}

/// What a command changed, for the window to follow.
#[derive(Clone, Copy, Debug, PartialEq, Eq, Structural)]
pub enum Effect {
    /// Interaction is on or off now.
    Interaction(bool),
    /// The window stays on top or not now.
    Topmost(bool),
    Rate(FrameRate),
    /// The window is shown or hidden now.
    Visible(bool),
    /// Another source is followed now.
    Selected,
    Quit,
}

/// A texture that is shown or could be, with the bytes of its sender's name.
pub struct SourceModel {
    pub handle: int,
    pub name: Seq<u8>,
    pub generation: u64,
}

/// A texture that is shown or could be.
pub struct SourceKey {
    pub handle: isize,
    pub name: SenderName,
    pub generation: u64,
}

impl View for SourceKey {
    type V = SourceModel;

    open spec fn view(&self) -> SourceModel {
        SourceModel { handle: self.handle as int, name: self.name@, generation: self.generation }
    }
}

pub open spec fn source_model(source: Option<SourceKey>) -> Option<SourceModel> {
    match source {
        Some(source) => Some(source@),
        None => None,
    }
}

/// The sources that the menu lists, as bytes.
pub struct MenuModel {
    pub names: Seq<Seq<u8>>,
    pub selected: Option<Seq<u8>>,
}

/// The sources that the menu lists.
pub struct MenuSources {
    pub names: Vec<SenderName>,
    pub selected: Option<SenderName>,
}

impl View for MenuSources {
    type V = MenuModel;

    open spec fn view(&self) -> MenuModel {
        MenuModel {
            names: crate::spout::order::name_bytes(self.names@),
            selected: crate::spout::receiver::optional_bytes(self.selected),
        }
    }
}

pub open spec fn menu_model(menu: Option<MenuSources>) -> Option<MenuModel> {
    match menu {
        Some(menu) => Some(menu@),
        None => None,
    }
}

/// What a turn draws.
#[derive(Clone, Copy, Debug, PartialEq, Eq, Structural)]
pub struct Drawing {
    pub update: FrameUpdate,
    /// Whether a fresh alpha mask is asked for; none while the mask is not looked at.
    pub extract_alpha: Option<bool>,
}

/// How a turn ends.
#[derive(Clone, Copy, Debug, PartialEq, Eq, Structural)]
pub enum TurnEnd {
    /// The frame could not be presented, and the program ends.
    Exit,
    /// The loop waits until a moment, or not at all.
    Wait(Option<Instant>),
}

/// How a turn ends, with the moment in nanoseconds.
pub enum EndModel {
    Exit,
    Wait(Option<int>),
}

impl View for TurnEnd {
    type V = EndModel;

    open spec fn view(&self) -> EndModel {
        match self {
            TurnEnd::Exit => EndModel::Exit,
            TurnEnd::Wait(Some(at)) => EndModel::Wait(Some(at.nanos as int)),
            TurnEnd::Wait(None) => EndModel::Wait(None),
        }
    }
}

/// What a [`Session`] remembers.
pub struct SessionModel {
    pub receiver: crate::spout::receiver::ReceiverState,
    pub interaction: crate::interaction::InteractionModel,
    pub pacer: crate::config::PacerState,
    /// The user wants to see the window.
    pub requested: bool,
    /// The window is shown.
    pub visible: bool,
    /// There is something to show.
    pub available: bool,
    /// The next frame is drawn even if the sender has no new one.
    pub redraw: bool,
    /// The texture that is open.
    pub shown: Option<SourceModel>,
    /// The resources behind the alpha mask of that texture exist.
    pub alpha_ready: bool,
    /// The last poll of the receiver found a connected sender.
    pub received: bool,
    pub last_failure: Option<Instant>,
    pub known: Seq<Seq<u8>>,
    pub menu_selected: Option<Seq<u8>>,
    pub next_refresh: Instant,
}

impl SessionModel {
    /// Nothing is followed, nothing is shown, and the user has not hidden the window.
    pub open spec fn fresh(now: Instant) -> SessionModel {
        SessionModel {
            receiver: crate::spout::receiver::ReceiverState::fresh(now),
            interaction: crate::interaction::InteractionModel::fresh(now),
            pacer: crate::config::PacerState {
                rate: FrameRate::Unlimited,
                last_presented_at: now,
                force_next: true,
            },
            requested: true,
            visible: false,
            available: false,
            redraw: true,
            shown: None,
            alpha_ready: false,
            received: false,
            last_failure: None,
            known: Seq::empty(),
            menu_selected: None,
            next_refresh: now,
        }
    }

    /// The window is shown exactly when there is something to show and the user wants to see
    /// it, and what is there to show is open.
    pub open spec fn wf(self) -> bool {
        &&& self.receiver.wf()
        &&& self.interaction.wf()
        &&& self.visible == (self.available && self.requested)
        &&& self.available ==> self.shown is Some
        &&& crate::spout::receiver::schedulable(self.pacer.last_presented_at)
    }

    /// A frame is asked for.
    pub open spec fn frame_requested(self) -> SessionModel {
        SessionModel {
            pacer: crate::config::PacerState { force_next: true, ..self.pacer },
            ..self
        }
    }

    /// A frame is asked for and will be drawn even without news from the sender.
    pub open spec fn redraw_requested(self) -> SessionModel {
        SessionModel { redraw: true, ..self.frame_requested() }
    }

    pub open spec fn drag_ended(self) -> SessionModel {
        SessionModel {
            interaction: crate::interaction::InteractionModel {
                dragging: false,
                ..self.interaction
            },
            ..self
        }
    }

    pub open spec fn hook_set(self, hooked: bool) -> SessionModel {
        SessionModel {
            interaction: crate::interaction::InteractionModel { hooked, ..self.interaction },
            ..self
        }
    }

    pub open spec fn modifiers_set(self, modifiers: u32) -> SessionModel {
        SessionModel {
            interaction: crate::interaction::InteractionModel { modifiers, ..self.interaction },
            ..self
        }
    }

    pub open spec fn mouse_input(
        self,
        pressed: bool,
        left_button: bool,
        cursor: (i32, i32),
        origin: Option<(i32, i32)>,
    ) -> SessionModel {
        SessionModel {
            interaction: self.interaction.mouse_input(pressed, left_button, cursor, origin),
            ..self
        }
    }

    pub open spec fn senders_known(self, names: Seq<Seq<u8>>) -> SessionModel {
        SessionModel {
            receiver: crate::spout::receiver::ReceiverState { discovered: names, ..self.receiver },
            ..self
        }
    }

    pub open spec fn rate_set(self, rate: FrameRate) -> SessionModel {
        SessionModel {
            pacer: crate::config::PacerState { rate, force_next: true, ..self.pacer },
            ..self
        }
    }

    pub open spec fn interaction_toggled(self, now: Instant) -> SessionModel {
        SessionModel { interaction: self.interaction.toggled(now), ..self }
    }

    pub open spec fn topmost_toggled(self) -> SessionModel {
        SessionModel {
            interaction: crate::interaction::InteractionModel {
                topmost: !self.interaction.topmost,
                ..self.interaction
            },
            ..self
        }
    }

    /// The window is shown or hidden. A window that comes up is drawn; one that goes away is
    /// no longer dragged.
    pub open spec fn visibility_set(self, visible: bool) -> SessionModel {
        let state = SessionModel { visible, ..self };
        if visible {
            state.redraw_requested()
        } else {
            state.drag_ended()
        }
    }

    pub open spec fn source_selected(self, name: Seq<u8>, now: Instant) -> SessionModel {
        SessionModel {
            receiver: crate::spout::receiver::ReceiverState {
                selected: Some(name),
                current: None,
                next_metadata_poll: now,
                next_discovery: now,
                ..self.receiver
            },
            ..self.frame_requested()
        }
    }

    /// What the hotkeys do, when none of them ends the program.
    pub open spec fn after_hotkeys(self, requests: HotkeyRequests, now: Instant) -> (
        SessionModel,
        Seq<Effect>,
    ) {
        let (first, done) = if requests.toggle_interaction {
            (
                self.interaction_toggled(now),
                Seq::<Effect>::empty().push(Effect::Interaction(!self.interaction.enabled)),
            )
        } else {
            (self, Seq::<Effect>::empty())
        };
        let (second, done) = if requests.toggle_topmost {
            (
                first.topmost_toggled(),
                done.push(Effect::Topmost(!self.interaction.topmost)),
            )
        } else {
            (first, done)
        };
        if requests.cycle_framerate {
            let rate = self.pacer.rate.successor();
            (second.rate_set(rate), done.push(Effect::Rate(rate)))
        } else {
            (second, done)
        }
    }

    /// What a choice in the tray menu does.
    pub open spec fn after_choice(
        self,
        choice: crate::tray::ChoiceModel,
        now: Instant,
    ) -> (SessionModel, Option<Effect>) {
        match choice {
            crate::tray::ChoiceModel::Source(name) => (
                self.source_selected(name, now),
                Some(Effect::Selected),
            ),
            crate::tray::ChoiceModel::Action(action) => match action {
                TrayAction::ToggleVisibility => if self.available {
                    let visible = !self.visible;
                    (
                        SessionModel { requested: visible, ..self }.visibility_set(visible),
                        Some(Effect::Visible(visible)),
                    )
                } else {
                    (self, None)
                },
                TrayAction::ToggleInteraction => (
                    self.interaction_toggled(now),
                    Some(Effect::Interaction(!self.interaction.enabled)),
                ),
                TrayAction::ToggleTopmost => (
                    self.topmost_toggled(),
                    Some(Effect::Topmost(!self.interaction.topmost)),
                ),
                TrayAction::SetFrameRate(rate) => (
                    self.rate_set(rate),
                    Some(Effect::Rate(rate)),
                ),
                TrayAction::SelectSource(index) => if index < self.known.len() {
                    (
                        self.source_selected(self.known[index as int], now),
                        Some(Effect::Selected),
                    )
                } else {
                    (self, None)
                },
                TrayAction::Quit => (self, Some(Effect::Quit)),
            },
        }
    }

    /// What the commands of a turn do: those of the hotkeys, then the choice in the tray menu.
    pub open spec fn after_commands(
        self,
        requests: HotkeyRequests,
        choice: Option<crate::tray::ChoiceModel>,
        now: Instant,
    ) -> (SessionModel, Seq<Effect>) {
        if requests.quit {
            (self, Seq::<Effect>::empty().push(Effect::Quit))
        } else {
            let (state, done) = self.after_hotkeys(requests, now);
            match choice {
                None => (state, done),
                Some(choice) => {
                    let (after, effect) = state.after_choice(choice, now);
                    match effect {
                        Some(effect) => (after, done.push(effect)),
                        None => (after, done),
                    }
                },
            }
        }
    }

    pub open spec fn refresh_due(self, now: Instant) -> bool {
        now.nanos >= self.next_refresh.nanos
    }

    /// The list of senders was looked at; `latest` is what it shows, if that is known.
    pub open spec fn refreshed(self, latest: Option<Seq<Seq<u8>>>, now: Instant) -> SessionModel {
        let state = SessionModel {
            next_refresh: Instant { nanos: (now.nanos + 500_000_000) as u64 },
            ..self
        };
        match latest {
            Some(names) => SessionModel {
                known: names,
                receiver: crate::spout::receiver::ReceiverState {
                    discovered: names,
                    ..self.receiver
                },
                menu_selected: self.receiver.selected,
                ..state
            },
            None => state,
        }
    }

    /// The texture of the connected sender.
    pub open spec fn wanted(self) -> Option<SourceModel> {
        match self.receiver.current {
            Some(info) => if info.signed_handle() != 0 {
                Some(
                    SourceModel {
                        handle: info.signed_handle(),
                        name: self.receiver.selected->0,
                        generation: self.receiver.generation,
                    },
                )
            } else {
                None
            },
            None => None,
        }
    }

    /// The last failure to open a source is long enough ago.
    pub open spec fn cooled_down(self, now: Instant) -> bool {
        match self.last_failure {
            Some(at) => now.nanos - at.nanos > 500_000_000,
            None => true,
        }
    }

    /// The connected texture is not the one that is open.
    pub open spec fn rebuild_due(self, now: Instant) -> bool {
        self.wanted() is Some && self.cooled_down(now) && self.shown != self.wanted()
    }

    /// The attempt to open `source` has come to an end.
    pub open spec fn rebuilt(self, source: SourceModel, opened: bool, now: Instant) -> SessionModel {
        if opened {
            SessionModel {
                shown: Some(source),
                alpha_ready: false,
                ..self.drag_ended().redraw_requested()
            }
        } else {
            SessionModel { last_failure: Some(now), ..self }
        }
    }

    /// The open texture belongs to the connected sender and has its handle.
    pub open spec fn source_ready(self) -> bool {
        match (self.wanted(), self.shown) {
            (Some(wanted), Some(shown)) => wanted.handle == shown.handle && wanted.name
                == shown.name,
            _ => false,
        }
    }

    /// The window follows what there is to show.
    pub open spec fn settled(self) -> SessionModel {
        if self.source_ready() == self.available {
            self
        } else {
            let available = self.source_ready();
            SessionModel { available, ..self }.visibility_set(available && self.requested)
        }
    }

    pub open spec fn tray_state(self) -> TrayState {
        TrayState {
            visible: self.visible,
            interaction: self.interaction.enabled,
            topmost: self.interaction.topmost,
            frame_rate: self.pacer.rate,
            has_source: self.available,
        }
    }

    /// The attempt to create the resources behind the alpha mask has come to an end.
    pub open spec fn alpha_created(self, created: bool) -> SessionModel {
        if created {
            SessionModel { alpha_ready: true, ..self.redraw_requested() }
        } else {
            self
        }
    }

    /// A frame is wanted now.
    pub open spec fn frame_wanted(self, now: Instant) -> bool {
        self.shown is Some && self.visible && self.received && self.pacer.due(now)
    }

    /// A frame is drawn: the texture may be read, and it has news or a redraw was asked for.
    pub open spec fn draws(self, owned: bool, new_frame: bool) -> bool {
        owned && (self.redraw || new_frame)
    }

    /// The session after a frame was drawn.
    pub open spec fn drawn(self, now: Instant) -> SessionModel {
        let state = SessionModel { redraw: false, ..self };
        if !self.interaction.dragging && self.interaction.alpha_due(now) {
            SessionModel { interaction: self.interaction.alpha_scheduled(now), ..state }
        } else {
            state
        }
    }

    /// The session after a frame was presented.
    pub open spec fn presented(self, now: Instant) -> SessionModel {
        SessionModel {
            pacer: crate::config::PacerState {
                last_presented_at: now,
                force_next: false,
                ..self.pacer
            },
            ..self
        }
    }

    /// When the loop wakes up next; none means at once.
    pub open spec fn wake_time(self, presented: bool, now: Instant) -> Option<int> {
        self.pacer.wake_time(now, self.wanted() is Some && self.visible, presented)
    }

    /// How a turn ends that drew a frame or not, and presented it or not.
    pub open spec fn ended(self, drawn: bool, presented: bool, now: Instant) -> (
        SessionModel,
        EndModel,
    ) {
        if drawn && !presented {
            (self, EndModel::Exit)
        } else {
            let state = if drawn {
                self.presented(now)
            } else {
                self
            };
            (state, EndModel::Wait(state.wake_time(drawn, now)))
        }
    }
}

/// The requests that are left once those of a turn have been taken.
pub open spec fn left_undone(requests: HotkeyRequests) -> HotkeyRequests {
    if requests.quit {
        HotkeyRequests { quit: false, ..requests }
    } else {
        HotkeyRequests {
            toggle_interaction: false,
            toggle_topmost: false,
            quit: false,
            cycle_framerate: false,
        }
    }
}

/// A running program: its window, its source and its frames.
pub struct Session {
    receiver: SpoutReceiver,
    interaction: InteractionState,
    pacer: FramePacer,
    requested: bool,
    visible: bool,
    available: bool,
    redraw: bool,
    shown: Option<SourceKey>,
    alpha_ready: bool,
    received: bool,
    last_failure: Option<Instant>,
    known: Vec<SenderName>,
    menu_selected: Option<SenderName>,
    next_refresh: Instant,
}

impl View for Session {
    type V = SessionModel;

    closed spec fn view(&self) -> SessionModel {
        SessionModel {
            receiver: self.receiver@,
            interaction: self.interaction@,
            pacer: self.pacer@,
            requested: self.requested,
            visible: self.visible,
            available: self.available,
            redraw: self.redraw,
            shown: source_model(self.shown),
            alpha_ready: self.alpha_ready,
            received: self.received,
            last_failure: self.last_failure,
            known: crate::spout::order::name_bytes(self.known@),
            menu_selected: crate::spout::receiver::optional_bytes(self.menu_selected),
            next_refresh: self.next_refresh,
        }
    }
}

/// Whether a name that may be missing is this one, which may be missing too.
fn same_name(left: &Option<SenderName>, right: Option<&SenderName>) -> (same: bool)
    ensures
        same == (crate::spout::receiver::optional_bytes(*left) == match right {
            Some(name) => Some(name@),
            None => None,
        }),
{
    match (left, right) {
        (Some(left), Some(right)) => left.same_as(right),
        (None, None) => true,
        _ => false,
    }
}

fn copy_name(name: Option<&SenderName>) -> (copy: Option<SenderName>)
    ensures
        crate::spout::receiver::optional_bytes(copy) == match name {
            Some(name) => Some(name@),
            None => None,
        },
{
    match name {
        Some(name) => Some(name.clone()),
        None => None,
    }
}

impl Session {
    pub fn new(now: Instant) -> (session: Self)
        requires
            crate::spout::receiver::schedulable(now),
        ensures
            session@ == SessionModel::fresh(now),
            session@.wf(),
    {
        let session = Session {
            receiver: SpoutReceiver::new(now),
            interaction: InteractionState::new(now),
            pacer: FramePacer::new(now),
            requested: true,
            visible: false,
            available: false,
            redraw: true,
            shown: None,
            alpha_ready: false,
            received: false,
            last_failure: None,
            known: Vec::new(),
            menu_selected: None,
            next_refresh: now,
        };
        assert(session@.known =~= Seq::empty());
        session
    }

    /// How the user handles the window.
    pub fn interaction(&self) -> (state: &InteractionState)
        ensures
            state@ == self@.interaction,
    {
        &self.interaction
    }

    /// The sender that is followed.
    pub fn followed(&self) -> (name: Option<&SenderName>)
        ensures
            match name {
                Some(name) => self@.receiver.selected == Some(name@),
                None => self@.receiver.selected is None,
            },
    {
        self.receiver.current_name()
    }

    /// Takes note that the mouse hook is installed.
    pub fn install_mouse_hook(&mut self)
        requires
            old(self)@.wf(),
        ensures
            final(self)@ == old(self)@.hook_set(true),
            final(self)@.wf(),
    {
        self.interaction.install_mouse_hook();
    }

    /// Lets go of the mouse hook.
    pub fn cleanup(&mut self)
        requires
            old(self)@.wf(),
        ensures
            final(self)@ == old(self)@.hook_set(false),
            final(self)@.wf(),
    {
        self.interaction.cleanup();
    }

    pub fn update_modifiers(&mut self, modifiers: u32)
        requires
            old(self)@.wf(),
        ensures
            final(self)@ == old(self)@.modifiers_set(modifiers),
            final(self)@.wf(),
    {
        self.interaction.update_modifiers(modifiers);
    }

    /// A key was pressed or let go in the window.
    pub fn handle_keyboard(&mut self, pressed: bool)
        requires
            old(self)@.wf(),
        ensures
            final(self)@ == old(self)@,
            final(self)@.wf(),
    {
        self.interaction.handle_keyboard(pressed);
    }

    /// A mouse button was pressed or let go in the window.
    pub fn handle_mouse_input(
        &mut self,
        pressed: bool,
        left_button: bool,
        cursor: (i32, i32),
        origin: Option<(i32, i32)>,
    )
        requires
            old(self)@.wf(),
        ensures
            final(self)@ == old(self)@.mouse_input(pressed, left_button, cursor, origin),
            final(self)@.wf(),
    {
        self.interaction.handle_mouse_input(pressed, left_button, cursor, origin);
    }

    /// Takes over the latest list of senders before the first turn.
    pub fn update_discovered(&mut self, senders: Vec<SenderName>)
        requires
            old(self)@.wf(),
        ensures
            final(self)@ == old(self)@.senders_known(
                crate::spout::order::name_bytes(senders@),
            ),
            final(self)@.wf(),
    {
        self.receiver.update_discovered(senders);
    }

    /// Takes a poll of the receiver one step further.
    pub fn poll_sender(&mut self, event: PollEvent, now: Instant) -> (action: PollAction)
        requires
            old(self)@.wf(),
            crate::spout::receiver::schedulable(now),
            event matches PollEvent::Read { pending, .. } ==> pending@.wf() && (pending@ is Selected
                ==> old(self)@.receiver.selected is Some),
        ensures
            ({
                let (receiver, step) = match event {
                    PollEvent::Start => old(self)@.receiver.begin(now),
                    PollEvent::Read { pending, outcome } => old(self)@.receiver.resume(
                        pending@,
                        outcome,
                        now,
                    ),
                };
                &&& final(self)@ == (SessionModel { receiver, ..old(self)@ })
                &&& action@ == step
            }),
            action@ matches crate::spout::receiver::PollStep::Read(stage) ==> stage.wf() && (stage
                is Selected ==> final(self)@.receiver.selected is Some),
            final(self)@.wf(),
    {
        self.receiver.poll(event, now)
    }

    /// Takes note of whether a poll found a connected sender.
    pub fn sender_polled(&mut self, received: bool)
        requires
            old(self)@.wf(),
        ensures
            final(self)@ == (SessionModel { received, ..old(self)@ }),
            final(self)@.wf(),
    {
        self.received = received;
    }

    /// What has to be done about the resources behind the alpha mask.
    pub fn alpha_needed(&self) -> (change: AlphaChange)
        ensures
            change == if !self@.interaction.enabled {
                AlphaChange::Release
            } else if !self@.alpha_ready {
                AlphaChange::Create
            } else {
                AlphaChange::Keep
            },
    {
        alpha_change(self.interaction.is_enabled(), self.alpha_ready)
    }

    fn set_visibility(&mut self, visible: bool)
        ensures
            final(self)@ == old(self)@.visibility_set(visible),
    {
        self.visible = visible;
        if visible {
            self.redraw = true;
            self.pacer.request_frame();
        } else {
            self.interaction.cancel_drag();
        }
    }

    fn select_source(&mut self, name: SenderName, now: Instant)
        ensures
            final(self)@ == old(self)@.source_selected(name@, now),
    {
        self.receiver.select(name, now);
        self.pacer.request_frame();
    }

    /// Does what was chosen in the tray menu.
    pub fn apply_choice(&mut self, choice: TrayChoice, now: Instant) -> (effect: Option<Effect>)
        requires
            old(self)@.wf(),
        ensures
            (final(self)@, effect) == old(self)@.after_choice(choice@, now),
            final(self)@.wf(),
    {
        match choice {
            TrayChoice::Source(name) => {
                self.select_source(name, now);
                Some(Effect::Selected)
            },
            TrayChoice::Action(action) => match action {
                TrayAction::ToggleVisibility => {
                    if self.available {
                        let visible = !self.visible;
                        self.requested = visible;
                        self.set_visibility(visible);
                        Some(Effect::Visible(visible))
                    } else {
                        None
                    }
                },
                TrayAction::ToggleInteraction => {
                    let enabled = self.interaction.toggle_enabled(now);
                    Some(Effect::Interaction(enabled))
                },
                TrayAction::ToggleTopmost => {
                    let topmost = self.interaction.toggle_topmost();
                    Some(Effect::Topmost(topmost))
                },
                TrayAction::SetFrameRate(rate) => {
                    self.pacer.set_rate(rate);
                    Some(Effect::Rate(rate))
                },
                TrayAction::SelectSource(index) => {
                    if index < self.known.len() {
                        let name = self.known[index].clone();
                        self.select_source(name, now);
                        Some(Effect::Selected)
                    } else {
                        None
                    }
                },
                TrayAction::Quit => Some(Effect::Quit),
            },
        }
    }

    /// Does what the hotkeys and the tray menu ask for, and says what the window has to follow,
    /// in order. A hotkey that ends the program leaves the rest undone.
    pub fn take_commands(
        &mut self,
        requests: &mut HotkeyRequests,
        choice: Option<TrayChoice>,
        now: Instant,
    ) -> (effects: Vec<Effect>)
        requires
            old(self)@.wf(),
        ensures
            (final(self)@, effects@) == old(self)@.after_commands(
                *old(requests),
                crate::tray::choice_model(choice),
                now,
            ),
            *final(requests) == left_undone(*old(requests)),
            final(self)@.wf(),
    {
        let mut effects: Vec<Effect> = Vec::new();
        if poll_quit(requests) {
            effects.push(Effect::Quit);
            return effects;
        }
        if poll_toggle_interaction(requests) {
            let enabled = self.interaction.toggle_enabled(now);
            effects.push(Effect::Interaction(enabled));
        }
        if poll_toggle_topmost(requests) {
            let topmost = self.interaction.toggle_topmost();
            effects.push(Effect::Topmost(topmost));
        }
        if poll_cycle_framerate(requests) {
            let rate = self.pacer.cycle();
            effects.push(Effect::Rate(rate));
        }
        match choice {
            Some(choice) => match self.apply_choice(choice, now) {
                Some(effect) => effects.push(effect),
                None => {},
            },
            None => {},
        }
        effects
    }

    /// Whether the list of senders is to be looked at again.
    pub fn refresh_due(&self, now: Instant) -> (due: bool)
        ensures
            due == self@.refresh_due(now),
    {
        now.nanos >= self.next_refresh.nanos
    }

    /// Takes over the list of senders, if there is a new one, and says what the menu then lists.
    pub fn refresh_senders(
        &mut self,
        latest: Option<Vec<SenderName>>,
        now: Instant,
    ) -> (menu: Option<MenuSources>)
        requires
            old(self)@.wf(),
            crate::spout::receiver::schedulable(now),
        ensures
            final(self)@ == old(self)@.refreshed(
                match latest {
                    Some(names) => Some(crate::spout::order::name_bytes(names@)),
                    None => None,
                },
                now,
            ),
            menu_model(menu) == match latest {
                Some(names) => Some(
                    MenuModel {
                        names: crate::spout::order::name_bytes(names@),
                        selected: old(self)@.receiver.selected,
                    },
                ),
                None => None,
            },
            final(self)@.wf(),
    {
        self.next_refresh = now + Duration::from_millis(SENDER_REFRESH_MILLIS);
        match latest {
            Some(names) => {
                self.receiver.update_discovered(copy_names(&names));
                self.menu_selected = copy_name(self.receiver.current_name());
                self.known = names;
                Some(self.menu_sources())
            },
            None => None,
        }
    }

    fn menu_sources(&self) -> (menu: MenuSources)
        ensures
            menu@ == (MenuModel { names: self@.known, selected: self@.receiver.selected }),
    {
        MenuSources {
            names: copy_names(&self.known),
            selected: copy_name(self.receiver.current_name()),
        }
    }

    /// Once the receiver has been polled, says what the menu lists, if it is another sender's
    /// turn to be checked there.
    pub fn follow_menu(&mut self) -> (menu: Option<MenuSources>)
        requires
            old(self)@.wf(),
        ensures
            final(self)@ == (SessionModel {
                menu_selected: old(self)@.receiver.selected,
                ..old(self)@
            }),
            menu_model(menu) == if old(self)@.receiver.selected != old(self)@.menu_selected {
                Some(
                    MenuModel { names: old(self)@.known, selected: old(self)@.receiver.selected },
                )
            } else {
                None
            },
            final(self)@.wf(),
    {
        if same_name(&self.menu_selected, self.receiver.current_name()) {
            return None;
        }
        self.menu_selected = copy_name(self.receiver.current_name());
        Some(self.menu_sources())
    }

    /// The texture of the connected sender.
    pub fn wanted_source(&self) -> (source: Option<SourceKey>)
        requires
            self@.wf(),
        ensures
            source_model(source) == self@.wanted(),
    {
        let handle: isize = self.receiver.sender_handle();
        if handle == 0 {
            return None;
        }
        match self.receiver.current_name() {
            Some(name) => Some(
                SourceKey {
                    handle,
                    name: name.clone(),
                    generation: self.receiver.generation(),
                },
            ),
            None => None,
        }
    }

    /// The texture that is to be opened now, if any.
    pub fn rebuild_source(&self, now: Instant) -> (source: Option<SourceKey>)
        requires
            self@.wf(),
        ensures
            source_model(source) == if self@.rebuild_due(now) {
                self@.wanted()
            } else {
                None
            },
    {
        let cooled_down = match self.last_failure {
            Some(at) => now.duration_since(at).nanos > REBUILD_COOLDOWN_MILLIS * 1_000_000,
            None => true,
        };
        if !cooled_down {
            return None;
        }
        match self.wanted_source() {
            None => None,
            Some(wanted) => {
                let unchanged = match &self.shown {
                    Some(shown) => shown.handle == wanted.handle && shown.generation
                        == wanted.generation && shown.name.same_as(&wanted.name),
                    None => false,
                };
                if unchanged {
                    None
                } else {
                    Some(wanted)
                }
            },
        }
    }

    /// Takes note of how the attempt to open `source` went.
    pub fn rebuild_finished(&mut self, source: SourceKey, opened: bool, now: Instant)
        requires
            old(self)@.wf(),
        ensures
            final(self)@ == old(self)@.rebuilt(source@, opened, now),
            final(self)@.wf(),
    {
        if opened {
            self.shown = Some(source);
            self.alpha_ready = false;
            self.interaction.cancel_drag();
            self.redraw = true;
            self.pacer.request_frame();
        } else {
            self.last_failure = Some(now);
        }
    }

    fn source_ready(&self) -> (ready: bool)
        requires
            self@.wf(),
        ensures
            ready == self@.source_ready(),
    {
        match self.wanted_source() {
            None => false,
            Some(wanted) => match &self.shown {
                Some(shown) => shown.handle == wanted.handle && shown.name.same_as(&wanted.name),
                None => false,
            },
        }
    }

    /// Shows or hides the window when what there is to show came or went; none when nothing
    /// about that has changed.
    pub fn settle_visibility(&mut self) -> (change: Option<bool>)
        requires
            old(self)@.wf(),
        ensures
            final(self)@ == old(self)@.settled(),
            change == if old(self)@.source_ready() == old(self)@.available {
                None
            } else {
                Some(final(self)@.visible)
            },
            final(self)@.wf(),
    {
        let ready = self.source_ready();
        if ready == self.available {
            return None;
        }
        self.available = ready;
        let visible = window_should_be_visible(ready, self.requested);
        self.set_visibility(visible);
        Some(visible)
    }

    /// What the tray menu shows of the window.
    pub fn tray_state(&self) -> (state: TrayState)
        ensures
            state == self@.tray_state(),
    {
        TrayState {
            visible: self.visible,
            interaction: self.interaction.is_enabled(),
            topmost: self.interaction.is_topmost(),
            frame_rate: self.pacer.rate(),
            has_source: self.available,
        }
    }

    /// Takes note of whether the resources behind the alpha mask could be created.
    pub fn alpha_finished(&mut self, created: bool)
        requires
            old(self)@.wf(),
        ensures
            final(self)@ == old(self)@.alpha_created(created),
            final(self)@.wf(),
    {
        if created {
            self.alpha_ready = true;
            self.redraw = true;
            self.pacer.request_frame();
        }
    }

    /// Whether a frame is to be drawn now, provided that the sender's texture may be read.
    pub fn wants_frame(&self, now: Instant) -> (wanted: bool)
        ensures
            wanted == self@.frame_wanted(now),
    {
        self.shown.is_some() && self.visible && self.received && self.pacer.is_due(now)
    }

    /// Decides about a frame that is wanted. `owned` tells whether the sender's texture may be
    /// read, and `new_frame` whether it has news.
    pub fn draw_frame(&mut self, owned: bool, new_frame: bool, now: Instant) -> (drawing: Drawing)
        requires
            old(self)@.wf(),
            crate::spout::receiver::schedulable(now),
        ensures
            final(self)@ == if old(self)@.draws(owned, new_frame) {
                old(self)@.drawn(now)
            } else {
                old(self)@
            },
            drawing == if old(self)@.draws(owned, new_frame) {
                Drawing {
                    update: FrameUpdate::Rendered,
                    extract_alpha: if old(self)@.interaction.enabled
                        && !old(self)@.interaction.dragging {
                        Some(old(self)@.interaction.alpha_due(now))
                    } else {
                        None
                    },
                }
            } else {
                Drawing { update: FrameUpdate::Unchanged, extract_alpha: None }
            },
            final(self)@.wf(),
    {
        if !owned || !(self.redraw || new_frame) {
            return Drawing { update: FrameUpdate::Unchanged, extract_alpha: None };
        }
        self.redraw = false;
        let extract_alpha = if self.interaction.is_enabled() && !self.interaction.is_dragging() {
            Some(self.interaction.should_update_alpha(now))
        } else {
            None
        };
        Drawing { update: FrameUpdate::Rendered, extract_alpha }
    }

    /// Ends a turn. `presented` tells whether presenting a drawn frame went well; a turn that
    /// drew nothing presents nothing.
    pub fn finish_turn(&mut self, update: FrameUpdate, presented: bool, now: Instant) -> (end:
        TurnEnd)
        requires
            old(self)@.wf(),
            crate::spout::receiver::schedulable(now),
        ensures
            (final(self)@, end@) == old(self)@.ended(
                update == FrameUpdate::Rendered,
                presented,
                now,
            ),
            final(self)@.wf(),
    {
        let drawn = update.needs_present();
        if drawn {
            if !presented {
                return TurnEnd::Exit;
            }
            self.pacer.presented(now);
        }
        let connected = self.receiver.sender_handle() != 0 && self.visible;
        TurnEnd::Wait(self.pacer.next_wake(now, connected, drawn))
    }
}

/// Without a connected sender there is no window, whatever the user wants.
pub proof fn window_is_hidden_without_a_source(state: SessionModel)
    requires
        state.wf(),
        state.receiver.current is None,
    ensures
        !state.settled().visible,
        !state.settled().available,
{
}

/// Once the texture of the connected sender is open, the window is shown exactly if the user
/// wants to see it.
pub proof fn window_appears_with_its_source(state: SessionModel, now: Instant)
    requires
        state.wf(),
        state.wanted() is Some,
    ensures
        state.rebuilt(state.wanted()->0, true, now).settled().available,
        state.rebuilt(state.wanted()->0, true, now).settled().visible == state.requested,
{
}

/// Settling a second time changes nothing.
pub proof fn settling_is_final(state: SessionModel)
    requires
        state.wf(),
    ensures
        state.settled().settled() == state.settled(),
        state.settled().available == state.source_ready(),
{
}

/// Hiding the window and showing it again brings it back, and while it is hidden the coming and
/// going of its source does not.
pub proof fn hidden_window_stays_hidden(state: SessionModel, now: Instant)
    requires
        state.wf(),
        state.visible,
    ensures
        ({
            let toggle = crate::tray::ChoiceModel::Action(TrayAction::ToggleVisibility);
            let hidden = state.after_choice(toggle, now).0;
            &&& !hidden.visible
            &&& !hidden.interaction.dragging
            &&& !hidden.settled().visible
            &&& hidden.after_choice(toggle, now).0.visible
        }),
{
}

/// A window that is hidden or shows another source is no longer dragged.
pub proof fn lost_windows_are_not_dragged(
    state: SessionModel,
    source: SourceModel,
    now: Instant,
)
    requires
        state.wf(),
    ensures
        !state.rebuilt(source, true, now).interaction.dragging,
        state.visible && !state.settled().visible ==> !state.settled().interaction.dragging,
        !state.interaction.toggled(now).enabled ==> !state.interaction.toggled(now).dragging,
{
}

/// A texture that was opened is not opened again until the sender has another one.
pub proof fn open_source_is_kept(state: SessionModel, now: Instant, later: Instant)
    requires
        state.wanted() is Some,
    ensures
        !state.rebuilt(state.wanted()->0, true, now).rebuild_due(later),
{
}

/// Another texture of the same sender, even one with the same handle, is opened anew.
pub proof fn another_texture_is_opened(state: SessionModel, info: crate::spout::SenderInfo, now:
    Instant)
    requires
        state.shown == state.wanted(),
        state.receiver.current is Some,
        crate::spout::another_resource(state.receiver.current->0, info),
        info.usable(),
        state.cooled_down(now),
    ensures
        (SessionModel { receiver: state.receiver.updated(info), ..state }).rebuild_due(now),
{
    crate::spout::receiver::generation_tells_textures_apart(state.receiver, info);
}

/// A texture that could not be opened is tried again once half a second has passed, and not
/// before.
pub proof fn failed_source_is_retried(state: SessionModel, failed: Instant, later: Instant)
    requires
        state.wanted() is Some,
        state.shown != state.wanted(),
    ensures
        state.rebuilt(state.wanted()->0, false, failed).rebuild_due(later) <==> later.nanos
            - failed.nanos > 500_000_000,
{
}

/// A window that comes up, or shows another source, is drawn as soon as the sender's texture may
/// be read, even if the sender has no new frame.
pub proof fn new_windows_are_drawn(
    state: SessionModel,
    source: SourceModel,
    opened: Instant,
    now: Instant,
)
    requires
        state.wf(),
    ensures
        state.rebuilt(source, true, opened).draws(true, false),
        state.rebuilt(source, true, opened).pacer.due(now),
        !state.visible && state.settled().visible ==> state.settled().draws(true, false)
            && state.settled().pacer.due(now),
{
}

/// After a redraw only news from the sender is drawn.
pub proof fn old_frames_are_not_drawn_twice(state: SessionModel, now: Instant)
    ensures
        !state.drawn(now).draws(true, false),
        state.drawn(now).draws(true, true),
        !state.draws(false, true),
{
}

/// The rate that the tray sets is the one that the tray then shows.
pub proof fn chosen_rate_is_shown(state: SessionModel, rate: FrameRate, now: Instant)
    ensures
        state.after_choice(
            crate::tray::ChoiceModel::Action(TrayAction::SetFrameRate(rate)),
            now,
        ).0.tray_state() == (TrayState { frame_rate: rate, ..state.tray_state() }),
{
}

/// A chosen source is followed from the next poll on, whatever was followed before.
pub proof fn chosen_source_is_followed(state: SessionModel, name: Seq<u8>, now: Instant)
    ensures
        ({
            let after = state.after_choice(crate::tray::ChoiceModel::Source(name), now).0;
            &&& after.receiver.selected == Some(name)
            &&& after.receiver.begin(now).1 == crate::spout::receiver::PollStep::Read(
                crate::spout::receiver::ReadStage::Selected { name, started: now },
            )
        }),
{
}

/// A hotkey that ends the program comes before everything else.
pub proof fn quitting_comes_first(
    state: SessionModel,
    requests: HotkeyRequests,
    choice: Option<crate::tray::ChoiceModel>,
    now: Instant,
)
    requires
        requests.quit,
    ensures
        state.after_commands(requests, choice, now) == (state, seq![Effect::Quit]),
{
    assert(Seq::<Effect>::empty().push(Effect::Quit) =~= seq![Effect::Quit]);
}

/// Each hotkey switches what it stands for, whatever the others do, and nothing but the handling
/// of the window and the frame rate changes.
pub proof fn hotkeys_switch_what_they_stand_for(
    state: SessionModel,
    requests: HotkeyRequests,
    now: Instant,
)
    requires
        !requests.quit,
    ensures
        ({
            let after = state.after_commands(requests, None, now).0;
            &&& after.interaction.enabled == (state.interaction.enabled
                != requests.toggle_interaction)
            &&& after.interaction.topmost == (state.interaction.topmost != requests.toggle_topmost)
            &&& requests.cycle_framerate ==> after.pacer.rate == state.pacer.rate.successor()
                && after.pacer.due(now)
            &&& !requests.cycle_framerate ==> after.pacer == state.pacer
            &&& after == (SessionModel {
                interaction: after.interaction,
                pacer: after.pacer,
                ..state
            })
        }),
{
}

/// The window is told what the hotkeys led to, in order and nothing else: whether interaction is
/// on now, whether the window stays on top now, and the rate that holds now.
pub proof fn hotkeys_tell_what_they_led_to(
    state: SessionModel,
    requests: HotkeyRequests,
    now: Instant,
)
    requires
        !requests.quit,
    ensures
        ({
            let (after, effects) = state.after_commands(requests, None, now);
            let before_topmost = crate::tray::bit(requests.toggle_interaction);
            let before_rate = before_topmost + crate::tray::bit(requests.toggle_topmost);
            &&& effects.len() == before_rate + crate::tray::bit(requests.cycle_framerate)
            &&& requests.toggle_interaction ==> effects[0] == Effect::Interaction(
                after.interaction.enabled,
            )
            &&& requests.toggle_topmost ==> effects[before_topmost] == Effect::Topmost(
                after.interaction.topmost,
            )
            &&& requests.cycle_framerate ==> effects[before_rate] == Effect::Rate(after.pacer.rate)
        }),
{
}

/// Whenever the hotkey for the frame rate is pressed, the rate is the next one of the cycle, and
/// the window hears of it. Four presses visit all four rates and come back to the first.
pub proof fn rate_hotkey_visits_every_rate(
    state: SessionModel,
    requests: HotkeyRequests,
    rate: FrameRate,
    now: Instant,
)
    requires
        requests.cycle_framerate,
        !requests.quit,
    ensures
        ({
            let (first, effects) = state.after_commands(requests, None, now);
            let second = first.after_commands(requests, None, now).0;
            let third = second.after_commands(requests, None, now).0;
            let fourth = third.after_commands(requests, None, now).0;
            &&& first.pacer.rate == state.pacer.rate.successor()
            &&& effects.contains(Effect::Rate(state.pacer.rate.successor()))
            &&& fourth.pacer.rate == state.pacer.rate
            &&& rate == state.pacer.rate || rate == first.pacer.rate || rate == second.pacer.rate
                || rate == third.pacer.rate
        }),
{
    let (first, effects) = state.after_commands(requests, None, now);
    hotkeys_switch_what_they_stand_for(state, requests, now);
    hotkeys_tell_what_they_led_to(state, requests, now);
    assert(effects[effects.len() - 1] == Effect::Rate(first.pacer.rate));
    let second = first.after_commands(requests, None, now).0;
    let third = second.after_commands(requests, None, now).0;
    hotkeys_switch_what_they_stand_for(first, requests, now);
    hotkeys_switch_what_they_stand_for(second, requests, now);
    hotkeys_switch_what_they_stand_for(third, requests, now);
    crate::config::rate_cycle_has_period_four(state.pacer.rate);
    crate::config::rate_cycle_reaches_every_rate(state.pacer.rate, rate);
}

/// A choice in the tray menu comes after the hotkeys and does the same as on its own.
pub proof fn choice_comes_after_the_hotkeys(
    state: SessionModel,
    requests: HotkeyRequests,
    choice: crate::tray::ChoiceModel,
    now: Instant,
)
    requires
        !requests.quit,
    ensures
        ({
            let (between, first) = state.after_commands(requests, None, now);
            let (after, effect) = between.after_choice(choice, now);
            let (both, effects) = state.after_commands(requests, Some(choice), now);
            &&& both == after
            &&& effect is None ==> effects == first
            &&& effect is Some ==> effects == first.push(effect->0)
        }),
{
}

/// Choosing to switch interaction or staying on top switches exactly that, says what holds now,
/// and choosing the same again switches it back.
pub proof fn switches_in_the_menu_flip(state: SessionModel, now: Instant, later: Instant)
    ensures
        ({
            let choice = crate::tray::ChoiceModel::Action(TrayAction::ToggleInteraction);
            let (after, effect) = state.after_choice(choice, now);
            &&& after.interaction.enabled == !state.interaction.enabled
            &&& after.interaction.topmost == state.interaction.topmost
            &&& effect == Some(Effect::Interaction(after.interaction.enabled))
            &&& after == (SessionModel { interaction: after.interaction, ..state })
            &&& after.after_choice(choice, later).0.interaction.enabled == state.interaction.enabled
        }),
        ({
            let choice = crate::tray::ChoiceModel::Action(TrayAction::ToggleTopmost);
            let (after, effect) = state.after_choice(choice, now);
            &&& after.interaction.topmost == !state.interaction.topmost
            &&& after.interaction.enabled == state.interaction.enabled
            &&& after.interaction.dragging == state.interaction.dragging
            &&& effect == Some(Effect::Topmost(after.interaction.topmost))
            &&& after.after_choice(choice, later).0 == state
        }),
{
}

/// A rate chosen in the tray menu holds at once: the window hears of it, and the next frame comes
/// without waiting.
pub proof fn chosen_rate_holds_at_once(state: SessionModel, rate: FrameRate, now: Instant)
    ensures
        ({
            let (after, effect) = state.after_choice(
                crate::tray::ChoiceModel::Action(TrayAction::SetFrameRate(rate)),
                now,
            );
            &&& after.pacer.rate == rate
            &&& after.pacer.due(now)
            &&& effect == Some(Effect::Rate(rate))
            &&& after == (SessionModel { pacer: after.pacer, ..state })
        }),
{
}

/// The window is hidden or shown on demand while there is something to show, and the window hears
/// of it; without a source the demand changes nothing. Ending the program changes nothing else.
pub proof fn visibility_follows_the_demand(state: SessionModel, now: Instant)
    ensures
        ({
            let (after, effect) = state.after_choice(
                crate::tray::ChoiceModel::Action(TrayAction::ToggleVisibility),
                now,
            );
            &&& state.available ==> after.visible == !state.visible && after.requested
                == after.visible && effect == Some(Effect::Visible(after.visible))
            &&& state.available && after.visible ==> after.redraw && after.pacer.due(now)
            &&& !state.available ==> after == state && effect is None
            &&& after.shown == state.shown && after.receiver == state.receiver && after.available
                == state.available
        }),
        state.after_choice(crate::tray::ChoiceModel::Action(TrayAction::Quit), now) == (
            state,
            Some(Effect::Quit),
        ),
{
}

/// Choosing a source by its index is choosing the known sender at that index; an index without a
/// sender changes nothing. The old sender is no longer connected, a frame is due, and should the
/// chosen sender be gone, another one may be looked for at once.
pub proof fn sources_are_chosen_by_index(
    state: SessionModel,
    index: usize,
    name: Seq<u8>,
    now: Instant,
)
    ensures
        index < state.known.len() ==> state.after_choice(
            crate::tray::ChoiceModel::Action(TrayAction::SelectSource(index)),
            now,
        ) == state.after_choice(crate::tray::ChoiceModel::Source(state.known[index as int]), now),
        index >= state.known.len() ==> state.after_choice(
            crate::tray::ChoiceModel::Action(TrayAction::SelectSource(index)),
            now,
        ) == (state, None::<Effect>),
        ({
            let (after, effect) = state.after_choice(crate::tray::ChoiceModel::Source(name), now);
            &&& effect == Some(Effect::Selected)
            &&& after.receiver.current is None
            &&& after.receiver.discovered == state.receiver.discovered
            &&& after.receiver.generation == state.receiver.generation
            &&& after.receiver.next_discovery == now
            &&& after.pacer.due(now)
            &&& after.pacer.rate == state.pacer.rate
            &&& after.interaction == state.interaction
            &&& after.shown == state.shown
        }),
{
}

/// A new session has nothing to show, shows a window as soon as there is something, looks for
/// senders at once, and lets the mouse pass.
pub proof fn new_sessions_look_for_a_sender(now: Instant)
    ensures
        !SessionModel::fresh(now).visible,
        SessionModel::fresh(now).requested,
        SessionModel::fresh(now).shown is None,
        SessionModel::fresh(now).refresh_due(now),
        SessionModel::fresh(now).pacer.due(now),
        SessionModel::fresh(now).pacer.rate == FrameRate::Unlimited,
        SessionModel::fresh(now).last_failure is None,
        SessionModel::fresh(now).draws(true, false),
        !SessionModel::fresh(now).interaction.enabled,
        SessionModel::fresh(now).receiver.selected is None,
        SessionModel::fresh(now).receiver.current is None,
        now.nanos >= SessionModel::fresh(now).receiver.next_metadata_poll.nanos,
        now.nanos >= SessionModel::fresh(now).receiver.next_discovery.nanos,
{
}

/// A list of senders is taken over by the menu and the receiver alike, and is looked at again
/// half a second later and not before.
pub proof fn lists_are_taken_over(
    state: SessionModel,
    latest: Option<Seq<Seq<u8>>>,
    now: Instant,
    later: Instant,
)
    requires
        crate::spout::receiver::schedulable(now),
    ensures
        ({
            let after = state.refreshed(latest, now);
            &&& latest matches Some(names) ==> after.known == names && after.receiver.discovered
                == names && after.menu_selected == state.receiver.selected
            &&& latest is None ==> after.known == state.known && after.receiver == state.receiver
                && after.menu_selected == state.menu_selected
            &&& after.refresh_due(later) <==> later.nanos - now.nanos >= 500_000_000
            &&& after.receiver.selected == state.receiver.selected
            &&& after.receiver.current == state.receiver.current
            &&& after.shown == state.shown && after.visible == state.visible
        }),
{
}

/// The texture that is wanted is the one that the connected sender describes, under the name of
/// the sender that is followed; without a connected sender none is wanted.
pub proof fn wanted_texture_is_the_described_one(
    state: SessionModel,
    info: crate::spout::SenderInfo,
    name: Seq<u8>,
)
    requires
        state.receiver.wf(),
    ensures
        state.receiver.current is None ==> state.wanted() is None,
        state.receiver.current == Some(info) && state.receiver.selected == Some(name) ==> {
            &&& state.wanted() is Some
            &&& state.wanted()->0.handle % 0x1_0000_0000 == info.share_handle
            &&& -0x8000_0000 <= state.wanted()->0.handle < 0x8000_0000
            &&& state.wanted()->0.name == name
            &&& state.wanted()->0.generation == state.receiver.generation
        },
{
}

/// While a sender is connected, its texture is to be opened exactly when another one is open or
/// none: one with another handle, of another sender or of another generation. After a failure half
/// a second has to pass.
pub proof fn other_textures_are_replaced(
    state: SessionModel,
    info: crate::spout::SenderInfo,
    name: Seq<u8>,
    now: Instant,
)
    requires
        state.receiver.wf(),
        state.receiver.current == Some(info),
        state.receiver.selected == Some(name),
        state.last_failure matches Some(at) ==> now.nanos > at.nanos + 500_000_000,
    ensures
        state.shown is None ==> state.rebuild_due(now),
        state.shown matches Some(shown) ==> (state.rebuild_due(now) <==> shown.handle
            != info.signed_handle() || shown.name != name || shown.generation
            != state.receiver.generation),
{
}

/// The window has something to show exactly when the open texture has the handle of the connected
/// sender and its name.
pub proof fn window_shows_the_connected_sender(
    state: SessionModel,
    info: crate::spout::SenderInfo,
    name: Seq<u8>,
    open: SourceModel,
)
    requires
        state.wf(),
        state.receiver.current == Some(info),
        state.receiver.selected == Some(name),
    ensures
        state.shown is None ==> !state.settled().available,
        state.shown == Some(open) ==> (state.settled().available <==> open.handle
            == info.signed_handle() && open.name == name),
        state.settled().visible == (state.settled().available && state.requested),
{
}

/// Settling changes nothing but the window: one that comes up is drawn and due, one that goes away
/// is no longer dragged, and one that stays is left alone.
pub proof fn settling_concerns_the_window_alone(state: SessionModel, now: Instant)
    requires
        state.wf(),
    ensures
        ({
            let after = state.settled();
            &&& after.available == state.available ==> after == state
            &&& after.visible && !state.visible ==> after.redraw && after.pacer.due(now)
            &&& after.receiver == state.receiver && after.shown == state.shown
            &&& after.requested == state.requested && after.received == state.received
            &&& after.alpha_ready == state.alpha_ready && after.last_failure == state.last_failure
            &&& after.known == state.known && after.menu_selected == state.menu_selected
            &&& after.next_refresh == state.next_refresh && after.pacer.rate == state.pacer.rate
            &&& after.interaction.enabled == state.interaction.enabled
            &&& after.interaction.topmost == state.interaction.topmost
            &&& after.redraw == state.redraw || after.visible
        }),
{
}

/// The tray is told of the window what holds: whether it is shown, takes the mouse, stays on top
/// and has something to show, and its rate.
pub proof fn tray_is_told_what_holds(state: SessionModel)
    ensures
        state.tray_state().visible == state.visible,
        state.tray_state().interaction == state.interaction.enabled,
        state.tray_state().topmost == state.interaction.topmost,
        state.tray_state().frame_rate == state.pacer.rate,
        state.tray_state().has_source == state.available,
{
}

/// A line of the menu that carries a check mark flips it when it is chosen, and the line of a
/// frame rate takes the mark.
pub proof fn chosen_lines_flip_their_check_marks(
    state: SessionModel,
    labels: Seq<Seq<char>>,
    selected: Option<Seq<char>>,
    names: Seq<Seq<u8>>,
    line: int,
    now: Instant,
)
    requires
        line == 2 || line == 3,
    ensures
        ({
            let menu = crate::tray::menu_entries(state.tray_state(), labels, selected);
            let choice = crate::tray::chosen(menu[line]->Item_0.command, names);
            let after = state.after_choice(choice->0, now).0;
            let later = crate::tray::menu_entries(after.tray_state(), labels, selected);
            &&& choice is Some
            &&& later[line]->Item_0.checked == !menu[line]->Item_0.checked
            &&& later[5 - line] == menu[5 - line]
            &&& later[0] == menu[0] && later[4] == menu[4]
        }),
        forall|i: int|
            0 <= i < 4 ==> {
                let choice = crate::tray::chosen(
                    (#[trigger] crate::tray::rate_items(state.pacer.rate)[i]).command,
                    names,
                );
                let after = state.after_choice(choice->0, now).0;
                choice is Some && crate::tray::rate_items(after.tray_state().frame_rate)[i].checked
            },
{
}

/// A frame is drawn exactly when the texture may be read and there is a reason to draw: news from
/// the sender or a redraw that was asked for.
pub proof fn frames_need_a_reason(state: SessionModel, owned: bool, new_frame: bool)
    ensures
        state.draws(owned, new_frame) <==> owned && (new_frame || state.redraw),
        state.redraw_requested().draws(true, false),
{
}

/// Drawing a frame takes the redraw that was asked for, and puts off the alpha mask by a tenth of
/// a second if that was refreshed: while interaction is on, nothing is dragged and a refresh is
/// due.
pub proof fn drawing_takes_the_redraw(state: SessionModel, now: Instant)
    requires
        crate::spout::receiver::schedulable(now),
    ensures
        ({
            let after = state.drawn(now);
            let refreshed = state.interaction.enabled && !state.interaction.dragging && now.nanos
                >= state.interaction.next_alpha_update.nanos;
            &&& !after.redraw
            &&& after.pacer == state.pacer && after.shown == state.shown && after.visible
                == state.visible
            &&& !refreshed ==> after.interaction == state.interaction
            &&& refreshed ==> after.interaction.next_alpha_update.nanos == now.nanos + 100_000_000
            &&& after.interaction.enabled == state.interaction.enabled
            &&& after.interaction.dragging == state.interaction.dragging
        }),
{
}

/// After a frame was presented the next one is due once the interval of the rate has passed, and
/// not before; at the unlimited rate it is due at once.
pub proof fn presented_frames_keep_the_rate(state: SessionModel, now: Instant, later: Instant)
    requires
        now.nanos <= later.nanos,
    ensures
        state.presented(now).pacer.rate == state.pacer.rate,
        state.pacer.rate == FrameRate::Unlimited ==> state.presented(now).pacer.due(later),
        state.pacer.rate.period() matches Some(nanos) ==> (state.presented(now).pacer.due(later)
            <==> later.nanos - now.nanos >= nanos),
        state.presented(now) == (SessionModel { pacer: state.presented(now).pacer, ..state }),
{
}

/// A drawn frame that could not be presented ends the program. Any other turn ends with a wait,
/// and only one that presented a frame starts the interval anew.
pub proof fn turns_end_as_their_frame_went(
    state: SessionModel,
    drawn: bool,
    presented: bool,
    now: Instant,
)
    ensures
        ({
            let (after, end) = state.ended(drawn, presented, now);
            &&& end is Exit <==> drawn && !presented
            &&& drawn && presented ==> after.pacer.last_presented_at == now
                && !after.pacer.force_next && after.pacer.rate == state.pacer.rate
            &&& !(drawn && presented) ==> after == state
        }),
{
}

/// While the window is hidden or no sender is connected the loop looks again every sixteen
/// milliseconds; otherwise it wakes up as the frame rate demands.
pub proof fn waits_follow_the_window(state: SessionModel, drawn: bool, now: Instant)
    requires
        state.receiver.wf(),
    ensures
        ({
            let (after, end) = state.ended(drawn, true, now);
            &&& !state.visible || state.receiver.current is None ==> end == EndModel::Wait(
                Some(now.nanos + 16_000_000),
            )
            &&& state.visible && state.receiver.current is Some ==> end == EndModel::Wait(
                after.pacer.wake_time(now, true, drawn),
            )
        }),
{
}

/// Once the resources behind the alpha mask exist, the next frame is drawn; a failure to create
/// them changes nothing.
pub proof fn new_alpha_resources_are_drawn(state: SessionModel, now: Instant)
    ensures
        state.alpha_created(true).alpha_ready,
        state.alpha_created(true).draws(true, false),
        state.alpha_created(true).pacer.due(now),
        state.alpha_created(false) == state,
        state.alpha_created(true).interaction == state.interaction,
        state.alpha_created(true).shown == state.shown,
{
}

/// Opening a texture shows it and gives up the alpha mask of the old one; a failure keeps what was
/// open and is remembered.
pub proof fn attempts_to_open_are_remembered(
    state: SessionModel,
    source: SourceModel,
    now: Instant,
)
    ensures
        state.rebuilt(source, true, now).shown == Some(source),
        !state.rebuilt(source, true, now).alpha_ready,
        state.rebuilt(source, true, now).last_failure == state.last_failure,
        state.rebuilt(source, true, now).receiver == state.receiver,
        state.rebuilt(source, true, now).interaction.enabled == state.interaction.enabled,
        state.rebuilt(source, true, now).pacer.rate == state.pacer.rate,
        state.rebuilt(source, false, now) == (SessionModel { last_failure: Some(now), ..state }),
{
}

/// No request is carried out twice: what is left behind is what was not done, and without a request
/// to end the program nothing is left.
pub proof fn requests_are_carried_out_once(
    state: SessionModel,
    requests: HotkeyRequests,
    now: Instant,
    later: Instant,
)
    ensures
        !left_undone(requests).quit,
        requests.quit ==> left_undone(requests).toggle_interaction == requests.toggle_interaction
            && left_undone(requests).toggle_topmost == requests.toggle_topmost && left_undone(
            requests,
        ).cycle_framerate == requests.cycle_framerate,
        !requests.quit ==> state.after_commands(left_undone(requests), None, later) == (
            state,
            Seq::<Effect>::empty(),
        ),
        left_undone(left_undone(requests)) == (HotkeyRequests {
            toggle_interaction: false,
            toggle_topmost: false,
            quit: false,
            cycle_framerate: false,
        }),
{
}

/// What the window and the program report reaches the part that it is about, and no other.
pub proof fn reports_reach_their_part(
    state: SessionModel,
    hooked: bool,
    modifiers: u32,
    names: Seq<Seq<u8>>,
    pressed: bool,
    left_button: bool,
    cursor: (i32, i32),
    origin: Option<(i32, i32)>,
)
    ensures
        state.hook_set(hooked).interaction.hooked == hooked,
        state.hook_set(hooked).hook_set(state.interaction.hooked) == state,
        state.modifiers_set(modifiers).interaction.modifiers == modifiers,
        state.modifiers_set(modifiers).modifiers_set(state.interaction.modifiers) == state,
        state.senders_known(names).receiver.discovered == names,
        state.senders_known(names).senders_known(state.receiver.discovered) == state,
        ({
            let after = state.mouse_input(pressed, left_button, cursor, origin);
            &&& state.interaction.enabled && left_button ==> after.interaction.dragging == pressed
            &&& !state.interaction.enabled || !left_button ==> after == state
            &&& after == (SessionModel { interaction: after.interaction, ..state })
        }),
{
}

/// A texture with a keyed mutex does not depend on the named one, and any other does not depend on
/// a keyed one: whoever holds the mutex that guards it may read it.
pub proof fn one_mutex_guards_a_texture(keyed: bool, named: bool)
    ensures
        may_be_read(true, keyed, named) <==> keyed,
        may_be_read(false, keyed, named) <==> named,
{
}

/// Only a press of Escape ends the program, and holding the key down does so once.
pub proof fn only_escape_ends_the_program(pressed: bool, repeat: bool, escape: bool)
    ensures
        ends_on_key(true, false, true),
        ends_on_key(pressed, repeat, escape) ==> pressed && escape,
        !ends_on_key(pressed, true, escape),
{
}

/// The built-in hotkeys hold only where no file replaces them, and a file in the working directory
/// replaces one beside the program.
pub proof fn nearest_configuration_holds(in_working_directory: bool, beside_program: bool)
    ensures
        holding_source(in_working_directory, beside_program) == HotkeySource::Defaults
            <==> !in_working_directory && !beside_program,
        holding_source(true, beside_program) == HotkeySource::WorkingDirectory,
        holding_source(false, true) == HotkeySource::ProgramDirectory,
{
}

} // verus!
