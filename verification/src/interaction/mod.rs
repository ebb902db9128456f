//! Hotkeys, dragging, zooming and clicks through transparent pixels.
use vstd::prelude::*;

use crate::interaction::hook_thread::HookCommand;
use crate::time::{Duration, Instant};

pub mod hook_thread;
pub mod hotkeys;

verus! {

/// Why the interaction with the window could not be set up.
#[derive(Debug)]
pub enum InteractionError {
    HotKeyRegistrationFailed { id: i32 },
    SubclassInstallFailed,
    Config(String),
}

/// How often the alpha mask is refreshed, in milliseconds.
pub const ALPHA_UPDATE_MILLIS: u64 = 100;

/// The largest extent that the window is scaled to.
pub const MAX_RENDER_DIMENSION: u32 = 16_384;

/// The extent that is shown for a rounded one.
pub open spec fn shown_extent(rounded: int) -> int {
    if rounded < 1 {
        1
    } else if rounded > MAX_RENDER_DIMENSION {
        MAX_RENDER_DIMENSION as int
    } else {
        rounded
    }
}

/// Keeps a rounded extent within what can be shown.
pub fn clamp_dimension(rounded: u64) -> (extent: u32)
    ensures
        extent == shown_extent(rounded as int),
{
    if rounded < 1 {
        1
    } else if rounded > MAX_RENDER_DIMENSION as u64 {
        MAX_RENDER_DIMENSION
    } else {
        rounded as u32
    }
}

/// The way that a mouse wheel turned.
#[derive(Debug, Clone, Copy, PartialEq, Eq, Structural)]
pub enum ScrollDirection {
    Up,
    Down,
    Still,
}

/// A change of the window scale by one step.
#[derive(Debug, Clone, Copy, PartialEq, Eq, Structural)]
pub enum ZoomStep {
    Larger,
    Smaller,
    Keep,
}

/// What becomes of a fresh alpha mask.
#[derive(Debug)]
pub enum MaskDelivery {
    /// The hook thread gets it.
    Send(HookCommand),
    /// Nobody needs it, and its buffer can be used again.
    Unused(Vec<u8>),
}

/// The hook thread, if there is one, gets a mask that shows nothing.
pub open spec fn empties_mask(delivery: MaskDelivery, hooked: bool) -> bool {
    match delivery {
        MaskDelivery::Send(command) => hooked && (command matches HookCommand::UpdateMask(
            alpha,
            width,
            height,
        ) && alpha@.len() == 0 && width == 0 && height == 0),
        MaskDelivery::Unused(alpha) => !hooked && alpha@.len() == 0,
    }
}

/// What an [`InteractionState`] remembers.
pub struct InteractionModel {
    pub enabled: bool,
    pub topmost: bool,
    pub dragging: bool,
    pub drag_start_screen: (i32, i32),
    pub drag_start_origin: (i32, i32),
    pub modifiers: u32,
    pub next_alpha_update: Instant,
    pub hooked: bool,
}

impl InteractionModel {
    /// The mouse passes through, and the window is an ordinary one among the others.
    pub open spec fn fresh(now: Instant) -> InteractionModel {
        InteractionModel {
            enabled: false,
            topmost: false,
            dragging: false,
            drag_start_screen: (0, 0),
            drag_start_origin: (0, 0),
            modifiers: 0,
            next_alpha_update: now,
            hooked: false,
        }
    }

    /// Dragging only goes on while interaction is on.
    pub open spec fn wf(self) -> bool {
        self.dragging ==> self.enabled
    }

    /// Where a dragged window goes when the pointer is at `position` inside of it, in the
    /// window's coordinates, while it stands at `outer`.
    pub open spec fn dragged_to(self, outer: (i32, i32), position: (i32, i32)) -> (int, int) {
        (
            self.drag_start_origin.0 + (outer.0 + position.0 - self.drag_start_screen.0),
            self.drag_start_origin.1 + (outer.1 + position.1 - self.drag_start_screen.1),
        )
    }

    /// Where the window goes when the pointer moves; none when it stays.
    pub open spec fn drag_target(self, position: (i32, i32), outer: Option<(i32, i32)>) -> Option<
        (int, int),
    > {
        if self.enabled && self.dragging && outer is Some {
            Some(self.dragged_to(outer->0, position))
        } else {
            None
        }
    }

    /// Every step of the way to [`InteractionModel::dragged_to`] is a coordinate.
    pub open spec fn drag_in_range(self, outer: (i32, i32), position: (i32, i32)) -> bool {
        let to = self.dragged_to(outer, position);
        &&& i32::MIN <= outer.0 + position.0 <= i32::MAX
        &&& i32::MIN <= outer.1 + position.1 <= i32::MAX
        &&& i32::MIN <= outer.0 + position.0 - self.drag_start_screen.0 <= i32::MAX
        &&& i32::MIN <= outer.1 + position.1 - self.drag_start_screen.1 <= i32::MAX
        &&& i32::MIN <= to.0 <= i32::MAX
        &&& i32::MIN <= to.1 <= i32::MAX
    }

    pub open spec fn alpha_due(self, now: Instant) -> bool {
        self.enabled && now.nanos >= self.next_alpha_update.nanos
    }

    /// The alpha mask is refreshed now, and the next refresh waits its interval.
    pub open spec fn alpha_scheduled(self, now: Instant) -> InteractionModel {
        InteractionModel {
            next_alpha_update: Instant {
                nanos: (now.nanos + ALPHA_UPDATE_MILLIS * 1_000_000) as u64,
            },
            ..self
        }
    }

    /// Somebody asks whether the alpha mask is to be refreshed now.
    pub open spec fn alpha_asked(self, now: Instant) -> InteractionModel {
        if self.alpha_due(now) {
            self.alpha_scheduled(now)
        } else {
            self
        }
    }

    /// What a turn of the wheel does to the scale.
    pub open spec fn zoomed(self, direction: ScrollDirection) -> ZoomStep {
        if !self.enabled {
            ZoomStep::Keep
        } else {
            match direction {
                ScrollDirection::Up => ZoomStep::Larger,
                ScrollDirection::Down => ZoomStep::Smaller,
                ScrollDirection::Still => ZoomStep::Keep,
            }
        }
    }

    /// A mouse button was pressed or let go. The left one starts and ends a drag while
    /// interaction is on.
    pub open spec fn mouse_input(
        self,
        pressed: bool,
        left_button: bool,
        cursor: (i32, i32),
        origin: Option<(i32, i32)>,
    ) -> InteractionModel {
        if !self.enabled || !left_button {
            self
        } else if pressed {
            InteractionModel {
                dragging: true,
                drag_start_screen: cursor,
                drag_start_origin: match origin {
                    Some(at) => at,
                    None => self.drag_start_origin,
                },
                ..self
            }
        } else {
            InteractionModel { dragging: false, ..self }
        }
    }

    /// Interaction is switched. Switching it on lets the alpha mask be refreshed at once;
    /// switching it off ends a drag.
    pub open spec fn toggled(self, now: Instant) -> InteractionModel {
        if self.enabled {
            InteractionModel { enabled: false, dragging: false, ..self }
        } else {
            InteractionModel { enabled: true, next_alpha_update: now, ..self }
        }
    }
}

/// How the user handles the window.
#[derive(Debug)]
pub struct InteractionState {
    enabled: bool,
    topmost: bool,
    dragging: bool,
    drag_start_screen: (i32, i32),
    drag_start_origin: (i32, i32),
    modifiers: u32,
    next_alpha_update: Instant,
    hooked: bool,
}

impl View for InteractionState {
    type V = InteractionModel;

    closed spec fn view(&self) -> InteractionModel {
        InteractionModel {
            enabled: self.enabled,
            topmost: self.topmost,
            dragging: self.dragging,
            drag_start_screen: self.drag_start_screen,
            drag_start_origin: self.drag_start_origin,
            modifiers: self.modifiers,
            next_alpha_update: self.next_alpha_update,
            hooked: self.hooked,
        }
    }
}

impl InteractionState {
    pub fn new(now: Instant) -> (state: Self)
        ensures
            state@ == InteractionModel::fresh(now),
            state@.wf(),
    {
        InteractionState {
            enabled: false,
            topmost: false,
            dragging: false,
            drag_start_screen: (0, 0),
            drag_start_origin: (0, 0),
            modifiers: 0,
            next_alpha_update: now,
            hooked: false,
        }
    }

    /// Whether the mouse hook still has to be installed.
    pub fn needs_mouse_hook(&self) -> (needed: bool)
        ensures
            needed == !self@.hooked,
    {
        !self.hooked
    }

    /// Takes note that the mouse hook is installed.
    pub fn install_mouse_hook(&mut self)
        ensures
            final(self)@ == (InteractionModel { hooked: true, ..old(self)@ }),
    {
        self.hooked = true;
    }

    /// Lets go of the mouse hook.
    pub fn cleanup(&mut self)
        ensures
            final(self)@ == (InteractionModel { hooked: false, ..old(self)@ }),
    {
        self.hooked = false;
    }

    pub fn update_modifiers(&mut self, modifiers: u32)
        ensures
            final(self)@ == (InteractionModel { modifiers, ..old(self)@ }),
    {
        self.modifiers = modifiers;
    }

    /// Keys have no function of their own in the window.
    pub fn handle_keyboard(&mut self, _pressed: bool)
        ensures
            final(self)@ == old(self)@,
    {
    }

    /// Switches interaction.
    pub fn toggle_enabled(&mut self, now: Instant) -> (enabled: bool)
        ensures
            enabled == !old(self)@.enabled,
            final(self)@ == old(self)@.toggled(now),
            old(self)@.wf() ==> final(self)@.wf(),
    {
        self.enabled = !self.enabled;
        if self.enabled {
            self.next_alpha_update = now;
        } else {
            self.dragging = false;
        }
        self.enabled
    }

    /// Switches whether the window stays on top.
    pub fn toggle_topmost(&mut self) -> (topmost: bool)
        ensures
            topmost == !old(self)@.topmost,
            final(self)@ == (InteractionModel { topmost, ..old(self)@ }),
    {
        self.topmost = !self.topmost;
        self.topmost
    }

    /// Ends a drag, because the window is hidden or shows another source.
    pub fn cancel_drag(&mut self)
        ensures
            final(self)@ == (InteractionModel { dragging: false, ..old(self)@ }),
    {
        self.dragging = false;
    }

    /// Turning the wheel zooms while interaction is on.
    pub fn handle_scroll(&self, direction: ScrollDirection) -> (step: ZoomStep)
        ensures
            step == self@.zoomed(direction),
    {
        if !self.enabled {
            return ZoomStep::Keep;
        }
        match direction {
            ScrollDirection::Up => ZoomStep::Larger,
            ScrollDirection::Down => ZoomStep::Smaller,
            ScrollDirection::Still => ZoomStep::Keep,
        }
    }

    /// The left button starts and ends a drag while interaction is on. `cursor` is the pointer
    /// on the screen; `origin` is where the window stands, if that is known.
    pub fn handle_mouse_input(
        &mut self,
        pressed: bool,
        left_button: bool,
        cursor: (i32, i32),
        origin: Option<(i32, i32)>,
    )
        ensures
            final(self)@ == old(self)@.mouse_input(pressed, left_button, cursor, origin),
            old(self)@.wf() ==> final(self)@.wf(),
    {
        if !self.enabled || !left_button {
            return;
        }
        if pressed {
            self.dragging = true;
            self.drag_start_screen = cursor;
            match origin {
                Some(at) => self.drag_start_origin = at,
                None => {},
            }
        } else {
            self.dragging = false;
        }
    }

    /// Where the window goes now that the pointer is at `position` inside of it; none when
    /// nothing is dragged or the window's place `outer` is not known.
    pub fn handle_cursor_moved(
        &self,
        position: (i32, i32),
        outer: Option<(i32, i32)>,
    ) -> (target: Option<(i32, i32)>)
        requires
            self@.enabled && self@.dragging && outer is Some ==> self@.drag_in_range(
                outer->0,
                position,
            ),
        ensures
            match target {
                Some(to) => self@.drag_target(position, outer) == Some((to.0 as int, to.1 as int)),
                None => self@.drag_target(position, outer) is None,
            },
    {
        if !self.enabled || !self.dragging {
            return None;
        }
        match outer {
            None => None,
            Some(outer) => {
                let dx: i32 = outer.0 + position.0 - self.drag_start_screen.0;
                let dy: i32 = outer.1 + position.1 - self.drag_start_screen.1;
                Some((self.drag_start_origin.0 + dx, self.drag_start_origin.1 + dy))
            },
        }
    }

    /// Whether the way that [`InteractionState::handle_cursor_moved`] would move the window is
    /// one of coordinates.
    pub fn can_follow(&self, position: (i32, i32), outer: Option<(i32, i32)>) -> (fits: bool)
        ensures
            fits == (self@.enabled && self@.dragging && outer is Some ==> self@.drag_in_range(
                outer->0,
                position,
            )),
    {
        if !self.enabled || !self.dragging {
            return true;
        }
        match outer {
            None => true,
            Some(outer) => {
                let low: i64 = i32::MIN as i64;
                let high: i64 = i32::MAX as i64;
                let x: i64 = outer.0 as i64 + position.0 as i64;
                let y: i64 = outer.1 as i64 + position.1 as i64;
                let dx: i64 = x - self.drag_start_screen.0 as i64;
                let dy: i64 = y - self.drag_start_screen.1 as i64;
                let to_x: i64 = self.drag_start_origin.0 as i64 + dx;
                let to_y: i64 = self.drag_start_origin.1 as i64 + dy;
                low <= x && x <= high && low <= y && y <= high && low <= dx && dx <= high && low
                    <= dy && dy <= high && low <= to_x && to_x <= high && low <= to_y && to_y
                    <= high
            },
        }
    }

    pub fn is_enabled(&self) -> (enabled: bool)
        ensures
            enabled == self@.enabled,
    {
        self.enabled
    }

    pub fn is_topmost(&self) -> (topmost: bool)
        ensures
            topmost == self@.topmost,
    {
        self.topmost
    }

    pub fn is_dragging(&self) -> (dragging: bool)
        ensures
            dragging == self@.dragging,
    {
        self.dragging
    }

    /// Whether the alpha mask is to be refreshed now; the next refresh then waits its interval.
    pub fn should_update_alpha(&mut self, now: Instant) -> (due: bool)
        requires
            old(self)@.alpha_due(now) ==> now.nanos + ALPHA_UPDATE_MILLIS * 1_000_000 <= u64::MAX,
        ensures
            due == old(self)@.alpha_due(now),
            final(self)@ == old(self)@.alpha_asked(now),
    {
        if !self.enabled || now.nanos < self.next_alpha_update.nanos {
            return false;
        }
        self.next_alpha_update = now + Duration::from_millis(ALPHA_UPDATE_MILLIS);
        true
    }

    /// Hands a fresh alpha mask to the hook thread, if there is one.
    pub fn update_alpha_mask(&self, alpha: Vec<u8>, width: u32, height: u32) -> (delivery:
        MaskDelivery)
        ensures
            delivery == if self@.hooked {
                MaskDelivery::Send(HookCommand::UpdateMask(alpha, width, height))
            } else {
                MaskDelivery::Unused(alpha)
            },
    {
        if self.hooked {
            MaskDelivery::Send(HookCommand::UpdateMask(alpha, width, height))
        } else {
            MaskDelivery::Unused(alpha)
        }
    }

    /// The mask that makes every event go its usual way, for the time until a new source has
    /// been looked at.
    pub fn invalidate_alpha_mask(&self) -> (delivery: MaskDelivery)
        ensures
            empties_mask(delivery, self@.hooked),
    {
        self.update_alpha_mask(Vec::new(), 0, 0)
    }
}

/// A window whose pointer came back to where the drag started is back where it started too, and
/// it moves exactly as far as the pointer.
pub proof fn window_follows_the_pointer(
    state: InteractionModel,
    outer: (i32, i32),
    position: (i32, i32),
)
    ensures
        state.dragged_to(outer, position).0 - state.drag_start_origin.0 == (outer.0 + position.0)
            - state.drag_start_screen.0,
        state.dragged_to(outer, position).1 - state.drag_start_origin.1 == (outer.1 + position.1)
            - state.drag_start_screen.1,
        outer.0 + position.0 == state.drag_start_screen.0 ==> state.dragged_to(outer, position).0
            == state.drag_start_origin.0,
        outer.1 + position.1 == state.drag_start_screen.1 ==> state.dragged_to(outer, position).1
            == state.drag_start_origin.1,
{
}

/// Two refreshes of the alpha mask are at least an interval apart, and one is due again as soon
/// as the interval has passed.
pub proof fn alpha_updates_keep_their_distance(
    before: InteractionModel,
    first: Instant,
    second: Instant,
)
    requires
        before.alpha_due(first),
        first.nanos + ALPHA_UPDATE_MILLIS * 1_000_000 <= u64::MAX,
    ensures
        before.alpha_asked(first).alpha_due(second) <==> second.nanos >= first.nanos
            + ALPHA_UPDATE_MILLIS * 1_000_000,
{
}

/// Nothing is refreshed while interaction is off, and a refusal changes nothing: asking too
/// early does not put off the next refresh.
pub proof fn early_asks_change_nothing(before: InteractionModel, now: Instant)
    ensures
        !before.enabled ==> !before.alpha_due(now),
        !before.alpha_due(now) ==> before.alpha_asked(now) == before,
{
}

/// A history of an interaction state in which interaction is not switched on: at each step
/// somebody asks for a refresh at a moment that the clock has room behind, or something happens
/// that leaves the time of the next refresh alone.
pub open spec fn alpha_history(
    states: Seq<InteractionModel>,
    asks: Seq<Option<Instant>>,
) -> bool {
    &&& states.len() == asks.len() + 1
    &&& forall|i: int|
        0 <= i < asks.len() ==> match #[trigger] asks[i] {
            Some(now) => now.nanos + ALPHA_UPDATE_MILLIS * 1_000_000 <= u64::MAX && states[i + 1]
                == states[i].alpha_asked(now),
            None => states[i + 1].next_alpha_update == states[i].next_alpha_update,
        }
}

/// The refresh asked for at step `i` of a history was granted.
pub open spec fn alpha_granted(
    states: Seq<InteractionModel>,
    asks: Seq<Option<Instant>>,
    i: int,
) -> bool {
    0 <= i < asks.len() && asks[i] is Some && states[i].alpha_due(asks[i]->0)
}

proof fn next_refresh_never_moves_back(
    states: Seq<InteractionModel>,
    asks: Seq<Option<Instant>>,
    from: int,
    to: int,
)
    requires
        alpha_history(states, asks),
        0 <= from <= to < states.len(),
    ensures
        states[from].next_alpha_update.nanos <= states[to].next_alpha_update.nanos,
    decreases to - from,
{
    if from < to {
        next_refresh_never_moves_back(states, asks, from, to - 1);
        assert(asks[to - 1] is Some || asks[to - 1] is None);
    }
}

/// Any two granted refreshes are at least an interval apart, whatever happens in between, as long
/// as interaction is not switched on anew: there are at most ten a second.
pub proof fn refreshes_keep_their_distance(
    states: Seq<InteractionModel>,
    asks: Seq<Option<Instant>>,
    first: int,
    second: int,
)
    requires
        alpha_history(states, asks),
        first < second,
        alpha_granted(states, asks, first),
        alpha_granted(states, asks, second),
    ensures
        asks[second]->0.nanos >= asks[first]->0.nanos + ALPHA_UPDATE_MILLIS * 1_000_000,
{
    assert(asks[first] is Some);
    next_refresh_never_moves_back(states, asks, first + 1, second);
}

/// Switching interaction on lets the alpha mask be refreshed at once; switching it off leaves the
/// time of the next refresh alone.
pub proof fn switching_on_allows_a_refresh(before: InteractionModel, now: Instant)
    ensures
        !before.enabled ==> before.toggled(now).alpha_due(now),
        before.enabled ==> before.toggled(now).next_alpha_update == before.next_alpha_update,
{
}

/// While interaction is on, pressing the left button takes hold of the window where the pointer is,
/// and from then on the window moves as far as the pointer does; letting the button go lets the
/// window go.
pub proof fn left_button_drags_the_window(
    state: InteractionModel,
    cursor: (i32, i32),
    origin: (i32, i32),
    outer: (i32, i32),
    position: (i32, i32),
    released: (i32, i32),
    place: Option<(i32, i32)>,
)
    requires
        state.enabled,
    ensures
        ({
            let held = state.mouse_input(true, true, cursor, Some(origin));
            &&& held.dragging
            &&& held.dragged_to(outer, position) == (
                origin.0 + (outer.0 + position.0 - cursor.0),
                origin.1 + (outer.1 + position.1 - cursor.1),
            )
            &&& !held.mouse_input(false, true, released, place).dragging
            &&& held.enabled && held.topmost == state.topmost && held.next_alpha_update
                == state.next_alpha_update && held.hooked == state.hooked
        }),
        state.mouse_input(true, true, cursor, None).dragging,
        state.mouse_input(true, true, cursor, None).drag_start_origin == state.drag_start_origin,
        state.mouse_input(true, true, cursor, None).drag_start_screen == cursor,
{
}

/// Other buttons, and any button while interaction is off, change nothing.
pub proof fn other_buttons_change_nothing(
    state: InteractionModel,
    pressed: bool,
    left_button: bool,
    cursor: (i32, i32),
    origin: Option<(i32, i32)>,
)
    requires
        !left_button || !state.enabled,
    ensures
        state.mouse_input(pressed, left_button, cursor, origin) == state,
{
}

/// Switching interaction switches that alone and, switched off, lets a dragged window go.
pub proof fn switching_concerns_interaction_alone(state: InteractionModel, now: Instant)
    ensures
        ({
            let after = state.toggled(now);
            &&& after.enabled == !state.enabled
            &&& after.topmost == state.topmost && after.hooked == state.hooked && after.modifiers
                == state.modifiers
            &&& after.drag_start_screen == state.drag_start_screen && after.drag_start_origin
                == state.drag_start_origin
            &&& state.enabled ==> !after.dragging
            &&& !state.enabled ==> after.dragging == state.dragging
            &&& after.toggled(now).enabled == state.enabled
        }),
{
}

/// The alpha mask is refreshed ten times a second at most: a refresh puts the next one off by a
/// tenth of a second.
pub proof fn refresh_takes_a_tenth_of_a_second(
    state: InteractionModel,
    now: Instant,
    later: Instant,
)
    requires
        now.nanos + 100_000_000 <= u64::MAX,
        state.enabled,
        now.nanos >= state.next_alpha_update.nanos,
    ensures
        state.alpha_due(now),
        state.alpha_asked(now).alpha_due(later) <==> later.nanos - now.nanos >= 100_000_000,
        state.alpha_asked(now) == (InteractionModel {
            next_alpha_update: state.alpha_asked(now).next_alpha_update,
            ..state
        }),
{
}

/// An extent that can be shown stays as it is, and any other becomes the nearest one that can be
/// shown: there are 16384 of them, from one on.
pub proof fn extents_are_kept_in_range(rounded: int, other: int)
    ensures
        1 <= shown_extent(rounded) <= 16_384,
        1 <= rounded <= 16_384 <==> shown_extent(rounded) == rounded,
        rounded <= other ==> shown_extent(rounded) <= shown_extent(other),
{
}

/// While interaction is on, and only then, the wheel zooms: upwards it enlarges and downwards it
/// shrinks.
pub proof fn wheel_zooms_while_interaction_is_on(
    state: InteractionModel,
    direction: ScrollDirection,
)
    ensures
        state.zoomed(direction) == ZoomStep::Larger <==> state.enabled && direction
            == ScrollDirection::Up,
        state.zoomed(direction) == ZoomStep::Smaller <==> state.enabled && direction
            == ScrollDirection::Down,
{
}

/// On any desktop of ordinary extent a dragged window can follow the pointer.
pub proof fn ordinary_drags_are_in_range(
    state: InteractionModel,
    outer: (i32, i32),
    position: (i32, i32),
)
    requires
        -0x1000_0000 <= outer.0 <= 0x1000_0000,
        -0x1000_0000 <= outer.1 <= 0x1000_0000,
        -0x1000_0000 <= position.0 <= 0x1000_0000,
        -0x1000_0000 <= position.1 <= 0x1000_0000,
        -0x1000_0000 <= state.drag_start_screen.0 <= 0x1000_0000,
        -0x1000_0000 <= state.drag_start_screen.1 <= 0x1000_0000,
        -0x1000_0000 <= state.drag_start_origin.0 <= 0x1000_0000,
        -0x1000_0000 <= state.drag_start_origin.1 <= 0x1000_0000,
    ensures
        state.drag_in_range(outer, position),
{
}

/// The window moves with the pointer exactly while it is dragged, interaction is on and its place
/// is known: after a press of the left button until the button is let go.
pub proof fn only_dragged_windows_move(
    state: InteractionModel,
    cursor: (i32, i32),
    origin: (i32, i32),
    position: (i32, i32),
    outer: (i32, i32),
)
    ensures
        state.drag_target(position, Some(outer)) is Some <==> state.enabled && state.dragging,
        state.drag_target(position, None) is None,
        state.enabled ==> state.mouse_input(true, true, cursor, Some(origin)).drag_target(
            position,
            Some(outer),
        ) == Some(
            (
                origin.0 + (outer.0 + position.0 - cursor.0),
                origin.1 + (outer.1 + position.1 - cursor.1),
            ),
        ),
        state.mouse_input(false, true, cursor, Some(origin)).drag_target(position, Some(outer))
            is None || !state.enabled,
{
}

} // verus!
