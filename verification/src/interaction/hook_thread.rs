//! The mouse hook: which events fall through transparent pixels, and what the window below is
//! sent for them.
use vstd::prelude::*;

verus! {

pub const WM_LBUTTONDOWN: u32 = 0x0201;

pub const WM_LBUTTONUP: u32 = 0x0202;

pub const WM_RBUTTONDOWN: u32 = 0x0204;

pub const WM_RBUTTONUP: u32 = 0x0205;

pub const WM_MBUTTONDOWN: u32 = 0x0207;

pub const WM_MBUTTONUP: u32 = 0x0208;

pub const WM_MOUSEWHEEL: u32 = 0x020A;

/// The message that wakes the hook thread up to look at its commands.
pub const WM_HOOK_COMMAND: u32 = 0x8000;

/// Pixels with less alpha than this count as transparent.
pub const ALPHA_THRESHOLD: u8 = 10;

pub const MK_LBUTTON: usize = 0x0001;

pub const MK_RBUTTON: usize = 0x0002;

pub const MK_MBUTTON: usize = 0x0010;

#[derive(Debug, Clone, Copy, PartialEq, Eq, Structural)]
pub struct Point {
    pub x: i32,
    pub y: i32,
}

#[derive(Debug, Clone, Copy, PartialEq, Eq, Structural)]
pub struct Rect {
    pub left: i32,
    pub top: i32,
    pub right: i32,
    pub bottom: i32,
}

/// A mouse event that is meant for the window below.
#[derive(Debug, Clone, Copy, PartialEq, Eq, Structural)]
pub struct PassthroughEvent {
    pub msg: u32,
    pub mouse_data: u32,
    pub screen_pt: Point,
}

/// What the hook thread is told.
#[derive(Debug)]
pub enum HookCommand {
    UpdateMask(Vec<u8>, u32, u32),
    SetEnabled(bool),
    Shutdown,
}

/// The alpha values of the shown image, and whether the hook looks at them.
pub struct HookModel {
    pub mask: Seq<u8>,
    pub mask_width: u32,
    pub mask_height: u32,
    pub enabled: bool,
}

/// The messages that can fall through the window: buttons and the wheel.
pub open spec fn is_button_message(msg: u32) -> bool {
    ||| msg == WM_LBUTTONDOWN
    ||| msg == WM_LBUTTONUP
    ||| msg == WM_RBUTTONDOWN
    ||| msg == WM_RBUTTONUP
    ||| msg == WM_MBUTTONDOWN
    ||| msg == WM_MBUTTONUP
    ||| msg == WM_MOUSEWHEEL
}

/// The extent from `low` to `high`, as an unsigned number of 32 bits.
pub open spec fn extent(low: i32, high: i32) -> int {
    if high >= low {
        high - low
    } else {
        high - low + 0x1_0000_0000
    }
}

/// The pixel of a mask of `mask` pixels that is shown at distance `at` from the edge of a
/// window of `window` pixels.
pub open spec fn mask_pixel(at: int, mask: int, window: int) -> int {
    at * mask / window
}

impl HookModel {
    /// There is a mask to look at.
    pub open spec fn has_mask(self) -> bool {
        self.mask_width != 0 && self.mask_height != 0 && self.mask.len() > 0
    }

    /// The window shows a transparent pixel at `point`.
    pub open spec fn transparent_at(self, point: Point, rect: Rect) -> bool {
        let cx = point.x - rect.left;
        let cy = point.y - rect.top;
        let window_width = extent(rect.left, rect.right);
        let window_height = extent(rect.top, rect.bottom);
        let px = mask_pixel(cx, self.mask_width as int, window_width);
        let py = mask_pixel(cy, self.mask_height as int, window_height);
        &&& cx >= 0
        &&& cy >= 0
        &&& window_width != 0
        &&& window_height != 0
        &&& px < self.mask_width
        &&& py < self.mask_height
        &&& py * self.mask_width + px < self.mask.len()
        &&& self.mask[py * self.mask_width + px] < ALPHA_THRESHOLD
    }

    /// The hook looks at the event at all.
    pub open spec fn watches(self, code: i32, msg: u32) -> bool {
        code >= 0 && is_button_message(msg) && self.enabled && self.has_mask()
    }

    /// The event that is handed to the window below; none when an event goes its usual way.
    pub open spec fn passes(
        self,
        code: i32,
        msg: u32,
        mouse_data: u32,
        point: Point,
        over_window: bool,
        rect: Rect,
    ) -> Option<PassthroughEvent> {
        if self.watches(code, msg) && over_window && self.transparent_at(point, rect) {
            Some(PassthroughEvent { msg, mouse_data, screen_pt: point })
        } else {
            None
        }
    }

    /// What the hook thread knows once a command has been carried out.
    pub open spec fn told(self, command: HookCommand) -> HookModel {
        match command {
            HookCommand::UpdateMask(alpha, width, height) => HookModel {
                mask: alpha@,
                mask_width: width,
                mask_height: height,
                ..self
            },
            HookCommand::SetEnabled(enabled) => HookModel { enabled, ..self },
            HookCommand::Shutdown => self,
        }
    }
}

/// What the hook thread knows.
#[derive(Debug)]
pub struct HookThreadState {
    mask_alpha: Vec<u8>,
    mask_width: u32,
    mask_height: u32,
    enabled: bool,
}

impl View for HookThreadState {
    type V = HookModel;

    closed spec fn view(&self) -> HookModel {
        HookModel {
            mask: self.mask_alpha@,
            mask_width: self.mask_width,
            mask_height: self.mask_height,
            enabled: self.enabled,
        }
    }
}

impl HookThreadState {
    /// No mask, and nothing falls through.
    pub fn new() -> (state: Self)
        ensures
            state@ == (HookModel {
                mask: Seq::empty(),
                mask_width: 0,
                mask_height: 0,
                enabled: false,
            }),
    {
        HookThreadState { mask_alpha: Vec::new(), mask_width: 0, mask_height: 0, enabled: false }
    }

    /// Carries a command out. The thread goes on unless it is told to shut down.
    pub fn apply(&mut self, command: HookCommand) -> (running: bool)
        ensures
            running == !(command is Shutdown),
            final(self)@ == old(self)@.told(command),
    {
        match command {
            HookCommand::UpdateMask(alpha, width, height) => {
                self.mask_alpha = alpha;
                self.mask_width = width;
                self.mask_height = height;
                true
            },
            HookCommand::SetEnabled(enabled) => {
                self.enabled = enabled;
                true
            },
            HookCommand::Shutdown => false,
        }
    }

    /// Whether an event has to be looked at; every other goes its usual way.
    pub fn watches(&self, code: i32, msg: u32) -> (watched: bool)
        ensures
            watched == self@.watches(code, msg),
    {
        let is_button = msg == WM_LBUTTONDOWN || msg == WM_LBUTTONUP || msg == WM_RBUTTONDOWN
            || msg == WM_RBUTTONUP || msg == WM_MBUTTONDOWN || msg == WM_MBUTTONUP || msg
            == WM_MOUSEWHEEL;
        code >= 0 && is_button && self.enabled && self.mask_width != 0 && self.mask_height != 0
            && self.mask_alpha.len() > 0
    }

    fn is_transparent_at(&self, point: Point, rect: Rect) -> (transparent: bool)
        ensures
            transparent == self@.transparent_at(point, rect),
    {
        let cx: i64 = point.x as i64 - rect.left as i64;
        let cy: i64 = point.y as i64 - rect.top as i64;
        if cx < 0 || cy < 0 {
            return false;
        }
        let window_width: u64 = window_extent(rect.left, rect.right);
        let window_height: u64 = window_extent(rect.top, rect.bottom);
        if window_width == 0 || window_height == 0 {
            return false;
        }
        let mask_width: u64 = self.mask_width as u64;
        let mask_height: u64 = self.mask_height as u64;
        assert(0 <= cx * mask_width <= 0xFFFF_FFFF * 0xFFFF_FFFF) by (nonlinear_arith)
            requires
                0 <= cx <= 0xFFFF_FFFF,
                0 <= mask_width <= 0xFFFF_FFFF,
        ;
        assert(0 <= cy * mask_height <= 0xFFFF_FFFF * 0xFFFF_FFFF) by (nonlinear_arith)
            requires
                0 <= cy <= 0xFFFF_FFFF,
                0 <= mask_height <= 0xFFFF_FFFF,
        ;
        let px: u64 = cx as u64 * mask_width / window_width;
        let py: u64 = cy as u64 * mask_height / window_height;
        if px >= mask_width || py >= mask_height {
            return false;
        }
        assert(0 <= py * mask_width <= 0xFFFF_FFFE * 0xFFFF_FFFF) by (nonlinear_arith)
            requires
                0 <= py <= 0xFFFF_FFFE,
                0 <= mask_width <= 0xFFFF_FFFF,
        ;
        let index: u64 = py * mask_width + px;
        index < self.mask_alpha.len() as u64 && self.mask_alpha[index as usize] < ALPHA_THRESHOLD
    }

    /// Decides about a mouse event at `point`. `over_window` says whether the window that shows
    /// the image is the one under the pointer, and `rect` is where that window stands. An event
    /// that is given back is swallowed and forwarded; any other goes its usual way.
    pub fn filter(
        &self,
        code: i32,
        msg: u32,
        mouse_data: u32,
        point: Point,
        over_window: bool,
        rect: Rect,
    ) -> (forwarded: Option<PassthroughEvent>)
        ensures
            forwarded == self@.passes(code, msg, mouse_data, point, over_window, rect),
    {
        if self.watches(code, msg) && over_window && self.is_transparent_at(point, rect) {
            Some(PassthroughEvent { msg, mouse_data, screen_pt: point })
        } else {
            None
        }
    }
}

fn window_extent(low: i32, high: i32) -> (span: u64)
    ensures
        span == extent(low, high),
        span <= 0xFFFF_FFFF,
{
    if high >= low {
        (high as i64 - low as i64) as u64
    } else {
        (high as i64 - low as i64 + 0x1_0000_0000) as u64
    }
}

/// There is a window, and it is another one.
pub open spec fn another_window(below: isize, own: isize) -> bool {
    below != 0 && below != own
}

/// Whether there is another window to hand the event to. Windows are told apart by their
/// handles, and zero is none.
pub fn has_window_below(below: isize, own: isize) -> (found: bool)
    ensures
        found == another_window(below, own),
{
    below != 0 && below != own
}

/// Button messages carry a place in the window below; the wheel carries a place on the screen.
pub fn needs_client_point(event: &PassthroughEvent) -> (needed: bool)
    ensures
        needed == (event.msg != WM_MOUSEWHEEL),
{
    event.msg != WM_MOUSEWHEEL
}

/// A message to another window.
#[derive(Debug, Clone, Copy, PartialEq, Eq, Structural)]
pub struct ForwardedMessage {
    pub msg: u32,
    pub wparam: usize,
    pub lparam: isize,
}

/// The place that a message about an event carries, when the event happened at `client` in the
/// window below.
pub open spec fn message_place(event: PassthroughEvent, client: Point) -> Point {
    if event.msg == WM_MOUSEWHEEL {
        event.screen_pt
    } else {
        client
    }
}

/// The message that carries an event to the window below, in which it happened at `client`.
pub fn forwarded_message(event: &PassthroughEvent, client: Point) -> (message: ForwardedMessage)
    ensures
        message.msg == event.msg,
        message.wparam == key_state(event.msg, event.mouse_data),
        message.lparam == packed_point(message_place(*event, client)) as isize,
{
    let point = if needs_client_point(event) {
        client
    } else {
        event.screen_pt
    };
    ForwardedMessage {
        msg: event.msg,
        wparam: forwarded_wparam(event.msg, event.mouse_data),
        lparam: point_to_lparam(point),
    }
}

/// The low 16 bits of a number.
pub open spec fn low_word(value: i32) -> int {
    value as int % 65_536
}

/// Both coordinates in one number of 32 bits: x in the low word, y in the high word.
pub open spec fn packed_point(point: Point) -> u32 {
    (low_word(point.y) * 65_536 + low_word(point.x)) as u32
}

fn word_of(value: i32) -> (word: u32)
    ensures
        word == low_word(value),
        word < 65_536,
{
    ((value as i64 + 0x1_0000_0000) % 65_536) as u32
}

pub fn point_to_lparam(point: Point) -> (lparam: isize)
    ensures
        lparam == packed_point(point) as isize,
{
    let x: u32 = word_of(point.x);
    let y: u32 = word_of(point.y);
    (y * 65_536 + x) as isize
}

/// The button that is down during a button message, or the distance that the wheel turned.
pub open spec fn key_state(msg: u32, mouse_data: u32) -> int {
    if msg == WM_LBUTTONDOWN {
        MK_LBUTTON as int
    } else if msg == WM_RBUTTONDOWN {
        MK_RBUTTON as int
    } else if msg == WM_MBUTTONDOWN {
        MK_MBUTTON as int
    } else if msg == WM_MOUSEWHEEL {
        mouse_data - mouse_data % 65_536
    } else {
        0
    }
}

pub fn forwarded_wparam(msg: u32, mouse_data: u32) -> (wparam: usize)
    ensures
        wparam == key_state(msg, mouse_data),
{
    if msg == WM_LBUTTONDOWN {
        MK_LBUTTON
    } else if msg == WM_RBUTTONDOWN {
        MK_RBUTTON
    } else if msg == WM_MBUTTONDOWN {
        MK_MBUTTON
    } else if msg == WM_MOUSEWHEEL {
        (mouse_data - mouse_data % 65_536) as usize
    } else {
        0
    }
}

/// The number that a word stands for when its highest bit is a sign.
pub open spec fn signed_word(word: int) -> int {
    if word >= 32_768 {
        word - 65_536
    } else {
        word
    }
}

/// Both coordinates can be read back from the packed point, negative ones too, as long as they
/// fit a word.
pub proof fn packed_point_keeps_signed_coordinates(point: Point)
    requires
        -32_768 <= point.x < 32_768,
        -32_768 <= point.y < 32_768,
    ensures
        signed_word(packed_point(point) as int % 65_536) == point.x,
        signed_word(packed_point(point) as int / 65_536) == point.y,
{
}

/// The wheel message keeps the distance that the wheel turned, and nothing else.
pub proof fn wheel_keeps_its_distance(mouse_data: u32)
    ensures
        key_state(WM_MOUSEWHEEL, mouse_data) / 65_536 == mouse_data / 65_536,
        key_state(WM_MOUSEWHEEL, mouse_data) % 65_536 == 0,
{
}

/// A point inside the window always falls on a pixel of the mask.
pub proof fn inside_the_window_is_inside_the_mask(at: int, mask: int, window: int)
    requires
        0 <= at < window,
        0 < mask,
    ensures
        0 <= mask_pixel(at, mask, window) < mask,
{
    assert(0 <= at * mask < window * mask) by (nonlinear_arith)
        requires
            0 <= at < window,
            0 < mask,
    ;
    assert(0 <= at * mask / window < mask) by (nonlinear_arith)
        requires
            0 <= at * mask < window * mask,
            0 < window,
    ;
}

/// A window that has the size of the mask looks at the very pixel under the pointer.
pub proof fn unscaled_window_looks_at_its_own_pixel(state: HookModel, point: Point, rect: Rect)
    requires
        state.has_mask(),
        state.mask.len() == state.mask_width * state.mask_height,
        rect.right - rect.left == state.mask_width,
        rect.bottom - rect.top == state.mask_height,
        rect.left <= point.x < rect.right,
        rect.top <= point.y < rect.bottom,
    ensures
        state.transparent_at(point, rect) <==> state.mask[(point.y - rect.top) * state.mask_width
            + (point.x - rect.left)] < ALPHA_THRESHOLD,
{
    let cx = point.x - rect.left;
    let cy = point.y - rect.top;
    vstd::arithmetic::div_mod::lemma_div_multiples_vanish(cx, state.mask_width as int);
    vstd::arithmetic::div_mod::lemma_div_multiples_vanish(cy, state.mask_height as int);
    assert(cx * state.mask_width == state.mask_width * cx) by (nonlinear_arith);
    assert(cy * state.mask_height == state.mask_height * cy) by (nonlinear_arith);
    assert(cy * state.mask_width + cx < state.mask_width * state.mask_height) by (nonlinear_arith)
        requires
            0 <= cx < state.mask_width,
            0 <= cy < state.mask_height,
    ;
}

/// Without a mask, or while the hook is off, every event goes its usual way.
pub proof fn nothing_falls_through_without_a_mask(state: HookModel, code: i32, msg: u32)
    requires
        !state.enabled || state.mask.len() == 0,
    ensures
        !state.watches(code, msg),
{
}

/// The pixel that is looked at is the one whose scaled square holds the point, however much the
/// window is larger or smaller than the mask.
pub proof fn shown_pixel_holds_the_point(at: int, mask: int, window: int)
    requires
        0 <= at < window,
        0 < mask,
    ensures
        mask_pixel(at, mask, window) * window <= at * mask,
        at * mask < (mask_pixel(at, mask, window) + 1) * window,
{
    let p = at * mask / window;
    vstd::arithmetic::div_mod::lemma_fundamental_div_mod(at * mask, window);
    assert(p * window == window * p) by (nonlinear_arith);
    assert((p + 1) * window == window * p + window) by (nonlinear_arith);
}

proof fn shown_pixel_is_unique(at: int, mask: int, window: int, p: int)
    requires
        0 <= at < window,
        0 < mask,
        p * window <= at * mask < (p + 1) * window,
    ensures
        mask_pixel(at, mask, window) == p,
{
    shown_pixel_holds_the_point(at, mask, window);
    let q = mask_pixel(at, mask, window);
    assert(p == q) by (nonlinear_arith)
        requires
            p * window <= at * mask < (p + 1) * window,
            q * window <= at * mask < (q + 1) * window,
            0 < window,
    ;
}

/// In a window of any size, a point inside of it is transparent exactly when the pixel of the mask
/// that is shown there, the one whose scaled square holds the point, has an alpha below ten.
pub proof fn scaled_window_looks_at_the_shown_pixel(
    state: HookModel,
    point: Point,
    rect: Rect,
    px: int,
    py: int,
)
    requires
        state.has_mask(),
        state.mask.len() == state.mask_width * state.mask_height,
        rect.left <= point.x < rect.right,
        rect.top <= point.y < rect.bottom,
        px * (rect.right - rect.left) <= (point.x - rect.left) * state.mask_width < (px + 1) * (
        rect.right - rect.left),
        py * (rect.bottom - rect.top) <= (point.y - rect.top) * state.mask_height < (py + 1) * (
        rect.bottom - rect.top),
    ensures
        0 <= px < state.mask_width,
        0 <= py < state.mask_height,
        state.transparent_at(point, rect) <==> state.mask[py * state.mask_width + px] < 10,
{
    let cx = point.x - rect.left;
    let cy = point.y - rect.top;
    let width = rect.right - rect.left;
    let height = rect.bottom - rect.top;
    shown_pixel_is_unique(cx, state.mask_width as int, width, px);
    shown_pixel_is_unique(cy, state.mask_height as int, height, py);
    inside_the_window_is_inside_the_mask(cx, state.mask_width as int, width);
    inside_the_window_is_inside_the_mask(cy, state.mask_height as int, height);
    assert(0 <= py * state.mask_width + px < state.mask_width * state.mask_height)
        by (nonlinear_arith)
        requires
            0 <= px < state.mask_width,
            0 <= py < state.mask_height,
    ;
}

/// A point outside of the window is not transparent: the window has nothing to do with it.
pub proof fn nothing_falls_through_beside_the_window(state: HookModel, point: Point, rect: Rect)
    requires
        rect.left < rect.right,
        rect.top < rect.bottom,
        !(rect.left <= point.x < rect.right && rect.top <= point.y < rect.bottom),
    ensures
        !state.transparent_at(point, rect),
{
    let cx = point.x - rect.left;
    let cy = point.y - rect.top;
    let width = rect.right - rect.left;
    let height = rect.bottom - rect.top;
    if cx >= width {
        assert(cx * state.mask_width / width >= state.mask_width) by (nonlinear_arith)
            requires
                cx >= width,
                width > 0,
                state.mask_width >= 0,
        ;
    }
    if cy >= height {
        assert(cy * state.mask_height / height >= state.mask_height) by (nonlinear_arith)
            requires
                cy >= height,
                height > 0,
                state.mask_height >= 0,
        ;
    }
}

/// While the hook is on and has a mask, it looks at presses and releases of the three buttons and
/// at the wheel, and at nothing else.
pub proof fn buttons_and_wheel_are_watched(state: HookModel, code: i32, msg: u32)
    requires
        state.enabled,
        state.mask_width > 0,
        state.mask_height > 0,
        state.mask.len() > 0,
        code >= 0,
    ensures
        state.watches(code, msg) <==> (0x0201 <= msg <= 0x0202 || 0x0204 <= msg <= 0x0205 || 0x0207
            <= msg <= 0x0208 || msg == 0x020A),
{
}

/// A press carries the bit of its own button, and a release carries none.
pub proof fn presses_carry_their_button(mouse_data: u32)
    ensures
        key_state(0x0201, mouse_data) == 1,
        key_state(0x0204, mouse_data) == 2,
        key_state(0x0207, mouse_data) == 16,
        key_state(0x0202, mouse_data) == 0,
        key_state(0x0205, mouse_data) == 0,
        key_state(0x0208, mouse_data) == 0,
{
}

/// An event is handed to the window below exactly when it is looked at, happened over the window
/// and falls on a transparent pixel, and what is handed on is the event itself.
pub proof fn events_fall_through_as_they_are(
    state: HookModel,
    code: i32,
    msg: u32,
    mouse_data: u32,
    point: Point,
    over_window: bool,
    rect: Rect,
)
    ensures
        state.passes(code, msg, mouse_data, point, over_window, rect) matches Some(event) ==> {
            &&& event.msg == msg
            &&& event.mouse_data == mouse_data
            &&& event.screen_pt == point
            &&& over_window && state.enabled && code >= 0 && state.mask.len() > 0
        },
        over_window && state.watches(code, msg) && state.transparent_at(point, rect)
            ==> state.passes(code, msg, mouse_data, point, over_window, rect) is Some,
        !over_window || !state.transparent_at(point, rect) || !state.watches(code, msg)
            ==> state.passes(code, msg, mouse_data, point, over_window, rect) is None,
{
}

/// A new mask replaces the old one and leaves the switch alone, the switch leaves the mask alone,
/// and the last command counts.
pub proof fn last_command_counts(
    state: HookModel,
    alpha: Vec<u8>,
    width: u32,
    height: u32,
    enabled: bool,
    code: i32,
    msg: u32,
)
    ensures
        ({
            let masked = state.told(HookCommand::UpdateMask(alpha, width, height));
            let switched = state.told(HookCommand::SetEnabled(enabled));
            &&& masked.mask == alpha@ && masked.mask_width == width && masked.mask_height == height
            &&& masked.enabled == state.enabled
            &&& switched.enabled == enabled
            &&& switched.mask == state.mask && switched.mask_width == state.mask_width
                && switched.mask_height == state.mask_height
            &&& masked.told(HookCommand::SetEnabled(enabled)) == switched.told(
                HookCommand::UpdateMask(alpha, width, height),
            )
            &&& !state.told(HookCommand::SetEnabled(false)).watches(code, msg)
        }),
        state.told(HookCommand::Shutdown) == state,
{
}

/// The wheel reports where it turned on the screen, a button where it was pressed in the window
/// below.
pub proof fn messages_carry_their_place(event: PassthroughEvent, client: Point)
    ensures
        event.msg == 0x020A ==> message_place(event, client) == event.screen_pt,
        event.msg != 0x020A ==> message_place(event, client) == client,
{
}

/// The extent of a window is the distance of its edges; edges in the wrong order wrap around in 32
/// bits.
pub proof fn extents_wrap_around(low: i32, high: i32)
    ensures
        low <= high ==> extent(low, high) == high - low,
        0 <= extent(low, high) < 0x1_0000_0000,
        (extent(low, high) - (high - low)) % 0x1_0000_0000 == 0,
{
}

/// The words of a packed point are the low halves of its coordinates, however large those are.
pub proof fn packed_point_holds_the_low_halves(point: Point)
    ensures
        (packed_point(point) % 65_536 - point.x) % 65_536 == 0,
        (packed_point(point) / 65_536 - point.y) % 65_536 == 0,
{
    let packed = packed_point(point) as int;
    assert(packed == low_word(point.y) * 65_536 + low_word(point.x));
    assert(packed % 65_536 == low_word(point.x) && packed / 65_536 == low_word(point.y));
}

/// An event is never handed to the window itself or to none, and to any other window it is.
pub proof fn events_go_to_another_window(below: isize, own: isize)
    ensures
        !another_window(own, own),
        !another_window(0, own),
        below != 0 && below != own ==> another_window(below, own),
{
}

} // verus!
