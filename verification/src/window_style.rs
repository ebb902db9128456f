//! Extended window styles, as bits.
use vstd::prelude::*;

use crate::dx::constants::{EXSTYLE_LAYERED, EXSTYLE_NOREDIRECTIONBITMAP, EXSTYLE_TRANSPARENT};

verus! {

pub const EXSTYLE_TOOLWINDOW: i32 = 0x00000080;

pub const EXSTYLE_APPWINDOW: i32 = 0x00040000;

/// A window with this style and the mouse passing through it.
pub open spec fn passed_through(style: i32) -> i32 {
    style | EXSTYLE_LAYERED | EXSTYLE_TRANSPARENT
}

/// A window with this style that takes the mouse when interaction is on.
pub open spec fn interactive(style: i32, enabled: bool) -> i32 {
    if enabled {
        (style | EXSTYLE_LAYERED) & !EXSTYLE_TRANSPARENT
    } else {
        passed_through(style)
    }
}

/// A window with this style that is looked through.
pub open spec fn looked_through(style: i32) -> i32 {
    style | EXSTYLE_TRANSPARENT
}

/// A window with this style and without a surface of its own.
pub open spec fn composed(style: i32) -> i32 {
    style | EXSTYLE_NOREDIRECTIONBITMAP
}

/// A window with this style that the taskbar does not list.
pub open spec fn taskbar_hidden(style: i32) -> i32 {
    (style | EXSTYLE_TOOLWINDOW) & !EXSTYLE_APPWINDOW
}

/// The style of a window that the mouse passes through.
pub fn passthrough_style(style: i32) -> (styled: i32)
    ensures
        styled == passed_through(style),
{
    style | EXSTYLE_LAYERED | EXSTYLE_TRANSPARENT
}

/// The style of a window that takes the mouse when interaction is on, and lets it pass when it
/// is off.
pub fn transparency_style(style: i32, enabled: bool) -> (styled: i32)
    ensures
        styled == interactive(style, enabled),
{
    if enabled {
        (style | EXSTYLE_LAYERED) & !EXSTYLE_TRANSPARENT
    } else {
        passthrough_style(style)
    }
}

/// The style under which the window itself is looked through, to find the one below it.
pub fn look_through_style(style: i32) -> (styled: i32)
    ensures
        styled == looked_through(style),
{
    style | EXSTYLE_TRANSPARENT
}

/// The style of a window without a surface of its own.
pub fn composed_style(style: i32) -> (styled: i32)
    ensures
        styled == composed(style),
{
    style | EXSTYLE_NOREDIRECTIONBITMAP
}

/// The style of a window that the taskbar does not list.
pub fn taskbar_hidden_style(style: i32) -> (styled: i32)
    ensures
        styled == taskbar_hidden(style),
{
    (style | EXSTYLE_TOOLWINDOW) & !EXSTYLE_APPWINDOW
}

/// Switching interaction sets the layered bit, sets the transparent bit exactly when
/// interaction is off, and leaves every other bit alone.
pub proof fn only_the_mouse_bits_change(style: i32)
    ensures
        ({
            let on = interactive(style, true);
            let off = interactive(style, false);
            &&& on & EXSTYLE_LAYERED == EXSTYLE_LAYERED
            &&& on & EXSTYLE_TRANSPARENT == 0
            &&& off & EXSTYLE_LAYERED == EXSTYLE_LAYERED
            &&& off & EXSTYLE_TRANSPARENT == EXSTYLE_TRANSPARENT
            &&& on & !(EXSTYLE_LAYERED | EXSTYLE_TRANSPARENT) == style & !(EXSTYLE_LAYERED
                | EXSTYLE_TRANSPARENT)
            &&& off & !(EXSTYLE_LAYERED | EXSTYLE_TRANSPARENT) == style & !(EXSTYLE_LAYERED
                | EXSTYLE_TRANSPARENT)
            &&& off == passed_through(style)
        }),
{
    let on = (style | 0x00080000) & !0x00000020;
    let off = style | 0x00080000 | 0x00000020;
    assert(on & 0x00080000 == 0x00080000 && on & 0x00000020 == 0 && off & 0x00080000 == 0x00080000
        && off & 0x00000020 == 0x00000020 && on & !(0x00080000i32 | 0x00000020i32) == style & !(
    0x00080000i32 | 0x00000020i32) && off & !(0x00080000i32 | 0x00000020i32) == style & !(
    0x00080000i32 | 0x00000020i32)) by (bit_vector)
        requires
            on == (style | 0x00080000) & !0x00000020,
            off == style | 0x00080000 | 0x00000020,
    ;
}

/// Switching interaction on and off again gives a window that lets the mouse pass its style
/// back.
pub proof fn switching_twice_restores(style: i32)
    requires
        style == passed_through(style),
    ensures
        interactive(interactive(style, true), false) == style,
{
    assert((((style | 0x00080000) & !0x00000020) | 0x00080000 | 0x00000020) == style)
        by (bit_vector)
        requires
            style == style | 0x00080000 | 0x00000020,
    ;
}

/// Every other style changes its own bits alone: a window that is looked through is transparent, a
/// composed one has no surface, and the taskbar does not list a tool window that is no longer an
/// application's.
pub proof fn styles_set_their_own_bits(style: i32)
    ensures
        looked_through(style) & 0x00000020 == 0x00000020,
        looked_through(style) & !0x00000020 == style & !0x00000020,
        composed(style) & 0x00200000 == 0x00200000,
        composed(style) & !0x00200000 == style & !0x00200000,
        taskbar_hidden(style) & 0x00000080 == 0x00000080,
        taskbar_hidden(style) & 0x00040000 == 0,
        taskbar_hidden(style) & !0x00040080 == style & !0x00040080,
{
    assert((style | 0x00000020) & 0x00000020 == 0x00000020 && (style | 0x00000020) & !0x00000020
        == style & !0x00000020 && (style | 0x00200000) & 0x00200000 == 0x00200000 && (style
        | 0x00200000) & !0x00200000 == style & !0x00200000) by (bit_vector);
    let hidden = (style | 0x00000080) & !0x00040000;
    assert(hidden & 0x00000080 == 0x00000080 && hidden & 0x00040000 == 0 && hidden & !0x00040080
        == style & !0x00040080) by (bit_vector)
        requires
            hidden == (style | 0x00000080) & !0x00040000,
    ;
}

} // verus!
