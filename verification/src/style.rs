//! Extended window style bits and the operations this library performs on
//! them: choosing the styles a window is created with, and toggling the
//! click-through (input transparency) bit while leaving every other bit
//! untouched.

use vstd::prelude::*;

verus! {

/// Extended style bit: the window is shown as an application window.
pub const WS_EX_APPWINDOW: u32 = 0x0004_0000;

/// Extended style bit: the window is a layered window (supports per-window
/// alpha blending).
pub const WS_EX_LAYERED: u32 = 0x0008_0000;

/// Extended style bit: the window is transparent to mouse input
/// (click-through).
pub const WS_EX_TRANSPARENT: u32 = 0x0000_0020;

/// Whether an extended style carries the layered bit.
pub open spec fn is_layered(style: u32) -> bool {
    style & WS_EX_LAYERED != 0
}

/// Whether an extended style carries the click-through bit.
pub open spec fn is_click_through(style: u32) -> bool {
    style & WS_EX_TRANSPARENT != 0
}

/// Whether an extended style carries the application-window bit.
pub open spec fn is_app_window(style: u32) -> bool {
    style & WS_EX_APPWINDOW != 0
}

/// The extended style a window created with the given transparency flag
/// carries: always an application window, with the layered and click-through
/// bits added exactly when the flag is set.
pub open spec fn spec_extended_style(transparent: bool) -> u32 {
    if transparent {
        WS_EX_APPWINDOW | WS_EX_LAYERED | WS_EX_TRANSPARENT
    } else {
        WS_EX_APPWINDOW
    }
}

/// The extended style after the click-through bit is set or cleared: only
/// that bit changes.
pub open spec fn apply_click_through(style: u32, enabled: bool) -> u32 {
    if enabled {
        style | WS_EX_TRANSPARENT
    } else {
        style & !WS_EX_TRANSPARENT
    }
}

/// Law: the extended style a window is created with carries the layered bit
/// if and only if the transparent flag is set, likewise the click-through
/// bit, and always the application-window bit.
pub proof fn lemma_extended_style_bits(transparent: bool)
    ensures
        is_layered(spec_extended_style(transparent)) <==> transparent,
        is_click_through(spec_extended_style(transparent)) <==> transparent,
        is_app_window(spec_extended_style(transparent)),
{
    if transparent {
        let style = WS_EX_APPWINDOW | WS_EX_LAYERED | WS_EX_TRANSPARENT;
        assert(is_layered(style) && is_click_through(style) && is_app_window(style))
            by (bit_vector)
            requires
                style == WS_EX_APPWINDOW | WS_EX_LAYERED | WS_EX_TRANSPARENT,
        ;
    } else {
        let style = WS_EX_APPWINDOW;
        assert(!is_layered(style) && !is_click_through(style) && is_app_window(style))
            by (bit_vector)
            requires
                style == WS_EX_APPWINDOW,
        ;
    }
}

/// Computes the extended style for window creation. The layered bit is
/// requested if and only if the transparency flag is set, and likewise the
/// click-through bit; the application-window bit is always requested.
pub fn extended_style_for(transparent: bool) -> (style: u32)
    ensures
        style == spec_extended_style(transparent),
        is_layered(style) <==> transparent,
        is_click_through(style) <==> transparent,
        is_app_window(style),
{
    proof {
        lemma_extended_style_bits(transparent);
    }
    if transparent {
        WS_EX_APPWINDOW | WS_EX_LAYERED | WS_EX_TRANSPARENT
    } else {
        WS_EX_APPWINDOW
    }
}

/// Sets or clears the click-through bit of an extended style. Afterwards the
/// bit is present exactly when `enabled` is true, and every other bit is kept
/// unchanged; in particular the layered bit is preserved.
pub fn with_click_through(style: u32, enabled: bool) -> (updated: u32)
    ensures
        updated == apply_click_through(style, enabled),
        is_click_through(updated) <==> enabled,
        updated & !WS_EX_TRANSPARENT == style & !WS_EX_TRANSPARENT,
        is_layered(updated) == is_layered(style),
        is_app_window(updated) == is_app_window(style),
{
    if enabled {
        let updated: u32 = style | WS_EX_TRANSPARENT;
        proof {
            assert(is_click_through(updated)
                && updated & !WS_EX_TRANSPARENT == style & !WS_EX_TRANSPARENT
                && is_layered(updated) == is_layered(style)
                && is_app_window(updated) == is_app_window(style))
                by (bit_vector)
                requires
                    updated == style | WS_EX_TRANSPARENT,
            ;
        }
        updated
    } else {
        let updated: u32 = style & !WS_EX_TRANSPARENT;
        proof {
            assert(!is_click_through(updated)
                && updated & !WS_EX_TRANSPARENT == style & !WS_EX_TRANSPARENT
                && is_layered(updated) == is_layered(style)
                && is_app_window(updated) == is_app_window(style))
                by (bit_vector)
                requires
                    updated == style & !WS_EX_TRANSPARENT,
            ;
        }
        updated
    }
}

/// Law: enabling click-through and then disabling it restores the extended
/// style exactly, whenever the click-through bit was not already set. (On a
/// style that already carries the bit — a window created with the transparent
/// flag — the toggle ends with the bit cleared instead.)
pub proof fn lemma_click_through_round_trip(style: u32)
    requires
        !is_click_through(style),
    ensures
        apply_click_through(apply_click_through(style, true), false) == style,
{
    assert(((style | WS_EX_TRANSPARENT) & !WS_EX_TRANSPARENT) == style) by (bit_vector)
        requires
            style & WS_EX_TRANSPARENT == 0u32,
    ;
}

} // verus!
