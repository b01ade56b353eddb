//! Layout, timing and identity constants shared by every surface.
//!
//! Lengths are in logical units: one unit is one device pixel at 96 DPI.

use crate::text::encode_utf16;
use crate::text::utf16_units;
use vstd::prelude::*;

verus! {

/// The element of the main panel that the pointer is over.
#[derive(Debug, Clone, Copy, PartialEq, Eq, Structural)]
pub enum HoverId {
    Nothing,
    Close,
    Min,
    Input,
    Confirm,
    Cancel,
    Dropdown,
}

/// The DPI at which one logical unit is one device pixel.
pub const REFERENCE_DPI: u32 = 96;

// The main panel.
pub const WIN_W: i32 = 450;
pub const WIN_H: i32 = 150;
pub const MARGIN: i32 = 16;
pub const TITLE_BAR_H: i32 = 32;
/// The width of each of the two window buttons, minimise and close.
pub const WIN_BTN_W: i32 = 46;
pub const INPUT_Y: i32 = 47;
pub const INPUT_H: i32 = 32;
pub const BTN_Y: i32 = 96;
pub const BTN_H: i32 = 30;
pub const BTN_W: i32 = 80;
/// The gap between the confirm and the cancel button.
pub const BTN_GAP: i32 = 8;
/// How far the chevron's centre lies inside the input field's right edge.
pub const CHEVRON_INSET: i32 = 20;
/// Half the side of the square that answers for the chevron; the glyph
/// itself is smaller.
pub const CHEVRON_REACH: i32 = 10;
/// Where the text of the input field begins, left of which pointer positions
/// are measured when they are handed to the field.
pub const EDIT_INSET: i32 = 10;
/// The height inside the field at which forwarded pointer events land.
pub const EDIT_POINTER_Y: i32 = 20;
/// How far the panel rests from the left and bottom edges of the work area.
pub const SCREEN_INSET: i32 = 18;

// The history dropdown.
pub const ITEM_H: i32 = 26;
pub const DROPDOWN_MAX_ITEMS: usize = 5;
pub const DROPDOWN_GAP: i32 = 5;
pub const SCROLLBAR_W: i32 = 8;

// The tooltip.
pub const TOOLTIP_W: i32 = 400;
pub const TOOLTIP_H: i32 = 100;
pub const TOOLTIP_GAP: i32 = 4;
/// After how long a tooltip leaves by itself.
pub const TOOLTIP_DISMISS_MS: u32 = 8000;

// The confirmation dialog.
pub const DIALOG_W: i32 = 620;
pub const DIALOG_H: i32 = 190;
pub const DIALOG_PADDING: i32 = 22;
pub const DIALOG_BTN_W: i32 = 160;
pub const DIALOG_BTN_H: i32 = 36;

// Animations.
pub const ANIM_ENTER_DURATION_MS: u16 = 250;
pub const ANIM_EXIT_DURATION_MS: u16 = 150;
pub const ANIM_DROPDOWN_DURATION_MS: u16 = 200;
pub const ANIM_TOOLTIP_DURATION_MS: u16 = 300;
/// The interval of the one timer that drives every animation.
pub const ANIM_TIMER_MS: u32 = 1;
/// The caret's blink interval where the system names none.
pub const DEFAULT_BLINK_MS: u32 = 500;

pub const ACRYLIC_TINT_DARK: u32 = 0x00202020;
pub const ACRYLIC_TINT_LIGHT: u32 = 0x00F3F3F3;

/// The identifier of the native input field among the panel's children.
pub const EDIT_ID: u32 = 101;

/// The window title, as UTF-16.
pub fn get_str_title() -> (units: Vec<u16>)
    ensures
        units@ == utf16_units("Swift Run"@),
{
    encode_utf16("Swift Run")
}

/// The label of the confirm button, as UTF-16.
pub fn get_str_run() -> (units: Vec<u16>)
    ensures
        units@ == utf16_units("Run \u{21B5}"@),
{
    encode_utf16("Run \u{21B5}")
}

/// The label of the cancel button, as UTF-16.
pub fn get_str_cancel() -> (units: Vec<u16>)
    ensures
        units@ == utf16_units("Cancel"@),
{
    encode_utf16("Cancel")
}

} // verus!
