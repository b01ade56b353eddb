//! The main panel: hit-testing, pointer and key routing, and the session
//! that ties the three surfaces to one animation timer.

use crate::animations::AnimType;
use crate::animations::AnimationState;
use crate::animations::ClockStep;
use crate::animations::Progress;
use crate::animations::cubic_ratio;
use crate::animations::ease_out_cubic;
use crate::animations::ease_out_quad;
use crate::animations::quad_ratio;
use crate::config::ANIM_ENTER_DURATION_MS;
use crate::config::ANIM_EXIT_DURATION_MS;
use crate::config::ANIM_TIMER_MS;
use crate::config::BTN_GAP;
use crate::config::BTN_H;
use crate::config::BTN_W;
use crate::config::BTN_Y;
use crate::config::CHEVRON_INSET;
use crate::config::CHEVRON_REACH;
use crate::config::DEFAULT_BLINK_MS;
use crate::config::EDIT_INSET;
use crate::config::EDIT_POINTER_Y;
use crate::config::HoverId;
use crate::config::INPUT_H;
use crate::config::INPUT_Y;
use crate::config::MARGIN;
use crate::config::REFERENCE_DPI;
use crate::config::SCREEN_INSET;
use crate::config::TITLE_BAR_H;
use crate::config::WIN_BTN_W;
use crate::config::WIN_H;
use crate::config::WIN_W;
use crate::data::history::completed;
use crate::data::history::cycle_history;
use crate::data::history::saved;
use crate::data::history::stepped;
use crate::ratio::clamp_i32;
use crate::ratio::slide;
use crate::ratio::trunc_div;
use crate::ui::Placement;
use crate::ui::Rect;
use crate::ui::device_of;
use crate::ui::dropdown::DropdownState;
use crate::ui::dropdown::dropdown_placement;
use crate::ui::effective_dpi;
use crate::ui::logical_extent;
use crate::ui::logical_extent_of;
use crate::ui::logical_of;
use crate::ui::resources::Action;
use crate::ui::resources::MainPanel;
use crate::ui::resources::PointerKind;
use crate::ui::resources::Session;
use crate::ui::resources::Surface;
use crate::ui::saturate;
use crate::ui::to_device;
use crate::ui::to_logical;
use crate::ui::tooltip::TooltipState;
use crate::ui::tooltip::not_found_message;
use crate::ui::tooltip::not_found_text;
use crate::ui::tooltip::show_tooltip;
use crate::ui::tooltip::tooltip_actions;
use crate::ui::tooltip::tooltip_shown;
use vstd::prelude::*;

verus! {

/// Whether the point is on the close button, the last stretch of the title
/// bar of a panel `w` wide.
pub open spec fn in_close(x: int, y: int, w: int) -> bool {
    x >= w - WIN_BTN_W && y < TITLE_BAR_H
}

/// Whether the point is on the minimise button, left of the close button.
pub open spec fn in_min(x: int, y: int, w: int) -> bool {
    w - 2 * WIN_BTN_W <= x < w - WIN_BTN_W && y < TITLE_BAR_H
}

/// Whether the point is on the confirm button.
pub open spec fn in_confirm(x: int, y: int, w: int) -> bool {
    let left = w - MARGIN - 2 * BTN_W - BTN_GAP;
    left <= x < left + BTN_W && BTN_Y <= y < BTN_Y + BTN_H
}

/// Whether the point is on the cancel button.
pub open spec fn in_cancel(x: int, y: int, w: int) -> bool {
    let left = w - MARGIN - BTN_W;
    left <= x < left + BTN_W && BTN_Y <= y < BTN_Y + BTN_H
}

/// Whether the point is within reach of the dropdown chevron: a square
/// about its centre, larger than the glyph.
pub open spec fn in_chevron(x: int, y: int, w: int) -> bool {
    let cx = w - MARGIN - CHEVRON_INSET;
    let cy = INPUT_Y + INPUT_H / 2;
    cx - CHEVRON_REACH <= x < cx + CHEVRON_REACH && cy - CHEVRON_REACH <= y < cy + CHEVRON_REACH
}

/// Whether the point is on the input field.
pub open spec fn in_input(x: int, y: int, w: int) -> bool {
    MARGIN <= x < w - MARGIN && INPUT_Y <= y < INPUT_Y + INPUT_H
}

/// The element at a point of a panel `w` wide: the first of close, minimise,
/// confirm, cancel, chevron and input field that holds the point. While the
/// input is empty the confirm button is disabled, and its place answers
/// for nothing.
pub open spec fn hit(x: int, y: int, w: int, input_empty: bool) -> HoverId {
    if in_close(x, y, w) {
        HoverId::Close
    } else if in_min(x, y, w) {
        HoverId::Min
    } else if in_confirm(x, y, w) {
        if input_empty {
            HoverId::Nothing
        } else {
            HoverId::Confirm
        }
    } else if in_cancel(x, y, w) {
        HoverId::Cancel
    } else if in_chevron(x, y, w) {
        HoverId::Dropdown
    } else if in_input(x, y, w) {
        HoverId::Input
    } else {
        HoverId::Nothing
    }
}

/// The element at the logical point (`x`, `y`) of a panel of logical width
/// `w`. The height plays no part: every region is placed from the top.
pub fn hit_test(x: i32, y: i32, w: i32, _h: i32, input_empty: bool) -> (id: HoverId)
    ensures
        id == hit(x as int, y as int, w as int, input_empty),
        input_empty ==> id != HoverId::Confirm,
        input_empty && in_confirm(x as int, y as int, w as int) ==> id == HoverId::Nothing,
{
    let x = x as i64;
    let y = y as i64;
    let w = w as i64;
    let btn_w = WIN_BTN_W as i64;
    if x >= w - btn_w && y < TITLE_BAR_H as i64 {
        return HoverId::Close;
    }
    if x >= w - 2 * btn_w && x < w - btn_w && y < TITLE_BAR_H as i64 {
        return HoverId::Min;
    }
    let in_button_row = y >= BTN_Y as i64 && y < (BTN_Y + BTN_H) as i64;
    let ok_x = w - MARGIN as i64 - 2 * BTN_W as i64 - BTN_GAP as i64;
    if x >= ok_x && x < ok_x + BTN_W as i64 && in_button_row {
        return if input_empty {
            HoverId::Nothing
        } else {
            HoverId::Confirm
        };
    }
    let cancel_x = w - MARGIN as i64 - BTN_W as i64;
    if x >= cancel_x && x < cancel_x + BTN_W as i64 && in_button_row {
        return HoverId::Cancel;
    }
    let cx = w - MARGIN as i64 - CHEVRON_INSET as i64;
    let cy = (INPUT_Y + INPUT_H / 2) as i64;
    let reach = CHEVRON_REACH as i64;
    if x >= cx - reach && x < cx + reach && y >= cy - reach && y < cy + reach {
        return HoverId::Dropdown;
    }
    if x >= MARGIN as i64 && x < w - MARGIN as i64 && y >= INPUT_Y as i64 && y < (INPUT_Y
        + INPUT_H) as i64 {
        return HoverId::Input;
    }
    HoverId::Nothing
}

/// Whether nothing has been typed.
pub fn is_input_empty(session: &Session) -> (empty: bool)
    ensures
        empty == (session.bridge.input@.len() == 0),
{
    session.bridge.is_input_empty()
}

/// The element under a pointer at device position (`x_px`, `y_px`) in a
/// client area `w_px` wide, on a display of `dpi`.
pub open spec fn hover_of(x_px: int, y_px: int, w_px: int, dpi: u32, input_empty: bool) -> HoverId {
    hit(logical_of(x_px, dpi), logical_of(y_px, dpi), logical_extent_of(w_px, dpi), input_empty)
}

/// The element under the pointer: the device position is brought to logical
/// units by the display scale, and only then tested.
pub fn pointer_hover(x_px: i32, y_px: i32, w_px: i32, h_px: i32, dpi: u32, input_empty: bool) -> (id:
    HoverId)
    ensures
        id == hover_of(x_px as int, y_px as int, w_px as int, dpi, input_empty),
        input_empty ==> id != HoverId::Confirm,
{
    hit_test(
        to_logical(x_px, dpi),
        to_logical(y_px, dpi),
        logical_extent(w_px, dpi),
        logical_extent(h_px, dpi),
        input_empty,
    )
}

/// With an empty input no point of the panel answers for the confirm
/// button, and every point of the button's rectangle answers for nothing.
pub proof fn lemma_confirm_is_dead_while_empty(x: int, y: int, w: int)
    ensures
        hit(x, y, w, true) != HoverId::Confirm,
        in_confirm(x, y, w) ==> hit(x, y, w, true) == HoverId::Nothing,
{
}

/// Filling the input changes the answer of the confirm button's place and
/// of no other.
pub proof fn lemma_input_only_matters_on_confirm(x: int, y: int, w: int)
    ensures
        hit(x, y, w, false) != hit(x, y, w, true) ==> hit(x, y, w, false) == HoverId::Confirm,
        hit(x, y, w, false) == HoverId::Confirm <==> in_confirm(x, y, w) && !in_close(x, y, w)
            && !in_min(x, y, w),
{
}

/// Two pointer positions, on displays of whatever scale, that come to the
/// same logical point of panels of the same logical width are on the same
/// element.
pub proof fn lemma_hover_depends_on_logical_position(
    x1: int,
    y1: int,
    w1: int,
    dpi1: u32,
    x2: int,
    y2: int,
    w2: int,
    dpi2: u32,
    input_empty: bool,
)
    requires
        logical_of(x1, dpi1) == logical_of(x2, dpi2),
        logical_of(y1, dpi1) == logical_of(y2, dpi2),
        logical_extent_of(w1, dpi1) == logical_extent_of(w2, dpi2),
    ensures
        hover_of(x1, y1, w1, dpi1, input_empty) == hover_of(x2, y2, w2, dpi2, input_empty),
{
}

/// A point at scale 1 and the same point magnified by one and a half, device
/// pixel for device pixel, are on the same element.
pub proof fn lemma_same_hover_at_scale_one_and_a_half(lx: int, ly: int, lw: int, input_empty: bool)
    requires
        i32::MIN <= 3 * lx <= i32::MAX,
        i32::MIN <= 3 * ly <= i32::MAX,
        i32::MIN <= 3 * lw <= i32::MAX,
    ensures
        hover_of(2 * lx, 2 * ly, 2 * lw, 96, input_empty) == hover_of(
            3 * lx,
            3 * ly,
            3 * lw,
            144,
            input_empty,
        ),
        hover_of(2 * lx, 2 * ly, 2 * lw, 96, input_empty) == hit(2 * lx, 2 * ly, 2 * lw, input_empty),
{
    lemma_scale_round_trip(2 * lx, 3 * lx);
    lemma_scale_round_trip(2 * ly, 3 * ly);
    lemma_scale_round_trip(2 * lw, 3 * lw);
}

/// A device length that is exactly one and a half times a logical length
/// comes back to it, whichever way the division rounds; and at scale 1 a
/// device length is its own logical length.
pub proof fn lemma_scale_round_trip(logical: int, device: int)
    requires
        2 * device == 3 * logical,
    ensures
        trunc_div(device * 96, 144) == logical,
        crate::ratio::ceil_div(device * 96, 144) == logical,
        trunc_div(logical * 96, 96) == logical,
        crate::ratio::ceil_div(logical * 96, 96) == logical,
{
    assert(device * 96 == 144 * logical);
    vstd::arithmetic::div_mod::lemma_div_multiples_vanish(logical, 144);
    vstd::arithmetic::div_mod::lemma_div_multiples_vanish(-logical, 144);
    assert(-(device * 96) == 144 * (-logical));
    vstd::arithmetic::div_mod::lemma_div_multiples_vanish(logical, 96);
    vstd::arithmetic::div_mod::lemma_div_multiples_vanish(-logical, 96);
    assert(logical * 96 == 96 * logical);
    assert(-(logical * 96) == 96 * (-logical));
}

/// Whether a point of the panel's window drags the panel: the title bar, left
/// of the window buttons. `lx`, `ly` and `width_px` are device pixels from
/// the window's corner.
pub open spec fn is_caption(lx: int, ly: int, width_px: int, dpi: u32) -> bool {
    let d = effective_dpi(dpi);
    ly * REFERENCE_DPI < TITLE_BAR_H * d && lx * REFERENCE_DPI < width_px * REFERENCE_DPI - 2
        * WIN_BTN_W * d
}

/// Whether a point of the panel's window drags the panel.
pub fn nc_hit_test(lx: i32, ly: i32, width_px: i32, dpi: u32) -> (caption: bool)
    ensures
        caption == is_caption(lx as int, ly as int, width_px as int, dpi),
{
    let d: i64 = if dpi == 0 {
        REFERENCE_DPI as i64
    } else {
        dpi as i64
    };
    let r = REFERENCE_DPI as i64;
    assert(-0x8000_0000 * 96 <= lx * 96 <= 0x8000_0000 * 96);
    assert(-0x8000_0000 * 96 <= ly * 96 <= 0x8000_0000 * 96);
    assert(-0x8000_0000 * 96 <= width_px * 96 <= 0x8000_0000 * 96);
    let bar: i64 = 32 * d;
    let buttons: i64 = 92 * d;
    assert(bar == TITLE_BAR_H * d && buttons == 2 * WIN_BTN_W * d) by (nonlinear_arith)
        requires
            bar == 32 * d,
            buttons == 92 * d,
            TITLE_BAR_H == 32,
            WIN_BTN_W == 46,
    ;
    ly as i64 * r < bar && lx as i64 * r < width_px as i64 * r - buttons
}

/// Where a pointer at device column `x_px` of the panel lands in the native
/// input field: the field's text begins `MARGIN + EDIT_INSET` logical units
/// into the panel, so that much, scaled once, is taken off.
pub open spec fn edit_x_of(x_px: int, dpi: u32) -> int {
    clamp_i32(
        trunc_div(
            x_px * REFERENCE_DPI - (MARGIN + EDIT_INSET) * effective_dpi(dpi),
            REFERENCE_DPI as int,
        ),
    )
}

/// The point of the native input field to which a pointer event at device
/// column `x_px` of the panel is handed on.
pub fn edit_point(x_px: i32, dpi: u32) -> (at: (i32, i32))
    ensures
        at.0 == edit_x_of(x_px as int, dpi),
        at.1 == device_of(EDIT_POINTER_Y as int, dpi),
{
    let d: i64 = if dpi == 0 {
        REFERENCE_DPI as i64
    } else {
        dpi as i64
    };
    assert(-0x8000_0000 * 96 <= x_px * 96 <= 0x8000_0000 * 96);
    let inset: i64 = 26 * d;
    assert(inset == (MARGIN + EDIT_INSET) * d) by (nonlinear_arith)
        requires
            inset == 26 * d,
            MARGIN + EDIT_INSET == 26,
    ;
    let n: i64 = x_px as i64 * REFERENCE_DPI as i64 - inset;
    (saturate(n / REFERENCE_DPI as i64), to_device(EDIT_POINTER_Y, dpi))
}

/// The scale goes into a forwarded position exactly once: a pointer that
/// stands on the device image of logical column `column` is handed on at the
/// device image of `column - MARGIN - EDIT_INSET`, and at scale 1 that is a
/// plain subtraction.
pub proof fn lemma_forwarding_scales_once(column: int, x_px: int, dpi: u32)
    requires
        x_px * REFERENCE_DPI == column * effective_dpi(dpi),
    ensures
        edit_x_of(x_px, dpi) == device_of(column - MARGIN - EDIT_INSET, dpi),
        dpi == REFERENCE_DPI || dpi == 0 ==> edit_x_of(x_px, dpi) == clamp_i32(
            x_px - MARGIN - EDIT_INSET,
        ),
{
    let d = effective_dpi(dpi);
    assert((column - MARGIN - EDIT_INSET) * d == column * d - (MARGIN + EDIT_INSET) * d)
        by (nonlinear_arith);
    if dpi == REFERENCE_DPI || dpi == 0 {
        let v = x_px - MARGIN - EDIT_INSET;
        assert(x_px * 96 - (MARGIN + EDIT_INSET) * 96 == 96 * v);
        vstd::arithmetic::div_mod::lemma_div_multiples_vanish(v, 96);
        vstd::arithmetic::div_mod::lemma_div_multiples_vanish(-v, 96);
        assert(-(96 * v) == 96 * (-v));
    }
}

/// The signed 16-bit value in the low half of a 32-bit word.
pub open spec fn low_word(v: u32) -> int {
    let w = v as int % 0x10000;
    if w >= 0x8000 {
        w - 0x10000
    } else {
        w
    }
}

/// The signed 16-bit value in the high half of a 32-bit word.
pub open spec fn high_word(v: u32) -> int {
    let w = v as int / 0x10000;
    if w >= 0x8000 {
        w - 0x10000
    } else {
        w
    }
}

/// The word that carries `x` in its low half and `y` in its high half, each
/// as a signed 16-bit value.
pub open spec fn packed(x: int, y: int) -> int {
    (x % 0x10000) + 0x10000 * (y % 0x10000)
}

/// The pointer position that a message parameter carries.
pub fn unpack_point(lparam: u32) -> (at: (i32, i32))
    ensures
        at.0 == low_word(lparam),
        at.1 == high_word(lparam),
        -0x8000 <= at.0 < 0x8000,
        -0x8000 <= at.1 < 0x8000,
{
    let lo: u32 = lparam % 0x10000;
    let hi: u32 = lparam / 0x10000;
    let x: i32 = if lo >= 0x8000 {
        lo as i32 - 0x10000
    } else {
        lo as i32
    };
    let y: i32 = if hi >= 0x8000 {
        hi as i32 - 0x10000
    } else {
        hi as i32
    };
    (x, y)
}

/// The low 16 bits of `v`, read as an unsigned number.
pub fn wrap16(v: i32) -> (w: u32)
    ensures
        w == v as int % 0x10000,
        w < 0x10000,
{
    if v >= 0 {
        (v % 0x10000) as u32
    } else {
        let a: i64 = -(v as i64);
        let r: i64 = a % 0x10000;
        let q: i64 = a / 0x10000;
        proof {
            vstd::arithmetic::div_mod::lemma_fundamental_div_mod(a as int, 0x10000);
            if r == 0 {
                vstd::arithmetic::div_mod::lemma_fundamental_div_mod_converse(
                    v as int,
                    0x10000,
                    -(q as int),
                    0,
                );
            } else {
                vstd::arithmetic::div_mod::lemma_fundamental_div_mod_converse(
                    v as int,
                    0x10000,
                    -(q as int) - 1,
                    0x10000 - r,
                );
            }
        }
        if r == 0 {
            0
        } else {
            (0x10000 - r) as u32
        }
    }
}

/// The message parameter that carries a pointer position.
pub fn pack_point(x: i32, y: i32) -> (lparam: u32)
    ensures
        lparam == packed(x as int, y as int),
        -0x8000 <= x < 0x8000 && -0x8000 <= y < 0x8000 ==> low_word(lparam) == x && high_word(
            lparam,
        ) == y,
{
    let lo = wrap16(x);
    let hi = wrap16(y);
    proof {
        lemma_packed_halves(lo as int, hi as int);
        if -0x8000 <= x < 0x8000 {
            lemma_wrap16_of_small(x as int);
        }
        if -0x8000 <= y < 0x8000 {
            lemma_wrap16_of_small(y as int);
        }
    }
    lo + 0x10000 * hi
}

/// A word built from two halves gives them back.
pub proof fn lemma_packed_halves(lo: int, hi: int)
    requires
        0 <= lo < 0x10000,
        0 <= hi < 0x10000,
    ensures
        (lo + 0x10000 * hi) % 0x10000 == lo,
        (lo + 0x10000 * hi) / 0x10000 == hi,
{
    vstd::arithmetic::div_mod::lemma_fundamental_div_mod_converse(
        lo + 0x10000 * hi,
        0x10000,
        hi,
        lo,
    );
}

/// The low 16 bits of a value that fits in 16 signed bits: the value itself,
/// or the value raised by 65536 when it is negative.
pub proof fn lemma_wrap16_of_small(v: int)
    requires
        -0x8000 <= v < 0x8000,
    ensures
        v % 0x10000 == if v < 0 {
            v + 0x10000
        } else {
            v
        },
{
    if v < 0 {
        vstd::arithmetic::div_mod::lemma_fundamental_div_mod_converse(v, 0x10000, -1, v + 0x10000);
    } else {
        vstd::arithmetic::div_mod::lemma_fundamental_div_mod_converse(v, 0x10000, 0, v);
    }
}

/// The height of the panel's window while it slides in: from `start_y` to
/// `final_y` along the cubic curve.
pub open spec fn entering_y(main: MainPanel, p: Progress) -> int {
    let c = cubic_ratio(p.num(), p.den());
    main.start_y + trunc_div((main.final_y - main.start_y) * c.num, c.den as int)
}

/// The height of the panel's window while it slides out: from `final_y`
/// back to `start_y` along the quadratic curve.
pub open spec fn exiting_y(main: MainPanel, p: Progress) -> int {
    let q = quad_ratio(p.num(), p.den());
    main.final_y + trunc_div((main.start_y - main.final_y) * q.num, q.den as int)
}

/// On its way in and on its way out the panel's window stays between the
/// height it starts from and the height it rests at, and so on the screen.
pub proof fn lemma_slide_stays_on_its_path(main: MainPanel, p: Progress)
    ensures
        main.final_y <= main.start_y ==> main.final_y <= entering_y(main, p) <= main.start_y
            && main.final_y <= exiting_y(main, p) <= main.start_y,
        main.start_y <= main.final_y ==> main.start_y <= entering_y(main, p) <= main.final_y
            && main.start_y <= exiting_y(main, p) <= main.final_y,
        p.is_complete() ==> entering_y(main, p) == main.final_y && exiting_y(main, p)
            == main.start_y,
{
    let n = p.num();
    let d = p.den();
    let u = d - n;
    assert(0 < d * d <= 0xffff * 0xffff) by (nonlinear_arith)
        requires
            0 < d <= 0xffff,
    ;
    assert(0 < d * d * d <= 0xffff * 0xffff * 0xffff) by (nonlinear_arith)
        requires
            0 < d <= 0xffff,
            0 < d * d <= 0xffff * 0xffff,
    ;
    assert(0 <= u * u <= d * d) by (nonlinear_arith)
        requires
            0 <= u <= d,
    ;
    assert(0 <= u * u * u <= d * d * d) by (nonlinear_arith)
        requires
            0 <= u <= d,
            0 <= u * u <= d * d,
    ;
    assert(0 <= n * (2 * d - n) <= d * d) by (nonlinear_arith)
        requires
            0 <= n <= d,
    ;
    let c = cubic_ratio(n, d);
    let q = quad_ratio(n, d);
    crate::ratio::lemma_trunc_div_within(main.final_y - main.start_y, c.num as int, c.den as int);
    crate::ratio::lemma_trunc_div_within(main.start_y - main.final_y, q.num as int, q.den as int);
    if p.is_complete() {
        assert(c.num == 1 && c.den == 1 && q.num == 1 && q.den == 1);
    }
}

/// What a tick does to the main panel: while its animation runs the window
/// is moved along its path; at the end of an entrance it is set on its
/// resting place; at the end of an exit it is hidden, or the application
/// ends, as was asked when the exit began.
pub open spec fn main_tick(main: MainPanel, now_ms: u64) -> Seq<Action> {
    match main.clock.step_at(now_ms) {
        ClockStep::Asleep => Seq::empty(),
        ClockStep::Running { kind, progress } => seq![
            Action::MoveMain {
                x: main.final_x,
                y: (if kind == AnimType::Entering {
                    entering_y(main, progress)
                } else {
                    exiting_y(main, progress)
                }) as i32,
            },
        ],
        ClockStep::Finished { kind } => if kind == AnimType::Exiting {
            seq![
                Action::MoveMain { x: main.final_x, y: main.start_y },
                if main.kill_on_exit {
                    Action::Quit
                } else {
                    Action::HideMain
                },
            ]
        } else {
            seq![Action::MoveMain { x: main.final_x, y: main.final_y }]
        },
    }
}

/// What a tick does to the dropdown: it is painted again while it animates,
/// and hidden at the end of its exit.
pub open spec fn dropdown_tick(clock: AnimationState, now_ms: u64) -> Seq<Action> {
    match clock.step_at(now_ms) {
        ClockStep::Asleep => Seq::empty(),
        ClockStep::Finished { kind: AnimType::Exiting } => seq![Action::HideDropdown],
        _ => seq![Action::Repaint(Surface::Dropdown)],
    }
}

/// Whether the tooltip's exit reaches its end with a tick at `now_ms`.
pub open spec fn tooltip_leaves(tooltip: Option<TooltipState>, now_ms: u64) -> bool {
    tooltip is Some && tooltip->0.clock.step_at(now_ms) == (ClockStep::Finished {
        kind: AnimType::Exiting,
    })
}

/// What a tick does to the tooltip: it is painted again while it animates,
/// and removed at the end of its exit.
pub open spec fn tooltip_tick(tooltip: Option<TooltipState>, now_ms: u64) -> Seq<Action> {
    match tooltip {
        None => Seq::empty(),
        Some(t) => match t.clock.step_at(now_ms) {
            ClockStep::Asleep => Seq::empty(),
            ClockStep::Finished { kind: AnimType::Exiting } => seq![Action::CloseTooltip],
            _ => seq![Action::Repaint(Surface::Tooltip)],
        },
    }
}

/// The timer's own end: it is stopped as soon as nothing animates.
pub open spec fn timer_stop(any_active: bool) -> Seq<Action> {
    if any_active {
        Seq::empty()
    } else {
        seq![Action::StopAnimationTimer]
    }
}

fn tick_main(session: &mut Session, now_ms: u64, actions: &mut Vec<Action>)
    ensures
        final(actions)@ == old(actions)@ + main_tick(old(session).main, now_ms),
        final(session).main == (MainPanel {
            clock: old(session).main.clock.ticked(now_ms),
            ..old(session).main
        }),
        final(session).dropdown == old(session).dropdown,
        final(session).tooltip == old(session).tooltip,
        final(session).bridge == old(session).bridge,
        final(session).timer_armed == old(session).timer_armed,
{
    let ghost before = actions@;
    let main = session.main;
    match session.main.clock.tick(now_ms) {
        ClockStep::Asleep => {
            assert(before + Seq::<Action>::empty() =~= before);
        },
        ClockStep::Running { kind, progress } => {
            let y = if kind == AnimType::Entering {
                slide(main.start_y, main.final_y, ease_out_cubic(progress))
            } else {
                slide(main.final_y, main.start_y, ease_out_quad(progress))
            };
            actions.push(Action::MoveMain { x: main.final_x, y });
            assert(actions@ =~= before + main_tick(main, now_ms));
        },
        ClockStep::Finished { kind } => {
            if kind == AnimType::Exiting {
                actions.push(Action::MoveMain { x: main.final_x, y: main.start_y });
                actions.push(
                    if main.kill_on_exit {
                        Action::Quit
                    } else {
                        Action::HideMain
                    },
                );
            } else {
                actions.push(Action::MoveMain { x: main.final_x, y: main.final_y });
            }
            assert(actions@ =~= before + main_tick(main, now_ms));
        },
    }
}

fn tick_dropdown(session: &mut Session, now_ms: u64, actions: &mut Vec<Action>)
    ensures
        final(actions)@ == old(actions)@ + dropdown_tick(old(session).dropdown.clock, now_ms),
        final(session).dropdown == (DropdownState {
            clock: old(session).dropdown.clock.ticked(now_ms),
            ..old(session).dropdown
        }),
        final(session).main == old(session).main,
        final(session).tooltip == old(session).tooltip,
        final(session).bridge == old(session).bridge,
        final(session).timer_armed == old(session).timer_armed,
{
    let ghost before = actions@;
    let ghost clock = session.dropdown.clock;
    match session.dropdown.clock.tick(now_ms) {
        ClockStep::Asleep => {
            assert(before + Seq::<Action>::empty() =~= before);
        },
        ClockStep::Finished { kind: AnimType::Exiting } => {
            actions.push(Action::HideDropdown);
            assert(actions@ =~= before + dropdown_tick(clock, now_ms));
        },
        _ => {
            actions.push(Action::Repaint(Surface::Dropdown));
            assert(actions@ =~= before + dropdown_tick(clock, now_ms));
        },
    }
}

fn tick_tooltip(session: &mut Session, now_ms: u64, actions: &mut Vec<Action>)
    ensures
        final(actions)@ == old(actions)@ + tooltip_tick(old(session).tooltip, now_ms),
        tooltip_leaves(old(session).tooltip, now_ms) ==> final(session).tooltip is None,
        old(session).tooltip is None ==> final(session).tooltip is None,
        old(session).tooltip is Some && !tooltip_leaves(old(session).tooltip, now_ms) ==> {
            &&& final(session).tooltip is Some
            &&& final(session).tooltip->0.clock == old(session).tooltip->0.clock.ticked(now_ms)
            &&& final(session).tooltip->0.title == old(session).tooltip->0.title
            &&& final(session).tooltip->0.message == old(session).tooltip->0.message
        },
        final(session).main == old(session).main,
        final(session).dropdown == old(session).dropdown,
        final(session).bridge == old(session).bridge,
        final(session).timer_armed == old(session).timer_armed,
{
    let ghost before = actions@;
    let ghost tip = session.tooltip;
    let mut leaves = false;
    match &mut session.tooltip {
        None => {
            assert(before + Seq::<Action>::empty() =~= before);
        },
        Some(t) => {
            match t.clock.tick(now_ms) {
                ClockStep::Asleep => {
                    assert(before + Seq::<Action>::empty() =~= before);
                },
                ClockStep::Finished { kind: AnimType::Exiting } => {
                    leaves = true;
                    actions.push(Action::CloseTooltip);
                    assert(actions@ =~= before + tooltip_tick(tip, now_ms));
                },
                _ => {
                    actions.push(Action::Repaint(Surface::Tooltip));
                    assert(actions@ =~= before + tooltip_tick(tip, now_ms));
                },
            }
        },
    }
    if leaves {
        session.tooltip = None;
    }
}

/// One tick of the animation timer. Every clock that runs is advanced to
/// `now_ms` and its surface moved or painted again; a clock at rest costs
/// nothing; and once no clock runs, the timer is stopped.
pub fn update_animations(session: &mut Session, now_ms: u64) -> (actions: Vec<Action>)
    ensures
        actions@ == main_tick(old(session).main, now_ms) + dropdown_tick(
            old(session).dropdown.clock,
            now_ms,
        ) + tooltip_tick(old(session).tooltip, now_ms) + timer_stop(final(session).any_active()),
        final(session).main == (MainPanel {
            clock: old(session).main.clock.ticked(now_ms),
            ..old(session).main
        }),
        final(session).dropdown == (DropdownState {
            clock: old(session).dropdown.clock.ticked(now_ms),
            ..old(session).dropdown
        }),
        tooltip_leaves(old(session).tooltip, now_ms) ==> final(session).tooltip is None,
        old(session).tooltip is None ==> final(session).tooltip is None,
        old(session).tooltip is Some && !tooltip_leaves(old(session).tooltip, now_ms) ==> {
            &&& final(session).tooltip is Some
            &&& final(session).tooltip->0.clock == old(session).tooltip->0.clock.ticked(now_ms)
            &&& final(session).tooltip->0.title == old(session).tooltip->0.title
            &&& final(session).tooltip->0.message == old(session).tooltip->0.message
        },
        final(session).bridge == old(session).bridge,
        final(session).timer_armed == (old(session).timer_armed && final(session).any_active()),
        !final(session).any_active() ==> actions@.len() >= 1 && actions@.last()
            == Action::StopAnimationTimer,
        old(session).wf() ==> final(session).wf(),
        !old(session).any_active() ==> actions@ == seq![Action::StopAnimationTimer],
{
    let mut actions: Vec<Action> = Vec::new();
    tick_main(session, now_ms, &mut actions);
    tick_dropdown(session, now_ms, &mut actions);
    tick_tooltip(session, now_ms, &mut actions);
    let ghost body = actions@;
    if !session.is_any_animation_active() {
        session.timer_armed = false;
        actions.push(Action::StopAnimationTimer);
        assert(actions@ =~= body + timer_stop(false));
    } else {
        assert(actions@ =~= body + timer_stop(true));
    }
    proof {
        assert(body =~= main_tick(old(session).main, now_ms) + dropdown_tick(
            old(session).dropdown.clock,
            now_ms,
        ) + tooltip_tick(old(session).tooltip, now_ms));
        if !old(session).any_active() {
            assert(body =~= Seq::<Action>::empty());
        }
    }
    actions
}

/// What the host observed when an event arrived.
#[derive(Debug, Clone, Copy, PartialEq, Eq, Structural)]
pub struct Env {
    /// The panel's window on the screen, in device pixels.
    pub window: Rect,
    /// The size of the panel's client area, in device pixels.
    pub client_w: i32,
    pub client_h: i32,
    pub dpi: u32,
    pub now_ms: u64,
    /// Whether the panel's window is visible.
    pub visible: bool,
}

/// Whether the panel's window stands on its resting place.
pub open spec fn at_rest(main: MainPanel, left: i32, top: i32) -> bool {
    left == main.final_x && top == main.final_y
}

/// The actions of a request to leave. While an exit is under way there are
/// none. Otherwise an open dropdown and a tooltip go at once; then a panel
/// on its resting place begins to slide out, and a panel anywhere else - on
/// its way in, or dragged off - is hidden on the spot, or the application
/// ends, without an animation.
pub open spec fn exit_actions(pre: Session, kill: bool, left: i32, top: i32) -> Seq<Action> {
    if pre.main.clock.phase == AnimType::Exiting {
        Seq::empty()
    } else {
        pre.dropdown_closing() + pre.tooltip_closing() + seq![
            if at_rest(pre.main, left, top) {
                Action::StartAnimationTimer { interval_ms: ANIM_TIMER_MS }
            } else if kill {
                Action::Quit
            } else {
                Action::HideMain
            },
        ]
    }
}

/// The session after a request to leave. An exit under way keeps its clock,
/// and only learns that the application is to end. Otherwise the panel's
/// clock starts the exit, or stops where the panel is hidden on the spot.
pub open spec fn exit_started(
    pre: Session,
    post: Session,
    kill: bool,
    left: i32,
    top: i32,
    now_ms: u64,
) -> bool {
    if pre.main.clock.phase == AnimType::Exiting {
        post == (Session {
            main: MainPanel { kill_on_exit: pre.main.kill_on_exit || kill, ..pre.main },
            ..pre
        })
    } else {
        post == (Session {
            main: MainPanel {
                kill_on_exit: kill,
                clock: if at_rest(pre.main, left, top) {
                    AnimationState {
                        phase: AnimType::Exiting,
                        start_ms: now_ms,
                        duration_ms: ANIM_EXIT_DURATION_MS,
                    }
                } else {
                    AnimationState { phase: AnimType::Idle, ..pre.main.clock }
                },
                ..pre.main
            },
            dropdown: pre.dropdown_closed(),
            tooltip: None,
            timer_armed: pre.timer_armed || at_rest(pre.main, left, top),
            ..pre
        })
    }
}

/// Asks the panel to leave: to hide, or with `kill` to end the application.
/// (`left`, `top`) is where the panel's window stands.
pub fn start_exit_animation(session: &mut Session, kill: bool, left: i32, top: i32, now_ms: u64) -> (actions:
    Vec<Action>)
    ensures
        actions@ == exit_actions(*old(session), kill, left, top),
        exit_started(*old(session), *final(session), kill, left, top, now_ms),
        old(session).main.clock.phase == AnimType::Exiting ==> final(session).main.clock == old(
            session,
        ).main.clock,
        old(session).wf() ==> final(session).wf(),
{
    let mut actions: Vec<Action> = Vec::new();
    if session.main.clock.phase == AnimType::Exiting {
        session.main.kill_on_exit = session.main.kill_on_exit || kill;
        return actions;
    }
    session.main.kill_on_exit = kill;
    session.close_dropdown(&mut actions);
    session.close_tooltip(&mut actions);
    if left == session.main.final_x && top == session.main.final_y {
        session.main.clock.start(AnimType::Exiting, ANIM_EXIT_DURATION_MS, now_ms);
        session.timer_armed = true;
        actions.push(Action::StartAnimationTimer { interval_ms: ANIM_TIMER_MS });
    } else {
        session.main.clock.stop();
        actions.push(if kill {
            Action::Quit
        } else {
            Action::HideMain
        });
    }
    proof {
        assert(actions@ =~= exit_actions(*old(session), kill, left, top));
    }
    actions
}

/// The actions of showing the hidden panel: it appears, takes the keyboard,
/// begins to slide in, and offers the newest command, selected, to be run
/// again or typed over.
pub open spec fn show_actions(pre: Session) -> Seq<Action> {
    seq![Action::ShowMain, Action::FocusInput, Action::StartAnimationTimer { interval_ms: ANIM_TIMER_MS }] + if pre.bridge.history@.len()
        > 0 {
        seq![Action::WriteInput, Action::SelectAllInput]
    } else {
        Seq::empty()
    }
}

/// The session after the hidden panel was shown.
pub open spec fn shown(pre: Session, post: Session, now_ms: u64) -> bool {
    &&& post.main == (MainPanel {
        clock: AnimationState {
            phase: AnimType::Entering,
            start_ms: now_ms,
            duration_ms: ANIM_ENTER_DURATION_MS,
        },
        ..pre.main
    })
    &&& post.timer_armed
    &&& post.dropdown == pre.dropdown
    &&& post.tooltip == pre.tooltip
    &&& post.bridge.history == pre.bridge.history
    &&& post.bridge.filtered_history == pre.bridge.filtered_history
    &&& post.bridge.prediction == pre.bridge.prediction
    &&& post.bridge.history_index == pre.bridge.history_index
    &&& post.bridge.origin == pre.bridge.origin
    &&& if pre.bridge.history@.len() > 0 {
        post.bridge.input@ == pre.bridge.entries()[0]
    } else {
        post.bridge.input == pre.bridge.input
    }
}

/// Shows the panel, or, if it is visible already, asks it to leave: the one
/// entry for the global hotkey and for a second launch of the application.
pub fn show(session: &mut Session, env: Env) -> (actions: Vec<Action>)
    ensures
        env.visible ==> actions@ == exit_actions(
            *old(session),
            false,
            env.window.left,
            env.window.top,
        ) && exit_started(
            *old(session),
            *final(session),
            false,
            env.window.left,
            env.window.top,
            env.now_ms,
        ),
        !env.visible ==> actions@ == show_actions(*old(session)) && shown(
            *old(session),
            *final(session),
            env.now_ms,
        ),
{
    if env.visible {
        return start_exit_animation(session, false, env.window.left, env.window.top, env.now_ms);
    }
    let mut actions: Vec<Action> = Vec::new();
    actions.push(Action::ShowMain);
    actions.push(Action::FocusInput);
    session.main.clock.start(AnimType::Entering, ANIM_ENTER_DURATION_MS, env.now_ms);
    session.timer_armed = true;
    actions.push(Action::StartAnimationTimer { interval_ms: ANIM_TIMER_MS });
    if session.bridge.recall_latest() {
        actions.push(Action::WriteInput);
        actions.push(Action::SelectAllInput);
    }
    proof {
        assert(actions@ =~= show_actions(*old(session)));
    }
    actions
}

/// The actions of running the input: none while the input is empty; else
/// the history is written out and the command launched.
pub open spec fn run_actions(pre: Session, elevated: bool) -> Seq<Action> {
    if pre.bridge.input@.len() == 0 {
        Seq::empty()
    } else {
        seq![Action::PersistHistory, Action::Launch { elevated }]
    }
}

/// The session after the input was run: the command leads the history.
pub open spec fn command_run(pre: Session, post: Session) -> bool {
    &&& post.main == pre.main
    &&& post.dropdown == pre.dropdown
    &&& post.tooltip == pre.tooltip
    &&& post.timer_armed == pre.timer_armed
    &&& post.bridge.input == pre.bridge.input
    &&& post.bridge.filtered_history == pre.bridge.filtered_history
    &&& post.bridge.prediction == pre.bridge.prediction
    &&& post.bridge.history_index == pre.bridge.history_index
    &&& post.bridge.origin == pre.bridge.origin
    &&& if pre.bridge.input@.len() == 0 {
        post.bridge.history == pre.bridge.history
    } else {
        post.bridge.entries() == saved(pre.bridge.entries(), pre.bridge.input@)
    }
}

/// Runs the input as a command, with raised rights if `elevated`. The
/// launch itself is the host's; its outcome comes back as an event.
pub fn run_command(session: &mut Session, elevated: bool) -> (actions: Vec<Action>)
    ensures
        actions@ == run_actions(*old(session), elevated),
        command_run(*old(session), *final(session)),
{
    let mut actions: Vec<Action> = Vec::new();
    if session.bridge.commit_input() {
        actions.push(Action::PersistHistory);
        actions.push(Action::Launch { elevated });
    }
    proof {
        assert(actions@ =~= run_actions(*old(session), elevated));
    }
    actions
}

/// The actions of a pointer move: the panel is painted again if the pointer
/// came onto another element, and a drag with the button held is handed on
/// to the native input field, which extends the selection.
pub open spec fn move_actions(pre: Session, x_px: i32, y_px: i32, left_down: bool, env: Env) -> Seq<Action> {
    let id = hover_of(
        x_px as int,
        y_px as int,
        env.client_w as int,
        env.dpi,
        pre.bridge.input@.len() == 0,
    );
    (if id != pre.main.hover {
        seq![Action::Repaint(Surface::Main)]
    } else {
        Seq::empty()
    }) + (if left_down {
        seq![
            Action::ForwardPointer {
                kind: PointerKind::Move,
                x: edit_x_of(x_px as int, env.dpi) as i32,
                y: device_of(EDIT_POINTER_Y as int, env.dpi) as i32,
            },
            Action::Repaint(Surface::Main),
        ]
    } else {
        Seq::empty()
    })
}

/// The pointer moved over the panel. The element under it is found afresh
/// from the position alone.
pub fn on_pointer_move(session: &mut Session, x_px: i32, y_px: i32, left_down: bool, env: Env) -> (actions:
    Vec<Action>)
    ensures
        actions@ == move_actions(*old(session), x_px, y_px, left_down, env),
        *final(session) == (Session {
            main: MainPanel {
                hover: hover_of(
                    x_px as int,
                    y_px as int,
                    env.client_w as int,
                    env.dpi,
                    old(session).bridge.input@.len() == 0,
                ),
                ..old(session).main
            },
            ..*old(session)
        }),
{
    let mut actions: Vec<Action> = Vec::new();
    let id = pointer_hover(
        x_px,
        y_px,
        env.client_w,
        env.client_h,
        env.dpi,
        is_input_empty(session),
    );
    if id != session.main.hover {
        session.main.hover = id;
        actions.push(Action::Repaint(Surface::Main));
    }
    if left_down {
        let at = edit_point(x_px, env.dpi);
        actions.push(Action::ForwardPointer { kind: PointerKind::Move, x: at.0, y: at.1 });
        actions.push(Action::Repaint(Surface::Main));
    }
    proof {
        assert(actions@ =~= move_actions(*old(session), x_px, y_px, left_down, env));
    }
    actions
}

/// The button was released: the pointer is let go, and the release is handed
/// on to the native input field.
pub fn on_button_up(x_px: i32, dpi: u32) -> (actions: Vec<Action>)
    ensures
        actions@ == seq![
            Action::ReleaseMouse,
            Action::ForwardPointer {
                kind: PointerKind::Up,
                x: edit_x_of(x_px as int, dpi) as i32,
                y: device_of(EDIT_POINTER_Y as int, dpi) as i32,
            },
            Action::Repaint(Surface::Main),
        ],
{
    let mut actions: Vec<Action> = Vec::new();
    let at = edit_point(x_px, dpi);
    actions.push(Action::ReleaseMouse);
    actions.push(Action::ForwardPointer { kind: PointerKind::Up, x: at.0, y: at.1 });
    actions.push(Action::Repaint(Surface::Main));
    actions
}

/// The session once the tooltip was removed by a press of the button.
pub open spec fn without_tooltip(pre: Session) -> Session {
    Session { tooltip: None, ..pre }
}

/// The actions of opening the dropdown from the chevron: with an empty
/// history a tooltip says that there is no history to show; an open dropdown
/// stays as it is; else the dropdown is placed under the input field and
/// begins its entrance.
pub open spec fn chevron_actions(pre: Session, env: Env) -> Seq<Action> {
    if pre.bridge.history@.len() == 0 {
        tooltip_actions(pre, env.window.left, env.window.top, env.dpi)
    } else if pre.dropdown.visible {
        Seq::empty()
    } else {
        seq![
            Action::ShowDropdown(
                crate::ui::dropdown::placement_of(
                    env.window,
                    env.dpi,
                    pre.bridge.history@.len() as int,
                ),
            ),
            Action::StartAnimationTimer { interval_ms: ANIM_TIMER_MS },
        ]
    }
}

/// The session after the chevron was pressed. Over an empty history the
/// dropdown stays closed and a tooltip tells the user that no history was
/// found; nothing was cleared, so it is not the notice of clearing.
pub open spec fn chevron_pressed(pre: Session, post: Session, env: Env) -> bool {
    if pre.bridge.history@.len() == 0 {
        tooltip_shown(
            pre,
            post,
            "No Command History Found"@,
            "Commands that you run are kept here, to be run again."@,
            env.now_ms,
        )
    } else if pre.dropdown.visible {
        post == pre
    } else {
        post == (Session {
            dropdown: DropdownState {
                visible: true,
                scroll_offset: 0,
                hovered_index: Some(0usize),
                clock: AnimationState {
                    phase: AnimType::Entering,
                    start_ms: env.now_ms,
                    duration_ms: crate::config::ANIM_DROPDOWN_DURATION_MS,
                },
            },
            timer_armed: true,
            ..pre
        })
    }
}

fn press_chevron(session: &mut Session, env: Env) -> (actions: Vec<Action>)
    ensures
        actions@ == chevron_actions(*old(session), env),
        chevron_pressed(*old(session), *final(session), env),
{
    if session.bridge.history.len() == 0 {
        return show_tooltip(
            session,
            "No Command History Found",
            "Commands that you run are kept here, to be run again.",
            env.window.left,
            env.window.top,
            env.dpi,
            env.now_ms,
        );
    }
    let mut actions: Vec<Action> = Vec::new();
    if !session.dropdown.visible {
        session.dropdown.open(env.now_ms);
        session.timer_armed = true;
        actions.push(
            Action::ShowDropdown(dropdown_placement(env.window, env.dpi, session.bridge.history.len())),
        );
        actions.push(Action::StartAnimationTimer { interval_ms: ANIM_TIMER_MS });
    }
    actions
}

/// The actions of a press of the button on the element `id`, once the
/// tooltip is gone.
pub open spec fn press_actions(pre: Session, id: HoverId, x_px: i32, env: Env) -> Seq<Action> {
    match id {
        HoverId::Close | HoverId::Cancel => exit_actions(
            pre,
            false,
            env.window.left,
            env.window.top,
        ),
        HoverId::Min => pre.dropdown_closing() + seq![Action::MinimizeMain],
        HoverId::Confirm => run_actions(pre, false),
        HoverId::Input => seq![
            Action::CaptureMouse,
            Action::ForwardPointer {
                kind: PointerKind::Down,
                x: edit_x_of(x_px as int, env.dpi) as i32,
                y: device_of(EDIT_POINTER_Y as int, env.dpi) as i32,
            },
            Action::FocusInput,
            Action::Repaint(Surface::Main),
        ],
        HoverId::Nothing => seq![Action::FocusInput] + if pre.dropdown.visible {
            seq![Action::HideDropdown, Action::Repaint(Surface::Main)]
        } else {
            Seq::empty()
        },
        HoverId::Dropdown => chevron_actions(pre, env),
    }
}

/// The session after a press of the button on the element `id`, once the
/// tooltip is gone.
pub open spec fn pressed(pre: Session, post: Session, id: HoverId, env: Env) -> bool {
    match id {
        HoverId::Close | HoverId::Cancel => exit_started(
            pre,
            post,
            false,
            env.window.left,
            env.window.top,
            env.now_ms,
        ),
        HoverId::Min | HoverId::Nothing => post == (Session {
            dropdown: pre.dropdown_closed(),
            ..pre
        }),
        HoverId::Confirm => command_run(pre, post),
        HoverId::Input => post == pre,
        HoverId::Dropdown => chevron_pressed(pre, post, env),
    }
}

/// The button was pressed on the panel. A tooltip goes at once; then the
/// element under the pointer acts: close and cancel ask the panel to leave,
/// minimise minimises it, confirm runs the input, the input field takes the
/// press as its own, the chevron opens the dropdown, and a press on nothing
/// closes the dropdown.
pub fn on_button_down(session: &mut Session, x_px: i32, y_px: i32, env: Env) -> (actions: Vec<Action>)
    ensures
        ({
            let id = hover_of(
                x_px as int,
                y_px as int,
                env.client_w as int,
                env.dpi,
                old(session).bridge.input@.len() == 0,
            );
            &&& actions@ == old(session).tooltip_closing() + press_actions(
                without_tooltip(*old(session)),
                id,
                x_px,
                env,
            )
            &&& pressed(without_tooltip(*old(session)), *final(session), id, env)
        }),
{
    let mut actions: Vec<Action> = Vec::new();
    session.close_tooltip(&mut actions);
    let ghost mid = *session;
    assert(mid == without_tooltip(*old(session)));
    let ghost head = actions@;
    let id = pointer_hover(
        x_px,
        y_px,
        env.client_w,
        env.client_h,
        env.dpi,
        is_input_empty(session),
    );
    let mut rest: Vec<Action> = match id {
        HoverId::Close | HoverId::Cancel => start_exit_animation(
            session,
            false,
            env.window.left,
            env.window.top,
            env.now_ms,
        ),
        HoverId::Min => {
            let mut r: Vec<Action> = Vec::new();
            session.close_dropdown(&mut r);
            r.push(Action::MinimizeMain);
            assert(r@ =~= press_actions(mid, id, x_px, env));
            r
        },
        HoverId::Confirm => run_command(session, false),
        HoverId::Input => {
            let mut r: Vec<Action> = Vec::new();
            let at = edit_point(x_px, env.dpi);
            r.push(Action::CaptureMouse);
            r.push(Action::ForwardPointer { kind: PointerKind::Down, x: at.0, y: at.1 });
            r.push(Action::FocusInput);
            r.push(Action::Repaint(Surface::Main));
            r
        },
        HoverId::Nothing => {
            let mut r: Vec<Action> = Vec::new();
            r.push(Action::FocusInput);
            if session.dropdown.visible {
                session.dropdown.close_now();
                r.push(Action::HideDropdown);
                r.push(Action::Repaint(Surface::Main));
            }
            assert(r@ =~= press_actions(mid, id, x_px, env));
            r
        },
        HoverId::Dropdown => press_chevron(session, env),
    };
    assert(rest@ == press_actions(mid, id, x_px, env));
    actions.append(&mut rest);
    actions
}

/// A key, as far as the panel tells keys apart.
#[derive(Debug, Clone, Copy, PartialEq, Eq, Structural)]
pub enum Key {
    Return,
    Up,
    Down,
    Tab,
    Right,
    Back,
    Escape,
    Other,
}

/// The key that a virtual-key code stands for.
pub fn key_of(vk: u16) -> (key: Key)
    ensures
        key == match vk {
            0x0D => Key::Return,
            0x26 => Key::Up,
            0x28 => Key::Down,
            0x09 => Key::Tab,
            0x27 => Key::Right,
            0x08 => Key::Back,
            0x1B => Key::Escape,
            _ => Key::Other,
        },
{
    match vk {
        0x0D => Key::Return,
        0x26 => Key::Up,
        0x28 => Key::Down,
        0x09 => Key::Tab,
        0x27 => Key::Right,
        0x08 => Key::Back,
        0x1B => Key::Escape,
        _ => Key::Other,
    }
}

/// What a key does when it is pressed.
#[derive(Debug, Clone, Copy, PartialEq, Eq, Structural)]
pub enum KeyRole {
    /// Run the input; with Control and Shift held, with raised rights.
    Run { elevated: bool },
    /// Step through the history: by +1 if `forward`, else by -1.
    Cycle { forward: bool },
    /// Take the offered completion.
    Complete,
    /// Forget the history.
    ClearHistory,
    /// Ask the panel to leave; the key goes on to the field all the same.
    Leave,
    /// Nothing of the panel's.
    Pass,
}

/// The role of a key. `on_input` says that the native input field has the
/// keyboard; the panel itself sees keys only when the field does not, and
/// then steps through the history only while the dropdown is closed.
pub open spec fn role_of(pre: Session, key: Key, ctrl: bool, shift: bool, on_input: bool) -> KeyRole {
    if on_input && key == Key::Return {
        KeyRole::Run { elevated: ctrl && shift }
    } else if (on_input || !pre.dropdown.visible) && key == Key::Up {
        KeyRole::Cycle { forward: false }
    } else if (on_input || !pre.dropdown.visible) && key == Key::Down {
        KeyRole::Cycle { forward: true }
    } else if on_input && (key == Key::Tab || (key == Key::Right && pre.bridge.prediction@.len()
        > 0)) {
        KeyRole::Complete
    } else if on_input && key == Key::Back && ctrl && shift {
        KeyRole::ClearHistory
    } else if key == Key::Escape {
        KeyRole::Leave
    } else {
        KeyRole::Pass
    }
}

/// The role of a key.
pub fn key_role(session: &Session, key: Key, ctrl: bool, shift: bool, on_input: bool) -> (role:
    KeyRole)
    ensures
        role == role_of(*session, key, ctrl, shift, on_input),
{
    if on_input && key == Key::Return {
        KeyRole::Run { elevated: ctrl && shift }
    } else if (on_input || !session.dropdown.visible) && key == Key::Up {
        KeyRole::Cycle { forward: false }
    } else if (on_input || !session.dropdown.visible) && key == Key::Down {
        KeyRole::Cycle { forward: true }
    } else if on_input && (key == Key::Tab || (key == Key::Right
        && !session.bridge.prediction.as_str().is_empty())) {
        KeyRole::Complete
    } else if on_input && key == Key::Back && ctrl && shift {
        KeyRole::ClearHistory
    } else if key == Key::Escape {
        KeyRole::Leave
    } else {
        KeyRole::Pass
    }
}

/// The step that an arrow key takes: Down goes forward by one, Up back by
/// one.
pub open spec fn step_of(forward: bool) -> int {
    if forward {
        1
    } else {
        -1
    }
}

/// Whether a key press is used up, so that neither the native field nor the
/// system sees it. A key that asks the panel to leave is not.
pub open spec fn consumes(role: KeyRole) -> bool {
    !(role is Leave || role is Pass)
}

/// Whether the release of a key is used up: the keys that the field would
/// answer with a beep or a change of focus.
pub fn consumes_key_up(key: Key, on_input: bool) -> (yes: bool)
    ensures
        yes == (on_input && (key == Key::Return || key == Key::Up || key == Key::Down || key
            == Key::Tab)),
{
    on_input && (key == Key::Return || key == Key::Up || key == Key::Down || key == Key::Tab)
}

/// The actions of a key press in its role.
pub open spec fn key_actions(pre: Session, role: KeyRole, env: Env) -> Seq<Action> {
    match role {
        KeyRole::Run { elevated } => run_actions(pre, elevated),
        KeyRole::Cycle { forward } => (if pre.bridge.active().len() > 0 {
            seq![Action::WriteInput, Action::SelectAllInput]
        } else {
            Seq::empty()
        }) + seq![Action::Repaint(Surface::Main)],
        KeyRole::Complete => if pre.bridge.prediction@.len() > 0 {
            seq![Action::WriteInput, Action::SelectAllInput] + pre.dropdown_closing() + seq![
                Action::Repaint(Surface::Main),
            ]
        } else {
            Seq::empty()
        },
        KeyRole::ClearHistory => seq![Action::DeleteHistoryFile] + pre.dropdown_closing()
            + tooltip_actions(pre, env.window.left, env.window.top, env.dpi) + seq![
            Action::Repaint(Surface::Main),
        ],
        KeyRole::Leave => exit_actions(pre, false, env.window.left, env.window.top),
        KeyRole::Pass => Seq::empty(),
    }
}

/// The session after a key press in its role.
pub open spec fn key_pressed(pre: Session, post: Session, role: KeyRole, env: Env) -> bool {
    match role {
        KeyRole::Run { elevated } => command_run(pre, post),
        KeyRole::Cycle { forward } => {
            &&& stepped(pre.bridge, post.bridge, step_of(forward))
            &&& post.main == pre.main
            &&& post.dropdown == pre.dropdown
            &&& post.tooltip == pre.tooltip
            &&& post.timer_armed == pre.timer_armed
        },
        KeyRole::Complete => {
            &&& completed(pre.bridge, post.bridge)
            &&& post.main == pre.main
            &&& post.dropdown == if pre.bridge.prediction@.len() > 0 {
                pre.dropdown_closed()
            } else {
                pre.dropdown
            }
            &&& post.tooltip == pre.tooltip
            &&& post.timer_armed == pre.timer_armed
        },
        KeyRole::ClearHistory => {
            &&& post.bridge.history@.len() == 0
            &&& post.bridge.history_index is None
            &&& post.bridge.input == pre.bridge.input
            &&& post.bridge.filtered_history == pre.bridge.filtered_history
            &&& post.bridge.prediction == pre.bridge.prediction
            &&& post.bridge.origin == pre.bridge.origin
            &&& post.main == pre.main
            &&& post.dropdown == pre.dropdown_closed()
            &&& post.timer_armed
            &&& post.tooltip is Some
            &&& post.tooltip->0.title@ == "History Cleared"@
            &&& post.tooltip->0.message@ == "The command history has been successfully removed."@
            &&& post.tooltip->0.clock == (AnimationState {
                phase: AnimType::Entering,
                start_ms: env.now_ms,
                duration_ms: crate::config::ANIM_TOOLTIP_DURATION_MS,
            })
        },
        KeyRole::Leave => exit_started(
            pre,
            post,
            false,
            env.window.left,
            env.window.top,
            env.now_ms,
        ),
        KeyRole::Pass => post == pre,
    }
}

/// What a key press came to.
#[derive(Debug, Clone, PartialEq, Eq)]
pub struct KeyReply {
    pub actions: Vec<Action>,
    /// Whether the press is used up.
    pub consumed: bool,
}

/// A key was pressed. Return runs the input, the arrows step through the
/// history, Tab (or Right, while a completion is offered) takes the
/// completion, Control+Shift+Backspace forgets the history, and Escape asks
/// the panel to leave.
pub fn on_key_down(session: &mut Session, key: Key, ctrl: bool, shift: bool, on_input: bool, env: Env) -> (reply:
    KeyReply)
    ensures
        ({
            let role = role_of(*old(session), key, ctrl, shift, on_input);
            &&& reply.actions@ == key_actions(*old(session), role, env)
            &&& key_pressed(*old(session), *final(session), role, env)
            &&& reply.consumed == consumes(role)
        }),
{
    let role = key_role(session, key, ctrl, shift, on_input);
    let ghost pre = *session;
    match role {
        KeyRole::Run { elevated } => KeyReply {
            actions: run_command(session, elevated),
            consumed: true,
        },
        KeyRole::Cycle { forward } => {
            let mut actions: Vec<Action> = Vec::new();
            let delta: isize = if forward {
                1
            } else {
                -1
            };
            if cycle_history(&mut session.bridge, delta) {
                actions.push(Action::WriteInput);
                actions.push(Action::SelectAllInput);
            }
            actions.push(Action::Repaint(Surface::Main));
            assert(actions@ =~= key_actions(pre, role, env));
            KeyReply { actions, consumed: true }
        },
        KeyRole::Complete => {
            let mut actions: Vec<Action> = Vec::new();
            if session.bridge.accept_prediction() {
                actions.push(Action::WriteInput);
                actions.push(Action::SelectAllInput);
                session.close_dropdown(&mut actions);
                actions.push(Action::Repaint(Surface::Main));
            }
            assert(actions@ =~= key_actions(pre, role, env));
            KeyReply { actions, consumed: true }
        },
        KeyRole::ClearHistory => {
            let mut actions: Vec<Action> = Vec::new();
            actions.push(Action::DeleteHistoryFile);
            session.bridge.clear_history();
            session.close_dropdown(&mut actions);
            let ghost mid = *session;
            let mut tip = show_tooltip(
                session,
                "History Cleared",
                "The command history has been successfully removed.",
                env.window.left,
                env.window.top,
                env.dpi,
                env.now_ms,
            );
            assert(tip@ == tooltip_actions(pre, env.window.left, env.window.top, env.dpi));
            actions.append(&mut tip);
            actions.push(Action::Repaint(Surface::Main));
            assert(actions@ =~= key_actions(pre, role, env));
            KeyReply { actions, consumed: true }
        },
        KeyRole::Leave => KeyReply {
            actions: start_exit_animation(
                session,
                false,
                env.window.left,
                env.window.top,
                env.now_ms,
            ),
            consumed: false,
        },
        KeyRole::Pass => KeyReply { actions: Vec::new(), consumed: false },
    }
}

/// An event of the panel's window.
#[derive(Debug, Clone, Copy, PartialEq, Eq, Structural)]
pub enum MainEvent {
    /// The input is to be run.
    RunCommand { elevated: bool },
    /// The launched command started.
    CommandSucceeded,
    /// The launched command could not be started.
    CommandFailed,
    CloseRequested,
    Resized { minimized: bool, width: i32 },
    Activated { active: bool },
    /// The caret's blink interval passed.
    CaretTimer,
    /// The animation timer ticked.
    AnimationTimer,
    /// The long interval passed after which the hotkey is registered anew.
    HeartbeatTimer,
    /// The system's theme or another setting changed.
    SettingsChanged,
    DisplayChanged,
    PointerMoved { x: i32, y: i32, left_down: bool },
    ButtonDown { x: i32, y: i32 },
    ButtonUp { x: i32 },
    FocusGained,
    /// The global hotkey was pressed, or the application was launched again.
    Hotkey,
    /// The user's session changed; `code` is the system's reason.
    SessionChanged { code: u32 },
    /// The machine's power state changed; `code` is the system's reason.
    PowerChanged { code: u32 },
    /// The display scale changed; the work area's left and bottom edges are
    /// given in device pixels of the new scale.
    DpiChanged { work_left: i32, work_bottom: i32, dpi: u32 },
    Destroyed,
    KeyDown { key: Key, ctrl: bool, shift: bool, on_input: bool },
}

/// Whether a change of the user's session calls for the hotkey to be
/// registered anew: an unlock or a logon.
pub open spec fn session_returns(code: u32) -> bool {
    code == 7 || code == 8
}

/// Whether a change of the power state calls for the hotkey to be registered
/// anew: a resume from sleep.
pub open spec fn power_resumes(code: u32) -> bool {
    code == 7 || code == 0x12
}

/// The actions of an event that leaves the session as it is.
pub open spec fn plain_actions(event: MainEvent) -> Seq<Action> {
    match event {
        MainEvent::CaretTimer => seq![Action::Repaint(Surface::Main)],
        MainEvent::HeartbeatTimer => seq![Action::RegisterHotkeys],
        MainEvent::SettingsChanged => seq![
            Action::ApplyBackdrop(Surface::Main),
            Action::DropBrushes(Surface::Main),
            Action::Repaint(Surface::Main),
        ],
        MainEvent::DisplayChanged => seq![Action::RegisterHotkeys, Action::Repaint(Surface::Main)],
        MainEvent::FocusGained => seq![Action::FocusInput],
        MainEvent::SessionChanged { code } => if session_returns(code) {
            seq![Action::RegisterHotkeys]
        } else {
            Seq::empty()
        },
        MainEvent::PowerChanged { code } => if power_resumes(code) {
            seq![Action::RegisterHotkeys]
        } else {
            Seq::empty()
        },
        MainEvent::Activated { active: true } => seq![Action::FocusInput, Action::SelectAllInput],
        _ => Seq::empty(),
    }
}

/// What an event does to the session and asks of the host.
pub open spec fn main_event_handled(
    pre: Session,
    post: Session,
    actions: Seq<Action>,
    event: MainEvent,
    env: Env,
) -> bool {
    match event {
        MainEvent::RunCommand { elevated } => actions == run_actions(pre, elevated) && command_run(
            pre,
            post,
        ),
        MainEvent::CommandSucceeded | MainEvent::CloseRequested => {
            &&& actions == exit_actions(pre, false, env.window.left, env.window.top)
            &&& exit_started(pre, post, false, env.window.left, env.window.top, env.now_ms)
        },
        MainEvent::CommandFailed => {
            &&& actions == seq![Action::ShowMain] + tooltip_actions(
                pre,
                env.window.left,
                env.window.top,
                env.dpi,
            )
            &&& tooltip_shown(
                pre,
                post,
                "Command not found"@,
                not_found_text(pre.bridge.input@),
                env.now_ms,
            )
        },
        MainEvent::Resized { minimized, width } => {
            &&& actions == (if minimized {
                pre.dropdown_closing()
            } else {
                Seq::empty()
            }) + seq![Action::ParkInput { width }, Action::Repaint(Surface::Main)]
            &&& post == (Session {
                dropdown: if minimized {
                    pre.dropdown_closed()
                } else {
                    pre.dropdown
                },
                ..pre
            })
        },
        MainEvent::Activated { active: false } => {
            &&& actions == if pre.dropdown.visible {
                seq![Action::HideDropdown, Action::Repaint(Surface::Main)]
            } else {
                Seq::empty()
            }
            &&& post == (Session { dropdown: pre.dropdown_closed(), ..pre })
        },
        MainEvent::AnimationTimer => {
            &&& actions == main_tick(pre.main, env.now_ms) + dropdown_tick(
                pre.dropdown.clock,
                env.now_ms,
            ) + tooltip_tick(pre.tooltip, env.now_ms) + timer_stop(post.any_active())
            &&& post.main == (MainPanel { clock: pre.main.clock.ticked(env.now_ms), ..pre.main })
            &&& post.dropdown == (DropdownState {
                clock: pre.dropdown.clock.ticked(env.now_ms),
                ..pre.dropdown
            })
            &&& (tooltip_leaves(pre.tooltip, env.now_ms) || pre.tooltip is None) ==> post.tooltip
                is None
            &&& pre.tooltip is Some && !tooltip_leaves(pre.tooltip, env.now_ms) ==> {
                &&& post.tooltip is Some
                &&& post.tooltip->0.clock == pre.tooltip->0.clock.ticked(env.now_ms)
                &&& post.tooltip->0.title == pre.tooltip->0.title
                &&& post.tooltip->0.message == pre.tooltip->0.message
            }
            &&& post.bridge == pre.bridge
            &&& post.timer_armed == (pre.timer_armed && post.any_active())
        },
        MainEvent::PointerMoved { x, y, left_down } => {
            &&& actions == move_actions(pre, x, y, left_down, env)
            &&& post == (Session {
                main: MainPanel {
                    hover: hover_of(
                        x as int,
                        y as int,
                        env.client_w as int,
                        env.dpi,
                        pre.bridge.input@.len() == 0,
                    ),
                    ..pre.main
                },
                ..pre
            })
        },
        MainEvent::ButtonDown { x, y } => {
            let id = hover_of(
                x as int,
                y as int,
                env.client_w as int,
                env.dpi,
                pre.bridge.input@.len() == 0,
            );
            &&& actions == pre.tooltip_closing() + press_actions(without_tooltip(pre), id, x, env)
            &&& pressed(without_tooltip(pre), post, id, env)
        },
        MainEvent::ButtonUp { x } => {
            &&& actions == seq![
                Action::ReleaseMouse,
                Action::ForwardPointer {
                    kind: PointerKind::Up,
                    x: edit_x_of(x as int, env.dpi) as i32,
                    y: device_of(EDIT_POINTER_Y as int, env.dpi) as i32,
                },
                Action::Repaint(Surface::Main),
            ]
            &&& post == pre
        },
        MainEvent::Hotkey => if env.visible {
            &&& actions == exit_actions(pre, false, env.window.left, env.window.top)
            &&& exit_started(pre, post, false, env.window.left, env.window.top, env.now_ms)
        } else {
            actions == show_actions(pre) && shown(pre, post, env.now_ms)
        },
        MainEvent::KeyDown { key, ctrl, shift, on_input } => {
            let role = role_of(pre, key, ctrl, shift, on_input);
            actions == key_actions(pre, role, env) && key_pressed(pre, post, role, env)
        },
        MainEvent::DpiChanged { work_left, work_bottom, dpi } => {
            let (at, start) = resting_place(work_left, work_bottom, dpi);
            &&& actions == seq![
                Action::DropBrushes(Surface::Main),
                Action::DropBrushes(Surface::Dropdown),
                Action::Repaint(Surface::Main),
            ]
            &&& post == (Session {
                main: MainPanel { final_x: at.x, final_y: at.y, start_y: start as i32, ..pre.main },
                ..pre
            })
        },
        MainEvent::Destroyed => {
            &&& actions == seq![
                Action::StopAnimationTimer,
                Action::UnregisterHotkeys,
                Action::Quit,
            ]
            &&& post == (Session {
                main: MainPanel {
                    clock: AnimationState { phase: AnimType::Idle, ..pre.main.clock },
                    ..pre.main
                },
                dropdown: DropdownState::spec_closed(),
                tooltip: None,
                timer_armed: false,
                ..pre
            })
            &&& !post.any_active()
        },
        _ => actions == plain_actions(event) && post == pre,
    }
}

/// What handling an event came to.
#[derive(Debug, Clone, PartialEq, Eq)]
pub struct Reply {
    pub actions: Vec<Action>,
    /// Whether the event is dealt with; if not, the host lets the system's
    /// default handling see it.
    pub handled: bool,
}

/// Handles an event of the panel's window.
pub fn wndproc(session: &mut Session, event: MainEvent, env: Env) -> (reply: Reply)
    ensures
        main_event_handled(*old(session), *final(session), reply.actions@, event, env),
        reply.handled == match event {
            MainEvent::KeyDown { key, ctrl, shift, on_input } => consumes(
                role_of(*old(session), key, ctrl, shift, on_input),
            ),
            _ => true,
        },
{
    let ghost pre = *session;
    let mut handled = true;
    let actions: Vec<Action> = match event {
        MainEvent::RunCommand { elevated } => run_command(session, elevated),
        MainEvent::CommandSucceeded | MainEvent::CloseRequested => start_exit_animation(
            session,
            false,
            env.window.left,
            env.window.top,
            env.now_ms,
        ),
        MainEvent::CommandFailed => {
            let mut a: Vec<Action> = Vec::new();
            a.push(Action::ShowMain);
            let message = not_found_message(session.bridge.input.as_str());
            let mut t = show_tooltip(
                session,
                "Command not found",
                message.as_str(),
                env.window.left,
                env.window.top,
                env.dpi,
                env.now_ms,
            );
            a.append(&mut t);
            assert(a@ =~= seq![Action::ShowMain] + tooltip_actions(
                pre,
                env.window.left,
                env.window.top,
                env.dpi,
            ));
            a
        },
        MainEvent::Resized { minimized, width } => {
            let mut a: Vec<Action> = Vec::new();
            if minimized {
                session.close_dropdown(&mut a);
            }
            a.push(Action::ParkInput { width });
            a.push(Action::Repaint(Surface::Main));
            assert(a@ =~= (if minimized {
                pre.dropdown_closing()
            } else {
                Seq::empty()
            }) + seq![Action::ParkInput { width }, Action::Repaint(Surface::Main)]);
            a
        },
        MainEvent::Activated { active } => {
            let mut a: Vec<Action> = Vec::new();
            if active {
                a.push(Action::FocusInput);
                a.push(Action::SelectAllInput);
            } else if session.dropdown.visible {
                session.dropdown.close_now();
                a.push(Action::HideDropdown);
                a.push(Action::Repaint(Surface::Main));
            }
            assert(main_event_handled(pre, *session, a@, event, env)) by {
                if active {
                    assert(a@ =~= plain_actions(event));
                } else if pre.dropdown.visible {
                    assert(a@ =~= seq![Action::HideDropdown, Action::Repaint(Surface::Main)]);
                } else {
                    assert(a@ =~= Seq::<Action>::empty());
                }
            }
            a
        },
        MainEvent::CaretTimer => {
            let mut a: Vec<Action> = Vec::new();
            a.push(Action::Repaint(Surface::Main));
            assert(a@ =~= plain_actions(event));
            a
        },
        MainEvent::AnimationTimer => update_animations(session, env.now_ms),
        MainEvent::HeartbeatTimer => {
            let mut a: Vec<Action> = Vec::new();
            a.push(Action::RegisterHotkeys);
            assert(a@ =~= plain_actions(event));
            a
        },
        MainEvent::SettingsChanged => {
            let mut a: Vec<Action> = Vec::new();
            a.push(Action::ApplyBackdrop(Surface::Main));
            a.push(Action::DropBrushes(Surface::Main));
            a.push(Action::Repaint(Surface::Main));
            assert(a@ =~= plain_actions(event));
            a
        },
        MainEvent::DisplayChanged => {
            let mut a: Vec<Action> = Vec::new();
            a.push(Action::RegisterHotkeys);
            a.push(Action::Repaint(Surface::Main));
            assert(a@ =~= plain_actions(event));
            a
        },
        MainEvent::PointerMoved { x, y, left_down } => on_pointer_move(session, x, y, left_down, env),
        MainEvent::ButtonDown { x, y } => on_button_down(session, x, y, env),
        MainEvent::ButtonUp { x } => on_button_up(x, env.dpi),
        MainEvent::FocusGained => {
            let mut a: Vec<Action> = Vec::new();
            a.push(Action::FocusInput);
            assert(a@ =~= plain_actions(event));
            a
        },
        MainEvent::Hotkey => show(session, env),
        MainEvent::SessionChanged { code } => {
            let mut a: Vec<Action> = Vec::new();
            if code == 7 || code == 8 {
                a.push(Action::RegisterHotkeys);
            }
            assert(a@ =~= plain_actions(event));
            a
        },
        MainEvent::PowerChanged { code } => {
            let mut a: Vec<Action> = Vec::new();
            if code == 7 || code == 0x12 {
                a.push(Action::RegisterHotkeys);
            }
            assert(a@ =~= plain_actions(event));
            a
        },
        MainEvent::DpiChanged { work_left, work_bottom, dpi } => {
            let at = initial_placement(work_left, work_bottom, dpi);
            session.main.final_x = at.0.x;
            session.main.final_y = at.0.y;
            session.main.start_y = at.1;
            let mut a: Vec<Action> = Vec::new();
            a.push(Action::DropBrushes(Surface::Main));
            a.push(Action::DropBrushes(Surface::Dropdown));
            a.push(Action::Repaint(Surface::Main));
            assert(a@ =~= seq![
                Action::DropBrushes(Surface::Main),
                Action::DropBrushes(Surface::Dropdown),
                Action::Repaint(Surface::Main),
            ]);
            a
        },
        MainEvent::Destroyed => {
            session.main.clock.stop();
            session.dropdown.close_now();
            session.tooltip = None;
            session.timer_armed = false;
            let mut a: Vec<Action> = Vec::new();
            a.push(Action::StopAnimationTimer);
            a.push(Action::UnregisterHotkeys);
            a.push(Action::Quit);
            assert(a@ =~= seq![
                Action::StopAnimationTimer,
                Action::UnregisterHotkeys,
                Action::Quit,
            ]);
            a
        },
        MainEvent::KeyDown { key, ctrl, shift, on_input } => {
            let r = on_key_down(session, key, ctrl, shift, on_input, env);
            handled = r.consumed;
            r.actions
        },
    };
    Reply { actions, handled }
}

/// The native input field reported a change of its text: the session takes
/// the text, returns the history index to the text under edit if the change
/// was the user's, and the panel is painted again.
pub fn on_edit_changed(session: &mut Session, text: String) -> (actions: Vec<Action>)
    ensures
        actions@ == seq![Action::Repaint(Surface::Main)],
        final(session).bridge.input@ == text@,
        final(session).bridge.history_index == if old(session).bridge.origin
            == crate::data::history::WriteOrigin::UserEdit {
            None
        } else {
            old(session).bridge.history_index
        },
        final(session).bridge.origin == old(session).bridge.origin,
        final(session).bridge.history == old(session).bridge.history,
        final(session).bridge.filtered_history == old(session).bridge.filtered_history,
        final(session).bridge.prediction == old(session).bridge.prediction,
        final(session).main == old(session).main,
        final(session).dropdown == old(session).dropdown,
        final(session).tooltip == old(session).tooltip,
        final(session).timer_armed == old(session).timer_armed,
{
    session.bridge.on_edit_changed(text);
    let mut actions: Vec<Action> = Vec::new();
    actions.push(Action::Repaint(Surface::Main));
    actions
}

/// A brush of the palette, by its use.
#[derive(Debug, Clone, Copy, PartialEq, Eq, Structural)]
pub enum BrushId {
    Placeholder,
    White,
    Gray,
    InputBg,
    BtnBg,
    BtnHover,
    CloseHover,
    Accent,
    AccentHover,
    Selection,
    BtnBorder,
}

/// The brushes that a button is drawn with.
#[derive(Debug, Clone, Copy, PartialEq, Eq, Structural)]
pub struct ButtonStyle {
    pub fill: BrushId,
    pub border: BrushId,
    pub label: BrushId,
}

/// A stretch of the input text, from `start` up to `end`.
#[derive(Debug, Clone, Copy, PartialEq, Eq, Structural)]
pub struct Span {
    pub start: u32,
    pub end: u32,
}

/// What the main panel shows in one frame.
#[derive(Debug, Clone, Copy, PartialEq, Eq, Structural)]
pub struct Frame {
    /// Whether the minimise button is lit by the pointer.
    pub min_lit: bool,
    /// Whether the close button is lit by the pointer.
    pub close_lit: bool,
    /// Whether the hint stands in for the text, the input being empty.
    pub placeholder: bool,
    /// The selected stretch of the text, if any is selected and shown.
    pub selection: Option<Span>,
    /// Whether the caret is in the visible half of its blink.
    pub caret: bool,
    /// The text position before which the caret stands.
    pub caret_at: u32,
    pub run: ButtonStyle,
    pub cancel: ButtonStyle,
}

/// The brushes of the button `id` while the pointer is on `hover`. A
/// disabled button is dimmed and takes no light from the pointer; the
/// confirm button wears the accent colour.
pub open spec fn button_style(id: HoverId, hover: HoverId, disabled: bool) -> ButtonStyle {
    ButtonStyle {
        fill: if disabled {
            BrushId::InputBg
        } else if id == HoverId::Confirm {
            if hover == id {
                BrushId::AccentHover
            } else {
                BrushId::Accent
            }
        } else if hover == id {
            BrushId::BtnHover
        } else {
            BrushId::BtnBg
        },
        border: BrushId::BtnBorder,
        label: if disabled {
            BrushId::Gray
        } else {
            BrushId::White
        },
    }
}

/// The brushes that the button `id` is drawn with.
pub fn draw_button(id: HoverId, hover: HoverId, disabled: bool) -> (style: ButtonStyle)
    ensures
        style == button_style(id, hover, disabled),
{
    ButtonStyle {
        fill: if disabled {
            BrushId::InputBg
        } else if id == HoverId::Confirm {
            if hover == id {
                BrushId::AccentHover
            } else {
                BrushId::Accent
            }
        } else if hover == id {
            BrushId::BtnHover
        } else {
            BrushId::BtnBg
        },
        border: BrushId::BtnBorder,
        label: if disabled {
            BrushId::Gray
        } else {
            BrushId::White
        },
    }
}

/// Whether the caret shows at `tick_ms` of the system's clock: it shows for
/// one blink interval and hides for the next. An interval of 0 stands for
/// the default.
pub open spec fn caret_shows(tick_ms: u32, blink_ms: u32) -> bool {
    let blink = if blink_ms == 0 {
        DEFAULT_BLINK_MS
    } else {
        blink_ms
    };
    (tick_ms / blink) % 2 == 0
}

/// What the main panel shows in a frame. `selection` is the native field's
/// report of its selection, the start in the low half of the word and the
/// end in the high half. Painting reads the session and changes nothing.
pub fn paint(session: &Session, selection: u32, tick_ms: u32, blink_ms: u32) -> (frame: Frame)
    ensures
        frame == (Frame {
            min_lit: session.main.hover == HoverId::Min,
            close_lit: session.main.hover == HoverId::Close,
            placeholder: session.bridge.input@.len() == 0,
            selection: if session.bridge.input@.len() > 0 && selection % 0x10000 != selection
                / 0x10000 {
                Some(Span { start: selection % 0x10000, end: selection / 0x10000 })
            } else {
                None
            },
            caret: caret_shows(tick_ms, blink_ms),
            caret_at: if session.bridge.input@.len() > 0 {
                selection / 0x10000
            } else {
                0
            },
            run: button_style(
                HoverId::Confirm,
                session.main.hover,
                session.bridge.input@.len() == 0,
            ),
            cancel: button_style(HoverId::Cancel, session.main.hover, false),
        }),
{
    let empty = is_input_empty(session);
    let start: u32 = selection % 0x10000;
    let end: u32 = selection / 0x10000;
    let blink: u32 = if blink_ms == 0 {
        DEFAULT_BLINK_MS
    } else {
        blink_ms
    };
    Frame {
        min_lit: session.main.hover == HoverId::Min,
        close_lit: session.main.hover == HoverId::Close,
        placeholder: empty,
        selection: if !empty && start != end {
            Some(Span { start, end })
        } else {
            None
        },
        caret: (tick_ms / blink) % 2 == 0,
        caret_at: if empty {
            0
        } else {
            end
        },
        run: draw_button(HoverId::Confirm, session.main.hover, empty),
        cancel: draw_button(HoverId::Cancel, session.main.hover, false),
    }
}

/// Where the panel rests and from where it slides in, on a work area of
/// the given edges: it rests an inset away from the left and the bottom, and
/// starts from the bottom edge.
pub open spec fn resting_place(work_left: i32, work_bottom: i32, dpi: u32) -> (Placement, int) {
    (
        Placement {
            x: clamp_i32(work_left + device_of(SCREEN_INSET as int, dpi)) as i32,
            y: clamp_i32(
                work_bottom - device_of(WIN_H as int, dpi) - device_of(SCREEN_INSET as int, dpi),
            ) as i32,
            w: device_of(WIN_W as int, dpi) as i32,
            h: device_of(WIN_H as int, dpi) as i32,
        },
        work_bottom as int,
    )
}

/// Where the panel's window rests, and the height from which it slides in.
pub fn initial_placement(work_left: i32, work_bottom: i32, dpi: u32) -> (at: (Placement, i32))
    ensures
        at.0 == resting_place(work_left, work_bottom, dpi).0,
        at.1 == resting_place(work_left, work_bottom, dpi).1,
{
    let inset = to_device(SCREEN_INSET, dpi) as i64;
    let h = to_device(WIN_H, dpi);
    (
        Placement {
            x: saturate(work_left as i64 + inset),
            y: saturate(work_bottom as i64 - h as i64 - inset),
            w: to_device(WIN_W, dpi),
            h,
        },
        work_bottom,
    )
}

} // verus!
