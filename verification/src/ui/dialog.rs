//! The confirmation dialog: a message and one button, shown in the middle
//! of the screen until the user acknowledges it.

use crate::config::DIALOG_BTN_H;
use crate::config::DIALOG_BTN_W;
use crate::config::DIALOG_H;
use crate::config::DIALOG_PADDING;
use crate::config::DIALOG_W;
use crate::config::REFERENCE_DPI;
use crate::ratio::clamp_i32;
use crate::ratio::trunc_div;
use crate::ui::Placement;
use crate::ui::effective_dpi;
use crate::ui::main_win::Key;
use crate::ui::resources::Action;
use crate::ui::resources::Surface;
use crate::ui::saturate;
use vstd::prelude::*;

verus! {

/// The state of the dialog.
#[derive(Debug, Clone, PartialEq, Eq)]
pub struct DialogState {
    pub title: String,
    pub message: String,
    /// Whether the dialog is still to be acknowledged.
    pub active: bool,
    /// Whether the pointer is on the button.
    pub hover_ok: bool,
    /// Whether the host was asked to tell when the pointer leaves.
    pub mouse_tracked: bool,
}

/// An event of the dialog's window.
#[derive(Debug, Clone, Copy, PartialEq, Eq, Structural)]
pub enum DialogEvent {
    Created,
    /// The pointer moved to the device point (`x`, `y`) of the client area.
    PointerMoved { x: i32, y: i32 },
    PointerLeft,
    ButtonDown,
    KeyDown { key: Key },
    CloseRequested,
}

/// Whether the device point (`x`, `y`) of a client area of `cw` by `ch`
/// device pixels is on the button, which sits in the lower right corner,
/// a padding away from the edges. The button's own edges count as on it.
pub open spec fn on_button(x: int, y: int, cw: int, ch: int, dpi: u32) -> bool {
    let d = effective_dpi(dpi);
    let r = REFERENCE_DPI as int;
    &&& x * r >= cw * r - (DIALOG_PADDING + DIALOG_BTN_W) * d
    &&& x * r <= cw * r - DIALOG_PADDING * d
    &&& y * r >= ch * r - (DIALOG_PADDING + DIALOG_BTN_H) * d
    &&& y * r <= ch * r - DIALOG_PADDING * d
}

/// Where the dialog goes on a screen of the given size: in the middle.
pub open spec fn centered(screen_w: i32, screen_h: i32) -> Placement {
    Placement {
        x: clamp_i32(trunc_div(screen_w - DIALOG_W, 2)) as i32,
        y: clamp_i32(trunc_div(screen_h - DIALOG_H, 2)) as i32,
        w: DIALOG_W,
        h: DIALOG_H,
    }
}

/// Whether the device point of the client area is on the button. The rest
/// of the dialog drags its window.
pub fn dialog_hit_test(x: i32, y: i32, cw: i32, ch: i32, dpi: u32) -> (on: bool)
    ensures
        on == on_button(x as int, y as int, cw as int, ch as int, dpi),
{
    let d: i64 = if dpi == 0 {
        REFERENCE_DPI as i64
    } else {
        dpi as i64
    };
    let r = REFERENCE_DPI as i64;
    assert(-0x8000_0000 * 96 <= x * 96 <= 0x8000_0000 * 96);
    assert(-0x8000_0000 * 96 <= y * 96 <= 0x8000_0000 * 96);
    assert(-0x8000_0000 * 96 <= cw * 96 <= 0x8000_0000 * 96);
    assert(-0x8000_0000 * 96 <= ch * 96 <= 0x8000_0000 * 96);
    let pad: i64 = 22 * d;
    let far_x: i64 = 182 * d;
    let far_y: i64 = 58 * d;
    assert(pad == DIALOG_PADDING * d && far_x == (DIALOG_PADDING + DIALOG_BTN_W) * d && far_y == (
    DIALOG_PADDING + DIALOG_BTN_H) * d) by (nonlinear_arith)
        requires
            pad == 22 * d,
            far_x == 182 * d,
            far_y == 58 * d,
            DIALOG_PADDING == 22,
            DIALOG_BTN_W == 160,
            DIALOG_BTN_H == 36,
    ;
    let px = x as i64 * r;
    let py = y as i64 * r;
    let w = cw as i64 * r;
    let h = ch as i64 * r;
    px >= w - far_x && px <= w - pad && py >= h - far_y && py <= h - pad
}

/// Opens a dialog with the given title and message on a screen of the given
/// size. The host creates the window at the placement and runs its own
/// message loop until the dialog stops being active.
pub fn show_fluent_dialog(title: &str, message: &str, screen_w: i32, screen_h: i32) -> (opened: (
    DialogState,
    Placement,
))
    ensures
        opened.0.title@ == title@,
        opened.0.message@ == message@,
        opened.0.active,
        !opened.0.hover_ok,
        !opened.0.mouse_tracked,
        opened.1 == centered(screen_w, screen_h),
{
    (
        DialogState {
            title: title.to_owned(),
            message: message.to_owned(),
            active: true,
            hover_ok: false,
            mouse_tracked: false,
        },
        Placement {
            x: saturate((screen_w as i64 - DIALOG_W as i64) / 2),
            y: saturate((screen_h as i64 - DIALOG_H as i64) / 2),
            w: DIALOG_W,
            h: DIALOG_H,
        },
    )
}

/// Whether the event acknowledges the dialog: a press on the button, Return
/// or Escape, or a request to close.
pub open spec fn acknowledges(pre: DialogState, event: DialogEvent) -> bool {
    match event {
        DialogEvent::ButtonDown => pre.hover_ok,
        DialogEvent::KeyDown { key } => key == Key::Return || key == Key::Escape,
        DialogEvent::CloseRequested => true,
        _ => false,
    }
}

/// What an event of the dialog does to its state and asks of the host.
pub open spec fn dialog_event_handled(
    pre: DialogState,
    post: DialogState,
    actions: Seq<Action>,
    event: DialogEvent,
    cw: i32,
    ch: i32,
    dpi: u32,
) -> bool {
    match event {
        DialogEvent::Created => post == pre && actions == seq![
            Action::ApplyBackdrop(Surface::Dialog),
        ],
        DialogEvent::PointerMoved { x, y } => {
            let inside = on_button(x as int, y as int, cw as int, ch as int, dpi);
            &&& post == (DialogState { hover_ok: inside, mouse_tracked: true, ..pre })
            &&& actions == (if pre.mouse_tracked {
                Seq::empty()
            } else {
                seq![Action::TrackPointerLeave(Surface::Dialog)]
            }) + (if inside != pre.hover_ok {
                seq![Action::Repaint(Surface::Dialog)]
            } else {
                Seq::empty()
            })
        },
        DialogEvent::PointerLeft => {
            &&& post == (DialogState { hover_ok: false, mouse_tracked: false, ..pre })
            &&& actions == if pre.hover_ok {
                seq![Action::Repaint(Surface::Dialog)]
            } else {
                Seq::empty()
            }
        },
        _ => if acknowledges(pre, event) {
            post == (DialogState { active: false, ..pre }) && actions == seq![Action::CloseDialog]
        } else {
            post == pre && actions == Seq::<Action>::empty()
        },
    }
}

/// Handles an event of the dialog's window, whose client area is `cw` by
/// `ch` device pixels.
pub fn dialog_wndproc(state: &mut DialogState, event: DialogEvent, cw: i32, ch: i32, dpi: u32) -> (actions:
    Vec<Action>)
    ensures
        dialog_event_handled(*old(state), *final(state), actions@, event, cw, ch, dpi),
{
    let mut actions: Vec<Action> = Vec::new();
    let ghost pre = *state;
    match event {
        DialogEvent::Created => {
            actions.push(Action::ApplyBackdrop(Surface::Dialog));
            assert(actions@ =~= seq![Action::ApplyBackdrop(Surface::Dialog)]);
        },
        DialogEvent::PointerMoved { x, y } => {
            let inside = dialog_hit_test(x, y, cw, ch, dpi);
            if !state.mouse_tracked {
                state.mouse_tracked = true;
                actions.push(Action::TrackPointerLeave(Surface::Dialog));
            }
            if inside != state.hover_ok {
                state.hover_ok = inside;
                actions.push(Action::Repaint(Surface::Dialog));
            }
            assert(actions@ =~= (if pre.mouse_tracked {
                Seq::empty()
            } else {
                seq![Action::TrackPointerLeave(Surface::Dialog)]
            }) + (if inside != pre.hover_ok {
                seq![Action::Repaint(Surface::Dialog)]
            } else {
                Seq::empty()
            }));
        },
        DialogEvent::PointerLeft => {
            state.mouse_tracked = false;
            if state.hover_ok {
                state.hover_ok = false;
                actions.push(Action::Repaint(Surface::Dialog));
                assert(actions@ =~= seq![Action::Repaint(Surface::Dialog)]);
            } else {
                assert(actions@ =~= Seq::<Action>::empty());
            }
        },
        _ => {
            let ack = match event {
                DialogEvent::ButtonDown => state.hover_ok,
                DialogEvent::KeyDown { key } => key == Key::Return || key == Key::Escape,
                DialogEvent::CloseRequested => true,
                _ => false,
            };
            if ack {
                state.active = false;
                actions.push(Action::CloseDialog);
                assert(actions@ =~= seq![Action::CloseDialog]);
            } else {
                assert(actions@ =~= Seq::<Action>::empty());
            }
        },
    }
    actions
}

} // verus!
