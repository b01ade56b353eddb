//! The tooltip: a short notice above the input field that leaves by itself.

use crate::animations::AnimType;
use crate::animations::AnimationState;
use crate::animations::back_ratio;
use crate::animations::ease_out_back;
use crate::config::ANIM_TIMER_MS;
use crate::config::ANIM_TOOLTIP_DURATION_MS;
use crate::config::INPUT_Y;
use crate::config::MARGIN;
use crate::config::TOOLTIP_DISMISS_MS;
use crate::config::TOOLTIP_GAP;
use crate::config::TOOLTIP_H;
use crate::config::TOOLTIP_W;
use crate::ratio::Ratio;
use crate::ratio::clamp_i32;
use crate::ui::Placement;
use crate::ui::device_of;
use crate::ui::resources::Action;
use crate::ui::resources::Session;
use crate::ui::resources::Surface;
use crate::ui::saturate;
use crate::ui::to_device;
use vstd::prelude::*;

verus! {

/// A tooltip on the screen.
#[derive(Debug, Clone, PartialEq, Eq)]
pub struct TooltipState {
    pub title: String,
    pub message: String,
    pub clock: AnimationState,
}

/// How the tooltip is drawn at one instant.
#[derive(Debug, Clone, Copy, PartialEq, Eq, Structural)]
pub struct TooltipVisual {
    /// The opacity, from 0 to 1.
    pub alpha: Ratio,
    /// The magnification about the bubble's centre.
    pub scale: Ratio,
    /// The vertical shift, in logical units; negative is upward.
    pub y_offset: Ratio,
}

/// Where a tooltip goes above the input field of a panel whose window has
/// its corner at (`left`, `top`).
pub open spec fn placement_of(left: i32, top: i32, dpi: u32) -> Placement {
    Placement {
        x: clamp_i32(left + device_of(MARGIN as int, dpi)) as i32,
        y: clamp_i32(
            top + device_of(INPUT_Y as int, dpi) - device_of(TOOLTIP_H as int, dpi) - device_of(
                TOOLTIP_GAP as int,
                dpi,
            ),
        ) as i32,
        w: device_of(TOOLTIP_W as int, dpi) as i32,
        h: device_of(TOOLTIP_H as int, dpi) as i32,
    }
}

/// The notice that a command could not be found.
pub open spec fn not_found_text(cmd: Seq<char>) -> Seq<char> {
    "SwiftRun cannot find '"@ + cmd
        + "'. Make sure you typed the name correctly, and then try again."@
}

impl TooltipState {
    /// A tooltip that begins its entrance at `now_ms`.
    pub fn new(title: &str, message: &str, now_ms: u64) -> (tip: TooltipState)
        ensures
            tip.title@ == title@,
            tip.message@ == message@,
            tip.clock == (AnimationState {
                phase: AnimType::Entering,
                start_ms: now_ms,
                duration_ms: ANIM_TOOLTIP_DURATION_MS,
            }),
    {
        TooltipState {
            title: title.to_owned(),
            message: message.to_owned(),
            clock: AnimationState {
                phase: AnimType::Entering,
                start_ms: now_ms,
                duration_ms: ANIM_TOOLTIP_DURATION_MS,
            },
        }
    }

    /// Begins the exit, after the delay ran out or on a click. An exit that
    /// is under way goes on undisturbed.
    pub fn dismiss(&mut self, now_ms: u64)
        ensures
            final(self).clock == old(self).clock.started(
                AnimType::Exiting,
                ANIM_TOOLTIP_DURATION_MS,
                now_ms,
            ),
            final(self).clock.phase == AnimType::Exiting,
            final(self).title == old(self).title,
            final(self).message == old(self).message,
    {
        self.clock.start(AnimType::Exiting, ANIM_TOOLTIP_DURATION_MS, now_ms);
    }

    /// How the tooltip is drawn at `now_ms`. It pops in along the back curve,
    /// growing from four fifths of its size while its opacity follows the
    /// plain progress, and it leaves in a straight line, shrinking by a tenth.
    pub fn visual(&self, now_ms: u64) -> (v: TooltipVisual)
        ensures
            v.alpha.wf() && v.alpha.in_unit(),
            v.scale.wf(),
            v.y_offset.wf(),
            ({
                let p = self.clock.progress_at(now_ms);
                let e = back_ratio(p.num(), p.den());
                match self.clock.phase {
                    AnimType::Idle => {
                        &&& v.alpha == (Ratio { num: 1, den: 1 })
                        &&& v.scale == (Ratio { num: 1, den: 1 })
                        &&& v.y_offset == (Ratio { num: 0, den: 1 })
                    },
                    AnimType::Entering => {
                        &&& v.alpha == p.ratio()
                        &&& v.scale.num == 4 * e.den + e.num
                        &&& v.scale.den == 5 * e.den
                        &&& v.y_offset.num == 5 * (e.den - e.num)
                        &&& v.y_offset.den == e.den
                    },
                    AnimType::Exiting => {
                        &&& v.alpha.num == p.den() - p.num()
                        &&& v.alpha.den == p.den()
                        &&& v.scale.num == 10 * p.den() - p.num()
                        &&& v.scale.den == 10 * p.den()
                        &&& v.y_offset.num == -5 * p.num()
                        &&& v.y_offset.den == p.den()
                    },
                }
            }),
    {
        match self.clock.phase {
            AnimType::Idle => TooltipVisual {
                alpha: Ratio { num: 1, den: 1 },
                scale: Ratio { num: 1, den: 1 },
                y_offset: Ratio { num: 0, den: 1 },
            },
            AnimType::Entering => {
                let p = self.clock.progress(now_ms);
                let e = ease_out_back(p);
                TooltipVisual {
                    alpha: p.fraction(),
                    scale: Ratio { num: 4 * e.den + e.num, den: 5 * e.den },
                    y_offset: Ratio { num: 5 * (e.den - e.num), den: e.den },
                }
            },
            AnimType::Exiting => {
                let f = self.clock.progress(now_ms).fraction();
                TooltipVisual {
                    alpha: Ratio { num: f.den - f.num, den: f.den },
                    scale: Ratio { num: 10 * f.den - f.num, den: 10 * f.den },
                    y_offset: Ratio { num: -5 * f.num, den: f.den },
                }
            },
        }
    }
}

/// Where a tooltip goes: above the input field, flush with its left edge.
pub fn tooltip_placement(left: i32, top: i32, dpi: u32) -> (at: Placement)
    ensures
        at == placement_of(left, top, dpi),
{
    let h = to_device(TOOLTIP_H, dpi);
    Placement {
        x: saturate(left as i64 + to_device(MARGIN, dpi) as i64),
        y: saturate(
            top as i64 + to_device(INPUT_Y, dpi) as i64 - h as i64 - to_device(TOOLTIP_GAP, dpi) as i64,
        ),
        w: to_device(TOOLTIP_W, dpi),
        h,
    }
}

/// The notice that the command `cmd` could not be found.
pub fn not_found_message(cmd: &str) -> (text: String)
    ensures
        text@ == not_found_text(cmd@),
{
    let head = String::from_str("SwiftRun cannot find '");
    head.concat(cmd).concat("'. Make sure you typed the name correctly, and then try again.")
}

/// The actions of showing a tooltip: a tooltip already on the screen is
/// removed, the new one is placed above the input field of the panel at
/// (`left`, `top`), the delay after which it leaves by itself begins, the
/// animation timer is armed, and the keyboard stays with the input field.
pub open spec fn tooltip_actions(pre: Session, left: i32, top: i32, dpi: u32) -> Seq<Action> {
    pre.tooltip_closing() + seq![
        Action::OpenTooltip(placement_of(left, top, dpi)),
        Action::StartDismissTimer { delay_ms: TOOLTIP_DISMISS_MS },
        Action::StartAnimationTimer { interval_ms: ANIM_TIMER_MS },
        Action::FocusInput,
        Action::SelectAllInput,
        Action::Repaint(Surface::Tooltip),
    ]
}

/// The session after a tooltip was shown: it holds the new tooltip at the
/// start of its entrance, and the timer is armed.
pub open spec fn tooltip_shown(
    pre: Session,
    post: Session,
    title: Seq<char>,
    message: Seq<char>,
    now_ms: u64,
) -> bool {
    &&& post.tooltip is Some
    &&& post.tooltip->0.title@ == title
    &&& post.tooltip->0.message@ == message
    &&& post.tooltip->0.clock == (AnimationState {
        phase: AnimType::Entering,
        start_ms: now_ms,
        duration_ms: ANIM_TOOLTIP_DURATION_MS,
    })
    &&& post.timer_armed
    &&& post.main == pre.main
    &&& post.dropdown == pre.dropdown
    &&& post.bridge == pre.bridge
}

/// Shows a tooltip with the given title and message above the input field;
/// it will leave by itself after its delay.
pub fn show_tooltip(
    session: &mut Session,
    title: &str,
    message: &str,
    left: i32,
    top: i32,
    dpi: u32,
    now_ms: u64,
) -> (actions: Vec<Action>)
    ensures
        actions@ == tooltip_actions(*old(session), left, top, dpi),
        tooltip_shown(*old(session), *final(session), title@, message@, now_ms),
{
    let mut actions: Vec<Action> = Vec::new();
    session.close_tooltip(&mut actions);
    session.tooltip = Some(TooltipState::new(title, message, now_ms));
    session.timer_armed = true;
    actions.push(Action::OpenTooltip(tooltip_placement(left, top, dpi)));
    actions.push(Action::StartDismissTimer { delay_ms: TOOLTIP_DISMISS_MS });
    actions.push(Action::StartAnimationTimer { interval_ms: ANIM_TIMER_MS });
    actions.push(Action::FocusInput);
    actions.push(Action::SelectAllInput);
    actions.push(Action::Repaint(Surface::Tooltip));
    proof {
        assert(actions@ =~= tooltip_actions(*old(session), left, top, dpi));
    }
    actions
}

/// What the end of the tooltip's delay, or a click on the tooltip, does:
/// its exit begins, unless it is under way already, and the timer is armed.
/// Without a tooltip nothing happens.
pub open spec fn tooltip_dismissed(pre: Session, post: Session, actions: Seq<Action>, now_ms: u64) -> bool {
    match pre.tooltip {
        None => post == pre && actions == Seq::<Action>::empty(),
        Some(t) => {
            &&& post.tooltip is Some
            &&& post.tooltip->0.clock == t.clock.started(
                AnimType::Exiting,
                ANIM_TOOLTIP_DURATION_MS,
                now_ms,
            )
            &&& post.tooltip->0.title == t.title
            &&& post.tooltip->0.message == t.message
            &&& post.timer_armed
            &&& post.main == pre.main
            &&& post.dropdown == pre.dropdown
            &&& post.bridge == pre.bridge
            &&& actions == seq![Action::StartAnimationTimer { interval_ms: ANIM_TIMER_MS }]
        },
    }
}

/// An event of the tooltip's window.
#[derive(Debug, Clone, Copy, PartialEq, Eq, Structural)]
pub enum TooltipEvent {
    /// The dismissal delay ran out.
    DismissTimer,
    /// The user clicked the tooltip.
    Clicked,
    /// The window was destroyed.
    Destroyed,
}

/// Handles an event of the tooltip's window. The delay and a click both begin
/// the exit; a click before the delay runs out begins it at once.
pub fn tooltip_wndproc(session: &mut Session, event: TooltipEvent, now_ms: u64) -> (actions: Vec<
    Action,
>)
    ensures
        event != TooltipEvent::Destroyed ==> tooltip_dismissed(
            *old(session),
            *final(session),
            actions@,
            now_ms,
        ),
        event == TooltipEvent::Destroyed ==> *final(session) == *old(session) && actions@
            == Seq::<Action>::empty(),
{
    let mut actions: Vec<Action> = Vec::new();
    match event {
        TooltipEvent::Destroyed => {},
        _ => {
            let mut armed = false;
            match &mut session.tooltip {
                Some(t) => {
                    t.dismiss(now_ms);
                    armed = true;
                },
                None => {},
            }
            if armed {
                session.timer_armed = true;
                actions.push(Action::StartAnimationTimer { interval_ms: ANIM_TIMER_MS });
            }
        },
    }
    actions
}

} // verus!
