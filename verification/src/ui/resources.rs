//! The session: everything the three surfaces share, owned in one place and
//! handed by reference through the event loop.
//!
//! The session decides and the host acts. Every handler takes what the host
//! observed, changes the session, and returns the actions for the host to
//! perform, in order.

use crate::animations::AnimType;
use crate::animations::AnimationState;
use crate::config::HoverId;
use crate::data::history::InputBridge;
use crate::ui::Placement;
use crate::ui::dropdown::DropdownState;
use crate::ui::tooltip::TooltipState;
use vstd::prelude::*;

verus! {

/// A surface: one of the three that make up the overlay, or the
/// confirmation dialog that stands alone.
#[derive(Debug, Clone, Copy, PartialEq, Eq, Structural)]
pub enum Surface {
    Main,
    Dropdown,
    Tooltip,
    Dialog,
}

/// The layer of a surface in the stack of windows; a higher layer lies
/// above a lower one. The dropdown lies above the main panel, the tooltip
/// above both, and the dialog, which stands alone, above them all.
pub open spec fn layer_of(surface: Surface) -> int {
    match surface {
        Surface::Main => 0,
        Surface::Dropdown => 1,
        Surface::Tooltip => 2,
        Surface::Dialog => 3,
    }
}

/// The layer that the host is to keep the surface's window on.
pub fn z_order(surface: Surface) -> (layer: u8)
    ensures
        layer == layer_of(surface),
        layer_of(Surface::Main) < layer_of(Surface::Dropdown) < layer_of(Surface::Tooltip),
{
    match surface {
        Surface::Main => 0,
        Surface::Dropdown => 1,
        Surface::Tooltip => 2,
        Surface::Dialog => 3,
    }
}

/// The kind of a pointer event that is handed on to the native input field.
#[derive(Debug, Clone, Copy, PartialEq, Eq, Structural)]
pub enum PointerKind {
    Move,
    Down,
    Up,
}

/// Something for the host to do.
#[derive(Debug, Clone, Copy, PartialEq, Eq, Structural)]
pub enum Action {
    /// Move the main panel's window, keeping its size.
    MoveMain { x: i32, y: i32 },
    ShowMain,
    HideMain,
    MinimizeMain,
    /// End the application.
    Quit,
    /// Ask for the surface to be painted again.
    Repaint(Surface),
    /// Show the dropdown's window at the placement, above the other windows.
    ShowDropdown(Placement),
    HideDropdown,
    /// Create and show the tooltip's window at the placement, above the
    /// other windows.
    OpenTooltip(Placement),
    /// Destroy the tooltip's window, and its dismissal timer with it.
    CloseTooltip,
    /// Arm the animation timer to tick at this interval; arming a running
    /// timer changes nothing.
    StartAnimationTimer { interval_ms: u32 },
    /// Arm the tooltip's own timer, which reports once this delay is over.
    StartDismissTimer { delay_ms: u32 },
    StopAnimationTimer,
    /// Give the native input field the keyboard focus.
    FocusInput,
    /// Write the session's input text into the native field, then report
    /// the end of the write to the session.
    WriteInput,
    /// Select the whole text of the native field.
    SelectAllInput,
    /// Hand a pointer event on to the native field, at a point of its own.
    ForwardPointer { kind: PointerKind, x: i32, y: i32 },
    CaptureMouse,
    ReleaseMouse,
    /// Keep the native field, which is never seen, off the screen and as
    /// wide as the panel.
    ParkInput { width: i32 },
    /// Write the history out.
    PersistHistory,
    /// Remove the history's file.
    DeleteHistoryFile,
    /// Launch the session's input text as a command.
    Launch { elevated: bool },
    /// Give the surface's window its blurred backdrop for the theme in force.
    ApplyBackdrop(Surface),
    /// Let go of the surface's cached brushes; the next paint makes new ones.
    DropBrushes(Surface),
    /// Ask to be told when the pointer leaves the surface.
    TrackPointerLeave(Surface),
    /// Destroy the confirmation dialog's window.
    CloseDialog,
    /// Register the global hotkey again.
    RegisterHotkeys,
    UnregisterHotkeys,
}

/// The state of the main panel.
#[derive(Debug, Clone, Copy, PartialEq, Eq, Structural)]
pub struct MainPanel {
    pub clock: AnimationState,
    /// Whether the exit under way ends the application rather than hiding
    /// the panel.
    pub kill_on_exit: bool,
    /// Where the panel's window rests, in device pixels.
    pub final_x: i32,
    pub final_y: i32,
    /// The height from which the panel slides in and to which it slides out.
    pub start_y: i32,
    pub hover: HoverId,
}

/// The whole state of the user interface.
#[derive(Debug, Clone, PartialEq, Eq)]
pub struct Session {
    pub main: MainPanel,
    pub dropdown: DropdownState,
    /// The tooltip on the screen, if there is one.
    pub tooltip: Option<TooltipState>,
    pub bridge: InputBridge,
    /// Whether the animation timer is armed.
    pub timer_armed: bool,
}

impl Session {
    /// Whether any surface is animating.
    pub open spec fn any_active(self) -> bool {
        ||| self.main.clock.is_active()
        ||| self.dropdown.clock.is_active()
        ||| (self.tooltip is Some && self.tooltip->0.clock.is_active())
    }

    /// Whether the parts of the session fit together: no animation runs
    /// without the timer, the history index points into its list, and the
    /// dropdown is scrolled within the history.
    pub open spec fn wf(self) -> bool {
        &&& self.any_active() ==> self.timer_armed
        &&& self.bridge.wf()
        &&& self.dropdown.wf(self.bridge.history@.len() as int)
    }

    /// A session at rest: the panel idle at its resting place, no dropdown,
    /// no tooltip, an empty input over the given history.
    pub fn new(history: Vec<String>, final_x: i32, final_y: i32, start_y: i32) -> (session: Session)
        ensures
            session.main == (MainPanel {
                clock: AnimationState { phase: AnimType::Idle, start_ms: 0, duration_ms: 0 },
                kill_on_exit: false,
                final_x,
                final_y,
                start_y,
                hover: HoverId::Nothing,
            }),
            session.dropdown == DropdownState::spec_closed(),
            session.tooltip is None,
            session.bridge.history == history,
            session.bridge.input@.len() == 0,
            session.bridge.filtered_history is None,
            session.bridge.prediction@.len() == 0,
            session.bridge.history_index is None,
            session.bridge.origin == crate::data::history::WriteOrigin::UserEdit,
            !session.timer_armed,
            !session.any_active(),
            session.wf(),
    {
        Session {
            main: MainPanel {
                clock: AnimationState::idle(),
                kill_on_exit: false,
                final_x,
                final_y,
                start_y,
                hover: HoverId::Nothing,
            },
            dropdown: DropdownState::closed(),
            tooltip: None,
            bridge: InputBridge::new(history),
            timer_armed: false,
        }
    }

    /// Whether any surface is animating.
    pub fn is_any_animation_active(&self) -> (active: bool)
        ensures
            active == self.any_active(),
    {
        let tip = match &self.tooltip {
            Some(t) => t.clock.active(),
            None => false,
        };
        self.main.clock.active() || self.dropdown.clock.active() || tip
    }

    /// The actions that close an open dropdown at once: none if it is not
    /// open.
    pub open spec fn dropdown_closing(self) -> Seq<Action> {
        if self.dropdown.visible {
            seq![Action::HideDropdown]
        } else {
            Seq::empty()
        }
    }

    /// The dropdown after it was closed at once, if it was open.
    pub open spec fn dropdown_closed(self) -> DropdownState {
        if self.dropdown.visible {
            DropdownState::spec_closed()
        } else {
            self.dropdown
        }
    }

    /// The actions that remove the tooltip at once: none if there is none.
    pub open spec fn tooltip_closing(self) -> Seq<Action> {
        if self.tooltip is Some {
            seq![Action::CloseTooltip]
        } else {
            Seq::empty()
        }
    }

    /// Closes the dropdown at once if it is open.
    pub fn close_dropdown(&mut self, actions: &mut Vec<Action>)
        ensures
            final(actions)@ == old(actions)@ + old(self).dropdown_closing(),
            final(self).dropdown == old(self).dropdown_closed(),
            !final(self).dropdown.visible,
            final(self).main == old(self).main,
            final(self).tooltip == old(self).tooltip,
            final(self).bridge == old(self).bridge,
            final(self).timer_armed == old(self).timer_armed,
    {
        if self.dropdown.visible {
            self.dropdown.close_now();
            actions.push(Action::HideDropdown);
        } else {
            assert(actions@ + Seq::<Action>::empty() =~= actions@);
        }
    }

    /// Removes the tooltip at once if there is one.
    pub fn close_tooltip(&mut self, actions: &mut Vec<Action>)
        ensures
            final(actions)@ == old(actions)@ + old(self).tooltip_closing(),
            final(self).tooltip is None,
            final(self).main == old(self).main,
            final(self).dropdown == old(self).dropdown,
            final(self).bridge == old(self).bridge,
            final(self).timer_armed == old(self).timer_armed,
    {
        if self.tooltip.is_some() {
            self.tooltip = None;
            actions.push(Action::CloseTooltip);
        } else {
            assert(actions@ + Seq::<Action>::empty() =~= actions@);
        }
    }
}

/// A size in device pixels.
#[derive(Debug, Clone, Copy, PartialEq, Eq, Structural)]
pub struct PixelSize {
    pub w: u32,
    pub h: u32,
}

/// What a surface holds of the drawing resources that are made on demand
/// and may be lost at any paint.
#[derive(Debug, Clone, Copy, PartialEq, Eq, Structural)]
pub struct SurfaceCache {
    /// The size in device pixels of the drawing target, if there is one.
    pub target: Option<PixelSize>,
    /// Whether the brushes exist. They belong to the target.
    pub brushes: bool,
    /// Whether the text formats exist. They outlive the target.
    pub fonts: bool,
}

/// The next thing to do before a surface can be painted.
#[derive(Debug, Clone, Copy, PartialEq, Eq, Structural)]
pub enum ResourceStep {
    /// Create the drawing target at this size, and report how it went.
    CreateTarget { w: u32, h: u32 },
    /// Resize the drawing target to this size, and report how it went.
    ResizeTarget { w: u32, h: u32 },
    /// Create the brushes, and the text formats if they are wanting.
    CreateBrushes,
    /// Everything is there: paint.
    Ready,
    /// Something is wanting that cannot be made now: leave this frame out;
    /// the next paint tries again.
    Skip,
}

/// The code by which the end of a frame says that the drawing target is
/// lost and must be made anew.
pub const RECREATE_TARGET: i32 = -2003238900;

impl SurfaceCache {
    /// Whether the surface can be painted.
    pub open spec fn ready(self) -> bool {
        self.target is Some && self.brushes && self.fonts
    }

    /// Whether the brushes, if any, have a target to belong to.
    pub open spec fn wf(self) -> bool {
        self.brushes ==> self.target is Some
    }

    /// The step before painting a window of `w` by `h` device pixels. A
    /// target is made only for a window of some size and only while the
    /// factory exists; a target of another size than the window is resized
    /// first; then the brushes are made.
    pub open spec fn step(self, factory_ready: bool, w: u32, h: u32) -> ResourceStep {
        match self.target {
            None => if factory_ready && w != 0 && h != 0 {
                ResourceStep::CreateTarget { w, h }
            } else {
                ResourceStep::Skip
            },
            Some(size) => if size != (PixelSize { w, h }) {
                ResourceStep::ResizeTarget { w, h }
            } else if self.brushes && self.fonts {
                ResourceStep::Ready
            } else {
                ResourceStep::CreateBrushes
            },
        }
    }

    /// A surface that holds nothing yet.
    pub fn empty() -> (cache: SurfaceCache)
        ensures
            cache == (SurfaceCache { target: None, brushes: false, fonts: false }),
            cache.wf(),
    {
        SurfaceCache { target: None, brushes: false, fonts: false }
    }

    /// The host tried to create the target at `w` by `h`.
    pub fn target_created(&mut self, ok: bool, w: u32, h: u32)
        ensures
            *final(self) == (SurfaceCache {
                target: if ok {
                    Some(PixelSize { w, h })
                } else {
                    old(self).target
                },
                ..*old(self)
            }),
    {
        if ok {
            self.target = Some(PixelSize { w, h });
        }
    }

    /// The host tried to resize the target to `w` by `h`. Either way the
    /// brushes are let go; a target that could not be resized goes too.
    pub fn target_resized(&mut self, ok: bool, w: u32, h: u32)
        ensures
            *final(self) == (SurfaceCache {
                target: if ok {
                    Some(PixelSize { w, h })
                } else {
                    None
                },
                brushes: false,
                ..*old(self)
            }),
            final(self).wf(),
    {
        self.target = if ok {
            Some(PixelSize { w, h })
        } else {
            None
        };
        self.brushes = false;
    }

    /// The host tried to create the brushes, and the text formats with them.
    pub fn brushes_created(&mut self, brushes_ok: bool, fonts_ok: bool)
        ensures
            *final(self) == (SurfaceCache {
                brushes: old(self).brushes || (brushes_ok && old(self).target is Some),
                fonts: old(self).fonts || fonts_ok,
                ..*old(self)
            }),
            old(self).wf() ==> final(self).wf(),
    {
        if brushes_ok && self.target.is_some() {
            self.brushes = true;
        }
        if fonts_ok {
            self.fonts = true;
        }
    }

    /// The theme or the surface's size changed: the brushes are stale.
    pub fn drop_brushes(&mut self)
        ensures
            *final(self) == (SurfaceCache { brushes: false, ..*old(self) }),
            final(self).wf(),
    {
        self.brushes = false;
    }

    /// The target proved unusable: it goes, and its brushes with it.
    pub fn discard_target(&mut self)
        ensures
            *final(self) == (SurfaceCache { target: None, brushes: false, ..*old(self) }),
            final(self).wf(),
    {
        self.target = None;
        self.brushes = false;
    }

    /// A frame ended with the code `hresult`. A lost target is let go with
    /// its brushes, to be made anew by the next paint. Returns whether that
    /// happened, and so whether the surface must be painted again.
    pub fn frame_ended(&mut self, hresult: i32) -> (lost: bool)
        ensures
            lost == (hresult == RECREATE_TARGET),
            lost ==> *final(self) == (SurfaceCache { target: None, brushes: false, ..*old(self) }),
            !lost ==> *final(self) == *old(self),
            old(self).wf() ==> final(self).wf(),
    {
        if hresult == RECREATE_TARGET {
            self.target = None;
            self.brushes = false;
            true
        } else {
            false
        }
    }
}

/// The step before painting the dropdown, whose window is `w` by `h` device
/// pixels.
pub fn ensure_dropdown_resources(cache: &SurfaceCache, factory_ready: bool, w: u32, h: u32) -> (step:
    ResourceStep)
    ensures
        step == cache.step(factory_ready, w, h),
        step == ResourceStep::Ready <==> cache.ready() && cache.target == Some(PixelSize { w, h }),
{
    match cache.target {
        None => if factory_ready && w != 0 && h != 0 {
            ResourceStep::CreateTarget { w, h }
        } else {
            ResourceStep::Skip
        },
        Some(size) => if size.w != w || size.h != h {
            ResourceStep::ResizeTarget { w, h }
        } else if cache.brushes && cache.fonts {
            ResourceStep::Ready
        } else {
            ResourceStep::CreateBrushes
        },
    }
}

/// The step before painting the main panel, whose window is `w` by `h`
/// device pixels.
pub fn ensure_resources(cache: &SurfaceCache, factory_ready: bool, w: u32, h: u32) -> (step:
    ResourceStep)
    ensures
        step == cache.step(factory_ready, w, h),
        step == ResourceStep::Ready <==> cache.ready() && cache.target == Some(PixelSize { w, h }),
{
    ensure_dropdown_resources(cache, factory_ready, w, h)
}

/// Whether the text formats are to be created now: they are wanting, and
/// the text factory exists.
pub fn ensure_fonts(cache: &SurfaceCache, text_factory_ready: bool) -> (create: bool)
    ensures
        create == (!cache.fonts && text_factory_ready),
{
    !cache.fonts && text_factory_ready
}

/// Following the steps leads to a surface that can be painted, as long as
/// the host succeeds: a created target is resized at most once, and the
/// brushes come last.
pub proof fn lemma_steps_lead_to_ready(cache: SurfaceCache, w: u32, h: u32)
    requires
        w != 0,
        h != 0,
    ensures
        ({
            let made = match cache.step(true, w, h) {
                ResourceStep::CreateTarget { w, h } => SurfaceCache {
                    target: Some(PixelSize { w, h }),
                    ..cache
                },
                ResourceStep::ResizeTarget { w, h } => SurfaceCache {
                    target: Some(PixelSize { w, h }),
                    brushes: false,
                    ..cache
                },
                _ => cache,
            };
            let filled = match made.step(true, w, h) {
                ResourceStep::CreateBrushes => SurfaceCache { brushes: true, fonts: true, ..made },
                _ => made,
            };
            filled.step(true, w, h) == ResourceStep::Ready
        }),
{
}

} // verus!
