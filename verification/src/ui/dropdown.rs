//! The history dropdown: which rows it shows, which one the pointer is on,
//! how it scrolls, and how it fades in and out.

use crate::animations::AnimType;
use crate::animations::AnimationState;
use crate::animations::cubic_ratio;
use crate::animations::ease_out_cubic;
use crate::config::ANIM_DROPDOWN_DURATION_MS;
use crate::config::ANIM_TIMER_MS;
use crate::config::DROPDOWN_GAP;
use crate::config::DROPDOWN_MAX_ITEMS;
use crate::config::INPUT_H;
use crate::config::INPUT_Y;
use crate::config::ITEM_H;
use crate::config::MARGIN;
use crate::config::SCROLLBAR_W;
use crate::ratio::Ratio;
use crate::ratio::clamp_i32;
use crate::ui::Placement;
use crate::ui::Rect;
use crate::ui::device_of;
use crate::ui::logical_of;
use crate::ui::resources::Action;
use crate::ui::resources::Session;
use crate::ui::resources::Surface;
use crate::ui::saturate;
use crate::ui::to_device;
use crate::ui::to_logical;
use vstd::prelude::*;

verus! {

/// The state of the dropdown.
#[derive(Debug, Clone, Copy, PartialEq, Eq, Structural)]
pub struct DropdownState {
    /// Whether the list is open for the user to pick from.
    pub visible: bool,
    /// The entry of the history that the first row shows.
    pub scroll_offset: usize,
    /// The row under the pointer, counted from the first row shown.
    pub hovered_index: Option<usize>,
    pub clock: AnimationState,
}

/// How the dropdown is drawn at one instant.
#[derive(Debug, Clone, Copy, PartialEq, Eq, Structural)]
pub struct DropdownVisual {
    /// The opacity, from 0 to 1.
    pub alpha: Ratio,
    /// The vertical shift, in logical units; negative is upward.
    pub y_offset: Ratio,
}

/// The scrollbar's thumb, as fractions of the track's height.
#[derive(Debug, Clone, Copy, PartialEq, Eq, Structural)]
pub struct Thumb {
    pub top: Ratio,
    pub height: Ratio,
}

/// One row of the dropdown as it is painted. Heights are in logical units
/// from the top of the list.
#[derive(Debug, Clone, Copy, PartialEq, Eq, Structural)]
pub struct RowFrame {
    /// The entry of the history whose text the row shows.
    pub entry: usize,
    pub top: i32,
    pub bottom: i32,
    /// Whether the row is lit by the pointer.
    pub lit: bool,
}

/// The scrollbar's thumb as it is painted: its upper and lower edge in
/// logical units from the top of the track.
#[derive(Debug, Clone, Copy, PartialEq, Eq, Structural)]
pub struct ThumbFrame {
    pub top: Ratio,
    pub bottom: Ratio,
}

/// What the dropdown shows in one frame.
#[derive(Debug, Clone, PartialEq, Eq)]
pub struct DropdownFrame {
    /// The rows, from the top.
    pub rows: Vec<RowFrame>,
    /// How much of the rows' right end is left to the scrollbar.
    pub scrollbar_w: i32,
    pub thumb: Option<ThumbFrame>,
    pub visual: DropdownVisual,
}

/// The furthest that a list of `len` entries scrolls.
pub open spec fn max_scroll(len: int) -> int {
    if len > DROPDOWN_MAX_ITEMS {
        len - DROPDOWN_MAX_ITEMS
    } else {
        0
    }
}

/// How many rows show of a list of `len` entries scrolled to `offset`.
pub open spec fn rows_shown(len: int, offset: int) -> int {
    if offset >= len {
        0
    } else if len - offset > DROPDOWN_MAX_ITEMS {
        DROPDOWN_MAX_ITEMS as int
    } else {
        len - offset
    }
}

/// The offset after one notch of the wheel: up (a positive `delta`) shows
/// one earlier entry, down one later, and neither leaves the list. A list
/// that fits without scrolling does not scroll.
pub open spec fn scrolled(offset: int, delta: int, len: int) -> int {
    if len <= DROPDOWN_MAX_ITEMS {
        offset
    } else if delta > 0 {
        if offset > 0 {
            offset - 1
        } else {
            offset
        }
    } else if offset < len - DROPDOWN_MAX_ITEMS {
        offset + 1
    } else {
        offset
    }
}

/// The row at logical height `y`, if it is one of the rows that can show.
/// Heights above the list count as the first row.
pub open spec fn row_at(y: int) -> Option<usize> {
    if y < ITEM_H {
        Some(0usize)
    } else if y / (ITEM_H as int) < DROPDOWN_MAX_ITEMS {
        Some((y / (ITEM_H as int)) as usize)
    } else {
        None
    }
}

/// The height of the scrollbar's track under a list of `len` entries: that of
/// the rows that show of an unscrolled list.
pub open spec fn track_height(len: int) -> int {
    rows_shown(len, 0) * ITEM_H
}

/// Row `r` of the dropdown as it is painted: it shows entry `scroll_offset +
/// r`, stands `r` rows down, and is lit if the pointer is on it.
pub open spec fn row_frame(state: DropdownState, r: int) -> RowFrame {
    RowFrame {
        entry: (state.scroll_offset + r) as usize,
        top: (r * ITEM_H) as i32,
        bottom: ((r + 1) * ITEM_H) as i32,
        lit: state.hovered_index == Some(r as usize),
    }
}

/// The rows that are painted over a list of `len` entries: as many as show,
/// from the top.
pub open spec fn painted_rows(state: DropdownState, len: int) -> Seq<RowFrame> {
    Seq::new(rows_shown(len, state.scroll_offset as int) as nat, |r: int| row_frame(state, r))
}

/// The thumb that is painted over a list of `len` entries scrolled to
/// `offset`. A list that fits has none. Else the thumb takes the share
/// `5 / len` of the track, begins the share `offset / len` down, and is drawn
/// two units short of that at either end.
pub open spec fn painted_thumb(len: int, offset: int) -> Option<ThumbFrame> {
    if len > DROPDOWN_MAX_ITEMS {
        Some(
            ThumbFrame {
                top: Ratio { num: (offset * track_height(len) + 2 * len) as i128, den: len as i128 },
                bottom: Ratio {
                    num: ((offset + DROPDOWN_MAX_ITEMS) * track_height(len) - 2 * len) as i128,
                    den: len as i128,
                },
            },
        )
    } else {
        None
    }
}

/// Where the dropdown goes below the input field of a panel at `window`.
pub open spec fn placement_of(window: Rect, dpi: u32, len: int) -> Placement {
    Placement {
        x: clamp_i32(window.left + device_of(MARGIN as int, dpi)) as i32,
        y: clamp_i32(
            window.top + device_of((INPUT_Y + INPUT_H) as int, dpi) + device_of(
                DROPDOWN_GAP as int,
                dpi,
            ),
        ) as i32,
        w: clamp_i32((window.right - window.left) - 2 * device_of(MARGIN as int, dpi)) as i32,
        h: device_of(rows_shown(len, 0) * ITEM_H, dpi) as i32,
    }
}

impl DropdownState {
    /// Whether the scroll offset and the hovered row fit a list of `len`.
    pub open spec fn wf(self, len: int) -> bool {
        &&& self.scroll_offset <= max_scroll(len)
        &&& match self.hovered_index {
            Some(i) => i < DROPDOWN_MAX_ITEMS,
            None => true,
        }
    }

    /// The entry of the history that the pointer is on, if it is on one.
    pub open spec fn hovered_entry(self, len: int) -> Option<usize> {
        match self.hovered_index {
            Some(i) => if self.scroll_offset + i < len {
                Some((self.scroll_offset + i) as usize)
            } else {
                None
            },
            None => None,
        }
    }

    /// The dropdown as it is before it was ever opened.
    pub open spec fn spec_closed() -> DropdownState {
        DropdownState {
            visible: false,
            scroll_offset: 0,
            hovered_index: None,
            clock: AnimationState { phase: AnimType::Idle, start_ms: 0, duration_ms: 0 },
        }
    }

    /// A closed dropdown.
    pub fn closed() -> (state: DropdownState)
        ensures
            state == Self::spec_closed(),
    {
        DropdownState {
            visible: false,
            scroll_offset: 0,
            hovered_index: None,
            clock: AnimationState::idle(),
        }
    }

    /// Opens the list at its top, with the pointer on the first row, and
    /// starts the entrance.
    pub fn open(&mut self, now_ms: u64)
        ensures
            *final(self) == (DropdownState {
                visible: true,
                scroll_offset: 0,
                hovered_index: Some(0usize),
                clock: AnimationState {
                    phase: AnimType::Entering,
                    start_ms: now_ms,
                    duration_ms: ANIM_DROPDOWN_DURATION_MS,
                },
            }),
    {
        self.visible = true;
        self.scroll_offset = 0;
        self.hovered_index = Some(0);
        self.clock.start(AnimType::Entering, ANIM_DROPDOWN_DURATION_MS, now_ms);
    }

    /// Closes the list at once, without an exit animation.
    pub fn close_now(&mut self)
        ensures
            *final(self) == Self::spec_closed(),
    {
        *self = DropdownState::closed();
    }

    /// Picks the row under the pointer. Returns the entry of the history
    /// that it shows; if there is one, the list stops being open and its exit
    /// begins.
    pub fn select(&mut self, len: usize, now_ms: u64) -> (entry: Option<usize>)
        ensures
            entry == old(self).hovered_entry(len as int),
            entry is None ==> *final(self) == *old(self),
            entry is Some ==> *final(self) == (DropdownState {
                visible: false,
                clock: old(self).clock.started(
                    AnimType::Exiting,
                    ANIM_DROPDOWN_DURATION_MS,
                    now_ms,
                ),
                ..*old(self)
            }),
    {
        match self.hovered_index {
            Some(i) => {
                if i < len && self.scroll_offset < len - i {
                    self.visible = false;
                    self.clock.start(AnimType::Exiting, ANIM_DROPDOWN_DURATION_MS, now_ms);
                    Some(self.scroll_offset + i)
                } else {
                    None
                }
            },
            None => None,
        }
    }

    /// Turns the wheel by one notch over a list of `len` entries. Returns
    /// whether the list is long enough to scroll, and so must be drawn again.
    pub fn scroll(&mut self, delta: i16, len: usize) -> (redraw: bool)
        ensures
            redraw == (len > DROPDOWN_MAX_ITEMS),
            final(self).scroll_offset == scrolled(
                old(self).scroll_offset as int,
                delta as int,
                len as int,
            ),
            *final(self) == (DropdownState {
                scroll_offset: final(self).scroll_offset,
                ..*old(self)
            }),
            old(self).scroll_offset <= max_scroll(len as int) ==> final(self).scroll_offset
                <= max_scroll(len as int),
    {
        if len <= DROPDOWN_MAX_ITEMS {
            return false;
        }
        if delta > 0 {
            if self.scroll_offset > 0 {
                self.scroll_offset = self.scroll_offset - 1;
            }
        } else if self.scroll_offset < len - DROPDOWN_MAX_ITEMS {
            self.scroll_offset = self.scroll_offset + 1;
        }
        true
    }

    /// The pointer moved to device height `y_px` inside the dropdown.
    /// Returns whether another row is under it now.
    pub fn hover_at(&mut self, y_px: i32, dpi: u32) -> (changed: bool)
        ensures
            final(self).hovered_index == row_at(logical_of(y_px as int, dpi)),
            changed == (final(self).hovered_index != old(self).hovered_index),
            *final(self) == (DropdownState {
                hovered_index: final(self).hovered_index,
                ..*old(self)
            }),
    {
        let y = to_logical(y_px, dpi);
        let row: Option<usize> = if y < ITEM_H {
            Some(0)
        } else if y / ITEM_H < DROPDOWN_MAX_ITEMS as i32 {
            Some((y / ITEM_H) as usize)
        } else {
            None
        };
        let changed = match (row, self.hovered_index) {
            (Some(a), Some(b)) => a != b,
            (None, None) => false,
            _ => true,
        };
        self.hovered_index = row;
        changed
    }

    /// The pointer left the dropdown.
    pub fn hover_none(&mut self)
        ensures
            *final(self) == (DropdownState { hovered_index: None, ..*old(self) }),
    {
        self.hovered_index = None;
    }

    /// How many rows show of a list of `len` entries.
    pub fn visible_rows(&self, len: usize) -> (rows: usize)
        ensures
            rows == rows_shown(len as int, self.scroll_offset as int),
            rows <= DROPDOWN_MAX_ITEMS,
            self.scroll_offset + rows <= len || rows == 0,
    {
        if self.scroll_offset >= len {
            0
        } else if len - self.scroll_offset > DROPDOWN_MAX_ITEMS {
            DROPDOWN_MAX_ITEMS
        } else {
            len - self.scroll_offset
        }
    }

    /// How the dropdown is drawn at `now_ms`: it fades and slides in along
    /// the cubic curve, and out along the same curve reversed.
    pub fn visual(&self, now_ms: u64) -> (v: DropdownVisual)
        ensures
            v.alpha.wf() && v.alpha.in_unit(),
            v.y_offset.wf(),
            v.y_offset.den == v.alpha.den,
            ({
                let p = self.clock.progress_at(now_ms);
                let c = cubic_ratio(p.num(), p.den());
                match self.clock.phase {
                    AnimType::Idle => v.alpha == (Ratio { num: 1, den: 1 }) && v.y_offset == (Ratio {
                        num: 0,
                        den: 1,
                    }),
                    AnimType::Entering => v.alpha == c && v.y_offset.num == -10 * (c.den - c.num),
                    AnimType::Exiting => v.alpha.den == c.den && v.alpha.num == c.den - c.num
                        && v.y_offset.num == -5 * c.num,
                }
            }),
    {
        match self.clock.phase {
            AnimType::Idle => DropdownVisual {
                alpha: Ratio { num: 1, den: 1 },
                y_offset: Ratio { num: 0, den: 1 },
            },
            AnimType::Entering => {
                let c = ease_out_cubic(self.clock.progress(now_ms));
                DropdownVisual {
                    alpha: c,
                    y_offset: Ratio { num: -10 * (c.den - c.num), den: c.den },
                }
            },
            AnimType::Exiting => {
                let c = ease_out_cubic(self.clock.progress(now_ms));
                DropdownVisual {
                    alpha: Ratio { num: c.den - c.num, den: c.den },
                    y_offset: Ratio { num: -5 * c.num, den: c.den },
                }
            },
        }
    }

    /// The scrollbar's thumb over a list of `len` entries: as tall as the
    /// share of the list that shows, as far down as the share scrolled past.
    /// A list that fits has no scrollbar.
    pub fn thumb(&self, len: usize) -> (t: Option<Thumb>)
        ensures
            t is Some <==> len > DROPDOWN_MAX_ITEMS,
            t is Some ==> t->0 == (Thumb {
                top: Ratio { num: self.scroll_offset as i128, den: len as i128 },
                height: Ratio { num: DROPDOWN_MAX_ITEMS as i128, den: len as i128 },
            }),
    {
        if len > DROPDOWN_MAX_ITEMS {
            Some(
                Thumb {
                    top: Ratio { num: self.scroll_offset as i128, den: len as i128 },
                    height: Ratio { num: DROPDOWN_MAX_ITEMS as i128, den: len as i128 },
                },
            )
        } else {
            None
        }
    }
}

/// Where the dropdown goes: under the input field, as wide as the field, as
/// tall as the rows that a list of `len` entries shows.
pub fn dropdown_placement(window: Rect, dpi: u32, len: usize) -> (at: Placement)
    ensures
        at == placement_of(window, dpi, len as int),
{
    let margin = to_device(MARGIN, dpi) as i64;
    let rows: i32 = if len > DROPDOWN_MAX_ITEMS {
        DROPDOWN_MAX_ITEMS as i32
    } else {
        len as i32
    };
    Placement {
        x: saturate(window.left as i64 + margin),
        y: saturate(
            window.top as i64 + to_device(INPUT_Y + INPUT_H, dpi) as i64 + to_device(
                DROPDOWN_GAP,
                dpi,
            ) as i64,
        ),
        w: saturate((window.right as i64 - window.left as i64) - 2 * margin),
        h: to_device(rows * ITEM_H, dpi),
    }
}

/// A list scrolled within its range shows a full window of rows whenever it
/// is longer than the window, and the rows shown are entries of the list.
pub proof fn lemma_rows_fill_the_window(len: int, offset: int)
    requires
        0 <= offset <= max_scroll(len),
        len >= 0,
    ensures
        len >= DROPDOWN_MAX_ITEMS ==> rows_shown(len, offset) == DROPDOWN_MAX_ITEMS,
        len < DROPDOWN_MAX_ITEMS ==> rows_shown(len, offset) == len,
        offset + rows_shown(len, offset) <= len,
{
}

/// Scrolling keeps the offset within the list, whichever way the wheel turns.
pub proof fn lemma_scrolled_stays_in_range(offset: int, delta: int, len: int)
    requires
        0 <= offset <= max_scroll(len),
    ensures
        0 <= scrolled(offset, delta, len) <= max_scroll(len),
{
}

/// An event of the dropdown's window.
#[derive(Debug, Clone, Copy, PartialEq, Eq, Structural)]
pub enum DropdownEvent {
    Created,
    Resized,
    /// The window was shown or hidden.
    Shown { visible: bool },
    /// The system's theme or another setting changed.
    SettingsChanged,
    /// The button was pressed on the list.
    ButtonDown,
    /// The pointer moved to device height `y` of the list.
    PointerMoved { y: i32 },
    PointerLeft,
    /// The wheel turned; a positive `delta` is a turn upward.
    Wheel { delta: i16 },
}

/// What an event of the dropdown does to the session and asks of the host.
pub open spec fn dropdown_event_handled(
    pre: Session,
    post: Session,
    actions: Seq<Action>,
    event: DropdownEvent,
    dpi: u32,
    now_ms: u64,
) -> bool {
    let len = pre.bridge.history@.len() as int;
    match event {
        DropdownEvent::Created => post == pre && actions == seq![
            Action::ApplyBackdrop(Surface::Dropdown),
        ],
        DropdownEvent::Resized => post == pre && actions == seq![
            Action::DropBrushes(Surface::Dropdown),
            Action::Repaint(Surface::Dropdown),
        ],
        DropdownEvent::Shown { visible } => post == pre && actions == if visible {
            seq![Action::Repaint(Surface::Dropdown)]
        } else {
            Seq::empty()
        },
        DropdownEvent::SettingsChanged => post == pre && actions == seq![
            Action::ApplyBackdrop(Surface::Dropdown),
            Action::DropBrushes(Surface::Dropdown),
            Action::Repaint(Surface::Dropdown),
        ],
        DropdownEvent::ButtonDown => match pre.dropdown.hovered_entry(len) {
            None => post == pre && actions == Seq::<Action>::empty(),
            Some(entry) => {
                &&& actions == seq![
                    Action::WriteInput,
                    Action::StartAnimationTimer { interval_ms: ANIM_TIMER_MS },
                    Action::FocusInput,
                    Action::SelectAllInput,
                ]
                &&& post.dropdown == (DropdownState {
                    visible: false,
                    clock: pre.dropdown.clock.started(
                        AnimType::Exiting,
                        ANIM_DROPDOWN_DURATION_MS,
                        now_ms,
                    ),
                    ..pre.dropdown
                })
                &&& post.timer_armed
                &&& post.bridge.input@ == pre.bridge.entries()[entry as int]
                &&& post.bridge.history == pre.bridge.history
                &&& post.bridge.filtered_history == pre.bridge.filtered_history
                &&& post.bridge.prediction == pre.bridge.prediction
                &&& post.bridge.history_index == pre.bridge.history_index
                &&& post.bridge.origin == pre.bridge.origin
                &&& post.main == pre.main
                &&& post.tooltip == pre.tooltip
            },
        },
        DropdownEvent::PointerMoved { y } => {
            let row = row_at(logical_of(y as int, dpi));
            &&& post == (Session {
                dropdown: DropdownState { hovered_index: row, ..pre.dropdown },
                ..pre
            })
            &&& actions == (if row != pre.dropdown.hovered_index {
                seq![Action::Repaint(Surface::Dropdown)]
            } else {
                Seq::empty()
            }) + seq![Action::TrackPointerLeave(Surface::Dropdown)]
        },
        DropdownEvent::PointerLeft => {
            &&& post == (Session {
                dropdown: DropdownState { hovered_index: None, ..pre.dropdown },
                ..pre
            })
            &&& actions == seq![Action::Repaint(Surface::Dropdown)]
        },
        DropdownEvent::Wheel { delta } => {
            &&& post == (Session {
                dropdown: DropdownState {
                    scroll_offset: scrolled(
                        pre.dropdown.scroll_offset as int,
                        delta as int,
                        len,
                    ) as usize,
                    ..pre.dropdown
                },
                ..pre
            })
            &&& actions == if len > DROPDOWN_MAX_ITEMS {
                seq![Action::Repaint(Surface::Dropdown)]
            } else {
                Seq::empty()
            }
        },
    }
}

/// Handles an event of the dropdown's window. A press picks the row under
/// the pointer: its command becomes the input and the list begins to leave.
pub fn dropdown_wndproc(session: &mut Session, event: DropdownEvent, dpi: u32, now_ms: u64) -> (actions:
    Vec<Action>)
    ensures
        dropdown_event_handled(*old(session), *final(session), actions@, event, dpi, now_ms),
{
    let mut actions: Vec<Action> = Vec::new();
    let ghost pre = *session;
    match event {
        DropdownEvent::Created => {
            actions.push(Action::ApplyBackdrop(Surface::Dropdown));
        },
        DropdownEvent::Resized => {
            actions.push(Action::DropBrushes(Surface::Dropdown));
            actions.push(Action::Repaint(Surface::Dropdown));
        },
        DropdownEvent::Shown { visible } => {
            if visible {
                actions.push(Action::Repaint(Surface::Dropdown));
            }
        },
        DropdownEvent::SettingsChanged => {
            actions.push(Action::ApplyBackdrop(Surface::Dropdown));
            actions.push(Action::DropBrushes(Surface::Dropdown));
            actions.push(Action::Repaint(Surface::Dropdown));
        },
        DropdownEvent::ButtonDown => {
            match session.dropdown.select(session.bridge.history.len(), now_ms) {
                Some(entry) => {
                    let wrote = session.bridge.recall(entry);
                    assert(wrote);
                    session.timer_armed = true;
                    actions.push(Action::WriteInput);
                    actions.push(Action::StartAnimationTimer { interval_ms: ANIM_TIMER_MS });
                    actions.push(Action::FocusInput);
                    actions.push(Action::SelectAllInput);
                },
                None => {},
            }
        },
        DropdownEvent::PointerMoved { y } => {
            if session.dropdown.hover_at(y, dpi) {
                actions.push(Action::Repaint(Surface::Dropdown));
            }
            actions.push(Action::TrackPointerLeave(Surface::Dropdown));
        },
        DropdownEvent::PointerLeft => {
            session.dropdown.hover_none();
            actions.push(Action::Repaint(Surface::Dropdown));
        },
        DropdownEvent::Wheel { delta } => {
            if session.dropdown.scroll(delta, session.bridge.history.len()) {
                actions.push(Action::Repaint(Surface::Dropdown));
            }
        },
    }
    proof {
        let len = pre.bridge.history@.len() as int;
        match event {
            DropdownEvent::PointerMoved { y } => {
                let row = row_at(logical_of(y as int, dpi));
                assert(actions@ =~= (if row != pre.dropdown.hovered_index {
                    seq![Action::Repaint(Surface::Dropdown)]
                } else {
                    Seq::empty()
                }) + seq![Action::TrackPointerLeave(Surface::Dropdown)]);
            },
            DropdownEvent::ButtonDown => {
                if pre.dropdown.hovered_entry(len) is Some {
                    assert(actions@ =~= seq![
                        Action::WriteInput,
                        Action::StartAnimationTimer { interval_ms: ANIM_TIMER_MS },
                        Action::FocusInput,
                        Action::SelectAllInput,
                    ]);
                } else {
                    assert(actions@ =~= Seq::<Action>::empty());
                }
            },
            DropdownEvent::Wheel { delta } => {
                if len > DROPDOWN_MAX_ITEMS {
                    assert(actions@ =~= seq![Action::Repaint(Surface::Dropdown)]);
                } else {
                    assert(actions@ =~= Seq::<Action>::empty());
                }
            },
            DropdownEvent::Shown { visible } => {
                if visible {
                    assert(actions@ =~= seq![Action::Repaint(Surface::Dropdown)]);
                } else {
                    assert(actions@ =~= Seq::<Action>::empty());
                }
            },
            DropdownEvent::Created => {
                assert(actions@ =~= seq![Action::ApplyBackdrop(Surface::Dropdown)]);
            },
            DropdownEvent::Resized => {
                assert(actions@ =~= seq![
                    Action::DropBrushes(Surface::Dropdown),
                    Action::Repaint(Surface::Dropdown),
                ]);
            },
            DropdownEvent::SettingsChanged => {
                assert(actions@ =~= seq![
                    Action::ApplyBackdrop(Surface::Dropdown),
                    Action::DropBrushes(Surface::Dropdown),
                    Action::Repaint(Surface::Dropdown),
                ]);
            },
            DropdownEvent::PointerLeft => {
                assert(actions@ =~= seq![Action::Repaint(Surface::Dropdown)]);
            },
        }
    }
    actions
}

/// What the dropdown shows in a frame at `now_ms`: the rows that show of the
/// history from the scroll offset on, the row under the pointer lit, room
/// for the scrollbar and its thumb if the history is longer than the rows,
/// and the fade and slide of the animation. Painting reads the session and
/// changes nothing.
pub fn paint(session: &Session, now_ms: u64) -> (frame: DropdownFrame)
    ensures
        frame.rows@ == painted_rows(session.dropdown, session.bridge.history@.len() as int),
        frame.scrollbar_w == if session.bridge.history@.len() > DROPDOWN_MAX_ITEMS {
            SCROLLBAR_W
        } else {
            0
        },
        frame.thumb == painted_thumb(
            session.bridge.history@.len() as int,
            session.dropdown.scroll_offset as int,
        ),
        frame.visual.alpha.wf() && frame.visual.alpha.in_unit(),
        frame.visual.y_offset.wf(),
        frame.visual.y_offset.den == frame.visual.alpha.den,
        ({
            let p = session.dropdown.clock.progress_at(now_ms);
            let c = cubic_ratio(p.num(), p.den());
            let v = frame.visual;
            match session.dropdown.clock.phase {
                AnimType::Idle => v.alpha == (Ratio { num: 1, den: 1 }) && v.y_offset == (Ratio {
                    num: 0,
                    den: 1,
                }),
                AnimType::Entering => v.alpha == c && v.y_offset.num == -10 * (c.den - c.num),
                AnimType::Exiting => v.alpha.den == c.den && v.alpha.num == c.den - c.num
                    && v.y_offset.num == -5 * c.num,
            }
        }),
{
    let state = session.dropdown;
    let len = session.bridge.history.len();
    let count = state.visible_rows(len);
    let mut rows: Vec<RowFrame> = Vec::new();
    let mut r: usize = 0;
    while r < count
        invariant
            count == rows_shown(len as int, state.scroll_offset as int),
            count <= DROPDOWN_MAX_ITEMS,
            state.scroll_offset + count <= len || count == 0,
            r <= count,
            rows@.len() == r,
            forall|i: int| 0 <= i < r ==> rows@[i] == row_frame(state, i),
        decreases count - r,
    {
        let top: i32 = r as i32 * ITEM_H;
        rows.push(
            RowFrame {
                entry: state.scroll_offset + r,
                top,
                bottom: top + ITEM_H,
                lit: match state.hovered_index {
                    Some(h) => h == r,
                    None => false,
                },
            },
        );
        r = r + 1;
    }
    proof {
        assert(rows@ =~= painted_rows(state, len as int));
    }
    let thumb = if len > DROPDOWN_MAX_ITEMS {
        let n: i128 = len as i128;
        let k: i128 = state.scroll_offset as i128;
        let track: i128 = DROPDOWN_MAX_ITEMS as i128 * ITEM_H as i128;
        Some(
            ThumbFrame {
                top: Ratio { num: k * track + 2 * n, den: n },
                bottom: Ratio { num: (k + DROPDOWN_MAX_ITEMS as i128) * track - 2 * n, den: n },
            },
        )
    } else {
        None
    };
    DropdownFrame {
        rows,
        scrollbar_w: if len > DROPDOWN_MAX_ITEMS {
            SCROLLBAR_W
        } else {
            0
        },
        thumb,
        visual: state.visual(now_ms),
    }
}

/// The rows that are painted are a window of the history: over a list
/// scrolled within its range there are as many rows as fit, at most five, row
/// `r` shows entry `scroll_offset + r`, which the history holds, the rows
/// stand one under the other, and no entry before the offset or past the last
/// row is shown.
pub proof fn lemma_painted_rows_are_a_window(state: DropdownState, len: int)
    requires
        0 <= len <= usize::MAX,
        state.scroll_offset <= max_scroll(len),
    ensures
        painted_rows(state, len).len() == if len < DROPDOWN_MAX_ITEMS {
            len
        } else {
            DROPDOWN_MAX_ITEMS as int
        },
        forall|r: int|
            0 <= r < painted_rows(state, len).len() ==> {
                let row = #[trigger] painted_rows(state, len)[r];
                &&& row.entry == state.scroll_offset + r
                &&& row.entry < len
                &&& row.top == r * ITEM_H
                &&& row.bottom == row.top + ITEM_H
                &&& (row.lit <==> state.hovered_index == Some(r as usize))
            },
{
    assert forall|r: int| 0 <= r < painted_rows(state, len).len() implies {
        let row = #[trigger] painted_rows(state, len)[r];
        &&& row.entry == state.scroll_offset + r
        &&& row.entry < len
        &&& row.top == r * ITEM_H
        &&& row.bottom == row.top + ITEM_H
        &&& (row.lit <==> state.hovered_index == Some(r as usize))
    } by {
        assert(painted_rows(state, len)[r] == row_frame(state, r));
        assert(0 <= r < DROPDOWN_MAX_ITEMS);
        assert(state.scroll_offset + r < len);
    }
}

/// The thumb stays on its track: over a list longer than the rows and
/// scrolled within its range, the thumb begins at `H * offset / len + 2` and
/// ends at `H * (offset + 5) / len - 2`, where `H` is the track's height, so
/// that neither edge leaves the track and the thumb is `H * 5 / len - 4`
/// tall. That height is positive for every history within its cap; only a
/// list of more than 162 entries would leave no thumb to draw.
pub proof fn lemma_thumb_stays_on_its_track(len: int, offset: int)
    requires
        len > DROPDOWN_MAX_ITEMS,
        len <= usize::MAX,
        0 <= offset <= max_scroll(len),
    ensures
        painted_thumb(len, offset) is Some,
        track_height(len) == DROPDOWN_MAX_ITEMS * ITEM_H,
        ({
            let t = painted_thumb(len, offset)->0;
            let h = track_height(len);
            &&& t.top.den == len && t.bottom.den == len
            &&& t.top.num == offset * h + 2 * len
            &&& t.bottom.num == (offset + DROPDOWN_MAX_ITEMS) * h - 2 * len
            &&& 0 <= t.top.num
            &&& t.bottom.num <= h * len
            &&& t.bottom.num - t.top.num == DROPDOWN_MAX_ITEMS * h - 4 * len
            &&& (t.top.num <= t.bottom.num <==> 4 * len <= DROPDOWN_MAX_ITEMS * h)
            &&& len <= crate::data::history::HISTORY_CAP ==> t.top.num < t.bottom.num
        }),
{
    let h = track_height(len);
    assert(h == 130);
    assert(usize::MAX <= 0xffff_ffff_ffff_ffff);
    assert(0 <= len * h <= 0xffff_ffff_ffff_ffff * 130) by (nonlinear_arith)
        requires
            0 <= len <= 0xffff_ffff_ffff_ffff,
            h == 130,
    ;
    assert(offset * h >= 0) by (nonlinear_arith)
        requires
            offset >= 0,
            h == 130,
    ;
    assert((offset + DROPDOWN_MAX_ITEMS) * h <= len * h) by (nonlinear_arith)
        requires
            offset + DROPDOWN_MAX_ITEMS <= len,
            h == 130,
    ;
    assert(len * h == h * len) by (nonlinear_arith);
    assert((offset + DROPDOWN_MAX_ITEMS) * h == offset * h + DROPDOWN_MAX_ITEMS * h)
        by (nonlinear_arith);
    assert(offset * h <= len * h) by (nonlinear_arith)
        requires
            offset <= len,
            h == 130,
    ;
    assert(0 <= offset * h + 2 * len <= 0xffff_ffff_ffff_ffff * 132);
    assert(-0xffff_ffff_ffff_ffff * 2 <= (offset + DROPDOWN_MAX_ITEMS) * h - 2 * len
        <= 0xffff_ffff_ffff_ffff * 130);
}

} // verus!
