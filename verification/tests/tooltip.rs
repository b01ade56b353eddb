use swift_run::animations::{AnimType, AnimationState};
use swift_run::ratio::Ratio;
use swift_run::ui::main_win::update_animations;
use swift_run::ui::resources::{Action, Session, Surface};
use swift_run::ui::tooltip::{
    not_found_message, show_tooltip, tooltip_placement, tooltip_wndproc, TooltipEvent,
    TooltipState,
};
use swift_run::ui::Placement;
use swift_run::config::TOOLTIP_DISMISS_MS;

fn session() -> Session {
    Session::new(Vec::new(), 18, 872, 1040)
}

#[test]
fn the_tooltip_leaves_by_itself_after_eight_seconds() {
    let mut s = session();
    let actions = show_tooltip(&mut s, "No Command History Found", "Run a command first.", 18, 872, 96, 1000);
    assert_eq!(
        actions,
        vec![
            Action::OpenTooltip(Placement { x: 34, y: 815, w: 400, h: 100 }),
            Action::StartDismissTimer { delay_ms: 8000 },
            Action::StartAnimationTimer { interval_ms: 1 },
            Action::FocusInput,
            Action::SelectAllInput,
            Action::Repaint(Surface::Tooltip)
        ]
    );
    assert_eq!(s.tooltip.as_ref().unwrap().title, "No Command History Found");
    assert_eq!(s.tooltip.as_ref().unwrap().message, "Run a command first.");
    assert_eq!(
        update_animations(&mut s, 1300),
        vec![Action::Repaint(Surface::Tooltip), Action::StopAnimationTimer]
    );
    assert_eq!(TOOLTIP_DISMISS_MS, 8000);
    let due = 1000 + TOOLTIP_DISMISS_MS as u64;
    assert_eq!(
        tooltip_wndproc(&mut s, TooltipEvent::DismissTimer, due),
        vec![Action::StartAnimationTimer { interval_ms: 1 }]
    );
    assert!(s.timer_armed);
    assert_eq!(
        s.tooltip.as_ref().unwrap().clock,
        AnimationState { phase: AnimType::Exiting, start_ms: 9000, duration_ms: 300 }
    );
    assert_eq!(update_animations(&mut s, 9150), vec![Action::Repaint(Surface::Tooltip)]);
    assert_eq!(
        update_animations(&mut s, 9300),
        vec![Action::CloseTooltip, Action::StopAnimationTimer]
    );
    assert_eq!(s.tooltip, None);
}

#[test]
fn a_click_before_the_delay_runs_out_dismisses_at_once() {
    let mut s = session();
    show_tooltip(&mut s, "No Command History Found", "", 18, 872, 96, 1000);
    assert_eq!(
        tooltip_wndproc(&mut s, TooltipEvent::Clicked, 2500),
        vec![Action::StartAnimationTimer { interval_ms: 1 }]
    );
    assert_eq!(
        s.tooltip.as_ref().unwrap().clock,
        AnimationState { phase: AnimType::Exiting, start_ms: 2500, duration_ms: 300 }
    );
    // The delay running out later, or a second click, does not start over.
    tooltip_wndproc(&mut s, TooltipEvent::Clicked, 2600);
    tooltip_wndproc(&mut s, TooltipEvent::DismissTimer, 2700);
    assert_eq!(s.tooltip.as_ref().unwrap().clock.start_ms, 2500);
    assert_eq!(
        update_animations(&mut s, 2800),
        vec![Action::CloseTooltip, Action::StopAnimationTimer]
    );
}

#[test]
fn events_without_a_tooltip_do_nothing() {
    let mut s = session();
    let before = s.clone();
    assert!(tooltip_wndproc(&mut s, TooltipEvent::DismissTimer, 5).is_empty());
    assert!(tooltip_wndproc(&mut s, TooltipEvent::Clicked, 5).is_empty());
    assert!(tooltip_wndproc(&mut s, TooltipEvent::Destroyed, 5).is_empty());
    assert_eq!(s, before);
}

#[test]
fn a_new_tooltip_replaces_the_old() {
    let mut s = session();
    show_tooltip(&mut s, "one", "1", 18, 872, 96, 0);
    tooltip_wndproc(&mut s, TooltipEvent::Clicked, 100);
    let actions = show_tooltip(&mut s, "two", "2", 18, 872, 96, 200);
    assert_eq!(actions[0], Action::CloseTooltip);
    assert_eq!(actions.len(), 7);
    let tip = s.tooltip.unwrap();
    assert_eq!(tip.title, "two");
    assert_eq!(tip.clock, AnimationState { phase: AnimType::Entering, start_ms: 200, duration_ms: 300 });
}

#[test]
fn the_tooltip_sits_above_the_input_field() {
    assert_eq!(tooltip_placement(100, 500, 96), Placement { x: 116, y: 443, w: 400, h: 100 });
    assert_eq!(tooltip_placement(100, 500, 144), Placement { x: 124, y: 414, w: 600, h: 150 });
    assert_eq!(tooltip_placement(i32::MAX, i32::MIN, 96), Placement { x: i32::MAX, y: i32::MIN, w: 400, h: 100 });
}

#[test]
fn the_tooltip_pops_in_and_fades_out() {
    let mut tip = TooltipState::new("t", "m", 1000);
    let half = tip.visual(1150);
    assert_eq!(half.alpha, Ratio { num: 150, den: 300 });
    let scale = half.scale.num as f64 / half.scale.den as f64;
    let eased = 1.0876975;
    assert!((scale - (0.8 + 0.2 * eased)).abs() < 1e-9);
    assert!(scale > 1.0);
    let y = half.y_offset.num as f64 / half.y_offset.den as f64;
    assert!((y - 5.0 * (1.0 - eased)).abs() < 1e-9);
    let done = tip.visual(1300);
    assert_eq!(done.alpha, Ratio { num: 1, den: 1 });
    assert_eq!(done.scale.num, done.scale.den);
    assert_eq!(done.y_offset.num, 0);
    tip.dismiss(2000);
    let out = tip.visual(2150);
    assert_eq!(out.alpha, Ratio { num: 150, den: 300 });
    assert_eq!(out.scale, Ratio { num: 2850, den: 3000 });
    assert_eq!(out.y_offset, Ratio { num: -750, den: 300 });
    let gone = tip.visual(2300);
    assert_eq!(gone.alpha.num, 0);
    assert_eq!(gone.scale, Ratio { num: 9, den: 10 });
    assert_eq!(gone.y_offset, Ratio { num: -5, den: 1 });
}

#[test]
fn the_not_found_notice_embeds_the_command() {
    assert_eq!(
        not_found_message("foo bar"),
        "SwiftRun cannot find 'foo bar'. Make sure you typed the name correctly, and then try again."
    );
    assert_eq!(
        not_found_message(""),
        "SwiftRun cannot find ''. Make sure you typed the name correctly, and then try again."
    );
}
