use swift_run::config::HoverId;
use swift_run::ratio::Ratio;
use swift_run::ui::dialog::{
    dialog_hit_test, dialog_wndproc, show_fluent_dialog, DialogEvent,
};
use swift_run::ui::main_win::{draw_button, paint, BrushId, ButtonStyle, Frame, Key, Span};
use swift_run::ui::resources::{
    ensure_dropdown_resources, ensure_fonts, ensure_resources, z_order, Action, PixelSize,
    ResourceStep, Session, Surface, SurfaceCache, RECREATE_TARGET,
};
use swift_run::ui::{
    get_accent_color_values, is_dark_mode, set_acrylic_effect, AccentPolicy, Placement,
};

#[test]
fn buttons_wear_the_brushes_of_their_state() {
    let plain = |fill| ButtonStyle { fill, border: BrushId::BtnBorder, label: BrushId::White };
    assert_eq!(draw_button(HoverId::Confirm, HoverId::Nothing, false), plain(BrushId::Accent));
    assert_eq!(draw_button(HoverId::Confirm, HoverId::Confirm, false), plain(BrushId::AccentHover));
    assert_eq!(draw_button(HoverId::Cancel, HoverId::Confirm, false), plain(BrushId::BtnBg));
    assert_eq!(draw_button(HoverId::Cancel, HoverId::Cancel, false), plain(BrushId::BtnHover));
    let dimmed = ButtonStyle { fill: BrushId::InputBg, border: BrushId::BtnBorder, label: BrushId::Gray };
    assert_eq!(draw_button(HoverId::Confirm, HoverId::Confirm, true), dimmed);
    assert_eq!(draw_button(HoverId::Cancel, HoverId::Nothing, true), dimmed);
}

#[test]
fn painting_an_empty_panel_shows_the_hint() {
    let mut s = Session::new(Vec::new(), 0, 0, 0);
    s.main.hover = HoverId::Min;
    let before = s.clone();
    let frame = paint(&s, 0x0003_0001, 0, 500);
    assert_eq!(
        frame,
        Frame {
            min_lit: true,
            close_lit: false,
            placeholder: true,
            selection: None,
            caret: true,
            caret_at: 0,
            run: ButtonStyle { fill: BrushId::InputBg, border: BrushId::BtnBorder, label: BrushId::Gray },
            cancel: ButtonStyle { fill: BrushId::BtnBg, border: BrushId::BtnBorder, label: BrushId::White },
        }
    );
    assert_eq!(s, before);
}

#[test]
fn painting_text_shows_its_selection_and_caret() {
    let mut s = Session::new(Vec::new(), 0, 0, 0);
    s.bridge.input = "notepad".to_string();
    s.main.hover = HoverId::Close;
    let frame = paint(&s, 0x0005_0002, 700, 0);
    assert!(!frame.placeholder);
    assert!(frame.close_lit);
    assert!(!frame.min_lit);
    assert_eq!(frame.selection, Some(Span { start: 2, end: 5 }));
    assert_eq!(frame.caret_at, 5);
    assert!(!frame.caret);
    assert_eq!(frame.run.fill, BrushId::Accent);
    let frame = paint(&s, 0x0004_0004, 1000, 0);
    assert_eq!(frame.selection, None);
    assert_eq!(frame.caret_at, 4);
    assert!(frame.caret);
}

#[test]
fn the_caret_blinks() {
    let s = Session::new(Vec::new(), 0, 0, 0);
    assert!(paint(&s, 0, 0, 530).caret);
    assert!(paint(&s, 0, 529, 530).caret);
    assert!(!paint(&s, 0, 530, 530).caret);
    assert!(!paint(&s, 0, 1059, 530).caret);
    assert!(paint(&s, 0, 1060, 530).caret);
    assert!(paint(&s, 0, 499, 0).caret);
    assert!(!paint(&s, 0, 500, 0).caret);
    assert!(!paint(&s, 0, u32::MAX, 1).caret);
}

#[test]
fn resources_are_made_step_by_step() {
    let mut cache = SurfaceCache::empty();
    assert_eq!(ensure_dropdown_resources(&cache, false, 418, 130), ResourceStep::Skip);
    assert_eq!(ensure_dropdown_resources(&cache, true, 0, 130), ResourceStep::Skip);
    assert_eq!(ensure_dropdown_resources(&cache, true, 418, 0), ResourceStep::Skip);
    assert_eq!(
        ensure_dropdown_resources(&cache, true, 418, 130),
        ResourceStep::CreateTarget { w: 418, h: 130 }
    );
    cache.target_created(false, 418, 130);
    assert_eq!(cache.target, None);
    cache.target_created(true, 418, 130);
    assert_eq!(cache.target, Some(PixelSize { w: 418, h: 130 }));
    assert_eq!(ensure_dropdown_resources(&cache, true, 418, 130), ResourceStep::CreateBrushes);
    assert!(ensure_fonts(&cache, true));
    assert!(!ensure_fonts(&cache, false));
    cache.brushes_created(true, true);
    assert!(!ensure_fonts(&cache, true));
    assert_eq!(ensure_dropdown_resources(&cache, true, 418, 130), ResourceStep::Ready);
    assert_eq!(ensure_dropdown_resources(&cache, false, 418, 130), ResourceStep::Ready);
    assert_eq!(
        ensure_dropdown_resources(&cache, true, 418, 52),
        ResourceStep::ResizeTarget { w: 418, h: 52 }
    );
    cache.target_resized(true, 418, 52);
    assert!(!cache.brushes);
    assert!(cache.fonts);
    assert_eq!(ensure_dropdown_resources(&cache, true, 418, 52), ResourceStep::CreateBrushes);
    cache.brushes_created(true, false);
    assert_eq!(ensure_resources(&cache, true, 418, 52), ResourceStep::Ready);
    cache.target_resized(false, 418, 78);
    assert_eq!(cache, SurfaceCache { target: None, brushes: false, fonts: true });
}

#[test]
fn a_failed_step_is_tried_again_by_the_next_paint() {
    let mut cache = SurfaceCache::empty();
    cache.target_created(true, 450, 150);
    cache.brushes_created(false, false);
    assert_eq!(ensure_resources(&cache, true, 450, 150), ResourceStep::CreateBrushes);
    cache.brushes_created(true, false);
    assert_eq!(ensure_resources(&cache, true, 450, 150), ResourceStep::CreateBrushes);
    cache.brushes_created(false, true);
    assert_eq!(ensure_resources(&cache, true, 450, 150), ResourceStep::Ready);
}

#[test]
fn brushes_are_not_kept_without_a_target() {
    let mut cache = SurfaceCache::empty();
    cache.brushes_created(true, true);
    assert_eq!(cache, SurfaceCache { target: None, brushes: false, fonts: true });
}

#[test]
fn a_lost_target_is_made_anew() {
    let mut cache = SurfaceCache::empty();
    cache.target_created(true, 450, 150);
    cache.brushes_created(true, true);
    assert!(!cache.frame_ended(0));
    assert!(!cache.frame_ended(-1));
    assert_eq!(ensure_resources(&cache, true, 450, 150), ResourceStep::Ready);
    assert_eq!(RECREATE_TARGET, 0x8899000Cu32 as i32);
    assert!(cache.frame_ended(RECREATE_TARGET));
    assert_eq!(cache, SurfaceCache { target: None, brushes: false, fonts: true });
    assert_eq!(
        ensure_resources(&cache, true, 450, 150),
        ResourceStep::CreateTarget { w: 450, h: 150 }
    );
    cache.target_created(true, 450, 150);
    cache.brushes_created(true, true);
    cache.drop_brushes();
    assert_eq!(ensure_resources(&cache, true, 450, 150), ResourceStep::CreateBrushes);
    cache.brushes_created(true, true);
    cache.discard_target();
    assert_eq!(cache, SurfaceCache { target: None, brushes: false, fonts: true });
}

#[test]
fn the_dialog_is_centered_and_waits() {
    let (state, at) = show_fluent_dialog("SwiftRun Setup", "Installed.", 1920, 1080);
    assert_eq!(at, Placement { x: 650, y: 445, w: 620, h: 190 });
    assert_eq!(state.title, "SwiftRun Setup");
    assert_eq!(state.message, "Installed.");
    assert!(state.active);
    assert!(!state.hover_ok);
    assert!(!state.mouse_tracked);
    let (_, at) = show_fluent_dialog("", "", 600, 100);
    assert_eq!(at, Placement { x: -10, y: -45, w: 620, h: 190 });
    let (_, at) = show_fluent_dialog("", "", 601, 101);
    assert_eq!(at, Placement { x: -9, y: -44, w: 620, h: 190 });
}

#[test]
fn the_dialog_button_and_its_edges() {
    // 620 by 190 at scale 1: the button spans 438..=598 by 132..=168.
    assert!(dialog_hit_test(438, 132, 620, 190, 96));
    assert!(dialog_hit_test(598, 168, 620, 190, 96));
    assert!(!dialog_hit_test(437, 150, 620, 190, 96));
    assert!(!dialog_hit_test(599, 150, 620, 190, 96));
    assert!(!dialog_hit_test(500, 131, 620, 190, 96));
    assert!(!dialog_hit_test(500, 169, 620, 190, 96));
    // At scale 1.5 in a client area of 620 by 190 device pixels.
    assert!(dialog_hit_test(347, 103, 620, 190, 144));
    assert!(!dialog_hit_test(346, 103, 620, 190, 144));
    assert!(dialog_hit_test(587, 157, 620, 190, 144));
    assert!(!dialog_hit_test(588, 157, 620, 190, 144));
    assert!(!dialog_hit_test(400, 102, 620, 190, 144));
    assert!(!dialog_hit_test(400, 158, 620, 190, 144));
}

#[test]
fn the_dialog_follows_the_pointer_and_closes_on_acknowledgement() {
    let (mut d, _) = show_fluent_dialog("t", "m", 1920, 1080);
    assert_eq!(
        dialog_wndproc(&mut d, DialogEvent::Created, 620, 190, 96),
        vec![Action::ApplyBackdrop(Surface::Dialog)]
    );
    assert!(dialog_wndproc(&mut d, DialogEvent::ButtonDown, 620, 190, 96).is_empty());
    assert!(d.active);
    assert_eq!(
        dialog_wndproc(&mut d, DialogEvent::PointerMoved { x: 10, y: 10 }, 620, 190, 96),
        vec![Action::TrackPointerLeave(Surface::Dialog)]
    );
    assert!(d.mouse_tracked);
    assert_eq!(
        dialog_wndproc(&mut d, DialogEvent::PointerMoved { x: 500, y: 150 }, 620, 190, 96),
        vec![Action::Repaint(Surface::Dialog)]
    );
    assert!(d.hover_ok);
    assert!(dialog_wndproc(&mut d, DialogEvent::PointerMoved { x: 501, y: 150 }, 620, 190, 96).is_empty());
    assert_eq!(
        dialog_wndproc(&mut d, DialogEvent::PointerLeft, 620, 190, 96),
        vec![Action::Repaint(Surface::Dialog)]
    );
    assert!(!d.hover_ok && !d.mouse_tracked);
    assert!(dialog_wndproc(&mut d, DialogEvent::PointerLeft, 620, 190, 96).is_empty());
    assert_eq!(
        dialog_wndproc(&mut d, DialogEvent::PointerMoved { x: 500, y: 150 }, 620, 190, 96),
        vec![Action::TrackPointerLeave(Surface::Dialog), Action::Repaint(Surface::Dialog)]
    );
    assert!(dialog_wndproc(&mut d, DialogEvent::KeyDown { key: Key::Tab }, 620, 190, 96).is_empty());
    assert!(d.active);
    assert_eq!(
        dialog_wndproc(&mut d, DialogEvent::ButtonDown, 620, 190, 96),
        vec![Action::CloseDialog]
    );
    assert!(!d.active);
    for event in [
        DialogEvent::KeyDown { key: Key::Return },
        DialogEvent::KeyDown { key: Key::Escape },
        DialogEvent::CloseRequested,
    ] {
        let (mut d, _) = show_fluent_dialog("t", "m", 1920, 1080);
        assert_eq!(dialog_wndproc(&mut d, event, 620, 190, 96), vec![Action::CloseDialog]);
        assert!(!d.active);
        assert_eq!(d.title, "t");
    }
}

#[test]
fn theme_values() {
    assert!(is_dark_mode(0));
    assert!(!is_dark_mode(1));
    assert!(!is_dark_mode(255));
    assert_eq!(
        set_acrylic_effect(true),
        AccentPolicy { accent_state: 4, accent_flags: 2, gradient_color: 0x00202020, animation_id: 0 }
    );
    assert_eq!(set_acrylic_effect(false).gradient_color, 0x00F3F3F3);
    assert_eq!(
        get_accent_color_values(0),
        (Ratio { num: 0, den: 100 }, Ratio { num: 47, den: 100 }, Ratio { num: 83, den: 100 })
    );
    assert_eq!(
        get_accent_color_values(0xFF11_2233),
        (Ratio { num: 0x33, den: 255 }, Ratio { num: 0x22, den: 255 }, Ratio { num: 0x11, den: 255 })
    );
    assert_eq!(
        get_accent_color_values(0x0000_00FF),
        (Ratio { num: 255, den: 255 }, Ratio { num: 0, den: 255 }, Ratio { num: 0, den: 255 })
    );
}

#[test]
fn the_dropdown_lies_above_the_panel_and_the_tooltip_above_both() {
    assert!(z_order(Surface::Main) < z_order(Surface::Dropdown));
    assert!(z_order(Surface::Dropdown) < z_order(Surface::Tooltip));
    assert!(z_order(Surface::Tooltip) < z_order(Surface::Dialog));
}
