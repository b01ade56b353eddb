use swift_run::config::HoverId;
use swift_run::ui::main_win::{
    edit_point, hit_test, nc_hit_test, pack_point, pointer_hover, unpack_point, wrap16,
};
use swift_run::ui::{get_dpi_scale, logical_extent, to_device, to_logical};
use swift_run::ratio::Ratio;

#[test]
fn each_region_answers_for_its_element() {
    assert_eq!(hit_test(430, 10, 450, 150, false), HoverId::Close);
    assert_eq!(hit_test(404, 31, 450, 150, false), HoverId::Close);
    assert_eq!(hit_test(403, 31, 450, 150, false), HoverId::Min);
    assert_eq!(hit_test(358, 0, 450, 150, false), HoverId::Min);
    assert_eq!(hit_test(357, 0, 450, 150, false), HoverId::Nothing);
    assert_eq!(hit_test(266, 96, 450, 150, false), HoverId::Confirm);
    assert_eq!(hit_test(345, 125, 450, 150, false), HoverId::Confirm);
    assert_eq!(hit_test(346, 100, 450, 150, false), HoverId::Nothing);
    assert_eq!(hit_test(354, 100, 450, 150, false), HoverId::Cancel);
    assert_eq!(hit_test(433, 125, 450, 150, false), HoverId::Cancel);
    assert_eq!(hit_test(434, 100, 450, 150, false), HoverId::Nothing);
    assert_eq!(hit_test(300, 126, 450, 150, false), HoverId::Nothing);
    assert_eq!(hit_test(414, 63, 450, 150, false), HoverId::Dropdown);
    assert_eq!(hit_test(404, 53, 450, 150, false), HoverId::Dropdown);
    assert_eq!(hit_test(423, 72, 450, 150, false), HoverId::Dropdown);
    assert_eq!(hit_test(424, 60, 450, 150, false), HoverId::Input);
    assert_eq!(hit_test(403, 60, 450, 150, false), HoverId::Input);
    assert_eq!(hit_test(16, 47, 450, 150, false), HoverId::Input);
    assert_eq!(hit_test(433, 78, 450, 150, false), HoverId::Input);
    assert_eq!(hit_test(15, 60, 450, 150, false), HoverId::Nothing);
    assert_eq!(hit_test(434, 60, 450, 150, false), HoverId::Nothing);
    assert_eq!(hit_test(200, 40, 450, 150, false), HoverId::Nothing);
}

#[test]
fn the_chevron_answers_beyond_its_glyph() {
    // The glyph spans 8 by 4 units about (414, 63); the region is 20 by 20.
    assert_eq!(hit_test(405, 54, 450, 150, true), HoverId::Dropdown);
    assert_eq!(hit_test(422, 71, 450, 150, true), HoverId::Dropdown);
}

#[test]
fn the_confirm_button_is_dead_while_the_input_is_empty() {
    for x in 266..346 {
        for y in 96..126 {
            assert_eq!(hit_test(x, y, 450, 150, true), HoverId::Nothing);
            assert_eq!(hit_test(x, y, 450, 150, false), HoverId::Confirm);
        }
    }
}

#[test]
fn an_empty_input_never_yields_confirm_anywhere() {
    for w in [0, 100, 184, 450, 900] {
        for x in (-50..950).step_by(3) {
            for y in (-10..160).step_by(2) {
                assert_ne!(hit_test(x, y, w, 150, true), HoverId::Confirm);
            }
        }
    }
}

#[test]
fn the_height_plays_no_part() {
    assert_eq!(hit_test(300, 110, 450, 0, false), HoverId::Confirm);
    assert_eq!(hit_test(300, 110, 450, i32::MAX, false), HoverId::Confirm);
}

#[test]
fn extreme_coordinates_do_not_overflow() {
    assert_eq!(hit_test(i32::MAX, i32::MIN, i32::MAX, 0, false), HoverId::Close);
    assert_eq!(hit_test(i32::MIN, i32::MAX, i32::MIN, 0, false), HoverId::Nothing);
    assert_eq!(hit_test(i32::MIN, 0, i32::MIN, 0, false), HoverId::Close);
}

#[test]
fn the_same_logical_point_hits_the_same_element_at_scale_1_and_1_5() {
    for (lx, ly) in [(300, 110), (430, 10), (380, 10), (414, 63), (100, 60), (390, 110), (5, 5), (300, 140)] {
        for empty in [false, true] {
            let at_1 = pointer_hover(lx, ly, 450, 150, 96, empty);
            let at_1_5 = pointer_hover(lx * 3 / 2, ly * 3 / 2, 675, 225, 144, empty);
            assert_eq!(at_1, hit_test(lx, ly, 450, 150, empty));
            assert_eq!(at_1, at_1_5, "at ({}, {})", lx, ly);
        }
    }
    assert_eq!(pointer_hover(450, 165, 675, 225, 144, false), HoverId::Confirm);
    assert_eq!(pointer_hover(300, 110, 450, 150, 96, false), HoverId::Confirm);
}

#[test]
fn every_device_pixel_of_a_logical_unit_hits_alike() {
    // At scale 1.5 the unit 266 covers the device pixels 399 and 400.
    assert_eq!(pointer_hover(398, 165, 675, 225, 144, false), HoverId::Nothing);
    assert_eq!(pointer_hover(399, 165, 675, 225, 144, false), HoverId::Confirm);
    assert_eq!(pointer_hover(400, 165, 675, 225, 144, false), HoverId::Confirm);
}

#[test]
fn testing_in_device_pixels_would_miss() {
    // The device point (450, 165) is the confirm button at scale 1.5 but
    // lies right of every button when taken for logical units.
    assert_eq!(hit_test(450, 165, 450, 150, false), HoverId::Nothing);
}

#[test]
fn scale_conversions() {
    assert_eq!(get_dpi_scale(96), Ratio { num: 96, den: 96 });
    assert_eq!(get_dpi_scale(144), Ratio { num: 144, den: 96 });
    assert_eq!(get_dpi_scale(0), Ratio { num: 96, den: 96 });
    assert_eq!(to_logical(300, 144), 200);
    assert_eq!(to_logical(301, 144), 200);
    assert_eq!(to_logical(-1, 144), 0);
    assert_eq!(to_logical(-3, 144), -2);
    assert_eq!(to_logical(300, 0), 300);
    assert_eq!(to_logical(i32::MAX, 1), i32::MAX);
    assert_eq!(to_logical(i32::MIN, 1), i32::MIN);
    assert_eq!(logical_extent(675, 144), 450);
    assert_eq!(logical_extent(562, 120), 450);
    assert_eq!(logical_extent(563, 120), 451);
    assert_eq!(logical_extent(-3, 144), -2);
    assert_eq!(to_device(450, 144), 675);
    assert_eq!(to_device(47, 144), 70);
    assert_eq!(to_device(-47, 144), -70);
    assert_eq!(to_device(450, 120), 562);
    assert_eq!(to_device(18, 0), 18);
    assert_eq!(to_device(i32::MAX, u32::MAX), i32::MAX);
}

#[test]
fn forwarded_positions_carry_the_scale_once() {
    assert_eq!(edit_point(150, 96), (124, 20));
    assert_eq!(edit_point(150, 0), (124, 20));
    assert_eq!(edit_point(150, 144), (111, 30));
    assert_eq!(edit_point(100, 120), (67, 25));
    assert_eq!(edit_point(10, 120), (-22, 25));
    assert_eq!(edit_point(225, 144), (186, 30));
    // Logical column 150 is device column 225 at scale 1.5; 150 - 26 = 124
    // logical units into the field is device column 186.
    assert_eq!(to_device(124, 144), 186);
}

#[test]
fn the_title_bar_drags_the_window() {
    assert!(nc_hit_test(10, 10, 450, 96));
    assert!(nc_hit_test(357, 31, 450, 96));
    assert!(!nc_hit_test(358, 31, 450, 96));
    assert!(!nc_hit_test(10, 32, 450, 96));
    assert!(nc_hit_test(10, 47, 675, 144));
    assert!(!nc_hit_test(10, 48, 675, 144));
    assert!(nc_hit_test(536, 10, 675, 144));
    assert!(!nc_hit_test(537, 10, 675, 144));
    assert!(nc_hit_test(-5, -5, 450, 0));
}

#[test]
fn points_travel_in_message_parameters() {
    assert_eq!(unpack_point(0x0002_FFFF), (-1, 2));
    assert_eq!(unpack_point(0x8000_7FFF), (32767, -32768));
    assert_eq!(unpack_point(0), (0, 0));
    assert_eq!(pack_point(-1, 2), 0x0002_FFFF);
    assert_eq!(pack_point(124, 20), 124 | (20 << 16));
    assert_eq!(pack_point(0x1_2345, -1), 0xFFFF_2345);
    assert_eq!(wrap16(-1), 0xFFFF);
    assert_eq!(wrap16(i32::MIN), 0);
    assert_eq!(wrap16(i32::MAX), 0xFFFF);
    for (x, y) in [(0, 0), (-22, 25), (186, 30), (-32768, 32767), (32767, -32768)] {
        assert_eq!(unpack_point(pack_point(x, y)), (x, y));
    }
}
