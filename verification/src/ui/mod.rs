//! The three surfaces, and what they share: display scale, theme and
//! rectangles.
//!
//! Device pixels become logical units by the display scale `dpi / 96`, and
//! every conversion here is exact integer arithmetic with one stated
//! rounding.

pub mod dialog;
pub mod dropdown;
pub mod main_win;
pub mod resources;
pub mod tooltip;

use crate::config::ACRYLIC_TINT_DARK;
use crate::config::ACRYLIC_TINT_LIGHT;
use crate::config::REFERENCE_DPI;
use crate::ratio::Ratio;
use crate::ratio::ceil_div;
use crate::ratio::clamp_i32;
use crate::ratio::trunc_div;
use vstd::prelude::*;

verus! {

/// A rectangle by its edges; `right` and `bottom` lie just outside it.
#[derive(Debug, Clone, Copy, PartialEq, Eq, Structural)]
pub struct Rect {
    pub left: i32,
    pub top: i32,
    pub right: i32,
    pub bottom: i32,
}

/// Where a surface goes on the screen, in device pixels.
#[derive(Debug, Clone, Copy, PartialEq, Eq, Structural)]
pub struct Placement {
    pub x: i32,
    pub y: i32,
    pub w: i32,
    pub h: i32,
}

/// The composition policy that gives a window its blurred backdrop.
#[derive(Debug, Clone, Copy, PartialEq, Eq, Structural)]
pub struct AccentPolicy {
    pub accent_state: u32,
    pub accent_flags: u32,
    pub gradient_color: u32,
    pub animation_id: u32,
}

/// The DPI that counts: a report of 0 means that the display scale is
/// unknown, and the reference DPI stands in.
pub open spec fn effective_dpi(dpi: u32) -> int {
    if dpi == 0 {
        REFERENCE_DPI as int
    } else {
        dpi as int
    }
}

/// The logical coordinate of a device coordinate: `px / scale`, rounded
/// toward zero.
pub open spec fn logical_of(px: int, dpi: u32) -> int {
    clamp_i32(trunc_div(px * REFERENCE_DPI, effective_dpi(dpi)))
}

/// The logical size that covers a device size: `px / scale`, rounded up.
pub open spec fn logical_extent_of(px: int, dpi: u32) -> int {
    clamp_i32(ceil_div(px * REFERENCE_DPI, effective_dpi(dpi)))
}

/// The device length of a logical length: `units * scale`, rounded toward
/// zero.
pub open spec fn device_of(units: int, dpi: u32) -> int {
    clamp_i32(trunc_div(units * effective_dpi(dpi), REFERENCE_DPI as int))
}

/// The display scale `dpi / 96`; 1 when the DPI is unknown.
pub fn get_dpi_scale(dpi: u32) -> (scale: Ratio)
    ensures
        scale.num == effective_dpi(dpi),
        scale.den == REFERENCE_DPI,
        scale.wf(),
{
    if dpi == 0 {
        Ratio { num: REFERENCE_DPI as i128, den: REFERENCE_DPI as i128 }
    } else {
        Ratio { num: dpi as i128, den: REFERENCE_DPI as i128 }
    }
}

/// Brings a wide value into the range of `i32`.
pub fn saturate(v: i64) -> (out: i32)
    ensures
        out == clamp_i32(v as int),
{
    if v < i32::MIN as i64 {
        i32::MIN
    } else if v > i32::MAX as i64 {
        i32::MAX
    } else {
        v as i32
    }
}

/// The logical coordinate of a device coordinate.
pub fn to_logical(px: i32, dpi: u32) -> (units: i32)
    ensures
        units == logical_of(px as int, dpi),
{
    let d: i64 = if dpi == 0 {
        REFERENCE_DPI as i64
    } else {
        dpi as i64
    };
    assert(-0x8000_0000 * 96 <= px * 96 <= 0x8000_0000 * 96);
    saturate((px as i64 * REFERENCE_DPI as i64) / d)
}

/// The logical size that covers a device size.
pub fn logical_extent(px: i32, dpi: u32) -> (units: i32)
    ensures
        units == logical_extent_of(px as int, dpi),
{
    let d: i64 = if dpi == 0 {
        REFERENCE_DPI as i64
    } else {
        dpi as i64
    };
    assert(-0x8000_0000 * 96 <= px * 96 <= 0x8000_0000 * 96);
    let n: i64 = px as i64 * REFERENCE_DPI as i64;
    let q: i64 = n / d;
    let r: i64 = n % d;
    proof {
        lemma_trunc_parts(n as int, d as int);
    }
    if r > 0 {
        saturate(q + 1)
    } else {
        saturate(q)
    }
}

/// The device length of a logical length.
pub fn to_device(units: i32, dpi: u32) -> (px: i32)
    ensures
        px == device_of(units as int, dpi),
{
    let d: i64 = if dpi == 0 {
        REFERENCE_DPI as i64
    } else {
        dpi as i64
    };
    assert(-0x8000_0000 * 0xffff_ffff <= units * d <= 0x7fff_ffff * 0xffff_ffff)
        by (nonlinear_arith)
        requires
            -0x8000_0000 <= units <= 0x7fff_ffff,
            0 < d <= 0xffff_ffff,
    ;
    saturate((units as i64 * d) / (REFERENCE_DPI as i64))
}

/// How rounding toward zero and rounding up differ: by one, exactly when a
/// positive remainder is left.
pub proof fn lemma_trunc_parts(n: int, d: int)
    requires
        d > 0,
    ensures
        ceil_div(n, d) == if n > 0 && n % d != 0 {
            trunc_div(n, d) + 1
        } else {
            trunc_div(n, d)
        },
        n >= 0 ==> (n % d > 0 <==> n - trunc_div(n, d) * d > 0),
        n < 0 ==> n - trunc_div(n, d) * d <= 0,
        -d < n - trunc_div(n, d) * d < d,
{
    vstd::arithmetic::div_mod::lemma_fundamental_div_mod(n, d);
    vstd::arithmetic::div_mod::lemma_fundamental_div_mod(-n, d);
    vstd::arithmetic::div_mod::lemma_mod_bound(n, d);
    vstd::arithmetic::div_mod::lemma_mod_bound(-n, d);
    let q = n / d;
    let m = (-n) / d;
    assert(n == d * q + n % d);
    assert(-n == d * m + (-n) % d);
    assert(d * (q + m) == d * q + d * m) by (nonlinear_arith);
    if n % d == 0 {
        assert(d * (q + m) == -((-n) % d));
        assert(q + m == 0) by (nonlinear_arith)
            requires
                d > 0,
                -d < d * (q + m) <= 0,
        ;
    } else {
        assert(d * (q + m) == -(n % d) - ((-n) % d));
        assert(q + m == -1) by (nonlinear_arith)
            requires
                d > 0,
                -2 * d < d * (q + m) < 0,
        ;
    }
    assert(trunc_div(n, d) * d == d * trunc_div(n, d)) by (nonlinear_arith);
    assert(d * (-m) == -(d * m)) by (nonlinear_arith);
}

/// Whether the dark theme is in force, from the first byte of the system's
/// "apps use the light theme" setting; a setting that could not be read
/// counts as 0.
pub fn is_dark_mode(apps_use_light_theme: u8) -> (dark: bool)
    ensures
        dark == (apps_use_light_theme == 0),
{
    apps_use_light_theme == 0
}

/// The channels of the system's accent colour, each as a fraction of full
/// intensity. `color` holds red in its lowest byte, then green, then blue; 0
/// means that none is set, and the default blue is given.
pub fn get_accent_color_values(color: u32) -> (rgb: (Ratio, Ratio, Ratio))
    ensures
        color == 0 ==> rgb == (
            Ratio { num: 0, den: 100 },
            Ratio { num: 47, den: 100 },
            Ratio { num: 83, den: 100 },
        ),
        color != 0 ==> rgb == (
            Ratio { num: (color % 256) as i128, den: 255 },
            Ratio { num: ((color / 256) % 256) as i128, den: 255 },
            Ratio { num: ((color / 65536) % 256) as i128, den: 255 },
        ),
        rgb.0.wf() && rgb.0.in_unit(),
        rgb.1.wf() && rgb.1.in_unit(),
        rgb.2.wf() && rgb.2.in_unit(),
{
    if color == 0 {
        return (
            Ratio { num: 0, den: 100 },
            Ratio { num: 47, den: 100 },
            Ratio { num: 83, den: 100 },
        );
    }
    let r: u32 = color % 256;
    let g: u32 = (color / 256) % 256;
    let b: u32 = (color / 65536) % 256;
    (
        Ratio { num: r as i128, den: 255 },
        Ratio { num: g as i128, den: 255 },
        Ratio { num: b as i128, den: 255 },
    )
}

/// The backdrop policy for a window under the given theme.
pub fn set_acrylic_effect(is_dark: bool) -> (policy: AccentPolicy)
    ensures
        policy == (AccentPolicy {
            accent_state: 4,
            accent_flags: 2,
            gradient_color: if is_dark {
                ACRYLIC_TINT_DARK
            } else {
                ACRYLIC_TINT_LIGHT
            },
            animation_id: 0,
        }),
{
    AccentPolicy {
        accent_state: 4,
        accent_flags: 2,
        gradient_color: if is_dark {
            ACRYLIC_TINT_DARK
        } else {
            ACRYLIC_TINT_LIGHT
        },
        animation_id: 0,
    }
}

} // verus!
