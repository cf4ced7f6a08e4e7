//! The dimming layer drawn behind a modal dialog.

use vstd::prelude::*;

use crate::ui::rect::min_int;
use crate::ui::theme::{Color, Theme};

verus! {

/// How strongly the screen behind a dialog is dimmed.
#[derive(Clone, Copy, Debug, PartialEq, Eq, Structural)]
pub enum ModalScrimStrength {
    Menu,
    Dialog,
    Priority,
}

impl ModalScrimStrength {
    /// Percent of the way each color moves toward the background.
    pub open spec fn percent_spec(self) -> u16 {
        match self {
            ModalScrimStrength::Menu => 25,
            ModalScrimStrength::Dialog => 52,
            ModalScrimStrength::Priority => 64,
        }
    }

    /// Percent of the way each color moves toward the background.
    pub fn percent(self) -> (r: u16)
        ensures
            r == self.percent_spec(),
    {
        match self {
            ModalScrimStrength::Menu => 25,
            ModalScrimStrength::Dialog => 52,
            ModalScrimStrength::Priority => 64,
        }
    }
}

/// The dimming layer: a scheme and a strength.
#[derive(Clone, Copy, Debug)]
pub struct ModalScrim {
    pub theme: Theme,
    pub strength: ModalScrimStrength,
}

impl ModalScrim {
    /// A dimming layer for a scheme and strength.
    pub fn new(theme: Theme, strength: ModalScrimStrength) -> (r: ModalScrim)
        ensures
            r.theme == theme,
            r.strength == strength,
    {
        ModalScrim { theme, strength }
    }
}

/// A color channel moved `percent` (at most 100) of the way toward `target`,
/// rounded to the nearest step.
pub open spec fn blend_spec(value: int, target: int, percent: int) -> int {
    let p = min_int(percent, 100);
    (value * (100 - p) + target * p + 50) / 100
}

/// A color channel moved part of the way toward another.
pub fn blend_channel(value: u8, target: u8, percent: u16) -> (r: u8)
    ensures
        r == blend_spec(value as int, target as int, percent as int),
{
    let p = if percent < 100 { percent } else { 100 };
    let retained = 100 - p;
    assert((value as int) * (retained as int) + (target as int) * (p as int) + 50 <= 25550) by (nonlinear_arith)
        requires value <= 255, target <= 255, retained + p == 100, retained >= 0, p >= 0;
    let blended = ((value as u16) * retained + (target as u16) * p + 50) / 100;
    assert(blended <= 255);
    blended as u8
}

/// A blended channel lies between the channel and its target.
pub proof fn blend_stays_between(value: int, target: int, percent: int)
    requires
        0 <= value <= 255,
        0 <= target <= 255,
        0 <= percent,
    ensures
        min_int(value, target) <= blend_spec(value, target, percent) <= crate::ui::rect::max_int(value, target),
        blend_spec(value, target, 0) == value,
        blend_spec(value, target, 100) == target,
{
    let p = min_int(percent, 100);
    let lo = min_int(value, target);
    let hi = crate::ui::rect::max_int(value, target);
    assert(lo * 100 <= value * (100 - p) + target * p <= hi * 100) by (nonlinear_arith)
        requires lo <= value, lo <= target, value <= hi, target <= hi, 0 <= p <= 100;
    assert(lo <= (value * (100 - p) + target * p + 50) / 100) by (nonlinear_arith)
        requires lo * 100 <= value * (100 - p) + target * p;
    assert((value * (100 - p) + target * p + 50) / 100 <= hi) by (nonlinear_arith)
        requires value * (100 - p) + target * p <= hi * 100;
    assert((value * (100 - 0) + target * 0 + 50) / 100 == value) by (nonlinear_arith)
        requires 0 <= value;
    assert((value * (100 - 100) + target * 100 + 50) / 100 == target) by (nonlinear_arith)
        requires 0 <= target;
}

/// A color moved toward a target, channel by channel; `fallback` when the
/// color or the target has no channels to blend.
pub fn blend_toward(color: Option<Color>, target: Color, percent: u16, fallback: Color) -> (r: Color)
    ensures
        r == match (color, target) {
            (Some(Color::Rgb(red, green, blue)), Color::Rgb(tr, tg, tb)) => Color::Rgb(
                blend_spec(red as int, tr as int, percent as int) as u8,
                blend_spec(green as int, tg as int, percent as int) as u8,
                blend_spec(blue as int, tb as int, percent as int) as u8,
            ),
            _ => fallback,
        },
{
    match (color, target) {
        (Some(Color::Rgb(red, green, blue)), Color::Rgb(tr, tg, tb)) => Color::Rgb(
            blend_channel(red, tr, percent),
            blend_channel(green, tg, percent),
            blend_channel(blue, tb, percent),
        ),
        _ => fallback,
    }
}

} // verus!
