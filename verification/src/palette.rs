//! Which colour rule applies to an escape count under a scheme.
//!
//! A rule is data: linear ramps over the escape speed, written in tenths, and
//! the arrangement of the channels in each 60-degree sector of the hue circle.
//! The speed of a count is `iterations / max_iterations`, a number in `[0, 1)`
//! for every count that escaped. Evaluating a rule at a speed is real-valued
//! arithmetic and is left to the caller.

use vstd::prelude::*;
use crate::scheme::ColorScheme;
use crate::scheme::FULL_TURN_BITS;

verus! {

/// A linear function of the speed, in tenths: at speed `s` its value is
/// `(base + slope * s) / 10`.
#[derive(Clone, Copy, Debug, PartialEq, Eq, Structural)]
pub struct Ramp {
    pub base: i32,
    pub slope: i32,
}

impl Ramp {
    /// The value of the ramp at speed `iterations / max_iterations`, multiplied
    /// by `10 * max_iterations` so that it is a whole number.
    pub open spec fn scaled_at(self, iterations: int, max_iterations: int) -> int {
        self.base * max_iterations + self.slope * iterations
    }
}

/// How the hue of a shade is found.
#[derive(Clone, Copy, Debug, PartialEq, Eq, Structural)]
pub enum HueRule {
    /// Degrees that vary with the speed.
    Sweep(Ramp),
    /// Fixed degrees, as the bit pattern of a double.
    Fixed(u64),
}

/// The colour rule for one escape count.
#[derive(Clone, Copy, Debug, PartialEq, Eq, Structural)]
pub enum Shade {
    /// Pure black: the point belongs to the set.
    Black,
    /// All three channels are `speed * 255`, cut off to a whole number.
    Grey,
    /// Hue in degrees, saturation and value in `[0, 1]`, converted by sectors.
    Hsv { hue: HueRule, saturation: Ramp, value: Ramp },
    /// Each channel is `sin(pi * speed * k) * 0.5 + 0.5` with its own `k`,
    /// scaled to 255 and cut off to a whole number.
    Waves { red: u32, green: u32, blue: u32 },
}

/// One of the three raw levels that the sector conversion hands to a channel.
#[derive(Clone, Copy, Debug, PartialEq, Eq, Structural)]
pub enum Level {
    /// The chroma `c = value * saturation`.
    Chroma,
    /// The intermediate `x = c * (1 - |(hue / 60) mod 2 - 1|)`.
    Cross,
    /// Nothing.
    Zero,
}

/// A ramp that does not depend on the speed.
pub open spec fn constant(tenths: i32) -> Ramp {
    Ramp { base: tenths, slope: 0 }
}

/// The rule of each scheme for a point that escaped.
pub open spec fn escaped_shade(scheme: ColorScheme) -> Shade {
    match scheme {
        ColorScheme::Blue => Shade::Hsv {
            hue: HueRule::Sweep(Ramp { base: 2400, slope: -600i32 }),
            saturation: Ramp { base: 8, slope: 2 },
            value: Ramp { base: 7, slope: 3 },
        },
        ColorScheme::Red => Shade::Hsv {
            hue: HueRule::Sweep(Ramp { base: 0, slope: 600 }),
            saturation: constant(10),
            value: Ramp { base: 5, slope: 5 },
        },
        ColorScheme::Rainbow => Shade::Hsv {
            hue: HueRule::Sweep(Ramp { base: 0, slope: 3600 }),
            saturation: constant(8),
            value: constant(9),
        },
        ColorScheme::Greyscale => Shade::Grey,
        ColorScheme::Blueish => Shade::Hsv {
            hue: HueRule::Sweep(Ramp { base: 1800, slope: 600 }),
            saturation: constant(7),
            value: Ramp { base: 5, slope: 5 },
        },
        ColorScheme::Forest => Shade::Hsv {
            hue: HueRule::Sweep(Ramp { base: 1200, slope: -400i32 }),
            saturation: Ramp { base: 8, slope: -3i32 },
            value: Ramp { base: 4, slope: 6 },
        },
        ColorScheme::Electric => Shade::Waves { red: 8, green: 4, blue: 2 },
        ColorScheme::Pastel => Shade::Hsv {
            hue: HueRule::Sweep(Ramp { base: 0, slope: 3600 }),
            saturation: constant(4),
            value: constant(9),
        },
        ColorScheme::Monochrome(hue_bits) => Shade::Hsv {
            hue: HueRule::Fixed(hue_bits),
            saturation: constant(8),
            value: Ramp { base: 0, slope: 10 },
        },
    }
}

/// The rule for an escape count: black for a member of the set, whatever the
/// scheme, and the scheme's own rule for every other count.
pub open spec fn shade_of(iterations: u32, max_iterations: u32, scheme: ColorScheme) -> Shade {
    if iterations == max_iterations {
        Shade::Black
    } else {
        escaped_shade(scheme)
    }
}

/// The levels of the red, green and blue channel in a sector of the hue
/// circle. Sectors are 60 degrees wide and numbered from 0; past the sixth
/// every channel is empty.
pub open spec fn sector_levels(sector: u32) -> (Level, Level, Level) {
    if sector == 0 {
        (Level::Chroma, Level::Cross, Level::Zero)
    } else if sector == 1 {
        (Level::Cross, Level::Chroma, Level::Zero)
    } else if sector == 2 {
        (Level::Zero, Level::Chroma, Level::Cross)
    } else if sector == 3 {
        (Level::Zero, Level::Cross, Level::Chroma)
    } else if sector == 4 {
        (Level::Cross, Level::Zero, Level::Chroma)
    } else if sector == 5 {
        (Level::Chroma, Level::Zero, Level::Cross)
    } else {
        (Level::Zero, Level::Zero, Level::Zero)
    }
}

fn steady(tenths: i32) -> (ramp: Ramp)
    ensures
        ramp == constant(tenths),
{
    Ramp { base: tenths, slope: 0 }
}

/// Selects the colour rule for an escape count under a scheme.
pub fn iterations_to_color(
    iterations: u32,
    max_iterations: u32,
    color_scheme: &ColorScheme,
) -> (shade: Shade)
    ensures
        shade == shade_of(iterations, max_iterations, *color_scheme),
        iterations == max_iterations <==> shade == Shade::Black,
{
    if iterations == max_iterations {
        return Shade::Black;
    }
    match color_scheme {
        ColorScheme::Blue => Shade::Hsv {
            hue: HueRule::Sweep(Ramp { base: 2400, slope: -600 }),
            saturation: Ramp { base: 8, slope: 2 },
            value: Ramp { base: 7, slope: 3 },
        },
        ColorScheme::Red => Shade::Hsv {
            hue: HueRule::Sweep(Ramp { base: 0, slope: 600 }),
            saturation: steady(10),
            value: Ramp { base: 5, slope: 5 },
        },
        ColorScheme::Rainbow => Shade::Hsv {
            hue: HueRule::Sweep(Ramp { base: 0, slope: 3600 }),
            saturation: steady(8),
            value: steady(9),
        },
        ColorScheme::Greyscale => Shade::Grey,
        ColorScheme::Blueish => Shade::Hsv {
            hue: HueRule::Sweep(Ramp { base: 1800, slope: 600 }),
            saturation: steady(7),
            value: Ramp { base: 5, slope: 5 },
        },
        ColorScheme::Forest => Shade::Hsv {
            hue: HueRule::Sweep(Ramp { base: 1200, slope: -400 }),
            saturation: Ramp { base: 8, slope: -3 },
            value: Ramp { base: 4, slope: 6 },
        },
        ColorScheme::Electric => Shade::Waves { red: 8, green: 4, blue: 2 },
        ColorScheme::Pastel => Shade::Hsv {
            hue: HueRule::Sweep(Ramp { base: 0, slope: 3600 }),
            saturation: steady(4),
            value: steady(9),
        },
        ColorScheme::Monochrome(hue_bits) => Shade::Hsv {
            hue: HueRule::Fixed(*hue_bits),
            saturation: steady(8),
            value: Ramp { base: 0, slope: 10 },
        },
    }
}

/// The arrangement of the channels in one sector of the hue circle.
pub fn hsv_sector_channels(sector: u32) -> (levels: (Level, Level, Level))
    ensures
        levels == sector_levels(sector),
{
    match sector {
        0 => (Level::Chroma, Level::Cross, Level::Zero),
        1 => (Level::Cross, Level::Chroma, Level::Zero),
        2 => (Level::Zero, Level::Chroma, Level::Cross),
        3 => (Level::Zero, Level::Cross, Level::Chroma),
        4 => (Level::Cross, Level::Zero, Level::Chroma),
        5 => (Level::Chroma, Level::Zero, Level::Cross),
        _ => (Level::Zero, Level::Zero, Level::Zero),
    }
}

/// A member of the set is black under every scheme.
pub proof fn lemma_member_is_black(max_iterations: u32, scheme: ColorScheme)
    ensures
        shade_of(max_iterations, max_iterations, scheme) == Shade::Black,
{
}

/// In each of the six sectors every level goes to exactly one channel, and the
/// chroma goes to red next to 0 degrees, to green next to 120 and to blue next
/// to 240.
pub proof fn lemma_sector_arrangement(sector: u32)
    requires
        sector < 6,
    ensures
        ({
            let (r, g, b) = sector_levels(sector);
            &&& r != g && g != b && r != b
            &&& (r == Level::Chroma <==> sector == 0 || sector == 5)
            &&& (g == Level::Chroma <==> sector == 1 || sector == 2)
            &&& (b == Level::Chroma <==> sector == 3 || sector == 4)
        }),
{
}

/// Whether a ramp stays within `[0, 1]` at the speed of an escaped count.
pub open spec fn within_unit(ramp: Ramp, iterations: int, max_iterations: int) -> bool {
    0 <= ramp.scaled_at(iterations, max_iterations) <= 10 * max_iterations
}

/// Whether a hue rule gives degrees in `[0, 360)` at the speed of an escaped count.
pub open spec fn within_turn(hue: HueRule, iterations: int, max_iterations: int) -> bool {
    match hue {
        HueRule::Sweep(ramp) => 0 <= ramp.scaled_at(iterations, max_iterations) < 3600
            * max_iterations,
        HueRule::Fixed(hue_bits) => hue_bits < FULL_TURN_BITS,
    }
}

/// For every count that escaped, the rule of a scheme with a valid hue keeps
/// the hue inside the circle, so within the six sectors, and keeps saturation
/// and value inside `[0, 1]`.
pub proof fn lemma_hsv_within_domain(iterations: u32, max_iterations: u32, scheme: ColorScheme)
    requires
        iterations < max_iterations,
        scheme.wf(),
    ensures
        match shade_of(iterations, max_iterations, scheme) {
            Shade::Hsv { hue, saturation, value } => {
                &&& within_turn(hue, iterations as int, max_iterations as int)
                &&& within_unit(saturation, iterations as int, max_iterations as int)
                &&& within_unit(value, iterations as int, max_iterations as int)
            },
            Shade::Black => false,
            _ => true,
        },
{
}

} // verus!
