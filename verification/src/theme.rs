//! The choices of the theme that do not depend on how colours are held:
//! whether the dark theme applies, and which colour of a palette stands for
//! a level of usage.

use crate::fixed::{saturate, Fixed};
use vstd::prelude::*;

verus! {

/// Usage from which on the warning colour applies: fifty percent.
pub const WARNING_FROM_MILLI: i64 = 50_000;

/// Usage from which on the danger colour applies: eighty percent.
pub const DANGER_FROM_MILLI: i64 = 80_000;

/// The theme that the user chose.
#[derive(Clone, Copy, Debug, PartialEq, Eq, Structural)]
pub enum ThemeMode {
    /// Follow the appearance of the system.
    System,
    Light,
    Dark,
}

/// The appearance of the windows of the system.
#[derive(Clone, Copy, Debug, PartialEq, Eq, Structural)]
pub enum WindowAppearance {
    Light,
    VibrantLight,
    Dark,
    VibrantDark,
}

/// How heavy a usage is, for the choice of a colour.
#[derive(Clone, Copy, Debug, PartialEq, Eq, Structural)]
pub enum UsageLevel {
    /// Below fifty percent.
    Good,
    /// From fifty to below eighty percent.
    Warning,
    /// Eighty percent and more.
    Danger,
}

impl WindowAppearance {
    /// Whether this is one of the two dark appearances.
    pub open spec fn dark(self) -> bool {
        self == WindowAppearance::Dark || self == WindowAppearance::VibrantDark
    }
}

/// Whether the dark theme applies: by the user's choice, or by the system's
/// appearance where the user follows the system.
pub open spec fn dark_mode_of(mode: ThemeMode, appearance: WindowAppearance) -> bool {
    match mode {
        ThemeMode::Dark => true,
        ThemeMode::Light => false,
        ThemeMode::System => appearance.dark(),
    }
}

/// The level of a usage given in thousandths of a percent.
pub open spec fn level_of(used_milli: int) -> UsageLevel {
    if used_milli < WARNING_FROM_MILLI {
        UsageLevel::Good
    } else if used_milli < DANGER_FROM_MILLI {
        UsageLevel::Warning
    } else {
        UsageLevel::Danger
    }
}

/// Whether the dark theme applies.
pub fn is_dark_mode(mode: ThemeMode, appearance: WindowAppearance) -> (dark: bool)
    ensures
        dark == dark_mode_of(mode, appearance),
{
    match mode {
        ThemeMode::Dark => true,
        ThemeMode::Light => false,
        ThemeMode::System => match appearance {
            WindowAppearance::Dark => true,
            WindowAppearance::VibrantDark => true,
            _ => false,
        },
    }
}

/// The level of a usage: good below fifty percent, warning below eighty,
/// danger from eighty on.
pub fn usage_level(used_percent: Fixed) -> (level: UsageLevel)
    ensures
        level == level_of(used_percent@),
{
    if used_percent.milli < WARNING_FROM_MILLI {
        UsageLevel::Good
    } else if used_percent.milli < DANGER_FROM_MILLI {
        UsageLevel::Warning
    } else {
        UsageLevel::Danger
    }
}

/// The colours of a usage bar, whatever a colour is.
#[derive(Debug)]
pub struct UsageColors<C> {
    pub good: C,
    pub warning: C,
    pub danger: C,
    pub background: C,
}

impl<C> UsageColors<C> {
    /// The colour of a level.
    pub open spec fn colour_of(self, level: UsageLevel) -> C {
        match level {
            UsageLevel::Good => self.good,
            UsageLevel::Warning => self.warning,
            UsageLevel::Danger => self.danger,
        }
    }

    /// The colour for a percentage of usage: the good colour for a low usage,
    /// the danger colour for a high one.
    pub fn for_usage(&self, used_percent: Fixed) -> (colour: &C)
        ensures
            *colour == self.colour_of(level_of(used_percent@)),
    {
        match usage_level(used_percent) {
            UsageLevel::Good => &self.good,
            UsageLevel::Warning => &self.warning,
            UsageLevel::Danger => &self.danger,
        }
    }

    /// The colour for a percentage that remains: that of the usage that is
    /// left to one hundred percent.
    pub fn for_percent(&self, percent_remaining: Fixed) -> (colour: &C)
        ensures
            *colour == self.colour_of(level_of(saturate(100_000 - percent_remaining@))),
    {
        let used: i128 = 100_000 - percent_remaining.milli as i128;
        let used = if used > i64::MAX as i128 {
            i64::MAX
        } else {
            used as i64
        };
        self.for_usage(Fixed { milli: used })
    }
}

/// A heavier usage never gets a lighter level.
pub proof fn lemma_level_monotone(a: int, b: int)
    requires
        a <= b,
    ensures
        level_of(a) == UsageLevel::Danger ==> level_of(b) == UsageLevel::Danger,
        level_of(b) == UsageLevel::Good ==> level_of(a) == UsageLevel::Good,
{
}

} // verus!
