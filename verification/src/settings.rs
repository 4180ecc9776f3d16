//! Settings that a caller may attach to a conversion.

use vstd::prelude::*;

verus! {

/// The pixel size at which a vector document is rasterized.
#[derive(Clone, Copy, Debug, PartialEq, Eq, Structural)]
pub struct SvgSettings {
    pub width: u32,
    pub height: u32,
}

/// Settings of a conversion, one variant for each kind of source that has any.
#[derive(Clone, Copy, Debug, PartialEq, Eq, Structural)]
pub enum Settings {
    Svg(SvgSettings),
}

impl Default for SvgSettings {
    /// 100 by 100 pixels.
    fn default() -> (settings: Self)
        ensures
            settings == (SvgSettings { width: 100, height: 100 }),
    {
        SvgSettings { width: 100, height: 100 }
    }
}

/// The rasterization settings in force for a vector source: those given for
/// it, else the default size.
pub open spec fn svg_settings_of(config: Option<Settings>) -> SvgSettings {
    match config {
        Some(Settings::Svg(settings)) => settings,
        None => SvgSettings { width: 100, height: 100 },
    }
}

/// Picks the rasterization settings for a vector source out of what the
/// caller attached, falling back to the default size.
pub fn svg_settings(config: Option<Settings>) -> (settings: SvgSettings)
    ensures
        settings == svg_settings_of(config),
{
    match config {
        Some(Settings::Svg(settings)) => settings,
        None => SvgSettings::default(),
    }
}

} // verus!
