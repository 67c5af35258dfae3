//! The indicator's parameters and their validity.

use vstd::prelude::*;

verus! {

/// Direction of the radius change, and whether a drawn circle is erased before
/// the next one appears.
#[derive(Clone, Copy, Debug, PartialEq, Eq, Structural)]
pub enum Kind {
    Grow,
    GrowOutline,
    Shrink,
    ShrinkOutline,
}

impl Kind {
    /// True for the kinds whose circles get larger over time.
    pub open spec fn grows(self) -> bool {
        self == Kind::Grow || self == Kind::GrowOutline
    }

    /// True for the kinds that erase each circle once it has been shown.
    pub open spec fn clears(self) -> bool {
        self == Kind::GrowOutline || self == Kind::ShrinkOutline
    }

    pub fn is_growing(self) -> (b: bool)
        ensures
            b == self.grows(),
    {
        match self {
            Kind::Grow | Kind::GrowOutline => true,
            Kind::Shrink | Kind::ShrinkOutline => false,
        }
    }

    pub fn is_clearing(self) -> (b: bool)
        ensures
            b == self.clears(),
    {
        match self {
            Kind::GrowOutline | Kind::ShrinkOutline => true,
            Kind::Grow | Kind::Shrink => false,
        }
    }
}

/// Why a configuration cannot be played.
#[derive(Clone, Copy, Debug, PartialEq, Eq, Structural)]
pub enum ConfigError {
    /// `frame_count` is zero.
    InvalidFrameCount,
    /// `duration` is zero.
    InvalidDuration,
    /// `max_size + thickness` is more than a window's side can be.
    SurfaceTooLarge,
}

/// Parameters of one run of the indicator.
#[derive(Clone, Copy, Debug, PartialEq, Eq, Structural)]
pub struct IndicatorConfig {
    /// Diameter of the largest circle, in display pixels.
    pub max_size: u16,
    /// Total playback time, in milliseconds.
    pub duration: u64,
    /// Stroke width, in display pixels.
    pub thickness: u32,
    /// Number of circles shown.
    pub frame_count: u16,
    /// Stroke colour, packed as 0xRRGGBB.
    pub color: u32,
    /// Direction and erasing behaviour.
    pub animation_kind: Kind,
}

impl Default for IndicatorConfig {
    /// A white 300-pixel indicator that grows in 30 circles over half a second.
    fn default() -> (c: IndicatorConfig)
        ensures
            c == (IndicatorConfig {
                max_size: 300,
                duration: 500,
                thickness: 1,
                frame_count: 30,
                color: 0xFFFFFF,
                animation_kind: Kind::Grow,
            }),
    {
        IndicatorConfig {
            max_size: 300,
            duration: 500,
            thickness: 1,
            frame_count: 30,
            color: 0xFFFFFF,
            animation_kind: Kind::Grow,
        }
    }
}

impl IndicatorConfig {
    /// Side of the square overlay surface: the largest circle plus room for
    /// its stroke. `None` where that does not fit the protocol's 16-bit sizes.
    pub open spec fn padded_size(self) -> Option<u16> {
        if self.max_size + self.thickness <= u16::MAX {
            Some((self.max_size + self.thickness) as u16)
        } else {
            None
        }
    }

    /// The first reason, if any, for which the configuration is rejected:
    /// the frame count is looked at first, then the duration, then the
    /// surface.
    pub open spec fn fault(self) -> Option<ConfigError> {
        if self.frame_count == 0 {
            Some(ConfigError::InvalidFrameCount)
        } else if self.duration == 0 {
            Some(ConfigError::InvalidDuration)
        } else if self.padded_size().is_none() {
            Some(ConfigError::SurfaceTooLarge)
        } else {
            None
        }
    }

    /// Accepts a configuration with at least one frame, a positive duration
    /// and a surface that a window can have.
    pub fn validate(&self) -> (r: Result<(), ConfigError>)
        ensures
            r == (match self.fault() {
                Some(e) => Err::<(), ConfigError>(e),
                None => Ok(()),
            }),
    {
        if self.frame_count == 0 {
            Err(ConfigError::InvalidFrameCount)
        } else if self.duration == 0 {
            Err(ConfigError::InvalidDuration)
        } else if self.surface_size().is_none() {
            Err(ConfigError::SurfaceTooLarge)
        } else {
            Ok(())
        }
    }

    /// Side of the overlay surface, `max_size + thickness`, where it fits in
    /// sixteen bits.
    pub fn surface_size(&self) -> (r: Option<u16>)
        ensures
            r == self.padded_size(),
    {
        if self.thickness > 0xFFFF {
            return None;
        }
        let pad: u16 = self.thickness as u16;
        self.max_size.checked_add(pad)
    }
}

} // verus!
