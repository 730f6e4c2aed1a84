//! Audio/video settings of a loaded game. Floating-point values of the protocol (frame rate,
//! sample rate, aspect ratio) are carried as their IEEE-754 bit patterns.
use vstd::prelude::*;

verus! {

/// Relies on `RangeInclusive::start`: it returns the lower bound the range was built with, until
/// the range has been iterated to exhaustion.
pub assume_specification<Idx>[ core::ops::RangeInclusive::<Idx>::start ](
    r: &core::ops::RangeInclusive<Idx>,
) -> (s: &Idx)
    ensures
        !r@.exhausted ==> *s == r@.start,
;

/// Relies on `RangeInclusive::end`: it returns the upper bound the range was built with, until
/// the range has been iterated to exhaustion.
pub assume_specification<Idx>[ core::ops::RangeInclusive::<Idx>::end ](
    r: &core::ops::RangeInclusive<Idx>,
) -> (s: &Idx)
    ensures
        !r@.exhausted ==> *s == r@.end,
;

/// The dimensions of the frames a game produces.
#[derive(Clone, Copy, Debug, PartialEq, Eq, Structural)]
pub struct GameGeometry {
    pub base_width: u16,
    pub base_height: u16,
    pub max_width: u16,
    pub max_height: u16,
    /// Bit pattern of the `f32` aspect ratio; zero (0.0) lets the frontend derive it from the
    /// base dimensions.
    pub aspect_ratio_bits: u32,
}

impl GameGeometry {
    /// A geometry of fixed width and height, with the aspect ratio derived from them.
    pub fn fixed(width: u16, height: u16) -> (r: Self)
        ensures
            r == (GameGeometry {
                base_width: width,
                base_height: height,
                max_width: width,
                max_height: height,
                aspect_ratio_bits: 0,
            }),
    {
        GameGeometry {
            base_width: width,
            base_height: height,
            max_width: width,
            max_height: height,
            aspect_ratio_bits: 0,
        }
    }

    /// A geometry whose base and largest dimensions are the bounds of the given ranges, with the
    /// aspect ratio derived from the base dimensions.
    pub fn variable(
        width: core::ops::RangeInclusive<u16>,
        height: core::ops::RangeInclusive<u16>,
    ) -> (r: Self)
        ensures
            !width@.exhausted ==> r.base_width == width@.start && r.max_width == width@.end,
            !height@.exhausted ==> r.base_height == height@.start && r.max_height == height@.end,
            r.aspect_ratio_bits == 0,
    {
        Self::new(width, height, 0)
    }

    /// A geometry from ranges of width and height and the bit pattern of an `f32` aspect ratio.
    pub fn new(
        width: core::ops::RangeInclusive<u16>,
        height: core::ops::RangeInclusive<u16>,
        aspect_ratio_bits: u32,
    ) -> (r: Self)
        ensures
            !width@.exhausted ==> r.base_width == width@.start && r.max_width == width@.end,
            !height@.exhausted ==> r.base_height == height@.start && r.max_height == height@.end,
            r.aspect_ratio_bits == aspect_ratio_bits,
    {
        GameGeometry {
            base_width: *width.start(),
            base_height: *height.start(),
            max_width: *width.end(),
            max_height: *height.end(),
            aspect_ratio_bits,
        }
    }

    pub fn base_width(&self) -> (r: u16)
        ensures
            r == self.base_width,
    {
        self.base_width
    }

    pub fn base_height(&self) -> (r: u16)
        ensures
            r == self.base_height,
    {
        self.base_height
    }

    pub fn max_width(&self) -> (r: u16)
        ensures
            r == self.max_width,
    {
        self.max_width
    }

    pub fn max_height(&self) -> (r: u16)
        ensures
            r == self.max_height,
    {
        self.max_height
    }

    pub fn aspect_ratio_bits(&self) -> (r: u32)
        ensures
            r == self.aspect_ratio_bits,
    {
        self.aspect_ratio_bits
    }
}

/// Bit pattern of the `f64` value 60.0.
pub const DEFAULT_FPS_BITS: u64 = 0x404e_0000_0000_0000;

/// Bit pattern of the `f64` value 44100.0.
pub const DEFAULT_SAMPLE_RATE_BITS: u64 = 0x40e5_8880_0000_0000;

/// Frame rate and audio sample rate, each the bit pattern of an `f64`.
#[derive(Clone, Copy, Debug, PartialEq, Eq, Structural)]
pub struct SystemTiming {
    pub fps_bits: u64,
    pub sample_rate_bits: u64,
}

impl SystemTiming {
    pub fn new(fps_bits: u64, sample_rate_bits: u64) -> (r: Self)
        ensures
            r.fps_bits == fps_bits,
            r.sample_rate_bits == sample_rate_bits,
    {
        SystemTiming { fps_bits, sample_rate_bits }
    }

    pub fn fps_bits(&self) -> (r: u64)
        ensures
            r == self.fps_bits,
    {
        self.fps_bits
    }

    pub fn sample_rate_bits(&self) -> (r: u64)
        ensures
            r == self.sample_rate_bits,
    {
        self.sample_rate_bits
    }
}

impl Default for SystemTiming {
    /// 60 frames per second and a 44.1 kHz sample rate.
    fn default() -> (r: Self)
        ensures
            r.fps_bits == DEFAULT_FPS_BITS,
            r.sample_rate_bits == DEFAULT_SAMPLE_RATE_BITS,
    {
        SystemTiming { fps_bits: DEFAULT_FPS_BITS, sample_rate_bits: DEFAULT_SAMPLE_RATE_BITS }
    }
}

/// Geometry and timing of a loaded game.
#[derive(Clone, Copy, Debug, PartialEq, Eq, Structural)]
pub struct SystemAVInfo {
    pub geometry: GameGeometry,
    pub timing: SystemTiming,
}

impl SystemAVInfo {
    pub fn new(geometry: GameGeometry, timing: SystemTiming) -> (r: Self)
        ensures
            r.geometry == geometry,
            r.timing == timing,
    {
        SystemAVInfo { geometry, timing }
    }

    /// The given geometry with the default timing.
    pub fn default_timings(geometry: GameGeometry) -> (r: Self)
        ensures
            r.geometry == geometry,
            r.timing.fps_bits == DEFAULT_FPS_BITS,
            r.timing.sample_rate_bits == DEFAULT_SAMPLE_RATE_BITS,
    {
        Self::new(geometry, SystemTiming::default())
    }

    pub fn geometry(&self) -> (r: GameGeometry)
        ensures
            r == self.geometry,
    {
        self.geometry
    }

    pub fn timing(&self) -> (r: SystemTiming)
        ensures
            r == self.timing,
    {
        self.timing
    }
}

} // verus!
