use vstd::prelude::*;

verus! {

/// Integer part of the renderer's input record. The lens and field of view
/// are floating-point and are checked by the host.
#[derive(Clone, Copy, Debug, PartialEq, Eq, Structural)]
pub struct RenderConfig {
    pub image_width: u32,
    pub image_height: u32,
    pub samples_per_pixel: u16,
    pub max_depth: u8,
    pub rng_seed: Option<u64>,
}

/// Why a render configuration was refused.
#[derive(Clone, Copy, Debug, PartialEq, Eq, Structural)]
pub enum ConfigError {
    ZeroWidth,
    ZeroHeight,
    ZeroSamples,
    ZeroDepth,
    NegativeAperture,
    NonPositiveFocusDistance,
    FieldOfViewOutOfRange,
    UpParallelToView,
}

impl RenderConfig {
    /// A configuration is usable when every count is positive.
    pub open spec fn valid(&self) -> bool {
        &&& self.image_width > 0
        &&& self.image_height > 0
        &&& self.samples_per_pixel > 0
        &&& self.max_depth > 0
    }

    /// Number of pixels, which is also the number of progress ticks of a render.
    pub open spec fn spec_pixel_count(&self) -> int {
        self.image_width as int * self.image_height as int
    }

    /// Checks the counts, reporting the first zero among width, height,
    /// samples per pixel and depth, in that order.
    pub fn validate(&self) -> (r: Result<(), ConfigError>)
        ensures
            r is Ok <==> self.valid(),
            r == Err::<(), ConfigError>(ConfigError::ZeroWidth) <==> self.image_width == 0,
            r == Err::<(), ConfigError>(ConfigError::ZeroHeight) <==> (self.image_width > 0
                && self.image_height == 0),
            r == Err::<(), ConfigError>(ConfigError::ZeroSamples) <==> (self.image_width > 0
                && self.image_height > 0 && self.samples_per_pixel == 0),
            r == Err::<(), ConfigError>(ConfigError::ZeroDepth) <==> (self.image_width > 0
                && self.image_height > 0 && self.samples_per_pixel > 0 && self.max_depth == 0),
    {
        if self.image_width == 0 {
            Err(ConfigError::ZeroWidth)
        } else if self.image_height == 0 {
            Err(ConfigError::ZeroHeight)
        } else if self.samples_per_pixel == 0 {
            Err(ConfigError::ZeroSamples)
        } else if self.max_depth == 0 {
            Err(ConfigError::ZeroDepth)
        } else {
            Ok(())
        }
    }

    /// Width times height.
    pub fn pixel_count(&self) -> (r: u64)
        ensures
            r == self.spec_pixel_count(),
    {
        let w: u64 = self.image_width as u64;
        let h: u64 = self.image_height as u64;
        assert(w * h <= u32::MAX as int * u32::MAX as int) by (nonlinear_arith)
            requires
                w <= u32::MAX,
                h <= u32::MAX,
        ;
        w * h
    }
}

} // verus!
