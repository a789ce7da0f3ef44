use vstd::prelude::*;

verus! {

/// The integer render configuration carried by the camera: how many
/// jittered samples each pixel accumulates, and how many bounces the
/// radiance estimator may take.  Values of this type only exist in
/// well-formed states.
#[derive(Copy, Clone, Debug, PartialEq, Eq, Structural)]
pub struct RenderConfig {
    samples_per_pixel: usize,
    max_depth: usize,
}

impl RenderConfig {
    /// The number of jittered draws accumulated per pixel.
    pub closed spec fn spec_samples_per_pixel(self) -> usize {
        self.samples_per_pixel
    }

    /// The bounce budget the estimator starts from.
    pub closed spec fn spec_max_depth(self) -> usize {
        self.max_depth
    }

    /// A configuration is well formed when it draws at least one sample per
    /// pixel.  Every bounce budget is meaningful, zero included: it renders
    /// a black frame.
    #[verifier::type_invariant]
    pub closed spec fn wf(self) -> bool {
        self.samples_per_pixel >= 1
    }

    /// Build a configuration, rejecting exactly a sample count of zero: the
    /// frame sampler divides the accumulated radiance by the sample count,
    /// so zero draws are a caller contract violation caught at
    /// construction.
    pub fn new(samples_per_pixel: usize, max_depth: usize) -> (cfg: Option<RenderConfig>)
        ensures
            match cfg {
                Some(c) => samples_per_pixel >= 1
                    && c.spec_samples_per_pixel() == samples_per_pixel
                    && c.spec_max_depth() == max_depth,
                None => samples_per_pixel == 0,
            },
    {
        if samples_per_pixel == 0 {
            None
        } else {
            Some(RenderConfig { samples_per_pixel, max_depth })
        }
    }

    /// The number of jittered draws accumulated per pixel; never zero, so
    /// averaging by it is safe.
    pub fn samples_per_pixel(&self) -> (n: usize)
        ensures
            n == self.spec_samples_per_pixel(),
            n >= 1,
    {
        proof {
            use_type_invariant(&self);
        }
        self.samples_per_pixel
    }

    /// The bounce budget the estimator starts from.
    pub fn max_depth(&self) -> (d: usize)
        ensures
            d == self.spec_max_depth(),
    {
        self.max_depth
    }
}

} // verus!
