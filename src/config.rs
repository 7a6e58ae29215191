use vstd::prelude::*;

verus! {

/// Why a requested setting was refused.
#[derive(Debug, Clone, Copy, PartialEq, Eq, Structural)]
pub enum ConfigurationError {
    /// The exposure time exceeds what the source supports.
    ExposureOutOfRange,
    /// A side of the resolution is zero or exceeds what the source supports.
    ResolutionOutOfRange,
}

/// What a source supports: the longest exposure and the largest image.
#[derive(Debug, Clone, Copy, PartialEq, Eq, Structural)]
pub struct Limits {
    pub max_exposure_ns: u64,
    pub max_width: usize,
    pub max_height: usize,
}

/// An exposure time, in nanoseconds, that a source with these limits accepts.
pub open spec fn exposure_in_range(limits: Limits, exposure_ns: u64) -> bool {
    exposure_ns <= limits.max_exposure_ns
}

/// A resolution `[width, height]` that a source with these limits accepts.
pub open spec fn resolution_in_range(limits: Limits, resolution: [usize; 2]) -> bool {
    &&& 0 < resolution[0] <= limits.max_width
    &&& 0 < resolution[1] <= limits.max_height
}

/// The acquisition parameters in effect: exposure time in nanoseconds and
/// resolution `[width, height]`, always within the source's limits.
#[derive(Debug, Clone, Copy)]
pub struct Settings {
    limits: Limits,
    exposure_ns: u64,
    resolution: [usize; 2],
}

impl Settings {
    #[verifier::type_invariant]
    spec fn within_limits(&self) -> bool {
        &&& exposure_in_range(self.limits, self.exposure_ns)
        &&& resolution_in_range(self.limits, self.resolution)
    }

    pub closed spec fn limits(&self) -> Limits {
        self.limits
    }

    pub closed spec fn exposure(&self) -> u64 {
        self.exposure_ns
    }

    pub closed spec fn resolution(&self) -> [usize; 2] {
        self.resolution
    }

    /// Settings with the given limits, exposure and resolution; refused when
    /// either value lies outside the limits (the exposure is checked first).
    pub fn new(limits: Limits, exposure_ns: u64, resolution: [usize; 2]) -> (r: Result<
        Settings,
        ConfigurationError,
    >)
        ensures
            !exposure_in_range(limits, exposure_ns) ==> r == Err::<Settings, _>(
                ConfigurationError::ExposureOutOfRange,
            ),
            exposure_in_range(limits, exposure_ns) && !resolution_in_range(limits, resolution)
                ==> r == Err::<Settings, _>(ConfigurationError::ResolutionOutOfRange),
            exposure_in_range(limits, exposure_ns) && resolution_in_range(limits, resolution)
                ==> (r matches Ok(s) && s.limits() == limits && s.exposure() == exposure_ns
                && s.resolution() == resolution),
    {
        if exposure_ns > limits.max_exposure_ns {
            return Err(ConfigurationError::ExposureOutOfRange);
        }
        if !Self::resolution_fits(&limits, resolution) {
            return Err(ConfigurationError::ResolutionOutOfRange);
        }
        Ok(Settings { limits, exposure_ns, resolution })
    }

    fn resolution_fits(limits: &Limits, resolution: [usize; 2]) -> (r: bool)
        ensures
            r == resolution_in_range(*limits, resolution),
    {
        0 < resolution[0] && resolution[0] <= limits.max_width && 0 < resolution[1]
            && resolution[1] <= limits.max_height
    }

    /// The limits these settings were made with.
    pub fn get_limits(&self) -> (r: Limits)
        ensures
            r == self.limits(),
    {
        self.limits
    }

    /// The exposure time in nanoseconds.
    pub fn get_exposure(&self) -> (r: u64)
        ensures
            r == self.exposure(),
    {
        self.exposure_ns
    }

    /// The resolution `[width, height]`.
    pub fn get_resolution(&self) -> (r: [usize; 2])
        ensures
            r == self.resolution(),
    {
        self.resolution
    }

    /// Set the exposure time; refused, with nothing changed, when it exceeds
    /// the limits.
    pub fn set_exposure(&mut self, exposure_ns: u64) -> (r: Result<(), ConfigurationError>)
        ensures
            exposure_in_range(old(self).limits(), exposure_ns) <==> r is Ok,
            r is Err ==> r == Err::<(), _>(ConfigurationError::ExposureOutOfRange)
                && *final(self) == *old(self),
            r is Ok ==> final(self).exposure() == exposure_ns && final(self).limits() == old(
                self,
            ).limits() && final(self).resolution() == old(self).resolution(),
    {
        proof {
            use_type_invariant(&*self);
        }
        if exposure_ns > self.limits.max_exposure_ns {
            return Err(ConfigurationError::ExposureOutOfRange);
        }
        self.exposure_ns = exposure_ns;
        Ok(())
    }

    /// Set the resolution `[width, height]`; refused, with nothing changed,
    /// when a side is zero or exceeds the limits.
    pub fn set_resolution(&mut self, resolution: [usize; 2]) -> (r: Result<(), ConfigurationError>)
        ensures
            resolution_in_range(old(self).limits(), resolution) <==> r is Ok,
            r is Err ==> r == Err::<(), _>(ConfigurationError::ResolutionOutOfRange)
                && *final(self) == *old(self),
            r is Ok ==> final(self).resolution() == resolution && final(self).limits() == old(
                self,
            ).limits() && final(self).exposure() == old(self).exposure(),
    {
        proof {
            use_type_invariant(&*self);
        }
        if !Self::resolution_fits(&self.limits, resolution) {
            return Err(ConfigurationError::ResolutionOutOfRange);
        }
        self.resolution = resolution;
        Ok(())
    }
}

} // verus!
