//! Configuration and bookkeeping of the headless rendering runtime: the pixel
//! budget, the clock, and the checks applied before a frame is produced.

use vstd::prelude::*;

verus! {

/// Default upper bound for a rendered frame: 16,777,216 physical pixels.
///
/// An RGBA frame at this limit occupies 64 MiB before renderer and PNG encoder
/// overhead.
pub const DEFAULT_MAX_PIXELS: u64 = 16 * 1024 * 1024;

/// The largest span of time that `std::time::Duration` can hold, in nanoseconds:
/// `u64::MAX` seconds and 999,999,999 nanoseconds.
pub const MAX_DURATION_NANOS: u128 = 18_446_744_073_709_551_615_999_999_999;

/// Time source exposed to timers and animations.
#[derive(Clone, Copy, Debug, PartialEq, Eq, Structural)]
#[non_exhaustive]
pub enum ClockMode {
    /// Uses elapsed wall-clock time from runtime construction.
    RealTime,
    /// Starts at zero and advances only through explicit advancement.
    Manual,
}

impl Default for ClockMode {
    fn default() -> (r: Self)
        ensures
            r == ClockMode::RealTime,
    {
        ClockMode::RealTime
    }
}

/// Configures a runtime before it is installed.
#[derive(Clone, Copy, Debug)]
pub struct RuntimeBuilder {
    max_pixels: u64,
    clock_mode: ClockMode,
}

impl RuntimeBuilder {
    pub closed spec fn spec_max_pixels(&self) -> u64 {
        self.max_pixels
    }

    pub closed spec fn spec_clock_mode(&self) -> ClockMode {
        self.clock_mode
    }

    /// Creates a builder with [`DEFAULT_MAX_PIXELS`] and a real-time clock.
    pub fn new() -> (r: Self)
        ensures
            r.spec_max_pixels() == DEFAULT_MAX_PIXELS,
            r.spec_clock_mode() == ClockMode::RealTime,
    {
        RuntimeBuilder { max_pixels: DEFAULT_MAX_PIXELS, clock_mode: ClockMode::RealTime }
    }

    /// Sets the maximum physical pixel count for one rendered frame.
    pub fn max_pixels(self, max_pixels: u64) -> (r: Self)
        ensures
            r.spec_max_pixels() == max_pixels,
            r.spec_clock_mode() == self.spec_clock_mode(),
    {
        RuntimeBuilder { max_pixels, ..self }
    }

    /// Selects the time source used by timers and animations.
    pub fn clock_mode(self, clock_mode: ClockMode) -> (r: Self)
        ensures
            r.spec_max_pixels() == self.spec_max_pixels(),
            r.spec_clock_mode() == clock_mode,
    {
        RuntimeBuilder { clock_mode, ..self }
    }

    /// The configured pixel budget and clock mode, or the error that installing
    /// the runtime reports first: a zero pixel budget is rejected.
    pub fn checked_settings(self) -> (r: Result<(u64, ClockMode), RuntimeError>)
        ensures
            self.spec_max_pixels() == 0 ==> r == Err::<(u64, ClockMode), RuntimeError>(
                (RuntimeError::InvalidPixelLimit { max_pixels: 0 }),
            ),
            self.spec_max_pixels() != 0 ==> r == Ok::<(u64, ClockMode), RuntimeError>(
                (self.spec_max_pixels(), self.spec_clock_mode()),
            ),
    {
        if self.max_pixels == 0 {
            return Err(RuntimeError::InvalidPixelLimit { max_pixels: self.max_pixels });
        }
        Ok((self.max_pixels, self.clock_mode))
    }
}

impl Default for RuntimeBuilder {
    fn default() -> (r: Self)
        ensures
            r.spec_max_pixels() == DEFAULT_MAX_PIXELS,
            r.spec_clock_mode() == ClockMode::RealTime,
    {
        RuntimeBuilder::new()
    }
}

/// Errors produced while configuring or using the runtime whose causes are
/// integer quantities. Durations are given in nanoseconds.
#[derive(Clone, Debug, PartialEq, Eq)]
#[non_exhaustive]
pub enum RuntimeError {
    /// A platform is already installed for the current process.
    PlatformAlreadyInitialized,
    /// The renderer failed while operating on the component.
    Platform { operation: &'static str, message: String },
    /// The requested logical width or height is zero.
    InvalidLogicalSize { width: u32, height: u32 },
    /// The component has an empty physical rendering surface.
    EmptyPhysicalSize { width: u32, height: u32 },
    /// The requested frame exceeds the runtime's memory safety budget.
    PixelLimitExceeded { width: u32, height: u32, pixels: u64, max_pixels: u64 },
    /// A zero-pixel runtime budget was requested.
    InvalidPixelLimit { max_pixels: u64 },
    /// Manual advancement was requested from a real-time clock.
    ManualClockRequired,
    /// Advancing the manual clock would exceed the largest representable duration.
    ClockOverflow { elapsed_nanos: u128, advance_nanos: u128 },
}

/// Checks a physical surface against the runtime's pixel budget.
///
/// Returns an error for an empty surface, or for one with more than
/// `max_pixels` pixels.
pub fn validate_physical_size(width: u32, height: u32, max_pixels: u64) -> (r: Result<
    (),
    RuntimeError,
>)
    ensures
        width == 0 || height == 0 ==> r == Err::<(), RuntimeError>(
            (RuntimeError::EmptyPhysicalSize { width, height }),
        ),
        width != 0 && height != 0 && width * height > max_pixels ==> r == Err::<(), RuntimeError>(
            (RuntimeError::PixelLimitExceeded {
                width,
                height,
                pixels: (width * height) as u64,
                max_pixels,
            }),
        ),
        width != 0 && height != 0 && width * height <= max_pixels ==> r is Ok,
{
    if width == 0 || height == 0 {
        return Err(RuntimeError::EmptyPhysicalSize { width, height });
    }
    let pixels = pixel_count(width, height);
    if pixels > max_pixels {
        return Err(RuntimeError::PixelLimitExceeded { width, height, pixels, max_pixels });
    }
    Ok(())
}

/// The number of pixels of a `width` by `height` surface.
pub fn pixel_count(width: u32, height: u32) -> (r: u64)
    ensures
        r == width * height,
{
    let w: u64 = width as u64;
    let h: u64 = height as u64;
    assert(w * h <= u64::MAX) by (nonlinear_arith)
        requires
            w <= u32::MAX,
            h <= u32::MAX,
    ;
    w * h
}

/// Checks that a requested logical size is non-empty.
pub fn validate_logical_size(width: u32, height: u32) -> (r: Result<(), RuntimeError>)
    ensures
        width == 0 || height == 0 ==> r == Err::<(), RuntimeError>(
            (RuntimeError::InvalidLogicalSize { width, height }),
        ),
        width != 0 && height != 0 ==> r is Ok,
{
    if width == 0 || height == 0 {
        return Err(RuntimeError::InvalidLogicalSize { width, height });
    }
    Ok(())
}

/// The runtime's clock: wall-clock time, whose reading belongs to the caller,
/// or a manual clock that holds its elapsed time in nanoseconds.
#[derive(Clone, Copy, Debug)]
pub struct RuntimeClock {
    mode: ClockMode,
    elapsed_nanos: u128,
}

impl RuntimeClock {
    #[verifier::type_invariant]
    spec fn elapsed_fits(self) -> bool {
        &&& self.elapsed_nanos <= MAX_DURATION_NANOS
        &&& self.mode == ClockMode::RealTime ==> self.elapsed_nanos == 0
    }

    pub closed spec fn spec_mode(&self) -> ClockMode {
        self.mode
    }

    /// The elapsed time of a manual clock, in nanoseconds (0 for a real-time clock).
    pub closed spec fn spec_manual_elapsed(&self) -> u128 {
        self.elapsed_nanos
    }

    /// A clock of the given mode; a manual clock starts at zero.
    pub fn new(mode: ClockMode) -> (r: Self)
        ensures
            r.mode() == mode,
            r.spec_manual_elapsed() == 0,
    {
        RuntimeClock { mode, elapsed_nanos: 0 }
    }

    /// Which kind of clock this is.
    #[verifier::when_used_as_spec(spec_mode)]
    pub fn mode(&self) -> (r: ClockMode)
        ensures
            r == self.spec_mode(),
    {
        self.mode
    }

    /// The elapsed time of a manual clock; a real-time clock is read by its owner.
    pub fn manual_elapsed(&self) -> (r: Option<u128>)
        ensures
            self.mode() == ClockMode::RealTime ==> r is None,
            self.mode() == ClockMode::Manual ==> r == Some(self.spec_manual_elapsed()),
            r matches Some(n) ==> n <= MAX_DURATION_NANOS,
    {
        proof {
            use_type_invariant(self);
        }
        match self.mode {
            ClockMode::RealTime => None,
            ClockMode::Manual => Some(self.elapsed_nanos),
        }
    }

    /// Advances a manual clock and returns its new elapsed time.
    ///
    /// Returns an error, leaving the clock unchanged, when the clock runs in real
    /// time or the sum would exceed the largest representable duration.
    pub fn advance(&mut self, advance_nanos: u128) -> (r: Result<u128, RuntimeError>)
        ensures
            final(self).mode() == old(self).mode(),
            old(self).mode() == ClockMode::RealTime ==> r == Err::<u128, RuntimeError>(
                RuntimeError::ManualClockRequired,
            ) && final(self).spec_manual_elapsed() == old(self).spec_manual_elapsed(),
            old(self).mode() == ClockMode::Manual && old(self).spec_manual_elapsed() + advance_nanos
                <= MAX_DURATION_NANOS ==> r == Ok::<u128, RuntimeError>(
                (old(self).spec_manual_elapsed() + advance_nanos) as u128,
            ) && final(self).spec_manual_elapsed() == old(self).spec_manual_elapsed()
                + advance_nanos,
            old(self).mode() == ClockMode::Manual && old(self).spec_manual_elapsed() + advance_nanos
                > MAX_DURATION_NANOS ==> r == Err::<u128, RuntimeError>(
                (RuntimeError::ClockOverflow {
                    elapsed_nanos: old(self).spec_manual_elapsed(),
                    advance_nanos,
                }),
            ) && final(self).spec_manual_elapsed() == old(self).spec_manual_elapsed(),
    {
        proof {
            use_type_invariant(&*self);
        }
        match self.mode {
            ClockMode::RealTime => Err(RuntimeError::ManualClockRequired),
            ClockMode::Manual => {
                let elapsed_nanos = self.elapsed_nanos;
                if advance_nanos > MAX_DURATION_NANOS - elapsed_nanos {
                    return Err(RuntimeError::ClockOverflow { elapsed_nanos, advance_nanos });
                }
                let updated = elapsed_nanos + advance_nanos;
                *self = RuntimeClock { mode: ClockMode::Manual, elapsed_nanos: updated };
                Ok(updated)
            },
        }
    }
}

} // verus!
