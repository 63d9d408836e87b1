//! Frame geometry shared by the analyser and the synthesiser.
use vstd::prelude::*;

verus! {

/// `n` is a power of two: 1, 2, 4, 8, ...
pub open spec fn is_pow2(n: nat) -> bool
    decreases n,
{
    if n == 1 {
        true
    } else if n == 0 || n % 2 == 1 {
        false
    } else {
        is_pow2(n / 2)
    }
}

/// Decides whether `n` is a power of two.
pub fn is_power_of_two(n: usize) -> (r: bool)
    ensures
        r == is_pow2(n as nat),
{
    let mut m: usize = n;
    while m > 1 && m % 2 == 0
        invariant
            is_pow2(n as nat) == is_pow2(m as nat),
        decreases m,
    {
        m = m / 2;
    }
    m == 1
}

/// Why a frame geometry was refused.
#[derive(Debug, Clone, Copy, PartialEq, Eq, Structural)]
pub enum ConfigError {
    /// The frame size is not a power of two.
    FrameSizeNotPowerOfTwo,
    /// The step size is not smaller than the frame size.
    StepTooLarge,
    /// The step size is zero.
    StepZero,
}

/// The error that `FrameConfig::new` reports for a frame size `n` and a step
/// size `h`, or `None` when the two are accepted.
pub open spec fn config_error(n: nat, h: nat) -> Option<ConfigError> {
    if !is_pow2(n) {
        Some(ConfigError::FrameSizeNotPowerOfTwo)
    } else if h >= n {
        Some(ConfigError::StepTooLarge)
    } else if h == 0 {
        Some(ConfigError::StepZero)
    } else {
        None
    }
}

/// For a non-zero step `h`, a geometry is refused exactly when the frame
/// size `n` is not a power of two or the step is not smaller than it.
pub proof fn lemma_refused_iff(n: nat, h: nat)
    requires
        h > 0,
    ensures
        config_error(n, h) is Some <==> (!is_pow2(n) || h >= n),
{
}

/// Sample rate, frame size `N` (a power of two) and step size `H`
/// (`0 < H < N`) of one analysis or synthesis stream.
#[derive(Debug, Clone, Copy)]
pub struct FrameConfig {
    sample_rate: usize,
    frame_size: usize,
    step_size: usize,
}

impl FrameConfig {
    #[verifier::type_invariant]
    spec fn inv(self) -> bool {
        config_error(self.frame_size as nat, self.step_size as nat) is None
    }

    pub closed spec fn spec_sample_rate(self) -> nat {
        self.sample_rate as nat
    }

    pub closed spec fn spec_frame_size(self) -> nat {
        self.frame_size as nat
    }

    pub closed spec fn spec_step_size(self) -> nat {
        self.step_size as nat
    }

    /// Checks the geometry: refused exactly when the frame size is not a power
    /// of two, or the step is not in `1 .. frame_size`.
    pub fn new(sample_rate: usize, frame_size: usize, step_size: usize) -> (r: Result<
        FrameConfig,
        ConfigError,
    >)
        ensures
            r is Ok <==> config_error(frame_size as nat, step_size as nat) is None,
            r matches Err(e) ==> config_error(frame_size as nat, step_size as nat) == Some(e),
            r matches Ok(c) ==> c.spec_sample_rate() == sample_rate && c.spec_frame_size()
                == frame_size && c.spec_step_size() == step_size,
    {
        if !is_power_of_two(frame_size) {
            return Err(ConfigError::FrameSizeNotPowerOfTwo);
        }
        if step_size >= frame_size {
            return Err(ConfigError::StepTooLarge);
        }
        if step_size == 0 {
            return Err(ConfigError::StepZero);
        }
        Ok(FrameConfig { sample_rate, frame_size, step_size })
    }

    pub fn sample_rate(&self) -> (r: usize)
        ensures
            r == self.spec_sample_rate(),
    {
        self.sample_rate
    }

    pub fn frame_size(&self) -> (r: usize)
        ensures
            r == self.spec_frame_size(),
            is_pow2(r as nat),
    {
        proof {
            use_type_invariant(self);
        }
        self.frame_size
    }

    pub fn step_size(&self) -> (r: usize)
        ensures
            r == self.spec_step_size(),
            0 < r < self.spec_frame_size(),
    {
        proof {
            use_type_invariant(self);
        }
        self.step_size
    }

    /// Number of frequency bins of a spectral frame: `N / 2`.
    pub fn bin_count(&self) -> (r: usize)
        ensures
            r == self.spec_frame_size() / 2,
    {
        self.frame_size / 2
    }
}

} // verus!
