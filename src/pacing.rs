use vstd::arithmetic::div_mod::lemma_fundamental_div_mod;
use vstd::prelude::*;

verus! {

/// Nanoseconds in one second.
pub const NANOS_PER_SEC: u128 = 1_000_000_000;

/// Parts per thousand: the unit of the threshold coefficient.
pub const PER_MILLE: u128 = 1000;

/// Whether `elapsed_ns` nanoseconds reach `permille / 1000` of the duration of a
/// frame of `frame_length` samples played at `nominal_rate` samples per second.
///
/// With both sides multiplied out, `elapsed_ns / 10^9 >= (permille / 1000) * (frame_length / nominal_rate)`.
pub open spec fn window_reached(elapsed_ns: int, frame_length: int, nominal_rate: int, permille: int) -> bool {
    elapsed_ns * 1000 * nominal_rate >= permille * frame_length * 1_000_000_000
}

/// Decides when the read cursor may advance: at most once per pacing window,
/// and never past the write cursor.
pub struct PacingController {
    frame_length: usize,
    nominal_rate: usize,
    threshold_permille: u32,
    window_ns: u128,
}

impl PacingController {
    /// Samples per frame.
    pub closed spec fn frame_len(&self) -> nat {
        self.frame_length as nat
    }

    /// Samples per second.
    pub closed spec fn rate(&self) -> nat {
        self.nominal_rate as nat
    }

    /// The threshold coefficient, in parts per thousand of a frame's duration.
    pub closed spec fn permille(&self) -> nat {
        self.threshold_permille as nat
    }

    /// The precomputed window is the least number of nanoseconds that reaches it.
    pub closed spec fn wf(&self) -> bool {
        &&& self.nominal_rate > 0
        &&& self.window_ns * (PER_MILLE * self.nominal_rate) >= self.threshold_permille * self.frame_length
            * NANOS_PER_SEC
        &&& (self.window_ns == 0 || (self.window_ns - 1) * (PER_MILLE * self.nominal_rate)
            < self.threshold_permille * self.frame_length * NANOS_PER_SEC)
    }

    /// Whether `elapsed_ns` nanoseconds since the last advance open the window.
    pub open spec fn window_elapsed(&self, elapsed_ns: int) -> bool {
        window_reached(elapsed_ns, self.frame_len() as int, self.rate() as int, self.permille() as int)
    }

    /// A controller for frames of `frame_length` samples at `nominal_rate`
    /// samples per second, opening after `threshold_permille / 1000` of a frame's duration.
    pub fn new(frame_length: usize, nominal_rate: usize, threshold_permille: u32) -> (r: Self)
        requires
            nominal_rate > 0,
        ensures
            r.wf(),
            r.frame_len() == frame_length,
            r.rate() == nominal_rate,
            r.permille() == threshold_permille,
    {
        let p = threshold_permille as u128;
        let l = frame_length as u128;
        let rate = nominal_rate as u128;
        assert(p * l <= 0xffff_ffff * 0xffff_ffff_ffff_ffff) by (nonlinear_arith)
            requires
                p <= 0xffff_ffff,
                l <= 0xffff_ffff_ffff_ffff,
        ;
        assert(p * l * NANOS_PER_SEC <= 0xffff_ffff * 0xffff_ffff_ffff_ffff * 1_000_000_000) by (nonlinear_arith)
            requires
                p * l <= 0xffff_ffff * 0xffff_ffff_ffff_ffff,
        ;
        let num: u128 = p * l * NANOS_PER_SEC;
        let den: u128 = PER_MILLE * rate;
        let window_ns: u128 = (num + (den - 1)) / den;
        proof {
            let q = window_ns as int;
            let t = (num + den - 1) as int;
            lemma_fundamental_div_mod(t, den as int);
            assert(q == t / den as int);
            assert(q * den >= num && (q == 0 || (q - 1) * den < num)) by (nonlinear_arith)
                requires
                    t == den * q + t % (den as int),
                    0 <= t % (den as int) < den,
                    t == num + den - 1,
                    den > 0,
                    q >= 0,
            ;
        }
        PacingController { frame_length, nominal_rate, threshold_permille, window_ns }
    }

    /// Whether the read cursor may advance, with `read` and `write` the two
    /// counters and `elapsed_ns` the time since the last accepted advance.
    pub fn may_advance(&self, read: u64, write: u64, elapsed_ns: u64) -> (r: bool)
        requires
            self.wf(),
        ensures
            r == (read < write && self.window_elapsed(elapsed_ns as int)),
    {
        proof {
            self.lemma_window_matches(elapsed_ns as int);
        }
        read < write && elapsed_ns as u128 >= self.window_ns
    }

    proof fn lemma_window_matches(&self, e: int)
        requires
            self.wf(),
            e >= 0,
        ensures
            (e >= self.window_ns) == self.window_elapsed(e),
    {
        let den = 1000 * self.nominal_rate as int;
        let w = self.window_ns as int;
        assert(e * 1000 * self.nominal_rate == e * den) by (nonlinear_arith)
            requires
                den == 1000 * self.nominal_rate as int,
        ;
        if e >= w {
            assert(e * den >= w * den) by (nonlinear_arith)
                requires
                    e >= w,
                    den >= 0,
            ;
        } else {
            assert(e * den <= (w - 1) * den) by (nonlinear_arith)
                requires
                    e <= w - 1,
                    den >= 0,
            ;
        }
    }
}

} // verus!
