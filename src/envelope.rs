//! Peak-hold-with-decay smoothing of successive spectra.
use vstd::prelude::*;
use crate::control::{DECAY_MAX, DECAY_ONE};
use crate::spectrum::{Bin, Spectrum};

verus! {

/// The number of buckets of an envelope.
pub const ENVELOPE_BINS: usize = 69;

/// One bucket's next value: instant attack to a louder magnitude,
/// otherwise geometric release by `decay / DECAY_ONE` (rounded down).
/// `None` stands for a bucket that the spectrum does not reach.
pub open spec fn spec_bucket(held: int, incoming: Option<int>, decay: int) -> int {
    match incoming {
        Some(m) if m > held => m,
        _ => held * decay / DECAY_ONE as int,
    }
}

/// The magnitude that a spectrum brings to bucket `i`, if it reaches it.
pub open spec fn incoming(bins: Seq<Bin>, i: int) -> Option<int> {
    if i < bins.len() {
        Some(bins[i].mag as int)
    } else {
        None
    }
}

/// The next buffer: each bucket updated from the bin of the same index.
pub open spec fn spec_smooth(held: Seq<u64>, bins: Seq<Bin>, decay: int) -> Seq<int> {
    Seq::new(held.len(), |i: int| spec_bucket(held[i] as int, incoming(bins, i), decay))
}

/// A fixed-size buffer of held magnitudes, in millionths.
#[derive(Debug)]
pub struct EnvelopeBuffer {
    held: Vec<u64>,
}

impl EnvelopeBuffer {
    pub closed spec fn view(&self) -> Seq<u64> {
        self.held@
    }

    pub open spec fn wf(&self) -> bool {
        self@.len() == ENVELOPE_BINS
    }

    /// A silent envelope: every bucket at zero.
    pub fn new() -> (r: EnvelopeBuffer)
        ensures
            r.wf(),
            forall|i: int| 0 <= i < r@.len() ==> r@[i] == 0,
    {
        let mut held: Vec<u64> = Vec::new();
        while held.len() < ENVELOPE_BINS
            invariant
                held@.len() <= ENVELOPE_BINS,
                forall|i: int| 0 <= i < held@.len() ==> held@[i] == 0,
            decreases ENVELOPE_BINS - held@.len(),
        {
            held.push(0);
        }
        EnvelopeBuffer { held }
    }

    /// The held magnitudes.
    pub fn values(&self) -> (r: &Vec<u64>)
        ensures
            r@ == self@,
    {
        &self.held
    }

    /// Smooths the buffer against a new spectrum with the given decay
    /// factor (in ten-thousandths). Bins beyond the buffer are ignored;
    /// buckets beyond the spectrum's bins decay.
    pub fn smooth(&mut self, spectrum: &Spectrum, decay: u32)
        requires
            old(self).wf(),
            decay <= DECAY_MAX,
        ensures
            final(self).wf(),
            final(self)@.map_values(|v: u64| v as int) == spec_smooth(
                old(self)@,
                spectrum.spec_bins(),
                decay as int,
            ),
    {
        let bins = spectrum.bins();
        let mut i: usize = 0;
        while i < self.held.len()
            invariant
                self.held@.len() == old(self).held@.len(),
                old(self).wf(),
                bins@ == spectrum.spec_bins(),
                decay <= DECAY_MAX,
                forall|k: int|
                    0 <= k < i ==> self.held@[k] as int == spec_bucket(
                        old(self).held@[k] as int,
                        incoming(bins@, k),
                        decay as int,
                    ),
                forall|k: int| i <= k < self.held@.len() ==> self.held@[k] == old(self).held@[k],
            decreases self.held@.len() - i,
        {
            let h = self.held[i];
            let next = if i < bins.len() && bins[i].mag > h {
                bins[i].mag
            } else {
                decayed(h, decay)
            };
            self.held.set(i, next);
            i = i + 1;
        }
        assert(self@.map_values(|v: u64| v as int) =~= spec_smooth(
            old(self)@,
            spectrum.spec_bins(),
            decay as int,
        ));
    }
}

fn decayed(h: u64, decay: u32) -> (r: u64)
    requires
        decay <= DECAY_MAX,
    ensures
        r as int == h as int * decay as int / DECAY_ONE as int,
{
    assert(h as int * decay as int <= 0xffff_ffff_ffff_ffff * 9_999) by (nonlinear_arith)
        requires
            h <= 0xffff_ffff_ffff_ffff,
            decay <= 9_999,
    ;
    let p = h as u128 * decay as u128;
    let q = p / DECAY_ONE as u128;
    assert(q <= h) by (nonlinear_arith)
        requires
            p == h as int * decay as int,
            q == p / 10_000,
            decay <= 9_999,
    ;
    q as u64
}

/// Against a spectrum of silence (every magnitude zero, or no bins at all),
/// every held value strictly drops while above zero and stays at zero once
/// there: smoothing never raises a bucket.
pub proof fn lemma_silence_decays(held: Seq<u64>, bins: Seq<Bin>, decay: int)
    requires
        0 <= decay <= DECAY_MAX,
        forall|i: int| 0 <= i < bins.len() ==> #[trigger] bins[i].mag == 0,
    ensures
        forall|i: int|
            0 <= i < held.len() ==> {
                let n = #[trigger] spec_smooth(held, bins, decay)[i];
                &&& 0 <= n <= held[i]
                &&& held[i] > 0 ==> n < held[i]
                &&& held[i] == 0 ==> n == 0
            },
{
    assert forall|i: int| 0 <= i < held.len() implies {
        let n = #[trigger] spec_smooth(held, bins, decay)[i];
        &&& 0 <= n <= held[i]
        &&& held[i] > 0 ==> n < held[i]
        &&& held[i] == 0 ==> n == 0
    } by {
        let h = held[i] as int;
        assert(spec_smooth(held, bins, decay)[i] == h * decay / 10_000);
        assert(0 <= h * decay / 10_000 <= h) by (nonlinear_arith)
            requires
                h >= 0,
                0 <= decay <= 9_999,
        ;
        assert(h > 0 ==> h * decay / 10_000 < h) by (nonlinear_arith)
            requires
                h >= 0,
                0 <= decay <= 9_999,
        ;
    }
}

} // verus!
