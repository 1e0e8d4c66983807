//! Spectra: frequency-ordered magnitude bins restricted to a window.
//!
//! The transform itself runs outside the library on floating-point samples;
//! its bins arrive here as integers (frequency in millihertz, magnitude in
//! millionths) and are checked and restricted to the analysis window.
use vstd::prelude::*;

verus! {

/// One bin of a spectrum.
#[derive(Clone, Copy, Debug, PartialEq, Eq, Structural)]
pub struct Bin {
    /// Frequency in millihertz.
    pub freq: u64,
    /// Magnitude in millionths, already scaled by the square root of the
    /// sample count.
    pub mag: u64,
}

/// The closed frequency range `[low, high]`, in millihertz.
#[derive(Clone, Copy, Debug, PartialEq, Eq, Structural)]
pub struct FrequencyWindow {
    pub low: u64,
    pub high: u64,
}

/// Why a frame could not be analyzed.
#[derive(Clone, Copy, Debug, PartialEq, Eq, Structural)]
pub enum AnalysisError {
    /// The audio frame holds no sample.
    EmptyFrame,
    /// The window's low end is not below its high end.
    DegenerateWindow,
    /// The transform's bins do not come in non-decreasing frequency order.
    Unordered,
}

/// A spectrum: bins of non-decreasing frequency, all inside its window.
#[derive(Debug)]
pub struct Spectrum {
    bins: Vec<Bin>,
    window: FrequencyWindow,
}

pub open spec fn non_decreasing(s: Seq<Bin>) -> bool {
    forall|i: int| 0 < i < s.len() ==> #[trigger] s[i - 1].freq <= s[i].freq
}

pub open spec fn in_window(w: FrequencyWindow, b: Bin) -> bool {
    w.low <= b.freq <= w.high
}

pub open spec fn all_in_window(w: FrequencyWindow, s: Seq<Bin>) -> bool {
    forall|i: int| 0 <= i < s.len() ==> in_window(w, #[trigger] s[i])
}

/// The bins of `s` that lie inside `w`, in their order.
pub open spec fn restrict(w: FrequencyWindow, s: Seq<Bin>) -> Seq<Bin> {
    s.filter(|b: Bin| in_window(w, b))
}

/// Whether the bins come in non-decreasing frequency order.
pub fn is_ordered(bins: &Vec<Bin>) -> (r: bool)
    ensures
        r == non_decreasing(bins@),
{
    let mut i: usize = 1;
    while i < bins.len()
        invariant
            1 <= i,
            forall|k: int| 0 < k < i && k < bins@.len() ==> #[trigger] bins@[k - 1].freq <= bins@[k].freq,
        decreases bins.len() - i,
    {
        if bins[i - 1].freq > bins[i].freq {
            return false;
        }
        i = i + 1;
    }
    true
}

impl Spectrum {
    pub closed spec fn spec_bins(&self) -> Seq<Bin> {
        self.bins@
    }

    pub closed spec fn spec_window(&self) -> FrequencyWindow {
        self.window
    }

    /// Frequencies never decrease and all lie inside the window.
    pub open spec fn wf(&self) -> bool {
        &&& self.spec_window().low < self.spec_window().high
        &&& non_decreasing(self.spec_bins())
        &&& all_in_window(self.spec_window(), self.spec_bins())
    }

    /// Builds the spectrum of a frame of `sample_count` samples from the
    /// transform's bins, keeping those inside `window`.
    ///
    /// Fails on an empty frame, then on a degenerate window, then on bins
    /// out of frequency order.
    pub fn from_bins(sample_count: usize, window: FrequencyWindow, bins: Vec<Bin>) -> (r: Result<
        Spectrum,
        AnalysisError,
    >)
        ensures
            sample_count == 0 <==> r == Err::<Spectrum, AnalysisError>(AnalysisError::EmptyFrame),
            (sample_count > 0 && window.low >= window.high) <==> r == Err::<
                Spectrum,
                AnalysisError,
            >(AnalysisError::DegenerateWindow),
            (sample_count > 0 && window.low < window.high && !non_decreasing(bins@)) <==> r
                == Err::<Spectrum, AnalysisError>(AnalysisError::Unordered),
            r is Ok ==> r->Ok_0.wf() && r->Ok_0.spec_window() == window && r->Ok_0.spec_bins()
                == restrict(window, bins@),
    {
        if sample_count == 0 {
            return Err(AnalysisError::EmptyFrame);
        }
        if window.low >= window.high {
            return Err(AnalysisError::DegenerateWindow);
        }
        if !is_ordered(&bins) {
            return Err(AnalysisError::Unordered);
        }
        let ghost pred = |b: Bin| in_window(window, b);
        let mut out: Vec<Bin> = Vec::new();
        let mut i: usize = 0;
        while i < bins.len()
            invariant
                i <= bins@.len(),
                non_decreasing(bins@),
                pred == (|b: Bin| in_window(window, b)),
                out@ == bins@.subrange(0, i as int).filter(pred),
                non_decreasing(out@),
                all_in_window(window, out@),
                forall|k: int| 0 <= k < out@.len() ==> i > 0 && #[trigger] out@[k].freq <= bins@[i - 1].freq,
            decreases bins.len() - i,
        {
            let b = bins[i];
            proof {
                assert(bins@.subrange(0, i + 1).drop_last() == bins@.subrange(0, i as int));
                reveal_with_fuel(Seq::filter, 1);
                if i > 0 {
                    assert(bins@[i as int - 1].freq <= bins@[i as int].freq);
                }
            }
            if window.low <= b.freq && b.freq <= window.high {
                out.push(b);
            }
            i = i + 1;
        }
        assert(bins@.subrange(0, bins@.len() as int) == bins@);
        Ok(Spectrum { bins: out, window })
    }

    /// A spectrum without bins over `window`: what is shown before the
    /// first frame has been analyzed.
    pub fn silent(window: FrequencyWindow) -> (r: Result<Spectrum, AnalysisError>)
        ensures
            window.low >= window.high <==> r == Err::<Spectrum, AnalysisError>(
                AnalysisError::DegenerateWindow,
            ),
            r is Ok ==> r->Ok_0.wf() && r->Ok_0.spec_window() == window && r->Ok_0.spec_bins()
                == Seq::<Bin>::empty(),
    {
        if window.low >= window.high {
            return Err(AnalysisError::DegenerateWindow);
        }
        Ok(Spectrum { bins: Vec::new(), window })
    }

    /// The bins, in non-decreasing frequency order.
    pub fn bins(&self) -> (r: &Vec<Bin>)
        ensures
            r@ == self.spec_bins(),
    {
        &self.bins
    }

    /// The window the bins lie in.
    pub fn window(&self) -> (r: FrequencyWindow)
        ensures
            r == self.spec_window(),
    {
        self.window
    }
}

/// Every bin of a spectrum lies inside its window, and frequencies never
/// decrease from one bin to any later one.
pub proof fn lemma_spectrum_ordered_in_window(s: Spectrum)
    requires
        s.wf(),
    ensures
        forall|i: int, j: int|
            0 <= i <= j < s.spec_bins().len() ==> #[trigger] s.spec_bins()[i].freq <= #[trigger] s.spec_bins()[j].freq,
        forall|i: int|
            0 <= i < s.spec_bins().len() ==> s.spec_window().low <= #[trigger] s.spec_bins()[i].freq
                <= s.spec_window().high,
{
    assert forall|i: int, j: int| 0 <= i <= j < s.spec_bins().len() implies #[trigger] s.spec_bins()[i].freq
        <= #[trigger] s.spec_bins()[j].freq by {
        lemma_ordered_pair(s.spec_bins(), i, j);
    }
    assert forall|i: int| 0 <= i < s.spec_bins().len() implies s.spec_window().low
        <= #[trigger] s.spec_bins()[i].freq <= s.spec_window().high by {
        assert(in_window(s.spec_window(), s.spec_bins()[i]));
    }
}

proof fn lemma_ordered_pair(s: Seq<Bin>, i: int, j: int)
    requires
        non_decreasing(s),
        0 <= i <= j < s.len(),
    ensures
        s[i].freq <= s[j].freq,
    decreases j - i,
{
    if i < j {
        lemma_ordered_pair(s, i, j - 1);
        assert(s[j - 1].freq <= s[j].freq);
    }
}

} // verus!
