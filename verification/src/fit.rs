use vstd::prelude::*;

verus! {

/// The measured bounding box of one line of text at some font size.
#[derive(Clone, Copy, PartialEq, Eq, Structural, Debug)]
pub struct Dim {
    pub width: u32,
    pub height: u32,
}

/// Smallest candidate point size; the search falls back to it when no
/// candidate fits.
pub const MIN_FONT_SIZE: u32 = 10;

/// Largest candidate point size.
pub const MAX_FONT_SIZE: u32 = 299;

/// How many candidate sizes the search probes.
pub const NUM_CANDIDATES: u32 = 290;

/// A measured bounding box fits when it is no wider and no taller than the
/// usable area.
pub open spec fn fits(d: Dim, usable_w: int, usable_h: int) -> bool {
    d.width <= usable_w && d.height <= usable_h
}

/// Whether the measurement recorded for size `size` fits the usable area.
pub open spec fn fits_at(measures: Seq<Dim>, usable_w: int, usable_h: int, size: int) -> bool {
    fits(measures[size - MIN_FONT_SIZE], usable_w, usable_h)
}

/// The size the descending search selects when started at candidate `hi`:
/// the largest size in `[MIN_FONT_SIZE, hi]` whose measurement fits, or
/// `MIN_FONT_SIZE` when none does. `measures[s - MIN_FONT_SIZE]` is the
/// measurement at size `s`.
pub open spec fn best_fit_from(measures: Seq<Dim>, usable_w: int, usable_h: int, hi: int) -> int
    decreases hi,
{
    if hi < MIN_FONT_SIZE {
        MIN_FONT_SIZE as int
    } else if fits(measures[hi - MIN_FONT_SIZE], usable_w, usable_h) {
        hi
    } else {
        best_fit_from(measures, usable_w, usable_h, hi - 1)
    }
}

/// The size the full search selects: the largest candidate whose
/// measurement fits the usable area, or the floor when none does.
pub open spec fn best_fit_size(measures: Seq<Dim>, usable_w: int, usable_h: int) -> int {
    best_fit_from(measures, usable_w, usable_h, MAX_FONT_SIZE as int)
}

/// The descending search over candidate sizes, one probe at a time.
///
/// The caller measures the text at `candidate`, hands the measurement to
/// `step`, and repeats until `step` returns a decision. Measurement is the
/// platform's job; every decision is made here.
pub struct FitSearch {
    pub candidate: u32,
}

impl FitSearch {
    /// The candidate stays within the search domain.
    pub open spec fn wf(self) -> bool {
        MIN_FONT_SIZE <= self.candidate <= MAX_FONT_SIZE
    }

    pub fn new() -> (s: FitSearch)
        ensures
            s.candidate == MAX_FONT_SIZE,
            s.wf(),
    {
        FitSearch { candidate: MAX_FONT_SIZE }
    }

    /// The size to measure next.
    pub fn candidate(&self) -> (c: u32)
        ensures
            c == self.candidate,
    {
        self.candidate
    }

    /// Feed the measured bounding box of the text at the current candidate
    /// size. Selects the candidate as soon as its measurement fits; at the
    /// floor size, selects the floor whether or not it fits; otherwise
    /// moves to the next smaller candidate.
    pub fn step(&mut self, measured: Dim, usable_w: u32, usable_h: u32) -> (decision: Option<u32>)
        requires
            old(self).wf(),
        ensures
            final(self).wf(),
            fits(measured, usable_w as int, usable_h as int) ==> {
                &&& decision == Some(old(self).candidate)
                &&& *final(self) == *old(self)
            },
            !fits(measured, usable_w as int, usable_h as int)
                && old(self).candidate == MIN_FONT_SIZE ==> {
                &&& decision == Some(MIN_FONT_SIZE)
                &&& *final(self) == *old(self)
            },
            !fits(measured, usable_w as int, usable_h as int)
                && old(self).candidate > MIN_FONT_SIZE ==> {
                &&& decision is None
                &&& final(self).candidate == old(self).candidate - 1
            },
    {
        if measured.width <= usable_w && measured.height <= usable_h {
            Some(self.candidate)
        } else if self.candidate == MIN_FONT_SIZE {
            Some(MIN_FONT_SIZE)
        } else {
            self.candidate = self.candidate - 1;
            None
        }
    }
}

proof fn lemma_best_fit_from_props(measures: Seq<Dim>, usable_w: int, usable_h: int, hi: int)
    requires
        MIN_FONT_SIZE - 1 <= hi <= MAX_FONT_SIZE,
    ensures
        MIN_FONT_SIZE <= best_fit_from(measures, usable_w, usable_h, hi) <= MAX_FONT_SIZE,
        fits(
            measures[best_fit_from(measures, usable_w, usable_h, hi) - MIN_FONT_SIZE],
            usable_w,
            usable_h,
        ) || best_fit_from(measures, usable_w, usable_h, hi) == MIN_FONT_SIZE,
        forall|s: int|
            best_fit_from(measures, usable_w, usable_h, hi) < s <= hi ==> !fits_at(
                measures,
                usable_w,
                usable_h,
                s,
            ),
    decreases hi,
{
    if hi < MIN_FONT_SIZE {
    } else if fits(measures[hi - MIN_FONT_SIZE], usable_w, usable_h) {
    } else {
        lemma_best_fit_from_props(measures, usable_w, usable_h, hi - 1);
    }
}

/// The selected size's measured bounding box is no wider and no taller
/// than the usable area, or the selected size is the floor because no
/// candidate's measurement fits.
pub proof fn lemma_best_fit_contained(measures: Seq<Dim>, usable_w: int, usable_h: int)
    ensures
        MIN_FONT_SIZE <= best_fit_size(measures, usable_w, usable_h) <= MAX_FONT_SIZE,
        fits(
            measures[best_fit_size(measures, usable_w, usable_h) - MIN_FONT_SIZE],
            usable_w,
            usable_h,
        ) || best_fit_size(measures, usable_w, usable_h) == MIN_FONT_SIZE,
        forall|s: int|
            best_fit_size(measures, usable_w, usable_h) < s <= MAX_FONT_SIZE ==> !fits_at(
                measures,
                usable_w,
                usable_h,
                s,
            ),
{
    lemma_best_fit_from_props(measures, usable_w, usable_h, MAX_FONT_SIZE as int);
}

/// The fit search is deterministic: the selected size is a function of the
/// measurements and the usable dimensions alone, so equal inputs always
/// select the same size.
pub proof fn lemma_fit_search_deterministic(
    m1: Seq<Dim>,
    m2: Seq<Dim>,
    usable_w: int,
    usable_h: int,
)
    requires
        m1 == m2,
    ensures
        best_fit_size(m1, usable_w, usable_h) == best_fit_size(m2, usable_w, usable_h),
{
}

} // verus!
