use vstd::prelude::*;

use crate::fit::Dim;
use crate::fit::FitSearch;
use crate::fit::MAX_FONT_SIZE;
use crate::fit::MIN_FONT_SIZE;
use crate::fit::NUM_CANDIDATES;
use crate::fit::best_fit_from;
use crate::fit::best_fit_size;
use crate::fit::fits_at;
use crate::geometry::Rect;
use crate::geometry::compute_usable_rect;
use crate::geometry::margin;
use crate::resources::FontLedger;

verus! {

/// Pack red, green and blue into the platform's color value, blue in the
/// highest of the three used bytes: `r + 256*g + 65536*b`.
pub fn rgb(r: u8, g: u8, b: u8) -> (c: u32)
    ensures
        c == r + 256 * (g as int) + 65536 * (b as int),
{
    let c = (r as u32) | ((g as u32) << 8u32) | ((b as u32) << 16u32);
    proof {
        assert((r as u32) | ((g as u32) << 8u32) | ((b as u32) << 16u32) == (r as u32) + 256 * (
        g as u32) + 65536 * (b as u32)) by (bit_vector);
    }
    c
}

/// The outcome of one paint cycle: the rectangle to center the text in and
/// the font size to draw it at.
#[derive(Clone, Copy, PartialEq, Eq, Structural, Debug)]
pub struct PaintPlan {
    pub usable: Rect,
    pub font_size: u32,
}

/// The largest font size in `[MIN_FONT_SIZE, MAX_FONT_SIZE]` whose
/// measured bounding box fits the usable area, or `MIN_FONT_SIZE` when
/// none does. `measures[s - MIN_FONT_SIZE]` is the measurement of the text
/// at size `s`; one font is acquired and released per probed candidate,
/// so the ledger ends where it began.
pub fn find_best_font_size(
    measures: &Vec<Dim>,
    usable_w: u32,
    usable_h: u32,
    fonts: &mut FontLedger,
) -> (size: u32)
    requires
        measures@.len() == NUM_CANDIDATES,
        old(fonts).live < u64::MAX,
    ensures
        size == best_fit_size(measures@, usable_w as int, usable_h as int),
        final(fonts).live == old(fonts).live,
{
    let mut search = FitSearch::new();
    loop
        invariant
            measures@.len() == NUM_CANDIDATES,
            fonts.live == old(fonts).live,
            fonts.live < u64::MAX,
            search.wf(),
            best_fit_size(measures@, usable_w as int, usable_h as int) == best_fit_from(
                measures@,
                usable_w as int,
                usable_h as int,
                search.candidate as int,
            ),
        decreases search.candidate,
    {
        fonts.acquire();
        let idx = (search.candidate() - MIN_FONT_SIZE) as usize;
        let measured = measures[idx];
        fonts.release();
        let decision = search.step(measured, usable_w, usable_h);
        if let Some(size) = decision {
            proof {
                reveal_with_fuel(best_fit_from, 2);
            }
            return size;
        }
    }
}

/// One paint cycle, as the repaint handler runs it: derive the usable
/// rectangle from the surface, search for the best font size, and plan the
/// draw. Every font resource acquired during the cycle is released before
/// it returns.
pub fn paint_cycle(
    surface_width: u32,
    surface_height: u32,
    measures: &Vec<Dim>,
    fonts: &mut FontLedger,
) -> (plan: PaintPlan)
    requires
        measures@.len() == NUM_CANDIDATES,
        old(fonts).live < u64::MAX,
    ensures
        final(fonts).live == old(fonts).live,
        plan.usable.left == margin(surface_width as int),
        plan.usable.top == margin(surface_height as int),
        plan.usable.right == surface_width - margin(surface_width as int),
        plan.usable.bottom == surface_height - margin(surface_height as int),
        plan.font_size == best_fit_size(
            measures@,
            plan.usable.spec_width(),
            plan.usable.spec_height(),
        ),
        MIN_FONT_SIZE <= plan.font_size <= MAX_FONT_SIZE,
        fits_at(measures@, plan.usable.spec_width(), plan.usable.spec_height(), plan.font_size as int)
            || plan.font_size == MIN_FONT_SIZE,
{
    let usable = compute_usable_rect(surface_width, surface_height);
    let usable_w = usable.width();
    let usable_h = usable.height();
    let font_size = find_best_font_size(measures, usable_w, usable_h, fonts);
    proof {
        crate::fit::lemma_best_fit_contained(measures@, usable_w as int, usable_h as int);
    }
    // The draw itself is the platform's work: it acquires the font named by
    // the plan, draws, and releases it.
    fonts.acquire();
    let plan = PaintPlan { usable, font_size };
    fonts.release();
    plan
}

} // verus!
