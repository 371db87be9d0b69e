use bigtext::fit::{Dim, FitSearch, MAX_FONT_SIZE, MIN_FONT_SIZE, NUM_CANDIDATES};
use bigtext::geometry::compute_usable_rect;
use bigtext::paint::{find_best_font_size, paint_cycle, rgb};
use bigtext::resources::FontLedger;

/// A measurement table where the text at size `s` measures `s * w_per_pt`
/// by `s * h_per_pt`, as a linearly scaling renderer would report.
fn linear_measures(w_per_pt: u32, h_per_pt: u32) -> Vec<Dim> {
    let mut measures = Vec::new();
    let mut size = MIN_FONT_SIZE;
    while size <= MAX_FONT_SIZE {
        measures.push(Dim {
            width: size * w_per_pt,
            height: size * h_per_pt,
        });
        size += 1;
    }
    assert_eq!(measures.len(), NUM_CANDIDATES as usize);
    measures
}

#[test]
fn margin_computation_1000_by_800() {
    let usable = compute_usable_rect(1000, 800);
    assert_eq!(usable.left, 50);
    assert_eq!(usable.top, 40);
    assert_eq!(usable.right, 950);
    assert_eq!(usable.bottom, 760);
    assert_eq!(usable.width(), 900);
    assert_eq!(usable.height(), 720);
}

#[test]
fn margin_computation_degenerate_surface() {
    let usable = compute_usable_rect(0, 0);
    assert_eq!(usable.width(), 0);
    assert_eq!(usable.height(), 0);
}

#[test]
fn fit_search_is_deterministic() {
    let measures = linear_measures(4, 2);
    let mut fonts = FontLedger::new();
    let first = find_best_font_size(&measures, 600, 300, &mut fonts);
    let second = find_best_font_size(&measures, 600, 300, &mut fonts);
    assert_eq!(first, second);
}

#[test]
fn fit_search_picks_largest_fitting_size() {
    // Size s measures 4s x 2s, so s fits 600 x 300 exactly when s <= 150.
    let measures = linear_measures(4, 2);
    let mut fonts = FontLedger::new();
    let size = find_best_font_size(&measures, 600, 300, &mut fonts);
    assert_eq!(size, 150);
    let chosen = measures[(size - MIN_FONT_SIZE) as usize];
    assert!(chosen.width <= 600);
    assert!(chosen.height <= 300);
}

#[test]
fn fit_search_falls_back_to_floor() {
    // Nothing fits a 1 x 1 usable area; the search selects the floor anyway.
    let measures = linear_measures(4, 2);
    let mut fonts = FontLedger::new();
    let size = find_best_font_size(&measures, 1, 1, &mut fonts);
    assert_eq!(size, MIN_FONT_SIZE);
}

#[test]
fn fit_search_selects_floor_when_only_floor_fits() {
    // Size s measures 4s x 2s, so only s == 10 fits 40 x 20.
    let measures = linear_measures(4, 2);
    let mut fonts = FontLedger::new();
    let size = find_best_font_size(&measures, 40, 20, &mut fonts);
    assert_eq!(size, MIN_FONT_SIZE);
}

#[test]
fn fit_search_stepper_walks_down_and_selects() {
    let mut search = FitSearch::new();
    assert_eq!(search.candidate(), MAX_FONT_SIZE);
    let too_big = Dim { width: 500, height: 500 };
    assert_eq!(search.step(too_big, 100, 100), None);
    assert_eq!(search.candidate(), MAX_FONT_SIZE - 1);
    let fitting = Dim { width: 100, height: 50 };
    assert_eq!(search.step(fitting, 100, 100), Some(MAX_FONT_SIZE - 1));
}

#[test]
fn paint_cycle_plans_the_expected_draw() {
    let measures = linear_measures(4, 2);
    let mut fonts = FontLedger::new();
    let plan = paint_cycle(1000, 800, &measures, &mut fonts);
    assert_eq!(plan.usable.left, 50);
    assert_eq!(plan.usable.top, 40);
    assert_eq!(plan.usable.right, 950);
    assert_eq!(plan.usable.bottom, 760);
    // Usable area is 900 x 720; size s measures 4s x 2s, so s <= 225 fits.
    assert_eq!(plan.font_size, 225);
    assert_eq!(fonts.live, 0);
}

#[test]
fn repeated_paint_cycles_do_not_leak_fonts() {
    let measures = linear_measures(4, 2);
    let mut fonts = FontLedger::new();
    let mut cycle = 0;
    while cycle < 100 {
        let before = fonts.live;
        let plan = paint_cycle(1000, 800, &measures, &mut fonts);
        assert_eq!(plan.font_size, 225);
        assert_eq!(fonts.live, before);
        cycle += 1;
    }
    assert_eq!(fonts.live, 0);
}

#[test]
fn rgb_packs_blue_highest() {
    assert_eq!(rgb(0, 0, 0), 0);
    assert_eq!(rgb(255, 255, 255), 0x00FF_FFFF);
    assert_eq!(rgb(1, 2, 3), 0x0003_0201);
    assert_eq!(rgb(255, 0, 0), 0x0000_00FF);
}
