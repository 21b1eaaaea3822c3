use newton_fractal::engine::Fractal;
use newton_fractal::engine::FractalError;
use newton_fractal::engine::ComplexBits;
use newton_fractal::engine::MAX_ITERS;

fn bits(re: f64, im: f64) -> ComplexBits {
    ComplexBits { re_bits: re.to_bits(), im_bits: im.to_bits() }
}

/// A shading table with one row per base color and one entry per
/// possible iteration count, applying the exponential intensity decay.
fn shading_table(colors: &[(u8, u8, u8)]) -> Vec<Vec<(u8, u8, u8)>> {
    let mut table: Vec<Vec<(u8, u8, u8)>> = Vec::new();
    for color in colors {
        let mut row: Vec<(u8, u8, u8)> = Vec::new();
        for i in 0..MAX_ITERS {
            let dist = (-4.0 * (i as f64) / (MAX_ITERS as f64)).exp();
            row.push((
                (dist * (color.0 as f64)) as u8,
                (dist * (color.1 as f64)) as u8,
                (dist * (color.2 as f64)) as u8,
            ));
        }
        table.push(row);
    }
    table
}

#[test]
fn construction_rejects_zero_width() {
    assert_eq!(Fractal::new(0, 10, 3).unwrap_err(), FractalError::ZeroDimension);
}

#[test]
fn construction_rejects_zero_height() {
    assert_eq!(Fractal::new(10, 0, 3).unwrap_err(), FractalError::ZeroDimension);
}

#[test]
fn construction_rejects_zero_degree_polynomial() {
    assert_eq!(Fractal::new(10, 10, 1).unwrap_err(), FractalError::DegreeTooSmall);
    assert_eq!(Fractal::new(10, 10, 0).unwrap_err(), FractalError::DegreeTooSmall);
}

#[test]
fn construction_rejects_oversized_buffer() {
    assert_eq!(Fractal::new(usize::MAX, 2, 3).unwrap_err(), FractalError::TooLarge);
}

#[test]
fn construction_zeroes_the_buffer() {
    let f = Fractal::new(3, 2, 5).unwrap();
    assert_eq!(f.width, 3);
    assert_eq!(f.height, 2);
    assert_eq!(f.num_coefficients, 5);
    assert_eq!(f.pixels.len(), 3 * 2 * 4);
    assert!(f.pixels.iter().all(|&b| b == 0));
    assert!(f.roots.is_empty());
    assert!(f.candidates.is_empty());
}

#[test]
fn buffer_sizing_holds_for_various_dimensions() {
    for &(w, h) in &[(1usize, 1usize), (7, 3), (800, 800), (1, 640)] {
        let f = Fractal::new(w, h, 2).unwrap();
        assert_eq!(f.pixels.len(), w * h * 4);
    }
}

#[test]
fn first_candidate_becomes_root_zero() {
    let mut f = Fractal::new(2, 2, 2).unwrap();
    let close: Vec<bool> = Vec::new();
    let idx = f.record_converged(bits(1.0, 0.0), &close, 5);
    assert_eq!(idx, 0);
    assert_eq!(f.roots.len(), 1);
    assert_eq!(f.candidates, vec![Some((0, 5))]);
}

#[test]
fn close_candidate_reuses_existing_index() {
    let mut f = Fractal::new(2, 2, 2).unwrap();
    f.record_converged(bits(1.0, 0.0), &Vec::new(), 5);
    let idx = f.record_converged(bits(1.00001, 0.0), &vec![true], 9);
    assert_eq!(idx, 0);
    assert_eq!(f.roots.len(), 1);
    assert_eq!(f.candidates, vec![Some((0, 5)), Some((0, 9))]);
}

#[test]
fn far_candidate_gets_next_dense_index() {
    let mut f = Fractal::new(2, 2, 2).unwrap();
    f.record_converged(bits(1.0, 0.0), &Vec::new(), 5);
    let idx = f.record_converged(bits(-1.0, 0.0), &vec![false], 7);
    assert_eq!(idx, 1);
    assert_eq!(f.roots.len(), 2);
    assert_eq!(f.roots[1], bits(-1.0, 0.0));
}

#[test]
fn first_match_wins_over_later_matches() {
    let mut f = Fractal::new(3, 2, 2).unwrap();
    f.record_converged(bits(1.0, 0.0), &Vec::new(), 1);
    f.record_converged(bits(-1.0, 0.0), &vec![false], 2);
    // close to both discovered roots: matched to the first, not the nearest
    let idx = f.record_converged(bits(-1.0, 0.0), &vec![true, true], 3);
    assert_eq!(idx, 0);
    assert_eq!(f.roots.len(), 2);
}

#[test]
fn diverged_pixels_record_no_index() {
    let mut f = Fractal::new(2, 1, 2).unwrap();
    f.record_diverged();
    assert_eq!(f.candidates, vec![None]);
    assert_eq!(f.roots.len(), 0);
}

#[test]
fn begin_pass_clears_registry_and_outcomes() {
    let mut f = Fractal::new(2, 1, 2).unwrap();
    f.record_converged(bits(1.0, 0.0), &Vec::new(), 5);
    f.record_diverged();
    f.begin_pass();
    assert!(f.roots.is_empty());
    assert!(f.candidates.is_empty());
    assert_eq!(f.pixels.len(), 2 * 1 * 4);
}

#[test]
fn registry_assignment_is_deterministic() {
    // identical outcome sequences assign identical root indices
    let outcomes: [(f64, f64, Vec<bool>, u32); 4] = [
        (1.0, 0.0, vec![], 3),
        (-1.0, 0.0, vec![false], 8),
        (1.0, 0.0, vec![true, false], 2),
        (-1.0, 0.0, vec![false, true], 11),
    ];
    let mut f1 = Fractal::new(2, 2, 2).unwrap();
    let mut f2 = Fractal::new(2, 2, 2).unwrap();
    for (re, im, close, iters) in outcomes.iter() {
        let i1 = f1.record_converged(bits(*re, *im), close, *iters);
        let i2 = f2.record_converged(bits(*re, *im), close, *iters);
        assert_eq!(i1, i2);
    }
    assert_eq!(f1.candidates, f2.candidates);
    assert_eq!(f1.roots, f2.roots);
}

#[test]
fn render_writes_shaded_and_black_pixels() {
    let mut f = Fractal::new(2, 1, 2).unwrap();
    f.record_converged(bits(1.0, 0.0), &Vec::new(), 0);
    f.record_diverged();
    let table = vec![vec![(200u8, 100u8, 50u8); MAX_ITERS as usize]];
    f.render(&table);
    // converged pixel: table color at iteration 0; diverged pixel: black
    assert_eq!(f.pixels, vec![200, 100, 50, 255, 0, 0, 0, 255]);
    assert_eq!(f.pixel(0, 0), (200, 100, 50, 255));
    assert_eq!(f.pixel(1, 0), (0, 0, 0, 255));
}

#[test]
fn render_cycles_palette_for_extra_roots() {
    let mut f = Fractal::new(3, 1, 2).unwrap();
    f.record_converged(bits(1.0, 0.0), &Vec::new(), 0);
    f.record_converged(bits(-1.0, 0.0), &vec![false], 0);
    f.record_converged(bits(0.0, 1.0), &vec![false, false], 0);
    let table = vec![
        vec![(10u8, 11u8, 12u8); MAX_ITERS as usize],
        vec![(20u8, 21u8, 22u8); MAX_ITERS as usize],
    ];
    f.render(&table);
    // root index 2 cycles back to table row 0
    assert_eq!(f.pixel(0, 0), (10, 11, 12, 255));
    assert_eq!(f.pixel(1, 0), (20, 21, 22, 255));
    assert_eq!(f.pixel(2, 0), (10, 11, 12, 255));
}

#[test]
fn render_twice_is_idempotent() {
    let mut f = Fractal::new(2, 2, 2).unwrap();
    f.record_converged(bits(1.0, 0.0), &Vec::new(), 4);
    f.record_converged(bits(-1.0, 0.0), &vec![false], 17);
    f.record_diverged();
    f.record_converged(bits(1.0, 0.0), &vec![true, false], 60);
    let table = shading_table(&[(0xcf, 0x6a, 0x4c), (0xf9, 0xee, 0x98)]);
    f.render(&table);
    let first = f.pixels.clone();
    f.render(&table);
    assert_eq!(f.pixels, first);
}

#[test]
fn color_intensity_decays_with_iteration_count() {
    // one pixel per possible iteration count, all on the same root
    let w = MAX_ITERS as usize;
    let mut f = Fractal::new(w, 1, 2).unwrap();
    f.record_converged(bits(1.0, 0.0), &Vec::new(), 0);
    for i in 1..MAX_ITERS {
        f.record_converged(bits(1.0, 0.0), &vec![true], i);
    }
    let table = shading_table(&[(0xcf, 0x6a, 0x4c)]);
    f.render(&table);
    for x in 1..w {
        let prev = f.pixel(x - 1, 0);
        let cur = f.pixel(x, 0);
        assert!(cur.0 <= prev.0);
        assert!(cur.1 <= prev.1);
        assert!(cur.2 <= prev.2);
    }
    // brightest at the fastest convergence, fully decayed near the bound
    assert_eq!(f.pixel(0, 0), (0xcf, 0x6a, 0x4c, 255));
}
