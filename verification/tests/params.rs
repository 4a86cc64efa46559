use mandy::params::FractalParams;

const F: i64 = 4294967296; // one fixed-point unit, 2^32

#[test]
fn defaults_fill_absent_values() {
    let p = FractalParams::from_options(None, None, None, None, None, None);
    assert_eq!(p.width, 1024);
    assert_eq!(p.height, 600);
    assert_eq!(p.mid_x, 3 * F / 4); // 0.75
    assert_eq!(p.mid_y, 0);
    assert_eq!(p.zoom, F); // 1.0
    assert_eq!(p.max_iter, 25);
}

#[test]
fn given_values_are_kept() {
    let p = FractalParams::from_options(
        Some(800),
        Some(480),
        Some(-2 * F),
        Some(F / 2),
        Some(3 * F),
        Some(1000),
    );
    assert_eq!(p.width, 800);
    assert_eq!(p.height, 480);
    assert_eq!(p.mid_x, -2 * F);
    assert_eq!(p.mid_y, F / 2);
    assert_eq!(p.zoom, 3 * F);
    assert_eq!(p.max_iter, 1000);
}

#[test]
fn well_formedness_check() {
    let ok = FractalParams::from_options(None, None, None, None, None, None);
    assert!(ok.is_well_formed());

    let tiny = FractalParams::from_options(Some(2), Some(2), None, None, None, None);
    assert!(tiny.is_well_formed());

    let zero_width = FractalParams::from_options(Some(0), None, None, None, None, None);
    assert!(!zero_width.is_well_formed());

    let one_column = FractalParams::from_options(Some(1), None, None, None, None, None);
    assert!(!one_column.is_well_formed());

    let one_row = FractalParams::from_options(None, Some(1), None, None, None, None);
    assert!(!one_row.is_well_formed());

    let too_wide = FractalParams::from_options(Some(1048577), None, None, None, None, None);
    assert!(!too_wide.is_well_formed());
}

#[test]
fn pixel_count_of_default_grid() {
    let p = FractalParams::from_options(None, None, None, None, None, None);
    assert_eq!(p.pixel_count(), 1024 * 600);
}
