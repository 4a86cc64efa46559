use mandy::params::FractalParams;
use mandy::plane::{coordinate_grid, x_coordinates, x_denominator, y_coordinates, y_denominator};

const F: i128 = 4294967296; // one fixed-point unit, 2^32

fn params(width: u32, height: u32, mid_x: i128, mid_y: i128, zoom: i128) -> FractalParams {
    FractalParams::from_options(
        Some(width),
        Some(height),
        Some(mid_x as i64),
        Some(mid_y as i64),
        Some(zoom as i64),
        None,
    )
}

#[test]
fn unit_zoom_columns_span_the_base_window() {
    // zoom 1.0, no pan: x runs from -1.75 to 1.75 in even steps.
    let p = params(5, 3, 0, 0, F);
    let xs = x_coordinates(&p);
    assert_eq!(xs, vec![-28 * F, -14 * F, 0, 14 * F, 28 * F]);
    // Denominator 4 * F * (5 - 1): first column is -28F/16F = -1.75.
    assert_eq!(x_denominator(5), 16 * F);
}

#[test]
fn rows_scale_with_the_aspect_ratio() {
    // width 4, height 3: vertical half extent is 1.75 * 3/4 = 1.3125.
    let p = params(4, 3, 0, 0, F);
    let ys = y_coordinates(&p);
    assert_eq!(ys, vec![-42 * F, 0, 42 * F]);
    // Denominator 4 * F * 4 * (3 - 1) = 32F: top row is -42F/32F = -1.3125.
    assert_eq!(y_denominator(4, 3), 32 * F);
}

#[test]
fn center_column_maps_to_negated_mid_x() {
    // Pan by mid_x = 3: the middle of five columns lands exactly on -3.
    let p = params(5, 3, 3 * F, 0, F);
    let xs = x_coordinates(&p);
    assert_eq!(xs[2] * F, -3 * F * x_denominator(5));
    assert_eq!(xs[2], -48 * F); // -48F / 16F = -3
}

#[test]
fn center_row_maps_to_negated_mid_y() {
    // Pan by mid_y = -1/2: the middle of three rows lands exactly on 1/2.
    let p = params(4, 3, 0, -F / 2, F);
    let ys = y_coordinates(&p);
    assert_eq!(ys[1] * F, (F / 2) * y_denominator(4, 3));
}

#[test]
fn column_steps_are_uniform() {
    // zoom 1.5, pan -2: still an affine map with constant step 14 * zoom.
    let zoom: i128 = 3 * F / 2;
    let p = params(7, 2, -2 * F, 0, zoom);
    let xs = x_coordinates(&p);
    assert_eq!(xs.len(), 7);
    for i in 0..6 {
        assert_eq!(xs[i + 1] - xs[i], 14 * zoom);
    }
    // Middle column of seven maps exactly to -mid_x = 2.
    assert_eq!(xs[3] * F, 2 * F * x_denominator(7));
}

#[test]
fn edge_columns_lie_on_the_window_edges() {
    let zoom: i128 = 2 * F;
    let mid_x: i128 = F / 4;
    let p = params(9, 2, mid_x, 0, zoom);
    let xs = x_coordinates(&p);
    // left = -(7/4) * zoom - mid_x, as a numerator over 4F; the first and
    // last columns carry exactly that edge value.
    let left_numer = -7 * zoom - 4 * mid_x;
    let right_numer = 7 * zoom - 4 * mid_x;
    assert_eq!(xs[0], left_numer * 8);
    assert_eq!(xs[8], right_numer * 8);
}

#[test]
fn grid_repeats_columns_and_rows() {
    let p = params(3, 2, F, -F, F);
    let xs = x_coordinates(&p);
    let ys = y_coordinates(&p);
    let (gx, gy) = coordinate_grid(&p);
    assert_eq!(gx.len(), 6);
    assert_eq!(gy.len(), 6);
    assert_eq!(gx, vec![xs[0], xs[1], xs[2], xs[0], xs[1], xs[2]]);
    assert_eq!(gy, vec![ys[0], ys[0], ys[0], ys[1], ys[1], ys[1]]);
}

#[test]
fn default_parameter_grid_has_the_advertised_size() {
    let p = FractalParams::from_options(None, None, None, None, None, None);
    let (gx, gy) = coordinate_grid(&p);
    assert_eq!(gx.len(), 1024 * 600);
    assert_eq!(gy.len(), 1024 * 600);
    // Row 0 holds the columns in order; row 1 repeats them.
    assert_eq!(gx[0], gx[1024]);
    assert_eq!(gy[0], gy[1023]);
    assert_ne!(gy[0], gy[1024]);
}
