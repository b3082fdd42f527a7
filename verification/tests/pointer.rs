//! The pointer-normalization transform on concrete surfaces.

use hollow::orchestrator::normalized_pointer;

#[test]
fn center_of_800_by_600_maps_to_origin() {
    let p = normalized_pointer(400, 300, 800, 600);
    assert_eq!(p.x_num, 0);
    assert_eq!(p.y_num, 0);
    assert_eq!(p.denom, 600);
    assert_eq!(p.x_num as f64 / p.denom as f64, 0.0);
    assert_eq!(p.y_num as f64 / p.denom as f64, 0.0);
}

#[test]
fn top_left_of_800_by_600() {
    // m = 600; x = (800/600) * (2*0/800 - 1) = -800/600 = -4/3; y = -1.
    let p = normalized_pointer(0, 0, 800, 600);
    assert_eq!(p.x_num, -800);
    assert_eq!(p.y_num, -600);
    assert_eq!(p.denom, 600);
    assert_eq!(p.x_num as f64 / p.denom as f64, -4.0 / 3.0);
    assert_eq!(p.y_num as f64 / p.denom as f64, -1.0);
}

#[test]
fn origin_maps_to_negated_extents_over_min() {
    // (0,0) -> (-W/m, -H/m) for a tall surface too.
    let p = normalized_pointer(0, 0, 300, 900);
    assert_eq!(p.x_num, -300);
    assert_eq!(p.y_num, -900);
    assert_eq!(p.denom, 300);
    assert_eq!(p.x_num as f64 / p.denom as f64, -1.0);
    assert_eq!(p.y_num as f64 / p.denom as f64, -3.0);
}

#[test]
fn square_surface_is_identity_affine_map() {
    // On a 512x512 surface the transform is p -> 2p/512 - 1 on both axes.
    let corner = normalized_pointer(0, 0, 512, 512);
    assert_eq!(corner.x_num, -512);
    assert_eq!(corner.y_num, -512);
    assert_eq!(corner.denom, 512);
    let far = normalized_pointer(512, 512, 512, 512);
    assert_eq!(far.x_num, 512);
    assert_eq!(far.y_num, 512);
    let quarter = normalized_pointer(128, 384, 512, 512);
    assert_eq!(quarter.x_num as f64 / quarter.denom as f64, -0.5);
    assert_eq!(quarter.y_num as f64 / quarter.denom as f64, 0.5);
}

#[test]
fn wide_surface_stretches_x_beyond_unit() {
    let p = normalized_pointer(1920, 540, 1920, 1080);
    assert_eq!(p.x_num, 1920);
    assert_eq!(p.y_num, 0);
    assert_eq!(p.denom, 1080);
    assert!((p.x_num as f64 / p.denom as f64 - 16.0 / 9.0).abs() < 1e-12);
}
