use life_grid::stroke::{interpolate, Coord};

fn c(x: i32, y: i32) -> Coord {
    Coord { x, y }
}

#[test]
fn interpolate_no_previous_sample() {
    let r = interpolate(None, c(7, 3));
    assert_eq!(r, vec![c(7, 3)]);
}

#[test]
fn interpolate_same_point() {
    let r = interpolate(Some(c(2, 2)), c(2, 2));
    assert_eq!(r, vec![c(2, 2)]);
}

#[test]
fn interpolate_horizontal_line() {
    let r = interpolate(Some(c(0, 0)), c(3, 0));
    assert_eq!(r, vec![c(0, 0), c(1, 0), c(2, 0), c(3, 0)]);
}

#[test]
fn interpolate_vertical_line_downward() {
    let r = interpolate(Some(c(1, 4)), c(1, 1));
    assert_eq!(r, vec![c(1, 4), c(1, 3), c(1, 2), c(1, 1)]);
}

#[test]
fn interpolate_diagonal_line() {
    let r = interpolate(Some(c(0, 0)), c(3, 3));
    assert_eq!(r, vec![c(0, 0), c(1, 1), c(2, 2), c(3, 3)]);
}

#[test]
fn interpolate_endpoints_and_continuity() {
    // A skewed stroke: endpoints match the samples exactly, the point count
    // is one more than the Chebyshev distance, and consecutive points are
    // within one step of each other on both axes.
    let p = c(0, 0);
    let q = c(5, 2);
    let r = interpolate(Some(p), q);
    assert_eq!(r.len(), 6);
    assert_eq!(r[0], p);
    assert_eq!(r[r.len() - 1], q);
    for w in r.windows(2) {
        let dx = (w[0].x - w[1].x).abs();
        let dy = (w[0].y - w[1].y).abs();
        assert!(dx <= 1 && dy <= 1);
        assert!(dx + dy >= 1);
    }
}

#[test]
fn interpolate_negative_coordinates() {
    let r = interpolate(Some(c(2, 3)), c(0, 0));
    assert_eq!(r, vec![c(2, 3), c(1, 2), c(0, 1), c(0, 0)]);
    let r = interpolate(Some(c(-2, -1)), c(1, -1));
    assert_eq!(r, vec![c(-2, -1), c(-1, -1), c(0, -1), c(1, -1)]);
}
