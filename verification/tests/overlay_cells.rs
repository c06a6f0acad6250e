use snake::geometry::Point;
use snake::overlay::paused_logo;

#[test]
fn logo_has_one_cell_per_filled_glyph_dot() {
    let cells = paused_logo(&Point(0, 0));
    assert_eq!(cells.len(), 63);
}

#[test]
fn logo_starts_at_the_given_corner() {
    let cells = paused_logo(&Point(0, 0));
    assert_eq!(cells[0], Point(0, 0));
    assert_eq!(cells[1], Point(1, 0));
    assert_eq!(cells[2], Point(2, 0));
    assert_eq!(cells[3], Point(3, 0));
    // the first row reads "#### ...": column 4 is blank
    assert_eq!(cells[4], Point(5, 0));
    assert!(!cells.contains(&Point(4, 0)));
}

#[test]
fn logo_spans_five_rows() {
    let cells = paused_logo(&Point(0, 0));
    assert!(cells.iter().all(|p| 0 <= p.0 && p.0 < 26 && 0 <= p.1 && p.1 < 5));
    assert!(cells.iter().any(|p| p.1 == 4));
    assert_eq!(cells.last(), Some(&Point(24, 4)));
}

#[test]
fn logo_translates_with_its_corner() {
    let base = paused_logo(&Point(0, 0));
    let moved = paused_logo(&Point(6, 10));
    assert_eq!(base.len(), moved.len());
    for (b, m) in base.iter().zip(moved.iter()) {
        assert_eq!(m.0, b.0 + 6);
        assert_eq!(m.1, b.1 + 10);
    }
}
