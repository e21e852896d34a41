use sdrrat::layout::{centered_rect_abs, Area};

#[test]
fn box_is_centred_in_the_area() {
    let area = Area { x: 0, y: 0, width: 100, height: 20 };
    assert_eq!(centered_rect_abs(40, 4, area), Area { x: 30, y: 8, width: 40, height: 4 });
    let area = Area { x: 10, y: 5, width: 60, height: 30 };
    assert_eq!(centered_rect_abs(20, 10, area), Area { x: 30, y: 15, width: 20, height: 10 });
}

#[test]
fn box_fills_a_small_area() {
    let area = Area { x: 2, y: 3, width: 10, height: 6 };
    let r = centered_rect_abs(40, 4, area);
    assert_eq!(r.x, 2);
    assert_eq!(r.width, 10);
    assert_eq!(r.height, 4);
    assert_eq!(r.y, 4);
}

#[test]
fn odd_remainder_leaves_one_cell_more_before() {
    let area = Area { x: 0, y: 0, width: 81, height: 25 };
    let r = centered_rect_abs(20, 10, area);
    assert_eq!((r.width, r.height), (20, 10));
    let (before_x, after_x) = (r.x - area.x, area.x + area.width - r.x - r.width);
    let (before_y, after_y) = (r.y - area.y, area.y + area.height - r.y - r.height);
    assert!(before_x.abs_diff(after_x) <= 1 && before_x + after_x == 61);
    assert!(before_y.abs_diff(after_y) <= 1 && before_y + after_y == 15);
}

#[test]
fn box_stays_inside_the_addressable_columns() {
    let area = Area { x: 65_530, y: 0, width: 100, height: 10 };
    let r = centered_rect_abs(4, 10, area);
    assert_eq!((r.width, r.height, r.y), (4, 10, 0));
    assert!(r.x >= 65_530 && r.x as u32 + 4 <= 65_535);
}
