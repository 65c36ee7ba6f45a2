use doodling_canvas::geometry::Rectangle;
use doodling_canvas::geometry::ndc_offset_from_pixels;

#[test]
fn quad_of_brush_rect_800x600() {
    let r = Rectangle::new(0, 0, 10, 10, 800, 600);
    // left = 2*0 - 800, right = 2*10 - 800, top = 600 - 0, bottom = 600 - 20
    let left = -800i64;
    let right = -780i64;
    let top = 600i64;
    let bottom = 580i64;
    assert_eq!(r.vertices[0].x_num, left);
    assert_eq!(r.vertices[0].y_num, top);
    assert_eq!(r.vertices[1].x_num, left);
    assert_eq!(r.vertices[1].y_num, bottom);
    assert_eq!(r.vertices[2].x_num, right);
    assert_eq!(r.vertices[2].y_num, bottom);
    assert_eq!(r.vertices[3].x_num, right);
    assert_eq!(r.vertices[3].y_num, bottom);
    assert_eq!(r.vertices[4].x_num, right);
    assert_eq!(r.vertices[4].y_num, top);
    assert_eq!(r.vertices[5].x_num, left);
    assert_eq!(r.vertices[5].y_num, top);
}

#[test]
fn quad_round_trip_reconstructs_corners() {
    let r = Rectangle::new(100, 50, 200, 100, 800, 600);
    // the inverse transform: px = (x_num + width) / 2, py = (height - y_num) / 2
    let px0 = (r.vertices[0].x_num + 800) / 2;
    let py0 = (600 - r.vertices[0].y_num) / 2;
    let px2 = (r.vertices[2].x_num + 800) / 2;
    let py2 = (600 - r.vertices[2].y_num) / 2;
    assert_eq!(px0, 100);
    assert_eq!(py0, 50);
    assert_eq!(px2, 300);
    assert_eq!(py2, 150);
}

#[test]
fn quad_in_bounds_rect_stays_in_ndc_range() {
    let r = Rectangle::new(0, 0, 800, 600, 800, 600);
    for v in r.vertices.iter() {
        assert!(-800 <= v.x_num && v.x_num <= 800);
        assert!(-600 <= v.y_num && v.y_num <= 600);
    }
}

#[test]
fn quad_outside_window_builds_out_of_range_coordinates() {
    // partially outside: the rasterizer clips, the builder does not.
    let r = Rectangle::new(795, 595, 10, 10, 800, 600);
    assert_eq!(r.vertices[2].x_num, 2 * 805 - 800);
    assert_eq!(r.vertices[2].y_num, 600 - 2 * 605);
    assert!(r.vertices[2].x_num > 800);
    assert!(r.vertices[2].y_num < -600);
}

#[test]
fn offset_uniform_from_pixels() {
    let o = ndc_offset_from_pixels(100, 50);
    assert_eq!(o.x_num, 200);
    assert_eq!(o.y_num, -100);
    let o2 = ndc_offset_from_pixels(-3, 0);
    assert_eq!(o2.x_num, -6);
    assert_eq!(o2.y_num, 0);
}
