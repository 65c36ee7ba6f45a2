use base64::Engine;
use doodling_canvas::canvas::Canvas;
use doodling_canvas::canvas::Color;
use doodling_canvas::capture::get_canvas_capture;
use doodling_canvas::doodle::DoodleEntry;

#[test]
fn capture_decodes_back_to_the_canvas_pixels() {
    let paint = Color { r: 250, g: 10, b: 60, a: 255 };
    let clear = Color { r: 10, g: 20, b: 30, a: 255 };
    let mut canvas = Canvas::new(3, 2, paint);
    canvas.clear(clear);
    canvas.paint_rect(0, 0, 1, 1, 0, 0);
    let text = get_canvas_capture(&canvas);
    let png = base64::engine::general_purpose::STANDARD
        .decode(text.as_bytes())
        .expect("capture is valid base64");
    let img = image::load_from_memory(&png).expect("capture is a valid PNG image");
    let rgba = img.to_rgba8();
    assert_eq!(rgba.width(), 3);
    assert_eq!(rgba.height(), 2);
    assert_eq!(rgba.get_pixel(0, 0).0, [250, 10, 60, 255]);
    assert_eq!(rgba.get_pixel(1, 0).0, [10, 20, 30, 255]);
    assert_eq!(rgba.get_pixel(2, 1).0, [10, 20, 30, 255]);
}

#[test]
fn capture_of_cleared_canvas_is_uniform() {
    let paint = Color { r: 255, g: 255, b: 255, a: 255 };
    let clear = Color { r: 51, g: 51, b: 51, a: 255 };
    let mut canvas = Canvas::new(4, 4, paint);
    canvas.clear(clear);
    let text = get_canvas_capture(&canvas);
    let png = base64::engine::general_purpose::STANDARD
        .decode(text.as_bytes())
        .expect("capture is valid base64");
    let img = image::load_from_memory(&png).expect("capture is a valid PNG image");
    let rgba = img.to_rgba8();
    for y in 0..4 {
        for x in 0..4 {
            assert_eq!(rgba.get_pixel(x, y).0, [51, 51, 51, 255]);
        }
    }
}

#[test]
fn doodle_entry_keeps_its_fields() {
    let entry = DoodleEntry::new(
        String::from("sunset"),
        String::from("a quick sketch"),
        String::from("aGVsbG8="),
    );
    assert_eq!(entry.name, "sunset");
    assert_eq!(entry.description, "a quick sketch");
    assert_eq!(entry.data, "aGVsbG8=");
}
