use doodling_canvas::canvas::Canvas;
use doodling_canvas::canvas::Color;
use doodling_canvas::exporter::crop_padded;
use doodling_canvas::exporter::get_necessary_buffer_width;
use doodling_canvas::geometry::Rectangle;
use doodling_canvas::render_state::State;
use doodling_canvas::surface::SurfaceFormat;

fn grey() -> Color {
    Color { r: 51, g: 51, b: 51, a: 255 }
}

fn red() -> Color {
    Color { r: 200, g: 30, b: 30, a: 255 }
}

fn pixel(frame: &[u8], width: u32, x: u32, y: u32) -> (u8, u8, u8, u8) {
    let i = 4 * (y as usize * width as usize + x as usize);
    (frame[i], frame[i + 1], frame[i + 2], frame[i + 3])
}

fn is_color(frame: &[u8], width: u32, x: u32, y: u32, c: Color) -> bool {
    pixel(frame, width, x, y) == (c.r, c.g, c.b, c.a)
}

fn count_color_pixels(frame: &[u8], c: Color) -> usize {
    frame
        .chunks(4)
        .filter(|p| p[0] == c.r && p[1] == c.g && p[2] == c.b && p[3] == c.a)
        .count()
}

#[test]
fn necessary_buffer_width_rounds_up_to_256() {
    assert_eq!(get_necessary_buffer_width(800), 1024);
    assert_eq!(get_necessary_buffer_width(256), 256);
    assert_eq!(get_necessary_buffer_width(1), 256);
    assert_eq!(get_necessary_buffer_width(257), 512);
    assert_eq!(get_necessary_buffer_width(1024), 1024);
}

#[test]
fn crop_discards_padding_columns() {
    // two rows, padded to 4 texels wide, true width 2
    let mut padded: Vec<u8> = Vec::new();
    for row in 0u8..2 {
        for x in 0u8..4 {
            for k in 0u8..4 {
                padded.push(100 * row + 10 * x + k);
            }
        }
    }
    let tight = crop_padded(&padded, 4, 2, 2);
    assert_eq!(tight.len(), 16);
    assert_eq!(&tight[0..4], &[0, 1, 2, 3]);
    assert_eq!(&tight[4..8], &[10, 11, 12, 13]);
    assert_eq!(&tight[8..12], &[100, 101, 102, 103]);
    assert_eq!(&tight[12..16], &[110, 111, 112, 113]);
}

#[test]
fn clear_twice_leaves_every_pixel_the_clear_color() {
    let mut canvas = Canvas::new(8, 4, red());
    canvas.clear(grey());
    canvas.clear(grey());
    let frame = canvas.extract_framebuffer();
    assert_eq!(frame.len(), 8 * 4 * 4);
    assert_eq!(count_color_pixels(&frame, grey()), 8 * 4);
}

#[test]
fn export_of_cleared_canvas_has_no_padding_artifacts() {
    // width 7 forces a 256-texel stride; none of it may leak out
    let mut canvas = Canvas::new(7, 3, red());
    canvas.clear(grey());
    let frame = canvas.extract_framebuffer();
    assert_eq!(frame.len(), 7 * 3 * 4);
    assert_eq!(count_color_pixels(&frame, grey()), 7 * 3);
}

#[test]
fn paint_small_rect_on_800x600_canvas() {
    // canvas 800x600, cleared to the 0.2-grey scaled to 8 bit,
    // a 10x10 rectangle painted at the origin with zero offset
    let mut canvas = Canvas::new(800, 600, red());
    canvas.clear(grey());
    canvas.paint_rect(0, 0, 10, 10, 0, 0);
    let frame = canvas.extract_framebuffer();
    assert_eq!(frame.len(), 800 * 600 * 4);
    assert!(is_color(&frame, 800, 5, 5, red()));
    assert!(is_color(&frame, 800, 50, 50, grey()));
}

#[test]
fn same_rect_painted_at_two_offsets_gives_disjoint_regions() {
    let mut canvas = Canvas::new(200, 20, red());
    canvas.clear(grey());
    canvas.paint_rect(0, 0, 10, 10, 0, 0);
    canvas.paint_rect(0, 0, 10, 10, 100, 0);
    let frame = canvas.extract_framebuffer();
    for y in 0..10u32 {
        for x in 0..200u32 {
            let painted = x < 10 || (100 <= x && x < 110);
            assert_eq!(is_color(&frame, 200, x, y, red()), painted);
        }
    }
    // the two regions start 100 pixels apart
    assert!(is_color(&frame, 200, 0, 0, red()));
    assert!(is_color(&frame, 200, 100, 0, red()));
    assert!(is_color(&frame, 200, 99, 0, grey()));
}

#[test]
fn painting_disjoint_rects_strictly_grows_covered_count() {
    let mut canvas = Canvas::new(20, 10, red());
    canvas.clear(grey());
    let frame0 = canvas.extract_framebuffer();
    let n0 = count_color_pixels(&frame0, red());
    canvas.paint_rect(0, 0, 5, 5, 0, 0);
    let frame1 = canvas.extract_framebuffer();
    let n1 = count_color_pixels(&frame1, red());
    canvas.paint_rect(10, 0, 5, 5, 0, 0);
    let frame2 = canvas.extract_framebuffer();
    let n2 = count_color_pixels(&frame2, red());
    assert_eq!(n0, 0);
    assert_eq!(n1, 25);
    assert_eq!(n2, 50);
    assert!(n0 < n1 && n1 < n2);
}

#[test]
fn negative_offset_is_clipped() {
    let mut canvas = Canvas::new(16, 16, red());
    canvas.clear(grey());
    canvas.paint_rect(0, 0, 10, 10, -5, -5);
    let frame = canvas.extract_framebuffer();
    assert_eq!(count_color_pixels(&frame, red()), 25);
    assert!(is_color(&frame, 16, 0, 0, red()));
    assert!(is_color(&frame, 16, 4, 4, red()));
    assert!(is_color(&frame, 16, 5, 5, grey()));
}

#[test]
fn empty_rect_paints_nothing() {
    let mut canvas = Canvas::new(8, 8, red());
    canvas.clear(grey());
    canvas.paint_rect(2, 2, 0, 5, 0, 0);
    canvas.paint_rect(2, 2, 5, 0, 0, 0);
    let frame = canvas.extract_framebuffer();
    assert_eq!(count_color_pixels(&frame, red()), 0);
}

#[test]
fn recorded_passes_apply_in_order_on_submit() {
    let formats = vec![SurfaceFormat { code: 7, srgb: true }];
    let mut state = State::new(32, 16, &formats, red(), grey());
    let mut commands = state.begin_render();
    state.clear_screen(&mut commands);
    let rect = Rectangle::new(4, 4, 8, 8, 32, 16);
    rect.draw_to(&mut state, &mut commands, 2, 0);
    state.end_render(commands);
    let frame = state.canvas.extract_framebuffer();
    // the paint pass lands at (6..14) x (4..12), after the clear
    assert!(is_color(&frame, 32, 6, 4, red()));
    assert!(is_color(&frame, 32, 13, 11, red()));
    assert!(is_color(&frame, 32, 5, 4, grey()));
    assert_eq!(count_color_pixels(&frame, red()), 64);
}

#[test]
fn clear_recorded_after_paint_wins() {
    let formats = vec![SurfaceFormat { code: 1, srgb: false }];
    let mut state = State::new(8, 8, &formats, red(), grey());
    let mut commands = state.begin_render();
    let rect = Rectangle::new(0, 0, 8, 8, 8, 8);
    rect.draw_to(&mut state, &mut commands, 0, 0);
    state.clear_screen(&mut commands);
    state.end_render(commands);
    let frame = state.canvas.extract_framebuffer();
    assert_eq!(count_color_pixels(&frame, grey()), 64);
}
