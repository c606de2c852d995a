use embassy_badger2040::display::{BinaryColor, Display, Framebuffer, Pixel, FRAME_BYTES, HEIGHT, WIDTH};
use embassy_badger2040::uc8151::Uc8151;

#[test]
fn write_then_read_back_in_bounds() {
    let mut fb = Framebuffer::new();
    for &(x, y) in &[(0usize, 0usize), (5, 9), (WIDTH - 1, HEIGHT - 1), (100, 64)] {
        fb.write(x, y, true);
        assert_eq!(fb.read(x, y), Some(true));
        fb.write(x, y, false);
        assert_eq!(fb.read(x, y), Some(false));
    }
}

#[test]
fn write_leaves_neighbours_alone() {
    let mut fb = Framebuffer::new();
    fb.write(10, 10, true);
    assert_eq!(fb.read(10, 11), Some(false));
    assert_eq!(fb.read(10, 9), Some(false));
    assert_eq!(fb.read(11, 10), Some(false));
    assert_eq!(fb.read(10, 10), Some(true));
}

#[test]
fn write_out_of_bounds_changes_nothing() {
    let mut fb = Framebuffer::new();
    fb.write(3, 4, true);
    let before = fb.bytes().clone();
    fb.write(WIDTH, 0, true);
    fb.write(0, HEIGHT, true);
    fb.write(usize::MAX, usize::MAX, true);
    assert_eq!(fb.bytes(), &before);
    assert_eq!(fb.read(WIDTH, 0), None);
    assert_eq!(fb.read(0, HEIGHT), None);
}

#[test]
fn pixel_bit_layout() {
    let mut fb = Framebuffer::new();
    fb.write(0, 0, true);
    assert_eq!(fb.bytes()[0], 0x80);
    fb.write(0, 9, true);
    assert_eq!(fb.bytes()[1], 0x40);
    fb.write(1, 7, true);
    assert_eq!(fb.bytes()[16], 0x01);
    fb.write(0, 0, false);
    assert_eq!(fb.bytes()[0], 0x00);
}

#[test]
fn clear_reads_false_everywhere() {
    let mut fb = Framebuffer::default();
    for x in 0..WIDTH {
        for y in 0..HEIGHT {
            if (x + y) % 3 == 0 {
                fb.write(x, y, true);
            }
        }
    }
    fb.clear();
    for x in 0..WIDTH {
        for y in 0..HEIGHT {
            assert_eq!(fb.read(x, y), Some(false));
        }
    }
    assert!(fb.bytes().iter().all(|&b| b == 0));
}

#[test]
fn all_pixels_set_encodes_all_ones() {
    let mut fb = Framebuffer::new();
    for x in 0..WIDTH {
        for y in 0..HEIGHT {
            fb.write(x, y, true);
        }
    }
    assert_eq!(fb.bytes().len(), WIDTH * HEIGHT / 8);
    assert_eq!(fb.bytes().len(), FRAME_BYTES);
    assert!(fb.bytes().iter().all(|&b| b == 0xFF));
}

#[test]
fn all_pixels_clear_encodes_all_zeros() {
    let mut fb = Framebuffer::new();
    for x in 0..WIDTH {
        for y in 0..HEIGHT {
            fb.write(x, y, true);
            fb.write(x, y, false);
        }
    }
    assert_eq!(fb.bytes().len(), WIDTH * HEIGHT / 8);
    assert!(fb.bytes().iter().all(|&b| b == 0));
}

#[test]
fn corner_pixels_use_inverted_polarity() {
    let mut display = Display::new(Uc8151::new());
    let pixels = vec![
        Pixel { x: 0, y: 0, color: BinaryColor::Off },
        Pixel { x: WIDTH as i32 - 1, y: HEIGHT as i32 - 1, color: BinaryColor::Off },
    ];
    display.draw_iter(&pixels);
    let bytes = display.framebuffer.bytes();
    assert_eq!(bytes[0], 0x80);
    assert_eq!(bytes[FRAME_BYTES - 1], 0x01);
    assert_eq!(bytes.iter().filter(|&&b| b != 0).count(), 2);
    assert_eq!(display.framebuffer.read(0, 0), Some(true));
    assert_eq!(display.framebuffer.read(WIDTH - 1, HEIGHT - 1), Some(true));
}

#[test]
fn on_color_clears_the_bit() {
    let mut display = Display::new(Uc8151::new());
    display.draw_iter(&vec![Pixel { x: 7, y: 3, color: BinaryColor::Off }]);
    assert_eq!(display.framebuffer.read(7, 3), Some(true));
    display.draw_iter(&vec![Pixel { x: 7, y: 3, color: BinaryColor::On }]);
    assert_eq!(display.framebuffer.read(7, 3), Some(false));
}

#[test]
fn draw_skips_pixels_outside_the_panel() {
    let mut display = Display::new(Uc8151::new());
    let pixels = vec![
        Pixel { x: -1, y: 0, color: BinaryColor::Off },
        Pixel { x: 0, y: -1, color: BinaryColor::Off },
        Pixel { x: WIDTH as i32, y: 0, color: BinaryColor::Off },
        Pixel { x: 0, y: HEIGHT as i32, color: BinaryColor::Off },
        Pixel { x: i32::MIN, y: i32::MAX, color: BinaryColor::Off },
    ];
    display.draw_iter(&pixels);
    assert!(display.framebuffer.bytes().iter().all(|&b| b == 0));
}

#[test]
fn later_pixels_win() {
    let mut display = Display::new(Uc8151::new());
    let pixels = vec![
        Pixel { x: 2, y: 2, color: BinaryColor::Off },
        Pixel { x: 2, y: 2, color: BinaryColor::On },
    ];
    display.draw_iter(&pixels);
    assert_eq!(display.framebuffer.read(2, 2), Some(false));
}

#[test]
fn clear_buffer_blanks_the_frame() {
    let mut display = Display::new(Uc8151::new());
    display.draw_iter(&vec![Pixel { x: 1, y: 1, color: BinaryColor::Off }]);
    display.clear_buffer();
    assert!(display.framebuffer.bytes().iter().all(|&b| b == 0));
}

#[test]
fn size_is_panel_geometry() {
    let display = Display::new(Uc8151::new());
    assert_eq!(display.size(), (296, 128));
}
