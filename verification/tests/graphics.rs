use chip8::graphics::compute_x_coordinates;
use chip8::graphics::draw_byte;
use chip8::graphics::to_bits;
use chip8::graphics::ConsoleDisplay;
use chip8::graphics::Sprite;

#[test]
fn test_console_display_clear() {
    let mut x = ConsoleDisplay {
        buffer: [true; 2048],
    };
    x.clear();
    assert_eq!(x.buffer, [false; 2048]);
}

#[test]
fn test_draw_byte() {
    let mut display_buffer = [false; 2048];
    draw_byte(0, 0, 0xFF, &mut display_buffer);
    let mut expected_display_buffer = [false; 2048];
    expected_display_buffer[0..8].clone_from_slice(&[true; 8]);
    assert_eq!(display_buffer, expected_display_buffer);
}

#[test]
fn test_draw_byte_horizontal_wrap() {
    let mut display_buffer = [false; 64];
    draw_byte(60, 0, 0xFF, &mut display_buffer);
    let mut expected_display_buffer = [false; 64];
    expected_display_buffer[60..64].clone_from_slice(&[true; 4]);
    expected_display_buffer[0..4].clone_from_slice(&[true; 4]);
    assert_eq!(display_buffer, expected_display_buffer);
}

#[test]
fn test_compute_x_coordinates() {
    let x_coordinates = compute_x_coordinates(60);
    let expected_x_coordinates = [60, 61, 62, 63, 0, 1, 2, 3];
    assert_eq!(x_coordinates, expected_x_coordinates);
}

#[test]
fn test_draw_vertical_wrap() {
    let mut display = ConsoleDisplay {
        buffer: [false; 2048],
    };
    let bytes = [0xFF, 0xFF];
    let sprite = Sprite::from(&bytes[..]);
    display.draw(55, 31, &sprite);
    let mut expected_buffer = [false; 2048];
    expected_buffer[55..63].clone_from_slice(&[true; 8]);
    expected_buffer[2039..2047].clone_from_slice(&[true; 8]);
    assert_eq!(display.buffer, expected_buffer);
}

#[test]
fn to_bits_puts_the_high_bit_first() {
    assert_eq!(
        to_bits(0b1010_0001),
        vec![true, false, true, false, false, false, false, true]
    );
    assert_eq!(to_bits(0x00), vec![false; 8]);
    assert_eq!(to_bits(0xFF), vec![true; 8]);
    assert_eq!(
        to_bits(0x80),
        vec![true, false, false, false, false, false, false, false]
    );
    assert_eq!(
        to_bits(0x01),
        vec![false, false, false, false, false, false, false, true]
    );
}

#[test]
fn compute_x_coordinates_without_wrap() {
    assert_eq!(compute_x_coordinates(0), [0, 1, 2, 3, 4, 5, 6, 7]);
    assert_eq!(compute_x_coordinates(56), [56, 57, 58, 59, 60, 61, 62, 63]);
}

#[test]
fn compute_x_coordinates_reduces_columns_beyond_the_display() {
    assert_eq!(compute_x_coordinates(64), [0, 1, 2, 3, 4, 5, 6, 7]);
    assert_eq!(compute_x_coordinates(255), [63, 0, 1, 2, 3, 4, 5, 6]);
}

#[test]
fn draw_byte_reports_a_collision_and_turns_lit_pixels_off() {
    let mut display_buffer = [false; 2048];
    assert_eq!(draw_byte(4, 2, 0b1100_0000, &mut display_buffer), 0);
    assert!(display_buffer[2 * 64 + 4]);
    assert!(display_buffer[2 * 64 + 5]);
    assert_eq!(draw_byte(5, 2, 0b1100_0000, &mut display_buffer), 1);
    assert!(display_buffer[2 * 64 + 4]);
    assert!(!display_buffer[2 * 64 + 5]);
    assert!(display_buffer[2 * 64 + 6]);
    assert_eq!(display_buffer.iter().filter(|lit| **lit).count(), 2);
}

#[test]
fn draw_byte_of_zero_changes_nothing() {
    let mut display_buffer = [true; 2048];
    assert_eq!(draw_byte(10, 10, 0x00, &mut display_buffer), 0);
    assert_eq!(display_buffer, [true; 2048]);
}

#[test]
fn drawing_a_sprite_twice_restores_the_display() {
    let mut display = ConsoleDisplay::new();
    let bytes = [0xF0, 0x90, 0x90, 0x90, 0xF0];
    let sprite = Sprite::from(&bytes[..]);
    assert_eq!(display.draw(62, 30, &sprite), 0);
    assert_ne!(display.buffer, [false; 2048]);
    assert_eq!(display.draw(62, 30, &sprite), 1);
    assert_eq!(display.buffer, [false; 2048]);
}

#[test]
fn drawing_a_dark_sprite_twice_reports_no_collision() {
    let mut display = ConsoleDisplay::new();
    let bytes = [0x00, 0x00];
    let sprite = Sprite::from(&bytes[..]);
    assert_eq!(display.draw(1, 1, &sprite), 0);
    assert_eq!(display.draw(1, 1, &sprite), 0);
    assert_eq!(display.buffer, [false; 2048]);
}

#[test]
fn drawing_twice_on_a_lit_display_restores_it() {
    let mut display = ConsoleDisplay {
        buffer: [true; 2048],
    };
    let bytes = [0xFF];
    let sprite = Sprite::from(&bytes[..]);
    assert_eq!(display.draw(0, 0, &sprite), 1);
    assert_eq!(display.draw(0, 0, &sprite), 0);
    assert_eq!(display.buffer, [true; 2048]);
}

#[test]
fn draw_reduces_coordinates_beyond_the_display() {
    let mut display = ConsoleDisplay::new();
    let bytes = [0x80];
    let sprite = Sprite::from(&bytes[..]);
    assert_eq!(display.draw(64 + 3, 32 + 2, &sprite), 0);
    let mut expected = [false; 2048];
    expected[2 * 64 + 3] = true;
    assert_eq!(display.buffer, expected);
}

#[test]
fn draw_of_an_empty_sprite_changes_nothing() {
    let mut display = ConsoleDisplay::new();
    let bytes: [u8; 0] = [];
    let sprite = Sprite::from(&bytes[..]);
    assert_eq!(sprite.len(), 0);
    assert_eq!(display.draw(5, 5, &sprite), 0);
    assert_eq!(display.buffer, [false; 2048]);
}

#[test]
fn sprite_keeps_its_rows_in_order() {
    let bytes = [1u8, 2, 3];
    let sprite = Sprite::from(&bytes[..]);
    assert_eq!(sprite.len(), 3);
    assert_eq!(sprite.iter().copied().collect::<Vec<u8>>(), vec![1, 2, 3]);
    assert_eq!(sprite.row(0), 1);
    assert_eq!(sprite.row(2), 3);
}

#[test]
fn covered_pixels_reads_the_area_of_a_sprite() {
    let mut display = ConsoleDisplay::new();
    let bytes = [0b1000_0001, 0b0100_0000];
    let sprite = Sprite::from(&bytes[..]);
    display.draw(60, 31, &sprite);
    let update = display.covered_pixels(60, 31, 2);
    assert_eq!(
        update,
        vec![
            vec![true, false, false, false, false, false, false, true],
            vec![false, true, false, false, false, false, false, false],
        ]
    );
    assert!(display.buffer[31 * 64 + 60]);
    assert!(display.buffer[31 * 64 + 3]);
    assert!(display.buffer[61]);
}

#[test]
fn render_shows_lit_pixels_as_stars() {
    let mut display = ConsoleDisplay::new();
    let bytes = [0b1010_0000];
    let sprite = Sprite::from(&bytes[..]);
    display.draw(0, 1, &sprite);
    let text = display.render();
    let lines: Vec<&str> = text.split('\n').collect();
    assert_eq!(text.len(), 32 * 65);
    assert_eq!(lines.len(), 33);
    assert_eq!(lines[32], "");
    assert_eq!(lines[0], " ".repeat(64));
    assert_eq!(lines[1], format!("* *{}", " ".repeat(61)));
    for line in &lines[2..32] {
        assert_eq!(*line, " ".repeat(64));
    }
}
