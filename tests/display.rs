use kernel::vga::{Character, Color, Vga, CELLS, COLS, ROWS, SURFACE_BYTES};

fn display() -> Vga {
    Vga::new(vec![0u8; SURFACE_BYTES]).expect("surface of the right size")
}

fn printable(i: usize) -> u8 {
    b'a' + (i % 26) as u8
}

#[test]
fn new_rejects_a_surface_of_the_wrong_size() {
    assert!(Vga::new(vec![0u8; SURFACE_BYTES - 1]).is_none());
    assert!(Vga::new(vec![0u8; SURFACE_BYTES + 2]).is_none());
    assert!(Vga::new(Vec::new()).is_none());
}

#[test]
fn new_starts_blank_white_on_black() {
    let v = display();
    assert_eq!(v.position(), 0);
    assert_eq!(v.foreground(), Color::White);
    assert_eq!(v.background(), Color::Black);
    for i in 0..CELLS {
        assert_eq!(v.cell(i), Character::new(b' ', Color::White, Color::Black));
    }
}

#[test]
fn write_then_flush_places_bytes_and_attributes() {
    let mut v = display();
    v.write(b"hello");
    assert_eq!(v.position(), 5);
    v.flush();
    let s = v.surface();
    for (i, b) in b"hello".iter().enumerate() {
        assert_eq!(s[2 * i], *b);
        assert_eq!(s[2 * i + 1], 0x0F);
    }
    assert_eq!(s[10], b' ');
    assert_eq!(s[11], 0x0F);
}

#[test]
fn flush_copies_the_whole_grid() {
    let mut v = display();
    v.set_foreground(Color::Red);
    v.write_str("ab");
    v.flush();
    let s = v.surface().clone();
    assert_eq!(s.len(), SURFACE_BYTES);
    assert_eq!(&s[0..4], &[b'a', 0x04, b'b', 0x04]);
    assert_eq!(&s[SURFACE_BYTES - 2..], &[b' ', 0x0F]);
}

#[test]
fn surface_is_untouched_until_flush() {
    let mut v = display();
    v.write(b"x");
    assert!(v.surface().iter().all(|b| *b == 0));
}

#[test]
fn colours_apply_to_later_cells_only() {
    let mut v = display();
    v.write(b"a");
    v.set_foreground(Color::Blue);
    v.set_background(Color::BrightMagenta);
    v.write(b"b");
    assert_eq!(v.cell(0).attribute, 0x0F);
    assert_eq!(v.cell(1).attribute, 0xD1);
}

#[test]
fn one_full_screen_scrolls_once() {
    let mut v = display();
    let bytes: Vec<u8> = (0..CELLS).map(printable).collect();
    v.write(&bytes);
    assert_eq!(v.position(), (ROWS - 1) * COLS);
    for i in 0..(ROWS - 1) * COLS {
        assert_eq!(v.cell(i), Character::new(bytes[i + COLS], Color::White, Color::Black));
    }
    for i in (ROWS - 1) * COLS..CELLS {
        assert_eq!(v.cell(i), Character::new(b' ', Color::White, Color::Black));
    }
}

#[test]
fn scroll_blanks_last_row_in_current_colours() {
    let mut v = display();
    v.write(b"top\nsecond");
    v.set_background(Color::Green);
    v.scroll();
    assert_eq!(v.position(), (ROWS - 1) * COLS);
    assert_eq!(v.cell(0).character, b's');
    assert_eq!(v.cell(CELLS - 1), Character::new(b' ', Color::White, Color::Green));
}

#[test]
fn line_feed_goes_to_start_of_next_row() {
    let mut v = display();
    v.write(b"hello\n");
    assert_eq!(v.position(), COLS);
    v.write(b"\n");
    assert_eq!(v.position(), 2 * COLS);
    v.write(b"ab");
    assert_eq!(v.cell(2 * COLS).character, b'a');
}

#[test]
fn line_feed_on_last_row_scrolls() {
    let mut v = display();
    for _ in 0..ROWS - 1 {
        v.write(b"\n");
    }
    assert_eq!(v.position(), (ROWS - 1) * COLS);
    v.write(b"last\n");
    assert_eq!(v.position(), (ROWS - 1) * COLS);
    assert_eq!(v.cell((ROWS - 2) * COLS).character, b'l');
    assert_eq!(v.cell((ROWS - 1) * COLS).character, b' ');
}

#[test]
fn writing_the_last_cell_scrolls() {
    let mut v = display();
    let bytes = vec![b'q'; CELLS - 1];
    v.write(&bytes);
    assert_eq!(v.position(), CELLS - 1);
    v.write_byte(b'r');
    assert_eq!(v.position(), (ROWS - 1) * COLS);
    assert_eq!(v.cell((ROWS - 1) * COLS - 1).character, b'r');
}
