use kernel::vga::{Character, Color};

#[test]
fn creation() {
    let character = Character::new(b'a', Color::Blue, Color::BrightMagenta);

    assert_eq!(character.character, b'a');
    assert_eq!(character.attribute, 0xD1);

    let character = Character::new(b'b', Color::Yellow, Color::Red);

    assert_eq!(character.character, b'b');
    assert_eq!(character.attribute, 0x4E);

    let character = Character::new(b'c', Color::DarkGray, Color::White);

    assert_eq!(character.character, b'c');
    assert_eq!(character.attribute, 0xF8);
}

#[test]
fn attribute_is_background_high_foreground_low() {
    let colors = [
        Color::Black,
        Color::Blue,
        Color::Green,
        Color::Cyan,
        Color::Red,
        Color::Magenta,
        Color::Brown,
        Color::Gray,
        Color::DarkGray,
        Color::BrightBlue,
        Color::BrightGreen,
        Color::BrightCyan,
        Color::BrightRed,
        Color::BrightMagenta,
        Color::Yellow,
        Color::White,
    ];
    for (f, fg) in colors.iter().enumerate() {
        assert_eq!(fg.code() as usize, f);
        for (b, bg) in colors.iter().enumerate() {
            let c = Character::new(b'x', *fg, *bg);
            assert_eq!(c.attribute as usize, (b << 4) | f);
        }
    }
}

#[test]
fn as_bytes_gives_glyph_then_attribute() {
    let c = Character::new(b'z', Color::White, Color::Black);
    assert_eq!(c.as_bytes(), (b'z', 0x0F));
}
