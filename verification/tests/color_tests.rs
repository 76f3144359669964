use vga_console::color::{Color, ColorCode};

const ALL_COLORS: [Color; 16] = [
    Color::Black,
    Color::Blue,
    Color::Green,
    Color::Cyan,
    Color::Red,
    Color::Magenta,
    Color::Brown,
    Color::LightGray,
    Color::DarkGray,
    Color::LightBlue,
    Color::LightGreen,
    Color::LightCyan,
    Color::LightRed,
    Color::Pink,
    Color::Yellow,
    Color::White,
];

#[test]
fn yellow_on_black_is_0x0e() {
    assert_eq!(ColorCode::new(Color::Yellow, Color::Black), ColorCode(0x0e));
}

#[test]
fn background_goes_to_the_high_nibble() {
    assert_eq!(ColorCode::new(Color::Black, Color::Yellow), ColorCode(0xe0));
    assert_eq!(ColorCode::new(Color::White, Color::Blue), ColorCode(0x1f));
    assert_eq!(ColorCode::new(Color::LightGray, Color::Red), ColorCode(0x47));
    assert_eq!(ColorCode::new(Color::White, Color::White), ColorCode(0xff));
    assert_eq!(ColorCode::new(Color::Black, Color::Black), ColorCode(0x00));
}

#[test]
fn indices_follow_the_order_of_the_colours() {
    for (expected, color) in ALL_COLORS.iter().enumerate() {
        assert_eq!(color.index() as usize, expected);
    }
}

#[test]
fn from_index_inverts_index() {
    for color in ALL_COLORS.iter() {
        assert_eq!(Color::from_index(color.index()), Some(*color));
    }
}

#[test]
fn from_index_rejects_indices_from_16_on() {
    assert_eq!(Color::from_index(15), Some(Color::White));
    assert_eq!(Color::from_index(16), None);
    assert_eq!(Color::from_index(0x1e), None);
    assert_eq!(Color::from_index(255), None);
}

#[test]
fn every_pair_of_colours_round_trips() {
    for foreground in ALL_COLORS.iter() {
        for background in ALL_COLORS.iter() {
            let code = ColorCode::new(*foreground, *background);
            assert_eq!(code.foreground(), *foreground);
            assert_eq!(code.background(), *background);
            assert_eq!(code.foreground_index(), foreground.index());
            assert_eq!(code.background_index(), background.index());
            assert_eq!(code.0, (background.index() << 4) | foreground.index());
        }
    }
}

#[test]
fn every_byte_is_the_attribute_of_its_two_colours() {
    for byte in 0..=255u8 {
        let code = ColorCode(byte);
        assert_eq!(code.foreground_index(), byte & 0x0f);
        assert_eq!(code.background_index(), byte >> 4);
        assert_eq!(ColorCode::new(code.foreground(), code.background()), code);
    }
}

#[test]
fn default_attribute_is_yellow_on_black() {
    let code = ColorCode::default();
    assert_eq!(code, ColorCode(0x0e));
    assert_eq!(code.foreground(), Color::Yellow);
    assert_eq!(code.background(), Color::Black);
}
