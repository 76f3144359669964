//! Colours and the attribute byte that packs a foreground and a background colour.

use vstd::prelude::*;

verus! {

/// The sixteen colours of the text mode, in the order of their 4-bit indices.
#[derive(Debug, Clone, Copy, PartialEq, Eq, Structural)]
pub enum Color {
    Black,
    Blue,
    Green,
    Cyan,
    Red,
    Magenta,
    Brown,
    LightGray,
    DarkGray,
    LightBlue,
    LightGreen,
    LightCyan,
    LightRed,
    Pink,
    Yellow,
    White,
}

impl Color {
    /// The 4-bit index of the colour.
    pub open spec fn spec_index(self) -> u8 {
        match self {
            Color::Black => 0,
            Color::Blue => 1,
            Color::Green => 2,
            Color::Cyan => 3,
            Color::Red => 4,
            Color::Magenta => 5,
            Color::Brown => 6,
            Color::LightGray => 7,
            Color::DarkGray => 8,
            Color::LightBlue => 9,
            Color::LightGreen => 10,
            Color::LightCyan => 11,
            Color::LightRed => 12,
            Color::Pink => 13,
            Color::Yellow => 14,
            Color::White => 15,
        }
    }

    /// The colour with the given index, for indices below 16.
    pub open spec fn spec_from_index(index: u8) -> Option<Color> {
        match index {
            0 => Some(Color::Black),
            1 => Some(Color::Blue),
            2 => Some(Color::Green),
            3 => Some(Color::Cyan),
            4 => Some(Color::Red),
            5 => Some(Color::Magenta),
            6 => Some(Color::Brown),
            7 => Some(Color::LightGray),
            8 => Some(Color::DarkGray),
            9 => Some(Color::LightBlue),
            10 => Some(Color::LightGreen),
            11 => Some(Color::LightCyan),
            12 => Some(Color::LightRed),
            13 => Some(Color::Pink),
            14 => Some(Color::Yellow),
            15 => Some(Color::White),
            _ => None,
        }
    }

    /// The 4-bit index of the colour.
    #[verifier::when_used_as_spec(spec_index)]
    pub fn index(self) -> (index: u8)
        ensures
            index == self.spec_index(),
            index < 16,
    {
        match self {
            Color::Black => 0,
            Color::Blue => 1,
            Color::Green => 2,
            Color::Cyan => 3,
            Color::Red => 4,
            Color::Magenta => 5,
            Color::Brown => 6,
            Color::LightGray => 7,
            Color::DarkGray => 8,
            Color::LightBlue => 9,
            Color::LightGreen => 10,
            Color::LightCyan => 11,
            Color::LightRed => 12,
            Color::Pink => 13,
            Color::Yellow => 14,
            Color::White => 15,
        }
    }

    /// The colour with the given index: `Some` exactly for the indices below 16.
    #[verifier::when_used_as_spec(spec_from_index)]
    pub fn from_index(index: u8) -> (color: Option<Color>)
        ensures
            color == Color::spec_from_index(index),
            color.is_some() <==> index < 16,
            color matches Some(c) ==> c.spec_index() == index,
    {
        match index {
            0 => Some(Color::Black),
            1 => Some(Color::Blue),
            2 => Some(Color::Green),
            3 => Some(Color::Cyan),
            4 => Some(Color::Red),
            5 => Some(Color::Magenta),
            6 => Some(Color::Brown),
            7 => Some(Color::LightGray),
            8 => Some(Color::DarkGray),
            9 => Some(Color::LightBlue),
            10 => Some(Color::LightGreen),
            11 => Some(Color::LightCyan),
            12 => Some(Color::LightRed),
            13 => Some(Color::Pink),
            14 => Some(Color::Yellow),
            15 => Some(Color::White),
            _ => None,
        }
    }
}

/// An attribute byte: the foreground index in bits 0 to 3, the background index in
/// bits 4 to 7. Every byte is an attribute; there is no blink bit.
#[derive(Debug, Clone, Copy, PartialEq, Eq, Structural)]
pub struct ColorCode(pub u8);

impl ColorCode {
    /// The byte that packs the two colour indices.
    pub open spec fn pack(foreground: u8, background: u8) -> u8 {
        (background << 4) | foreground
    }

    /// The index in the low four bits.
    pub open spec fn spec_foreground_index(self) -> u8 {
        self.0 & 0x0f
    }

    /// The index in the high four bits.
    pub open spec fn spec_background_index(self) -> u8 {
        self.0 >> 4
    }

    /// The foreground colour of the attribute.
    pub open spec fn spec_foreground(self) -> Color {
        Color::spec_from_index(self.spec_foreground_index()).unwrap()
    }

    /// The background colour of the attribute.
    pub open spec fn spec_background(self) -> Color {
        Color::spec_from_index(self.spec_background_index()).unwrap()
    }

    /// Packs a foreground and a background colour into one attribute byte.
    pub fn new(foreground: Color, background: Color) -> (code: ColorCode)
        ensures
            code.0 == Self::pack(foreground.spec_index(), background.spec_index()),
            code.spec_foreground_index() == foreground.spec_index(),
            code.spec_background_index() == background.spec_index(),
            code.spec_foreground() == foreground,
            code.spec_background() == background,
    {
        let fg: u8 = foreground.index();
        let bg: u8 = background.index();
        proof {
            lemma_pack_round_trip(fg, bg);
            lemma_index_round_trip(foreground);
            lemma_index_round_trip(background);
        }
        ColorCode((bg << 4) | fg)
    }

    /// The index of the foreground colour.
    #[verifier::when_used_as_spec(spec_foreground_index)]
    pub fn foreground_index(self) -> (index: u8)
        ensures
            index == self.spec_foreground_index(),
            index < 16,
    {
        let byte: u8 = self.0;
        assert(byte & 0x0f < 16) by (bit_vector);
        byte & 0x0f
    }

    /// The index of the background colour.
    #[verifier::when_used_as_spec(spec_background_index)]
    pub fn background_index(self) -> (index: u8)
        ensures
            index == self.spec_background_index(),
            index < 16,
    {
        let byte: u8 = self.0;
        assert(byte >> 4 < 16) by (bit_vector);
        byte >> 4
    }

    /// The foreground colour.
    #[verifier::when_used_as_spec(spec_foreground)]
    pub fn foreground(self) -> (color: Color)
        ensures
            color == self.spec_foreground(),
            color.spec_index() == self.spec_foreground_index(),
    {
        match Color::from_index(self.foreground_index()) {
            Some(color) => color,
            None => Color::Black,
        }
    }

    /// The background colour.
    #[verifier::when_used_as_spec(spec_background)]
    pub fn background(self) -> (color: Color)
        ensures
            color == self.spec_background(),
            color.spec_index() == self.spec_background_index(),
    {
        match Color::from_index(self.background_index()) {
            Some(color) => color,
            None => Color::Black,
        }
    }
}

impl Default for ColorCode {
    /// The attribute of the console: yellow on black.
    fn default() -> (code: ColorCode)
        ensures
            code == ColorCode(0x0e),
            code.spec_foreground() == Color::Yellow,
            code.spec_background() == Color::Black,
    {
        let code = ColorCode::new(Color::Yellow, Color::Black);
        assert(ColorCode::pack(14, 0) == 0x0e) by (bit_vector);
        code
    }
}

/// Two indices below 16 are read back unchanged from the byte that packs them.
pub proof fn lemma_pack_round_trip(foreground: u8, background: u8)
    requires
        foreground < 16,
        background < 16,
    ensures
        ColorCode(ColorCode::pack(foreground, background)).spec_foreground_index() == foreground,
        ColorCode(ColorCode::pack(foreground, background)).spec_background_index() == background,
{
    assert(((background << 4) | foreground) & 0x0f == foreground) by (bit_vector)
        requires
            foreground < 16,
            background < 16,
    ;
    assert(((background << 4) | foreground) >> 4 == background) by (bit_vector)
        requires
            foreground < 16,
            background < 16,
    ;
}

/// Decoding the attribute of a foreground and a background colour gives back exactly the
/// two colours.
pub proof fn lemma_color_code_round_trip(foreground: Color, background: Color)
    ensures
        ColorCode(ColorCode::pack(foreground.spec_index(), background.spec_index()))
            .spec_foreground() == foreground,
        ColorCode(ColorCode::pack(foreground.spec_index(), background.spec_index()))
            .spec_background() == background,
{
    lemma_index_round_trip(foreground);
    lemma_index_round_trip(background);
    lemma_pack_round_trip(foreground.spec_index(), background.spec_index());
}

/// A colour is the one that its own index names.
pub proof fn lemma_index_round_trip(color: Color)
    ensures
        color.spec_index() < 16,
        Color::spec_from_index(color.spec_index()) == Some(color),
{
}

/// Every byte is the packing of its own two indices: the encoding loses nothing.
pub proof fn lemma_unpack_round_trip(code: ColorCode)
    ensures
        code.spec_foreground_index() < 16,
        code.spec_background_index() < 16,
        ColorCode::pack(code.spec_foreground_index(), code.spec_background_index()) == code.0,
{
    let b = code.0;
    assert(b & 0x0f < 16) by (bit_vector);
    assert(b >> 4 < 16) by (bit_vector);
    assert((((b >> 4) << 4) | (b & 0x0f)) == b) by (bit_vector);
}

} // verus!
