use vga_console::buffer::{Buffer, ScreenChar, BUFFER_HEIGHT, BUFFER_WIDTH};
use vga_console::color::{Color, ColorCode};
use vga_console::writer::Writer;
use volatile::Volatile;

type Grid = [[Volatile<[u8; 2]>; BUFFER_WIDTH]; BUFFER_HEIGHT];

const ATTRIBUTE: ColorCode = ColorCode(0x0e);

fn grid_of(character: u8, attribute: u8) -> Grid {
    core::array::from_fn(|_| core::array::from_fn(|_| Volatile::new([character, attribute])))
}

fn blank_grid() -> Grid {
    grid_of(b' ', ATTRIBUTE.0)
}

/// A grid in which every cell differs from every other: the character holds the column,
/// the attribute holds the row.
fn numbered_grid() -> Grid {
    core::array::from_fn(|row| {
        core::array::from_fn(|col| Volatile::new([0x20 + col as u8, row as u8]))
    })
}

fn numbered_cell(row: usize, col: usize) -> ScreenChar {
    ScreenChar { ascii_character: 0x20 + col as u8, color_code: ColorCode(row as u8) }
}

fn cell(character: u8) -> ScreenChar {
    ScreenChar { ascii_character: character, color_code: ATTRIBUTE }
}

fn row_of(writer: &Writer, row: usize) -> Vec<ScreenChar> {
    (0..BUFFER_WIDTH).map(|col| writer.buffer().read(row, col)).collect()
}

#[test]
fn new_writer_starts_at_column_0_and_leaves_the_grid() {
    let mut grid = numbered_grid();
    let writer = Writer::new(ColorCode::new(Color::White, Color::Blue), Buffer::new(&mut grid));
    assert_eq!(writer.column_position(), 0);
    assert_eq!(writer.color_code(), ColorCode(0x1f));
    for row in 0..BUFFER_HEIGHT {
        for col in 0..BUFFER_WIDTH {
            assert_eq!(writer.buffer().read(row, col), numbered_cell(row, col));
        }
    }
}

#[test]
fn write_byte_places_the_byte_in_the_last_row() {
    let mut grid = blank_grid();
    let mut writer = Writer::new(ATTRIBUTE, Buffer::new(&mut grid));
    writer.write_byte(b'H');
    writer.write_byte(b'i');
    assert_eq!(writer.column_position(), 2);
    assert_eq!(writer.buffer().read(24, 0), cell(b'H'));
    assert_eq!(writer.buffer().read(24, 1), cell(b'i'));
    assert_eq!(writer.buffer().read(24, 2), cell(b' '));
    assert_eq!(row_of(&writer, 23), vec![cell(b' '); BUFFER_WIDTH]);
}

#[test]
fn write_byte_does_not_substitute() {
    let mut grid = blank_grid();
    let mut writer = Writer::new(ATTRIBUTE, Buffer::new(&mut grid));
    writer.write_byte(0x01);
    writer.write_byte(0xff);
    assert_eq!(writer.buffer().read(24, 0), cell(0x01));
    assert_eq!(writer.buffer().read(24, 1), cell(0xff));
    assert_eq!(writer.column_position(), 2);
}

#[test]
fn eighty_characters_fill_the_row_without_a_scroll() {
    let mut grid = numbered_grid();
    let mut writer = Writer::new(ATTRIBUTE, Buffer::new(&mut grid));
    let text: String = (0..80).map(|i| (b'a' + (i % 26) as u8) as char).collect();
    writer.write_string(&text);
    assert_eq!(writer.column_position(), 80);
    for row in 0..24 {
        for col in 0..BUFFER_WIDTH {
            assert_eq!(writer.buffer().read(row, col), numbered_cell(row, col));
        }
    }
    for col in 0..BUFFER_WIDTH {
        assert_eq!(writer.buffer().read(24, col), cell(b'a' + (col % 26) as u8));
    }
}

#[test]
fn the_81st_character_scrolls_once_and_starts_the_row() {
    let mut grid = numbered_grid();
    let mut writer = Writer::new(ATTRIBUTE, Buffer::new(&mut grid));
    let text: String = (0..80).map(|i| (b'a' + (i % 26) as u8) as char).collect();
    writer.write_string(&text);
    writer.write_byte(b'!');
    assert_eq!(writer.column_position(), 1);
    for row in 0..23 {
        for col in 0..BUFFER_WIDTH {
            assert_eq!(writer.buffer().read(row, col), numbered_cell(row + 1, col));
        }
    }
    for col in 0..BUFFER_WIDTH {
        assert_eq!(writer.buffer().read(23, col), cell(b'a' + (col % 26) as u8));
    }
    assert_eq!(writer.buffer().read(24, 0), cell(b'!'));
    for col in 1..BUFFER_WIDTH {
        assert_eq!(writer.buffer().read(24, col), cell(b' '));
    }
}

#[test]
fn new_line_shifts_every_row_up_and_blanks_the_last() {
    let mut grid = numbered_grid();
    let mut writer = Writer::new(ATTRIBUTE, Buffer::new(&mut grid));
    writer.write_string("abc");
    writer.new_line();
    assert_eq!(writer.column_position(), 0);
    for row in 0..23 {
        for col in 0..BUFFER_WIDTH {
            assert_eq!(writer.buffer().read(row, col), numbered_cell(row + 1, col));
        }
    }
    assert_eq!(writer.buffer().read(23, 0), cell(b'a'));
    assert_eq!(writer.buffer().read(23, 1), cell(b'b'));
    assert_eq!(writer.buffer().read(23, 2), cell(b'c'));
    for col in 3..BUFFER_WIDTH {
        assert_eq!(writer.buffer().read(23, col), numbered_cell(24, col));
    }
    assert_eq!(row_of(&writer, 24), vec![cell(b' '); BUFFER_WIDTH]);
}

#[test]
fn new_line_blanks_in_the_current_attribute() {
    let mut grid = numbered_grid();
    let attribute = ColorCode::new(Color::LightRed, Color::Cyan);
    let mut writer = Writer::new(attribute, Buffer::new(&mut grid));
    writer.new_line();
    let blank = ScreenChar { ascii_character: 0x20, color_code: ColorCode(0x3c) };
    assert_eq!(row_of(&writer, 24), vec![blank; BUFFER_WIDTH]);
}

#[test]
fn twenty_five_new_lines_blank_the_whole_grid() {
    let mut grid = numbered_grid();
    let mut writer = Writer::new(ATTRIBUTE, Buffer::new(&mut grid));
    for _ in 0..25 {
        writer.write_byte(b'\n');
    }
    for row in 0..BUFFER_HEIGHT {
        assert_eq!(row_of(&writer, row), vec![cell(b' '); BUFFER_WIDTH]);
    }
    assert_eq!(writer.column_position(), 0);
}

#[test]
fn clear_row_blanks_one_row_only() {
    let mut grid = numbered_grid();
    let mut writer = Writer::new(ATTRIBUTE, Buffer::new(&mut grid));
    writer.write_string("xy");
    writer.clear_row(7);
    assert_eq!(writer.column_position(), 2);
    for row in 0..BUFFER_HEIGHT {
        for col in 0..BUFFER_WIDTH {
            let expected = if row == 7 {
                cell(b' ')
            } else if row == 24 && col == 0 {
                cell(b'x')
            } else if row == 24 && col == 1 {
                cell(b'y')
            } else {
                numbered_cell(row, col)
            };
            assert_eq!(writer.buffer().read(row, col), expected);
        }
    }
}

#[test]
fn byte_0x01_is_shown_as_the_placeholder() {
    let mut grid = blank_grid();
    let mut writer = Writer::new(ATTRIBUTE, Buffer::new(&mut grid));
    writer.write_string("\u{1}");
    assert_eq!(writer.buffer().read(24, 0), cell(0xfe));
    assert_eq!(writer.column_position(), 1);
}

#[test]
fn the_edges_of_the_printable_range() {
    let mut grid = blank_grid();
    let mut writer = Writer::new(ATTRIBUTE, Buffer::new(&mut grid));
    writer.write_bytes(&[0x1f, 0x20, 0x7e, 0x7f, 0x00, 0xff, 0x0d, 0x09]);
    let shown: Vec<u8> = (0..8).map(|col| writer.buffer().read(24, col).ascii_character).collect();
    assert_eq!(shown, vec![0xfe, 0x20, 0x7e, 0xfe, 0xfe, 0xfe, 0xfe, 0xfe]);
    assert_eq!(writer.column_position(), 8);
}

#[test]
fn each_byte_of_a_character_outside_ascii_is_a_placeholder() {
    let mut grid = blank_grid();
    let mut writer = Writer::new(ATTRIBUTE, Buffer::new(&mut grid));
    writer.write_string("a\u{e9}b\u{20ac}");
    let shown: Vec<u8> = (0..7).map(|col| writer.buffer().read(24, col).ascii_character).collect();
    assert_eq!(shown, vec![b'a', 0xfe, 0xfe, b'b', 0xfe, 0xfe, 0xfe]);
    assert_eq!(writer.column_position(), 7);
}

#[test]
fn empty_string_changes_nothing() {
    let mut grid = numbered_grid();
    let mut writer = Writer::new(ATTRIBUTE, Buffer::new(&mut grid));
    writer.write_string("");
    assert_eq!(writer.column_position(), 0);
    for row in 0..BUFFER_HEIGHT {
        for col in 0..BUFFER_WIDTH {
            assert_eq!(writer.buffer().read(row, col), numbered_cell(row, col));
        }
    }
}

#[test]
fn scenario_ab_newline() {
    let mut grid = blank_grid();
    let mut writer = Writer::new(ATTRIBUTE, Buffer::new(&mut grid));
    writer.write_string("AB\n");
    assert_eq!(writer.buffer().read(23, 0), cell(b'A'));
    assert_eq!(writer.buffer().read(23, 1), cell(b'B'));
    for col in 2..BUFFER_WIDTH {
        assert_eq!(writer.buffer().read(23, col), cell(b' '));
    }
    assert_eq!(row_of(&writer, 24), vec![cell(b' '); BUFFER_WIDTH]);
    assert_eq!(writer.column_position(), 0);
    for row in 0..23 {
        assert_eq!(row_of(&writer, row), vec![cell(b' '); BUFFER_WIDTH]);
    }
}

#[test]
fn scenario_81_times_x() {
    let mut grid = blank_grid();
    let mut writer = Writer::new(ATTRIBUTE, Buffer::new(&mut grid));
    for _ in 0..80 {
        writer.write_string("X");
    }
    assert_eq!(row_of(&writer, 24), vec![cell(b'X'); BUFFER_WIDTH]);
    assert_eq!(row_of(&writer, 23), vec![cell(b' '); BUFFER_WIDTH]);
    assert_eq!(writer.column_position(), 80);
    writer.write_string("X");
    assert_eq!(row_of(&writer, 23), vec![cell(b'X'); BUFFER_WIDTH]);
    assert_eq!(writer.buffer().read(24, 0), cell(b'X'));
    for col in 1..BUFFER_WIDTH {
        assert_eq!(writer.buffer().read(24, col), cell(b' '));
    }
    assert_eq!(writer.column_position(), 1);
}

#[test]
fn writing_in_fragments_is_writing_the_whole() {
    let mut whole_grid = numbered_grid();
    let mut whole = Writer::new(ATTRIBUTE, Buffer::new(&mut whole_grid));
    whole.write_string("one\ntwo three\n\u{7}four");
    let mut parts_grid = numbered_grid();
    let mut parts = Writer::new(ATTRIBUTE, Buffer::new(&mut parts_grid));
    parts.write_string("one\ntw");
    parts.write_string("");
    parts.write_string("o three\n\u{7}");
    parts.write_string("four");
    assert_eq!(whole.column_position(), parts.column_position());
    for row in 0..BUFFER_HEIGHT {
        assert_eq!(row_of(&whole, row), row_of(&parts, row));
    }
}

#[test]
fn write_str_writes_the_fragment_and_succeeds() {
    let mut grid = blank_grid();
    let mut writer = Writer::new(ATTRIBUTE, Buffer::new(&mut grid));
    let result = core::fmt::Write::write_str(&mut writer, "ok\u{0}");
    assert!(result.is_ok());
    assert_eq!(writer.buffer().read(24, 0), cell(b'o'));
    assert_eq!(writer.buffer().read(24, 1), cell(b'k'));
    assert_eq!(writer.buffer().read(24, 2), cell(0xfe));
    assert_eq!(writer.column_position(), 3);
}

#[test]
fn the_grid_keeps_what_the_writer_wrote() {
    let mut grid = blank_grid();
    {
        let mut writer = Writer::new(ATTRIBUTE, Buffer::new(&mut grid));
        writer.write_string("Hi\nyo");
    }
    assert_eq!(grid[23][0].read(), [b'H', 0x0e]);
    assert_eq!(grid[23][1].read(), [b'i', 0x0e]);
    assert_eq!(grid[24][0].read(), [b'y', 0x0e]);
    assert_eq!(grid[24][1].read(), [b'o', 0x0e]);
    assert_eq!(grid[24][2].read(), [b' ', 0x0e]);
}

#[test]
fn no_text_puts_an_undisplayable_byte_in_a_cell() {
    let mut grid = blank_grid();
    let mut writer = Writer::new(ATTRIBUTE, Buffer::new(&mut grid));
    let every_byte: Vec<u8> = (0..=255u8).collect();
    writer.write_bytes(&every_byte);
    writer.write_bytes(&every_byte);
    for row in 0..BUFFER_HEIGHT {
        for shown in row_of(&writer, row) {
            let character = shown.ascii_character;
            assert!((0x20..=0x7e).contains(&character) || character == 0xfe);
            assert_eq!(shown.color_code, ATTRIBUTE);
        }
    }
}

#[test]
fn every_byte_written_once() {
    let mut grid = blank_grid();
    let mut writer = Writer::new(ATTRIBUTE, Buffer::new(&mut grid));
    let every_byte: Vec<u8> = (0..=255u8).collect();
    writer.write_bytes(&every_byte);
    // Bytes 0 to 9 are placeholders, byte 10 ends the line, and the 245 bytes behind it
    // fill three rows and five columns of a fourth.
    assert_eq!(row_of(&writer, 20)[..10], vec![cell(0xfe); 10][..]);
    assert_eq!(row_of(&writer, 20)[10..], vec![cell(b' '); 70][..]);
    let expected = |n: usize| -> ScreenChar {
        let byte = 11 + n as u8;
        cell(if (0x20..=0x7e).contains(&byte) { byte } else { 0xfe })
    };
    for n in 0..245 {
        assert_eq!(writer.buffer().read(21 + n / 80, n % 80), expected(n));
    }
    assert_eq!(writer.column_position(), 5);
    assert_eq!(writer.buffer().read(24, 5), cell(b' '));
}
