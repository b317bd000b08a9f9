//! The VGA text screen: a 25 by 80 grid of characters that scrolls up as lines are written
//! at its bottom.
use vstd::prelude::*;
use vstd::string::StringSliceAdditionalSpecFns;

verus! {

/// Rows on the screen.
pub const BUFFER_HEIGHT: usize = 25;

/// Columns on the screen.
pub const BUFFER_WIDTH: usize = 80;

/// The sixteen VGA colours.
#[derive(Clone, Copy, Debug, PartialEq, Eq, Structural)]
pub enum Colour {
    Black,
    Blue,
    Green,
    Cyan,
    Red,
    Magenta,
    Brown,
    LightGray,
    DarkGray,
    LightBlue,
    LightGreen,
    LightCyan,
    LightRed,
    Pink,
    Yellow,
    White,
}

/// The number of each colour.
pub open spec fn colour_value(c: Colour) -> u8 {
    match c {
        Colour::Black => 0,
        Colour::Blue => 1,
        Colour::Green => 2,
        Colour::Cyan => 3,
        Colour::Red => 4,
        Colour::Magenta => 5,
        Colour::Brown => 6,
        Colour::LightGray => 7,
        Colour::DarkGray => 8,
        Colour::LightBlue => 9,
        Colour::LightGreen => 10,
        Colour::LightCyan => 11,
        Colour::LightRed => 12,
        Colour::Pink => 13,
        Colour::Yellow => 14,
        Colour::White => 15,
    }
}

impl Colour {
    /// The number of the colour.
    pub fn value(self) -> (r: u8)
        ensures
            r == colour_value(self),
    {
        match self {
            Colour::Black => 0,
            Colour::Blue => 1,
            Colour::Green => 2,
            Colour::Cyan => 3,
            Colour::Red => 4,
            Colour::Magenta => 5,
            Colour::Brown => 6,
            Colour::LightGray => 7,
            Colour::DarkGray => 8,
            Colour::LightBlue => 9,
            Colour::LightGreen => 10,
            Colour::LightCyan => 11,
            Colour::LightRed => 12,
            Colour::Pink => 13,
            Colour::Yellow => 14,
            Colour::White => 15,
        }
    }
}

/// A foreground and a background colour: background in the high nibble.
#[derive(Clone, Copy, Debug, PartialEq, Eq, Structural)]
pub struct ColorCode(pub u8);

impl ColorCode {
    /// The code for `foreground` on `background`.
    pub fn new(foreground: Colour, background: Colour) -> (r: ColorCode)
        ensures
            r.0 == colour_value(background) * 16 + colour_value(foreground),
    {
        ColorCode(background.value() * 16 + foreground.value())
    }
}

/// The colour of ordinary text: white on black.
pub open spec fn text_colour() -> ColorCode {
    ColorCode(15)
}

/// One cell of the screen.
#[derive(Clone, Copy, Debug, PartialEq, Eq, Structural)]
pub struct ScreenChar {
    pub ascii_character: u8,
    pub color_code: ColorCode,
}

/// An empty cell.
pub open spec fn blank() -> ScreenChar {
    ScreenChar { ascii_character: 0x20, color_code: text_colour() }
}

/// A row of empty cells.
pub open spec fn blank_row() -> Seq<ScreenChar> {
    Seq::new(BUFFER_WIDTH as nat, |i: int| blank())
}

/// The hardware text cursor, by the index of the cell it points at.
#[derive(Clone, Copy, Debug, PartialEq, Eq, Structural)]
pub struct Cursor {
    pub index: u16,
}

impl Cursor {
    /// A cursor at the top left cell.
    pub fn new() -> (r: Cursor)
        ensures
            r.index == 0,
    {
        Cursor { index: 0 }
    }

    /// Moves the cursor to `row`, `col`.
    pub fn set_position(&mut self, row: usize, col: usize)
        requires
            row < BUFFER_HEIGHT,
            col <= BUFFER_WIDTH,
        ensures
            final(self).index == BUFFER_WIDTH * row + col,
    {
        self.index = (BUFFER_WIDTH * row + col) as u16;
    }
}

/// The state of the screen: its cells row by row, and the column where the next character
/// of the bottom row goes.
pub struct Writer {
    pub column_position: usize,
    pub color_code: ColorCode,
    pub cursor: Cursor,
    pub buffer: Vec<ScreenChar>,
}

/// The cells after a new line: every row moves up one, the bottom row is blank.
pub open spec fn scrolled(cells: Seq<ScreenChar>) -> Seq<ScreenChar> {
    cells.subrange(BUFFER_WIDTH as int, (BUFFER_WIDTH * BUFFER_HEIGHT) as int) + blank_row()
}

/// The cells and column after writing byte `b` in colour `colour`.
pub open spec fn after_byte(cells: Seq<ScreenChar>, col: nat, colour: ColorCode, b: u8) -> (Seq<ScreenChar>, nat) {
    if b == 0x0a {
        (scrolled(cells), 0)
    } else {
        let (c2, col2) = if col >= BUFFER_WIDTH {
            (scrolled(cells), 0nat)
        } else {
            (cells, col)
        };
        (c2.update((BUFFER_HEIGHT - 1) * BUFFER_WIDTH + col2, ScreenChar { ascii_character: b, color_code: colour }), col2 + 1)
    }
}

/// The cells and column after writing the bytes `bs` one after the other.
pub open spec fn after_bytes(cells: Seq<ScreenChar>, col: nat, colour: ColorCode, bs: Seq<u8>) -> (Seq<ScreenChar>, nat)
    decreases bs.len(),
{
    if bs.len() == 0 {
        (cells, col)
    } else {
        let (c1, col1) = after_bytes(cells, col, colour, bs.drop_last());
        after_byte(c1, col1, colour, bs.last())
    }
}

/// The lowercase hexadecimal digit of `n`.
pub open spec fn hex_digit_lower(n: int) -> u8 {
    if n < 10 {
        (0x30 + n) as u8
    } else {
        (0x61 + n - 10) as u8
    }
}

/// What the screen shows for byte `b`: printable ASCII and new lines as themselves, other
/// bytes as `0x` and two lowercase hex digits.
pub open spec fn shown(b: u8) -> Seq<u8> {
    if (0x20 <= b <= 0x7e) || b == 0x0a {
        seq![b]
    } else {
        seq![0x30u8, 0x78u8, hex_digit_lower((b / 16) as int), hex_digit_lower((b % 16) as int)]
    }
}

/// What the screen shows for the bytes `bs`.
pub open spec fn shown_bytes(bs: Seq<u8>) -> Seq<u8>
    decreases bs.len(),
{
    if bs.len() == 0 {
        Seq::empty()
    } else {
        shown_bytes(bs.drop_last()) + shown(bs.last())
    }
}

fn hex_lower(n: u8) -> (r: u8)
    requires
        n < 16,
    ensures
        r == hex_digit_lower(n as int),
{
    if n < 10 {
        0x30 + n
    } else {
        0x61 + n - 10
    }
}

/// Writing one byte after another is writing their concatenation.
proof fn lemma_after_bytes_push(cells: Seq<ScreenChar>, col: nat, colour: ColorCode, bs: Seq<u8>, b: u8)
    ensures
        after_bytes(cells, col, colour, bs.push(b)) == ({
            let (c1, col1) = after_bytes(cells, col, colour, bs);
            after_byte(c1, col1, colour, b)
        }),
{
    assert(bs.push(b).drop_last() =~= bs);
}

/// Writing `a + b` is writing `a`, then `b`.
proof fn lemma_after_bytes_append(cells: Seq<ScreenChar>, col: nat, colour: ColorCode, a: Seq<u8>, b: Seq<u8>)
    ensures
        after_bytes(cells, col, colour, a + b) == ({
            let (c1, col1) = after_bytes(cells, col, colour, a);
            after_bytes(c1, col1, colour, b)
        }),
    decreases b.len(),
{
    if b.len() == 0 {
        assert(a + b =~= a);
    } else {
        assert((a + b).drop_last() =~= a + b.drop_last());
        lemma_after_bytes_append(cells, col, colour, a, b.drop_last());
    }
}

impl Writer {
    /// The cells of the screen, row by row.
    pub open spec fn cells(&self) -> Seq<ScreenChar> {
        self.buffer@
    }

    /// Invariant: the screen has its 25 rows of 80 cells, and the column is within a row.
    pub open spec fn wf(&self) -> bool {
        &&& self.buffer@.len() == BUFFER_WIDTH * BUFFER_HEIGHT
        &&& self.column_position <= BUFFER_WIDTH
    }

    /// A writer of white-on-black text on a blank screen.
    pub fn new() -> (r: Writer)
        ensures
            r.wf(),
            r.column_position == 0,
            r.color_code == text_colour(),
            forall|i: int| 0 <= i < BUFFER_WIDTH * BUFFER_HEIGHT ==> r.cells()[i] == blank(),
    {
        let mut buffer: Vec<ScreenChar> = Vec::new();
        let mut i: usize = 0;
        while i < BUFFER_WIDTH * BUFFER_HEIGHT
            invariant
                i <= BUFFER_WIDTH * BUFFER_HEIGHT,
                buffer@.len() == i,
                forall|j: int| 0 <= j < i ==> buffer@[j] == blank(),
            decreases BUFFER_WIDTH * BUFFER_HEIGHT - i,
        {
            buffer.push(ScreenChar { ascii_character: 0x20, color_code: ColorCode(15) });
            i = i + 1;
        }
        let mut writer = Writer { column_position: 0, color_code: ColorCode(15), cursor: Cursor::new(), buffer };
        writer.clear_screen();
        writer
    }

    /// Writes one byte at the end of the bottom row; a new line, or a full row, scrolls.
    pub fn write_byte(&mut self, byte: u8)
        requires
            old(self).wf(),
        ensures
            final(self).wf(),
            final(self).color_code == old(self).color_code,
            final(self).cursor == old(self).cursor,
            (final(self).cells(), final(self).column_position as nat) == after_byte(
                old(self).cells(),
                old(self).column_position as nat,
                old(self).color_code,
                byte,
            ),
    {
        if byte == 0x0a {
            self.new_line();
            return;
        }
        if self.column_position >= BUFFER_WIDTH {
            self.new_line();
        }
        let idx = (BUFFER_HEIGHT - 1) * BUFFER_WIDTH + self.column_position;
        self.buffer.set(idx, ScreenChar { ascii_character: byte, color_code: self.color_code });
        self.column_position = self.column_position + 1;
    }

    /// Moves every row up one, blanks the bottom row, and starts at its first column.
    pub fn new_line(&mut self)
        requires
            old(self).wf(),
        ensures
            final(self).wf(),
            final(self).color_code == old(self).color_code,
            final(self).cursor == old(self).cursor,
            final(self).cells() == scrolled(old(self).cells()),
            final(self).column_position == 0,
    {
        let n = (BUFFER_HEIGHT - 1) * BUFFER_WIDTH;
        let mut i: usize = 0;
        while i < n
            invariant
                n == (BUFFER_HEIGHT - 1) * BUFFER_WIDTH,
                i <= n,
                self.wf(),
                self.color_code == old(self).color_code,
                self.cursor == old(self).cursor,
                self.column_position == old(self).column_position,
                forall|j: int| 0 <= j < i ==> self.buffer@[j] == old(self).buffer@[j + BUFFER_WIDTH],
                forall|j: int| i <= j < BUFFER_WIDTH * BUFFER_HEIGHT ==> self.buffer@[j] == old(self).buffer@[j],
            decreases n - i,
        {
            let character = self.buffer[i + BUFFER_WIDTH];
            self.buffer.set(i, character);
            i = i + 1;
        }
        let ghost moved = self.cells();
        self.clear_row(BUFFER_HEIGHT - 1);
        proof {
            let target = scrolled(old(self).cells());
            assert(target.len() == BUFFER_WIDTH * BUFFER_HEIGHT);
            assert forall|j: int| 0 <= j < BUFFER_WIDTH * BUFFER_HEIGHT implies self.cells()[j] == target[j] by {
                if j < (BUFFER_HEIGHT - 1) * BUFFER_WIDTH {
                    assert(self.cells()[j] == moved[j]);
                    assert(target[j] == old(self).cells()[j + BUFFER_WIDTH]);
                } else {
                    assert(target[j] == blank_row()[j - (BUFFER_HEIGHT - 1) * BUFFER_WIDTH]);
                }
            }
            assert(self.cells() =~= target);
        }
        self.column_position = 0;
    }

    /// Blanks row `row`.
    pub fn clear_row(&mut self, row: usize)
        requires
            old(self).wf(),
            row < BUFFER_HEIGHT,
        ensures
            final(self).wf(),
            final(self).color_code == old(self).color_code,
            final(self).cursor == old(self).cursor,
            final(self).column_position == old(self).column_position,
            forall|j: int|
                0 <= j < BUFFER_WIDTH * BUFFER_HEIGHT ==> final(self).cells()[j] == (if row * BUFFER_WIDTH <= j < (row + 1) * BUFFER_WIDTH {
                    blank()
                } else {
                    old(self).cells()[j]
                }),
    {
        let mut col: usize = 0;
        while col < BUFFER_WIDTH
            invariant
                row < BUFFER_HEIGHT,
                col <= BUFFER_WIDTH,
                self.wf(),
                self.color_code == old(self).color_code,
                self.cursor == old(self).cursor,
                self.column_position == old(self).column_position,
                forall|j: int|
                    0 <= j < BUFFER_WIDTH * BUFFER_HEIGHT ==> self.buffer@[j] == (if row * BUFFER_WIDTH <= j < row * BUFFER_WIDTH + col {
                        blank()
                    } else {
                        old(self).buffer@[j]
                    }),
            decreases BUFFER_WIDTH - col,
        {
            self.buffer.set(row * BUFFER_WIDTH + col, ScreenChar { ascii_character: 0x20, color_code: ColorCode(15) });
            col = col + 1;
        }
    }

    /// Blanks the whole screen.
    pub fn clear_screen(&mut self)
        requires
            old(self).wf(),
        ensures
            final(self).wf(),
            final(self).color_code == old(self).color_code,
            final(self).cursor == old(self).cursor,
            final(self).column_position == old(self).column_position,
            forall|j: int| 0 <= j < BUFFER_WIDTH * BUFFER_HEIGHT ==> final(self).cells()[j] == blank(),
    {
        let mut i: usize = 0;
        while i < BUFFER_WIDTH * BUFFER_HEIGHT
            invariant
                i <= BUFFER_WIDTH * BUFFER_HEIGHT,
                self.wf(),
                self.color_code == old(self).color_code,
                self.cursor == old(self).cursor,
                self.column_position == old(self).column_position,
                forall|j: int| 0 <= j < i ==> self.buffer@[j] == blank(),
            decreases BUFFER_WIDTH * BUFFER_HEIGHT - i,
        {
            self.buffer.set(i, ScreenChar { ascii_character: 0x20, color_code: ColorCode(15) });
            i = i + 1;
        }
    }

    /// Writes `s`: printable ASCII and new lines as themselves, other bytes as `0x` and two
    /// hex digits; then puts the cursor after the last character of the bottom row.
    pub fn write_string(&mut self, s: &str)
        requires
            old(self).wf(),
        ensures
            final(self).wf(),
            final(self).color_code == old(self).color_code,
            (final(self).cells(), final(self).column_position as nat) == after_bytes(
                old(self).cells(),
                old(self).column_position as nat,
                old(self).color_code,
                shown_bytes(s.spec_bytes()),
            ),
            final(self).cursor.index == BUFFER_WIDTH * (BUFFER_HEIGHT - 1) + final(self).column_position,
    {
        let bytes = s.as_bytes();
        let n = bytes.len();
        let mut i: usize = 0;
        while i < n
            invariant
                n == bytes@.len(),
                bytes@ == s.spec_bytes(),
                i <= n,
                self.wf(),
                self.color_code == old(self).color_code,
                (self.cells(), self.column_position as nat) == after_bytes(
                    old(self).cells(),
                    old(self).column_position as nat,
                    old(self).color_code,
                    shown_bytes(bytes@.subrange(0, i as int)),
                ),
            decreases n - i,
        {
            let byte = bytes[i];
            let ghost pre = shown_bytes(bytes@.subrange(0, i as int));
            proof {
                assert(bytes@.subrange(0, i + 1).drop_last() =~= bytes@.subrange(0, i as int));
                lemma_after_bytes_append(
                    old(self).cells(),
                    old(self).column_position as nat,
                    old(self).color_code,
                    pre,
                    shown(byte),
                );
            }
            let ghost c0 = self.cells();
            let ghost col0 = self.column_position as nat;
            if (0x20 <= byte && byte <= 0x7e) || byte == 0x0a {
                self.write_byte(byte);
                proof {
                    lemma_after_bytes_push(c0, col0, self.color_code, Seq::empty(), byte);
                    assert(seq![byte] =~= Seq::<u8>::empty().push(byte));
                }
            } else {
                let hi = hex_lower(byte / 16);
                let lo = hex_lower(byte % 16);
                self.write_byte(0x30);
                self.write_byte(0x78);
                self.write_byte(hi);
                self.write_byte(lo);
                proof {
                    let e = Seq::<u8>::empty();
                    assert(seq![0x30u8, 0x78u8, hi, lo] =~= e.push(0x30u8).push(0x78u8).push(hi).push(lo));
                    lemma_after_bytes_push(c0, col0, self.color_code, e, 0x30u8);
                    lemma_after_bytes_push(c0, col0, self.color_code, e.push(0x30u8), 0x78u8);
                    lemma_after_bytes_push(c0, col0, self.color_code, e.push(0x30u8).push(0x78u8), hi);
                    lemma_after_bytes_push(c0, col0, self.color_code, e.push(0x30u8).push(0x78u8).push(hi), lo);
                }
            }
            i = i + 1;
        }
        assert(bytes@.subrange(0, n as int) =~= bytes@);
        self.cursor.set_position(BUFFER_HEIGHT - 1, self.column_position);
    }
}


/// Law: the colours carry the numbers of the VGA text-mode palette, black 0 to white 15.
pub proof fn lemma_colour_numbers()
    ensures
        colour_value(Colour::Black) == 0,
        colour_value(Colour::Blue) == 1,
        colour_value(Colour::Green) == 2,
        colour_value(Colour::Cyan) == 3,
        colour_value(Colour::Red) == 4,
        colour_value(Colour::Magenta) == 5,
        colour_value(Colour::Brown) == 6,
        colour_value(Colour::LightGray) == 7,
        colour_value(Colour::DarkGray) == 8,
        colour_value(Colour::LightBlue) == 9,
        colour_value(Colour::LightGreen) == 10,
        colour_value(Colour::LightCyan) == 11,
        colour_value(Colour::LightRed) == 12,
        colour_value(Colour::Pink) == 13,
        colour_value(Colour::Yellow) == 14,
        colour_value(Colour::White) == 15,
{
}

} // verus!
