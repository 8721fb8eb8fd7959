//! # Text-mode display driver
//!
//! Characters are rendered into an off-screen grid and copied out to a byte
//! surface on `flush`, two bytes per cell.
use vstd::prelude::*;
use vstd::string::StringSliceAdditionalSpecFns;

pub mod character;

pub use crate::vga::character::{attribute_of, Character, Color};

verus! {

/// Rows of the text grid.
pub const ROWS: usize = 25;

/// Columns of the text grid.
pub const COLS: usize = 80;

/// Cells of the text grid.
pub const CELLS: usize = ROWS * COLS;

/// Bytes of the surface a display is bound to: two per cell.
pub const SURFACE_BYTES: usize = CELLS * 2;

/// The line-feed byte.
pub const LINE_FEED: u8 = 0x0A;

/// The glyph of an empty cell.
pub const BLANK: u8 = 0x20;

/// What a display holds, as mathematical values.
pub struct Screen {
    /// The off-screen grid, row by row.
    pub cells: Seq<Character>,
    /// The cursor, a linear index into `cells`.
    pub position: nat,
    pub foreground: Color,
    pub background: Color,
    /// The bytes of the bound surface.
    pub surface: Seq<u8>,
}

impl Screen {
    /// The grid and the surface have their fixed sizes and the cursor lies
    /// inside the grid.
    pub open spec fn wf(self) -> bool {
        &&& self.cells.len() == CELLS
        &&& self.position < CELLS
        &&& self.surface.len() == SURFACE_BYTES
    }
}

/// An empty cell in the given colours.
pub open spec fn blank(foreground: Color, background: Color) -> Character {
    Character::spec_new(BLANK, foreground, background)
}

/// The screen after every row moved up by one, the last row blanked in the
/// current colours and the cursor put at the start of the last row.
pub open spec fn scrolled(s: Screen) -> Screen {
    Screen {
        cells: Seq::new(
            CELLS as nat,
            |i: int|
                if i < (ROWS - 1) * COLS {
                    s.cells[i + COLS]
                } else {
                    blank(s.foreground, s.background)
                },
        ),
        position: ((ROWS - 1) * COLS) as nat,
        ..s
    }
}

/// The screen after one byte, before any scroll: a line-feed moves the
/// cursor to the start of the next row, any other byte is stored at the
/// cursor and moves it by one.
pub open spec fn advanced(s: Screen, byte: u8) -> Screen {
    if byte == LINE_FEED {
        Screen { position: ((s.position / (COLS as nat) + 1) * COLS) as nat, ..s }
    } else {
        Screen {
            cells: s.cells.update(
                s.position as int,
                Character::spec_new(byte, s.foreground, s.background),
            ),
            position: s.position + 1,
            ..s
        }
    }
}

/// The screen after writing one byte: a scroll follows when the cursor has
/// left the grid.
pub open spec fn put_byte(s: Screen, byte: u8) -> Screen {
    let t = advanced(s, byte);
    if t.position >= CELLS {
        scrolled(t)
    } else {
        t
    }
}

/// The screen after writing the bytes in order.
pub open spec fn put_bytes(s: Screen, bytes: Seq<u8>) -> Screen
    decreases bytes.len(),
{
    if bytes.len() == 0 {
        s
    } else {
        put_byte(put_bytes(s, bytes.drop_last()), bytes.last())
    }
}

/// The surface bytes of a grid: glyph, then attribute, for each cell.
pub open spec fn rendered(cells: Seq<Character>) -> Seq<u8> {
    Seq::new(
        2 * cells.len(),
        |i: int|
            if i % 2 == 0 {
                cells[i / 2].character
            } else {
                cells[i / 2].attribute
            },
    )
}

/// A text-mode display bound to a byte surface.
pub struct Vga {
    surface: Vec<u8>,
    buffer: Vec<Character>,
    position: usize,
    foreground: Color,
    background: Color,
}

impl View for Vga {
    type V = Screen;

    closed spec fn view(&self) -> Screen {
        Screen {
            cells: self.buffer@,
            position: self.position as nat,
            foreground: self.foreground,
            background: self.background,
            surface: self.surface@,
        }
    }
}

/// A freshly bound display: a blank grid in white on black, the cursor at
/// the first cell.
pub open spec fn initial_screen(surface: Seq<u8>) -> Screen {
    Screen {
        cells: Seq::new(CELLS as nat, |i: int| blank(Color::White, Color::Black)),
        position: 0,
        foreground: Color::White,
        background: Color::Black,
        surface,
    }
}

/// Writing a byte keeps a well-formed screen well-formed.
pub proof fn lemma_put_byte_wf(s: Screen, byte: u8)
    requires
        s.wf(),
    ensures
        put_byte(s, byte).wf(),
{
    let t = advanced(s, byte);
    if byte == LINE_FEED {
        assert(t.position <= CELLS) by {
            assert(s.position / (COLS as nat) < ROWS);
        }
    }
}

/// Writing bytes that hold no line-feed and fit before the end of the grid
/// stores each byte, in the current colours, at the cursor plus its index,
/// leaves every other cell alone and moves the cursor by the number of bytes;
/// a flush then puts each byte and its attribute at twice that index and the
/// next byte.
pub proof fn lemma_write_without_line_feed(s: Screen, bytes: Seq<u8>)
    requires
        s.wf(),
        s.position + bytes.len() < CELLS,
        forall|i: int| 0 <= i < bytes.len() ==> bytes[i] != LINE_FEED,
    ensures
        put_bytes(s, bytes).wf(),
        put_bytes(s, bytes).position == s.position + bytes.len(),
        put_bytes(s, bytes).foreground == s.foreground,
        put_bytes(s, bytes).background == s.background,
        put_bytes(s, bytes).surface == s.surface,
        forall|i: int|
            0 <= i < bytes.len() ==> #[trigger] put_bytes(s, bytes).cells[s.position + i]
                == Character::spec_new(bytes[i], s.foreground, s.background),
        forall|j: int|
            0 <= j < CELLS && !(s.position <= j < s.position + bytes.len())
                ==> #[trigger] put_bytes(s, bytes).cells[j] == s.cells[j],
        forall|i: int|
            0 <= i < bytes.len() ==> #[trigger] rendered(put_bytes(s, bytes).cells)[2 * (s.position + i)]
                == bytes[i],
        forall|i: int|
            0 <= i < bytes.len() ==> #[trigger] rendered(put_bytes(s, bytes).cells)[2 * (s.position + i) + 1]
                == attribute_of(s.foreground, s.background),
    decreases bytes.len(),
{
    let t = put_bytes(s, bytes);
    if bytes.len() > 0 {
        let prefix = bytes.drop_last();
        lemma_write_without_line_feed(s, prefix);
        let u = put_bytes(s, prefix);
        assert(t == put_byte(u, bytes.last()));
        assert forall|i: int| 0 <= i < bytes.len() implies #[trigger] t.cells[s.position + i]
            == Character::spec_new(bytes[i], s.foreground, s.background) by {
            if i < prefix.len() {
                assert(u.cells[s.position + i] == Character::spec_new(prefix[i], s.foreground, s.background));
            }
        }
    }
    assert forall|i: int| 0 <= i < bytes.len() implies #[trigger] rendered(t.cells)[2 * (s.position + i)]
        == bytes[i] && rendered(t.cells)[2 * (s.position + i) + 1] == attribute_of(s.foreground, s.background) by {
        assert((2 * (s.position + i)) / 2 == s.position + i);
        assert((2 * (s.position + i) + 1) / 2 == s.position + i);
        assert(t.cells[s.position + i] == Character::spec_new(bytes[i], s.foreground, s.background));
    }
}

/// Writing exactly one screen of bytes without a line-feed from the first
/// cell scrolls once: rows `0..ROWS-1` then hold the bytes written to rows
/// `1..ROWS`, the first row's bytes are gone, the last row is blank in the
/// current colours and the cursor is at the start of the last row.
pub proof fn lemma_full_screen_scrolls_once(s: Screen, bytes: Seq<u8>)
    requires
        s.wf(),
        s.position == 0,
        bytes.len() == CELLS,
        forall|i: int| 0 <= i < bytes.len() ==> bytes[i] != LINE_FEED,
    ensures
        put_bytes(s, bytes) == (Screen {
            cells: Seq::new(
                CELLS as nat,
                |i: int|
                    if i < (ROWS - 1) * COLS {
                        Character::spec_new(bytes[i + COLS], s.foreground, s.background)
                    } else {
                        blank(s.foreground, s.background)
                    },
            ),
            position: ((ROWS - 1) * COLS) as nat,
            ..s
        }),
{
    let prefix = bytes.drop_last();
    lemma_write_without_line_feed(s, prefix);
    let u = put_bytes(s, prefix);
    let t = advanced(u, bytes.last());
    assert forall|j: int| 0 <= j < CELLS implies #[trigger] t.cells[j] == Character::spec_new(
        bytes[j],
        s.foreground,
        s.background,
    ) by {
        if j < CELLS - 1 {
            assert(u.cells[s.position + j] == Character::spec_new(prefix[j], s.foreground, s.background));
        }
    }
    assert(put_bytes(s, bytes).cells =~= Seq::new(
        CELLS as nat,
        |i: int|
            if i < (ROWS - 1) * COLS {
                Character::spec_new(bytes[i + COLS], s.foreground, s.background)
            } else {
                blank(s.foreground, s.background)
            },
    ));
}

/// A line-feed written in a column other than the first puts the cursor at
/// the start of a row, never in the same column of the next row: below the
/// last row the cursor moves to the start of the next row and no cell
/// changes; on the last row the grid scrolls.
pub proof fn lemma_line_feed_starts_next_row(s: Screen)
    requires
        s.wf(),
        s.position % (COLS as nat) > 0,
    ensures
        put_byte(s, LINE_FEED).position % (COLS as nat) == 0,
        s.position / (COLS as nat) + 1 < ROWS ==> put_byte(s, LINE_FEED) == (Screen {
            position: ((s.position / (COLS as nat) + 1) * COLS) as nat,
            ..s
        }),
        s.position / (COLS as nat) + 1 == ROWS ==> put_byte(s, LINE_FEED) == scrolled(s),
{
    assert(s.position / (COLS as nat) < ROWS);
}

impl Vga {
    /// Binds a display to `surface`, which must hold exactly two bytes per
    /// cell; `None` for a surface of any other size. The grid starts blank,
    /// in white on black, with the cursor at the first cell.
    pub fn new(surface: Vec<u8>) -> (r: Option<Vga>)
        ensures
            r is None <==> surface@.len() != SURFACE_BYTES,
            r is Some ==> r.unwrap()@ == initial_screen(surface@),
    {
        if surface.len() != SURFACE_BYTES {
            return None;
        }
        let foreground = Color::White;
        let background = Color::Black;
        let empty = Character::new(BLANK, foreground, background);
        let mut buffer: Vec<Character> = Vec::with_capacity(CELLS);
        let mut i: usize = 0;
        while i < CELLS
            invariant
                i <= CELLS,
                buffer@.len() == i,
                empty == blank(foreground, background),
                forall|j: int| 0 <= j < i ==> buffer@[j] == empty,
            decreases CELLS - i,
        {
            buffer.push(empty);
            i = i + 1;
        }
        assert(buffer@ =~= initial_screen(surface@).cells);
        Some(Vga { surface, buffer, position: 0, foreground, background })
    }

    /// Sets the colour of the glyphs written from now on.
    pub fn set_foreground(&mut self, color: Color)
        ensures
            final(self)@ == (Screen { foreground: color, ..old(self)@ }),
    {
        self.foreground = color;
    }

    /// Sets the colour behind the glyphs written from now on.
    pub fn set_background(&mut self, color: Color)
        ensures
            final(self)@ == (Screen { background: color, ..old(self)@ }),
    {
        self.background = color;
    }

    /// The cursor, a linear index into the grid.
    pub fn position(&self) -> (r: usize)
        ensures
            r == self@.position,
    {
        self.position
    }

    /// The current foreground colour.
    pub fn foreground(&self) -> (r: Color)
        ensures
            r == self@.foreground,
    {
        self.foreground
    }

    /// The current background colour.
    pub fn background(&self) -> (r: Color)
        ensures
            r == self@.background,
    {
        self.background
    }

    /// The cell at linear index `i` of the grid.
    pub fn cell(&self, i: usize) -> (r: Character)
        requires
            self@.wf(),
            i < CELLS,
        ensures
            r == self@.cells[i as int],
    {
        self.buffer[i]
    }

    /// The bytes of the bound surface.
    pub fn surface(&self) -> (r: &Vec<u8>)
        ensures
            r@ == self@.surface,
    {
        &self.surface
    }

    /// Copies every cell of the grid out to the surface, glyph byte then
    /// attribute byte, in grid order. The grid and the cursor are unchanged.
    pub fn flush(&mut self)
        requires
            old(self)@.wf(),
        ensures
            final(self)@ == (Screen { surface: rendered(old(self)@.cells), ..old(self)@ }),
    {
        let ghost cells = self.buffer@;
        let ghost s0 = self@;
        let mut i: usize = 0;
        while i < CELLS
            invariant
                i <= CELLS,
                self.buffer@ == cells,
                self@ == (Screen { surface: self@.surface, ..s0 }),
                cells.len() == CELLS,
                self.surface@.len() == SURFACE_BYTES,
                forall|j: int| 0 <= j < 2 * i ==> self.surface@[j] == #[trigger] rendered(cells)[j],
            decreases CELLS - i,
        {
            let (ch, attr) = self.buffer[i].as_bytes();
            self.surface.set(2 * i, ch);
            self.surface.set(2 * i + 1, attr);
            proof {
                assert forall|j: int| 0 <= j < 2 * (i + 1) implies self.surface@[j] == #[trigger] rendered(cells)[j] by {
                    if j >= 2 * i {
                        assert(j / 2 == i);
                    }
                }
            }
            i = i + 1;
        }
        assert(self.surface@ =~= rendered(cells));
    }

    /// Moves every row up by one, blanks the last row in the current colours
    /// and puts the cursor at the start of the last row.
    pub fn scroll(&mut self)
        requires
            old(self)@.cells.len() == CELLS,
        ensures
            final(self)@ == scrolled(old(self)@),
    {
        let ghost s0 = self@;
        let mut i: usize = 0;
        while i < (ROWS - 1) * COLS
            invariant
                i <= (ROWS - 1) * COLS,
                self@ == (Screen { cells: self@.cells, ..s0 }),
                self.buffer@.len() == CELLS,
                s0.cells.len() == CELLS,
                forall|j: int| 0 <= j < i ==> self.buffer@[j] == s0.cells[j + COLS],
                forall|j: int| i <= j < CELLS ==> self.buffer@[j] == s0.cells[j],
            decreases (ROWS - 1) * COLS - i,
        {
            let moved = self.buffer[i + COLS];
            self.buffer.set(i, moved);
            i = i + 1;
        }
        let empty = Character::new(BLANK, self.foreground, self.background);
        while i < CELLS
            invariant
                (ROWS - 1) * COLS <= i <= CELLS,
                self@ == (Screen { cells: self@.cells, ..s0 }),
                self.buffer@.len() == CELLS,
                s0.cells.len() == CELLS,
                empty == blank(s0.foreground, s0.background),
                forall|j: int| 0 <= j < (ROWS - 1) * COLS ==> self.buffer@[j] == s0.cells[j + COLS],
                forall|j: int| (ROWS - 1) * COLS <= j < i ==> self.buffer@[j] == empty,
            decreases CELLS - i,
        {
            self.buffer.set(i, empty);
            i = i + 1;
        }
        self.position = (ROWS - 1) * COLS;
        assert(self@.cells =~= scrolled(s0).cells);
    }

    /// Writes one byte: a line-feed moves the cursor to the start of the
    /// next row, any other byte is stored at the cursor in the current
    /// colours and moves the cursor by one; when the cursor leaves the grid,
    /// the grid scrolls.
    pub fn write_byte(&mut self, byte: u8)
        requires
            old(self)@.wf(),
        ensures
            final(self)@ == put_byte(old(self)@, byte),
            final(self)@.wf(),
    {
        proof {
            lemma_put_byte_wf(self@, byte);
        }
        let i = self.position;
        if byte == LINE_FEED {
            let row = self.position / COLS;
            self.position = (row + 1) * COLS;
        } else {
            let c = Character::new(byte, self.foreground, self.background);
            self.buffer.set(i, c);
            self.position = self.position + 1;
        }
        if self.position >= CELLS {
            self.scroll();
        }
    }

    /// Writes the bytes in order, as `write_byte` does for each.
    pub fn write(&mut self, bytes: &[u8])
        requires
            old(self)@.wf(),
        ensures
            final(self)@ == put_bytes(old(self)@, bytes@),
            final(self)@.wf(),
    {
        let ghost s0 = self@;
        let mut i: usize = 0;
        while i < bytes.len()
            invariant
                i <= bytes@.len(),
                self@.wf(),
                self@ == put_bytes(s0, bytes@.take(i as int)),
            decreases bytes@.len() - i,
        {
            self.write_byte(bytes[i]);
            proof {
                assert(bytes@.take(i + 1).drop_last() =~= bytes@.take(i as int));
            }
            i = i + 1;
        }
        assert(bytes@.take(bytes@.len() as int) =~= bytes@);
    }

    /// Writes the bytes of `s` in order.
    pub fn write_str(&mut self, s: &str)
        requires
            old(self)@.wf(),
        ensures
            final(self)@ == put_bytes(old(self)@, s.spec_bytes()),
            final(self)@.wf(),
    {
        self.write(s.as_bytes());
    }
}

} // verus!
