//! The display engine: a 64 by 32 grid of pixels onto which sprites are
//! composited by exclusive or, wrapping at every edge.
//!
//! A display is viewed as the sequence of its 2048 pixels, row by row, so that
//! the pixel in column `c` of row `r` has index `64 * r + c`. A sprite is
//! viewed as the sequence of its rows, one byte each, the leftmost pixel in
//! the highest bit.
use crate::registers::shift_weight;
use vstd::prelude::*;
use vstd::std_specs::convert::FromSpecImpl;
use vstd::std_specs::slice::into_iter_elts;
use vstd::string::StringExecFns;

verus! {

/// The number of columns of the display.
pub const X_MAX: usize = 64;

/// The number of rows of the display.
pub const Y_MAX: usize = 32;

/// The number of pixels of the display.
pub const PIXELS: usize = 2048;

/// The number of pixels in one row of a sprite.
pub const SPRITE_WIDTH: usize = 8;

/// Whether the pixel `offset` places from the left of a sprite row is lit.
pub open spec fn source_bit(byte: u8, offset: int) -> bool {
    (byte as int / shift_weight((7 - offset) as usize)) % 2 == 1
}

/// The column on which the pixel `offset` places from the left lands, for a
/// row drawn at column `x`.
pub open spec fn column(x: int, offset: int) -> int {
    (x + offset) % 64
}

/// How far to the right of column `x`, wrapping at the edge, the pixel with
/// this index lies.
pub open spec fn column_offset(index: int, x: int) -> int {
    (index - x) % 64
}

/// How far below row `y`, wrapping at the edge, the pixel with this index
/// lies.
pub open spec fn row_offset(index: int, y: int) -> int {
    (index / 64 - y) % 32
}

/// Whether the pixel with this index lies in row `y`.
pub open spec fn on_row(index: int, y: int) -> bool {
    64 * y <= index < 64 * y + 64
}

/// The pixels after the first `count` pixels of a sprite row have been
/// composited at column `x` of row `y`.
pub open spec fn row_drawn_partly(pixels: Seq<bool>, x: int, y: int, byte: u8, count: int) -> Seq<
    bool,
> {
    Seq::new(
        pixels.len(),
        |index: int|
            if on_row(index, y) && column_offset(index, x) < count {
                pixels[index] != source_bit(byte, column_offset(index, x))
            } else {
                pixels[index]
            },
    )
}

/// The pixels after a sprite row has been composited at column `x` of row
/// `y`: each of the eight pixels it covers is flipped where the row is lit.
pub open spec fn row_drawn(pixels: Seq<bool>, x: int, y: int, byte: u8) -> Seq<bool> {
    row_drawn_partly(pixels, x, y, byte, 8)
}

/// Whether one of the first `count` pixels of a sprite row is lit where the
/// display is lit already.
pub open spec fn row_collides_partly(pixels: Seq<bool>, x: int, y: int, byte: u8, count: int) -> bool {
    exists|offset: int|
        0 <= offset < count && #[trigger] source_bit(byte, offset) && pixels[64 * y + column(
            x,
            offset,
        )]
}

/// Whether a sprite row composited at column `x` of row `y` turns a lit
/// pixel off.
pub open spec fn row_collides(pixels: Seq<bool>, x: int, y: int, byte: u8) -> bool {
    row_collides_partly(pixels, x, y, byte, 8)
}

/// The display row on which row `line` of a sprite drawn at row `y` lands.
pub open spec fn target_row(y: int, line: int) -> int {
    (y + line) % 32
}

/// The pixels after a sprite has been composited at `(x, y)`, its rows taken
/// in order from the top.
pub open spec fn sprite_drawn(pixels: Seq<bool>, x: int, y: int, rows: Seq<u8>) -> Seq<bool>
    decreases rows.len(),
{
    if rows.len() == 0 {
        pixels
    } else {
        row_drawn(
            sprite_drawn(pixels, x, y, rows.drop_last()),
            x,
            target_row(y, rows.len() - 1),
            rows.last(),
        )
    }
}

/// Whether compositing a sprite at `(x, y)` turns any lit pixel off.
pub open spec fn sprite_collides(pixels: Seq<bool>, x: int, y: int, rows: Seq<u8>) -> bool
    decreases rows.len(),
{
    if rows.len() == 0 {
        false
    } else {
        sprite_collides(pixels, x, y, rows.drop_last()) || row_collides(
            sprite_drawn(pixels, x, y, rows.drop_last()),
            x,
            target_row(y, rows.len() - 1),
            rows.last(),
        )
    }
}

/// The pixels of the area that a sprite of `lines` rows drawn at `(x, y)`
/// covers: one sequence of eight pixels for each row, top to bottom.
pub open spec fn covered(pixels: Seq<bool>, x: int, y: int, lines: nat) -> Seq<Seq<bool>> {
    Seq::new(
        lines,
        |line: int|
            Seq::new(
                SPRITE_WIDTH as nat,
                |offset: int| pixels[64 * target_row(y, line) + column(x, offset)],
            ),
    )
}

/// The collision flag as instructions see it: one for a collision, zero for
/// none.
pub open spec fn flag(set: bool) -> u8 {
    if set {
        1
    } else {
        0
    }
}

/// A display with every pixel unlit.
pub open spec fn blank() -> Seq<bool> {
    Seq::new(PIXELS as nat, |index: int| false)
}

/// The rows of a sprite, top to bottom.
pub struct Sprite {
    bytes: Vec<u8>,
}

impl View for Sprite {
    type V = Seq<u8>;

    closed spec fn view(&self) -> Seq<u8> {
        self.bytes@
    }
}

impl Sprite {
    /// The number of rows.
    pub fn len(&self) -> (len: usize)
        ensures
            len == self@.len(),
    {
        self.bytes.len()
    }

    /// An iterator over the rows, top to bottom.
    pub fn iter(&self) -> (iter: std::slice::Iter<'_, u8>)
        ensures
            into_iter_elts(iter) == self@,
    {
        self.bytes.as_slice().iter()
    }

    /// Row `line` of the sprite.
    pub fn row(&self, line: usize) -> (byte: u8)
        requires
            line < self@.len(),
        ensures
            byte == self@[line as int],
    {
        self.bytes[line]
    }
}

impl From<&[u8]> for Sprite {
    fn from(s: &[u8]) -> (sprite: Sprite)
        ensures
            sprite@ == s@,
    {
        Sprite { bytes: vstd::slice::slice_to_vec(s) }
    }
}

impl FromSpecImpl<&[u8]> for Sprite {
    /// Two sprites with the same rows need not be the same value, so the
    /// conversion promises the rows of its result and not the value itself.
    open spec fn obeys_from_spec() -> bool {
        false
    }

    /// Some sprite with these rows.
    open spec fn from_spec(s: &[u8]) -> Self {
        choose|sprite: Sprite| sprite@ == s@
    }
}

/// The columns on which the eight pixels of a sprite row drawn at column `x`
/// land: they wrap from the right edge to the left.
pub fn compute_x_coordinates(x: u8) -> (x_coordinates: [u16; 8])
    ensures
        forall|offset: int|
            0 <= offset < 8 ==> x_coordinates@[offset] == column(x as int, offset),
{
    let mut x_coordinates: [u16; 8] = [0; 8];
    let mut i: u16 = 0;
    while i < 8
        invariant
            i <= 8,
            forall|offset: int| 0 <= offset < i ==> x_coordinates@[offset] == column(x as int, offset),
        decreases 8 - i,
    {
        x_coordinates[i as usize] = (x as u16 + i) % 64;
        i = i + 1;
    }
    x_coordinates
}

/// The eight pixels of a sprite row, leftmost first.
pub fn to_bits(byte: u8) -> (bits: Vec<bool>)
    ensures
        bits@.len() == 8,
        forall|offset: int| 0 <= offset < 8 ==> bits@[offset] == source_bit(byte, offset),
{
    let mut bits: Vec<bool> = Vec::new();
    let mut weight: u8 = 128;
    let mut offset: usize = 0;
    while offset < 8
        invariant
            offset <= 8,
            bits@.len() == offset,
            offset < 8 ==> weight == shift_weight((7 - offset) as usize),
            forall|k: int| 0 <= k < offset ==> bits@[k] == source_bit(byte, k),
        decreases 8 - offset,
    {
        bits.push((byte / weight) % 2 == 1);
        weight = weight / 2;
        offset = offset + 1;
    }
    bits
}

/// Where the pixel `offset` places from the left of a row drawn at column `x`
/// lands, it lies `offset` places to the right of `x`, and nowhere else in the
/// row does.
proof fn lemma_column_offset(x: int, y: int, offset: int)
    requires
        0 <= x < 256,
        0 <= y,
        0 <= offset < 64,
    ensures
        on_row(64 * y + column(x, offset), y),
        column_offset(64 * y + column(x, offset), x) == offset,
        forall|index: int|
            on_row(index, y) && #[trigger] column_offset(index, x) == offset ==> index == 64 * y
                + column(x, offset),
{
}

/// Composites one sprite row at column `x` of row `y` of a display buffer,
/// and reports whether that turned a lit pixel off.
pub fn draw_byte(x: u8, y: u8, byte: u8, display_buffer: &mut [bool]) -> (collision: u8)
    requires
        64 * y + 64 <= old(display_buffer)@.len(),
    ensures
        final(display_buffer)@ == row_drawn(old(display_buffer)@, x as int, y as int, byte),
        collision == flag(row_collides(old(display_buffer)@, x as int, y as int, byte)),
{
    let bits = to_bits(byte);
    let x_coordinates = compute_x_coordinates(x);
    let mut collision: u8 = 0;
    let vertical_offset: u16 = 64 * (y as u16);
    let mut i: usize = 0;
    while i < 8
        invariant
            i <= 8,
            vertical_offset == 64 * y,
            64 * y + 64 <= old(display_buffer)@.len(),
            bits@.len() == 8,
            forall|offset: int| 0 <= offset < 8 ==> bits@[offset] == source_bit(byte, offset),
            forall|offset: int|
                0 <= offset < 8 ==> x_coordinates@[offset] == column(x as int, offset),
            display_buffer@ == row_drawn_partly(
                old(display_buffer)@,
                x as int,
                y as int,
                byte,
                i as int,
            ),
            collision == flag(
                row_collides_partly(old(display_buffer)@, x as int, y as int, byte, i as int),
            ),
        decreases 8 - i,
    {
        assert(x_coordinates@[i as int] == column(x as int, i as int));
        let coordinate: u16 = x_coordinates[i] + vertical_offset;
        proof {
            lemma_column_offset(x as int, y as int, i as int);
        }
        let target: bool = display_buffer[coordinate as usize];
        let lit: bool = bits[i];
        assert(lit == source_bit(byte, i as int));
        if lit && target {
            collision = 1;
        }
        display_buffer[coordinate as usize] = target ^ lit;
        i = i + 1;
    }
    collision
}

/// A display that keeps its pixels in a flat buffer, row by row, for
/// presentation as text.
pub struct ConsoleDisplay {
    pub buffer: [bool; 2048],
}

impl View for ConsoleDisplay {
    type V = Seq<bool>;

    open spec fn view(&self) -> Seq<bool> {
        self.buffer@
    }
}

/// The text that shows a display: one line per row, `*` for a lit pixel and a
/// space for an unlit one, each line ended by a line feed.
pub open spec fn frame_text(pixels: Seq<bool>) -> Seq<char> {
    Seq::new(
        (Y_MAX * (X_MAX + 1)) as nat,
        |position: int|
            if position % 65 == 64 {
                '\n'
            } else if pixels[64 * (position / 65) + position % 65] {
                '*'
            } else {
                ' '
            },
    )
}

impl ConsoleDisplay {
    /// A display with every pixel unlit.
    pub fn new() -> (display: Self)
        ensures
            display@ == blank(),
    {
        let display = ConsoleDisplay { buffer: [false; 2048] };
        display
    }

    /// Turns every pixel off.
    pub fn clear(&mut self)
        ensures
            final(self)@ == blank(),
    {
        self.buffer = [false; 2048];
    }

    /// Composites a sprite at `(x, y)`, row by row from the top, and reports
    /// whether any lit pixel was turned off: one if so, zero if not.
    pub fn draw(&mut self, x: u8, y: u8, sprite: &Sprite) -> (collision: u8)
        ensures
            final(self)@ == sprite_drawn(old(self)@, x as int, y as int, sprite@),
            collision == flag(sprite_collides(old(self)@, x as int, y as int, sprite@)),
    {
        let mut collision: u8 = 0;
        let mut i: usize = 0;
        while i < sprite.len()
            invariant
                i <= sprite@.len(),
                self@ == sprite_drawn(old(self)@, x as int, y as int, sprite@.take(i as int)),
                collision == flag(
                    sprite_collides(old(self)@, x as int, y as int, sprite@.take(i as int)),
                ),
            decreases sprite@.len() - i,
        {
            let row: u8 = ((y as usize + i % Y_MAX) % Y_MAX) as u8;
            assert(row == target_row(y as int, i as int));
            assert(sprite@.take(i + 1).drop_last() =~= sprite@.take(i as int));
            let result = draw_byte(x, row, sprite.row(i), &mut self.buffer);
            if result == 1 {
                collision = 1;
            }
            i = i + 1;
        }
        assert(sprite@.take(i as int) =~= sprite@);
        collision
    }

    /// The pixels now shown in the area that a sprite of `lines` rows drawn at
    /// `(x, y)` covers, so that a presentation of the display can be brought
    /// up to date pixel by pixel.
    pub fn covered_pixels(&self, x: u8, y: u8, lines: usize) -> (update: Vec<Vec<bool>>)
        ensures
            update@.len() == lines,
            forall|line: int|
                0 <= line < lines ==> (#[trigger] update@[line])@ == covered(
                    self@,
                    x as int,
                    y as int,
                    lines as nat,
                )[line],
    {
        let mut update: Vec<Vec<bool>> = Vec::new();
        let mut line: usize = 0;
        while line < lines
            invariant
                line <= lines,
                update@.len() == line,
                forall|k: int|
                    0 <= k < line ==> (#[trigger] update@[k])@ == covered(
                        self@,
                        x as int,
                        y as int,
                        lines as nat,
                    )[k],
            decreases lines - line,
        {
            let row: usize = (y as usize + line % Y_MAX) % Y_MAX;
            let mut pixels: Vec<bool> = Vec::new();
            let mut offset: usize = 0;
            while offset < SPRITE_WIDTH
                invariant
                    offset <= SPRITE_WIDTH,
                    row < Y_MAX,
                    pixels@.len() == offset,
                    forall|k: int|
                        0 <= k < offset ==> pixels@[k] == self@[64 * row + column(x as int, k)],
                decreases SPRITE_WIDTH - offset,
            {
                pixels.push(self.buffer[X_MAX * row + (x as usize + offset) % X_MAX]);
                offset = offset + 1;
            }
            update.push(pixels);
            line = line + 1;
        }
        update
    }

    /// The display as text, ready to be written to a terminal.
    pub fn render(&self) -> (text: String)
        ensures
            text@ == frame_text(self@),
    {
        let mut text = String::new();
        let mut y: usize = 0;
        while y < Y_MAX
            invariant
                y <= Y_MAX,
                text@ == frame_text(self@).take(65 * y),
            decreases Y_MAX - y,
        {
            let mut x: usize = 0;
            while x < X_MAX
                invariant
                    y < Y_MAX,
                    x <= X_MAX,
                    text@ == frame_text(self@).take(65 * y + x),
                decreases X_MAX - x,
            {
                proof {
                    reveal_strlit("*");
                    reveal_strlit(" ");
                }
                if self.buffer[X_MAX * y + x] {
                    text.append("*");
                } else {
                    text.append(" ");
                }
                x = x + 1;
            }
            proof {
                reveal_strlit("\n");
            }
            text.append("\n");
            y = y + 1;
        }
        text
    }
}

/// Drawing changes no display's size.
pub proof fn lemma_sprite_drawn_len(pixels: Seq<bool>, x: int, y: int, rows: Seq<u8>)
    ensures
        sprite_drawn(pixels, x, y, rows).len() == pixels.len(),
    decreases rows.len(),
{
    if rows.len() > 0 {
        lemma_sprite_drawn_len(pixels, x, y, rows.drop_last());
    }
}

/// Whether a sprite drawn at `(x, y)` has a lit pixel on the pixel with this
/// index.
pub open spec fn sprite_lit(rows: Seq<u8>, x: int, y: int, index: int) -> bool {
    &&& row_offset(index, y) < rows.len()
    &&& column_offset(index, x) < SPRITE_WIDTH
    &&& source_bit(rows[row_offset(index, y)], column_offset(index, x))
}

/// Whether a sprite has any lit pixel at all.
pub open spec fn sprite_has_lit_pixel(rows: Seq<u8>) -> bool {
    exists|line: int, offset: int|
        0 <= line < rows.len() && 0 <= offset < SPRITE_WIDTH && #[trigger] source_bit(
            rows[line],
            offset,
        )
}

/// The pixel on which the pixel `offset` places from the left of row `line`
/// of a sprite drawn at `(x, y)` lands.
pub open spec fn landing(x: int, y: int, line: int, offset: int) -> int {
    64 * target_row(y, line) + column(x, offset)
}

/// A sprite of at most 32 rows covers each pixel at most once: row `line`
/// and offset `offset` land on a pixel of the display that lies `line` rows
/// below `y` and `offset` columns right of `x`, and no other row and offset
/// land there.
pub proof fn lemma_landing(x: int, y: int, line: int, offset: int)
    requires
        0 <= x < 256,
        0 <= y < 256,
        0 <= line < 32,
        0 <= offset < 64,
    ensures
        0 <= landing(x, y, line, offset) < PIXELS,
        on_row(landing(x, y, line, offset), target_row(y, line)),
        row_offset(landing(x, y, line, offset), y) == line,
        column_offset(landing(x, y, line, offset), x) == offset,
{
    lemma_column_offset(x, target_row(y, line), offset);
}

/// Every pixel of the display lies in some row below `y` and some column
/// right of `x`, wrapping at the edges, and is where that row and offset land.
pub proof fn lemma_landing_covers(x: int, y: int, index: int)
    requires
        0 <= x < 256,
        0 <= y < 256,
        0 <= index < PIXELS,
    ensures
        0 <= row_offset(index, y) < 32,
        0 <= column_offset(index, x) < 64,
        landing(x, y, row_offset(index, y), column_offset(index, x)) == index,
{
    lemma_column_offset(x, index / 64, column_offset(index, x));
}

/// What drawing a sprite of at most 32 rows does, pixel by pixel: a pixel
/// is flipped exactly where the sprite has a lit pixel on it, and the draw
/// collides exactly when the sprite has a lit pixel on a pixel that was lit.
pub proof fn lemma_sprite_drawn_pixelwise(pixels: Seq<bool>, x: int, y: int, rows: Seq<u8>)
    requires
        pixels.len() == PIXELS,
        rows.len() <= Y_MAX,
        0 <= x < 256,
        0 <= y < 256,
    ensures
        sprite_drawn(pixels, x, y, rows).len() == PIXELS,
        forall|index: int|
            0 <= index < PIXELS ==> #[trigger] sprite_drawn(pixels, x, y, rows)[index] == (
            pixels[index] != sprite_lit(rows, x, y, index)),
        sprite_collides(pixels, x, y, rows) <==> exists|index: int|
            0 <= index < PIXELS && pixels[index] && #[trigger] sprite_lit(rows, x, y, index),
    decreases rows.len(),
{
    if rows.len() > 0 {
        let above = rows.drop_last();
        let line = rows.len() - 1;
        let row = target_row(y, line);
        let before = sprite_drawn(pixels, x, y, above);
        let after = sprite_drawn(pixels, x, y, rows);
        lemma_sprite_drawn_pixelwise(pixels, x, y, above);
        assert forall|index: int| 0 <= index < PIXELS implies (on_row(index, row) <==> row_offset(
            index,
            y,
        ) == line) by {
            lemma_landing_covers(x, y, index);
            lemma_landing(x, y, row_offset(index, y), column_offset(index, x));
            lemma_landing(x, y, line, column_offset(index, x));
        }
        assert forall|index: int| 0 <= index < PIXELS implies #[trigger] after[index] == (
        pixels[index] != sprite_lit(rows, x, y, index)) by {
            lemma_landing_covers(x, y, index);
        }
        let collides_here = row_collides(before, x, row, rows.last());
        let lit_on_lit = exists|index: int|
            0 <= index < PIXELS && pixels[index] && #[trigger] sprite_lit(rows, x, y, index);
        let lit_on_lit_above = exists|index: int|
            0 <= index < PIXELS && pixels[index] && #[trigger] sprite_lit(above, x, y, index);
        if collides_here {
            let offset = choose|offset: int|
                0 <= offset < 8 && #[trigger] source_bit(rows.last(), offset) && before[64 * row
                    + column(x, offset)];
            lemma_landing(x, y, line, offset);
            let index = landing(x, y, line, offset);
            assert(pixels[index] && sprite_lit(rows, x, y, index));
        }
        if lit_on_lit_above {
            let index = choose|index: int|
                0 <= index < PIXELS && pixels[index] && #[trigger] sprite_lit(above, x, y, index);
            assert(sprite_lit(rows, x, y, index));
        }
        if lit_on_lit {
            let index = choose|index: int|
                0 <= index < PIXELS && pixels[index] && #[trigger] sprite_lit(rows, x, y, index);
            lemma_landing_covers(x, y, index);
            if !on_row(index, row) {
                assert(sprite_lit(above, x, y, index));
            }
        }
    }
}

/// Drawing the same sprite twice at the same place restores the display, and
/// the second draw collides exactly when the sprite has a lit pixel on a
/// pixel that was unlit before the first.
pub proof fn lemma_draw_twice_restores(pixels: Seq<bool>, x: int, y: int, rows: Seq<u8>)
    requires
        pixels.len() == PIXELS,
        rows.len() <= Y_MAX,
        0 <= x < 256,
        0 <= y < 256,
    ensures
        sprite_drawn(sprite_drawn(pixels, x, y, rows), x, y, rows) == pixels,
        sprite_collides(sprite_drawn(pixels, x, y, rows), x, y, rows) <==> exists|index: int|
            0 <= index < PIXELS && !pixels[index] && #[trigger] sprite_lit(rows, x, y, index),
{
    let once = sprite_drawn(pixels, x, y, rows);
    lemma_sprite_drawn_pixelwise(pixels, x, y, rows);
    lemma_sprite_drawn_pixelwise(once, x, y, rows);
}

/// A sprite with a lit pixel, drawn twice at the same place on pixels that
/// were all unlit where it is lit: the first draw lights them without a
/// collision, the second turns every one of them off again and collides.
pub proof fn lemma_draw_twice_on_unlit_pixels(pixels: Seq<bool>, x: int, y: int, rows: Seq<u8>)
    requires
        pixels.len() == PIXELS,
        rows.len() <= Y_MAX,
        0 <= x < 256,
        0 <= y < 256,
        sprite_has_lit_pixel(rows),
        forall|index: int|
            0 <= index < PIXELS && #[trigger] sprite_lit(rows, x, y, index) ==> !pixels[index],
    ensures
        !sprite_collides(pixels, x, y, rows),
        sprite_collides(sprite_drawn(pixels, x, y, rows), x, y, rows),
        forall|index: int|
            0 <= index < PIXELS && #[trigger] sprite_lit(rows, x, y, index) ==> sprite_drawn(
                pixels,
                x,
                y,
                rows,
            )[index] && !sprite_drawn(sprite_drawn(pixels, x, y, rows), x, y, rows)[index],
        sprite_drawn(sprite_drawn(pixels, x, y, rows), x, y, rows) == pixels,
{
    lemma_sprite_drawn_pixelwise(pixels, x, y, rows);
    lemma_draw_twice_restores(pixels, x, y, rows);
    let (line, offset) = choose|line: int, offset: int|
        0 <= line < rows.len() && 0 <= offset < SPRITE_WIDTH && #[trigger] source_bit(
            rows[line],
            offset,
        );
    lemma_landing(x, y, line, offset);
    assert(sprite_lit(rows, x, y, landing(x, y, line, offset)));
}

} // verus!
