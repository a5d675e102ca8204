//! The canvas, a grid of pixels, and its form as a plain-text image.
//!
//! The image starts with three lines: `P3`, the width and the height, and
//! `255`. Then every row of pixels follows as whole numbers from 0 to 255,
//! three for a pixel, each with a space behind it. A row starts a line of
//! its own, and a number that would make its line too long starts a new
//! one, so that no line is longer than seventy characters.

use vstd::prelude::*;
use vstd::string::{StringExecFns, StrSliceExecFns};
use num::Float;
use crate::color::{
    Color, decimal, digits, stands_for, lemma_digits_are_digits, lemma_digits_of_machine_numbers,
};
use crate::float_service::{Scalar, exact, lit, constant};

verus! {

/// Why a pixel was not written.
#[derive(Debug, Clone, Copy, PartialEq, Eq)]
pub enum CanvasError {
    /// The place lies outside the canvas.
    IndexOutOfBounds,
}

/// A canvas: rows of pixels from top to bottom, and the width and height
/// that the image states.
#[derive(Debug)]
pub struct Canvas<T> {
    pub width: usize,
    pub height: usize,
    pub pixels: Vec<Vec<Color<T>>>,
}

impl<T> View for Canvas<T> {
    type V = Seq<Seq<Color<T>>>;

    /// The rows from top to bottom, each from left to right.
    open spec fn view(&self) -> Seq<Seq<Color<T>>> {
        Seq::new(self.pixels@.len(), |y: int| self.pixels@[y]@)
    }
}

/// The longest line of the image.
pub open spec fn line_limit() -> nat {
    70
}

/// The three lines at the head of the image.
pub open spec fn header(width: nat, height: nat) -> Seq<char> {
    seq!['P', '3', '\n'] + digits(width) + seq![' '] + digits(height) + seq![
        '\n',
        '2',
        '5',
        '5',
        '\n',
    ]
}

/// The rows of bytes behind rows of pixels as they are kept.
pub open spec fn grid_of(rows: Seq<Vec<[u8; 3]>>) -> Seq<Seq<Seq<u8>>> {
    Seq::new(rows.len(), |y: int| Seq::new(rows[y]@.len(), |x: int| rows[y]@[x]@))
}

/// The numbers of one row in the order in which they are written: red,
/// green and blue of the first pixel, then of the second, and so on.
pub open spec fn tokens(row: Seq<Seq<u8>>) -> Seq<u8> {
    Seq::new(3 * row.len(), |k: int| row[k / 3][k % 3])
}

/// A number of `length` digits still goes on a line that holds `line`
/// characters.
pub open spec fn fits(line: nat, length: nat) -> bool {
    line + length + 3 <= line_limit()
}

/// How many characters the last line holds once the first `k` numbers of a
/// row are written.
pub open spec fn line_after(tokens: Seq<u8>, k: nat) -> nat
    decreases k,
{
    if k == 0 {
        0
    } else {
        let length = digits(tokens[k - 1] as nat).len();
        if fits(line_after(tokens, (k - 1) as nat), length) {
            line_after(tokens, (k - 1) as nat) + length + 1
        } else {
            length + 1
        }
    }
}

/// The text of the first `k` numbers of a row: each number with a space
/// behind it, and an end of line before a number that no longer fits.
pub open spec fn row_text(tokens: Seq<u8>, k: nat) -> Seq<char>
    decreases k,
{
    if k == 0 {
        Seq::<char>::empty()
    } else {
        let number = digits(tokens[k - 1] as nat);
        if fits(line_after(tokens, (k - 1) as nat), number.len()) {
            row_text(tokens, (k - 1) as nat) + number + seq![' ']
        } else {
            row_text(tokens, (k - 1) as nat) + seq!['\n'] + number + seq![' ']
        }
    }
}

/// The text of the first `k` rows: the text of each row and an end of line.
pub open spec fn body_text(rows: Seq<Seq<Seq<u8>>>, k: nat) -> Seq<char>
    decreases k,
{
    if k == 0 {
        Seq::<char>::empty()
    } else {
        body_text(rows, (k - 1) as nat) + row_text(
            tokens(rows[k - 1]),
            tokens(rows[k - 1]).len(),
        ) + seq!['\n']
    }
}

/// The whole image as text.
pub open spec fn ppm_text(width: nat, height: nat, rows: Seq<Seq<Seq<u8>>>) -> Seq<char> {
    header(width, height) + body_text(rows, rows.len())
}

/// `piece` holds no end of line.
pub open spec fn one_line(piece: Seq<char>) -> bool {
    forall|k: int| 0 <= k < piece.len() ==> piece[k] != '\n'
}

/// No line of `text` is longer than `limit`: a stretch of the text without
/// an end of line in it has at most `limit` characters.
pub open spec fn lines_within(text: Seq<char>, limit: nat) -> bool {
    forall|i: int, j: int|
        0 <= i <= j <= text.len() && one_line(#[trigger] text.subrange(i, j)) ==> j - i <= limit
}

/// How many characters stand behind the last end of line of `text`.
pub open spec fn tail_len(text: Seq<char>) -> nat
    decreases text.len(),
{
    if text.len() == 0 || text.last() == '\n' {
        0
    } else {
        1 + tail_len(text.drop_last())
    }
}

/// At no point of `text` do more than `limit` characters stand behind the
/// last end of line before that point.
pub open spec fn wrapped(text: Seq<char>, limit: nat) -> bool {
    forall|p: int| 0 <= p <= text.len() ==> tail_len(#[trigger] text.take(p)) <= limit
}

/// One more character keeps a text wrapped where it is an end of line or
/// the last line has room for it.
proof fn lemma_wrapped_push(text: Seq<char>, c: char, limit: nat)
    requires
        wrapped(text, limit),
        c == '\n' || tail_len(text) + 1 <= limit,
    ensures
        wrapped(text.push(c), limit),
        tail_len(text.push(c)) == (if c == '\n' {
            0
        } else {
            tail_len(text) + 1
        }),
{
    let longer = text.push(c);
    assert(longer.drop_last() =~= text);
    assert forall|p: int| 0 <= p <= longer.len() implies tail_len(#[trigger] longer.take(p))
        <= limit by {
        if p <= text.len() {
            assert(longer.take(p) =~= text.take(p));
        } else {
            assert(longer.take(p) =~= longer);
        }
    }
}

/// Characters that are no ends of line keep a text wrapped where the last
/// line has room for them all.
proof fn lemma_wrapped_append(text: Seq<char>, extra: Seq<char>, limit: nat)
    requires
        wrapped(text, limit),
        forall|i: int| 0 <= i < extra.len() ==> extra[i] != '\n',
        tail_len(text) + extra.len() <= limit,
    ensures
        wrapped(text + extra, limit),
        tail_len(text + extra) == tail_len(text) + extra.len(),
    decreases extra.len(),
{
    if extra.len() == 0 {
    } else {
        let front = extra.drop_last();
        lemma_wrapped_append(text, front, limit);
        lemma_wrapped_push(text + front, extra.last(), limit);
        assert((text + front).push(extra.last()) =~= text + extra);
    }
}

/// A stretch without an end of line that ends at the end of `text` is no
/// longer than what stands behind the last end of line.
proof fn lemma_tail_covers(text: Seq<char>, i: int)
    requires
        0 <= i <= text.len(),
        forall|k: int| i <= k < text.len() ==> text[k] != '\n',
    ensures
        text.len() - i <= tail_len(text),
    decreases text.len() - i,
{
    if i < text.len() {
        let front = text.drop_last();
        assert forall|k: int| i <= k < front.len() implies front[k] != '\n' by {
        }
        lemma_tail_covers(front, i);
    }
}

/// A wrapped text has no line longer than the limit.
proof fn lemma_wrapped_lines(text: Seq<char>, limit: nat)
    requires
        wrapped(text, limit),
    ensures
        lines_within(text, limit),
{
    assert forall|i: int, j: int|
        0 <= i <= j <= text.len() && one_line(#[trigger] text.subrange(i, j)) implies j - i
        <= limit by {
        let front = text.take(j);
        assert forall|k: int| i <= k < front.len() implies front[k] != '\n' by {
            assert(front[k] == text.subrange(i, j)[k - i]);
        }
        lemma_tail_covers(front, i);
    }
}

/// The last line of a row never holds more than sixty-eight characters: a
/// number goes on it only where two more would still fit, and a number that
/// starts a line has at most three digits.
proof fn lemma_line_after_bound(tokens: Seq<u8>, k: nat)
    ensures
        line_after(tokens, k) <= 68,
{
    if k > 0 {
        lemma_digits_of_machine_numbers(tokens[k - 1] as nat);
    }
}

/// The text of a row, put behind a wrapped text that ends a line, gives a
/// wrapped text whose last line is as long as [`line_after`] says.
proof fn lemma_row_wrapped(before: Seq<char>, tokens: Seq<u8>, k: nat)
    requires
        wrapped(before, line_limit()),
        tail_len(before) == 0,
    ensures
        wrapped(before + row_text(tokens, k), line_limit()),
        tail_len(before + row_text(tokens, k)) == line_after(tokens, k),
    decreases k,
{
    if k == 0 {
    } else {
        let earlier = before + row_text(tokens, (k - 1) as nat);
        let number = digits(tokens[k - 1] as nat);
        lemma_row_wrapped(before, tokens, (k - 1) as nat);
        lemma_digits_of_machine_numbers(tokens[k - 1] as nat);
        lemma_digits_are_digits(tokens[k - 1] as nat);
        if fits(line_after(tokens, (k - 1) as nat), number.len()) {
            lemma_wrapped_append(earlier, number, line_limit());
            lemma_wrapped_push(earlier + number, ' ', line_limit());
            assert((earlier + number).push(' ') =~= before + row_text(tokens, k));
        } else {
            lemma_wrapped_push(earlier, '\n', line_limit());
            lemma_wrapped_append(earlier.push('\n'), number, line_limit());
            lemma_wrapped_push(earlier.push('\n') + number, ' ', line_limit());
            assert((earlier.push('\n') + number).push(' ') =~= before + row_text(tokens, k));
        }
    }
}

/// The text of whole rows, put behind a wrapped text that ends a line,
/// gives a wrapped text that ends a line.
proof fn lemma_body_wrapped(before: Seq<char>, rows: Seq<Seq<Seq<u8>>>, k: nat)
    requires
        wrapped(before, line_limit()),
        tail_len(before) == 0,
    ensures
        wrapped(before + body_text(rows, k), line_limit()),
        tail_len(before + body_text(rows, k)) == 0,
    decreases k,
{
    if k == 0 {
    } else {
        let earlier = before + body_text(rows, (k - 1) as nat);
        let row = row_text(tokens(rows[k - 1]), tokens(rows[k - 1]).len());
        lemma_body_wrapped(before, rows, (k - 1) as nat);
        lemma_row_wrapped(earlier, tokens(rows[k - 1]), tokens(rows[k - 1]).len());
        lemma_wrapped_push(earlier + row, '\n', line_limit());
        assert((earlier + row).push('\n') =~= before + body_text(rows, k));
    }
}

/// The head of the image is wrapped and ends a line, for a width and a
/// height that fit in 64 bits.
proof fn lemma_header_wrapped(width: nat, height: nat)
    requires
        width <= u64::MAX,
        height <= u64::MAX,
    ensures
        wrapped(header(width, height), line_limit()),
        tail_len(header(width, height)) == 0,
        header(width, height).len() > 0,
        header(width, height).last() == '\n',
{
    lemma_digits_of_machine_numbers(width);
    lemma_digits_of_machine_numbers(height);
    lemma_digits_are_digits(width);
    lemma_digits_are_digits(height);
    let empty = Seq::<char>::empty();
    assert(wrapped(empty, line_limit())) by {
        assert forall|p: int| 0 <= p <= empty.len() implies tail_len(#[trigger] empty.take(p))
            <= line_limit() by {
        }
    }
    lemma_wrapped_push(empty, 'P', line_limit());
    let a = empty.push('P');
    lemma_wrapped_push(a, '3', line_limit());
    let b = a.push('3');
    lemma_wrapped_push(b, '\n', line_limit());
    let c = b.push('\n');
    lemma_wrapped_append(c, digits(width), line_limit());
    let d = c + digits(width);
    lemma_wrapped_push(d, ' ', line_limit());
    let e = d.push(' ');
    lemma_wrapped_append(e, digits(height), line_limit());
    let f = e + digits(height);
    lemma_wrapped_push(f, '\n', line_limit());
    let g = f.push('\n');
    lemma_wrapped_push(g, '2', line_limit());
    let h = g.push('2');
    lemma_wrapped_push(h, '5', line_limit());
    let i = h.push('5');
    lemma_wrapped_push(i, '5', line_limit());
    let j = i.push('5');
    lemma_wrapped_push(j, '\n', line_limit());
    assert(j.push('\n') =~= header(width, height));
}

/// In the image no line is longer than seventy characters, and the image
/// ends with an end of line: for every width and height that fit in 64
/// bits, whatever the rows of pixels are and also where there are none.
pub proof fn lemma_ppm_lines(width: nat, height: nat, rows: Seq<Seq<Seq<u8>>>)
    requires
        width <= u64::MAX,
        height <= u64::MAX,
    ensures
        lines_within(ppm_text(width, height, rows), 70),
        ppm_text(width, height, rows).len() > 0,
        ppm_text(width, height, rows).last() == '\n',
{
    let head = header(width, height);
    lemma_header_wrapped(width, height);
    lemma_body_wrapped(head, rows, rows.len());
    lemma_wrapped_lines(ppm_text(width, height, rows), 70);
}

/// The image, as text, of the rows of bytes given, three bytes for a
/// pixel, with the width and the height given in its head.
pub fn encode(width: usize, height: usize, rows: &Vec<Vec<[u8; 3]>>) -> (r: String)
    ensures
        r@ == ppm_text(width as nat, height as nat, grid_of(rows@)),
        lines_within(r@, 70),
        r@.len() > 0,
        r@.last() == '\n',
{
    let ghost grid = grid_of(rows@);
    let mut text = String::from_str("P3\n");
    text.append(decimal(width).as_str());
    text.append(" ");
    text.append(decimal(height).as_str());
    text.append("\n255\n");
    proof {
        reveal_strlit("P3\n");
        reveal_strlit(" ");
        reveal_strlit("\n255\n");
    }
    let mut y: usize = 0;
    while y < rows.len()
        invariant
            y <= rows.len(),
            grid == grid_of(rows@),
            text@ == header(width as nat, height as nat) + body_text(grid, y as nat),
        decreases rows.len() - y,
    {
        let row = &rows[y];
        let ghost start = text@;
        let ghost numbers = tokens(grid[y as int]);
        let mut line: usize = 0;
        let mut x: usize = 0;
        while x < row.len()
            invariant
                y < rows.len(),
                row == rows[y as int],
                x <= row.len(),
                grid == grid_of(rows@),
                numbers == tokens(grid[y as int]),
                numbers.len() == 3 * row.len(),
                text@ == start + row_text(numbers, (3 * x) as nat),
                line == line_after(numbers, (3 * x) as nat),
            decreases row.len() - x,
        {
            let pixel = row[x];
            let mut c: usize = 0;
            while c < 3
                invariant
                    x < row.len(),
                    c <= 3,
                    pixel == row[x as int],
                    row == rows[y as int],
                    y < rows.len(),
                    grid == grid_of(rows@),
                    numbers == tokens(grid[y as int]),
                    numbers.len() == 3 * row.len(),
                    text@ == start + row_text(numbers, (3 * x + c) as nat),
                    line == line_after(numbers, (3 * x + c) as nat),
                decreases 3 - c,
            {
                let ghost k = (3 * x + c) as nat;
                let token = decimal(pixel[c] as usize);
                let length = token.as_str().unicode_len();
                proof {
                    lemma_line_after_bound(numbers, k);
                    lemma_digits_of_machine_numbers(pixel[c as int] as nat);
                    reveal_strlit(" ");
                    reveal_strlit("\n");
                }
                if line + length + 3 <= 70 {
                    text.append(token.as_str());
                    text.append(" ");
                    line = line + length + 1;
                } else {
                    text.append("\n");
                    text.append(token.as_str());
                    text.append(" ");
                    line = length + 1;
                }
                c += 1;
            }
            x += 1;
        }
        text.append("\n");
        proof {
            reveal_strlit("\n");
        }
        y += 1;
    }
    proof {
        lemma_ppm_lines(width as nat, height as nat, grid);
    }
    text
}

/// The rows of bytes may stand for the rows of pixels: they have the same
/// shape, every pixel has three bytes, and each byte may stand for its
/// channel.
pub open spec fn portrays<T: Scalar>(bytes: Seq<Seq<Seq<u8>>>, pixels: Seq<Seq<Color<T>>>) -> bool {
    &&& bytes.len() == pixels.len()
    &&& forall|y: int| 0 <= y < pixels.len() ==> (#[trigger] bytes[y]).len() == pixels[y].len()
    &&& forall|y: int, x: int|
        0 <= y < pixels.len() && 0 <= x < pixels[y].len() ==> {
            &&& (#[trigger] bytes[y][x]).len() == 3
            &&& stands_for(pixels[y][x].red, bytes[y][x][0])
            &&& stands_for(pixels[y][x].green, bytes[y][x][1])
            &&& stands_for(pixels[y][x].blue, bytes[y][x][2])
        }
}

/// A pixel that is written is the pixel that is read there, exactly; every
/// other pixel is what it was.
pub proof fn lemma_write_then_read<T>(
    before: Seq<Seq<Color<T>>>,
    x: int,
    y: int,
    color: Color<T>,
)
    requires
        0 <= y < before.len(),
        0 <= x < before[y].len(),
    ensures
        before.update(y, before[y].update(x, color))[y][x] == color,
        forall|v: int, u: int|
            0 <= v < before.len() && 0 <= u < before[v].len() && !(v == y && u == x)
                ==> #[trigger] before.update(y, before[y].update(x, color))[v][u] == before[v][u],
{
}

impl<T: Scalar> Canvas<T> {
    /// The color with nothing in any channel.
    pub open spec fn black() -> Color<T> {
        Color { red: lit::<T>(0), green: lit::<T>(0), blue: lit::<T>(0) }
    }

    /// The canvas has `height` rows of `width` pixels, each of them `color`.
    pub open spec fn filled(self, width: usize, height: usize, color: Color<T>) -> bool {
        &&& self.width == width
        &&& self.height == height
        &&& self@.len() == height
        &&& forall|y: int| 0 <= y < height ==> (#[trigger] self@[y]).len() == width
        &&& forall|y: int, x: int|
            0 <= y < height && 0 <= x < width ==> (#[trigger] self@[y][x]) == color
    }

    /// The two canvases state the same width and height, keep rows of the
    /// same lengths, and agree within the tolerance in every pixel.
    pub open spec fn approx(self, other: Self) -> bool {
        &&& self.width == other.width
        &&& self.height == other.height
        &&& self.same_shape(other)
        &&& forall|y: int, x: int|
            0 <= y < self@.len() && 0 <= x < self@[y].len() ==> (#[trigger] self@[y][x]).approx(
                other@[y][x],
            )
    }

    /// The two canvases keep as many rows, each as long as the other's.
    pub open spec fn same_shape(self, other: Self) -> bool {
        &&& self@.len() == other@.len()
        &&& forall|y: int| 0 <= y < self@.len() ==> (#[trigger] self@[y]).len() == other@[y].len()
    }

    /// The operations that decide [`Self::approx`] may be applied.
    pub open spec fn approx_defined(self, other: Self) -> bool {
        forall|y: int, x: int|
            0 <= y < self@.len() && y < other@.len() && 0 <= x < self@[y].len() && x
                < other@[y].len() ==> (#[trigger] self@[y][x]).approx_defined(other@[y][x])
    }

    /// Every channel of every pixel may be multiplied by 255.
    pub open spec fn bytes_defined(self) -> bool {
        forall|y: int, x: int|
            0 <= y < self@.len() && 0 <= x < self@[y].len() ==> (
            #[trigger] self@[y][x]).bytes_defined()
    }

    /// The canvas of `height` rows of `width` pixels, all black.
    pub fn new(width: usize, height: usize) -> (r: Self)
        ensures
            exact::<T>() ==> r.filled(width, height, Self::black()),
            r.width == width,
            r.height == height,
            r@.len() == height,
            forall|y: int| 0 <= y < height ==> (#[trigger] r@[y]).len() == width,
    {
        let black = Color::new(constant::<T>(0), constant::<T>(0), constant::<T>(0));
        Self::new_with_color(width, height, black)
    }

    /// The canvas of `height` rows of `width` pixels, all of them `color`.
    pub fn new_with_color(width: usize, height: usize, color: Color<T>) -> (r: Self)
        ensures
            r.filled(width, height, color),
    {
        let mut pixels: Vec<Vec<Color<T>>> = Vec::new();
        let mut y: usize = 0;
        while y < height
            invariant
                y <= height,
                pixels@.len() == y,
                forall|v: int| 0 <= v < y ==> (#[trigger] pixels@[v])@.len() == width,
                forall|v: int, u: int|
                    0 <= v < y && 0 <= u < width ==> (#[trigger] pixels@[v]@[u]) == color,
            decreases height - y,
        {
            let mut row: Vec<Color<T>> = Vec::new();
            let mut x: usize = 0;
            while x < width
                invariant
                    x <= width,
                    row@.len() == x,
                    forall|u: int| 0 <= u < x ==> (#[trigger] row@[u]) == color,
                decreases width - x,
            {
                row.push(color);
                x += 1;
            }
            pixels.push(row);
            y += 1;
        }
        Self { width, height, pixels }
    }

    /// Writes `color` at column `width` of row `height`, or reports that
    /// the place lies outside the canvas and leaves the canvas as it was.
    pub fn write_pixel(&mut self, width: usize, height: usize, color: Color<T>) -> (r: Result<
        (),
        CanvasError,
    >)
        ensures
            final(self).width == old(self).width,
            final(self).height == old(self).height,
            height < old(self)@.len() && width < old(self)@[height as int].len() ==> r == Ok::<
                (),
                CanvasError,
            >(()) && final(self)@ == old(self)@.update(
                height as int,
                old(self)@[height as int].update(width as int, color),
            ),
            !(height < old(self)@.len() && width < old(self)@[height as int].len()) ==> r == Err::<
                (),
                CanvasError,
            >(CanvasError::IndexOutOfBounds) && final(self)@ == old(self)@,
    {
        if height < self.pixels.len() {
            if width < self.pixels[height].len() {
                let row = &mut self.pixels[height];
                row[width] = color;
                Ok(())
            } else {
                Err(CanvasError::IndexOutOfBounds)
            }
        } else {
            Err(CanvasError::IndexOutOfBounds)
        }
    }

    /// The pixel at column `width` of row `height`, or nothing where the
    /// place lies outside the canvas.
    pub fn pixel(&self, width: usize, height: usize) -> (r: Option<&Color<T>>)
        ensures
            height < self@.len() && width < self@[height as int].len() ==> r == Some(
                &self@[height as int][width as int],
            ),
            !(height < self@.len() && width < self@[height as int].len()) ==> r.is_none(),
    {
        if height < self.pixels.len() && width < self.pixels[height].len() {
            Some(self.at_pixel(width, height))
        } else {
            None
        }
    }

    /// The pixel at column `width` of row `height`.
    pub fn at_pixel(&self, width: usize, height: usize) -> (r: &Color<T>)
        requires
            height < self@.len(),
            width < self@[height as int].len(),
        ensures
            *r == self@[height as int][width as int],
    {
        &self.pixels[height][width]
    }

    /// Whether the two canvases state the same width and height and hold
    /// pixels that agree within the tolerance, row by row.
    pub fn eq(&self, other: &Self) -> (r: bool)
        requires
            exact::<T>(),
            self.approx_defined(*other),
        ensures
            r == self.approx(*other),
    {
        if self.width != other.width || self.height != other.height {
            return false;
        }
        if self.pixels.len() != other.pixels.len() {
            return false;
        }
        let mut y: usize = 0;
        while y < self.pixels.len()
            invariant
                y <= self.pixels.len(),
                exact::<T>(),
                self.approx_defined(*other),
                self.width == other.width,
                self.height == other.height,
                self@.len() == other@.len(),
                self.pixels.len() == self@.len(),
                forall|v: int| 0 <= v < y ==> (#[trigger] self@[v]).len() == other@[v].len(),
                forall|v: int, u: int|
                    0 <= v < y && 0 <= u < self@[v].len() ==> (#[trigger] self@[v][u]).approx(
                        other@[v][u],
                    ),
            decreases self.pixels.len() - y,
        {
            let mine = &self.pixels[y];
            let theirs = &other.pixels[y];
            if mine.len() != theirs.len() {
                assert(self@[y as int].len() != other@[y as int].len());
                return false;
            }
            let mut x: usize = 0;
            while x < mine.len()
                invariant
                    y < self.pixels.len(),
                    x <= mine.len(),
                    mine == self.pixels[y as int],
                    theirs == other.pixels[y as int],
                    mine.len() == theirs.len(),
                    exact::<T>(),
                    self.approx_defined(*other),
                    self@.len() == other@.len(),
                    self.pixels.len() == self@.len(),
                    forall|u: int| 0 <= u < x ==> (#[trigger] self@[y as int][u]).approx(
                        other@[y as int][u],
                    ),
                decreases mine.len() - x,
            {
                assert(self@[y as int][x as int].approx_defined(other@[y as int][x as int]));
                if !mine[x].eq(&theirs[x]) {
                    return false;
                }
                x += 1;
            }
            y += 1;
        }
        true
    }
}

impl<T: Scalar + Float> Canvas<T> {
    /// The rows of bytes that stand for the pixels, three for a pixel: red,
    /// green, blue.
    pub fn to_bytes(&self) -> (r: Vec<Vec<[u8; 3]>>)
        requires
            exact::<T>(),
            self.bytes_defined(),
        ensures
            portrays(grid_of(r@), self@),
    {
        let mut rows: Vec<Vec<[u8; 3]>> = Vec::new();
        let mut y: usize = 0;
        while y < self.pixels.len()
            invariant
                y <= self.pixels.len(),
                self.pixels.len() == self@.len(),
                exact::<T>(),
                self.bytes_defined(),
                rows@.len() == y,
                forall|v: int| 0 <= v < y ==> (#[trigger] rows@[v])@.len() == self@[v].len(),
                forall|v: int, u: int|
                    0 <= v < y && 0 <= u < self@[v].len() ==> {
                        &&& stands_for(self@[v][u].red, (#[trigger] rows@[v]@[u])[0])
                        &&& stands_for(self@[v][u].green, rows@[v]@[u][1])
                        &&& stands_for(self@[v][u].blue, rows@[v]@[u][2])
                    },
            decreases self.pixels.len() - y,
        {
            let source = &self.pixels[y];
            let mut row: Vec<[u8; 3]> = Vec::new();
            let mut x: usize = 0;
            while x < source.len()
                invariant
                    y < self.pixels.len(),
                    source == self.pixels[y as int],
                    x <= source.len(),
                    self.pixels.len() == self@.len(),
                    exact::<T>(),
                    self.bytes_defined(),
                    row@.len() == x,
                    forall|u: int|
                        0 <= u < x ==> {
                            &&& stands_for(self@[y as int][u].red, (#[trigger] row@[u])[0])
                            &&& stands_for(self@[y as int][u].green, row@[u][1])
                            &&& stands_for(self@[y as int][u].blue, row@[u][2])
                        },
                decreases source.len() - x,
            {
                assert(self@[y as int][x as int].bytes_defined());
                row.push(source[x].to_bytes());
                x += 1;
            }
            rows.push(row);
            y += 1;
        }
        assert(portrays(grid_of(rows@), self@)) by {
            let bytes = grid_of(rows@);
            assert forall|v: int, u: int|
                0 <= v < self@.len() && 0 <= u < self@[v].len() implies {
                &&& (#[trigger] bytes[v][u]).len() == 3
                &&& stands_for(self@[v][u].red, bytes[v][u][0])
                &&& stands_for(self@[v][u].green, bytes[v][u][1])
                &&& stands_for(self@[v][u].blue, bytes[v][u][2])
            } by {
            }
        }
        rows
    }

    /// The canvas as a plain-text image: the text of [`ppm_text`] for the
    /// width and the height that the canvas states and for rows of bytes
    /// that stand for its pixels. No line of it is longer than seventy
    /// characters, and it ends with an end of line.
    pub fn to_ppm(&self) -> (r: String)
        requires
            exact::<T>(),
            self.bytes_defined(),
        ensures
            exists|bytes: Seq<Seq<Seq<u8>>>|
                portrays(bytes, self@) && r@ == #[trigger] ppm_text(
                    self.width as nat,
                    self.height as nat,
                    bytes,
                ),
            lines_within(r@, 70),
            r@.len() > 0,
            r@.last() == '\n',
    {
        let rows = self.to_bytes();
        let text = encode(self.width, self.height, &rows);
        text
    }
}

} // verus!
