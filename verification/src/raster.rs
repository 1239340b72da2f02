//! Pixel buffers of the clock face: BGRA bytes, four per pixel, rows `stride` bytes apart.
//!
//! Text is rasterised elsewhere; these functions prepare the buffers and copy the text's
//! pixels onto the screen buffer.
use vstd::arithmetic::div_mod::{lemma_fundamental_div_mod, lemma_fundamental_div_mod_converse};
use std::collections::HashMap;
use vstd::prelude::*;

verus! {

broadcast use vstd::std_specs::hash::group_hash_axioms;

/// Byte `channel` (0 = B, 1 = G, 2 = R, 3 = A) of a pixel of RGB color `rgb` with alpha `alpha`.
pub open spec fn bgra_byte(rgb: [u8; 3], alpha: u8, channel: int) -> u8 {
    if channel == 0 {
        rgb[2]
    } else if channel == 1 {
        rgb[1]
    } else if channel == 2 {
        rgb[0]
    } else {
        alpha
    }
}

/// Create a pixel buffer of `width` x `height` pixels filled with the background color
/// and alpha 0 (transparent for blitting).
pub fn transparent_canvas(width: u32, height: u32, bg: [u8; 3]) -> (pixels: Vec<u8>)
    requires
        width * height * 4 <= u32::MAX,
    ensures
        pixels.len() == width * height * 4,
        forall|k: int| 0 <= k < pixels.len() ==> #[trigger] pixels[k] == bgra_byte(bg, 0, k % 4),
{
    let count: u32 = width * height;
    let mut pixels: Vec<u8> = Vec::new();
    let mut i: u32 = 0;
    while i < count
        invariant
            i <= count,
            count == width * height,
            count * 4 <= u32::MAX,
            pixels.len() == i * 4,
            forall|k: int| 0 <= k < pixels.len() ==> #[trigger] pixels[k] == bgra_byte(bg, 0, k % 4),
        decreases count - i,
    {
        let ghost before = pixels@;
        pixels.push(bg[2]);  // B
        pixels.push(bg[1]);  // G
        pixels.push(bg[0]);  // R
        pixels.push(0);  // A = 0 for transparent background
        proof {
            assert forall|k: int| 0 <= k < pixels.len() implies #[trigger] pixels[k] == bgra_byte(
                bg,
                0,
                k % 4,
            ) by {
                if k >= i * 4 {
                    lemma_fundamental_div_mod_converse(k, 4, i as int, k - i * 4);
                } else {
                    assert(pixels[k] == before[k]);
                }
            }
        }
        i = i + 1;
    }
    pixels
}

/// Fill the whole pixels among the first `size` bytes of the frame buffer with the
/// background color, opaque, growing the buffer with zero bytes to `size` bytes first when it
/// is shorter (it never shrinks).
pub fn fill_frame(buffer: &mut Vec<u8>, size: usize, bg: [u8; 3])
    ensures
        final(buffer).len() == if old(buffer).len() < size {
            size
        } else {
            old(buffer).len()
        },
        forall|k: int|
            0 <= k < final(buffer).len() ==> #[trigger] final(buffer)[k] == if k < size / 4 * 4 {
                bgra_byte(bg, 255, k % 4)
            } else if k < old(buffer).len() {
                old(buffer)[k]
            } else {
                0
            },
{
    let ghost original = buffer@;
    // Resize only if needed (grows but never shrinks)
    while buffer.len() < size
        invariant
            buffer.len() >= original.len(),
            buffer.len() == original.len() || buffer.len() <= size,
            forall|k: int|
                0 <= k < buffer.len() ==> #[trigger] buffer[k] == if k < original.len() {
                    original[k]
                } else {
                    0
                },
        decreases size - buffer.len(),
    {
        buffer.push(0);
    }
    let ghost grown = buffer@;
    let n = buffer.len();
    let end = size / 4 * 4;
    let mut i: usize = 0;
    while i < end
        invariant
            i % 4 == 0,
            i <= end,
            end == size / 4 * 4,
            end <= size,
            buffer.len() == n,
            n >= size,
            grown.len() == n,
            forall|k: int|
                0 <= k < n ==> #[trigger] buffer[k] == if k < i {
                    bgra_byte(bg, 255, k % 4)
                } else {
                    grown[k]
                },
        decreases end - i,
    {
        buffer.set(i, bg[2]);
        buffer.set(i + 1, bg[1]);
        buffer.set(i + 2, bg[0]);
        buffer.set(i + 3, 255);
        proof {
            assert forall|k: int| i <= k < i + 4 implies #[trigger] buffer[k] == bgra_byte(
                bg,
                255,
                k % 4,
            ) by {
                lemma_fundamental_div_mod_converse(k, 4, i as int / 4, k - i);
            }
        }
        i = i + 4;
    }
}

/// Where byte `k` of the screen buffer comes from when a `w` x `h` pixel image is copied
/// with its top-left corner at pixel (`x`, `y`): the index of the image byte, or -1 when the
/// byte is left alone. A pixel is copied when it lands on the screen (a column within the
/// row, the whole pixel within the buffer), lies within the image data, and is not
/// transparent (alpha > 0).
pub open spec fn blit_source(
    k: int,
    stride: int,
    x: int,
    y: int,
    w: int,
    h: int,
    dst_len: int,
    src: Seq<u8>,
) -> int {
    let sy = k / stride;
    let off = k % stride;
    let sx = off / 4;
    let ty = sy - y;
    let tx = sx - x;
    let d = sy * stride + sx * 4;
    let si = (ty * w + tx) * 4;
    if stride > 0 && 0 <= ty < h && 0 <= tx < w && sx < stride / 4 && d + 3 < dst_len && si + 3
        < src.len() && src[si + 3] > 0 {
        si + off % 4
    } else {
        -1
    }
}

/// Whether the image pixel of byte `k` (its row and column in the image) comes before
/// image pixel (`row`, `col`) in row-major order.
pub open spec fn pixel_before(k: int, stride: int, x: int, y: int, row: int, col: int) -> bool {
    let ty = k / stride - y;
    let tx = (k % stride) / 4 - x;
    ty < row || (ty == row && tx < col)
}

proof fn lemma_block_position(stride: int, sy: int, sx: int, c: int)
    requires
        stride > 0,
        sy >= 0,
        0 <= sx < stride / 4,
        0 <= c < 4,
    ensures
        (sy * stride + sx * 4 + c) / stride == sy,
        (sy * stride + sx * 4 + c) % stride == sx * 4 + c,
        (sx * 4 + c) / 4 == sx,
        (sx * 4 + c) % 4 == c,
{
    assert(sx * 4 + c < stride) by (nonlinear_arith)
        requires
            0 <= sx < stride / 4,
            0 <= c < 4,
            stride > 0,
    {
        lemma_fundamental_div_mod(stride, 4);
    }
    lemma_fundamental_div_mod_converse(sy * stride + sx * 4 + c, stride, sy, sx * 4 + c);
    lemma_fundamental_div_mod_converse(sx * 4 + c, 4, sx, c);
}

proof fn lemma_byte_position(k: int, stride: int)
    requires
        stride > 0,
        k >= 0,
    ensures
        k == (k / stride) * stride + ((k % stride) / 4) * 4 + (k % stride) % 4,
        k / stride >= 0,
        0 <= (k % stride) / 4,
        0 <= (k % stride) % 4 < 4,
{
    lemma_fundamental_div_mod(k, stride);
    lemma_fundamental_div_mod(k % stride, 4);
    assert(k / stride >= 0) by (nonlinear_arith)
        requires
            k >= 0,
            stride > 0,
    {
        vstd::arithmetic::div_mod::lemma_div_pos_is_pos(k, stride);
    }
    assert((k / stride) * stride == stride * (k / stride)) by (nonlinear_arith);
}

/// Copy the non-transparent pixels of a `w` x `h` image (BGRA, rows of `w` pixels) onto the
/// screen buffer with the image's top-left corner at column `x` (possibly negative), row `y`;
/// parts that fall outside the screen are clipped.
pub fn blit_pixels(
    screen_buffer: &mut [u8],
    screen_stride: u32,
    x: i32,
    y: u32,
    w: u32,
    h: u32,
    pixels: &[u8],
)
    requires
        screen_stride <= i32::MAX,
        w * h * 4 <= u32::MAX,
        x + w <= i32::MAX,
        y + h <= i32::MAX,
        (y + h) * screen_stride <= u32::MAX,
    ensures
        final(screen_buffer).len() == old(screen_buffer).len(),
        forall|k: int|
            0 <= k < final(screen_buffer).len() ==> #[trigger] final(screen_buffer)[k] == {
                let s = blit_source(
                    k,
                    screen_stride as int,
                    x as int,
                    y as int,
                    w as int,
                    h as int,
                    old(screen_buffer).len() as int,
                    pixels@,
                );
                if s >= 0 {
                    pixels[s]
                } else {
                    old(screen_buffer)[k]
                }
            },
{
    let ghost original = screen_buffer@;
    let ghost len = screen_buffer@.len() as int;
    let ghost stride = screen_stride as int;
    let mut ty: u32 = 0;
    while ty < h
        invariant
            0 <= ty <= h,
            screen_stride <= i32::MAX,
            w * h * 4 <= u32::MAX,
            x + w <= i32::MAX,
            y + h <= i32::MAX,
            (y + h) * screen_stride <= u32::MAX,
            stride == screen_stride,
            screen_buffer@.len() == len,
            original.len() == len,
            forall|k: int|
                0 <= k < len ==> #[trigger] screen_buffer@[k] == {
                    let s = blit_source(k, stride, x as int, y as int, w as int, h as int, len, pixels@);
                    if s >= 0 && pixel_before(k, stride, x as int, y as int, ty as int, 0) {
                        pixels@[s]
                    } else {
                        original[k]
                    }
                },
        decreases h - ty,
    {
        let mut tx: u32 = 0;
        while tx < w
            invariant
                0 <= ty < h,
                0 <= tx <= w,
                screen_stride <= i32::MAX,
                w * h * 4 <= u32::MAX,
                x + w <= i32::MAX,
                y + h <= i32::MAX,
                (y + h) * screen_stride <= u32::MAX,
                stride == screen_stride,
                screen_buffer@.len() == len,
                original.len() == len,
                forall|k: int|
                    0 <= k < len ==> #[trigger] screen_buffer@[k] == {
                        let s = blit_source(k, stride, x as int, y as int, w as int, h as int, len, pixels@);
                        if s >= 0 && pixel_before(k, stride, x as int, y as int, ty as int, tx as int) {
                            pixels@[s]
                        } else {
                            original[k]
                        }
                    },
            decreases w - tx,
        {
            let ghost before = screen_buffer@;
            proof {
                assert(ty * w + tx < w * h) by (nonlinear_arith)
                    requires
                        ty < h,
                        tx < w,
                ;
            }
            let sx: i32 = x + tx as i32;
            let sy: i32 = y as i32 + ty as i32;
            let mut wrote = false;
            if sx >= 0 && sx < screen_stride as i32 / 4 && sy >= 0 {
                let src_idx = ((ty * w + tx) * 4) as usize;
                proof {
                    assert((sy as int) * stride + (sx as int) * 4 + 4 <= (y + h) * stride) by (nonlinear_arith)
                        requires
                            sy < y + h,
                            0 <= sx < stride / 4,
                            stride >= 0,
                    {
                        lemma_fundamental_div_mod(stride, 4);
                    }
                }
                let dst_idx = ((sy as u32 * screen_stride) + (sx as u32 * 4)) as usize;
                if dst_idx + 3 < screen_buffer.len() && src_idx + 3 < pixels.len() {
                    // Only copy if there's actual content (not background)
                    let alpha = pixels[src_idx + 3];
                    if alpha > 0 {
                        screen_buffer[dst_idx] = pixels[src_idx];
                        screen_buffer[dst_idx + 1] = pixels[src_idx + 1];
                        screen_buffer[dst_idx + 2] = pixels[src_idx + 2];
                        screen_buffer[dst_idx + 3] = pixels[src_idx + 3];
                        wrote = true;
                    }
                }
            }
            proof {
                assert forall|k: int| 0 <= k < len implies #[trigger] screen_buffer@[k] == {
                    let s = blit_source(k, stride, x as int, y as int, w as int, h as int, len, pixels@);
                    if s >= 0 && pixel_before(k, stride, x as int, y as int, ty as int, tx + 1) {
                        pixels@[s]
                    } else {
                        original[k]
                    }
                } by {
                    if stride > 0 {
                        lemma_byte_position(k, stride);
                        let ksy = k / stride;
                        let ksx = (k % stride) / 4;
                        let kc = (k % stride) % 4;
                        let on_pixel = ksy - y == ty && ksx - x == tx;
                        if on_pixel {
                            if ksx < stride / 4 {
                                lemma_block_position(stride, ksy, ksx, kc);
                            }
                        }
                        if wrote {
                            let d = (sy as int) * stride + (sx as int) * 4;
                            if d <= k < d + 4 {
                                lemma_block_position(stride, sy as int, sx as int, k - d);
                            }
                        }
                    }
                }
            }
            tx = tx + 1;
        }
        ty = ty + 1;
    }
}

/// The column where an image `content_width` pixels wide starts when centered on a screen
/// `screen_width` pixels wide; 0 when it does not fit.
pub open spec fn centered_start(screen_width: int, content_width: int) -> int {
    if content_width < screen_width {
        (screen_width - content_width) / 2
    } else {
        0
    }
}

/// Copy a rendered text image onto the screen buffer, centered horizontally, at row `y_position`.
pub fn blit_centered(
    text_width: u32,
    text_height: u32,
    text_pixels: &[u8],
    screen_width: u32,
    y_position: u32,
    screen_buffer: &mut [u8],
    screen_stride: u32,
)
    requires
        screen_width <= i32::MAX,
        screen_stride <= i32::MAX,
        text_width * text_height * 4 <= u32::MAX,
        y_position + text_height <= i32::MAX,
        (y_position + text_height) * screen_stride <= u32::MAX,
    ensures
        final(screen_buffer).len() == old(screen_buffer).len(),
        forall|k: int|
            0 <= k < final(screen_buffer).len() ==> #[trigger] final(screen_buffer)[k] == {
                let s = blit_source(
                    k,
                    screen_stride as int,
                    centered_start(screen_width as int, text_width as int),
                    y_position as int,
                    text_width as int,
                    text_height as int,
                    old(screen_buffer).len() as int,
                    text_pixels@,
                );
                if s >= 0 {
                    text_pixels[s]
                } else {
                    old(screen_buffer)[k]
                }
            },
{
    if text_height == 0 {
        proof {
            assert forall|k: int| 0 <= k < screen_buffer.len() implies blit_source(
                k,
                screen_stride as int,
                centered_start(screen_width as int, text_width as int),
                y_position as int,
                text_width as int,
                text_height as int,
                screen_buffer.len() as int,
                text_pixels@,
            ) < 0 by {}
        }
        return;
    }
    proof {
        assert(text_width <= u32::MAX / 4) by (nonlinear_arith)
            requires
                text_width * text_height * 4 <= u32::MAX,
                text_height >= 1,
        ;
    }
    let x_start: i32 = if text_width < screen_width {
        ((screen_width - text_width) / 2) as i32
    } else {
        0
    };
    blit_pixels(
        screen_buffer,
        screen_stride,
        x_start,
        y_position,
        text_width,
        text_height,
        text_pixels,
    );
}

/// The clock separators, ':' and the Bangla '।', which get half a digit cell.
pub open spec fn is_grid_separator(c: char) -> bool {
    c == ':' || c == '।'
}

/// Width of the grid cell of a clock character: separators (':' and the Bangla '।') get half
/// a digit cell, every other character a whole one.
pub open spec fn cell_width(c: char, digit_cell_width: int) -> int {
    if is_grid_separator(c) {
        digit_cell_width / 2
    } else {
        digit_cell_width
    }
}

/// Total width of the cells of the first `n` characters.
pub open spec fn cells_width(text: Seq<char>, digit_cell_width: int, n: int) -> int
    decreases n,
{
    if n <= 0 {
        0
    } else {
        cells_width(text, digit_cell_width, n - 1) + cell_width(text[n - 1], digit_cell_width)
    }
}

proof fn lemma_cells_width_bounds(text: Seq<char>, d: int, n: int)
    requires
        0 <= n <= text.len(),
        d >= 0,
    ensures
        forall|m: int|
            0 <= m <= n ==> 0 <= #[trigger] cells_width(text, d, m) <= cells_width(text, d, n),
    decreases n,
{
    if n > 0 {
        lemma_cells_width_bounds(text, d, n - 1);
        assert(0 <= cells_width(text, d, n - 1));
        assert(cells_width(text, d, n) == cells_width(text, d, n - 1) + cell_width(text[n - 1], d));
    }
}

/// The largest of some widths, 0 when there are none.
pub open spec fn max_width(widths: Seq<u32>) -> int
    decreases widths.len(),
{
    if widths.len() == 0 {
        0
    } else {
        let rest = max_width(widths.drop_last());
        if widths.last() > rest {
            widths.last() as int
        } else {
            rest
        }
    }
}

/// Width of a digit cell: the widest of the measured digit images plus two pixels of padding,
/// so that neighbouring digits never touch.
pub fn digit_cell_width(widths: &Vec<u32>) -> (w: u32)
    requires
        forall|i: int| 0 <= i < widths.len() ==> widths[i] <= u32::MAX - 2,
    ensures
        w == max_width(widths@) + 2,
{
    let mut widest: u32 = 0;
    let mut i: usize = 0;
    while i < widths.len()
        invariant
            i <= widths.len(),
            forall|k: int| 0 <= k < widths.len() ==> widths[k] <= u32::MAX - 2,
            widest == max_width(widths@.subrange(0, i as int)),
            widest <= u32::MAX - 2,
        decreases widths.len() - i,
    {
        assert(widths@.subrange(0, i + 1).drop_last() =~= widths@.subrange(0, i as int));
        if widths[i] > widest {
            widest = widths[i];
        }
        i = i + 1;
    }
    assert(widths@.subrange(0, widths.len() as int) =~= widths@);
    widest + 2
}

/// Digits never shift the clock grid: two texts of the same length with their separators at
/// the same places have the same cell widths and the same cell positions, whatever their
/// digits.
pub proof fn lemma_grid_does_not_shift(a: Seq<char>, b: Seq<char>, digit_cell_width: int)
    requires
        a.len() == b.len(),
        forall|i: int| 0 <= i < a.len() ==> is_grid_separator(a[i]) == is_grid_separator(b[i]),
    ensures
        forall|i: int| 0 <= i < a.len() ==> cell_width(a[i], digit_cell_width) == cell_width(b[i], digit_cell_width),
        forall|n: int|
            0 <= n <= a.len() ==> #[trigger] cells_width(a, digit_cell_width, n) == cells_width(
                b,
                digit_cell_width,
                n,
            ),
{
    assert forall|n: int| 0 <= n <= a.len() implies #[trigger] cells_width(a, digit_cell_width, n)
        == cells_width(b, digit_cell_width, n) by {
        lemma_cells_width_agree(a, b, digit_cell_width, n);
    }
}

proof fn lemma_cells_width_agree(a: Seq<char>, b: Seq<char>, d: int, n: int)
    requires
        0 <= n <= a.len(),
        a.len() == b.len(),
        forall|i: int| 0 <= i < a.len() ==> is_grid_separator(a[i]) == is_grid_separator(b[i]),
    ensures
        cells_width(a, d, n) == cells_width(b, d, n),
    decreases n,
{
    if n > 0 {
        lemma_cells_width_agree(a, b, d, n - 1);
        assert(is_grid_separator(a[n - 1]) == is_grid_separator(b[n - 1]));
    }
}

/// Digit cell widths already measured, by the bits of the font size they were measured at,
/// so that the digits are measured once per font size.
pub struct DigitWidthCache {
    widths: HashMap<u32, u32>,
}

impl View for DigitWidthCache {
    type V = Map<u32, u32>;

    closed spec fn view(&self) -> Map<u32, u32> {
        self.widths@
    }
}

impl DigitWidthCache {
    /// A cache that remembers nothing yet.
    pub fn new() -> (cache: Self)
        ensures
            cache@ == Map::<u32, u32>::empty(),
    {
        DigitWidthCache { widths: HashMap::new() }
    }

    /// The digit cell width remembered for a font size, if it was measured.
    pub fn cached_width(&self, size_bits: u32) -> (width: Option<u32>)
        ensures
            width == if self@.contains_key(size_bits) {
                Some(self@[size_bits])
            } else {
                None
            },
    {
        match self.widths.get(&size_bits) {
            Some(w) => Some(*w),
            None => None,
        }
    }

    /// Work out the digit cell width for a font size from the measured digit widths
    /// (`digit_cell_width`), remember it and return it.
    pub fn remember(&mut self, size_bits: u32, widths: &Vec<u32>) -> (width: u32)
        requires
            forall|i: int| 0 <= i < widths.len() ==> widths[i] <= u32::MAX - 2,
        ensures
            width == max_width(widths@) + 2,
            final(self)@ == old(self)@.insert(size_bits, width),
    {
        let width = digit_cell_width(widths);
        self.widths.insert(size_bits, width);
        width
    }
}

/// A font size is measured once: after its width is remembered the cache returns that width
/// for it, and remembering another size leaves it as it was.
pub proof fn lemma_remembered_width_kept(cache: Map<u32, u32>, size_bits: u32, width: u32, other_bits: u32, other_width: u32)
    requires
        size_bits != other_bits,
    ensures
        cache.insert(size_bits, width).contains_key(size_bits),
        cache.insert(size_bits, width)[size_bits] == width,
        cache.insert(size_bits, width).insert(other_bits, other_width).contains_key(size_bits),
        cache.insert(size_bits, width).insert(other_bits, other_width)[size_bits] == width,
{
}

/// One character cell of the clock grid.
#[derive(Debug, Clone, Copy, PartialEq, Eq, Structural)]
pub struct GridCell {
    pub ch: char,
    /// Column of the cell's left edge
    pub x: i32,
    pub width: u32,
}

/// Lay out clock text in fixed-width cells so that digits do not shift as they change:
/// every digit gets the same cell width, separators half of it, and the row of cells is
/// centered on the screen.
pub fn time_grid_cells(text: &str, digit_cell_width: u32, screen_width: u32) -> (cells: Vec<GridCell>)
    requires
        screen_width <= i32::MAX,
        cells_width(text@, digit_cell_width as int, text@.len() as int) <= i32::MAX,
    ensures
        cells.len() == text@.len(),
        forall|i: int|
            0 <= i < cells.len() ==> {
                let total = cells_width(text@, digit_cell_width as int, text@.len() as int);
                &&& (#[trigger] cells@[i]).ch == text@[i]
                &&& cells@[i].width == cell_width(text@[i], digit_cell_width as int)
                &&& cells@[i].x == centered_start(screen_width as int, total) + cells_width(
                    text@,
                    digit_cell_width as int,
                    i,
                )
            },
{
    let chars = crate::text::chars_of(text);
    let n = chars.len();
    let colon_cell_width = digit_cell_width / 2;
    proof {
        lemma_cells_width_bounds(chars@, digit_cell_width as int, n as int);
    }
    // Calculate total width needed
    let mut total_width: u32 = 0;
    let mut i: usize = 0;
    while i < n
        invariant
            i <= n,
            n == chars@.len(),
            chars@ == text@,
            colon_cell_width == digit_cell_width / 2,
            total_width == cells_width(chars@, digit_cell_width as int, i as int),
            cells_width(chars@, digit_cell_width as int, n as int) <= i32::MAX,
            forall|m: int|
                0 <= m <= n ==> 0 <= #[trigger] cells_width(chars@, digit_cell_width as int, m)
                    <= cells_width(chars@, digit_cell_width as int, n as int),
        decreases n - i,
    {
        let ch = chars[i];
        assert(cells_width(chars@, digit_cell_width as int, i + 1) <= cells_width(
            chars@,
            digit_cell_width as int,
            n as int,
        ));
        if ch == ':' || ch == '।' {
            total_width += colon_cell_width;
        } else {
            total_width += digit_cell_width;
        }
        i = i + 1;
    }
    // Starting x position centers the whole time
    let x_start: i32 = if total_width < screen_width {
        ((screen_width - total_width) / 2) as i32
    } else {
        0
    };
    let mut cells: Vec<GridCell> = Vec::new();
    let mut current_x: i32 = x_start;
    let mut j: usize = 0;
    while j < n
        invariant
            j <= n,
            n == chars@.len(),
            chars@ == text@,
            colon_cell_width == digit_cell_width / 2,
            total_width == cells_width(chars@, digit_cell_width as int, n as int),
            total_width <= i32::MAX,
            screen_width <= i32::MAX,
            x_start == centered_start(screen_width as int, total_width as int),
            current_x == x_start + cells_width(chars@, digit_cell_width as int, j as int),
            forall|m: int|
                0 <= m <= n ==> 0 <= #[trigger] cells_width(chars@, digit_cell_width as int, m)
                    <= cells_width(chars@, digit_cell_width as int, n as int),
            cells.len() == j,
            forall|k: int|
                0 <= k < j ==> {
                    &&& (#[trigger] cells@[k]).ch == text@[k]
                    &&& cells@[k].width == cell_width(text@[k], digit_cell_width as int)
                    &&& cells@[k].x == x_start + cells_width(text@, digit_cell_width as int, k)
                },
        decreases n - j,
    {
        let ch = chars[j];
        let width = if ch == ':' || ch == '।' {
            colon_cell_width
        } else {
            digit_cell_width
        };
        assert(x_start + cells_width(chars@, digit_cell_width as int, j + 1) <= i32::MAX) by {
            assert(cells_width(chars@, digit_cell_width as int, j + 1) <= total_width);
            assert(0 <= cells_width(chars@, digit_cell_width as int, j as int));
        }
        let cell = GridCell { ch, x: current_x, width };
        let ghost before = cells@;
        assert(before.len() == j);
        cells.push(cell);
        proof {
            vstd::seq::axiom_seq_push_len(before, cell);
            assert forall|k: int| 0 <= k < j + 1 implies {
                &&& (#[trigger] cells@[k]).ch == text@[k]
                &&& cells@[k].width == cell_width(text@[k], digit_cell_width as int)
                &&& cells@[k].x == x_start + cells_width(text@, digit_cell_width as int, k)
            } by {
                if k < j {
                    vstd::seq::axiom_seq_push_index_different(before, cell, k);
                } else {
                    vstd::seq::axiom_seq_push_index_same(before, cell, k);
                }
            }
        }
        current_x = current_x + width as i32;
        j = j + 1;
    }
    cells
}

/// Column where a character image `char_width` pixels wide starts when centered in its cell
/// (the halving rounds toward zero, so a wider character starts left of its cell).
pub open spec fn char_start(cell_x: int, cell_width: int, char_width: int) -> int {
    let diff = cell_width - char_width;
    cell_x + if diff >= 0 {
        diff / 2
    } else {
        -((-diff) / 2)
    }
}

/// Center a character image in its grid cell.
pub fn char_x_in_cell(cell: &GridCell, char_width: u32) -> (x: i32)
    requires
        cell.width <= i32::MAX,
        char_width <= i32::MAX,
        i32::MIN <= char_start(cell.x as int, cell.width as int, char_width as int) <= i32::MAX,
    ensures
        x == char_start(cell.x as int, cell.width as int, char_width as int),
{
    if cell.width >= char_width {
        cell.x + ((cell.width - char_width) / 2) as i32
    } else {
        cell.x - ((char_width - cell.width) / 2) as i32
    }
}

/// Renders between glyph-cache cleanups: after this many renders the cache is dropped to
/// limit glyph memory growth.
pub const SWASH_CACHE_CLEANUP_INTERVAL: u32 = 500;

/// Counts renders and says when the glyph cache is due for cleanup.
pub struct RenderCounter {
    count: u32,
}

impl RenderCounter {
    /// Renders counted since the last cleanup.
    pub closed spec fn value(&self) -> nat {
        self.count as nat
    }

    #[verifier::type_invariant]
    spec fn below_interval(&self) -> bool {
        self.count < SWASH_CACHE_CLEANUP_INTERVAL
    }

    pub fn new() -> (c: Self)
        ensures
            c.value() == 0,
    {
        RenderCounter { count: 0 }
    }

    /// Count one render; true when the cache must be cleaned up now, which restarts the count.
    pub fn tick(&mut self) -> (cleanup: bool)
        ensures
            cleanup == (old(self).value() + 1 >= SWASH_CACHE_CLEANUP_INTERVAL),
            final(self).value() == if cleanup {
                0
            } else {
                old(self).value() + 1
            },
            final(self).value() < SWASH_CACHE_CLEANUP_INTERVAL,
    {
        proof {
            use_type_invariant(&*self);
        }
        let next = self.count + 1;
        if next >= SWASH_CACHE_CLEANUP_INTERVAL {
            self.count = 0;
            true
        } else {
            self.count = next;
            false
        }
    }
}

} // verus!
