//! The tray badge: a 22 x 22 RGBA bitmap with a disc in the usage tier's
//! color and the percentage drawn on it in a 3 x 5 pixel font.

use vstd::prelude::*;
use crate::canvas::{Canvas, Rgba8, blank_canvas, canvas_into_raw, canvas_samples, canvas_width, canvas_height, put_rgba};
use crate::text::{badge_text, badge_text_spec};

verus! {

/// Side of the square badge, in pixels.
pub const BADGE_SIZE: u32 = 22;

/// Number of samples in a badge: four per pixel.
pub const BADGE_SAMPLES: usize = 1936;

/// Width of one glyph, in pixels.
pub const GLYPH_WIDTH: u32 = 3;

/// Height of one glyph, in pixels.
pub const GLYPH_HEIGHT: u32 = 5;

/// Blank columns between two glyphs.
pub const GLYPH_SPACING: u32 = 1;

/// How full the usage is, as it colors the badge.
#[derive(Clone, Copy, Debug, PartialEq, Eq, Structural)]
pub enum ColorTier {
    Normal,
    Warning,
    Critical,
}

/// The tier of a percentage: up to 60 Normal, 61 to 80 Warning, above 80 Critical.
pub open spec fn tier_of(percentage: int) -> ColorTier {
    if percentage > 80 {
        ColorTier::Critical
    } else if percentage > 60 {
        ColorTier::Warning
    } else {
        ColorTier::Normal
    }
}

/// The fixed opaque color of each tier.
pub open spec fn tier_rgba(tier: ColorTier) -> Rgba8 {
    match tier {
        ColorTier::Critical => Rgba8 { r: 220, g: 53, b: 69, a: 255 },
        ColorTier::Warning => Rgba8 { r: 255, g: 193, b: 7, a: 255 },
        ColorTier::Normal => Rgba8 { r: 40, g: 167, b: 69, a: 255 },
    }
}

/// Opaque white, the color of the glyphs.
pub open spec fn white() -> Rgba8 {
    Rgba8 { r: 255, g: 255, b: 255, a: 255 }
}

/// Fully transparent, the color outside the disc.
pub open spec fn transparent() -> Rgba8 {
    Rgba8 { r: 0, g: 0, b: 0, a: 0 }
}

/// Whether pixel `(x, y)` lies in the disc of radius 10 around the
/// canvas's geometric center `(10.5, 10.5)`, counted in half pixels: the
/// disc leaves a one-pixel transparent margin on every edge.
pub open spec fn in_disc(x: int, y: int) -> bool {
    (2 * x - 21) * (2 * x - 21) + (2 * y - 21) * (2 * y - 21) <= 20 * 20
}

/// The glyph of a character: digits `0` to `9` are glyphs 0 to 9, the
/// overflow symbol is glyph 10; other characters have none.
pub open spec fn glyph_index_spec(c: char) -> Option<int> {
    if '0' <= c && c <= '9' {
        Some(c as int - '0' as int)
    } else if c == '!' {
        Some(10)
    } else {
        None
    }
}

/// The 3 x 5 bitmap of glyph `g`, fifteen bits read row by row from the
/// most significant one.
pub open spec fn glyph_mask_spec(g: int) -> u16 {
    if g == 0 {
        0b111_101_101_101_111
    } else if g == 1 {
        0b010_110_010_010_111
    } else if g == 2 {
        0b111_001_111_100_111
    } else if g == 3 {
        0b111_001_111_001_111
    } else if g == 4 {
        0b101_101_111_001_001
    } else if g == 5 {
        0b111_100_111_001_111
    } else if g == 6 {
        0b111_100_111_101_111
    } else if g == 7 {
        0b111_001_001_001_001
    } else if g == 8 {
        0b111_101_111_101_111
    } else if g == 9 {
        0b111_101_111_001_111
    } else {
        0b010_010_010_000_010
    }
}

/// Whether cell `(row, col)` of glyph `g` is drawn.
pub open spec fn glyph_bit(g: int, row: int, col: int) -> bool {
    (glyph_mask_spec(g) >> ((14 - (row * 3 + col)) as u16)) & 1u16 == 1u16
}

/// The column where a text of `n` glyphs starts: the block of
/// `n * 3 + (n - 1)` columns centered on column 11, rounded to the left.
pub open spec fn text_left(n: int) -> int {
    if (4 * n - 1) / 2 > 11 {
        0
    } else {
        11 - (4 * n - 1) / 2
    }
}

/// The row where the glyphs start: five rows centered on row 11.
pub open spec fn text_top() -> int {
    11int - 5int / 2
}

/// Whether pixel `(x, y)` is a drawn cell of some glyph of text `t`.
pub open spec fn glyph_fg(t: Seq<char>, x: int, y: int) -> bool {
    let dx = x - text_left(t.len() as int);
    let row = y - text_top();
    &&& 0 <= row < 5
    &&& 0 <= dx
    &&& dx / 4 < t.len()
    &&& dx % 4 < 3
    &&& glyph_index_spec(t[dx / 4]) is Some
    &&& glyph_bit(glyph_index_spec(t[dx / 4]).unwrap(), row, dx % 4)
}

/// The pixel `(x, y)` of the badge for `percentage`: white on a glyph cell,
/// else the tier's color inside the disc, else transparent.
pub open spec fn badge_pixel(percentage: u8, x: int, y: int) -> Rgba8 {
    if glyph_fg(badge_text_spec(percentage as int), x, y) {
        white()
    } else if in_disc(x, y) {
        tier_rgba(tier_of(percentage as int))
    } else {
        transparent()
    }
}

/// The column of the pixel that sample `i` belongs to.
pub open spec fn sample_x(i: int) -> int {
    (i / 4) % 22
}

/// The row of the pixel that sample `i` belongs to.
pub open spec fn sample_y(i: int) -> int {
    (i / 4) / 22
}

/// All samples of the badge for `percentage`, row-major, r, g, b, a per pixel.
pub open spec fn badge_samples(percentage: u8) -> Seq<u8> {
    Seq::new(
        BADGE_SAMPLES as nat,
        |i: int| badge_pixel(percentage, sample_x(i), sample_y(i)).sample(i % 4),
    )
}

/// The tier of `percentage`.
pub fn classify(percentage: u8) -> (t: ColorTier)
    ensures
        t == tier_of(percentage as int),
{
    if percentage > 80 {
        ColorTier::Critical
    } else if percentage > 60 {
        ColorTier::Warning
    } else {
        ColorTier::Normal
    }
}

/// The color of `tier`.
pub fn tier_color(tier: ColorTier) -> (c: Rgba8)
    ensures
        c == tier_rgba(tier),
{
    match tier {
        ColorTier::Critical => Rgba8 { r: 220, g: 53, b: 69, a: 255 },
        ColorTier::Warning => Rgba8 { r: 255, g: 193, b: 7, a: 255 },
        ColorTier::Normal => Rgba8 { r: 40, g: 167, b: 69, a: 255 },
    }
}

/// The glyph of `c`, if it has one.
pub fn glyph_index(c: char) -> (r: Option<usize>)
    ensures
        r matches Some(g) ==> glyph_index_spec(c) == Some(g as int) && g <= 10,
        r is None ==> glyph_index_spec(c) is None,
{
    if '0' <= c && c <= '9' {
        Some((c as u32 - '0' as u32) as usize)
    } else if c == '!' {
        Some(10)
    } else {
        None
    }
}

/// The bitmap of glyph `g`.
pub fn glyph_mask(g: usize) -> (m: u16)
    requires
        g <= 10,
    ensures
        m == glyph_mask_spec(g as int),
{
    if g == 0 {
        0b111_101_101_101_111
    } else if g == 1 {
        0b010_110_010_010_111
    } else if g == 2 {
        0b111_001_111_100_111
    } else if g == 3 {
        0b111_001_111_001_111
    } else if g == 4 {
        0b101_101_111_001_001
    } else if g == 5 {
        0b111_100_111_001_111
    } else if g == 6 {
        0b111_100_111_101_111
    } else if g == 7 {
        0b111_001_001_001_001
    } else if g == 8 {
        0b111_101_111_101_111
    } else if g == 9 {
        0b111_101_111_001_111
    } else {
        0b010_010_010_000_010
    }
}

/// The canvas shape the badge passes work on.
pub open spec fn badge_canvas(c: Canvas) -> bool {
    &&& canvas_width(c) == 22
    &&& canvas_height(c) == 22
    &&& canvas_samples(c).len() == BADGE_SAMPLES
}

/// Paints the disc in `color` over a blank badge canvas.
fn paint_disc(img: &mut Canvas, color: Rgba8)
    requires
        badge_canvas(*old(img)),
        canvas_samples(*old(img)) == Seq::new(BADGE_SAMPLES as nat, |i: int| 0u8),
    ensures
        badge_canvas(*final(img)),
        canvas_samples(*final(img)) == Seq::new(
            BADGE_SAMPLES as nat,
            |i: int|
                if in_disc(sample_x(i), sample_y(i)) {
                    color.sample(i % 4)
                } else {
                    0u8
                },
        ),
{
    let size = BADGE_SIZE;
    let mut y: u32 = 0;
    while y < size
        invariant
            size == 22,
            y <= size,
            badge_canvas(*img),
            canvas_samples(*img) == Seq::new(
                BADGE_SAMPLES as nat,
                |i: int|
                    if i / 4 < y * 22 && in_disc(sample_x(i), sample_y(i)) {
                        color.sample(i % 4)
                    } else {
                        0u8
                    },
            ),
        decreases size - y,
    {
        let mut x: u32 = 0;
        while x < size
            invariant
                size == 22,
                y < size,
                x <= size,
                badge_canvas(*img),
                canvas_samples(*img) == Seq::new(
                    BADGE_SAMPLES as nat,
                    |i: int|
                        if i / 4 < y * 22 + x && in_disc(sample_x(i), sample_y(i)) {
                            color.sample(i % 4)
                        } else {
                            0u8
                        },
                ),
            decreases size - x,
        {
            let dx: i32 = 2 * x as i32 - 21;
            let dy: i32 = 2 * y as i32 - 21;
            assert(0 <= dx * dx <= 441) by (nonlinear_arith)
                requires
                    -21 <= dx <= 21,
            ;
            assert(0 <= dy * dy <= 441) by (nonlinear_arith)
                requires
                    -21 <= dy <= 21,
            ;
            if dx * dx + dy * dy <= 20 * 20 {
                put_rgba(img, x, y, color);
            }
            assert(canvas_samples(*img) =~= Seq::new(
                BADGE_SAMPLES as nat,
                |i: int|
                    if i / 4 < y * 22 + x + 1 && in_disc(sample_x(i), sample_y(i)) {
                        color.sample(i % 4)
                    } else {
                        0u8
                    },
            ));
            x = x + 1;
        }
        y = y + 1;
    }
}

/// Whether pixel `(x, y)` is a glyph cell of `t` whose place in drawing
/// order (glyph, then row, then column) comes before `k`.
pub open spec fn drawn_before(t: Seq<char>, x: int, y: int, k: int) -> bool {
    let dx = x - text_left(t.len() as int);
    &&& glyph_fg(t, x, y)
    &&& (dx / 4) * 15 + (y - text_top()) * 3 + dx % 4 < k
}

/// Draws `text` in white, centered on the canvas; cells that would fall
/// outside the canvas are dropped.
fn draw_text_centered(img: &mut Canvas, text: &str)
    requires
        badge_canvas(*old(img)),
        1 <= text@.len(),
        4 * text@.len() + 16 <= u32::MAX,
    ensures
        badge_canvas(*final(img)),
        canvas_samples(*final(img)) == Seq::new(
            BADGE_SAMPLES as nat,
            |i: int|
                if glyph_fg(text@, sample_x(i), sample_y(i)) {
                    255u8
                } else {
                    canvas_samples(*old(img))[i]
                },
        ),
{
    let ghost before = canvas_samples(*img);
    let ghost t = text@;
    let size = BADGE_SIZE;
    let white = Rgba8 { r: 255, g: 255, b: 255, a: 255 };
    let center_x = size / 2;
    let center_y = size / 2;
    let char_width = GLYPH_WIDTH;
    let char_height = GLYPH_HEIGHT;
    let spacing = GLYPH_SPACING;
    let n = text.unicode_len();
    let step = char_width + spacing;
    assert(n as u32 * step == 4 * n) by (nonlinear_arith)
        requires
            1 <= n,
            4 * n + 16 <= u32::MAX,
            step == 4,
    ;
    let total_width: u32 = n as u32 * step - spacing;
    let start_x = center_x.saturating_sub(total_width / 2);
    let start_y = center_y.saturating_sub(char_height / 2);
    let mut i: usize = 0;
    while i < n
        invariant
            size == 22,
            char_width == 3,
            char_height == 5,
            spacing == 1,
            step == 4,
            n == t.len(),
            1 <= n,
            4 * n + 16 <= u32::MAX,
            t == text@,
            i <= n,
            start_x == text_left(n as int),
            start_y == text_top(),
            white == self::white(),
            badge_canvas(*img),
            canvas_samples(*img) == Seq::new(
                BADGE_SAMPLES as nat,
                |j: int|
                    if drawn_before(t, sample_x(j), sample_y(j), i * 15) {
                        255u8
                    } else {
                        before[j]
                    },
            ),
        decreases n - i,
    {
        let c = text.get_char(i);
        match glyph_index(c) {
            None => {},
            Some(g) => {
                let mask = glyph_mask(g);
                assert(i as u32 * step == i * 4) by (nonlinear_arith)
                    requires
                        step == 4,
                        i < n,
                        4 * n + 16 <= u32::MAX,
                ;
                let offset_x = start_x + i as u32 * step;
                let mut row: u32 = 0;
                while row < char_height
                    invariant
                        size == 22,
                        char_width == 3,
                        char_height == 5,
                        n == t.len(),
                        1 <= n,
                        4 * n + 16 <= u32::MAX,
                        i < n,
                        t[i as int] == c,
                        glyph_index_spec(c) == Some(g as int),
                        mask == glyph_mask_spec(g as int),
                        row <= char_height,
                        start_x == text_left(n as int),
                        start_y == text_top(),
                        offset_x == start_x + i * 4,
                        white == self::white(),
                        badge_canvas(*img),
                        canvas_samples(*img) == Seq::new(
                            BADGE_SAMPLES as nat,
                            |j: int|
                                if drawn_before(t, sample_x(j), sample_y(j), i * 15 + row * 3) {
                                    255u8
                                } else {
                                    before[j]
                                },
                        ),
                    decreases char_height - row,
                {
                    let mut col: u32 = 0;
                    while col < char_width
                        invariant
                            size == 22,
                            char_width == 3,
                            char_height == 5,
                            n == t.len(),
                            1 <= n,
                            4 * n + 16 <= u32::MAX,
                            i < n,
                            t[i as int] == c,
                            glyph_index_spec(c) == Some(g as int),
                            mask == glyph_mask_spec(g as int),
                            row < char_height,
                            col <= char_width,
                            start_x == text_left(n as int),
                            start_y == text_top(),
                            offset_x == start_x + i * 4,
                            white == self::white(),
                            badge_canvas(*img),
                            canvas_samples(*img) == Seq::new(
                                BADGE_SAMPLES as nat,
                                |j: int|
                                    if drawn_before(
                                        t,
                                        sample_x(j),
                                        sample_y(j),
                                        i * 15 + row * 3 + col,
                                    ) {
                                        255u8
                                    } else {
                                        before[j]
                                    },
                            ),
                        decreases char_width - col,
                    {
                        let shift: u16 = (14 - (row * 3 + col)) as u16;
                        if (mask >> shift) & 1u16 == 1u16 {
                            let px = offset_x + col;
                            let py = start_y + row;
                            if px < size && py < size {
                                put_rgba(img, px, py, white);
                            }
                        }
                        assert(canvas_samples(*img) =~= Seq::new(
                            BADGE_SAMPLES as nat,
                            |j: int|
                                if drawn_before(
                                    t,
                                    sample_x(j),
                                    sample_y(j),
                                    i * 15 + row * 3 + col + 1,
                                ) {
                                    255u8
                                } else {
                                    before[j]
                                },
                        ));
                        col = col + 1;
                    }
                    row = row + 1;
                }
            },
        }
        assert(canvas_samples(*img) =~= Seq::new(
            BADGE_SAMPLES as nat,
            |j: int|
                if drawn_before(t, sample_x(j), sample_y(j), (i + 1) * 15) {
                    255u8
                } else {
                    before[j]
                },
        ));
        i = i + 1;
    }
    assert(canvas_samples(*img) =~= Seq::new(
        BADGE_SAMPLES as nat,
        |j: int|
            if glyph_fg(t, sample_x(j), sample_y(j)) {
                255u8
            } else {
                before[j]
            },
    ));
}

/// Renders the badge for `percentage`: its samples, row-major, four per pixel.
pub fn generate_percentage_icon(percentage: u8) -> (r: Vec<u8>)
    ensures
        r@ == badge_samples(percentage),
{
    let size = BADGE_SIZE;
    let mut img = blank_canvas(size, size);
    let bg_color = tier_color(classify(percentage));
    paint_disc(&mut img, bg_color);
    let text = badge_text(percentage);
    proof {
        reveal_with_fuel(crate::text::decimal_chars, 2);
    }
    draw_text_centered(&mut img, text.as_str());
    let r = canvas_into_raw(img);
    assert(r@ =~= badge_samples(percentage));
    r
}

} // verus!
