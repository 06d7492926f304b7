//! The unread badges laid over the taskbar button on Windows: 16 by 16
//! pixel images of a red rounded lozenge with the count in white, drawn in a
//! small built-in pixel font.
use vstd::prelude::*;
use crate::platform::BadgeIcon;

verus! {

/// An RGBA colour.
#[derive(PartialEq, Eq, Structural, Debug, Clone, Copy)]
pub struct Color {
    pub r: u8,
    pub g: u8,
    pub b: u8,
    pub a: u8,
}

pub open spec fn red_spec() -> Color {
    Color { r: 0xED, g: 0x42, b: 0x45, a: 0xFF }
}

pub open spec fn white_spec() -> Color {
    Color { r: 0xFF, g: 0xFF, b: 0xFF, a: 0xFF }
}

pub open spec fn transparent_spec() -> Color {
    Color { r: 0, g: 0, b: 0, a: 0 }
}

/// The badge's red.
pub fn badge_red() -> (res: Color)
    ensures
        res == red_spec(),
{
    Color { r: 0xED, g: 0x42, b: 0x45, a: 0xFF }
}

/// The white of the digits.
pub fn badge_white() -> (res: Color)
    ensures
        res == white_spec(),
{
    Color { r: 0xFF, g: 0xFF, b: 0xFF, a: 0xFF }
}

pub open spec fn badge_label_spec(count: i32) -> Seq<char> {
    if count < 0 {
        seq![]
    } else if count > 9 {
        seq!['9', '+']
    } else {
        seq![(48 + count) as char]
    }
}

/// The text on a badge: nothing for a negative count (a plain dot), the
/// digit for 0 to 9, and "9+" above.
pub fn badge_label(count: i32) -> (res: Vec<char>)
    ensures
        res@ == badge_label_spec(count),
{
    let mut label: Vec<char> = Vec::new();
    if count < 0 {
    } else if count > 9 {
        label.push('9');
        label.push('+');
    } else {
        let digit: u8 = 48u8 + (count as u8);
        label.push(digit as char);
    }
    label
}

/// The pixel font: five rows of three pixels for each digit and for `+`;
/// `'1'` marks a lit pixel.
pub open spec fn glyph_spec(ch: char) -> Option<Seq<Seq<char>>> {
    if ch == '0' {
        Some(seq![seq!['1', '1', '1'], seq!['1', '0', '1'], seq!['1', '0', '1'], seq!['1', '0', '1'], seq!['1', '1', '1']])
    } else if ch == '1' {
        Some(seq![seq!['0', '1', '0'], seq!['1', '1', '0'], seq!['0', '1', '0'], seq!['0', '1', '0'], seq!['1', '1', '1']])
    } else if ch == '2' {
        Some(seq![seq!['1', '1', '1'], seq!['0', '0', '1'], seq!['1', '1', '1'], seq!['1', '0', '0'], seq!['1', '1', '1']])
    } else if ch == '3' {
        Some(seq![seq!['1', '1', '1'], seq!['0', '0', '1'], seq!['1', '1', '1'], seq!['0', '0', '1'], seq!['1', '1', '1']])
    } else if ch == '4' {
        Some(seq![seq!['1', '0', '1'], seq!['1', '0', '1'], seq!['1', '1', '1'], seq!['0', '0', '1'], seq!['0', '0', '1']])
    } else if ch == '5' {
        Some(seq![seq!['1', '1', '1'], seq!['1', '0', '0'], seq!['1', '1', '1'], seq!['0', '0', '1'], seq!['1', '1', '1']])
    } else if ch == '6' {
        Some(seq![seq!['1', '1', '1'], seq!['1', '0', '0'], seq!['1', '1', '1'], seq!['1', '0', '1'], seq!['1', '1', '1']])
    } else if ch == '7' {
        Some(seq![seq!['1', '1', '1'], seq!['0', '0', '1'], seq!['0', '0', '1'], seq!['0', '1', '0'], seq!['0', '1', '0']])
    } else if ch == '8' {
        Some(seq![seq!['1', '1', '1'], seq!['1', '0', '1'], seq!['1', '1', '1'], seq!['1', '0', '1'], seq!['1', '1', '1']])
    } else if ch == '9' {
        Some(seq![seq!['1', '1', '1'], seq!['1', '0', '1'], seq!['1', '1', '1'], seq!['0', '0', '1'], seq!['1', '1', '1']])
    } else if ch == '+' {
        Some(seq![seq!['0', '0', '0'], seq!['0', '1', '0'], seq!['1', '1', '1'], seq!['0', '1', '0'], seq!['0', '0', '0']])
    } else {
        None
    }
}

pub open spec fn glyph_rows_view(rows: [&'static str; 5]) -> Seq<Seq<char>> {
    rows@.map_values(|row: &'static str| row@)
}

/// The rows of the glyph for `ch`, where the font has one.
pub fn badge_glyph(ch: char) -> (res: Option<[&'static str; 5]>)
    ensures
        match res {
            Some(rows) => glyph_spec(ch) == Some(glyph_rows_view(rows)),
            None => glyph_spec(ch) is None,
        },
{
    proof {
        reveal_strlit("111");
        reveal_strlit("101");
        reveal_strlit("010");
        reveal_strlit("110");
        reveal_strlit("001");
        reveal_strlit("100");
        reveal_strlit("000");
        assert("111"@ =~= seq!['1', '1', '1']);
        assert("101"@ =~= seq!['1', '0', '1']);
        assert("010"@ =~= seq!['0', '1', '0']);
        assert("110"@ =~= seq!['1', '1', '0']);
        assert("001"@ =~= seq!['0', '0', '1']);
        assert("100"@ =~= seq!['1', '0', '0']);
        assert("000"@ =~= seq!['0', '0', '0']);
    }
    let res = match ch {
        '0' => Some(["111", "101", "101", "101", "111"]),
        '1' => Some(["010", "110", "010", "010", "111"]),
        '2' => Some(["111", "001", "111", "100", "111"]),
        '3' => Some(["111", "001", "111", "001", "111"]),
        '4' => Some(["101", "101", "111", "001", "001"]),
        '5' => Some(["111", "100", "111", "001", "111"]),
        '6' => Some(["111", "100", "111", "101", "111"]),
        '7' => Some(["111", "001", "001", "010", "010"]),
        '8' => Some(["111", "101", "111", "101", "111"]),
        '9' => Some(["111", "101", "111", "001", "111"]),
        '+' => Some(["000", "010", "111", "010", "000"]),
        _ => None,
    };
    proof {
        if let Some(rows) = res {
            assert(glyph_rows_view(rows) =~= glyph_spec(ch)->0);
        }
    }
    res
}

/// Whether pixel (x, y) lies in the rectangle at (rect_x, rect_y) of size
/// w by h with corners rounded to radius r, the rectangle's bounds aside:
/// only in the four r by r corner squares is a pixel tested, against the
/// circle of radius r around the corner's centre.
pub open spec fn in_rounded_rect_spec(x: int, y: int, rect_x: int, rect_y: int, w: int, h: int, r: int) -> bool {
    if r == 0 {
        true
    } else {
        let lx = rect_x + r;
        let ly = rect_y + r;
        let rx = rect_x + w - r - 1;
        let ry = rect_y + h - r - 1;
        if x < lx && y < ly {
            (x - lx) * (x - lx) + (y - ly) * (y - ly) <= r * r
        } else if x > rx && y < ly {
            (x - rx) * (x - rx) + (y - ly) * (y - ly) <= r * r
        } else if x < lx && y > ry {
            (x - lx) * (x - lx) + (y - ry) * (y - ry) <= r * r
        } else if x > rx && y > ry {
            (x - rx) * (x - rx) + (y - ry) * (y - ry) <= r * r
        } else {
            true
        }
    }
}

/// Coordinates small enough that the geometry below cannot overflow.
pub open spec fn small(v: int) -> bool {
    -4096 <= v <= 4096
}

proof fn lemma_square_bound(d: int)
    requires
        -20000 <= d <= 20000,
    ensures
        0 <= d * d <= 400_000_000,
{
    assert(0 <= d * d <= 400_000_000) by (nonlinear_arith)
        requires
            -20000 <= d <= 20000,
    ;
}

fn corner_test(dx: i32, dy: i32, r: i32) -> (res: bool)
    requires
        -20000 <= dx <= 20000,
        -20000 <= dy <= 20000,
        -20000 <= r <= 20000,
    ensures
        res == (dx * dx + dy * dy <= r * r),
{
    proof {
        lemma_square_bound(dx as int);
        lemma_square_bound(dy as int);
        lemma_square_bound(r as int);
    }
    dx * dx + dy * dy <= r * r
}

/// Whether pixel (x, y) lies inside the rounded rectangle's outline (see
/// `in_rounded_rect_spec`).
fn in_rounded_rect(x: i32, y: i32, rect_x: i32, rect_y: i32, w: i32, h: i32, r: i32) -> (res: bool)
    requires
        small(x as int),
        small(y as int),
        small(rect_x as int),
        small(rect_y as int),
        small(w as int),
        small(h as int),
        small(r as int),
    ensures
        res == in_rounded_rect_spec(x as int, y as int, rect_x as int, rect_y as int, w as int, h as int, r as int),
{
    if r == 0 {
        return true;
    }
    let lx = rect_x + r;
    let ly = rect_y + r;
    let rx = rect_x + w - r - 1;
    let ry = rect_y + h - r - 1;
    if x < lx && y < ly {
        corner_test(x - lx, y - ly, r)
    } else if x > rx && y < ly {
        corner_test(x - rx, y - ly, r)
    } else if x < lx && y > ry {
        corner_test(x - lx, y - ry, r)
    } else if x > rx && y > ry {
        corner_test(x - rx, y - ry, r)
    } else {
        true
    }
}

/// Whether (x, y) is a pixel of the badge, which is 16 by 16 pixels.
pub open spec fn on_badge(x: int, y: int) -> bool {
    0 <= x < 16 && 0 <= y < 16
}

/// The colour of pixel (x, y) of an image held row by row.
pub open spec fn pixel_at(img: Seq<Color>, x: int, y: int) -> Color {
    img[y * 16 + x]
}

/// Covers pixel (px, py) with an opaque colour; a position off the image
/// is ignored. Blending an opaque colour over a pixel gives that colour,
/// which is all the badges need (blending a translucent colour is
/// floating-point arithmetic, which this library does not do).
fn blend_pixel(pixels: &mut Vec<Color>, px: i32, py: i32, color: Color)
    requires
        old(pixels)@.len() == 256,
        color.a == 255,
    ensures
        final(pixels)@.len() == 256,
        forall|x: int, y: int|
            on_badge(x, y) ==> #[trigger] pixel_at(final(pixels)@, x, y) == if x == px && y == py {
                color
            } else {
                pixel_at(old(pixels)@, x, y)
            },
{
    if px < 0 || py >= 16 || py < 0 {
        return;
    }
    if px >= 16 {
        return;
    }
    let index: usize = (py as usize) * 16 + (px as usize);
    pixels.set(index, color);
}

/// The radius actually used for a rectangle: at least 0 and at most half
/// of either side.
pub open spec fn rect_radius(r: int, w: int, h: int) -> int {
    let r0 = if r > 0 { r } else { 0 };
    let r1 = if r0 > w / 2 { w / 2 } else { r0 };
    if r1 > h / 2 { h / 2 } else { r1 }
}

/// Whether drawing the rounded rectangle covers pixel (qx, qy).
pub open spec fn rect_paints(x: int, y: int, w: int, h: int, r: int, qx: int, qy: int) -> bool {
    &&& x <= qx < x + w
    &&& y <= qy < y + h
    &&& in_rounded_rect_spec(qx, qy, x, y, w, h, rect_radius(r, w, h))
}

/// Draws a filled rectangle with rounded corners.
fn draw_rect(pixels: &mut Vec<Color>, x: i32, y: i32, w: i32, h: i32, r: i32, color: Color)
    requires
        old(pixels)@.len() == 256,
        color.a == 255,
        -2048 <= x <= 2048,
        -2048 <= y <= 2048,
        0 <= w <= 2048,
        0 <= h <= 2048,
        -2048 <= r <= 2048,
    ensures
        final(pixels)@.len() == 256,
        forall|qx: int, qy: int|
            on_badge(qx, qy) ==> #[trigger] pixel_at(final(pixels)@, qx, qy) == if rect_paints(
                x as int,
                y as int,
                w as int,
                h as int,
                r as int,
                qx,
                qy,
            ) {
                color
            } else {
                pixel_at(old(pixels)@, qx, qy)
            },
{
    let ghost start = pixels@;
    let mut radius: i32 = if r > 0 { r } else { 0 };
    if radius > w / 2 {
        radius = w / 2;
    }
    if radius > h / 2 {
        radius = h / 2;
    }
    assert(radius == rect_radius(r as int, w as int, h as int));
    let mut py: i32 = y;
    while py < y + h
        invariant
            y <= py <= y + h,
            pixels@.len() == 256,
            color.a == 255,
            -2048 <= x <= 2048,
            -2048 <= y <= 2048,
            0 <= w <= 2048,
            0 <= h <= 2048,
            radius == rect_radius(r as int, w as int, h as int),
            0 <= radius <= 2048,
            forall|qx: int, qy: int|
                on_badge(qx, qy) ==> #[trigger] pixel_at(pixels@, qx, qy) == if rect_paints(
                    x as int,
                    y as int,
                    w as int,
                    h as int,
                    r as int,
                    qx,
                    qy,
                ) && qy < py {
                    color
                } else {
                    pixel_at(start, qx, qy)
                },
        decreases y + h - py,
    {
        let mut px: i32 = x;
        while px < x + w
            invariant
                x <= px <= x + w,
                y <= py < y + h,
                pixels@.len() == 256,
                color.a == 255,
                -2048 <= x <= 2048,
                -2048 <= y <= 2048,
                0 <= w <= 2048,
                0 <= h <= 2048,
                radius == rect_radius(r as int, w as int, h as int),
                0 <= radius <= 2048,
                forall|qx: int, qy: int|
                    on_badge(qx, qy) ==> #[trigger] pixel_at(pixels@, qx, qy) == if rect_paints(
                        x as int,
                        y as int,
                        w as int,
                        h as int,
                        r as int,
                        qx,
                        qy,
                    ) && (qy < py || (qy == py && qx < px)) {
                        color
                    } else {
                        pixel_at(start, qx, qy)
                    },
            decreases x + w - px,
        {
            if in_rounded_rect(px, py, x, y, w, h, radius) {
                blend_pixel(pixels, px, py, color);
            }
            px = px + 1;
        }
        py = py + 1;
    }
}

/// Whether the glyph for `ch` has a lit pixel at (row, col).
pub open spec fn glyph_bit(ch: char, row: int, col: int) -> bool {
    match glyph_spec(ch) {
        Some(rows) => rows[row][col] == '1',
        None => false,
    }
}

/// Whether pixel (qx, qy) lies in the scale by scale block that stands for
/// the font pixel (row, col) of a glyph drawn at (ox, oy).
pub open spec fn in_block(qx: int, qy: int, ox: int, oy: int, scale: int, row: int, col: int) -> bool {
    &&& ox + col * scale <= qx < ox + col * scale + scale
    &&& oy + row * scale <= qy < oy + row * scale + scale
}

/// Whether one of the lit font pixels before (r, c), in reading order,
/// covers pixel (qx, qy).
pub open spec fn glyph_paints_before(
    ch: char,
    ox: int,
    oy: int,
    scale: int,
    qx: int,
    qy: int,
    r: int,
    c: int,
) -> bool {
    exists|row: int, col: int|
        #![trigger in_block(qx, qy, ox, oy, scale, row, col)]
        0 <= row < 5 && 0 <= col < 3 && (row < r || (row == r && col < c)) && glyph_bit(ch, row, col)
            && in_block(qx, qy, ox, oy, scale, row, col)
}

/// Whether drawing the glyph for `ch` at (ox, oy), each font pixel scale
/// by scale screen pixels, covers pixel (qx, qy).
pub open spec fn glyph_paints(ch: char, ox: int, oy: int, scale: int, qx: int, qy: int) -> bool {
    glyph_paints_before(ch, ox, oy, scale, qx, qy, 5, 0)
}

/// Fills the scale by scale block whose top left pixel is (x0, y0).
fn fill_block(pixels: &mut Vec<Color>, x0: i32, y0: i32, scale: i32, color: Color)
    requires
        old(pixels)@.len() == 256,
        color.a == 255,
        -8192 <= x0 <= 8192,
        -8192 <= y0 <= 8192,
        1 <= scale <= 16,
    ensures
        final(pixels)@.len() == 256,
        forall|qx: int, qy: int|
            on_badge(qx, qy) ==> #[trigger] pixel_at(final(pixels)@, qx, qy) == if x0 <= qx < x0
                + scale && y0 <= qy < y0 + scale {
                color
            } else {
                pixel_at(old(pixels)@, qx, qy)
            },
{
    let ghost start = pixels@;
    let mut sy: i32 = 0;
    while sy < scale
        invariant
            0 <= sy <= scale,
            1 <= scale <= 16,
            -8192 <= x0 <= 8192,
            -8192 <= y0 <= 8192,
            pixels@.len() == 256,
            color.a == 255,
            forall|qx: int, qy: int|
                on_badge(qx, qy) ==> #[trigger] pixel_at(pixels@, qx, qy) == if x0 <= qx < x0
                    + scale && y0 <= qy < y0 + sy {
                    color
                } else {
                    pixel_at(start, qx, qy)
                },
        decreases scale - sy,
    {
        let mut sx: i32 = 0;
        while sx < scale
            invariant
                0 <= sx <= scale,
                0 <= sy < scale,
                1 <= scale <= 16,
                -8192 <= x0 <= 8192,
                -8192 <= y0 <= 8192,
                pixels@.len() == 256,
                color.a == 255,
                forall|qx: int, qy: int|
                    on_badge(qx, qy) ==> #[trigger] pixel_at(pixels@, qx, qy) == if (x0 <= qx < x0
                        + scale && y0 <= qy < y0 + sy) || (qy == y0 + sy && x0 <= qx < x0 + sx) {
                        color
                    } else {
                        pixel_at(start, qx, qy)
                    },
            decreases scale - sx,
        {
            blend_pixel(pixels, x0 + sx, y0 + sy, color);
            sx = sx + 1;
        }
        sy = sy + 1;
    }
}

/// Draws the glyph for `ch` with its top left corner at (ox, oy), each font
/// pixel as a scale by scale block; a character the font lacks draws
/// nothing.
fn draw_glyph(pixels: &mut Vec<Color>, ox: i32, oy: i32, ch: char, scale: i32, color: Color)
    requires
        old(pixels)@.len() == 256,
        color.a == 255,
        -4096 <= ox <= 4096,
        -4096 <= oy <= 4096,
        1 <= scale <= 16,
    ensures
        final(pixels)@.len() == 256,
        forall|qx: int, qy: int|
            on_badge(qx, qy) ==> #[trigger] pixel_at(final(pixels)@, qx, qy) == if glyph_paints(
                ch,
                ox as int,
                oy as int,
                scale as int,
                qx,
                qy,
            ) {
                color
            } else {
                pixel_at(old(pixels)@, qx, qy)
            },
{
    let ghost start = pixels@;
    let glyph = match badge_glyph(ch) {
        Some(rows) => rows,
        None => {
            return;
        },
    };
    let ghost rows_spec = glyph_spec(ch)->0;
    assert(rows_spec.len() == 5);
    let mut row_index: usize = 0;
    while row_index < 5
        invariant
            0 <= row_index <= 5,
            glyph_spec(ch) == Some(glyph_rows_view(glyph)),
            rows_spec == glyph_rows_view(glyph),
            pixels@.len() == 256,
            color.a == 255,
            -4096 <= ox <= 4096,
            -4096 <= oy <= 4096,
            1 <= scale <= 16,
            forall|qx: int, qy: int|
                on_badge(qx, qy) ==> #[trigger] pixel_at(pixels@, qx, qy) == if glyph_paints_before(
                    ch,
                    ox as int,
                    oy as int,
                    scale as int,
                    qx,
                    qy,
                    row_index as int,
                    0,
                ) {
                    color
                } else {
                    pixel_at(start, qx, qy)
                },
        decreases 5 - row_index,
    {
        let row: &str = glyph[row_index];
        assert(row@ == rows_spec[row_index as int]);
        let width = row.unicode_len();
        assert(width == 3);
        let mut col_index: usize = 0;
        while col_index < width
            invariant
                0 <= row_index < 5,
                0 <= col_index <= width,
                width == 3,
                row@ == rows_spec[row_index as int],
                glyph_spec(ch) == Some(glyph_rows_view(glyph)),
                rows_spec == glyph_rows_view(glyph),
                pixels@.len() == 256,
                color.a == 255,
                -4096 <= ox <= 4096,
                -4096 <= oy <= 4096,
                1 <= scale <= 16,
                forall|qx: int, qy: int|
                    on_badge(qx, qy) ==> #[trigger] pixel_at(pixels@, qx, qy) == if glyph_paints_before(
                        ch,
                        ox as int,
                        oy as int,
                        scale as int,
                        qx,
                        qy,
                        row_index as int,
                        col_index as int,
                    ) {
                        color
                    } else {
                        pixel_at(start, qx, qy)
                    },
            decreases width - col_index,
        {
            let bit = row.get_char(col_index);
            let ghost before = pixels@;
            let ri = row_index as i32;
            let ci = col_index as i32;
            assert(0 <= ci * scale <= 32 && 0 <= ri * scale <= 64) by (nonlinear_arith)
                requires
                    0 <= ci < 3,
                    0 <= ri < 5,
                    1 <= scale <= 16,
            ;
            if bit == '1' {
                fill_block(pixels, ox + ci * scale, oy + ri * scale, scale, color);
            }
            assert forall|qx: int, qy: int| on_badge(qx, qy) implies #[trigger] pixel_at(
                pixels@,
                qx,
                qy,
            ) == if glyph_paints_before(
                ch,
                ox as int,
                oy as int,
                scale as int,
                qx,
                qy,
                row_index as int,
                col_index + 1,
            ) {
                color
            } else {
                pixel_at(start, qx, qy)
            } by {
                let here = glyph_bit(ch, row_index as int, col_index as int) && in_block(
                    qx,
                    qy,
                    ox as int,
                    oy as int,
                    scale as int,
                    row_index as int,
                    col_index as int,
                );
                assert(glyph_bit(ch, row_index as int, col_index as int) == (bit == '1'));
                if here {
                    assert(glyph_paints_before(
                        ch,
                        ox as int,
                        oy as int,
                        scale as int,
                        qx,
                        qy,
                        row_index as int,
                        col_index + 1,
                    ));
                }
                if glyph_paints_before(
                    ch,
                    ox as int,
                    oy as int,
                    scale as int,
                    qx,
                    qy,
                    row_index as int,
                    col_index + 1,
                ) && !here {
                    let (wr, wc) = choose|wr: int, wc: int|
                        0 <= wr < 5 && 0 <= wc < 3 && (wr < row_index || (wr == row_index && wc
                            < col_index + 1)) && glyph_bit(ch, wr, wc) && in_block(
                            qx,
                            qy,
                            ox as int,
                            oy as int,
                            scale as int,
                            wr,
                            wc,
                        );
                    assert(in_block(qx, qy, ox as int, oy as int, scale as int, wr, wc));
                    assert(glyph_paints_before(
                        ch,
                        ox as int,
                        oy as int,
                        scale as int,
                        qx,
                        qy,
                        row_index as int,
                        col_index as int,
                    ));
                }
            }
            col_index = col_index + 1;
        }
        assert forall|qx: int, qy: int|
            glyph_paints_before(
                ch,
                ox as int,
                oy as int,
                scale as int,
                qx,
                qy,
                row_index as int,
                3,
            ) == glyph_paints_before(
                ch,
                ox as int,
                oy as int,
                scale as int,
                qx,
                qy,
                row_index + 1,
                0,
            ) by {
            if glyph_paints_before(
                ch,
                ox as int,
                oy as int,
                scale as int,
                qx,
                qy,
                row_index + 1,
                0,
            ) {
                let (wr, wc) = choose|wr: int, wc: int|
                    0 <= wr < 5 && 0 <= wc < 3 && (wr < row_index + 1 || (wr == row_index + 1
                        && wc < 0)) && glyph_bit(ch, wr, wc) && in_block(
                        qx,
                        qy,
                        ox as int,
                        oy as int,
                        scale as int,
                        wr,
                        wc,
                    );
                assert(in_block(qx, qy, ox as int, oy as int, scale as int, wr, wc));
            }
            if glyph_paints_before(
                ch,
                ox as int,
                oy as int,
                scale as int,
                qx,
                qy,
                row_index as int,
                3,
            ) {
                let (wr, wc) = choose|wr: int, wc: int|
                    0 <= wr < 5 && 0 <= wc < 3 && (wr < row_index || (wr == row_index && wc < 3))
                        && glyph_bit(ch, wr, wc) && in_block(
                        qx,
                        qy,
                        ox as int,
                        oy as int,
                        scale as int,
                        wr,
                        wc,
                    );
                assert(in_block(qx, qy, ox as int, oy as int, scale as int, wr, wc));
            }
        }
        row_index = row_index + 1;
    }
}

/// The colour of pixel (x, y) of the badge for `count`: for a negative
/// count a red disc (a rounded square of radius 7) at (1, 1); for 0 to 9 a
/// red 14 by 14 lozenge at (1, 1) with the digit in white at (5, 3); above
/// 9 a 17 by 14 lozenge at (0, 1) with "9" at (2, 3) and "+" at (9, 3). The
/// font is drawn at two screen pixels per font pixel; the rest of the
/// image is transparent.
pub open spec fn badge_pixel(count: i32, x: int, y: int) -> Color {
    if count < 0 {
        if rect_paints(1, 1, 14, 14, 7, x, y) {
            red_spec()
        } else {
            transparent_spec()
        }
    } else if count <= 9 {
        if glyph_paints((48 + count) as char, 5, 3, 2, x, y) {
            white_spec()
        } else if rect_paints(1, 1, 14, 14, 7, x, y) {
            red_spec()
        } else {
            transparent_spec()
        }
    } else {
        if glyph_paints('9', 2, 3, 2, x, y) || glyph_paints('+', 9, 3, 2, x, y) {
            white_spec()
        } else if rect_paints(0, 1, 17, 14, 7, x, y) {
            red_spec()
        } else {
            transparent_spec()
        }
    }
}

/// Channel `k` (red, green, blue, alpha) of a colour.
pub open spec fn channel(c: Color, k: int) -> u8 {
    if k == 0 {
        c.r
    } else if k == 1 {
        c.g
    } else if k == 2 {
        c.b
    } else {
        c.a
    }
}

/// The badge for `count` as RGBA bytes, row by row from the top.
pub open spec fn badge_rgba_spec(count: i32) -> Seq<u8> {
    Seq::new(1024, |i: int| channel(badge_pixel(count, (i / 4) % 16, (i / 4) / 16), i % 4))
}

/// Draws the badge for `count` into 16 by 16 RGBA pixels.
pub fn render_badge_rgba(count: i32) -> (res: Vec<u8>)
    ensures
        res@ == badge_rgba_spec(count),
{
    let mut pixels: Vec<Color> = Vec::new();
    while pixels.len() < 256
        invariant
            pixels@.len() <= 256,
            forall|i: int| 0 <= i < pixels@.len() ==> pixels@[i] == transparent_spec(),
        decreases 256 - pixels@.len(),
    {
        pixels.push(Color { r: 0, g: 0, b: 0, a: 0 });
    }
    let ghost blank = pixels@;
    let label = badge_label(count);
    let red = badge_red();
    let white = badge_white();
    if count < 0 {
        draw_rect(&mut pixels, 1, 1, 14, 14, 7, red);
    } else {
        let scale: i32 = 2;
        let n: i32 = label.len() as i32;
        let spacing: i32 = if label.len() > 1 { 1 } else { 0 };
        let glyph_w: i32 = 3 * scale;
        let glyph_h: i32 = 5 * scale;
        let label_w: i32 = n * glyph_w + (n - 1) * spacing;
        let badge_h: i32 = 14;
        let badge_w: i32 = if label_w + 4 > badge_h { label_w + 4 } else { badge_h };
        let centred_x: i32 = (16 - badge_w) / 2;
        let badge_x: i32 = if centred_x > 0 { centred_x } else { 0 };
        let centred_y: i32 = (16 - badge_h) / 2;
        let badge_y: i32 = if centred_y > 0 { centred_y } else { 0 };
        draw_rect(&mut pixels, badge_x, badge_y, badge_w, badge_h, badge_h / 2, red);
        let ghost with_rect = pixels@;
        let text_x: i32 = badge_x + (badge_w - label_w) / 2;
        let text_y: i32 = badge_y + (badge_h - glyph_h) / 2;
        if count <= 9 {
            assert(badge_x == 1 && badge_w == 14 && text_x == 5 && text_y == 3);
        } else {
            assert(badge_x == 0 && badge_w == 17 && text_x == 2 && text_y == 3 && spacing == 1);
        }
        let mut index: usize = 0;
        while index < label.len()
            invariant
                0 <= index <= label@.len(),
                label@ == badge_label_spec(count),
                count >= 0,
                pixels@.len() == 256,
                white == white_spec(),
                scale == 2,
                glyph_w == 6,
                spacing == (if label@.len() > 1 { 1int } else { 0 }),
                text_x == (if count <= 9 { 5int } else { 2 }),
                text_y == 3,
                forall|qx: int, qy: int|
                    on_badge(qx, qy) ==> #[trigger] pixel_at(pixels@, qx, qy) == if (index > 0
                        && glyph_paints(label@[0], text_x as int, 3, 2, qx, qy)) || (index > 1
                        && glyph_paints(label@[1], text_x + 6 + spacing, 3, 2, qx, qy)) {
                        white_spec()
                    } else {
                        pixel_at(with_rect, qx, qy)
                    },
            decreases label@.len() - index,
        {
            let ox: i32 = text_x + (index as i32) * (glyph_w + spacing);
            draw_glyph(&mut pixels, ox, text_y, label[index], scale, white);
            index = index + 1;
        }
    }
    assert forall|qx: int, qy: int| on_badge(qx, qy) implies #[trigger] pixel_at(pixels@, qx, qy)
        == badge_pixel(count, qx, qy) by {
        assert(pixel_at(blank, qx, qy) == transparent_spec());
    }
    let mut rgba: Vec<u8> = Vec::new();
    let mut k: usize = 0;
    while k < 256
        invariant
            0 <= k <= 256,
            pixels@.len() == 256,
            rgba@.len() == 4 * k,
            forall|j: int, c: int|
                0 <= j < k && 0 <= c < 4 ==> #[trigger] rgba@[4 * j + c] == channel(pixels@[j], c),
        decreases 256 - k,
    {
        let p = pixels[k];
        rgba.push(p.r);
        rgba.push(p.g);
        rgba.push(p.b);
        rgba.push(p.a);
        k = k + 1;
    }
    assert forall|i: int| 0 <= i < 1024 implies rgba@[i] == badge_rgba_spec(count)[i] by {
        let j = i / 4;
        let c = i % 4;
        assert(i == 4 * j + c);
        assert(j == (j / 16) * 16 + j % 16);
        assert(on_badge(j % 16, j / 16));
        assert(pixel_at(pixels@, j % 16, j / 16) == pixels@[j]);
        assert(rgba@[4 * j + c] == channel(pixels@[j], c));
    }
    assert(rgba@ =~= badge_rgba_spec(count));
    rgba
}

/// What the `image` crate's PNG encoder makes of 8-bit RGBA pixels of the
/// given size: the PNG file, or `None` where it reports an error.
pub uninterp spec fn png_rgba8(rgba: Seq<u8>, width: u32, height: u32) -> Option<Seq<u8>>;

pub open spec fn bytes_view(v: Option<Vec<u8>>) -> Option<Seq<u8>> {
    match v {
        Some(b) => Some(b@),
        None => None,
    }
}

/// Encodes 8-bit RGBA pixels as PNG with `image::write_buffer_with_format`
/// (`ColorType::Rgba8`, `ImageFormat::Png`) into memory. Trusted: the result
/// is what `png_rgba8` names for the arguments; the bytes of the PNG file
/// and when the encoder fails are not stated. The encoder asserts that the
/// buffer holds exactly width * height pixels, hence the requirement.
#[verifier::external_body]
fn encode_png_rgba8(rgba: &[u8], width: u32, height: u32) -> (res: Option<Vec<u8>>)
    requires
        rgba@.len() == width * height * 4,
    ensures
        bytes_view(res) == png_rgba8(rgba@, width, height),
{
    let mut png_bytes: Vec<u8> = Vec::new();
    let mut cursor = std::io::Cursor::new(&mut png_bytes);
    match image::write_buffer_with_format(
        &mut cursor,
        rgba,
        width,
        height,
        image::ColorType::Rgba8,
        image::ImageFormat::Png,
    ) {
        Ok(()) => Some(png_bytes),
        Err(_) => None,
    }
}

/// The badge for `count` as a PNG image, or `None` if the encoder fails.
pub fn render_badge_png(count: i32) -> (res: Option<Vec<u8>>)
    ensures
        bytes_view(res) == png_rgba8(badge_rgba_spec(count), 16, 16),
{
    let rgba = render_badge_rgba(count);
    encode_png_rgba8(rgba.as_slice(), 16, 16)
}

/// The count whose badge stands for an overlay: -1 for the unread dot, the
/// digit itself, and 10 for "9+".
pub open spec fn overlay_count(icon: BadgeIcon) -> i32 {
    match icon {
        BadgeIcon::Unread => -1i32,
        BadgeIcon::Digit(d) => d as i32,
        BadgeIcon::NinePlus => 10i32,
    }
}

/// The PNG image of an overlay.
pub fn overlay_png(icon: BadgeIcon) -> (res: Option<Vec<u8>>)
    ensures
        bytes_view(res) == png_rgba8(badge_rgba_spec(overlay_count(icon)), 16, 16),
{
    let count: i32 = match icon {
        BadgeIcon::Unread => -1,
        BadgeIcon::Digit(d) => d as i32,
        BadgeIcon::NinePlus => 10,
    };
    render_badge_png(count)
}

/// The overlay for a digit is the badge of that very count: for 1 to 9 the
/// image is the one drawn for the count itself, whose label is the single
/// decimal digit of the count. The dot is the badge of a negative count
/// (no label), and "9+" the badge of a count above nine.
pub proof fn lemma_overlay_shows_its_own_count(d: u8)
    requires
        1 <= d <= 9,
    ensures
        overlay_count(BadgeIcon::Digit(d)) as int == d as int,
        badge_label_spec(overlay_count(BadgeIcon::Digit(d))) == seq![('0' as u32 + d) as char],
        badge_label_spec(overlay_count(BadgeIcon::Unread)) == Seq::<char>::empty(),
        badge_label_spec(overlay_count(BadgeIcon::NinePlus)) == seq!['9', '+'],
        png_rgba8(badge_rgba_spec(overlay_count(BadgeIcon::Digit(d))), 16, 16) == png_rgba8(
            badge_rgba_spec(d as i32),
            16,
            16,
        ),
{
}

} // verus!
