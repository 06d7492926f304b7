use tauricord::badge::{badge_glyph, badge_label, overlay_png, render_badge_png, render_badge_rgba};
use tauricord::platform::BadgeIcon;

// An independent rendering of the badges, pixel by pixel with floating-point
// alpha blending, to hold the verified renderer against.
const SIZE: usize = 16;
const RED: [u8; 4] = [0xED, 0x42, 0x45, 0xFF];
const WHITE: [u8; 4] = [0xFF, 0xFF, 0xFF, 0xFF];

fn label(count: i32) -> Vec<char> {
    if count < 0 {
        Vec::new()
    } else if count > 9 {
        vec!['9', '+']
    } else {
        count.to_string().chars().collect()
    }
}

fn glyph(ch: char) -> Option<[&'static str; 5]> {
    match ch {
        '0' => Some(["111", "101", "101", "101", "111"]),
        '1' => Some(["010", "110", "010", "010", "111"]),
        '2' => Some(["111", "001", "111", "100", "111"]),
        '3' => Some(["111", "001", "111", "001", "111"]),
        '4' => Some(["101", "101", "111", "001", "001"]),
        '5' => Some(["111", "100", "111", "001", "111"]),
        '6' => Some(["111", "100", "111", "101", "111"]),
        '7' => Some(["111", "001", "001", "010", "010"]),
        '8' => Some(["111", "101", "111", "101", "111"]),
        '9' => Some(["111", "101", "111", "001", "111"]),
        '+' => Some(["000", "010", "111", "010", "000"]),
        _ => None,
    }
}

fn in_rounded(x: i32, y: i32, rx0: i32, ry0: i32, w: i32, h: i32, r: i32) -> bool {
    if r == 0 {
        return true;
    }
    let (lx, ly) = (rx0 + r, ry0 + r);
    let (rx, ry) = (rx0 + w - r - 1, ry0 + h - r - 1);
    let corner = |cx: i32, cy: i32| (x - cx) * (x - cx) + (y - cy) * (y - cy) <= r * r;
    if x < lx && y < ly {
        corner(lx, ly)
    } else if x > rx && y < ly {
        corner(rx, ly)
    } else if x < lx && y > ry {
        corner(lx, ry)
    } else if x > rx && y > ry {
        corner(rx, ry)
    } else {
        true
    }
}

fn blend(rgba: &mut [u8], px: i32, py: i32, color: [u8; 4]) {
    if px < 0 || py < 0 || px >= SIZE as i32 || py >= SIZE as i32 {
        return;
    }
    let index = (py as usize * SIZE + px as usize) * 4;
    let alpha = color[3] as f32 / 255.0;
    let inverse = 1.0 - alpha;
    for c in 0..3 {
        rgba[index + c] = (color[c] as f32 * alpha + rgba[index + c] as f32 * inverse).round() as u8;
    }
    rgba[index + 3] = (color[3] as f32 + rgba[index + 3] as f32 * inverse).round().clamp(0.0, 255.0) as u8;
}

fn rect(rgba: &mut [u8], x: i32, y: i32, w: i32, h: i32, r: i32, color: [u8; 4]) {
    let radius = r.max(0).min(w / 2).min(h / 2);
    for py in y..(y + h) {
        for px in x..(x + w) {
            if in_rounded(px, py, x, y, w, h, radius) {
                blend(rgba, px, py, color);
            }
        }
    }
}

fn draw(rgba: &mut [u8], ox: i32, oy: i32, ch: char, scale: i32, color: [u8; 4]) {
    let Some(rows) = glyph(ch) else { return };
    for (ri, row) in rows.iter().enumerate() {
        for (ci, bit) in row.chars().enumerate() {
            if bit != '1' {
                continue;
            }
            for sy in 0..scale {
                for sx in 0..scale {
                    blend(rgba, ox + ci as i32 * scale + sx, oy + ri as i32 * scale + sy, color);
                }
            }
        }
    }
}

fn reference(count: i32) -> Vec<u8> {
    let mut rgba = vec![0u8; SIZE * SIZE * 4];
    let text = label(count);
    if count < 0 {
        rect(&mut rgba, 1, 1, 14, 14, 7, RED);
    } else {
        let scale = 2;
        let spacing = if text.len() > 1 { 1 } else { 0 };
        let (gw, gh) = (3 * scale, 5 * scale);
        let lw = text.len() as i32 * gw + text.len().saturating_sub(1) as i32 * spacing;
        let bh = 14;
        let bw = (lw + 4).max(bh);
        let bx = ((SIZE as i32 - bw) / 2).max(0);
        let by = ((SIZE as i32 - bh) / 2).max(0);
        rect(&mut rgba, bx, by, bw, bh, bh / 2, RED);
        let tx = bx + (bw - lw) / 2;
        let ty = by + (bh - gh) / 2;
        for (i, ch) in text.iter().enumerate() {
            draw(&mut rgba, tx + i as i32 * (gw + spacing), ty, *ch, scale, WHITE);
        }
    }
    rgba
}

#[test]
fn labels() {
    assert_eq!(badge_label(-5), Vec::<char>::new());
    assert_eq!(badge_label(0), vec!['0']);
    assert_eq!(badge_label(7), vec!['7']);
    assert_eq!(badge_label(10), vec!['9', '+']);
    assert_eq!(badge_label(i32::MAX), vec!['9', '+']);
}

#[test]
fn glyphs() {
    assert_eq!(badge_glyph('4'), Some(["101", "101", "111", "001", "001"]));
    assert_eq!(badge_glyph('+'), Some(["000", "010", "111", "010", "000"]));
    assert_eq!(badge_glyph('x'), None);
}

#[test]
fn rendering_matches_the_reference_for_every_count() {
    for count in -3..=14 {
        assert_eq!(render_badge_rgba(count), reference(count), "count {count}");
    }
    for count in [i32::MIN, i32::MAX, 99, 1000] {
        assert_eq!(render_badge_rgba(count), reference(count), "count {count}");
    }
}

#[test]
fn unread_dot_shape() {
    let rgba = render_badge_rgba(-1);
    let pixel = |x: usize, y: usize| &rgba[(y * 16 + x) * 4..(y * 16 + x) * 4 + 4];
    assert_eq!(pixel(0, 0), &[0, 0, 0, 0]);
    assert_eq!(pixel(1, 1), &[0, 0, 0, 0]);
    assert_eq!(pixel(8, 8), &RED);
    assert_eq!(pixel(8, 1), &[0, 0, 0, 0]);
    assert_eq!(pixel(8, 2), &RED);
    assert_eq!(pixel(14, 8), &[0, 0, 0, 0]);
    assert_eq!(pixel(13, 8), &RED);
}

#[test]
fn digit_pixels() {
    let rgba = render_badge_rgba(1);
    let pixel = |x: usize, y: usize| &rgba[(y * 16 + x) * 4..(y * 16 + x) * 4 + 4];
    // The "1" glyph's top row is "010": its lit block is at x = 7..9, y = 3..5.
    assert_eq!(pixel(7, 3), &WHITE);
    assert_eq!(pixel(8, 4), &WHITE);
    assert_eq!(pixel(5, 3), &RED);
    assert_eq!(pixel(0, 8), &[0, 0, 0, 0]);
}

#[test]
fn png_files_decode_to_the_rendered_pixels() {
    for count in [-1, 1, 5, 9, 10] {
        let png = render_badge_png(count).expect("encoding succeeds");
        assert_eq!(&png[..8], &[0x89, b'P', b'N', b'G', 0x0D, 0x0A, 0x1A, 0x0A]);
        let decoded = image::load_from_memory(&png).unwrap().to_rgba8();
        assert_eq!(decoded.width(), 16);
        assert_eq!(decoded.height(), 16);
        assert_eq!(decoded.into_raw(), reference(count));
    }
}

#[test]
fn overlay_images() {
    assert_eq!(overlay_png(BadgeIcon::Unread), render_badge_png(-1));
    assert_eq!(overlay_png(BadgeIcon::Digit(3)), render_badge_png(3));
    assert_eq!(overlay_png(BadgeIcon::NinePlus), render_badge_png(10));
    assert_ne!(overlay_png(BadgeIcon::Digit(3)), overlay_png(BadgeIcon::Digit(4)));
}
