use claudeminder::badge::{classify, generate_percentage_icon, glyph_index, glyph_mask, ColorTier, BADGE_SAMPLES};
use claudeminder::text::{badge_text, decimal_string, parse_u32};

const NORMAL: [u8; 4] = [40, 167, 69, 255];
const WARNING: [u8; 4] = [255, 193, 7, 255];
const CRITICAL: [u8; 4] = [220, 53, 69, 255];
const WHITE: [u8; 4] = [255, 255, 255, 255];
const CLEAR: [u8; 4] = [0, 0, 0, 0];

fn pixel(samples: &[u8], x: usize, y: usize) -> [u8; 4] {
    let i = (y * 22 + x) * 4;
    [samples[i], samples[i + 1], samples[i + 2], samples[i + 3]]
}

#[test]
fn tier_boundaries_are_exact() {
    assert_eq!(classify(0), ColorTier::Normal);
    assert_eq!(classify(59), ColorTier::Normal);
    assert_eq!(classify(60), ColorTier::Normal);
    assert_eq!(classify(61), ColorTier::Warning);
    assert_eq!(classify(80), ColorTier::Warning);
    assert_eq!(classify(81), ColorTier::Critical);
    assert_eq!(classify(100), ColorTier::Critical);
    assert_eq!(classify(255), ColorTier::Critical);
}

#[test]
fn disc_takes_the_tier_color() {
    assert_eq!(pixel(&generate_percentage_icon(60), 11, 3), NORMAL);
    assert_eq!(pixel(&generate_percentage_icon(61), 11, 3), WARNING);
    assert_eq!(pixel(&generate_percentage_icon(80), 11, 3), WARNING);
    assert_eq!(pixel(&generate_percentage_icon(81), 11, 3), CRITICAL);
}

#[test]
fn corners_and_margin_are_transparent() {
    let icon = generate_percentage_icon(42);
    assert_eq!(icon.len(), BADGE_SAMPLES);
    assert_eq!(icon.len(), 22 * 22 * 4);
    assert_eq!(pixel(&icon, 0, 0), CLEAR);
    assert_eq!(pixel(&icon, 21, 21), CLEAR);
    assert_eq!(pixel(&icon, 11, 0), CLEAR);
    assert_eq!(pixel(&icon, 11, 1), NORMAL);
    assert_eq!(pixel(&icon, 1, 11), NORMAL);
    assert_eq!(pixel(&icon, 0, 11), CLEAR);
    assert_eq!(pixel(&icon, 21, 11), CLEAR);
    assert_eq!(pixel(&icon, 11, 21), CLEAR);
    assert_eq!(pixel(&icon, 20, 11), NORMAL);
    assert_eq!(pixel(&icon, 11, 20), NORMAL);
}

#[test]
fn every_edge_pixel_is_transparent() {
    for p in [0u8, 5, 61, 85, 100, 255] {
        let icon = generate_percentage_icon(p);
        for k in 0..22 {
            assert_eq!(pixel(&icon, k, 0), CLEAR);
            assert_eq!(pixel(&icon, 0, k), CLEAR);
            assert_eq!(pixel(&icon, k, 21), CLEAR);
            assert_eq!(pixel(&icon, 21, k), CLEAR);
        }
    }
}

#[test]
fn disc_is_symmetric() {
    let icon = generate_percentage_icon(30);
    for y in 0..22 {
        for x in 0..22 {
            let a = pixel(&icon, x, y)[3];
            assert_eq!(a, pixel(&icon, 21 - x, y)[3]);
            assert_eq!(a, pixel(&icon, x, 21 - y)[3]);
        }
    }
}

#[test]
fn single_digit_is_centered() {
    // "5" starts at column 10, row 9; its first row is full, its second
    // has the left cell only.
    let icon = generate_percentage_icon(5);
    assert_eq!(pixel(&icon, 10, 9), WHITE);
    assert_eq!(pixel(&icon, 11, 9), WHITE);
    assert_eq!(pixel(&icon, 12, 9), WHITE);
    assert_eq!(pixel(&icon, 9, 9), NORMAL);
    assert_eq!(pixel(&icon, 13, 9), NORMAL);
    assert_eq!(pixel(&icon, 10, 10), WHITE);
    assert_eq!(pixel(&icon, 11, 10), NORMAL);
    assert_eq!(pixel(&icon, 12, 13), WHITE);
    assert_eq!(pixel(&icon, 10, 8), NORMAL);
    assert_eq!(pixel(&icon, 10, 14), NORMAL);
}

#[test]
fn two_digits_are_laid_out_with_spacing() {
    let icon = generate_percentage_icon(85);
    assert_eq!(pixel(&icon, 8, 9), WHITE);
    assert_eq!(pixel(&icon, 10, 9), WHITE);
    assert_eq!(pixel(&icon, 9, 10), CRITICAL);
    assert_eq!(pixel(&icon, 11, 9), CRITICAL);
    assert_eq!(pixel(&icon, 12, 9), WHITE);
    assert_eq!(pixel(&icon, 14, 9), WHITE);
    assert_eq!(pixel(&icon, 12, 10), WHITE);
    assert_eq!(pixel(&icon, 13, 10), CRITICAL);
    assert_eq!(pixel(&icon, 7, 9), CRITICAL);
    assert_eq!(pixel(&icon, 15, 9), CRITICAL);
}

#[test]
fn overflow_draws_the_exclamation_mark() {
    for p in [100u8, 150, 255] {
        let icon = generate_percentage_icon(p);
        assert_eq!(pixel(&icon, 11, 9), WHITE);
        assert_eq!(pixel(&icon, 10, 9), CRITICAL);
        assert_eq!(pixel(&icon, 12, 9), CRITICAL);
        assert_eq!(pixel(&icon, 11, 11), WHITE);
        assert_eq!(pixel(&icon, 11, 12), CRITICAL);
        assert_eq!(pixel(&icon, 11, 13), WHITE);
        let whites = (0..22 * 22).filter(|k| pixel(&icon, k % 22, k / 22) == WHITE).count();
        assert_eq!(whites, 4);
    }
}

#[test]
fn every_alpha_is_zero_or_full() {
    for p in 0..=255u8 {
        let icon = generate_percentage_icon(p);
        for k in 0..22 * 22 {
            let a = icon[k * 4 + 3];
            assert!(a == 0 || a == 255);
        }
    }
}

#[test]
fn rendering_twice_gives_the_same_bytes() {
    for p in [0u8, 7, 60, 61, 99, 100, 255] {
        assert_eq!(generate_percentage_icon(p), generate_percentage_icon(p));
    }
}

#[test]
fn white_pixel_count_matches_the_glyphs() {
    // "0" has 12 cells, "8" 13, so "80" draws 25.
    let icon = generate_percentage_icon(80);
    let whites = (0..22 * 22).filter(|k| pixel(&icon, k % 22, k / 22) == WHITE).count();
    assert_eq!(whites, 25);
}

#[test]
fn badge_text_has_no_leading_zero() {
    assert_eq!(badge_text(0), "0");
    assert_eq!(badge_text(7), "7");
    assert_eq!(badge_text(10), "10");
    assert_eq!(badge_text(42), "42");
    assert_eq!(badge_text(99), "99");
    assert_eq!(badge_text(100), "!");
    assert_eq!(badge_text(255), "!");
}

#[test]
fn decimal_string_matches_format() {
    for n in 0..=255u8 {
        assert_eq!(decimal_string(n), format!("{}", n));
    }
}

#[test]
fn glyph_table_lookups() {
    assert_eq!(glyph_index('0'), Some(0));
    assert_eq!(glyph_index('9'), Some(9));
    assert_eq!(glyph_index('!'), Some(10));
    assert_eq!(glyph_index('a'), None);
    assert_eq!(glyph_mask(1), 0b010_110_010_010_111);
    assert_eq!(glyph_mask(10), 0b010_010_010_000_010);
}

#[test]
fn parse_u32_follows_from_str() {
    assert_eq!(parse_u32("5"), Some(5));
    assert_eq!(parse_u32("+5"), Some(5));
    assert_eq!(parse_u32("0060"), Some(60));
    assert_eq!(parse_u32("4294967295"), Some(u32::MAX));
    assert_eq!(parse_u32("4294967296"), None);
    assert_eq!(parse_u32("999999999999"), None);
    assert_eq!(parse_u32(""), None);
    assert_eq!(parse_u32("+"), None);
    assert_eq!(parse_u32("-5"), None);
    assert_eq!(parse_u32("1a"), None);
    assert_eq!(parse_u32(" 1"), None);
    for s in ["0", "17", "+3", "x", "", "123456789012", "42 "] {
        assert_eq!(parse_u32(s), s.parse::<u32>().ok());
    }
}
