//! Properties of the badge that hold for every percentage.

use vstd::prelude::*;
use crate::badge::{
    BADGE_SAMPLES, ColorTier, badge_pixel, badge_samples, glyph_fg, in_disc, text_left, text_top,
    tier_of, tier_rgba, transparent,
};
use crate::menu::{MenuAction, menu_action_spec};
use crate::text::{
    OVERFLOW_SYMBOL, all_digits, badge_text_spec, decimal_chars, digits_value, parse_u32_spec,
    unsigned_digits,
};

verus! {

/// Usage up to 60 paints the disc in the Normal color, 61 to 80 in the
/// Warning color, above 80 in the Critical color: every disc pixel that no
/// glyph covers shows it, in all four of its samples.
pub proof fn badge_color_follows_thresholds(percentage: u8, x: int, y: int)
    requires
        0 <= x < 22,
        0 <= y < 22,
        in_disc(x, y),
        !glyph_fg(badge_text_spec(percentage as int), x, y),
    ensures
        percentage <= 60 ==> badge_pixel(percentage, x, y) == tier_rgba(ColorTier::Normal),
        61 <= percentage <= 80 ==> badge_pixel(percentage, x, y) == tier_rgba(ColorTier::Warning),
        percentage >= 81 ==> badge_pixel(percentage, x, y) == tier_rgba(ColorTier::Critical),
        forall|k: int|
            0 <= k < 4 ==> badge_samples(percentage)[(y * 22 + x) * 4 + k] == badge_pixel(
                percentage,
                x,
                y,
            ).sample(k),
{
    assert forall|k: int| 0 <= k < 4 implies badge_samples(percentage)[(y * 22 + x) * 4 + k]
        == badge_pixel(percentage, x, y).sample(k) by {
        let i = (y * 22 + x) * 4 + k;
        assert(i / 4 == y * 22 + x);
        assert(i % 4 == k);
    }
}

/// From 100 on, the badge text is the overflow symbol alone.
pub proof fn overflow_symbol_from_100(percentage: u8)
    requires
        percentage >= 100,
    ensures
        badge_text_spec(percentage as int) == seq![OVERFLOW_SYMBOL],
{
}

/// Below 100, the badge text is the percentage's decimal digits with no
/// leading zero, and the text block sits centered on the canvas to within
/// one pixel, across and down.
pub proof fn digits_below_100(percentage: u8)
    requires
        percentage < 100,
    ensures
        1 <= badge_text_spec(percentage as int).len() <= 2,
        all_digits(badge_text_spec(percentage as int)),
        digits_value(badge_text_spec(percentage as int)) == percentage,
        badge_text_spec(percentage as int).len() == 2 ==> badge_text_spec(percentage as int)[0]
            != '0',
        ({
            let n = badge_text_spec(percentage as int).len() as int;
            let left = text_left(n);
            let right = 22 - (left + 4 * n - 1);
            -1 <= left - right <= 1
        }),
        -1 <= text_top() - (22 - (text_top() + 5)) <= 1,
        badge_text_spec(percentage as int) == decimal_chars(percentage as nat),
        forall|x: int, y: int|
            #[trigger] glyph_fg(badge_text_spec(percentage as int), x, y) ==> {
                let n = badge_text_spec(percentage as int).len() as int;
                &&& text_left(n) <= x <= text_left(n) + 4 * n - 2
                &&& text_top() <= y <= text_top() + 4
            },
{
    reveal_with_fuel(decimal_chars, 2);
    reveal_with_fuel(digits_value, 3);
    let t = badge_text_spec(percentage as int);
    if percentage < 10 {
        assert(t.drop_last() =~= Seq::<char>::empty());
    } else {
        assert(t.drop_last() =~= seq![t[0]]);
        assert(t.drop_last().drop_last() =~= Seq::<char>::empty());
    }
}

/// The outermost rows and columns of every badge are fully transparent:
/// the disc never touches the canvas edge and no glyph reaches it.
pub proof fn badge_margin_is_transparent(percentage: u8, k: int)
    requires
        0 <= k < 22,
    ensures
        badge_pixel(percentage, k, 0) == transparent(),
        badge_pixel(percentage, 0, k) == transparent(),
        badge_pixel(percentage, k, 21) == transparent(),
        badge_pixel(percentage, 21, k) == transparent(),
{
    reveal_with_fuel(decimal_chars, 2);
    let t = badge_text_spec(percentage as int);
    assert(1 <= t.len() <= 2);
    assert((2 * k - 21) * (2 * k - 21) + (2 * 0 - 21) * (2 * 0 - 21) > 20 * 20) by (nonlinear_arith);
    assert((2 * k - 21) * (2 * k - 21) + (2 * 21 - 21) * (2 * 21 - 21) > 20 * 20) by (nonlinear_arith);
    assert(!in_disc(k, 0));
    assert(!in_disc(0, k));
    assert(!in_disc(k, 21));
    assert(!in_disc(21, k));
    assert(!glyph_fg(t, k, 0) && !glyph_fg(t, 0, k) && !glyph_fg(t, k, 21) && !glyph_fg(t, 21, k));
}

/// Rendering depends on the percentage alone: equal percentages give
/// byte-identical badges.
pub proof fn badge_is_deterministic(a: u8, b: u8)
    requires
        a == b,
    ensures
        badge_samples(a) == badge_samples(b),
{
}

/// Every pixel of every badge is fully transparent or fully opaque.
pub proof fn badge_alpha_is_binary(percentage: u8)
    ensures
        forall|i: int|
            0 <= i < BADGE_SAMPLES && i % 4 == 3 ==> (#[trigger] badge_samples(percentage)[i] == 0
                || badge_samples(percentage)[i] == 255),
{
}

/// The decimal digits of `n` read back as `n`.
pub proof fn decimal_round_trip(n: nat)
    ensures
        decimal_chars(n).len() > 0,
        all_digits(decimal_chars(n)),
        digits_value(decimal_chars(n)) == n,
        decimal_chars(n)[0] != '+',
    decreases n,
{
    reveal_with_fuel(digits_value, 2);
    let s = decimal_chars(n);
    if n < 10 {
        assert(s.drop_last() =~= Seq::<char>::empty());
        assert(s.last() as nat == n + 48);
    } else {
        decimal_round_trip(n / 10);
        assert(s.drop_last() =~= decimal_chars(n / 10));
        assert(s[0] == decimal_chars(n / 10)[0]);
        assert(s.last() as nat == n % 10 + 48);
        assert(digits_value(s) == digits_value(decimal_chars(n / 10)) * 10 + n % 10);
        assert((n / 10) * 10 + n % 10 == n);
    }
}

/// Choosing the menu entry `snooze_<minutes>`, with the minutes written in
/// decimal, snoozes for exactly that many minutes.
pub proof fn snooze_entry_carries_minutes(minutes: u32)
    ensures
        menu_action_spec("snooze_"@ + decimal_chars(minutes as nat)) == MenuAction::Snooze(minutes),
{
    reveal_strlit("snooze_");
    reveal_strlit("quit");
    reveal_strlit("show");
    reveal_strlit("settings");
    reveal_strlit("refresh");
    reveal_strlit("overlay");
    let digits = decimal_chars(minutes as nat);
    let id = "snooze_"@ + digits;
    decimal_round_trip(minutes as nat);
    assert(id[0] != "quit"@[0]);
    assert(id[1] != "show"@[1]);
    assert(id[1] != "settings"@[1]);
    assert(id[0] != "refresh"@[0]);
    assert(id[0] != "overlay"@[0]);
    assert(id.subrange(0, 7) =~= "snooze_"@);
    assert(id.subrange(7, id.len() as int) =~= digits);
    assert(unsigned_digits(digits) == digits);
    assert(parse_u32_spec(digits) == Some(minutes));
}

} // verus!
