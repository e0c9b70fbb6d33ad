//! Packed 0xRRGGBB colors for the two stereo channels. The right channel
//! varies its green component, the left channel its blue component; red is
//! fixed at 50 in both.

use vstd::prelude::*;

verus! {

/// Pack three color components into a single integer in 0xRRGGBB layout.
/// Components are used as given: one that exceeds a byte bleeds into the
/// field above it, exactly as the bitwise-or does.
pub open spec fn pack_rgb(r: u32, g: u32, b: u32) -> u32 {
    (r << 16u32) | (g << 8u32) | b
}

/// The red field of a packed color.
pub open spec fn red_of(c: u32) -> u32 {
    (c >> 16u32) & 0xffu32
}

/// The green field of a packed color.
pub open spec fn green_of(c: u32) -> u32 {
    (c >> 8u32) & 0xffu32
}

/// The blue field of a packed color.
pub open spec fn blue_of(c: u32) -> u32 {
    c & 0xffu32
}

/// Color for one frequency-domain bar: the bar height plus a base offset of
/// 100 becomes the variable channel, deliberately without clamping, so a
/// height above 155 bleeds out of its byte.
pub fn calculate_freq_color(bar_height: u8, is_right_channel: bool) -> (c: u32)
    ensures
        is_right_channel ==> c == pack_rgb(50, (bar_height + 100) as u32, 50),
        !is_right_channel ==> c == pack_rgb(50, 50, (bar_height + 100) as u32),
{
    let intensity: u32 = bar_height as u32 + 100;
    if is_right_channel {
        (50u32 << 16) | (intensity << 8) | 50
    } else {
        (50u32 << 16) | (50u32 << 8) | intensity
    }
}

/// The variable channel of a level color: the truncated level, clamped to a
/// byte, plus a base offset of 100, clamped to a byte again.
pub open spec fn level_intensity(level: u32) -> u32 {
    if level >= 155 {
        255u32
    } else {
        (level + 100) as u32
    }
}

/// Color for a level meter. Unlike the frequency color, the variable channel
/// is clamped to a byte, so the packed fields never bleed into one another.
pub fn calculate_level_color(level: u32, is_right_channel: bool) -> (c: u32)
    ensures
        is_right_channel ==> c == pack_rgb(50, level_intensity(level), 50),
        !is_right_channel ==> c == pack_rgb(50, 50, level_intensity(level)),
{
    let base: u32 = if level > 255 {
        255
    } else {
        level
    };
    let raised: u32 = base + 100;
    let intensity: u32 = if raised > 255 {
        255
    } else {
        raised
    };
    if is_right_channel {
        (50u32 << 16) | (intensity << 8) | 50
    } else {
        (50u32 << 16) | (50u32 << 8) | intensity
    }
}

/// Whatever the level, the variable channel of a level color reads back
/// between 100 and 255; the other two fields hold their fixed values.
pub proof fn lemma_level_color_fields(level: u32)
    ensures
        100 <= level_intensity(level) <= 255,
        green_of(pack_rgb(50, level_intensity(level), 50)) == level_intensity(level),
        red_of(pack_rgb(50, level_intensity(level), 50)) == 50,
        blue_of(pack_rgb(50, level_intensity(level), 50)) == 50,
        blue_of(pack_rgb(50, 50, level_intensity(level))) == level_intensity(level),
        red_of(pack_rgb(50, 50, level_intensity(level))) == 50,
        green_of(pack_rgb(50, 50, level_intensity(level))) == 50,
{
    let g = level_intensity(level);
    assert(g <= 255 ==> ((50u32 << 16u32) | (g << 8u32) | 50u32) >> 8u32 & 0xffu32 == g)
        by (bit_vector);
    assert(g <= 255 ==> ((50u32 << 16u32) | (g << 8u32) | 50u32) >> 16u32 & 0xffu32 == 50)
        by (bit_vector);
    assert(g <= 255 ==> ((50u32 << 16u32) | (g << 8u32) | 50u32) & 0xffu32 == 50) by (bit_vector);
    assert(g <= 255 ==> ((50u32 << 16u32) | (50u32 << 8u32) | g) & 0xffu32 == g) by (bit_vector);
    assert(g <= 255 ==> ((50u32 << 16u32) | (50u32 << 8u32) | g) >> 16u32 & 0xffu32 == 50)
        by (bit_vector);
    assert(g <= 255 ==> ((50u32 << 16u32) | (50u32 << 8u32) | g) >> 8u32 & 0xffu32 == 50)
        by (bit_vector);
}

} // verus!
