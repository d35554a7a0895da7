use vstd::prelude::*;

verus! {

/// Width and height, in pixels, of the status-indicator bitmap.
pub const ICON_SIZE: usize = 16;

/// Level at or under which the gauge takes its warning color.
pub const LOW_LEVEL: u8 = 20;

pub const TRANSPARENT: u32 = 0x00000000;
pub const OUTLINE: u32 = 0xFFFFFFFF;
pub const EMPTY_CELL: u32 = 0x33FFFFFF;
pub const BOLT: u32 = 0xFFFFFFFF;
pub const FILL_OK: u32 = 0xFF4CAF50;
pub const FILL_OK_CHARGING: u32 = 0xFFFFC107;
pub const FILL_LOW: u32 = 0xFFF44336;
pub const FILL_LOW_CHARGING: u32 = 0xFFFF9800;

/// Body of the battery outline: columns 2..=13, rows 4..=11.
pub const BODY_X0: usize = 2;
pub const BODY_Y0: usize = 4;
pub const BODY_X1: usize = 13;
pub const BODY_Y1: usize = 11;

/// Terminal nub at column 14, rows 6..=9.
pub const TIP_X: usize = 14;
pub const TIP_Y0: usize = 6;
pub const TIP_Y1: usize = 9;

/// Columns of the gauge inside the outline.
pub const GAUGE_WIDTH: usize = 10;

/// Whether (x, y) lies on the outline of the battery body or its nub.
pub open spec fn on_outline(x: int, y: int) -> bool {
    ||| (BODY_X0 <= x <= BODY_X1 && (y == BODY_Y0 || y == BODY_Y1))
    ||| ((x == BODY_X0 || x == BODY_X1) && BODY_Y0 <= y <= BODY_Y1)
    ||| (x == TIP_X && TIP_Y0 <= y <= TIP_Y1)
}

/// Whether (x, y) lies inside the outline, in the gauge area.
pub open spec fn in_gauge(x: int, y: int) -> bool {
    BODY_X0 < x < BODY_X1 && BODY_Y0 < y < BODY_Y1
}

/// Whether (x, y) is one of the points of the charging bolt.
pub open spec fn on_bolt(x: int, y: int) -> bool {
    ||| (x == 7 && y == 5)
    ||| (x == 6 && y == 7)
    ||| (x == 8 && y == 7)
    ||| (x == 7 && y == 10)
    ||| (x == 10 && y == 7)
}

/// The level shown, saturated at 100.
pub open spec fn shown_level(percent: u8) -> int {
    if percent > 100 { 100 } else { percent as int }
}

/// How many gauge columns are filled: the level's share of the gauge width,
/// rounded half up.
pub open spec fn filled_columns(percent: u8) -> int {
    (GAUGE_WIDTH * shown_level(percent) + 50) / 100
}

/// Color of the filled part of the gauge.
pub open spec fn fill_color(percent: u8, charging: bool) -> u32 {
    if shown_level(percent) <= LOW_LEVEL {
        if charging { FILL_LOW_CHARGING } else { FILL_LOW }
    } else {
        if charging { FILL_OK_CHARGING } else { FILL_OK }
    }
}

/// The ARGB color of the indicator at column x, row y.
pub open spec fn icon_color(x: int, y: int, percent: u8, charging: bool) -> u32 {
    if charging && on_bolt(x, y) {
        BOLT
    } else if in_gauge(x, y) {
        if x - (BODY_X0 + 1) < filled_columns(percent) {
            fill_color(percent, charging)
        } else {
            EMPTY_CELL
        }
    } else if on_outline(x, y) {
        OUTLINE
    } else {
        TRANSPARENT
    }
}

/// The pixel at index i of a row-major bitmap of width w and height h;
/// what lies past the bitmap is cleared.
pub open spec fn bitmap_pixel(i: int, w: int, h: int, percent: u8, charging: bool) -> u32 {
    if i < w * h {
        icon_color(i % w, i / w, percent, charging)
    } else {
        TRANSPARENT
    }
}

fn gauge_fill_color(percent: u8, charging: bool) -> (c: u32)
    ensures
        c == fill_color(percent, charging),
{
    let pct: u8 = if percent > 100 { 100 } else { percent };
    if pct <= LOW_LEVEL {
        if charging { FILL_LOW_CHARGING } else { FILL_LOW }
    } else {
        if charging { FILL_OK_CHARGING } else { FILL_OK }
    }
}

fn pixel_color(x: usize, y: usize, percent: u8, charging: bool, filled: usize, fill: u32) -> (c: u32)
    requires
        filled == filled_columns(percent),
        fill == fill_color(percent, charging),
    ensures
        c == icon_color(x as int, y as int, percent, charging),
{
    let bolt = (x == 7 && y == 5) || (x == 6 && y == 7) || (x == 8 && y == 7) || (x == 7 && y == 10)
        || (x == 10 && y == 7);
    if charging && bolt {
        BOLT
    } else if BODY_X0 < x && x < BODY_X1 && BODY_Y0 < y && y < BODY_Y1 {
        if x - (BODY_X0 + 1) < filled {
            fill
        } else {
            EMPTY_CELL
        }
    } else if (BODY_X0 <= x && x <= BODY_X1 && (y == BODY_Y0 || y == BODY_Y1)) || ((x == BODY_X0
        || x == BODY_X1) && BODY_Y0 <= y && y <= BODY_Y1) || (x == TIP_X && TIP_Y0 <= y && y
        <= TIP_Y1) {
        OUTLINE
    } else {
        TRANSPARENT
    }
}

/// Draws the battery indicator for a level and charging flag into a
/// row-major ARGB bitmap of width w and height h: a white outline with a nub,
/// a gauge filled from the left in green (amber when charging), red (orange
/// when charging) at 20% or less, and a white bolt while charging. Pixels
/// past w * h are cleared.
pub fn render_battery_icon_argb(pixels: &mut [u32], w: usize, h: usize, percent: u8, charging: bool)
    ensures
        final(pixels)@.len() == old(pixels)@.len(),
        forall|i: int|
            0 <= i < final(pixels)@.len() ==> #[trigger] final(pixels)@[i] == bitmap_pixel(
                i,
                w as int,
                h as int,
                percent,
                charging,
            ),
{
    let pct: usize = if percent > 100 { 100 } else { percent as usize };
    let filled: usize = (GAUGE_WIDTH * pct + 50) / 100;
    let fill = gauge_fill_color(percent, charging);
    let n = pixels.len();
    let area: Option<usize> = w.checked_mul(h);
    let mut i: usize = 0;
    while i < n
        invariant
            area == (if w * h <= usize::MAX { Some((w * h) as usize) } else { None::<usize> }),
            n == pixels@.len(),
            n == old(pixels)@.len(),
            filled == filled_columns(percent),
            fill == fill_color(percent, charging),
            i <= n,
            forall|j: int|
                0 <= j < i ==> #[trigger] pixels@[j] == bitmap_pixel(
                    j,
                    w as int,
                    h as int,
                    percent,
                    charging,
                ),
        decreases n - i,
    {
        // A bitmap too large to address covers every index of the slice.
        let inside = match area {
            Some(a) => i < a,
            None => true,
        };
        let c = if inside {
            pixel_color(i % w, i / w, percent, charging, filled, fill)
        } else {
            TRANSPARENT
        };
        pixels[i] = c;
        i = i + 1;
    }
}

/// The four RGBA bytes of one ARGB pixel.
pub open spec fn rgba_of(px: u32) -> Seq<u8> {
    seq![(px >> 16u32) as u8, (px >> 8u32) as u8, px as u8, (px >> 24u32) as u8]
}

/// Reorders a row-major ARGB bitmap into RGBA bytes, four per pixel.
pub fn argb_to_rgba(pixels: &[u32]) -> (r: Vec<u8>)
    requires
        pixels@.len() * 4 <= usize::MAX,
    ensures
        r@.len() == 4 * pixels@.len(),
        forall|i: int, k: int|
            0 <= i < pixels@.len() && 0 <= k < 4 ==> r@[4 * i + k] == #[trigger] rgba_of(
                pixels@[i],
            )[k],
{
    let mut out: Vec<u8> = Vec::new();
    let mut i: usize = 0;
    while i < pixels.len()
        invariant
            i <= pixels@.len(),
            out@.len() == 4 * i,
            forall|j: int, k: int|
                0 <= j < i && 0 <= k < 4 ==> out@[4 * j + k] == #[trigger] rgba_of(pixels@[j])[k],
        decreases pixels@.len() - i,
    {
        let px = pixels[i];
        out.push((px >> 16) as u8);
        out.push((px >> 8) as u8);
        out.push(px as u8);
        out.push((px >> 24) as u8);
        i = i + 1;
    }
    out
}

} // verus!
