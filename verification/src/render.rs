//! Drawing a display state onto a frame: one progress row per metric and a
//! two-line clock.

use crate::average::PROGRESS_STEPS;
use crate::clock::{hour_minute_text, second_text, ClockTime};
use crate::fonts::{Font, Glyph};
use crate::frame::{black, blank, panel, rgb_bytes, Color, Frame, DISPLAY_SIZE};
use vstd::prelude::*;

verus! {

/// Number of columns a progress row can fill.
pub const FULL_COLUMNS: u8 = 15;

/// One complete set of progress values, each meant to lie between 0 and 45,
/// with the time at which it was taken.
#[derive(Clone, Copy, Debug)]
pub struct Context {
    pub cpu: u8,
    pub mem: u8,
    pub gpu: u8,
    pub gpu_mem: u8,
    pub vol: u8,
    pub net_up: u8,
    pub net_down: u8,
    pub time: ClockTime,
}

/// The number of columns painted in the brightest colour: a third of the
/// progress value, at most fifteen.
pub open spec fn full_columns(progress: int) -> int {
    if progress / 3 < 15 {
        progress / 3
    } else {
        15
    }
}

/// A larger progress value never fills fewer columns.
pub proof fn lemma_full_columns_monotonic(lower: int, higher: int)
    requires
        0 <= lower < higher,
    ensures
        0 <= full_columns(lower) <= full_columns(higher) <= FULL_COLUMNS,
{
}

/// The colour a progress row gives to column `x`, `None` where it leaves the
/// pixel alone. The first `full_columns` columns get the brightest colour.
/// Unless all fifteen are full, the column after them gets the second colour
/// when the value leaves a remainder of one, the third colour when it leaves
/// a remainder of two.
pub open spec fn bar_color(progress: int, colors: Seq<Color>, x: int) -> Option<Color> {
    let full = full_columns(progress);
    if 0 <= x < full {
        Some(colors[0])
    } else if x == full && full < 15 && progress % 3 == 1 {
        Some(colors[1])
    } else if x == full && full < 15 && progress % 3 == 2 {
        Some(colors[2])
    } else {
        None
    }
}

/// `base` with the progress row of `progress` drawn onto row `y`.
pub open spec fn progress_row(
    base: Map<(int, int), Color>,
    progress: int,
    y: int,
    colors: Seq<Color>,
) -> Map<(int, int), Color> {
    Map::new(
        |p: (int, int)| base.dom().contains(p),
        |p: (int, int)|
            if p.1 == y {
                match bar_color(progress, colors, p.0) {
                    Some(color) => color,
                    None => base[p],
                }
            } else {
                base[p]
            },
    )
}

/// Draws the progress row of `progress` onto row `y` of the frame. A value
/// above 45 draws as 45; a row outside the panel draws nothing.
pub fn draw_progress(progress: u8, img: &mut Frame, y: u32, colors: [Color; 3])
    ensures
        final(img)@ == progress_row(old(img)@, progress as int, y as int, colors@),
{
    let thirds: u8 = progress / PROGRESS_STEPS;
    let full: u8 = if thirds < FULL_COLUMNS {
        thirds
    } else {
        FULL_COLUMNS
    };
    let rest: u8 = if full >= FULL_COLUMNS {
        0
    } else {
        progress % PROGRESS_STEPS
    };
    proof {
        use_type_invariant(&*img);
    }
    let mut x: u8 = 0;
    while x < full
        invariant
            x <= full <= 15,
            img@.dom() == panel(),
            img@ == Map::new(
                |p: (int, int)| old(img)@.dom().contains(p),
                |p: (int, int)|
                    if p.1 == y && 0 <= p.0 < x {
                        colors@[0]
                    } else {
                        old(img)@[p]
                    },
            ),
        decreases full - x,
    {
        img.put_pixel(x as u32, y, colors[0]);
        x += 1;
    }
    if rest == 1 {
        img.put_pixel(full as u32, y, colors[1]);
    } else if rest == 2 {
        img.put_pixel(full as u32, y, colors[2]);
    }
}

/// `base` with one glyph drawn in `color`, its top-left corner at column `x`,
/// row `y`. Only the set positions of the mask are painted.
pub open spec fn stamp(
    base: Map<(int, int), Color>,
    glyph: Glyph,
    x: int,
    y: int,
    color: Color,
) -> Map<(int, int), Color> {
    Map::new(
        |p: (int, int)| base.dom().contains(p),
        |p: (int, int)|
            if glyph.lit_at(p.0 - x, p.1 - y) {
                color
            } else {
                base[p]
            },
    )
}

/// `stamp`, but only for the mask positions that come before column `col` of
/// row `row` when the mask is read row by row.
spec fn stamp_before(
    base: Map<(int, int), Color>,
    glyph: Glyph,
    x: int,
    y: int,
    color: Color,
    row: int,
    col: int,
) -> Map<(int, int), Color> {
    Map::new(
        |p: (int, int)| base.dom().contains(p),
        |p: (int, int)|
            if glyph.lit_at(p.0 - x, p.1 - y) && (p.1 - y < row || (p.1 - y == row && p.0 - x
                < col)) {
                color
            } else {
                base[p]
            },
    )
}

/// Draws one glyph in `color` with its top-left corner at column `x`, row
/// `y`. What falls outside the panel is not drawn.
pub fn draw_glyph(img: &mut Frame, glyph: Glyph, x: u32, y: u32, color: Color)
    ensures
        final(img)@ == stamp(old(img)@, glyph, x as int, y as int, color),
{
    proof {
        use_type_invariant(&*img);
    }
    if x >= DISPLAY_SIZE || y >= DISPLAY_SIZE {
        return;
    }
    let width: u32 = glyph.width as u32;
    let height: u32 = glyph.height as u32;
    let mut cy: u32 = 0;
    while cy < height
        invariant
            cy <= height == glyph.height,
            width == glyph.width,
            x < DISPLAY_SIZE,
            y < DISPLAY_SIZE,
            img@.dom() == panel(),
            old(img)@.dom() == panel(),
            img@ == stamp_before(old(img)@, glyph, x as int, y as int, color, cy as int, 0),
        decreases height - cy,
    {
        let mut cx: u32 = 0;
        while cx < width
            invariant
                cy < height == glyph.height,
                cx <= width == glyph.width,
                x < DISPLAY_SIZE,
                y < DISPLAY_SIZE,
                img@.dom() == panel(),
                old(img)@.dom() == panel(),
                img@ == stamp_before(
                    old(img)@,
                    glyph,
                    x as int,
                    y as int,
                    color,
                    cy as int,
                    cx as int,
                ),
            decreases width - cx,
        {
            if glyph.lit(cx, cy) {
                img.put_pixel(x + cx, y + cy, color);
            }
            cx += 1;
        }
        cy += 1;
    }
}

/// One more column between glyphs when `spaces` is set.
pub open spec fn gap(spaces: bool) -> int {
    if spaces {
        1
    } else {
        0
    }
}

/// `base` with `text` drawn from left to right, the first glyph's top-left
/// corner at column `x`, row `y`.
///
/// A character the font lacks is passed over: it draws nothing, moves nothing
/// and uses up no colour. Each glyph drawn takes the colour at `turn`, moves
/// the next glyph right by its own width and the gap, and passes the turn to
/// the next colour, going round `colors`.
pub open spec fn text_pixels(
    base: Map<(int, int), Color>,
    text: Seq<char>,
    font: Font,
    x: int,
    y: int,
    colors: Seq<Color>,
    turn: int,
    spaces: bool,
) -> Map<(int, int), Color>
    decreases text.len(),
{
    if text.len() == 0 {
        base
    } else {
        match font.glyph_spec(text[0]) {
            Some(glyph) => text_pixels(
                stamp(base, glyph, x, y, colors[turn]),
                text.drop_first(),
                font,
                x + glyph.width + gap(spaces),
                y,
                colors,
                (turn + 1) % (colors.len() as int),
                spaces,
            ),
            None => text_pixels(base, text.drop_first(), font, x, y, colors, turn, spaces),
        }
    }
}

/// Text that starts to the right of every position of `base` leaves it as it
/// is.
pub proof fn lemma_text_right_of_grid(
    base: Map<(int, int), Color>,
    text: Seq<char>,
    font: Font,
    x: int,
    y: int,
    colors: Seq<Color>,
    turn: int,
    spaces: bool,
)
    requires
        forall|p: (int, int)| base.dom().contains(p) ==> p.0 < x,
    ensures
        text_pixels(base, text, font, x, y, colors, turn, spaces) == base,
    decreases text.len(),
{
    if text.len() > 0 {
        match font.glyph_spec(text[0]) {
            Some(glyph) => {
                assert(stamp(base, glyph, x, y, colors[turn]) =~= base);
                lemma_text_right_of_grid(
                    base,
                    text.drop_first(),
                    font,
                    x + glyph.width + gap(spaces),
                    y,
                    colors,
                    (turn + 1) % (colors.len() as int),
                    spaces,
                );
            },
            None => {
                lemma_text_right_of_grid(base, text.drop_first(), font, x, y, colors, turn, spaces);
            },
        }
    }
}

/// Draws `text` from left to right in `font`, the first glyph's top-left
/// corner at `origin` (column, row). The glyphs take their colours from
/// `colors` in turn, starting with the first. What falls outside the panel
/// is not drawn.
pub fn write_string(
    text: &str,
    img: &mut Frame,
    origin: (u32, u32),
    colors: &[Color],
    font: Font,
    spaces: bool,
)
    requires
        colors@.len() > 0,
    ensures
        final(img)@ == text_pixels(
            old(img)@,
            text@,
            font,
            origin.0 as int,
            origin.1 as int,
            colors@,
            0,
            spaces,
        ),
{
    proof {
        use_type_invariant(&*img);
    }
    let count = text.unicode_len();
    let y = origin.1;
    let mut x: u32 = origin.0;
    let mut turn: usize = 0;
    let mut i: usize = 0;
    assert(text@.skip(0) =~= text@);
    while i < count && x < DISPLAY_SIZE
        invariant
            i <= count == text@.len(),
            turn < colors@.len(),
            y == origin.1,
            img@.dom() == panel(),
            text_pixels(
                img@,
                text@.skip(i as int),
                font,
                x as int,
                y as int,
                colors@,
                turn as int,
                spaces,
            ) == text_pixels(
                old(img)@,
                text@,
                font,
                origin.0 as int,
                origin.1 as int,
                colors@,
                0,
                spaces,
            ),
        decreases count - i,
    {
        let c = text.get_char(i);
        assert(text@.skip(i as int).drop_first() =~= text@.skip(i + 1));
        match font.glyph(c) {
            Some(glyph) => {
                draw_glyph(img, glyph, x, y, colors[turn]);
                x = x + glyph.width as u32 + if spaces {
                    1
                } else {
                    0
                };
                turn = (turn + 1) % colors.len();
            },
            None => {},
        }
        i += 1;
    }
    proof {
        if i < count {
            lemma_text_right_of_grid(
                img@,
                text@.skip(i as int),
                font,
                x as int,
                y as int,
                colors@,
                turn as int,
                spaces,
            );
        }
    }
}

/// Number of progress rows: one per metric, from the top of the panel.
pub const METRIC_ROWS: u32 = 7;

/// The progress value drawn on row `row`: volume, memory, processor, graphics
/// load, graphics memory, upload and download, from the top.
pub open spec fn row_progress(ctx: Context, row: int) -> int {
    if row == 0 {
        ctx.vol as int
    } else if row == 1 {
        ctx.mem as int
    } else if row == 2 {
        ctx.cpu as int
    } else if row == 3 {
        ctx.gpu as int
    } else if row == 4 {
        ctx.gpu_mem as int
    } else if row == 5 {
        ctx.net_up as int
    } else {
        ctx.net_down as int
    }
}

/// The three colours of row `row`, brightest first.
pub open spec fn row_colors(row: int) -> Seq<Color> {
    if row == 0 {
        seq![(0xffu8, 0xaau8, 0x00u8), (0xbbu8, 0x88u8, 0x00u8), (0x88u8, 0x55u8, 0x00u8)]
    } else if row == 1 {
        seq![(0x00u8, 0xddu8, 0x00u8), (0x00u8, 0x99u8, 0x00u8), (0x00u8, 0x55u8, 0x00u8)]
    } else if row == 2 {
        seq![(0x00u8, 0x00u8, 0xddu8), (0x00u8, 0x00u8, 0x99u8), (0x00u8, 0x00u8, 0x55u8)]
    } else if row == 3 {
        seq![(0xffu8, 0x77u8, 0x00u8), (0xbbu8, 0x55u8, 0x00u8), (0x88u8, 0x33u8, 0x00u8)]
    } else if row == 4 {
        seq![(0xddu8, 0x00u8, 0x00u8), (0x99u8, 0x00u8, 0x00u8), (0x55u8, 0x00u8, 0x00u8)]
    } else if row == 5 {
        seq![(0x00u8, 0x99u8, 0xffu8), (0x00u8, 0x77u8, 0xbbu8), (0x00u8, 0x55u8, 0x88u8)]
    } else {
        seq![(0x99u8, 0x00u8, 0xffu8), (0x66u8, 0x00u8, 0x99u8), (0x44u8, 0x00u8, 0x66u8)]
    }
}

/// `base` with all seven progress rows of `ctx` drawn onto rows 0 to 6.
pub open spec fn meters(base: Map<(int, int), Color>, ctx: Context) -> Map<(int, int), Color> {
    Map::new(
        |p: (int, int)| base.dom().contains(p),
        |p: (int, int)|
            if 0 <= p.1 < METRIC_ROWS {
                match bar_color(row_progress(ctx, p.1), row_colors(p.1), p.0) {
                    Some(color) => color,
                    None => base[p],
                }
            } else {
                base[p]
            },
    )
}

/// The two colours the glyphs of the hour and minute take in turn.
pub open spec fn hour_minute_colors() -> Seq<Color> {
    seq![(0xffu8, 0x00u8, 0xffu8), (0xffu8, 0x00u8, 0x99u8)]
}

/// The two colours the glyphs of the seconds take in turn.
pub open spec fn second_colors() -> Seq<Color> {
    seq![(0x88u8, 0x00u8, 0x88u8), (0x88u8, 0x00u8, 0x55u8)]
}

/// The time on the clock: the snapshot's own time where there is a snapshot,
/// else the time handed in.
pub open spec fn shown_time(ctx: Option<Context>, time: ClockTime) -> ClockTime {
    match ctx {
        Some(ctx) => ctx.time,
        None => time,
    }
}

/// The frame for a display state.
///
/// On a blank panel, the seven progress rows of the snapshot if there is one;
/// over them the hour and minute in the five-row font from column 3, row 7;
/// over that the seconds in the four-row font from column 10, row 12.
pub open spec fn rendered(ctx: Option<Context>, time: ClockTime) -> Map<(int, int), Color> {
    let shown = shown_time(ctx, time);
    let background = match ctx {
        Some(ctx) => meters(blank(DISPLAY_SIZE as int, DISPLAY_SIZE as int), ctx),
        None => blank(DISPLAY_SIZE as int, DISPLAY_SIZE as int),
    };
    let large = text_pixels(
        background,
        hour_minute_text(shown.hour_spec(), shown.minute_spec()),
        Font::Font3x5,
        3,
        7,
        hour_minute_colors(),
        0,
        false,
    );
    text_pixels(
        large,
        second_text(shown.second_spec()),
        Font::Font3x4,
        10,
        12,
        second_colors(),
        0,
        false,
    )
}

/// Renders a display state: the progress rows of `ctx`, if any, and a clock.
/// The clock shows the snapshot's time, or `time` when there is no snapshot.
/// `degraded` tells that the snapshot is getting old; the picture does not
/// depend on it.
pub fn create_frame(ctx: Option<Context>, time: ClockTime, degraded: bool) -> (frame: Frame)
    ensures
        frame@ == rendered(ctx, time),
{
    let mut img = Frame::new();
    let mut shown = time;
    if let Some(ctx) = ctx {
        shown = ctx.time;
        draw_progress(
            ctx.vol,
            &mut img,
            0,
            [(0xff, 0xaa, 0x00), (0xbb, 0x88, 0x00), (0x88, 0x55, 0x00)],
        );
        draw_progress(
            ctx.mem,
            &mut img,
            1,
            [(0x00, 0xdd, 0x00), (0x00, 0x99, 0x00), (0x00, 0x55, 0x00)],
        );
        draw_progress(
            ctx.cpu,
            &mut img,
            2,
            [(0x00, 0x00, 0xdd), (0x00, 0x00, 0x99), (0x00, 0x00, 0x55)],
        );
        draw_progress(
            ctx.gpu,
            &mut img,
            3,
            [(0xff, 0x77, 0x00), (0xbb, 0x55, 0x00), (0x88, 0x33, 0x00)],
        );
        draw_progress(
            ctx.gpu_mem,
            &mut img,
            4,
            [(0xdd, 0x00, 0x00), (0x99, 0x00, 0x00), (0x55, 0x00, 0x00)],
        );
        draw_progress(
            ctx.net_up,
            &mut img,
            5,
            [(0x00, 0x99, 0xff), (0x00, 0x77, 0xbb), (0x00, 0x55, 0x88)],
        );
        draw_progress(
            ctx.net_down,
            &mut img,
            6,
            [(0x99, 0x00, 0xff), (0x66, 0x00, 0x99), (0x44, 0x00, 0x66)],
        );
        assert(img@ =~= meters(blank(DISPLAY_SIZE as int, DISPLAY_SIZE as int), ctx));
    }
    let large = shown.hour_minute_string();
    let large_colors: [Color; 2] = [(0xff, 0x00, 0xff), (0xff, 0x00, 0x99)];
    write_string(large.as_str(), &mut img, (3, 7), large_colors.as_slice(), Font::Font3x5, false);
    let small = shown.second_string();
    let small_colors: [Color; 2] = [(0x88, 0x00, 0x88), (0x88, 0x00, 0x55)];
    write_string(small.as_str(), &mut img, (10, 12), small_colors.as_slice(), Font::Font3x4, false);
    img
}

/// Text drawn from row `y` down leaves every row above `y` as it was, and
/// covers the same positions as `base`.
pub proof fn lemma_text_keeps_rows_above(
    base: Map<(int, int), Color>,
    text: Seq<char>,
    font: Font,
    x: int,
    y: int,
    colors: Seq<Color>,
    turn: int,
    spaces: bool,
)
    ensures
        text_pixels(base, text, font, x, y, colors, turn, spaces).dom() == base.dom(),
        forall|p: (int, int)|
            base.dom().contains(p) && p.1 < y ==> #[trigger] text_pixels(
                base,
                text,
                font,
                x,
                y,
                colors,
                turn,
                spaces,
            )[p] == base[p],
    decreases text.len(),
{
    if text.len() > 0 {
        match font.glyph_spec(text[0]) {
            Some(glyph) => {
                let stamped = stamp(base, glyph, x, y, colors[turn]);
                lemma_text_keeps_rows_above(
                    stamped,
                    text.drop_first(),
                    font,
                    x + glyph.width + gap(spaces),
                    y,
                    colors,
                    (turn + 1) % (colors.len() as int),
                    spaces,
                );
            },
            None => {
                lemma_text_keeps_rows_above(base, text.drop_first(), font, x, y, colors, turn, spaces);
            },
        }
    }
}

/// The clock never reaches into the progress rows. With a snapshot, each of
/// the first seven rows shows the progress row of its metric on black: a
/// value of 45 lights the first fifteen columns in the brightest colour, a
/// value of 0 lights none. Without a snapshot these rows are black.
pub proof fn lemma_rendered_meter_rows(ctx: Option<Context>, time: ClockTime, x: int, y: int)
    requires
        0 <= x < DISPLAY_SIZE,
        0 <= y < METRIC_ROWS,
    ensures
        rendered(ctx, time).dom() == panel(),
        rendered(ctx, time)[(x, y)] == match ctx {
            Some(ctx) => match bar_color(row_progress(ctx, y), row_colors(y), x) {
                Some(color) => color,
                None => black(),
            },
            None => black(),
        },
        ctx matches Some(snapshot) ==> (row_progress(snapshot, y) == 45 && x < FULL_COLUMNS
            ==> rendered(ctx, time)[(x, y)] == row_colors(y)[0]),
        ctx matches Some(snapshot) ==> (row_progress(snapshot, y) == 0 ==> rendered(ctx, time)[(
            x,
            y,
        )] == black()),
{
    let shown = shown_time(ctx, time);
    let empty = blank(DISPLAY_SIZE as int, DISPLAY_SIZE as int);
    let background = match ctx {
        Some(ctx) => meters(empty, ctx),
        None => empty,
    };
    let large = text_pixels(
        background,
        hour_minute_text(shown.hour_spec(), shown.minute_spec()),
        Font::Font3x5,
        3,
        7,
        hour_minute_colors(),
        0,
        false,
    );
    lemma_text_keeps_rows_above(
        background,
        hour_minute_text(shown.hour_spec(), shown.minute_spec()),
        Font::Font3x5,
        3,
        7,
        hour_minute_colors(),
        0,
        false,
    );
    lemma_text_keeps_rows_above(
        large,
        second_text(shown.second_spec()),
        Font::Font3x4,
        10,
        12,
        second_colors(),
        0,
        false,
    );
}

/// Rendering is a function of the display state and the time alone: two
/// frames rendered from the same snapshot and time are the same pixel for
/// pixel and byte for byte, whatever the degraded flag was.
pub proof fn lemma_render_is_deterministic(
    ctx: Option<Context>,
    time: ClockTime,
    first: Frame,
    second: Frame,
)
    requires
        first@ == rendered(ctx, time),
        second@ == rendered(ctx, time),
    ensures
        first@ == second@,
        rgb_bytes(first@) == rgb_bytes(second@),
{
}

} // verus!
