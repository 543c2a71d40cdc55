//! The rectangles that make up the picture of the roads, in pixels.

use vstd::prelude::*;
use crate::geometry::{in_intersection_spec, UNITS_PER_PIXEL};

verus! {

/// Pixel at the middle of the playfield.
pub const CENTER: i32 = 450;

/// A third of a road: the distance between two dashed lines.
pub const LANE_WIDTH: i32 = 60;

/// Width of a road in pixels.
pub const ROAD_WIDTH: i32 = 3 * LANE_WIDTH;

/// Edge length of the playfield in pixels.
pub const FIELD_PIXELS: u32 = 900;

/// Number of dashed lines along a road.
pub const LINES: usize = 3;

/// Number of dashes along a line.
pub const DASHES: usize = 15;

/// Distance from the start of one dash to the start of the next.
pub const DASH_STEP: i32 = 60;

/// Length of a dash in pixels.
pub const DASH_LENGTH: u32 = 30;

/// Width of a dash in pixels.
pub const DASH_WIDTH: u32 = 4;

/// A rectangle to fill: the corner with the smallest coordinates, and the
/// size.
#[derive(Clone, Copy, Debug, PartialEq, Eq, Structural)]
pub struct FillRect {
    pub x: i32,
    pub y: i32,
    pub width: u32,
    pub height: u32,
}

/// The road that runs from top to bottom.
pub open spec fn vertical_road() -> FillRect {
    FillRect {
        x: (CENTER - ROAD_WIDTH / 2) as i32,
        y: 0,
        width: ROAD_WIDTH as u32,
        height: FIELD_PIXELS,
    }
}

/// The road that runs from left to right.
pub open spec fn horizontal_road() -> FillRect {
    FillRect {
        x: 0,
        y: (CENTER - ROAD_WIDTH / 2) as i32,
        width: FIELD_PIXELS,
        height: ROAD_WIDTH as u32,
    }
}

/// Pixel at which the dashed line with the given number begins, across the
/// road: the lines lie one lane before the middle, on it, and one lane
/// after it, and the dashes are centred on them.
pub open spec fn line_at(number: int) -> int {
    CENTER + LANE_WIDTH * (number - 1) - 2
}

/// The dash with the given number. The dashes of the vertical road come
/// first, line by line and from the top down; those of the horizontal road
/// follow, line by line and from the left.
pub open spec fn stripe_at(k: int) -> FillRect {
    let dash = k % (DASHES as int);
    let line = (k / (DASHES as int)) % (LINES as int);
    if k < LINES * DASHES {
        FillRect {
            x: line_at(line) as i32,
            y: (DASH_STEP * dash) as i32,
            width: DASH_WIDTH,
            height: DASH_LENGTH,
        }
    } else {
        FillRect {
            x: (DASH_STEP * dash) as i32,
            y: line_at(line) as i32,
            width: DASH_LENGTH,
            height: DASH_WIDTH,
        }
    }
}

/// Whether a pixel lies within a rectangle.
pub open spec fn covers(r: FillRect, px: int, py: int) -> bool {
    r.x <= px < r.x + r.width && r.y <= py < r.y + r.height
}

/// The two roads overlap exactly on the intersection box.
pub proof fn lemma_roads_cross_on_the_box(px: int, py: int)
    ensures
        covers(vertical_road(), px, py) && covers(horizontal_road(), px, py)
            <==> in_intersection_spec(px * UNITS_PER_PIXEL, py * UNITS_PER_PIXEL),
{
}

/// The two roads: first the one from top to bottom, then the one from left
/// to right.
pub fn road_rects() -> (rects: Vec<FillRect>)
    ensures
        rects@ == seq![vertical_road(), horizontal_road()],
        rects@[0] == (FillRect { x: 360, y: 0, width: 180, height: 900 }),
        rects@[1] == (FillRect { x: 0, y: 360, width: 900, height: 180 }),
{
    let start: i32 = CENTER - ROAD_WIDTH / 2;
    let mut rects: Vec<FillRect> = Vec::new();
    rects.push(FillRect { x: start, y: 0, width: ROAD_WIDTH as u32, height: FIELD_PIXELS });
    rects.push(FillRect { x: 0, y: start, width: FIELD_PIXELS, height: ROAD_WIDTH as u32 });
    assert(rects@ =~= seq![vertical_road(), horizontal_road()]);
    rects
}

/// The dashes along the lines of both roads: three lines of fifteen dashes
/// for each road.
pub fn lane_stripes() -> (stripes: Vec<FillRect>)
    ensures
        stripes@ == Seq::new((2 * LINES * DASHES) as nat, |k: int| stripe_at(k)),
        stripes@.len() == 90,
{
    let mut stripes: Vec<FillRect> = Vec::new();
    let mut across: usize = 0;
    while across < 2
        invariant
            across <= 2,
            stripes@ == Seq::new((across * LINES * DASHES) as nat, |k: int| stripe_at(k)),
        decreases 2 - across,
    {
        let mut line: usize = 0;
        while line < LINES
            invariant
                across < 2,
                line <= LINES,
                stripes@ == Seq::new(
                    ((across * LINES + line) * DASHES) as nat,
                    |k: int| stripe_at(k),
                ),
            decreases LINES - line,
        {
            let edge: i32 = CENTER + LANE_WIDTH * (line as i32 - 1) - 2;
            let mut dash: usize = 0;
            while dash < DASHES
                invariant
                    across < 2,
                    line < LINES,
                    dash <= DASHES,
                    edge == line_at(line as int),
                    stripes@ == Seq::new(
                        ((across * LINES + line) * DASHES + dash) as nat,
                        |k: int| stripe_at(k),
                    ),
                decreases DASHES - dash,
            {
                let offset: i32 = DASH_STEP * dash as i32;
                let ghost k = (across * LINES + line) * DASHES + dash;
                let rect = if across == 0 {
                    FillRect { x: edge, y: offset, width: DASH_WIDTH, height: DASH_LENGTH }
                } else {
                    FillRect { x: offset, y: edge, width: DASH_LENGTH, height: DASH_WIDTH }
                };
                assert(rect == stripe_at(k as int));
                stripes.push(rect);
                assert(stripes@ =~= Seq::new((k + 1) as nat, |k: int| stripe_at(k)));
                dash += 1;
            }
            line += 1;
        }
        across += 1;
    }
    stripes
}

} // verus!
