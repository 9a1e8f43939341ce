//! Geometry of the schedule chart: the size of the image and the pixel
//! positions of axis labels, work-window bars and the current-time marker.
//! The raster drawing itself is a presentation concern outside the core.

use crate::convert::{convert_to_tz, spec_convert, FixedOffset};
use crate::interval::TimeInterval;
use crate::time::TimeOfDay;
use vstd::prelude::*;

verus! {

/// The first hour column of the chart.
pub const EARLIEST_HOUR: i32 = 0;

/// The last hour column of the chart.
pub const LATEST_HOUR: i32 = 23;

/// A filled rectangle of the chart: its upper-left corner and its size in
/// pixels.
#[derive(Clone, Copy, Debug, PartialEq, Eq, Structural)]
pub struct Bar {
    pub x: i32,
    pub y: i32,
    pub width: u32,
    pub height: u32,
}

/// The x pixel position of the column for `hour`.
pub open spec fn spec_hour_x(hour: int) -> int {
    (hour - EARLIEST_HOUR) * 40 + 100
}

/// The bars standing for a displayed window from `start_hour` to
/// `end_hour` at row `y`: two bars (start to midnight, midnight to end)
/// when the displayed window crosses midnight, one bar otherwise.
pub open spec fn spec_interval_bars(start_hour: int, end_hour: int, y: int) -> Seq<Bar> {
    if end_hour < start_hour {
        seq![
            Bar {
                x: spec_hour_x(start_hour) as i32,
                y: y as i32,
                width: (spec_hour_x(24) - spec_hour_x(start_hour) + 1) as u32,
                height: 40,
            },
            Bar {
                x: spec_hour_x(0) as i32,
                y: y as i32,
                width: (spec_hour_x(end_hour) - spec_hour_x(0) + 1) as u32,
                height: 40,
            },
        ]
    } else {
        seq![
            Bar {
                x: spec_hour_x(start_hour) as i32,
                y: y as i32,
                width: (spec_hour_x(end_hour) - spec_hour_x(start_hour) + 1) as u32,
                height: 40,
            },
        ]
    }
}

/// The bars for one work window at row `y`, after re-expressing both of
/// its endpoints at the display offset.
pub open spec fn spec_window_bars(iv: TimeInterval, offset: FixedOffset, y: int) -> Seq<Bar> {
    spec_interval_bars(
        spec_convert(iv.start, offset).hour as int,
        spec_convert(iv.end, offset).hour as int,
        y,
    )
}

/// The width of the chart: one 40 pixel column per hour and a 200 pixel
/// margin for the member names.
pub fn image_width() -> (w: i32)
    ensures
        w == (LATEST_HOUR - EARLIEST_HOUR + 1) * 40 + 200,
{
    (LATEST_HOUR - EARLIEST_HOUR + 1) * 40 + 200
}

/// The height of the chart: one 50 pixel row per member and a 100 pixel
/// margin for the header.
pub fn image_height(n_members: usize) -> (h: usize)
    requires
        n_members * 50 + 100 <= usize::MAX,
    ensures
        h == n_members * 50 + 100,
{
    n_members * 50 + 100
}

/// The y pixel position of the row for the member at `index`.
pub fn member_label_y(index: usize) -> (y: i32)
    requires
        index * 50 + 50 <= i32::MAX,
    ensures
        y == index * 50 + 50,
{
    (index as i32) * 50 + 50
}

/// The x pixel position of the label for the hour column `hour`.
pub fn hour_label_x(hour: i32) -> (x: i32)
    requires
        EARLIEST_HOUR <= hour <= LATEST_HOUR + 1,
    ensures
        x == spec_hour_x(hour as int),
{
    (hour - EARLIEST_HOUR) * 40 + 100
}

/// The bars for a displayed window from `start_hour` to `end_hour` at row
/// `y`, split in two when the window crosses midnight.
pub fn interval_bars(start_hour: i32, end_hour: i32, y: i32) -> (r: Vec<Bar>)
    requires
        0 <= start_hour <= 23,
        0 <= end_hour <= 23,
    ensures
        r@ == spec_interval_bars(start_hour as int, end_hour as int, y as int),
{
    let mut bars: Vec<Bar> = Vec::new();
    if end_hour < start_hour {
        let x1 = (start_hour - EARLIEST_HOUR) * 40 + 100;
        let x2 = (24 - EARLIEST_HOUR) * 40 + 100;
        bars.push(Bar { x: x1, y, width: (x2 - x1 + 1) as u32, height: 40 });
        let x3 = (0 - EARLIEST_HOUR) * 40 + 100;
        let x4 = (end_hour - EARLIEST_HOUR) * 40 + 100;
        bars.push(Bar { x: x3, y, width: (x4 - x3 + 1) as u32, height: 40 });
    } else {
        let x1 = (start_hour - EARLIEST_HOUR) * 40 + 100;
        let x2 = (end_hour - EARLIEST_HOUR) * 40 + 100;
        bars.push(Bar { x: x1, y, width: (x2 - x1 + 1) as u32, height: 40 });
    }
    proof {
        assert(bars@ =~= spec_interval_bars(start_hour as int, end_hour as int, y as int));
    }
    bars
}

/// The bars for one work window at row `y`, after re-expressing its
/// endpoints at the display offset `offset`.
pub fn window_bars(iv: &TimeInterval, offset: &FixedOffset, y: i32) -> (r: Vec<Bar>)
    requires
        iv.wf(),
        offset.wf(),
    ensures
        r@ == spec_window_bars(*iv, *offset, y as int),
{
    let start_hour = convert_to_tz(iv.start, offset).hour as i32;
    let end_hour = convert_to_tz(iv.end, offset).hour as i32;
    interval_bars(start_hour, end_hour, y)
}

/// The x pixel position of the current-time marker for the displayed
/// reading `t`: proportional within the hour columns.
pub fn current_time_x(t: TimeOfDay) -> (x: i32)
    requires
        t.wf(),
    ensures
        x == (t.hour * 60 + t.minute) * 40 / 60 + 100,
{
    (t.hour as i32 * 60 + t.minute as i32) * 40 / 60 + 100
}

} // verus!
