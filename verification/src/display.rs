//! The numbers behind the race screen and the results: gauge readings, the
//! place of each car on the drawn track, and the headline of the results.

use vstd::prelude::*;
use crate::game::race::Winner;
use crate::game::units::{clamp, clamp_i64, floor_div, saturate, MICRO};

verus! {

/// The least width of the drawn track, in cells.
pub const MIN_TRACK_WIDTH: usize = 20;

/// The cells that the labels beside the track take from the width.
pub const TRACK_MARGIN: u16 = 10;

/// The time shown for a car that has not finished: 999 s.
pub const UNFINISHED_TIME: i64 = 999_000_000;

/// How alarming a gauge reading is.
#[derive(Debug, Clone, Copy, PartialEq, Eq, Structural)]
pub enum GaugeLevel {
    Normal,
    Warning,
    Critical,
}

/// One cell of the drawn track.
#[derive(Debug, Clone, Copy, PartialEq, Eq, Structural)]
pub enum TrackCell {
    Road,
    Car,
    FinishLine,
}

/// The headline of the results.
#[derive(Debug, Clone, Copy, PartialEq, Eq, Structural)]
pub enum Headline {
    RedLight,
    Win,
    Lose,
    Draw,
}

/// A gauge reading in whole percent, limited to what a `u16` holds.
pub open spec fn percent_of(value: int) -> int {
    clamp(value * 100 / (MICRO as int), 0, u16::MAX as int)
}

/// The engine speed in whole percent of the redline.
pub open spec fn rpm_share(rpm: int, redline: int) -> int {
    clamp(rpm * 100 / redline, 0, u16::MAX as int)
}

/// The level of the engine speed gauge: critical above 90%, a warning above
/// 75%.
pub open spec fn rpm_level_of(percent: int) -> GaugeLevel {
    if percent > 90 {
        GaugeLevel::Critical
    } else if percent > 75 {
        GaugeLevel::Warning
    } else {
        GaugeLevel::Normal
    }
}

/// The level of the heat gauge: critical above 80%, a warning above 50%.
pub open spec fn heat_level_of(percent: int) -> GaugeLevel {
    if percent > 80 {
        GaugeLevel::Critical
    } else if percent > 50 {
        GaugeLevel::Warning
    } else {
        GaugeLevel::Normal
    }
}

/// The width of the drawn track in an area of the given width: what the
/// margin leaves, and `MIN_TRACK_WIDTH` at least.
pub open spec fn track_width_in(area_width: int) -> int {
    if area_width - TRACK_MARGIN < MIN_TRACK_WIDTH {
        MIN_TRACK_WIDTH as int
    } else {
        area_width - TRACK_MARGIN
    }
}

/// The cell of a car that has made `progress` (in millionths, taken as no
/// more than `MICRO`) along a track of `width` cells: that share of the way
/// from the first cell to the last, rounded down.
pub open spec fn cell_of(progress: int, width: int) -> int {
    clamp(progress, 0, MICRO as int) * (width - 1) / (MICRO as int)
}

/// What the cell at `index` shows on a track of `width` cells with the car in
/// cell `car`: the car, else the finish line in the last cell, else road.
pub open spec fn cell_at(index: int, car: int, width: int) -> TrackCell {
    if index == car {
        TrackCell::Car
    } else if index == width - 1 {
        TrackCell::FinishLine
    } else {
        TrackCell::Road
    }
}

/// The headline for a race: a jumped start, which the negative reaction time
/// shows, comes before everything; then it goes by the winner.
pub open spec fn headline_of(reaction_time: Option<i64>, winner: Option<Winner>) -> Headline {
    if reaction_time is Some && reaction_time->0 < 0 {
        Headline::RedLight
    } else {
        match winner {
            Some(Winner::Player) => Headline::Win,
            Some(Winner::Opponent) => Headline::Lose,
            None => Headline::Draw,
        }
    }
}

/// The time shown for a car: its finish time, or `UNFINISHED_TIME`.
pub open spec fn shown_time(finish_time: Option<i64>) -> int {
    match finish_time {
        Some(time) => time as int,
        None => UNFINISHED_TIME as int,
    }
}

/// The distance between the two shown times, limited to the range of `i64`.
pub open spec fn margin_of(player: Option<i64>, opponent: Option<i64>) -> int {
    let difference = shown_time(player) - shown_time(opponent);
    clamp_i64(
        if difference < 0 {
            -difference
        } else {
            difference
        },
    )
}

/// Computes [`rpm_share`].
pub fn rpm_percent(rpm: u32, redline: u32) -> (percent: u16)
    requires
        redline > 0,
    ensures
        percent == rpm_share(rpm as int, redline as int),
{
    let share: u64 = (rpm as u64) * 100 / (redline as u64);
    if share > u16::MAX as u64 {
        u16::MAX
    } else {
        share as u16
    }
}

/// Computes [`rpm_level_of`].
pub fn rpm_level(percent: u16) -> (level: GaugeLevel)
    ensures
        level == rpm_level_of(percent as int),
{
    if percent > 90 {
        GaugeLevel::Critical
    } else if percent > 75 {
        GaugeLevel::Warning
    } else {
        GaugeLevel::Normal
    }
}

/// A value between 0 and `MICRO`, such as the engine heat, in whole percent:
/// see [`percent_of`].
pub fn gauge_percent(value: i64) -> (percent: u16)
    ensures
        percent == percent_of(value as int),
{
    let share: i128 = floor_div((value as i128) * 100, MICRO as i128);
    if share < 0 {
        0
    } else if share > u16::MAX as i128 {
        u16::MAX
    } else {
        share as u16
    }
}

/// The nitrous left in whole percent of a full load of `full`.
pub fn nos_percent(nos_remaining: i64, full: i64) -> (percent: u16)
    requires
        full > 0,
    ensures
        percent == clamp(nos_remaining * 100 / (full as int), 0, u16::MAX as int),
{
    let share: i128 = floor_div((nos_remaining as i128) * 100, full as i128);
    if share < 0 {
        0
    } else if share > u16::MAX as i128 {
        u16::MAX
    } else {
        share as u16
    }
}

/// Computes [`heat_level_of`].
pub fn heat_level(percent: u16) -> (level: GaugeLevel)
    ensures
        level == heat_level_of(percent as int),
{
    if percent > 80 {
        GaugeLevel::Critical
    } else if percent > 50 {
        GaugeLevel::Warning
    } else {
        GaugeLevel::Normal
    }
}

/// Computes [`track_width_in`].
pub fn track_width(area_width: u16) -> (width: usize)
    ensures
        width == track_width_in(area_width as int),
        width >= MIN_TRACK_WIDTH,
{
    let inner: usize = if area_width > TRACK_MARGIN {
        (area_width - TRACK_MARGIN) as usize
    } else {
        0
    };
    if inner < MIN_TRACK_WIDTH {
        MIN_TRACK_WIDTH
    } else {
        inner
    }
}

/// Computes [`cell_of`].
pub fn track_position(progress: i64, width: usize) -> (cell: usize)
    requires
        width >= 1,
    ensures
        cell == cell_of(progress as int, width as int),
        cell < width,
{
    let share: u128 = if progress < 0 {
        0
    } else if progress > MICRO {
        MICRO as u128
    } else {
        progress as u128
    };
    let last: u128 = (width - 1) as u128;
    assert(0 <= share * last <= 1_000_000 * last) by (nonlinear_arith)
        requires
            0 <= share <= 1_000_000,
            0 <= last,
    ;
    let cell: u128 = share * last / (MICRO as u128);
    cell as usize
}

/// The cells of a track of `width` cells with the car in cell `car`: see
/// [`cell_at`].
pub fn track_cells(car: usize, width: usize) -> (cells: Vec<TrackCell>)
    ensures
        cells@.len() == width,
        forall|i: int| 0 <= i < width ==> cells@[i] == cell_at(i, car as int, width as int),
{
    let mut cells: Vec<TrackCell> = Vec::new();
    let mut index: usize = 0;
    while index < width
        invariant
            index <= width,
            cells@.len() == index,
            forall|i: int| 0 <= i < index ==> cells@[i] == cell_at(i, car as int, width as int),
        decreases width - index,
    {
        let cell = if index == car {
            TrackCell::Car
        } else if index == width - 1 {
            TrackCell::FinishLine
        } else {
            TrackCell::Road
        };
        cells.push(cell);
        index += 1;
    }
    cells
}

/// Computes [`headline_of`].
pub fn headline(reaction_time: Option<i64>, winner: Option<Winner>) -> (line: Headline)
    ensures
        line == headline_of(reaction_time, winner),
{
    let jumped = match reaction_time {
        Some(time) => time < 0,
        None => false,
    };
    if jumped {
        Headline::RedLight
    } else {
        match winner {
            Some(Winner::Player) => Headline::Win,
            Some(Winner::Opponent) => Headline::Lose,
            None => Headline::Draw,
        }
    }
}

/// Computes [`shown_time`].
pub fn display_time(finish_time: Option<i64>) -> (time: i64)
    ensures
        time == shown_time(finish_time),
{
    match finish_time {
        Some(time) => time,
        None => UNFINISHED_TIME,
    }
}

/// Computes [`margin_of`].
pub fn margin(player: Option<i64>, opponent: Option<i64>) -> (distance: i64)
    ensures
        distance == margin_of(player, opponent),
{
    let difference: i128 = display_time(player) as i128 - display_time(opponent) as i128;
    if difference < 0 {
        saturate(-difference)
    } else {
        saturate(difference)
    }
}

} // verus!
