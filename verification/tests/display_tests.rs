use drag_rs::display::{
    display_time, gauge_percent, headline, heat_level, margin, nos_percent, rpm_level, rpm_percent,
    track_cells, track_position, track_width, GaugeLevel, Headline, TrackCell, UNFINISHED_TIME,
};
use drag_rs::game::race::Winner;
use drag_rs::game::state::INITIAL_NOS;
use drag_rs::game::units::MICRO;

#[test]
fn rpm_gauge_reads_percent_of_the_redline() {
    assert_eq!(rpm_percent(0, 8000), 0);
    assert_eq!(rpm_percent(1000, 8000), 12);
    assert_eq!(rpm_percent(7200, 8000), 90);
    assert_eq!(rpm_percent(7279, 8000), 90);
    assert_eq!(rpm_percent(7280, 8000), 91);
    assert_eq!(rpm_percent(8000, 8000), 100);
    assert_eq!(rpm_percent(12_000, 8000), 150);
    assert_eq!(rpm_percent(u32::MAX, 1), u16::MAX);
}

#[test]
fn rpm_gauge_levels() {
    assert_eq!(rpm_level(0), GaugeLevel::Normal);
    assert_eq!(rpm_level(75), GaugeLevel::Normal);
    assert_eq!(rpm_level(76), GaugeLevel::Warning);
    assert_eq!(rpm_level(90), GaugeLevel::Warning);
    assert_eq!(rpm_level(91), GaugeLevel::Critical);
    assert_eq!(rpm_level(u16::MAX), GaugeLevel::Critical);
}

#[test]
fn heat_gauge_reads_percent() {
    assert_eq!(gauge_percent(0), 0);
    assert_eq!(gauge_percent(9_999), 0);
    assert_eq!(gauge_percent(10_000), 1);
    assert_eq!(gauge_percent(505_000), 50);
    assert_eq!(gauge_percent(MICRO), 100);
    assert_eq!(gauge_percent(-1), 0);
    assert_eq!(gauge_percent(i64::MAX), u16::MAX);
}

#[test]
fn heat_gauge_levels() {
    assert_eq!(heat_level(50), GaugeLevel::Normal);
    assert_eq!(heat_level(51), GaugeLevel::Warning);
    assert_eq!(heat_level(80), GaugeLevel::Warning);
    assert_eq!(heat_level(81), GaugeLevel::Critical);
}

#[test]
fn nitrous_gauge_reads_percent_of_a_full_load() {
    assert_eq!(nos_percent(INITIAL_NOS, INITIAL_NOS), 100);
    assert_eq!(nos_percent(5_000_000, INITIAL_NOS), 50);
    assert_eq!(nos_percent(99_999, INITIAL_NOS), 0);
    assert_eq!(nos_percent(0, INITIAL_NOS), 0);
    assert_eq!(nos_percent(-7, INITIAL_NOS), 0);
    assert_eq!(nos_percent(i64::MAX, 1), u16::MAX);
}

#[test]
fn the_track_fits_the_area() {
    assert_eq!(track_width(0), 20);
    assert_eq!(track_width(10), 20);
    assert_eq!(track_width(30), 20);
    assert_eq!(track_width(31), 21);
    assert_eq!(track_width(120), 110);
    assert_eq!(track_width(u16::MAX), 65_525);
}

#[test]
fn a_car_stands_at_its_share_of_the_track() {
    assert_eq!(track_position(0, 20), 0);
    assert_eq!(track_position(500_000, 21), 10);
    assert_eq!(track_position(999_999, 20), 18);
    assert_eq!(track_position(MICRO, 20), 19);
    assert_eq!(track_position(MICRO + 1, 20), 19);
    assert_eq!(track_position(i64::MAX, 20), 19);
    assert_eq!(track_position(-3, 20), 0);
    assert_eq!(track_position(MICRO, 1), 0);
    assert_eq!(track_position(250_000, 110), 27);
}

#[test]
fn the_track_shows_car_finish_line_and_road() {
    let cells = track_cells(2, 6);
    assert_eq!(
        cells,
        vec![
            TrackCell::Road,
            TrackCell::Road,
            TrackCell::Car,
            TrackCell::Road,
            TrackCell::Road,
            TrackCell::FinishLine
        ]
    );
    let cells = track_cells(5, 6);
    assert_eq!(cells[5], TrackCell::Car);
    assert_eq!(cells.iter().filter(|c| **c == TrackCell::FinishLine).count(), 0);
    let cells = track_cells(9, 3);
    assert_eq!(cells, vec![TrackCell::Road, TrackCell::Road, TrackCell::FinishLine]);
    assert!(track_cells(0, 0).is_empty());
}

#[test]
fn headlines() {
    assert_eq!(headline(Some(-1_000_000), Some(Winner::Opponent)), Headline::RedLight);
    assert_eq!(headline(Some(-1), Some(Winner::Player)), Headline::RedLight);
    assert_eq!(headline(Some(0), Some(Winner::Player)), Headline::Win);
    assert_eq!(headline(Some(200_000), Some(Winner::Opponent)), Headline::Lose);
    assert_eq!(headline(Some(200_000), None), Headline::Draw);
    assert_eq!(headline(None, Some(Winner::Player)), Headline::Win);
    assert_eq!(headline(None, Some(Winner::Opponent)), Headline::Lose);
    assert_eq!(headline(None, None), Headline::Draw);
}

#[test]
fn shown_times_and_margin() {
    assert_eq!(display_time(Some(12_345_678)), 12_345_678);
    assert_eq!(display_time(None), 999_000_000);
    assert_eq!(display_time(None), UNFINISHED_TIME);
    assert_eq!(margin(Some(12_000_000), Some(11_250_000)), 750_000);
    assert_eq!(margin(Some(11_250_000), Some(12_000_000)), 750_000);
    assert_eq!(margin(Some(11_250_000), Some(11_250_000)), 0);
    assert_eq!(margin(None, Some(12_000_000)), 987_000_000);
    assert_eq!(margin(None, None), 0);
    assert_eq!(margin(Some(i64::MIN), Some(i64::MAX)), i64::MAX);
}
