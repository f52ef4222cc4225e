use bubbles_core::bubble::Bubble;
use bubbles_core::date::rolling_week;
use bubbles_core::date::Date;
use bubbles_core::error::BubbleError;
use bubbles_core::grid::display_grid;
use bubbles_core::grid::explain_rows;
use bubbles_core::grid::grid_headings;
use bubbles_core::grid::heading_row;
use bubbles_core::status::BubbleStatus;

fn day(year: i32, month: u32, day: u32) -> Date {
    Date::from_ymd(year, month, day).unwrap()
}

fn sample() -> Vec<Bubble> {
    let mut sleep = Bubble::new("Sleep", "eight hours");
    sleep.set_brief("zz/night");
    sleep.set_status(day(2024, 1, 1), BubbleStatus::Full);
    sleep.set_status(day(2024, 1, 6), BubbleStatus::HalfFull);
    sleep.set_status(day(2023, 12, 31), BubbleStatus::Full);
    let mut water = Bubble::new("Water", "two litres");
    water.set_brief("h2o/all day");
    water.set_status(day(2024, 1, 7), BubbleStatus::Empty);
    vec![sleep, water]
}

#[test]
fn make_row_is_name_brief_and_a_glyph_per_day() {
    let ledger = sample();
    let week = rolling_week(day(2024, 1, 7), 0);
    assert_eq!(
        ledger[0].make_row(&week),
        vec!["Sleep", "zz/night", "●", "◌", "◌", "◌", "◌", "◐", "◌"]
    );
    assert_eq!(
        ledger[1].make_row(&week),
        vec!["Water", "h2o/all day", "◌", "◌", "◌", "◌", "◌", "◌", "○"]
    );
}

#[test]
fn make_row_follows_the_order_of_the_days() {
    let ledger = sample();
    let days = [day(2024, 1, 6), day(2024, 1, 1), day(2024, 1, 6)];
    assert_eq!(ledger[0].make_row(&days), vec!["Sleep", "zz/night", "◐", "●", "◐"]);
    assert_eq!(ledger[0].make_row(&[]), vec!["Sleep", "zz/night"]);
}

#[test]
fn display_grid_has_one_row_per_entry() {
    let ledger = sample();
    let week = rolling_week(day(2024, 1, 7), 0);
    assert_eq!(
        display_grid(&ledger, &week, false),
        vec![
            vec!["Sleep", "zz/night", "●", "◌", "◌", "◌", "◌", "◐", "◌"],
            vec!["Water", "h2o/all day", "◌", "◌", "◌", "◌", "◌", "◌", "○"],
        ]
    );
}

#[test]
fn simple_grid_leaves_the_brief_out() {
    let ledger = sample();
    let week = rolling_week(day(2024, 1, 7), 0);
    assert_eq!(
        display_grid(&ledger, &week, true),
        vec![
            vec!["Sleep", "●", "◌", "◌", "◌", "◌", "◐", "◌"],
            vec!["Water", "◌", "◌", "◌", "◌", "◌", "◌", "○"],
        ]
    );
    assert_eq!(display_grid(&Vec::new(), &week, true), Vec::<Vec<String>>::new());
}

#[test]
fn heading_row_puts_the_titles_first() {
    let days = vec!["a".to_string(), "b".to_string()];
    assert_eq!(heading_row(false, days.clone()), vec!["Tasks", "Brief", "a", "b"]);
    assert_eq!(heading_row(true, days), vec!["Tasks", "a", "b"]);
    assert_eq!(heading_row(true, Vec::new()), vec!["Tasks"]);
}

#[test]
fn grid_headings_for_a_week() {
    let week = rolling_week(day(2024, 1, 7), 0);
    assert_eq!(
        grid_headings(&week, false),
        Some(
            vec![
                "Tasks",
                "Brief",
                "Mon\n01/01",
                "Tue\n01/02",
                "Wed\n01/03",
                "Thu\n01/04",
                "Fri\n01/05",
                "Sat\n01/06",
                "Sun\n01/07"
            ]
            .into_iter()
            .map(String::from)
            .collect()
        )
    );
    let simple = grid_headings(&week, true).unwrap();
    assert_eq!(simple.len(), 8);
    assert_eq!(simple[0], "Tasks");
    assert_eq!(simple[1], "Mon\n01/01");
}

#[test]
fn grid_headings_fail_on_a_day_without_text() {
    let days = [day(2024, 1, 7), Date { days: i32::MAX }];
    assert_eq!(grid_headings(&days, false), None);
}

#[test]
fn explain_rows_align_the_slashes() {
    let ledger = sample();
    assert_eq!(
        explain_rows(&ledger),
        Ok(vec![
            vec!["Sleep".to_string(), " zz/night  ".to_string(), "eight hours".to_string()],
            vec!["Water".to_string(), "h2o/all day".to_string(), "two litres".to_string()],
        ])
    );
}

#[test]
fn explain_rows_pad_by_characters() {
    let mut a = Bubble::new("A", "");
    a.set_brief("é/x");
    let mut b = Bubble::new("B", "");
    b.set_brief("abc/üüü");
    let mut c = Bubble::new("C", "");
    c.set_brief("/");
    assert_eq!(
        explain_rows(&vec![a, b, c]),
        Ok(vec![
            vec!["A".to_string(), "  é/x  ".to_string(), String::new()],
            vec!["B".to_string(), "abc/üüü".to_string(), String::new()],
            vec!["C".to_string(), "   /   ".to_string(), String::new()],
        ])
    );
    assert_eq!(explain_rows(&Vec::new()), Ok(Vec::new()));
}

#[test]
fn explain_rows_reject_a_malformed_brief() {
    let mut ledger = sample();
    ledger.push(Bubble::new("Diet", ""));
    assert_eq!(explain_rows(&ledger), Err(BubbleError::DecodeError));
    let mut ledger = sample();
    ledger[0].set_brief("a/b/c");
    assert_eq!(explain_rows(&ledger), Err(BubbleError::DecodeError));
}
