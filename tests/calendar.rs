use conky_calendar::date::{days_in_month, is_leap_year, title_of, weekday_of, CalDate};
use conky_calendar::layout::{first_offset, weekend_column, weekend_columns, WeekStart};
use conky_calendar::render::{
    center, decimal_text, render_calendar, render_header, render_month, render_rows,
    weekday_labels,
};
use conky_calendar::style::{cell_style, color_of_style, CellStyle, RenderConfig};

fn date(y: i32, m: u32, d: u32) -> CalDate {
    CalDate::new(y, m, d).unwrap()
}

fn colored(week_start: WeekStart) -> RenderConfig {
    RenderConfig {
        week_start,
        label_color: None,
        today_color: Some(String::from("FF0000")),
        weekend_color: Some(String::from("00FF00")),
        day_color: None,
    }
}

#[test]
fn leap_years() {
    assert!(is_leap_year(2000));
    assert!(!is_leap_year(1900));
    assert!(is_leap_year(2024));
    assert!(!is_leap_year(2023));
    assert!(is_leap_year(-4));
    assert!(!is_leap_year(-100));
    assert!(is_leap_year(-400));
}

#[test]
fn month_lengths() {
    assert_eq!(days_in_month(date(2023, 1, 1)), 31);
    assert_eq!(days_in_month(date(2023, 2, 1)), 28);
    assert_eq!(days_in_month(date(2024, 2, 1)), 29);
    assert_eq!(days_in_month(date(2023, 4, 1)), 30);
    assert_eq!(days_in_month(date(2023, 12, 1)), 31);
    assert_eq!(days_in_month(date(1900, 2, 1)), 28);
    assert_eq!(days_in_month(date(2000, 2, 1)), 29);
}

#[test]
fn date_validation() {
    assert!(CalDate::new(2024, 2, 29).is_some());
    assert!(CalDate::new(2023, 2, 29).is_none());
    assert!(CalDate::new(2024, 4, 31).is_none());
    assert!(CalDate::new(2024, 13, 1).is_none());
    assert!(CalDate::new(2024, 0, 1).is_none());
    assert!(CalDate::new(2024, 1, 0).is_none());
    assert!(CalDate::new(262142, 12, 31).is_some());
    assert!(CalDate::new(262143, 1, 1).is_none());
    assert!(CalDate::new(-262143, 1, 1).is_some());
    assert!(CalDate::new(-262144, 1, 1).is_none());
    let d = date(2024, 11, 17).first_of_month();
    assert_eq!(d, date(2024, 11, 1));
}

#[test]
fn weekdays_from_the_calendar() {
    assert_eq!(weekday_of(date(2024, 11, 1)), 5);
    assert_eq!(weekday_of(date(2024, 9, 1)), 0);
    assert_eq!(weekday_of(date(2024, 7, 1)), 1);
    assert_eq!(weekday_of(date(2000, 1, 1)), 6);
}

#[test]
fn month_titles() {
    assert_eq!(title_of(date(2024, 11, 5)), "November 2024");
    assert_eq!(title_of(date(2023, 2, 28)), "February 2023");
}

#[test]
fn offsets() {
    assert_eq!(first_offset(0, WeekStart::Sunday), 0);
    assert_eq!(first_offset(1, WeekStart::Monday), 0);
    assert_eq!(first_offset(5, WeekStart::Sunday), 5);
    assert_eq!(first_offset(5, WeekStart::Monday), 4);
    assert_eq!(first_offset(0, WeekStart::Monday), 6);
    assert_eq!(first_offset(6, WeekStart::Sunday), 6);
    for wd in 0..7 {
        assert!(first_offset(wd, WeekStart::Sunday) <= 6);
        assert!(first_offset(wd, WeekStart::Monday) <= 6);
    }
}

#[test]
fn weekend_columns_by_week_start() {
    assert_eq!(weekend_columns(WeekStart::Sunday), (6, 0));
    assert_eq!(weekend_columns(WeekStart::Monday), (5, 6));
    let sunday: Vec<u32> = (0..7).filter(|c| weekend_column(WeekStart::Sunday, *c)).collect();
    let monday: Vec<u32> = (0..7).filter(|c| weekend_column(WeekStart::Monday, *c)).collect();
    assert_eq!(sunday, vec![0, 6]);
    assert_eq!(monday, vec![5, 6]);
}

#[test]
fn today_beats_weekend() {
    let cfg = colored(WeekStart::Sunday);
    assert_eq!(cell_style(&cfg, 2, 2, true), CellStyle::Today);
    assert_eq!(color_of_style(&cfg, CellStyle::Today), Some(&String::from("FF0000")));
    assert_eq!(cell_style(&cfg, 3, 2, true), CellStyle::Weekend);
    assert_eq!(cell_style(&cfg, 4, 2, false), CellStyle::Plain);
    // November 2, 2024 is a Saturday, column 6 under a Sunday start.
    let rows = render_rows(&cfg, 5, 30, 2);
    assert!(rows[0].ends_with("${color #FF0000} 2 ${color}"));
    assert!(!rows[0].contains("00FF00"));
    assert!(rows[1].starts_with("${color #00FF00} 3 ${color}"));
}

#[test]
fn day_color_is_the_fallback() {
    let cfg = RenderConfig {
        week_start: WeekStart::Monday,
        label_color: None,
        today_color: None,
        weekend_color: Some(String::from("0000FF")),
        day_color: Some(String::from("AAAAAA")),
    };
    assert_eq!(cell_style(&cfg, 9, 9, false), CellStyle::Day);
    assert_eq!(cell_style(&cfg, 9, 9, true), CellStyle::Weekend);
    assert_eq!(color_of_style(&cfg, CellStyle::Day), Some(&String::from("AAAAAA")));
    assert_eq!(color_of_style(&cfg, CellStyle::Plain), None);
    let rows = render_rows(&cfg, 0, 7, 1);
    assert_eq!(
        rows[0],
        "${color #AAAAAA} 1 ${color}${color #AAAAAA} 2 ${color}${color #AAAAAA} 3 ${color}\
         ${color #AAAAAA} 4 ${color}${color #AAAAAA} 5 ${color}${color #0000FF} 6 ${color}\
         ${color #0000FF} 7 ${color}"
    );
}

#[test]
fn no_colors_no_markup() {
    let cfg = RenderConfig::plain(WeekStart::Sunday);
    let text = render_month(date(2024, 11, 15), &cfg);
    assert!(!text.contains("${color"));
    let cfg = RenderConfig::plain(WeekStart::Monday);
    let text = render_month(date(2023, 2, 1), &cfg);
    assert!(!text.contains('$'));
}

#[test]
fn november_2024_layout() {
    let cfg = RenderConfig::plain(WeekStart::Sunday);
    let first = date(2024, 11, 1);
    let offset = first_offset(weekday_of(first), WeekStart::Sunday);
    assert_eq!(offset, 5);
    let rows = render_rows(&cfg, offset, days_in_month(first), 0);
    assert_eq!(rows.len(), 5);
    assert_eq!(rows[0], format!("{} 1  2 ", " ".repeat(15)));
    assert!(rows[1].starts_with(" 3 "));
    assert_eq!(rows[1], " 3  4  5  6  7  8  9 ");
    assert_eq!(rows[4], "24 25 26 27 28 29 30 ");
}

#[test]
fn november_2024_full_text() {
    let cfg = RenderConfig::plain(WeekStart::Sunday);
    let text = render_month(date(2024, 11, 20), &cfg);
    let expected = String::from("   November 2024    \n")
        + "Su Mo Tu We Th Fr Sa\n"
        + "                1  2 \n"
        + " 3  4  5  6  7  8  9 \n"
        + "10 11 12 13 14 15 16 \n"
        + "17 18 19 20 21 22 23 \n"
        + "24 25 26 27 28 29 30 \n";
    assert_eq!(text, expected);
}

#[test]
fn row_counts() {
    let cfg = RenderConfig::plain(WeekStart::Sunday);
    assert_eq!(render_rows(&cfg, 0, 28, 0).len(), 4);
    assert_eq!(render_rows(&cfg, 6, 31, 0).len(), 6);
    assert_eq!(render_rows(&cfg, 1, 28, 0).len(), 5);
    assert_eq!(render_rows(&cfg, 6, 30, 0).len(), 6);
    assert_eq!(render_rows(&cfg, 5, 30, 0).len(), 5);
    let rows = render_rows(&cfg, 0, 28, 0);
    assert_eq!(rows[3], "22 23 24 25 26 27 28 ");
}

#[test]
fn centering() {
    assert_eq!(center("5", 3), " 5 ");
    assert_eq!(center("15", 3), "15 ");
    assert_eq!(center("November 2024", 20), "   November 2024    ");
    assert_eq!(center("September 2024", 20), "   September 2024   ");
    assert_eq!(center("a title much longer than twenty", 20), "a title much longer than twenty");
    assert_eq!(center("", 4), "    ");
    assert_eq!(decimal_text(7), "7");
    assert_eq!(decimal_text(31), "31");
}

#[test]
fn headers() {
    assert_eq!(weekday_labels(WeekStart::Sunday), "Su Mo Tu We Th Fr Sa");
    assert_eq!(weekday_labels(WeekStart::Monday), "Mo Tu We Th Fr Sa Su");
    let mut cfg = RenderConfig::plain(WeekStart::Monday);
    assert_eq!(render_header("May 2025", &cfg), "      May 2025      \nMo Tu We Th Fr Sa Su");
    cfg.label_color = Some(String::from("ABCDEF"));
    assert_eq!(
        render_header("May 2025", &cfg),
        "${color #ABCDEF}      May 2025      \nMo Tu We Th Fr Sa Su${color}"
    );
}

#[test]
fn calendar_with_given_title() {
    let cfg = RenderConfig::plain(WeekStart::Monday);
    let text = render_calendar("X", &cfg, 6, 8, 0);
    let expected = String::from("         X          \n")
        + "Mo Tu We Th Fr Sa Su\n"
        + "                   1 \n"
        + " 2  3  4  5  6  7  8 \n";
    assert_eq!(text, expected);
}
