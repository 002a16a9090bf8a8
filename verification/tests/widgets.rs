use chrono::NaiveDate;
use fedik::cli::Args;
use fedik::timing::{get_next_timing, get_unix_time, next_timing_checked};
use fedik::widgets::{
    format_time_string, format_week_string, ClockWidget, DateWidget, RootWidget, Time,
    TimeDisplay, TimeWidget, WeekWidget, WidgetState,
};
use ratatui::style::{Style, Stylize};

#[test]
fn test_time_from_naive_time() {
    let time = "12:34:56.789".parse::<chrono::NaiveTime>().unwrap();
    let rendered = Time::from(time);

    assert_eq!(rendered.hour, 12);
    assert_eq!(rendered.minute, 34);
    assert_eq!(rendered.second, 56);
    assert_eq!(rendered.millisecond, 789);
}

#[test]
fn test_time_widget_new_sets_display() {
    let widget = TimeWidget::new(TimeDisplay::SecondsMs2, true, true);
    assert_eq!(widget.display, TimeDisplay::SecondsMs2);
    assert!(widget.bold);
    assert!(widget.center);
    assert_eq!(widget.time, Time::default());
}

#[test]
fn test_clock_widget_new_sets_flags() {
    let widget = ClockWidget::new(TimeDisplay::SecondsMs1, false, true, false, true);
    assert_eq!(widget.time_widget.display, TimeDisplay::SecondsMs1);
    assert!(!widget.show_date);
    assert!(widget.show_week);
    assert!(!widget.bold);
    assert!(widget.center);
}

#[test]
fn test_get_unix_time() {
    let unix_time = get_unix_time().unwrap();
    assert!(unix_time.as_secs() > 0);
}

#[test]
fn test_next_duration() {
    let unix_time = get_unix_time().unwrap();
    let next = get_next_timing(unix_time, 1000);
    assert!(next.as_millis() > 0);
    assert!(next.as_millis() <= 1000);
}

#[test]
fn test_get_next_timing_rollover_at_boundary() {
    let unix_epoch = std::time::Duration::from_millis(1000);
    let next = get_next_timing(unix_epoch, 1000);
    assert_eq!(next.as_millis(), 1000);
}

#[test]
fn test_get_next_timing_near_second_boundary() {
    let unix_epoch = std::time::Duration::from_millis(1999);
    let next = get_next_timing(unix_epoch, 1000);
    assert_eq!(next.as_millis(), 1);
}

#[test]
fn test_get_next_timing_with_ms_precision() {
    let unix_epoch = std::time::Duration::from_millis(1999);
    let next = get_next_timing(unix_epoch, 1);
    assert_eq!(next.as_millis(), 1);
}

#[test]
fn test_format_week_string() {
    let date = NaiveDate::from_ymd_opt(2021, 1, 1).unwrap();
    let week_str = format_week_string(date);
    assert_eq!(week_str, "w53-5");
}

#[test]
fn test_root_widget_sets_time_display_from_args() {
    let root = RootWidget::new(Args {
        show_seconds: false,
        ms_digits: None,
        center: true,
        bold: true,
        hour_12: false,
        utc: false,
        format: None,
        show_date: true,
        show_week: false,
    });
    assert_eq!(root.clock_widget.time_widget.display, TimeDisplay::Minutes);
    assert!(root.clock_widget.show_date);
    assert!(!root.clock_widget.show_week);

    let root = RootWidget::new(Args {
        show_seconds: true,
        ms_digits: None,
        center: true,
        bold: true,
        hour_12: false,
        utc: false,
        format: None,
        show_date: false,
        show_week: true,
    });
    assert_eq!(root.clock_widget.time_widget.display, TimeDisplay::Seconds);
    assert!(!root.clock_widget.show_date);
    assert!(root.clock_widget.show_week);

    let root = RootWidget::new(Args {
        show_seconds: false,
        ms_digits: Some(2),
        center: true,
        bold: true,
        hour_12: false,
        utc: false,
        format: None,
        show_date: true,
        show_week: true,
    });
    assert_eq!(
        root.clock_widget.time_widget.display,
        TimeDisplay::SecondsMs2
    );
    assert!(root.clock_widget.show_date);
    assert!(root.clock_widget.show_week);
    assert!(root.clock_widget.bold);
}

#[test]
fn test_format_time_string_for_each_display_mode() {
    let time = Time {
        hour: 12,
        minute: 34,
        second: 56,
        millisecond: 789,
    };

    assert_eq!(format_time_string(time, TimeDisplay::Minutes), "12:34");
    assert_eq!(format_time_string(time, TimeDisplay::Seconds), "12:34:56");
    assert_eq!(
        format_time_string(time, TimeDisplay::SecondsMs1),
        "12:34:56.7"
    );
    assert_eq!(
        format_time_string(time, TimeDisplay::SecondsMs2),
        "12:34:56.78"
    );
    assert_eq!(
        format_time_string(time, TimeDisplay::SecondsMs3),
        "12:34:56.789"
    );
}

#[test]
fn format_time_string_pads_small_fields_with_zeros() {
    let time = Time { hour: 1, minute: 2, second: 3, millisecond: 4 };
    assert_eq!(format_time_string(time, TimeDisplay::SecondsMs1), "01:02:03.0");
    assert_eq!(format_time_string(time, TimeDisplay::SecondsMs2), "01:02:03.00");
    assert_eq!(format_time_string(time, TimeDisplay::SecondsMs3), "01:02:03.004");
}

#[test]
fn format_time_string_keeps_wide_fields_whole() {
    let time = Time { hour: 123, minute: 0, second: 7, millisecond: 1999 };
    assert_eq!(format_time_string(time, TimeDisplay::Minutes), "123:00");
    assert_eq!(format_time_string(time, TimeDisplay::SecondsMs1), "123:00:07.19");
}

#[test]
fn time_text_width_is_fixed_for_times_of_day() {
    let widths = [
        (TimeDisplay::Minutes, 5),
        (TimeDisplay::Seconds, 8),
        (TimeDisplay::SecondsMs1, 10),
        (TimeDisplay::SecondsMs2, 11),
        (TimeDisplay::SecondsMs3, 12),
    ];
    for (display, width) in widths {
        for time in [
            Time { hour: 0, minute: 0, second: 0, millisecond: 0 },
            Time { hour: 23, minute: 59, second: 59, millisecond: 999 },
        ] {
            assert_eq!(format_time_string(time, display).chars().count(), width);
        }
    }
}

#[test]
fn time_from_leap_second_keeps_extra_millis() {
    let time = chrono::NaiveTime::from_hms_milli_opt(23, 59, 59, 1_500).unwrap();
    let t = Time::from(time);
    assert_eq!((t.hour, t.minute, t.second, t.millisecond), (23, 59, 59, 1500));
}

#[test]
fn time_from_naive_date_time_takes_the_time_part() {
    let dt = NaiveDate::from_ymd_opt(2024, 2, 29).unwrap().and_hms_milli_opt(7, 8, 9, 10).unwrap();
    assert_eq!(Time::from(dt), Time { hour: 7, minute: 8, second: 9, millisecond: 10 });
}

#[test]
fn format_week_string_for_other_dates() {
    let monday = NaiveDate::from_ymd_opt(2024, 1, 1).unwrap();
    assert_eq!(format_week_string(monday), "w1-1");
    let sunday = NaiveDate::from_ymd_opt(2024, 12, 29).unwrap();
    assert_eq!(format_week_string(sunday), "w52-7");
}

#[test]
fn precision_follows_display() {
    assert_eq!(TimeDisplay::Minutes.precision_ms(), 1000);
    assert_eq!(TimeDisplay::Seconds.precision_ms(), 1000);
    assert_eq!(TimeDisplay::SecondsMs1.precision_ms(), 100);
    assert_eq!(TimeDisplay::SecondsMs2.precision_ms(), 10);
    assert_eq!(TimeDisplay::SecondsMs3.precision_ms(), 1);
}

#[test]
fn root_widget_ms_digits_one_and_three() {
    let args = |ms| Args {
        show_seconds: false,
        ms_digits: Some(ms),
        center: false,
        bold: false,
        hour_12: false,
        utc: false,
        format: None,
        show_date: false,
        show_week: false,
    };
    assert_eq!(RootWidget::new(args(1)).clock_widget.time_widget.display, TimeDisplay::SecondsMs1);
    assert_eq!(RootWidget::new(args(3)).clock_widget.time_widget.display, TimeDisplay::SecondsMs3);
}

#[test]
fn clock_widget_starts_on_placeholder_date() {
    let widget = ClockWidget::new(TimeDisplay::Minutes, true, true, true, false);
    let date = NaiveDate::from_ymd_opt(2000, 1, 1).unwrap();
    assert_eq!(widget.date_widget, DateWidget { state: WidgetState::Enable, date, bold: true, center: false });
    assert_eq!(widget.week_widget, WeekWidget { state: WidgetState::Enable, weekday: date, bold: true, center: false });
}

#[test]
fn set_now_updates_time_and_dates_only() {
    let mut root = RootWidget::new(Args {
        show_seconds: true,
        ms_digits: None,
        center: false,
        bold: true,
        hour_12: false,
        utc: false,
        format: None,
        show_date: true,
        show_week: true,
    });
    let before = root.clone();
    let now = NaiveDate::from_ymd_opt(2021, 1, 1).unwrap().and_hms_milli_opt(12, 34, 56, 789).unwrap();
    root.set_now(now);
    let w = &root.clock_widget;
    assert_eq!(w.time_widget.time, Time { hour: 12, minute: 34, second: 56, millisecond: 789 });
    assert_eq!(w.date_widget.date, now.date());
    assert_eq!(w.week_widget.weekday, now.date());
    assert_eq!(w.time_widget.display, before.clock_widget.time_widget.display);
    assert_eq!(w.layout, before.clock_widget.layout);
    assert_eq!(w.show_date, before.clock_widget.show_date);
}

#[test]
fn clock_rows_fill_the_area() {
    let widget = ClockWidget::new(TimeDisplay::Minutes, true, true, false, false);
    let rows = widget.rows(40);
    assert_eq!(rows.heights, vec![23, 1, 1, 15]);
    assert_eq!(rows.date_row, Some(1));
    assert_eq!(rows.week_row, Some(2));
    let rows = widget.rows(4);
    assert_eq!(rows.heights, vec![5, 1, 1, 0]);
    let only_week = ClockWidget::new(TimeDisplay::Minutes, false, true, false, false);
    let rows = only_week.rows(10);
    assert_eq!(rows.heights, vec![8, 1, 1]);
    assert_eq!(rows.date_row, None);
    assert_eq!(rows.week_row, Some(1));
}

#[test]
fn time_cells_are_centered() {
    let mut widget = TimeWidget::new(TimeDisplay::Minutes, false, true);
    widget.time = Time { hour: 12, minute: 34, second: 0, millisecond: 0 };
    let cells = widget.cells(100, 20);
    assert_eq!(cells.styles.len(), 5);
    assert_eq!(cells.styles[0].len(), 31);
    assert_eq!(cells.offset_x, (100 - 31) / 2);
    assert_eq!(cells.offset_y, 15);
    let narrow = widget.cells(10, 2);
    assert_eq!(narrow.offset_x, (65536 + 10 - 31) / 2);
    assert_eq!(narrow.offset_y, 65536 + 2 - 5);
    let left = TimeWidget::new(TimeDisplay::Minutes, false, false).cells(100, 20);
    assert_eq!((left.offset_x, left.offset_y), (0, 0));
}

#[test]
fn date_and_week_lines() {
    let date = NaiveDate::from_ymd_opt(2021, 1, 1).unwrap();
    let line = DateWidget::new(date, true, true).line(20);
    assert_eq!(line.text, "2021-01-01");
    assert_eq!(line.offset_x, 5);
    assert_eq!(line.style, Style::new().green().bold());
    let line = WeekWidget::new(date, false, false).line(20);
    assert_eq!(line.text, "w53-5");
    assert_eq!(line.offset_x, 0);
    assert_eq!(line.style, Style::new().green());
}

#[test]
fn next_timing_checked_refuses_overflowing_clock() {
    let far = std::time::Duration::from_secs(u64::MAX / 1000 + 1);
    assert_eq!(next_timing_checked(far, 1000), None);
    let near = std::time::Duration::from_millis(2_500);
    assert_eq!(next_timing_checked(near, 1000), Some(std::time::Duration::from_millis(500)));
    assert_eq!(next_timing_checked(near, 0), Some(std::time::Duration::from_millis(1)));
}
