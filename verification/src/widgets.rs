//! The clock's widgets and what they compute before anything is drawn: the
//! time text and its cells, the date and week lines, and the rows of the
//! clock's layout.
use crate::calendar::{
    date_from_ymd, date_of, date_part, date_string, date_text, hour, hour_of, iso_week,
    iso_week_number, minute, minute_of, nanosecond, nanosecond_of, second, second_of, time_of,
    time_part, weekday_from_monday, weekday_number, ymd,
};
use crate::cli::Args;
use crate::font::{
    convert_style_vec, grid_view, paints_segments_green, standard_glyph, standard_knows_all, standard_row, stroke_style,
    strings_view, style_rows, RenderedText, GLYPH_HEIGHT,
};
use crate::text::{
    decimal, is_digit, lemma_decimal_digits, lemma_decimal_len_below_1000, lemma_zero_padded_digits,
    push_decimal, push_zero_padded, zero_padded,
};
use crate::tui::{
    bold as bold_style, default_layout, green, green_foreground, has_green_background, new_style,
    stylized_bold,
};
use chrono::{NaiveDate, NaiveDateTime, NaiveTime};
use ratatui::layout::Layout;
use ratatui::style::Style;
use vstd::prelude::*;
use vstd::utf8::{encode_utf8, is_ascii_chars, is_ascii_chars_encode_utf8};

verus! {

/// A time of day as the clock shows it.
#[derive(Debug, Copy, Clone, PartialEq, Eq, Structural)]
pub struct Time {
    pub hour: u32,
    pub minute: u32,
    pub second: u32,
    pub millisecond: u32,
}

impl Default for Time {
    /// Midnight: every field zero.
    fn default() -> (t: Time)
        ensures
            t == (Time { hour: 0, minute: 0, second: 0, millisecond: 0 }),
    {
        Time { hour: 0, minute: 0, second: 0, millisecond: 0 }
    }
}

/// The clock time of a chrono time of day: its hour, minute and second, and
/// its nanoseconds in whole milliseconds.
pub open spec fn time_of_day(t: NaiveTime) -> Time {
    Time {
        hour: hour_of(t),
        minute: minute_of(t),
        second: second_of(t),
        millisecond: (nanosecond_of(t) / 1_000_000) as u32,
    }
}

impl From<NaiveTime> for Time {
    fn from(time: NaiveTime) -> (t: Time)
        ensures
            t == time_of_day(time),
            t.hour < 24 && t.minute < 60 && t.second < 60 && t.millisecond < 2000,
    {
        Time {
            hour: hour(time),
            minute: minute(time),
            second: second(time),
            millisecond: nanosecond(time) / 1_000_000,
        }
    }
}

impl vstd::std_specs::convert::FromSpecImpl<NaiveTime> for Time {
    open spec fn obeys_from_spec() -> bool {
        true
    }

    open spec fn from_spec(v: NaiveTime) -> Time {
        time_of_day(v)
    }
}

impl From<NaiveDateTime> for Time {
    fn from(date_time: NaiveDateTime) -> (t: Time)
        ensures
            t == time_of_day(time_of(date_time)),
    {
        Time::from(time_part(date_time))
    }
}

impl vstd::std_specs::convert::FromSpecImpl<NaiveDateTime> for Time {
    open spec fn obeys_from_spec() -> bool {
        true
    }

    open spec fn from_spec(v: NaiveDateTime) -> Time {
        time_of_day(time_of(v))
    }
}

/// Whether a widget is drawn.
#[derive(Debug, Copy, Clone, PartialEq, Eq, Structural)]
pub enum WidgetState {
    Enable,
}

/// How much of the time the clock shows.
#[derive(Debug, Copy, Clone, PartialEq, Eq, Structural)]
pub enum TimeDisplay {
    /// `HH:MM`
    Minutes,
    /// `HH:MM:SS`
    Seconds,
    /// `HH:MM:SS.m`: tenths of a second
    SecondsMs1,
    /// `HH:MM:SS.mm`: hundredths of a second
    SecondsMs2,
    /// `HH:MM:SS.mmm`: milliseconds
    SecondsMs3,
}

/// The text the clock shows for `time`: hours and minutes, then seconds,
/// then 1 to 3 digits of the fraction of a second, as `display` asks; each
/// field zero-padded to two digits (the fraction to its own width).
pub open spec fn time_text(time: Time, display: TimeDisplay) -> Seq<char> {
    let hm = zero_padded(time.hour as nat, 2) + seq![':'] + zero_padded(time.minute as nat, 2);
    let hms = hm + seq![':'] + zero_padded(time.second as nat, 2);
    match display {
        TimeDisplay::Minutes => hm,
        TimeDisplay::Seconds => hms,
        TimeDisplay::SecondsMs1 => hms + seq!['.'] + zero_padded((time.millisecond / 100) as nat, 1),
        TimeDisplay::SecondsMs2 => hms + seq!['.'] + zero_padded((time.millisecond / 10) as nat, 2),
        TimeDisplay::SecondsMs3 => hms + seq!['.'] + zero_padded(time.millisecond as nat, 3),
    }
}

/// The text of `time` as `display` asks (see `time_text`).
pub fn format_time_string(time: Time, display: TimeDisplay) -> (s: String)
    ensures
        s@ == time_text(time, display),
{
    let mut s = String::new();
    proof {
        reveal_strlit(":");
        reveal_strlit(".");
    }
    push_zero_padded(&mut s, time.hour, 2);
    s.append(":");
    push_zero_padded(&mut s, time.minute, 2);
    match display {
        TimeDisplay::Minutes => {},
        _ => {
            s.append(":");
            push_zero_padded(&mut s, time.second, 2);
        },
    }
    match display {
        TimeDisplay::SecondsMs1 => {
            s.append(".");
            push_zero_padded(&mut s, time.millisecond / 100, 1);
        },
        TimeDisplay::SecondsMs2 => {
            s.append(".");
            push_zero_padded(&mut s, time.millisecond / 10, 2);
        },
        TimeDisplay::SecondsMs3 => {
            s.append(".");
            push_zero_padded(&mut s, time.millisecond, 3);
        },
        _ => {},
    }
    s
}

/// The week line of `date`: `w`, its ISO week number, `-`, and its weekday
/// number (Monday 1 to Sunday 7).
pub open spec fn week_text(date: NaiveDate) -> Seq<char> {
    seq!['w'] + decimal(iso_week_number(date) as nat) + seq!['-'] + decimal(
        weekday_from_monday(date) as nat,
    )
}

/// The week line is ASCII, at most five characters long (`w53-7`), so it
/// takes one byte per character.
pub proof fn lemma_week_text_ascii(date: NaiveDate)
    requires
        1 <= iso_week_number(date) <= 53,
        1 <= weekday_from_monday(date) <= 7,
    ensures
        is_ascii_chars(week_text(date)),
        week_text(date).len() <= 5,
        encode_utf8(week_text(date)).len() == week_text(date).len(),
{
    let w = iso_week_number(date) as nat;
    let d = weekday_from_monday(date) as nat;
    lemma_decimal_digits(w);
    lemma_decimal_digits(d);
    lemma_decimal_len_below_1000(w);
    lemma_decimal_len_below_1000(d);
    let t = week_text(date);
    assert forall|i: int| 0 <= i < t.len() implies '\0' <= #[trigger] t[i] <= '\u{7f}' by {
        assert(t[i] == 'w' || t[i] == '-' || is_digit(t[i]));
    }
    is_ascii_chars_encode_utf8(t);
}

/// The week line of `weekday` (see `week_text`), such as `w53-5` for
/// 2021-01-01.
pub fn format_week_string(weekday: NaiveDate) -> (s: String)
    ensures
        s@ == week_text(weekday),
        is_ascii_chars(s@),
        s@.len() <= 5,
{
    let iso_week = iso_week(weekday);
    let day = weekday_number(weekday);
    let mut s = String::new();
    proof {
        reveal_strlit("w");
        reveal_strlit("-");
    }
    s.append("w");
    push_decimal(&mut s, iso_week);
    s.append("-");
    push_decimal(&mut s, day);
    proof {
        assert(s@ =~= week_text(weekday));
        lemma_week_text_ascii(weekday);
    }
    s
}

/// The clock's font has a glyph for every character of every time text:
/// showing a time never meets a character it cannot draw.
pub proof fn lemma_time_text_renders(time: Time, display: TimeDisplay)
    ensures
        standard_knows_all(time_text(time, display)),
{
    lemma_zero_padded_digits(time.hour as nat, 2);
    lemma_zero_padded_digits(time.minute as nat, 2);
    lemma_zero_padded_digits(time.second as nat, 2);
    lemma_zero_padded_digits((time.millisecond / 100) as nat, 1);
    lemma_zero_padded_digits((time.millisecond / 10) as nat, 2);
    lemma_zero_padded_digits(time.millisecond as nat, 3);
    let s = time_text(time, display);
    assert forall|i: int| 0 <= i < s.len() implies (#[trigger] standard_glyph(s[i])) is Some by {
        assert(is_digit(s[i]) || s[i] == ':' || s[i] == '.');
    }
}

/// The number of characters of the time text of a time of day: the clock's
/// face keeps one width from one time to the next.
pub open spec fn time_text_len(display: TimeDisplay) -> int {
    match display {
        TimeDisplay::Minutes => 5,
        TimeDisplay::Seconds => 8,
        TimeDisplay::SecondsMs1 => 10,
        TimeDisplay::SecondsMs2 => 11,
        TimeDisplay::SecondsMs3 => 12,
    }
}

/// For a time of day (hours below 24, minutes and seconds below 60,
/// milliseconds below 1000) the time text has the width `time_text_len` of
/// its display, whatever the time.
pub proof fn lemma_time_text_fixed_width(time: Time, display: TimeDisplay)
    requires
        time.hour < 24,
        time.minute < 60,
        time.second < 60,
        time.millisecond < 1000,
    ensures
        time_text(time, display).len() == time_text_len(display),
{
    lemma_decimal_len_below_1000(time.hour as nat);
    lemma_decimal_len_below_1000(time.minute as nat);
    lemma_decimal_len_below_1000(time.second as nat);
    lemma_decimal_len_below_1000((time.millisecond / 100) as nat);
    lemma_decimal_len_below_1000((time.millisecond / 10) as nat);
    lemma_decimal_len_below_1000(time.millisecond as nat);
}

/// The five rows of the time text in the clock's font.
pub open spec fn time_rows(time: Time, display: TimeDisplay) -> Seq<Seq<char>> {
    Seq::new(GLYPH_HEIGHT as nat, |k: int| standard_row(time_text(time, display), k))
}

/// `a - b` on 16 bits, wrapping around below zero, as `u16::wrapping_sub`
/// computes it.
pub open spec fn wrapped_sub(a: u16, b: int) -> int {
    if a >= b {
        a - b
    } else {
        a - b + 65536
    }
}

/// The big time display.
#[derive(Debug, Clone, PartialEq, Eq, Structural)]
pub struct TimeWidget {
    pub state: WidgetState,
    pub time: Time,
    pub display: TimeDisplay,
    pub bold: bool,
    pub center: bool,
}

/// The cells of the time display: one style per cell of the rendered time
/// text, row by row, and where the top left cell goes in the widget's area.
pub struct TimeCells {
    pub offset_x: i32,
    pub offset_y: i32,
    pub styles: Vec<Vec<Style>>,
}

impl TimeWidget {
    /// An enabled widget showing midnight.
    pub fn new(display: TimeDisplay, bold: bool, center: bool) -> (w: TimeWidget)
        ensures
            w == (TimeWidget {
                state: WidgetState::Enable,
                time: Time { hour: 0, minute: 0, second: 0, millisecond: 0 },
                display,
                bold,
                center,
            }),
    {
        TimeWidget { state: WidgetState::Enable, time: Time::default(), display, bold, center }
    }

    /// The cells to paint in an area of `width` by `height`: the time text
    /// rendered with the clock's font, a styled cell per character of the
    /// rendering, and, when centered, the horizontal offset that centers the
    /// text and the vertical offset of the area's height less the five rows
    /// (both on 16 bits, wrapping below zero).
    pub fn cells(&self, width: u16, height: u16) -> (cells: TimeCells)
        ensures
            exists|space: Style|
                !has_green_background(space) && grid_view(cells.styles@) == #[trigger] style_rows(
                    time_rows(self.time, self.display),
                    space,
                    stroke_style(space, self.bold),
                ),
            paints_segments_green(time_rows(self.time, self.display), grid_view(cells.styles@)),
            cells.offset_x == (if self.center {
                wrapped_sub(width, (standard_row(time_text(self.time, self.display), 0).len() % 65536) as int) / 2
            } else {
                0
            }),
            cells.offset_y == (if self.center {
                wrapped_sub(height, GLYPH_HEIGHT as int)
            } else {
                0
            }),
    {
        let time_str = format_time_string(self.time, self.display);
        proof {
            lemma_time_text_renders(self.time, self.display);
        }
        let rendered = RenderedText::try_from(time_str.as_str()).unwrap();
        assert(strings_view(rendered.lines@) =~= time_rows(self.time, self.display));
        let style_vec = convert_style_vec(rendered.lines, self.bold);
        proof {
            let space = choose|space: Style|
                !has_green_background(space) && grid_view(style_vec@) == #[trigger] style_rows(
                    strings_view(rendered.lines@),
                    space,
                    stroke_style(space, self.bold),
                );
            assert(grid_view(style_vec@).len() == GLYPH_HEIGHT);
            assert(grid_view(style_vec@)[0] == style_vec@[0]@);
            assert(style_vec@[0]@.len() == standard_row(time_text(self.time, self.display), 0).len());
        }
        let str_width = (style_vec[0].len() % 65536) as u16;
        let offset_x = if self.center {
            (width.wrapping_sub(str_width) as i32) / 2
        } else {
            0
        };
        let offset_y = if self.center {
            height.wrapping_sub((style_vec.len() % 65536) as u16) as i32
        } else {
            0
        };
        TimeCells { offset_x, offset_y, styles: style_vec }
    }
}

impl TimeDisplay {
    /// How often, in milliseconds, the clock redraws for this display: each
    /// second for minutes and seconds, then every tenth, hundredth and
    /// thousandth of a second.
    pub fn precision_ms(self) -> (ms: u64)
        ensures
            ms == match self {
                TimeDisplay::Minutes => 1000u64,
                TimeDisplay::Seconds => 1000u64,
                TimeDisplay::SecondsMs1 => 100u64,
                TimeDisplay::SecondsMs2 => 10u64,
                TimeDisplay::SecondsMs3 => 1u64,
            },
    {
        match self {
            TimeDisplay::Minutes => 1000,
            TimeDisplay::Seconds => 1000,
            TimeDisplay::SecondsMs1 => 100,
            TimeDisplay::SecondsMs2 => 10,
            TimeDisplay::SecondsMs3 => 1,
        }
    }
}

/// A line of text to draw: the text, its horizontal offset in the widget's
/// area, and its style.
pub struct TextLine {
    pub text: String,
    pub offset_x: i32,
    pub style: Style,
}

/// The horizontal offset of a text of `len` bytes in an area `width` wide:
/// when centered, half of what the width exceeds the length by (both taken
/// on 16 bits, wrapping below zero); otherwise zero.
pub open spec fn text_offset(width: u16, len: nat, center: bool) -> int {
    if center {
        wrapped_sub(width, (len % 65536) as int) / 2
    } else {
        0
    }
}

/// The style of the date and week lines, from an empty style `base`: green
/// text, made bold when `bold`.
pub open spec fn line_style(base: Style, bold: bool) -> Style {
    if bold {
        stylized_bold(green_foreground(base))
    } else {
        green_foreground(base)
    }
}

/// The offset of `text_offset`.
fn centered_offset(width: u16, len: usize, center: bool) -> (x: i32)
    ensures
        x == text_offset(width, len as nat, center),
{
    if center {
        (width.wrapping_sub((len % 65536) as u16) as i32) / 2
    } else {
        0
    }
}

/// The style of `line_style`, on ratatui's new style.
fn text_line_style(bold: bool) -> (style: Style)
    ensures
        exists|base: Style| !has_green_background(base) && style == #[trigger] line_style(base, bold),
        !has_green_background(style),
{
    let base = new_style();
    let style = if bold {
        bold_style(green(base))
    } else {
        green(base)
    };
    assert(style == line_style(base, bold));
    style
}

/// The date line of the clock.
#[derive(Debug, Copy, Clone, PartialEq, Eq)]
pub struct DateWidget {
    pub state: WidgetState,
    pub date: NaiveDate,
    pub bold: bool,
    pub center: bool,
}

impl DateWidget {
    /// An enabled widget showing `date`.
    pub fn new(date: NaiveDate, bold: bool, center: bool) -> (w: DateWidget)
        ensures
            w == (DateWidget { state: WidgetState::Enable, date, bold, center }),
    {
        DateWidget { state: WidgetState::Enable, date, bold, center }
    }

    /// The line to draw in an area `width` wide: the date as chrono
    /// displays it, offset as `text_offset` says for its length in bytes.
    pub fn line(&self, width: u16) -> (line: TextLine)
        ensures
            line.text@ == date_text(self.date),
            line.offset_x == text_offset(width, (encode_utf8(date_text(self.date)).len() as usize) as nat, self.center),
            exists|base: Style|
                !has_green_background(base) && line.style == #[trigger] line_style(base, self.bold),
            !has_green_background(line.style),
    {
        let text = date_string(self.date);
        let offset_x = centered_offset(width, text.as_str().len(), self.center);
        TextLine { text, offset_x, style: text_line_style(self.bold) }
    }
}

/// The week line of the clock.
#[derive(Debug, Copy, Clone, PartialEq, Eq)]
pub struct WeekWidget {
    pub state: WidgetState,
    pub weekday: NaiveDate,
    pub bold: bool,
    pub center: bool,
}

impl WeekWidget {
    /// An enabled widget showing the week of `weekday`.
    pub fn new(weekday: NaiveDate, bold: bool, center: bool) -> (w: WeekWidget)
        ensures
            w == (WeekWidget { state: WidgetState::Enable, weekday, bold, center }),
    {
        WeekWidget { state: WidgetState::Enable, weekday, bold, center }
    }

    /// The line to draw in an area `width` wide: the week text of the date,
    /// offset as `text_offset` says for its length in bytes.
    pub fn line(&self, width: u16) -> (line: TextLine)
        ensures
            line.text@ == week_text(self.weekday),
            line.offset_x == text_offset(width, week_text(self.weekday).len(), self.center),
            exists|base: Style|
                !has_green_background(base) && line.style == #[trigger] line_style(base, self.bold),
            !has_green_background(line.style),
    {
        let text = format_week_string(self.weekday);
        proof {
            is_ascii_chars_encode_utf8(text@);
        }
        let offset_x = centered_offset(width, text.as_str().len(), self.center);
        TextLine { text, offset_x, style: text_line_style(self.bold) }
    }
}

/// The date the date and week lines show until the clock is first set.
pub open spec fn placeholder_date() -> NaiveDate {
    date_from_ymd(2000, 1, 1).unwrap()
}

/// The clock face: the time, and below it the date and week lines that are
/// shown.
#[derive(Debug, Clone, PartialEq, Eq)]
pub struct ClockWidget {
    pub time_widget: TimeWidget,
    pub date_widget: DateWidget,
    pub week_widget: WeekWidget,
    pub layout: Layout,
    pub show_date: bool,
    pub show_week: bool,
    pub bold: bool,
    pub center: bool,
}

/// The heights of the rows of the clock face in an area `height` high: the
/// time row (half the height, plus three), a row of one for the date and
/// for the week when shown, and what is left (none when the others do not
/// fit).
pub open spec fn clock_heights(height: u16, show_date: bool, show_week: bool) -> Seq<u16> {
    let top = (height / 2 + 3) as u16;
    let used = top + (if show_date { 1int } else { 0int }) + (if show_week { 1int } else { 0int });
    let remaining = (if height >= used { height - used } else { 0 }) as u16;
    seq![top] + (if show_date { seq![1u16] } else { Seq::empty() }) + (if show_week {
        seq![1u16]
    } else {
        Seq::empty()
    }) + seq![remaining]
}

/// The rows of the clock face: their heights, and which rows hold the date
/// and the week line (the time is row 0).
pub struct ClockRows {
    pub heights: Vec<u16>,
    pub date_row: Option<usize>,
    pub week_row: Option<usize>,
}

impl ClockWidget {
    /// A clock face showing midnight and the placeholder date.
    pub fn new(display: TimeDisplay, show_date: bool, show_week: bool, bold: bool, center: bool) -> (w: ClockWidget)
        ensures
            w.time_widget == (TimeWidget {
                state: WidgetState::Enable,
                time: Time { hour: 0, minute: 0, second: 0, millisecond: 0 },
                display,
                bold,
                center,
            }),
            w.date_widget == (DateWidget { state: WidgetState::Enable, date: placeholder_date(), bold, center }),
            w.week_widget == (WeekWidget { state: WidgetState::Enable, weekday: placeholder_date(), bold, center }),
            w.show_date == show_date,
            w.show_week == show_week,
            w.bold == bold,
            w.center == center,
    {
        ClockWidget {
            time_widget: TimeWidget::new(display, bold, center),
            date_widget: DateWidget::new(ymd(2000, 1, 1).unwrap(), bold, center),
            week_widget: WeekWidget::new(ymd(2000, 1, 1).unwrap(), bold, center),
            layout: default_layout(),
            show_date,
            show_week,
            bold,
            center,
        }
    }

    /// The rows of the face in an area `height` high (see `clock_heights`);
    /// the date is row 1 when shown, the week the row after the date's.
    pub fn rows(&self, height: u16) -> (rows: ClockRows)
        ensures
            rows.heights@ == clock_heights(height, self.show_date, self.show_week),
            rows.heights@[0] == height / 2 + 3,
            rows.date_row == (if self.show_date { Some(1usize) } else { None }),
            rows.week_row == (if self.show_week {
                Some(if self.show_date { 2usize } else { 1usize })
            } else {
                None
            }),
    {
        let top = height / 2 + 3;
        let mut heights: Vec<u16> = Vec::new();
        heights.push(top);
        let mut used = top;
        let mut next: usize = 1;
        let mut date_row: Option<usize> = None;
        let mut week_row: Option<usize> = None;
        if self.show_date {
            heights.push(1);
            used = used + 1;
            date_row = Some(next);
            next = next + 1;
        }
        if self.show_week {
            heights.push(1);
            used = used + 1;
            week_row = Some(next);
        }
        heights.push(height.saturating_sub(used));
        assert(heights@ =~= clock_heights(height, self.show_date, self.show_week));
        ClockRows { heights, date_row, week_row }
    }
}

/// The sum of a sequence of row heights.
pub open spec fn total_height(hs: Seq<u16>) -> int
    decreases hs.len(),
{
    if hs.len() == 0 {
        0
    } else {
        total_height(hs.drop_last()) + hs.last()
    }
}

/// The rows of the clock face fill the area: their heights add up to the
/// area's height whenever the time, date and week rows fit in it, and
/// otherwise the last row is empty and the others overflow it. The date and
/// week rows, when shown, are one row high.
pub proof fn lemma_clock_rows_fill(height: u16, show_date: bool, show_week: bool)
    ensures
        ({
            let hs = clock_heights(height, show_date, show_week);
            let used = height / 2 + 3 + (if show_date { 1int } else { 0int }) + (if show_week {
                1int
            } else {
                0int
            });
            &&& total_height(hs) == (if height >= used { height as int } else { used })
            &&& hs.len() == 2 + (if show_date { 1int } else { 0int }) + (if show_week { 1int } else { 0int })
            &&& show_date ==> hs[1] == 1
            &&& show_week ==> hs[if show_date { 2int } else { 1int }] == 1
        }),
{
    reveal_with_fuel(total_height, 5);
}

/// Each row of the clock face in terms of the area's height: the time row is
/// half the height plus three high whatever else is shown, the date and week
/// rows are one high, and the last row takes what is left of the height, or
/// nothing when the others do not fit.
pub proof fn lemma_clock_row_heights(height: u16, show_date: bool, show_week: bool)
    ensures
        ({
            let hs = clock_heights(height, show_date, show_week);
            let used = height / 2 + 3 + (if show_date { 1int } else { 0int }) + (if show_week {
                1int
            } else {
                0int
            });
            &&& hs[0] == height / 2 + 3
            &&& hs.last() == (if height >= used { height - used } else { 0 })
            &&& forall|i: int| 0 < i < hs.len() - 1 ==> #[trigger] hs[i] == 1
        }),
{
}

/// The whole screen.
#[derive(Debug, Clone, PartialEq, Eq)]
pub struct RootWidget {
    pub clock_widget: Box<ClockWidget>,
}

/// The time display that the options ask for: milliseconds when a number of
/// digits is given, else seconds when asked, else minutes.
pub open spec fn display_for(show_seconds: bool, ms_digits: Option<u8>) -> TimeDisplay {
    match ms_digits {
        None => if show_seconds {
            TimeDisplay::Seconds
        } else {
            TimeDisplay::Minutes
        },
        Some(d) => if d == 1 {
            TimeDisplay::SecondsMs1
        } else if d == 2 {
            TimeDisplay::SecondsMs2
        } else {
            TimeDisplay::SecondsMs3
        },
    }
}

/// The time display chosen from the options shows what they ask for: hours
/// and minutes, seconds when asked or when milliseconds are asked, and then
/// exactly the asked number of millisecond digits, whether or not seconds were
/// asked for. Measured on the text of a time of day: `HH:MM` is 5 characters,
/// `:SS` 3 more, and `.` and the digits 1 + d more.
pub proof fn lemma_display_for_options(show_seconds: bool, ms_digits: Option<u8>, time: Time)
    requires
        ms_digits matches Some(d) ==> 1 <= d <= 3,
        time.hour < 24,
        time.minute < 60,
        time.second < 60,
        time.millisecond < 1000,
    ensures
        time_text(time, display_for(show_seconds, ms_digits)).len() == 5 + (if show_seconds
            || ms_digits is Some {
            3int
        } else {
            0int
        }) + match ms_digits {
            Some(d) => 1 + d,
            None => 0int,
        },
        ms_digits is Some ==> display_for(show_seconds, ms_digits) == display_for(
            !show_seconds,
            ms_digits,
        ),
{
    lemma_time_text_fixed_width(time, display_for(show_seconds, ms_digits));
}

impl RootWidget {
    /// The screen for the options `args`, whose number of millisecond digits,
    /// when given, is 1 to 3.
    pub fn new(args: Args) -> (w: RootWidget)
        requires
            args.ms_digits matches Some(d) ==> 1 <= d <= 3,
        ensures
            w.clock_widget.time_widget == (TimeWidget {
                state: WidgetState::Enable,
                time: Time { hour: 0, minute: 0, second: 0, millisecond: 0 },
                display: display_for(args.show_seconds, args.ms_digits),
                bold: args.bold,
                center: args.center,
            }),
            w.clock_widget.date_widget == (DateWidget {
                state: WidgetState::Enable,
                date: placeholder_date(),
                bold: args.bold,
                center: args.center,
            }),
            w.clock_widget.week_widget == (WeekWidget {
                state: WidgetState::Enable,
                weekday: placeholder_date(),
                bold: args.bold,
                center: args.center,
            }),
            w.clock_widget.show_date == args.show_date,
            w.clock_widget.show_week == args.show_week,
            w.clock_widget.bold == args.bold,
            w.clock_widget.center == args.center,
    {
        let display = match (args.show_seconds, args.ms_digits) {
            (false, None) => TimeDisplay::Minutes,
            (true, None) => TimeDisplay::Seconds,
            (_, Some(1)) => TimeDisplay::SecondsMs1,
            (_, Some(2)) => TimeDisplay::SecondsMs2,
            (_, Some(_)) => TimeDisplay::SecondsMs3,
        };
        RootWidget {
            clock_widget: Box::new(
                ClockWidget::new(display, args.show_date, args.show_week, args.bold, args.center),
            ),
        }
    }

    /// Sets the clock to `now`: the time display to its time of day, the
    /// date and week lines to its date. Nothing else changes.
    pub fn set_now(&mut self, now: NaiveDateTime)
        ensures
            final(self).clock_widget.time_widget.time == time_of_day(time_of(now)),
            final(self).clock_widget.date_widget.date == date_of(now),
            final(self).clock_widget.week_widget.weekday == date_of(now),
            final(self).clock_widget.time_widget.state == old(self).clock_widget.time_widget.state,
            final(self).clock_widget.time_widget.display == old(self).clock_widget.time_widget.display,
            final(self).clock_widget.time_widget.bold == old(self).clock_widget.time_widget.bold,
            final(self).clock_widget.time_widget.center == old(self).clock_widget.time_widget.center,
            final(self).clock_widget.date_widget.state == old(self).clock_widget.date_widget.state,
            final(self).clock_widget.date_widget.bold == old(self).clock_widget.date_widget.bold,
            final(self).clock_widget.date_widget.center == old(self).clock_widget.date_widget.center,
            final(self).clock_widget.week_widget.state == old(self).clock_widget.week_widget.state,
            final(self).clock_widget.week_widget.bold == old(self).clock_widget.week_widget.bold,
            final(self).clock_widget.week_widget.center == old(self).clock_widget.week_widget.center,
            final(self).clock_widget.layout == old(self).clock_widget.layout,
            final(self).clock_widget.show_date == old(self).clock_widget.show_date,
            final(self).clock_widget.show_week == old(self).clock_widget.show_week,
            final(self).clock_widget.bold == old(self).clock_widget.bold,
            final(self).clock_widget.center == old(self).clock_widget.center,
    {
        self.clock_widget.time_widget.time = Time::from(now);
        let date = date_part(now);
        self.clock_widget.date_widget.date = date;
        self.clock_widget.week_widget.weekday = date;
    }
}

} // verus!
