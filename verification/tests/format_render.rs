use spreadsheet_ods::datetime::DateTime;
use spreadsheet_ods::datetime::Duration;
use spreadsheet_ods::format::FormatCalendar;
use spreadsheet_ods::format::FormatMonth;
use spreadsheet_ods::format::FormatNumberStyle;
use spreadsheet_ods::format::FormatTextual;
use spreadsheet_ods::format::{create_boolean_format, create_datetime_format, create_time_format};
use spreadsheet_ods::ValueFormat;
use spreadsheet_ods::ValueType;

fn sample_date() -> DateTime {
    DateTime::new(2023, 4, 5, 13, 5, 9).unwrap()
}

#[test]
fn empty_format_renders_all_kinds_empty() {
    let v = ValueFormat::new_named("e", ValueType::Text);
    assert_eq!(v.format_boolean(true), "");
    assert_eq!(v.format_boolean(false), "");
    assert_eq!(v.format_str("payload"), "");
    assert_eq!(v.format_datetime(&sample_date()), "");
    assert_eq!(v.format_time_duration(&Duration::seconds(90)), "");
}

#[test]
fn text_only_format_renders_all_kinds_to_content() {
    let mut v = ValueFormat::new_named("t", ValueType::Text);
    v.push_text("X");
    assert_eq!(v.format_boolean(true), "X");
    assert_eq!(v.format_boolean(false), "X");
    assert_eq!(v.format_str("anything"), "X");
    assert_eq!(v.format_datetime(&sample_date()), "X");
    assert_eq!(v.format_time_duration(&Duration::seconds(7)), "X");
}

#[test]
fn day_text_month_order_is_kept() {
    let mut v = ValueFormat::new_named("dm", ValueType::DateTime);
    v.push_day(FormatNumberStyle::Long, FormatCalendar::Default);
    v.push_text(".");
    v.push_month(
        FormatNumberStyle::Long,
        FormatTextual::Numeric,
        FormatMonth::Nominativ,
        FormatCalendar::Default,
    );
    assert_eq!(v.format_datetime(&sample_date()), "05.04");

    let mut r = ValueFormat::new_named("md", ValueType::DateTime);
    r.push_month(
        FormatNumberStyle::Long,
        FormatTextual::Numeric,
        FormatMonth::Nominativ,
        FormatCalendar::Default,
    );
    r.push_text(".");
    r.push_day(FormatNumberStyle::Long, FormatCalendar::Default);
    assert_eq!(r.format_datetime(&sample_date()), "04.05");
}

#[test]
fn am_pm_part_switches_hours_to_twelve_hour_clock() {
    let mut v = ValueFormat::new_named("h12", ValueType::DateTime);
    v.push_hours(FormatNumberStyle::Long);
    v.push_am_pm();
    assert_eq!(v.format_datetime(&sample_date()), "01PM");

    let mut w = ValueFormat::new_named("h24", ValueType::DateTime);
    w.push_hours(FormatNumberStyle::Long);
    assert_eq!(w.format_datetime(&sample_date()), "13");

    let morning = DateTime::new(2023, 4, 5, 9, 0, 0).unwrap();
    assert_eq!(v.format_datetime(&morning), "09AM");
    let midnight = DateTime::new(2023, 4, 5, 0, 0, 0).unwrap();
    assert_eq!(v.format_datetime(&midnight), "12AM");
}

#[test]
fn duration_of_ninety_minutes() {
    let mut hours = ValueFormat::new_named("h", ValueType::TimeDuration);
    hours.push_hours(FormatNumberStyle::Long);
    let mut minutes = ValueFormat::new_named("m", ValueType::TimeDuration);
    minutes.push_minutes(FormatNumberStyle::Long);
    let d = Duration::minutes(90);
    assert_eq!(d.secs, 5400);
    assert_eq!(hours.format_time_duration(&d), "1");
    assert_eq!(minutes.format_time_duration(&d), "30");
}

#[test]
fn duration_of_exactly_one_hour() {
    let mut hours = ValueFormat::new_named("h", ValueType::TimeDuration);
    hours.push_hours(FormatNumberStyle::Long);
    let mut minutes = ValueFormat::new_named("m", ValueType::TimeDuration);
    minutes.push_minutes(FormatNumberStyle::Long);
    let d = Duration::minutes(60);
    assert_eq!(hours.format_time_duration(&d), "1");
    assert_eq!(minutes.format_time_duration(&d), "0");
}

#[test]
fn duration_does_not_wrap_hours_at_a_day() {
    let mut v = create_time_format("t");
    let d = Duration::hours(26);
    assert_eq!(v.format_time_duration(&d), "26:0:0");
    v.set_name("renamed");
    assert_eq!(v.name(), "renamed");
}

#[test]
fn negative_duration_carries_its_sign() {
    let mut minutes = ValueFormat::new_named("m", ValueType::TimeDuration);
    minutes.push_minutes(FormatNumberStyle::Long);
    let mut hours = ValueFormat::new_named("h", ValueType::TimeDuration);
    hours.push_hours(FormatNumberStyle::Long);
    let d = Duration::minutes(-90);
    assert_eq!(minutes.format_time_duration(&d), "-30");
    assert_eq!(hours.format_time_duration(&d), "-1");
    let small = Duration::seconds(-30);
    assert_eq!(hours.format_time_duration(&small), "0");
    let mut seconds = ValueFormat::new_named("s", ValueType::TimeDuration);
    seconds.push_seconds(FormatNumberStyle::Long, 0);
    assert_eq!(seconds.format_time_duration(&small), "-30");
}

#[test]
fn boolean_format_renders_tokens() {
    let v = create_boolean_format("b");
    assert_eq!(v.format_boolean(true), "true");
    assert_eq!(v.format_boolean(false), "false");
}

#[test]
fn datetime_format_renders_all_fields() {
    let v = create_datetime_format("dt");
    assert_eq!(v.format_datetime(&sample_date()), "2023-04-05 13:05:09");
}

#[test]
fn short_styles_drop_padding() {
    let mut v = ValueFormat::new_named("s", ValueType::DateTime);
    v.push_day(FormatNumberStyle::Short, FormatCalendar::Default);
    v.push_text("/");
    v.push_month(
        FormatNumberStyle::Short,
        FormatTextual::Numeric,
        FormatMonth::Nominativ,
        FormatCalendar::Default,
    );
    v.push_text("/");
    v.push_year(FormatNumberStyle::Short, FormatCalendar::Default);
    assert_eq!(v.format_datetime(&sample_date()), "5/4/23");
}

#[test]
fn weekday_names_come_from_the_calendar() {
    let mut long = ValueFormat::new_named("wl", ValueType::DateTime);
    long.push_day_of_week(FormatNumberStyle::Long, FormatCalendar::Default);
    let mut short = ValueFormat::new_named("ws", ValueType::DateTime);
    short.push_day_of_week(FormatNumberStyle::Short, FormatCalendar::Default);
    // 2023-04-05 was a Wednesday.
    assert_eq!(long.format_datetime(&sample_date()), "Wednesday");
    assert_eq!(short.format_datetime(&sample_date()), "Wed");
}

#[test]
fn textual_month_long_style_gives_abbreviated_name() {
    let mut long = ValueFormat::new_named("ml", ValueType::DateTime);
    long.push_month(
        FormatNumberStyle::Long,
        FormatTextual::Textual,
        FormatMonth::Nominativ,
        FormatCalendar::Default,
    );
    let mut short = ValueFormat::new_named("ms", ValueType::DateTime);
    short.push_month(
        FormatNumberStyle::Short,
        FormatTextual::Textual,
        FormatMonth::Nominativ,
        FormatCalendar::Default,
    );
    // The long style renders the abbreviated name and the short style the
    // full one.
    assert_eq!(long.format_datetime(&sample_date()), "Apr");
    assert_eq!(short.format_datetime(&sample_date()), "April");
}

#[test]
fn week_of_year_counts_from_first_monday() {
    let mut part = spreadsheet_ods::format::FormatPart::new_week_of_year(FormatCalendar::Default);
    part.set_attr("number:style", "long".to_string());
    let mut unpadded = ValueFormat::new_named("wu", ValueType::DateTime);
    unpadded.push_week_of_year(FormatCalendar::Default);
    // 2023-01-15 lies in the second week after the year's first Monday.
    let mid_january = DateTime::new(2023, 1, 15, 0, 0, 0).unwrap();
    let mut long_style = ValueFormat::new_named("wl", ValueType::DateTime);
    long_style.push_part(part);
    assert_eq!(long_style.format_datetime(&mid_january), "02");
    assert_eq!(unpadded.format_datetime(&mid_january), "2");
}

#[test]
fn era_and_quarter_parts_render_nothing() {
    let mut v = ValueFormat::new_named("eq", ValueType::DateTime);
    v.push_era(FormatNumberStyle::Long, FormatCalendar::Default);
    v.push_quarter(FormatNumberStyle::Long, FormatCalendar::Default);
    assert_eq!(v.format_datetime(&sample_date()), "");
}

#[test]
fn text_content_part_echoes_the_input() {
    let mut v = ValueFormat::new_named("tc", ValueType::Text);
    v.push_text("pre-");
    v.push_text_content();
    assert_eq!(v.format_str("body"), "pre-body");
    assert_eq!(v.format_str(""), "pre-");
}

#[test]
fn irrelevant_parts_are_skipped_silently() {
    let mut v = ValueFormat::new_named("sk", ValueType::Text);
    v.push_currency_symbol(
        &spreadsheet_ods::locales::Locale::new(
            spreadsheet_ods::locales::Language::parse("en").unwrap(),
            None,
            None,
        ),
        "$",
    );
    v.push_fill_character('*');
    v.push_boolean();
    assert_eq!(v.format_str("zz"), "");
    assert_eq!(v.format_datetime(&sample_date()), "");
}
