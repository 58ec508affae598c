use spreadsheet_ods::attrmap2::AttrMap2;
use spreadsheet_ods::datetime::DateTime;
use spreadsheet_ods::datetime::Duration;
use spreadsheet_ods::format::create_loc_date_dmy_format;
use spreadsheet_ods::format::FormatCalendar;
use spreadsheet_ods::format::FormatMonth;
use spreadsheet_ods::format::FormatNumberStyle;
use spreadsheet_ods::format::FormatPart;
use spreadsheet_ods::format::FormatPartType;
use spreadsheet_ods::format::FormatTextual;
use spreadsheet_ods::locales::Language;
use spreadsheet_ods::locales::Locale;
use spreadsheet_ods::locales::Region;
use spreadsheet_ods::locales::Script;
use spreadsheet_ods::style::color_string;
use spreadsheet_ods::style::Rgb;
use spreadsheet_ods::style::StyleMap;
use spreadsheet_ods::style::StyleOrigin;
use spreadsheet_ods::style::StyleUse;
use spreadsheet_ods::style::TransliterationStyle;
use spreadsheet_ods::ValueFormat;
use spreadsheet_ods::ValueType;

fn locale_de_at() -> Locale {
    Locale::new(
        Language::parse("de").unwrap(),
        Some(Region::parse("AT").unwrap()),
        None,
    )
}

#[test]
fn parts_keep_insertion_order_and_attributes() {
    let mut v = ValueFormat::new_named("rt", ValueType::DateTime);
    v.push_day(FormatNumberStyle::Long, FormatCalendar::Default);
    v.push_text(".");
    v.push_month(
        FormatNumberStyle::Short,
        FormatTextual::Numeric,
        FormatMonth::Nominativ,
        FormatCalendar::Gregorian,
    );
    let mut extra = vec![
        FormatPart::new_hours(FormatNumberStyle::Long),
        FormatPart::new_am_pm(),
    ];
    v.push_parts(&mut extra);
    assert!(extra.is_empty());

    let parts = v.parts();
    assert_eq!(parts.len(), 5);
    assert_eq!(parts[0].part_type(), FormatPartType::Day);
    assert_eq!(parts[0].attr_def("number:style", ""), "long");
    assert_eq!(parts[1].part_type(), FormatPartType::Text);
    assert_eq!(parts[1].content().unwrap(), ".");
    assert_eq!(parts[2].part_type(), FormatPartType::Month);
    assert_eq!(parts[2].attr_def("number:style", ""), "short");
    assert_eq!(parts[2].attr_def("number:textual", ""), "false");
    assert_eq!(parts[2].attr_def("number:calendar", ""), "gregorian");
    assert_eq!(parts[3].part_type(), FormatPartType::Hours);
    assert_eq!(parts[4].part_type(), FormatPartType::AmPm);
}

#[test]
fn locale_decomposes_into_language_and_country() {
    let v = ValueFormat::new_localized("lf", &locale_de_at(), ValueType::Number);
    assert_eq!(v.language().unwrap().as_str(), "de");
    assert_eq!(v.country().unwrap().as_str(), "AT");
    assert!(v.script().is_none());
}

#[test]
fn locale_subtags_are_normalized() {
    assert_eq!(Language::parse("DE").unwrap().as_str(), "de");
    assert_eq!(Region::parse("at").unwrap().as_str(), "AT");
    assert_eq!(Script::parse("latn").unwrap().as_str(), "Latn");
    assert!(Language::parse("german").is_none());
    assert!(Region::parse("12").is_none());
    assert!(Script::parse("Latin").is_none());
}

#[test]
fn create_loc_format_keeps_locale_and_parts() {
    let v = create_loc_date_dmy_format("ld", &locale_de_at());
    assert_eq!(v.value_type(), ValueType::DateTime);
    assert_eq!(v.language().unwrap().as_str(), "de");
    let parts = v.parts();
    assert_eq!(parts.len(), 5);
    assert_eq!(parts[0].part_type(), FormatPartType::Day);
    assert_eq!(parts[4].part_type(), FormatPartType::Year);
    let d = DateTime::new(2023, 4, 5, 0, 0, 0).unwrap();
    assert_eq!(v.format_datetime(&d), "05.04.2023");
}

#[test]
fn attrmap_replaces_values_under_the_same_key() {
    let mut m = AttrMap2::new();
    assert!(m.is_empty());
    m.set_attr("fo:margin", "1pt".to_string());
    m.set_attr("fo:margin", "2pt".to_string());
    m.set_attr("fo:padding", "3pt".to_string());
    assert!(!m.is_empty());
    assert_eq!(m.attr("fo:margin").unwrap(), "2pt");
    assert_eq!(m.attr("fo:padding").unwrap(), "3pt");
    assert!(m.attr("fo:border").is_none());
}

#[test]
fn number_part_attributes_are_written() {
    let mut v = ValueFormat::new_named("n", ValueType::Number);
    v.push_number(3, false);
    v.push_number_fix(2, true);
    let parts = v.parts();
    assert_eq!(parts[0].attr_def("number:decimal-places", ""), "3");
    assert_eq!(parts[0].attr_def("number:min-decimal-places", ""), "0");
    assert_eq!(parts[0].attr_def("number:grouping", "absent"), "absent");
    assert_eq!(parts[1].attr_def("number:decimal-places", ""), "2");
    assert_eq!(parts[1].attr_def("number:min-decimal-places", ""), "2");
    assert_eq!(parts[1].attr_def("number:grouping", ""), "true");
    assert_eq!(parts[1].attr_def("number:min-integer-digits", ""), "1");
}

#[test]
fn fraction_and_scientific_attributes_are_written() {
    let f = FormatPart::new_fraction(100, 2, 1, 2, false, Some(99));
    assert_eq!(f.part_type(), FormatPartType::Fraction);
    assert_eq!(f.attr_def("number:denominator-value", ""), "100");
    assert_eq!(f.attr_def("number:max-denominator-value", ""), "99");
    assert_eq!(f.attr_def("number:min-numerator-digits", ""), "2");
    let s = FormatPart::new_scientific_number(4, true, Some(2), None);
    assert_eq!(s.part_type(), FormatPartType::ScientificNumber);
    assert_eq!(s.attr_def("number:decimal-places", ""), "4");
    assert_eq!(s.attr_def("number:min-exponentdigits", ""), "2");
    assert_eq!(s.attr_def("number:min-integer-digits", "absent"), "absent");
}

#[test]
fn currency_symbol_carries_locale_and_text() {
    let p = FormatPart::new_currency_symbol(&locale_de_at(), "€");
    assert_eq!(p.part_type(), FormatPartType::CurrencySymbol);
    assert_eq!(p.content().unwrap(), "€");
    assert_eq!(p.attr_def("number:language", ""), "de");
    assert_eq!(p.attr_def("number:country", ""), "AT");
}

#[test]
fn fill_character_holds_its_character() {
    let p = FormatPart::new_fill_character('*');
    assert_eq!(p.part_type(), FormatPartType::FillCharacter);
    assert_eq!(p.content().unwrap(), "*");
}

#[test]
fn format_classification_accessors() {
    let mut v = ValueFormat::new_named("cls", ValueType::Currency);
    assert_eq!(v.value_type(), ValueType::Currency);
    assert_eq!(v.origin(), StyleOrigin::Styles);
    assert_eq!(v.styleuse(), StyleUse::Default);
    v.set_origin(StyleOrigin::Content);
    v.set_styleuse(StyleUse::Named);
    v.set_value_type(ValueType::Percentage);
    assert_eq!(v.origin(), StyleOrigin::Content);
    assert_eq!(v.styleuse(), StyleUse::Named);
    assert_eq!(v.value_type(), ValueType::Percentage);
    assert_eq!(v.format_ref().as_str(), "cls");
    assert_eq!(StyleOrigin::default(), StyleOrigin::Content);
    assert_eq!(StyleUse::default(), StyleUse::Automatic);
}

#[test]
fn optional_attributes_round_trip() {
    let mut v = ValueFormat::new_named("opt", ValueType::Number);
    assert!(v.title().is_none());
    v.set_title("A title");
    assert_eq!(v.title().unwrap(), "A title");
    assert!(v.volatile().is_none());
    v.set_volatile(true);
    assert_eq!(v.volatile(), Some(true));
    v.set_automatic_order(false);
    assert_eq!(v.automatic_order(), Some(false));
    v.set_transliteration_style(TransliterationStyle::Medium);
    assert_eq!(
        v.transliteration_style(),
        Some(TransliterationStyle::Medium)
    );
    v.set_transliteration_format('1');
    assert_eq!(v.transliteration_format(), Some('1'));
    v.set_transliteration_country(Region::parse("fr").unwrap());
    assert_eq!(v.transliteration_country().unwrap().as_str(), "FR");
    v.set_transliteration_language(Language::parse("FR").unwrap());
    assert_eq!(v.transliteration_language().unwrap().as_str(), "fr");
}

#[test]
fn display_name_shares_the_country_slot() {
    let mut v = ValueFormat::new_named("dn", ValueType::Number);
    v.set_display_name("Pretty");
    assert_eq!(v.display_name().unwrap(), "Pretty");
    // "Pretty" is no region subtag, so the country accessor sees nothing.
    assert!(v.country().is_none());
    v.set_country(Region::parse("AT").unwrap());
    assert_eq!(v.display_name().unwrap(), "AT");
}

#[test]
fn unparsable_optional_attributes_read_as_absent() {
    let mut v = ValueFormat::new_named("bad", ValueType::Number);
    v.attrmap_mut().set_attr("style:volatile", "maybe".to_string());
    v.attrmap_mut().set_attr(
        "number:transliteration-style",
        "verylong".to_string(),
    );
    v.attrmap_mut().set_attr("number:language", "not a tag".to_string());
    assert!(v.volatile().is_none());
    assert!(v.transliteration_style().is_none());
    assert!(v.language().is_none());
}

#[test]
fn stylemaps_accumulate_in_order() {
    let mut v = ValueFormat::new_named("sm", ValueType::Number);
    assert!(v.stylemaps().is_none());
    v.push_stylemap(StyleMap::new("value()>0".to_string(), "pos".to_string()));
    v.push_stylemap(StyleMap::new("value()<0".to_string(), "neg".to_string()));
    let maps = v.stylemaps().unwrap();
    assert_eq!(maps.len(), 2);
    assert_eq!(maps[0].condition(), "value()>0");
    assert_eq!(maps[0].applied_style(), "pos");
    assert_eq!(maps[1].applied_style(), "neg");
    v.stylemaps_mut().pop();
    assert_eq!(v.stylemaps().unwrap().len(), 1);
}

#[test]
fn textstyle_holds_color_text() {
    let mut v = ValueFormat::new_named("ts", ValueType::Number);
    let c = color_string(Rgb::new(192, 128, 0));
    assert_eq!(c, "#c08000");
    v.textstyle_mut().set_attr("fo:color", c);
    assert_eq!(v.textstyle().attr("fo:color").unwrap(), "#c08000");
}

#[test]
fn date_time_validation_rejects_bad_fields() {
    assert!(DateTime::new(2023, 2, 29, 0, 0, 0).is_none());
    assert!(DateTime::new(2024, 2, 29, 0, 0, 0).is_some());
    assert!(DateTime::new(1900, 2, 29, 0, 0, 0).is_none());
    assert!(DateTime::new(2000, 2, 29, 0, 0, 0).is_some());
    assert!(DateTime::new(2023, 4, 31, 0, 0, 0).is_none());
    assert!(DateTime::new(2023, 13, 1, 0, 0, 0).is_none());
    assert!(DateTime::new(2023, 0, 1, 0, 0, 0).is_none());
    assert!(DateTime::new(2023, 1, 0, 0, 0, 0).is_none());
    assert!(DateTime::new(2023, 1, 1, 24, 0, 0).is_none());
    assert!(DateTime::new(2023, 1, 1, 0, 60, 0).is_none());
    assert!(DateTime::new(-1, 1, 1, 0, 0, 0).is_none());
    assert!(DateTime::new(10000, 1, 1, 0, 0, 0).is_none());
}

#[test]
fn duration_constructors_count_seconds() {
    assert_eq!(Duration::seconds(7).secs, 7);
    assert_eq!(Duration::minutes(2).secs, 120);
    assert_eq!(Duration::hours(3).secs, 10800);
}

#[test]
fn part_type_can_be_rewritten() {
    let mut p = FormatPart::new(FormatPartType::Text);
    p.set_content("x");
    p.set_part_type(FormatPartType::TextContent);
    assert_eq!(p.part_type(), FormatPartType::TextContent);
    let mut v = ValueFormat::new_named("pm", ValueType::Text);
    v.push_text("a");
    v.parts_mut()[0].set_content("b");
    assert_eq!(v.format_str("zz"), "b");
}

#[test]
fn month_possessive_quirk_marks_nominative_parts() {
    let nominative = FormatPart::new_month(
        FormatNumberStyle::Long,
        FormatTextual::Numeric,
        FormatMonth::Nominativ,
        FormatCalendar::Default,
    );
    assert_eq!(nominative.attr_def("number:possessive-form", "absent"), "true");
    let possessive = FormatPart::new_month(
        FormatNumberStyle::Long,
        FormatTextual::Numeric,
        FormatMonth::Possessiv,
        FormatCalendar::Default,
    );
    assert_eq!(
        possessive.attr_def("number:possessive-form", "absent"),
        "absent"
    );
}

#[test]
fn early_years_are_zero_padded() {
    let mut v = ValueFormat::new_named("y", ValueType::DateTime);
    v.push_year(FormatNumberStyle::Long, FormatCalendar::Default);
    let d = DateTime::new(5, 1, 1, 0, 0, 0).unwrap();
    assert_eq!(v.format_datetime(&d), "0005");
    let d2 = DateTime::new(987, 1, 1, 0, 0, 0).unwrap();
    assert_eq!(v.format_datetime(&d2), "0987");
}

#[test]
fn color_strings_use_two_hex_digits_per_channel() {
    assert_eq!(color_string(Rgb::new(0, 0, 0)), "#000000");
    assert_eq!(color_string(Rgb::new(0, 15, 255)), "#000fff");
    assert_eq!(color_string(Rgb::new(255, 255, 255)), "#ffffff");
}

#[test]
fn part_attributes_can_be_edited_through_the_map() {
    let mut p = FormatPart::new(FormatPartType::Day);
    p.attrmap_mut().set_attr("number:style", "long".to_string());
    assert_eq!(p.attrmap().attr("number:style").unwrap(), "long");
    assert_eq!(p.attr_def("number:style", ""), "long");
}

#[test]
fn error_messages_describe_the_failure() {
    let e = spreadsheet_ods::ValueFormatError::Format("bad format".to_string());
    assert_eq!(e.message(), "bad format");
    let n = spreadsheet_ods::ValueFormatError::NaN;
    assert_eq!(n.message(), "Digit expected");
}

#[test]
fn border_line_widths_join_with_spaces() {
    let s = spreadsheet_ods::style::border_line_width_string("1pt", "2pt", "3pt");
    assert_eq!(s, "1pt 2pt 3pt");
}
