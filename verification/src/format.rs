//! The value-format model and its render interpreter.
//!
//! A [`ValueFormat`] is an ordered, mutable sequence of typed
//! [`FormatPart`]s, each carrying named string attributes and optional
//! literal content. The `format_*` functions walk the parts in stored order
//! and append each part's contribution for the value being rendered; a part
//! that means nothing for the value's kind contributes nothing.

use vstd::prelude::*;

verus! {

use vstd::string::StringExecFns;
use vstd::string::StrSliceExecFns;

use crate::attrmap2::AttrMap2;
use crate::attrmap2::str_eq;
use crate::datetime::month_abbrev_text;
use crate::datetime::trunc_div;
use crate::datetime::trunc_rem;
use crate::datetime::month_full_text;
use crate::datetime::month_name_abbrev;
use crate::datetime::month_name_full;
use crate::datetime::week_of_year_padded;
use crate::datetime::week_of_year_plain;
use crate::datetime::week_text_padded;
use crate::datetime::week_text_plain;
use crate::datetime::weekday_abbrev_text;
use crate::datetime::weekday_full_text;
use crate::datetime::weekday_name_abbrev;
use crate::datetime::weekday_name_full;
use crate::datetime::DateTime;
use crate::datetime::Duration;
use crate::locales::language_norm;
use crate::locales::region_norm;
use crate::locales::script_norm;
use crate::locales::Language;
use crate::locales::Locale;
use crate::locales::Region;
use crate::locales::Script;
use crate::style::StyleMap;
use crate::style::StyleOrigin;
use crate::style::StyleUse;
use crate::style::TransliterationStyle;
use crate::textnum::char_text;
use crate::textnum::dec_text;
use crate::textnum::dec_text_pad;
use crate::textnum::dec_text_signed;
use crate::textnum::signed_text;
use crate::textnum::u64_text;
use crate::textnum::u64_text_pad2;
use crate::textnum::u64_text_pad4;
use crate::ValueType;

/// Error type for formatting errors; reserved for stricter validation, the
/// render functions themselves degrade silently instead of failing.
#[derive(Debug)]
pub enum ValueFormatError {
    /// A general formatting failure, with its description.
    Format(String),
    /// A digit was expected and something else was found.
    NaN,
}

impl ValueFormatError {
    /// The error's description.
    pub fn message(&self) -> (r: String)
        ensures
            match self {
                ValueFormatError::Format(s) => r@ == s@,
                ValueFormatError::NaN => r@ == "Digit expected"@,
            },
    {
        match self {
            ValueFormatError::Format(s) => s.clone(),
            ValueFormatError::NaN => "Digit expected".to_owned(),
        }
    }
}

/// A reference to a named value format.
#[derive(Debug, Clone, PartialEq, Eq)]
pub struct ValueFormatRef {
    name: String,
}

impl ValueFormatRef {
    /// A reference to the format of this name.
    pub fn new(name: &str) -> (r: ValueFormatRef)
        ensures
            r@ == name@,
    {
        ValueFormatRef { name: name.to_owned() }
    }

    /// The referenced format's name.
    pub fn as_str(&self) -> (r: &str)
        ensures
            r@ == self@,
    {
        self.name.as_str()
    }
}

impl View for ValueFormatRef {
    type V = Seq<char>;

    closed spec fn view(&self) -> Seq<char> {
        self.name@
    }
}

/// Identifies the structural parts of a value format.
#[derive(Debug, Clone, Copy, Eq, PartialEq, Structural)]
pub enum FormatPartType {
    Number,
    FillCharacter,
    ScientificNumber,
    Fraction,
    CurrencySymbol,
    Day,
    Month,
    Year,
    Era,
    DayOfWeek,
    WeekOfYear,
    Quarter,
    Hours,
    Minutes,
    Seconds,
    AmPm,
    Boolean,
    Text,
    TextContent,
}

/// Flag for several part types: full or zero-padded (`long`) against
/// abbreviated or unpadded (`short`) rendering.
#[derive(Debug, Clone, Copy, Eq, PartialEq, Structural)]
pub enum FormatNumberStyle {
    Short,
    Long,
}

impl FormatNumberStyle {
    /// The attribute value this flag is stored as.
    pub open spec fn spec_text(self) -> Seq<char> {
        match self {
            FormatNumberStyle::Short => "short"@,
            FormatNumberStyle::Long => "long"@,
        }
    }

    /// The attribute value this flag is stored as.
    pub fn text(self) -> (r: &'static str)
        ensures
            r@ == self.spec_text(),
    {
        match self {
            FormatNumberStyle::Short => "short",
            FormatNumberStyle::Long => "long",
        }
    }
}

/// Whether a month renders as a number or as its name.
#[derive(Debug, Clone, Copy, Eq, PartialEq, Structural)]
pub enum FormatTextual {
    Numeric,
    Textual,
}

impl FormatTextual {
    /// The attribute value this flag is stored as.
    pub open spec fn spec_text(self) -> Seq<char> {
        match self {
            FormatTextual::Numeric => "false"@,
            FormatTextual::Textual => "true"@,
        }
    }

    /// The attribute value this flag is stored as.
    pub fn text(self) -> (r: &'static str)
        ensures
            r@ == self.spec_text(),
    {
        match self {
            FormatTextual::Numeric => "false",
            FormatTextual::Textual => "true",
        }
    }
}

/// Grammatical form of a textual month name.
#[derive(Debug, Clone, Copy, Eq, PartialEq, Structural)]
pub enum FormatMonth {
    Nominativ,
    Possessiv,
}

/// Calendar systems a date part may name; `Default` leaves the calendar
/// attribute unwritten.
#[derive(Debug, Clone, Copy, Eq, PartialEq, Structural)]
pub enum FormatCalendar {
    Default,
    Gregorian,
    Gengou,
    Roc,
    Hanja,
    Hijri,
    Jewish,
    Buddhist,
}

impl FormatCalendar {
    /// The attribute value this calendar is stored as; empty for `Default`.
    pub open spec fn spec_text(self) -> Seq<char> {
        match self {
            FormatCalendar::Default => ""@,
            FormatCalendar::Gregorian => "gregorian"@,
            FormatCalendar::Gengou => "gengou"@,
            FormatCalendar::Roc => "ROC"@,
            FormatCalendar::Hanja => "hanja"@,
            FormatCalendar::Hijri => "hijri"@,
            FormatCalendar::Jewish => "jewish"@,
            FormatCalendar::Buddhist => "buddhist"@,
        }
    }

    /// The attribute value this calendar is stored as; empty for `Default`.
    pub fn text(self) -> (r: &'static str)
        ensures
            r@ == self.spec_text(),
    {
        match self {
            FormatCalendar::Default => "",
            FormatCalendar::Gregorian => "gregorian",
            FormatCalendar::Gengou => "gengou",
            FormatCalendar::Roc => "ROC",
            FormatCalendar::Hanja => "hanja",
            FormatCalendar::Hijri => "hijri",
            FormatCalendar::Jewish => "jewish",
            FormatCalendar::Buddhist => "buddhist",
        }
    }
}

/// The text a boolean attribute is stored as.
pub open spec fn bool_text(b: bool) -> Seq<char> {
    if b {
        "true"@
    } else {
        "false"@
    }
}

/// The boolean a stored attribute value names, if any.
pub open spec fn bool_parse(s: Seq<char>) -> Option<bool> {
    if s == "true"@ {
        Some(true)
    } else if s == "false"@ {
        Some(false)
    } else {
        None
    }
}

/// Reads a stored boolean attribute value back.
fn parse_bool_text(s: &str) -> (r: Option<bool>)
    ensures
        r == bool_parse(s@),
{
    if str_eq(s, "true") {
        Some(true)
    } else if str_eq(s, "false") {
        Some(false)
    } else {
        None
    }
}

/// The abstract value of a format part: its type tag, attribute map and
/// optional literal content.
pub struct FormatPartView {
    pub part_type: FormatPartType,
    pub attr: Map<Seq<char>, Seq<char>>,
    pub content: Option<Seq<char>>,
}

/// One structural part of a value format.
#[derive(Debug, Clone)]
pub struct FormatPart {
    /// What kind of format part is this?
    part_type: FormatPartType,
    /// Properties of this part.
    attr: AttrMap2,
    /// Some content, used by text and currency-symbol parts.
    content: Option<String>,
}

impl View for FormatPart {
    type V = FormatPartView;

    closed spec fn view(&self) -> FormatPartView {
        FormatPartView {
            part_type: self.part_type,
            attr: self.attr@,
            content: match self.content {
                Some(c) => Some(c@),
                None => None,
            },
        }
    }
}

/// The attribute map that adds the calendar attribute to `m` when a
/// specific calendar was picked.
pub open spec fn with_calendar(m: Map<Seq<char>, Seq<char>>, calendar: FormatCalendar) -> Map<
    Seq<char>,
    Seq<char>,
> {
    if calendar == FormatCalendar::Default {
        m
    } else {
        m.insert("number:calendar"@, calendar.spec_text())
    }
}

/// The attribute map of a date part that carries a style flag and an
/// optional calendar.
pub open spec fn styled_part_attrs(style: FormatNumberStyle, calendar: FormatCalendar) -> Map<
    Seq<char>,
    Seq<char>,
> {
    with_calendar(map!["number:style"@ => style.spec_text()], calendar)
}

/// The attribute map of a month part.
pub open spec fn month_part_attrs(
    style: FormatNumberStyle,
    textual: FormatTextual,
    possessive_form: FormatMonth,
    calendar: FormatCalendar,
) -> Map<Seq<char>, Seq<char>> {
    let m = map![
        "number:style"@ => style.spec_text(),
        "number:textual"@ => textual.spec_text(),
    ];
    let m2 = if possessive_form != FormatMonth::Possessiv {
        m.insert("number:possessive-form"@, "true"@)
    } else {
        m
    };
    with_calendar(m2, calendar)
}

/// The attribute map of a decimal-number part.
pub open spec fn number_part_attrs(
    decimal_places: u8,
    grouping: bool,
    min_decimal_places: u8,
    mininteger_digits: u8,
    decimal_replacement: Option<char>,
) -> Map<Seq<char>, Seq<char>> {
    let m = map![
        "number:min-integer-digits"@ => dec_text(1),
        "number:decimal-places"@ => dec_text(decimal_places as nat),
    ];
    let m2 = match decimal_replacement {
        Some(c) => m.insert("number:decimal-replacement"@, seq![c]),
        None => m,
    };
    let m3 = m2.insert("number:mininteger-digits"@, dec_text(mininteger_digits as nat)).insert(
        "number:min-decimal-places"@,
        dec_text(min_decimal_places as nat),
    );
    if grouping {
        m3.insert("number:grouping"@, "true"@)
    } else {
        m3
    }
}

/// The attribute map of a fraction part.
pub open spec fn fraction_part_attrs(
    denominatorvalue: u32,
    min_denominator_digits: u8,
    min_integer_digits: u8,
    min_numerator_digits: u8,
    grouping: bool,
    max_denominator_value: Option<u8>,
) -> Map<Seq<char>, Seq<char>> {
    let m = map!["number:denominator-value"@ => dec_text(denominatorvalue as nat)];
    let m2 = match max_denominator_value {
        Some(v) => m.insert("number:max-denominator-value"@, dec_text(v as nat)),
        None => m,
    };
    let m3 = m2.insert(
        "number:min-denominator-digits"@,
        dec_text(min_denominator_digits as nat),
    ).insert("number:min-integer-digits"@, dec_text(min_integer_digits as nat)).insert(
        "number:min-numerator-digits"@,
        dec_text(min_numerator_digits as nat),
    );
    if grouping {
        m3.insert("number:grouping"@, "true"@)
    } else {
        m3
    }
}

/// The attribute map of a scientific-notation part.
pub open spec fn scientific_part_attrs(
    decimal_places: u8,
    grouping: bool,
    min_exponentdigits: Option<u8>,
    min_integer_digits: Option<u8>,
) -> Map<Seq<char>, Seq<char>> {
    let m = map!["number:decimal-places"@ => dec_text(decimal_places as nat)];
    let m2 = if grouping {
        m.insert("number:grouping"@, "true"@)
    } else {
        m
    };
    let m3 = match min_exponentdigits {
        Some(v) => m2.insert("number:min-exponentdigits"@, dec_text(v as nat)),
        None => m2,
    };
    match min_integer_digits {
        Some(v) => m3.insert("number:min-integer-digits"@, dec_text(v as nat)),
        None => m3,
    }
}

/// The attribute map of a currency-symbol part: the locale's language, and
/// its region when present.
pub open spec fn currency_symbol_attrs(locale: Locale) -> Map<Seq<char>, Seq<char>> {
    let m = map!["number:language"@ => locale.language@];
    match locale.region {
        Some(region) => m.insert("number:country"@, region@),
        None => m,
    }
}

impl FormatPart {
    /// New, with empty attributes and no content.
    pub fn new(ftype: FormatPartType) -> (r: Self)
        ensures
            r@.part_type == ftype,
            r@.attr == Map::<Seq<char>, Seq<char>>::empty(),
            r@.content is None,
    {
        FormatPart { part_type: ftype, attr: AttrMap2::new(), content: None }
    }

    /// New, with string content.
    pub fn new_with_content(ftype: FormatPartType, content: &str) -> (r: Self)
        ensures
            r@.part_type == ftype,
            r@.attr == Map::<Seq<char>, Seq<char>>::empty(),
            r@.content == Some(content@),
    {
        FormatPart {
            part_type: ftype,
            attr: AttrMap2::new(),
            content: Some(content.to_owned()),
        }
    }

    /// A decimal-number part. Writes the digit-count and grouping
    /// attributes; the display-factor attribute is not written here, since
    /// it holds a floating-point value.
    pub fn new_number(
        decimal_places: u8,
        grouping: bool,
        min_decimal_places: u8,
        mininteger_digits: u8,
        decimal_replacement: Option<char>,
    ) -> (r: Self)
        ensures
            r@.part_type == FormatPartType::Number,
            r@.attr == number_part_attrs(
                decimal_places,
                grouping,
                min_decimal_places,
                mininteger_digits,
                decimal_replacement,
            ),
            r@.content is None,
    {
        let mut p = FormatPart::new(FormatPartType::Number);
        p.set_attr("number:min-integer-digits", u64_text(1));
        p.set_attr("number:decimal-places", u64_text(decimal_places as u64));
        if let Some(c) = decimal_replacement {
            p.set_attr("number:decimal-replacement", char_text(c));
        }
        p.set_attr("number:mininteger-digits", u64_text(mininteger_digits as u64));
        p.set_attr("number:min-decimal-places", u64_text(min_decimal_places as u64));
        if grouping {
            p.set_attr("number:grouping", "true".to_owned());
        }
        proof {
            assert(p@.attr =~= number_part_attrs(
                decimal_places,
                grouping,
                min_decimal_places,
                mininteger_digits,
                decimal_replacement,
            ));
        }
        p
    }

    /// A fill-character part: its one-character content is displayed
    /// repeatedly to fill the cell's free space.
    pub fn new_fill_character(fill_character: char) -> (r: Self)
        ensures
            r@.part_type == FormatPartType::FillCharacter,
            r@.attr == Map::<Seq<char>, Seq<char>>::empty(),
            r@.content == Some(seq![fill_character]),
    {
        let mut p = FormatPart::new(FormatPartType::FillCharacter);
        let t = char_text(fill_character);
        p.set_content(t.as_str());
        p
    }

    /// A fraction part, with its denominator settings and digit minimums.
    pub fn new_fraction(
        denominatorvalue: u32,
        min_denominator_digits: u8,
        min_integer_digits: u8,
        min_numerator_digits: u8,
        grouping: bool,
        max_denominator_value: Option<u8>,
    ) -> (r: Self)
        ensures
            r@.part_type == FormatPartType::Fraction,
            r@.attr == fraction_part_attrs(
                denominatorvalue,
                min_denominator_digits,
                min_integer_digits,
                min_numerator_digits,
                grouping,
                max_denominator_value,
            ),
            r@.content is None,
    {
        let mut p = FormatPart::new(FormatPartType::Fraction);
        p.set_attr("number:denominator-value", u64_text(denominatorvalue as u64));
        if let Some(m) = max_denominator_value {
            p.set_attr("number:max-denominator-value", u64_text(m as u64));
        }
        p.set_attr("number:min-denominator-digits", u64_text(min_denominator_digits as u64));
        p.set_attr("number:min-integer-digits", u64_text(min_integer_digits as u64));
        p.set_attr("number:min-numerator-digits", u64_text(min_numerator_digits as u64));
        if grouping {
            p.set_attr("number:grouping", "true".to_owned());
        }
        proof {
            assert(p@.attr =~= fraction_part_attrs(
                denominatorvalue,
                min_denominator_digits,
                min_integer_digits,
                min_numerator_digits,
                grouping,
                max_denominator_value,
            ));
        }
        p
    }

    /// A scientific-notation number part.
    pub fn new_scientific_number(
        decimal_places: u8,
        grouping: bool,
        min_exponentdigits: Option<u8>,
        min_integer_digits: Option<u8>,
    ) -> (r: Self)
        ensures
            r@.part_type == FormatPartType::ScientificNumber,
            r@.attr == scientific_part_attrs(
                decimal_places,
                grouping,
                min_exponentdigits,
                min_integer_digits,
            ),
            r@.content is None,
    {
        let mut p = FormatPart::new(FormatPartType::ScientificNumber);
        p.set_attr("number:decimal-places", u64_text(decimal_places as u64));
        if grouping {
            p.set_attr("number:grouping", "true".to_owned());
        }
        if let Some(m) = min_exponentdigits {
            p.set_attr("number:min-exponentdigits", u64_text(m as u64));
        }
        if let Some(m) = min_integer_digits {
            p.set_attr("number:min-integer-digits", u64_text(m as u64));
        }
        proof {
            assert(p@.attr =~= scientific_part_attrs(
                decimal_places,
                grouping,
                min_exponentdigits,
                min_integer_digits,
            ));
        }
        p
    }

    /// A currency-symbol part: its content is the displayed symbol, and the
    /// locale's language and region say which currency it is.
    pub fn new_currency_symbol(locale: &Locale, symbol: &str) -> (r: Self)
        ensures
            r@.part_type == FormatPartType::CurrencySymbol,
            r@.attr == currency_symbol_attrs(*locale),
            r@.content == Some(symbol@),
    {
        let mut p = FormatPart::new_with_content(FormatPartType::CurrencySymbol, symbol);
        p.set_attr("number:language", locale.language.as_str().to_owned());
        if let Some(region) = &locale.region {
            p.set_attr("number:country", region.as_str().to_owned());
        }
        proof {
            assert(p@.attr =~= currency_symbol_attrs(*locale));
        }
        p
    }

    /// A day-of-month part.
    pub fn new_day(style: FormatNumberStyle, calendar: FormatCalendar) -> (r: Self)
        ensures
            r@.part_type == FormatPartType::Day,
            r@.attr == styled_part_attrs(style, calendar),
            r@.content is None,
    {
        let mut p = FormatPart::new(FormatPartType::Day);
        p.set_style_and_calendar(style, calendar);
        p
    }

    /// A month part: numeric or textual, optionally in possessive form.
    pub fn new_month(
        style: FormatNumberStyle,
        textual: FormatTextual,
        possessive_form: FormatMonth,
        calendar: FormatCalendar,
    ) -> (r: Self)
        ensures
            r@.part_type == FormatPartType::Month,
            r@.attr == month_part_attrs(style, textual, possessive_form, calendar),
            r@.content is None,
    {
        let mut p = FormatPart::new(FormatPartType::Month);
        p.set_attr("number:style", style.text().to_owned());
        p.set_attr("number:textual", textual.text().to_owned());
        if !matches!(possessive_form, FormatMonth::Possessiv) {
            p.set_attr("number:possessive-form", "true".to_owned());
        }
        if !matches!(calendar, FormatCalendar::Default) {
            p.set_attr("number:calendar", calendar.text().to_owned());
        }
        proof {
            assert(p@.attr =~= month_part_attrs(style, textual, possessive_form, calendar));
        }
        p
    }

    /// A year part.
    pub fn new_year(style: FormatNumberStyle, calendar: FormatCalendar) -> (r: Self)
        ensures
            r@.part_type == FormatPartType::Year,
            r@.attr == styled_part_attrs(style, calendar),
            r@.content is None,
    {
        let mut p = FormatPart::new(FormatPartType::Year);
        p.set_style_and_calendar(style, calendar);
        p
    }

    /// An era part.
    pub fn new_era(number: FormatNumberStyle, calendar: FormatCalendar) -> (r: Self)
        ensures
            r@.part_type == FormatPartType::Era,
            r@.attr == styled_part_attrs(number, calendar),
            r@.content is None,
    {
        let mut p = FormatPart::new(FormatPartType::Era);
        p.set_style_and_calendar(number, calendar);
        p
    }

    /// A day-of-week part.
    pub fn new_day_of_week(style: FormatNumberStyle, calendar: FormatCalendar) -> (r: Self)
        ensures
            r@.part_type == FormatPartType::DayOfWeek,
            r@.attr == styled_part_attrs(style, calendar),
            r@.content is None,
    {
        let mut p = FormatPart::new(FormatPartType::DayOfWeek);
        p.set_style_and_calendar(style, calendar);
        p
    }

    /// A week-of-year part.
    pub fn new_week_of_year(calendar: FormatCalendar) -> (r: Self)
        ensures
            r@.part_type == FormatPartType::WeekOfYear,
            r@.attr == with_calendar(Map::empty(), calendar),
            r@.content is None,
    {
        let mut p = FormatPart::new(FormatPartType::WeekOfYear);
        if !matches!(calendar, FormatCalendar::Default) {
            p.set_attr("number:calendar", calendar.text().to_owned());
        }
        p
    }

    /// A quarter-of-year part.
    pub fn new_quarter(style: FormatNumberStyle, calendar: FormatCalendar) -> (r: Self)
        ensures
            r@.part_type == FormatPartType::Quarter,
            r@.attr == styled_part_attrs(style, calendar),
            r@.content is None,
    {
        let mut p = FormatPart::new(FormatPartType::Quarter);
        p.set_style_and_calendar(style, calendar);
        p
    }

    /// An hours part.
    pub fn new_hours(style: FormatNumberStyle) -> (r: Self)
        ensures
            r@.part_type == FormatPartType::Hours,
            r@.attr == map!["number:style"@ => style.spec_text()],
            r@.content is None,
    {
        let mut p = FormatPart::new(FormatPartType::Hours);
        p.set_attr("number:style", style.text().to_owned());
        proof {
            assert(p@.attr =~= map!["number:style"@ => style.spec_text()]);
        }
        p
    }

    /// A minutes part.
    pub fn new_minutes(style: FormatNumberStyle) -> (r: Self)
        ensures
            r@.part_type == FormatPartType::Minutes,
            r@.attr == map!["number:style"@ => style.spec_text()],
            r@.content is None,
    {
        let mut p = FormatPart::new(FormatPartType::Minutes);
        p.set_attr("number:style", style.text().to_owned());
        proof {
            assert(p@.attr =~= map!["number:style"@ => style.spec_text()]);
        }
        p
    }

    /// A seconds part, with the number of fractional digits to show.
    pub fn new_seconds(style: FormatNumberStyle, decimal_places: u8) -> (r: Self)
        ensures
            r@.part_type == FormatPartType::Seconds,
            r@.attr == map![
                "number:style"@ => style.spec_text(),
                "number:decimal-places"@ => dec_text(decimal_places as nat),
            ],
            r@.content is None,
    {
        let mut p = FormatPart::new(FormatPartType::Seconds);
        p.set_attr("number:style", style.text().to_owned());
        p.set_attr("number:decimal-places", u64_text(decimal_places as u64));
        proof {
            assert(p@.attr =~= map![
                "number:style"@ => style.spec_text(),
                "number:decimal-places"@ => dec_text(decimal_places as nat),
            ]);
        }
        p
    }

    /// A meridiem part; its presence switches the sibling hours parts to the
    /// twelve-hour clock.
    pub fn new_am_pm() -> (r: Self)
        ensures
            r@.part_type == FormatPartType::AmPm,
            r@.attr == Map::<Seq<char>, Seq<char>>::empty(),
            r@.content is None,
    {
        Self::new(FormatPartType::AmPm)
    }

    /// A boolean part: the position of the rendered boolean value.
    pub fn new_boolean() -> (r: Self)
        ensures
            r@.part_type == FormatPartType::Boolean,
            r@.attr == Map::<Seq<char>, Seq<char>>::empty(),
            r@.content is None,
    {
        Self::new(FormatPartType::Boolean)
    }

    /// A fixed-text part.
    pub fn new_text(text: &str) -> (r: Self)
        ensures
            r@.part_type == FormatPartType::Text,
            r@.attr == Map::<Seq<char>, Seq<char>>::empty(),
            r@.content == Some(text@),
    {
        Self::new_with_content(FormatPartType::Text, text)
    }

    /// A text-content part: the position of the cell's own text value.
    pub fn new_text_content() -> (r: Self)
        ensures
            r@.part_type == FormatPartType::TextContent,
            r@.attr == Map::<Seq<char>, Seq<char>>::empty(),
            r@.content is None,
    {
        Self::new(FormatPartType::TextContent)
    }

    /// Writes the style attribute and, for a specific calendar, the calendar
    /// attribute.
    fn set_style_and_calendar(&mut self, style: FormatNumberStyle, calendar: FormatCalendar)
        requires
            old(self)@.attr == Map::<Seq<char>, Seq<char>>::empty(),
        ensures
            final(self)@ == (FormatPartView {
                attr: styled_part_attrs(style, calendar),
                ..old(self)@
            }),
    {
        self.set_attr("number:style", style.text().to_owned());
        if !matches!(calendar, FormatCalendar::Default) {
            self.set_attr("number:calendar", calendar.text().to_owned());
        }
        proof {
            assert(self@.attr =~= styled_part_attrs(style, calendar));
        }
    }

    /// Renders this part's contribution for a boolean value onto `buf`.
    /// A part that means nothing for booleans appends nothing.
    pub fn format_boolean(&self, buf: &mut String, b: bool)
        ensures
            final(buf)@ == old(buf)@ + boolean_part_text(self@, b),
    {
        match self.part_type {
            FormatPartType::Boolean => {
                buf.append(if b {
                    "true"
                } else {
                    "false"
                });
            },
            FormatPartType::Text => {
                if let Some(content) = &self.content {
                    buf.append(content.as_str());
                }
            },
            _ => {},
        }
        proof {
            assert(buf@ =~= old(buf)@ + boolean_part_text(self@, b));
        }
    }

    /// Renders this part's contribution for a text value onto `buf`.
    /// A part that means nothing for text appends nothing.
    pub fn format_str(&self, buf: &mut String, s: &str)
        ensures
            final(buf)@ == old(buf)@ + str_part_text(self@, s@),
    {
        match self.part_type {
            FormatPartType::TextContent => {
                buf.append(s);
            },
            FormatPartType::Text => {
                if let Some(content) = &self.content {
                    buf.append(content.as_str());
                }
            },
            _ => {},
        }
        proof {
            assert(buf@ =~= old(buf)@ + str_part_text(self@, s@));
        }
    }

    /// Renders this part's contribution for a date-time onto `buf`; `h12`
    /// says whether hours use the twelve-hour clock. A part that means
    /// nothing for date-times appends nothing.
    pub fn format_datetime(&self, buf: &mut String, d: &DateTime, h12: bool)
        requires
            d.wf(),
        ensures
            final(buf)@ == old(buf)@ + datetime_part_text(self@, *d, h12),
    {
        match self.part_type {
            FormatPartType::Day => {
                if self.is_long() {
                    buf.append(u64_text_pad2(d.day as u64).as_str());
                } else {
                    buf.append(u64_text(d.day as u64).as_str());
                }
            },
            FormatPartType::Month => {
                let is_long = self.is_long();
                let is_text = str_eq(self.attr_def("number:textual", ""), "true");
                if is_text {
                    if is_long {
                        buf.append(month_name_abbrev(d.year, d.month, d.day).as_str());
                    } else {
                        buf.append(month_name_full(d.year, d.month, d.day).as_str());
                    }
                } else {
                    if is_long {
                        buf.append(u64_text_pad2(d.month as u64).as_str());
                    } else {
                        buf.append(u64_text(d.month as u64).as_str());
                    }
                }
            },
            FormatPartType::Year => {
                if self.is_long() {
                    buf.append(u64_text_pad4(d.year as u64).as_str());
                } else {
                    buf.append(u64_text_pad2((d.year % 100) as u64).as_str());
                }
            },
            FormatPartType::DayOfWeek => {
                if self.is_long() {
                    buf.append(weekday_name_full(d.year, d.month, d.day).as_str());
                } else {
                    buf.append(weekday_name_abbrev(d.year, d.month, d.day).as_str());
                }
            },
            FormatPartType::WeekOfYear => {
                if self.is_long() {
                    buf.append(week_of_year_padded(d.year, d.month, d.day).as_str());
                } else {
                    buf.append(week_of_year_plain(d.year, d.month, d.day).as_str());
                }
            },
            FormatPartType::Hours => {
                let h: u8 = if h12 {
                    ((d.hour + 11) % 12) + 1
                } else {
                    d.hour
                };
                if self.is_long() {
                    buf.append(u64_text_pad2(h as u64).as_str());
                } else {
                    buf.append(u64_text(h as u64).as_str());
                }
            },
            FormatPartType::Minutes => {
                if self.is_long() {
                    buf.append(u64_text_pad2(d.minute as u64).as_str());
                } else {
                    buf.append(u64_text(d.minute as u64).as_str());
                }
            },
            FormatPartType::Seconds => {
                if self.is_long() {
                    buf.append(u64_text_pad2(d.second as u64).as_str());
                } else {
                    buf.append(u64_text(d.second as u64).as_str());
                }
            },
            FormatPartType::AmPm => {
                buf.append(if d.hour < 12 {
                    "AM"
                } else {
                    "PM"
                });
            },
            FormatPartType::Text => {
                if let Some(content) = &self.content {
                    buf.append(content.as_str());
                }
            },
            _ => {},
        }
        proof {
            assert(buf@ =~= old(buf)@ + datetime_part_text(self@, *d, h12));
        }
    }

    /// Renders this part's contribution for an elapsed-time duration onto
    /// `buf`. Hours count whole hours without wrapping at a day; minutes and
    /// seconds are the remainders within the hour and minute. A part that
    /// means nothing for durations appends nothing.
    pub fn format_time_duration(&self, buf: &mut String, d: &Duration)
        ensures
            final(buf)@ == old(buf)@ + duration_part_text(self@, *d),
    {
        let neg = d.secs < 0;
        let mag: u64 = if d.secs < 0 {
            ((-(d.secs + 1)) as u64) + 1
        } else {
            d.secs as u64
        };
        proof {
            assert(mag as int == if d.secs < 0 {
                -(d.secs as int)
            } else {
                d.secs as int
            });
        }
        match self.part_type {
            FormatPartType::Hours => {
                buf.append(signed_text(neg, mag / 3600).as_str());
            },
            FormatPartType::Minutes => {
                buf.append(signed_text(neg, (mag / 60) % 60).as_str());
            },
            FormatPartType::Seconds => {
                buf.append(signed_text(neg, mag % 60).as_str());
            },
            FormatPartType::Text => {
                if let Some(content) = &self.content {
                    buf.append(content.as_str());
                }
            },
            _ => {},
        }
        proof {
            assert(buf@ =~= old(buf)@ + duration_part_text(self@, *d));
        }
    }

    /// True when the style attribute says `long`.
    fn is_long(&self) -> (r: bool)
        ensures
            r == part_is_long(self@),
    {
        str_eq(self.attr_def("number:style", ""), "long")
    }

    /// Sets the kind of the part.
    pub fn set_part_type(&mut self, p_type: FormatPartType)
        ensures
            final(self)@ == (FormatPartView { part_type: p_type, ..old(self)@ }),
    {
        self.part_type = p_type;
    }

    /// What kind of part?
    pub fn part_type(&self) -> (r: FormatPartType)
        ensures
            r == self@.part_type,
    {
        self.part_type
    }

    /// General attributes.
    pub fn attrmap(&self) -> (r: &AttrMap2)
        ensures
            r@ == self@.attr,
    {
        &self.attr
    }

    /// General attributes, for mutation.
    pub fn attrmap_mut(&mut self) -> (r: &mut AttrMap2)
        ensures
            (*r)@ == old(self)@.attr,
            final(self)@ == (FormatPartView { attr: (*final(r))@, ..old(self)@ }),
    {
        &mut self.attr
    }

    /// Adds an attribute.
    pub fn set_attr(&mut self, name: &str, value: String)
        ensures
            final(self)@ == (FormatPartView {
                attr: old(self)@.attr.insert(name@, value@),
                ..old(self)@
            }),
    {
        self.attr.set_attr(name, value);
    }

    /// Returns the named attribute, or the default when it is absent.
    pub fn attr_def<'a>(&'a self, name: &str, default: &'a str) -> (r: &'a str)
        ensures
            r@ == if self@.attr.contains_key(name@) {
                self@.attr[name@]
            } else {
                default@
            },
    {
        match self.attr.attr(name) {
            Some(v) => v.as_str(),
            None => default,
        }
    }

    /// Sets the textual content for this part. This is only used
    /// for text and currency-symbol parts.
    pub fn set_content(&mut self, content: &str)
        ensures
            final(self)@ == (FormatPartView { content: Some(content@), ..old(self)@ }),
    {
        self.content = Some(content.to_owned());
    }

    /// Returns the text content.
    pub fn content(&self) -> (r: Option<&String>)
        ensures
            match r {
                Some(c) => self@.content == Some(c@),
                None => self@.content is None,
            },
    {
        self.content.as_ref()
    }
}

/// The named attribute of a part, or the default when it is absent.
pub open spec fn part_attr_or(p: FormatPartView, key: Seq<char>, dflt: Seq<char>) -> Seq<char> {
    if p.attr.contains_key(key) {
        p.attr[key]
    } else {
        dflt
    }
}

/// True when the part's style attribute says `long`.
pub open spec fn part_is_long(p: FormatPartView) -> bool {
    part_attr_or(p, "number:style"@, ""@) == "long"@
}

/// True when the part's textual attribute says `true`.
pub open spec fn part_is_textual(p: FormatPartView) -> bool {
    part_attr_or(p, "number:textual"@, ""@) == "true"@
}

/// The part's literal content; empty when it has none.
pub open spec fn content_text(p: FormatPartView) -> Seq<char> {
    match p.content {
        Some(c) => c,
        None => Seq::empty(),
    }
}

/// What one part contributes for a boolean value.
pub open spec fn boolean_part_text(p: FormatPartView, b: bool) -> Seq<char> {
    match p.part_type {
        FormatPartType::Boolean => if b {
            "true"@
        } else {
            "false"@
        },
        FormatPartType::Text => content_text(p),
        _ => Seq::empty(),
    }
}

/// What one part contributes for a text value.
pub open spec fn str_part_text(p: FormatPartView, s: Seq<char>) -> Seq<char> {
    match p.part_type {
        FormatPartType::TextContent => s,
        FormatPartType::Text => content_text(p),
        _ => Seq::empty(),
    }
}

/// The hour on the twelve-hour clock: 12 for 0 and 12, else the hour
/// modulo twelve.
pub open spec fn hour12(h: int) -> int {
    (h + 11) % 12 + 1
}

/// What one part contributes for a date-time; `h12` selects the
/// twelve-hour clock for hours parts.
pub open spec fn datetime_part_text(p: FormatPartView, d: DateTime, h12: bool) -> Seq<char> {
    match p.part_type {
        FormatPartType::Day => if part_is_long(p) {
            dec_text_pad(d.day as nat, 2)
        } else {
            dec_text(d.day as nat)
        },
        FormatPartType::Month => if part_is_textual(p) {
            if part_is_long(p) {
                month_abbrev_text(d.month as int)
            } else {
                month_full_text(d.month as int)
            }
        } else {
            if part_is_long(p) {
                dec_text_pad(d.month as nat, 2)
            } else {
                dec_text(d.month as nat)
            }
        },
        FormatPartType::Year => if part_is_long(p) {
            dec_text_pad(d.year as nat, 4)
        } else {
            dec_text_pad((d.year as int % 100) as nat, 2)
        },
        FormatPartType::DayOfWeek => if part_is_long(p) {
            weekday_full_text(d.year as int, d.month as int, d.day as int)
        } else {
            weekday_abbrev_text(d.year as int, d.month as int, d.day as int)
        },
        FormatPartType::WeekOfYear => if part_is_long(p) {
            week_text_padded(d.year as int, d.month as int, d.day as int)
        } else {
            week_text_plain(d.year as int, d.month as int, d.day as int)
        },
        FormatPartType::Hours => {
            let h = if h12 {
                hour12(d.hour as int)
            } else {
                d.hour as int
            };
            if part_is_long(p) {
                dec_text_pad(h as nat, 2)
            } else {
                dec_text(h as nat)
            }
        },
        FormatPartType::Minutes => if part_is_long(p) {
            dec_text_pad(d.minute as nat, 2)
        } else {
            dec_text(d.minute as nat)
        },
        FormatPartType::Seconds => if part_is_long(p) {
            dec_text_pad(d.second as nat, 2)
        } else {
            dec_text(d.second as nat)
        },
        FormatPartType::AmPm => if d.hour < 12 {
            "AM"@
        } else {
            "PM"@
        },
        FormatPartType::Text => content_text(p),
        _ => Seq::empty(),
    }
}

/// What one part contributes for an elapsed-time duration.
pub open spec fn duration_part_text(p: FormatPartView, d: Duration) -> Seq<char> {
    match p.part_type {
        FormatPartType::Hours => dec_text_signed(d.spec_hours()),
        FormatPartType::Minutes => dec_text_signed(d.spec_minute_of_hour()),
        FormatPartType::Seconds => dec_text_signed(d.spec_second_of_minute()),
        FormatPartType::Text => content_text(p),
        _ => Seq::empty(),
    }
}

/// The abstract values of a sequence of parts.
pub open spec fn parts_views(s: Seq<FormatPart>) -> Seq<FormatPartView> {
    Seq::new(s.len(), |i: int| s[i]@)
}

/// The full rendering of a boolean value: each part's contribution, in
/// stored order.
pub open spec fn boolean_format_text(parts: Seq<FormatPartView>, b: bool) -> Seq<char>
    decreases parts.len(),
{
    if parts.len() == 0 {
        Seq::empty()
    } else {
        boolean_format_text(parts.drop_last(), b) + boolean_part_text(parts.last(), b)
    }
}

/// The full rendering of a text value: each part's contribution, in stored
/// order.
pub open spec fn str_format_text(parts: Seq<FormatPartView>, s: Seq<char>) -> Seq<char>
    decreases parts.len(),
{
    if parts.len() == 0 {
        Seq::empty()
    } else {
        str_format_text(parts.drop_last(), s) + str_part_text(parts.last(), s)
    }
}

/// Whether some part is a meridiem part; its mere presence switches every
/// hours part of the same format to the twelve-hour clock.
pub open spec fn has_am_pm(parts: Seq<FormatPartView>) -> bool
    decreases parts.len(),
{
    if parts.len() == 0 {
        false
    } else {
        has_am_pm(parts.drop_last()) || parts.last().part_type == FormatPartType::AmPm
    }
}

/// The full rendering of a date-time: each part's contribution, in stored
/// order, with `h12` selecting the twelve-hour clock for hours parts.
pub open spec fn datetime_format_text(parts: Seq<FormatPartView>, d: DateTime, h12: bool) -> Seq<
    char,
>
    decreases parts.len(),
{
    if parts.len() == 0 {
        Seq::empty()
    } else {
        datetime_format_text(parts.drop_last(), d, h12) + datetime_part_text(parts.last(), d, h12)
    }
}

/// The full rendering of an elapsed-time duration: each part's
/// contribution, in stored order.
pub open spec fn duration_format_text(parts: Seq<FormatPartView>, d: Duration) -> Seq<char>
    decreases parts.len(),
{
    if parts.len() == 0 {
        Seq::empty()
    } else {
        duration_format_text(parts.drop_last(), d) + duration_part_text(parts.last(), d)
    }
}

/// The attribute map a locale is stored as: its language, and its region
/// and script when present, each in its own slot.
pub open spec fn locale_attrs(locale: Locale) -> Map<Seq<char>, Seq<char>> {
    let m = map!["number:language"@ => locale.language@];
    let m2 = match locale.region {
        Some(r) => m.insert("number:country"@, r@),
        None => m,
    };
    match locale.script {
        Some(s) => m2.insert("number:script"@, s@),
        None => m2,
    }
}

/// The abstract value of a value format: its identity, classification,
/// attributes and part sequence.
pub struct ValueFormatView {
    pub name: Seq<char>,
    pub v_type: ValueType,
    pub origin: StyleOrigin,
    pub styleuse: StyleUse,
    pub attr: Map<Seq<char>, Seq<char>>,
    pub textstyle: Map<Seq<char>, Seq<char>>,
    pub parts: Seq<FormatPartView>,
    pub stylemaps: Option<Seq<StyleMap>>,
}

/// Actual textual formatting of values: a named, typed, ordered sequence of
/// format parts with locale attributes.
#[derive(Debug, Clone)]
pub struct ValueFormat {
    /// Name
    name: String,
    /// Value type
    v_type: ValueType,
    /// Origin information.
    origin: StyleOrigin,
    /// Usage of this style.
    styleuse: StyleUse,
    /// Properties of the format.
    attr: AttrMap2,
    /// Cell text styles.
    textstyle: AttrMap2,
    /// Parts of the format.
    parts: Vec<FormatPart>,
    /// Style map data.
    stylemaps: Option<Vec<StyleMap>>,
}

impl View for ValueFormat {
    type V = ValueFormatView;

    closed spec fn view(&self) -> ValueFormatView {
        ValueFormatView {
            name: self.name@,
            v_type: self.v_type,
            origin: self.origin,
            styleuse: self.styleuse,
            attr: self.attr@,
            textstyle: self.textstyle@,
            parts: parts_views(self.parts@),
            stylemaps: match self.stylemaps {
                Some(v) => Some(v@),
                None => None,
            },
        }
    }
}

impl Default for ValueFormat {
    /// Same as [`ValueFormat::new`].
    fn default() -> (r: Self)
        ensures
            r@ == ValueFormat::spec_new(),
    {
        ValueFormat::new()
    }
}

impl ValueFormat {
    /// The value of an empty format: unnamed, text-typed, with no
    /// attributes and no parts.
    pub open spec fn spec_new() -> ValueFormatView {
        ValueFormatView {
            name: Seq::empty(),
            v_type: ValueType::Text,
            origin: StyleOrigin::Styles,
            styleuse: StyleUse::Default,
            attr: Map::empty(),
            textstyle: Map::empty(),
            parts: Seq::empty(),
            stylemaps: None,
        }
    }

    /// New, empty.
    pub fn new() -> (r: Self)
        ensures
            r@ == Self::spec_new(),
    {
        let r = ValueFormat {
            name: String::new(),
            v_type: ValueType::Text,
            origin: StyleOrigin::Styles,
            styleuse: StyleUse::Default,
            attr: AttrMap2::new(),
            textstyle: AttrMap2::new(),
            parts: Vec::new(),
            stylemaps: None,
        };
        proof {
            assert(r@.parts =~= Seq::<FormatPartView>::empty());
        }
        r
    }

    /// New, with a name and the value kind it formats, which is never the
    /// empty sentinel kind.
    pub fn new_named(name: &str, value_type: ValueType) -> (r: Self)
        requires
            value_type != ValueType::Empty,
        ensures
            r@ == (ValueFormatView { name: name@, v_type: value_type, ..Self::spec_new() }),
    {
        let r = ValueFormat {
            name: name.to_owned(),
            v_type: value_type,
            origin: StyleOrigin::Styles,
            styleuse: StyleUse::Default,
            attr: AttrMap2::new(),
            textstyle: AttrMap2::new(),
            parts: Vec::new(),
            stylemaps: None,
        };
        proof {
            assert(r@.parts =~= Seq::<FormatPartView>::empty());
        }
        r
    }

    /// New, with a name, a locale and the value kind it formats. The locale
    /// is stored decomposed: language, region and script each in its own
    /// attribute slot.
    pub fn new_localized(name: &str, locale: &Locale, value_type: ValueType) -> (r: Self)
        requires
            value_type != ValueType::Empty,
        ensures
            r@ == (ValueFormatView {
                name: name@,
                v_type: value_type,
                attr: locale_attrs(*locale),
                ..Self::spec_new()
            }),
    {
        let mut r = ValueFormat::new_named(name, value_type);
        r.attr.set_attr("number:language", locale.language.as_str().to_owned());
        if let Some(region) = &locale.region {
            r.attr.set_attr("number:country", region.as_str().to_owned());
        }
        if let Some(script) = &locale.script {
            r.attr.set_attr("number:script", script.as_str().to_owned());
        }
        proof {
            assert(r@.attr =~= locale_attrs(*locale));
        }
        r
    }

    /// Returns a reference naming this value format.
    pub fn format_ref(&self) -> (r: ValueFormatRef)
        ensures
            r@ == self@.name,
    {
        ValueFormatRef::new(self.name().as_str())
    }

    /// Sets the format's name, which cell styles reference.
    pub fn set_name(&mut self, name: &str)
        ensures
            final(self)@ == (ValueFormatView { name: name@, ..old(self)@ }),
    {
        self.name = name.to_owned();
    }

    /// The format's name.
    pub fn name(&self) -> (r: &String)
        ensures
            r@ == self@.name,
    {
        &self.name
    }

    /// Sets the value type, which is never the empty sentinel kind.
    pub fn set_value_type(&mut self, value_type: ValueType)
        requires
            value_type != ValueType::Empty,
        ensures
            final(self)@ == (ValueFormatView { v_type: value_type, ..old(self)@ }),
    {
        self.v_type = value_type;
    }

    /// Returns the value type.
    pub fn value_type(&self) -> (r: ValueType)
        ensures
            r == self@.v_type,
    {
        self.v_type
    }

    /// Sets the origin.
    pub fn set_origin(&mut self, origin: StyleOrigin)
        ensures
            final(self)@ == (ValueFormatView { origin, ..old(self)@ }),
    {
        self.origin = origin;
    }

    /// Returns the origin.
    pub fn origin(&self) -> (r: StyleOrigin)
        ensures
            r == self@.origin,
    {
        self.origin
    }

    /// Sets the style usage classification.
    pub fn set_styleuse(&mut self, styleuse: StyleUse)
        ensures
            final(self)@ == (ValueFormatView { styleuse, ..old(self)@ }),
    {
        self.styleuse = styleuse;
    }

    /// Returns the style usage classification.
    pub fn styleuse(&self) -> (r: StyleUse)
        ensures
            r == self@.styleuse,
    {
        self.styleuse
    }

    /// All direct attributes of the format.
    pub fn attrmap(&self) -> (r: &AttrMap2)
        ensures
            r@ == self@.attr,
    {
        &self.attr
    }

    /// All direct attributes of the format, for mutation.
    pub fn attrmap_mut(&mut self) -> (r: &mut AttrMap2)
        ensures
            (*r)@ == old(self)@.attr,
            final(self)@ == (ValueFormatView { attr: (*final(r))@, ..old(self)@ }),
    {
        &mut self.attr
    }

    /// Text style attributes, for mutation.
    pub fn textstyle_mut(&mut self) -> (r: &mut AttrMap2)
        ensures
            (*r)@ == old(self)@.textstyle,
            final(self)@ == (ValueFormatView { textstyle: (*final(r))@, ..old(self)@ }),
    {
        &mut self.textstyle
    }

    /// Text style attributes, applied to the whole formatted text.
    pub fn textstyle(&self) -> (r: &AttrMap2)
        ensures
            r@ == self@.textstyle,
    {
        &self.textstyle
    }

    /// Sets the title of this data style.
    pub fn set_title(&mut self, title: &str)
        ensures
            final(self)@ == (ValueFormatView {
                attr: old(self)@.attr.insert("number:title"@, title@),
                ..old(self)@
            }),
    {
        self.attr.set_attr("number:title", title.to_owned());
    }

    /// The title of this data style.
    pub fn title(&self) -> (r: Option<&String>)
        ensures
            match r {
                Some(v) => self@.attr.contains_key("number:title"@) && v@ == self@.attr[
                    "number:title"@
                ],
                None => !self@.attr.contains_key("number:title"@),
            },
    {
        self.attr.attr("number:title")
    }

    /// Sets the name of the style as it should appear in the user
    /// interface; it is stored in the country slot.
    pub fn set_display_name(&mut self, name: &str)
        ensures
            final(self)@ == (ValueFormatView {
                attr: old(self)@.attr.insert("number:country"@, name@),
                ..old(self)@
            }),
    {
        self.attr.set_attr("number:country", name.to_owned());
    }

    /// The display name; read from the country slot, where
    /// [`Self::set_display_name`] stores it.
    pub fn display_name(&self) -> (r: Option<&String>)
        ensures
            match r {
                Some(v) => self@.attr.contains_key("number:country"@) && v@ == self@.attr[
                    "number:country"@
                ],
                None => !self@.attr.contains_key("number:country"@),
            },
    {
        self.attr.attr("number:country")
    }

    /// Sets the country code used for locale-dependent formatting.
    pub fn set_country(&mut self, country: Region)
        ensures
            final(self)@ == (ValueFormatView {
                attr: old(self)@.attr.insert("number:country"@, country@),
                ..old(self)@
            }),
    {
        self.attr.set_attr("number:country", country.as_str().to_owned());
    }

    /// The country code, when one is stored and parses as a region subtag.
    pub fn country(&self) -> (r: Option<Region>)
        ensures
            match r {
                Some(reg) => self@.attr.contains_key("number:country"@) && region_norm(
                    self@.attr["number:country"@],
                ) == Some(reg@),
                None => !self@.attr.contains_key("number:country"@) || region_norm(
                    self@.attr["number:country"@],
                ) is None,
            },
    {
        match self.attr.attr("number:country") {
            None => None,
            Some(v) => Region::parse(v.as_str()),
        }
    }

    /// Sets the language code used for locale-dependent formatting.
    pub fn set_language(&mut self, language: Language)
        ensures
            final(self)@ == (ValueFormatView {
                attr: old(self)@.attr.insert("number:language"@, language@),
                ..old(self)@
            }),
    {
        self.attr.set_attr("number:language", language.as_str().to_owned());
    }

    /// The language code, when one is stored and parses as a language
    /// subtag.
    pub fn language(&self) -> (r: Option<Language>)
        ensures
            match r {
                Some(l) => self@.attr.contains_key("number:language"@) && language_norm(
                    self@.attr["number:language"@],
                ) == Some(l@),
                None => !self@.attr.contains_key("number:language"@) || language_norm(
                    self@.attr["number:language"@],
                ) is None,
            },
    {
        match self.attr.attr("number:language") {
            None => None,
            Some(v) => Language::parse(v.as_str()),
        }
    }

    /// Sets the script code used for locale-dependent formatting.
    pub fn set_script(&mut self, script: Script)
        ensures
            final(self)@ == (ValueFormatView {
                attr: old(self)@.attr.insert("number:script"@, script@),
                ..old(self)@
            }),
    {
        self.attr.set_attr("number:script", script.as_str().to_owned());
    }

    /// The script code, when one is stored and parses as a script subtag.
    pub fn script(&self) -> (r: Option<Script>)
        ensures
            match r {
                Some(s) => self@.attr.contains_key("number:script"@) && script_norm(
                    self@.attr["number:script"@],
                ) == Some(s@),
                None => !self@.attr.contains_key("number:script"@) || script_norm(
                    self@.attr["number:script"@],
                ) is None,
            },
    {
        match self.attr.attr("number:script") {
            None => None,
            Some(v) => Script::parse(v.as_str()),
        }
    }

    /// Sets the country code for transliteration.
    pub fn set_transliteration_country(&mut self, country: Region)
        ensures
            final(self)@ == (ValueFormatView {
                attr: old(self)@.attr.insert("number:transliteration-country"@, country@),
                ..old(self)@
            }),
    {
        self.attr.set_attr("number:transliteration-country", country.as_str().to_owned());
    }

    /// The transliteration country code, when one is stored and parses as a
    /// region subtag.
    pub fn transliteration_country(&self) -> (r: Option<Region>)
        ensures
            match r {
                Some(reg) => self@.attr.contains_key("number:transliteration-country"@)
                    && region_norm(self@.attr["number:transliteration-country"@]) == Some(reg@),
                None => !self@.attr.contains_key("number:transliteration-country"@) || region_norm(
                    self@.attr["number:transliteration-country"@],
                ) is None,
            },
    {
        match self.attr.attr("number:transliteration-country") {
            None => None,
            Some(v) => Region::parse(v.as_str()),
        }
    }

    /// Sets the language code for transliteration.
    pub fn set_transliteration_language(&mut self, language: Language)
        ensures
            final(self)@ == (ValueFormatView {
                attr: old(self)@.attr.insert("number:transliteration-language"@, language@),
                ..old(self)@
            }),
    {
        self.attr.set_attr("number:transliteration-language", language.as_str().to_owned());
    }

    /// The transliteration language code, when one is stored and parses as
    /// a language subtag.
    pub fn transliteration_language(&self) -> (r: Option<Language>)
        ensures
            match r {
                Some(l) => self@.attr.contains_key("number:transliteration-language"@)
                    && language_norm(self@.attr["number:transliteration-language"@]) == Some(l@),
                None => !self@.attr.contains_key("number:transliteration-language"@)
                    || language_norm(self@.attr["number:transliteration-language"@]) is None,
            },
    {
        match self.attr.attr("number:transliteration-language") {
            None => None,
            Some(v) => Language::parse(v.as_str()),
        }
    }

    /// Sets which digit character starts the transliterated digit row.
    pub fn set_transliteration_format(&mut self, format: char)
        ensures
            final(self)@ == (ValueFormatView {
                attr: old(self)@.attr.insert("number:transliteration-format"@, seq![format]),
                ..old(self)@
            }),
    {
        self.attr.set_attr("number:transliteration-format", char_text(format));
    }

    /// The transliteration format: the first character of the stored value,
    /// when one is stored and not empty.
    pub fn transliteration_format(&self) -> (r: Option<char>)
        ensures
            match r {
                Some(c) => self@.attr.contains_key("number:transliteration-format"@) && self@.attr[
                    "number:transliteration-format"@
                ].len() > 0 && c == self@.attr["number:transliteration-format"@][0],
                None => !self@.attr.contains_key("number:transliteration-format"@) || self@.attr[
                    "number:transliteration-format"@
                ].len() == 0,
            },
    {
        match self.attr.attr("number:transliteration-format") {
            None => None,
            Some(v) => {
                let vs = v.as_str();
                if vs.unicode_len() == 0 {
                    None
                } else {
                    Some(vs.get_char(0))
                }
            },
        }
    }

    /// Sets the transliteration style.
    pub fn set_transliteration_style(&mut self, style: TransliterationStyle)
        ensures
            final(self)@ == (ValueFormatView {
                attr: old(self)@.attr.insert(
                    "number:transliteration-style"@,
                    style.spec_text(),
                ),
                ..old(self)@
            }),
    {
        self.attr.set_attr("number:transliteration-style", style.text().to_owned());
    }

    /// The transliteration style, when one is stored and parses.
    pub fn transliteration_style(&self) -> (r: Option<TransliterationStyle>)
        ensures
            r == if self@.attr.contains_key("number:transliteration-style"@) {
                TransliterationStyle::spec_parse(self@.attr["number:transliteration-style"@])
            } else {
                None::<TransliterationStyle>
            },
    {
        match self.attr.attr("number:transliteration-style") {
            None => None,
            Some(v) => TransliterationStyle::parse(v.as_str()),
        }
    }

    /// Sets whether consumers keep this style even when it is unused.
    pub fn set_volatile(&mut self, volatile: bool)
        ensures
            final(self)@ == (ValueFormatView {
                attr: old(self)@.attr.insert("style:volatile"@, bool_text(volatile)),
                ..old(self)@
            }),
    {
        self.attr.set_attr(
            "style:volatile",
            if volatile {
                "true"
            } else {
                "false"
            }.to_owned(),
        );
    }

    /// Whether unused styles are kept, when stored and readable as a
    /// boolean.
    pub fn volatile(&self) -> (r: Option<bool>)
        ensures
            r == if self@.attr.contains_key("style:volatile"@) {
                bool_parse(self@.attr["style:volatile"@])
            } else {
                None::<bool>
            },
    {
        match self.attr.attr("style:volatile") {
            None => None,
            Some(v) => parse_bool_text(v.as_str()),
        }
    }

    /// Sets whether data is reordered to match the locale's default order.
    pub fn set_automatic_order(&mut self, volatile: bool)
        ensures
            final(self)@ == (ValueFormatView {
                attr: old(self)@.attr.insert("number:automatic-order"@, bool_text(volatile)),
                ..old(self)@
            }),
    {
        self.attr.set_attr(
            "number:automatic-order",
            if volatile {
                "true"
            } else {
                "false"
            }.to_owned(),
        );
    }

    /// Whether data is reordered to the locale's default order, when stored
    /// and readable as a boolean.
    pub fn automatic_order(&self) -> (r: Option<bool>)
        ensures
            r == if self@.attr.contains_key("number:automatic-order"@) {
                bool_parse(self@.attr["number:automatic-order"@])
            } else {
                None::<bool>
            },
    {
        match self.attr.attr("number:automatic-order") {
            None => None,
            Some(v) => parse_bool_text(v.as_str()),
        }
    }

    /// Appends a decimal-number part with the given count of fractional
    /// digits.
    pub fn push_number(&mut self, decimal_places: u8, grouping: bool)
        ensures
            final(self)@ == (ValueFormatView {
                parts: old(self)@.parts.push(
                    FormatPartView {
                        part_type: FormatPartType::Number,
                        attr: number_part_attrs(decimal_places, grouping, 0, 1, None),
                        content: None,
                    },
                ),
                ..old(self)@
            }),
    {
        self.push_part(FormatPart::new_number(decimal_places, grouping, 0, 1, None));
    }

    /// Appends a decimal-number part that shows exactly `decimal_places`
    /// fractional digits.
    pub fn push_number_fix(&mut self, decimal_places: u8, grouping: bool)
        ensures
            final(self)@ == (ValueFormatView {
                parts: old(self)@.parts.push(
                    FormatPartView {
                        part_type: FormatPartType::Number,
                        attr: number_part_attrs(decimal_places, grouping, decimal_places, 1, None),
                        content: None,
                    },
                ),
                ..old(self)@
            }),
    {
        self.push_part(
            FormatPart::new_number(decimal_places, grouping, decimal_places, 1, None),
        );
    }

    /// Appends a fill-character part.
    pub fn push_fill_character(&mut self, fill_character: char)
        ensures
            final(self)@ == (ValueFormatView {
                parts: old(self)@.parts.push(
                    FormatPartView {
                        part_type: FormatPartType::FillCharacter,
                        attr: Map::empty(),
                        content: Some(seq![fill_character]),
                    },
                ),
                ..old(self)@
            }),
    {
        self.push_part(FormatPart::new_fill_character(fill_character));
    }

    /// Appends a scientific-notation number part.
    pub fn push_scientific_number(
        &mut self,
        decimal_places: u8,
        grouping: bool,
        min_exponentdigits: Option<u8>,
        min_integer_digits: Option<u8>,
    )
        ensures
            final(self)@ == (ValueFormatView {
                parts: old(self)@.parts.push(
                    FormatPartView {
                        part_type: FormatPartType::ScientificNumber,
                        attr: scientific_part_attrs(
                            decimal_places,
                            grouping,
                            min_exponentdigits,
                            min_integer_digits,
                        ),
                        content: None,
                    },
                ),
                ..old(self)@
            }),
    {
        self.push_part(
            FormatPart::new_scientific_number(
                decimal_places,
                grouping,
                min_exponentdigits,
                min_integer_digits,
            ),
        );
    }

    /// Appends a fraction part.
    pub fn push_fraction(
        &mut self,
        denominatorvalue: u32,
        min_denominator_digits: u8,
        min_integer_digits: u8,
        min_numerator_digits: u8,
        grouping: bool,
        max_denominator_value: Option<u8>,
    )
        ensures
            final(self)@ == (ValueFormatView {
                parts: old(self)@.parts.push(
                    FormatPartView {
                        part_type: FormatPartType::Fraction,
                        attr: fraction_part_attrs(
                            denominatorvalue,
                            min_denominator_digits,
                            min_integer_digits,
                            min_numerator_digits,
                            grouping,
                            max_denominator_value,
                        ),
                        content: None,
                    },
                ),
                ..old(self)@
            }),
    {
        self.push_part(
            FormatPart::new_fraction(
                denominatorvalue,
                min_denominator_digits,
                min_integer_digits,
                min_numerator_digits,
                grouping,
                max_denominator_value,
            ),
        );
    }

    /// Appends a currency-symbol part with its locale and symbol text.
    pub fn push_currency_symbol(&mut self, locale: &Locale, symbol: &str)
        ensures
            final(self)@ == (ValueFormatView {
                parts: old(self)@.parts.push(
                    FormatPartView {
                        part_type: FormatPartType::CurrencySymbol,
                        attr: currency_symbol_attrs(*locale),
                        content: Some(symbol@),
                    },
                ),
                ..old(self)@
            }),
    {
        self.push_part(FormatPart::new_currency_symbol(locale, symbol));
    }

    /// Appends a day-of-month part.
    pub fn push_day(&mut self, style: FormatNumberStyle, calendar: FormatCalendar)
        ensures
            final(self)@ == (ValueFormatView {
                parts: old(self)@.parts.push(
                    FormatPartView {
                        part_type: FormatPartType::Day,
                        attr: styled_part_attrs(style, calendar),
                        content: None,
                    },
                ),
                ..old(self)@
            }),
    {
        self.push_part(FormatPart::new_day(style, calendar));
    }

    /// Appends a month part.
    pub fn push_month(
        &mut self,
        style: FormatNumberStyle,
        textual: FormatTextual,
        possessive_form: FormatMonth,
        calendar: FormatCalendar,
    )
        ensures
            final(self)@ == (ValueFormatView {
                parts: old(self)@.parts.push(
                    FormatPartView {
                        part_type: FormatPartType::Month,
                        attr: month_part_attrs(style, textual, possessive_form, calendar),
                        content: None,
                    },
                ),
                ..old(self)@
            }),
    {
        self.push_part(FormatPart::new_month(style, textual, possessive_form, calendar));
    }

    /// Appends a year part.
    pub fn push_year(&mut self, style: FormatNumberStyle, calendar: FormatCalendar)
        ensures
            final(self)@ == (ValueFormatView {
                parts: old(self)@.parts.push(
                    FormatPartView {
                        part_type: FormatPartType::Year,
                        attr: styled_part_attrs(style, calendar),
                        content: None,
                    },
                ),
                ..old(self)@
            }),
    {
        self.push_part(FormatPart::new_year(style, calendar));
    }

    /// Appends an era part.
    pub fn push_era(&mut self, style: FormatNumberStyle, calendar: FormatCalendar)
        ensures
            final(self)@ == (ValueFormatView {
                parts: old(self)@.parts.push(
                    FormatPartView {
                        part_type: FormatPartType::Era,
                        attr: styled_part_attrs(style, calendar),
                        content: None,
                    },
                ),
                ..old(self)@
            }),
    {
        self.push_part(FormatPart::new_era(style, calendar));
    }

    /// Appends a day-of-week part.
    pub fn push_day_of_week(&mut self, style: FormatNumberStyle, calendar: FormatCalendar)
        ensures
            final(self)@ == (ValueFormatView {
                parts: old(self)@.parts.push(
                    FormatPartView {
                        part_type: FormatPartType::DayOfWeek,
                        attr: styled_part_attrs(style, calendar),
                        content: None,
                    },
                ),
                ..old(self)@
            }),
    {
        self.push_part(FormatPart::new_day_of_week(style, calendar));
    }

    /// Appends a week-of-year part.
    pub fn push_week_of_year(&mut self, calendar: FormatCalendar)
        ensures
            final(self)@ == (ValueFormatView {
                parts: old(self)@.parts.push(
                    FormatPartView {
                        part_type: FormatPartType::WeekOfYear,
                        attr: with_calendar(Map::empty(), calendar),
                        content: None,
                    },
                ),
                ..old(self)@
            }),
    {
        self.push_part(FormatPart::new_week_of_year(calendar));
    }

    /// Appends a quarter-of-year part.
    pub fn push_quarter(&mut self, style: FormatNumberStyle, calendar: FormatCalendar)
        ensures
            final(self)@ == (ValueFormatView {
                parts: old(self)@.parts.push(
                    FormatPartView {
                        part_type: FormatPartType::Quarter,
                        attr: styled_part_attrs(style, calendar),
                        content: None,
                    },
                ),
                ..old(self)@
            }),
    {
        self.push_part(FormatPart::new_quarter(style, calendar));
    }

    /// Appends an hours part.
    pub fn push_hours(&mut self, style: FormatNumberStyle)
        ensures
            final(self)@ == (ValueFormatView {
                parts: old(self)@.parts.push(
                    FormatPartView {
                        part_type: FormatPartType::Hours,
                        attr: map!["number:style"@ => style.spec_text()],
                        content: None,
                    },
                ),
                ..old(self)@
            }),
    {
        self.push_part(FormatPart::new_hours(style));
    }

    /// Appends a minutes part.
    pub fn push_minutes(&mut self, style: FormatNumberStyle)
        ensures
            final(self)@ == (ValueFormatView {
                parts: old(self)@.parts.push(
                    FormatPartView {
                        part_type: FormatPartType::Minutes,
                        attr: map!["number:style"@ => style.spec_text()],
                        content: None,
                    },
                ),
                ..old(self)@
            }),
    {
        self.push_part(FormatPart::new_minutes(style));
    }

    /// Appends a seconds part.
    pub fn push_seconds(&mut self, style: FormatNumberStyle, decimal_places: u8)
        ensures
            final(self)@ == (ValueFormatView {
                parts: old(self)@.parts.push(
                    FormatPartView {
                        part_type: FormatPartType::Seconds,
                        attr: map![
                            "number:style"@ => style.spec_text(),
                            "number:decimal-places"@ => dec_text(decimal_places as nat),
                        ],
                        content: None,
                    },
                ),
                ..old(self)@
            }),
    {
        self.push_part(FormatPart::new_seconds(style, decimal_places));
    }

    /// Appends a meridiem part; hours parts of this format then use the
    /// twelve-hour clock.
    pub fn push_am_pm(&mut self)
        ensures
            final(self)@ == (ValueFormatView {
                parts: old(self)@.parts.push(
                    FormatPartView {
                        part_type: FormatPartType::AmPm,
                        attr: Map::empty(),
                        content: None,
                    },
                ),
                ..old(self)@
            }),
    {
        self.push_part(FormatPart::new_am_pm());
    }

    /// Appends a boolean part.
    pub fn push_boolean(&mut self)
        ensures
            final(self)@ == (ValueFormatView {
                parts: old(self)@.parts.push(
                    FormatPartView {
                        part_type: FormatPartType::Boolean,
                        attr: Map::empty(),
                        content: None,
                    },
                ),
                ..old(self)@
            }),
    {
        self.push_part(FormatPart::new_boolean());
    }

    /// Appends a fixed-text part.
    pub fn push_text(&mut self, text: &str)
        ensures
            final(self)@ == (ValueFormatView {
                parts: old(self)@.parts.push(
                    FormatPartView {
                        part_type: FormatPartType::Text,
                        attr: Map::empty(),
                        content: Some(text@),
                    },
                ),
                ..old(self)@
            }),
    {
        self.push_part(FormatPart::new_text(text));
    }

    /// Appends a text-content part.
    pub fn push_text_content(&mut self)
        ensures
            final(self)@ == (ValueFormatView {
                parts: old(self)@.parts.push(
                    FormatPartView {
                        part_type: FormatPartType::TextContent,
                        attr: Map::empty(),
                        content: None,
                    },
                ),
                ..old(self)@
            }),
    {
        self.push_part(FormatPart::new_text_content());
    }

    /// Adds a format part.
    pub fn push_part(&mut self, part: FormatPart)
        ensures
            final(self)@ == (ValueFormatView {
                parts: old(self)@.parts.push(part@),
                ..old(self)@
            }),
    {
        self.parts.push(part);
        proof {
            assert(self@.parts =~= old(self)@.parts.push(self.parts@.last()@));
        }
    }

    /// Moves all parts of `partvec` to the end of this format's part
    /// sequence, leaving `partvec` empty.
    pub fn push_parts(&mut self, partvec: &mut Vec<FormatPart>)
        ensures
            final(self)@ == (ValueFormatView {
                parts: old(self)@.parts + parts_views(old(partvec)@),
                ..old(self)@
            }),
            final(partvec)@ == Seq::<FormatPart>::empty(),
    {
        self.parts.append(partvec);
        proof {
            assert(self@.parts =~= old(self)@.parts + parts_views(old(partvec)@));
        }
    }

    /// Returns the parts.
    pub fn parts(&self) -> (r: &Vec<FormatPart>)
        ensures
            parts_views(r@) == self@.parts,
    {
        &self.parts
    }

    /// Returns the parts, for mutation.
    pub fn parts_mut(&mut self) -> (r: &mut Vec<FormatPart>)
        ensures
            parts_views((*r)@) == old(self)@.parts,
            final(self)@ == (ValueFormatView { parts: parts_views((*final(r))@), ..old(self)@ }),
    {
        &mut self.parts
    }

    /// Returns the conditional style overrides for mutation, first making
    /// an empty list where none were added yet.
    pub fn stylemaps_mut(&mut self) -> (r: &mut Vec<StyleMap>)
        ensures
            (*r)@ == match old(self)@.stylemaps {
                Some(s) => s,
                None => Seq::<StyleMap>::empty(),
            },
            final(self)@ == (ValueFormatView { stylemaps: Some((*final(r))@), ..old(self)@ }),
    {
        self.stylemaps.get_or_insert(Vec::new())
    }

    /// Adds a conditional style override.
    pub fn push_stylemap(&mut self, stylemap: StyleMap)
        ensures
            final(self)@ == (ValueFormatView {
                stylemaps: Some(
                    match old(self)@.stylemaps {
                        Some(s) => s.push(stylemap),
                        None => seq![stylemap],
                    },
                ),
                ..old(self)@
            }),
    {
        if self.stylemaps.is_none() {
            self.stylemaps = Some(Vec::new());
        }
        if let Some(v) = &mut self.stylemaps {
            v.push(stylemap);
        }
        proof {
            match old(self)@.stylemaps {
                Some(s) => {},
                None => {
                    assert(self@.stylemaps->0 =~= seq![stylemap]);
                },
            }
        }
    }

    /// Returns the conditional style overrides, if any were added.
    pub fn stylemaps(&self) -> (r: Option<&Vec<StyleMap>>)
        ensures
            match r {
                Some(v) => self@.stylemaps == Some(v@),
                None => self@.stylemaps is None,
            },
    {
        self.stylemaps.as_ref()
    }

    /// Renders a boolean value: walks the parts in order and appends each
    /// part's contribution. With no matching parts the result is empty.
    pub fn format_boolean(&self, b: bool) -> (r: String)
        ensures
            r@ == boolean_format_text(self@.parts, b),
    {
        let mut buf = String::new();
        let n = self.parts.len();
        let mut i: usize = 0;
        while i < n
            invariant
                0 <= i <= n,
                n == self.parts@.len(),
                buf@ == boolean_format_text(self@.parts.take(i as int), b),
            decreases n - i,
        {
            let p = &self.parts[i];
            p.format_boolean(&mut buf, b);
            proof {
                assert(self@.parts.take(i + 1).drop_last() =~= self@.parts.take(i as int));
            }
            i = i + 1;
        }
        proof {
            assert(self@.parts.take(n as int) =~= self@.parts);
        }
        buf
    }

    /// Renders a text value: walks the parts in order and appends each
    /// part's contribution. With no matching parts the result is empty.
    pub fn format_str(&self, s: &str) -> (r: String)
        ensures
            r@ == str_format_text(self@.parts, s@),
    {
        let mut buf = String::new();
        let n = self.parts.len();
        let mut i: usize = 0;
        while i < n
            invariant
                0 <= i <= n,
                n == self.parts@.len(),
                buf@ == str_format_text(self@.parts.take(i as int), s@),
            decreases n - i,
        {
            let p = &self.parts[i];
            p.format_str(&mut buf, s);
            proof {
                assert(self@.parts.take(i + 1).drop_last() =~= self@.parts.take(i as int));
            }
            i = i + 1;
        }
        proof {
            assert(self@.parts.take(n as int) =~= self@.parts);
        }
        buf
    }

    /// Renders a date-time: walks the parts in order and appends each
    /// part's contribution. A meridiem part anywhere in the format switches
    /// every hours part to the twelve-hour clock. With no matching parts
    /// the result is empty.
    pub fn format_datetime(&self, d: &DateTime) -> (r: String)
        requires
            d.wf(),
        ensures
            r@ == datetime_format_text(self@.parts, *d, has_am_pm(self@.parts)),
    {
        let n = self.parts.len();
        let mut h12 = false;
        let mut i: usize = 0;
        while i < n
            invariant
                0 <= i <= n,
                n == self.parts@.len(),
                h12 == has_am_pm(self@.parts.take(i as int)),
            decreases n - i,
        {
            let p = &self.parts[i];
            if matches!(p.part_type(), FormatPartType::AmPm) {
                h12 = true;
            }
            proof {
                assert(self@.parts.take(i + 1).drop_last() =~= self@.parts.take(i as int));
            }
            i = i + 1;
        }
        proof {
            assert(self@.parts.take(n as int) =~= self@.parts);
        }
        let mut buf = String::new();
        let mut i: usize = 0;
        while i < n
            invariant
                0 <= i <= n,
                n == self.parts@.len(),
                d.wf(),
                h12 == has_am_pm(self@.parts),
                buf@ == datetime_format_text(self@.parts.take(i as int), *d, h12),
            decreases n - i,
        {
            let p = &self.parts[i];
            p.format_datetime(&mut buf, d, h12);
            proof {
                assert(self@.parts.take(i + 1).drop_last() =~= self@.parts.take(i as int));
            }
            i = i + 1;
        }
        proof {
            assert(self@.parts.take(n as int) =~= self@.parts);
        }
        buf
    }

    /// Renders an elapsed-time duration: walks the parts in order and
    /// appends each part's contribution. With no matching parts the result
    /// is empty.
    pub fn format_time_duration(&self, d: &Duration) -> (r: String)
        ensures
            r@ == duration_format_text(self@.parts, *d),
    {
        let mut buf = String::new();
        let n = self.parts.len();
        let mut i: usize = 0;
        while i < n
            invariant
                0 <= i <= n,
                n == self.parts@.len(),
                buf@ == duration_format_text(self@.parts.take(i as int), *d),
            decreases n - i,
        {
            let p = &self.parts[i];
            p.format_time_duration(&mut buf, d);
            proof {
                assert(self@.parts.take(i + 1).drop_last() =~= self@.parts.take(i as int));
            }
            i = i + 1;
        }
        proof {
            assert(self@.parts.take(n as int) =~= self@.parts);
        }
        buf
    }
}


/// The view of a boolean part.
pub open spec fn boolean_part_view() -> FormatPartView {
    FormatPartView { part_type: FormatPartType::Boolean, attr: Map::empty(), content: None }
}

/// The view of a fixed-text part with content `t`.
pub open spec fn text_part_view(t: Seq<char>) -> FormatPartView {
    FormatPartView { part_type: FormatPartType::Text, attr: Map::empty(), content: Some(t) }
}

/// The view of a decimal-number part as the convenience builders write it.
pub open spec fn number_part_view(
    decimal_places: u8,
    grouping: bool,
    min_decimal_places: u8,
) -> FormatPartView {
    FormatPartView {
        part_type: FormatPartType::Number,
        attr: number_part_attrs(decimal_places, grouping, min_decimal_places, 1, None),
        content: None,
    }
}

/// The view of a currency-symbol part.
pub open spec fn currency_part_view(locale: Locale, symbol: Seq<char>) -> FormatPartView {
    FormatPartView {
        part_type: FormatPartType::CurrencySymbol,
        attr: currency_symbol_attrs(locale),
        content: Some(symbol),
    }
}

/// The view of a day part in the default calendar.
pub open spec fn day_part_view(style: FormatNumberStyle) -> FormatPartView {
    FormatPartView {
        part_type: FormatPartType::Day,
        attr: styled_part_attrs(style, FormatCalendar::Default),
        content: None,
    }
}

/// The view of a numeric, nominative month part in the default calendar.
pub open spec fn month_part_view(style: FormatNumberStyle) -> FormatPartView {
    FormatPartView {
        part_type: FormatPartType::Month,
        attr: month_part_attrs(
            style,
            FormatTextual::Numeric,
            FormatMonth::Nominativ,
            FormatCalendar::Default,
        ),
        content: None,
    }
}

/// The view of a year part in the default calendar.
pub open spec fn year_part_view(style: FormatNumberStyle) -> FormatPartView {
    FormatPartView {
        part_type: FormatPartType::Year,
        attr: styled_part_attrs(style, FormatCalendar::Default),
        content: None,
    }
}

/// The view of an hours part.
pub open spec fn hours_part_view(style: FormatNumberStyle) -> FormatPartView {
    FormatPartView {
        part_type: FormatPartType::Hours,
        attr: map!["number:style"@ => style.spec_text()],
        content: None,
    }
}

/// The view of a minutes part.
pub open spec fn minutes_part_view(style: FormatNumberStyle) -> FormatPartView {
    FormatPartView {
        part_type: FormatPartType::Minutes,
        attr: map!["number:style"@ => style.spec_text()],
        content: None,
    }
}

/// The view of a seconds part.
pub open spec fn seconds_part_view(style: FormatNumberStyle, decimal_places: u8) -> FormatPartView {
    FormatPartView {
        part_type: FormatPartType::Seconds,
        attr: map![
            "number:style"@ => style.spec_text(),
            "number:decimal-places"@ => dec_text(decimal_places as nat),
        ],
        content: None,
    }
}


/// Creates a locale-qualified boolean format.
pub fn create_loc_boolean_format(name: &str, locale: &Locale) -> (r: ValueFormat)
    ensures
        r@ == (ValueFormatView {
            name: name@,
            v_type: ValueType::Boolean,
            attr: locale_attrs(*locale),
            parts: seq![
                boolean_part_view(),
            ],
            ..ValueFormat::spec_new()
        }),
{
    let mut v = ValueFormat::new_localized(name, locale, ValueType::Boolean);
    v.push_boolean();
    proof {
        assert(v@.parts =~= seq![
                boolean_part_view(),
        ]);
    }
    v
}


/// Creates a locale-qualified number format.
pub fn create_loc_number_format(name: &str, locale: &Locale, decimal: u8, grouping: bool) -> (r: ValueFormat)
    ensures
        r@ == (ValueFormatView {
            name: name@,
            v_type: ValueType::Number,
            attr: locale_attrs(*locale),
            parts: seq![
                number_part_view(decimal, grouping, 0),
            ],
            ..ValueFormat::spec_new()
        }),
{
    let mut v = ValueFormat::new_localized(name, locale, ValueType::Number);
    v.push_number(decimal, grouping);
    proof {
        assert(v@.parts =~= seq![
                number_part_view(decimal, grouping, 0),
        ]);
    }
    v
}


/// Creates a locale-qualified percentage format.
pub fn create_loc_percentage_format(name: &str, locale: &Locale, decimal: u8) -> (r: ValueFormat)
    ensures
        r@ == (ValueFormatView {
            name: name@,
            v_type: ValueType::Percentage,
            attr: locale_attrs(*locale),
            parts: seq![
                number_part_view(decimal, false, decimal),
                text_part_view("%"@),
            ],
            ..ValueFormat::spec_new()
        }),
{
    let mut v = ValueFormat::new_localized(name, locale, ValueType::Percentage);
    v.push_number_fix(decimal, false);
    v.push_text("%");
    proof {
        assert(v@.parts =~= seq![
                number_part_view(decimal, false, decimal),
                text_part_view("%"@),
        ]);
    }
    v
}


/// Creates a locale-qualified date format D.M.Y.
pub fn create_loc_date_dmy_format(name: &str, locale: &Locale) -> (r: ValueFormat)
    ensures
        r@ == (ValueFormatView {
            name: name@,
            v_type: ValueType::DateTime,
            attr: locale_attrs(*locale),
            parts: seq![
                day_part_view(FormatNumberStyle::Long),
                text_part_view("."@),
                month_part_view(FormatNumberStyle::Long),
                text_part_view("."@),
                year_part_view(FormatNumberStyle::Long),
            ],
            ..ValueFormat::spec_new()
        }),
{
    let mut v = ValueFormat::new_localized(name, locale, ValueType::DateTime);
    v.push_day(FormatNumberStyle::Long, FormatCalendar::Default);
    v.push_text(".");
    v.push_month(
        FormatNumberStyle::Long,
        FormatTextual::Numeric,
        FormatMonth::Nominativ,
        FormatCalendar::Default,
    );
    v.push_text(".");
    v.push_year(FormatNumberStyle::Long, FormatCalendar::Default);
    proof {
        assert(v@.parts =~= seq![
                day_part_view(FormatNumberStyle::Long),
                text_part_view("."@),
                month_part_view(FormatNumberStyle::Long),
                text_part_view("."@),
                year_part_view(FormatNumberStyle::Long),
        ]);
    }
    v
}


/// Creates a locale-qualified date format M/D/Y.
pub fn create_loc_date_mdy_format(name: &str, locale: &Locale) -> (r: ValueFormat)
    ensures
        r@ == (ValueFormatView {
            name: name@,
            v_type: ValueType::DateTime,
            attr: locale_attrs(*locale),
            parts: seq![
                month_part_view(FormatNumberStyle::Long),
                text_part_view("/"@),
                day_part_view(FormatNumberStyle::Long),
                text_part_view("/"@),
                year_part_view(FormatNumberStyle::Long),
            ],
            ..ValueFormat::spec_new()
        }),
{
    let mut v = ValueFormat::new_localized(name, locale, ValueType::DateTime);
    v.push_month(
        FormatNumberStyle::Long,
        FormatTextual::Numeric,
        FormatMonth::Nominativ,
        FormatCalendar::Default,
    );
    v.push_text("/");
    v.push_day(FormatNumberStyle::Long, FormatCalendar::Default);
    v.push_text("/");
    v.push_year(FormatNumberStyle::Long, FormatCalendar::Default);
    proof {
        assert(v@.parts =~= seq![
                month_part_view(FormatNumberStyle::Long),
                text_part_view("/"@),
                day_part_view(FormatNumberStyle::Long),
                text_part_view("/"@),
                year_part_view(FormatNumberStyle::Long),
        ]);
    }
    v
}


/// Creates a locale-qualified date-time format D.M.Y H:M:S.
pub fn create_loc_datetime_format(name: &str, locale: &Locale) -> (r: ValueFormat)
    ensures
        r@ == (ValueFormatView {
            name: name@,
            v_type: ValueType::DateTime,
            attr: locale_attrs(*locale),
            parts: seq![
                day_part_view(FormatNumberStyle::Long),
                text_part_view("."@),
                month_part_view(FormatNumberStyle::Long),
                text_part_view("."@),
                year_part_view(FormatNumberStyle::Long),
                text_part_view(" "@),
                hours_part_view(FormatNumberStyle::Long),
                text_part_view(":"@),
                minutes_part_view(FormatNumberStyle::Long),
                text_part_view(":"@),
                seconds_part_view(FormatNumberStyle::Long, 0),
            ],
            ..ValueFormat::spec_new()
        }),
{
    let mut v = ValueFormat::new_localized(name, locale, ValueType::DateTime);
    v.push_day(FormatNumberStyle::Long, FormatCalendar::Default);
    v.push_text(".");
    v.push_month(
        FormatNumberStyle::Long,
        FormatTextual::Numeric,
        FormatMonth::Nominativ,
        FormatCalendar::Default,
    );
    v.push_text(".");
    v.push_year(FormatNumberStyle::Long, FormatCalendar::Default);
    v.push_text(" ");
    v.push_hours(FormatNumberStyle::Long);
    v.push_text(":");
    v.push_minutes(FormatNumberStyle::Long);
    v.push_text(":");
    v.push_seconds(FormatNumberStyle::Long, 0);
    proof {
        assert(v@.parts =~= seq![
                day_part_view(FormatNumberStyle::Long),
                text_part_view("."@),
                month_part_view(FormatNumberStyle::Long),
                text_part_view("."@),
                year_part_view(FormatNumberStyle::Long),
                text_part_view(" "@),
                hours_part_view(FormatNumberStyle::Long),
                text_part_view(":"@),
                minutes_part_view(FormatNumberStyle::Long),
                text_part_view(":"@),
                seconds_part_view(FormatNumberStyle::Long, 0),
        ]);
    }
    v
}


/// Creates a locale-qualified time-duration format H:M:S.
pub fn create_loc_time_format(name: &str, locale: &Locale) -> (r: ValueFormat)
    ensures
        r@ == (ValueFormatView {
            name: name@,
            v_type: ValueType::TimeDuration,
            attr: locale_attrs(*locale),
            parts: seq![
                hours_part_view(FormatNumberStyle::Long),
                text_part_view(":"@),
                minutes_part_view(FormatNumberStyle::Long),
                text_part_view(":"@),
                seconds_part_view(FormatNumberStyle::Long, 0),
            ],
            ..ValueFormat::spec_new()
        }),
{
    let mut v = ValueFormat::new_localized(name, locale, ValueType::TimeDuration);
    v.push_hours(FormatNumberStyle::Long);
    v.push_text(":");
    v.push_minutes(FormatNumberStyle::Long);
    v.push_text(":");
    v.push_seconds(FormatNumberStyle::Long, 0);
    proof {
        assert(v@.parts =~= seq![
                hours_part_view(FormatNumberStyle::Long),
                text_part_view(":"@),
                minutes_part_view(FormatNumberStyle::Long),
                text_part_view(":"@),
                seconds_part_view(FormatNumberStyle::Long, 0),
        ]);
    }
    v
}


/// Creates a boolean format.
pub fn create_boolean_format(name: &str) -> (r: ValueFormat)
    ensures
        r@ == (ValueFormatView {
            name: name@,
            v_type: ValueType::Boolean,
            parts: seq![
                boolean_part_view(),
            ],
            ..ValueFormat::spec_new()
        }),
{
    let mut v = ValueFormat::new_named(name, ValueType::Boolean);
    v.push_boolean();
    proof {
        assert(v@.parts =~= seq![
                boolean_part_view(),
        ]);
    }
    v
}


/// Creates a number format.
pub fn create_number_format(name: &str, decimal: u8, grouping: bool) -> (r: ValueFormat)
    ensures
        r@ == (ValueFormatView {
            name: name@,
            v_type: ValueType::Number,
            parts: seq![
                number_part_view(decimal, grouping, 0),
            ],
            ..ValueFormat::spec_new()
        }),
{
    let mut v = ValueFormat::new_named(name, ValueType::Number);
    v.push_number(decimal, grouping);
    proof {
        assert(v@.parts =~= seq![
                number_part_view(decimal, grouping, 0),
        ]);
    }
    v
}


/// Creates a number format with a fixed number of decimal places.
pub fn create_number_format_fixed(name: &str, decimal: u8, grouping: bool) -> (r: ValueFormat)
    ensures
        r@ == (ValueFormatView {
            name: name@,
            v_type: ValueType::Number,
            parts: seq![
                number_part_view(decimal, grouping, decimal),
            ],
            ..ValueFormat::spec_new()
        }),
{
    let mut v = ValueFormat::new_named(name, ValueType::Number);
    v.push_number_fix(decimal, grouping);
    proof {
        assert(v@.parts =~= seq![
                number_part_view(decimal, grouping, decimal),
        ]);
    }
    v
}


/// Creates a percentage format.
pub fn create_percentage_format(name: &str, decimal: u8) -> (r: ValueFormat)
    ensures
        r@ == (ValueFormatView {
            name: name@,
            v_type: ValueType::Percentage,
            parts: seq![
                number_part_view(decimal, false, decimal),
                text_part_view("%"@),
            ],
            ..ValueFormat::spec_new()
        }),
{
    let mut v = ValueFormat::new_named(name, ValueType::Percentage);
    v.push_number_fix(decimal, false);
    v.push_text("%");
    proof {
        assert(v@.parts =~= seq![
                number_part_view(decimal, false, decimal),
                text_part_view("%"@),
        ]);
    }
    v
}


/// Creates a date format Y-M-D.
pub fn create_date_iso_format(name: &str) -> (r: ValueFormat)
    ensures
        r@ == (ValueFormatView {
            name: name@,
            v_type: ValueType::DateTime,
            parts: seq![
                year_part_view(FormatNumberStyle::Long),
                text_part_view("-"@),
                month_part_view(FormatNumberStyle::Long),
                text_part_view("-"@),
                day_part_view(FormatNumberStyle::Long),
            ],
            ..ValueFormat::spec_new()
        }),
{
    let mut v = ValueFormat::new_named(name, ValueType::DateTime);
    v.push_year(FormatNumberStyle::Long, FormatCalendar::Default);
    v.push_text("-");
    v.push_month(
        FormatNumberStyle::Long,
        FormatTextual::Numeric,
        FormatMonth::Nominativ,
        FormatCalendar::Default,
    );
    v.push_text("-");
    v.push_day(FormatNumberStyle::Long, FormatCalendar::Default);
    proof {
        assert(v@.parts =~= seq![
                year_part_view(FormatNumberStyle::Long),
                text_part_view("-"@),
                month_part_view(FormatNumberStyle::Long),
                text_part_view("-"@),
                day_part_view(FormatNumberStyle::Long),
        ]);
    }
    v
}


/// Creates a date format D.M.Y.
pub fn create_date_dmy_format(name: &str) -> (r: ValueFormat)
    ensures
        r@ == (ValueFormatView {
            name: name@,
            v_type: ValueType::DateTime,
            parts: seq![
                day_part_view(FormatNumberStyle::Long),
                text_part_view("."@),
                month_part_view(FormatNumberStyle::Long),
                text_part_view("."@),
                year_part_view(FormatNumberStyle::Long),
            ],
            ..ValueFormat::spec_new()
        }),
{
    let mut v = ValueFormat::new_named(name, ValueType::DateTime);
    v.push_day(FormatNumberStyle::Long, FormatCalendar::Default);
    v.push_text(".");
    v.push_month(
        FormatNumberStyle::Long,
        FormatTextual::Numeric,
        FormatMonth::Nominativ,
        FormatCalendar::Default,
    );
    v.push_text(".");
    v.push_year(FormatNumberStyle::Long, FormatCalendar::Default);
    proof {
        assert(v@.parts =~= seq![
                day_part_view(FormatNumberStyle::Long),
                text_part_view("."@),
                month_part_view(FormatNumberStyle::Long),
                text_part_view("."@),
                year_part_view(FormatNumberStyle::Long),
        ]);
    }
    v
}


/// Creates a date format M/D/Y.
pub fn create_date_mdy_format(name: &str) -> (r: ValueFormat)
    ensures
        r@ == (ValueFormatView {
            name: name@,
            v_type: ValueType::DateTime,
            parts: seq![
                month_part_view(FormatNumberStyle::Long),
                text_part_view("/"@),
                day_part_view(FormatNumberStyle::Long),
                text_part_view("/"@),
                year_part_view(FormatNumberStyle::Long),
            ],
            ..ValueFormat::spec_new()
        }),
{
    let mut v = ValueFormat::new_named(name, ValueType::DateTime);
    v.push_month(
        FormatNumberStyle::Long,
        FormatTextual::Numeric,
        FormatMonth::Nominativ,
        FormatCalendar::Default,
    );
    v.push_text("/");
    v.push_day(FormatNumberStyle::Long, FormatCalendar::Default);
    v.push_text("/");
    v.push_year(FormatNumberStyle::Long, FormatCalendar::Default);
    proof {
        assert(v@.parts =~= seq![
                month_part_view(FormatNumberStyle::Long),
                text_part_view("/"@),
                day_part_view(FormatNumberStyle::Long),
                text_part_view("/"@),
                year_part_view(FormatNumberStyle::Long),
        ]);
    }
    v
}


/// Creates a date-time format Y-M-D H:M:S.
pub fn create_datetime_format(name: &str) -> (r: ValueFormat)
    ensures
        r@ == (ValueFormatView {
            name: name@,
            v_type: ValueType::DateTime,
            parts: seq![
                year_part_view(FormatNumberStyle::Long),
                text_part_view("-"@),
                month_part_view(FormatNumberStyle::Long),
                text_part_view("-"@),
                day_part_view(FormatNumberStyle::Long),
                text_part_view(" "@),
                hours_part_view(FormatNumberStyle::Long),
                text_part_view(":"@),
                minutes_part_view(FormatNumberStyle::Long),
                text_part_view(":"@),
                seconds_part_view(FormatNumberStyle::Long, 0),
            ],
            ..ValueFormat::spec_new()
        }),
{
    let mut v = ValueFormat::new_named(name, ValueType::DateTime);
    v.push_year(FormatNumberStyle::Long, FormatCalendar::Default);
    v.push_text("-");
    v.push_month(
        FormatNumberStyle::Long,
        FormatTextual::Numeric,
        FormatMonth::Nominativ,
        FormatCalendar::Default,
    );
    v.push_text("-");
    v.push_day(FormatNumberStyle::Long, FormatCalendar::Default);
    v.push_text(" ");
    v.push_hours(FormatNumberStyle::Long);
    v.push_text(":");
    v.push_minutes(FormatNumberStyle::Long);
    v.push_text(":");
    v.push_seconds(FormatNumberStyle::Long, 0);
    proof {
        assert(v@.parts =~= seq![
                year_part_view(FormatNumberStyle::Long),
                text_part_view("-"@),
                month_part_view(FormatNumberStyle::Long),
                text_part_view("-"@),
                day_part_view(FormatNumberStyle::Long),
                text_part_view(" "@),
                hours_part_view(FormatNumberStyle::Long),
                text_part_view(":"@),
                minutes_part_view(FormatNumberStyle::Long),
                text_part_view(":"@),
                seconds_part_view(FormatNumberStyle::Long, 0),
        ]);
    }
    v
}


/// Creates a time-duration format H:M:S.
pub fn create_time_format(name: &str) -> (r: ValueFormat)
    ensures
        r@ == (ValueFormatView {
            name: name@,
            v_type: ValueType::TimeDuration,
            parts: seq![
                hours_part_view(FormatNumberStyle::Long),
                text_part_view(":"@),
                minutes_part_view(FormatNumberStyle::Long),
                text_part_view(":"@),
                seconds_part_view(FormatNumberStyle::Long, 0),
            ],
            ..ValueFormat::spec_new()
        }),
{
    let mut v = ValueFormat::new_named(name, ValueType::TimeDuration);
    v.push_hours(FormatNumberStyle::Long);
    v.push_text(":");
    v.push_minutes(FormatNumberStyle::Long);
    v.push_text(":");
    v.push_seconds(FormatNumberStyle::Long, 0);
    proof {
        assert(v@.parts =~= seq![
                hours_part_view(FormatNumberStyle::Long),
                text_part_view(":"@),
                minutes_part_view(FormatNumberStyle::Long),
                text_part_view(":"@),
                seconds_part_view(FormatNumberStyle::Long, 0),
        ]);
    }
    v
}


/// Creates a locale-qualified currency format with the symbol first.
pub fn create_loc_currency_prefix(
    name: &str,
    locale: &Locale,
    symbol_locale: &Locale,
    symbol: &str,
) -> (r: ValueFormat)
    ensures
        r@ == (ValueFormatView {
            name: name@,
            v_type: ValueType::Currency,
            attr: locale_attrs(*locale),
            parts: seq![
                currency_part_view(*symbol_locale, symbol@),
                text_part_view(" "@),
                number_part_view(2, true, 2),
            ],
            ..ValueFormat::spec_new()
        }),
{
    let mut v = ValueFormat::new_localized(name, locale, ValueType::Currency);
    v.push_currency_symbol(symbol_locale, symbol);
    v.push_text(" ");
    v.push_number_fix(2, true);
    proof {
        assert(v@.parts =~= seq![
            currency_part_view(*symbol_locale, symbol@),
            text_part_view(" "@),
            number_part_view(2, true, 2),
        ]);
    }
    v
}

/// Creates a locale-qualified currency format with the symbol last.
pub fn create_loc_currency_suffix(
    name: &str,
    locale: &Locale,
    symbol_locale: &Locale,
    symbol: &str,
) -> (r: ValueFormat)
    ensures
        r@ == (ValueFormatView {
            name: name@,
            v_type: ValueType::Currency,
            attr: locale_attrs(*locale),
            parts: seq![
                number_part_view(2, true, 2),
                text_part_view(" "@),
                currency_part_view(*symbol_locale, symbol@),
            ],
            ..ValueFormat::spec_new()
        }),
{
    let mut v = ValueFormat::new_localized(name, locale, ValueType::Currency);
    v.push_number_fix(2, true);
    v.push_text(" ");
    v.push_currency_symbol(symbol_locale, symbol);
    proof {
        assert(v@.parts =~= seq![
            number_part_view(2, true, 2),
            text_part_view(" "@),
            currency_part_view(*symbol_locale, symbol@),
        ]);
    }
    v
}

/// Creates a currency format with the symbol first.
pub fn create_currency_prefix(name: &str, symbol_locale: &Locale, symbol: &str) -> (r: ValueFormat)
    ensures
        r@ == (ValueFormatView {
            name: name@,
            v_type: ValueType::Currency,
            parts: seq![
                currency_part_view(*symbol_locale, symbol@),
                text_part_view(" "@),
                number_part_view(2, true, 2),
            ],
            ..ValueFormat::spec_new()
        }),
{
    let mut v = ValueFormat::new_named(name, ValueType::Currency);
    v.push_currency_symbol(symbol_locale, symbol);
    v.push_text(" ");
    v.push_number_fix(2, true);
    proof {
        assert(v@.parts =~= seq![
            currency_part_view(*symbol_locale, symbol@),
            text_part_view(" "@),
            number_part_view(2, true, 2),
        ]);
    }
    v
}

/// Creates a currency format with the symbol last.
pub fn create_currency_suffix(name: &str, symbol_locale: &Locale, symbol: &str) -> (r: ValueFormat)
    ensures
        r@ == (ValueFormatView {
            name: name@,
            v_type: ValueType::Currency,
            parts: seq![
                number_part_view(2, true, 2),
                text_part_view(" "@),
                currency_part_view(*symbol_locale, symbol@),
            ],
            ..ValueFormat::spec_new()
        }),
{
    let mut v = ValueFormat::new_named(name, ValueType::Currency);
    v.push_number_fix(2, true);
    v.push_text(" ");
    v.push_currency_symbol(symbol_locale, symbol);
    proof {
        assert(v@.parts =~= seq![
            number_part_view(2, true, 2),
            text_part_view(" "@),
            currency_part_view(*symbol_locale, symbol@),
        ]);
    }
    v
}


/// A format with no parts renders every value kind to the empty string.
pub proof fn lemma_empty_format_renders_empty(
    parts: Seq<FormatPartView>,
    b: bool,
    s: Seq<char>,
    d: DateTime,
    dur: Duration,
)
    requires
        parts.len() == 0,
    ensures
        boolean_format_text(parts, b) == Seq::<char>::empty(),
        str_format_text(parts, s) == Seq::<char>::empty(),
        datetime_format_text(parts, d, has_am_pm(parts)) == Seq::<char>::empty(),
        duration_format_text(parts, dur) == Seq::<char>::empty(),
{
}

/// A format holding only a fixed-text part renders every value kind to
/// that text, whatever the value is.
pub proof fn lemma_text_only_format_renders_content(
    p: FormatPartView,
    t: Seq<char>,
    b: bool,
    s: Seq<char>,
    d: DateTime,
    dur: Duration,
)
    requires
        p.part_type == FormatPartType::Text,
        p.content == Some(t),
    ensures
        boolean_format_text(seq![p], b) == t,
        str_format_text(seq![p], s) == t,
        datetime_format_text(seq![p], d, has_am_pm(seq![p])) == t,
        duration_format_text(seq![p], dur) == t,
{
    reveal_with_fuel(boolean_format_text, 2);
    reveal_with_fuel(str_format_text, 2);
    reveal_with_fuel(datetime_format_text, 2);
    reveal_with_fuel(duration_format_text, 2);
    reveal_with_fuel(has_am_pm, 2);
    let parts = seq![p];
    assert(parts.drop_last() =~= Seq::<FormatPartView>::empty());
    assert(parts.last() == p);
    assert(boolean_format_text(parts, b) =~= t);
    assert(str_format_text(parts, s) =~= t);
    assert(!has_am_pm(parts));
    assert(datetime_part_text(p, d, false) == t);
    assert(datetime_format_text(parts, d, false) =~= t);
    assert(duration_part_text(p, dur) == t);
    assert(duration_format_text(parts, dur) =~= t);
}

/// Parts contribute in stored order: a long day part, a text separator and
/// a long numeric month part render as day text, separator, month text;
/// with the part order reversed, the same segments come out reversed.
pub proof fn lemma_part_order_governs_output(sep_text: Seq<char>, d: DateTime)
    ensures
        ({
            let parts = seq![
                day_part_view(FormatNumberStyle::Long),
                text_part_view(sep_text),
                month_part_view(FormatNumberStyle::Long),
            ];
            datetime_format_text(parts, d, has_am_pm(parts)) == dec_text_pad(d.day as nat, 2)
                + sep_text + dec_text_pad(d.month as nat, 2)
        }),
        ({
            let parts = seq![
                month_part_view(FormatNumberStyle::Long),
                text_part_view(sep_text),
                day_part_view(FormatNumberStyle::Long),
            ];
            datetime_format_text(parts, d, has_am_pm(parts)) == dec_text_pad(d.month as nat, 2)
                + sep_text + dec_text_pad(d.day as nat, 2)
        }),
{
    reveal_strlit("long");
    reveal_strlit("true");
    reveal_strlit("false");
    reveal_strlit("");
    reveal_strlit("number:style");
    reveal_strlit("number:textual");
    reveal_strlit("number:possessive-form");
    reveal_with_fuel(datetime_format_text, 4);
    reveal_with_fuel(has_am_pm, 4);
    let day = day_part_view(FormatNumberStyle::Long);
    let sep = text_part_view(sep_text);
    let month = month_part_view(FormatNumberStyle::Long);
    assert(part_is_long(day));
    assert("false"@.len() == 5);
    assert("true"@.len() == 4);
    assert("number:textual"@.len() == 14);
    assert("number:possessive-form"@.len() == 22);
    assert("number:style"@.len() == 12);
    assert(!part_is_textual(month));
    assert(part_is_long(month));
    let parts1 = seq![day, sep, month];
    let parts2 = seq![month, sep, day];
    assert(!has_am_pm(parts1)) by {
        assert(parts1.drop_last().drop_last().drop_last() =~= Seq::<FormatPartView>::empty());
    }
    assert(!has_am_pm(parts2)) by {
        assert(parts2.drop_last().drop_last().drop_last() =~= Seq::<FormatPartView>::empty());
    }
    assert(parts1.drop_last() =~= seq![day, sep]);
    assert(seq![day, sep].drop_last() =~= seq![day]);
    assert(seq![day].drop_last() =~= Seq::<FormatPartView>::empty());
    assert(datetime_format_text(parts1, d, false) =~= dec_text_pad(d.day as nat, 2) + sep_text
        + dec_text_pad(d.month as nat, 2));
    assert(parts2.drop_last() =~= seq![month, sep]);
    assert(seq![month, sep].drop_last() =~= seq![month]);
    assert(seq![month].drop_last() =~= Seq::<FormatPartView>::empty());
    assert(datetime_format_text(parts2, d, false) =~= dec_text_pad(d.month as nat, 2) + sep_text
        + dec_text_pad(d.day as nat, 2));
}

/// A meridiem part's presence switches hours to the twelve-hour clock: a
/// long hours part beside a meridiem part renders the hour on the
/// twelve-hour clock followed by the meridiem token, while the same hours
/// part alone renders the hour on the twenty-four-hour clock.
pub proof fn lemma_am_pm_switches_hours(ampm: FormatPartView, d: DateTime)
    requires
        ampm.part_type == FormatPartType::AmPm,
    ensures
        ({
            let parts = seq![hours_part_view(FormatNumberStyle::Long), ampm];
            &&& has_am_pm(parts)
            &&& datetime_format_text(parts, d, has_am_pm(parts)) == dec_text_pad(
                hour12(d.hour as int) as nat,
                2,
            ) + (if d.hour < 12 {
                "AM"@
            } else {
                "PM"@
            })
        }),
        ({
            let parts = seq![hours_part_view(FormatNumberStyle::Long)];
            &&& !has_am_pm(parts)
            &&& datetime_format_text(parts, d, has_am_pm(parts)) == dec_text_pad(d.hour as nat, 2)
        }),
{
    reveal_strlit("long");
    reveal_strlit("");
    reveal_with_fuel(datetime_format_text, 3);
    reveal_with_fuel(has_am_pm, 3);
    let hours = hours_part_view(FormatNumberStyle::Long);
    assert(part_is_long(hours));
    assert(0 <= (d.hour as int + 11) % 12 < 12);
    let parts = seq![hours, ampm];
    assert(parts.drop_last() =~= seq![hours]);
    assert(seq![hours].drop_last() =~= Seq::<FormatPartView>::empty());
    assert(datetime_part_text(hours, d, true) == dec_text_pad(hour12(d.hour as int) as nat, 2));
    assert(datetime_part_text(ampm, d, true) == (if d.hour < 12 {
        "AM"@
    } else {
        "PM"@
    }));
    assert(datetime_format_text(seq![hours], d, true) =~= datetime_part_text(hours, d, true));
    assert(datetime_format_text(parts, d, true) =~= dec_text_pad(hour12(d.hour as int) as nat, 2)
        + (if d.hour < 12 {
        "AM"@
    } else {
        "PM"@
    }));
    assert(datetime_part_text(hours, d, false) == dec_text_pad(d.hour as nat, 2));
    assert(datetime_format_text(seq![hours], d, false) =~= dec_text_pad(d.hour as nat, 2));
}

/// For a duration, an hours part renders the whole hours of the span
/// truncated toward zero, a minutes part the minute remainder within the
/// hour, and a seconds part the second remainder within the minute.
pub proof fn lemma_duration_field_rendering(p: FormatPartView, d: Duration)
    ensures
        p.part_type == FormatPartType::Hours ==> duration_format_text(seq![p], d)
            == dec_text_signed(trunc_div(d.secs as int, 3600)),
        p.part_type == FormatPartType::Minutes ==> duration_format_text(seq![p], d)
            == dec_text_signed(trunc_rem(trunc_div(d.secs as int, 60), 60)),
        p.part_type == FormatPartType::Seconds ==> duration_format_text(seq![p], d)
            == dec_text_signed(trunc_rem(d.secs as int, 60)),
{
    reveal_with_fuel(duration_format_text, 2);
    assert(seq![p].drop_last() =~= Seq::<FormatPartView>::empty());
    assert(seq![p].last() == p);
    assert(Seq::<char>::empty() + duration_part_text(p, d) =~= duration_part_text(p, d));
}

/// Locale decomposition: after a locale-qualified construction the
/// language slot holds text that parses back to the locale's language, a
/// given region likewise, and a script that was not given leaves its slot
/// absent.
pub proof fn lemma_locale_decomposition(v: ValueFormatView, locale: Locale)
    requires
        locale.wf(),
        v.attr == locale_attrs(locale),
    ensures
        v.attr.contains_key("number:language"@) && language_norm(v.attr["number:language"@])
            == Some(locale.language@),
        locale.region matches Some(r) ==> v.attr.contains_key("number:country"@) && region_norm(
            v.attr["number:country"@],
        ) == Some(r@),
        locale.script matches Some(s) ==> v.attr.contains_key("number:script"@) && script_norm(
            v.attr["number:script"@],
        ) == Some(s@),
        locale.script is None ==> !v.attr.contains_key("number:script"@),
        locale.region is None ==> !v.attr.contains_key("number:country"@),
{
    reveal_strlit("number:language");
    reveal_strlit("number:country");
    reveal_strlit("number:script");
    assert("number:language"@.len() == 15);
    assert("number:country"@.len() == 14);
    assert("number:script"@.len() == 13);
}



} // verus!
