//! Style classification values and small style helpers used by value
//! formats.

use vstd::prelude::*;

verus! {

use vstd::string::StringExecFns;

use crate::textnum::digit_char;

/// Origin of a style: the document's content subtree or the global styles
/// subtree.
#[derive(Debug, Clone, Copy, PartialEq, Eq, Structural)]
pub enum StyleOrigin {
    /// The style belongs to the document content.
    Content,
    /// The style belongs to the global styles.
    Styles,
}

impl Default for StyleOrigin {
    /// Styles originate in the document content unless said otherwise.
    fn default() -> (r: Self)
        ensures
            r == StyleOrigin::Content,
    {
        StyleOrigin::Content
    }
}

/// Usage classification of a style: a family default, a named style picked
/// by a user, or an automatic style bound to one object.
#[derive(Debug, Clone, Copy, PartialEq, Eq, Structural)]
pub enum StyleUse {
    /// A default style for a style family.
    Default,
    /// A common style, named and user-visible.
    Named,
    /// An automatic style, treated as properties of its object.
    Automatic,
}

impl Default for StyleUse {
    /// Styles are automatic unless said otherwise.
    fn default() -> (r: Self)
        ensures
            r == StyleUse::Automatic,
    {
        StyleUse::Automatic
    }
}

/// Transliteration format of a number system.
#[derive(Debug, Clone, Copy, PartialEq, Eq, Structural)]
pub enum TransliterationStyle {
    Short,
    Medium,
    Long,
}

impl TransliterationStyle {
    /// The attribute value this style is stored as.
    pub open spec fn spec_text(self) -> Seq<char> {
        match self {
            TransliterationStyle::Short => "short"@,
            TransliterationStyle::Medium => "medium"@,
            TransliterationStyle::Long => "long"@,
        }
    }

    /// The attribute value this style is stored as.
    pub fn text(self) -> (r: &'static str)
        ensures
            r@ == self.spec_text(),
    {
        match self {
            TransliterationStyle::Short => "short",
            TransliterationStyle::Medium => "medium",
            TransliterationStyle::Long => "long",
        }
    }

    /// The style a stored attribute value names, if any.
    pub open spec fn spec_parse(s: Seq<char>) -> Option<TransliterationStyle> {
        if s == "short"@ {
            Some(TransliterationStyle::Short)
        } else if s == "medium"@ {
            Some(TransliterationStyle::Medium)
        } else if s == "long"@ {
            Some(TransliterationStyle::Long)
        } else {
            None
        }
    }

    /// Parses a stored attribute value back into a style.
    pub fn parse(s: &str) -> (r: Option<TransliterationStyle>)
        ensures
            r == Self::spec_parse(s@),
    {
        if crate::attrmap2::str_eq(s, "short") {
            Some(TransliterationStyle::Short)
        } else if crate::attrmap2::str_eq(s, "medium") {
            Some(TransliterationStyle::Medium)
        } else if crate::attrmap2::str_eq(s, "long") {
            Some(TransliterationStyle::Long)
        } else {
            None
        }
    }
}

/// An RGB color with one byte per channel.
#[derive(Debug, Clone, Copy, PartialEq, Eq, Structural)]
pub struct Rgb {
    pub r: u8,
    pub g: u8,
    pub b: u8,
}

impl Rgb {
    /// A color from its three channels.
    pub fn new(r: u8, g: u8, b: u8) -> (c: Rgb)
        ensures
            c == (Rgb { r, g, b }),
    {
        Rgb { r, g, b }
    }
}

/// The lowercase hexadecimal digit for a value below sixteen.
pub open spec fn hex_digit_char(d: int) -> char {
    if d < 10 {
        digit_char(d)
    } else if d == 10 {
        'a'
    } else if d == 11 {
        'b'
    } else if d == 12 {
        'c'
    } else if d == 13 {
        'd'
    } else if d == 14 {
        'e'
    } else {
        'f'
    }
}

/// Two lowercase hexadecimal digits for a byte.
pub open spec fn hex_byte_text(b: int) -> Seq<char> {
    seq![hex_digit_char(b / 16), hex_digit_char(b % 16)]
}

/// The `#rrggbb` text of a color.
pub open spec fn color_text(c: Rgb) -> Seq<char> {
    seq!['#'] + hex_byte_text(c.r as int) + hex_byte_text(c.g as int) + hex_byte_text(c.b as int)
}

/// The single-character text of a hexadecimal digit.
fn hex_digit_text(d: u8) -> (r: &'static str)
    requires
        d < 16,
    ensures
        r@ == seq![hex_digit_char(d as int)],
{
    proof {
        reveal_strlit("a");
        reveal_strlit("b");
        reveal_strlit("c");
        reveal_strlit("d");
        reveal_strlit("e");
        reveal_strlit("f");
    }
    if d < 10 {
        crate::textnum::digit_text(d as u64)
    } else {
        let r: &'static str = if d == 10 {
            "a"
        } else if d == 11 {
            "b"
        } else if d == 12 {
            "c"
        } else if d == 13 {
            "d"
        } else if d == 14 {
            "e"
        } else {
            "f"
        };
        proof {
            assert(r@ =~= seq![hex_digit_char(d as int)]);
        }
        r
    }
}

/// Renders a color as `#rrggbb`, two lowercase hex digits per channel.
pub fn color_string(color: Rgb) -> (r: String)
    ensures
        r@ == color_text(color),
{
    proof {
        reveal_strlit("#");
    }
    let mut s = String::new();
    s.append("#");
    s.append(hex_digit_text(color.r / 16));
    s.append(hex_digit_text(color.r % 16));
    s.append(hex_digit_text(color.g / 16));
    s.append(hex_digit_text(color.g % 16));
    s.append(hex_digit_text(color.b / 16));
    s.append(hex_digit_text(color.b % 16));
    proof {
        assert(s@ =~= color_text(color));
    }
    s
}

/// Joins the three widths of a double border — inner line, spacing and
/// outer line, each already rendered with its unit — with single spaces,
/// as the border-line-width attribute wants them.
pub fn border_line_width_string(inner: &str, space: &str, outer: &str) -> (r: String)
    ensures
        r@ == inner@ + " "@ + space@ + " "@ + outer@,
{
    proof {
        reveal_strlit(" ");
    }
    let mut s = String::new();
    s.append(inner);
    s.append(" ");
    s.append(space);
    s.append(" ");
    s.append(outer);
    proof {
        assert(s@ =~= inner@ + " "@ + space@ + " "@ + outer@);
    }
    s
}

/// A conditional style override: when the condition holds for a cell, the
/// named style applies instead.
#[derive(Debug, Clone, PartialEq, Eq)]
pub struct StyleMap {
    condition: String,
    applied_style: String,
}

impl StyleMap {
    /// A new override from a condition and the style it switches to.
    pub fn new(condition: String, applied_style: String) -> (r: StyleMap)
        ensures
            r.spec_condition() == condition@,
            r.spec_applied_style() == applied_style@,
    {
        StyleMap { condition, applied_style }
    }

    /// The condition text.
    pub closed spec fn spec_condition(&self) -> Seq<char> {
        self.condition@
    }

    /// The applied style's name.
    pub closed spec fn spec_applied_style(&self) -> Seq<char> {
        self.applied_style@
    }

    /// The condition text.
    pub fn condition(&self) -> (r: &String)
        ensures
            r@ == self.spec_condition(),
    {
        &self.condition
    }

    /// The applied style's name.
    pub fn applied_style(&self) -> (r: &String)
        ensures
            r@ == self.spec_applied_style(),
    {
        &self.applied_style
    }
}

} // verus!
