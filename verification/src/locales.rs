//! Locale subtags: language, region and script codes.
//!
//! A format stores these as plain attribute text. Validation and case
//! normalization follow BCP 47 and are delegated to `icu_locid`; a parsed
//! subtag always holds its normalized text, so storing it and parsing the
//! stored text back returns the same subtag.

use vstd::prelude::*;

verus! {

pub uninterp spec fn language_norm(s: Seq<char>) -> Option<Seq<char>>;

pub uninterp spec fn region_norm(s: Seq<char>) -> Option<Seq<char>>;

pub uninterp spec fn script_norm(s: Seq<char>) -> Option<Seq<char>>;

/// Relies on `icu_locid::subtags::Language::try_from_bytes`: accepts exactly
/// the two- or three-letter ASCII language subtags and returns them
/// lowercased, so normalizing an already normalized subtag returns it
/// unchanged.
#[verifier::external_body]
fn normalize_language(s: &str) -> (r: Option<String>)
    ensures
        r.deep_view() == language_norm(s@),
        r matches Some(t) ==> language_norm(t@) == Some(t@),
{
    icu_locid::subtags::Language::try_from_bytes(s.as_bytes())
        .ok()
        .map(|l| l.as_str().to_owned())
}

/// Relies on `icu_locid::subtags::Region::try_from_bytes`: accepts exactly
/// the two-letter ASCII or three-digit region subtags and returns letters
/// uppercased, so normalizing an already normalized subtag returns it
/// unchanged.
#[verifier::external_body]
fn normalize_region(s: &str) -> (r: Option<String>)
    ensures
        r.deep_view() == region_norm(s@),
        r matches Some(t) ==> region_norm(t@) == Some(t@),
{
    icu_locid::subtags::Region::try_from_bytes(s.as_bytes())
        .ok()
        .map(|l| l.as_str().to_owned())
}

/// Relies on `icu_locid::subtags::Script::try_from_bytes`: accepts exactly
/// the four-letter ASCII script subtags and returns them title-cased, so
/// normalizing an already normalized subtag returns it unchanged.
#[verifier::external_body]
fn normalize_script(s: &str) -> (r: Option<String>)
    ensures
        r.deep_view() == script_norm(s@),
        r matches Some(t) ==> script_norm(t@) == Some(t@),
{
    icu_locid::subtags::Script::try_from_bytes(s.as_bytes())
        .ok()
        .map(|l| l.as_str().to_owned())
}

/// A language subtag in normalized (lowercase) form, such as `"de"`.
#[derive(Debug, Clone, PartialEq, Eq)]
pub struct Language {
    tag: String,
}

impl View for Language {
    type V = Seq<char>;

    closed spec fn view(&self) -> Seq<char> {
        self.tag@
    }
}

impl Language {
    /// The subtag holds its own normalized text.
    pub open spec fn wf(&self) -> bool {
        language_norm(self@) == Some(self@)
    }

    /// Parses and normalizes a language subtag.
    pub fn parse(s: &str) -> (r: Option<Language>)
        ensures
            match r {
                Some(l) => language_norm(s@) == Some(l@) && l.wf(),
                None => language_norm(s@) is None,
            },
    {
        match normalize_language(s) {
            Some(tag) => Some(Language { tag }),
            None => None,
        }
    }

    /// The normalized text of the subtag.
    pub fn as_str(&self) -> (r: &str)
        ensures
            r@ == self@,
    {
        self.tag.as_str()
    }
}

/// A region subtag in normalized form: uppercase letters (`"AT"`) or three
/// digits (`"419"`).
#[derive(Debug, Clone, PartialEq, Eq)]
pub struct Region {
    tag: String,
}

impl View for Region {
    type V = Seq<char>;

    closed spec fn view(&self) -> Seq<char> {
        self.tag@
    }
}

impl Region {
    /// The subtag holds its own normalized text.
    pub open spec fn wf(&self) -> bool {
        region_norm(self@) == Some(self@)
    }

    /// Parses and normalizes a region subtag.
    pub fn parse(s: &str) -> (r: Option<Region>)
        ensures
            match r {
                Some(l) => region_norm(s@) == Some(l@) && l.wf(),
                None => region_norm(s@) is None,
            },
    {
        match normalize_region(s) {
            Some(tag) => Some(Region { tag }),
            None => None,
        }
    }

    /// The normalized text of the subtag.
    pub fn as_str(&self) -> (r: &str)
        ensures
            r@ == self@,
    {
        self.tag.as_str()
    }
}

/// A script subtag in normalized (title-case) form, such as `"Latn"`.
#[derive(Debug, Clone, PartialEq, Eq)]
pub struct Script {
    tag: String,
}

impl View for Script {
    type V = Seq<char>;

    closed spec fn view(&self) -> Seq<char> {
        self.tag@
    }
}

impl Script {
    /// The subtag holds its own normalized text.
    pub open spec fn wf(&self) -> bool {
        script_norm(self@) == Some(self@)
    }

    /// Parses and normalizes a script subtag.
    pub fn parse(s: &str) -> (r: Option<Script>)
        ensures
            match r {
                Some(l) => script_norm(s@) == Some(l@) && l.wf(),
                None => script_norm(s@) is None,
            },
    {
        match normalize_script(s) {
            Some(tag) => Some(Script { tag }),
            None => None,
        }
    }

    /// The normalized text of the subtag.
    pub fn as_str(&self) -> (r: &str)
        ensures
            r@ == self@,
    {
        self.tag.as_str()
    }
}

/// A locale identifier decomposed into its subtags: a language, and
/// optionally a region and a script.
#[derive(Debug, Clone, PartialEq, Eq)]
pub struct Locale {
    /// The language subtag; `"und"` when undetermined.
    pub language: Language,
    /// The region subtag, if any.
    pub region: Option<Region>,
    /// The script subtag, if any.
    pub script: Option<Script>,
}

impl Locale {
    /// Every present subtag holds its normalized text.
    pub open spec fn wf(&self) -> bool {
        &&& self.language.wf()
        &&& self.region matches Some(r) ==> r.wf()
        &&& self.script matches Some(s) ==> s.wf()
    }

    /// A locale from already parsed subtags.
    pub fn new(language: Language, region: Option<Region>, script: Option<Script>) -> (r: Locale)
        ensures
            r.language == language,
            r.region == region,
            r.script == script,
    {
        Locale { language, region, script }
    }
}

} // verus!
