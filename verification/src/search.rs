use vstd::prelude::*;

verus! {

#[verifier::external_type_specification]
#[verifier::external_body]
pub struct ExRegex(regex_lite::Regex);

/// A compiled regular expression together with the pattern it was compiled
/// from; only `compile_regex` makes one.
pub struct PatternRegex {
    regex: regex_lite::Regex,
    pattern: Vec<char>,
}

impl View for PatternRegex {
    type V = Seq<char>;

    /// The pattern the regex was compiled from.
    closed spec fn view(&self) -> Seq<char> {
        self.pattern@
    }
}

impl PatternRegex {
    /// The pattern the regex was compiled from.
    pub fn pattern(&self) -> (p: &Vec<char>)
        ensures
            p@ == self@,
    {
        &self.pattern
    }

    /// The compiled regex, to search with.
    pub fn regex(&self) -> &regex_lite::Regex {
        &self.regex
    }

    /// The compiled regex, by value.
    pub fn into_regex(self) -> regex_lite::Regex {
        self.regex
    }
}

/// What the last search looked for.
pub enum SearchItem {
    /// A regular expression, with its pattern.
    Regex(PatternRegex),
    /// The prompt line, taken literally.
    PromptString,
}

/// The pattern of the regex searched for; `None` for a literal search.
pub open spec fn item_pattern(item: SearchItem) -> Option<Seq<char>> {
    match item {
        SearchItem::Regex(r) => Some(r@),
        SearchItem::PromptString => None,
    }
}

/// Whether `regex_lite` accepts `pattern` as a regular expression (within
/// its default size limits).
pub uninterp spec fn regex_accepts(pattern: Seq<char>) -> bool;

/// Compiles `pattern` with `regex_lite::Regex::new`: there is a regex exactly
/// when `regex_lite` accepts the pattern, and it is kept with that pattern.
/// Nothing is claimed here of what the compiled regex matches.
#[verifier::external_body]
pub(crate) fn compile_regex(pattern: &Vec<char>) -> (r: Option<PatternRegex>)
    ensures
        r is Some <==> regex_accepts(pattern@),
        r matches Some(x) ==> x@ == pattern@,
{
    let text: String = pattern.iter().collect();
    let regex = regex_lite::Regex::new(&text).ok()?;
    Some(PatternRegex { regex, pattern: pattern.clone() })
}

} // verus!
