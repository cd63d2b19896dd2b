//! A filter of texts: a plain substring search, or a regular expression,
//! either of them case sensitive or not.
use vstd::prelude::*;
use crate::regex_support::{CompiledRegex, buildRegex, lowercase, regexCompiles, regexIsMatch, regexMatches, toLowercase};
use crate::text::{containsText, occursIn};

verus! {

/// How a filter matches.
#[derive(Clone, Copy, Debug, PartialEq, Eq, Structural)]
pub enum FilterMode {
    /// A substring search for the text.
    Disabled,
    /// The text is a pattern that did not compile; nothing matches.
    Invalid,
    /// The text is a compiled regular expression.
    Valid,
}

/// The mathematical value of a filter: its case sensitivity, its mode and
/// its text (for a valid regular expression, its pattern).
pub struct TextFilterView {
    pub caseSensitive: bool,
    pub mode: FilterMode,
    pub text: Seq<char>,
}

/// A filter state whose regular expression, if valid, compiles.
pub open spec fn filterValid(v: TextFilterView) -> bool {
    v.mode == FilterMode::Valid ==> regexCompiles(v.text, !v.caseSensitive)
}

/// The filter after its text is set: a substring search only changes its
/// text; otherwise the text is compiled, and the filter is valid exactly when
/// it compiles.
pub open spec fn afterSetText(v: TextFilterView, text: Seq<char>) -> TextFilterView {
    if v.mode == FilterMode::Disabled {
        TextFilterView { text, ..v }
    } else {
        TextFilterView {
            mode: if regexCompiles(text, !v.caseSensitive) { FilterMode::Valid } else { FilterMode::Invalid },
            text,
            ..v
        }
    }
}

/// The filter after case sensitivity is set: a regular expression is
/// compiled again, and the filter is valid exactly when it compiles.
pub open spec fn afterSetCaseSensitivity(v: TextFilterView, caseSensitive: bool) -> TextFilterView {
    if v.mode == FilterMode::Disabled {
        TextFilterView { caseSensitive, ..v }
    } else {
        TextFilterView {
            caseSensitive,
            mode: if regexCompiles(v.text, !caseSensitive) { FilterMode::Valid } else { FilterMode::Invalid },
            ..v
        }
    }
}

/// The filter after regular expressions are switched on or off: switching
/// on compiles the text of a substring search, switching off keeps the text
/// and searches for it.
pub open spec fn afterSetRegexEnabled(v: TextFilterView, enabled: bool) -> TextFilterView {
    if enabled {
        if v.mode == FilterMode::Disabled {
            TextFilterView {
                mode: if regexCompiles(v.text, !v.caseSensitive) { FilterMode::Valid } else { FilterMode::Invalid },
                ..v
            }
        } else {
            v
        }
    } else {
        TextFilterView { mode: FilterMode::Disabled, ..v }
    }
}

/// Whether a filter state matches an input.
pub open spec fn filterMatches(v: TextFilterView, input: Seq<char>) -> bool {
    match v.mode {
        FilterMode::Disabled => if v.caseSensitive {
            occursIn(v.text, input)
        } else {
            occursIn(lowercase(v.text), lowercase(input))
        },
        FilterMode::Invalid => false,
        FilterMode::Valid => regexMatches(v.text, !v.caseSensitive, input),
    }
}

/// Whether a filter state filters nothing out: an empty text, or an invalid
/// regular expression.
pub open spec fn filterIsEmpty(v: TextFilterView) -> bool {
    match v.mode {
        FilterMode::Invalid => true,
        _ => v.text.len() == 0,
    }
}

enum RegexState {
    Disabled { text: String },
    Invalid { text: String },
    Valid { regex: CompiledRegex },
}

/// A text filter.
pub struct TextFilter {
    caseSensitive: bool,
    regexState: RegexState,
}

/// A regular expression that did not compile.
#[derive(Debug)]
pub enum TextFilterError {
    InvalidRegex(regex::Error),
}

impl TextFilter {
    /// The filter's mathematical value.
    pub closed spec fn view(&self) -> TextFilterView {
        TextFilterView {
            caseSensitive: self.caseSensitive,
            mode: match self.regexState {
                RegexState::Disabled { .. } => FilterMode::Disabled,
                RegexState::Invalid { .. } => FilterMode::Invalid,
                RegexState::Valid { .. } => FilterMode::Valid,
            },
            text: match self.regexState {
                RegexState::Disabled { text } => text@,
                RegexState::Invalid { text } => text@,
                RegexState::Valid { regex } => regex.patternView(),
            },
        }
    }

    /// A valid regular expression was compiled with the filter's case
    /// insensitivity.
    pub closed spec fn wf(&self) -> bool {
        &&& filterValid(self.view())
        &&& (self.regexState matches RegexState::Valid { regex } ==> regex.isCaseInsensitive() == !self.caseSensitive)
    }

    /// A case insensitive substring search for the empty text.
    pub fn new() -> (filter: Self)
        ensures
            filter.wf(),
            filter.view() == (TextFilterView { caseSensitive: false, mode: FilterMode::Disabled, text: Seq::empty() }),
    {
        TextFilter { caseSensitive: false, regexState: RegexState::Disabled { text: String::new() } }
    }

    /// Sets the text; fails where it is meant as a regular expression and
    /// does not compile.
    pub fn setText(&mut self, newText: &str) -> (result: Result<(), TextFilterError>)
        requires
            old(self).wf(),
        ensures
            final(self).wf(),
            final(self).view() == afterSetText(old(self).view(), newText@),
            result is Ok <==> (old(self).view().mode == FilterMode::Disabled || regexCompiles(newText@, !old(self).view().caseSensitive)),
    {
        match &self.regexState {
            RegexState::Disabled { .. } => {
                self.regexState = RegexState::Disabled { text: String::from_str(newText) };
            },
            _ => {
                match buildRegex(newText, !self.caseSensitive) {
                    Ok(newRegex) => self.regexState = RegexState::Valid { regex: newRegex },
                    Err(e) => {
                        self.regexState = RegexState::Invalid { text: String::from_str(newText) };
                        return Err(TextFilterError::InvalidRegex(e));
                    },
                }
            },
        }
        Ok(())
    }

    /// Sets case sensitivity; a regular expression is compiled again, and
    /// this fails where it does not compile.
    pub fn setCaseSensitivityEnabled(&mut self, shouldEnable: bool) -> (result: Result<(), TextFilterError>)
        requires
            old(self).wf(),
        ensures
            final(self).wf(),
            final(self).view() == afterSetCaseSensitivity(old(self).view(), shouldEnable),
            result is Ok <==> (old(self).view().mode == FilterMode::Disabled || regexCompiles(old(self).view().text, !shouldEnable)),
    {
        self.caseSensitive = shouldEnable;
        let rebuilt = match &self.regexState {
            RegexState::Disabled { .. } => None,
            RegexState::Invalid { text } => Some((buildRegex(text.as_str(), !shouldEnable), String::from_str(text.as_str()))),
            RegexState::Valid { regex } => Some((buildRegex(regex.asStr(), !shouldEnable), String::from_str(regex.asStr()))),
        };
        match rebuilt {
            None => Ok(()),
            Some((Ok(newRegex), _)) => {
                self.regexState = RegexState::Valid { regex: newRegex };
                Ok(())
            },
            Some((Err(e), text)) => {
                self.regexState = RegexState::Invalid { text };
                Err(TextFilterError::InvalidRegex(e))
            },
        }
    }

    /// Switches regular expressions on or off; switching on compiles the
    /// text of a substring search, and fails where it does not compile.
    pub fn setRegexEnabled(&mut self, shouldEnable: bool) -> (result: Result<(), TextFilterError>)
        requires
            old(self).wf(),
        ensures
            final(self).wf(),
            final(self).view() == afterSetRegexEnabled(old(self).view(), shouldEnable),
            result is Ok <==> !(shouldEnable && old(self).view().mode == FilterMode::Disabled && !regexCompiles(
                old(self).view().text,
                !old(self).view().caseSensitive,
            )),
    {
        if shouldEnable {
            let built = match &self.regexState {
                RegexState::Disabled { text } => Some((buildRegex(text.as_str(), !self.caseSensitive), String::from_str(text.as_str()))),
                _ => None,
            };
            match built {
                None => {},
                Some((Ok(regex), _)) => self.regexState = RegexState::Valid { regex },
                Some((Err(e), text)) => {
                    self.regexState = RegexState::Invalid { text };
                    return Err(TextFilterError::InvalidRegex(e));
                },
            }
        } else {
            let text = match &self.regexState {
                RegexState::Disabled { text } => String::from_str(text.as_str()),
                RegexState::Invalid { text } => String::from_str(text.as_str()),
                RegexState::Valid { regex } => String::from_str(regex.asStr()),
            };
            self.regexState = RegexState::Disabled { text };
        }
        Ok(())
    }

    /// Whether the filter filters nothing out.
    pub fn isEmpty(&self) -> (empty: bool)
        ensures
            empty == filterIsEmpty(self.view()),
    {
        match &self.regexState {
            RegexState::Disabled { text } => text.as_str().unicode_len() == 0,
            RegexState::Invalid { .. } => true,
            RegexState::Valid { regex } => regex.asStr().unicode_len() == 0,
        }
    }

    /// Whether the filter matches the input.
    pub fn isMatch(&self, input: &str) -> (matched: bool)
        requires
            self.wf(),
        ensures
            matched == filterMatches(self.view(), input@),
            self.view().mode == FilterMode::Disabled && self.view().text.len() == 0 ==> matched,
    {
        match &self.regexState {
            RegexState::Disabled { text } => {
                if self.caseSensitive {
                    let found = containsText(input, text.as_str());
                    proof {
                        lemma_empty_occurs(text@, input@);
                    }
                    found
                } else {
                    let lowerInput = toLowercase(input);
                    let lowerText = toLowercase(text.as_str());
                    let found = containsText(lowerInput.as_str(), lowerText.as_str());
                    proof {
                        lemma_empty_occurs(lowerText@, lowerInput@);
                    }
                    found
                }
            },
            RegexState::Invalid { .. } => false,
            RegexState::Valid { regex } => regexIsMatch(regex, input),
        }
    }
}


/// The empty text occurs in every text.
proof fn lemma_empty_occurs(needle: Seq<char>, haystack: Seq<char>)
    ensures
        needle.len() == 0 ==> occursIn(needle, haystack),
{
    if needle.len() == 0 {
        assert(haystack.subrange(0int, 0int + needle.len()) =~= needle);
    }
}

/// Switching regular expressions off and on again restores a valid regular
/// expression, and switching them on and off again restores a substring
/// search.
pub proof fn lemma_regex_toggle_restores(v: TextFilterView)
    requires
        filterValid(v),
    ensures
        v.mode == FilterMode::Valid ==> afterSetRegexEnabled(afterSetRegexEnabled(v, false), true) == v,
        v.mode == FilterMode::Disabled ==> afterSetRegexEnabled(afterSetRegexEnabled(v, true), false) == v,
{
}

/// Changing case sensitivity and changing it back restores a filter that is
/// a substring search or a valid regular expression, even where the
/// expression did not compile in between.
pub proof fn lemma_case_toggle_restores(v: TextFilterView, caseSensitive: bool)
    requires
        filterValid(v),
        v.mode != FilterMode::Invalid,
    ensures
        afterSetCaseSensitivity(afterSetCaseSensitivity(v, caseSensitive), v.caseSensitive) == v,
{
}

/// Every state a filter reaches from a valid one is valid, and setting the
/// same text twice gives what setting it once gives.
pub proof fn lemma_filter_transitions_valid(v: TextFilterView, text: Seq<char>, flag: bool)
    requires
        filterValid(v),
    ensures
        filterValid(afterSetText(v, text)),
        filterValid(afterSetCaseSensitivity(v, flag)),
        filterValid(afterSetRegexEnabled(v, flag)),
        afterSetText(afterSetText(v, text), text) == afterSetText(v, text),
{
}

} // verus!
