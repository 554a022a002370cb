//! Log-line pattern filters.
//!
//! A `PatternFilter` is a predicate over incoming log lines. It matches
//! either a phrase — exactly or with ASCII case folded (verified here) — or
//! a regular expression (delegated to the regex crate). A one-shot filter
//! deactivates itself on its first match; releasing an already consumed
//! filter is a no-op.

use vstd::prelude::*;

use crate::errors::CoreError;
use crate::text::str_contains;
use crate::text::text_contains;

verus! {

/// A line from the device's live diagnostic log: the process that wrote it
/// and the message text.
pub struct LogLine {
    pub source: String,
    pub message: String,
}

/// The mathematical content of a `LogLine`.
pub struct LogLineModel {
    pub source: Seq<char>,
    pub message: Seq<char>,
}

impl View for LogLine {
    type V = LogLineModel;

    open spec fn view(&self) -> LogLineModel {
        LogLineModel { source: self.source@, message: self.message@ }
    }
}

impl Clone for LogLine {
    fn clone(&self) -> (r: Self)
        ensures
            r@ == self@,
    {
        LogLine { source: self.source.clone(), message: self.message.clone() }
    }
}

/// Which part of a log line a filter is matched against.
#[derive(PartialEq, Eq, Structural, Clone, Copy, Debug)]
pub enum FilterScope {
    All,
    Source,
    Message,
}

/// Whether a filter survives its first match.
#[derive(PartialEq, Eq, Structural, Clone, Copy, Debug)]
pub enum FilterMode {
    OneShot,
    Persistent,
}

#[derive(PartialEq, Eq, Structural, Clone, Copy, Debug)]
enum FilterLife {
    Active,
    Consumed,
}

#[verifier::external_type_specification]
#[verifier::external_body]
pub struct ExRegex(regex::Regex);

#[verifier::external_type_specification]
#[verifier::external_body]
pub struct ExRegexError(regex::Error);

/// The pattern text a compiled regular expression was built from
/// (what `regex::Regex::as_str` hands back).
pub uninterp spec fn regex_pattern(re: regex::Regex) -> Seq<char>;

/// Whether the regex crate accepts a pattern text.
pub uninterp spec fn regex_accepts(pattern: Seq<char>) -> bool;

/// Whether a pattern matches somewhere in a haystack, as the regex crate
/// decides it.
pub uninterp spec fn regex_match(pattern: Seq<char>, hay: Seq<char>) -> bool;

/// Relies on regex::Regex::new: compiling succeeds or fails on the pattern
/// text alone, and the compiled value keeps that text (regex::Regex::as_str
/// hands the pattern back unchanged).
#[verifier::external_body]
fn compile_pattern(pattern: &str) -> (r: Result<regex::Regex, regex::Error>)
    ensures
        r is Ok <==> regex_accepts(pattern@),
        r matches Ok(re) ==> regex_pattern(re) == pattern@,
{
    regex::Regex::new(pattern)
}

/// Relies on regex::Regex::is_match: true if and only if the regex matches
/// anywhere in the haystack; the result depends on the pattern and the
/// haystack alone.
#[verifier::external_body]
fn pattern_is_match(re: &regex::Regex, hay: &str) -> (r: bool)
    ensures
        r == regex_match(regex_pattern(*re), hay@),
{
    re.is_match(hay)
}

enum Matcher {
    Phrase { needle: String, fold_case: bool },
    Re { re: regex::Regex },
}

/// What a filter matches: a phrase — compared exactly or with ASCII case
/// folded — or a regular expression.
pub enum PatternModel {
    Phrase { needle: Seq<char>, fold_case: bool },
    Re { pattern: Seq<char> },
}

/// Whether a pattern matches a piece of text.
pub open spec fn pattern_hits(p: PatternModel, text: Seq<char>) -> bool {
    match p {
        PatternModel::Phrase { needle, fold_case } => text_contains(text, needle, fold_case),
        PatternModel::Re { pattern } => regex_match(pattern, text),
    }
}

/// Whether a pattern matches a log line within a scope.
pub open spec fn scope_hits(p: PatternModel, scope: FilterScope, line: LogLineModel) -> bool {
    match scope {
        FilterScope::All => pattern_hits(p, line.source) || pattern_hits(p, line.message),
        FilterScope::Source => pattern_hits(p, line.source),
        FilterScope::Message => pattern_hits(p, line.message),
    }
}

/// A single-shot or persistent predicate over incoming log lines.
pub struct PatternFilter {
    matcher: Matcher,
    mode: FilterMode,
    scope: FilterScope,
    life: FilterLife,
}

impl PatternFilter {
    pub closed spec fn pattern(&self) -> PatternModel {
        match self.matcher {
            Matcher::Phrase { needle, fold_case } => PatternModel::Phrase {
                needle: needle@,
                fold_case,
            },
            Matcher::Re { re } => PatternModel::Re { pattern: regex_pattern(re) },
        }
    }

    pub closed spec fn mode(&self) -> FilterMode {
        self.mode
    }

    pub closed spec fn scope(&self) -> FilterScope {
        self.scope
    }

    /// An active filter still receives lines; a consumed one never fires again.
    pub closed spec fn is_active(&self) -> bool {
        self.life is Active
    }

    /// Whether this filter's pattern matches `line` within its scope.
    pub open spec fn hits(&self, line: LogLineModel) -> bool {
        scope_hits(self.pattern(), self.scope(), line)
    }

    /// Whether the filter still receives lines.
    pub fn active(&self) -> (b: bool)
        ensures
            b == self.is_active(),
    {
        match self.life {
            FilterLife::Active => true,
            FilterLife::Consumed => false,
        }
    }

    /// A filter that matches `needle` as a phrase, with ASCII case folded
    /// when `fold_case` is set.
    pub fn phrase(needle: &str, fold_case: bool, mode: FilterMode, scope: FilterScope) -> (f:
        PatternFilter)
        ensures
            f.pattern() == (PatternModel::Phrase { needle: needle@, fold_case }),
            f.mode() == mode,
            f.scope() == scope,
            f.is_active(),
    {
        PatternFilter {
            matcher: Matcher::Phrase { needle: needle.to_owned(), fold_case },
            mode,
            scope,
            life: FilterLife::Active,
        }
    }

    /// A filter that matches a regular expression; an unacceptable pattern
    /// is rejected with `CoreError::FilterConstruction`.
    pub fn regex(pattern: &str, mode: FilterMode, scope: FilterScope) -> (r: Result<
        PatternFilter,
        CoreError,
    >)
        ensures
            r is Ok <==> regex_accepts(pattern@),
            r matches Ok(f) ==> {
                &&& f.pattern() == (PatternModel::Re { pattern: pattern@ })
                &&& f.mode() == mode
                &&& f.scope() == scope
                &&& f.is_active()
            },
            r matches Err(e) ==> e == CoreError::FilterConstruction,
    {
        match compile_pattern(pattern) {
            Ok(re) => Ok(
                PatternFilter { matcher: Matcher::Re { re }, mode, scope, life: FilterLife::Active },
            ),
            Err(_) => Err(CoreError::FilterConstruction),
        }
    }

    fn text_hits(&self, text: &str) -> (r: bool)
        ensures
            r == pattern_hits(self.pattern(), text@),
    {
        match &self.matcher {
            Matcher::Phrase { needle, fold_case } => str_contains(text, needle.as_str(), *fold_case),
            Matcher::Re { re } => pattern_is_match(re, text),
        }
    }

    /// Whether this filter's pattern matches `line` within its scope,
    /// regardless of the filter's life state.
    pub fn matches_line(&self, line: &LogLine) -> (r: bool)
        ensures
            r == self.hits(line@),
    {
        match self.scope {
            FilterScope::All => {
                let on_source = self.text_hits(line.source.as_str());
                if on_source {
                    true
                } else {
                    self.text_hits(line.message.as_str())
                }
            },
            FilterScope::Source => self.text_hits(line.source.as_str()),
            FilterScope::Message => self.text_hits(line.message.as_str()),
        }
    }

    /// Delivers one line to the filter. It fires exactly when it is still
    /// active and its pattern matches; a one-shot filter that fires consumes
    /// itself.
    pub fn observe(&mut self, line: &LogLine) -> (fired: bool)
        ensures
            fired == (old(self).is_active() && old(self).hits(line@)),
            final(self).pattern() == old(self).pattern(),
            final(self).mode() == old(self).mode(),
            final(self).scope() == old(self).scope(),
            final(self).is_active() == (old(self).is_active() && !(fired && old(
                self,
            ).mode() is OneShot)),
            !fired ==> *final(self) == *old(self),
    {
        match self.life {
            FilterLife::Consumed => false,
            FilterLife::Active => {
                let fired = self.matches_line(line);
                if fired {
                    match self.mode {
                        FilterMode::OneShot => {
                            self.life = FilterLife::Consumed;
                        },
                        FilterMode::Persistent => {},
                    }
                }
                fired
            },
        }
    }

    /// Releases the filter: it never fires again. Releasing a filter that has
    /// already consumed itself (or was already released) changes nothing.
    pub fn release(&mut self)
        ensures
            final(self).pattern() == old(self).pattern(),
            final(self).mode() == old(self).mode(),
            final(self).scope() == old(self).scope(),
            !final(self).is_active(),
            !old(self).is_active() ==> *final(self) == *old(self),
    {
        self.life = FilterLife::Consumed;
    }
}

/// The phrase whose appearance in the device log confirms a carrier-bundle
/// installation: the device reports that the SIM is ready.
pub fn sim_ready_filter() -> (f: PatternFilter)
    ensures
        f.pattern() == (PatternModel::Phrase { needle: "SIM is Ready"@, fold_case: true }),
        f.mode() == FilterMode::OneShot,
        f.scope() == FilterScope::All,
        f.is_active(),
{
    PatternFilter::phrase("SIM is Ready", true, FilterMode::OneShot, FilterScope::All)
}

} // verus!
