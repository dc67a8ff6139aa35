//! The rule language: a rule set is written as lines of text, one predicate
//! to a line, and a message satisfies it when every predicate holds.
//!
//! A line is empty, or it is a marker followed by a regular expression that
//! runs to the end of the line. The marker `r` and a space ask that the
//! expression be found in the message; `!r` and a space ask that it be not.

use crate::pattern::{compile, compiled, is_match, pattern_matches, pattern_valid};
use crate::text::{
    chars_of, lemma_first_line_len, lemma_lines_nonempty, line_end, lines, starts_with,
};
use regex::Regex;
use vstd::prelude::*;
use vstd::string::StringExecFns;
use vstd::string::StrSliceExecFns;

verus! {

/// Whether a predicate asks for its pattern or rules it out.
#[derive(Clone, Copy, Debug, PartialEq, Eq, Structural)]
pub enum Polarity {
    /// The pattern must be found in the message.
    Require,
    /// The pattern must not be found in the message.
    Forbid,
}

/// Why a line of rule text was refused.
#[derive(Clone, Copy, Debug, PartialEq, Eq, Structural)]
pub enum ParseErrorKind {
    /// The line is not empty and begins with neither marker.
    UnrecognizedLine,
    /// The text behind the marker is no regular expression.
    InvalidPattern,
}

/// The first line of a rule text that was refused, and why.
#[derive(Clone, Copy, Debug, PartialEq, Eq, Structural)]
pub struct ParseError {
    /// The number of the line, the first line being line 0.
    pub line: usize,
    pub kind: ParseErrorKind,
}

/// A predicate as the contracts see it: its polarity and the text of its
/// pattern.
pub struct PredicateView {
    pub polarity: Polarity,
    pub pattern: Seq<char>,
}

/// The marker of a line that requires its pattern.
pub open spec fn require_marker() -> Seq<char> {
    seq!['r', ' ']
}

/// The marker of a line that forbids its pattern.
pub open spec fn forbid_marker() -> Seq<char> {
    seq!['!', 'r', ' ']
}

/// The predicate that a pattern of the given polarity makes, where the
/// pattern is a regular expression.
pub open spec fn read_pattern(polarity: Polarity, pattern: Seq<char>) -> Result<
    Option<PredicateView>,
    ParseErrorKind,
> {
    if pattern_valid(pattern) {
        Ok(Some(PredicateView { polarity, pattern }))
    } else {
        Err(ParseErrorKind::InvalidPattern)
    }
}

/// What one line of rule text says: nothing where it is empty, a predicate
/// where a marker and a regular expression stand on it, else an error.
pub open spec fn read_line(line: Seq<char>) -> Result<Option<PredicateView>, ParseErrorKind> {
    if line.len() == 0 {
        Ok(None)
    } else if starts_with(line, forbid_marker()) {
        read_pattern(Polarity::Forbid, line.skip(3))
    } else if starts_with(line, require_marker()) {
        read_pattern(Polarity::Require, line.skip(2))
    } else {
        Err(ParseErrorKind::UnrecognizedLine)
    }
}

/// What the first `count` of the given lines say together: their predicates
/// in order, or the first line among them that was refused.
pub open spec fn read_lines(all: Seq<Seq<char>>, count: nat) -> Result<
    Seq<PredicateView>,
    ParseError,
>
    decreases count,
{
    if count == 0 {
        Ok(Seq::empty())
    } else {
        let line = (count - 1) as nat;
        match read_lines(all, line) {
            Err(e) => Err(e),
            Ok(before) => match read_line(all[line as int]) {
                Err(kind) => Err(ParseError { line: line as usize, kind }),
                Ok(None) => Ok(before),
                Ok(Some(predicate)) => Ok(before.push(predicate)),
            },
        }
    }
}

/// What a rule text says: the predicates of its lines in order, or its first
/// line that was refused.
pub open spec fn parse_rules(text: Seq<char>) -> Result<Seq<PredicateView>, ParseError> {
    read_lines(lines(text), lines(text).len())
}

/// Whether a predicate holds of a message.
pub open spec fn predicate_holds(predicate: PredicateView, message: Seq<char>) -> bool {
    match predicate.polarity {
        Polarity::Require => pattern_matches(predicate.pattern, message),
        Polarity::Forbid => !pattern_matches(predicate.pattern, message),
    }
}

/// Whether a message satisfies a sequence of predicates: each of them holds.
pub open spec fn rules_match(rules: Seq<PredicateView>, message: Seq<char>) -> bool {
    forall|i: int| 0 <= i < rules.len() ==> predicate_holds(#[trigger] rules[i], message)
}

/// An error among the first lines is the error of the whole text.
proof fn lemma_error_stays(all: Seq<Seq<char>>, count: nat, more: nat)
    requires
        count <= more,
        read_lines(all, count) is Err,
    ensures
        read_lines(all, more) == read_lines(all, count),
    decreases more,
{
    if count < more {
        lemma_error_stays(all, count, (more - 1) as nat);
    }
}

/// One predicate of a rule set: a polarity and a compiled pattern.
#[derive(Debug)]
pub struct RulePredicate {
    polarity: Polarity,
    pattern: String,
    expression: Regex,
}

impl View for RulePredicate {
    type V = PredicateView;

    closed spec fn view(&self) -> PredicateView {
        PredicateView { polarity: self.polarity, pattern: self.pattern@ }
    }
}

impl RulePredicate {
    /// The expression is what the pattern's text compiles to.
    #[verifier::type_invariant]
    spec fn compiled_from_pattern(&self) -> bool {
        compiled(self.pattern@) == Ok::<Regex, regex::Error>(self.expression)
    }

    /// The predicate for a pattern, where the pattern is a regular
    /// expression.
    pub fn new(polarity: Polarity, pattern: &str) -> (r: Option<RulePredicate>)
        ensures
            r is Some <==> pattern_valid(pattern@),
            r matches Some(predicate) ==> predicate@ == (PredicateView {
                polarity,
                pattern: pattern@,
            }),
    {
        match compile(pattern) {
            Ok(expression) => Some(
                RulePredicate { polarity, pattern: String::from_str(pattern), expression },
            ),
            Err(_) => None,
        }
    }

    pub fn polarity(&self) -> (p: Polarity)
        ensures
            p == self@.polarity,
    {
        self.polarity
    }

    /// The text of the pattern, as it stood in the rule text.
    pub fn pattern(&self) -> (s: &str)
        ensures
            s@ == self@.pattern,
            pattern_valid(s@),
    {
        proof {
            use_type_invariant(self);
        }
        self.pattern.as_str()
    }

    /// Whether the predicate holds of `message`.
    pub fn holds(&self, message: &str) -> (b: bool)
        ensures
            b == predicate_holds(self@, message@),
    {
        proof {
            use_type_invariant(self);
        }
        let found = is_match(&self.expression, message);
        match self.polarity {
            Polarity::Require => found,
            Polarity::Forbid => !found,
        }
    }
}

/// A rule set: the predicates of a rule text, compiled, beside the text that
/// they were read from.
#[derive(Debug)]
pub struct Ruleset {
    source: String,
    predicates: Vec<RulePredicate>,
}

/// The views of a vector of predicates.
pub open spec fn predicate_views(predicates: Seq<RulePredicate>) -> Seq<PredicateView> {
    Seq::new(predicates.len(), |i: int| predicates[i]@)
}

impl View for Ruleset {
    type V = Seq<PredicateView>;

    closed spec fn view(&self) -> Seq<PredicateView> {
        predicate_views(self.predicates@)
    }
}

/// The marker at the start of the line that runs from `start` to `end`: its
/// polarity and the position at which the pattern begins.
fn read_marker(chars: &Vec<char>, start: usize, end: usize) -> (r: Option<(Polarity, usize)>)
    requires
        start <= end <= chars.len(),
    ensures
        ({
            let line = chars@.subrange(start as int, end as int);
            match r {
                Some((Polarity::Forbid, at)) => starts_with(line, forbid_marker()) && at == start
                    + 3,
                Some((Polarity::Require, at)) => !starts_with(line, forbid_marker())
                    && starts_with(line, require_marker()) && at == start + 2,
                None => !starts_with(line, forbid_marker()) && !starts_with(
                    line,
                    require_marker(),
                ),
            }
        }),
{
    let ghost line = chars@.subrange(start as int, end as int);
    let len: usize = end - start;
    if len >= 3 && chars[start] == '!' && chars[start + 1] == 'r' && chars[start + 2] == ' ' {
        assert(line.take(3) =~= forbid_marker());
        Some((Polarity::Forbid, start + 3))
    } else {
        assert(!starts_with(line, forbid_marker())) by {
            if starts_with(line, forbid_marker()) {
                assert(line.take(3)[0] == '!');
                assert(line.take(3)[1] == 'r');
                assert(line.take(3)[2] == ' ');
            }
        }
        if len >= 2 && chars[start] == 'r' && chars[start + 1] == ' ' {
            assert(line.take(2) =~= require_marker());
            Some((Polarity::Require, start + 2))
        } else {
            assert(!starts_with(line, require_marker())) by {
                if starts_with(line, require_marker()) {
                    assert(line.take(2)[0] == 'r');
                    assert(line.take(2)[1] == ' ');
                }
            }
            None
        }
    }
}

impl Ruleset {
    /// The rule text that the set was read from.
    pub closed spec fn source_text(&self) -> Seq<char> {
        self.source@
    }

    /// The predicates are what the rule text says.
    #[verifier::type_invariant]
    spec fn read_from_source(&self) -> bool {
        parse_rules(self.source@) == Ok::<Seq<PredicateView>, ParseError>(self@)
    }

    /// Reads a rule text. The result holds the predicates of its lines in
    /// order; a text with a line that is refused gives that line's error, the
    /// first such line's where there are several.
    pub fn parse(text: &str) -> (r: Result<Ruleset, ParseError>)
        ensures
            match r {
                Ok(rules) => parse_rules(text@) == Ok::<Seq<PredicateView>, ParseError>(rules@)
                    && rules.source_text() == text@,
                Err(e) => parse_rules(text@) == Err::<Seq<PredicateView>, ParseError>(e),
            },
    {
        let chars = chars_of(text);
        let n: usize = chars.len();
        let ghost all = lines(text@);
        let mut predicates: Vec<RulePredicate> = Vec::new();
        let mut start: usize = 0;
        let mut index: usize = 0;
        proof {
            assert(text@.skip(0) =~= text@);
            assert(predicate_views(predicates@) =~= Seq::empty());
            lemma_lines_nonempty(text@);
        }
        loop
            invariant
                chars@ == text@,
                n == chars.len(),
                all == lines(text@),
                index <= start <= n,
                index < all.len(),
                all =~= all.take(index as int) + lines(text@.skip(start as int)),
                read_lines(all, index as nat) == Ok::<Seq<PredicateView>, ParseError>(
                    predicate_views(predicates@),
                ),
            decreases n - start,
        {
            let end = line_end(&chars, start);
            let ghost rest = text@.skip(start as int);
            let ghost line = text@.subrange(start as int, end as int);
            proof {
                lemma_first_line_len(rest);
                assert(rest.take(end - start) =~= line);
                if end < n {
                    assert(rest.skip(end - start + 1) =~= text@.skip(end + 1));
                } else {
                    assert(rest =~= line);
                }
                assert(lines(rest)[0] == line);
                assert(all[index as int] == line);
            }
            if end > start {
                match read_marker(&chars, start, end) {
                    None => {
                        proof {
                            lemma_error_stays(all, (index + 1) as nat, all.len());
                        }
                        return Err(ParseError { line: index, kind: ParseErrorKind::UnrecognizedLine });
                    },
                    Some((polarity, at)) => {
                        let pattern = text.substring_char(at, end);
                        assert(pattern@ =~= line.skip(at - start));
                        match RulePredicate::new(polarity, pattern) {
                            None => {
                                proof {
                                    lemma_error_stays(all, (index + 1) as nat, all.len());
                                }
                                return Err(
                                    ParseError { line: index, kind: ParseErrorKind::InvalidPattern },
                                );
                            },
                            Some(predicate) => {
                                let ghost before = predicate_views(predicates@);
                                predicates.push(predicate);
                                assert(predicate_views(predicates@) =~= before.push(predicate@));
                            },
                        }
                    },
                }
            }
            assert(read_lines(all, (index + 1) as nat) == Ok::<Seq<PredicateView>, ParseError>(
                predicate_views(predicates@),
            ));
            if end == n {
                assert(all.len() == index + 1);
                return Ok(Ruleset { source: String::from_str(text), predicates });
            }
            proof {
                assert(all.take(index + 1) =~= all.take(index as int).push(line));
                lemma_lines_nonempty(text@.skip(end + 1));
            }
            start = end + 1;
            index = index + 1;
        }
    }

    /// The rule text that the set was read from, which reads as this set.
    pub fn source(&self) -> (s: &str)
        ensures
            s@ == self.source_text(),
            parse_rules(s@) == Ok::<Seq<PredicateView>, ParseError>(self@),
    {
        proof {
            use_type_invariant(self);
        }
        self.source.as_str()
    }

    /// The number of predicates.
    pub fn len(&self) -> (n: usize)
        ensures
            n == self@.len(),
    {
        self.predicates.len()
    }

    /// The predicate at position `i`.
    pub fn predicate(&self, i: usize) -> (p: &RulePredicate)
        requires
            i < self@.len(),
        ensures
            p@ == self@[i as int],
    {
        &self.predicates[i]
    }

    /// Whether `message` satisfies the rule set: every predicate that
    /// requires a pattern finds it in the message, and no predicate that
    /// forbids a pattern does. The first predicate that fails decides.
    pub fn matches(&self, message: &str) -> (b: bool)
        ensures
            b == rules_match(self@, message@),
    {
        let mut i: usize = 0;
        while i < self.predicates.len()
            invariant
                i <= self.predicates.len(),
                forall|j: int| 0 <= j < i ==> predicate_holds(#[trigger] self@[j], message@),
            decreases self.predicates.len() - i,
        {
            if !self.predicates[i].holds(message) {
                assert(!predicate_holds(self@[i as int], message@));
                return false;
            }
            i += 1;
        }
        true
    }
}

impl PartialEq for RulePredicate {
    /// Two predicates are equal where they have one polarity and one
    /// pattern text.
    fn eq(&self, other: &RulePredicate) -> (same: bool) {
        let same_polarity = match (self.polarity, other.polarity) {
            (Polarity::Require, Polarity::Require) => true,
            (Polarity::Forbid, Polarity::Forbid) => true,
            _ => false,
        };
        same_polarity && self.pattern == other.pattern
    }
}

impl vstd::std_specs::cmp::PartialEqSpecImpl for RulePredicate {
    open spec fn obeys_eq_spec() -> bool {
        true
    }

    open spec fn eq_spec(&self, other: &RulePredicate) -> bool {
        self@ == other@
    }
}

impl PartialEq for Ruleset {
    /// Two rule sets are equal where they hold equal predicates in the same
    /// order, whatever their rule texts hold besides.
    fn eq(&self, other: &Ruleset) -> (same: bool) {
        if self.predicates.len() != other.predicates.len() {
            assert(self@.len() != other@.len());
            return false;
        }
        let mut i: usize = 0;
        while i < self.predicates.len()
            invariant
                i <= self.predicates.len(),
                self.predicates.len() == other.predicates.len(),
                forall|j: int| 0 <= j < i ==> self@[j] == other@[j],
            decreases self.predicates.len() - i,
        {
            if !self.predicates[i].eq(&other.predicates[i]) {
                assert(self@[i as int] != other@[i as int]);
                return false;
            }
            i += 1;
        }
        assert(self@ =~= other@);
        true
    }
}

impl vstd::std_specs::cmp::PartialEqSpecImpl for Ruleset {
    open spec fn obeys_eq_spec() -> bool {
        true
    }

    open spec fn eq_spec(&self, other: &Ruleset) -> bool {
        self@ == other@
    }
}

} // verus!
