use bot_lib::ruleset::{ParseError, ParseErrorKind, Polarity, Ruleset};

#[test]
fn empty_rule_set_matches_everything() {
    let rules = Ruleset::parse("").unwrap();
    assert_eq!(rules.len(), 0);
    assert!(rules.matches(""));
    assert!(rules.matches("anything at all"));
}

#[test]
fn require_and_forbid() {
    let rules = Ruleset::parse("r rust\n!r crab").unwrap();
    assert_eq!(rules.len(), 2);
    assert_eq!(rules.predicate(0).polarity(), Polarity::Require);
    assert_eq!(rules.predicate(0).pattern(), "rust");
    assert_eq!(rules.predicate(1).polarity(), Polarity::Forbid);
    assert_eq!(rules.predicate(1).pattern(), "crab");
    assert!(rules.matches("I love rust"));
    assert!(!rules.matches("rust crab"));
    assert!(!rules.matches("nothing here"));
}

#[test]
fn blank_lines_are_ignored() {
    let rules = Ruleset::parse("\nr 1234\n\n!r 4312\n").unwrap();
    assert_eq!(rules.len(), 2);
    assert_eq!(rules.source(), "\nr 1234\n\n!r 4312\n");
    assert!(rules.matches("x1234"));
    assert!(!rules.matches("1234 4312"));
}

#[test]
fn unrecognized_line_is_reported_with_its_number() {
    let e = Ruleset::parse("r ok\n\nq nope\nr (").unwrap_err();
    assert_eq!(e, ParseError { line: 2, kind: ParseErrorKind::UnrecognizedLine });
}

#[test]
fn invalid_pattern_is_reported_with_its_number() {
    let e = Ruleset::parse("r ok\n!r foo(bar").unwrap_err();
    assert_eq!(e, ParseError { line: 1, kind: ParseErrorKind::InvalidPattern });
}
