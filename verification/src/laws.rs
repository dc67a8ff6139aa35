//! What holds of the rules and of the gates for every message, time and
//! draw. Each statement here is proved from the definitions that the
//! contracts of the library use.

use crate::config::first_selected;
use crate::gating::{cooldown_blocked, NEVER, UNIT_BITS};
use crate::pattern::{pattern_matches, pattern_valid};
use crate::response::{DefaultsView, ResponseView};
use crate::ruleset::{
    parse_rules, predicate_holds, read_line, read_lines, rules_match, ParseError, ParseErrorKind,
    Polarity, PredicateView,
};
use crate::text::{contains_token, lemma_lines_hold_no_line_feed, lines};
use vstd::prelude::*;

verus! {

/// A rule set without predicates is satisfied by every message, the empty
/// message among them.
pub proof fn lemma_no_rules_match_everything(message: Seq<char>)
    ensures
        rules_match(Seq::<PredicateView>::empty(), message),
{
}

/// The empty rule text is a rule set without predicates.
pub proof fn lemma_empty_text_has_no_rules()
    ensures
        parse_rules(Seq::<char>::empty()) == Ok::<Seq<PredicateView>, ParseError>(Seq::empty()),
{
    let all = lines(Seq::<char>::empty());
    assert(all.len() == 1);
    assert(all[0].len() == 0);
    assert(read_lines(all, 0) == Ok::<Seq<PredicateView>, ParseError>(Seq::empty()));
    reveal_with_fuel(read_lines, 2);
}

/// Each predicate that the first lines of a text make is made by one of
/// these lines.
proof fn lemma_predicate_has_a_line(
    all: Seq<Seq<char>>,
    count: nat,
    rules: Seq<PredicateView>,
    i: int,
) -> (line: int)
    requires
        read_lines(all, count) == Ok::<Seq<PredicateView>, ParseError>(rules),
        0 <= i < rules.len(),
    ensures
        0 <= line < count,
        read_line(all[line]) == Ok::<Option<PredicateView>, ParseErrorKind>(Some(rules[i])),
    decreases count,
{
    let last = (count - 1) as nat;
    let before = read_lines(all, last)->Ok_0;
    if i < before.len() {
        lemma_predicate_has_a_line(all, last, before, i)
    } else {
        last as int
    }
}

/// The pattern of every predicate of a rule text is a regular expression
/// that stood on one line: it holds no line feed.
pub proof fn lemma_patterns_stand_on_one_line(
    text: Seq<char>,
    rules: Seq<PredicateView>,
    i: int,
)
    requires
        parse_rules(text) == Ok::<Seq<PredicateView>, ParseError>(rules),
        0 <= i < rules.len(),
    ensures
        pattern_valid(rules[i].pattern),
        !rules[i].pattern.contains('\n'),
{
    let all = lines(text);
    let line = lemma_predicate_has_a_line(all, all.len(), rules, i);
    lemma_lines_hold_no_line_feed(text, line);
    let pattern = rules[i].pattern;
    if pattern.contains('\n') {
        let at = choose|at: int| 0 <= at < pattern.len() && pattern[at] == '\n';
        if rules[i].polarity == Polarity::Forbid {
            assert(all[line][at + 3] == '\n');
        } else {
            assert(all[line][at + 2] == '\n');
        }
    }
}

/// A rule set that requires one pattern and forbids another is satisfied by
/// exactly the messages in which the first is found and the second is not.
pub proof fn lemma_require_and_forbid(
    required: Seq<char>,
    forbidden: Seq<char>,
    message: Seq<char>,
)
    ensures
        rules_match(
            seq![
                PredicateView { polarity: Polarity::Require, pattern: required },
                PredicateView { polarity: Polarity::Forbid, pattern: forbidden },
            ],
            message,
        ) <==> pattern_matches(required, message) && !pattern_matches(forbidden, message),
{
    let rules = seq![
        PredicateView { polarity: Polarity::Require, pattern: required },
        PredicateView { polarity: Polarity::Forbid, pattern: forbidden },
    ];
    assert(rules.len() == 2);
    if rules_match(rules, message) {
        assert(predicate_holds(rules[0], message));
        assert(predicate_holds(rules[1], message));
    }
}

/// A response that was never given is past its cooldown at every time from
/// the epoch on, for every cooldown whose milliseconds can be counted.
pub proof fn lemma_never_is_past_every_cooldown(now: i64, cooldown: i64)
    requires
        now >= 0,
        cooldown <= i64::MAX / 1000,
    ensures
        !cooldown_blocked(NEVER, now, cooldown),
{
}

/// A response without rules that was never given, with a hit rate of 1, is
/// given to every message, the empty message among them.
pub proof fn lemma_new_response_without_rules_is_given(
    response: ResponseView,
    defaults: DefaultsView,
    message: Seq<char>,
    now: i64,
    draw: u64,
)
    requires
        response.rules.len() == 0,
        response.last_triggered == NEVER,
        response.hit_rate_under(defaults) == UNIT_BITS,
        draw < UNIT_BITS,
        now >= 0,
        response.cooldown_under(defaults) <= i64::MAX / 1000,
    ensures
        response.selected(defaults, message, now, draw),
{
    lemma_never_is_past_every_cooldown(now, response.cooldown_under(defaults));
}

/// A response that was never given, with a hit rate of 1, whose rules
/// require one pattern and forbid another, is given to exactly the messages
/// in which the first pattern is found and the second is not.
pub proof fn lemma_new_response_with_two_rules(
    response: ResponseView,
    defaults: DefaultsView,
    required: Seq<char>,
    forbidden: Seq<char>,
    message: Seq<char>,
    now: i64,
    draw: u64,
)
    requires
        response.rules == seq![
            PredicateView { polarity: Polarity::Require, pattern: required },
            PredicateView { polarity: Polarity::Forbid, pattern: forbidden },
        ],
        response.last_triggered == NEVER,
        response.hit_rate_under(defaults) == UNIT_BITS,
        draw < UNIT_BITS,
        now >= 0,
        response.cooldown_under(defaults) <= i64::MAX / 1000,
    ensures
        response.selected(defaults, message, now, draw) <==> pattern_matches(required, message)
            && !pattern_matches(forbidden, message),
{
    lemma_never_is_past_every_cooldown(now, response.cooldown_under(defaults));
    lemma_require_and_forbid(required, forbidden, message);
}

/// Cooldown: a response that was given at `first` is not given again at
/// `second`, whatever the draw, while no more than its cooldown has passed
/// and the message does not hold the text that skips the cooldown.
pub proof fn lemma_cooldown_blocks_the_next(
    response: ResponseView,
    defaults: DefaultsView,
    message: Seq<char>,
    first: i64,
    second: i64,
    first_draw: u64,
    second_draw: u64,
)
    requires
        response.selected(defaults, message, first, first_draw),
        second - first <= response.cooldown_under(defaults) * 1000,
        !contains_token(message, defaults.skip_duration_text),
    ensures
        response.after(defaults, message, first, first_draw) == response.triggered_at(first),
        !response.after(defaults, message, first, first_draw).selected(
            defaults,
            message,
            second,
            second_draw,
        ),
{
    let later = response.triggered_at(first);
    assert(later.cooldown_under(defaults) == response.cooldown_under(defaults));
    assert(cooldown_blocked(later.last_triggered, second, later.cooldown_under(defaults)));
}

/// The text that skips the cooldown: with a hit rate of 1, a message that
/// satisfies the rules and holds the text is given the response at every
/// time, whenever the response was last given.
pub proof fn lemma_skip_text_passes_the_cooldown(
    response: ResponseView,
    defaults: DefaultsView,
    message: Seq<char>,
    now: i64,
    draw: u64,
)
    requires
        rules_match(response.rules, message),
        contains_token(message, defaults.skip_duration_text),
        response.hit_rate_under(defaults) == UNIT_BITS,
        draw < UNIT_BITS,
    ensures
        response.selected(defaults, message, now, draw),
{
}

/// A hit rate of 1 never misses: a message that satisfies the rules is
/// given the response whenever the cooldown is over.
pub proof fn lemma_hit_rate_one_always_hits(
    response: ResponseView,
    defaults: DefaultsView,
    message: Seq<char>,
    now: i64,
    draw: u64,
)
    requires
        rules_match(response.rules, message),
        !cooldown_blocked(response.last_triggered, now, response.cooldown_under(defaults)),
        response.hit_rate_under(defaults) == UNIT_BITS,
        draw < UNIT_BITS,
    ensures
        response.selected(defaults, message, now, draw),
{
}

/// A hit rate of 0 misses every draw but the draw 0: no message without the
/// text that skips the hit rate is given the response.
pub proof fn lemma_hit_rate_zero_never_hits(
    response: ResponseView,
    defaults: DefaultsView,
    message: Seq<char>,
    now: i64,
    draw: u64,
)
    requires
        response.hit_rate_under(defaults) == 0,
        draw > 0,
        !contains_token(message, defaults.skip_hit_rate_text),
    ensures
        !response.selected(defaults, message, now, draw),
{
}

/// What `first_selected` finds from `from` on: the first position at which a
/// response is selected, or nothing where none is.
pub proof fn lemma_first_selected(
    responses: Seq<ResponseView>,
    defaults: DefaultsView,
    message: Seq<char>,
    now: i64,
    draws: Seq<u64>,
    from: int,
)
    requires
        0 <= from,
    ensures
        match first_selected(responses, defaults, message, now, draws, from) {
            Some(hit) => {
                &&& from <= hit < responses.len()
                &&& hit < draws.len()
                &&& responses[hit].selected(defaults, message, now, draws[hit])
                &&& forall|j: int|
                    from <= j < hit ==> !(#[trigger] responses[j]).selected(
                        defaults,
                        message,
                        now,
                        draws[j],
                    )
            },
            None => forall|j: int|
                from <= j < responses.len() && j < draws.len() ==> !(#[trigger] responses[j]).selected(
                    defaults,
                    message,
                    now,
                    draws[j],
                ),
        },
    decreases responses.len() - from,
{
    if from < responses.len() && from < draws.len() && !responses[from].selected(
        defaults,
        message,
        now,
        draws[from],
    ) {
        lemma_first_selected(responses, defaults, message, now, draws, from + 1);
    }
}

/// First match wins: of two responses that are both selected for a message,
/// the later one is never the one that is given.
pub proof fn lemma_earlier_response_wins(
    responses: Seq<ResponseView>,
    defaults: DefaultsView,
    message: Seq<char>,
    now: i64,
    draws: Seq<u64>,
    earlier: int,
    later: int,
)
    requires
        0 <= earlier < later < responses.len(),
        later < draws.len(),
        responses[earlier].selected(defaults, message, now, draws[earlier]),
        responses[later].selected(defaults, message, now, draws[later]),
    ensures
        first_selected(responses, defaults, message, now, draws, 0) matches Some(hit) && hit
            <= earlier,
        (forall|j: int|
            0 <= j < earlier ==> !(#[trigger] responses[j]).selected(
                defaults,
                message,
                now,
                draws[j],
            )) ==> first_selected(responses, defaults, message, now, draws, 0) == Some(earlier),
{
    lemma_first_selected(responses, defaults, message, now, draws, 0);
}

} // verus!
