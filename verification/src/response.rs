//! Registered responses: what each of them sends, the rules and gates under
//! which it is given, and the decision for one message.

use crate::gating::{
    cooldown_blocked, is_cooldown_blocked, is_missed, missed, Draw, HitRate, NEVER, UNIT_BITS,
};
use crate::ruleset::{parse_rules, rules_match, ParseError, PredicateView, Ruleset};
use crate::text::{chars_of, contains_token, has_token};
use std::sync::Arc;
use vstd::prelude::*;
use vstd::string::StringExecFns;

verus! {

/// What a response sends.
#[derive(Debug)]
#[allow(inconsistent_fields)]
pub enum ResponseKind {
    /// There is no response.
    Nothing,
    /// A text response.
    Text { content: String },
    /// A random text response: one of the texts, each as likely as the other.
    RandomText { content: Vec<String> },
    /// An image response.
    Image { path: String },
    /// A text and image response.
    TextAndImage { content: String, path: String },
}

/// What a response sends, as the contracts see it.
#[allow(inconsistent_fields)]
pub enum ContentView {
    Nothing,
    Text { content: Seq<char> },
    RandomText { content: Seq<Seq<char>> },
    Image { path: Seq<char> },
    TextAndImage { content: Seq<char>, path: Seq<char> },
}

impl View for ResponseKind {
    type V = ContentView;

    open spec fn view(&self) -> ContentView {
        match *self {
            ResponseKind::Nothing => ContentView::Nothing,
            ResponseKind::Text { content } => ContentView::Text { content: content@ },
            ResponseKind::RandomText { content } => ContentView::RandomText {
                content: content.deep_view(),
            },
            ResponseKind::Image { path } => ContentView::Image { path: path@ },
            ResponseKind::TextAndImage { content, path } => ContentView::TextAndImage {
                content: content@,
                path: path@,
            },
        }
    }
}

impl Default for ResponseKind {
    fn default() -> (kind: ResponseKind)
        ensures
            kind == ResponseKind::Nothing,
    {
        ResponseKind::Nothing
    }
}

/// A copy of each of the given texts, in their order.
pub fn copy_texts(texts: &Vec<String>) -> (copy: Vec<String>)
    ensures
        copy@ == texts@,
        copy.deep_view() == texts.deep_view(),
{
    let mut copy: Vec<String> = Vec::new();
    let mut i: usize = 0;
    while i < texts.len()
        invariant
            i <= texts.len(),
            copy@ == texts@.take(i as int),
        decreases texts.len() - i,
    {
        copy.push(texts[i].clone());
        i += 1;
    }
    assert(copy@ =~= texts@);
    assert(copy.deep_view() =~= texts.deep_view());
    copy
}

impl Clone for ResponseKind {
    fn clone(&self) -> (copy: ResponseKind)
        ensures
            copy@ == self@,
    {
        match self {
            ResponseKind::Nothing => ResponseKind::Nothing,
            ResponseKind::Text { content } => ResponseKind::Text { content: content.clone() },
            ResponseKind::RandomText { content } => ResponseKind::RandomText {
                content: copy_texts(content),
            },
            ResponseKind::Image { path } => ResponseKind::Image { path: path.clone() },
            ResponseKind::TextAndImage { content, path } => ResponseKind::TextAndImage {
                content: content.clone(),
                path: path.clone(),
            },
        }
    }
}

/// Whether two texts hold the same characters.
pub fn same_text(left: &String, right: &String) -> (same: bool)
    ensures
        same == (left@ == right@),
{
    *left == *right
}

/// Whether two vectors hold the same texts in the same order.
pub fn same_texts(left: &Vec<String>, right: &Vec<String>) -> (same: bool)
    ensures
        same == (left.deep_view() == right.deep_view()),
{
    if left.len() != right.len() {
        assert(left.deep_view().len() != right.deep_view().len());
        return false;
    }
    let mut i: usize = 0;
    while i < left.len()
        invariant
            i <= left.len(),
            left.len() == right.len(),
            forall|j: int| 0 <= j < i ==> left@[j]@ == right@[j]@,
        decreases left.len() - i,
    {
        if !same_text(&left[i], &right[i]) {
            assert(left.deep_view()[i as int] != right.deep_view()[i as int]);
            return false;
        }
        i += 1;
    }
    assert(left.deep_view() =~= right.deep_view());
    true
}

impl PartialEq for ResponseKind {
    /// Two responses are equal where they are of one kind and send the same
    /// texts and paths.
    fn eq(&self, other: &ResponseKind) -> (same: bool) {
        match (self, other) {
            (ResponseKind::Nothing, ResponseKind::Nothing) => true,
            (ResponseKind::Text { content: a }, ResponseKind::Text { content: b }) => same_text(
                a,
                b,
            ),
            (
                ResponseKind::RandomText { content: a },
                ResponseKind::RandomText { content: b },
            ) => same_texts(a, b),
            (ResponseKind::Image { path: a }, ResponseKind::Image { path: b }) => same_text(a, b),
            (
                ResponseKind::TextAndImage { content: a, path: p },
                ResponseKind::TextAndImage { content: b, path: q },
            ) => same_text(a, b) && same_text(p, q),
            _ => false,
        }
    }
}

impl vstd::std_specs::cmp::PartialEqSpecImpl for ResponseKind {
    open spec fn obeys_eq_spec() -> bool {
        true
    }

    open spec fn eq_spec(&self, other: &ResponseKind) -> bool {
        self@ == other@
    }
}

impl Eq for ResponseKind {

}

/// What holds of every response that does not say otherwise, and the two
/// texts by which a message passes a gate unchecked.
#[derive(Debug)]
pub struct GlobalDefaults {
    /// The cooldown, in seconds, of a response that names none.
    pub default_text_detect_cooldown: i64,
    /// The hit rate of a response that names none.
    pub default_hit_rate: HitRate,
    /// A message that holds this text passes the hit rate unchecked. The
    /// empty text is held by no message.
    pub skip_hit_rate_text: String,
    /// A message that holds this text passes the cooldown unchecked. The
    /// empty text is held by no message.
    pub skip_duration_text: String,
}

/// The defaults as the contracts see them.
pub struct DefaultsView {
    pub default_text_detect_cooldown: i64,
    pub default_hit_rate: u64,
    pub skip_hit_rate_text: Seq<char>,
    pub skip_duration_text: Seq<char>,
}

impl View for GlobalDefaults {
    type V = DefaultsView;

    open spec fn view(&self) -> DefaultsView {
        DefaultsView {
            default_text_detect_cooldown: self.default_text_detect_cooldown,
            default_hit_rate: self.default_hit_rate@,
            skip_hit_rate_text: self.skip_hit_rate_text@,
            skip_duration_text: self.skip_duration_text@,
        }
    }
}

/// How a response fares with one message.
#[derive(Clone, Copy, Debug, PartialEq, Eq, Structural)]
pub enum Outcome {
    /// The message does not satisfy the rules.
    NoMatch,
    /// The cooldown is not over, and the message does not skip it.
    CoolingDown,
    /// The draw missed the hit rate, and the message does not skip it.
    Missed,
    /// The response is given.
    Hit,
}

/// A registered response as the contracts see it.
pub struct ResponseView {
    pub name: Seq<char>,
    /// The bit pattern of the hit rate.
    pub hit_rate: Option<u64>,
    pub rule_text: Seq<char>,
    pub rules: Seq<PredicateView>,
    pub content: ContentView,
    pub cooldown: Option<i64>,
    pub unskippable: bool,
    pub last_triggered: i64,
}

impl ResponseView {
    /// What every response made by this library is: its rules are what its
    /// rule text says, and its hit rate is a number from 0 to 1.
    pub open spec fn valid(self) -> bool {
        &&& parse_rules(self.rule_text) == Ok::<Seq<PredicateView>, ParseError>(self.rules)
        &&& self.hit_rate matches Some(bits) ==> bits <= UNIT_BITS
    }

    /// The cooldown that holds of the response.
    pub open spec fn cooldown_under(self, defaults: DefaultsView) -> i64 {
        match self.cooldown {
            Some(cooldown) => cooldown,
            None => defaults.default_text_detect_cooldown,
        }
    }

    /// The hit rate that holds of the response.
    pub open spec fn hit_rate_under(self, defaults: DefaultsView) -> u64 {
        match self.hit_rate {
            Some(hit_rate) => hit_rate,
            None => defaults.default_hit_rate,
        }
    }

    /// Whether the response passes the cooldown gate: its cooldown is over,
    /// or the message holds the text that skips it.
    pub open spec fn passes_cooldown(
        self,
        defaults: DefaultsView,
        message: Seq<char>,
        now: i64,
    ) -> bool {
        !cooldown_blocked(self.last_triggered, now, self.cooldown_under(defaults))
            || contains_token(message, defaults.skip_duration_text)
    }

    /// Whether the response passes the hit-rate gate: the draw does not miss
    /// its hit rate, or the response can be skipped to and the message holds
    /// the text that does so.
    pub open spec fn passes_hit_rate(
        self,
        defaults: DefaultsView,
        message: Seq<char>,
        draw: u64,
    ) -> bool {
        !missed(draw, self.hit_rate_under(defaults)) || (!self.unskippable && contains_token(
            message,
            defaults.skip_hit_rate_text,
        ))
    }

    /// Whether the response is selected for a message: the message satisfies
    /// its rules, and it passes both gates.
    pub open spec fn selected(
        self,
        defaults: DefaultsView,
        message: Seq<char>,
        now: i64,
        draw: u64,
    ) -> bool {
        &&& rules_match(self.rules, message)
        &&& self.passes_cooldown(defaults, message, now)
        &&& self.passes_hit_rate(defaults, message, draw)
    }

    /// Whether two responses count as equal: they agree in all that a
    /// configuration file declares of a response, which is all but the time
    /// at which they were last given. Rule texts count by the rules that they
    /// make.
    pub open spec fn same_as(self, other: ResponseView) -> bool {
        &&& self.name == other.name
        &&& self.hit_rate == other.hit_rate
        &&& self.rules == other.rules
        &&& self.content == other.content
        &&& self.cooldown == other.cooldown
        &&& self.unskippable == other.unskippable
    }

    /// How the response fares with a message: whether the message fails its
    /// rules, or is stopped at the cooldown gate, or at the hit-rate gate, or
    /// is given the response. The gates are tried in this order.
    pub open spec fn outcome(
        self,
        defaults: DefaultsView,
        message: Seq<char>,
        now: i64,
        draw: u64,
    ) -> Outcome {
        if !rules_match(self.rules, message) {
            Outcome::NoMatch
        } else if !self.passes_cooldown(defaults, message, now) {
            Outcome::CoolingDown
        } else if !self.passes_hit_rate(defaults, message, draw) {
            Outcome::Missed
        } else {
            Outcome::Hit
        }
    }

    /// The response after it was triggered at `now`.
    pub open spec fn triggered_at(self, now: i64) -> ResponseView {
        ResponseView { last_triggered: now, ..self }
    }

    /// The response after one message: triggered at `now` where it was
    /// selected, else as before.
    pub open spec fn after(
        self,
        defaults: DefaultsView,
        message: Seq<char>,
        now: i64,
        draw: u64,
    ) -> ResponseView {
        if self.selected(defaults, message, now, draw) {
            self.triggered_at(now)
        } else {
            self
        }
    }
}

/// One more handle on a shared value. Calls `Arc::clone`, which returns a
/// pointer to the allocation that its argument points to: the two hold the
/// same value.
#[verifier::external_body]
fn share(content: &Arc<ResponseKind>) -> (shared: Arc<ResponseKind>)
    ensures
        shared == *content,
{
    Arc::clone(content)
}

/// A response, the rules under which it is given, and the time at which it
/// was last given.
#[derive(Debug)]
pub struct RegisteredResponse {
    /// The name of the response, which only a reader of logs sees.
    name: String,
    /// The chance that the response is given; the default hit rate where
    /// there is none.
    hit_rate: Option<HitRate>,
    /// The rules that a message has to satisfy.
    ruleset: Ruleset,
    message_response: Arc<ResponseKind>,
    /// When the response was last given.
    last_triggered: i64,
    /// The cooldown in seconds; the default cooldown where there is none.
    cooldown: Option<i64>,
    /// Whether the text that skips the hit rate is ignored.
    unskippable: bool,
}

/// The bit pattern of a hit rate, where there is one.
pub open spec fn rate_bits(hit_rate: Option<HitRate>) -> Option<u64> {
    match hit_rate {
        Some(rate) => Some(rate@),
        None => None,
    }
}

impl View for RegisteredResponse {
    type V = ResponseView;

    closed spec fn view(&self) -> ResponseView {
        ResponseView {
            name: self.name@,
            hit_rate: rate_bits(self.hit_rate),
            rule_text: self.ruleset.source_text(),
            rules: self.ruleset@,
            content: self.message_response@,
            cooldown: self.cooldown,
            unskippable: self.unskippable,
            last_triggered: self.last_triggered,
        }
    }
}

impl RegisteredResponse {
    /// A response that was never triggered.
    pub fn new(
        name: String,
        hit_rate: Option<HitRate>,
        ruleset: Ruleset,
        message_response: ResponseKind,
        cooldown: Option<i64>,
        unskippable: bool,
    ) -> (response: RegisteredResponse)
        ensures
            response@ == (ResponseView {
                name: name@,
                hit_rate: rate_bits(hit_rate),
                rule_text: ruleset.source_text(),
                rules: ruleset@,
                content: message_response@,
                cooldown,
                unskippable,
                last_triggered: NEVER,
            }),
    {
        RegisteredResponse {
            name,
            hit_rate,
            ruleset,
            message_response: Arc::new(message_response),
            last_triggered: NEVER,
            cooldown,
            unskippable,
        }
    }

    /// The name of the response.
    pub fn name(&self) -> (name: &str)
        ensures
            name@ == self@.name,
    {
        self.name.as_str()
    }

    /// The hit rate of the response, where it names one.
    pub fn hit_rate(&self) -> (hit_rate: Option<HitRate>)
        ensures
            rate_bits(hit_rate) == self@.hit_rate,
    {
        self.hit_rate
    }

    /// The rules of the response, which are what its rule text says.
    pub fn ruleset(&self) -> (ruleset: &Ruleset)
        ensures
            ruleset@ == self@.rules,
            ruleset.source_text() == self@.rule_text,
    {
        &self.ruleset
    }

    /// What the response sends.
    pub fn message_response(&self) -> (content: &ResponseKind)
        ensures
            content@ == self@.content,
    {
        &self.message_response
    }

    /// The cooldown of the response in seconds, where it names one.
    pub fn cooldown(&self) -> (cooldown: Option<i64>)
        ensures
            cooldown == self@.cooldown,
    {
        self.cooldown
    }

    /// Whether the text that skips the hit rate is ignored.
    pub fn unskippable(&self) -> (unskippable: bool)
        ensures
            unskippable == self@.unskippable,
    {
        self.unskippable
    }

    /// When the response was last given; `NEVER` where it never was.
    pub fn last_triggered(&self) -> (time: i64)
        ensures
            time == self@.last_triggered,
    {
        self.last_triggered
    }

    /// Decides whether the response is given to a message that arrives at
    /// `now`, with `draw` as the random number of its hit-rate gate. It is
    /// given exactly where the message satisfies the rules and passes both
    /// gates; the response then counts as triggered at `now`. Otherwise
    /// nothing changes.
    pub fn find_valid_response(
        &mut self,
        input: &str,
        defaults: &GlobalDefaults,
        now: i64,
        draw: Draw,
    ) -> (r: Option<Arc<ResponseKind>>)
        ensures
            r is Some <==> old(self)@.selected(defaults@, input@, now, draw@),
            r matches Some(content) ==> content@ == old(self)@.content,
            final(self)@ == old(self)@.after(defaults@, input@, now, draw@),
    {
        let message = chars_of(input);
        let skip_cooldown = has_token(&message, &chars_of(defaults.skip_duration_text.as_str()));
        let skip_hit_rate = has_token(&message, &chars_of(defaults.skip_hit_rate_text.as_str()));
        self.respond_to(input, skip_cooldown, skip_hit_rate, defaults, now, draw)
    }

    /// Says how the response fares with a message that arrives at `now`,
    /// with `draw` as the random number of its hit-rate gate, and changes
    /// nothing. The response is given exactly where the answer is a hit.
    pub fn judge(&self, input: &str, defaults: &GlobalDefaults, now: i64, draw: Draw) -> (o:
        Outcome)
        ensures
            o == self@.outcome(defaults@, input@, now, draw@),
            o == Outcome::Hit <==> self@.selected(defaults@, input@, now, draw@),
    {
        let message = chars_of(input);
        let skip_cooldown = has_token(&message, &chars_of(defaults.skip_duration_text.as_str()));
        let skip_hit_rate = has_token(&message, &chars_of(defaults.skip_hit_rate_text.as_str()));
        self.judge_with(input, skip_cooldown, skip_hit_rate, defaults, now, draw)
    }

    /// `judge`, for a caller that has looked for the two texts in the
    /// message already.
    pub(crate) fn judge_with(
        &self,
        input: &str,
        skip_cooldown: bool,
        skip_hit_rate: bool,
        defaults: &GlobalDefaults,
        now: i64,
        draw: Draw,
    ) -> (o: Outcome)
        requires
            skip_cooldown == contains_token(input@, defaults.skip_duration_text@),
            skip_hit_rate == contains_token(input@, defaults.skip_hit_rate_text@),
        ensures
            o == self@.outcome(defaults@, input@, now, draw@),
            o == Outcome::Hit <==> self@.selected(defaults@, input@, now, draw@),
    {
        if !self.ruleset.matches(input) {
            return Outcome::NoMatch;
        }
        let cooldown = match self.cooldown {
            Some(cooldown) => cooldown,
            None => defaults.default_text_detect_cooldown,
        };
        if is_cooldown_blocked(self.last_triggered, now, cooldown) && !skip_cooldown {
            return Outcome::CoolingDown;
        }
        let hit_rate = match self.hit_rate {
            Some(hit_rate) => hit_rate,
            None => defaults.default_hit_rate,
        };
        if is_missed(draw, hit_rate) && (self.unskippable || !skip_hit_rate) {
            return Outcome::Missed;
        }
        Outcome::Hit
    }

    /// `find_valid_response`, for a caller that has looked for the two
    /// texts in the message already.
    pub(crate) fn respond_to(
        &mut self,
        input: &str,
        skip_cooldown: bool,
        skip_hit_rate: bool,
        defaults: &GlobalDefaults,
        now: i64,
        draw: Draw,
    ) -> (r: Option<Arc<ResponseKind>>)
        requires
            skip_cooldown == contains_token(input@, defaults.skip_duration_text@),
            skip_hit_rate == contains_token(input@, defaults.skip_hit_rate_text@),
        ensures
            r is Some <==> old(self)@.selected(defaults@, input@, now, draw@),
            r matches Some(content) ==> content@ == old(self)@.content,
            final(self)@ == old(self)@.after(defaults@, input@, now, draw@),
    {
        match self.judge_with(input, skip_cooldown, skip_hit_rate, defaults, now, draw) {
            Outcome::Hit => {
                self.last_triggered = now;
                Some(share(&self.message_response))
            },
            _ => None,
        }
    }
}

/// A response as a configuration file declares it.
#[derive(Debug)]
pub struct ResponseEntry {
    pub name: String,
    /// The bit pattern of the hit rate, where the entry names one.
    pub hit_rate: Option<u64>,
    /// The rule text.
    pub ruleset: String,
    pub message_response: ResponseKind,
    /// The cooldown in seconds, where the entry names one.
    pub cooldown: Option<i64>,
    pub unskippable: bool,
}

/// An entry as the contracts see it.
pub struct EntryView {
    pub name: Seq<char>,
    pub hit_rate: Option<u64>,
    pub ruleset: Seq<char>,
    pub message_response: ContentView,
    pub cooldown: Option<i64>,
    pub unskippable: bool,
}

impl View for ResponseEntry {
    type V = EntryView;

    open spec fn view(&self) -> EntryView {
        EntryView {
            name: self.name@,
            hit_rate: self.hit_rate,
            ruleset: self.ruleset@,
            message_response: self.message_response@,
            cooldown: self.cooldown,
            unskippable: self.unskippable,
        }
    }
}

/// Why an entry was refused.
#[derive(Clone, Copy, Debug, PartialEq, Eq, Structural)]
pub enum EntryError {
    /// The hit rate is no number from 0 to 1.
    HitRate,
    /// The rule text was refused.
    Rules(ParseError),
}

/// The response that an entry declares: one that was never triggered. An
/// entry is refused for its hit rate before it is refused for its rules.
pub open spec fn read_entry(entry: EntryView) -> Result<ResponseView, EntryError> {
    if entry.hit_rate matches Some(bits) && bits > UNIT_BITS {
        Err(EntryError::HitRate)
    } else {
        match parse_rules(entry.ruleset) {
            Err(e) => Err(EntryError::Rules(e)),
            Ok(rules) => Ok(
                ResponseView {
                    name: entry.name,
                    hit_rate: entry.hit_rate,
                    rule_text: entry.ruleset,
                    rules,
                    content: entry.message_response,
                    cooldown: entry.cooldown,
                    unskippable: entry.unskippable,
                    last_triggered: NEVER,
                },
            ),
        }
    }
}

/// The entry that declares a response: all of it but the time at which it
/// was last triggered.
pub open spec fn entry_of(response: ResponseView) -> EntryView {
    EntryView {
        name: response.name,
        hit_rate: response.hit_rate,
        ruleset: response.rule_text,
        message_response: response.content,
        cooldown: response.cooldown,
        unskippable: response.unskippable,
    }
}

impl RegisteredResponse {
    /// The response that an entry declares.
    pub fn from_entry(entry: ResponseEntry) -> (r: Result<RegisteredResponse, EntryError>)
        ensures
            match r {
                Ok(response) => read_entry(entry@) == Ok::<ResponseView, EntryError>(response@),
                Err(e) => read_entry(entry@) == Err::<ResponseView, EntryError>(e),
            },
    {
        let hit_rate = match entry.hit_rate {
            None => None,
            Some(bits) => match HitRate::from_bits(bits) {
                None => {
                    return Err(EntryError::HitRate);
                },
                Some(rate) => Some(rate),
            },
        };
        match Ruleset::parse(entry.ruleset.as_str()) {
            Err(e) => Err(EntryError::Rules(e)),
            Ok(ruleset) => Ok(
                RegisteredResponse::new(
                    entry.name,
                    hit_rate,
                    ruleset,
                    entry.message_response,
                    entry.cooldown,
                    entry.unskippable,
                ),
            ),
        }
    }

    /// The entry that declares the response. Read again, it gives the
    /// response as it was before it was first triggered.
    pub fn to_entry(&self) -> (entry: ResponseEntry)
        ensures
            entry@ == entry_of(self@),
            read_entry(entry@) == Ok::<ResponseView, EntryError>(self@.triggered_at(NEVER)),
            self@.valid(),
    {
        let hit_rate = match self.hit_rate {
            None => None,
            Some(rate) => Some(rate.bits()),
        };
        ResponseEntry {
            name: self.name.clone(),
            hit_rate,
            ruleset: String::from_str(self.ruleset.source()),
            message_response: (*self.message_response).clone(),
            cooldown: self.cooldown,
            unskippable: self.unskippable,
        }
    }
}

/// Whether two hit rates that may be absent are the same.
fn same_rate(left: Option<HitRate>, right: Option<HitRate>) -> (same: bool)
    ensures
        same == (rate_bits(left) == rate_bits(right)),
{
    match (left, right) {
        (None, None) => true,
        (Some(a), Some(b)) => a.bits() == b.bits(),
        _ => false,
    }
}

/// Whether two cooldowns that may be absent are the same.
fn same_cooldown(left: Option<i64>, right: Option<i64>) -> (same: bool)
    ensures
        same == (left == right),
{
    match (left, right) {
        (None, None) => true,
        (Some(a), Some(b)) => a == b,
        _ => false,
    }
}

impl PartialEq for RegisteredResponse {
    /// Two responses are equal where they have the same name, hit rate,
    /// rules, content and cooldown, and both or neither can be skipped to.
    /// When they were last given does not count.
    fn eq(&self, other: &RegisteredResponse) -> (same: bool) {
        same_text(&self.name, &other.name) && same_rate(self.hit_rate, other.hit_rate)
            && self.ruleset.eq(&other.ruleset) && (*self.message_response).eq(
            &*other.message_response,
        ) && same_cooldown(self.cooldown, other.cooldown) && self.unskippable
            == other.unskippable
    }
}

impl vstd::std_specs::cmp::PartialEqSpecImpl for RegisteredResponse {
    open spec fn obeys_eq_spec() -> bool {
        true
    }

    open spec fn eq_spec(&self, other: &RegisteredResponse) -> bool {
        self@.same_as(other@)
    }
}

} // verus!
