//! The detectors that are built into the bot: a table of names, each with a
//! pattern and a canned reply, under one cooldown that each name keeps for
//! itself.

use crate::data::{Reply, ReplyView};
use crate::pattern::{pattern_matches, pattern_valid};
use crate::ruleset::{Polarity, RulePredicate};
use vstd::prelude::*;
use vstd::string::StringExecFns;

verus! {

/// The canned replies.
#[derive(Clone, Copy, Debug, PartialEq, Eq, Structural)]
pub enum Canned {
    Rust,
    Tkinter,
    Arch,
    Goop,
    Orwell,
}

/// The reply that a canned reply makes of one random number and one random
/// choice between two.
pub open spec fn canned_reply_of(action: Canned, roll: u8, flag: bool) -> ReplyView {
    match action {
        Canned::Rust => ReplyView::Text {
            content: if roll % 5 == 1 {
                "RUST MENTIONED :crab: :crab: :crab:"@
            } else if roll % 5 == 2 {
                "<@216767618923757568>"@
            } else if roll % 5 == 3 {
                "Rust is simply the best programming language. Nothing else can compare. I am naming my kids Rust and Ferris."@
            } else if roll % 5 == 4 {
                "Launch the Polaris,\nthe end doesn't scare us\nWhen will this cease?\nThe warheads will all rust in peace!"@
            } else {
                "Rust? Oh, you mean the game?"@
            },
        },
        Canned::Tkinter => ReplyView::TextAndImage {
            content: "TKINTER MENTIONED"@,
            path: "./assets/tkinter.png"@,
        },
        Canned::Arch => ReplyView::Text { content: "I use Arch btw"@ },
        Canned::Goop => ReplyView::Text {
            content: if flag {
                "https://tenor.com/view/gunge-gunged-slime-slimed-dunk-gif-21115557"@
            } else {
                "https://tenor.com/view/goop-goop-house-jello-gif-23114313"@
            },
        },
        Canned::Orwell => ReplyView::Text { content: "https://tenor.com/view/1984-gif-19260546"@ },
    }
}

/// The reply that a canned reply makes.
pub fn canned_reply(action: Canned, roll: u8, flag: bool) -> (reply: Reply)
    ensures
        reply@ == canned_reply_of(action, roll, flag),
{
    match action {
        Canned::Rust => {
            let i: u8 = roll % 5;
            let content = if i == 1 {
                "RUST MENTIONED :crab: :crab: :crab:"
            } else if i == 2 {
                "<@216767618923757568>"
            } else if i == 3 {
                "Rust is simply the best programming language. Nothing else can compare. I am naming my kids Rust and Ferris."
            } else if i == 4 {
                "Launch the Polaris,\nthe end doesn't scare us\nWhen will this cease?\nThe warheads will all rust in peace!"
            } else {
                "Rust? Oh, you mean the game?"
            };
            Reply::Text { content: String::from_str(content) }
        },
        Canned::Tkinter => Reply::TextAndImage {
            content: String::from_str("TKINTER MENTIONED"),
            path: String::from_str("./assets/tkinter.png"),
        },
        Canned::Arch => Reply::Text { content: String::from_str("I use Arch btw") },
        Canned::Goop => {
            let content = if flag {
                "https://tenor.com/view/gunge-gunged-slime-slimed-dunk-gif-21115557"
            } else {
                "https://tenor.com/view/goop-goop-house-jello-gif-23114313"
            };
            Reply::Text { content: String::from_str(content) }
        },
        Canned::Orwell => Reply::Text {
            content: String::from_str("https://tenor.com/view/1984-gif-19260546"),
        },
    }
}

/// Whether the cooldown of a name still holds at `timestamp`: no more than
/// the cooldown in seconds has passed since the name last replied.
pub open spec fn cooling_down(last_message: i64, cooldown: i64, timestamp: i64) -> bool {
    last_message + cooldown * 1000 >= timestamp
}

/// Checks whether the cooldown is met at `timestamp`. Where it is, the name
/// counts as having replied at `timestamp`; where it is not, nothing
/// changes.
pub fn cooldown_checker(last_message: &mut i64, cooldown: i64, timestamp: i64) -> (met: bool)
    ensures
        met == !cooling_down(*old(last_message), cooldown, timestamp),
        *final(last_message) == if met {
            timestamp
        } else {
            *old(last_message)
        },
{
    let ready: i128 = *last_message as i128 + cooldown as i128 * 1000;
    if ready >= timestamp as i128 {
        return false;
    }
    *last_message = timestamp;
    true
}

/// One detector: a name, the pattern that a message has to hold, the canned
/// reply, and the time at which the name last replied.
#[derive(Debug)]
pub struct Detector {
    name: String,
    rule: RulePredicate,
    action: Canned,
    last_response: i64,
}

/// A detector as the contracts see it.
pub struct DetectorView {
    pub name: Seq<char>,
    pub pattern: Seq<char>,
    pub action: Canned,
    pub last_response: i64,
}

impl View for Detector {
    type V = DetectorView;

    closed spec fn view(&self) -> DetectorView {
        DetectorView {
            name: self.name@,
            pattern: self.rule@.pattern,
            action: self.action,
            last_response: self.last_response,
        }
    }
}

impl Detector {
    #[verifier::type_invariant]
    spec fn requires_its_pattern(&self) -> bool {
        self.rule@.polarity == Polarity::Require
    }

    pub fn name(&self) -> (name: &str)
        ensures
            name@ == self@.name,
    {
        self.name.as_str()
    }

    pub fn pattern(&self) -> (pattern: &str)
        ensures
            pattern@ == self@.pattern,
    {
        self.rule.pattern()
    }

    pub fn action(&self) -> (action: Canned)
        ensures
            action == self@.action,
    {
        self.action
    }

    pub fn last_response(&self) -> (time: i64)
        ensures
            time == self@.last_response,
    {
        self.last_response
    }
}

/// The table of detectors, and the cooldown in seconds that each of them
/// keeps.
#[derive(Debug)]
pub struct Detectors {
    entries: Vec<Detector>,
    cooldown: i64,
}

/// A table of detectors as the contracts see it.
pub struct DetectorsView {
    pub entries: Seq<DetectorView>,
    pub cooldown: i64,
}

impl View for Detectors {
    type V = DetectorsView;

    closed spec fn view(&self) -> DetectorsView {
        DetectorsView {
            entries: Seq::new(self.entries@.len(), |i: int| self.entries@[i]@),
            cooldown: self.cooldown,
        }
    }
}

/// The time of a name that has not replied yet.
pub const NO_RESPONSE: i64 = i64::MIN;

impl DetectorsView {
    /// The table with one more detector, where its pattern is a regular
    /// expression; else the table as it is.
    pub open spec fn with(self, name: Seq<char>, pattern: Seq<char>, action: Canned) -> Self {
        if pattern_valid(pattern) {
            DetectorsView {
                entries: self.entries.push(
                    DetectorView { name, pattern, action, last_response: NO_RESPONSE },
                ),
                ..self
            }
        } else {
            self
        }
    }

    /// The table with the detectors that are built in.
    pub open spec fn with_built_in(self) -> Self {
        self.with("rust"@, "rust"@, Canned::Rust).with("tkinter"@, "tkinter"@, Canned::Tkinter).with(
            "arch"@,
            "arch"@,
            Canned::Arch,
        ).with("goop"@, "goop"@, Canned::Goop).with("1984"@, "1984"@, Canned::Orwell)
    }

    /// The position of the first detector, from `from` on, whose pattern is
    /// found in a message.
    pub open spec fn first_match(self, message: Seq<char>, from: int) -> Option<int>
        decreases self.entries.len() - from,
    {
        if from < 0 || from >= self.entries.len() {
            None
        } else if pattern_matches(self.entries[from].pattern, message) {
            Some(from)
        } else {
            self.first_match(message, from + 1)
        }
    }

    /// Whether a message at `timestamp` is replied to: a detector matches,
    /// and the cooldown of the first that does is met.
    pub open spec fn replies(self, message: Seq<char>, timestamp: i64) -> bool {
        self.first_match(message, 0) matches Some(hit) && !cooling_down(
            self.entries[hit].last_response,
            self.cooldown,
            timestamp,
        )
    }

    /// The table after a message at `timestamp`: the detector that replied
    /// has done so at `timestamp`, and nothing else has changed.
    pub open spec fn after(self, message: Seq<char>, timestamp: i64) -> Self {
        if self.replies(message, timestamp) {
            let hit = self.first_match(message, 0)->Some_0;
            DetectorsView {
                entries: self.entries.update(
                    hit,
                    DetectorView { last_response: timestamp, ..self.entries[hit] },
                ),
                ..self
            }
        } else {
            self
        }
    }
}

impl Detectors {
    /// An empty table under the given cooldown in seconds.
    pub fn new(cooldown: i64) -> (data: Detectors)
        ensures
            data@ == (DetectorsView { entries: Seq::empty(), cooldown }),
    {
        let data = Detectors { entries: Vec::new(), cooldown };
        assert(data@.entries =~= Seq::empty());
        data
    }

    /// The number of detectors.
    pub fn len(&self) -> (n: usize)
        ensures
            n == self@.entries.len(),
    {
        self.entries.len()
    }

    /// The detector at position `i`.
    pub fn detector(&self, i: usize) -> (detector: &Detector)
        requires
            i < self@.entries.len(),
        ensures
            detector@ == self@.entries[i as int],
    {
        &self.entries[i]
    }

    /// Adds a detector that has not replied yet, where its pattern is a
    /// regular expression, and says whether it did.
    pub fn register(&mut self, name: &str, pattern: &str, action: Canned) -> (added: bool)
        ensures
            added == pattern_valid(pattern@),
            final(self)@ == old(self)@.with(name@, pattern@, action),
    {
        match RulePredicate::new(Polarity::Require, pattern) {
            None => false,
            Some(rule) => {
                let detector = Detector {
                    name: String::from_str(name),
                    rule,
                    action,
                    last_response: NO_RESPONSE,
                };
                self.entries.push(detector);
                assert(self@.entries =~= old(self)@.with(name@, pattern@, action).entries);
                true
            },
        }
    }

    /// The position of the first detector whose pattern is found in a
    /// message.
    pub fn check_should_respond(&self, message: &str) -> (r: Option<usize>)
        ensures
            match r {
                Some(hit) => hit < self@.entries.len() && self@.first_match(message@, 0) == Some(
                    hit as int,
                ),
                None => self@.first_match(message@, 0) == None::<int>,
            },
    {
        let mut i: usize = 0;
        while i < self.entries.len()
            invariant
                i <= self.entries.len(),
                self@.first_match(message@, 0) == self@.first_match(message@, i as int),
            decreases self.entries.len() - i,
        {
            let entry = &self.entries[i];
            proof {
                use_type_invariant(entry);
            }
            if entry.rule.holds(message) {
                return Some(i);
            }
            i += 1;
        }
        None
    }

    /// Decides on the reply to a message at `timestamp`, with the random
    /// number and the random choice that the canned replies draw on: the
    /// first detector that matches replies where its cooldown is met, and
    /// has then replied at `timestamp`.
    pub fn reply_to(&mut self, message: &str, timestamp: i64, roll: u8, flag: bool) -> (r: Option<
        Reply,
    >)
        ensures
            r is Some <==> old(self)@.replies(message@, timestamp),
            r matches Some(reply) ==> reply@ == canned_reply_of(
                old(self)@.entries[old(self)@.first_match(message@, 0)->Some_0].action,
                roll,
                flag,
            ),
            final(self)@ == old(self)@.after(message@, timestamp),
    {
        match self.check_should_respond(message) {
            None => None,
            Some(hit) => {
                let cooldown = self.cooldown;
                let ghost before = self@;
                let entry = &self.entries[hit];
                proof {
                    use_type_invariant(entry);
                }
                let action = entry.action;
                let mut last = entry.last_response;
                if cooldown_checker(&mut last, cooldown, timestamp) {
                    self.entries[hit].last_response = timestamp;
                    assert(self@.entries =~= before.after(message@, timestamp).entries);
                    Some(canned_reply(action, roll, flag))
                } else {
                    None
                }
            },
        }
    }
}

/// Registers the detectors that are built in, each where its pattern is a
/// regular expression.
pub fn register_detectors(data: &mut Detectors)
    ensures
        final(data)@ == old(data)@.with_built_in(),
{
    data.register("rust", "rust", Canned::Rust);
    data.register("tkinter", "tkinter", Canned::Tkinter);
    data.register("arch", "arch", Canned::Arch);
    data.register("goop", "goop", Canned::Goop);
    data.register("1984", "1984", Canned::Orwell);
}

/// A random number. Calls `rand::random`. Nothing is claimed of the number.
#[verifier::external_body]
fn random_number() -> (roll: u8) {
    rand::random::<u8>()
}

/// A random choice between two. Calls `rand::random`. Nothing is claimed of
/// the choice.
#[verifier::external_body]
fn random_choice() -> (flag: bool) {
    rand::random::<bool>()
}

/// Looks at a message that was sent at `timestamp` and decides on the reply
/// as `Detectors::reply_to` does, with a random number and a random choice
/// of its own.
pub fn text_detection(data: &mut Detectors, message: &str, timestamp: i64) -> (r: Option<Reply>)
    ensures
        r is Some <==> old(data)@.replies(message@, timestamp),
        r matches Some(reply) ==> exists|roll: u8, flag: bool|
            reply@ == canned_reply_of(
                old(data)@.entries[old(data)@.first_match(message@, 0)->Some_0].action,
                roll,
                flag,
            ),
        final(data)@ == old(data)@.after(message@, timestamp),
{
    let roll = random_number();
    let flag = random_choice();
    data.reply_to(message, timestamp, roll, flag)
}

} // verus!
