//! What the class commands compute: which roles are class roles, the role
//! that a member names by a class identifier, and the texts that the
//! commands answer with.

use crate::pattern::pattern_matches;
use crate::ruleset::{Polarity, RulePredicate};
use crate::text::{chars_of, contains_token, has_token};
use vstd::prelude::*;
use vstd::string::StringExecFns;
use vstd::string::StringSliceAdditionalSpecFns;
use vstd::utf8::{encode_utf8, is_char_boundary};

verus! {

/// Appends a character to a text: `String::push`, as its documentation
/// describes it.
pub assume_specification[ String::push ](text: &mut String, c: char)
    ensures
        final(text)@ == old(text)@.push(c),
;

/// Whether a character is an ASCII letter.
pub open spec fn is_letter(c: char) -> bool {
    ('a' <= c && c <= 'z') || ('A' <= c && c <= 'Z')
}

/// Whether a character is an ASCII digit.
pub open spec fn is_digit(c: char) -> bool {
    '0' <= c && c <= '9'
}

/// The upper-case form of an ASCII letter; any other character is its own.
pub open spec fn upper(c: char) -> char {
    if 'a' <= c && c <= 'z' {
        ((c as u8 - 32) as u8) as char
    } else {
        c
    }
}

/// The ASCII letters and digits of a text, in their order, the letters in
/// upper case.
pub open spec fn cleaned(input: Seq<char>) -> Seq<char>
    decreases input.len(),
{
    if input.len() == 0 {
        Seq::empty()
    } else {
        let before = cleaned(input.drop_last());
        let c = input.last();
        if is_letter(c) || is_digit(c) {
            before.push(upper(c))
        } else {
            before
        }
    }
}

/// The number of ASCII letters that a text begins with.
pub open spec fn letter_prefix_len(text: Seq<char>) -> int
    decreases text.len(),
{
    if text.len() == 0 || !is_letter(text[0]) {
        0
    } else {
        1 + letter_prefix_len(text.drop_first())
    }
}

/// The name of a class for an identifier as a member types it: the letters
/// that the cleaned identifier begins with, or `CS` where it begins with
/// none, then a space, then the rest of it.
pub open spec fn class_name_of(identifier: Seq<char>) -> Seq<char> {
    let clean = cleaned(identifier);
    let k = letter_prefix_len(clean);
    (if k == 0 {
        seq!['C', 'S']
    } else {
        clean.take(k)
    }) + seq![' '] + clean.skip(k)
}

/// The letters that a text begins with end where its first other character
/// stands.
proof fn lemma_letter_prefix_len(text: Seq<char>, k: int)
    requires
        0 <= k <= text.len(),
        forall|j: int| 0 <= j < k ==> is_letter(text[j]),
        k < text.len() ==> !is_letter(text[k]),
    ensures
        letter_prefix_len(text) == k,
    decreases text.len(),
{
    if k > 0 {
        let rest = text.drop_first();
        assert forall|j: int| 0 <= j < k - 1 implies is_letter(rest[j]) by {
            assert(rest[j] == text[j + 1]);
        }
        if k < text.len() {
            assert(rest[k - 1] == text[k]);
        }
        lemma_letter_prefix_len(rest, k - 1);
    }
}

/// The upper-case form of an ASCII letter; any other character is its own.
pub fn to_upper(c: char) -> (u: char)
    ensures
        u == upper(c),
{
    if 'a' <= c && c <= 'z' {
        ((c as u8) - 32) as char
    } else {
        c
    }
}

/// The name of the class that a member means by `identifier`: `cs 2420`,
/// `CS2420` and `2420` all name `CS 2420`.
pub fn class_name(identifier: &str) -> (name: String)
    ensures
        name@ == class_name_of(identifier@),
{
    let input = chars_of(identifier);
    let mut clean: Vec<char> = Vec::new();
    let mut i: usize = 0;
    while i < input.len()
        invariant
            i <= input.len(),
            clean@ == cleaned(input@.take(i as int)),
        decreases input.len() - i,
    {
        let c = input[i];
        assert(input@.take(i + 1).drop_last() =~= input@.take(i as int));
        if ('a' <= c && c <= 'z') || ('A' <= c && c <= 'Z') || ('0' <= c && c <= '9') {
            clean.push(to_upper(c));
        }
        i += 1;
    }
    assert(input@.take(input.len() as int) =~= input@);
    let mut k: usize = 0;
    while k < clean.len() && (('a' <= clean[k] && clean[k] <= 'z') || ('A' <= clean[k] && clean[k]
        <= 'Z'))
        invariant
            k <= clean.len(),
            forall|j: int| 0 <= j < k ==> is_letter(clean@[j]),
        decreases clean.len() - k,
    {
        k += 1;
    }
    proof {
        lemma_letter_prefix_len(clean@, k as int);
    }
    let mut name = String::new();
    if k == 0 {
        name.push('C');
        name.push('S');
    } else {
        let mut j: usize = 0;
        while j < k
            invariant
                j <= k <= clean.len(),
                name@ == clean@.take(j as int),
            decreases k - j,
        {
            name.push(clean[j]);
            assert(clean@.take(j + 1) =~= clean@.take(j as int).push(clean@[j as int]));
            j += 1;
        }
    }
    let ghost head = name@;
    name.push(' ');
    let mut j: usize = k;
    while j < clean.len()
        invariant
            k <= j <= clean.len(),
            name@ == head + seq![' '] + clean@.subrange(k as int, j as int),
        decreases clean.len() - j,
    {
        name.push(clean[j]);
        assert(clean@.subrange(k as int, j + 1) =~= clean@.subrange(k as int, j as int).push(
            clean@[j as int],
        ));
        j += 1;
    }
    assert(clean@.subrange(k as int, clean.len() as int) =~= clean@.skip(k as int));
    name
}

/// The pattern of the name of a class role: one word, a space, and a
/// number.
pub open spec fn class_role_pattern() -> Seq<char> {
    "^\\w+ \\d+$"@
}

/// Whether a role of the given name is a class role.
pub open spec fn is_class_role(name: Seq<char>) -> bool {
    pattern_matches(class_role_pattern(), name)
}

/// Whether a role of the given name is a class role that a class name
/// selects: the name of the role holds the class name.
pub open spec fn selects(class: Seq<char>, role: Seq<char>) -> bool {
    is_class_role(role) && contains_token(role, class)
}

/// The positions, among the first `count` names, of the names for which
/// `wanted` holds, in their order.
pub open spec fn positions_of(
    names: Seq<Seq<char>>,
    wanted: spec_fn(Seq<char>) -> bool,
    count: nat,
) -> Seq<usize>
    decreases count,
{
    if count == 0 {
        Seq::empty()
    } else {
        let before = positions_of(names, wanted, (count - 1) as nat);
        if wanted(names[count - 1]) {
            before.push((count - 1) as usize)
        } else {
            before
        }
    }
}

/// The role that a class name selects among roles.
#[derive(Debug, PartialEq, Eq)]
pub enum GetRoleResult {
    /// The one role that was selected, by its position.
    Found(usize),
    /// The roles that were selected, by their positions, where there are
    /// more than one.
    MultipleFound(Vec<usize>),
    /// No role was selected.
    NotFound,
}

/// The result for the positions that were selected.
pub open spec fn result_of(selected: Seq<usize>, r: GetRoleResult) -> bool {
    match r {
        GetRoleResult::NotFound => selected.len() == 0,
        GetRoleResult::Found(position) => selected == seq![position],
        GetRoleResult::MultipleFound(positions) => selected.len() > 1 && positions@ == selected,
    }
}

/// What tells class roles from other roles: the compiled pattern of their
/// names.
#[derive(Debug)]
pub struct ClassRoles {
    rule: RulePredicate,
}

impl ClassRoles {
    #[verifier::type_invariant]
    spec fn holds_the_pattern(&self) -> bool {
        self.rule@.polarity == Polarity::Require && self.rule@.pattern == class_role_pattern()
    }

    /// Compiles the pattern of class roles. Nothing is made where the
    /// pattern is refused.
    pub fn new() -> (r: Option<ClassRoles>)
        ensures
            r is Some <==> crate::pattern::pattern_valid(class_role_pattern()),
    {
        match RulePredicate::new(Polarity::Require, "^\\w+ \\d+$") {
            Some(rule) => Some(ClassRoles { rule }),
            None => None,
        }
    }

    /// Whether a role of the given name is a class role.
    pub fn is_class_role(&self, name: &str) -> (b: bool)
        ensures
            b == is_class_role(name@),
    {
        proof {
            use_type_invariant(self);
        }
        self.rule.holds(name)
    }

    /// The positions of the class roles among roles of the given names, in
    /// the order of the names.
    pub fn get_class_roles(&self, names: &Vec<String>) -> (positions: Vec<usize>)
        ensures
            positions@ == positions_of(
                names.deep_view(),
                |name: Seq<char>| is_class_role(name),
                names.len() as nat,
            ),
    {
        let ghost wanted = |name: Seq<char>| is_class_role(name);
        let mut positions: Vec<usize> = Vec::new();
        let mut i: usize = 0;
        while i < names.len()
            invariant
                i <= names.len(),
                wanted == (|name: Seq<char>| is_class_role(name)),
                positions@ == positions_of(names.deep_view(), wanted, i as nat),
            decreases names.len() - i,
        {
            assert(names.deep_view()[i as int] == names@[i as int]@);
            if self.is_class_role(names[i].as_str()) {
                positions.push(i);
            }
            i += 1;
        }
        positions
    }

    /// Finds the role that a member means by `identifier` among roles of
    /// the given names: the class roles whose names hold the class name of
    /// the identifier.
    pub fn get_role(&self, names: &Vec<String>, identifier: &str) -> (r: GetRoleResult)
        ensures
            result_of(
                positions_of(
                    names.deep_view(),
                    |role: Seq<char>| selects(class_name_of(identifier@), role),
                    names.len() as nat,
                ),
                r,
            ),
    {
        let class = class_name(identifier);
        let wanted_text = chars_of(class.as_str());
        let ghost wanted = |role: Seq<char>| selects(class_name_of(identifier@), role);
        let mut positions: Vec<usize> = Vec::new();
        let mut i: usize = 0;
        while i < names.len()
            invariant
                i <= names.len(),
                wanted_text@ == class_name_of(identifier@),
                wanted == (|role: Seq<char>| selects(class_name_of(identifier@), role)),
                positions@ == positions_of(names.deep_view(), wanted, i as nat),
            decreases names.len() - i,
        {
            assert(names.deep_view()[i as int] == names@[i as int]@);
            if self.is_class_role(names[i].as_str()) && has_token(
                &chars_of(names[i].as_str()),
                &wanted_text,
            ) {
                positions.push(i);
            }
            i += 1;
        }
        if positions.len() == 0 {
            GetRoleResult::NotFound
        } else if positions.len() > 1 {
            GetRoleResult::MultipleFound(positions)
        } else {
            let found = positions[0];
            assert(positions@ =~= seq![found]);
            GetRoleResult::Found(found)
        }
    }
}

/// The first `count` names, each between backticks and followed by a
/// space.
pub open spec fn ticked(names: Seq<Seq<char>>, count: nat) -> Seq<char>
    decreases count,
{
    if count == 0 {
        Seq::empty()
    } else {
        ticked(names, (count - 1) as nat) + "`"@ + names[count - 1] + "` "@
    }
}

/// The first `count` names, each as an item of a list on a line of its own.
pub open spec fn listed(names: Seq<Seq<char>>, count: nat) -> Seq<char>
    decreases count,
{
    if count == 0 {
        Seq::empty()
    } else {
        listed(names, (count - 1) as nat) + "- `"@ + names[count - 1] + "`\n"@
    }
}

/// Appends each name between backticks, followed by a space.
fn append_ticked(text: &mut String, names: &Vec<String>)
    ensures
        final(text)@ == old(text)@ + ticked(names.deep_view(), names.len() as nat),
{
    let mut i: usize = 0;
    assert(text@ =~= old(text)@ + ticked(names.deep_view(), 0));
    while i < names.len()
        invariant
            i <= names.len(),
            text@ == old(text)@ + ticked(names.deep_view(), i as nat),
        decreases names.len() - i,
    {
        assert(names.deep_view()[i as int] == names@[i as int]@);
        let ghost before = text@;
        text.append("`");
        text.append(names[i].as_str());
        text.append("` ");
        assert(text@ =~= old(text)@ + ticked(names.deep_view(), (i + 1) as nat)) by {
            assert(text@ == before + "`"@ + names@[i as int]@ + "` "@);
        }
        i += 1;
    }
}

/// The answer that lists the classes that can be joined.
pub fn list_classes(names: &Vec<String>) -> (text: String)
    ensures
        text@ == "### Classes:\nJoin any of them with `/join_class <role name>`\n\n"@ + ticked(
            names.deep_view(),
            names.len() as nat,
        ),
{
    let mut text = String::from_str(
        "### Classes:\nJoin any of them with `/join_class <role name>`\n\n",
    );
    append_ticked(&mut text, names);
    text
}

/// The answer that lists the classes of a member.
pub fn my_classes(names: &Vec<String>) -> (text: String)
    ensures
        text@ == if names.len() == 0 {
            "You don't have any class roles."@
        } else {
            "Your classes:\n"@ + listed(names.deep_view(), names.len() as nat)
        },
{
    if names.len() == 0 {
        return String::from_str("You don't have any class roles.");
    }
    let mut text = String::from_str("Your classes:\n");
    let mut i: usize = 0;
    assert(text@ =~= "Your classes:\n"@ + listed(names.deep_view(), 0));
    while i < names.len()
        invariant
            i <= names.len(),
            text@ == "Your classes:\n"@ + listed(names.deep_view(), i as nat),
        decreases names.len() - i,
    {
        assert(names.deep_view()[i as int] == names@[i as int]@);
        let ghost before = text@;
        text.append("- `");
        text.append(names[i].as_str());
        text.append("`\n");
        assert(text@ =~= "Your classes:\n"@ + listed(names.deep_view(), (i + 1) as nat)) by {
            assert(text@ == before + "- `"@ + names@[i as int]@ + "`\n"@);
        }
        i += 1;
    }
    text
}

/// The answer to an identifier that selects more than one class.
pub fn multiple_found(identifier: &str, names: &Vec<String>) -> (text: String)
    ensures
        text@ == "Multiple classes found with search \""@ + identifier@ + "\"\n"@ + ticked(
            names.deep_view(),
            names.len() as nat,
        ),
{
    let mut text = String::from_str("Multiple classes found with search \"");
    text.append(identifier);
    text.append("\"\n");
    append_ticked(&mut text, names);
    text
}

/// The answer to an identifier that selects no class.
pub fn not_found(identifier: &str) -> (text: String)
    ensures
        text@ == "Could not find class with identifier \""@ + identifier@ + "\""@,
{
    let mut text = String::from_str("Could not find class with identifier \"");
    text.append(identifier);
    text.append("\"");
    text
}

/// The name of the role of the class with the given number.
pub fn role_name(number: &str) -> (name: String)
    ensures
        name@ == "CS "@ + number@,
{
    let mut name = String::from_str("CS ");
    name.append(number);
    name
}

/// The name of the channel for the resources of a class.
pub fn resources_channel(number: &str) -> (name: String)
    ensures
        name@ == number@ + "-resources"@,
{
    let mut name = String::from_str(number);
    name.append("-resources");
    name
}

/// The name of the general channel of a class.
pub fn general_channel(number: &str) -> (name: String)
    ensures
        name@ == number@ + "-general"@,
{
    let mut name = String::from_str(number);
    name.append("-general");
    name
}

/// Whether a channel of the given name stands in the way of a class with
/// the given number: its name holds the number, as every name holds the
/// empty number.
pub open spec fn holds_number(name: Seq<char>, number: Seq<char>) -> bool {
    number.len() == 0 || contains_token(name, number)
}

/// Whether a class with the given number seems to exist already: one of the
/// channels has a name that holds the number.
pub fn class_exists(names: &Vec<String>, number: &str) -> (b: bool)
    ensures
        b == exists|i: int|
            0 <= i < names.len() && #[trigger] holds_number(names.deep_view()[i], number@),
{
    let wanted = chars_of(number);
    let mut i: usize = 0;
    while i < names.len()
        invariant
            i <= names.len(),
            wanted@ == number@,
            forall|j: int| 0 <= j < i ==> !holds_number(#[trigger] names.deep_view()[j], number@),
        decreases names.len() - i,
    {
        assert(names.deep_view()[i as int] == names@[i as int]@);
        if wanted.len() == 0 || has_token(&chars_of(names[i].as_str()), &wanted) {
            assert(holds_number(names.deep_view()[i as int], number@));
            return true;
        }
        i += 1;
    }
    false
}

/// Whether a text can be cut to `limit` bytes of its UTF-8 form: it has no
/// more bytes, or one of its characters begins at that byte.
pub open spec fn can_cut(text: Seq<char>, limit: nat) -> bool {
    encode_utf8(text).len() <= limit || is_char_boundary(encode_utf8(text), limit as int)
}

/// The UTF-8 form of a text, cut to its first `limit` bytes.
pub open spec fn cut_of(text: Seq<char>, limit: nat) -> Seq<u8> {
    if encode_utf8(text).len() <= limit {
        encode_utf8(text)
    } else {
        encode_utf8(text).subrange(0, limit as int)
    }
}

/// Whether a text can be cut to `limit` bytes.
pub fn is_cuttable(text: &str, limit: usize) -> (b: bool)
    ensures
        b == can_cut(text@, limit as nat),
{
    text.as_bytes().len() <= limit || text.is_char_boundary(limit)
}

/// A text cut to the first `limit` bytes of its UTF-8 form, where no
/// character is cut in two by that.
pub fn cut(text: &str, limit: usize) -> (r: String)
    requires
        can_cut(text@, limit as nat),
    ensures
        encode_utf8(r@) == cut_of(text@, limit as nat),
{
    if text.as_bytes().len() <= limit {
        String::from_str(text)
    } else {
        let (head, _) = text.split_at(limit);
        String::from_str(head)
    }
}

/// The name of a role, followed by the long name of its course.
pub open spec fn long_category_name_of(role_name: Seq<char>, long_name: Seq<char>) -> Seq<char> {
    role_name + " - "@ + long_name
}

/// The name of a role, followed by the long name of its course.
pub fn long_category_name(role_name: &str, long_name: &str) -> (name: String)
    ensures
        name@ == long_category_name_of(role_name@, long_name@),
{
    let mut name = String::from_str(role_name);
    name.append(" - ");
    name.append(long_name);
    name
}

/// The name of the category of a class: the name of its role where the
/// course is not known, else that name followed by the long name of the
/// course, cut to 100 bytes.
pub fn category_name(role_name: &str, long_name: Option<&str>) -> (name: String)
    requires
        long_name matches Some(long) ==> can_cut(long_category_name_of(role_name@, long@), 100),
    ensures
        match long_name {
            Some(long) => encode_utf8(name@) == cut_of(
                long_category_name_of(role_name@, long@),
                100,
            ),
            None => name@ == role_name@,
        },
{
    match long_name {
        None => String::from_str(role_name),
        Some(long) => {
            let name = long_category_name(role_name, long);
            cut(name.as_str(), 100)
        },
    }
}

/// The topic of the general channel of a class: the description of its
/// course, cut to 1024 bytes, or nothing where the course is not known.
pub fn channel_topic(description: Option<&str>) -> (topic: String)
    requires
        description matches Some(text) ==> can_cut(text@, 1024),
    ensures
        match description {
            Some(text) => encode_utf8(topic@) == cut_of(text@, 1024),
            None => topic@ == Seq::<char>::empty(),
        },
{
    match description {
        None => String::new(),
        Some(text) => cut(text, 1024),
    }
}

} // verus!
