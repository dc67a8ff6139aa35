//! Text as a sequence of characters: the operations on it that the rule
//! language and the skip tokens need.

use vstd::prelude::*;

verus! {

/// The length of the first line of `text`: the position of its first line
/// feed, or the length of `text` where it holds none.
pub open spec fn first_line_len(text: Seq<char>) -> int
    decreases text.len(),
{
    if text.len() == 0 || text[0] == '\n' {
        0
    } else {
        1 + first_line_len(text.drop_first())
    }
}

/// The lines of `text`: the pieces between its line feeds, in order. A text
/// without a line feed is one line; a text that ends in a line feed has an
/// empty last line.
pub open spec fn lines(text: Seq<char>) -> Seq<Seq<char>>
    decreases text.len(),
{
    let k = first_line_len(text);
    if 0 <= k < text.len() {
        seq![text.take(k)] + lines(text.skip(k + 1))
    } else {
        seq![text]
    }
}

/// Whether `text` begins with `prefix`.
pub open spec fn starts_with(text: Seq<char>, prefix: Seq<char>) -> bool {
    prefix.len() <= text.len() && text.take(prefix.len() as int) == prefix
}

/// Whether `token` stands in `text` at position `at`.
pub open spec fn occurs_at(text: Seq<char>, token: Seq<char>, at: int) -> bool {
    0 <= at && at + token.len() <= text.len() && text.subrange(at, at + token.len()) == token
}

/// Whether `text` holds `token` somewhere, character for character. The
/// empty token stands for "no token" and is held by no text.
pub open spec fn contains_token(text: Seq<char>, token: Seq<char>) -> bool {
    token.len() > 0 && exists|at: int| occurs_at(text, token, at)
}

/// The first line ends at the first line feed, and not before.
pub proof fn lemma_first_line_len(text: Seq<char>)
    ensures
        0 <= first_line_len(text) <= text.len(),
        forall|j: int| 0 <= j < first_line_len(text) ==> text[j] != '\n',
        first_line_len(text) < text.len() ==> text[first_line_len(text)] == '\n',
    decreases text.len(),
{
    if text.len() == 0 || text[0] == '\n' {
    } else {
        let rest = text.drop_first();
        lemma_first_line_len(rest);
        assert forall|j: int| 0 <= j < first_line_len(text) implies text[j] != '\n' by {
            if j > 0 {
                assert(rest[j - 1] == text[j]);
            }
        }
        assert(first_line_len(text) < text.len() ==> rest[first_line_len(rest)]
            == text[first_line_len(text)]);
    }
}

/// A position that no line feed precedes, and that is the end of the text or
/// holds a line feed, is where the first line ends.
pub proof fn lemma_first_line_len_unique(text: Seq<char>, k: int)
    requires
        0 <= k <= text.len(),
        forall|j: int| 0 <= j < k ==> text[j] != '\n',
        k < text.len() ==> text[k] == '\n',
    ensures
        first_line_len(text) == k,
{
    lemma_first_line_len(text);
}

/// Every text has a first line.
pub proof fn lemma_lines_nonempty(text: Seq<char>)
    ensures
        lines(text).len() >= 1,
{
}

/// No line holds a line feed.
pub proof fn lemma_lines_hold_no_line_feed(text: Seq<char>, i: int)
    requires
        0 <= i < lines(text).len(),
    ensures
        !lines(text)[i].contains('\n'),
    decreases text.len(),
{
    lemma_first_line_len(text);
    let k = first_line_len(text);
    if 0 <= k < text.len() {
        if i == 0 {
            assert(lines(text)[0] == text.take(k));
        } else {
            lemma_lines_hold_no_line_feed(text.skip(k + 1), i - 1);
            assert(lines(text)[i] == lines(text.skip(k + 1))[i - 1]);
        }
    } else {
        assert(lines(text)[0] == text);
    }
}

/// The characters of `text`, in order.
pub fn chars_of(text: &str) -> (chars: Vec<char>)
    ensures
        chars@ == text@,
{
    let mut chars: Vec<char> = Vec::new();
    for c in it: text.chars()
        invariant
            it.seq() == text@,
            chars@ == it.seq().take(it.index() as int),
    {
        chars.push(c);
    }
    chars
}

/// Where the line that begins at `start` ends: the position of the next line
/// feed, or the length of `chars`.
pub fn line_end(chars: &Vec<char>, start: usize) -> (end: usize)
    requires
        start <= chars.len(),
    ensures
        start <= end <= chars.len(),
        end - start == first_line_len(chars@.skip(start as int)),
{
    let mut end: usize = start;
    while end < chars.len() && chars[end] != '\n'
        invariant
            start <= end <= chars.len(),
            forall|j: int| start <= j < end ==> chars@[j] != '\n',
        decreases chars.len() - end,
    {
        end += 1;
    }
    proof {
        lemma_first_line_len_unique(chars@.skip(start as int), end - start);
    }
    end
}

/// Whether `token` stands in `text` at `at`.
fn token_at(text: &Vec<char>, token: &Vec<char>, at: usize) -> (b: bool)
    requires
        at + token.len() <= text.len(),
    ensures
        b == occurs_at(text@, token@, at as int),
{
    let ghost window = text@.subrange(at as int, at + token.len());
    let mut j: usize = 0;
    while j < token.len()
        invariant
            at + token.len() <= text.len(),
            j <= token.len(),
            window == text@.subrange(at as int, at + token.len()),
            forall|i: int| 0 <= i < j ==> window[i] == token@[i],
        decreases token.len() - j,
    {
        if text[at + j] != token[j] {
            assert(window[j as int] != token@[j as int]);
            return false;
        }
        j += 1;
    }
    assert(window =~= token@);
    true
}

/// Whether `text` holds `token`: a verbatim search, character for character,
/// that no text passes with the empty token.
pub fn has_token(text: &Vec<char>, token: &Vec<char>) -> (b: bool)
    ensures
        b == contains_token(text@, token@),
{
    if token.len() == 0 || token.len() > text.len() {
        return false;
    }
    let last: usize = text.len() - token.len();
    let mut at: usize = 0;
    while at <= last
        invariant
            0 < token.len() <= text.len(),
            last == text.len() - token.len(),
            at <= last + 1,
            forall|k: int| 0 <= k < at ==> !occurs_at(text@, token@, k),
        decreases last + 1 - at,
    {
        if token_at(text, token, at) {
            return true;
        }
        at += 1;
    }
    false
}

} // verus!
