//! Reply lines: splitting at the first space and telling the three kinds of
//! reply apart.

use vstd::prelude::*;
use vstd::string::*;

verus! {

/// `i` is the position of the first space of `s`.
pub open spec fn first_space_at(s: Seq<char>, i: int) -> bool {
    &&& 0 <= i < s.len()
    &&& s[i] == ' '
    &&& forall|j: int| 0 <= j < i ==> s[j] != ' '
}

/// `s` holds a space somewhere.
pub open spec fn has_space(s: Seq<char>) -> bool {
    exists|i: int| 0 <= i < s.len() && s[i] == ' '
}

/// The text before the first space of `s` and the text after it, or `None`
/// where `s` holds no space.
pub open spec fn split_first_space(s: Seq<char>) -> Option<(Seq<char>, Seq<char>)> {
    if exists|i: int| first_space_at(s, i) {
        let i = choose|i: int| first_space_at(s, i);
        Some((s.subrange(0, i), s.subrange(i + 1, s.len() as int)))
    } else {
        None
    }
}

/// A sequence has at most one first space.
pub proof fn lemma_first_space_unique(s: Seq<char>, i: int, j: int)
    requires
        first_space_at(s, i),
        first_space_at(s, j),
    ensures
        i == j,
{
    if i < j {
        assert(s[i] != ' ');
    } else if j < i {
        assert(s[j] != ' ');
    }
}

/// Knowing where the first space is settles the split.
pub proof fn lemma_split_at(s: Seq<char>, i: int)
    requires
        first_space_at(s, i),
    ensures
        split_first_space(s) == Some((s.subrange(0, i), s.subrange(i + 1, s.len() as int))),
{
    let k = choose|k: int| first_space_at(s, k);
    lemma_first_space_unique(s, i, k);
}

/// A sequence without a space does not split.
pub proof fn lemma_no_split(s: Seq<char>)
    requires
        !has_space(s),
    ensures
        split_first_space(s).is_none(),
{
    if exists|i: int| first_space_at(s, i) {
        let i = choose|i: int| first_space_at(s, i);
        assert(0 <= i < s.len() && s[i] == ' ');
    }
}

/// Splits `line` at its first space.
///
/// Returns the text before that space and the text after it; the space itself
/// belongs to neither. A line without a space gives `None`.
pub fn split_once_space(line: &str) -> (parts: Option<(String, String)>)
    ensures
        match parts {
            Some((token, rest)) => split_first_space(line@) == Some((token@, rest@)),
            None => split_first_space(line@).is_none() && !has_space(line@),
        },
{
    let n: usize = line.unicode_len();
    let mut i: usize = 0;
    while i < n
        invariant
            n == line@.len(),
            i <= n,
            forall|j: int| 0 <= j < i ==> line@[j] != ' ',
        decreases n - i,
    {
        if line.get_char(i) == ' ' {
            proof {
                lemma_split_at(line@, i as int);
            }
            let token = String::from_str(line.substring_char(0, i));
            let rest = String::from_str(line.substring_char(i + 1, n));
            return Some((token, rest));
        }
        i = i + 1;
    }
    proof {
        lemma_no_split(line@);
    }
    None
}

/// What a reply line says about the command it answers.
#[derive(Clone, Copy, Debug, PartialEq, Eq, Hash, Structural)]
pub enum Verdict {
    /// The line begins with the token `OK:` and a space.
    Success,
    /// The line begins with the token `ERROR:` and a space.
    Failure,
    /// Any other line, one without a space included.
    Unrecognized,
}

/// A reply line after classification.
#[derive(Clone, Debug, PartialEq, Eq, Hash)]
pub struct Reply {
    /// The kind of the reply.
    pub verdict: Verdict,
    /// The message after the token for `Success` and `Failure`; the whole
    /// line, untouched, for `Unrecognized`.
    pub text: String,
}

/// Mathematical value of a [`Reply`].
pub struct ReplyView {
    pub verdict: Verdict,
    pub text: Seq<char>,
}

impl View for Reply {
    type V = ReplyView;

    open spec fn view(&self) -> ReplyView {
        ReplyView { verdict: self.verdict, text: self.text@ }
    }
}

/// The classification of a reply line: the token before the first space
/// decides, and only the exact tokens `OK:` and `ERROR:` are recognised.
pub open spec fn classify_line(line: Seq<char>) -> ReplyView {
    match split_first_space(line) {
        Some((token, message)) => {
            if token == "OK:"@ {
                ReplyView { verdict: Verdict::Success, text: message }
            } else if token == "ERROR:"@ {
                ReplyView { verdict: Verdict::Failure, text: message }
            } else {
                ReplyView { verdict: Verdict::Unrecognized, text: line }
            }
        },
        None => ReplyView { verdict: Verdict::Unrecognized, text: line },
    }
}

/// Classifies one reply line.
pub fn classify(line: &str) -> (reply: Reply)
    ensures
        reply@ == classify_line(line@),
{
    match split_once_space(line) {
        Some((token, message)) => {
            if token == String::from_str("OK:") {
                Reply { verdict: Verdict::Success, text: message }
            } else if token == String::from_str("ERROR:") {
                Reply { verdict: Verdict::Failure, text: message }
            } else {
                Reply { verdict: Verdict::Unrecognized, text: String::from_str(line) }
            }
        },
        None => Reply { verdict: Verdict::Unrecognized, text: String::from_str(line) },
    }
}

/// A line without a space is never taken apart: it is unrecognised and kept
/// whole.
pub proof fn lemma_spaceless_line_is_unrecognized(line: Seq<char>)
    requires
        !has_space(line),
    ensures
        classify_line(line) == (ReplyView { verdict: Verdict::Unrecognized, text: line }),
{
    lemma_no_split(line);
}

/// Whatever the line, an unrecognised reply carries the line itself, and a
/// recognised one carries what follows the first space.
pub proof fn lemma_classified_text(line: Seq<char>)
    ensures
        classify_line(line).verdict == Verdict::Unrecognized ==> classify_line(line).text == line,
        classify_line(line).verdict != Verdict::Unrecognized ==> {
            &&& split_first_space(line).is_some()
            &&& classify_line(line).text == split_first_space(line).unwrap().1
        },
{
}

/// A token followed by a space and a message splits back into the two, as
/// long as the token itself is free of spaces.
pub proof fn lemma_split_joined(token: Seq<char>, message: Seq<char>)
    requires
        !has_space(token),
    ensures
        split_first_space(token + seq![' '] + message) == Some((token, message)),
{
    let line = token + seq![' '] + message;
    let i = token.len() as int;
    assert(line[i] == ' ');
    assert forall|j: int| 0 <= j < i implies line[j] != ' ' by {
        assert(line[j] == token[j]);
    }
    lemma_split_at(line, i);
    assert(line.subrange(0, i) =~= token);
    assert(line.subrange(i + 1, line.len() as int) =~= message);
}

} // verus!
