//! What the player types: the action to take on a cell, and the answer to
//! the question whether to play again.

use vstd::prelude::*;
use vstd::string::*;

verus! {

/// The lower-case form of an ASCII capital letter; any other character
/// unchanged.
pub open spec fn lowered(c: char) -> char {
    if 'A' <= c && c <= 'Z' {
        ((c as u32) + 32) as char
    } else {
        c
    }
}

/// A text with each of its characters lowered.
pub open spec fn lowered_text(text: Seq<char>) -> Seq<char> {
    text.map_values(|c: char| lowered(c))
}

/// Whether a character is white space: a blank, a tab, a line break or one of
/// the other characters that Unicode lists as White_Space.
pub open spec fn is_blank(c: char) -> bool {
    ||| '\u{9}' <= c && c <= '\u{d}'
    ||| c == ' '
    ||| c == '\u{85}'
    ||| c == '\u{a0}'
    ||| c == '\u{1680}'
    ||| '\u{2000}' <= c && c <= '\u{200a}'
    ||| c == '\u{2028}'
    ||| c == '\u{2029}'
    ||| c == '\u{202f}'
    ||| c == '\u{205f}'
    ||| c == '\u{3000}'
}

/// Whether a character is white space.
fn is_blank_char(c: char) -> (blank: bool)
    ensures
        blank == is_blank(c),
{
    ('\u{9}' <= c && c <= '\u{d}') || c == ' ' || c == '\u{85}' || c == '\u{a0}' || c == '\u{1680}'
        || ('\u{2000}' <= c && c <= '\u{200a}') || c == '\u{2028}' || c == '\u{2029}' || c
        == '\u{202f}' || c == '\u{205f}' || c == '\u{3000}'
}

/// Whether the part of `line` from `from` up to `to` is the line without
/// the white space at its ends: all before it and all after it is white
/// space, and it neither starts nor ends with any.
pub open spec fn is_stripped_part(line: Seq<char>, from: int, to: int) -> bool {
    &&& 0 <= from <= to <= line.len()
    &&& forall|i: int| 0 <= i < from ==> is_blank(line[i])
    &&& forall|i: int| to <= i < line.len() ==> is_blank(line[i])
    &&& from < to ==> !is_blank(line[from]) && !is_blank(line[to - 1])
}

/// Whether `answer` is `line` without the white space at its ends.
pub open spec fn strips_to(line: Seq<char>, answer: Seq<char>) -> bool {
    exists|from: int, to: int| #[trigger]
        is_stripped_part(line, from, to) && answer == line.subrange(from, to)
}

/// A line strips to one text and no other.
pub proof fn lemma_strip_is_unique(line: Seq<char>, answer: Seq<char>, other: Seq<char>)
    requires
        strips_to(line, answer),
        strips_to(line, other),
    ensures
        answer == other,
{
    let (from, to) = choose|from: int, to: int| #[trigger]
        is_stripped_part(line, from, to) && answer == line.subrange(from, to);
    let (from2, to2) = choose|from: int, to: int| #[trigger]
        is_stripped_part(line, from, to) && other == line.subrange(from, to);
    if from < to && from2 < to2 {
        assert(from == from2);
        assert(to == to2);
    } else if from < to {
        assert(is_blank(line[from]));
    } else if from2 < to2 {
        assert(is_blank(line[from2]));
    } else {
        assert(answer =~= other);
    }
}

/// A typed line without the white space at its ends: the line break that
/// closes it and any blanks before and after what was typed. White space
/// inside the answer stays.
pub fn strip_line(line: &str) -> (answer: String)
    ensures
        strips_to(line@, answer@),
{
    let length = line.unicode_len();
    let mut from: usize = 0;
    while from < length
        invariant
            length == line@.len(),
            from <= length,
            forall|i: int| 0 <= i < from ==> is_blank(line@[i]),
        ensures
            from < length ==> !is_blank(line@[from as int]),
        decreases length - from,
    {
        if !is_blank_char(line.get_char(from)) {
            break;
        }
        from += 1;
    }
    let mut to: usize = length;
    while to > from
        invariant
            length == line@.len(),
            from <= to <= length,
            forall|i: int| to <= i < length ==> is_blank(line@[i]),
        ensures
            from < to ==> !is_blank(line@[to - 1]),
        decreases to,
    {
        if !is_blank_char(line.get_char(to - 1)) {
            break;
        }
        to -= 1;
    }
    let answer = String::from_str(line.substring_char(from, to));
    assert(is_stripped_part(line@, from as int, to as int));
    answer
}

/// What the player can do to the selected cell.
#[derive(Debug, Clone, Copy, PartialEq, Eq, Structural)]
pub enum Action {
    Reveal,
    Flag,
    Unflag,
    Cancel,
}

/// A text that names no action.
#[derive(Debug)]
pub struct InvalidAction {
    token: String,
}

/// Whether the player, asked to play again, declines: every answer does but
/// `y` and `yes`, in capital or small letters.
pub open spec fn declines(answer: Seq<char>) -> bool {
    let said = lowered_text(answer);
    !(said == seq!['y'] || said == seq!['y', 'e', 's'])
}

/// Whether `text` is `token` when capital and small letters are taken as the
/// same.
fn is_token(text: &str, token: &str) -> (same: bool)
    ensures
        same == (lowered_text(text@) == token@),
{
    let length = token.unicode_len();
    if text.unicode_len() != length {
        assert(lowered_text(text@).len() != token@.len());
        return false;
    }
    let mut next: usize = 0;
    while next < length
        invariant
            length == token@.len(),
            length == text@.len(),
            next <= length,
            forall|i: int| 0 <= i < next ==> lowered(#[trigger] text@[i]) == token@[i],
        decreases length - next,
    {
        let typed = text.get_char(next);
        let wanted = token.get_char(next);
        let matches = if 'A' <= typed && typed <= 'Z' {
            typed as u32 + 32 == wanted as u32
        } else {
            typed == wanted
        };
        if !matches {
            assert(lowered_text(text@)[next as int] != token@[next as int]);
            return false;
        }
        next += 1;
    }
    assert(lowered_text(text@) =~= token@);
    true
}

/// Whether the player, asked to play again, declines.
pub fn quit(answer: &str) -> (declined: bool)
    ensures
        declined == declines(answer@),
{
    proof {
        reveal_strlit("y");
        reveal_strlit("yes");
        assert("y"@ =~= seq!['y']);
        assert("yes"@ =~= seq!['y', 'e', 's']);
    }
    !(is_token(answer, "y") || is_token(answer, "yes"))
}

impl InvalidAction {
    /// The text that was typed.
    pub closed spec fn text(&self) -> Seq<char> {
        self.token@
    }

    /// The words that follow the rejected text in the message.
    pub open spec fn advice() -> Seq<char> {
        " is not a valid cell action.\n either use the first letter or type the whole action"@
    }

    /// The text that was typed.
    pub fn token(&self) -> (token: &str)
        ensures
            token@ == self.text(),
    {
        self.token.as_str()
    }

    /// The message for the player: the rejected text and what to type
    /// instead.
    pub fn message(&self) -> (message: String)
        ensures
            message@ == self.text() + Self::advice(),
    {
        let mut message = self.token.clone();
        message.append(
            " is not a valid cell action.\n either use the first letter or type the whole action",
        );
        message
    }
}

impl Action {
    /// The action that a text names: its first letter or the whole word, in
    /// capital or small letters.
    pub open spec fn named_by(text: Seq<char>) -> Option<Action> {
        let typed = lowered_text(text);
        if typed == seq!['r'] || typed == seq!['r', 'e', 'v', 'e', 'a', 'l'] {
            Some(Action::Reveal)
        } else if typed == seq!['f'] || typed == seq!['f', 'l', 'a', 'g'] {
            Some(Action::Flag)
        } else if typed == seq!['u'] || typed == seq!['u', 'n', 'f', 'l', 'a', 'g'] {
            Some(Action::Unflag)
        } else if typed == seq!['c'] || typed == seq!['c', 'a', 'n', 'c', 'e', 'l'] {
            Some(Action::Cancel)
        } else {
            None
        }
    }

    /// Whether the action is to reveal the cell.
    pub fn is_reveal(&self) -> (yes: bool)
        ensures
            yes == (*self == Action::Reveal),
    {
        if let Action::Reveal = self {
            true
        } else {
            false
        }
    }
}

impl std::str::FromStr for Action {
    type Err = InvalidAction;

    /// Reads an action from what the player typed.
    fn from_str(s: &str) -> (parsed: Result<Action, InvalidAction>)
        ensures
            match Action::named_by(s@) {
                Some(action) => parsed == Ok::<Action, InvalidAction>(action),
                None => parsed is Err && parsed.unwrap_err().text() == s@,
            },
    {
        proof {
            reveal_strlit("r");
            reveal_strlit("reveal");
            reveal_strlit("f");
            reveal_strlit("flag");
            reveal_strlit("u");
            reveal_strlit("unflag");
            reveal_strlit("c");
            reveal_strlit("cancel");
            assert("r"@ =~= seq!['r']);
            assert("reveal"@ =~= seq!['r', 'e', 'v', 'e', 'a', 'l']);
            assert("f"@ =~= seq!['f']);
            assert("flag"@ =~= seq!['f', 'l', 'a', 'g']);
            assert("u"@ =~= seq!['u']);
            assert("unflag"@ =~= seq!['u', 'n', 'f', 'l', 'a', 'g']);
            assert("c"@ =~= seq!['c']);
            assert("cancel"@ =~= seq!['c', 'a', 'n', 'c', 'e', 'l']);
        }
        if is_token(s, "r") || is_token(s, "reveal") {
            Ok(Action::Reveal)
        } else if is_token(s, "f") || is_token(s, "flag") {
            Ok(Action::Flag)
        } else if is_token(s, "u") || is_token(s, "unflag") {
            Ok(Action::Unflag)
        } else if is_token(s, "c") || is_token(s, "cancel") {
            Ok(Action::Cancel)
        } else {
            Err(InvalidAction { token: s.to_owned() })
        }
    }
}

} // verus!
