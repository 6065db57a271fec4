//! How the converter divides a formula into tokens.

use vstd::prelude::*;
use vstd::string::StrSliceExecFns;
use crate::token::{command_kind, command_kind_of, Kind};

verus! {

/// The characters that are skipped between two tokens.
pub open spec fn is_blank(c: char) -> bool {
    c == ' ' || c == '\t' || c == '\n' || c == '\r'
}

/// The letters that the name of a command is made of.
pub open spec fn is_letter(c: char) -> bool {
    ('a' <= c && c <= 'z') || ('A' <= c && c <= 'Z')
}

pub open spec fn is_digit(c: char) -> bool {
    '0' <= c && c <= '9'
}

/// The character of `text` at `at`; behind its end, the NUL character.
pub open spec fn char_at(text: Seq<char>, at: int) -> char {
    if 0 <= at < text.len() {
        text[at]
    } else {
        '\0'
    }
}

/// The first position from `from` on that holds no blank; the length of
/// `text` where only blanks follow.
pub open spec fn skip_blanks(text: Seq<char>, from: int) -> int
    decreases text.len() - from,
{
    if 0 <= from < text.len() && is_blank(text[from]) {
        skip_blanks(text, from + 1)
    } else {
        from
    }
}

/// The first position from `from` on that holds no letter.
pub open spec fn skip_letters(text: Seq<char>, from: int) -> int
    decreases text.len() - from,
{
    if 0 <= from < text.len() && is_letter(text[from]) {
        skip_letters(text, from + 1)
    } else {
        from
    }
}

/// Where the number ends that is read from `from` on: behind its digits,
/// among them one point at most; `dotted` tells that the point is behind.
pub open spec fn skip_number(text: Seq<char>, from: int, dotted: bool) -> int
    decreases text.len() - from,
{
    if 0 <= from < text.len() && (is_digit(text[from]) || (text[from] == '.' && !dotted)) {
        skip_number(text, from + 1, dotted || text[from] == '.')
    } else {
        from
    }
}

/// Where the command ends whose backslash stands at `at`: behind its name,
/// which is a run of letters or one other character.
pub open spec fn command_end(text: Seq<char>, at: int) -> int {
    if at + 1 >= text.len() {
        text.len() as int
    } else if is_letter(text[at + 1]) {
        skip_letters(text, at + 2)
    } else {
        at + 2
    }
}

/// The name of the command whose backslash stands at `at`. A backslash at
/// the end of the text has the NUL character for its name.
pub open spec fn command_name(text: Seq<char>, at: int) -> Seq<char> {
    if at + 1 >= text.len() {
        seq!['\0']
    } else {
        text.subrange(at + 1, command_end(text, at))
    }
}

/// The token that a character is by itself.
pub open spec fn symbol(c: char) -> Kind {
    if c == '=' || c == ';' || c == ',' || c == '.' || c == '\'' || c == '+' || c == '-' || c
        == '*' || c == '/' || c == '!' || c == '<' || c == '>' {
        Kind::Operator(c)
    } else if c == '(' || c == ')' || c == '|' {
        Kind::Paren
    } else if c == '[' {
        Kind::OpenSquare
    } else if c == ']' {
        Kind::CloseSquare
    } else if c == '{' {
        Kind::LBrace
    } else if c == '}' {
        Kind::RBrace
    } else if c == '_' {
        Kind::Underscore
    } else if c == '^' {
        Kind::Circumflex
    } else if c == '&' {
        Kind::Plain
    } else if c == '\0' {
        Kind::Eof
    } else {
        Kind::Letter(c)
    }
}

/// The token that is read in `text` from `from` on, and where reading goes
/// on behind it.
pub open spec fn lex(text: Seq<char>, from: int) -> (Kind, int) {
    let at = skip_blanks(text, from);
    if at < 0 || at >= text.len() {
        (Kind::Eof, text.len() as int)
    } else if text[at] == '\\' {
        (command_kind(command_name(text, at)), command_end(text, at))
    } else if text[at] == ':' {
        if char_at(text, at + 1) == '=' {
            (Kind::Paren, at + 2)
        } else {
            (Kind::Operator(':'), at + 1)
        }
    } else if is_digit(text[at]) {
        (Kind::Number, skip_number(text, at, false))
    } else {
        (symbol(text[at]), at + 1)
    }
}

/// A formula that is being read: its text, and its characters one by one.
pub(crate) struct Formula<'a> {
    pub(crate) text: &'a str,
    pub(crate) chars: Vec<char>,
}

impl<'a> Formula<'a> {
    pub(crate) open spec fn wf(&self) -> bool {
        self.chars@ == self.text@
    }

    pub(crate) fn new(text: &'a str) -> (formula: Formula<'a>)
        ensures
            formula.wf(),
            formula.text@ == text@,
    {
        let mut chars: Vec<char> = Vec::new();
        for c in rest: text.chars()
            invariant
                rest.seq() == text@,
                chars@ == text@.take(rest.index() as int),
        {
            assert(text@.take(rest.index() + 1) =~= text@.take(rest.index() as int).push(c));
            chars.push(c);
        }
        assert(text@.take(text@.len() as int) =~= text@);
        Formula { text, chars }
    }

    fn blanks_end(&self, from: usize) -> (end: usize)
        requires
            from <= self.chars.len(),
        ensures
            end == skip_blanks(self.chars@, from as int),
            from <= end <= self.chars.len(),
    {
        let mut end: usize = from;
        while end < self.chars.len() && is_blank_char(self.chars[end])
            invariant
                from <= end <= self.chars.len(),
                skip_blanks(self.chars@, from as int) == skip_blanks(self.chars@, end as int),
            decreases self.chars.len() - end,
        {
            end = end + 1;
        }
        end
    }

    fn letters_end(&self, from: usize) -> (end: usize)
        requires
            from <= self.chars.len(),
        ensures
            end == skip_letters(self.chars@, from as int),
            from <= end <= self.chars.len(),
    {
        let mut end: usize = from;
        while end < self.chars.len() && is_letter_char(self.chars[end])
            invariant
                from <= end <= self.chars.len(),
                skip_letters(self.chars@, from as int) == skip_letters(self.chars@, end as int),
            decreases self.chars.len() - end,
        {
            end = end + 1;
        }
        end
    }

    fn number_end(&self, from: usize, dotted: bool) -> (end: usize)
        requires
            from <= self.chars.len(),
        ensures
            end == skip_number(self.chars@, from as int, dotted),
            from <= end <= self.chars.len(),
    {
        let mut end: usize = from;
        let ghost begun = dotted;
        let mut dotted = dotted;
        while end < self.chars.len() && (is_digit_char(self.chars[end]) || (self.chars[end] == '.'
            && !dotted))
            invariant
                from <= end <= self.chars.len(),
                skip_number(self.chars@, from as int, begun) == skip_number(
                    self.chars@,
                    end as int,
                    dotted,
                ),
            decreases self.chars.len() - end,
        {
            if self.chars[end] == '.' {
                dotted = true;
            }
            end = end + 1;
        }
        end
    }

    /// The token of the command whose backslash stands at `at`, and where
    /// the command ends.
    fn command(&self, at: usize) -> (found: (Kind, usize))
        requires
            self.wf(),
            at < self.chars.len(),
        ensures
            found.0 == command_kind(command_name(self.chars@, at as int)),
            found.1 == command_end(self.chars@, at as int),
            at < found.1 <= self.chars.len(),
    {
        if at + 1 >= self.chars.len() {
            proof {
                reveal_strlit("\0");
                assert("\0"@ =~= seq!['\0']);
            }
            return (command_kind_of("\0"), self.chars.len());
        }
        let end = if is_letter_char(self.chars[at + 1]) {
            self.letters_end(at + 2)
        } else {
            at + 2
        };
        (command_kind_of(self.text.substring_char(at + 1, end)), end)
    }

    /// The token that is read from `from` on, and where reading goes on.
    pub(crate) fn token(&self, from: usize) -> (found: (Kind, usize))
        requires
            self.wf(),
            from <= self.chars.len(),
        ensures
            found.0 == lex(self.chars@, from as int).0,
            found.1 == lex(self.chars@, from as int).1,
            from <= found.1 <= self.chars.len(),
            !(found.0 is Eof) ==> from < found.1,
    {
        let at = self.blanks_end(from);
        if at >= self.chars.len() {
            return (Kind::Eof, self.chars.len());
        }
        let c = self.chars[at];
        if c == '\\' {
            self.command(at)
        } else if c == ':' {
            if at + 1 < self.chars.len() && self.chars[at + 1] == '=' {
                (Kind::Paren, at + 2)
            } else {
                (Kind::Operator(':'), at + 1)
            }
        } else if is_digit_char(c) {
            (Kind::Number, self.number_end(at + 1, false))
        } else {
            (symbol_of(c), at + 1)
        }
    }
}

/// Tells whether `chars` read `word`.
pub(crate) fn spells(chars: &Vec<char>, word: &str) -> (same: bool)
    ensures
        same == (chars@ == word@),
{
    let length = word.unicode_len();
    if chars.len() != length {
        return false;
    }
    let mut i: usize = 0;
    while i < length
        invariant
            chars.len() == length,
            length == word@.len(),
            i <= length,
            forall|k: int| 0 <= k < i ==> chars@[k] == word@[k],
        decreases length - i,
    {
        if chars[i] != word.get_char(i) {
            assert(chars@[i as int] != word@[i as int]);
            return false;
        }
        i = i + 1;
    }
    assert(chars@ =~= word@);
    true
}

pub(crate) fn is_blank_char(c: char) -> (blank: bool)
    ensures
        blank == is_blank(c),
{
    c == ' ' || c == '\t' || c == '\n' || c == '\r'
}

pub(crate) fn is_letter_char(c: char) -> (letter: bool)
    ensures
        letter == is_letter(c),
{
    ('a' <= c && c <= 'z') || ('A' <= c && c <= 'Z')
}

pub(crate) fn is_digit_char(c: char) -> (digit: bool)
    ensures
        digit == is_digit(c),
{
    '0' <= c && c <= '9'
}

fn symbol_of(c: char) -> (kind: Kind)
    ensures
        kind == symbol(c),
{
    if c == '=' || c == ';' || c == ',' || c == '.' || c == '\'' || c == '+' || c == '-' || c
        == '*' || c == '/' || c == '!' || c == '<' || c == '>' {
        Kind::Operator(c)
    } else if c == '(' || c == ')' || c == '|' {
        Kind::Paren
    } else if c == '[' {
        Kind::OpenSquare
    } else if c == ']' {
        Kind::CloseSquare
    } else if c == '{' {
        Kind::LBrace
    } else if c == '}' {
        Kind::RBrace
    } else if c == '_' {
        Kind::Underscore
    } else if c == '^' {
        Kind::Circumflex
    } else if c == '&' {
        Kind::Plain
    } else if c == '\0' {
        Kind::Eof
    } else {
        Kind::Letter(c)
    }
}

} // verus!
