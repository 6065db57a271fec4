//! The course that the converter's parser takes through a formula, without
//! the markup that it writes: which tokens it takes for what, where it ends
//! with an error, and where it comes to a `\middle` behind which no operator
//! stands. There it has no answer and stops the program; such a formula is
//! told apart here and kept from it.

use vstd::prelude::*;
use crate::lexer::{char_at, is_digit, is_digit_char, lex, spells, Formula};
use crate::token::Kind;

verus! {

/// Where the parser stands: at the token `cur`, with the token `peek`
/// read ahead, and the text read up to `pos`.
pub struct Place {
    pub cur: Kind,
    pub peek: Kind,
    pub pos: int,
}

/// What came of parsing a part of the formula.
#[derive(Clone, Copy, Debug, PartialEq, Eq, Structural)]
pub enum Parsed {
    /// A node; an operator or a delimiter by itself where the flag is set.
    Node(bool),
    /// The parser ends with an error.
    Fails,
    /// The parser stops the program.
    Stops,
    /// More steps were needed than were allowed.
    Spent,
}

impl Kind {
    /// Whether the token is a delimiter.
    pub open spec fn is_paren(self) -> bool {
        self is Paren || self is OpenSquare || self is CloseSquare
    }

    /// Whether the token may stand behind `\left` and `\right`.
    pub open spec fn is_fence(self) -> bool {
        self.is_paren() || self == Kind::Operator('.')
    }
}

/// The place behind the next token.
pub open spec fn next(text: Seq<char>, p: Place) -> Place {
    if p.peek.takes_digit() && is_digit(char_at(text, p.pos)) {
        Place { cur: p.peek, peek: Kind::Number, pos: p.pos + 1 }
    } else {
        Place { cur: p.peek, peek: lex(text, p.pos).0, pos: lex(text, p.pos).1 }
    }
}

/// The same outcome, but for a node that is no operator by itself.
pub open spec fn dull(made: (Place, Parsed)) -> (Place, Parsed) {
    if made.1 is Node {
        (made.0, Parsed::Node(false))
    } else {
        made
    }
}

/// The letters from `p` on: where they end, what they read, and whether
/// the steps ran out.
pub open spec fn letters(text: Seq<char>, p: Place, fuel: nat) -> (Place, Seq<char>, bool)
    decreases fuel,
{
    if fuel == 0 {
        (p, Seq::empty(), true)
    } else if let Kind::Letter(c) = p.cur {
        let rest = letters(text, next(text, p), (fuel - 1) as nat);
        (rest.0, seq![c] + rest.1, rest.2)
    } else {
        (p, Seq::empty(), false)
    }
}

/// The letters in the braces that open at `p`.
pub open spec fn words(text: Seq<char>, p: Place, fuel: nat) -> (Place, Seq<char>, bool) {
    letters(text, next(text, p), fuel)
}

/// The environments that the converter knows.
pub open spec fn is_environment(name: Seq<char>) -> bool {
    name == "align"@ || name == "matrix"@ || name == "pmatrix"@ || name == "bmatrix"@ || name
        == "vmatrix"@
}

/// A node with the sub- or superscript that follows it.
pub open spec fn node(text: Seq<char>, p: Place, fuel: nat) -> (Place, Parsed)
    decreases fuel,
{
    if fuel == 0 {
        (p, Parsed::Spent)
    } else {
        let left = single(text, p, (fuel - 1) as nat);
        if left.1 is Node && (left.0.peek is Underscore || left.0.peek is Circumflex) {
            dull(node(text, next(text, next(text, left.0)), (fuel - 1) as nat))
        } else {
            left
        }
    }
}

/// A node with the prime that follows it.
pub open spec fn single(text: Seq<char>, p: Place, fuel: nat) -> (Place, Parsed)
    decreases fuel,
{
    if fuel == 0 {
        (p, Parsed::Spent)
    } else {
        let made = form(text, p, (fuel - 1) as nat);
        if made.1 is Node && made.0.peek == Kind::Operator('\'') {
            (next(text, made.0), Parsed::Node(false))
        } else {
            made
        }
    }
}

/// A node and, where `script` follows it, a second one behind that.
pub open spec fn scripted(text: Seq<char>, p: Place, script: Kind, fuel: nat) -> (Place, Parsed)
    decreases fuel,
{
    if fuel == 0 {
        (p, Parsed::Spent)
    } else {
        let first = single(text, p, (fuel - 1) as nat);
        if first.1 is Node && first.0.peek == script {
            dull(single(text, next(text, next(text, first.0)), (fuel - 1) as nat))
        } else {
            dull(first)
        }
    }
}

/// Two nodes with one token between them.
pub open spec fn pair(text: Seq<char>, p: Place, fuel: nat) -> (Place, Parsed)
    decreases fuel,
{
    if fuel == 0 {
        (p, Parsed::Spent)
    } else {
        let first = node(text, p, (fuel - 1) as nat);
        if first.1 is Node {
            dull(node(text, next(text, first.0), (fuel - 1) as nat))
        } else {
            first
        }
    }
}

/// A root: its degree in square brackets, where one is given, and what
/// stands under it.
pub open spec fn root(text: Seq<char>, p: Place, fuel: nat) -> (Place, Parsed)
    decreases fuel,
{
    if fuel == 0 {
        (p, Parsed::Spent)
    } else if p.cur is OpenSquare {
        let degree = group(text, p, Kind::CloseSquare, (fuel - 1) as nat);
        if degree.1 is Node {
            dull(node(text, next(text, degree.0), (fuel - 1) as nat))
        } else {
            degree
        }
    } else {
        dull(node(text, p, (fuel - 1) as nat))
    }
}

/// What stands between `\left` and `\right`, with the two delimiters.
pub open spec fn fenced(text: Seq<char>, p: Place, fuel: nat) -> (Place, Parsed)
    decreases fuel,
{
    if fuel == 0 {
        (p, Parsed::Spent)
    } else if !p.cur.is_fence() {
        (p, Parsed::Fails)
    } else {
        let inner = group(text, p, Kind::Right, (fuel - 1) as nat);
        if inner.1 is Node {
            let close = next(text, inner.0);
            if close.cur.is_fence() {
                (close, Parsed::Node(false))
            } else {
                (close, Parsed::Fails)
            }
        } else {
            inner
        }
    }
}

/// An environment, from the braces that name it to the braces behind its
/// end.
pub open spec fn environment(text: Seq<char>, p: Place, fuel: nat) -> (Place, Parsed)
    decreases fuel,
{
    if fuel == 0 {
        (p, Parsed::Spent)
    } else {
        let name = words(text, p, (fuel - 1) as nat);
        if name.2 {
            (name.0, Parsed::Spent)
        } else {
            let inner = group(text, name.0, Kind::End, (fuel - 1) as nat);
            if !(inner.1 is Node) {
                inner
            } else if !is_environment(name.1) {
                (inner.0, Parsed::Fails)
            } else {
                let tail = words(text, next(text, inner.0), (fuel - 1) as nat);
                if tail.2 {
                    (tail.0, Parsed::Spent)
                } else {
                    (tail.0, Parsed::Node(false))
                }
            }
        }
    }
}

/// The node that begins with the token at `p`.
pub open spec fn form(text: Seq<char>, p: Place, fuel: nat) -> (Place, Parsed)
    decreases fuel,
{
    if fuel == 0 {
        (p, Parsed::Spent)
    } else {
        let rest = (fuel - 1) as nat;
        match p.cur {
            Kind::Operator(_) | Kind::Paren | Kind::OpenSquare | Kind::CloseSquare => (
                p,
                Parsed::Node(true),
            ),
            Kind::Sqrt => root(text, next(text, p), rest),
            Kind::Fraction | Kind::Stack => pair(text, next(text, p), rest),
            Kind::Accent => dull(node(text, next(text, p), rest)),
            Kind::Style => node(text, next(text, p), rest),
            Kind::Overbrace => scripted(text, next(text, p), Kind::Circumflex, rest),
            Kind::Underbrace => scripted(text, next(text, p), Kind::Underscore, rest),
            Kind::BigOperator => if p.peek is Underscore {
                scripted(text, next(text, next(text, p)), Kind::Circumflex, rest)
            } else if p.peek is Circumflex {
                scripted(text, next(text, next(text, p)), Kind::Underscore, rest)
            } else {
                (p, Parsed::Node(true))
            },
            Kind::Limit => if p.peek is Underscore {
                dull(single(text, next(text, next(text, p)), rest))
            } else {
                (p, Parsed::Node(false))
            },
            Kind::Slashed => {
                let inner = node(text, next(text, next(text, p)), rest);
                if inner.1 is Node {
                    (next(text, inner.0), Parsed::Node(false))
                } else {
                    inner
                }
            },
            Kind::LBrace => group(text, p, Kind::RBrace, rest),
            Kind::Left => fenced(text, next(text, p), rest),
            Kind::Middle => {
                let behind = single(text, next(text, p), rest);
                if behind.1 == Parsed::Node(false) {
                    (behind.0, Parsed::Stops)
                } else {
                    dull(behind)
                }
            },
            Kind::Big => if next(text, p).cur.is_paren() {
                (next(text, p), Parsed::Node(false))
            } else {
                (next(text, p), Parsed::Fails)
            },
            Kind::Begin => environment(text, next(text, p), rest),
            Kind::Words => {
                let read = words(text, next(text, p), rest);
                if read.2 {
                    (read.0, Parsed::Spent)
                } else {
                    (read.0, Parsed::Node(false))
                }
            },
            _ => (p, Parsed::Node(false)),
        }
    }
}

/// The nodes from the token behind `p` up to the token `end`: one node
/// where there is one alone, and a row of them otherwise.
pub open spec fn group(text: Seq<char>, p: Place, end: Kind, fuel: nat) -> (Place, Parsed)
    decreases fuel,
{
    if fuel == 0 {
        (p, Parsed::Spent)
    } else {
        items(text, next(text, p), end, 0, false, (fuel - 1) as nat)
    }
}

/// The nodes from `p` up to the token `end`, behind `count` nodes of which
/// the first is an operator by itself where `lone` is set.
pub open spec fn items(
    text: Seq<char>,
    p: Place,
    end: Kind,
    count: nat,
    lone: bool,
    fuel: nat,
) -> (Place, Parsed)
    decreases fuel,
{
    if fuel == 0 {
        (p, Parsed::Spent)
    } else if p.cur is Eof {
        (p, Parsed::Fails)
    } else if p.cur == end {
        (p, Parsed::Node(count == 1 && lone))
    } else {
        let item = node(text, p, (fuel - 1) as nat);
        if let Parsed::Node(operator) = item.1 {
            items(
                text,
                next(text, item.0),
                end,
                count + 1,
                if count == 0 {
                    operator
                } else {
                    lone
                },
                (fuel - 1) as nat,
            )
        } else {
            item
        }
    }
}

/// The nodes from `p` up to the end of the formula.
pub open spec fn nodes(text: Seq<char>, p: Place, fuel: nat) -> (Place, Parsed)
    decreases fuel,
{
    if fuel == 0 {
        (p, Parsed::Spent)
    } else if p.cur is Eof {
        (p, Parsed::Node(false))
    } else {
        let item = node(text, p, (fuel - 1) as nat);
        if item.1 is Node {
            nodes(text, next(text, item.0), (fuel - 1) as nat)
        } else {
            item
        }
    }
}

/// Where the parser stands before it has read anything.
pub open spec fn start() -> Place {
    Place { cur: Kind::Plain, peek: Kind::Plain, pos: 0 }
}

/// The steps that are allowed for a formula: more than its parsing takes.
pub open spec fn budget(text: Seq<char>) -> nat {
    8 * text.len() + 20
}

/// What comes of parsing the formula `text`.
pub open spec fn parsed(text: Seq<char>) -> Parsed {
    nodes(text, next(text, next(text, start())), budget(text)).1
}

/// Whether the converter has an answer to the formula `text`: markup or an
/// error of its own.
pub open spec fn has_answer(text: Seq<char>) -> bool {
    parsed(text) is Node || parsed(text) is Fails
}

/// Where the parser stands in a formula that is being read.
#[derive(Clone, Copy, Debug)]
pub(crate) struct Cursor {
    pub(crate) cur: Kind,
    pub(crate) peek: Kind,
    pub(crate) pos: usize,
}

impl Cursor {
    pub(crate) open spec fn place(self) -> Place {
        Place { cur: self.cur, peek: self.peek, pos: self.pos as int }
    }
}

/// Whether `out` is the outcome `made`.
pub(crate) open spec fn same(out: (Cursor, Parsed), made: (Place, Parsed)) -> bool {
    out.0.place() == made.0 && out.1 == made.1
}

fn is_paren_kind(kind: Kind) -> (paren: bool)
    ensures
        paren == kind.is_paren(),
{
    match kind {
        Kind::Paren | Kind::OpenSquare | Kind::CloseSquare => true,
        _ => false,
    }
}

fn is_fence_kind(kind: Kind) -> (fence: bool)
    ensures
        fence == kind.is_fence(),
{
    is_paren_kind(kind) || kind == Kind::Operator('.')
}

fn is_node(made: Parsed) -> (node: bool)
    ensures
        node == (made is Node),
{
    match made {
        Parsed::Node(_) => true,
        _ => false,
    }
}

fn dulled(out: (Cursor, Parsed)) -> (plain: (Cursor, Parsed))
    ensures
        plain.0 == out.0,
        plain.1 == (if out.1 is Node {
            Parsed::Node(false)
        } else {
            out.1
        }),
{
    if is_node(out.1) {
        (out.0, Parsed::Node(false))
    } else {
        out
    }
}

fn is_known_environment(name: &Vec<char>) -> (known: bool)
    ensures
        known == is_environment(name@),
{
    spells(name, "align") || spells(name, "matrix") || spells(name, "pmatrix") || spells(
        name,
        "bmatrix",
    ) || spells(name, "vmatrix")
}

/// Whether a token of this kind is still to be read.
pub open spec fn live(kind: Kind) -> int {
    if kind is Eof {
        0
    } else {
        1
    }
}

impl<'a> Formula<'a> {
    /// Whether `c` is a place in this formula.
    pub(crate) open spec fn holds(&self, c: Cursor) -> bool {
        self.wf() && c.pos <= self.chars.len()
    }

    /// What is left to be read at `c`: the characters and the tokens.
    pub(crate) open spec fn weight(&self, c: Cursor) -> int {
        self.chars.len() - c.pos + live(c.cur) + live(c.peek)
    }

    /// Whether parsing from `c` to `out` went forward: nothing was put
    /// back, and a token that was there to be read was left where it is
    /// or is behind.
    pub(crate) open spec fn forward(&self, c: Cursor, out: Cursor) -> bool {
        &&& self.weight(out) <= self.weight(c)
        &&& (!(c.cur is Eof) ==> out == c || self.weight(out) < self.weight(c))
    }

    fn step(&self, c: Cursor) -> (out: Cursor)
        requires
            self.holds(c),
        ensures
            self.holds(out),
            out.place() == next(self.chars@, c.place()),
            self.weight(out) + live(c.cur) <= self.weight(c),
    {
        if c.peek.is_taking_digit() && c.pos < self.chars.len() && is_digit_char(
            self.chars[c.pos],
        ) {
            Cursor { cur: c.peek, peek: Kind::Number, pos: c.pos + 1 }
        } else {
            let (kind, end) = self.token(c.pos);
            Cursor { cur: c.peek, peek: kind, pos: end }
        }
    }

    fn read_letters(&self, c: Cursor, fuel: u128) -> (out: (Cursor, Vec<char>, bool))
        requires
            self.holds(c),
        ensures
            self.holds(out.0),
            (out.0.place(), out.1@, out.2) == letters(self.chars@, c.place(), fuel as nat),
            self.forward(c, out.0),
            fuel >= 8 * self.weight(c) + 1 ==> !out.2,
    {
        let ghost whole = letters(self.chars@, c.place(), fuel as nat);
        let mut at = c;
        let mut left = fuel;
        let mut read: Vec<char> = Vec::new();
        loop
            invariant
                self.holds(at),
                whole == letters(self.chars@, c.place(), fuel as nat),
                self.forward(c, at),
                fuel >= 8 * self.weight(c) + 1 ==> left >= 8 * self.weight(at) + 1,
                whole == ({
                    let rest = letters(self.chars@, at.place(), left as nat);
                    (rest.0, read@ + rest.1, rest.2)
                }),
            decreases left,
        {
            if left == 0 {
                assert(read@ + Seq::<char>::empty() =~= read@);
                return (at, read, true);
            }
            match at.cur {
                Kind::Letter(c) => {
                    let ghost rest = letters(
                        self.chars@,
                        next(self.chars@, at.place()),
                        (left - 1) as nat,
                    );
                    assert(read@.push(c) + rest.1 =~= read@ + (seq![c] + rest.1));
                    read.push(c);
                    at = self.step(at);
                    left = left - 1;
                },
                _ => {
                    assert(read@ + Seq::<char>::empty() =~= read@);
                    return (at, read, false);
                },
            }
        }
    }

    fn read_words(&self, c: Cursor, fuel: u128) -> (out: (Cursor, Vec<char>, bool))
        requires
            self.holds(c),
        ensures
            self.holds(out.0),
            (out.0.place(), out.1@, out.2) == words(self.chars@, c.place(), fuel as nat),
            self.forward(c, out.0),
            fuel >= 8 * self.weight(c) + 1 ==> !out.2,
    {
        self.read_letters(self.step(c), fuel)
    }

    fn parse_node(&self, c: Cursor, fuel: u128) -> (out: (Cursor, Parsed))
        requires
            self.holds(c),
        ensures
            self.holds(out.0),
            same(out, node(self.chars@, c.place(), fuel as nat)),
            self.forward(c, out.0),
            fuel >= 8 * self.weight(c) + 3 ==> !(out.1 is Spent),
        decreases fuel,
    {
        if fuel == 0 {
            return (c, Parsed::Spent);
        }
        let left = self.parse_single(c, fuel - 1);
        if is_node(left.1) && (left.0.peek == Kind::Underscore || left.0.peek
            == Kind::Circumflex) {
            dulled(self.parse_node(self.step(self.step(left.0)), fuel - 1))
        } else {
            left
        }
    }

    fn parse_single(&self, c: Cursor, fuel: u128) -> (out: (Cursor, Parsed))
        requires
            self.holds(c),
        ensures
            self.holds(out.0),
            same(out, single(self.chars@, c.place(), fuel as nat)),
            self.forward(c, out.0),
            fuel >= 8 * self.weight(c) + 2 ==> !(out.1 is Spent),
        decreases fuel,
    {
        if fuel == 0 {
            return (c, Parsed::Spent);
        }
        let made = self.parse_form(c, fuel - 1);
        if is_node(made.1) && made.0.peek == Kind::Operator('\'') {
            (self.step(made.0), Parsed::Node(false))
        } else {
            made
        }
    }

    fn parse_scripted(&self, c: Cursor, script: Kind, fuel: u128) -> (out: (Cursor, Parsed))
        requires
            self.holds(c),
        ensures
            self.holds(out.0),
            same(out, scripted(self.chars@, c.place(), script, fuel as nat)),
            self.forward(c, out.0),
            fuel >= 8 * self.weight(c) + 8 ==> !(out.1 is Spent),
        decreases fuel,
    {
        if fuel == 0 {
            return (c, Parsed::Spent);
        }
        let first = self.parse_single(c, fuel - 1);
        if is_node(first.1) && first.0.peek == script {
            dulled(self.parse_single(self.step(self.step(first.0)), fuel - 1))
        } else {
            dulled(first)
        }
    }

    fn parse_pair(&self, c: Cursor, fuel: u128) -> (out: (Cursor, Parsed))
        requires
            self.holds(c),
        ensures
            self.holds(out.0),
            same(out, pair(self.chars@, c.place(), fuel as nat)),
            self.forward(c, out.0),
            fuel >= 8 * self.weight(c) + 8 ==> !(out.1 is Spent),
        decreases fuel,
    {
        if fuel == 0 {
            return (c, Parsed::Spent);
        }
        let first = self.parse_node(c, fuel - 1);
        if is_node(first.1) {
            dulled(self.parse_node(self.step(first.0), fuel - 1))
        } else {
            first
        }
    }

    fn parse_root(&self, c: Cursor, fuel: u128) -> (out: (Cursor, Parsed))
        requires
            self.holds(c),
        ensures
            self.holds(out.0),
            same(out, root(self.chars@, c.place(), fuel as nat)),
            self.forward(c, out.0),
            fuel >= 8 * self.weight(c) + 8 ==> !(out.1 is Spent),
        decreases fuel,
    {
        if fuel == 0 {
            return (c, Parsed::Spent);
        }
        if c.cur == Kind::OpenSquare {
            let degree = self.parse_group(c, Kind::CloseSquare, fuel - 1);
            if is_node(degree.1) {
                dulled(self.parse_node(self.step(degree.0), fuel - 1))
            } else {
                degree
            }
        } else {
            dulled(self.parse_node(c, fuel - 1))
        }
    }

    fn parse_fenced(&self, c: Cursor, fuel: u128) -> (out: (Cursor, Parsed))
        requires
            self.holds(c),
        ensures
            self.holds(out.0),
            same(out, fenced(self.chars@, c.place(), fuel as nat)),
            self.forward(c, out.0),
            fuel >= 8 * self.weight(c) + 8 ==> !(out.1 is Spent),
        decreases fuel,
    {
        if fuel == 0 {
            return (c, Parsed::Spent);
        }
        if !is_fence_kind(c.cur) {
            return (c, Parsed::Fails);
        }
        let inner = self.parse_group(c, Kind::Right, fuel - 1);
        if is_node(inner.1) {
            let close = self.step(inner.0);
            if is_fence_kind(close.cur) {
                (close, Parsed::Node(false))
            } else {
                (close, Parsed::Fails)
            }
        } else {
            inner
        }
    }

    fn parse_environment(&self, c: Cursor, fuel: u128) -> (out: (Cursor, Parsed))
        requires
            self.holds(c),
        ensures
            self.holds(out.0),
            same(out, environment(self.chars@, c.place(), fuel as nat)),
            self.forward(c, out.0),
            fuel >= 8 * self.weight(c) + 8 ==> !(out.1 is Spent),
        decreases fuel,
    {
        if fuel == 0 {
            return (c, Parsed::Spent);
        }
        let name = self.read_words(c, fuel - 1);
        if name.2 {
            return (name.0, Parsed::Spent);
        }
        let inner = self.parse_group(name.0, Kind::End, fuel - 1);
        if !is_node(inner.1) {
            inner
        } else if !is_known_environment(&name.1) {
            (inner.0, Parsed::Fails)
        } else {
            let tail = self.read_words(self.step(inner.0), fuel - 1);
            if tail.2 {
                (tail.0, Parsed::Spent)
            } else {
                (tail.0, Parsed::Node(false))
            }
        }
    }

    fn parse_form(&self, c: Cursor, fuel: u128) -> (out: (Cursor, Parsed))
        requires
            self.holds(c),
        ensures
            self.holds(out.0),
            same(out, form(self.chars@, c.place(), fuel as nat)),
            self.forward(c, out.0),
            fuel >= 8 * self.weight(c) + 1 ==> !(out.1 is Spent),
        decreases fuel,
    {
        if fuel == 0 {
            return (c, Parsed::Spent);
        }
        let rest = fuel - 1;
        match c.cur {
            Kind::Operator(_) | Kind::Paren | Kind::OpenSquare | Kind::CloseSquare => (
                c,
                Parsed::Node(true),
            ),
            Kind::Sqrt => self.parse_root(self.step(c), rest),
            Kind::Fraction | Kind::Stack => self.parse_pair(self.step(c), rest),
            Kind::Accent => dulled(self.parse_node(self.step(c), rest)),
            Kind::Style => self.parse_node(self.step(c), rest),
            Kind::Overbrace => self.parse_scripted(self.step(c), Kind::Circumflex, rest),
            Kind::Underbrace => self.parse_scripted(self.step(c), Kind::Underscore, rest),
            Kind::BigOperator => if c.peek == Kind::Underscore {
                self.parse_scripted(self.step(self.step(c)), Kind::Circumflex, rest)
            } else if c.peek == Kind::Circumflex {
                self.parse_scripted(self.step(self.step(c)), Kind::Underscore, rest)
            } else {
                (c, Parsed::Node(true))
            },
            Kind::Limit => if c.peek == Kind::Underscore {
                dulled(self.parse_single(self.step(self.step(c)), rest))
            } else {
                (c, Parsed::Node(false))
            },
            Kind::Slashed => {
                let inner = self.parse_node(self.step(self.step(c)), rest);
                if is_node(inner.1) {
                    (self.step(inner.0), Parsed::Node(false))
                } else {
                    inner
                }
            },
            Kind::LBrace => self.parse_group(c, Kind::RBrace, rest),
            Kind::Left => self.parse_fenced(self.step(c), rest),
            Kind::Middle => {
                let behind = self.parse_single(self.step(c), rest);
                match behind.1 {
                    Parsed::Node(false) => (behind.0, Parsed::Stops),
                    _ => dulled(behind),
                }
            },
            Kind::Big => {
                let paren = self.step(c);
                if is_paren_kind(paren.cur) {
                    (paren, Parsed::Node(false))
                } else {
                    (paren, Parsed::Fails)
                }
            },
            Kind::Begin => self.parse_environment(self.step(c), rest),
            Kind::Words => {
                let read = self.read_words(self.step(c), rest);
                if read.2 {
                    (read.0, Parsed::Spent)
                } else {
                    (read.0, Parsed::Node(false))
                }
            },
            _ => (c, Parsed::Node(false)),
        }
    }

    fn parse_group(&self, c: Cursor, end: Kind, fuel: u128) -> (out: (Cursor, Parsed))
        requires
            self.holds(c),
        ensures
            self.holds(out.0),
            same(out, group(self.chars@, c.place(), end, fuel as nat)),
            self.forward(c, out.0),
            fuel >= 8 * (self.weight(c) - live(c.cur)) + 5 ==> !(out.1 is Spent),
        decreases fuel,
    {
        if fuel == 0 {
            return (c, Parsed::Spent);
        }
        let ghost whole = group(self.chars@, c.place(), end, fuel as nat);
        let mut at = self.step(c);
        let mut left = fuel - 1;
        let mut count: u8 = 0;
        let mut lone = false;
        let ghost mut counted: nat = 0;
        loop
            invariant
                self.holds(at),
                left < fuel,
                count <= 2,
                count == 0 <==> counted == 0,
                count == 1 <==> counted == 1,
                fuel > 0,
                self.weight(at) + live(c.cur) <= self.weight(c),
                fuel >= 8 * (self.weight(c) - live(c.cur)) + 5 ==> left >= 8 * self.weight(at) + 4,
                whole == group(self.chars@, c.place(), end, fuel as nat),
                whole == items(self.chars@, at.place(), end, counted, lone, left as nat),
            decreases left,
        {
            if left == 0 {
                return (at, Parsed::Spent);
            }
            if at.cur == Kind::Eof {
                return (at, Parsed::Fails);
            }
            if at.cur == end {
                return (at, Parsed::Node(count == 1 && lone));
            }
            let item = self.parse_node(at, left - 1);
            match item.1 {
                Parsed::Node(operator) => {
                    if count == 0 {
                        lone = operator;
                    }
                    if count < 2 {
                        count = count + 1;
                    }
                    proof {
                        counted = counted + 1;
                    }
                    at = self.step(item.0);
                    left = left - 1;
                },
                _ => {
                    return item;
                },
            }
        }
    }

    fn parse_nodes(&self, c: Cursor, fuel: u128) -> (out: (Cursor, Parsed))
        requires
            self.holds(c),
        ensures
            self.holds(out.0),
            same(out, nodes(self.chars@, c.place(), fuel as nat)),
            self.forward(c, out.0),
            fuel >= 8 * self.weight(c) + 4 ==> !(out.1 is Spent),
    {
        let ghost whole = nodes(self.chars@, c.place(), fuel as nat);
        let mut at = c;
        let mut left = fuel;
        loop
            invariant
                self.holds(at),
                whole == nodes(self.chars@, c.place(), fuel as nat),
                self.forward(c, at),
                fuel >= 8 * self.weight(c) + 4 ==> left >= 8 * self.weight(at) + 4,
                whole == nodes(self.chars@, at.place(), left as nat),
            decreases left,
        {
            if left == 0 {
                return (at, Parsed::Spent);
            }
            if at.cur == Kind::Eof {
                return (at, Parsed::Node(false));
            }
            let item = self.parse_node(at, left - 1);
            if is_node(item.1) {
                at = self.step(item.0);
                left = left - 1;
            } else {
                return item;
            }
        }
    }
}

/// Follows the parser through the formula `text`.
pub fn parse(text: &str) -> (outcome: Parsed)
    ensures
        outcome == parsed(text@),
        !(outcome is Spent),
{
    let formula = Formula::new(text);
    let fuel: u128 = 8 * (formula.chars.len() as u128) + 20;
    let begin = Cursor { cur: Kind::Plain, peek: Kind::Plain, pos: 0 };
    let first = formula.step(formula.step(begin));
    formula.parse_nodes(first, fuel).1
}

} // verus!
