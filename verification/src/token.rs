//! The tokens of a formula, as far as the course of parsing depends on them.

use vstd::prelude::*;
use latex2mathml::token::Token;
use latex2mathml::token::Token::{
    Begin, Big, BigOp, Binom, End, Frac, Integral, Left, Letter, Lim, Middle, Operator,
    OperatorName, Over, Overbrace, Overset, Paren, Right, Slashed, Sqrt, Style, Text, Under,
    Underbrace, Underset,
};

verus! {

/// The kind of a token. Tokens that the parser treats alike are of one
/// kind; a letter and an operator keep their character.
#[derive(Clone, Copy, Debug, PartialEq, Eq, Structural)]
pub enum Kind {
    /// The end of the text, or a NUL character in it.
    Eof,
    Number,
    Letter(char),
    Operator(char),
    /// A delimiter other than the two square brackets.
    Paren,
    OpenSquare,
    CloseSquare,
    LBrace,
    RBrace,
    Underscore,
    Circumflex,
    /// A token that stands for itself and takes no part in the grammar.
    Plain,
    Sqrt,
    /// `\frac`, `\binom` and their kin: two arguments, the first of which
    /// may be a single digit.
    Fraction,
    /// An accent or a line over or under one argument.
    Accent,
    /// `\overset` and `\underset`: two arguments.
    Stack,
    Overbrace,
    Underbrace,
    /// A sum, a product or an integral, with its limits where they follow.
    BigOperator,
    Limit,
    Slashed,
    Style,
    Left,
    Right,
    Middle,
    Big,
    Begin,
    End,
    /// `\text` and `\operatorname`: letters in braces.
    Words,
}

impl Kind {
    /// Whether a digit that follows at once is a token of its own.
    pub open spec fn takes_digit(self) -> bool {
        self is Sqrt || self is Fraction || self is Style
    }

    /// Whether a digit that follows at once is a token of its own.
    pub fn is_taking_digit(self) -> (taking: bool)
        ensures
            taking == self.takes_digit(),
    {
        match self {
            Kind::Sqrt | Kind::Fraction | Kind::Style => true,
            _ => false,
        }
    }
}

/// The kind of the token that `latex2mathml` makes of the command `name`,
/// which is what stands behind the backslash.
pub uninterp spec fn command_kind(name: Seq<char>) -> Kind;

/// Calls `latex2mathml::token::Token::from_command`, which looks the name
/// up in a table, and tells the kind of the token that it gives. Believed
/// of it, not proved: the token depends on the name alone. The kinds stand
/// for the tokens as the parser treats them only because no command gives
/// a square bracket, a brace, a script sign, a number or the end.
#[verifier::external_body]
pub(crate) fn command_kind_of(name: &str) -> (kind: Kind)
    ensures
        kind == command_kind(name@),
{
    match Token::from_command(name) {
        Letter(c, _) => Kind::Letter(c), Operator(c) => Kind::Operator(c),
        Paren(_) => Kind::Paren,
        Sqrt => Kind::Sqrt, Style(_) => Kind::Style,
        Frac | Binom(_) => Kind::Fraction,
        Over(..) | Under(..) => Kind::Accent,
        Overset | Underset => Kind::Stack,
        BigOp(_) | Integral(_) => Kind::BigOperator,
        Overbrace(_) => Kind::Overbrace, Underbrace(_) => Kind::Underbrace,
        Lim(_) => Kind::Limit, Slashed => Kind::Slashed, Big(_) => Kind::Big,
        Left => Kind::Left, Right => Kind::Right, Middle => Kind::Middle,
        Begin => Kind::Begin, End => Kind::End, Text | OperatorName => Kind::Words,
        _ => Kind::Plain,
    }
}

} // verus!
