use vstd::prelude::*;

verus! {

/// An operator together with the operand to its right.
#[derive(Debug, PartialEq)]
pub struct Rhs<O, T> {
    pub op: O,
    pub right: Box<T>,
}

#[derive(Clone, Copy, Debug, PartialEq, Eq)]
pub enum EquaityOp {
    Equal,
    NotEqual,
}

#[derive(Clone, Copy, Debug, PartialEq, Eq)]
pub enum ComparisonOp {
    Greater,
    GreaterEqual,
    Less,
    LessEqual,
}

#[derive(Clone, Copy, Debug, PartialEq, Eq)]
pub enum TermOp {
    Minus,
    Plus,
}

#[derive(Clone, Copy, Debug, PartialEq, Eq)]
pub enum FactorOp {
    Div,
    Mul,
}

#[derive(Clone, Copy, Debug, PartialEq, Eq)]
pub enum UnaryOp {
    Not,
    Minus,
}

/// A whole expression. As in the token model, `S` is the type of the text that
/// a literal carries: `String` in executable code, `Seq<char>` in contracts.
#[derive(Debug, PartialEq)]
pub struct Expr<S> {
    pub equality: Equality<S>,
}

/// `equality := comparison ( ( "!=" | "==" ) comparison )*`, folded to the left: each operator
/// application has everything before it as its left operand.
#[derive(Debug, PartialEq)]
pub enum Equality<S> {
    Comparison(Comparison<S>),
    Binary { left: Box<Equality<S>>, rhs: Rhs<EquaityOp, Comparison<S>> },
}

/// `comparison := term ( ( ">" | ">=" | "<" | "<=" ) term )*`, folded to the left: each operator
/// application has everything before it as its left operand.
#[derive(Debug, PartialEq)]
pub enum Comparison<S> {
    Term(Term<S>),
    Binary { left: Box<Comparison<S>>, rhs: Rhs<ComparisonOp, Term<S>> },
}

/// `term := factor ( ( "-" | "+" ) factor )*`, folded to the left: each operator
/// application has everything before it as its left operand.
#[derive(Debug, PartialEq)]
pub enum Term<S> {
    Factor(Factor<S>),
    Binary { left: Box<Term<S>>, rhs: Rhs<TermOp, Factor<S>> },
}

/// `factor := unary ( ( "/" | "*" ) unary )*`, folded to the left: each operator
/// application has everything before it as its left operand.
#[derive(Debug, PartialEq)]
pub enum Factor<S> {
    Unary(Unary<S>),
    Binary { left: Box<Factor<S>>, rhs: Rhs<FactorOp, Unary<S>> },
}

/// `unary := ( "!" | "-" ) unary | primary`.
#[derive(Debug, PartialEq)]
pub enum Unary<S> {
    Unary { op: UnaryOp, right: Box<Unary<S>> },
    Primary(Primary<S>),
}

/// `primary := NUMBER | STRING | "true" | "false" | "nil" | "(" expression ")"`.
/// A number holds its numeral as written.
#[derive(Debug, PartialEq)]
pub enum Primary<S> {
    Number(S),
    String(S),
    True,
    False,
    Nil,
    Grouping(Grouping<S>),
}

/// An expression in parentheses.
#[derive(Debug, PartialEq)]
pub struct Grouping<S> {
    pub expression: Box<Expr<S>>,
}

/// Why a token sequence is not an expression. `found` is the lexeme of the
/// offending token, and `line` its line.
#[derive(Debug, PartialEq)]
#[allow(inconsistent_fields)]
pub enum ParseError<S> {
    /// An operand was due. `found` is `None` at the end of the input, where
    /// `line` is the line of the last token (1 if there is none).
    ExpectedExpression { found: Option<S>, line: usize },
    /// No `)` follows the expression behind a `(` that stands on `line`.
    UnterminatedGrouping { line: usize },
    /// A complete expression is followed by more tokens.
    UnexpectedTrailingInput { found: S, line: usize },
}

impl Expr<String> {
    pub open spec fn model(self) -> Expr<Seq<char>>
        decreases self,
    {
        Expr { equality: self.equality.model() }
    }
}

impl Equality<String> {
    pub open spec fn model(self) -> Equality<Seq<char>>
        decreases self,
    {
        match self {
            Equality::Comparison(inner) => Equality::Comparison(inner.model()),
            Equality::Binary { left, rhs } => Equality::Binary {
                left: Box::new(left.model()),
                rhs: Rhs { op: rhs.op, right: Box::new(rhs.right.model()) },
            },
        }
    }
}

impl Comparison<String> {
    pub open spec fn model(self) -> Comparison<Seq<char>>
        decreases self,
    {
        match self {
            Comparison::Term(inner) => Comparison::Term(inner.model()),
            Comparison::Binary { left, rhs } => Comparison::Binary {
                left: Box::new(left.model()),
                rhs: Rhs { op: rhs.op, right: Box::new(rhs.right.model()) },
            },
        }
    }
}

impl Term<String> {
    pub open spec fn model(self) -> Term<Seq<char>>
        decreases self,
    {
        match self {
            Term::Factor(inner) => Term::Factor(inner.model()),
            Term::Binary { left, rhs } => Term::Binary {
                left: Box::new(left.model()),
                rhs: Rhs { op: rhs.op, right: Box::new(rhs.right.model()) },
            },
        }
    }
}

impl Factor<String> {
    pub open spec fn model(self) -> Factor<Seq<char>>
        decreases self,
    {
        match self {
            Factor::Unary(inner) => Factor::Unary(inner.model()),
            Factor::Binary { left, rhs } => Factor::Binary {
                left: Box::new(left.model()),
                rhs: Rhs { op: rhs.op, right: Box::new(rhs.right.model()) },
            },
        }
    }
}

impl Unary<String> {
    pub open spec fn model(self) -> Unary<Seq<char>>
        decreases self,
    {
        match self {
            Unary::Unary { op, right } => Unary::Unary { op, right: Box::new(right.model()) },
            Unary::Primary(inner) => Unary::Primary(inner.model()),
        }
    }
}

impl Primary<String> {
    pub open spec fn model(self) -> Primary<Seq<char>>
        decreases self,
    {
        match self {
            Primary::Number(text) => Primary::Number(text@),
            Primary::String(text) => Primary::String(text@),
            Primary::True => Primary::True,
            Primary::False => Primary::False,
            Primary::Nil => Primary::Nil,
            Primary::Grouping(group) => Primary::Grouping(
                Grouping { expression: Box::new(group.expression.model()) },
            ),
        }
    }
}

impl ParseError<String> {
    pub open spec fn model(self) -> ParseError<Seq<char>> {
        match self {
            ParseError::ExpectedExpression { found, line } => ParseError::ExpectedExpression {
                found: match found {
                    Some(text) => Some(text@),
                    None => None,
                },
                line,
            },
            ParseError::UnterminatedGrouping { line } => ParseError::UnterminatedGrouping { line },
            ParseError::UnexpectedTrailingInput { found, line } => ParseError::UnexpectedTrailingInput {
                found: found@,
                line,
            },
        }
    }
}

} // verus!
