use vstd::prelude::*;
use crate::ast::{
    Comparison, ComparisonOp, EquaityOp, Equality, Expr, Factor, FactorOp, Grouping, ParseError,
    Primary, Rhs, Term, TermOp, Unary, UnaryOp,
};
use crate::token::{Token, TokenKind};

verus! {

/// A token sequence as contracts see it.
pub type Tokens = Seq<Token<Seq<char>>>;

/// What a grammar rule makes of the tokens from some position on: the node and
/// the position behind it, or the error.
pub type Parsed<N> = Result<(N, int), ParseError<Seq<char>>>;

/// The operator of the equality level that a token of category `kind` is, if any.
pub open spec fn equality_op(kind: TokenKind<Seq<char>>) -> Option<EquaityOp> {
    match kind {
        TokenKind::BangEqual => Some(EquaityOp::NotEqual),
        TokenKind::EqualEqual => Some(EquaityOp::Equal),
        _ => None,
    }
}

pub open spec fn equality_op_at(toks: Tokens, pos: int) -> Option<EquaityOp> {
    if 0 <= pos < toks.len() {
        equality_op(toks[pos].kind)
    } else {
        None
    }
}

/// The operator of the comparison level that a token of category `kind` is, if any.
pub open spec fn comparison_op(kind: TokenKind<Seq<char>>) -> Option<ComparisonOp> {
    match kind {
        TokenKind::Greater => Some(ComparisonOp::Greater),
        TokenKind::GreaterEqual => Some(ComparisonOp::GreaterEqual),
        TokenKind::Less => Some(ComparisonOp::Less),
        TokenKind::LessEqual => Some(ComparisonOp::LessEqual),
        _ => None,
    }
}

pub open spec fn comparison_op_at(toks: Tokens, pos: int) -> Option<ComparisonOp> {
    if 0 <= pos < toks.len() {
        comparison_op(toks[pos].kind)
    } else {
        None
    }
}

/// The operator of the term level that a token of category `kind` is, if any.
pub open spec fn term_op(kind: TokenKind<Seq<char>>) -> Option<TermOp> {
    match kind {
        TokenKind::Minus => Some(TermOp::Minus),
        TokenKind::Plus => Some(TermOp::Plus),
        _ => None,
    }
}

pub open spec fn term_op_at(toks: Tokens, pos: int) -> Option<TermOp> {
    if 0 <= pos < toks.len() {
        term_op(toks[pos].kind)
    } else {
        None
    }
}

/// The operator of the factor level that a token of category `kind` is, if any.
pub open spec fn factor_op(kind: TokenKind<Seq<char>>) -> Option<FactorOp> {
    match kind {
        TokenKind::Slash => Some(FactorOp::Div),
        TokenKind::Star => Some(FactorOp::Mul),
        _ => None,
    }
}

pub open spec fn factor_op_at(toks: Tokens, pos: int) -> Option<FactorOp> {
    if 0 <= pos < toks.len() {
        factor_op(toks[pos].kind)
    } else {
        None
    }
}

/// The prefix operator that a token of category `kind` is, if any.
pub open spec fn unary_op(kind: TokenKind<Seq<char>>) -> Option<UnaryOp> {
    match kind {
        TokenKind::Bang => Some(UnaryOp::Not),
        TokenKind::Minus => Some(UnaryOp::Minus),
        _ => None,
    }
}

pub open spec fn unary_op_at(toks: Tokens, pos: int) -> Option<UnaryOp> {
    if 0 <= pos < toks.len() {
        unary_op(toks[pos].kind)
    } else {
        None
    }
}

/// Whether a `)` stands at `pos`.
pub open spec fn closes_at(toks: Tokens, pos: int) -> bool {
    0 <= pos < toks.len() && toks[pos].kind == TokenKind::<Seq<char>>::RightParen
}

/// The line reported where the input ends: that of the last token, or 1.
pub open spec fn last_line(toks: Tokens) -> usize {
    if toks.len() > 0 {
        toks[toks.len() - 1].line
    } else {
        1
    }
}

/// `expression := equality`.
pub open spec fn parse_expression(toks: Tokens, pos: int) -> Parsed<Expr<Seq<char>>>
    decreases toks.len() - pos, 10int,
{
    match parse_equality(toks, pos) {
        Ok((equality, next)) => Ok((Expr { equality }, next)),
        Err(e) => Err(e),
    }
}

/// `equality := comparison ( ( "!=" | "==" ) comparison )*`.
pub open spec fn parse_equality(toks: Tokens, pos: int) -> Parsed<Equality<Seq<char>>>
    decreases toks.len() - pos, 9int,
{
    match parse_comparison(toks, pos) {
        Ok((first, next)) => if pos <= next <= toks.len() {
            equality_rest(toks, Equality::Comparison(first), next)
        } else {
            Ok((Equality::Comparison(first), next))
        },
        Err(e) => Err(e),
    }
}

/// The rest of a equality chain whose operands so far are folded into `left`:
/// while an operator of this level follows, the operand behind it is parsed and
/// `left`, the operator and that operand become the new `left`. (The bounds on
/// the position behind an operand hold of every parse; they are spelled out
/// because the recursion descends on them.)
pub open spec fn equality_rest(toks: Tokens, left: Equality<Seq<char>>, pos: int) -> Parsed<Equality<Seq<char>>>
    decreases toks.len() - pos, 8int,
{
    match equality_op_at(toks, pos) {
        Some(op) => match parse_comparison(toks, pos + 1) {
            Ok((right, next)) => if pos < next <= toks.len() {
                equality_rest(
                    toks,
                    Equality::Binary { left: Box::new(left), rhs: Rhs { op, right: Box::new(right) } },
                    next,
                )
            } else {
                Ok((left, pos))
            },
            Err(e) => Err(e),
        },
        None => Ok((left, pos)),
    }
}

/// `comparison := term ( ( ">" | ">=" | "<" | "<=" ) term )*`.
pub open spec fn parse_comparison(toks: Tokens, pos: int) -> Parsed<Comparison<Seq<char>>>
    decreases toks.len() - pos, 7int,
{
    match parse_term(toks, pos) {
        Ok((first, next)) => if pos <= next <= toks.len() {
            comparison_rest(toks, Comparison::Term(first), next)
        } else {
            Ok((Comparison::Term(first), next))
        },
        Err(e) => Err(e),
    }
}

/// The rest of a comparison chain whose operands so far are folded into `left`:
/// while an operator of this level follows, the operand behind it is parsed and
/// `left`, the operator and that operand become the new `left`. (The bounds on
/// the position behind an operand hold of every parse; they are spelled out
/// because the recursion descends on them.)
pub open spec fn comparison_rest(toks: Tokens, left: Comparison<Seq<char>>, pos: int) -> Parsed<Comparison<Seq<char>>>
    decreases toks.len() - pos, 6int,
{
    match comparison_op_at(toks, pos) {
        Some(op) => match parse_term(toks, pos + 1) {
            Ok((right, next)) => if pos < next <= toks.len() {
                comparison_rest(
                    toks,
                    Comparison::Binary { left: Box::new(left), rhs: Rhs { op, right: Box::new(right) } },
                    next,
                )
            } else {
                Ok((left, pos))
            },
            Err(e) => Err(e),
        },
        None => Ok((left, pos)),
    }
}

/// `term := factor ( ( "-" | "+" ) factor )*`.
pub open spec fn parse_term(toks: Tokens, pos: int) -> Parsed<Term<Seq<char>>>
    decreases toks.len() - pos, 5int,
{
    match parse_factor(toks, pos) {
        Ok((first, next)) => if pos <= next <= toks.len() {
            term_rest(toks, Term::Factor(first), next)
        } else {
            Ok((Term::Factor(first), next))
        },
        Err(e) => Err(e),
    }
}

/// The rest of a term chain whose operands so far are folded into `left`:
/// while an operator of this level follows, the operand behind it is parsed and
/// `left`, the operator and that operand become the new `left`. (The bounds on
/// the position behind an operand hold of every parse; they are spelled out
/// because the recursion descends on them.)
pub open spec fn term_rest(toks: Tokens, left: Term<Seq<char>>, pos: int) -> Parsed<Term<Seq<char>>>
    decreases toks.len() - pos, 4int,
{
    match term_op_at(toks, pos) {
        Some(op) => match parse_factor(toks, pos + 1) {
            Ok((right, next)) => if pos < next <= toks.len() {
                term_rest(
                    toks,
                    Term::Binary { left: Box::new(left), rhs: Rhs { op, right: Box::new(right) } },
                    next,
                )
            } else {
                Ok((left, pos))
            },
            Err(e) => Err(e),
        },
        None => Ok((left, pos)),
    }
}

/// `factor := unary ( ( "/" | "*" ) unary )*`.
pub open spec fn parse_factor(toks: Tokens, pos: int) -> Parsed<Factor<Seq<char>>>
    decreases toks.len() - pos, 3int,
{
    match parse_unary(toks, pos) {
        Ok((first, next)) => if pos <= next <= toks.len() {
            factor_rest(toks, Factor::Unary(first), next)
        } else {
            Ok((Factor::Unary(first), next))
        },
        Err(e) => Err(e),
    }
}

/// The rest of a factor chain whose operands so far are folded into `left`:
/// while an operator of this level follows, the operand behind it is parsed and
/// `left`, the operator and that operand become the new `left`. (The bounds on
/// the position behind an operand hold of every parse; they are spelled out
/// because the recursion descends on them.)
pub open spec fn factor_rest(toks: Tokens, left: Factor<Seq<char>>, pos: int) -> Parsed<Factor<Seq<char>>>
    decreases toks.len() - pos, 2int,
{
    match factor_op_at(toks, pos) {
        Some(op) => match parse_unary(toks, pos + 1) {
            Ok((right, next)) => if pos < next <= toks.len() {
                factor_rest(
                    toks,
                    Factor::Binary { left: Box::new(left), rhs: Rhs { op, right: Box::new(right) } },
                    next,
                )
            } else {
                Ok((left, pos))
            },
            Err(e) => Err(e),
        },
        None => Ok((left, pos)),
    }
}

/// `unary := ( "!" | "-" ) unary | primary`.
pub open spec fn parse_unary(toks: Tokens, pos: int) -> Parsed<Unary<Seq<char>>>
    decreases toks.len() - pos, 1int,
{
    match unary_op_at(toks, pos) {
        Some(op) => match parse_unary(toks, pos + 1) {
            Ok((right, next)) => Ok((Unary::Unary { op, right: Box::new(right) }, next)),
            Err(e) => Err(e),
        },
        None => match parse_primary(toks, pos) {
            Ok((primary, next)) => Ok((Unary::Primary(primary), next)),
            Err(e) => Err(e),
        },
    }
}

/// `primary := NUMBER | STRING | "true" | "false" | "nil" | "(" expression ")"`.
pub open spec fn parse_primary(toks: Tokens, pos: int) -> Parsed<Primary<Seq<char>>>
    decreases toks.len() - pos, 0int,
{
    if 0 <= pos < toks.len() {
        match toks[pos].kind {
            TokenKind::Number(text) => Ok((Primary::Number(text), pos + 1)),
            TokenKind::String(text) => Ok((Primary::String(text), pos + 1)),
            TokenKind::True => Ok((Primary::True, pos + 1)),
            TokenKind::False => Ok((Primary::False, pos + 1)),
            TokenKind::Nil => Ok((Primary::Nil, pos + 1)),
            TokenKind::LeftParen => match parse_expression(toks, pos + 1) {
                Ok((inner, next)) => if closes_at(toks, next) {
                    Ok((Primary::Grouping(Grouping { expression: Box::new(inner) }), next + 1))
                } else {
                    Err(ParseError::UnterminatedGrouping { line: toks[pos].line })
                },
                Err(e) => Err(e),
            },
            _ => Err(
                ParseError::ExpectedExpression {
                    found: Some(toks[pos].lexeme),
                    line: toks[pos].line,
                },
            ),
        }
    } else {
        Err(ParseError::ExpectedExpression { found: None, line: last_line(toks) })
    }
}

/// The expression that a whole token sequence is: the tokens must form one
/// expression with nothing behind it.
pub open spec fn parse_tokens(toks: Tokens) -> Result<Expr<Seq<char>>, ParseError<Seq<char>>> {
    match parse_expression(toks, 0) {
        Ok((expr, next)) => if 0 <= next < toks.len() {
            Err(
                ParseError::UnexpectedTrailingInput {
                    found: toks[next].lexeme,
                    line: toks[next].line,
                },
            )
        } else {
            Ok(expr)
        },
        Err(e) => Err(e),
    }
}

} // verus!
