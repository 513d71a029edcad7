use vstd::prelude::*;
use crate::ast::{
    Comparison, ComparisonOp, EquaityOp, Equality, Expr, Factor, FactorOp, Primary, Rhs, Term,
    TermOp, Unary, UnaryOp,
};
use crate::grammar::{
    closes_at, comparison_op_at, comparison_rest, equality_op_at, equality_rest, factor_op_at,
    factor_rest, parse_comparison, parse_equality, parse_expression, parse_factor, parse_primary,
    parse_term, parse_tokens, parse_unary, term_op_at, term_rest, unary_op_at, Tokens,
};
use crate::token::TokenKind;

verus! {

/// A sequence of token categories.
pub type Kinds = Seq<TokenKind<Seq<char>>>;

/// The categories of the tokens from `from` up to, not including, `to`.
pub open spec fn kinds_between(toks: Tokens, from: int, to: int) -> Kinds {
    Seq::new((to - from) as nat, |i: int| toks[from + i].kind)
}

/// The token that writes an operator of the equality level.
pub open spec fn equality_token(op: EquaityOp) -> TokenKind<Seq<char>> {
    match op {
        EquaityOp::NotEqual => TokenKind::BangEqual,
        EquaityOp::Equal => TokenKind::EqualEqual,
    }
}

/// The token that writes an operator of the comparison level.
pub open spec fn comparison_token(op: ComparisonOp) -> TokenKind<Seq<char>> {
    match op {
        ComparisonOp::Greater => TokenKind::Greater,
        ComparisonOp::GreaterEqual => TokenKind::GreaterEqual,
        ComparisonOp::Less => TokenKind::Less,
        ComparisonOp::LessEqual => TokenKind::LessEqual,
    }
}

/// The token that writes an operator of the term level.
pub open spec fn term_token(op: TermOp) -> TokenKind<Seq<char>> {
    match op {
        TermOp::Minus => TokenKind::Minus,
        TermOp::Plus => TokenKind::Plus,
    }
}

/// The token that writes an operator of the factor level.
pub open spec fn factor_token(op: FactorOp) -> TokenKind<Seq<char>> {
    match op {
        FactorOp::Div => TokenKind::Slash,
        FactorOp::Mul => TokenKind::Star,
    }
}

/// The token that writes a prefix operator.
pub open spec fn unary_token(op: UnaryOp) -> TokenKind<Seq<char>> {
    match op {
        UnaryOp::Not => TokenKind::Bang,
        UnaryOp::Minus => TokenKind::Minus,
    }
}

impl Expr<Seq<char>> {
    /// The token categories that write this expression, in order.
    pub open spec fn written(self) -> Kinds
        decreases self,
    {
        self.equality.written()
    }
}

impl Equality<Seq<char>> {
    /// The token categories that write this node, in order.
    pub open spec fn written(self) -> Kinds
        decreases self,
    {
        match self {
            Equality::Comparison(inner) => inner.written(),
            Equality::Binary { left, rhs } => left.written() + seq![equality_token(rhs.op)]
                + rhs.right.written(),
        }
    }
}

impl Comparison<Seq<char>> {
    /// The token categories that write this node, in order.
    pub open spec fn written(self) -> Kinds
        decreases self,
    {
        match self {
            Comparison::Term(inner) => inner.written(),
            Comparison::Binary { left, rhs } => left.written() + seq![comparison_token(rhs.op)]
                + rhs.right.written(),
        }
    }
}

impl Term<Seq<char>> {
    /// The token categories that write this node, in order.
    pub open spec fn written(self) -> Kinds
        decreases self,
    {
        match self {
            Term::Factor(inner) => inner.written(),
            Term::Binary { left, rhs } => left.written() + seq![term_token(rhs.op)]
                + rhs.right.written(),
        }
    }
}

impl Factor<Seq<char>> {
    /// The token categories that write this node, in order.
    pub open spec fn written(self) -> Kinds
        decreases self,
    {
        match self {
            Factor::Unary(inner) => inner.written(),
            Factor::Binary { left, rhs } => left.written() + seq![factor_token(rhs.op)]
                + rhs.right.written(),
        }
    }
}

impl Unary<Seq<char>> {
    /// The token categories that write this node, in order.
    pub open spec fn written(self) -> Kinds
        decreases self,
    {
        match self {
            Unary::Unary { op, right } => seq![unary_token(op)] + right.written(),
            Unary::Primary(inner) => inner.written(),
        }
    }
}

impl Primary<Seq<char>> {
    /// The token categories that write this node, in order.
    pub open spec fn written(self) -> Kinds
        decreases self,
    {
        match self {
            Primary::Number(text) => seq![TokenKind::Number(text)],
            Primary::String(text) => seq![TokenKind::String(text)],
            Primary::True => seq![TokenKind::True],
            Primary::False => seq![TokenKind::False],
            Primary::Nil => seq![TokenKind::Nil],
            Primary::Grouping(group) => seq![TokenKind::LeftParen] + group.expression.written()
                + seq![TokenKind::RightParen],
        }
    }
}

/// A parsed expression takes at least one token, stays inside the sequence, and
/// writes exactly the tokens that it took.
pub proof fn lemma_expression_written(toks: Tokens, pos: int)
    requires
        0 <= pos <= toks.len(),
    ensures
        parse_expression(toks, pos) matches Ok((node, next)) ==> pos < next <= toks.len()
            && node.written() == kinds_between(toks, pos, next),
    decreases toks.len() - pos, 10int,
{
    lemma_equality_written(toks, pos);
}

pub proof fn lemma_equality_written(toks: Tokens, pos: int)
    requires
        0 <= pos <= toks.len(),
    ensures
        parse_equality(toks, pos) matches Ok((node, next)) ==> pos < next <= toks.len()
            && node.written() == kinds_between(toks, pos, next),
    decreases toks.len() - pos, 9int,
{
    lemma_comparison_written(toks, pos);
    if let Ok((first, next)) = parse_comparison(toks, pos) {
        lemma_equality_rest_written(toks, Equality::Comparison(first), pos, next);
    }
}

pub proof fn lemma_equality_rest_written(toks: Tokens, left: Equality<Seq<char>>, start: int, pos: int)
    requires
        0 <= start < pos <= toks.len(),
        left.written() == kinds_between(toks, start, pos),
    ensures
        equality_rest(toks, left, pos) matches Ok((node, next)) ==> pos <= next <= toks.len()
            && node.written() == kinds_between(toks, start, next),
    decreases toks.len() - pos, 8int,
{
    if let Some(op) = equality_op_at(toks, pos) {
        lemma_comparison_written(toks, pos + 1);
        if let Ok((right, next)) = parse_comparison(toks, pos + 1) {
            let folded = Equality::Binary {
                left: Box::new(left),
                rhs: Rhs { op, right: Box::new(right) },
            };
            assert(toks[pos].kind == equality_token(op));
            assert(folded.written() =~= kinds_between(toks, start, next));
            lemma_equality_rest_written(toks, folded, start, next);
        }
    }
}

pub proof fn lemma_comparison_written(toks: Tokens, pos: int)
    requires
        0 <= pos <= toks.len(),
    ensures
        parse_comparison(toks, pos) matches Ok((node, next)) ==> pos < next <= toks.len()
            && node.written() == kinds_between(toks, pos, next),
    decreases toks.len() - pos, 7int,
{
    lemma_term_written(toks, pos);
    if let Ok((first, next)) = parse_term(toks, pos) {
        lemma_comparison_rest_written(toks, Comparison::Term(first), pos, next);
    }
}

pub proof fn lemma_comparison_rest_written(toks: Tokens, left: Comparison<Seq<char>>, start: int, pos: int)
    requires
        0 <= start < pos <= toks.len(),
        left.written() == kinds_between(toks, start, pos),
    ensures
        comparison_rest(toks, left, pos) matches Ok((node, next)) ==> pos <= next <= toks.len()
            && node.written() == kinds_between(toks, start, next),
    decreases toks.len() - pos, 6int,
{
    if let Some(op) = comparison_op_at(toks, pos) {
        lemma_term_written(toks, pos + 1);
        if let Ok((right, next)) = parse_term(toks, pos + 1) {
            let folded = Comparison::Binary {
                left: Box::new(left),
                rhs: Rhs { op, right: Box::new(right) },
            };
            assert(toks[pos].kind == comparison_token(op));
            assert(folded.written() =~= kinds_between(toks, start, next));
            lemma_comparison_rest_written(toks, folded, start, next);
        }
    }
}

pub proof fn lemma_term_written(toks: Tokens, pos: int)
    requires
        0 <= pos <= toks.len(),
    ensures
        parse_term(toks, pos) matches Ok((node, next)) ==> pos < next <= toks.len()
            && node.written() == kinds_between(toks, pos, next),
    decreases toks.len() - pos, 5int,
{
    lemma_factor_written(toks, pos);
    if let Ok((first, next)) = parse_factor(toks, pos) {
        lemma_term_rest_written(toks, Term::Factor(first), pos, next);
    }
}

pub proof fn lemma_term_rest_written(toks: Tokens, left: Term<Seq<char>>, start: int, pos: int)
    requires
        0 <= start < pos <= toks.len(),
        left.written() == kinds_between(toks, start, pos),
    ensures
        term_rest(toks, left, pos) matches Ok((node, next)) ==> pos <= next <= toks.len()
            && node.written() == kinds_between(toks, start, next),
    decreases toks.len() - pos, 4int,
{
    if let Some(op) = term_op_at(toks, pos) {
        lemma_factor_written(toks, pos + 1);
        if let Ok((right, next)) = parse_factor(toks, pos + 1) {
            let folded = Term::Binary {
                left: Box::new(left),
                rhs: Rhs { op, right: Box::new(right) },
            };
            assert(toks[pos].kind == term_token(op));
            assert(folded.written() =~= kinds_between(toks, start, next));
            lemma_term_rest_written(toks, folded, start, next);
        }
    }
}

pub proof fn lemma_factor_written(toks: Tokens, pos: int)
    requires
        0 <= pos <= toks.len(),
    ensures
        parse_factor(toks, pos) matches Ok((node, next)) ==> pos < next <= toks.len()
            && node.written() == kinds_between(toks, pos, next),
    decreases toks.len() - pos, 3int,
{
    lemma_unary_written(toks, pos);
    if let Ok((first, next)) = parse_unary(toks, pos) {
        lemma_factor_rest_written(toks, Factor::Unary(first), pos, next);
    }
}

pub proof fn lemma_factor_rest_written(toks: Tokens, left: Factor<Seq<char>>, start: int, pos: int)
    requires
        0 <= start < pos <= toks.len(),
        left.written() == kinds_between(toks, start, pos),
    ensures
        factor_rest(toks, left, pos) matches Ok((node, next)) ==> pos <= next <= toks.len()
            && node.written() == kinds_between(toks, start, next),
    decreases toks.len() - pos, 2int,
{
    if let Some(op) = factor_op_at(toks, pos) {
        lemma_unary_written(toks, pos + 1);
        if let Ok((right, next)) = parse_unary(toks, pos + 1) {
            let folded = Factor::Binary {
                left: Box::new(left),
                rhs: Rhs { op, right: Box::new(right) },
            };
            assert(toks[pos].kind == factor_token(op));
            assert(folded.written() =~= kinds_between(toks, start, next));
            lemma_factor_rest_written(toks, folded, start, next);
        }
    }
}

pub proof fn lemma_unary_written(toks: Tokens, pos: int)
    requires
        0 <= pos <= toks.len(),
    ensures
        parse_unary(toks, pos) matches Ok((node, next)) ==> pos < next <= toks.len()
            && node.written() == kinds_between(toks, pos, next),
    decreases toks.len() - pos, 1int,
{
    if let Some(op) = unary_op_at(toks, pos) {
        lemma_unary_written(toks, pos + 1);
        if let Ok((right, next)) = parse_unary(toks, pos + 1) {
            assert(toks[pos].kind == unary_token(op));
            assert(seq![unary_token(op)] + right.written() =~= kinds_between(toks, pos, next));
        }
    } else {
        lemma_primary_written(toks, pos);
    }
}

pub proof fn lemma_primary_written(toks: Tokens, pos: int)
    requires
        0 <= pos <= toks.len(),
    ensures
        parse_primary(toks, pos) matches Ok((node, next)) ==> pos < next <= toks.len()
            && node.written() == kinds_between(toks, pos, next),
    decreases toks.len() - pos, 0int,
{
    if pos < toks.len() {
        if toks[pos].kind == TokenKind::<Seq<char>>::LeftParen {
            lemma_expression_written(toks, pos + 1);
            if let Ok((inner, next)) = parse_expression(toks, pos + 1) {
                if closes_at(toks, next) {
                    assert(seq![TokenKind::<Seq<char>>::LeftParen] + inner.written()
                        + seq![TokenKind::<Seq<char>>::RightParen] =~= kinds_between(
                        toks,
                        pos,
                        next + 1,
                    ));
                }
            }
        } else if let Ok((node, next)) = parse_primary(toks, pos) {
            assert(node.written() =~= kinds_between(toks, pos, next));
        }
    }
}

/// The tree of a successful parse writes the whole token sequence: read in
/// order, its operators, literals and parentheses are the categories of the
/// tokens that were parsed, each of them once.
pub proof fn lemma_parsed_tree_writes_tokens(toks: Tokens)
    ensures
        parse_tokens(toks) matches Ok(expr) ==> expr.written() == kinds_between(
            toks,
            0,
            toks.len() as int,
        ),
{
    lemma_expression_written(toks, 0);
}

} // verus!
