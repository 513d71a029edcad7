use vstd::prelude::*;
use crate::ast::{
    Comparison, ComparisonOp, EquaityOp, Equality, Expr, Factor, FactorOp, Grouping, ParseError,
    Primary, Rhs, Term, TermOp, Unary, UnaryOp,
};
use crate::grammar::{
    closes_at, comparison_op_at, comparison_rest, equality_op_at, equality_rest, factor_op_at,
    factor_rest, last_line, parse_comparison, parse_equality, parse_expression, parse_factor,
    parse_primary, parse_term, parse_tokens, parse_unary, term_op_at, term_rest, unary_op_at,
    Tokens,
};
use crate::token::{Token, TokenKind};

verus! {

/// The mathematical values of a sequence of tokens.
pub open spec fn token_models(tokens: Seq<Token<String>>) -> Tokens {
    Seq::new(tokens.len(), |i: int| tokens[i]@)
}

/// A recursive-descent parser over one token sequence, with one token of
/// lookahead and no backtracking.
pub struct Parser {
    tokens: Vec<Token<String>>,
}

impl Parser {
    /// The tokens that are parsed.
    pub closed spec fn tokens(&self) -> Tokens {
        token_models(self.tokens@)
    }

    pub fn new(tokens: Vec<Token<String>>) -> (parser: Self)
        ensures
            parser.tokens() == token_models(tokens@),
    {
        Parser { tokens }
    }

    /// Parses the whole sequence as one expression.
    pub fn parse(&self) -> (out: Result<Expr<String>, ParseError<String>>)
        ensures
            match out {
                Ok(expr) => parse_tokens(self.tokens()) == Ok::<
                    Expr<Seq<char>>,
                    ParseError<Seq<char>>,
                >(expr.model()),
                Err(e) => parse_tokens(self.tokens()) == Err::<
                    Expr<Seq<char>>,
                    ParseError<Seq<char>>,
                >(e.model()),
            },
    {
        match self.expression(0) {
            Ok((expr, next)) => {
                if next < self.tokens.len() {
                    Err(
                        ParseError::UnexpectedTrailingInput {
                            found: self.tokens[next].lexeme.clone(),
                            line: self.tokens[next].line,
                        },
                    )
                } else {
                    Ok(expr)
                }
            },
            Err(e) => Err(e),
        }
    }

    fn last_line(&self) -> (line: usize)
        ensures
            line == last_line(self.tokens()),
    {
        let n = self.tokens.len();
        if n > 0 {
            self.tokens[n - 1].line
        } else {
            1
        }
    }

    fn expression(&self, pos: usize) -> (out: Result<(Expr<String>, usize), ParseError<String>>)
        requires
            pos <= self.tokens().len(),
        ensures
            match out {
                Ok((node, next)) => pos < next <= self.tokens().len() && parse_expression(
                    self.tokens(),
                    pos as int,
                ) == Ok::<(Expr<Seq<char>>, int), ParseError<Seq<char>>>((node.model(), next as int)),
                Err(e) => parse_expression(self.tokens(), pos as int) == Err::<
                    (Expr<Seq<char>>, int),
                    ParseError<Seq<char>>,
                >(e.model()),
            },
        decreases self.tokens().len() - pos, 10int,
    {
        match self.equality(pos) {
            Ok((equality, next)) => Ok((Expr { equality }, next)),
            Err(e) => Err(e),
        }
    }

    fn equality_op_at(&self, pos: usize) -> (op: Option<EquaityOp>)
        requires
            pos <= self.tokens().len(),
        ensures
            op == equality_op_at(self.tokens(), pos as int),
            op is Some ==> pos < self.tokens().len() && pos < usize::MAX,
    {
        if pos >= self.tokens.len() {
            return None;
        }
        match &self.tokens[pos].kind {
            TokenKind::BangEqual => Some(EquaityOp::NotEqual),
            TokenKind::EqualEqual => Some(EquaityOp::Equal),
            _ => None,
        }
    }

    fn equality(&self, pos: usize) -> (out: Result<(Equality<String>, usize), ParseError<String>>)
        requires
            pos <= self.tokens().len(),
        ensures
            match out {
                Ok((node, next)) => pos < next <= self.tokens().len() && parse_equality(
                    self.tokens(),
                    pos as int,
                ) == Ok::<(Equality<Seq<char>>, int), ParseError<Seq<char>>>((node.model(), next as int)),
                Err(e) => parse_equality(self.tokens(), pos as int) == Err::<
                    (Equality<Seq<char>>, int),
                    ParseError<Seq<char>>,
                >(e.model()),
            },
        decreases self.tokens().len() - pos, 9int,
    {
        let (first, start) = match self.comparison(pos) {
            Ok(parsed) => parsed,
            Err(e) => {
                return Err(e);
            },
        };
        let mut left = Equality::Comparison(first);
        let mut next: usize = start;
        loop
            invariant
                pos < next <= self.tokens().len(),
                parse_equality(self.tokens(), pos as int) == equality_rest(
                    self.tokens(),
                    left.model(),
                    next as int,
                ),
            decreases self.tokens().len() - next,
        {
            let op = match self.equality_op_at(next) {
                Some(op) => op,
                None => {
                    return Ok((left, next));
                },
            };
            match self.comparison(next + 1) {
                Ok((right, after)) => {
                    left = Equality::Binary { left: Box::new(left), rhs: Rhs { op, right: Box::new(right) } };
                    next = after;
                },
                Err(e) => {
                    return Err(e);
                },
            }
        }
    }

    fn comparison_op_at(&self, pos: usize) -> (op: Option<ComparisonOp>)
        requires
            pos <= self.tokens().len(),
        ensures
            op == comparison_op_at(self.tokens(), pos as int),
            op is Some ==> pos < self.tokens().len() && pos < usize::MAX,
    {
        if pos >= self.tokens.len() {
            return None;
        }
        match &self.tokens[pos].kind {
            TokenKind::Greater => Some(ComparisonOp::Greater),
            TokenKind::GreaterEqual => Some(ComparisonOp::GreaterEqual),
            TokenKind::Less => Some(ComparisonOp::Less),
            TokenKind::LessEqual => Some(ComparisonOp::LessEqual),
            _ => None,
        }
    }

    fn comparison(&self, pos: usize) -> (out: Result<(Comparison<String>, usize), ParseError<String>>)
        requires
            pos <= self.tokens().len(),
        ensures
            match out {
                Ok((node, next)) => pos < next <= self.tokens().len() && parse_comparison(
                    self.tokens(),
                    pos as int,
                ) == Ok::<(Comparison<Seq<char>>, int), ParseError<Seq<char>>>((node.model(), next as int)),
                Err(e) => parse_comparison(self.tokens(), pos as int) == Err::<
                    (Comparison<Seq<char>>, int),
                    ParseError<Seq<char>>,
                >(e.model()),
            },
        decreases self.tokens().len() - pos, 7int,
    {
        let (first, start) = match self.term(pos) {
            Ok(parsed) => parsed,
            Err(e) => {
                return Err(e);
            },
        };
        let mut left = Comparison::Term(first);
        let mut next: usize = start;
        loop
            invariant
                pos < next <= self.tokens().len(),
                parse_comparison(self.tokens(), pos as int) == comparison_rest(
                    self.tokens(),
                    left.model(),
                    next as int,
                ),
            decreases self.tokens().len() - next,
        {
            let op = match self.comparison_op_at(next) {
                Some(op) => op,
                None => {
                    return Ok((left, next));
                },
            };
            match self.term(next + 1) {
                Ok((right, after)) => {
                    left = Comparison::Binary { left: Box::new(left), rhs: Rhs { op, right: Box::new(right) } };
                    next = after;
                },
                Err(e) => {
                    return Err(e);
                },
            }
        }
    }

    fn term_op_at(&self, pos: usize) -> (op: Option<TermOp>)
        requires
            pos <= self.tokens().len(),
        ensures
            op == term_op_at(self.tokens(), pos as int),
            op is Some ==> pos < self.tokens().len() && pos < usize::MAX,
    {
        if pos >= self.tokens.len() {
            return None;
        }
        match &self.tokens[pos].kind {
            TokenKind::Minus => Some(TermOp::Minus),
            TokenKind::Plus => Some(TermOp::Plus),
            _ => None,
        }
    }

    fn term(&self, pos: usize) -> (out: Result<(Term<String>, usize), ParseError<String>>)
        requires
            pos <= self.tokens().len(),
        ensures
            match out {
                Ok((node, next)) => pos < next <= self.tokens().len() && parse_term(
                    self.tokens(),
                    pos as int,
                ) == Ok::<(Term<Seq<char>>, int), ParseError<Seq<char>>>((node.model(), next as int)),
                Err(e) => parse_term(self.tokens(), pos as int) == Err::<
                    (Term<Seq<char>>, int),
                    ParseError<Seq<char>>,
                >(e.model()),
            },
        decreases self.tokens().len() - pos, 5int,
    {
        let (first, start) = match self.factor(pos) {
            Ok(parsed) => parsed,
            Err(e) => {
                return Err(e);
            },
        };
        let mut left = Term::Factor(first);
        let mut next: usize = start;
        loop
            invariant
                pos < next <= self.tokens().len(),
                parse_term(self.tokens(), pos as int) == term_rest(
                    self.tokens(),
                    left.model(),
                    next as int,
                ),
            decreases self.tokens().len() - next,
        {
            let op = match self.term_op_at(next) {
                Some(op) => op,
                None => {
                    return Ok((left, next));
                },
            };
            match self.factor(next + 1) {
                Ok((right, after)) => {
                    left = Term::Binary { left: Box::new(left), rhs: Rhs { op, right: Box::new(right) } };
                    next = after;
                },
                Err(e) => {
                    return Err(e);
                },
            }
        }
    }

    fn factor_op_at(&self, pos: usize) -> (op: Option<FactorOp>)
        requires
            pos <= self.tokens().len(),
        ensures
            op == factor_op_at(self.tokens(), pos as int),
            op is Some ==> pos < self.tokens().len() && pos < usize::MAX,
    {
        if pos >= self.tokens.len() {
            return None;
        }
        match &self.tokens[pos].kind {
            TokenKind::Slash => Some(FactorOp::Div),
            TokenKind::Star => Some(FactorOp::Mul),
            _ => None,
        }
    }

    fn factor(&self, pos: usize) -> (out: Result<(Factor<String>, usize), ParseError<String>>)
        requires
            pos <= self.tokens().len(),
        ensures
            match out {
                Ok((node, next)) => pos < next <= self.tokens().len() && parse_factor(
                    self.tokens(),
                    pos as int,
                ) == Ok::<(Factor<Seq<char>>, int), ParseError<Seq<char>>>((node.model(), next as int)),
                Err(e) => parse_factor(self.tokens(), pos as int) == Err::<
                    (Factor<Seq<char>>, int),
                    ParseError<Seq<char>>,
                >(e.model()),
            },
        decreases self.tokens().len() - pos, 3int,
    {
        let (first, start) = match self.unary(pos) {
            Ok(parsed) => parsed,
            Err(e) => {
                return Err(e);
            },
        };
        let mut left = Factor::Unary(first);
        let mut next: usize = start;
        loop
            invariant
                pos < next <= self.tokens().len(),
                parse_factor(self.tokens(), pos as int) == factor_rest(
                    self.tokens(),
                    left.model(),
                    next as int,
                ),
            decreases self.tokens().len() - next,
        {
            let op = match self.factor_op_at(next) {
                Some(op) => op,
                None => {
                    return Ok((left, next));
                },
            };
            match self.unary(next + 1) {
                Ok((right, after)) => {
                    left = Factor::Binary { left: Box::new(left), rhs: Rhs { op, right: Box::new(right) } };
                    next = after;
                },
                Err(e) => {
                    return Err(e);
                },
            }
        }
    }

    fn unary_op_at(&self, pos: usize) -> (op: Option<UnaryOp>)
        requires
            pos <= self.tokens().len(),
        ensures
            op == unary_op_at(self.tokens(), pos as int),
            op is Some ==> pos < self.tokens().len() && pos < usize::MAX,
    {
        if pos >= self.tokens.len() {
            return None;
        }
        match &self.tokens[pos].kind {
            TokenKind::Bang => Some(UnaryOp::Not),
            TokenKind::Minus => Some(UnaryOp::Minus),
            _ => None,
        }
    }

    fn unary(&self, pos: usize) -> (out: Result<(Unary<String>, usize), ParseError<String>>)
        requires
            pos <= self.tokens().len(),
        ensures
            match out {
                Ok((node, next)) => pos < next <= self.tokens().len() && parse_unary(
                    self.tokens(),
                    pos as int,
                ) == Ok::<(Unary<Seq<char>>, int), ParseError<Seq<char>>>((node.model(), next as int)),
                Err(e) => parse_unary(self.tokens(), pos as int) == Err::<
                    (Unary<Seq<char>>, int),
                    ParseError<Seq<char>>,
                >(e.model()),
            },
        decreases self.tokens().len() - pos, 1int,
    {
        match self.unary_op_at(pos) {
            Some(op) => match self.unary(pos + 1) {
                Ok((right, next)) => Ok((Unary::Unary { op, right: Box::new(right) }, next)),
                Err(e) => Err(e),
            },
            None => match self.primary(pos) {
                Ok((primary, next)) => Ok((Unary::Primary(primary), next)),
                Err(e) => Err(e),
            },
        }
    }

    fn closes_at(&self, pos: usize) -> (closes: bool)
        requires
            pos <= self.tokens().len(),
        ensures
            closes == closes_at(self.tokens(), pos as int),
    {
        if pos >= self.tokens.len() {
            return false;
        }
        match &self.tokens[pos].kind {
            TokenKind::RightParen => true,
            _ => false,
        }
    }

    fn primary(&self, pos: usize) -> (out: Result<(Primary<String>, usize), ParseError<String>>)
        requires
            pos <= self.tokens().len(),
        ensures
            match out {
                Ok((node, next)) => pos < next <= self.tokens().len() && parse_primary(
                    self.tokens(),
                    pos as int,
                ) == Ok::<(Primary<Seq<char>>, int), ParseError<Seq<char>>>((node.model(), next as int)),
                Err(e) => parse_primary(self.tokens(), pos as int) == Err::<
                    (Primary<Seq<char>>, int),
                    ParseError<Seq<char>>,
                >(e.model()),
            },
        decreases self.tokens().len() - pos, 0int,
    {
        if pos >= self.tokens.len() {
            return Err(ParseError::ExpectedExpression { found: None, line: self.last_line() });
        }
        let token = &self.tokens[pos];
        match &token.kind {
            TokenKind::Number(text) => Ok((Primary::Number(text.clone()), pos + 1)),
            TokenKind::String(text) => Ok((Primary::String(text.clone()), pos + 1)),
            TokenKind::True => Ok((Primary::True, pos + 1)),
            TokenKind::False => Ok((Primary::False, pos + 1)),
            TokenKind::Nil => Ok((Primary::Nil, pos + 1)),
            TokenKind::LeftParen => match self.expression(pos + 1) {
                Ok((inner, next)) => {
                    if self.closes_at(next) {
                        Ok((Primary::Grouping(Grouping { expression: Box::new(inner) }), next + 1))
                    } else {
                        Err(ParseError::UnterminatedGrouping { line: token.line })
                    }
                },
                Err(e) => Err(e),
            },
            _ => Err(
                ParseError::ExpectedExpression {
                    found: Some(token.lexeme.clone()),
                    line: token.line,
                },
            ),
        }
    }
}

} // verus!
