use rox::ast::{
    Comparison, ComparisonOp, EquaityOp, Equality, Expr, Factor, FactorOp, Grouping, ParseError,
    Primary, Rhs, Term, TermOp, Unary, UnaryOp,
};
use rox::lexer::tokenize;
use rox::parser::Parser;
use rox::token::Token;

fn parse(source: &str) -> Result<Expr<String>, ParseError<String>> {
    let tokens: Vec<Token<String>> = tokenize(source).into_iter().map(|item| item.unwrap()).collect();
    Parser::new(tokens).parse()
}

fn num(text: &str) -> Primary<String> {
    Primary::Number(text.to_string())
}

fn unary(primary: Primary<String>) -> Unary<String> {
    Unary::Primary(primary)
}

fn factor(primary: Primary<String>) -> Factor<String> {
    Factor::Unary(unary(primary))
}

fn term(primary: Primary<String>) -> Term<String> {
    Term::Factor(factor(primary))
}

fn term_expr(term: Term<String>) -> Expr<String> {
    Expr { equality: Equality::Comparison(Comparison::Term(term)) }
}

fn group(expr: Expr<String>) -> Primary<String> {
    Primary::Grouping(Grouping { expression: Box::new(expr) })
}

fn plus(left: Term<String>, right: Factor<String>) -> Term<String> {
    Term::Binary { left: Box::new(left), rhs: Rhs { op: TermOp::Plus, right: Box::new(right) } }
}

fn minus(left: Term<String>, right: Factor<String>) -> Term<String> {
    Term::Binary { left: Box::new(left), rhs: Rhs { op: TermOp::Minus, right: Box::new(right) } }
}

fn star(left: Factor<String>, right: Unary<String>) -> Factor<String> {
    Factor::Binary { left: Box::new(left), rhs: Rhs { op: FactorOp::Mul, right: Box::new(right) } }
}

fn not(right: Unary<String>) -> Unary<String> {
    Unary::Unary { op: UnaryOp::Not, right: Box::new(right) }
}

#[test]
fn multiplication_binds_tighter_than_addition() {
    let expected = term_expr(plus(term(num("1")), star(factor(num("2")), unary(num("3")))));
    assert_eq!(parse("1 + 2 * 3"), Ok(expected));
}

#[test]
fn grouping_overrides_precedence() {
    let inner = term_expr(plus(term(num("1")), factor(num("2"))));
    let expected = term_expr(Term::Factor(star(factor(group(inner)), unary(num("3")))));
    assert_eq!(parse("(1 + 2) * 3"), Ok(expected));
}

#[test]
fn missing_closing_parenthesis() {
    assert_eq!(parse("(1 + 2"), Err(ParseError::UnterminatedGrouping { line: 1 }));
    assert_eq!(parse("1 *\n\n(2 +\n3\n"), Err(ParseError::UnterminatedGrouping { line: 3 }));
    assert_eq!(parse("((1) 2)"), Err(ParseError::UnterminatedGrouping { line: 1 }));
}

#[test]
fn prefix_operators_stack() {
    let expected = term_expr(term_of(not(not(unary(Primary::True)))));
    assert_eq!(parse("!!true"), Ok(expected));
    let negated = Unary::Unary {
        op: UnaryOp::Minus,
        right: Box::new(Unary::Unary { op: UnaryOp::Minus, right: Box::new(unary(num("1"))) }),
    };
    assert_eq!(parse("--1"), Ok(term_expr(term_of(negated))));
}

fn term_of(unary: Unary<String>) -> Term<String> {
    Term::Factor(Factor::Unary(unary))
}

#[test]
fn binary_operators_fold_to_the_left() {
    let expected = term_expr(minus(minus(term(num("1")), factor(num("2"))), factor(num("3"))));
    assert_eq!(parse("1 - 2 - 3"), Ok(expected));
    let divided = Factor::Binary {
        left: Box::new(star(factor(num("8")), unary(num("4")))),
        rhs: Rhs { op: FactorOp::Div, right: Box::new(unary(num("2"))) },
    };
    assert_eq!(parse("8 * 4 / 2"), Ok(term_expr(Term::Factor(divided))));
}

#[test]
fn comparison_binds_tighter_than_equality() {
    let less = Comparison::Binary {
        left: Box::new(Comparison::Term(term(num("1")))),
        rhs: Rhs { op: ComparisonOp::Less, right: Box::new(term(num("2"))) },
    };
    let expected = Expr {
        equality: Equality::Binary {
            left: Box::new(Equality::Binary {
                left: Box::new(Equality::Comparison(less)),
                rhs: Rhs {
                    op: EquaityOp::Equal,
                    right: Box::new(Comparison::Term(term(Primary::True))),
                },
            }),
            rhs: Rhs {
                op: EquaityOp::NotEqual,
                right: Box::new(Comparison::Term(term(Primary::Nil))),
            },
        },
    };
    assert_eq!(parse("1 < 2 == true != nil"), Ok(expected));
}

#[test]
fn every_comparison_operator() {
    for (text, op) in [
        (">", ComparisonOp::Greater),
        (">=", ComparisonOp::GreaterEqual),
        ("<", ComparisonOp::Less),
        ("<=", ComparisonOp::LessEqual),
    ] {
        let expected = Expr {
            equality: Equality::Comparison(Comparison::Binary {
                left: Box::new(Comparison::Term(term(Primary::String("a".to_string())))),
                rhs: Rhs { op, right: Box::new(term(Primary::False)) },
            }),
        };
        assert_eq!(parse(&format!("\"a\" {} false", text)), Ok(expected));
    }
}

#[test]
fn literals() {
    assert_eq!(parse("12.5"), Ok(term_expr(term(num("12.5")))));
    assert_eq!(parse("\"a b\""), Ok(term_expr(term(Primary::String("a b".to_string())))));
    assert_eq!(parse("nil"), Ok(term_expr(term(Primary::Nil))));
    assert_eq!(parse("((false))"), Ok(term_expr(term(group(term_expr(term(group(term_expr(
        term(Primary::False)
    )))))))));
}

#[test]
fn an_operand_is_expected() {
    assert_eq!(parse(""), Err(ParseError::ExpectedExpression { found: None, line: 1 }));
    assert_eq!(parse("1 +\n"), Err(ParseError::ExpectedExpression { found: None, line: 1 }));
    assert_eq!(parse("\n\n1 *"), Err(ParseError::ExpectedExpression { found: None, line: 3 }));
    assert_eq!(
        parse("1\n+ * 2"),
        Err(ParseError::ExpectedExpression { found: Some("*".to_string()), line: 2 })
    );
    assert_eq!(
        parse("()"),
        Err(ParseError::ExpectedExpression { found: Some(")".to_string()), line: 1 })
    );
    assert_eq!(
        parse("x"),
        Err(ParseError::ExpectedExpression { found: Some("x".to_string()), line: 1 })
    );
}

#[test]
fn trailing_input_is_refused() {
    assert_eq!(
        parse("1 2"),
        Err(ParseError::UnexpectedTrailingInput { found: "2".to_string(), line: 1 })
    );
    assert_eq!(
        parse("(1)\n)"),
        Err(ParseError::UnexpectedTrailingInput { found: ")".to_string(), line: 2 })
    );
    assert_eq!(
        parse("true;"),
        Err(ParseError::UnexpectedTrailingInput { found: ";".to_string(), line: 1 })
    );
}
