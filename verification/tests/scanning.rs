use rox::chars::{
    is_alpha, is_alphanumeric, is_blank, is_digit, push_decimal, push_signed_decimal,
};
use rox::interpreter::Rox;
use rox::lexer::{match_keyword, run_continues, symbol, tokenize, Lexed, Lexer};
use rox::scan::{LexicalError, Run};
use rox::token::{Token, TokenKind};

fn token(kind: TokenKind<String>, lexeme: &str, line: usize) -> Lexed {
    Ok(Token::new(kind, lexeme.to_string(), line))
}

fn number(text: &str, line: usize) -> Lexed {
    token(TokenKind::Number(text.to_string()), text, line)
}

fn kinds(source: &str) -> Vec<TokenKind<String>> {
    tokenize(source).into_iter().map(|item| item.unwrap().kind).collect()
}

#[test]
fn number_with_fraction_is_one_token() {
    let items = tokenize("123.456");
    assert_eq!(items, vec![number("123.456", 1)]);
    match &items[0] {
        Ok(Token { kind: TokenKind::Number(text), .. }) => {
            assert_eq!(text.parse::<f64>().unwrap(), 123.456)
        }
        other => panic!("not a number: {:?}", other),
    }
}

#[test]
fn trailing_dot_is_a_token_of_its_own() {
    let items = tokenize("123.");
    assert_eq!(items, vec![number("123", 1), token(TokenKind::Dot, ".", 1)]);
    match &items[0] {
        Ok(Token { kind: TokenKind::Number(text), .. }) => {
            assert_eq!(text.parse::<f64>().unwrap(), 123.0)
        }
        other => panic!("not a number: {:?}", other),
    }
}

#[test]
fn dot_between_numbers_and_letters() {
    assert_eq!(
        tokenize("1.x 2.5.7"),
        vec![
            number("1", 1),
            token(TokenKind::Dot, ".", 1),
            token(TokenKind::Identifier, "x", 1),
            number("2.5", 1),
            token(TokenKind::Dot, ".", 1),
            number("7", 1),
        ]
    );
}

#[test]
fn string_over_two_lines_advances_the_line_by_one() {
    let items = tokenize("x \"ab\ncd\" y");
    assert_eq!(
        items,
        vec![
            token(TokenKind::Identifier, "x", 1),
            token(TokenKind::String("ab\ncd".to_string()), "\"ab\ncd\"", 1),
            token(TokenKind::Identifier, "y", 2),
        ]
    );
}

#[test]
fn string_keeps_its_raw_content() {
    assert_eq!(
        tokenize("\"a\\n // b\""),
        vec![token(TokenKind::String("a\\n // b".to_string()), "\"a\\n // b\"", 1)]
    );
    assert_eq!(tokenize("\"\""), vec![token(TokenKind::String(String::new()), "\"\"", 1)]);
}

#[test]
fn unterminated_string_is_the_only_item() {
    assert_eq!(
        tokenize("\"unterminated"),
        vec![Err(LexicalError::UnterminatedString { line: 1 })]
    );
    assert_eq!(
        tokenize("a\n\"never closed\nb c"),
        vec![
            token(TokenKind::Identifier, "a", 1),
            Err(LexicalError::UnterminatedString { line: 2 }),
        ]
    );
}

#[test]
fn scanning_recovers_past_an_unexpected_character() {
    let mut lexer = Lexer::new("1 @ 2");
    assert_eq!(lexer.lex(), Some(number("1", 1)));
    assert_eq!(lexer.lex(), Some(Err(LexicalError::UnexpectedCharacter { ch: '@', line: 1 })));
    assert_eq!(lexer.lex(), Some(number("2", 1)));
    assert_eq!(lexer.lex(), None);
    assert_eq!(lexer.lex(), None);
}

#[test]
fn several_errors_in_one_pass() {
    assert_eq!(
        tokenize("#\n$ a"),
        vec![
            Err(LexicalError::UnexpectedCharacter { ch: '#', line: 1 }),
            Err(LexicalError::UnexpectedCharacter { ch: '$', line: 2 }),
            token(TokenKind::Identifier, "a", 2),
        ]
    );
}

#[test]
fn punctuation() {
    assert_eq!(
        kinds("(){},.-+;*/"),
        vec![
            TokenKind::LeftParen,
            TokenKind::RightParen,
            TokenKind::LeftBrace,
            TokenKind::RightBrace,
            TokenKind::Comma,
            TokenKind::Dot,
            TokenKind::Minus,
            TokenKind::Plus,
            TokenKind::Semicolon,
            TokenKind::Star,
            TokenKind::Slash,
        ]
    );
}

#[test]
fn one_and_two_character_operators() {
    assert_eq!(
        tokenize("! != = == < <= > >="),
        vec![
            token(TokenKind::Bang, "!", 1),
            token(TokenKind::BangEqual, "!=", 1),
            token(TokenKind::Equal, "=", 1),
            token(TokenKind::EqualEqual, "==", 1),
            token(TokenKind::Less, "<", 1),
            token(TokenKind::LessEqual, "<=", 1),
            token(TokenKind::Greater, ">", 1),
            token(TokenKind::GreaterEqual, ">=", 1),
        ]
    );
    assert_eq!(
        kinds("===!"),
        vec![TokenKind::EqualEqual, TokenKind::Equal, TokenKind::Bang]
    );
}

#[test]
fn comments_run_to_the_end_of_the_line() {
    assert_eq!(
        tokenize("a // b c \"\n/ // tail"),
        vec![token(TokenKind::Identifier, "a", 1), token(TokenKind::Slash, "/", 2)]
    );
    assert_eq!(tokenize("// only a comment"), vec![]);
}

#[test]
fn whitespace_is_skipped() {
    assert_eq!(tokenize(""), vec![]);
    assert_eq!(tokenize(" \t\r\n \u{a0}\u{2003}"), vec![]);
    assert_eq!(tokenize(" \t\r 1\u{a0}"), vec![number("1", 1)]);
}

#[test]
fn keywords() {
    assert_eq!(
        kinds("and class else false fun for if nil or print return super this true var while"),
        vec![
            TokenKind::And,
            TokenKind::Class,
            TokenKind::Else,
            TokenKind::False,
            TokenKind::Fun,
            TokenKind::For,
            TokenKind::If,
            TokenKind::Nil,
            TokenKind::Or,
            TokenKind::Print,
            TokenKind::Return,
            TokenKind::Super,
            TokenKind::This,
            TokenKind::True,
            TokenKind::Var,
            TokenKind::While,
        ]
    );
}

#[test]
fn keywords_match_whole_words_only() {
    assert_eq!(
        tokenize("orchid and_ _if nil2 For"),
        vec![
            token(TokenKind::Identifier, "orchid", 1),
            token(TokenKind::Identifier, "and_", 1),
            token(TokenKind::Identifier, "_if", 1),
            token(TokenKind::Identifier, "nil2", 1),
            token(TokenKind::Identifier, "For", 1),
        ]
    );
    assert_eq!(match_keyword(&"while".to_string()), Some(TokenKind::While));
    assert_eq!(match_keyword(&"whil".to_string()), None);
    assert_eq!(match_keyword(&String::new()), None);
}

#[test]
fn lexemes_and_skipped_text_rebuild_the_source() {
    let source = "var x = 1.5; // set\n\tprint \"a\nb\" != x @ (nil)\n";
    let chars: Vec<char> = source.chars().collect();
    let mut rebuilt = String::new();
    let mut cursor = 0;
    for item in tokenize(source) {
        let lexeme: Vec<char> = match item {
            Ok(token) => token.lexeme.chars().collect(),
            Err(LexicalError::UnexpectedCharacter { ch, .. }) => vec![ch],
            Err(e) => panic!("{:?}", e),
        };
        let start = (cursor..chars.len())
            .find(|&at| chars[at..].starts_with(&lexeme))
            .unwrap();
        rebuilt.extend(&chars[cursor..start]);
        rebuilt.extend(&lexeme);
        cursor = start + lexeme.len();
    }
    rebuilt.extend(&chars[cursor..]);
    assert_eq!(rebuilt, source);
}

#[test]
fn lexemes_alone_rebuild_a_source_without_blanks() {
    let source = "(a+b)*\"c d\">=12.5!=!x";
    let rebuilt: String = tokenize(source).into_iter().map(|item| item.unwrap().lexeme).collect();
    assert_eq!(rebuilt, source);
}

#[test]
fn lines_never_decrease() {
    let source = "a\n\nb \"x\n\ny\" c // d\n@ e\n\"open\n\n";
    let lines: Vec<usize> = tokenize(source)
        .into_iter()
        .map(|item| match item {
            Ok(token) => token.line,
            Err(LexicalError::UnexpectedCharacter { line, .. }) => line,
            Err(LexicalError::UnterminatedString { line }) => line,
        })
        .collect();
    assert_eq!(lines, vec![1, 3, 3, 5, 6, 6, 7]);
}

#[test]
fn cursor_operations() {
    let mut lexer = Lexer::new("a\nb");
    assert!(!lexer.is_at_end());
    assert_eq!(lexer.peek(), Some('a'));
    assert_eq!(lexer.peek_next(), Some('\n'));
    assert_eq!(lexer.advance(), Some('a'));
    assert_eq!(lexer.advance(), Some('\n'));
    assert_eq!(lexer.peek(), Some('b'));
    assert_eq!(lexer.peek_next(), None);
    assert_eq!(lexer.lex(), Some(token(TokenKind::Identifier, "b", 2)));
    assert!(lexer.is_at_end());
    assert_eq!(lexer.peek(), None);
    assert_eq!(lexer.advance(), None);
}

#[test]
fn character_classes() {
    assert!(is_digit(Some('0')) && is_digit(Some('9')));
    assert!(!is_digit(Some('a')) && !is_digit(None) && !is_digit(Some('\u{663}')));
    assert!(is_alpha(Some('a')) && is_alpha(Some('Z')) && is_alpha(Some('_')));
    assert!(!is_alpha(Some('1')) && !is_alpha(None) && !is_alpha(Some('\u{e9}')));
    assert!(is_alphanumeric(Some('a')) && is_alphanumeric(Some('7')) && is_alphanumeric(Some('_')));
    assert!(!is_alphanumeric(Some('-')) && !is_alphanumeric(None));
}

#[test]
fn tokens_render_for_diagnostics() {
    let render = |item: &Lexed| match item {
        Ok(token) => {
            let value = token.lexeme.parse::<f64>().map(|n| format!("{}", n)).unwrap_or_default();
            token.render(&value)
        }
        Err(e) => e.message(),
    };
    let lines: Vec<String> = tokenize("(\"ab\" 1.50 12 foo while <= @").iter().map(render).collect();
    assert_eq!(
        lines,
        vec![
            "LEFT_PAREN ( null",
            "STRING \"ab\" ab",
            "NUMBER 1.50 1.5",
            "NUMBER 12 12",
            "IDENTIFIER foo null",
            "WHILE while null",
            "LESS_EQUAL <= null",
            "1, Unexpected character: '@'",
        ]
    );
    assert_eq!(Token::new(TokenKind::Eof, String::new(), 1).render(""), "EOF null");
    assert_eq!(Token::new(TokenKind::Slash, "/".to_string(), 1).kind_name(), "SLASH");
}

#[test]
fn error_messages() {
    assert_eq!(
        LexicalError::UnterminatedString { line: 120 }.message(),
        "Unterminated string: 120"
    );
    assert_eq!(
        LexicalError::UnexpectedCharacter { ch: '#', line: 7 }.message(),
        "7, Unexpected character: '#'"
    );
}

#[test]
fn reporting_sets_the_error_flag() {
    let mut rox = Rox::new();
    assert!(!rox.had_error);
    assert_eq!(rox.error(3, "boom"), "[line 3] Error: boom");
    assert!(rox.had_error);
    assert_eq!(rox.report(1050, " at end", "x"), "[line 1050] Error at end: x");
    assert_eq!(rox.error(-7, ""), "[line -7] Error: ");
    assert_eq!(rox.error(0, "z"), "[line 0] Error: z");
    assert_eq!(rox.error(i32::MIN, "z"), "[line -2147483648] Error: z");
}

#[test]
fn symbols_with_and_without_a_following_equal() {
    assert_eq!(symbol('!', false), Some(TokenKind::Bang));
    assert_eq!(symbol('!', true), Some(TokenKind::BangEqual));
    assert_eq!(symbol('>', true), Some(TokenKind::GreaterEqual));
    assert_eq!(symbol('/', false), Some(TokenKind::Slash));
    assert_eq!(symbol('(', false), Some(TokenKind::LeftParen));
    assert_eq!(symbol('@', false), None);
    assert_eq!(symbol('a', false), None);
}

#[test]
fn runs_go_on_over_their_own_characters() {
    assert!(run_continues(Run::Digits, '5') && !run_continues(Run::Digits, '.'));
    assert!(run_continues(Run::Word, '_') && run_continues(Run::Word, '5'));
    assert!(!run_continues(Run::Word, '-'));
    assert!(run_continues(Run::Comment, '"') && !run_continues(Run::Comment, '\n'));
    assert!(run_continues(Run::Text, '\n') && !run_continues(Run::Text, '"'));
}

#[test]
fn decimal_numerals() {
    let mut text = String::from("n=");
    push_decimal(&mut text, 0);
    push_decimal(&mut text, 9);
    push_decimal(&mut text, 10);
    push_decimal(&mut text, 4096);
    assert_eq!(text, "n=09104096");
    let mut text = String::new();
    push_decimal(&mut text, u64::MAX);
    assert_eq!(text, "18446744073709551615");
    let mut text = String::new();
    push_signed_decimal(&mut text, -305);
    push_signed_decimal(&mut text, 7);
    push_signed_decimal(&mut text, i64::MIN);
    assert_eq!(text, "-3057-9223372036854775808");
}

#[test]
fn a_long_source_is_scanned_in_one_pass() {
    let source = "x + 1;\n".repeat(2000);
    let items = tokenize(&source);
    assert_eq!(items.len(), 8000);
    assert_eq!(items[7999], token(TokenKind::Semicolon, ";", 2000));
}

#[test]
fn blank_characters() {
    for c in [' ', '\t', '\n', '\u{b}', '\u{c}', '\r', '\u{85}', '\u{a0}', '\u{2028}', '\u{3000}'] {
        assert!(is_blank(c), "{:?}", c);
    }
    for c in ['a', '0', '_', '/', '"', '\u{0}', '\u{8}', '\u{e}', '\u{7f}', '\u{200b}', '\u{e9}'] {
        assert!(!is_blank(c), "{:?}", c);
    }
    for code in 0u32..0x3100 {
        let c = char::from_u32(code).unwrap();
        assert_eq!(is_blank(c), c.is_whitespace(), "{:?}", c);
    }
}
