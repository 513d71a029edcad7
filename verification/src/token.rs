use vstd::prelude::*;
use vstd::string::StringExecFns;

verus! {

/// The lexical categories. `T` is the type of the text that a literal carries:
/// `String` in executable code, `Seq<char>` in contracts. A string literal
/// carries its raw content, a number literal its numeral as written; the value
/// of the numeral as a double is for the caller to compute. The scanner ends by
/// running out and never hands out `Eof`: the marker is there for callers that
/// want to close a token listing with one.
#[derive(Clone, Debug, PartialEq)]
pub enum TokenKind<T> {
    LeftParen,
    RightParen,
    LeftBrace,
    RightBrace,
    Comma,
    Dot,
    Minus,
    Plus,
    Semicolon,
    Slash,
    Star,
    Bang,
    BangEqual,
    Equal,
    EqualEqual,
    Greater,
    GreaterEqual,
    Less,
    LessEqual,
    Identifier,
    String(T),
    Number(T),
    And,
    Class,
    Else,
    False,
    Fun,
    For,
    If,
    Nil,
    Or,
    Print,
    Return,
    Super,
    This,
    True,
    Var,
    While,
    Eof,
}

impl View for TokenKind<String> {
    type V = TokenKind<Seq<char>>;

    open spec fn view(&self) -> TokenKind<Seq<char>> {
        match *self {
            TokenKind::String(s) => TokenKind::String(s@),
            TokenKind::Number(s) => TokenKind::Number(s@),
            TokenKind::LeftParen => TokenKind::LeftParen,
            TokenKind::RightParen => TokenKind::RightParen,
            TokenKind::LeftBrace => TokenKind::LeftBrace,
            TokenKind::RightBrace => TokenKind::RightBrace,
            TokenKind::Comma => TokenKind::Comma,
            TokenKind::Dot => TokenKind::Dot,
            TokenKind::Minus => TokenKind::Minus,
            TokenKind::Plus => TokenKind::Plus,
            TokenKind::Semicolon => TokenKind::Semicolon,
            TokenKind::Slash => TokenKind::Slash,
            TokenKind::Star => TokenKind::Star,
            TokenKind::Bang => TokenKind::Bang,
            TokenKind::BangEqual => TokenKind::BangEqual,
            TokenKind::Equal => TokenKind::Equal,
            TokenKind::EqualEqual => TokenKind::EqualEqual,
            TokenKind::Greater => TokenKind::Greater,
            TokenKind::GreaterEqual => TokenKind::GreaterEqual,
            TokenKind::Less => TokenKind::Less,
            TokenKind::LessEqual => TokenKind::LessEqual,
            TokenKind::Identifier => TokenKind::Identifier,
            TokenKind::And => TokenKind::And,
            TokenKind::Class => TokenKind::Class,
            TokenKind::Else => TokenKind::Else,
            TokenKind::False => TokenKind::False,
            TokenKind::Fun => TokenKind::Fun,
            TokenKind::For => TokenKind::For,
            TokenKind::If => TokenKind::If,
            TokenKind::Nil => TokenKind::Nil,
            TokenKind::Or => TokenKind::Or,
            TokenKind::Print => TokenKind::Print,
            TokenKind::Return => TokenKind::Return,
            TokenKind::Super => TokenKind::Super,
            TokenKind::This => TokenKind::This,
            TokenKind::True => TokenKind::True,
            TokenKind::Var => TokenKind::Var,
            TokenKind::While => TokenKind::While,
            TokenKind::Eof => TokenKind::Eof,
        }
    }
}

/// One lexed unit: its category, the exact source text that produced it and the
/// one-based line on which it starts.
#[derive(Clone, Debug, PartialEq)]
pub struct Token<T> {
    pub kind: TokenKind<T>,
    pub lexeme: T,
    pub line: usize,
}

impl View for Token<String> {
    type V = Token<Seq<char>>;

    open spec fn view(&self) -> Token<Seq<char>> {
        Token { kind: self.kind@, lexeme: self.lexeme@, line: self.line }
    }
}

/// The upper-case name under which a category is rendered.
pub open spec fn kind_name(kind: TokenKind<Seq<char>>) -> Seq<char> {
    match kind {
        TokenKind::String(_) => "STRING"@,
        TokenKind::Number(_) => "NUMBER"@,
        TokenKind::LeftParen => "LEFT_PAREN"@,
        TokenKind::RightParen => "RIGHT_PAREN"@,
        TokenKind::LeftBrace => "LEFT_BRACE"@,
        TokenKind::RightBrace => "RIGHT_BRACE"@,
        TokenKind::Comma => "COMMA"@,
        TokenKind::Dot => "DOT"@,
        TokenKind::Minus => "MINUS"@,
        TokenKind::Plus => "PLUS"@,
        TokenKind::Semicolon => "SEMICOLON"@,
        TokenKind::Slash => "SLASH"@,
        TokenKind::Star => "STAR"@,
        TokenKind::Bang => "BANG"@,
        TokenKind::BangEqual => "BANG_EQUAL"@,
        TokenKind::Equal => "EQUAL"@,
        TokenKind::EqualEqual => "EQUAL_EQUAL"@,
        TokenKind::Greater => "GREATER"@,
        TokenKind::GreaterEqual => "GREATER_EQUAL"@,
        TokenKind::Less => "LESS"@,
        TokenKind::LessEqual => "LESS_EQUAL"@,
        TokenKind::Identifier => "IDENTIFIER"@,
        TokenKind::And => "AND"@,
        TokenKind::Class => "CLASS"@,
        TokenKind::Else => "ELSE"@,
        TokenKind::False => "FALSE"@,
        TokenKind::Fun => "FUN"@,
        TokenKind::For => "FOR"@,
        TokenKind::If => "IF"@,
        TokenKind::Nil => "NIL"@,
        TokenKind::Or => "OR"@,
        TokenKind::Print => "PRINT"@,
        TokenKind::Return => "RETURN"@,
        TokenKind::Super => "SUPER"@,
        TokenKind::This => "THIS"@,
        TokenKind::True => "TRUE"@,
        TokenKind::Var => "VAR"@,
        TokenKind::While => "WHILE"@,
        TokenKind::Eof => "EOF"@,
    }
}

/// The last field of a rendered token: the raw content of a string literal,
/// `number` for a number literal, and the word `null` for everything else.
pub open spec fn literal_text(kind: TokenKind<Seq<char>>, number: Seq<char>) -> Seq<char> {
    match kind {
        TokenKind::String(s) => s,
        TokenKind::Number(_) => number,
        _ => "null"@,
    }
}

/// The diagnostic line of a token: name, lexeme and literal, separated by single
/// spaces. The end-of-input marker has no lexeme and renders as `EOF null`.
pub open spec fn rendered(token: Token<Seq<char>>, number: Seq<char>) -> Seq<char> {
    if token.kind == TokenKind::<Seq<char>>::Eof {
        "EOF null"@
    } else {
        kind_name(token.kind) + " "@ + token.lexeme + " "@ + literal_text(token.kind, number)
    }
}

impl Token<String> {
    pub fn new(kind: TokenKind<String>, lexeme: String, line: usize) -> (token: Self)
        ensures
            token.kind == kind,
            token.lexeme == lexeme,
            token.line == line,
    {
        Token { kind, lexeme, line }
    }

    /// The upper-case name of this token's category.
    pub fn kind_name(&self) -> (name: &'static str)
        ensures
            name@ == kind_name(self.kind@),
    {
        match &self.kind {
            TokenKind::String(_) => "STRING",
            TokenKind::Number(_) => "NUMBER",
            TokenKind::LeftParen => "LEFT_PAREN",
            TokenKind::RightParen => "RIGHT_PAREN",
            TokenKind::LeftBrace => "LEFT_BRACE",
            TokenKind::RightBrace => "RIGHT_BRACE",
            TokenKind::Comma => "COMMA",
            TokenKind::Dot => "DOT",
            TokenKind::Minus => "MINUS",
            TokenKind::Plus => "PLUS",
            TokenKind::Semicolon => "SEMICOLON",
            TokenKind::Slash => "SLASH",
            TokenKind::Star => "STAR",
            TokenKind::Bang => "BANG",
            TokenKind::BangEqual => "BANG_EQUAL",
            TokenKind::Equal => "EQUAL",
            TokenKind::EqualEqual => "EQUAL_EQUAL",
            TokenKind::Greater => "GREATER",
            TokenKind::GreaterEqual => "GREATER_EQUAL",
            TokenKind::Less => "LESS",
            TokenKind::LessEqual => "LESS_EQUAL",
            TokenKind::Identifier => "IDENTIFIER",
            TokenKind::And => "AND",
            TokenKind::Class => "CLASS",
            TokenKind::Else => "ELSE",
            TokenKind::False => "FALSE",
            TokenKind::Fun => "FUN",
            TokenKind::For => "FOR",
            TokenKind::If => "IF",
            TokenKind::Nil => "NIL",
            TokenKind::Or => "OR",
            TokenKind::Print => "PRINT",
            TokenKind::Return => "RETURN",
            TokenKind::Super => "SUPER",
            TokenKind::This => "THIS",
            TokenKind::True => "TRUE",
            TokenKind::Var => "VAR",
            TokenKind::While => "WHILE",
            TokenKind::Eof => "EOF",
        }
    }

    /// Renders the token for diagnostics. `number` is the text under which the
    /// caller's numeric type prints the value of a number literal's lexeme; it is
    /// read for number tokens only.
    pub fn render(&self, number: &str) -> (line: String)
        ensures
            line@ == rendered(self@, number@),
    {
        if let TokenKind::Eof = &self.kind {
            return String::from_str("EOF null");
        }
        let mut line = String::from_str(self.kind_name());
        line.append(" ");
        line.append(self.lexeme.as_str());
        line.append(" ");
        match &self.kind {
            TokenKind::String(s) => line.append(s.as_str()),
            TokenKind::Number(_) => line.append(number),
            _ => line.append("null"),
        }
        line
    }
}

} // verus!
