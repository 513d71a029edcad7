use vstd::prelude::*;
use vstd::std_specs::iter::IteratorSpec;
use vstd::string::next_postcondition;
use vstd::string::axiom_spec_iter;
use vstd::string::StringExecFns;
use crate::chars::{is_alpha, is_blank, is_digit};
use crate::scan::{
    blank_end, comment_at, continues, item_line, keyword, lemma_newlines_bounds, lexeme_end,
    line_at, newlines, number_end, paired_at, run_end, scan, scan_all, scan_end, symbol_kind,
    LexicalError, Run,
};
use crate::token::{Token, TokenKind};

verus! {

/// What one pull of the scanner hands out.
pub type Lexed = Result<Token<String>, LexicalError>;

/// The mathematical value of an item.
pub open spec fn item_model(item: Lexed) -> Result<Token<Seq<char>>, LexicalError> {
    match item {
        Ok(token) => Ok(token@),
        Err(e) => Err(e),
    }
}

/// The mathematical value of what one pull hands out.
pub open spec fn pull_model(pulled: Option<Lexed>) -> Option<Result<Token<Seq<char>>, LexicalError>> {
    match pulled {
        Some(item) => Some(item_model(item)),
        None => None,
    }
}

/// The mathematical values of a sequence of items.
pub open spec fn item_models(items: Seq<Lexed>) -> Seq<Result<Token<Seq<char>>, LexicalError>> {
    Seq::new(items.len(), |i: int| item_model(items[i]))
}

/// The mathematical value of an optional category.
pub open spec fn kind_model(kind: Option<TokenKind<String>>) -> Option<TokenKind<Seq<char>>> {
    match kind {
        Some(k) => Some(k@),
        None => None,
    }
}

/// Whether a run of kind `run` goes on over `c`.
pub fn run_continues(run: Run, c: char) -> (r: bool)
    ensures
        r == continues(run, c),
{
    match run {
        Run::Digits => is_digit(Some(c)),
        Run::Word => is_alpha(Some(c)) || is_digit(Some(c)),
        Run::Comment => c != '\n',
        Run::Text => c != '"',
    }
}

/// The category of the punctuation or operator that starts with `c`, where
/// `paired` says whether an `=` that belongs to it follows.
pub fn symbol(c: char, paired: bool) -> (kind: Option<TokenKind<String>>)
    ensures
        kind_model(kind) == symbol_kind(c, paired),
{
    if c == '(' {
        Some(TokenKind::LeftParen)
    } else if c == ')' {
        Some(TokenKind::RightParen)
    } else if c == '{' {
        Some(TokenKind::LeftBrace)
    } else if c == '}' {
        Some(TokenKind::RightBrace)
    } else if c == ',' {
        Some(TokenKind::Comma)
    } else if c == '.' {
        Some(TokenKind::Dot)
    } else if c == '-' {
        Some(TokenKind::Minus)
    } else if c == '+' {
        Some(TokenKind::Plus)
    } else if c == ';' {
        Some(TokenKind::Semicolon)
    } else if c == '*' {
        Some(TokenKind::Star)
    } else if c == '/' {
        Some(TokenKind::Slash)
    } else if c == '!' {
        Some(if paired { TokenKind::BangEqual } else { TokenKind::Bang })
    } else if c == '=' {
        Some(if paired { TokenKind::EqualEqual } else { TokenKind::Equal })
    } else if c == '<' {
        Some(if paired { TokenKind::LessEqual } else { TokenKind::Less })
    } else if c == '>' {
        Some(if paired { TokenKind::GreaterEqual } else { TokenKind::Greater })
    } else {
        None
    }
}

fn spells(word: &String, text: &str) -> (r: bool)
    ensures
        r == (word@ == text@),
{
    let other = String::from_str(text);
    *word == other
}

/// The keyword that `word` spells as a whole, if it spells one.
pub fn match_keyword(word: &String) -> (kind: Option<TokenKind<String>>)
    ensures
        kind_model(kind) == keyword(word@),
{
    if spells(word, "and") {
        Some(TokenKind::And)
    } else if spells(word, "class") {
        Some(TokenKind::Class)
    } else if spells(word, "else") {
        Some(TokenKind::Else)
    } else if spells(word, "false") {
        Some(TokenKind::False)
    } else if spells(word, "for") {
        Some(TokenKind::For)
    } else if spells(word, "fun") {
        Some(TokenKind::Fun)
    } else if spells(word, "if") {
        Some(TokenKind::If)
    } else if spells(word, "nil") {
        Some(TokenKind::Nil)
    } else if spells(word, "or") {
        Some(TokenKind::Or)
    } else if spells(word, "print") {
        Some(TokenKind::Print)
    } else if spells(word, "return") {
        Some(TokenKind::Return)
    } else if spells(word, "super") {
        Some(TokenKind::Super)
    } else if spells(word, "this") {
        Some(TokenKind::This)
    } else if spells(word, "true") {
        Some(TokenKind::True)
    } else if spells(word, "var") {
        Some(TokenKind::Var)
    } else if spells(word, "while") {
        Some(TokenKind::While)
    } else {
        None
    }
}

/// A cursor over a source text that hands out its tokens one by one.
pub struct Lexer {
    source: Vec<char>,
    pos: usize,
    newlines: usize,
}

impl Lexer {
    /// The text that is scanned.
    pub closed spec fn source(&self) -> Seq<char> {
        self.source@
    }

    /// The number of characters consumed so far.
    pub closed spec fn position(&self) -> int {
        self.pos as int
    }

    /// The one-based line on which the cursor stands.
    pub closed spec fn current_line(&self) -> int {
        self.newlines + 1
    }

    /// The cursor lies inside the text, and the newlines behind it are counted.
    pub closed spec fn wf(&self) -> bool {
        &&& self.pos <= self.source.len()
        &&& self.newlines == newlines(self.source@, self.pos as int)
    }

    /// A scanner at the start of `source`, on line 1.
    pub fn new(source: &str) -> (lexer: Self)
        ensures
            lexer.wf(),
            lexer.source() == source@,
            lexer.position() == 0,
            lexer.current_line() == 1,
    {
        broadcast use next_postcondition, axiom_spec_iter;

        let mut chars: Vec<char> = Vec::new();
        let mut rest = source.chars();
        loop
            invariant
                chars@ + rest.remaining() == source@,
            ensures
                chars@ == source@,
            decreases source@.len() - chars@.len(),
        {
            match rest.next() {
                Some(c) => {
                    chars.push(c);
                    assert(chars@ + rest.remaining() =~= source@);
                },
                None => {
                    assert(chars@ =~= source@);
                    break ;
                },
            }
        }
        Lexer { source: chars, pos: 0, newlines: 0 }
    }

    /// Whether every character is consumed.
    pub fn is_at_end(&self) -> (r: bool)
        requires
            self.wf(),
        ensures
            r == (self.position() == self.source().len()),
    {
        self.pos >= self.source.len()
    }

    /// The next character, without consuming it.
    pub fn peek(&self) -> (c: Option<char>)
        requires
            self.wf(),
        ensures
            c == if self.position() < self.source().len() {
                Some(self.source()[self.position()])
            } else {
                None
            },
    {
        if self.pos < self.source.len() {
            Some(self.source[self.pos])
        } else {
            None
        }
    }

    /// The character after the next one, without consuming anything.
    pub fn peek_next(&self) -> (c: Option<char>)
        requires
            self.wf(),
        ensures
            c == if self.position() + 1 < self.source().len() {
                Some(self.source()[self.position() + 1])
            } else {
                None
            },
    {
        if self.pos < self.source.len() && self.pos + 1 < self.source.len() {
            Some(self.source[self.pos + 1])
        } else {
            None
        }
    }

    /// Consumes one character, counting it if it is a newline.
    pub fn advance(&mut self) -> (c: Option<char>)
        requires
            old(self).wf(),
        ensures
            final(self).wf(),
            final(self).source() == old(self).source(),
            c == if old(self).position() < old(self).source().len() {
                Some(old(self).source()[old(self).position()])
            } else {
                None
            },
            final(self).position() == old(self).position() + if c is Some { 1int } else { 0int },
            final(self).current_line() == line_at(final(self).source(), final(self).position()),
    {
        if self.pos < self.source.len() {
            let c = self.source[self.pos];
            proof {
                lemma_newlines_bounds(self.source@, 0, self.pos as int);
            }
            if c == '\n' {
                self.newlines += 1;
            }
            self.pos += 1;
            Some(c)
        } else {
            None
        }
    }

    fn advance_to(&mut self, end: usize)
        requires
            old(self).wf(),
            old(self).pos <= end <= old(self).source.len(),
        ensures
            final(self).wf(),
            final(self).source@ == old(self).source@,
            final(self).pos == end,
    {
        while self.pos < end
            invariant
                self.wf(),
                self.source@ == old(self).source@,
                self.pos <= end <= self.source.len(),
            decreases end - self.pos,
        {
            let _ = self.advance();
        }
    }

    fn run_end(&self, from: usize, run: Run) -> (end: usize)
        requires
            from <= self.source.len(),
        ensures
            end == run_end(self.source@, from as int, run),
            from <= end <= self.source.len(),
    {
        let mut i: usize = from;
        while i < self.source.len() && run_continues(run, self.source[i])
            invariant
                from <= i <= self.source.len(),
                run_end(self.source@, i as int, run) == run_end(self.source@, from as int, run),
            decreases self.source.len() - i,
        {
            i += 1;
        }
        i
    }

    fn blank_end(&self, from: usize) -> (start: usize)
        requires
            from <= self.source.len(),
        ensures
            start == blank_end(self.source@, from as int),
            from <= start <= self.source.len(),
    {
        let n = self.source.len();
        let mut i: usize = from;
        loop
            invariant
                n == self.source.len(),
                from <= i <= n,
                blank_end(self.source@, i as int) == blank_end(self.source@, from as int),
            decreases n - i,
        {
            if i >= n {
                return i;
            }
            let c = self.source[i];
            if is_blank(c) {
                i += 1;
            } else if c == '/' && i + 1 < n && self.source[i + 1] == '/' {
                assert(comment_at(self.source@, i as int));
                i = self.run_end(i + 2, Run::Comment);
            } else {
                assert(!comment_at(self.source@, i as int));
                return i;
            }
        }
    }

    fn number_end(&self, start: usize) -> (end: usize)
        requires
            start < self.source.len(),
        ensures
            end == number_end(self.source@, start as int),
            start < end <= self.source.len(),
    {
        let whole = self.run_end(start + 1, Run::Digits);
        let n = self.source.len();
        if whole < n && whole + 1 < n && self.source[whole] == '.' && is_digit(
            Some(self.source[whole + 1]),
        ) {
            self.run_end(whole + 2, Run::Digits)
        } else {
            whole
        }
    }

    fn text(&self, from: usize, to: usize) -> (text: String)
        requires
            from <= to <= self.source.len(),
        ensures
            text@ == self.source@.subrange(from as int, to as int),
    {
        let mut text = String::new();
        let mut i: usize = from;
        while i < to
            invariant
                from <= i <= to <= self.source.len(),
                text@ == self.source@.subrange(from as int, i as int),
            decreases to - i,
        {
            text.push(self.source[i]);
            assert(text@ =~= self.source@.subrange(from as int, i + 1));
            i += 1;
        }
        text
    }

    /// Pulls the next item: skips blank text, then hands out the token that starts
    /// there, or the error that stands in its place, and leaves the cursor behind
    /// it. Hands out nothing once only blank text is left.
    pub fn lex(&mut self) -> (pulled: Option<Lexed>)
        requires
            old(self).wf(),
        ensures
            final(self).wf(),
            final(self).source() == old(self).source(),
            pull_model(pulled) == scan(old(self).source(), old(self).position()),
            final(self).position() == scan_end(old(self).source(), old(self).position()),
            pulled is Some ==> old(self).position() < final(self).position(),
            old(self).current_line() <= final(self).current_line(),
            pulled matches Some(item) ==> old(self).current_line() <= item_line(item_model(item))
                <= final(self).current_line(),
    {
        let ghost s = self.source@;
        let ghost before = self.pos as int;
        let n = self.source.len();
        let start = self.blank_end(self.pos);
        self.advance_to(start);
        if start >= n {
            proof {
                lemma_newlines_bounds(s, before, start as int);
            }
            return None;
        }
        let c = self.source[start];
        proof {
            lemma_newlines_bounds(s, 0, start as int);
        }
        let line = self.newlines + 1;
        let end: usize;
        let kind: Result<TokenKind<String>, LexicalError>;
        if c == '"' {
            let quote = self.run_end(start + 1, Run::Text);
            if quote < n {
                end = quote + 1;
                kind = Ok(TokenKind::String(self.text(start + 1, quote)));
            } else {
                end = n;
                kind = Err(LexicalError::UnterminatedString { line });
            }
        } else if is_digit(Some(c)) {
            end = self.number_end(start);
            kind = Ok(TokenKind::Number(self.text(start, end)));
        } else if is_alpha(Some(c)) {
            end = self.run_end(start + 1, Run::Word);
            let word = self.text(start, end);
            kind = match match_keyword(&word) {
                Some(k) => Ok(k),
                None => Ok(TokenKind::Identifier),
            };
        } else {
            let paired = (c == '!' || c == '=' || c == '<' || c == '>') && start + 1 < n
                && self.source[start + 1] == '=';
            assert(paired == paired_at(s, start as int));
            end = if paired { start + 2 } else { start + 1 };
            kind = match symbol(c, paired) {
                Some(k) => Ok(k),
                None => Err(LexicalError::UnexpectedCharacter { ch: c, line }),
            };
        }
        assert(end == lexeme_end(s, start as int));
        let lexeme = self.text(start, end);
        self.advance_to(end);
        proof {
            lemma_newlines_bounds(s, before, start as int);
            lemma_newlines_bounds(s, start as int, end as int);
        }
        match kind {
            Ok(kind) => Some(Ok(Token::new(kind, lexeme, line))),
            Err(e) => Some(Err(e)),
        }
    }
}

/// Scans a whole text: every token and every error, in the order in which they
/// stand in it.
pub fn tokenize(source: &str) -> (items: Vec<Lexed>)
    ensures
        item_models(items@) == scan_all(source@, 0),
{
    let mut lexer = Lexer::new(source);
    let mut items: Vec<Lexed> = Vec::new();
    loop
        invariant
            lexer.wf(),
            lexer.source() == source@,
            0 <= lexer.position() <= source@.len(),
            item_models(items@) + scan_all(source@, lexer.position()) == scan_all(source@, 0),
        decreases source@.len() - lexer.position(),
    {
        let ghost pos = lexer.position();
        let ghost done = items@;
        match lexer.lex() {
            Some(item) => {
                items.push(item);
                proof {
                    lexer.lemma_position_in_source();
                    assert(item_models(items@) =~= item_models(done).push(item_model(item)));
                    assert(item_models(done) + (seq![item_model(item)] + scan_all(
                        source@,
                        lexer.position(),
                    )) =~= item_models(items@) + scan_all(source@, lexer.position()));
                }
            },
            None => {
                assert(item_models(items@) + Seq::empty() =~= item_models(items@));
                return items;
            },
        }
    }
}

impl Lexer {
    /// A well-formed cursor lies inside its text.
    pub proof fn lemma_position_in_source(&self)
        requires
            self.wf(),
        ensures
            0 <= self.position() <= self.source().len(),
            self.current_line() == line_at(self.source(), self.position()),
    {
    }
}

} // verus!
