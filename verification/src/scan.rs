use vstd::prelude::*;
use crate::chars::{alpha, alphanumeric, blank, digit};
use crate::token::{Token, TokenKind};

verus! {

/// What can go wrong while scanning, with the line on which it did.
#[derive(Clone, Copy, Debug, PartialEq, Eq)]
pub enum LexicalError {
    UnexpectedCharacter { ch: char, line: usize },
    UnterminatedString { line: usize },
}

/// The kinds of maximal runs of characters that the scanner consumes at once.
#[derive(Clone, Copy, Debug, PartialEq, Eq)]
pub enum Run {
    /// Decimal digits.
    Digits,
    /// Letters, digits and underscores.
    Word,
    /// Everything up to the end of the line.
    Comment,
    /// Everything up to the next double quote.
    Text,
}

/// Whether a run of kind `run` goes on over `c`.
pub open spec fn continues(run: Run, c: char) -> bool {
    match run {
        Run::Digits => digit(c),
        Run::Word => alphanumeric(c),
        Run::Comment => c != '\n',
        Run::Text => c != '"',
    }
}

/// The first position at or after `pos` where a run of kind `run` stops: the
/// first character on which it does not go on, or the end of the text.
pub open spec fn run_end(s: Seq<char>, pos: int, run: Run) -> int
    decreases s.len() - pos,
{
    if 0 <= pos < s.len() && continues(run, s[pos]) {
        run_end(s, pos + 1, run)
    } else {
        pos
    }
}

/// The number of newline characters among the first `pos` characters.
pub open spec fn newlines(s: Seq<char>, pos: int) -> int
    decreases pos,
{
    if pos <= 0 {
        0
    } else if pos <= s.len() && s[pos - 1] == '\n' {
        newlines(s, pos - 1) + 1
    } else {
        newlines(s, pos - 1)
    }
}

/// The one-based line on which position `pos` lies.
pub open spec fn line_at(s: Seq<char>, pos: int) -> int {
    1 + newlines(s, pos)
}

/// Whether a comment starts at `pos`: two slashes in a row.
pub open spec fn comment_at(s: Seq<char>, pos: int) -> bool {
    0 <= pos && pos + 1 < s.len() && s[pos] == '/' && s[pos + 1] == '/'
}

/// Where the blank text that starts at `pos` stops. Blank text is made of
/// newlines, other blank characters, and comments up to (not including) their
/// newline.
pub open spec fn blank_end(s: Seq<char>, pos: int) -> int
    decreases s.len() - pos,
{
    if pos < 0 || pos >= s.len() {
        pos
    } else if blank(s[pos]) {
        blank_end(s, pos + 1)
    } else if comment_at(s, pos) {
        let end = run_end(s, pos + 2, Run::Comment);
        if pos < end <= s.len() {
            blank_end(s, end)
        } else {
            pos
        }
    } else {
        pos
    }
}

/// The characters that form a two-character operator with a following `=`.
pub open spec fn pairs_with_equal(c: char) -> bool {
    c == '!' || c == '=' || c == '<' || c == '>'
}

/// Whether the character at `start` and the next one form a two-character operator.
pub open spec fn paired_at(s: Seq<char>, start: int) -> bool {
    0 <= start && start + 1 < s.len() && pairs_with_equal(s[start]) && s[start + 1] == '='
}

/// The category of the punctuation or operator that starts with `c`; `paired`
/// says whether an `=` that belongs to it follows.
pub open spec fn symbol_kind(c: char, paired: bool) -> Option<TokenKind<Seq<char>>> {
    if c == '(' {
        Some(TokenKind::LeftParen)
    } else if c == ')' {
        Some(TokenKind::RightParen)
    } else if c == '{' {
        Some(TokenKind::LeftBrace)
    } else if c == '}' {
        Some(TokenKind::RightBrace)
    } else if c == ',' {
        Some(TokenKind::Comma)
    } else if c == '.' {
        Some(TokenKind::Dot)
    } else if c == '-' {
        Some(TokenKind::Minus)
    } else if c == '+' {
        Some(TokenKind::Plus)
    } else if c == ';' {
        Some(TokenKind::Semicolon)
    } else if c == '*' {
        Some(TokenKind::Star)
    } else if c == '/' {
        Some(TokenKind::Slash)
    } else if c == '!' {
        Some(if paired { TokenKind::BangEqual } else { TokenKind::Bang })
    } else if c == '=' {
        Some(if paired { TokenKind::EqualEqual } else { TokenKind::Equal })
    } else if c == '<' {
        Some(if paired { TokenKind::LessEqual } else { TokenKind::Less })
    } else if c == '>' {
        Some(if paired { TokenKind::GreaterEqual } else { TokenKind::Greater })
    } else {
        None
    }
}

/// The keyword that `word` spells, if it spells one.
pub open spec fn keyword(word: Seq<char>) -> Option<TokenKind<Seq<char>>> {
    if word == "and"@ {
        Some(TokenKind::And)
    } else if word == "class"@ {
        Some(TokenKind::Class)
    } else if word == "else"@ {
        Some(TokenKind::Else)
    } else if word == "false"@ {
        Some(TokenKind::False)
    } else if word == "for"@ {
        Some(TokenKind::For)
    } else if word == "fun"@ {
        Some(TokenKind::Fun)
    } else if word == "if"@ {
        Some(TokenKind::If)
    } else if word == "nil"@ {
        Some(TokenKind::Nil)
    } else if word == "or"@ {
        Some(TokenKind::Or)
    } else if word == "print"@ {
        Some(TokenKind::Print)
    } else if word == "return"@ {
        Some(TokenKind::Return)
    } else if word == "super"@ {
        Some(TokenKind::Super)
    } else if word == "this"@ {
        Some(TokenKind::This)
    } else if word == "true"@ {
        Some(TokenKind::True)
    } else if word == "var"@ {
        Some(TokenKind::Var)
    } else if word == "while"@ {
        Some(TokenKind::While)
    } else {
        None
    }
}

/// Where the number that starts at `start` stops: after its digits and, if a dot
/// and one more digit follow them, after the digits behind the dot.
pub open spec fn number_end(s: Seq<char>, start: int) -> int {
    let whole = run_end(s, start + 1, Run::Digits);
    if whole + 1 < s.len() && s[whole] == '.' && digit(s[whole + 1]) {
        run_end(s, whole + 2, Run::Digits)
    } else {
        whole
    }
}

/// Where the string literal that opens at `start` closes: the position of the
/// next double quote, or the end of the text if there is none.
pub open spec fn closing_quote(s: Seq<char>, start: int) -> int {
    run_end(s, start + 1, Run::Text)
}

/// Where the lexeme that starts at `start` stops. An unterminated string takes
/// the rest of the text; a character that starts nothing is consumed alone.
pub open spec fn lexeme_end(s: Seq<char>, start: int) -> int
    recommends
        0 <= start < s.len(),
{
    let c = s[start];
    if c == '"' {
        if closing_quote(s, start) < s.len() {
            closing_quote(s, start) + 1
        } else {
            s.len() as int
        }
    } else if digit(c) {
        number_end(s, start)
    } else if alpha(c) {
        run_end(s, start + 1, Run::Word)
    } else if paired_at(s, start) {
        start + 2
    } else {
        start + 1
    }
}

/// The category of the lexeme that starts at `start` on line `line`, or the
/// error that stands in its place.
pub open spec fn kind_at(s: Seq<char>, start: int, line: usize) -> Result<
    TokenKind<Seq<char>>,
    LexicalError,
>
    recommends
        0 <= start < s.len(),
{
    let c = s[start];
    let end = lexeme_end(s, start);
    if c == '"' {
        if closing_quote(s, start) < s.len() {
            Ok(TokenKind::String(s.subrange(start + 1, end - 1)))
        } else {
            Err(LexicalError::UnterminatedString { line })
        }
    } else if digit(c) {
        Ok(TokenKind::Number(s.subrange(start, end)))
    } else if alpha(c) {
        match keyword(s.subrange(start, end)) {
            Some(kind) => Ok(kind),
            None => Ok(TokenKind::Identifier),
        }
    } else {
        match symbol_kind(c, paired_at(s, start)) {
            Some(kind) => Ok(kind),
            None => Err(LexicalError::UnexpectedCharacter { ch: c, line }),
        }
    }
}

/// What the scanner produces for the lexeme that starts at `start`.
pub open spec fn item_at(s: Seq<char>, start: int) -> Result<Token<Seq<char>>, LexicalError>
    recommends
        0 <= start < s.len(),
{
    let line = line_at(s, start) as usize;
    match kind_at(s, start, line) {
        Ok(kind) => Ok(Token { kind, lexeme: s.subrange(start, lexeme_end(s, start)), line }),
        Err(e) => Err(e),
    }
}

/// What one pull produces with the cursor at `pos`: nothing if only blank text is
/// left, else the item that starts where the blank text stops.
pub open spec fn scan(s: Seq<char>, pos: int) -> Option<Result<Token<Seq<char>>, LexicalError>> {
    let start = blank_end(s, pos);
    if 0 <= start < s.len() {
        Some(item_at(s, start))
    } else {
        None
    }
}

/// Where one pull leaves the cursor.
pub open spec fn scan_end(s: Seq<char>, pos: int) -> int {
    let start = blank_end(s, pos);
    if 0 <= start < s.len() {
        lexeme_end(s, start)
    } else {
        start
    }
}

/// Everything that repeated pulls produce from `pos` on, in order.
pub open spec fn scan_all(s: Seq<char>, pos: int) -> Seq<Result<Token<Seq<char>>, LexicalError>>
    decreases s.len() - pos,
{
    match scan(s, pos) {
        Some(item) => if pos < scan_end(s, pos) <= s.len() {
            seq![item] + scan_all(s, scan_end(s, pos))
        } else {
            seq![item]
        },
        None => Seq::empty(),
    }
}

/// The line that an item carries.
pub open spec fn item_line(item: Result<Token<Seq<char>>, LexicalError>) -> usize {
    match item {
        Ok(token) => token.line,
        Err(LexicalError::UnexpectedCharacter { line, .. }) => line,
        Err(LexicalError::UnterminatedString { line }) => line,
    }
}

/// The text that an item stands for: a token's lexeme. An error has no lexeme;
/// it stands for the characters that it consumed.
pub open spec fn item_text(s: Seq<char>, start: int) -> Seq<char> {
    match item_at(s, start) {
        Ok(token) => token.lexeme,
        Err(_) => s.subrange(start, lexeme_end(s, start)),
    }
}

/// The text from `pos` on, put together again from what the scanner makes of it:
/// before each item the blank text that was skipped, then the item's text, and
/// behind the last item the blank text that is left.
pub open spec fn reassembled(s: Seq<char>, pos: int) -> Seq<char>
    decreases s.len() - pos,
{
    let start = blank_end(s, pos);
    if 0 <= pos <= start < s.len() && pos < scan_end(s, pos) <= s.len() {
        s.subrange(pos, start) + item_text(s, start) + reassembled(s, scan_end(s, pos))
    } else {
        s.skip(pos)
    }
}

pub proof fn lemma_run_end_bounds(s: Seq<char>, pos: int, run: Run)
    requires
        0 <= pos <= s.len(),
    ensures
        pos <= run_end(s, pos, run) <= s.len(),
    decreases s.len() - pos,
{
    if pos < s.len() && continues(run, s[pos]) {
        lemma_run_end_bounds(s, pos + 1, run);
    }
}

/// Runs are maximal: every character of a run continues it, and the character
/// behind it, if there is one, does not.
pub proof fn lemma_run_is_maximal(s: Seq<char>, pos: int, run: Run)
    requires
        0 <= pos <= s.len(),
    ensures
        forall|i: int| pos <= i < run_end(s, pos, run) ==> continues(run, #[trigger] s[i]),
        run_end(s, pos, run) < s.len() ==> !continues(run, s[run_end(s, pos, run)]),
    decreases s.len() - pos,
{
    if pos < s.len() && continues(run, s[pos]) {
        lemma_run_is_maximal(s, pos + 1, run);
    }
}

/// A word is lexed as a whole: the lexeme that starts with a letter or an
/// underscore is made of letters, digits and underscores, and no such character
/// follows it. So a keyword is never found in a part of a longer word.
pub proof fn lemma_word_is_whole(s: Seq<char>, start: int)
    requires
        0 <= start < s.len(),
        alpha(s[start]),
    ensures
        forall|i: int| start <= i < lexeme_end(s, start) ==> alphanumeric(#[trigger] s[i]),
        lexeme_end(s, start) < s.len() ==> !alphanumeric(s[lexeme_end(s, start)]),
{
    lemma_run_is_maximal(s, start + 1, Run::Word);
}

pub proof fn lemma_blank_end_bounds(s: Seq<char>, pos: int)
    requires
        0 <= pos <= s.len(),
    ensures
        pos <= blank_end(s, pos) <= s.len(),
    decreases s.len() - pos,
{
    if pos < s.len() {
        if blank(s[pos]) {
            lemma_blank_end_bounds(s, pos + 1);
        } else if comment_at(s, pos) {
            lemma_run_end_bounds(s, pos + 2, Run::Comment);
            lemma_blank_end_bounds(s, run_end(s, pos + 2, Run::Comment));
        }
    }
}

pub proof fn lemma_lexeme_end_bounds(s: Seq<char>, start: int)
    requires
        0 <= start < s.len(),
    ensures
        start < lexeme_end(s, start) <= s.len(),
{
    lemma_run_end_bounds(s, start + 1, Run::Text);
    lemma_run_end_bounds(s, start + 1, Run::Word);
    lemma_run_end_bounds(s, start + 1, Run::Digits);
    let whole = run_end(s, start + 1, Run::Digits);
    if whole + 1 < s.len() {
        lemma_run_end_bounds(s, whole + 2, Run::Digits);
    }
}

pub proof fn lemma_newlines_bounds(s: Seq<char>, from: int, to: int)
    requires
        0 <= from <= to,
    ensures
        newlines(s, from) <= newlines(s, to) <= newlines(s, from) + (to - from),
    decreases to,
{
    if to > from {
        lemma_newlines_bounds(s, from, to - 1);
    }
}

/// Every item that the scanner produces for a lexeme on some line carries that line.
pub proof fn lemma_item_line(s: Seq<char>, start: int)
    requires
        0 <= start < s.len() <= usize::MAX,
    ensures
        item_line(item_at(s, start)) == line_at(s, start),
{
    lemma_newlines_bounds(s, 0, start);
}

/// Putting the scanner's output together again gives back the text: for every
/// text, the blank text skipped before each item, followed by the item's text,
/// in order, and then the blank text behind the last item, is the text itself.
pub proof fn lemma_reassembled_is_source(s: Seq<char>, pos: int)
    requires
        0 <= pos <= s.len(),
    ensures
        reassembled(s, pos) == s.skip(pos),
        pos == 0 ==> reassembled(s, pos) == s,
    decreases s.len() - pos,
{
    let start = blank_end(s, pos);
    lemma_blank_end_bounds(s, pos);
    if start < s.len() {
        lemma_lexeme_end_bounds(s, start);
        let end = lexeme_end(s, start);
        lemma_reassembled_is_source(s, end);
        assert(item_text(s, start) == s.subrange(start, end));
        assert(s.subrange(pos, start) + s.subrange(start, end) + s.skip(end) =~= s.skip(pos));
    }
    assert(s.skip(0) =~= s);
}

/// The lines of the items that the scanner produces never decrease: of any two
/// items of one scan, the later one carries a line at least as large; and no
/// item carries a line before that of the cursor it was pulled from.
pub proof fn lemma_lines_never_decrease(s: Seq<char>, pos: int)
    requires
        0 <= pos <= s.len() <= usize::MAX,
    ensures
        forall|k: int|
            0 <= k < scan_all(s, pos).len() ==> line_at(s, pos) <= item_line(
                #[trigger] scan_all(s, pos)[k],
            ),
        forall|i: int, j: int|
            0 <= i <= j < scan_all(s, pos).len() ==> item_line(#[trigger] scan_all(s, pos)[i])
                <= item_line(#[trigger] scan_all(s, pos)[j]),
    decreases s.len() - pos,
{
    let start = blank_end(s, pos);
    lemma_blank_end_bounds(s, pos);
    if start < s.len() {
        lemma_lexeme_end_bounds(s, start);
        let end = lexeme_end(s, start);
        lemma_lines_never_decrease(s, end);
        lemma_newlines_bounds(s, pos, start);
        lemma_newlines_bounds(s, start, end);
        lemma_item_line(s, start);
        let all = scan_all(s, pos);
        let rest = scan_all(s, end);
        assert(all =~= seq![item_at(s, start)] + rest);
        assert forall|k: int| 0 <= k < all.len() implies line_at(s, pos) <= item_line(
            #[trigger] all[k],
        ) by {
            if k > 0 {
                assert(all[k] == rest[k - 1]);
            }
        }
        assert forall|i: int, j: int| 0 <= i <= j < all.len() implies item_line(#[trigger] all[i])
            <= item_line(#[trigger] all[j]) by {
            if j > 0 {
                assert(all[j] == rest[j - 1]);
                if i > 0 {
                    assert(all[i] == rest[i - 1]);
                }
            }
        }
    }
}

} // verus!
