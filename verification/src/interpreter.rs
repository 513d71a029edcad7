use vstd::prelude::*;
use vstd::string::StringExecFns;
use crate::chars::{decimal, push_decimal, push_signed_decimal, signed_decimal};
use crate::scan::LexicalError;

verus! {

/// The diagnostic line for a problem on `line`: `[line N] Error<place>: <message>`.
pub open spec fn report_text(line: int, place: Seq<char>, message: Seq<char>) -> Seq<char> {
    "[line "@ + signed_decimal(line) + "] Error"@ + place + ": "@ + message
}

/// The message of a lexical error.
pub open spec fn lexical_message(e: LexicalError) -> Seq<char> {
    match e {
        LexicalError::UnexpectedCharacter { ch, line } => decimal(line as nat)
            + ", Unexpected character: '"@ + seq![ch] + "'"@,
        LexicalError::UnterminatedString { line } => "Unterminated string: "@ + decimal(
            line as nat,
        ),
    }
}

impl LexicalError {
    /// The message under which the error is shown.
    pub fn message(&self) -> (text: String)
        ensures
            text@ == lexical_message(*self),
    {
        match *self {
            LexicalError::UnexpectedCharacter { ch, line } => {
                let mut text = String::new();
                push_decimal(&mut text, line as u64);
                text.append(", Unexpected character: '");
                text.push(ch);
                text.append("'");
                assert(text@ =~= lexical_message(*self));
                text
            },
            LexicalError::UnterminatedString { line } => {
                let mut text = String::from_str("Unterminated string: ");
                push_decimal(&mut text, line as u64);
                text
            },
        }
    }
}

/// The state of one interpreter session: whether any problem was reported.
pub struct Rox {
    pub had_error: bool,
}

impl Rox {
    pub fn new() -> (rox: Self)
        ensures
            !rox.had_error,
    {
        Rox { had_error: false }
    }

    /// Records a problem on `line` and hands back the line to show for it.
    pub fn error(&mut self, line: i32, message: &str) -> (text: String)
        ensures
            final(self).had_error,
            text@ == report_text(line as int, Seq::empty(), message@),
    {
        let text = self.report(line, "", message);
        proof {
            reveal_strlit("");
            assert(""@ =~= Seq::<char>::empty());
        }
        text
    }

    /// Records a problem at `place` on `line` and hands back the line to show
    /// for it.
    pub fn report(&mut self, line: i32, place: &str, message: &str) -> (text: String)
        ensures
            final(self).had_error,
            text@ == report_text(line as int, place@, message@),
    {
        let mut text = String::from_str("[line ");
        push_signed_decimal(&mut text, line as i64);
        text.append("] Error");
        text.append(place);
        text.append(": ");
        text.append(message);
        self.had_error = true;
        text
    }
}

} // verus!
