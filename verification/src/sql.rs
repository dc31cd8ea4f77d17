//! An earlier lexer for unquoted SQL text: the same vocabulary except that
//! string values are bare identifier runs, with no quoted literals.

use vstd::prelude::*;
use vstd::string::StrSliceExecFns;
use crate::chars::{alphabetic, char_is_alphabetic, char_is_whitespace, ci_seq_eq, str_ci_eq};
use crate::lexer::{letters_end, skip_spaces};

verus! {

/// SQL token types.
#[derive(Debug)]
pub enum Token {
    /// A run of letters that matched the keyword set.
    Keyword(Keyword),
    /// An identifier-like run of letters.
    String(String),
    /// The `;` symbol.
    Semicolon,
    /// End of input; repeated on every further request.
    End,
}

/// SQL keywords, a closed set matched case-insensitively.
#[derive(Debug, Clone, Copy, PartialEq, Eq, Structural)]
pub enum Keyword {
    Create,
    Database,
}

/// Mathematical image of a token: carried text is a character sequence.
pub enum TokenView {
    Keyword(Keyword),
    Str(Seq<char>),
    Semicolon,
    End,
}

impl View for Token {
    type V = TokenView;

    open spec fn view(&self) -> TokenView {
        match self {
            Token::Keyword(k) => TokenView::Keyword(*k),
            Token::String(s) => TokenView::Str(s@),
            Token::Semicolon => TokenView::Semicolon,
            Token::End => TokenView::End,
        }
    }
}

/// The view of an optional token.
pub open spec fn token_view(t: Option<Token>) -> Option<TokenView> {
    match t {
        Some(tok) => Some(tok@),
        None => None,
    }
}

impl PartialEq for Token {
    fn eq(&self, other: &Token) -> bool {
        match (self, other) {
            (Token::Keyword(a), Token::Keyword(b)) => a == b,
            (Token::String(a), Token::String(b)) => a.eq(b),
            (Token::Semicolon, Token::Semicolon) => true,
            (Token::End, Token::End) => true,
            _ => false,
        }
    }
}

impl vstd::std_specs::cmp::PartialEqSpecImpl for Token {
    open spec fn obeys_eq_spec() -> bool {
        true
    }

    open spec fn eq_spec(&self, other: &Token) -> bool {
        match (self, other) {
            (Token::Keyword(a), Token::Keyword(b)) => a == b,
            (Token::String(a), Token::String(b)) => a@ == b@,
            (Token::Semicolon, Token::Semicolon) => true,
            (Token::End, Token::End) => true,
            _ => false,
        }
    }
}

/// Which keyword a run of letters denotes, if any; matching is
/// case-insensitive.
pub open spec fn keyword_of(s: Seq<char>) -> Option<Keyword> {
    if ci_seq_eq(s, "create"@) {
        Some(Keyword::Create)
    } else if ci_seq_eq(s, "database"@) {
        Some(Keyword::Database)
    } else {
        None
    }
}

impl Keyword {
    /// Case-insensitive lookup of a keyword from its text.
    pub fn from_text(value: &str) -> (r: Option<Keyword>)
        ensures
            r == keyword_of(value@),
    {
        if str_ci_eq(value, "create") {
            Some(Keyword::Create)
        } else if str_ci_eq(value, "database") {
            Some(Keyword::Database)
        } else {
            None
        }
    }

    /// The canonical spelling of the keyword.
    pub fn text(&self) -> (r: &'static str)
        ensures
            (match self {
                Keyword::Create => r@ == "CREATE"@,
                Keyword::Database => r@ == "DATABASE"@,
            }),
    {
        match self {
            Keyword::Create => "CREATE",
            Keyword::Database => "DATABASE",
        }
    }
}

/// The token found at position `i` of `s` after skipping whitespace, and the
/// position at which scanning resumes. Only letter runs, `;` and the end of
/// the input are recognized; any other character is a lexing failure.
pub open spec fn next_token_of(s: Seq<char>, i: int) -> (Option<TokenView>, int) {
    let j = skip_spaces(s, i);
    if j >= s.len() {
        (Some(TokenView::End), s.len() as int)
    } else if alphabetic(s[j]) {
        let k = letters_end(s, j);
        let run = s.subrange(j, k);
        let tok = match keyword_of(run) {
            Some(kw) => TokenView::Keyword(kw),
            None => TokenView::Str(run),
        };
        (Some(tok), k)
    } else if s[j] == ';' {
        (Some(TokenView::Semicolon), j + 1)
    } else {
        (None, j + 1)
    }
}

/// Converts SQL code into tokens, reading one character at a time over a
/// borrowed input.
pub struct Lexer<'a> {
    /// The SQL code being scanned.
    input: &'a str,
    /// The position of the next character to read.
    pos: usize,
    /// The number of characters of `input`.
    len: usize,
}

impl<'a> Lexer<'a> {
    /// The characters being scanned.
    pub closed spec fn input(&self) -> Seq<char> {
        self.input@
    }

    /// The position of the next character to read.
    pub closed spec fn pos(&self) -> int {
        self.pos as int
    }

    /// The cursor lies within the input.
    pub closed spec fn wf(&self) -> bool {
        self.len == self.input@.len() && self.pos <= self.len
    }

    /// Construct a new `Lexer` over the given SQL code, positioned at its
    /// start.
    pub fn new(input: &'a str) -> (l: Lexer<'a>)
        ensures
            l.wf(),
            l.input() == input@,
            l.pos() == 0,
    {
        let len = input.unicode_len();
        Lexer { input, pos: 0, len }
    }

    /// Get the next token.
    ///
    /// Skips whitespace, then classifies by the next character: a letter
    /// starts a keyword or identifier run and `;` is the semicolon symbol;
    /// exhausted input yields `End`, repeatably. Any other character yields
    /// `None`.
    pub fn next_token(&mut self) -> (t: Option<Token>)
        requires
            old(self).wf(),
        ensures
            final(self).wf(),
            final(self).input() == old(self).input(),
            token_view(t) == next_token_of(old(self).input(), old(self).pos()).0,
            final(self).pos() == next_token_of(old(self).input(), old(self).pos()).1,
    {
        self.skip_whitespace();
        if self.pos == self.len {
            return Some(Token::End);
        }
        let c = self.input.get_char(self.pos);
        if char_is_alphabetic(c) {
            self.get_keyword_or_ident()
        } else {
            self.get_symbol()
        }
    }

    /// Skip whitespace characters.
    fn skip_whitespace(&mut self)
        requires
            old(self).wf(),
        ensures
            final(self).wf(),
            final(self).input() == old(self).input(),
            final(self).pos() == skip_spaces(old(self).input(), old(self).pos()),
    {
        let ghost s = self.input@;
        let ghost p0 = self.pos as int;
        while self.pos < self.len && char_is_whitespace(self.input.get_char(self.pos))
            invariant
                self.wf(),
                self.input@ == s,
                p0 <= self.pos as int,
                skip_spaces(s, p0) == skip_spaces(s, self.pos as int),
            decreases self.len - self.pos,
        {
            self.advance();
        }
    }

    /// Advance the cursor by one character.
    #[inline(always)]
    fn advance(&mut self)
        requires
            old(self).wf(),
            old(self).pos() < old(self).input().len(),
        ensures
            final(self).wf(),
            final(self).input() == old(self).input(),
            final(self).pos() == old(self).pos() + 1,
    {
        self.pos = self.pos + 1;
    }

    /// Get a keyword or identifier token: the maximal alphabetic run at the
    /// cursor, matched case-insensitively against the keyword set.
    fn get_keyword_or_ident(&mut self) -> (t: Option<Token>)
        requires
            old(self).wf(),
            old(self).pos() < old(self).input().len(),
            alphabetic(old(self).input()[old(self).pos()]),
        ensures
            final(self).wf(),
            final(self).input() == old(self).input(),
            final(self).pos() == letters_end(old(self).input(), old(self).pos()),
            ({
                let run = old(self).input().subrange(
                    old(self).pos(),
                    letters_end(old(self).input(), old(self).pos()),
                );
                token_view(t) == Some(match keyword_of(run) {
                    Some(kw) => TokenView::Keyword(kw),
                    None => TokenView::Str(run),
                })
            }),
    {
        let ghost s = self.input@;
        let start = self.pos;
        while self.pos < self.len && char_is_alphabetic(self.input.get_char(self.pos))
            invariant
                self.wf(),
                self.input@ == s,
                start <= self.pos,
                letters_end(s, start as int) == letters_end(s, self.pos as int),
            decreases self.len - self.pos,
        {
            self.advance();
        }
        let run = self.input.substring_char(start, self.pos);
        let token = match Keyword::from_text(run) {
            Some(keyword) => Token::Keyword(keyword),
            None => Token::String(run.to_owned()),
        };
        Some(token)
    }

    /// Get a special symbol; any character outside the vocabulary is a
    /// lexing failure.
    fn get_symbol(&mut self) -> (t: Option<Token>)
        requires
            old(self).wf(),
            old(self).pos() < old(self).input().len(),
        ensures
            final(self).wf(),
            final(self).input() == old(self).input(),
            final(self).pos() == old(self).pos() + 1,
            token_view(t) == (if old(self).input()[old(self).pos()] == ';' {
                Some(TokenView::Semicolon)
            } else {
                None::<TokenView>
            }),
    {
        let c = self.input.get_char(self.pos);
        self.advance();
        if c == ';' {
            Some(Token::Semicolon)
        } else {
            None
        }
    }
}

} // verus!
