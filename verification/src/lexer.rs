//! The lexer: converts a statement's characters into tokens on demand.

use vstd::prelude::*;
use vstd::string::StrSliceExecFns;
use crate::chars::{alphabetic, char_is_alphabetic, char_is_whitespace, whitespace};
use crate::token::{Keyword, Token, TokenView, token_view};

verus! {

/// The first position at or after `i` whose character is not whitespace, or
/// the end of `s`.
pub open spec fn skip_spaces(s: Seq<char>, i: int) -> int
    decreases s.len() - i,
{
    if i < 0 || i >= s.len() {
        i
    } else if whitespace(s[i]) {
        skip_spaces(s, i + 1)
    } else {
        i
    }
}

/// The end of the maximal alphabetic run starting at `i`.
pub open spec fn letters_end(s: Seq<char>, i: int) -> int
    decreases s.len() - i,
{
    if i < 0 || i >= s.len() {
        i
    } else if alphabetic(s[i]) {
        letters_end(s, i + 1)
    } else {
        i
    }
}

/// The position of the first `"` at or after `i`, or the end of `s` if there
/// is none.
pub open spec fn quote_end(s: Seq<char>, i: int) -> int
    decreases s.len() - i,
{
    if i < 0 || i >= s.len() {
        s.len() as int
    } else if s[i] == '"' {
        i
    } else {
        quote_end(s, i + 1)
    }
}

/// The token found at position `i` of `s` after skipping whitespace, and the
/// position at which scanning resumes. `None` stands for a lexing failure:
/// an unclassifiable character, an unterminated string literal, or an empty
/// string literal.
pub open spec fn next_token_of(s: Seq<char>, i: int) -> (Option<TokenView>, int) {
    let j = skip_spaces(s, i);
    if j >= s.len() {
        (Some(TokenView::End), s.len() as int)
    } else if alphabetic(s[j]) {
        let k = letters_end(s, j);
        let run = s.subrange(j, k);
        let tok = match crate::token::keyword_of(run) {
            Some(kw) => TokenView::Keyword(kw),
            None => TokenView::Str(run),
        };
        (Some(tok), k)
    } else if s[j] == '"' {
        let q = quote_end(s, j + 1);
        if q >= s.len() {
            (None, s.len() as int)
        } else if q == j + 1 {
            (None, q + 1)
        } else {
            (Some(TokenView::Str(s.subrange(j + 1, q))), q + 1)
        }
    } else if s[j] == ';' {
        (Some(TokenView::Semicolon), j + 1)
    } else {
        (None, j + 1)
    }
}

/// On input that holds only whitespace, the very first token request yields
/// `End`.
pub proof fn lemma_whitespace_only_end(s: Seq<char>)
    requires
        forall|i: int| 0 <= i < s.len() ==> whitespace(s[i]),
    ensures
        next_token_of(s, 0) == (Some(TokenView::End), s.len() as int),
{
    lemma_skip_spaces_all(s, 0);
}

/// `End` is a repeatable sentinel: once a token request yields `End`, every
/// further request yields `End` again.
pub proof fn lemma_end_repeatable(s: Seq<char>, i: int)
    requires
        0 <= i <= s.len(),
        next_token_of(s, i).0 == Some(TokenView::End),
    ensures
        next_token_of(s, next_token_of(s, i).1) == (Some(TokenView::End), s.len() as int),
{
}

/// Skipping whitespace over an all-whitespace tail reaches the end.
proof fn lemma_skip_spaces_all(s: Seq<char>, i: int)
    requires
        0 <= i <= s.len(),
        forall|j: int| i <= j < s.len() ==> whitespace(s[j]),
    ensures
        skip_spaces(s, i) == s.len(),
    decreases s.len() - i,
{
    if i < s.len() {
        lemma_skip_spaces_all(s, i + 1);
    }
}

/// Converts SQL code into tokens, reading one character at a time over a
/// borrowed input.
pub struct Lexer<'a> {
    /// The SQL code being scanned.
    input: &'a str,
    /// The position of the next character to read.
    pos: usize,
    /// The number of characters of `input`.
    len: usize,
}

impl<'a> Lexer<'a> {
    /// The characters being scanned.
    pub closed spec fn input(&self) -> Seq<char> {
        self.input@
    }

    /// The position of the next character to read.
    pub closed spec fn pos(&self) -> int {
        self.pos as int
    }

    /// The cursor lies within the input.
    pub closed spec fn wf(&self) -> bool {
        self.len == self.input@.len() && self.pos <= self.len
    }

    /// Construct a new `Lexer` over the given SQL code, positioned at its
    /// start.
    pub fn new(input: &'a str) -> (l: Lexer<'a>)
        ensures
            l.wf(),
            l.input() == input@,
            l.pos() == 0,
    {
        let len = input.unicode_len();
        Lexer { input, pos: 0, len }
    }

    /// Get the next token.
    ///
    /// Skips whitespace, then classifies by the next character: a letter
    /// starts a keyword or identifier run, `"` a string literal, `;` the
    /// semicolon symbol; exhausted input yields `End`, repeatably. Any other
    /// character, an unterminated string literal and an empty string literal
    /// yield `None`.
    pub fn next_token(&mut self) -> (t: Option<Token>)
        requires
            old(self).wf(),
        ensures
            final(self).wf(),
            final(self).input() == old(self).input(),
            token_view(t) == next_token_of(old(self).input(), old(self).pos()).0,
            final(self).pos() == next_token_of(old(self).input(), old(self).pos()).1,
    {
        self.skip_whitespace();
        if self.pos == self.len {
            return Some(Token::End);
        }
        let c = self.input.get_char(self.pos);
        if char_is_alphabetic(c) {
            self.consume_keyword_or_ident()
        } else if c == '"' {
            self.consume_string()
        } else {
            self.consume_symbol()
        }
    }

    /// Skip whitespace characters.
    fn skip_whitespace(&mut self)
        requires
            old(self).wf(),
        ensures
            final(self).wf(),
            final(self).input() == old(self).input(),
            final(self).pos() == skip_spaces(old(self).input(), old(self).pos()),
    {
        let ghost s = self.input@;
        let ghost p0 = self.pos as int;
        while self.pos < self.len && char_is_whitespace(self.input.get_char(self.pos))
            invariant
                self.wf(),
                self.input@ == s,
                p0 <= self.pos as int,
                skip_spaces(s, p0) == skip_spaces(s, self.pos as int),
            decreases self.len - self.pos,
        {
            self.advance();
        }
    }

    /// Advance the cursor by one character.
    #[inline(always)]
    fn advance(&mut self)
        requires
            old(self).wf(),
            old(self).pos() < old(self).input().len(),
        ensures
            final(self).wf(),
            final(self).input() == old(self).input(),
            final(self).pos() == old(self).pos() + 1,
    {
        self.pos = self.pos + 1;
    }

    /// Consume a keyword or identifier token: the maximal alphabetic run at
    /// the cursor, matched case-insensitively against the keyword set.
    fn consume_keyword_or_ident(&mut self) -> (t: Option<Token>)
        requires
            old(self).wf(),
            old(self).pos() < old(self).input().len(),
            alphabetic(old(self).input()[old(self).pos()]),
        ensures
            final(self).wf(),
            final(self).input() == old(self).input(),
            final(self).pos() == letters_end(old(self).input(), old(self).pos()),
            ({
                let run = old(self).input().subrange(
                    old(self).pos(),
                    letters_end(old(self).input(), old(self).pos()),
                );
                token_view(t) == Some(match crate::token::keyword_of(run) {
                    Some(kw) => TokenView::Keyword(kw),
                    None => TokenView::Str(run),
                })
            }),
    {
        let ghost s = self.input@;
        let start = self.pos;
        while self.pos < self.len && char_is_alphabetic(self.input.get_char(self.pos))
            invariant
                self.wf(),
                self.input@ == s,
                start <= self.pos,
                letters_end(s, start as int) == letters_end(s, self.pos as int),
            decreases self.len - self.pos,
        {
            self.advance();
        }
        let run = self.input.substring_char(start, self.pos);
        let token = match Keyword::from_text(run) {
            Some(keyword) => Token::Keyword(keyword),
            None => Token::String(run.to_owned()),
        };
        Some(token)
    }

    /// Consume a string literal: the characters up to, and discarding, the
    /// next `"`. An unterminated or empty literal yields no token.
    fn consume_string(&mut self) -> (t: Option<Token>)
        requires
            old(self).wf(),
            old(self).pos() < old(self).input().len(),
            old(self).input()[old(self).pos()] == '"',
        ensures
            final(self).wf(),
            final(self).input() == old(self).input(),
            ({
                let s = old(self).input();
                let j = old(self).pos();
                let q = quote_end(s, j + 1);
                if q >= s.len() {
                    token_view(t) == None::<TokenView> && final(self).pos() == s.len()
                } else if q == j + 1 {
                    token_view(t) == None::<TokenView> && final(self).pos() == q + 1
                } else {
                    token_view(t) == Some(TokenView::Str(s.subrange(j + 1, q)))
                        && final(self).pos() == q + 1
                }
            }),
    {
        let ghost s = self.input@;
        // Skip the opening quote.
        self.advance();
        let start = self.pos;
        while self.pos < self.len && self.input.get_char(self.pos) != '"'
            invariant
                self.wf(),
                self.input@ == s,
                start <= self.pos,
                quote_end(s, start as int) == quote_end(s, self.pos as int),
            decreases self.len - self.pos,
        {
            self.advance();
        }
        if self.pos == self.len {
            // No closing quote before the end of the input.
            return None;
        }
        let end = self.pos;
        // Consume the closing quote.
        self.advance();
        if end == start {
            return None;
        }
        let value = self.input.substring_char(start, end);
        Some(Token::String(value.to_owned()))
    }

    /// Consume a special symbol; any character outside the vocabulary is a
    /// lexing failure.
    fn consume_symbol(&mut self) -> (t: Option<Token>)
        requires
            old(self).wf(),
            old(self).pos() < old(self).input().len(),
        ensures
            final(self).wf(),
            final(self).input() == old(self).input(),
            final(self).pos() == old(self).pos() + 1,
            token_view(t) == (if old(self).input()[old(self).pos()] == ';' {
                Some(TokenView::Semicolon)
            } else {
                None::<TokenView>
            }),
    {
        let c = self.input.get_char(self.pos);
        self.advance();
        if c == ';' {
            Some(Token::Semicolon)
        } else {
            None
        }
    }
}

} // verus!
