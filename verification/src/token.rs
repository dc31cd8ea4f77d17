//! The token vocabulary: lexical units and the closed keyword set.

use vstd::prelude::*;
use crate::chars::{ci_seq_eq, lemma_ci_seq_eq_common, str_ci_eq};

verus! {

/// SQL keywords, a closed set matched case-insensitively.
#[derive(Debug, Clone, Copy, PartialEq, Eq, Structural)]
pub enum Keyword {
    Create,
    Database,
}

/// SQL tokens, produced by the lexer one at a time.
#[derive(Debug)]
pub enum Token {
    /// A run of letters that matched the keyword set.
    Keyword(Keyword),
    /// A quoted literal or an identifier-like run of letters.
    String(String),
    /// The `;` symbol.
    Semicolon,
    /// End of input; repeated on every further request.
    End,
}

/// Mathematical image of a token: carried text is a character sequence.
pub enum TokenView {
    Keyword(Keyword),
    Str(Seq<char>),
    Semicolon,
    End,
}

impl View for Token {
    type V = TokenView;

    open spec fn view(&self) -> TokenView {
        match self {
            Token::Keyword(k) => TokenView::Keyword(*k),
            Token::String(s) => TokenView::Str(s@),
            Token::Semicolon => TokenView::Semicolon,
            Token::End => TokenView::End,
        }
    }
}

/// The view of an optional token.
pub open spec fn token_view(t: Option<Token>) -> Option<TokenView> {
    match t {
        Some(tok) => Some(tok@),
        None => None,
    }
}

impl PartialEq for Token {
    fn eq(&self, other: &Token) -> bool {
        match (self, other) {
            (Token::Keyword(a), Token::Keyword(b)) => a == b,
            (Token::String(a), Token::String(b)) => a.eq(b),
            (Token::Semicolon, Token::Semicolon) => true,
            (Token::End, Token::End) => true,
            _ => false,
        }
    }
}

impl vstd::std_specs::cmp::PartialEqSpecImpl for Token {
    open spec fn obeys_eq_spec() -> bool {
        true
    }

    open spec fn eq_spec(&self, other: &Token) -> bool {
        match (self, other) {
            (Token::Keyword(a), Token::Keyword(b)) => a == b,
            (Token::String(a), Token::String(b)) => a@ == b@,
            (Token::Semicolon, Token::Semicolon) => true,
            (Token::End, Token::End) => true,
            _ => false,
        }
    }
}

/// Which keyword a run of letters denotes, if any; matching is
/// case-insensitive.
pub open spec fn keyword_of(s: Seq<char>) -> Option<Keyword> {
    if ci_seq_eq(s, "create"@) {
        Some(Keyword::Create)
    } else if ci_seq_eq(s, "database"@) {
        Some(Keyword::Database)
    } else {
        None
    }
}

/// Keyword recognition is case-insensitive: texts that agree up to case map
/// to the same keyword, or both to none.
pub proof fn lemma_keyword_case_insensitive(a: Seq<char>, b: Seq<char>)
    requires
        ci_seq_eq(a, b),
    ensures
        keyword_of(a) == keyword_of(b),
{
    lemma_ci_seq_eq_common(a, b, "create"@);
    lemma_ci_seq_eq_common(a, b, "database"@);
}

impl Keyword {
    /// Case-insensitive lookup of a keyword from its text.
    pub fn from_text(value: &str) -> (r: Option<Keyword>)
        ensures
            r == keyword_of(value@),
    {
        if str_ci_eq(value, "create") {
            Some(Keyword::Create)
        } else if str_ci_eq(value, "database") {
            Some(Keyword::Database)
        } else {
            None
        }
    }

    /// The canonical spelling of the keyword.
    pub fn text(&self) -> (r: &'static str)
        ensures
            (match self {
                Keyword::Create => r@ == "CREATE"@,
                Keyword::Database => r@ == "DATABASE"@,
            }),
    {
        match self {
            Keyword::Create => "CREATE",
            Keyword::Database => "DATABASE",
        }
    }
}

} // verus!
