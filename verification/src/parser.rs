//! The parser: recursive descent with one token of lookahead.
//!
//! Grammar, the only path currently supported:
//!
//! ```text
//! statement     := CREATE create_target
//! create_target := DATABASE STRING
//! ```

use vstd::prelude::*;
use crate::ast::{Statement, StatementView, statement_view};
use crate::lexer::{Lexer, next_token_of};
use crate::token::{Keyword, Token, TokenView, token_view};

verus! {

/// The result of parsing from position `pos` of `s` with lookahead token
/// `cur`: the statement produced, if any, together with the position and
/// lookahead token the parser is left with. Failure is total: no partial
/// statement is ever produced.
pub open spec fn parse_outcome(s: Seq<char>, pos: int, cur: Option<TokenView>) -> (
    Option<StatementView>,
    int,
    Option<TokenView>,
) {
    if cur == Some(TokenView::Keyword(Keyword::Create)) {
        let (t2, p2) = next_token_of(s, pos);
        if t2 == Some(TokenView::Keyword(Keyword::Database)) {
            let (t3, p3) = next_token_of(s, p2);
            match t3 {
                Some(TokenView::Str(name)) => (
                    Some(StatementView::CreateDatabase { name }),
                    p3,
                    t3,
                ),
                _ => (None, p3, t3),
            }
        } else {
            (None, p2, t2)
        }
    } else {
        (None, pos, cur)
    }
}

/// The statement a whole input parses to, with a fresh lexer at its start.
pub open spec fn parse_input(s: Seq<char>) -> Option<StatementView> {
    let (t1, p1) = next_token_of(s, 0);
    parse_outcome(s, p1, t1).0
}

/// SQL statement parser, owning its lexer and one buffered lookahead token.
pub struct Parser<'a> {
    /// SQL lexer.
    lexer: Lexer<'a>,
    /// Current token to handle.
    current_token: Option<Token>,
}

impl<'a> Parser<'a> {
    /// The characters being parsed.
    pub closed spec fn input(&self) -> Seq<char> {
        self.lexer.input()
    }

    /// The lexer's position within the input.
    pub closed spec fn pos(&self) -> int {
        self.lexer.pos()
    }

    /// The buffered lookahead token.
    pub closed spec fn cur(&self) -> Option<TokenView> {
        token_view(self.current_token)
    }

    /// The parser's lexer is well formed.
    pub closed spec fn wf(&self) -> bool {
        self.lexer.wf()
    }

    /// Construct a new `Parser` over the given lexer, buffering its first
    /// token as lookahead.
    pub fn new(lexer: Lexer<'a>) -> (p: Parser<'a>)
        requires
            lexer.wf(),
        ensures
            p.wf(),
            p.input() == lexer.input(),
            p.pos() == next_token_of(lexer.input(), lexer.pos()).1,
            p.cur() == next_token_of(lexer.input(), lexer.pos()).0,
    {
        let mut parser = Parser { lexer, current_token: None };
        parser.next_token();
        parser
    }

    /// Refill the lookahead token from the lexer.
    #[inline(always)]
    fn next_token(&mut self)
        requires
            old(self).wf(),
        ensures
            final(self).wf(),
            final(self).input() == old(self).input(),
            final(self).pos() == next_token_of(old(self).input(), old(self).pos()).1,
            final(self).cur() == next_token_of(old(self).input(), old(self).pos()).0,
    {
        self.current_token = self.lexer.next_token();
    }

    /// Parse one SQL statement.
    ///
    /// Succeeds exactly on `CREATE DATABASE` followed by a string token,
    /// whose text becomes the database name; on any other token shape the
    /// parse fails with `None` and no partial statement.
    pub fn parse(&mut self) -> (r: Option<Statement>)
        requires
            old(self).wf(),
        ensures
            final(self).wf(),
            final(self).input() == old(self).input(),
            ({
                let (st, np, nc) = parse_outcome(old(self).input(), old(self).pos(), old(self).cur());
                statement_view(r) == st && final(self).pos() == np && final(self).cur() == nc
            }),
    {
        let is_create = match &self.current_token {
            Some(Token::Keyword(Keyword::Create)) => true,
            _ => false,
        };
        if is_create {
            self.parse_create()
        } else {
            None
        }
    }

    /// Parse the target of a `CREATE` statement.
    fn parse_create(&mut self) -> (r: Option<Statement>)
        requires
            old(self).wf(),
            old(self).cur() == Some(TokenView::Keyword(Keyword::Create)),
        ensures
            final(self).wf(),
            final(self).input() == old(self).input(),
            ({
                let (st, np, nc) = parse_outcome(old(self).input(), old(self).pos(), old(self).cur());
                statement_view(r) == st && final(self).pos() == np && final(self).cur() == nc
            }),
    {
        self.next_token();
        let is_database = match &self.current_token {
            Some(Token::Keyword(Keyword::Database)) => true,
            _ => false,
        };
        if is_database {
            self.parse_create_database()
        } else {
            None
        }
    }

    /// Parse the name of a `CREATE DATABASE` statement.
    fn parse_create_database(&mut self) -> (r: Option<Statement>)
        requires
            old(self).wf(),
            old(self).cur() == Some(TokenView::Keyword(Keyword::Database)),
        ensures
            final(self).wf(),
            final(self).input() == old(self).input(),
            final(self).pos() == next_token_of(old(self).input(), old(self).pos()).1,
            final(self).cur() == next_token_of(old(self).input(), old(self).pos()).0,
            ({
                let t = next_token_of(old(self).input(), old(self).pos()).0;
                statement_view(r) == (match t {
                    Some(TokenView::Str(name)) => Some(StatementView::CreateDatabase { name }),
                    _ => None::<StatementView>,
                })
            }),
    {
        self.next_token();
        match &self.current_token {
            Some(Token::String(name)) => Some(Statement::CreateDatabase { name: name.clone() }),
            _ => None,
        }
    }
}

} // verus!
