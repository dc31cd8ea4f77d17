//! Bytecode generation for the virtual machine.
//!
//! Wire format, all fields single bytes: a language-type tag, a
//! statement-kind tag, the operand's byte count, then exactly that many raw
//! UTF-8 bytes of the statement's textual operand.

use vstd::prelude::*;
use vstd::utf8::encode_utf8;
use crate::ast::{LanguageType, Statement, StatementView, language_type_of};
use crate::parser::{Parser, parse_outcome, parse_input};

verus! {

/// Bytecode type alias.
pub type Bytecode = Vec<u8>;

/// The bytecode tag of a language type; the table is a bijection onto
/// `1..=6`.
pub open spec fn language_type_code(lang_type: LanguageType) -> u8 {
    match lang_type {
        LanguageType::DDL => 0x01,
        LanguageType::DML => 0x02,
        LanguageType::DCL => 0x03,
        LanguageType::TCL => 0x04,
        LanguageType::DQL => 0x05,
        LanguageType::Vendor => 0x06,
    }
}

/// The language type a bytecode tag denotes, if any: the inverse of
/// `language_type_code`.
pub open spec fn language_type_of_code(byte: u8) -> Option<LanguageType> {
    match byte {
        0x01 => Some(LanguageType::DDL),
        0x02 => Some(LanguageType::DML),
        0x03 => Some(LanguageType::DCL),
        0x04 => Some(LanguageType::TCL),
        0x05 => Some(LanguageType::DQL),
        0x06 => Some(LanguageType::Vendor),
        _ => None,
    }
}

/// The bytecode tag of a statement kind.
pub open spec fn statement_code(s: StatementView) -> u8 {
    match s {
        StatementView::CreateDatabase { .. } => 0x01,
    }
}

/// The operand bytes of a statement: the raw UTF-8 encoding of its textual
/// field.
pub open spec fn operand_bytes(s: StatementView) -> Seq<u8> {
    match s {
        StatementView::CreateDatabase { name } => encode_utf8(name),
    }
}

/// Whether the statement's operand fits the one-byte length prefix.
pub open spec fn operand_fits(s: StatementView) -> bool {
    operand_bytes(s).len() <= 255
}

/// The full encoding of a statement: two header tags, the operand length,
/// then the operand bytes.
pub open spec fn encode_statement(s: StatementView) -> Seq<u8> {
    seq![
        language_type_code(language_type_of(s)),
        statement_code(s),
        operand_bytes(s).len() as u8,
    ] + operand_bytes(s)
}

/// The bytecode a whole input compiles to, with a fresh lexer, parser and
/// code generator: `None` when parsing fails or the operand does not fit the
/// length prefix.
pub open spec fn compile_input(s: Seq<char>) -> Option<Seq<u8>> {
    match parse_input(s) {
        Some(st) => if operand_fits(st) {
            Some(encode_statement(st))
        } else {
            None
        },
        None => None,
    }
}

/// The two tag tables round-trip: every language type survives encoding and
/// decoding unchanged.
pub proof fn lemma_language_type_round_trip(lang_type: LanguageType)
    ensures
        language_type_of_code(language_type_code(lang_type)) == Some(lang_type),
{
}

/// The declared operand length is the exact count of the bytes that follow
/// it: the byte after the two-tag header prefixes precisely the operand.
pub proof fn lemma_length_prefix(s: StatementView)
    requires
        operand_fits(s),
    ensures
        encode_statement(s).len() == 3 + operand_bytes(s).len(),
        encode_statement(s)[2] == operand_bytes(s).len(),
        encode_statement(s).subrange(3, encode_statement(s).len() as int) == operand_bytes(s),
{
    assert(encode_statement(s).subrange(3, encode_statement(s).len() as int)
        =~= operand_bytes(s));
}

/// Compilation is deterministic: the bytecode is a function of the input
/// characters alone, so compiling the same statement twice with fresh
/// instances produces byte-identical bytecode.
pub proof fn lemma_compile_deterministic(a: Seq<char>, b: Seq<char>)
    requires
        a == b,
    ensures
        compile_input(a) == compile_input(b),
{
}

/// Convert a SQL language type to its bytecode tag.
pub fn language_type_to_bytecode(lang_type: LanguageType) -> (b: u8)
    ensures
        b == language_type_code(lang_type),
{
    match lang_type {
        LanguageType::DDL => 0x01,
        LanguageType::DML => 0x02,
        LanguageType::DCL => 0x03,
        LanguageType::TCL => 0x04,
        LanguageType::DQL => 0x05,
        LanguageType::Vendor => 0x06,
    }
}

/// Convert a bytecode tag back to a SQL language type; exactly the tags
/// `1..=6` succeed.
pub fn bytecode_to_language_type(byte: u8) -> (t: Option<LanguageType>)
    ensures
        t == language_type_of_code(byte),
{
    match byte {
        0x01 => Some(LanguageType::DDL),
        0x02 => Some(LanguageType::DML),
        0x03 => Some(LanguageType::DCL),
        0x04 => Some(LanguageType::TCL),
        0x05 => Some(LanguageType::DQL),
        0x06 => Some(LanguageType::Vendor),
        _ => None,
    }
}

/// Convert a SQL statement to its statement-kind tag.
pub fn statement_to_bytecode(statement: &Statement) -> (b: u8)
    ensures
        b == statement_code(statement@),
{
    match statement {
        Statement::CreateDatabase { .. } => 0x01,
    }
}

/// Generates bytecode for the virtual machine, driving one parser and
/// appending to an owned buffer.
pub struct CodeGen<'a> {
    /// SQL statement parser.
    parser: Parser<'a>,
    /// SQL statement bytecode.
    bytecode: Bytecode,
}

impl<'a> CodeGen<'a> {
    /// The characters being compiled.
    pub closed spec fn input(&self) -> Seq<char> {
        self.parser.input()
    }

    /// The parser's position within the input.
    pub closed spec fn pos(&self) -> int {
        self.parser.pos()
    }

    /// The parser's buffered lookahead token.
    pub closed spec fn cur(&self) -> Option<crate::token::TokenView> {
        self.parser.cur()
    }

    /// The bytes emitted so far.
    pub closed spec fn out(&self) -> Seq<u8> {
        self.bytecode@
    }

    /// The generator's parser is well formed.
    pub closed spec fn wf(&self) -> bool {
        self.parser.wf()
    }

    /// Construct a new `CodeGen` over the given parser, with an empty
    /// bytecode buffer.
    pub fn new(parser: Parser<'a>) -> (g: CodeGen<'a>)
        requires
            parser.wf(),
        ensures
            g.wf(),
            g.input() == parser.input(),
            g.pos() == parser.pos(),
            g.cur() == parser.cur(),
            g.out() == Seq::<u8>::empty(),
    {
        CodeGen { parser, bytecode: Vec::with_capacity(64) }
    }

    /// Generate the bytecode of one statement.
    ///
    /// Drives one `parse` call; succeeds exactly when parsing succeeds and
    /// the statement's operand fits the one-byte length prefix, returning
    /// the buffer with the statement's encoding appended. On failure the
    /// buffer is left untouched and nothing partial is emitted.
    pub fn generate_bytecode(&mut self) -> (r: Option<Bytecode>)
        requires
            old(self).wf(),
        ensures
            final(self).wf(),
            final(self).input() == old(self).input(),
            ({
                let st = parse_outcome(old(self).input(), old(self).pos(), old(self).cur()).0;
                match st {
                    Some(sv) => if operand_fits(sv) {
                        final(self).out() == old(self).out() + encode_statement(sv)
                            && (match r {
                            Some(b) => b@ == old(self).out() + encode_statement(sv),
                            None => false,
                        })
                    } else {
                        final(self).out() == old(self).out() && r is None
                    },
                    None => final(self).out() == old(self).out() && r is None,
                }
            }),
    {
        if let Some(statement) = self.parser.parse() {
            let language_type = statement.language_type();
            match language_type {
                LanguageType::DDL => {
                    let fits = match &statement {
                        Statement::CreateDatabase { name } => name.as_str().as_bytes().len()
                            <= 255,
                    };
                    if !fits {
                        return None;
                    }
                    crate::ddl::generate_bytecode(&mut self.bytecode, &statement);
                },
                LanguageType::DML => return None,
                LanguageType::DCL => return None,
                LanguageType::TCL => return None,
                LanguageType::DQL => return None,
                LanguageType::Vendor => return None,
            }
            let mut out: Bytecode = Vec::with_capacity(self.bytecode.len());
            let mut i: usize = 0;
            while i < self.bytecode.len()
                invariant
                    i <= self.bytecode@.len(),
                    out@ == self.bytecode@.subrange(0, i as int),
                decreases self.bytecode@.len() - i,
            {
                out.push(self.bytecode[i]);
                proof {
                    assert(out@ =~= self.bytecode@.subrange(0, i + 1));
                }
                i = i + 1;
            }
            proof {
                assert(out@ =~= self.bytecode@);
            }
            return Some(out);
        }
        None
    }
}

} // verus!
