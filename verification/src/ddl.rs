//! Code generation for DDL statements.

use vstd::prelude::*;
use vstd::string::StrSliceExecFns;
use vstd::utf8::encode_utf8;
use crate::ast::{LanguageType, Statement};
use crate::codegen::{
    Bytecode, encode_statement, language_type_to_bytecode, operand_fits, statement_to_bytecode,
};

verus! {

/// Generate the bytecode of a DDL statement: the two-tag header, then the
/// statement's operand encoding.
pub fn generate_bytecode(bytecode: &mut Bytecode, statement: &Statement)
    requires
        operand_fits(statement@),
    ensures
        final(bytecode)@ == old(bytecode)@ + encode_statement(statement@),
{
    // Bytecode header.
    bytecode.push(language_type_to_bytecode(LanguageType::DDL));
    bytecode.push(statement_to_bytecode(statement));
    match statement {
        Statement::CreateDatabase { name } => generate_create_database(bytecode, name),
    }
    proof {
        assert(bytecode@ =~= old(bytecode)@ + encode_statement(statement@));
    }
}

/// Generate the operand bytes of a `CREATE DATABASE` statement: the name's
/// byte count, then exactly that many raw UTF-8 bytes of the name.
fn generate_create_database(bytecode: &mut Bytecode, name: &String)
    requires
        encode_utf8(name@).len() <= 255,
    ensures
        final(bytecode)@ == old(bytecode)@ + seq![(encode_utf8(name@).len() as u8)]
            + encode_utf8(name@),
{
    let bytes = name.as_str().as_bytes_vec();
    bytecode.push(bytes.len() as u8);
    let mut i: usize = 0;
    while i < bytes.len()
        invariant
            bytes@ == encode_utf8(name@),
            bytes@.len() <= 255,
            i <= bytes@.len(),
            bytecode@ == old(bytecode)@ + seq![(bytes@.len() as u8)] + bytes@.subrange(
                0,
                i as int,
            ),
        decreases bytes@.len() - i,
    {
        bytecode.push(bytes[i]);
        proof {
            assert(bytecode@ =~= old(bytecode)@ + seq![(bytes@.len() as u8)] + bytes@.subrange(
                0,
                i + 1,
            ));
        }
        i = i + 1;
    }
    proof {
        assert(bytecode@ =~= old(bytecode)@ + seq![(encode_utf8(name@).len() as u8)] + encode_utf8(
            name@,
        ));
    }
}

} // verus!
