use torussql::ast::{LanguageType, Statement};
use torussql::codegen::{
    CodeGen, bytecode_to_language_type, language_type_to_bytecode, statement_to_bytecode,
};
use torussql::lexer::Lexer;
use torussql::parser::Parser;
use torussql::token::{Keyword, Token};

fn compile(input: &str) -> Option<Vec<u8>> {
    let lexer = Lexer::new(input);
    let parser = Parser::new(lexer);
    let mut codegen = CodeGen::new(parser);
    codegen.generate_bytecode()
}

#[test]
fn language_type_round_trip_all_variants() {
    let variants = [
        LanguageType::DDL,
        LanguageType::DML,
        LanguageType::DCL,
        LanguageType::TCL,
        LanguageType::DQL,
        LanguageType::Vendor,
    ];
    for t in variants {
        assert_eq!(bytecode_to_language_type(language_type_to_bytecode(t)), Some(t));
    }
}

#[test]
fn language_type_tags_are_assigned_in_order() {
    assert_eq!(language_type_to_bytecode(LanguageType::DDL), 0x01);
    assert_eq!(language_type_to_bytecode(LanguageType::DML), 0x02);
    assert_eq!(language_type_to_bytecode(LanguageType::DCL), 0x03);
    assert_eq!(language_type_to_bytecode(LanguageType::TCL), 0x04);
    assert_eq!(language_type_to_bytecode(LanguageType::DQL), 0x05);
    assert_eq!(language_type_to_bytecode(LanguageType::Vendor), 0x06);
    assert_eq!(bytecode_to_language_type(0x00), None);
    assert_eq!(bytecode_to_language_type(0x07), None);
    assert_eq!(bytecode_to_language_type(0xFF), None);
}

#[test]
fn tokenize_create_database_with_spacing() {
    let mut lexer = Lexer::new("   CREATE   DATABASE  \"MyDB\"  ;  ");

    assert_eq!(lexer.next_token(), Some(Token::Keyword(Keyword::Create)));
    assert_eq!(lexer.next_token(), Some(Token::Keyword(Keyword::Database)));
    assert_eq!(lexer.next_token(), Some(Token::String("MyDB".to_string())));
    assert_eq!(lexer.next_token(), Some(Token::Semicolon));
    assert_eq!(lexer.next_token(), Some(Token::End));
    assert_eq!(lexer.next_token(), Some(Token::End));
}

#[test]
fn keyword_matching_is_case_insensitive() {
    assert_eq!(Keyword::from_text("CreAtE"), Some(Keyword::Create));
    assert_eq!(Keyword::from_text("CREATE"), Some(Keyword::Create));

    let mut mixed = Lexer::new("CreAtE");
    assert_eq!(mixed.next_token(), Some(Token::Keyword(Keyword::Create)));
    let mut upper = Lexer::new("CREATE");
    assert_eq!(upper.next_token(), Some(Token::Keyword(Keyword::Create)));
}

#[test]
fn keyword_canonical_spelling() {
    assert_eq!(Keyword::Create.text(), "CREATE");
    assert_eq!(Keyword::Database.text(), "DATABASE");
    assert_eq!(Keyword::from_text("table"), None);
}

#[test]
fn string_literal_preserves_interior_whitespace() {
    let mut lexer = Lexer::new("\"  MyDB  \"");

    assert_eq!(lexer.next_token(), Some(Token::String("  MyDB  ".to_string())));
}

#[test]
fn bytecode_of_create_database_is_exact() {
    let bytecode = compile("CREATE DATABASE \"MyDB\";").unwrap();

    assert_eq!(bytecode, vec![0x01, 0x01, 4, b'M', b'y', b'D', b'B']);
}

#[test]
fn bytecode_counts_operand_bytes_not_characters() {
    let bytecode = compile("CREATE DATABASE \"h\u{e9}llo\";").unwrap();

    // "héllo" holds five characters but six UTF-8 bytes.
    assert_eq!(
        bytecode,
        vec![0x01, 0x01, 6, 0x68, 0xC3, 0xA9, 0x6C, 0x6C, 0x6F]
    );
}

#[test]
fn select_statement_is_rejected_end_to_end() {
    assert_eq!(compile("SELECT * FROM t;"), None);

    let mut parser = Parser::new(Lexer::new("SELECT * FROM t;"));
    assert_eq!(parser.parse(), None);

    // The lexer independently fails on the `*` character.
    let mut lexer = Lexer::new("SELECT * FROM t;");
    assert_eq!(lexer.next_token(), Some(Token::String("SELECT".to_string())));
    assert_eq!(lexer.next_token(), None);
}

#[test]
fn empty_and_whitespace_input_tokenize_to_end() {
    let mut empty = Lexer::new("");
    assert_eq!(empty.next_token(), Some(Token::End));

    let mut blank = Lexer::new(" \t\n  ");
    assert_eq!(blank.next_token(), Some(Token::End));
    assert_eq!(blank.next_token(), Some(Token::End));
}

#[test]
fn compiling_twice_is_deterministic() {
    let first = compile("CREATE DATABASE \"MyDB\";").unwrap();
    let second = compile("CREATE DATABASE \"MyDB\";").unwrap();

    assert_eq!(first, second);
}

#[test]
fn unterminated_string_literal_fails() {
    let mut lexer = Lexer::new("\"MyDB");
    assert_eq!(lexer.next_token(), None);

    assert_eq!(compile("CREATE DATABASE \"MyDB"), None);
}

#[test]
fn empty_string_literal_fails() {
    let mut lexer = Lexer::new("\"\"");
    assert_eq!(lexer.next_token(), None);
}

#[test]
fn parser_rejects_malformed_create() {
    let mut missing_database = Parser::new(Lexer::new("CREATE TABLE \"T\";"));
    assert_eq!(missing_database.parse(), None);

    let mut missing_create = Parser::new(Lexer::new("DATABASE \"MyDB\";"));
    assert_eq!(missing_create.parse(), None);

    let mut missing_name = Parser::new(Lexer::new("CREATE DATABASE ;"));
    assert_eq!(missing_name.parse(), None);
}

#[test]
fn parser_accepts_identifier_shaped_name() {
    let mut parser = Parser::new(Lexer::new("CREATE DATABASE MyDB;"));

    assert_eq!(
        parser.parse(),
        Some(Statement::CreateDatabase {
            name: "MyDB".to_string()
        })
    );
}

#[test]
fn oversized_name_yields_no_bytecode() {
    let name = "a".repeat(300);
    let input = format!("CREATE DATABASE \"{}\";", name);

    assert_eq!(compile(&input), None);

    // A name of exactly 255 bytes still fits the length prefix.
    let name = "a".repeat(255);
    let input = format!("CREATE DATABASE \"{}\";", name);
    let bytecode = compile(&input).unwrap();
    assert_eq!(bytecode.len(), 3 + 255);
    assert_eq!(bytecode[2], 255);
}

#[test]
fn statement_kind_and_language_type() {
    let statement = Statement::CreateDatabase {
        name: "MyDB".to_string(),
    };

    assert_eq!(statement.language_type(), LanguageType::DDL);
    assert_eq!(statement_to_bytecode(&statement), 0x01);
}
