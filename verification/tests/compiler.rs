use torussql::ast::Statement;
use torussql::codegen::CodeGen;
use torussql::lexer::Lexer;
use torussql::parser::Parser;
use torussql::token::{Keyword, Token};

fn create_parser(input: &str) -> Parser<'_> {
    let lexer = Lexer::new(input);
    Parser::new(lexer)
}

fn create_codegen(input: &str) -> CodeGen<'_> {
    let parser = create_parser(input);
    CodeGen::new(parser)
}

#[test]
fn test_codegen_create_database() {
    let mut codegen = create_codegen("CREATE DATABASE \"MyDB\";");
    let bytecode = codegen.generate_bytecode().unwrap();

    println!("Bytecode: {:X?}", bytecode);
}

#[test]
fn mod_test_next_token() {
    let input = "     CREATE     DATABASE    \"MyDB\"      ;     ";
    let mut lexer = Lexer::new(input);

    let token = lexer.next_token();
    assert_eq!(token, Some(Token::Keyword(Keyword::Create)));

    let token = lexer.next_token();
    assert_eq!(token, Some(Token::Keyword(Keyword::Database)));

    let token = lexer.next_token();
    assert_eq!(token, Some(Token::String("MyDB".to_string())));

    let token = lexer.next_token();
    assert_eq!(token, Some(Token::Semicolon));

    let token = lexer.next_token();
    assert_eq!(token, Some(Token::End));

    // Check that end was reached again.
    let token = lexer.next_token();
    assert_eq!(token, Some(Token::End));
}

#[test]
fn mod_test_next_token_different_case() {
    let input = "     CreAtE     DATAbase    \"  MyDB  \"      ;     ";
    let mut lexer = Lexer::new(input);

    let token = lexer.next_token();
    assert_eq!(token, Some(Token::Keyword(Keyword::Create)));

    let token = lexer.next_token();
    assert_eq!(token, Some(Token::Keyword(Keyword::Database)));

    let token = lexer.next_token();
    assert_eq!(token, Some(Token::String("  MyDB  ".to_string())));

    let token = lexer.next_token();
    assert_eq!(token, Some(Token::Semicolon));

    let token = lexer.next_token();
    assert_eq!(token, Some(Token::End));

    // Check that end was reached again.
    let token = lexer.next_token();
    assert_eq!(token, Some(Token::End));
}

#[test]
fn mod_test_parse_empty_string() {
    let input = "     ";
    let mut lexer = Lexer::new(input);

    let token = lexer.next_token();
    assert_eq!(token, Some(Token::End));
}

#[test]
fn test_parser() {
    let _lexer = Lexer::new("CREATE DATABASE \"MyDB");
}

#[test]
fn test_create_database() {
    let mut parser = create_parser("CREATE DATABASE \"MyDB\";");
    let statement = parser.parse().unwrap();

    let correct_statement = Statement::CreateDatabase {
        name: "MyDB".to_string(),
    };

    println!("Statement: {:?}", statement);
    assert_eq!(statement, correct_statement);
}
