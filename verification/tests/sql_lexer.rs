use torussql::sql::{Keyword, Lexer, Token};

#[test]
fn lexer_test_next_token() {
    let input = "     CREATE     DATABASE    MyDB      ;     ";
    let mut lexer = Lexer::new(input);

    let token = lexer.next_token();
    assert_eq!(token, Some(Token::Keyword(Keyword::Create)));

    let token = lexer.next_token();
    assert_eq!(token, Some(Token::Keyword(Keyword::Database)));

    let token = lexer.next_token();
    assert_eq!(token, Some(Token::String("MyDB".to_string())));

    let token = lexer.next_token();
    assert_eq!(token, Some(Token::Semicolon));

    let token = lexer.next_token();
    assert_eq!(token, Some(Token::End));

    // Check that end was reached again.
    let token = lexer.next_token();
    assert_eq!(token, Some(Token::End));
}

#[test]
fn lexer_test_next_token_different_case() {
    let input = "     CreAtE     DATAbase    MyDB      ;     ";
    let mut lexer = Lexer::new(input);

    let token = lexer.next_token();
    assert_eq!(token, Some(Token::Keyword(Keyword::Create)));

    let token = lexer.next_token();
    assert_eq!(token, Some(Token::Keyword(Keyword::Database)));

    let token = lexer.next_token();
    assert_eq!(token, Some(Token::String("MyDB".to_string())));

    let token = lexer.next_token();
    assert_eq!(token, Some(Token::Semicolon));

    let token = lexer.next_token();
    assert_eq!(token, Some(Token::End));

    // Check that end was reached again.
    let token = lexer.next_token();
    assert_eq!(token, Some(Token::End));
}

#[test]
fn lexer_test_parse_empty_string() {
    let input = "     ";
    let mut lexer = Lexer::new(input);

    let token = lexer.next_token();
    assert_eq!(token, Some(Token::End));
}

#[test]
fn lexer_rejects_unknown_symbol() {
    let mut lexer = Lexer::new("  *  ");

    let token = lexer.next_token();
    assert_eq!(token, None);
}

#[test]
fn lexer_keyword_from_text() {
    assert_eq!(Keyword::from_text("DataBase"), Some(Keyword::Database));
    assert_eq!(Keyword::from_text("create"), Some(Keyword::Create));
    assert_eq!(Keyword::from_text("select"), None);
    assert_eq!(Keyword::Create.text(), "CREATE");
    assert_eq!(Keyword::Database.text(), "DATABASE");
}
