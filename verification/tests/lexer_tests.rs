use mincc::errors::LexError;
use mincc::lexer::Lexer;
use mincc::token::Token;

fn lex(text: &str) -> Result<Vec<Token>, LexError> {
    Lexer::new(text.to_owned()).lex()
}

#[test]
fn lexes_the_round_trip_program() {
    let tokens = lex("int main(void){return 2;}").unwrap();
    assert_eq!(tokens.len(), 10);
    assert!(matches!(tokens[0], Token::Int));
    match &tokens[1] {
        Token::Identifier(name) => assert_eq!(name, "main"),
        other => panic!("expected an identifier, got {:?}", other),
    }
    assert!(matches!(tokens[2], Token::OpenParen));
    assert!(matches!(tokens[3], Token::Void));
    assert!(matches!(tokens[4], Token::CloseParen));
    assert!(matches!(tokens[5], Token::OpenBrace));
    assert!(matches!(tokens[6], Token::Return));
    assert!(matches!(tokens[7], Token::Integer(2)));
    assert!(matches!(tokens[8], Token::Semicolon));
    assert!(matches!(tokens[9], Token::CloseBrace));
}

#[test]
fn lexes_unary_operator_marks() {
    let tokens = lex("return -~5;").unwrap();
    assert!(matches!(tokens[0], Token::Return));
    assert!(matches!(tokens[1], Token::Negate));
    assert!(matches!(tokens[2], Token::BitFlip));
    assert!(matches!(tokens[3], Token::Integer(5)));
    assert!(matches!(tokens[4], Token::Semicolon));
    assert_eq!(tokens.len(), 5);
}

#[test]
fn double_minus_lexes_as_two_negations() {
    let tokens = lex("--5").unwrap();
    assert!(matches!(tokens[0], Token::Negate));
    assert!(matches!(tokens[1], Token::Negate));
    assert!(matches!(tokens[2], Token::Integer(5)));
    assert_eq!(tokens.len(), 3);
}

#[test]
fn digit_run_followed_by_letter_is_an_error() {
    assert_eq!(lex("123abc").unwrap_err(), LexError::InvalidIdentifier);
}

#[test]
fn unknown_character_is_an_error() {
    assert_eq!(lex("int @").unwrap_err(), LexError::InvalidToken);
}

#[test]
fn digit_run_followed_by_underscore_is_two_tokens() {
    let tokens = lex("123_x").unwrap();
    assert!(matches!(tokens[0], Token::Integer(123)));
    match &tokens[1] {
        Token::Identifier(name) => assert_eq!(name, "_x"),
        other => panic!("expected an identifier, got {:?}", other),
    }
}

#[test]
fn keyword_at_end_of_input_is_kept() {
    let tokens = lex("return").unwrap();
    assert_eq!(tokens.len(), 1);
    assert!(matches!(tokens[0], Token::Return));
}

#[test]
fn whitespace_produces_no_token() {
    assert!(lex(" \t\r\n").unwrap().is_empty());
    assert!(lex("").unwrap().is_empty());
}

#[test]
fn largest_literal_fits_and_one_more_digit_fails() {
    let tokens = lex("18446744073709551615").unwrap();
    assert!(matches!(tokens[0], Token::Integer(u64::MAX)));
    assert_eq!(
        lex("18446744073709551616").unwrap_err(),
        LexError::IntegerTooLarge
    );
}

#[test]
fn lex_error_messages_are_stable() {
    assert_eq!(LexError::InvalidToken.message(), "Invalid Token");
    assert_eq!(LexError::InvalidIdentifier.message(), "Invalid identifier");
}
