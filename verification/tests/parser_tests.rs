use mincc::ast::Expr;
use mincc::ast::FuncDef;
use mincc::ast::Program;
use mincc::ast::Stmt;
use mincc::ast::UnaryOp;
use mincc::errors::SyntaxError;
use mincc::lexer::Lexer;
use mincc::parser::Parser;
use mincc::token::Token;

fn tokens_of(text: &str) -> Vec<Token> {
    Lexer::new(text.to_owned()).lex().unwrap()
}

fn parse(text: &str) -> Result<Program, SyntaxError> {
    Parser::new(tokens_of(text)).parse()
}

#[test]
fn round_trip_ast_shape() {
    let program = parse("int main(void){return 2;}").unwrap();
    let Program::Program(FuncDef::Function(function)) = program;
    assert_eq!(function.name, "main");
    match function.stmt {
        Stmt::Return(Expr::Const(2)) => {}
        _ => panic!("expected Return(Const(2))"),
    }
}

#[test]
fn unary_parsing_is_right_recursive() {
    let program = parse("int main(void){return --5;}").unwrap();
    let Program::Program(FuncDef::Function(function)) = program;
    let Stmt::Return(expr) = function.stmt;
    match expr {
        Expr::Unary(outer) => match *outer {
            UnaryOp::Negate(Expr::Unary(inner)) => match *inner {
                UnaryOp::Negate(Expr::Const(5)) => {}
                _ => panic!("expected Negate(Const(5)) inside"),
            },
            _ => panic!("expected Negate(Negate(5))"),
        },
        _ => panic!("expected a unary expression"),
    }
}

#[test]
fn nested_unary_parses_in_source_order() {
    let program = parse("int main(void){return -~5;}").unwrap();
    let Program::Program(FuncDef::Function(function)) = program;
    let Stmt::Return(expr) = function.stmt;
    match expr {
        Expr::Unary(outer) => match *outer {
            UnaryOp::Negate(Expr::Unary(inner)) => match *inner {
                UnaryOp::Complement(Expr::Const(5)) => {}
                _ => panic!("expected Complement(Const(5)) inside"),
            },
            _ => panic!("expected Negate(Complement(5))"),
        },
        _ => panic!("expected a unary expression"),
    }
}

#[test]
fn parenthesized_expression_records_grouping() {
    let program = parse("int main(void){return (2);}").unwrap();
    let Program::Program(FuncDef::Function(function)) = program;
    let Stmt::Return(expr) = function.stmt;
    match expr {
        Expr::Expr(inner) => match *inner {
            Expr::Const(2) => {}
            _ => panic!("expected Const(2) inside the grouping"),
        },
        _ => panic!("expected a grouping wrapper"),
    }
}

#[test]
fn missing_expression_is_a_syntax_error() {
    let tokens = tokens_of("return ;");
    let r = Stmt::parse(&tokens, 0);
    assert_eq!(r.unwrap_err(), SyntaxError::InvalidExpression);
}

#[test]
fn trailing_junk_is_rejected() {
    assert_eq!(
        parse("int main(void){return 1;} extra").unwrap_err(),
        SyntaxError::UnexpectedTrailingTokens
    );
}

#[test]
fn each_expected_token_reports_its_own_error() {
    assert_eq!(parse("void").unwrap_err(), SyntaxError::ExpectedInt);
    assert_eq!(parse("int").unwrap_err(), SyntaxError::ExpectedIdentifier);
    assert_eq!(parse("int 3(void){return 1;}").unwrap_err(), SyntaxError::ExpectedIdentifier);
    assert_eq!(parse("int main{void}").unwrap_err(), SyntaxError::ExpectedOpenParen);
    assert_eq!(parse("int main(int){return 1;}").unwrap_err(), SyntaxError::ExpectedVoid);
    assert_eq!(parse("int main(void{return 1;}").unwrap_err(), SyntaxError::ExpectedCloseParen);
    assert_eq!(parse("int main(void) return 1;}").unwrap_err(), SyntaxError::ExpectedOpenBrace);
    assert_eq!(parse("int main(void){return 1;").unwrap_err(), SyntaxError::ExpectedCloseBrace);
    assert_eq!(parse("int main(void){42;}").unwrap_err(), SyntaxError::ExpectedReturn);
    assert_eq!(parse("int main(void){return 1}").unwrap_err(), SyntaxError::ExpectedSemicolon);
    assert_eq!(
        parse("int main(void){return (1;}").unwrap_err(),
        SyntaxError::ExpectedCloseParenAfterExpression
    );
    assert_eq!(parse("int main(void){return ;}").unwrap_err(), SyntaxError::InvalidExpression);
}

#[test]
fn end_of_input_reads_like_a_mismatched_token() {
    let tokens = tokens_of("return 1");
    assert_eq!(Stmt::parse(&tokens, 0).unwrap_err(), SyntaxError::ExpectedSemicolon);
    let empty: Vec<Token> = Vec::new();
    assert_eq!(Expr::parse(&empty, 0).unwrap_err(), SyntaxError::InvalidExpression);
}

#[test]
fn expression_parse_returns_the_next_position() {
    let tokens = tokens_of("-~5;");
    let (expr, next) = Expr::parse(&tokens, 0).unwrap();
    assert_eq!(next, 3);
    assert!(matches!(expr, Expr::Unary(_)));
}

#[test]
fn syntax_error_messages_are_stable() {
    assert_eq!(SyntaxError::ExpectedInt.message(), "Syntax Error: expected an int");
    assert_eq!(SyntaxError::ExpectedIdentifier.message(), "Syntax Error");
    assert_eq!(SyntaxError::UnexpectedTrailingTokens.message(), "Unexpected junk found");
    assert_eq!(SyntaxError::InvalidExpression.message(), "Syntax Error: Invalid Expression");
}
