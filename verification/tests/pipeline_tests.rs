use mincc::ast;
use mincc::cli::Cli;
use mincc::cli::Command;
use mincc::errors::LoweringError;
use mincc::errors::SyntaxError;
use mincc::lexer::Lexer;
use mincc::parser::Parser;
use mincc::tacky::Tacky;

#[test]
fn malformed_input_fails_fast_before_ir() {
    // `return ;` inside a function: the parser rejects it, so no IR and no
    // assembly is ever produced.
    let tokens = Lexer::new("int main(void){return ;}".to_owned()).lex().unwrap();
    let parsed = Parser::new(tokens).parse();
    match parsed {
        Err(SyntaxError::InvalidExpression) => {}
        Err(other) => panic!("wrong error: {:?}", other),
        Ok(_) => panic!("a malformed program parsed"),
    }
}

#[test]
fn lexer_failure_yields_no_token_sequence() {
    let r = Lexer::new("123abc".to_owned()).lex();
    assert!(r.is_err());
}

#[test]
fn binary_operations_have_no_lowering() {
    let expr = ast::Expr::Binary(Box::new(ast::BinaryOp::Add(
        ast::Expr::Const(1),
        ast::Expr::Const(2),
    )));
    let program = ast::Program::Program(ast::FuncDef::Function(ast::Function {
        name: "main".to_owned(),
        stmt: ast::Stmt::Return(expr),
    }));
    let r = Tacky::new(program).generate();
    assert_eq!(r.unwrap_err(), LoweringError::UnsupportedExpression);
}

#[test]
fn stage_selection_is_plain_data() {
    let cli = Cli {
        file: "main.c".to_owned(),
        command: Command {
            run_assembler: false,
            run_codegen: false,
            run_parser: true,
            run_lexer: true,
        },
    };
    assert!(cli.command.run_lexer);
    assert!(cli.command.run_parser);
    assert!(!cli.command.run_codegen);
    assert!(!cli.command.run_assembler);
    assert_eq!(cli.file, "main.c");
}
