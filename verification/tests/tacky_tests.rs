use mincc::errors::LoweringError;
use mincc::lexer::Lexer;
use mincc::parser::Parser;
use mincc::tacky::Tacky;
use mincc::tacky_ast::Instr;
use mincc::tacky_ast::Program;
use mincc::tacky_ast::UnaryOp;
use mincc::tacky_ast::Val;

fn lower(text: &str) -> Result<Program, LoweringError> {
    let tokens = Lexer::new(text.to_owned()).lex().unwrap();
    let ast = Parser::new(tokens).parse().unwrap();
    Tacky::new(ast).generate()
}

fn function_of(p: Program) -> mincc::tacky_ast::Function {
    let Program::Program(mincc::tacky_ast::FuncDef::Function(f)) = p;
    f
}

#[test]
fn round_trip_ir_shape() {
    let f = function_of(lower("int main(void){return 2;}").unwrap());
    assert_eq!(f.identifier, "main");
    assert_eq!(f.instrs.len(), 1);
    match &f.instrs[0] {
        Instr::Return(Val::Constant(2)) => {}
        other => panic!("expected Return(Constant(2)), got {:?}", other),
    }
}

#[test]
fn nested_unary_lowers_to_two_chained_instructions() {
    let f = function_of(lower("int main(void){return -~5;}").unwrap());
    assert_eq!(f.instrs.len(), 3);
    match &f.instrs[0] {
        Instr::Unary(u) => {
            assert_eq!(u.op, UnaryOp::Complement);
            assert!(matches!(u.src, Val::Constant(5)));
            match &u.dst {
                Val::Var(name) => assert_eq!(name, "tmp.0"),
                other => panic!("expected a temporary, got {:?}", other),
            }
        }
        other => panic!("expected a unary instruction, got {:?}", other),
    }
    match &f.instrs[1] {
        Instr::Unary(u) => {
            assert_eq!(u.op, UnaryOp::Negate);
            match &u.src {
                Val::Var(name) => assert_eq!(name, "tmp.0"),
                other => panic!("expected tmp.0 as source, got {:?}", other),
            }
            match &u.dst {
                Val::Var(name) => assert_eq!(name, "tmp.1"),
                other => panic!("expected tmp.1 as destination, got {:?}", other),
            }
        }
        other => panic!("expected a unary instruction, got {:?}", other),
    }
    match &f.instrs[2] {
        Instr::Return(Val::Var(name)) => assert_eq!(name, "tmp.1"),
        other => panic!("expected a return of the last temporary, got {:?}", other),
    }
}

#[test]
fn temporaries_count_up_from_zero_without_reuse() {
    let f = function_of(lower("int main(void){return -~-~5;}").unwrap());
    assert_eq!(f.instrs.len(), 5);
    let mut defined: Vec<String> = Vec::new();
    for instr in &f.instrs {
        if let Instr::Unary(u) = instr {
            if let Val::Var(name) = &u.dst {
                defined.push(name.clone());
            }
        }
    }
    assert_eq!(defined, vec!["tmp.0", "tmp.1", "tmp.2", "tmp.3"]);
    for (k, name) in defined.iter().enumerate() {
        assert_eq!(name, &format!("tmp.{}", k));
        assert_eq!(defined.iter().filter(|n| *n == name).count(), 1);
    }
}

#[test]
fn grouping_wrapper_is_transparent_to_lowering() {
    let f = function_of(lower("int main(void){return (((2)));}").unwrap());
    assert_eq!(f.instrs.len(), 1);
    assert!(matches!(&f.instrs[0], Instr::Return(Val::Constant(2))));
}

#[test]
fn lowering_error_message_is_stable() {
    assert_eq!(
        LoweringError::UnsupportedExpression.message(),
        "Lowering Error: unsupported expression"
    );
}
