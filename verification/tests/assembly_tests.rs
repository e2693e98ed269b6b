use mincc::assembly::AssemblyGen;
use mincc::at::Inst;
use mincc::at::Operand;
use mincc::at::Program;
use mincc::at::Reg;
use mincc::at::UnaryOp;
use mincc::lexer::Lexer;
use mincc::parser::Parser;
use mincc::tacky::Tacky;

fn assemble(text: &str) -> Program {
    let tokens = Lexer::new(text.to_owned()).lex().unwrap();
    let ast = Parser::new(tokens).parse().unwrap();
    let tacky_program = Tacky::new(ast).generate().unwrap();
    AssemblyGen::new(tacky_program).parse().unwrap()
}

fn function_of(p: Program) -> mincc::at::Function {
    let Program::Program(mincc::at::FuncDef::Function(f)) = p;
    f
}

#[test]
fn constant_return_selects_a_move_into_the_accumulator() {
    let f = function_of(assemble("int main(void){return 2;}"));
    assert_eq!(f.name, "main");
    assert_eq!(f.instrs.len(), 3);
    match &f.instrs[0] {
        Inst::AllocStack(0) => {}
        other => panic!("expected a zero-byte frame, got {:?}", other),
    }
    match &f.instrs[1] {
        Inst::Mov(m) => {
            assert!(matches!(m.src, Operand::Imm(2)));
            assert!(matches!(m.dst, Operand::Register(Reg::AX)));
        }
        other => panic!("expected a move, got {:?}", other),
    }
    assert!(matches!(f.instrs[2], Inst::Ret));
}

#[test]
fn no_pseudo_register_survives_the_passes() {
    let f = function_of(assemble("int main(void){return -~-~5;}"));
    for instr in &f.instrs {
        match instr {
            Inst::Mov(m) => {
                assert!(!matches!(m.src, Operand::PseudoReg(_)));
                assert!(!matches!(m.dst, Operand::PseudoReg(_)));
            }
            Inst::Unary(_, o) => assert!(!matches!(o, Operand::PseudoReg(_))),
            Inst::AllocStack(_) => {}
            Inst::Ret => {}
        }
    }
}

#[test]
fn no_move_keeps_two_stack_operands() {
    let f = function_of(assemble("int main(void){return -~-~5;}"));
    for instr in &f.instrs {
        if let Inst::Mov(m) = instr {
            let both = matches!(m.src, Operand::Stack(_)) && matches!(m.dst, Operand::Stack(_));
            assert!(!both, "an illegal memory-to-memory move survived: {:?}", m);
        }
    }
}

#[test]
fn stack_to_stack_move_goes_through_the_scratch_register() {
    let f = function_of(assemble("int main(void){return -~5;}"));
    // frame of two temporaries, then: store 5, complement in place, move
    // tmp.0 into tmp.1 through %r10d, negate in place, return tmp.1.
    assert_eq!(f.instrs.len(), 8);
    assert!(matches!(f.instrs[0], Inst::AllocStack(8)));
    match &f.instrs[1] {
        Inst::Mov(m) => {
            assert!(matches!(m.src, Operand::Imm(5)));
            assert!(matches!(m.dst, Operand::Stack(-4)));
        }
        other => panic!("expected a move, got {:?}", other),
    }
    match &f.instrs[2] {
        Inst::Unary(op, Operand::Stack(-4)) => assert_eq!(*op, UnaryOp::Complement),
        other => panic!("expected an in-place complement, got {:?}", other),
    }
    match &f.instrs[3] {
        Inst::Mov(m) => {
            assert!(matches!(m.src, Operand::Stack(-4)));
            assert!(matches!(m.dst, Operand::Register(Reg::R10)));
        }
        other => panic!("expected the first scratch hop, got {:?}", other),
    }
    match &f.instrs[4] {
        Inst::Mov(m) => {
            assert!(matches!(m.src, Operand::Register(Reg::R10)));
            assert!(matches!(m.dst, Operand::Stack(-8)));
        }
        other => panic!("expected the second scratch hop, got {:?}", other),
    }
    match &f.instrs[5] {
        Inst::Unary(op, Operand::Stack(-8)) => assert_eq!(*op, UnaryOp::Negate),
        other => panic!("expected an in-place negate, got {:?}", other),
    }
    match &f.instrs[6] {
        Inst::Mov(m) => {
            assert!(matches!(m.src, Operand::Stack(-8)));
            assert!(matches!(m.dst, Operand::Register(Reg::AX)));
        }
        other => panic!("expected the return value move, got {:?}", other),
    }
    assert!(matches!(f.instrs[7], Inst::Ret));
}

#[test]
fn frame_is_sized_to_the_distinct_temporaries() {
    let f = function_of(assemble("int main(void){return -~-~5;}"));
    assert!(matches!(f.instrs[0], Inst::AllocStack(16)));
}
