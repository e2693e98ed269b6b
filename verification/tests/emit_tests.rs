use mincc::assembly::AssemblyGen;
use mincc::at::Program;
use mincc::lexer::Lexer;
use mincc::parser::Parser;
use mincc::tacky::Tacky;

fn compile(text: &str) -> String {
    let tokens = Lexer::new(text.to_owned()).lex().unwrap();
    let ast = Parser::new(tokens).parse().unwrap();
    let tacky_program = Tacky::new(ast).generate().unwrap();
    let at_program: Program = AssemblyGen::new(tacky_program).parse().unwrap();
    let mut out = String::new();
    at_program.write(&mut out);
    out
}

#[test]
fn round_trip_text() {
    let out = compile("int main(void){return 2;}");
    let expected = "\t.globl _main\n\
                    _main:\n\
                    \tpushq\t%rbp\n\
                    \tmovq\t%rsp, %rbp\n\
                    \tsubq\t$0, %rsp\n\
                    \tmovl\t$2, %eax\n\
                    \tmovq\t%rbp, %rsp\n\
                    \tpopq\t%rbp\n\
                    \tret\n";
    assert_eq!(out, expected);
    // a move of immediate 2 into the accumulator, a return sequence, and a
    // zero-byte stack allocation
    assert!(out.contains("\tmovl\t$2, %eax\n"));
    assert!(out.contains("\tret\n"));
    assert!(out.contains("\tsubq\t$0, %rsp\n"));
}

#[test]
fn nested_unary_text() {
    let out = compile("int main(void){return -~5;}");
    let expected = "\t.globl _main\n\
                    _main:\n\
                    \tpushq\t%rbp\n\
                    \tmovq\t%rsp, %rbp\n\
                    \tsubq\t$8, %rsp\n\
                    \tmovl\t$5, -4(%rbp)\n\
                    \tnotl\t-4(%rbp)\n\
                    \tmovl\t-4(%rbp), %r10d\n\
                    \tmovl\t%r10d, -8(%rbp)\n\
                    \tnegl\t-8(%rbp)\n\
                    \tmovl\t-8(%rbp), %eax\n\
                    \tmovq\t%rbp, %rsp\n\
                    \tpopq\t%rbp\n\
                    \tret\n";
    assert_eq!(out, expected);
}

#[test]
fn function_name_reaches_the_label() {
    let out = compile("int answer(void){return 42;}");
    assert!(out.starts_with("\t.globl _answer\n_answer:\n"));
    assert!(out.contains("\tmovl\t$42, %eax\n"));
}
