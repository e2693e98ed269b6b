//! The three-address intermediate representation ("tacky") and the
//! lowering from the abstract syntax tree into it.
//!
//! Lowering walks the return statement's expression bottom-up. A constant
//! lowers to an immediate value and emits nothing; a unary operation lowers
//! its operand, mints one fresh temporary `tmp.<N>` as destination and
//! emits one instruction; the transparent grouping wrapper lowers to
//! whatever its inner expression lowers to. The evaluated value is finally
//! emitted as the operand of a terminal return instruction. Temporary
//! numbers strictly increase per function and are never reused, so every
//! temporary is defined by exactly one instruction.

use vstd::prelude::*;

use crate::ast;
use crate::ast::has_binary;
use crate::ast::stmt_expr;
use crate::ast::unary_count;
use crate::errors::LoweringError;
use crate::text::dec_digits;
use crate::text::push_decimal;

verus! {

/// An IR program: one function definition.
#[derive(Debug)]
pub enum Program {
    Program(FuncDef),
}

/// An IR function definition.
#[derive(Debug)]
pub enum FuncDef {
    Function(Function),
}

/// An IR function: an identifier, an ordered instruction list, and a
/// monotonically increasing counter minting temporary names. The counter
/// is owned by the lowering pass; nothing else should write it.
#[derive(Debug)]
pub struct Function {
    pub identifier: String,
    pub instrs: Vec<Instr>,
    pub counter: usize,
}

/// An IR instruction.
#[derive(Debug)]
pub enum Instr {
    /// Returns a value from the function.
    Return(Val),
    /// Applies a unary operator to `src`, storing into `dst`.
    Unary(Unary),
}

/// The operator and operands of a unary IR instruction.
#[derive(Debug)]
pub struct Unary {
    pub op: UnaryOp,
    pub src: Val,
    pub dst: Val,
}

/// A unary IR operator.
#[derive(Debug, Clone, Copy, PartialEq, Eq, Structural)]
pub enum UnaryOp {
    Complement,
    Negate,
}

/// An IR value: an integer constant or a named variable.
#[derive(Debug)]
pub enum Val {
    Constant(u64),
    Var(String),
}

/// The mathematical value of a `Val`.
pub enum ValV {
    Constant(u64),
    Var(Seq<char>),
}

/// The mathematical value of a `Unary`.
pub struct UnaryV {
    pub op: UnaryOp,
    pub src: ValV,
    pub dst: ValV,
}

/// The mathematical value of an `Instr`.
pub enum InstrV {
    Return(ValV),
    Unary(UnaryV),
}

/// The mathematical value of a `Function`.
pub struct FunctionV {
    pub identifier: Seq<char>,
    pub instrs: Seq<InstrV>,
    pub counter: nat,
}

/// The mathematical value of a `FuncDef`.
pub enum FuncDefV {
    Function(FunctionV),
}

/// The mathematical value of a `Program`.
pub enum ProgramV {
    Program(FuncDefV),
}

impl View for Val {
    type V = ValV;

    open spec fn view(&self) -> ValV {
        match self {
            Val::Constant(c) => ValV::Constant(*c),
            Val::Var(name) => ValV::Var(name@),
        }
    }
}

impl View for Unary {
    type V = UnaryV;

    open spec fn view(&self) -> UnaryV {
        UnaryV { op: self.op, src: self.src@, dst: self.dst@ }
    }
}

impl View for Instr {
    type V = InstrV;

    open spec fn view(&self) -> InstrV {
        match self {
            Instr::Return(v) => InstrV::Return(v@),
            Instr::Unary(u) => InstrV::Unary(u@),
        }
    }
}

/// The views of a sequence of IR instructions.
pub open spec fn instrs_view(instrs: Seq<Instr>) -> Seq<InstrV> {
    instrs.map_values(|i: Instr| i@)
}

impl View for Function {
    type V = FunctionV;

    open spec fn view(&self) -> FunctionV {
        FunctionV {
            identifier: self.identifier@,
            instrs: instrs_view(self.instrs@),
            counter: self.counter as nat,
        }
    }
}

impl View for FuncDef {
    type V = FuncDefV;

    open spec fn view(&self) -> FuncDefV {
        match self {
            FuncDef::Function(f) => FuncDefV::Function(f@),
        }
    }
}

impl View for Program {
    type V = ProgramV;

    open spec fn view(&self) -> ProgramV {
        match self {
            Program::Program(f) => ProgramV::Program(f@),
        }
    }
}

/// The name of the `n`-th compiler-generated temporary.
pub open spec fn tmp_name(n: nat) -> Seq<char> {
    "tmp."@ + dec_digits(n)
}

/// The IR operator of an AST unary operator.
pub open spec fn op_of(u: ast::UnaryOp) -> UnaryOp {
    match u {
        ast::UnaryOp::Complement(_) => UnaryOp::Complement,
        ast::UnaryOp::Negate(_) => UnaryOp::Negate,
    }
}

/// Lowering an expression with next temporary number `c`: the emitted
/// instructions, the value the expression evaluates to, and the next
/// temporary number afterwards. (Binary operations have no lowering; they
/// are rejected before this function's result is used.)
pub open spec fn lower_expr(e: ast::Expr, c: nat) -> (Seq<InstrV>, ValV, nat)
    decreases e,
{
    match e {
        ast::Expr::Const(v) => (seq![], ValV::Constant(v), c),
        ast::Expr::Unary(u) => {
            let inner = match *u {
                ast::UnaryOp::Complement(i) => i,
                ast::UnaryOp::Negate(i) => i,
            };
            let r = lower_expr(inner, c);
            (
                r.0 + seq![
                    InstrV::Unary(UnaryV { op: op_of(*u), src: r.1, dst: ValV::Var(tmp_name(r.2)) }),
                ],
                ValV::Var(tmp_name(r.2)),
                r.2 + 1,
            )
        },
        ast::Expr::Binary(_) => (seq![], ValV::Constant(0), c),
        ast::Expr::Expr(inner) => lower_expr(*inner, c),
    }
}

/// Lowering a whole return statement: the expression's instructions
/// followed by the terminal return of its value, and the next temporary
/// number afterwards.
pub open spec fn lower_return(e: ast::Expr, c: nat) -> (Seq<InstrV>, nat) {
    let r = lower_expr(e, c);
    (r.0.push(InstrV::Return(r.1)), r.2)
}

/// The function of an IR program.
pub open spec fn prog_fn(p: ProgramV) -> FunctionV {
    match p {
        ProgramV::Program(FuncDefV::Function(f)) => f,
    }
}

/// The IR of a whole program, starting from temporary number zero.
pub open spec fn lower_program(p: ast::ProgramV) -> ProgramV {
    match p {
        ast::ProgramV::Program(ast::FuncDefV::Function(f)) => ProgramV::Program(
            FuncDefV::Function(
                FunctionV {
                    identifier: f.name,
                    instrs: lower_return(stmt_expr(f.stmt), 0).0,
                    counter: lower_return(stmt_expr(f.stmt), 0).1,
                },
            ),
        ),
    }
}

/// Lowering advances the temporary counter by exactly the number of unary
/// operators in the expression.
pub proof fn lemma_lower_expr_counter(e: ast::Expr, c: nat)
    ensures
        lower_expr(e, c).2 == c + unary_count(e),
    decreases e,
{
    match e {
        ast::Expr::Const(_) => {},
        ast::Expr::Unary(u) => {
            let inner = match *u {
                ast::UnaryOp::Complement(i) => i,
                ast::UnaryOp::Negate(i) => i,
            };
            lemma_lower_expr_counter(inner, c);
        },
        ast::Expr::Binary(_) => {},
        ast::Expr::Expr(inner) => {
            lemma_lower_expr_counter(*inner, c);
        },
    }
}

/// The temporaries an instruction defines: the destination of a unary
/// instruction, nothing else.
pub open spec fn inst_defined(i: InstrV) -> Seq<Seq<char>> {
    match i {
        InstrV::Unary(u) => match u.dst {
            ValV::Var(n) => seq![n],
            ValV::Constant(_) => seq![],
        },
        InstrV::Return(_) => seq![],
    }
}

/// The temporaries an instruction sequence defines, in order.
pub open spec fn defined_names(s: Seq<InstrV>) -> Seq<Seq<char>>
    decreases s.len(),
{
    if s.len() == 0 {
        seq![]
    } else {
        inst_defined(s[0]) + defined_names(s.skip(1))
    }
}

proof fn lemma_defined_names_push(s: Seq<InstrV>, x: InstrV)
    ensures
        defined_names(s.push(x)) == defined_names(s) + inst_defined(x),
    decreases s.len(),
{
    if s.len() == 0 {
        assert(defined_names(s) == Seq::<Seq<char>>::empty());
        assert(s.push(x)[0] == x);
        assert(s.push(x).skip(1) =~= Seq::<InstrV>::empty());
        assert(defined_names(s.push(x).skip(1)) == Seq::<Seq<char>>::empty());
        assert(defined_names(s.push(x)) == inst_defined(x) + Seq::<Seq<char>>::empty());
        assert(inst_defined(x) + Seq::<Seq<char>>::empty() =~= Seq::<Seq<char>>::empty()
            + inst_defined(x));
        assert(defined_names(s.push(x)) =~= defined_names(s) + inst_defined(x));
    } else {
        assert(s.push(x)[0] == s[0]);
        assert(s.push(x).skip(1) =~= s.skip(1).push(x));
        lemma_defined_names_push(s.skip(1), x);
        assert(inst_defined(s[0]) + (defined_names(s.skip(1)) + inst_defined(x)) =~= (inst_defined(
            s[0],
        ) + defined_names(s.skip(1))) + inst_defined(x));
    }
}

/// Temporary uniqueness: lowering an expression with `k` unary operators,
/// starting at counter `c`, makes the destinations of the emitted
/// instructions exactly the fresh temporaries `tmp.<c>` up to
/// `tmp.<c+k-1>`, in increasing order and pairwise distinct — so each
/// temporary is defined by exactly one instruction, and none is reused.
pub proof fn lemma_temporaries_fresh(e: ast::Expr, c: nat)
    ensures
        defined_names(lower_expr(e, c).0) == Seq::new(
            unary_count(e),
            |i: int| tmp_name((c + i) as nat),
        ),
        forall|i: int, j: int|
            0 <= i < j < defined_names(lower_expr(e, c).0).len() ==> defined_names(
                lower_expr(e, c).0,
            )[i] != defined_names(lower_expr(e, c).0)[j],
    decreases e,
{
    lemma_temporaries_increasing(e, c);
    let names = defined_names(lower_expr(e, c).0);
    assert forall|i: int, j: int| 0 <= i < j < names.len() implies names[i] != names[j] by {
        lemma_tmp_name_injective((c + i) as nat, (c + j) as nat);
    }
}

proof fn lemma_temporaries_increasing(e: ast::Expr, c: nat)
    ensures
        defined_names(lower_expr(e, c).0) == Seq::new(
            unary_count(e),
            |i: int| tmp_name((c + i) as nat),
        ),
    decreases e,
{
    match e {
        ast::Expr::Const(_) => {
            assert(defined_names(lower_expr(e, c).0) =~= Seq::new(
                unary_count(e),
                |i: int| tmp_name((c + i) as nat),
            ));
        },
        ast::Expr::Unary(u) => {
            let inner = match *u {
                ast::UnaryOp::Complement(i) => i,
                ast::UnaryOp::Negate(i) => i,
            };
            lemma_temporaries_increasing(inner, c);
            lemma_lower_expr_counter(inner, c);
            let r = lower_expr(inner, c);
            let new_inst = InstrV::Unary(
                UnaryV { op: op_of(*u), src: r.1, dst: ValV::Var(tmp_name(r.2)) },
            );
            assert(lower_expr(e, c).0 =~= r.0.push(new_inst));
            lemma_defined_names_push(r.0, new_inst);
            assert(defined_names(lower_expr(e, c).0) =~= Seq::new(
                unary_count(e),
                |i: int| tmp_name((c + i) as nat),
            ));
        },
        ast::Expr::Binary(_) => {
            assert(defined_names(lower_expr(e, c).0) =~= Seq::new(
                unary_count(e),
                |i: int| tmp_name((c + i) as nat),
            ));
        },
        ast::Expr::Expr(inner) => {
            lemma_temporaries_increasing(*inner, c);
        },
    }
}

/// Two distinct temporary numbers never share a name.
pub proof fn lemma_tmp_name_injective(a: nat, b: nat)
    ensures
        tmp_name(a) == tmp_name(b) ==> a == b,
{
    if tmp_name(a) == tmp_name(b) {
        assert(dec_digits(a) =~= tmp_name(a).skip("tmp."@.len() as int));
        assert(dec_digits(b) =~= tmp_name(b).skip("tmp."@.len() as int));
        crate::text::lemma_dec_digits_injective(a, b);
    }
}

proof fn lemma_instrs_view_push(instrs: Seq<Instr>, i: Instr)
    ensures
        instrs_view(instrs.push(i)) == instrs_view(instrs).push(i@),
{
    assert(instrs_view(instrs.push(i)) =~= instrs_view(instrs).push(i@));
}

impl Function {
    /// A fresh IR function with the given name, no instructions, and the
    /// temporary counter at zero.
    pub fn new(name: &String) -> (r: Self)
        ensures
            r@.identifier == name@,
            r@.instrs == Seq::<InstrV>::empty(),
            r@.counter == 0,
    {
        let r = Function { identifier: name.clone(), instrs: Vec::new(), counter: 0 };
        proof {
            assert(instrs_view(r.instrs@) =~= Seq::<InstrV>::empty());
        }
        r
    }

    /// Mints the next temporary name `tmp.<N>` and advances the counter.
    fn make_temporary(&mut self) -> (r: String)
        requires
            old(self)@.counter < usize::MAX,
        ensures
            r@ == tmp_name(old(self)@.counter),
            final(self)@.identifier == old(self)@.identifier,
            final(self)@.instrs == old(self)@.instrs,
            final(self)@.counter == old(self)@.counter + 1,
    {
        let mut tmp: String = "tmp.".to_owned();
        push_decimal(&mut tmp, self.counter as u64);
        self.counter = self.counter + 1;
        tmp
    }

    /// Lowers one expression into `self`, appending its instructions and
    /// returning the value it evaluates to. Fails on a binary operation,
    /// which has no lowering.
    fn parse_expression(&mut self, expr: &ast::Expr) -> (r: Result<Val, LoweringError>)
        requires
            old(self)@.counter + unary_count(*expr) <= usize::MAX,
        ensures
            final(self)@.identifier == old(self)@.identifier,
            has_binary(*expr) ==> (r matches Err(g) && g == LoweringError::UnsupportedExpression),
            !has_binary(*expr) ==> (r matches Ok(v) && {
                let l = lower_expr(*expr, old(self)@.counter);
                &&& v@ == l.1
                &&& final(self)@.instrs == old(self)@.instrs + l.0
                &&& final(self)@.counter == l.2
            }),
        decreases *expr,
    {
        match expr {
            ast::Expr::Const(c) => {
                proof {
                    assert(self@.instrs =~= self@.instrs + Seq::<InstrV>::empty());
                }
                Ok(Val::Constant(*c))
            },
            ast::Expr::Unary(u) => {
                let inner = match &**u {
                    ast::UnaryOp::Complement(e) => e,
                    ast::UnaryOp::Negate(e) => e,
                };
                match self.parse_expression(inner) {
                    Ok(src) => {
                        proof {
                            lemma_lower_expr_counter(*inner, old(self)@.counter);
                        }
                        let dest_name = self.make_temporary();
                        let dst_name_instr = dest_name.clone();
                        let tacky_op = match &**u {
                            ast::UnaryOp::Complement(_) => UnaryOp::Complement,
                            ast::UnaryOp::Negate(_) => UnaryOp::Negate,
                        };
                        proof {
                            lemma_instrs_view_push(
                                self.instrs@,
                                Instr::Unary(
                                    Unary {
                                        op: tacky_op,
                                        src: src,
                                        dst: Val::Var(dst_name_instr),
                                    },
                                ),
                            );
                        }
                        self.instrs.push(
                            Instr::Unary(Unary { op: tacky_op, src, dst: Val::Var(dst_name_instr) }),
                        );
                        proof {
                            let l = lower_expr(*expr, old(self)@.counter);
                            assert(self@.instrs =~= old(self)@.instrs + l.0);
                        }
                        Ok(Val::Var(dest_name))
                    },
                    Err(e) => Err(e),
                }
            },
            ast::Expr::Binary(_) => Err(LoweringError::UnsupportedExpression),
            ast::Expr::Expr(e) => self.parse_expression(&**e),
        }
    }

    /// Lowers the function's single return statement into `self`: the
    /// expression's instructions followed by the terminal return.
    pub fn parse(&mut self, function: &ast::Function) -> (r: Result<(), LoweringError>)
        requires
            old(self)@.counter + unary_count(stmt_expr(function.stmt)) <= usize::MAX,
        ensures
            final(self)@.identifier == old(self)@.identifier,
            has_binary(stmt_expr(function.stmt)) ==> (r matches Err(g) && g
                == LoweringError::UnsupportedExpression),
            !has_binary(stmt_expr(function.stmt)) ==> (r matches Ok(u) && {
                let l = lower_return(stmt_expr(function.stmt), old(self)@.counter);
                &&& final(self)@.instrs == old(self)@.instrs + l.0
                &&& final(self)@.counter == l.1
            }),
    {
        match &function.stmt {
            ast::Stmt::Return(e) => {
                match self.parse_expression(e) {
                    Ok(ret) => {
                        proof {
                            lemma_instrs_view_push(self.instrs@, Instr::Return(ret));
                        }
                        self.instrs.push(Instr::Return(ret));
                        proof {
                            let l = lower_return(stmt_expr(function.stmt), old(self)@.counter);
                            assert(self@.instrs =~= old(self)@.instrs + l.0);
                        }
                        Ok(())
                    },
                    Err(err) => Err(err),
                }
            },
        }
    }
}

impl FuncDef {
    /// Lowers one AST function definition to an IR function definition.
    pub fn parse(func_def: &ast::FuncDef) -> (r: Result<FuncDef, LoweringError>)
        requires
            ({
                let f = match *func_def {
                    ast::FuncDef::Function(f) => f,
                };
                unary_count(stmt_expr(f.stmt)) <= usize::MAX
            }),
        ensures
            ({
                let f = match *func_def {
                    ast::FuncDef::Function(f) => f,
                };
                if has_binary(stmt_expr(f.stmt)) {
                    r matches Err(g) && g == LoweringError::UnsupportedExpression
                } else {
                    r matches Ok(fd) && fd@ == FuncDefV::Function(
                        FunctionV {
                            identifier: f.name@,
                            instrs: lower_return(stmt_expr(f.stmt), 0).0,
                            counter: lower_return(stmt_expr(f.stmt), 0).1,
                        },
                    )
                }
            }),
    {
        match func_def {
            ast::FuncDef::Function(f) => {
                let mut tacky_function = Function::new(&f.name);
                match tacky_function.parse(f) {
                    Ok(_) => {
                        proof {
                            assert(Seq::<InstrV>::empty() + lower_return(
                                stmt_expr(f.stmt),
                                0,
                            ).0 =~= lower_return(stmt_expr(f.stmt), 0).0);
                        }
                        Ok(FuncDef::Function(tacky_function))
                    },
                    Err(e) => Err(e),
                }
            },
        }
    }
}

impl Program {
    /// Lowers a whole AST program to an IR program.
    pub fn parse(ast: &ast::Program) -> (r: Result<Program, LoweringError>)
        requires
            unary_count(crate::ast::program_expr(ast@)) <= usize::MAX,
        ensures
            if has_binary(crate::ast::program_expr(ast@)) {
                r matches Err(g) && g == LoweringError::UnsupportedExpression
            } else {
                r matches Ok(p) && p@ == lower_program(ast@)
            },
    {
        match ast {
            ast::Program::Program(f) => {
                match FuncDef::parse(f) {
                    Ok(func_def) => Ok(Program::Program(func_def)),
                    Err(e) => Err(e),
                }
            },
        }
    }
}

} // verus!
