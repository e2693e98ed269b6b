//! The assembly model and the passes that produce and legalize it.
//!
//! Instruction selection maps each IR instruction to one or two assembly
//! instructions, leaving IR temporaries as pseudo-register operands. The
//! register allocator / legalizer then runs two strictly ordered passes:
//! first every pseudo-register is replaced by a stack slot from the
//! function's stack allocator; then the frame-size prologue instruction is
//! inserted and every move with two stack operands — which the target ISA
//! forbids — is rewritten into two moves through a reserved scratch
//! register. A rendering pass at the end turns the model into assembly
//! text.

use vstd::prelude::*;

use crate::errors::SelectionError;
use crate::stack_allocator::MAX_SLOTS;
use crate::stack_allocator::StackAllocator;
use crate::stack_allocator::alloc_wf;
use crate::stack_allocator::spec_offset;
use crate::stack_allocator::spec_total;
use crate::tacky_ast;
use crate::text::dec_digits;
use crate::text::dec_digits_i64;
use crate::text::push_decimal;
use crate::text::push_decimal_i64;

verus! {

/// An assembly program: one function definition.
#[derive(Debug)]
pub enum Program {
    Program(FuncDef),
}

/// An assembly function definition.
#[derive(Debug)]
pub enum FuncDef {
    Function(Function),
}

/// An assembly function: a name, an ordered instruction list, and the
/// stack allocator assigning frame slots to its pseudo-registers.
#[derive(Debug)]
pub struct Function {
    pub name: String,
    pub instrs: Vec<Inst>,
    pub stack_allocator: StackAllocator,
}

/// A move instruction's operands.
#[derive(Debug)]
pub struct Mov {
    pub src: Operand,
    pub dst: Operand,
}

/// An assembly instruction.
#[derive(Debug)]
pub enum Inst {
    Mov(Mov),
    /// A read-modify-write unary operation on its operand's location.
    Unary(UnaryOp, Operand),
    /// The frame-size prologue: reserves this many bytes of stack.
    AllocStack(i64),
    Ret,
}

/// A unary assembly operator.
#[derive(Debug, Clone, Copy, PartialEq, Eq, Structural)]
pub enum UnaryOp {
    Negate,
    Complement,
}

/// An instruction operand across the pipeline stages: immediates and
/// physical registers always; pseudo-registers only before allocation;
/// stack slots only after.
#[derive(Debug)]
pub enum Operand {
    Imm(u64),
    Register(Reg),
    PseudoReg(String),
    Stack(i64),
}

/// A physical register: the primary accumulator and the reserved scratch
/// register, which is never otherwise allocated.
#[derive(Debug, Clone, Copy, PartialEq, Eq, Structural)]
pub enum Reg {
    AX,
    R10,
}

/// The mathematical value of an `Operand`.
pub enum OperandV {
    Imm(u64),
    Register(Reg),
    PseudoReg(Seq<char>),
    Stack(int),
}

/// The mathematical value of a `Mov`.
pub struct MovV {
    pub src: OperandV,
    pub dst: OperandV,
}

/// The mathematical value of an `Inst`.
pub enum InstV {
    Mov(MovV),
    Unary(UnaryOp, OperandV),
    AllocStack(int),
    Ret,
}

/// The mathematical value of a `Function`.
pub struct FunctionV {
    pub name: Seq<char>,
    pub instrs: Seq<InstV>,
    pub alloc: Seq<Seq<char>>,
}

/// The mathematical value of a `FuncDef`.
pub enum FuncDefV {
    Function(FunctionV),
}

/// The mathematical value of a `Program`.
pub enum ProgramV {
    Program(FuncDefV),
}

impl View for Operand {
    type V = OperandV;

    open spec fn view(&self) -> OperandV {
        match self {
            Operand::Imm(v) => OperandV::Imm(*v),
            Operand::Register(r) => OperandV::Register(*r),
            Operand::PseudoReg(n) => OperandV::PseudoReg(n@),
            Operand::Stack(s) => OperandV::Stack(*s as int),
        }
    }
}

impl View for Mov {
    type V = MovV;

    open spec fn view(&self) -> MovV {
        MovV { src: self.src@, dst: self.dst@ }
    }
}

impl View for Inst {
    type V = InstV;

    open spec fn view(&self) -> InstV {
        match self {
            Inst::Mov(m) => InstV::Mov(m@),
            Inst::Unary(op, o) => InstV::Unary(*op, o@),
            Inst::AllocStack(v) => InstV::AllocStack(*v as int),
            Inst::Ret => InstV::Ret,
        }
    }
}

/// The views of a sequence of assembly instructions.
pub open spec fn at_instrs_view(instrs: Seq<Inst>) -> Seq<InstV> {
    instrs.map_values(|i: Inst| i@)
}

impl View for Function {
    type V = FunctionV;

    open spec fn view(&self) -> FunctionV {
        FunctionV {
            name: self.name@,
            instrs: at_instrs_view(self.instrs@),
            alloc: self.stack_allocator@,
        }
    }
}

impl View for FuncDef {
    type V = FuncDefV;

    open spec fn view(&self) -> FuncDefV {
        match self {
            FuncDef::Function(f) => FuncDefV::Function(f@),
        }
    }
}

impl View for Program {
    type V = ProgramV;

    open spec fn view(&self) -> ProgramV {
        match self {
            Program::Program(f) => ProgramV::Program(f@),
        }
    }
}

/// The function of an assembly program.
pub open spec fn prog_fn(p: ProgramV) -> FunctionV {
    match p {
        ProgramV::Program(FuncDefV::Function(f)) => f,
    }
}

// ------------------------------------------------------------------
// Instruction selection
// ------------------------------------------------------------------

/// The operand of an IR value: constants become immediates, variables
/// become pseudo-registers.
pub open spec fn operand_of(v: tacky_ast::ValV) -> OperandV {
    match v {
        tacky_ast::ValV::Constant(c) => OperandV::Imm(c),
        tacky_ast::ValV::Var(n) => OperandV::PseudoReg(n),
    }
}

/// The assembly operator of an IR operator: an identity renaming.
pub open spec fn op_of(o: tacky_ast::UnaryOp) -> UnaryOp {
    match o {
        tacky_ast::UnaryOp::Complement => UnaryOp::Complement,
        tacky_ast::UnaryOp::Negate => UnaryOp::Negate,
    }
}

/// The selection of one IR instruction: a return moves its value into the
/// primary accumulator and returns; a unary operation moves its source
/// into its destination and applies the operator there in place.
pub open spec fn select_instr(i: tacky_ast::InstrV) -> Seq<InstV> {
    match i {
        tacky_ast::InstrV::Return(v) => seq![
            InstV::Mov(MovV { src: operand_of(v), dst: OperandV::Register(Reg::AX) }),
            InstV::Ret,
        ],
        tacky_ast::InstrV::Unary(u) => seq![
            InstV::Mov(MovV { src: operand_of(u.src), dst: operand_of(u.dst) }),
            InstV::Unary(op_of(u.op), operand_of(u.dst)),
        ],
    }
}

/// The selection of a whole IR instruction list, in order.
pub open spec fn select_instrs(s: Seq<tacky_ast::InstrV>) -> Seq<InstV>
    decreases s.len(),
{
    if s.len() == 0 {
        seq![]
    } else {
        select_instr(s[0]) + select_instrs(s.skip(1))
    }
}

/// Selection emits exactly two assembly instructions per IR instruction.
pub proof fn lemma_select_instrs_len(s: Seq<tacky_ast::InstrV>)
    ensures
        select_instrs(s).len() == 2 * s.len(),
    decreases s.len(),
{
    if s.len() > 0 {
        lemma_select_instrs_len(s.skip(1));
    }
}

proof fn lemma_select_instrs_push(s: Seq<tacky_ast::InstrV>, x: tacky_ast::InstrV)
    ensures
        select_instrs(s.push(x)) == select_instrs(s) + select_instr(x),
    decreases s.len(),
{
    if s.len() == 0 {
        assert(select_instrs(s) == Seq::<InstV>::empty());
        assert(s.push(x)[0] == x);
        assert(s.push(x).len() == 1);
        assert(s.push(x).skip(1) =~= Seq::<tacky_ast::InstrV>::empty());
        assert(select_instrs(s.push(x).skip(1)) == Seq::<InstV>::empty());
        assert(select_instrs(s.push(x)) == select_instr(x) + Seq::<InstV>::empty());
        assert(select_instr(x) + Seq::<InstV>::empty() =~= Seq::<InstV>::empty() + select_instr(x));
        assert(select_instrs(s.push(x)) =~= select_instrs(s) + select_instr(x));
    } else {
        assert(s.push(x)[0] == s[0]);
        assert(s.push(x).skip(1) =~= s.skip(1).push(x));
        lemma_select_instrs_push(s.skip(1), x);
        assert(select_instr(s[0]) + (select_instrs(s.skip(1)) + select_instr(x)) =~= (select_instr(
            s[0],
        ) + select_instrs(s.skip(1))) + select_instr(x));
    }
}

/// The operand of an IR value.
fn operand_of_val(v: &tacky_ast::Val) -> (r: Operand)
    ensures
        r@ == operand_of(v@),
{
    match v {
        tacky_ast::Val::Constant(c) => Operand::Imm(*c),
        tacky_ast::Val::Var(name) => Operand::PseudoReg(name.clone()),
    }
}

/// A structural copy of an operand.
fn copy_operand(o: &Operand) -> (r: Operand)
    ensures
        r@ == o@,
{
    match o {
        Operand::Imm(v) => Operand::Imm(*v),
        Operand::Register(r) => Operand::Register(*r),
        Operand::PseudoReg(n) => Operand::PseudoReg(n.clone()),
        Operand::Stack(s) => Operand::Stack(*s),
    }
}

/// A structural copy of an instruction.
fn copy_inst(i: &Inst) -> (r: Inst)
    ensures
        r@ == i@,
{
    match i {
        Inst::Mov(m) => Inst::Mov(Mov { src: copy_operand(&m.src), dst: copy_operand(&m.dst) }),
        Inst::Unary(op, o) => Inst::Unary(*op, copy_operand(o)),
        Inst::AllocStack(v) => Inst::AllocStack(*v),
        Inst::Ret => Inst::Ret,
    }
}

// ------------------------------------------------------------------
// Pass A: pseudo-register replacement
// ------------------------------------------------------------------

/// Allocating one name: an already known name keeps its offset, a new one
/// gets the next slot down.
pub open spec fn alloc_name(a: Seq<Seq<char>>, n: Seq<char>) -> (Seq<Seq<char>>, int) {
    if a.contains(n) {
        (a, spec_offset(a, n))
    } else {
        (a.push(n), -4 * (a.len() + 1))
    }
}

/// Replacing one operand: a pseudo-register becomes the stack slot of its
/// name; every other operand is untouched.
pub open spec fn replace_operand(a: Seq<Seq<char>>, o: OperandV) -> (Seq<Seq<char>>, OperandV) {
    match o {
        OperandV::PseudoReg(n) => {
            let r = alloc_name(a, n);
            (r.0, OperandV::Stack(r.1))
        },
        _ => (a, o),
    }
}

/// Replacing the operands of one instruction, source before destination.
pub open spec fn replace_inst(a: Seq<Seq<char>>, i: InstV) -> (Seq<Seq<char>>, InstV) {
    match i {
        InstV::Mov(m) => {
            let r1 = replace_operand(a, m.src);
            let r2 = replace_operand(r1.0, m.dst);
            (r2.0, InstV::Mov(MovV { src: r1.1, dst: r2.1 }))
        },
        InstV::Unary(op, o) => {
            let r = replace_operand(a, o);
            (r.0, InstV::Unary(op, r.1))
        },
        _ => (a, i),
    }
}

/// Replacing every pseudo-register of an instruction list, in order: the
/// final allocator contents and the rewritten list. No instruction is
/// reordered or removed.
pub open spec fn replace_instrs(a: Seq<Seq<char>>, s: Seq<InstV>) -> (Seq<Seq<char>>, Seq<InstV>)
    decreases s.len(),
{
    if s.len() == 0 {
        (a, seq![])
    } else {
        let r = replace_inst(a, s[0]);
        let rest = replace_instrs(r.0, s.skip(1));
        (rest.0, seq![r.1] + rest.1)
    }
}

/// Replaces one operand through the function's stack allocator.
fn replace_op(a: &mut StackAllocator, o: &Operand) -> (r: Operand)
    requires
        alloc_wf(old(a)@),
        old(a)@.len() < MAX_SLOTS,
    ensures
        alloc_wf(final(a)@),
        final(a)@ == replace_operand(old(a)@, o@).0,
        r@ == replace_operand(old(a)@, o@).1,
        final(a)@.len() <= old(a)@.len() + 1,
{
    match o {
        Operand::PseudoReg(p) => Operand::Stack(a.allocate(p.as_str())),
        Operand::Imm(c) => Operand::Imm(*c),
        Operand::Register(r) => Operand::Register(*r),
        Operand::Stack(s) => Operand::Stack(*s),
    }
}

// ------------------------------------------------------------------
// Pass B: legalization and frame setup
// ------------------------------------------------------------------

/// Legalizing one instruction: a move with two stack operands becomes two
/// moves through the reserved scratch register; everything else is kept.
pub open spec fn fix_inst(i: InstV) -> Seq<InstV> {
    match i {
        InstV::Mov(m) => if m.src is Stack && m.dst is Stack {
            seq![
                InstV::Mov(MovV { src: m.src, dst: OperandV::Register(Reg::R10) }),
                InstV::Mov(MovV { src: OperandV::Register(Reg::R10), dst: m.dst }),
            ]
        } else {
            seq![i]
        },
        _ => seq![i],
    }
}

/// Legalizing a whole instruction list, in order.
pub open spec fn fix_instrs(s: Seq<InstV>) -> Seq<InstV>
    decreases s.len(),
{
    if s.len() == 0 {
        seq![]
    } else {
        fix_inst(s[0]) + fix_instrs(s.skip(1))
    }
}

/// The whole second pass: the frame-size prologue sized to the allocator's
/// running total, then the legalized instructions.
pub open spec fn legalize(alloc: Seq<Seq<char>>, s: Seq<InstV>) -> Seq<InstV> {
    seq![InstV::AllocStack(spec_total(alloc))] + fix_instrs(s)
}

proof fn lemma_fix_instrs_push(s: Seq<InstV>, x: InstV)
    ensures
        fix_instrs(s.push(x)) == fix_instrs(s) + fix_inst(x),
    decreases s.len(),
{
    if s.len() == 0 {
        assert(fix_instrs(s) == Seq::<InstV>::empty());
        assert(s.push(x)[0] == x);
        assert(s.push(x).len() == 1);
        assert(s.push(x).skip(1) =~= Seq::<InstV>::empty());
        assert(fix_instrs(s.push(x).skip(1)) == Seq::<InstV>::empty());
        assert(fix_instrs(s.push(x)) == fix_inst(x) + Seq::<InstV>::empty());
        assert(fix_inst(x) + Seq::<InstV>::empty() =~= Seq::<InstV>::empty() + fix_inst(x));
        assert(fix_instrs(s.push(x)) =~= fix_instrs(s) + fix_inst(x));
    } else {
        assert(s.push(x)[0] == s[0]);
        assert(s.push(x).skip(1) =~= s.skip(1).push(x));
        lemma_fix_instrs_push(s.skip(1), x);
        assert(fix_inst(s[0]) + (fix_instrs(s.skip(1)) + fix_inst(x)) =~= (fix_inst(s[0])
            + fix_instrs(s.skip(1))) + fix_inst(x));
    }
}

// ------------------------------------------------------------------
// Legality: what the two passes guarantee
// ------------------------------------------------------------------

/// An operand the emitter may see: anything but a pseudo-register.
pub open spec fn operand_ok(o: OperandV) -> bool {
    !(o is PseudoReg)
}

/// No pseudo-register anywhere in the instruction.
pub open spec fn inst_no_pseudo(i: InstV) -> bool {
    match i {
        InstV::Mov(m) => operand_ok(m.src) && operand_ok(m.dst),
        InstV::Unary(_, o) => operand_ok(o),
        InstV::AllocStack(_) => true,
        InstV::Ret => true,
    }
}

/// A legal instruction: no pseudo-register operand, and no move with two
/// stack operands.
pub open spec fn inst_legal(i: InstV) -> bool {
    inst_no_pseudo(i) && match i {
        InstV::Mov(m) => !(m.src is Stack && m.dst is Stack),
        _ => true,
    }
}

/// Every instruction of the list is legal.
pub open spec fn instrs_legal(s: Seq<InstV>) -> bool {
    forall|k: int| 0 <= k < s.len() ==> inst_legal(s[k])
}

/// The first pass leaves no pseudo-register behind.
pub proof fn lemma_replace_no_pseudo(a: Seq<Seq<char>>, s: Seq<InstV>)
    ensures
        forall|k: int|
            0 <= k < replace_instrs(a, s).1.len() ==> inst_no_pseudo(
                #[trigger] replace_instrs(a, s).1[k],
            ),
    decreases s.len(),
{
    if s.len() > 0 {
        let r = replace_inst(a, s[0]);
        lemma_replace_no_pseudo(r.0, s.skip(1));
        assert(inst_no_pseudo(r.1));
        assert forall|k: int| 0 <= k < replace_instrs(a, s).1.len() implies inst_no_pseudo(
            #[trigger] replace_instrs(a, s).1[k],
        ) by {
            if k > 0 {
                assert(replace_instrs(a, s).1[k] == replace_instrs(r.0, s.skip(1)).1[k - 1]);
            }
        }
    }
}

/// The second pass makes every instruction legal, provided no
/// pseudo-register is left.
pub proof fn lemma_fix_legal(s: Seq<InstV>)
    requires
        forall|k: int| 0 <= k < s.len() ==> inst_no_pseudo(#[trigger] s[k]),
    ensures
        instrs_legal(fix_instrs(s)),
    decreases s.len(),
{
    if s.len() > 0 {
        assert(inst_no_pseudo(s[0]));
        assert(forall|k: int| 0 <= k < s.skip(1).len() ==> inst_no_pseudo(#[trigger] s.skip(1)[k]));
        lemma_fix_legal(s.skip(1));
        assert forall|k: int| 0 <= k < fix_instrs(s).len() implies inst_legal(
            #[trigger] fix_instrs(s)[k],
        ) by {
            let head = fix_inst(s[0]);
            if k < head.len() {
                assert(fix_instrs(s)[k] == head[k]);
                assert(inst_legal(head[k]));
            } else {
                assert(fix_instrs(s)[k] == fix_instrs(s.skip(1))[k - head.len()]);
            }
        }
    }
}

/// The legalization invariant: for every allocator state and instruction
/// list, running the pseudo-register replacement pass and then the
/// legalization pass leaves no pseudo-register operand anywhere and no
/// instruction with two stack operands.
pub proof fn lemma_legalization_invariant(alloc: Seq<Seq<char>>, instrs: Seq<InstV>)
    ensures
        ({
            let r = replace_instrs(alloc, instrs);
            instrs_legal(legalize(r.0, r.1))
        }),
{
    let r = replace_instrs(alloc, instrs);
    lemma_replace_no_pseudo(alloc, instrs);
    lemma_fix_legal(r.1);
    assert forall|k: int| 0 <= k < legalize(r.0, r.1).len() implies inst_legal(
        #[trigger] legalize(r.0, r.1)[k],
    ) by {
        if k > 0 {
            assert(legalize(r.0, r.1)[k] == fix_instrs(r.1)[k - 1]);
        }
    }
}

// ------------------------------------------------------------------
// The function-level passes
// ------------------------------------------------------------------

impl Function {
    /// A fresh assembly function with the given name, no instructions and
    /// an empty stack allocator.
    pub fn new(name_: &String) -> (r: Self)
        ensures
            r@.name == name_@,
            r@.instrs == Seq::<InstV>::empty(),
            r@.alloc == Seq::<Seq<char>>::empty(),
            alloc_wf(r@.alloc),
    {
        let r = Function {
            name: name_.clone(),
            instrs: Vec::new(),
            stack_allocator: StackAllocator::new(),
        };
        proof {
            assert(at_instrs_view(r.instrs@) =~= Seq::<InstV>::empty());
        }
        r
    }

    /// Instruction selection: maps every IR instruction of `function`, in
    /// order, to its one or two assembly instructions. Selection is total
    /// over the current operator set; the fallible signature is kept for
    /// extension.
    pub fn parse(function: &tacky_ast::Function) -> (r: Result<Self, SelectionError>)
        ensures
            r matches Ok(f) && {
                &&& f@.name == function.identifier@
                &&& f@.instrs == select_instrs(tacky_ast::instrs_view(function.instrs@))
                &&& f@.alloc == Seq::<Seq<char>>::empty()
            },
    {
        let mut at_func = Function::new(&function.identifier);
        let ghost full = tacky_ast::instrs_view(function.instrs@);
        let n = function.instrs.len();
        let mut k: usize = 0;
        while k < n
            invariant
                n == function.instrs@.len(),
                full == tacky_ast::instrs_view(function.instrs@),
                k <= n,
                at_func@.name == function.identifier@,
                at_func@.alloc == Seq::<Seq<char>>::empty(),
                at_func@.instrs == select_instrs(full.take(k as int)),
            decreases n - k,
        {
            let ghost prefix = full.take(k as int);
            match &function.instrs[k] {
                tacky_ast::Instr::Return(v) => {
                    let operand = operand_of_val(v);
                    at_func.instrs.push(
                        Inst::Mov(Mov { src: operand, dst: Operand::Register(Reg::AX) }),
                    );
                    at_func.instrs.push(Inst::Ret);
                },
                tacky_ast::Instr::Unary(u) => {
                    let src = operand_of_val(&u.src);
                    let dst = operand_of_val(&u.dst);
                    let dst_again = operand_of_val(&u.dst);
                    let op = match u.op {
                        tacky_ast::UnaryOp::Complement => UnaryOp::Complement,
                        tacky_ast::UnaryOp::Negate => UnaryOp::Negate,
                    };
                    at_func.instrs.push(Inst::Mov(Mov { src, dst }));
                    at_func.instrs.push(Inst::Unary(op, dst_again));
                },
            }
            proof {
                lemma_select_instrs_push(prefix, full[k as int]);
                assert(full.take(k + 1) =~= prefix.push(full[k as int]));
                assert(at_func@.instrs =~= select_instrs(prefix) + select_instr(full[k as int]));
            }
            k += 1;
        }
        proof {
            assert(full.take(n as int) =~= full);
        }
        Ok(at_func)
    }

    /// Pass A: replaces every pseudo-register operand, in instruction
    /// order and source before destination, by the stack slot its name
    /// gets from the function's stack allocator; repeated names resolve to
    /// the same slot. Other operands and the instruction order are
    /// untouched.
    pub fn replace_pseudoregs(&mut self)
        requires
            alloc_wf(old(self)@.alloc),
            old(self)@.alloc.len() + 2 * old(self)@.instrs.len() < MAX_SLOTS,
        ensures
            ({
                let r = replace_instrs(old(self)@.alloc, old(self)@.instrs);
                &&& final(self)@.name == old(self)@.name
                &&& final(self)@.instrs == r.1
                &&& final(self)@.alloc == r.0
                &&& alloc_wf(final(self)@.alloc)
                &&& final(self)@.alloc.len() <= old(self)@.alloc.len() + 2 * old(
                    self,
                )@.instrs.len()
            }),
    {
        let ghost a0 = self@.alloc;
        let ghost full = self@.instrs;
        let n = self.instrs.len();
        let mut out: Vec<Inst> = Vec::new();
        proof {
            assert(full.skip(0) =~= full);
            assert(at_instrs_view(out@) =~= Seq::<InstV>::empty());
            assert(Seq::<InstV>::empty() + replace_instrs(a0, full).1 =~= replace_instrs(
                a0,
                full,
            ).1);
        }
        let mut k: usize = 0;
        while k < n
            invariant
                n == self.instrs@.len(),
                self@.instrs == full,
                self@.name == old(self)@.name,
                a0 == old(self)@.alloc,
                full == old(self)@.instrs,
                k <= n,
                alloc_wf(self@.alloc),
                self@.alloc.len() <= a0.len() + 2 * k,
                a0.len() + 2 * full.len() < MAX_SLOTS,
                replace_instrs(a0, full).0 == replace_instrs(self@.alloc, full.skip(k as int)).0,
                replace_instrs(a0, full).1 == at_instrs_view(out@) + replace_instrs(
                    self@.alloc,
                    full.skip(k as int),
                ).1,
            decreases n - k,
        {
            let ghost acur = self@.alloc;
            let ghost out_prev = at_instrs_view(out@);
            let inst_k = copy_inst(&self.instrs[k]);
            let new_inst = match inst_k {
                Inst::Mov(m) => {
                    let new_src = replace_op(&mut self.stack_allocator, &m.src);
                    let new_dst = replace_op(&mut self.stack_allocator, &m.dst);
                    Inst::Mov(Mov { src: new_src, dst: new_dst })
                },
                Inst::Unary(op, o) => {
                    let new_o = replace_op(&mut self.stack_allocator, &o);
                    Inst::Unary(op, new_o)
                },
                Inst::AllocStack(v) => Inst::AllocStack(v),
                Inst::Ret => Inst::Ret,
            };
            proof {
                assert(replace_inst(acur, full[k as int]).0 == self@.alloc);
                assert(replace_inst(acur, full[k as int]).1 == new_inst@);
            }
            out.push(new_inst);
            proof {
                assert(full.skip(k as int)[0] == full[k as int]);
                assert(full.skip(k as int).skip(1) =~= full.skip(k + 1));
                assert(at_instrs_view(out@) =~= out_prev.push(new_inst@));
                let rest = replace_instrs(self@.alloc, full.skip(k + 1));
                assert(out_prev + (seq![new_inst@] + rest.1) =~= out_prev.push(new_inst@) + rest.1);
            }
            k += 1;
        }
        proof {
            assert(full.skip(n as int) =~= Seq::<InstV>::empty());
            assert(at_instrs_view(out@) + Seq::<InstV>::empty() =~= at_instrs_view(out@));
        }
        self.instrs = out;
    }

    /// Pass B: inserts the frame-size prologue instruction, sized exactly
    /// to the allocator's running total, as the new first instruction,
    /// then rewrites every move with two stack operands into two moves
    /// through the reserved scratch register.
    pub fn register_fixup(&mut self)
        requires
            old(self)@.alloc.len() <= MAX_SLOTS,
        ensures
            final(self)@.name == old(self)@.name,
            final(self)@.alloc == old(self)@.alloc,
            final(self)@.instrs == legalize(old(self)@.alloc, old(self)@.instrs),
    {
        let ghost a0 = self@.alloc;
        let ghost full = self@.instrs;
        let total = self.stack_allocator.get();
        let mut out: Vec<Inst> = Vec::new();
        out.push(Inst::AllocStack(total));
        proof {
            assert(at_instrs_view(out@) =~= seq![InstV::AllocStack(spec_total(a0))] + fix_instrs(
                full.take(0),
            ));
        }
        let n = self.instrs.len();
        let mut k: usize = 0;
        while k < n
            invariant
                n == self.instrs@.len(),
                self@.instrs == full,
                self@.name == old(self)@.name,
                self@.alloc == a0,
                a0 == old(self)@.alloc,
                full == old(self)@.instrs,
                k <= n,
                at_instrs_view(out@) == seq![InstV::AllocStack(spec_total(a0))] + fix_instrs(
                    full.take(k as int),
                ),
            decreases n - k,
        {
            let ghost out_prev = at_instrs_view(out@);
            match &self.instrs[k] {
                Inst::Mov(m) => {
                    let both_stack = match (&m.src, &m.dst) {
                        (Operand::Stack(_), Operand::Stack(_)) => true,
                        _ => false,
                    };
                    if both_stack {
                        let s1 = copy_operand(&m.src);
                        let d1 = copy_operand(&m.dst);
                        out.push(Inst::Mov(Mov { src: s1, dst: Operand::Register(Reg::R10) }));
                        out.push(Inst::Mov(Mov { src: Operand::Register(Reg::R10), dst: d1 }));
                    } else {
                        let s1 = copy_operand(&m.src);
                        let d1 = copy_operand(&m.dst);
                        out.push(Inst::Mov(Mov { src: s1, dst: d1 }));
                    }
                },
                Inst::Unary(op, o) => {
                    let o2 = copy_operand(o);
                    out.push(Inst::Unary(*op, o2));
                },
                Inst::AllocStack(v) => {
                    out.push(Inst::AllocStack(*v));
                },
                Inst::Ret => {
                    out.push(Inst::Ret);
                },
            }
            proof {
                lemma_fix_instrs_push(full.take(k as int), full[k as int]);
                assert(full.take(k + 1) =~= full.take(k as int).push(full[k as int]));
                assert(at_instrs_view(out@) =~= out_prev + fix_inst(full[k as int]));
                assert(out_prev + fix_inst(full[k as int]) =~= seq![
                    InstV::AllocStack(spec_total(a0)),
                ] + fix_instrs(full.take(k + 1)));
            }
            k += 1;
        }
        proof {
            assert(full.take(n as int) =~= full);
        }
        self.instrs = out;
    }
}

impl FuncDef {
    /// The function of a definition's mathematical value.
    pub open spec fn def_fn(d: FuncDefV) -> FunctionV {
        match d {
            FuncDefV::Function(f) => f,
        }
    }

    /// Instruction selection over a whole IR function definition.
    pub fn parse(func_def: &tacky_ast::FuncDef) -> (r: Result<Self, SelectionError>)
        ensures
            r matches Ok(fd) && ({
                let tf = match *func_def {
                    tacky_ast::FuncDef::Function(tf) => tf,
                };
                &&& Self::def_fn(fd@).name == tf.identifier@
                &&& Self::def_fn(fd@).instrs == select_instrs(tacky_ast::instrs_view(tf.instrs@))
                &&& Self::def_fn(fd@).alloc == Seq::<Seq<char>>::empty()
            }),
    {
        match func_def {
            tacky_ast::FuncDef::Function(function) => {
                match Function::parse(function) {
                    Ok(at_func) => Ok(FuncDef::Function(at_func)),
                    Err(e) => Err(e),
                }
            },
        }
    }

    /// Pass A over the definition's function.
    pub fn replace_pseudoregs(&mut self)
        requires
            alloc_wf(Self::def_fn(old(self)@).alloc),
            Self::def_fn(old(self)@).alloc.len() + 2 * Self::def_fn(old(self)@).instrs.len()
                < MAX_SLOTS,
        ensures
            ({
                let f0 = Self::def_fn(old(self)@);
                let f1 = Self::def_fn(final(self)@);
                let r = replace_instrs(f0.alloc, f0.instrs);
                &&& f1.name == f0.name
                &&& f1.instrs == r.1
                &&& f1.alloc == r.0
                &&& alloc_wf(f1.alloc)
                &&& f1.alloc.len() <= f0.alloc.len() + 2 * f0.instrs.len()
            }),
    {
        match self {
            FuncDef::Function(f) => f.replace_pseudoregs(),
        }
    }

    /// Pass B over the definition's function.
    pub fn register_fixup(&mut self)
        requires
            Self::def_fn(old(self)@).alloc.len() <= MAX_SLOTS,
        ensures
            ({
                let f0 = Self::def_fn(old(self)@);
                let f1 = Self::def_fn(final(self)@);
                &&& f1.name == f0.name
                &&& f1.alloc == f0.alloc
                &&& f1.instrs == legalize(f0.alloc, f0.instrs)
            }),
    {
        match self {
            FuncDef::Function(f) => f.register_fixup(),
        }
    }
}

impl Program {
    /// Instruction selection over a whole IR program.
    pub fn parse(program: &tacky_ast::Program) -> (r: Result<Self, SelectionError>)
        ensures
            r matches Ok(p) && ({
                let tf = tacky_ast::prog_fn(program@);
                &&& prog_fn(p@).name == tf.identifier
                &&& prog_fn(p@).instrs == select_instrs(tf.instrs)
                &&& prog_fn(p@).alloc == Seq::<Seq<char>>::empty()
            }),
    {
        match program {
            tacky_ast::Program::Program(func_def) => {
                match FuncDef::parse(func_def) {
                    Ok(fd) => Ok(Program::Program(fd)),
                    Err(e) => Err(e),
                }
            },
        }
    }

    /// Pass A over the program's function.
    pub fn replace_pseudoregs(&mut self)
        requires
            alloc_wf(prog_fn(old(self)@).alloc),
            prog_fn(old(self)@).alloc.len() + 2 * prog_fn(old(self)@).instrs.len() < MAX_SLOTS,
        ensures
            ({
                let f0 = prog_fn(old(self)@);
                let f1 = prog_fn(final(self)@);
                let r = replace_instrs(f0.alloc, f0.instrs);
                &&& f1.name == f0.name
                &&& f1.instrs == r.1
                &&& f1.alloc == r.0
                &&& alloc_wf(f1.alloc)
                &&& f1.alloc.len() <= f0.alloc.len() + 2 * f0.instrs.len()
            }),
    {
        match self {
            Program::Program(f) => f.replace_pseudoregs(),
        }
    }

    /// Pass B over the program's function.
    pub fn register_fixup(&mut self)
        requires
            prog_fn(old(self)@).alloc.len() <= MAX_SLOTS,
        ensures
            ({
                let f0 = prog_fn(old(self)@);
                let f1 = prog_fn(final(self)@);
                &&& f1.name == f0.name
                &&& f1.alloc == f0.alloc
                &&& f1.instrs == legalize(f0.alloc, f0.instrs)
            }),
    {
        match self {
            Program::Program(f) => f.register_fixup(),
        }
    }
}

// ------------------------------------------------------------------
// Rendering to assembly text
// ------------------------------------------------------------------

/// The text of an operand: an immediate literal, a register mnemonic at
/// 32-bit width, or a frame-relative memory reference. A pseudo-register
/// must never reach the emitter; it renders as nothing.
pub open spec fn render_operand(o: OperandV) -> Seq<char> {
    match o {
        OperandV::Imm(v) => "$"@ + dec_digits(v as nat),
        OperandV::Register(Reg::AX) => "%eax"@,
        OperandV::Register(Reg::R10) => "%r10d"@,
        OperandV::PseudoReg(_) => Seq::<char>::empty(),
        OperandV::Stack(s) => dec_digits_i64(s) + "(%rbp)"@,
    }
}

/// The mnemonic of a unary operator.
pub open spec fn render_unary_op(op: UnaryOp) -> Seq<char> {
    match op {
        UnaryOp::Complement => "\tnotl\t"@,
        UnaryOp::Negate => "\tnegl\t"@,
    }
}

/// The text of one instruction. A return renders as the fixed epilogue:
/// restore the frame pointer, then return.
pub open spec fn render_inst(i: InstV) -> Seq<char> {
    match i {
        InstV::Mov(m) => "\tmovl\t"@ + render_operand(m.src) + ", "@ + render_operand(m.dst)
            + "\n"@,
        InstV::Ret => "\tmovq\t%rbp, %rsp\n"@ + "\tpopq\t%rbp\n"@ + "\tret\n"@,
        InstV::AllocStack(a) => "\tsubq\t$"@ + dec_digits_i64(a) + ", %rsp\n"@,
        InstV::Unary(op, o) => render_unary_op(op) + render_operand(o) + "\n"@,
    }
}

/// The text of an instruction list, in order.
pub open spec fn render_instrs(s: Seq<InstV>) -> Seq<char>
    decreases s.len(),
{
    if s.len() == 0 {
        Seq::<char>::empty()
    } else {
        render_inst(s[0]) + render_instrs(s.skip(1))
    }
}

/// The text of a function: a global label (with the platform's leading
/// underscore), the fixed prologue establishing the frame pointer, then
/// the instructions.
pub open spec fn render_function(f: FunctionV) -> Seq<char> {
    "\t.globl _"@ + f.name + "\n"@ + "_"@ + f.name + ":\n"@ + "\tpushq\t%rbp\n"@
        + "\tmovq\t%rsp, %rbp\n"@ + render_instrs(f.instrs)
}

/// The text of a whole program.
pub open spec fn render_program(p: ProgramV) -> Seq<char> {
    render_function(prog_fn(p))
}

proof fn lemma_render_instrs_push(s: Seq<InstV>, x: InstV)
    ensures
        render_instrs(s.push(x)) == render_instrs(s) + render_inst(x),
    decreases s.len(),
{
    if s.len() == 0 {
        assert(render_instrs(s) == Seq::<char>::empty());
        assert(s.push(x)[0] == x);
        assert(s.push(x).len() == 1);
        assert(s.push(x).skip(1) =~= Seq::<InstV>::empty());
        assert(render_instrs(s.push(x).skip(1)) == Seq::<char>::empty());
        assert(render_instrs(s.push(x)) == render_inst(x) + Seq::<char>::empty());
        assert(render_inst(x) + Seq::<char>::empty() =~= Seq::<char>::empty() + render_inst(x));
        assert(render_instrs(s.push(x)) =~= render_instrs(s) + render_inst(x));
    } else {
        assert(s.push(x)[0] == s[0]);
        assert(s.push(x).skip(1) =~= s.skip(1).push(x));
        lemma_render_instrs_push(s.skip(1), x);
        assert(render_inst(s[0]) + (render_instrs(s.skip(1)) + render_inst(x)) =~= (render_inst(
            s[0],
        ) + render_instrs(s.skip(1))) + render_inst(x));
    }
}

impl UnaryOp {
    /// Appends the operator's mnemonic to `text`.
    pub fn write(&self, text: &mut String)
        ensures
            final(text)@ == old(text)@ + render_unary_op(*self),
    {
        match self {
            UnaryOp::Complement => text.append("\tnotl\t"),
            UnaryOp::Negate => text.append("\tnegl\t"),
        }
    }
}

impl Operand {
    /// Appends the operand's text to `text`.
    pub fn write(&self, text: &mut String)
        ensures
            final(text)@ == old(text)@ + render_operand(self@),
    {
        match self {
            Operand::Imm(v) => {
                text.append("$");
                push_decimal(text, *v);
                proof {
                    assert(text@ =~= old(text)@ + render_operand(self@));
                }
            },
            Operand::Register(r) => {
                match r {
                    Reg::AX => text.append("%eax"),
                    Reg::R10 => text.append("%r10d"),
                }
            },
            Operand::Stack(s) => {
                push_decimal_i64(text, *s);
                text.append("(%rbp)");
                proof {
                    assert(text@ =~= old(text)@ + render_operand(self@));
                }
            },
            Operand::PseudoReg(_) => {
                proof {
                    assert(text@ =~= old(text)@ + render_operand(self@));
                }
            },
        }
    }
}

impl Inst {
    /// Appends the instruction's text to `text`.
    pub fn write(&self, text: &mut String)
        ensures
            final(text)@ == old(text)@ + render_inst(self@),
    {
        match self {
            Inst::Mov(m) => {
                text.append("\tmovl\t");
                m.src.write(text);
                text.append(", ");
                m.dst.write(text);
                text.append("\n");
                proof {
                    assert(text@ =~= old(text)@ + render_inst(self@));
                }
            },
            Inst::Ret => {
                text.append("\tmovq\t%rbp, %rsp\n");
                text.append("\tpopq\t%rbp\n");
                text.append("\tret\n");
                proof {
                    assert(text@ =~= old(text)@ + render_inst(self@));
                }
            },
            Inst::AllocStack(a) => {
                text.append("\tsubq\t$");
                push_decimal_i64(text, *a);
                text.append(", %rsp\n");
                proof {
                    assert(text@ =~= old(text)@ + render_inst(self@));
                }
            },
            Inst::Unary(op, operand) => {
                op.write(text);
                operand.write(text);
                text.append("\n");
                proof {
                    assert(text@ =~= old(text)@ + render_inst(self@));
                }
            },
        }
    }
}

impl Function {
    /// Appends the function's whole text to `text`: label, prologue and
    /// instructions.
    pub fn write(&self, text: &mut String)
        ensures
            final(text)@ == old(text)@ + render_function(self@),
    {
        text.append("\t.globl _");
        text.append(self.name.as_str());
        text.append("\n");
        text.append("_");
        text.append(self.name.as_str());
        text.append(":\n");
        text.append("\tpushq\t%rbp\n");
        text.append("\tmovq\t%rsp, %rbp\n");
        let ghost header_done = text@;
        let ghost full = self@.instrs;
        proof {
            assert(render_instrs(full.take(0)) == Seq::<char>::empty());
            assert(header_done + Seq::<char>::empty() =~= header_done);
        }
        let n = self.instrs.len();
        let mut k: usize = 0;
        while k < n
            invariant
                n == self.instrs@.len(),
                full == self@.instrs,
                k <= n,
                text@ == header_done + render_instrs(full.take(k as int)),
            decreases n - k,
        {
            self.instrs[k].write(text);
            proof {
                lemma_render_instrs_push(full.take(k as int), full[k as int]);
                assert(full.take(k + 1) =~= full.take(k as int).push(full[k as int]));
                assert((header_done + render_instrs(full.take(k as int))) + render_inst(
                    full[k as int],
                ) =~= header_done + render_instrs(full.take(k + 1)));
            }
            k += 1;
        }
        proof {
            assert(full.take(n as int) =~= full);
            assert(header_done =~= old(text)@ + ("\t.globl _"@ + self@.name + "\n"@ + "_"@
                + self@.name + ":\n"@ + "\tpushq\t%rbp\n"@ + "\tmovq\t%rsp, %rbp\n"@));
            assert(text@ =~= old(text)@ + render_function(self@));
        }
    }
}

impl FuncDef {
    /// Appends the definition's whole text to `text`.
    pub fn write(&self, text: &mut String)
        ensures
            final(text)@ == old(text)@ + render_function(Self::def_fn(self@)),
    {
        match self {
            FuncDef::Function(f) => f.write(text),
        }
    }
}

impl Program {
    /// Renders the whole program to assembly text, appending to `text`.
    pub fn write(&self, text: &mut String)
        ensures
            final(text)@ == old(text)@ + render_program(self@),
    {
        match self {
            Program::Program(p) => p.write(text),
        }
    }
}

} // verus!
