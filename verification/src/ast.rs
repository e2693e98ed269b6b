//! The abstract syntax tree and its recursive-descent parser.
//!
//! Grammar, LL(1), one token of lookahead via sequential consumption:
//! ```text
//! Program  := Function
//! Function := "int" Identifier "(" "void" ")" "{" Statement "}"
//! Statement:= "return" Expr ";"
//! Expr     := Integer | UnaryOp Expr | "(" Expr ")"
//! UnaryOp  := "-" | "~"
//! ```
//! After the function, the token stream must be exhausted. Each parse
//! function takes the token sequence and a position, consumes exactly the
//! tokens of its nonterminal and returns the position after them.

use vstd::prelude::*;

use crate::errors::SyntaxError;
use crate::token::Token;
use crate::token::TokenV;
use crate::token::tokens_view;

verus! {

/// A whole translation unit: exactly one function definition.
#[derive(Debug)]
pub enum Program {
    Program(FuncDef),
}

/// A function: a name and a single statement as its body.
#[derive(Debug)]
pub struct Function {
    pub name: String,
    pub stmt: Stmt,
}

/// A function definition.
#[derive(Debug)]
pub enum FuncDef {
    Function(Function),
}

/// A statement: only `return <expr>;` exists today.
#[derive(Debug)]
pub enum Stmt {
    Return(Expr),
}

/// A unary operator applied to an operand expression.
#[derive(Debug)]
pub enum UnaryOp {
    Complement(Expr),
    Negate(Expr),
}

/// A binary operator applied to two operands. Reserved: the grammar does
/// not produce these yet, and the IR generator rejects them.
#[derive(Debug)]
pub enum BinaryOp {
    Add(Expr, Expr),
    Subtract(Expr, Expr),
    Multiply(Expr, Expr),
    Divide(Expr, Expr),
    Remainder(Expr, Expr),
}

/// An expression: an integer constant, a unary operation, a binary
/// operation (reserved), or a parenthesized expression recording source
/// grouping, transparent to evaluation.
#[derive(Debug)]
pub enum Expr {
    Const(u64),
    Unary(Box<UnaryOp>),
    Binary(Box<BinaryOp>),
    Expr(Box<Expr>),
}

/// The mathematical value of a `Function`: the name as characters, the
/// body as is.
pub struct FunctionV {
    pub name: Seq<char>,
    pub stmt: Stmt,
}

/// The mathematical value of a `FuncDef`.
pub enum FuncDefV {
    Function(FunctionV),
}

/// The mathematical value of a `Program`.
pub enum ProgramV {
    Program(FuncDefV),
}

impl View for Function {
    type V = FunctionV;

    open spec fn view(&self) -> FunctionV {
        FunctionV { name: self.name@, stmt: self.stmt }
    }
}

impl View for FuncDef {
    type V = FuncDefV;

    open spec fn view(&self) -> FuncDefV {
        match self {
            FuncDef::Function(f) => FuncDefV::Function(f@),
        }
    }
}

impl View for Program {
    type V = ProgramV;

    open spec fn view(&self) -> ProgramV {
        match self {
            Program::Program(f) => ProgramV::Program(f@),
        }
    }
}

/// The number of unary operators in an expression.
pub open spec fn unary_count(e: Expr) -> nat
    decreases e,
{
    match e {
        Expr::Const(_) => 0,
        Expr::Unary(u) => 1 + match *u {
            UnaryOp::Complement(inner) => unary_count(inner),
            UnaryOp::Negate(inner) => unary_count(inner),
        },
        Expr::Binary(_) => 0,
        Expr::Expr(inner) => unary_count(*inner),
    }
}

/// Whether an expression contains a binary operation anywhere.
pub open spec fn has_binary(e: Expr) -> bool
    decreases e,
{
    match e {
        Expr::Const(_) => false,
        Expr::Unary(u) => match *u {
            UnaryOp::Complement(inner) => has_binary(inner),
            UnaryOp::Negate(inner) => has_binary(inner),
        },
        Expr::Binary(_) => true,
        Expr::Expr(inner) => has_binary(*inner),
    }
}

/// The expression returned by a statement.
pub open spec fn stmt_expr(s: Stmt) -> Expr {
    match s {
        Stmt::Return(e) => e,
    }
}

/// The expression returned by a program's single statement.
pub open spec fn program_expr(p: ProgramV) -> Expr {
    match p {
        ProgramV::Program(FuncDefV::Function(f)) => match f.stmt {
            Stmt::Return(e) => e,
        },
    }
}

/// The expression of `s` at position `i`, with the position after it.
pub open spec fn spec_parse_expr(toks: Seq<TokenV>, i: int) -> Result<(Expr, int), SyntaxError>
    decreases toks.len() - i,
{
    if i < 0 || i >= toks.len() {
        Err(SyntaxError::InvalidExpression)
    } else {
        match toks[i] {
            TokenV::Integer(v) => Ok((Expr::Const(v), i + 1)),
            TokenV::BitFlip => match spec_parse_expr(toks, i + 1) {
                Ok(r) => Ok((Expr::Unary(Box::new(UnaryOp::Complement(r.0))), r.1)),
                Err(e) => Err(e),
            },
            TokenV::Negate => match spec_parse_expr(toks, i + 1) {
                Ok(r) => Ok((Expr::Unary(Box::new(UnaryOp::Negate(r.0))), r.1)),
                Err(e) => Err(e),
            },
            TokenV::OpenParen => match spec_parse_expr(toks, i + 1) {
                Ok(r) => if r.1 < toks.len() && toks[r.1] == TokenV::CloseParen {
                    Ok((Expr::Expr(Box::new(r.0)), r.1 + 1))
                } else {
                    Err(SyntaxError::ExpectedCloseParenAfterExpression)
                },
                Err(e) => Err(e),
            },
            _ => Err(SyntaxError::InvalidExpression),
        }
    }
}

/// The statement of `s` at position `i`, with the position after it.
pub open spec fn spec_parse_stmt(toks: Seq<TokenV>, i: int) -> Result<(Stmt, int), SyntaxError> {
    if !(0 <= i < toks.len() && toks[i] == TokenV::Return) {
        Err(SyntaxError::ExpectedReturn)
    } else {
        match spec_parse_expr(toks, i + 1) {
            Ok(r) => if r.1 < toks.len() && toks[r.1] == TokenV::Semicolon {
                Ok((Stmt::Return(r.0), r.1 + 1))
            } else {
                Err(SyntaxError::ExpectedSemicolon)
            },
            Err(e) => Err(e),
        }
    }
}

/// The function definition of `s` at position `i`, with the position after
/// it.
pub open spec fn spec_parse_funcdef(toks: Seq<TokenV>, i: int) -> Result<
    (FuncDefV, int),
    SyntaxError,
> {
    if !(0 <= i < toks.len() && toks[i] == TokenV::Int) {
        Err(SyntaxError::ExpectedInt)
    } else if !(i + 1 < toks.len() && toks[i + 1] is Identifier) {
        Err(SyntaxError::ExpectedIdentifier)
    } else if !(i + 2 < toks.len() && toks[i + 2] == TokenV::OpenParen) {
        Err(SyntaxError::ExpectedOpenParen)
    } else if !(i + 3 < toks.len() && toks[i + 3] == TokenV::Void) {
        Err(SyntaxError::ExpectedVoid)
    } else if !(i + 4 < toks.len() && toks[i + 4] == TokenV::CloseParen) {
        Err(SyntaxError::ExpectedCloseParen)
    } else if !(i + 5 < toks.len() && toks[i + 5] == TokenV::OpenBrace) {
        Err(SyntaxError::ExpectedOpenBrace)
    } else {
        match spec_parse_stmt(toks, i + 6) {
            Ok(r) => if r.1 < toks.len() && toks[r.1] == TokenV::CloseBrace {
                Ok(
                    (
                        FuncDefV::Function(
                            FunctionV { name: toks[i + 1]->Identifier_0, stmt: r.0 },
                        ),
                        r.1 + 1,
                    ),
                )
            } else {
                Err(SyntaxError::ExpectedCloseBrace)
            },
            Err(e) => Err(e),
        }
    }
}

/// The program of the whole token sequence: one function definition with
/// nothing after it.
pub open spec fn spec_parse_program(toks: Seq<TokenV>) -> Result<ProgramV, SyntaxError> {
    match spec_parse_funcdef(toks, 0) {
        Ok(r) => if r.1 == toks.len() {
            Ok(ProgramV::Program(r.0))
        } else {
            Err(SyntaxError::UnexpectedTrailingTokens)
        },
        Err(e) => Err(e),
    }
}

/// A successful expression parse consumes at least one token per unary
/// operator plus one, stays inside the sequence, and never builds a binary
/// operation.
pub proof fn lemma_spec_parse_expr_props(toks: Seq<TokenV>, i: int)
    ensures
        spec_parse_expr(toks, i) matches Ok(r) ==> {
            &&& i < r.1 <= toks.len()
            &&& unary_count(r.0) < r.1 - i
            &&& !has_binary(r.0)
        },
    decreases toks.len() - i,
{
    if 0 <= i < toks.len() {
        lemma_spec_parse_expr_props(toks, i + 1);
    }
}

/// A successful program parse yields an expression whose unary operators
/// number fewer than the tokens, and which contains no binary operation.
proof fn lemma_spec_parse_program_props(toks: Seq<TokenV>)
    ensures
        spec_parse_program(toks) matches Ok(pv) ==> {
            &&& unary_count(program_expr(pv)) < toks.len()
            &&& !has_binary(program_expr(pv))
        },
{
    if spec_parse_program(toks) is Ok {
        lemma_spec_parse_expr_props(toks, 7);
    }
}

impl Expr {
    /// Parses one expression at `pos`, returning it with the position
    /// after it.
    pub fn parse(tokens: &Vec<Token>, pos: usize) -> (r: Result<(Self, usize), SyntaxError>)
        ensures
            match spec_parse_expr(tokens_view(tokens@), pos as int) {
                Ok(sp) => r matches Ok(p) && p.0 == sp.0 && p.1 == sp.1,
                Err(e) => r matches Err(g) && g == e,
            },
        decreases tokens@.len() - pos,
    {
        let n = tokens.len();
        if pos >= n {
            return Err(SyntaxError::InvalidExpression);
        }
        match &tokens[pos] {
            Token::Integer(v) => Ok((Expr::Const(*v), pos + 1)),
            Token::BitFlip => match Expr::parse(tokens, pos + 1) {
                Ok((e, j)) => Ok((Expr::Unary(Box::new(UnaryOp::Complement(e))), j)),
                Err(e) => Err(e),
            },
            Token::Negate => match Expr::parse(tokens, pos + 1) {
                Ok((e, j)) => Ok((Expr::Unary(Box::new(UnaryOp::Negate(e))), j)),
                Err(e) => Err(e),
            },
            Token::OpenParen => match Expr::parse(tokens, pos + 1) {
                Ok((e, j)) => {
                    proof {
                        lemma_spec_parse_expr_props(tokens_view(tokens@), pos + 1);
                    }
                    if j < n {
                        match &tokens[j] {
                            Token::CloseParen => Ok((Expr::Expr(Box::new(e)), j + 1)),
                            _ => Err(SyntaxError::ExpectedCloseParenAfterExpression),
                        }
                    } else {
                        Err(SyntaxError::ExpectedCloseParenAfterExpression)
                    }
                },
                Err(e) => Err(e),
            },
            _ => Err(SyntaxError::InvalidExpression),
        }
    }
}

impl Stmt {
    /// Parses one statement at `pos`, returning it with the position after
    /// it.
    pub fn parse(tokens: &Vec<Token>, pos: usize) -> (r: Result<(Self, usize), SyntaxError>)
        ensures
            match spec_parse_stmt(tokens_view(tokens@), pos as int) {
                Ok(sp) => r matches Ok(p) && p.0 == sp.0 && p.1 == sp.1,
                Err(e) => r matches Err(g) && g == e,
            },
    {
        let n = tokens.len();
        if pos >= n {
            return Err(SyntaxError::ExpectedReturn);
        }
        match &tokens[pos] {
            Token::Return => {},
            _ => {
                return Err(SyntaxError::ExpectedReturn);
            },
        }
        match Expr::parse(tokens, pos + 1) {
            Ok((e, j)) => {
                proof {
                    lemma_spec_parse_expr_props(tokens_view(tokens@), pos + 1);
                }
                if j < n {
                    match &tokens[j] {
                        Token::Semicolon => Ok((Stmt::Return(e), j + 1)),
                        _ => Err(SyntaxError::ExpectedSemicolon),
                    }
                } else {
                    Err(SyntaxError::ExpectedSemicolon)
                }
            },
            Err(e) => Err(e),
        }
    }
}

impl FuncDef {
    /// Parses one function definition at `pos`, returning it with the
    /// position after it.
    pub fn parse(tokens: &Vec<Token>, pos: usize) -> (r: Result<(Self, usize), SyntaxError>)
        ensures
            match spec_parse_funcdef(tokens_view(tokens@), pos as int) {
                Ok(sp) => r matches Ok(p) && p.0@ == sp.0 && p.1 == sp.1,
                Err(e) => r matches Err(g) && g == e,
            },
    {
        let n = tokens.len();
        if pos >= n {
            return Err(SyntaxError::ExpectedInt);
        }
        match &tokens[pos] {
            Token::Int => {},
            _ => {
                return Err(SyntaxError::ExpectedInt);
            },
        }
        if pos + 1 >= n {
            return Err(SyntaxError::ExpectedIdentifier);
        }
        let func_name: String = match &tokens[pos + 1] {
            Token::Identifier(name) => name.clone(),
            _ => {
                return Err(SyntaxError::ExpectedIdentifier);
            },
        };
        if pos + 2 >= n {
            return Err(SyntaxError::ExpectedOpenParen);
        }
        match &tokens[pos + 2] {
            Token::OpenParen => {},
            _ => {
                return Err(SyntaxError::ExpectedOpenParen);
            },
        }
        if pos + 3 >= n {
            return Err(SyntaxError::ExpectedVoid);
        }
        match &tokens[pos + 3] {
            Token::Void => {},
            _ => {
                return Err(SyntaxError::ExpectedVoid);
            },
        }
        if pos + 4 >= n {
            return Err(SyntaxError::ExpectedCloseParen);
        }
        match &tokens[pos + 4] {
            Token::CloseParen => {},
            _ => {
                return Err(SyntaxError::ExpectedCloseParen);
            },
        }
        if pos + 5 >= n {
            return Err(SyntaxError::ExpectedOpenBrace);
        }
        match &tokens[pos + 5] {
            Token::OpenBrace => {},
            _ => {
                return Err(SyntaxError::ExpectedOpenBrace);
            },
        }
        match Stmt::parse(tokens, pos + 6) {
            Ok((statement, j)) => {
                if j < n {
                    match &tokens[j] {
                        Token::CloseBrace => Ok(
                            (FuncDef::Function(Function { name: func_name, stmt: statement }), j + 1),
                        ),
                        _ => Err(SyntaxError::ExpectedCloseBrace),
                    }
                } else {
                    Err(SyntaxError::ExpectedCloseBrace)
                }
            },
            Err(e) => Err(e),
        }
    }
}

impl Program {
    /// Parses a whole program: one function definition, after which the
    /// token stream must be exhausted. A parsed program never holds a
    /// binary operation, and its unary operators number fewer than the
    /// tokens; the IR generator's precondition follows.
    pub fn parse(tokens: &Vec<Token>) -> (r: Result<Self, SyntaxError>)
        ensures
            match spec_parse_program(tokens_view(tokens@)) {
                Ok(pv) => r matches Ok(p) && p@ == pv,
                Err(e) => r matches Err(g) && g == e,
            },
            r matches Ok(p) ==> (unary_count(program_expr(p@)) < tokens@.len() && !has_binary(
                program_expr(p@),
            )),
    {
        proof {
            lemma_spec_parse_program_props(tokens_view(tokens@));
        }
        let n = tokens.len();
        match FuncDef::parse(tokens, 0) {
            Ok((fd, j)) => {
                if j == n {
                    Ok(Program::Program(fd))
                } else {
                    Err(SyntaxError::UnexpectedTrailingTokens)
                }
            },
            Err(e) => Err(e),
        }
    }
}

} // verus!
