//! Syntax tree of the source language, as handed over by the parser.
use vstd::prelude::*;

verus! {

/// A whole program: its top-level items, in source order.
#[derive(Debug)]
pub struct CompUnit {
    pub items: Vec<GlobalItem>,
}

/// A top-level item: a declaration or a function definition.
#[derive(Debug)]
pub enum GlobalItem {
    Decl(Stmt),
    FuncDef(FuncDef),
}

/// A named function with its parameters and body.
#[derive(Debug)]
pub struct FuncDef {
    pub func_type: BType,
    pub ident: String,
    pub params: Vec<FuncParam>,
    pub block: Block,
}

/// One formal parameter; its type tag is erased in the output.
#[derive(Debug)]
pub struct FuncParam {
    pub btype: BType,
    pub id: String,
}

/// A call of a named function with its argument expressions.
#[derive(Debug)]
pub struct FuncCall {
    pub id: String,
    pub args: Vec<MulExp>,
}

/// An ordered sequence of statements.
#[derive(Debug)]
pub struct Block {
    pub items: Vec<Stmt>,
}

#[derive(Debug)]
pub enum Stmt {
    Return(MulExp),
    Decl(Decl),
    Assign(Assign),
    Block(Block),
    If(Box<If>),
    While(Box<While>),
    Continue,
    Break,
    Exp(Option<MulExp>),
    Foreach(Box<Foreach>),
}

#[derive(Debug)]
pub enum PrimaryExp {
    Number(i32),
    LVal(LVal),
    RVal(RVal),
}

/// A variable declaration; `BType::Never` means that no binding keyword is emitted.
#[derive(Debug)]
pub struct Decl {
    pub btype: BType,
    pub lval: LVal,
    pub exp: Option<ValValue>,
}

/// An assignment to a name, possibly through index expressions.
#[derive(Debug)]
pub struct Assign {
    pub rval: RVal,
    pub exp: ValValue,
}

/// A bare name.
#[derive(Debug)]
pub struct LVal {
    pub id: String,
}

/// A name followed by zero or more index expressions.
#[derive(Debug)]
pub struct RVal {
    pub id: String,
    pub indices: Vec<MulExp>,
}

/// A single expression, or a (possibly nested) array literal.
#[derive(Debug)]
pub enum ValValue {
    Exp(MulExp),
    List(Vec<ValValue>),
}

#[derive(Debug)]
pub enum UnaryExp {
    Primary(PrimaryExp),
    Call(FuncCall),
}

/// A left-nested chain of unary terms joined by binary operators.
#[derive(Debug)]
pub enum MulExp {
    Unary(UnaryExp),
    MulUnary(Box<MulExp>, Op, UnaryExp),
}

#[allow(non_camel_case_types)]
#[derive(Debug, Clone, Copy, PartialEq, Eq, Structural)]
pub enum Op {
    add,
    sub,
    mul,
    div,
    or,
    and,
    gt,
    ge,
    lt,
    le,
    eq,
    neq,
}

#[derive(Debug, Clone, Copy, PartialEq, Eq, Structural)]
pub enum BType {
    Int,
    Float,
    Char,
    Double,
    Bool,
    Void,
    Never,
}

/// A conditional; only block branches and `else if` chains are rendered.
#[derive(Debug)]
pub struct If {
    pub cond: MulExp,
    pub then_stmt: Stmt,
    pub else_then: Option<Stmt>,
}

/// A loop; only a block body is rendered.
#[derive(Debug)]
pub struct While {
    pub cond: MulExp,
    pub block: Stmt,
}

/// Iteration of a bound name over a collection; only a block body is rendered.
#[derive(Debug)]
pub struct Foreach {
    pub btype: BType,
    pub id: String,
    pub array: MulExp,
    pub block: Stmt,
}

} // verus!
