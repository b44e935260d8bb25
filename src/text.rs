//! The text that each syntax node renders to, as spec functions over `Seq<char>`.
use vstd::prelude::*;
use crate::ast::{
    Block, BType, CompUnit, Decl, FuncParam, Foreach, GlobalItem, If, MulExp, Op, PrimaryExp,
    RVal, Stmt, UnaryExp, ValValue, While,
};

verus! {

/// The target spelling of a binary operator.
pub open spec fn op_text(op: Op) -> Seq<char> {
    match op {
        Op::add => "+"@,
        Op::sub => "-"@,
        Op::mul => "*"@,
        Op::div => "/"@,
        Op::or => "||"@,
        Op::and => "&&"@,
        Op::gt => ">"@,
        Op::ge => ">="@,
        Op::lt => "<"@,
        Op::le => "<="@,
        Op::eq => "=="@,
        Op::neq => "!="@,
    }
}

/// The decimal digit character for `d` in `0..10`.
pub open spec fn digit_char(d: nat) -> char {
    if d == 0 { '0' }
    else if d == 1 { '1' }
    else if d == 2 { '2' }
    else if d == 3 { '3' }
    else if d == 4 { '4' }
    else if d == 5 { '5' }
    else if d == 6 { '6' }
    else if d == 7 { '7' }
    else if d == 8 { '8' }
    else { '9' }
}

/// Decimal digits of a natural number, most significant first, no leading zeros.
pub open spec fn nat_digits(n: nat) -> Seq<char>
    decreases n,
{
    if n < 10 {
        seq![digit_char(n)]
    } else {
        nat_digits(n / 10) + seq![digit_char(n % 10)]
    }
}

/// Decimal text of an integer, with a leading `-` when negative.
pub open spec fn decimal_text(n: int) -> Seq<char> {
    if n < 0 {
        seq!['-'] + nat_digits((-n) as nat)
    } else {
        nat_digits(n as nat)
    }
}

pub open spec fn primary_text(p: PrimaryExp) -> Seq<char>
    decreases p,
{
    match p {
        PrimaryExp::Number(n) => decimal_text(n as int),
        PrimaryExp::LVal(v) => v.id@,
        PrimaryExp::RVal(r) => rval_text(r),
    }
}

/// A name followed by one bracket group per index, in order.
pub open spec fn rval_text(r: RVal) -> Seq<char>
    decreases r,
{
    r.id@ + index_text(r.indices@)
}

pub open spec fn index_text(es: Seq<MulExp>) -> Seq<char>
    decreases es,
{
    if es.len() == 0 {
        Seq::empty()
    } else {
        index_text(es.subrange(0, es.len() - 1)) + "["@ + exp_text(es[es.len() - 1]) + "]"@
    }
}

/// A call renders with a trailing terminator of its own.
pub open spec fn unary_text(u: UnaryExp) -> Seq<char>
    decreases u,
{
    match u {
        UnaryExp::Primary(p) => primary_text(p),
        UnaryExp::Call(f) => f.id@ + "("@ + args_text(f.args@) + ");"@,
    }
}

/// Expressions separated by commas.
pub open spec fn args_text(es: Seq<MulExp>) -> Seq<char>
    decreases es,
{
    if es.len() == 0 {
        Seq::empty()
    } else if es.len() == 1 {
        exp_text(es[0])
    } else {
        args_text(es.subrange(0, es.len() - 1)) + ","@ + exp_text(es[es.len() - 1])
    }
}

/// Left operand, operator, right operand: no spaces, no parentheses.
pub open spec fn exp_text(e: MulExp) -> Seq<char>
    decreases e,
{
    match e {
        MulExp::Unary(u) => unary_text(u),
        MulExp::MulUnary(l, op, u) => exp_text(*l) + op_text(op) + unary_text(u),
    }
}

pub open spec fn value_text(v: ValValue) -> Seq<char>
    decreases v,
{
    match v {
        ValValue::Exp(e) => exp_text(e),
        ValValue::List(vs) => "["@ + values_text(vs@) + "]"@,
    }
}

/// Values separated by commas.
pub open spec fn values_text(vs: Seq<ValValue>) -> Seq<char>
    decreases vs,
{
    if vs.len() == 0 {
        Seq::empty()
    } else if vs.len() == 1 {
        value_text(vs[0])
    } else {
        values_text(vs.subrange(0, vs.len() - 1)) + ","@ + value_text(vs[vs.len() - 1])
    }
}

/// The binding keyword: none for the erasure tag `Never`.
pub open spec fn binding_text(t: BType) -> Seq<char> {
    if t == BType::Never { Seq::empty() } else { "let "@ }
}

pub open spec fn init_text(v: Option<ValValue>) -> Seq<char> {
    match v {
        Some(v) => "="@ + value_text(v),
        None => Seq::empty(),
    }
}

pub open spec fn decl_text(d: Decl) -> Seq<char> {
    binding_text(d.btype) + d.lval.id@ + init_text(d.exp) + ";"@
}

/// The text with one trailing `;` removed, if it ends in one.
pub open spec fn strip_terminator(s: Seq<char>) -> Seq<char> {
    if s.len() > 0 && s[s.len() - 1] == ';' {
        s.subrange(0, s.len() - 1)
    } else {
        s
    }
}

pub open spec fn stmt_text(s: Stmt) -> Seq<char>
    decreases s,
{
    match s {
        Stmt::Return(e) => "return "@ + exp_text(e) + ";"@,
        Stmt::Decl(d) => decl_text(d),
        Stmt::Assign(a) => rval_text(a.rval) + "="@ + value_text(a.exp) + ";"@,
        Stmt::Block(b) => "{"@ + block_text(b) + "}"@,
        Stmt::If(i) => if_text(*i),
        Stmt::While(w) => while_text(*w),
        Stmt::Continue => "continue;"@,
        Stmt::Break => "break;"@,
        Stmt::Exp(o) => match o {
            Some(e) => exp_text(e),
            None => Seq::empty(),
        },
        Stmt::Foreach(f) => foreach_text(*f),
    }
}

pub open spec fn stmts_text(ss: Seq<Stmt>) -> Seq<char>
    decreases ss,
{
    if ss.len() == 0 {
        Seq::empty()
    } else {
        stmts_text(ss.subrange(0, ss.len() - 1)) + stmt_text(ss[ss.len() - 1])
    }
}

pub open spec fn block_text(b: Block) -> Seq<char>
    decreases b,
{
    "{"@ + stmts_text(b.items@) + "}"@
}

/// `if(cond)`, then the then-branch, then the else-branch.
pub open spec fn if_text(i: If) -> Seq<char>
    decreases i,
{
    "if("@ + exp_text(i.cond) + ")"@ + branch_text(i.then_stmt) + else_text(i.else_then)
}

/// A block branch renders as its block; any other branch renders nothing.
pub open spec fn branch_text(s: Stmt) -> Seq<char>
    decreases s,
{
    match s {
        Stmt::Block(b) => block_text(b),
        _ => Seq::empty(),
    }
}

/// `else{..}` for a block, `else if..` for a chained conditional, nothing otherwise.
pub open spec fn else_text(e: Option<Stmt>) -> Seq<char>
    decreases e,
{
    match e {
        Some(Stmt::Block(b)) => "else"@ + block_text(b),
        Some(Stmt::If(j)) => "else "@ + if_text(*j),
        _ => Seq::empty(),
    }
}

/// A loop with a block body; nothing at all for any other body.
pub open spec fn while_text(w: While) -> Seq<char>
    decreases w,
{
    match w.block {
        Stmt::Block(b) => "while("@ + exp_text(w.cond) + ")"@ + block_text(b),
        _ => Seq::empty(),
    }
}

/// A loop with a block body; nothing at all for any other body.
pub open spec fn foreach_text(f: Foreach) -> Seq<char>
    decreases f,
{
    match f.block {
        Stmt::Block(b) => "for(let "@ + f.id@ + " of "@ + strip_terminator(exp_text(f.array))
            + ")"@ + block_text(b),
        _ => Seq::empty(),
    }
}

/// Parameter names separated by commas.
pub open spec fn params_text(ps: Seq<FuncParam>) -> Seq<char>
    decreases ps.len(),
{
    if ps.len() == 0 {
        Seq::empty()
    } else if ps.len() == 1 {
        ps[0].id@
    } else {
        params_text(ps.subrange(0, ps.len() - 1)) + ","@ + ps[ps.len() - 1].id@
    }
}

pub open spec fn global_text(g: GlobalItem) -> Seq<char> {
    match g {
        GlobalItem::Decl(s) => stmt_text(s),
        GlobalItem::FuncDef(f) => "function "@ + f.ident@ + "("@ + params_text(f.params@) + ")"@
            + block_text(f.block),
    }
}

pub open spec fn globals_text(gs: Seq<GlobalItem>) -> Seq<char>
    decreases gs.len(),
{
    if gs.len() == 0 {
        Seq::empty()
    } else {
        globals_text(gs.subrange(0, gs.len() - 1)) + global_text(gs[gs.len() - 1])
    }
}

/// The text of a whole program: its items' texts, in order, with no separators.
pub open spec fn unit_text(u: CompUnit) -> Seq<char> {
    globals_text(u.items@)
}

} // verus!
