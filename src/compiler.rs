//! Tree-walking generator: renders a syntax tree as script text.
use vstd::prelude::*;
use crate::ast::{
    Block, BType, CompUnit, FuncDef, Foreach, GlobalItem, If, MulExp, Op, PrimaryExp, RVal, Stmt,
    UnaryExp, ValValue, While,
};
use crate::text::{
    args_text, block_text, decimal_text, digit_char, exp_text, foreach_text, global_text,
    globals_text, if_text, index_text, nat_digits, op_text, params_text, primary_text, rval_text,
    stmt_text, stmts_text, strip_terminator, unary_text, unit_text, value_text, values_text,
    while_text,
};

verus! {

/// Renders a whole program: the text of each top-level item, in order.
pub fn compile(ast: CompUnit) -> (r: String)
    ensures
        r@ == unit_text(ast),
{
    let mut result = String::new();
    let mut i: usize = 0;
    while i < ast.items.len()
        invariant
            i <= ast.items@.len(),
            result@ == globals_text(ast.items@.subrange(0, i as int)),
        decreases ast.items@.len() - i,
    {
        compile_global_item(&mut result, &ast.items[i]);
        proof {
            let s = ast.items@.subrange(0, i + 1);
            assert(s.subrange(0, i as int) =~= ast.items@.subrange(0, i as int));
        }
        i += 1;
    }
    proof {
        assert(ast.items@.subrange(0, ast.items@.len() as int) =~= ast.items@);
    }
    result
}

fn compile_global_item(out: &mut String, item: &GlobalItem)
    ensures
        final(out)@ == old(out)@ + global_text(*item),
{
    match item {
        GlobalItem::Decl(stmt) => {
            compile_stmt(out, stmt);
        },
        GlobalItem::FuncDef(func) => {
            compile_func_def(out, func);
        },
    }
}

fn compile_func_def(out: &mut String, func: &FuncDef)
    ensures
        final(out)@ == old(out)@ + "function "@ + func.ident@ + "("@ + params_text(func.params@)
            + ")"@ + block_text(func.block),
{
    let ghost start = out@;
    out.append("function ");
    out.append(func.ident.as_str());
    out.append("(");
    let mut i: usize = 0;
    while i < func.params.len()
        invariant
            i <= func.params@.len(),
            out@ == start + "function "@ + func.ident@ + "("@ + params_text(
                func.params@.subrange(0, i as int),
            ),
        decreases func.params@.len() - i,
    {
        if i > 0 {
            out.append(",");
        }
        out.append(func.params[i].id.as_str());
        proof {
            let s = func.params@.subrange(0, i + 1);
            assert(s.subrange(0, i as int) =~= func.params@.subrange(0, i as int));
        }
        i += 1;
    }
    proof {
        assert(func.params@.subrange(0, func.params@.len() as int) =~= func.params@);
    }
    out.append(")");
    compile_block(out, &func.block);
}

fn compile_block(out: &mut String, block: &Block)
    ensures
        final(out)@ == old(out)@ + block_text(*block),
    decreases block,
{
    let ghost start = out@;
    out.append("{");
    let mut i: usize = 0;
    while i < block.items.len()
        invariant
            i <= block.items@.len(),
            out@ == start + "{"@ + stmts_text(block.items@.subrange(0, i as int)),
        decreases block.items@.len() - i,
    {
        compile_stmt(out, &block.items[i]);
        proof {
            let s = block.items@.subrange(0, i + 1);
            assert(s.subrange(0, i as int) =~= block.items@.subrange(0, i as int));
        }
        i += 1;
    }
    proof {
        assert(block.items@.subrange(0, block.items@.len() as int) =~= block.items@);
    }
    out.append("}");
}

fn compile_stmt(out: &mut String, stmt: &Stmt)
    ensures
        final(out)@ == old(out)@ + stmt_text(*stmt),
    decreases stmt,
{
    match stmt {
        Stmt::Return(value) => {
            out.append("return ");
            compile_exp(out, value);
            out.append(";");
        },
        Stmt::Decl(decl) => {
            if decl.btype != BType::Never {
                out.append("let ");
            }
            out.append(decl.lval.id.as_str());
            match &decl.exp {
                Some(value) => {
                    out.append("=");
                    compile_val_value(out, value);
                },
                None => {},
            }
            out.append(";");
        },
        Stmt::Assign(assign) => {
            compile_rval(out, &assign.rval);
            out.append("=");
            compile_val_value(out, &assign.exp);
            out.append(";");
        },
        Stmt::Block(block) => {
            out.append("{");
            compile_block(out, block);
            out.append("}");
        },
        Stmt::If(value) => {
            compile_if(out, value);
        },
        Stmt::While(value) => {
            compile_while(out, value);
        },
        Stmt::Continue => {
            out.append("continue;");
        },
        Stmt::Break => {
            out.append("break;");
        },
        Stmt::Exp(exp) => {
            if let Some(exp) = exp {
                compile_exp(out, exp);
            }
        },
        Stmt::Foreach(foreach) => {
            compile_foreach(out, foreach);
        },
    }
}

fn compile_exp(out: &mut String, exp: &MulExp)
    ensures
        final(out)@ == old(out)@ + exp_text(*exp),
    decreases exp,
{
    match exp {
        MulExp::Unary(unary) => {
            compile_unary(out, unary);
        },
        MulExp::MulUnary(mul, op, unary) => {
            compile_exp(out, mul);
            out.append(match_op(op));
            compile_unary(out, unary);
        },
    }
}

fn match_op(op: &Op) -> (r: &'static str)
    ensures
        r@ == op_text(*op),
{
    match op {
        Op::add => "+",
        Op::sub => "-",
        Op::mul => "*",
        Op::div => "/",
        Op::or => "||",
        Op::and => "&&",
        Op::gt => ">",
        Op::ge => ">=",
        Op::lt => "<",
        Op::le => "<=",
        Op::eq => "==",
        Op::neq => "!=",
    }
}

fn digit_str(d: u32) -> (r: &'static str)
    requires
        d < 10,
    ensures
        r@ == seq![digit_char(d as nat)],
{
    proof {
        reveal_strlit("0");
        reveal_strlit("1");
        reveal_strlit("2");
        reveal_strlit("3");
        reveal_strlit("4");
        reveal_strlit("5");
        reveal_strlit("6");
        reveal_strlit("7");
        reveal_strlit("8");
        reveal_strlit("9");
    }
    if d == 0 {
        "0"
    } else if d == 1 {
        "1"
    } else if d == 2 {
        "2"
    } else if d == 3 {
        "3"
    } else if d == 4 {
        "4"
    } else if d == 5 {
        "5"
    } else if d == 6 {
        "6"
    } else if d == 7 {
        "7"
    } else if d == 8 {
        "8"
    } else {
        "9"
    }
}

fn append_digits(out: &mut String, n: u32)
    ensures
        final(out)@ == old(out)@ + nat_digits(n as nat),
    decreases n,
{
    if n >= 10 {
        append_digits(out, n / 10);
    }
    out.append(digit_str(n % 10));
    proof {
        if n >= 10 {
            assert(nat_digits(n as nat) == nat_digits((n / 10) as nat) + seq![digit_char((n % 10) as nat)]);
        }
    }
}

/// Appends the decimal text of `n`.
fn append_decimal(out: &mut String, n: i32)
    ensures
        final(out)@ == old(out)@ + decimal_text(n as int),
{
    if n < 0 {
        proof {
            reveal_strlit("-");
        }
        out.append("-");
        let m: u32 = (-(n as i64)) as u32;
        append_digits(out, m);
        assert(out@ =~= old(out)@ + decimal_text(n as int));
    } else {
        append_digits(out, n as u32);
    }
}

fn match_primary(out: &mut String, primary: &PrimaryExp)
    ensures
        final(out)@ == old(out)@ + primary_text(*primary),
    decreases primary,
{
    match primary {
        PrimaryExp::Number(num) => append_decimal(out, *num),
        PrimaryExp::LVal(val) => out.append(val.id.as_str()),
        PrimaryExp::RVal(val) => compile_rval(out, val),
    }
}

fn compile_rval(out: &mut String, rval: &RVal)
    ensures
        final(out)@ == old(out)@ + rval_text(*rval),
    decreases rval,
{
    let ghost start = out@;
    out.append(rval.id.as_str());
    let mut i: usize = 0;
    while i < rval.indices.len()
        invariant
            i <= rval.indices@.len(),
            out@ == start + rval.id@ + index_text(rval.indices@.subrange(0, i as int)),
        decreases rval.indices@.len() - i,
    {
        out.append("[");
        compile_exp(out, &rval.indices[i]);
        out.append("]");
        proof {
            let s = rval.indices@.subrange(0, i + 1);
            assert(s.subrange(0, i as int) =~= rval.indices@.subrange(0, i as int));
        }
        i += 1;
    }
    proof {
        assert(rval.indices@.subrange(0, rval.indices@.len() as int) =~= rval.indices@);
    }
}

fn compile_if(out: &mut String, value: &If)
    ensures
        final(out)@ == old(out)@ + if_text(*value),
    decreases value,
{
    let ghost start = out@;
    out.append("if(");
    compile_exp(out, &value.cond);
    out.append(")");
    if let Stmt::Block(block) = &value.then_stmt {
        compile_block(out, block);
    }
    match &value.else_then {
        Some(Stmt::Block(block)) => {
            out.append("else");
            compile_block(out, block);
        },
        Some(Stmt::If(next)) => {
            out.append("else ");
            compile_if(out, next);
        },
        _ => {},
    }
    assert(out@ =~= start + if_text(*value));
}

fn compile_while(out: &mut String, value: &While)
    ensures
        final(out)@ == old(out)@ + while_text(*value),
    decreases value,
{
    if let Stmt::Block(block) = &value.block {
        out.append("while(");
        compile_exp(out, &value.cond);
        out.append(")");
        compile_block(out, block);
    }
}

fn compile_foreach(out: &mut String, value: &Foreach)
    ensures
        final(out)@ == old(out)@ + foreach_text(*value),
    decreases value,
{
    if let Stmt::Block(block) = &value.block {
        let mut arr = String::new();
        compile_exp(&mut arr, &value.array);
        out.append("for(let ");
        out.append(value.id.as_str());
        out.append(" of ");
        let s = arr.as_str();
        let n = s.unicode_len();
        if n > 0 && s.get_char(n - 1) == ';' {
            out.append(s.substring_char(0, n - 1));
        } else {
            out.append(s);
        }
        out.append(")");
        compile_block(out, block);
    }
}

fn compile_unary(out: &mut String, value: &UnaryExp)
    ensures
        final(out)@ == old(out)@ + unary_text(*value),
    decreases value,
{
    match value {
        UnaryExp::Primary(primary) => {
            match_primary(out, primary);
        },
        UnaryExp::Call(func) => {
            out.append(func.id.as_str());
            out.append("(");
            compile_args(out, &func.args);
            out.append(");");
        },
    }
}

/// Appends the argument expressions, separated by commas.
fn compile_args(out: &mut String, args: &Vec<MulExp>)
    ensures
        final(out)@ == old(out)@ + args_text(args@),
    decreases args,
{
    let ghost start = out@;
    let mut i: usize = 0;
    while i < args.len()
        invariant
            i <= args@.len(),
            out@ == start + args_text(args@.subrange(0, i as int)),
        decreases args@.len() - i,
    {
        if i > 0 {
            out.append(",");
        }
        compile_exp(out, &args[i]);
        proof {
            let s = args@.subrange(0, i + 1);
            assert(s.subrange(0, i as int) =~= args@.subrange(0, i as int));
        }
        i += 1;
    }
    proof {
        assert(args@.subrange(0, args@.len() as int) =~= args@);
    }
}

fn compile_val_value(out: &mut String, list: &ValValue)
    ensures
        final(out)@ == old(out)@ + value_text(*list),
    decreases list,
{
    match list {
        ValValue::Exp(exp) => {
            compile_exp(out, exp);
        },
        ValValue::List(values) => {
            out.append("[");
            compile_values(out, values);
            out.append("]");
        },
    }
}

/// Appends the values, separated by commas.
fn compile_values(out: &mut String, values: &Vec<ValValue>)
    ensures
        final(out)@ == old(out)@ + values_text(values@),
    decreases values,
{
    let ghost start = out@;
    let mut i: usize = 0;
    while i < values.len()
        invariant
            i <= values@.len(),
            out@ == start + values_text(values@.subrange(0, i as int)),
        decreases values@.len() - i,
    {
        if i > 0 {
            out.append(",");
        }
        compile_val_value(out, &values[i]);
        proof {
            let s = values@.subrange(0, i + 1);
            assert(s.subrange(0, i as int) =~= values@.subrange(0, i as int));
        }
        i += 1;
    }
    proof {
        assert(values@.subrange(0, values@.len() as int) =~= values@);
    }
}

} // verus!
