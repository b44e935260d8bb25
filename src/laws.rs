//! General properties of the generated text, proved over the spec model.
use vstd::prelude::*;
use crate::ast::{Assign, BType, Decl, MulExp, Op, Stmt, UnaryExp, ValValue};
use crate::text::{
    block_text, else_text, exp_text, index_text, init_text, op_text, rval_text, stmt_text,
    strip_terminator, unary_text, value_text, values_text,
};

verus! {

/// The unary terms of a left-nested chain, left to right.
pub open spec fn chain_units(e: MulExp) -> Seq<UnaryExp>
    decreases e,
{
    match e {
        MulExp::Unary(u) => seq![u],
        MulExp::MulUnary(l, _, u) => chain_units(*l).push(u),
    }
}

/// The operators of a left-nested chain, left to right.
pub open spec fn chain_ops(e: MulExp) -> Seq<Op>
    decreases e,
{
    match e {
        MulExp::Unary(_) => Seq::empty(),
        MulExp::MulUnary(l, op, _) => chain_ops(*l).push(op),
    }
}

/// The pieces that follow the first term of a chain: each operator with the term after it.
pub open spec fn chain_tail_pieces(units: Seq<UnaryExp>, ops: Seq<Op>) -> Seq<Seq<char>> {
    Seq::new(ops.len(), |k: int| op_text(ops[k]) + unary_text(units[k + 1]))
}

/// One bracket group per index expression.
pub open spec fn bracket_groups(es: Seq<MulExp>) -> Seq<Seq<char>> {
    es.map_values(|e: MulExp| "["@ + exp_text(e) + "]"@)
}

/// `n` copies of `c`.
pub open spec fn repeat_char(c: char, n: nat) -> Seq<char> {
    Seq::new(n, |k: int| c)
}

/// A declaration with a binding type and an initializer renders as
/// `let <name>=<value>;`.
pub proof fn lemma_decl_with_binding(d: Decl)
    requires
        d.btype != BType::Never,
        d.exp is Some,
    ensures
        stmt_text(Stmt::Decl(d)) == "let "@ + d.lval.id@ + "="@ + value_text(d.exp->Some_0) + ";"@,
{
    assert(stmt_text(Stmt::Decl(d)) =~= "let "@ + d.lval.id@ + "="@ + value_text(d.exp->Some_0)
        + ";"@);
}

/// A declaration with the erasure tag renders with no binding keyword at all:
/// just the name, the optional initializer and the terminator.
pub proof fn lemma_decl_without_binding(d: Decl)
    requires
        d.btype == BType::Never,
    ensures
        stmt_text(Stmt::Decl(d)) == d.lval.id@ + init_text(d.exp) + ";"@,
{
    assert(stmt_text(Stmt::Decl(d)) =~= d.lval.id@ + init_text(d.exp) + ";"@);
}

/// The index part of a reference is its bracket groups, one per index, in order.
pub proof fn lemma_index_text_groups(es: Seq<MulExp>)
    ensures
        index_text(es) == bracket_groups(es).flatten(),
        bracket_groups(es).len() == es.len(),
    decreases es.len(),
{
    if es.len() > 0 {
        let init = es.subrange(0, es.len() - 1);
        lemma_index_text_groups(init);
        assert(bracket_groups(es) =~= bracket_groups(init).push(
            "["@ + exp_text(es[es.len() - 1]) + "]"@,
        ));
        bracket_groups(init).lemma_flatten_push("["@ + exp_text(es[es.len() - 1]) + "]"@);
        assert(index_text(es) =~= bracket_groups(es).flatten());
    } else {
        assert(bracket_groups(es).flatten() =~= Seq::empty());
    }
}

/// An assignment with N index expressions renders the name, exactly N bracket
/// groups in the order of the indices, then `=<value>;`.
pub proof fn lemma_assign_brackets(a: Assign)
    ensures
        bracket_groups(a.rval.indices@).len() == a.rval.indices@.len(),
        forall|k: int|
            0 <= k < a.rval.indices@.len() ==> #[trigger] bracket_groups(a.rval.indices@)[k] == "["@
                + exp_text(a.rval.indices@[k]) + "]"@,
        stmt_text(Stmt::Assign(a)) == a.rval.id@ + bracket_groups(a.rval.indices@).flatten() + "="@
            + value_text(a.exp) + ";"@,
{
    lemma_index_text_groups(a.rval.indices@);
    assert(rval_text(a.rval) == a.rval.id@ + index_text(a.rval.indices@));
}

/// A left-nested chain of K terms renders as its first term followed by K-1
/// pieces, each an operator's fixed spelling and the next term: no spaces and
/// no parentheses are inserted.
pub proof fn lemma_chain_text(e: MulExp)
    ensures
        chain_units(e).len() == chain_ops(e).len() + 1,
        exp_text(e) == unary_text(chain_units(e)[0]) + chain_tail_pieces(
            chain_units(e),
            chain_ops(e),
        ).flatten(),
    decreases e,
{
    match e {
        MulExp::Unary(u) => {
            assert(chain_tail_pieces(chain_units(e), chain_ops(e)) =~= Seq::<Seq<char>>::empty());
            assert(exp_text(e) =~= unary_text(chain_units(e)[0]) + Seq::<char>::empty());
        },
        MulExp::MulUnary(l, op, u) => {
            lemma_chain_text(*l);
            let us = chain_units(*l);
            let os = chain_ops(*l);
            let last = op_text(op) + unary_text(u);
            assert(chain_tail_pieces(chain_units(e), chain_ops(e)) =~= chain_tail_pieces(
                us,
                os,
            ).push(last));
            chain_tail_pieces(us, os).lemma_flatten_push(last);
            assert(chain_units(e)[0] == us[0]);
            assert(exp_text(e) =~= unary_text(chain_units(e)[0]) + chain_tail_pieces(
                chain_units(e),
                chain_ops(e),
            ).flatten());
        },
    }
}

/// A list value nested D levels deep, each level a one-element list around the
/// next, renders inside D opening and D closing brackets.
pub proof fn lemma_nested_list_brackets(vals: Seq<ValValue>)
    requires
        vals.len() >= 1,
        forall|k: int|
            0 <= k < vals.len() - 1 ==> (#[trigger] vals[k] is List && vals[k]->List_0@
                == seq![vals[k + 1]]),
    ensures
        value_text(vals[0]) == repeat_char('[', (vals.len() - 1) as nat) + value_text(
            vals[vals.len() - 1],
        ) + repeat_char(']', (vals.len() - 1) as nat),
    decreases vals.len(),
{
    let d = (vals.len() - 1) as nat;
    if d == 0 {
        assert(value_text(vals[0]) =~= repeat_char('[', 0) + value_text(vals[0]) + repeat_char(
            ']',
            0,
        ));
    } else {
        let rest = vals.drop_first();
        assert forall|k: int| 0 <= k < rest.len() - 1 implies (#[trigger] rest[k] is List
            && rest[k]->List_0@ == seq![rest[k + 1]]) by {
            assert(vals[k + 1] is List);
        }
        lemma_nested_list_brackets(rest);
        assert(vals[0] is List);
        let inner = vals[0]->List_0@;
        assert(inner == seq![vals[1]]);
        assert(values_text(inner) == value_text(inner[0]));
        reveal_strlit("[");
        reveal_strlit("]");
        assert(rest[rest.len() - 1] == vals[vals.len() - 1]);
        assert(value_text(vals[0]) =~= repeat_char('[', d) + value_text(vals[vals.len() - 1])
            + repeat_char(']', d));
    }
}

/// A block always renders as a non-empty `{...}`.
pub proof fn lemma_block_text_nonempty(b: crate::ast::Block)
    ensures
        block_text(b).len() >= 2,
        block_text(b)[0] == '{',
        block_text(b)[block_text(b).len() - 1] == '}',
{
    reveal_strlit("{");
    reveal_strlit("}");
}

/// A conditional with a block then-branch renders that (non-empty) block right
/// after its condition; with any other then-branch nothing stands between the condition
/// and the else part.
pub proof fn lemma_if_body(s: Stmt)
    requires
        s is If,
    ensures
        (s->If_0).then_stmt is Block ==> stmt_text(s) == "if("@ + exp_text((s->If_0).cond) + ")"@
            + block_text((s->If_0).then_stmt->Block_0) + else_text((s->If_0).else_then),
        !((s->If_0).then_stmt is Block) ==> stmt_text(s) == "if("@ + exp_text((s->If_0).cond)
            + ")"@ + else_text((s->If_0).else_then),
        (s->If_0).then_stmt is Block ==> block_text((s->If_0).then_stmt->Block_0).len() >= 2,
{
    let i = s->If_0;
    if i.then_stmt is Block {
        lemma_block_text_nonempty(i.then_stmt->Block_0);
    }
    if !(i.then_stmt is Block) {
        assert(stmt_text(s) =~= "if("@ + exp_text(i.cond) + ")"@ + else_text(i.else_then));
    }
}

/// A while loop with a block body renders `while(cond)` and the (non-empty) block; with any
/// other body it renders nothing.
pub proof fn lemma_while_body(s: Stmt)
    requires
        s is While,
    ensures
        (s->While_0).block is Block ==> stmt_text(s) == "while("@ + exp_text((s->While_0).cond)
            + ")"@ + block_text((s->While_0).block->Block_0),
        !((s->While_0).block is Block) ==> stmt_text(s) == Seq::<char>::empty(),
        (s->While_0).block is Block ==> block_text((s->While_0).block->Block_0).len() >= 2,
{
    if (s->While_0).block is Block {
        lemma_block_text_nonempty((s->While_0).block->Block_0);
    }
}

/// A for-each loop with a block body renders its header and the (non-empty) block; with any
/// other body it renders nothing.
pub proof fn lemma_foreach_body(s: Stmt)
    requires
        s is Foreach,
    ensures
        (s->Foreach_0).block is Block ==> stmt_text(s) == "for(let "@ + (s->Foreach_0).id@
            + " of "@ + strip_terminator(exp_text((s->Foreach_0).array)) + ")"@ + block_text(
            (s->Foreach_0).block->Block_0,
        ),
        !((s->Foreach_0).block is Block) ==> stmt_text(s) == Seq::<char>::empty(),
        (s->Foreach_0).block is Block ==> block_text((s->Foreach_0).block->Block_0).len() >= 2,
{
    if (s->Foreach_0).block is Block {
        lemma_block_text_nonempty((s->Foreach_0).block->Block_0);
    }
}

} // verus!
