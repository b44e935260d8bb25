use transpiler::ast::{
    Assign, BType, Block, CompUnit, Decl, FuncCall, FuncDef, FuncParam, Foreach, GlobalItem, If,
    LVal, MulExp, Op, PrimaryExp, RVal, Stmt, UnaryExp, ValValue, While,
};
use transpiler::compiler::compile;

fn num_u(n: i32) -> UnaryExp {
    UnaryExp::Primary(PrimaryExp::Number(n))
}

fn name_u(s: &str) -> UnaryExp {
    UnaryExp::Primary(PrimaryExp::LVal(LVal { id: s.to_string() }))
}

fn num(n: i32) -> MulExp {
    MulExp::Unary(num_u(n))
}

fn name(s: &str) -> MulExp {
    MulExp::Unary(name_u(s))
}

fn call_u(f: &str, args: Vec<MulExp>) -> UnaryExp {
    UnaryExp::Call(FuncCall { id: f.to_string(), args })
}

fn call(f: &str, args: Vec<MulExp>) -> MulExp {
    MulExp::Unary(call_u(f, args))
}

fn bin(l: MulExp, op: Op, r: UnaryExp) -> MulExp {
    MulExp::MulUnary(Box::new(l), op, r)
}

fn block(items: Vec<Stmt>) -> Block {
    Block { items }
}

fn render(s: Stmt) -> String {
    compile(CompUnit { items: vec![GlobalItem::Decl(s)] })
}

fn decl(btype: BType, id: &str, exp: Option<ValValue>) -> Stmt {
    Stmt::Decl(Decl { btype, lval: LVal { id: id.to_string() }, exp })
}

#[test]
fn scenario_declaration_with_binding() {
    let s = decl(BType::Int, "x", Some(ValValue::Exp(num(5))));
    assert_eq!(render(s), "let x=5;");
}

#[test]
fn scenario_indexed_assignment() {
    let s = Stmt::Assign(Assign {
        rval: RVal { id: "a".to_string(), indices: vec![num(0)] },
        exp: ValValue::Exp(num(9)),
    });
    assert_eq!(render(s), "a[0]=9;");
}

#[test]
fn scenario_function_main() {
    let f = FuncDef {
        func_type: BType::Int,
        ident: "main".to_string(),
        params: vec![],
        block: block(vec![Stmt::Return(num(0))]),
    };
    assert_eq!(compile(CompUnit { items: vec![GlobalItem::FuncDef(f)] }), "function main(){return 0;}");
}

#[test]
fn scenario_if_with_block_then() {
    let s = Stmt::If(Box::new(If {
        cond: bin(name("x"), Op::gt, num_u(0)),
        then_stmt: Stmt::Block(block(vec![Stmt::Return(num(1))])),
        else_then: None,
    }));
    assert_eq!(render(s), "if(x>0){return 1;}");
}

#[test]
fn scenario_foreach_over_range() {
    let s = Stmt::Foreach(Box::new(Foreach {
        btype: BType::Int,
        id: "i".to_string(),
        array: call("range", vec![num(0), num(5)]),
        block: Stmt::Block(block(vec![Stmt::Return(name("i"))])),
    }));
    assert_eq!(render(s), "for(let i of range(0,5)){return i;}");
}

#[test]
fn declaration_binding_for_every_non_erasure_tag() {
    for t in [BType::Int, BType::Float, BType::Char, BType::Double, BType::Bool, BType::Void] {
        let s = decl(t, "v", Some(ValValue::Exp(num(2))));
        assert_eq!(render(s), "let v=2;");
    }
}

#[test]
fn declaration_erasure_tag_omits_keyword() {
    assert_eq!(render(decl(BType::Never, "y", Some(ValValue::Exp(num(3))))), "y=3;");
    assert_eq!(render(decl(BType::Never, "y", None)), "y;");
}

#[test]
fn declaration_without_initializer() {
    assert_eq!(render(decl(BType::Int, "z", None)), "let z;");
}

#[test]
fn declaration_with_list_initializer() {
    let v = ValValue::List(vec![
        ValValue::Exp(num(1)),
        ValValue::List(vec![ValValue::Exp(num(2)), ValValue::Exp(num(3))]),
    ]);
    assert_eq!(render(decl(BType::Int, "a", Some(v))), "let a=[1,[2,3]];");
}

#[test]
fn assignment_with_two_indices_has_two_bracket_groups() {
    let s = Stmt::Assign(Assign {
        rval: RVal { id: "a".to_string(), indices: vec![name("i"), name("j")] },
        exp: ValValue::Exp(num(1)),
    });
    assert_eq!(render(s), "a[i][j]=1;");
}

#[test]
fn assignment_without_indices() {
    let s = Stmt::Assign(Assign {
        rval: RVal { id: "b".to_string(), indices: vec![] },
        exp: ValValue::Exp(bin(name("b"), Op::add, num_u(1))),
    });
    assert_eq!(render(s), "b=b+1;");
}

#[test]
fn chain_of_three_terms_has_two_operators() {
    let e = bin(bin(num(1), Op::add, num_u(2)), Op::mul, num_u(3));
    assert_eq!(render(Stmt::Return(e)), "return 1+2*3;");
}

#[test]
fn every_operator_spelling() {
    let table = [
        (Op::add, "+"),
        (Op::sub, "-"),
        (Op::mul, "*"),
        (Op::div, "/"),
        (Op::or, "||"),
        (Op::and, "&&"),
        (Op::gt, ">"),
        (Op::ge, ">="),
        (Op::lt, "<"),
        (Op::le, "<="),
        (Op::eq, "=="),
        (Op::neq, "!="),
    ];
    for (op, text) in table {
        let e = bin(name("a"), op, name_u("b"));
        assert_eq!(render(Stmt::Exp(Some(e))), format!("a{}b", text));
    }
}

#[test]
fn nested_list_depth_three() {
    let v = ValValue::List(vec![ValValue::List(vec![ValValue::List(vec![ValValue::Exp(num(7))])])]);
    assert_eq!(render(decl(BType::Int, "n", Some(v))), "let n=[[[7]]];");
}

#[test]
fn empty_list_value() {
    assert_eq!(render(decl(BType::Int, "e", Some(ValValue::List(vec![])))), "let e=[];");
}

#[test]
fn numbers_in_decimal() {
    assert_eq!(render(Stmt::Return(num(0))), "return 0;");
    assert_eq!(render(Stmt::Return(num(-42))), "return -42;");
    assert_eq!(render(Stmt::Return(num(i32::MIN))), "return -2147483648;");
    assert_eq!(render(Stmt::Return(num(i32::MAX))), "return 2147483647;");
    assert_eq!(render(Stmt::Return(num(1090))), "return 1090;");
}

#[test]
fn indexed_reference_in_expression() {
    let r = MulExp::Unary(UnaryExp::Primary(PrimaryExp::RVal(RVal {
        id: "m".to_string(),
        indices: vec![num(1), num(2)],
    })));
    assert_eq!(render(Stmt::Return(r)), "return m[1][2];");
    let bare = MulExp::Unary(UnaryExp::Primary(PrimaryExp::RVal(RVal {
        id: "m".to_string(),
        indices: vec![],
    })));
    assert_eq!(render(Stmt::Return(bare)), "return m;");
}

#[test]
fn call_self_terminates() {
    assert_eq!(render(Stmt::Exp(Some(call("print", vec![name("x")])))), "print(x);");
    let e = bin(call("f", vec![]), Op::add, num_u(1));
    assert_eq!(render(Stmt::Exp(Some(e))), "f();+1");
}

#[test]
fn empty_expression_statement() {
    assert_eq!(render(Stmt::Exp(None)), "");
}

#[test]
fn loop_control_statements() {
    assert_eq!(render(Stmt::Continue), "continue;");
    assert_eq!(render(Stmt::Break), "break;");
}

#[test]
fn nested_block_is_double_wrapped() {
    assert_eq!(render(Stmt::Block(block(vec![Stmt::Break]))), "{{break;}}");
}

#[test]
fn while_with_block_body() {
    let s = Stmt::While(Box::new(While {
        cond: bin(name("x"), Op::lt, num_u(3)),
        block: Stmt::Block(block(vec![Stmt::Break])),
    }));
    assert_eq!(render(s), "while(x<3){break;}");
}

#[test]
fn while_with_non_block_body_renders_nothing() {
    let s = Stmt::While(Box::new(While { cond: name("x"), block: Stmt::Break }));
    assert_eq!(render(s), "");
}

#[test]
fn if_with_non_block_then_drops_body() {
    let s = Stmt::If(Box::new(If { cond: name("x"), then_stmt: Stmt::Break, else_then: None }));
    assert_eq!(render(s), "if(x)");
}

#[test]
fn if_with_block_else() {
    let s = Stmt::If(Box::new(If {
        cond: name("x"),
        then_stmt: Stmt::Block(block(vec![])),
        else_then: Some(Stmt::Block(block(vec![Stmt::Continue]))),
    }));
    assert_eq!(render(s), "if(x){}else{continue;}");
}

#[test]
fn if_with_else_if_chain() {
    let inner = If {
        cond: name("b"),
        then_stmt: Stmt::Block(block(vec![Stmt::Return(num(2))])),
        else_then: Some(Stmt::Block(block(vec![Stmt::Return(num(3))]))),
    };
    let s = Stmt::If(Box::new(If {
        cond: name("a"),
        then_stmt: Stmt::Block(block(vec![Stmt::Return(num(1))])),
        else_then: Some(Stmt::If(Box::new(inner))),
    }));
    assert_eq!(render(s), "if(a){return 1;}else if(b){return 2;}else{return 3;}");
}

#[test]
fn if_with_non_block_else_drops_it() {
    let s = Stmt::If(Box::new(If {
        cond: name("a"),
        then_stmt: Stmt::Block(block(vec![])),
        else_then: Some(Stmt::Break),
    }));
    assert_eq!(render(s), "if(a){}");
}

#[test]
fn foreach_with_non_block_body_renders_nothing() {
    let s = Stmt::Foreach(Box::new(Foreach {
        btype: BType::Int,
        id: "i".to_string(),
        array: call("range", vec![num(0), num(5)]),
        block: Stmt::Break,
    }));
    assert_eq!(render(s), "");
}

#[test]
fn foreach_over_bare_name_keeps_it_whole() {
    let s = Stmt::Foreach(Box::new(Foreach {
        btype: BType::Int,
        id: "v".to_string(),
        array: name("arr"),
        block: Stmt::Block(block(vec![])),
    }));
    assert_eq!(render(s), "for(let v of arr){}");
}

#[test]
fn function_with_parameters() {
    let f = FuncDef {
        func_type: BType::Int,
        ident: "add".to_string(),
        params: vec![
            FuncParam { btype: BType::Int, id: "a".to_string() },
            FuncParam { btype: BType::Float, id: "b".to_string() },
        ],
        block: block(vec![Stmt::Return(bin(name("a"), Op::add, name_u("b")))]),
    };
    assert_eq!(compile(CompUnit { items: vec![GlobalItem::FuncDef(f)] }), "function add(a,b){return a+b;}");
}

#[test]
fn items_concatenate_in_order() {
    let f = FuncDef {
        func_type: BType::Void,
        ident: "f".to_string(),
        params: vec![FuncParam { btype: BType::Int, id: "n".to_string() }],
        block: block(vec![Stmt::Exp(Some(call("print", vec![name("n"), name("g")])))]),
    };
    let unit = CompUnit {
        items: vec![
            GlobalItem::Decl(decl(BType::Int, "g", Some(ValValue::Exp(num(1))))),
            GlobalItem::FuncDef(f),
            GlobalItem::Decl(decl(BType::Never, "g", Some(ValValue::Exp(num(2))))),
        ],
    };
    assert_eq!(compile(unit), "let g=1;function f(n){print(n,g);}g=2;");
}

#[test]
fn empty_program() {
    assert_eq!(compile(CompUnit { items: vec![] }), "");
}
