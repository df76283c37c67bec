use swc_preset_types::analyzer::{Analyzer, Binding, Error, ExtractKind, Scope, Unsupported};
use swc_preset_types::ast::{
    Arg, ArrayElem, BinOp, ClassMember, Expr, FnBody, Function, Ident, Lit, Prop, Span, Stmt, UnaryOp,
};
use swc_preset_types::ops::{any, collapse, generalize_lit, negate, never_ty, remove_falsy, undefined};
use swc_preset_types::types::{same_type, Keyword, LitValue, Member, Param, Type};

fn analyzer() -> Analyzer {
    Analyzer {
        resolved_imports: vec![],
        scope: Scope { vars: vec![], types: vec![] },
        libs: vec![],
        path: "input.ts".to_string(),
    }
}

fn kw(k: Keyword) -> Type {
    Type::Keyword(k)
}

fn sp(lo: u32) -> Span {
    Span { lo, hi: lo + 1 }
}

fn ident(name: &str) -> Expr {
    Expr::Ident(Ident { sym: name.to_string(), span: sp(0) })
}

fn num(n: i64) -> Expr {
    Expr::Lit(Lit::Num(n))
}

fn string(s: &str) -> Expr {
    Expr::Lit(Lit::Str(s.to_string()))
}

fn args(es: Vec<Expr>) -> Vec<Arg> {
    es.into_iter().map(|expr| Arg { spread: false, expr }).collect()
}

fn param(name: &str, optional: bool) -> Param {
    Param { name: name.to_string(), optional }
}

fn fn_type(params: Vec<Param>, ret: Type) -> Type {
    Type::Function { params, ret: Box::new(ret) }
}

fn bind(name: &str, ty: Type) -> Binding {
    Binding { name: name.to_string(), ty }
}

fn same(a: &Type, b: &Type) -> bool {
    same_type(a, b)
}

#[test]
fn negate_bool_twice() {
    for b in [true, false] {
        let t = Type::Lit(LitValue::Bool(b));
        let back = negate(negate(Type::Lit(LitValue::Bool(b))));
        assert!(same(&back, &t));
    }
}

#[test]
fn negate_other_literals() {
    assert!(same(&negate(Type::Lit(LitValue::Num(0))), &Type::Lit(LitValue::Bool(false))));
    assert!(same(&negate(Type::Lit(LitValue::Num(3))), &Type::Lit(LitValue::Bool(true))));
    assert!(same(&negate(Type::Lit(LitValue::Str(String::new()))), &Type::Lit(LitValue::Bool(false))));
    assert!(same(&negate(Type::Lit(LitValue::Str("a".to_string()))), &Type::Lit(LitValue::Bool(true))));
    assert!(same(&negate(kw(Keyword::Number)), &kw(Keyword::Boolean)));
    // Negating a number or string literal twice gives a boolean literal.
    let twice = negate(negate(Type::Lit(LitValue::Num(7))));
    assert!(same(&twice, &Type::Lit(LitValue::Bool(false))));
}

#[test]
fn array_of_same_type() {
    let a = analyzer();
    let e = Expr::Array(vec![ArrayElem::Elem(num(1)), ArrayElem::Elem(num(2)), ArrayElem::Elem(num(3))]);
    let t = a.type_of(&e).unwrap();
    assert!(same(&t, &Type::Array(Box::new(kw(Keyword::Number)))));
}

#[test]
fn empty_array_is_any_array() {
    let t = analyzer().type_of(&Expr::Array(vec![])).unwrap();
    assert!(same(&t, &Type::Array(Box::new(any()))));
}

#[test]
fn array_hole_is_undefined() {
    let t = analyzer().type_of(&Expr::Array(vec![ArrayElem::Hole, ArrayElem::Hole])).unwrap();
    assert!(same(&t, &Type::Array(Box::new(undefined()))));
}

#[test]
fn mixed_array_union() {
    let e = Expr::Array(vec![ArrayElem::Elem(num(1)), ArrayElem::Elem(string("a")), ArrayElem::Elem(num(1))]);
    let t = analyzer().type_of(&e).unwrap();
    match &t {
        Type::Array(el) => match &**el {
            Type::Union(ms) => {
                assert_eq!(ms.len(), 2);
                assert!(same(&ms[0], &kw(Keyword::Number)));
                assert!(same(&ms[1], &kw(Keyword::String)));
            }
            other => panic!("not a union: {:?}", other),
        },
        other => panic!("not an array: {:?}", other),
    }
}

#[test]
fn array_spread_unimplemented() {
    let e = Expr::Array(vec![ArrayElem::Spread(ident("xs"))]);
    match analyzer().type_of(&e) {
        Err(Error::Unimplemented { what, .. }) => assert_eq!(what, Unsupported::ArraySpread),
        other => panic!("{:?}", other),
    }
}

#[test]
fn cond_same_type() {
    let e = Expr::Cond(Box::new(ident("undefined")), Box::new(string("a")), Box::new(string("a")));
    let t = analyzer().type_of(&e).unwrap();
    assert!(same(&t, &Type::Lit(LitValue::Str("a".to_string()))));
}

#[test]
fn cond_different_types_union() {
    let e = Expr::Cond(Box::new(ident("undefined")), Box::new(num(1)), Box::new(string("a")));
    let t = analyzer().type_of(&e).unwrap();
    let want = Type::Union(vec![Type::Lit(LitValue::Num(1)), Type::Lit(LitValue::Str("a".to_string()))]);
    assert!(same(&t, &want));
}

#[test]
fn extract_union_one_callable() {
    let a = analyzer();
    let u = Type::Union(vec![kw(Keyword::Number), fn_type(vec![], kw(Keyword::String)), kw(Keyword::Null)]);
    let t = a.extract(&u, ExtractKind::Call, 0).unwrap();
    assert!(same(&t, &kw(Keyword::String)));
}

#[test]
fn extract_union_none_callable() {
    let a = analyzer();
    let u = Type::Union(vec![kw(Keyword::Number), kw(Keyword::String), fn_type(vec![param("x", false)], any())]);
    match a.extract(&u, ExtractKind::Call, 0) {
        Err(Error::UnionError { errors }) => {
            assert_eq!(errors.len(), 3);
            assert!(matches!(errors[0], Error::NoCallSignature));
            assert!(matches!(errors[2], Error::WrongParams { min: 1, max: 1, actual: 0 }));
        }
        other => panic!("{:?}", other),
    }
}

#[test]
fn extract_any_and_new() {
    let a = analyzer();
    assert!(same(&a.extract(&any(), ExtractKind::New, 4).unwrap(), &any()));
    let ctor = Type::Constructor { params: vec![param("a", false), param("b", true)], ret: Box::new(kw(Keyword::This)) };
    assert!(same(&a.extract(&ctor, ExtractKind::New, 1).unwrap(), &kw(Keyword::This)));
    assert!(matches!(a.extract(&ctor, ExtractKind::Call, 1), Err(Error::NoCallSignature)));
    assert!(matches!(a.extract(&kw(Keyword::Number), ExtractKind::New, 0), Err(Error::NoNewSignature)));
}

#[test]
fn extract_type_literal_signatures() {
    let a = analyzer();
    let lit = Type::TypeLit(vec![
        Member::Call { params: vec![param("a", false)], ret: Some(Box::new(kw(Keyword::Number))) },
        Member::Call { params: vec![], ret: None },
    ]);
    assert!(same(&a.extract(&lit, ExtractKind::Call, 1).unwrap(), &kw(Keyword::Number)));
    assert!(same(&a.extract(&lit, ExtractKind::Call, 0).unwrap(), &any()));
    assert!(matches!(a.extract(&lit, ExtractKind::Call, 2), Err(Error::NoCallSignature)));
    assert!(matches!(a.extract(&lit, ExtractKind::New, 0), Err(Error::NoNewSignature)));
}

#[test]
fn typeof_comparison_is_boolean() {
    let e = Expr::Bin(
        BinOp::EqEqEq,
        Box::new(Expr::Unary(UnaryOp::TypeOf, Box::new(num(42)))),
        Box::new(string("number")),
    );
    let t = analyzer().type_of(&e).unwrap();
    assert!(same(&t, &kw(Keyword::Boolean)));
}

#[test]
fn arrow_call_wrong_params() {
    let arrow = Expr::Arrow(Function {
        params: vec![param("x", false)],
        return_type: None,
        body: FnBody::Expr(Box::new(Expr::Bin(BinOp::Add, Box::new(ident("x")), Box::new(num(1))))),
    });
    let call = Expr::Call(Box::new(Expr::Paren(Box::new(arrow))), args(vec![num(1), num(2)]));
    match analyzer().type_of(&call) {
        Err(Error::WrongParams { min, max, actual }) => {
            assert_eq!((min, max, actual), (1, 1, 2));
        }
        other => panic!("{:?}", other),
    }
}

#[test]
fn identifier_lookup_order() {
    let mut a = analyzer();
    assert!(matches!(a.type_of(&ident("x")), Err(Error::UndefinedSymbol { .. })));
    a.libs.push(bind("x", kw(Keyword::Void)));
    assert!(same(&a.type_of(&ident("x")).unwrap(), &kw(Keyword::Void)));
    a.scope.vars.push(bind("x", kw(Keyword::String)));
    assert!(same(&a.type_of(&ident("x")).unwrap(), &kw(Keyword::String)));
    a.resolved_imports.push(bind("x", kw(Keyword::Number)));
    assert!(same(&a.type_of(&ident("x")).unwrap(), &kw(Keyword::Number)));
    assert!(same(&a.type_of(&ident("undefined")).unwrap(), &undefined()));
}

#[test]
fn undefined_symbol_carries_span() {
    let e = Expr::Ident(Ident { sym: "nope".to_string(), span: sp(7) });
    match analyzer().type_of(&e) {
        Err(Error::UndefinedSymbol { span }) => assert_eq!(span, sp(7)),
        other => panic!("{:?}", other),
    }
}

#[test]
fn simple_expression_kinds() {
    let a = analyzer();
    assert!(same(&a.type_of(&Expr::This).unwrap(), &kw(Keyword::This)));
    assert!(same(&a.type_of(&Expr::Lit(Lit::Null)).unwrap(), &kw(Keyword::Null)));
    assert!(same(&a.type_of(&Expr::Lit(Lit::Regex)).unwrap(), &Type::TypeRef(vec!["RegExp".to_string()])));
    assert!(same(&a.type_of(&Expr::Tpl).unwrap(), &kw(Keyword::String)));
    assert!(same(&a.type_of(&Expr::Unary(UnaryOp::Void, Box::new(num(0)))).unwrap(), &undefined()));
    assert!(same(&a.type_of(&Expr::Unary(UnaryOp::Not, Box::new(num(0)))).unwrap(), &Type::Lit(LitValue::Bool(false))));
    assert!(same(&a.type_of(&Expr::Yield).unwrap(), &any()));
    assert!(same(&a.type_of(&Expr::Update(Box::new(ident("i")))).unwrap(), &kw(Keyword::Number)));
    assert!(same(&a.type_of(&Expr::SuperCall(vec![])).unwrap(), &any()));
    assert!(same(&a.type_of(&Expr::Bin(BinOp::Sub, Box::new(num(1)), Box::new(num(2)))).unwrap(), &kw(Keyword::Number)));
    assert!(same(
        &a.type_of(&Expr::Bin(BinOp::LogicalOr, Box::new(ident("nope")), Box::new(string("b")))).unwrap(),
        &Type::Lit(LitValue::Str("b".to_string()))
    ));
    assert!(same(&a.type_of(&Expr::Assign(Box::new(ident("nope")), Box::new(num(4)))).unwrap(), &Type::Lit(LitValue::Num(4))));
    assert!(same(&a.type_of(&Expr::Sequence(vec![ident("nope"), num(5)])).unwrap(), &Type::Lit(LitValue::Num(5))));
    assert!(same(&a.type_of(&Expr::TsAs(Box::new(num(1)), Box::new(kw(Keyword::Never)))).unwrap(), &never_ty()));
    assert!(same(&a.type_of(&Expr::TsTypeCast(Box::new(num(1)), Box::new(kw(Keyword::Void)))).unwrap(), &kw(Keyword::Void)));
}

#[test]
fn unsupported_expressions() {
    let a = analyzer();
    for (e, want) in [
        (Expr::MetaProp, Unsupported::MetaProp),
        (Expr::Await(Box::new(num(1))), Unsupported::Await),
        (Expr::Sequence(vec![]), Unsupported::EmptySequence),
        (Expr::Object(vec![Prop::Spread(ident("o"))]), Unsupported::ObjectSpread),
        (Expr::Bin(BinOp::In, Box::new(num(1)), Box::new(num(2))), Unsupported::Expression),
        (ident("require"), Unsupported::RequireOutsideCall),
    ] {
        match a.type_of(&e) {
            Err(Error::Unimplemented { what, path, .. }) => {
                assert_eq!(what, want);
                assert_eq!(path, "input.ts");
            }
            other => panic!("{:?}", other),
        }
    }
}

#[test]
fn non_null_removes_falsy() {
    let mut a = analyzer();
    a.scope.vars.push(bind("v", Type::Union(vec![kw(Keyword::String), kw(Keyword::Null), undefined()])));
    let t = a.type_of(&Expr::TsNonNull(Box::new(ident("v")))).unwrap();
    assert!(same(&t, &kw(Keyword::String)));
    let kept = remove_falsy(Type::Union(vec![kw(Keyword::String), Type::Lit(LitValue::Bool(false)), kw(Keyword::Number)]));
    assert!(same(&kept, &Type::Union(vec![kw(Keyword::String), kw(Keyword::Number)])));
    assert!(same(&remove_falsy(Type::Union(vec![kw(Keyword::Null), undefined()])), &never_ty()));
    assert!(same(&collapse(vec![]), &never_ty()));
    assert!(same(&generalize_lit(Type::Lit(LitValue::Bool(true))), &kw(Keyword::Boolean)));
}

#[test]
fn object_literal_members() {
    let e = Expr::Object(vec![
        Prop::KeyValue { key: "a".to_string(), value: num(1) },
        Prop::Shorthand("b".to_string()),
    ]);
    let t = analyzer().type_of(&e).unwrap();
    let want = Type::TypeLit(vec![
        Member::Property { key: "a".to_string(), optional: false, readonly: false, ty: None },
        Member::Property { key: "b".to_string(), optional: false, readonly: false, ty: None },
    ]);
    assert!(same(&t, &want));
}

#[test]
fn enum_member_is_qualified_reference() {
    let mut a = analyzer();
    a.scope.types.push(bind("Color", Type::Enum("Color".to_string())));
    let e = Expr::Member { obj: Box::new(ident("Color")), prop: Box::new(ident("Red")), computed: false };
    let t = a.type_of(&e).unwrap();
    assert!(same(&t, &Type::TypeRef(vec!["Color".to_string(), "Red".to_string()])));
}

#[test]
fn member_access_is_indexed_access() {
    let mut a = analyzer();
    a.scope.vars.push(bind("o", kw(Keyword::Any)));
    let e = Expr::Member { obj: Box::new(ident("o")), prop: Box::new(ident("p")), computed: false };
    let t = a.type_of(&e).unwrap();
    assert!(same(&t, &Type::IndexedAccess(Box::new(any()), Box::new(kw(Keyword::String)))));
    let c = Expr::Member { obj: Box::new(ident("o")), prop: Box::new(num(0)), computed: true };
    let t = a.type_of(&c).unwrap();
    assert!(same(&t, &Type::IndexedAccess(Box::new(any()), Box::new(Type::Lit(LitValue::Num(0))))));
}

#[test]
fn method_call_on_type_literal() {
    let mut a = analyzer();
    let obj = Type::TypeLit(vec![
        Member::Method { key: "f".to_string(), params: vec![], ret: Some(Box::new(kw(Keyword::Number))) },
        Member::Method { key: "g".to_string(), params: vec![param("a", false)], ret: Some(Box::new(kw(Keyword::String))) },
        Member::Method { key: "g".to_string(), params: vec![], ret: None },
    ]);
    a.scope.vars.push(bind("o", obj));
    let call = |name: &str, n: i64| {
        let mut xs = vec![];
        for i in 0..n {
            xs.push(num(i));
        }
        Expr::Call(Box::new(Expr::Member { obj: Box::new(ident("o")), prop: Box::new(ident(name)), computed: false }), args(xs))
    };
    assert!(same(&a.type_of(&call("f", 0)).unwrap(), &kw(Keyword::Number)));
    assert!(same(&a.type_of(&call("g", 1)).unwrap(), &kw(Keyword::String)));
    assert!(same(&a.type_of(&call("g", 0)).unwrap(), &any()));
    assert!(matches!(a.type_of(&call("g", 3)), Err(Error::Unimplemented { what: Unsupported::OverloadedMethod, .. })));
    assert!(matches!(a.type_of(&call("h", 0)), Err(Error::NoCallSignature)));
}

#[test]
fn require_gives_import() {
    let mut a = analyzer();
    a.resolved_imports.push(bind("./dep", kw(Keyword::Number)));
    let e = Expr::Call(Box::new(ident("require")), args(vec![string("./dep")]));
    assert!(same(&a.type_of(&e).unwrap(), &kw(Keyword::Number)));
    let missing = Expr::Call(Box::new(ident("require")), args(vec![string("./other")]));
    assert!(matches!(a.type_of(&missing), Err(Error::UndefinedSymbol { .. })));
    let dynamic = Expr::Call(Box::new(ident("require")), args(vec![ident("x")]));
    assert!(matches!(a.type_of(&dynamic), Err(Error::Unimplemented { what: Unsupported::DynamicRequire, .. })));
}

#[test]
fn new_through_alias() {
    let mut a = analyzer();
    let ctor = Type::Constructor { params: vec![], ret: Box::new(Type::TypeRef(vec!["Foo".to_string()])) };
    a.scope.types.push(bind("FooCtor", ctor));
    a.scope.vars.push(bind("Foo", Type::TypeRef(vec!["FooCtor".to_string()])));
    let e = Expr::New(Box::new(ident("Foo")), vec![]);
    assert!(same(&a.type_of(&e).unwrap(), &Type::TypeRef(vec!["Foo".to_string()])));
}

#[test]
fn cyclic_alias_is_reported() {
    let mut a = analyzer();
    a.scope.types.push(bind("A", Type::TypeRef(vec!["B".to_string()])));
    a.scope.types.push(bind("B", Type::TypeRef(vec!["A".to_string()])));
    let r = a.extract(&Type::TypeRef(vec!["A".to_string()]), ExtractKind::Call, 0);
    assert!(matches!(r, Err(Error::Unimplemented { what: Unsupported::CyclicType, .. })));
    let r = a.extract(&Type::TypeRef(vec!["Missing".to_string()]), ExtractKind::Call, 0);
    match r {
        Err(Error::Unimplemented { what, name, .. }) => {
            assert_eq!(what, Unsupported::UnresolvedType);
            assert_eq!(name, "Missing");
        }
        other => panic!("{:?}", other),
    }
    let r = a.extract(&Type::TypeRef(vec!["Partial".to_string()]), ExtractKind::Call, 0);
    assert!(matches!(r, Err(Error::Unimplemented { what: Unsupported::UnresolvedType, .. })));
    a.resolved_imports.push(bind("Partial", fn_type(vec![], any())));
    let r = a.extract(&Type::TypeRef(vec!["Partial".to_string()]), ExtractKind::Call, 0);
    assert!(matches!(r, Err(Error::NoCallSignature)));
}

#[test]
fn function_return_inference() {
    let a = analyzer();
    let f = Expr::Fn(Function {
        params: vec![param("a", false), param("b", true)],
        return_type: None,
        body: FnBody::Block(vec![
            Stmt::If {
                test: Box::new(ident("a")),
                cons: Box::new(Stmt::Return(Some(Box::new(num(1))))),
                alt: None,
            },
            Stmt::Return(None),
        ]),
    });
    let t = a.type_of(&f).unwrap();
    let want = fn_type(
        vec![param("a", false), param("b", true)],
        Type::Union(vec![Type::Lit(LitValue::Num(1)), undefined()]),
    );
    assert!(same(&t, &want));
    let empty = Expr::Arrow(Function { params: vec![], return_type: None, body: FnBody::Block(vec![]) });
    assert!(same(&a.type_of(&empty).unwrap(), &fn_type(vec![], undefined())));
    let declared = Expr::Arrow(Function {
        params: vec![],
        return_type: Some(Box::new(kw(Keyword::String))),
        body: FnBody::Block(vec![]),
    });
    assert!(same(&a.type_of(&declared).unwrap(), &fn_type(vec![], kw(Keyword::String))));
}

#[test]
fn class_type_literal() {
    let a = analyzer();
    let c = Expr::Class(vec![
        ClassMember::Prop { key: "x".to_string(), optional: true, readonly: false, type_ann: None, value: Some(Box::new(num(3))) },
        ClassMember::Prop { key: "y".to_string(), optional: false, readonly: true, type_ann: Some(Box::new(kw(Keyword::String))), value: None },
        ClassMember::Method,
        ClassMember::Constructor { params: vec![param("p", false)] },
        ClassMember::Private,
    ]);
    let t = a.type_of(&c).unwrap();
    let want = Type::TypeLit(vec![
        Member::Property { key: "x".to_string(), optional: true, readonly: false, ty: Some(Box::new(Type::Lit(LitValue::Num(3)))) },
        Member::Property { key: "y".to_string(), optional: false, readonly: true, ty: Some(Box::new(kw(Keyword::String))) },
        Member::Construct { params: vec![param("p", false)], ret: None },
    ]);
    assert!(same(&t, &want));
}

#[test]
fn repeated_returns_collapse() {
    let a = analyzer();
    let f = Expr::Arrow(Function {
        params: vec![],
        return_type: None,
        body: FnBody::Block(vec![Stmt::Return(Some(Box::new(num(1)))), Stmt::Return(Some(Box::new(num(1))))]),
    });
    assert!(same(&a.type_of(&f).unwrap(), &fn_type(vec![], Type::Lit(LitValue::Num(1)))));
    let g = Expr::Arrow(Function {
        params: vec![],
        return_type: None,
        body: FnBody::Block(vec![
            Stmt::Return(Some(Box::new(num(1)))),
            Stmt::Return(None),
            Stmt::Return(Some(Box::new(num(1)))),
        ]),
    });
    let want = fn_type(vec![], Type::Union(vec![Type::Lit(LitValue::Num(1)), undefined()]));
    assert!(same(&a.type_of(&g).unwrap(), &want));
}

#[test]
fn other_arithmetic_is_unsupported() {
    let a = analyzer();
    for op in [BinOp::Mul, BinOp::Div, BinOp::Mod] {
        let e = Expr::Bin(op, Box::new(num(6)), Box::new(num(3)));
        assert!(matches!(a.type_of(&e), Err(Error::Unimplemented { what: Unsupported::Expression, .. })));
    }
    let plus = Expr::Bin(BinOp::Add, Box::new(num(6)), Box::new(num(3)));
    assert!(same(&a.type_of(&plus).unwrap(), &kw(Keyword::Number)));
}

#[test]
fn alias_to_union_extracts_member() {
    let mut a = analyzer();
    a.scope.types.push(bind("U", Type::Union(vec![kw(Keyword::Number), fn_type(vec![], kw(Keyword::Boolean))])));
    let t = a.extract(&Type::TypeRef(vec!["U".to_string()]), ExtractKind::Call, 0).unwrap();
    assert!(same(&t, &kw(Keyword::Boolean)));
    match a.extract(&Type::TypeRef(vec!["U".to_string()]), ExtractKind::New, 0) {
        Err(Error::UnionError { errors }) => assert_eq!(errors.len(), 2),
        other => panic!("{:?}", other),
    }
}

#[test]
fn unbound_builtin_generic_fails() {
    let a = analyzer();
    match a.expand_with(Type::TypeRef(vec!["Record".to_string()]), 0) {
        Err(Error::Unimplemented { what, name, path }) => {
            assert_eq!(what, Unsupported::UnresolvedType);
            assert_eq!(name, "Record");
            assert_eq!(path, "input.ts");
        }
        other => panic!("{:?}", other),
    }
    let mut b = analyzer();
    b.scope.types.push(bind("Record", kw(Keyword::Any)));
    let r = b.expand_with(Type::TypeRef(vec!["Record".to_string()]), 1).unwrap();
    assert!(same(&r, &Type::TypeRef(vec!["Record".to_string()])));
}
