use vstd::prelude::*;
use crate::analyzer::{
    Analyzer, Error, ErrorM, ExtractKind, Unsupported, err_m, expand_fuel, expand_m, ident_type_m,
    is_word, lookup_m, find, no_signature, no_signature_m, res_m,
};
use crate::ast::{Arg, ArrayElem, BinOp, ClassMember, Expr, FnBody, Function, Lit, Prop, Stmt, UnaryOp};
use crate::extract::{extract_fuel, extract_m, ret_or_any};
use crate::ops::{dedup_m, generalize_m, negate_m, remove_falsy_m, negate, generalize_lit, remove_falsy, push_unique};
use crate::types::{
    Keyword, LitM, LitValue, Member, MemberM, Type, TypeM, clone_params, clone_type,
    copy_string, member_m, params_m, same_type, ty_m, tys_m,
};

verus! {

broadcast use {vstd::std_specs::vec::axiom_vec_index_decreases, vstd::seq::axiom_seq_index_decreases};

pub open spec fn unsupported_m(a: Analyzer, what: Unsupported) -> ErrorM {
    ErrorM::Unimplemented(what, Seq::empty(), a.path@)
}

/// The type of a literal expression.
pub open spec fn lit_type_m(l: Lit) -> TypeM {
    match l {
        Lit::Bool(b) => TypeM::Lit(LitM::Bool(b)),
        Lit::Str(s) => TypeM::Lit(LitM::Str(s@)),
        Lit::Num(n) => TypeM::Lit(LitM::Num(n)),
        Lit::Null => TypeM::Keyword(Keyword::Null),
        Lit::Regex => TypeM::TypeRef(seq!["RegExp"@]),
    }
}

/// `ts` with `t` added unless it is there already.
pub open spec fn add_unique(ts: Seq<TypeM>, t: TypeM) -> Seq<TypeM> {
    if ts.contains(t) {
        ts
    } else {
        ts.push(t)
    }
}

/// The type of an array literal's elements: `any` for none, the single type,
/// or the union of the distinct ones.
pub open spec fn elem_type_m(ts: Seq<TypeM>) -> TypeM {
    if ts.len() == 0 {
        TypeM::Keyword(Keyword::Any)
    } else if ts.len() == 1 {
        ts[0]
    } else {
        TypeM::Union(ts)
    }
}

/// The inferred return type of a body whose `return`s have types `ts`:
/// `undefined` for none, else the distinct types, as one type or their union.
pub open spec fn returns_type_m(ts: Seq<TypeM>) -> TypeM {
    let us = dedup_m(ts);
    if us.len() == 0 {
        TypeM::Keyword(Keyword::Undefined)
    } else if us.len() == 1 {
        us[0]
    } else {
        TypeM::Union(us)
    }
}

/// The property signature that an object literal's property gives.
pub open spec fn prop_member_m(p: Prop) -> MemberM {
    match p {
        Prop::KeyValue { key, .. } => MemberM::Property { key: key@, optional: false, readonly: false, ty: None },
        Prop::Shorthand(key) => MemberM::Property { key: key@, optional: false, readonly: false, ty: None },
        Prop::Spread(_) => MemberM::Property { key: Seq::empty(), optional: false, readonly: false, ty: None },
    }
}

/// The methods named `name` among `ms`, as their parameter count and return type.
pub open spec fn methods_named(ms: Seq<MemberM>, name: Seq<char>) -> Seq<(nat, TypeM)>
    decreases ms.len(),
{
    if ms.len() == 0 {
        Seq::empty()
    } else {
        let r = methods_named(ms.drop_last(), name);
        match ms.last() {
            MemberM::Method { key, params, ret } => if key == name {
                r.push((params.len(), ret_or_any(ret)))
            } else {
                r
            },
            _ => r,
        }
    }
}

/// The first of `cs` with `n` parameters, from `i` on.
pub open spec fn first_with_arity(cs: Seq<(nat, TypeM)>, n: nat, i: int) -> Option<TypeM>
    decreases cs.len() - i,
{
    if i < 0 || i >= cs.len() {
        None
    } else if cs[i].0 == n {
        Some(cs[i].1)
    } else {
        first_with_arity(cs, n, i + 1)
    }
}

/// A method call `obj.prop(...)` on `obj` of type `ot`.
pub open spec fn method_call_m(
    a: Analyzer,
    ot: TypeM,
    prop: Expr,
    computed: bool,
    kind: ExtractKind,
    nargs: nat,
) -> Result<TypeM, ErrorM> {
    let fall = if computed {
        Err(unsupported_m(a, Unsupported::ComputedMemberCall))
    } else {
        Err(no_signature_m(kind))
    };
    match ot {
        TypeM::TypeLit(ms) => {
            let cs = if kind == ExtractKind::Call && prop is Ident {
                methods_named(ms, prop->Ident_0.sym@)
            } else {
                Seq::empty()
            };
            if cs.len() == 0 {
                fall
            } else if cs.len() == 1 {
                Ok(cs[0].1)
            } else {
                match first_with_arity(cs, nargs, 0) {
                    Some(t) => Ok(t),
                    None => Err(unsupported_m(a, Unsupported::OverloadedMethod)),
                }
            }
        },
        TypeM::Keyword(Keyword::Any) => Ok(TypeM::Keyword(Keyword::Any)),
        _ => fall,
    }
}

/// `require("name")`: the imported type.
pub open spec fn require_m(a: Analyzer, sym: Seq<char>, span: crate::ast::Span, args: Seq<Arg>) -> Result<
    TypeM,
    ErrorM,
> {
    if args.len() == 0 || args[0].spread || !(args[0].expr is Lit) || !(args[0].expr->Lit_0 is Str) {
        Err(unsupported_m(a, Unsupported::DynamicRequire))
    } else {
        let name = args[0].expr->Lit_0->Str_0@;
        if lookup_m(a.resolved_imports@, name) is Some {
            Ok(lookup_m(a.resolved_imports@, name)->0)
        } else if lookup_m(a.scope.types@, sym) is Some && lookup_m(a.scope.types@, sym)->0 is Enum {
            Ok(TypeM::TypeRef(seq![sym]))
        } else {
            Err(ErrorM::UndefinedSymbol(span))
        }
    }
}

/// The static type of an expression.
pub open spec fn type_of_m(a: Analyzer, e: Expr) -> Result<TypeM, ErrorM>
    decreases e, 0nat,
{
    match e {
        Expr::This => Ok(TypeM::Keyword(Keyword::This)),
        Expr::Ident(i) => ident_type_m(a, i.sym@, i.span),
        Expr::Lit(l) => Ok(lit_type_m(l)),
        Expr::Array(elems) => match array_types_m(a, elems, elems.len() as nat) {
            Err(x) => Err(x),
            Ok(ts) => Ok(TypeM::Array(Box::new(elem_type_m(ts)))),
        },
        Expr::Object(props) => if exists|i: int| 0 <= i < props.len() && #[trigger] props@[i] is Spread {
            Err(unsupported_m(a, Unsupported::ObjectSpread))
        } else {
            Ok(TypeM::TypeLit(props@.map_values(|p: Prop| prop_member_m(p))))
        },
        Expr::Paren(x) => type_of_m(a, *x),
        Expr::Tpl => Ok(TypeM::Keyword(Keyword::String)),
        Expr::Unary(op, x) => match op {
            UnaryOp::Not => match type_of_m(a, *x) {
                Ok(t) => Ok(negate_m(t)),
                Err(err) => Err(err),
            },
            UnaryOp::TypeOf => Ok(TypeM::Keyword(Keyword::String)),
            UnaryOp::Void => Ok(TypeM::Keyword(Keyword::Undefined)),
            _ => Err(unsupported_m(a, Unsupported::Expression)),
        },
        Expr::Bin(op, _, r) => match op {
            BinOp::LogicalOr | BinOp::LogicalAnd => type_of_m(a, *r),
            // `+` stands in as `number` so that a call such as `(x => x + 1)(1, 2)`
            // reaches the argument count check; `"a" + 1` would really be a string.
            BinOp::Sub | BinOp::Add => Ok(TypeM::Keyword(Keyword::Number)),
            BinOp::EqEqEq | BinOp::NotEqEq | BinOp::EqEq | BinOp::NotEq | BinOp::Lt | BinOp::LtEq
            | BinOp::Gt | BinOp::GtEq => Ok(TypeM::Keyword(Keyword::Boolean)),
            _ => Err(unsupported_m(a, Unsupported::Expression)),
        },
        Expr::Assign(_, r) => type_of_m(a, *r),
        Expr::Sequence(es) => if es.len() == 0 {
            Err(unsupported_m(a, Unsupported::EmptySequence))
        } else {
            type_of_m(a, es[es.len() - 1])
        },
        Expr::Cond(_, c, alt) => match type_of_m(a, *c) {
            Err(err) => Err(err),
            Ok(ct) => match type_of_m(a, *alt) {
                Err(err) => Err(err),
                Ok(at) => if ct == at {
                    Ok(ct)
                } else {
                    Ok(TypeM::Union(seq![ct, at]))
                },
            },
        },
        Expr::New(callee, args) => call_new_m(a, *callee, ExtractKind::New, args),
        Expr::Call(callee, args) => call_new_m(a, *callee, ExtractKind::Call, args),
        Expr::SuperCall(_) => Ok(TypeM::Keyword(Keyword::Any)),
        Expr::Member { obj, prop, computed } => {
            let enum_ident = match *obj {
                Expr::Ident(i) => lookup_m(a.scope.types@, i.sym@) is Some && lookup_m(
                    a.scope.types@,
                    i.sym@,
                )->0 is Enum,
                _ => false,
            };
            if enum_ident {
                match *prop {
                    Expr::Ident(p) => Ok(TypeM::TypeRef(seq![obj->Ident_0.sym@, p.sym@])),
                    _ => Err(unsupported_m(a, Unsupported::EnumMemberNotIdent)),
                }
            } else {
                match type_of_m(a, *obj) {
                    Err(err) => Err(err),
                    Ok(ot) => if computed {
                        match type_of_m(a, *prop) {
                            Err(err) => Err(err),
                            Ok(pt) => Ok(TypeM::IndexedAccess(Box::new(ot), Box::new(pt))),
                        }
                    } else {
                        Ok(
                            TypeM::IndexedAccess(
                                Box::new(ot),
                                Box::new(TypeM::Keyword(Keyword::String)),
                            ),
                        )
                    },
                }
            }
        },
        Expr::Fn(f) => fn_type_m(a, f),
        Expr::Arrow(f) => fn_type_m(a, f),
        Expr::Class(ms) => match class_members_m(a, ms, ms.len() as nat) {
            Err(err) => Err(err),
            Ok(mm) => Ok(TypeM::TypeLit(mm)),
        },
        Expr::MetaProp => Err(unsupported_m(a, Unsupported::MetaProp)),
        Expr::Yield => Ok(TypeM::Keyword(Keyword::Any)),
        Expr::Await(_) => Err(unsupported_m(a, Unsupported::Await)),
        Expr::Update(_) => Ok(TypeM::Keyword(Keyword::Number)),
        Expr::TsAs(_, t) => Ok(ty_m(*t)),
        Expr::TsTypeCast(_, t) => Ok(ty_m(*t)),
        Expr::TsNonNull(x) => match type_of_m(a, *x) {
            Ok(t) => Ok(remove_falsy_m(t)),
            Err(err) => Err(err),
        },
    }
}

/// The distinct widened types of the first `n` elements of an array literal.
pub open spec fn array_types_m(a: Analyzer, elems: Vec<ArrayElem>, n: nat) -> Result<Seq<TypeM>, ErrorM>
    decreases elems, n,
{
    if n == 0 || n > elems.len() {
        Ok(Seq::empty())
    } else {
        match array_types_m(a, elems, (n - 1) as nat) {
            Err(err) => Err(err),
            Ok(ts) => match elems[n - 1] {
                ArrayElem::Hole => Ok(add_unique(ts, TypeM::Keyword(Keyword::Undefined))),
                ArrayElem::Elem(x) => match type_of_m(a, x) {
                    Err(err) => Err(err),
                    Ok(t) => Ok(add_unique(ts, generalize_m(t))),
                },
                ArrayElem::Spread(_) => Err(unsupported_m(a, Unsupported::ArraySpread)),
            },
        }
    }
}

/// A call (or `new`) of `callee` with `args`.
pub open spec fn call_new_m(a: Analyzer, callee: Expr, kind: ExtractKind, args: Vec<Arg>) -> Result<
    TypeM,
    ErrorM,
>
    decreases callee, 1nat,
{
    match callee {
        Expr::Ident(i) => if i.sym@ == "require"@ {
            require_m(a, i.sym@, i.span, args@)
        } else {
            match type_of_m(a, callee) {
                Err(err) => Err(err),
                Ok(t) => extract_m(a, t, kind, args.len() as nat, extract_fuel(a)),
            }
        },
        Expr::Member { obj, prop, computed } => match type_of_m(a, *obj) {
            Err(err) => Err(err),
            Ok(ot) => method_call_m(a, ot, *prop, computed, kind, args.len() as nat),
        },
        _ => match type_of_m(a, callee) {
            Err(err) => Err(err),
            Ok(t) => extract_m(a, t, kind, args.len() as nat, extract_fuel(a)),
        },
    }
}

/// The function type of an arrow or a function expression.
pub open spec fn fn_type_m(a: Analyzer, f: Function) -> Result<TypeM, ErrorM>
    decreases f, 1nat,
{
    let ret = match f.return_type {
        Some(t) => expand_m(a, ty_m(*t), expand_fuel(a)),
        None => match f.body {
            FnBody::Block(ss) => match returns_m(a, ss, ss.len() as nat) {
                Err(err) => Err(err),
                Ok(ts) => Ok(returns_type_m(ts)),
            },
            FnBody::Expr(x) => type_of_m(a, *x),
        },
    };
    match ret {
        Err(err) => Err(err),
        Ok(r) => Ok(TypeM::Function(params_m(f.params), Box::new(r))),
    }
}

/// The types of the `return` statements among the first `n` statements, in order.
pub open spec fn returns_m(a: Analyzer, ss: Vec<Stmt>, n: nat) -> Result<Seq<TypeM>, ErrorM>
    decreases ss, n,
{
    if n == 0 || n > ss.len() {
        Ok(Seq::empty())
    } else {
        match returns_m(a, ss, (n - 1) as nat) {
            Err(err) => Err(err),
            Ok(ts) => match stmt_returns_m(a, ss[n - 1]) {
                Err(err) => Err(err),
                Ok(us) => Ok(ts + us),
            },
        }
    }
}

/// The types of the `return` statements in a statement, in order.
pub open spec fn stmt_returns_m(a: Analyzer, s: Stmt) -> Result<Seq<TypeM>, ErrorM>
    decreases s, 0nat,
{
    match s {
        Stmt::Return(None) => Ok(seq![TypeM::Keyword(Keyword::Undefined)]),
        Stmt::Return(Some(x)) => match type_of_m(a, *x) {
            Err(err) => Err(err),
            Ok(t) => Ok(seq![t]),
        },
        Stmt::Expr(_) => Ok(Seq::empty()),
        Stmt::Block(v) => returns_m(a, v, v.len() as nat),
        Stmt::If { cons, alt, .. } => match stmt_returns_m(a, *cons) {
            Err(err) => Err(err),
            Ok(ts) => match alt {
                None => Ok(ts),
                Some(b) => match stmt_returns_m(a, *b) {
                    Err(err) => Err(err),
                    Ok(us) => Ok(ts + us),
                },
            },
        },
    }
}

/// The public members of the first `n` members of a class body.
pub open spec fn class_members_m(a: Analyzer, ms: Vec<ClassMember>, n: nat) -> Result<Seq<MemberM>, ErrorM>
    decreases ms, n,
{
    if n == 0 || n > ms.len() {
        Ok(Seq::empty())
    } else {
        match class_members_m(a, ms, (n - 1) as nat) {
            Err(err) => Err(err),
            Ok(mm) => match ms[n - 1] {
                ClassMember::Prop { key, optional, readonly, type_ann, value } => {
                    let t = match type_ann {
                        Some(t) => Ok(ty_m(*t)),
                        None => match value {
                            Some(v) => type_of_m(a, *v),
                            None => Ok(TypeM::Keyword(Keyword::Any)),
                        },
                    };
                    match t {
                        Err(err) => Err(err),
                        Ok(t) => Ok(mm.push(MemberM::Property { key: key@, optional, readonly, ty: Some(t) })),
                    }
                },
                ClassMember::Constructor { params } => Ok(
                    mm.push(MemberM::Construct { params: params_m(params), ret: None }),
                ),
                _ => Ok(mm),
            },
        }
    }
}

proof fn lemma_array_err_stays(a: Analyzer, elems: Vec<ArrayElem>, n: nat, m: nat)
    requires
        n <= m <= elems.len(),
        array_types_m(a, elems, n) is Err,
    ensures
        array_types_m(a, elems, m) == array_types_m(a, elems, n),
    decreases m,
{
    if m > n {
        lemma_array_err_stays(a, elems, n, (m - 1) as nat);
    }
}

proof fn lemma_returns_err_stays(a: Analyzer, ss: Vec<Stmt>, n: nat, m: nat)
    requires
        n <= m <= ss.len(),
        returns_m(a, ss, n) is Err,
    ensures
        returns_m(a, ss, m) == returns_m(a, ss, n),
    decreases m,
{
    if m > n {
        lemma_returns_err_stays(a, ss, n, (m - 1) as nat);
    }
}

proof fn lemma_class_err_stays(a: Analyzer, ms: Vec<ClassMember>, n: nat, m: nat)
    requires
        n <= m <= ms.len(),
        class_members_m(a, ms, n) is Err,
    ensures
        class_members_m(a, ms, m) == class_members_m(a, ms, n),
    decreases m,
{
    if m > n {
        lemma_class_err_stays(a, ms, n, (m - 1) as nat);
    }
}

pub open spec fn members_m(ms: Seq<Member>) -> Seq<MemberM> {
    ms.map_values(|m: Member| member_m(m))
}

fn elem_type(ts: Vec<Type>) -> (r: Type)
    ensures
        ty_m(r) == elem_type_m(tys_m(ts@)),
{
    let mut ts = ts;
    if ts.len() == 0 {
        Type::Keyword(Keyword::Any)
    } else if ts.len() == 1 {
        ts.pop().unwrap()
    } else {
        let r = Type::Union(ts);
        assert(ty_m(r)->Union_0 =~= tys_m(ts@));
        r
    }
}

fn returns_type(ts: Vec<Type>) -> (r: Type)
    ensures
        ty_m(r) == returns_type_m(tys_m(ts@)),
{
    let ghost m = tys_m(ts@);
    let mut us: Vec<Type> = Vec::new();
    let mut i: usize = 0;
    assert(tys_m(us@) =~= dedup_m(m.take(0)));
    while i < ts.len()
        invariant
            0 <= i <= ts.len(),
            m == tys_m(ts@),
            tys_m(us@) == dedup_m(m.take(i as int)),
        decreases ts.len() - i,
    {
        assert(m.take(i + 1).drop_last() =~= m.take(i as int));
        assert(m.take(i + 1).last() == ty_m(ts@[i as int]));
        push_unique(&mut us, clone_type(&ts[i]));
        i += 1;
    }
    assert(m.take(ts.len() as int) =~= m);
    if us.len() == 0 {
        Type::Keyword(Keyword::Undefined)
    } else if us.len() == 1 {
        us.pop().unwrap()
    } else {
        let r = Type::Union(us);
        assert(ty_m(r)->Union_0 =~= tys_m(us@));
        r
    }
}

fn lit_type(l: &Lit) -> (r: Type)
    ensures
        ty_m(r) == lit_type_m(*l),
{
    match l {
        Lit::Bool(b) => Type::Lit(LitValue::Bool(*b)),
        Lit::Str(s) => Type::Lit(LitValue::Str(copy_string(s))),
        Lit::Num(n) => Type::Lit(LitValue::Num(*n)),
        Lit::Null => Type::Keyword(Keyword::Null),
        Lit::Regex => {
            let r = Type::TypeRef(vec!["RegExp".to_owned()]);
            assert(ty_m(r)->TypeRef_0 =~= seq!["RegExp"@]);
            r
        },
    }
}

/// The property signature of an object literal's property.
pub fn type_of_prop(p: &Prop) -> (r: Member)
    ensures
        member_m(r) == prop_member_m(*p),
{
    match p {
        Prop::KeyValue { key, .. } => Member::Property { key: copy_string(key), optional: false, readonly: false, ty: None },
        Prop::Shorthand(key) => Member::Property { key: copy_string(key), optional: false, readonly: false, ty: None },
        Prop::Spread(_) => Member::Property { key: String::new(), optional: false, readonly: false, ty: None },
    }
}

impl Analyzer {
    fn unsupported(&self, what: Unsupported) -> (r: Error)
        ensures
            err_m(r) == unsupported_m(*self, what),
    {
        Error::Unimplemented { what, name: String::new(), path: copy_string(&self.path) }
    }

    /// A method call on a value of type `ot` (see `method_call_m`).
    pub fn method_call(&self, ot: &Type, prop: &Expr, computed: bool, kind: ExtractKind, nargs: usize) -> (r: Result<
        Type,
        Error,
    >)
        ensures
            res_m(r) == method_call_m(*self, ty_m(*ot), *prop, computed, kind, nargs as nat),
    {
        match ot {
            Type::TypeLit(ms) => {
                let ghost mm = members_m(ms@);
                assert(ty_m(*ot)->TypeLit_0 =~= mm);
                let mut cands: Vec<(usize, Type)> = Vec::new();
                if kind == ExtractKind::Call {
                    if let Expr::Ident(p) = prop {
                        let mut i: usize = 0;
                        while i < ms.len()
                            invariant
                                0 <= i <= ms.len(),
                                mm == members_m(ms@),
                                cands@.len() == methods_named(mm.take(i as int), p.sym@).len(),
                                forall|j: int| 0 <= j < cands@.len() ==> (#[trigger] cands@[j]).0 as nat
                                    == methods_named(mm.take(i as int), p.sym@)[j].0 && ty_m(cands@[j].1)
                                    == methods_named(mm.take(i as int), p.sym@)[j].1,
                            decreases ms.len() - i,
                        {
                            assert(mm.take(i + 1).drop_last() =~= mm.take(i as int));
                            assert(mm.take(i + 1).last() == member_m(ms@[i as int]));
                            if let Member::Method { key, params, ret } = &ms[i] {
                                if *key == p.sym {
                                    let t = match ret {
                                        Some(t) => clone_type(t),
                                        None => Type::Keyword(Keyword::Any),
                                    };
                                    cands.push((params.len(), t));
                                }
                            }
                            i += 1;
                        }
                        assert(mm.take(ms.len() as int) =~= mm);
                    }
                }
                let ghost cs = if kind == ExtractKind::Call && prop is Ident {
                    methods_named(mm, prop->Ident_0.sym@)
                } else {
                    Seq::empty()
                };
                assert(cands@.len() == cs.len());
                if cands.len() == 0 {
                    if computed {
                        Err(self.unsupported(Unsupported::ComputedMemberCall))
                    } else {
                        Err(no_signature(kind))
                    }
                } else if cands.len() == 1 {
                    Ok(clone_type(&cands[0].1))
                } else {
                    let mut j: usize = 0;
                    while j < cands.len()
                        invariant
                            0 <= j <= cands@.len(),
                            cands@.len() == cs.len(),
                            cs.len() >= 2,
                            ty_m(*ot) == TypeM::TypeLit(mm),
                            cs == (if kind == ExtractKind::Call && prop is Ident {
                                methods_named(mm, prop->Ident_0.sym@)
                            } else {
                                Seq::empty()
                            }),
                            forall|k: int| 0 <= k < cands@.len() ==> (#[trigger] cands@[k]).0 as nat == cs[k].0
                                && ty_m(cands@[k].1) == cs[k].1,
                            first_with_arity(cs, nargs as nat, 0) == first_with_arity(cs, nargs as nat, j as int),
                        decreases cands@.len() - j,
                    {
                        if cands[j].0 == nargs {
                            assert(cs[j as int].0 == nargs as nat);
                            assert(first_with_arity(cs, nargs as nat, j as int) == Some(cs[j as int].1));
                            return Ok(clone_type(&cands[j].1));
                        }
                        j += 1;
                    }
                    Err(self.unsupported(Unsupported::OverloadedMethod))
                }
            },
            Type::Keyword(Keyword::Any) => Ok(Type::Keyword(Keyword::Any)),
            _ => {
                if computed {
                    Err(self.unsupported(Unsupported::ComputedMemberCall))
                } else {
                    Err(no_signature(kind))
                }
            },
        }
    }

    /// `require("name")` (see `require_m`).
    pub fn require(&self, i: &crate::ast::Ident, args: &Vec<Arg>) -> (r: Result<Type, Error>)
        ensures
            res_m(r) == require_m(*self, i.sym@, i.span, args@),
    {
        if args.len() == 0 || args[0].spread {
            return Err(self.unsupported(Unsupported::DynamicRequire));
        }
        match &args[0].expr {
            Expr::Lit(Lit::Str(name)) => {
                if let Some(t) = find(&self.resolved_imports, name) {
                    return Ok(clone_type(t));
                }
                if let Some(Type::Enum(_)) = find(&self.scope.types, &i.sym) {
                    let r = Type::TypeRef(vec![copy_string(&i.sym)]);
                    assert(ty_m(r)->TypeRef_0 =~= seq![i.sym@]);
                    return Ok(r);
                }
                Err(Error::UndefinedSymbol { span: i.span })
            },
            _ => Err(self.unsupported(Unsupported::DynamicRequire)),
        }
    }
}

impl Analyzer {
    /// The static type of `e` (see `type_of_m`).
    pub fn type_of(&self, e: &Expr) -> (r: Result<Type, Error>)
        requires
            expand_fuel(*self) + 1 < usize::MAX,
        ensures
            res_m(r) == type_of_m(*self, *e),
        decreases e, 0nat,
    {
        match e {
            Expr::This => Ok(Type::Keyword(Keyword::This)),
            Expr::Ident(i) => self.ident_type(&i.sym, i.span),
            Expr::Lit(l) => Ok(lit_type(l)),
            Expr::Array(elems) => {
                let mut types: Vec<Type> = Vec::new();
                let mut i: usize = 0;
                assert(tys_m(types@) =~= Seq::<TypeM>::empty());
                while i < elems.len()
                    invariant
                        decreases_to!(*e => *elems),
                        *e == Expr::Array(*elems),
                        expand_fuel(*self) + 1 < usize::MAX,
                        0 <= i <= elems.len(),
                        array_types_m(*self, *elems, i as nat) == Ok::<Seq<TypeM>, ErrorM>(tys_m(types@)),
                    decreases elems.len() - i,
                {
                    assert(decreases_to!(*elems => elems[i as int]));
                    match &elems[i] {
                        ArrayElem::Hole => {
                            push_unique(&mut types, Type::Keyword(Keyword::Undefined));
                        },
                        ArrayElem::Elem(x) => {
                            match self.type_of(x) {
                                Err(err) => {
                                    proof {
                                        lemma_array_err_stays(*self, *elems, (i + 1) as nat, elems.len() as nat);
                                    }
                                    return Err(err);
                                },
                                Ok(t) => {
                                    push_unique(&mut types, generalize_lit(t));
                                },
                            }
                        },
                        ArrayElem::Spread(_) => {
                            proof {
                                lemma_array_err_stays(*self, *elems, (i + 1) as nat, elems.len() as nat);
                            }
                            return Err(self.unsupported(Unsupported::ArraySpread));
                        },
                    }
                    i += 1;
                }
                Ok(Type::Array(Box::new(elem_type(types))))
            },
            Expr::Object(props) => {
                let mut members: Vec<Member> = Vec::new();
                let mut i: usize = 0;
                while i < props.len()
                    invariant
                        0 <= i <= props.len(),
                        *e == Expr::Object(*props),
                        members@.len() == i,
                        forall|j: int| 0 <= j < i ==> !(#[trigger] props@[j] is Spread),
                        forall|j: int| 0 <= j < i ==> member_m(#[trigger] members@[j]) == prop_member_m(props@[j]),
                    decreases props.len() - i,
                {
                    if let Prop::Spread(_) = &props[i] {
                        assert(props@[i as int] is Spread);
                        return Err(self.unsupported(Unsupported::ObjectSpread));
                    }
                    members.push(type_of_prop(&props[i]));
                    i += 1;
                }
                let r = Type::TypeLit(members);
                assert(ty_m(r)->TypeLit_0 =~= props@.map_values(|p: Prop| prop_member_m(p)));
                assert(!(exists|j: int| 0 <= j < props.len() && #[trigger] props@[j] is Spread));
                Ok(r)
            },
            Expr::Paren(x) => self.type_of(x),
            Expr::Tpl => Ok(Type::Keyword(Keyword::String)),
            Expr::Unary(op, x) => match op {
                UnaryOp::Not => match self.type_of(x) {
                    Ok(t) => Ok(negate(t)),
                    Err(err) => Err(err),
                },
                UnaryOp::TypeOf => Ok(Type::Keyword(Keyword::String)),
                UnaryOp::Void => Ok(Type::Keyword(Keyword::Undefined)),
                _ => Err(self.unsupported(Unsupported::Expression)),
            },
            Expr::Bin(op, _, r) => match op {
                BinOp::LogicalOr | BinOp::LogicalAnd => self.type_of(r),
                BinOp::Sub | BinOp::Add => Ok(Type::Keyword(Keyword::Number)),
                BinOp::EqEqEq | BinOp::NotEqEq | BinOp::EqEq | BinOp::NotEq | BinOp::Lt | BinOp::LtEq
                | BinOp::Gt | BinOp::GtEq => Ok(Type::Keyword(Keyword::Boolean)),
                _ => Err(self.unsupported(Unsupported::Expression)),
            },
            Expr::Assign(_, r) => self.type_of(r),
            Expr::Sequence(es) => {
                if es.len() == 0 {
                    Err(self.unsupported(Unsupported::EmptySequence))
                } else {
                    assert(decreases_to!(*es => es[es.len() - 1]));
                    self.type_of(&es[es.len() - 1])
                }
            },
            Expr::Cond(_, c, alt) => {
                let ct = match self.type_of(c) {
                    Ok(t) => t,
                    Err(err) => return Err(err),
                };
                let at = match self.type_of(alt) {
                    Ok(t) => t,
                    Err(err) => return Err(err),
                };
                if same_type(&ct, &at) {
                    Ok(ct)
                } else {
                    let ghost cm = ty_m(ct);
                    let ghost am = ty_m(at);
                    let r = Type::Union(vec![ct, at]);
                    assert(ty_m(r)->Union_0 =~= seq![cm, am]);
                    Ok(r)
                }
            },
            Expr::New(callee, args) => self.call_new(callee, ExtractKind::New, args),
            Expr::Call(callee, args) => self.call_new(callee, ExtractKind::Call, args),
            Expr::SuperCall(_) => Ok(Type::Keyword(Keyword::Any)),
            Expr::Member { obj, prop, computed } => {
                if let Expr::Ident(i) = &**obj {
                    if let Some(Type::Enum(_)) = find(&self.scope.types, &i.sym) {
                        return match &**prop {
                            Expr::Ident(p) => {
                                let r = Type::TypeRef(vec![copy_string(&i.sym), copy_string(&p.sym)]);
                                assert(ty_m(r)->TypeRef_0 =~= seq![i.sym@, p.sym@]);
                                Ok(r)
                            },
                            _ => Err(self.unsupported(Unsupported::EnumMemberNotIdent)),
                        };
                    }
                }
                let ot = match self.type_of(obj) {
                    Ok(t) => t,
                    Err(err) => return Err(err),
                };
                if *computed {
                    match self.type_of(prop) {
                        Ok(pt) => Ok(Type::IndexedAccess(Box::new(ot), Box::new(pt))),
                        Err(err) => Err(err),
                    }
                } else {
                    Ok(Type::IndexedAccess(Box::new(ot), Box::new(Type::Keyword(Keyword::String))))
                }
            },
            Expr::Fn(f) => self.fn_type(f),
            Expr::Arrow(f) => self.fn_type(f),
            Expr::Class(ms) => match self.class_members(ms) {
                Ok(mm) => {
                    let r = Type::TypeLit(mm);
                    assert(ty_m(r)->TypeLit_0 =~= members_m(mm@));
                    Ok(r)
                },
                Err(err) => Err(err),
            },
            Expr::MetaProp => Err(self.unsupported(Unsupported::MetaProp)),
            Expr::Yield => Ok(Type::Keyword(Keyword::Any)),
            Expr::Await(_) => Err(self.unsupported(Unsupported::Await)),
            Expr::Update(_) => Ok(Type::Keyword(Keyword::Number)),
            Expr::TsAs(_, t) => Ok(clone_type(t)),
            Expr::TsTypeCast(_, t) => Ok(clone_type(t)),
            Expr::TsNonNull(x) => match self.type_of(x) {
                Ok(t) => Ok(remove_falsy(t)),
                Err(err) => Err(err),
            },
        }
    }

    /// A call (or `new`) of `callee` with `args` (see `call_new_m`).
    pub fn call_new(&self, callee: &Expr, kind: ExtractKind, args: &Vec<Arg>) -> (r: Result<Type, Error>)
        requires
            expand_fuel(*self) + 1 < usize::MAX,
        ensures
            res_m(r) == call_new_m(*self, *callee, kind, *args),
        decreases callee, 1nat,
    {
        if let Expr::Ident(i) = callee {
            if is_word(&i.sym, "require") {
                return self.require(i, args);
            }
        }
        match callee {
            Expr::Member { obj, prop, computed } => {
                let ot = match self.type_of(obj) {
                    Ok(t) => t,
                    Err(err) => return Err(err),
                };
                self.method_call(&ot, prop, *computed, kind, args.len())
            },
            _ => {
                let t = match self.type_of(callee) {
                    Ok(t) => t,
                    Err(err) => return Err(err),
                };
                self.extract(&t, kind, args.len())
            },
        }
    }

    /// The function type of an arrow or a function (see `fn_type_m`).
    pub fn fn_type(&self, f: &Function) -> (r: Result<Type, Error>)
        requires
            expand_fuel(*self) + 1 < usize::MAX,
        ensures
            res_m(r) == fn_type_m(*self, *f),
        decreases f, 1nat,
    {
        let ret = match &f.return_type {
            Some(t) => {
                let fuel = self.resolved_imports.len() + self.scope.types.len();
                match self.expand_with(clone_type(t), fuel) {
                    Ok(t) => t,
                    Err(err) => return Err(err),
                }
            },
            None => match &f.body {
                FnBody::Block(ss) => match self.return_types(ss) {
                    Ok(ts) => returns_type(ts),
                    Err(err) => return Err(err),
                },
                FnBody::Expr(x) => match self.type_of(x) {
                    Ok(t) => t,
                    Err(err) => return Err(err),
                },
            },
        };
        Ok(Type::Function { params: clone_params(&f.params), ret: Box::new(ret) })
    }

    /// The types of the `return` statements in `ss`, in order.
    pub fn return_types(&self, ss: &Vec<Stmt>) -> (r: Result<Vec<Type>, Error>)
        requires
            expand_fuel(*self) + 1 < usize::MAX,
        ensures
            match r {
                Ok(v) => returns_m(*self, *ss, ss.len() as nat) == Ok::<Seq<TypeM>, ErrorM>(tys_m(v@)),
                Err(err) => returns_m(*self, *ss, ss.len() as nat) == Err::<Seq<TypeM>, ErrorM>(err_m(err)),
            },
        decreases ss, 0nat,
    {
        let mut out: Vec<Type> = Vec::new();
        let mut i: usize = 0;
        assert(tys_m(out@) =~= Seq::<TypeM>::empty());
        while i < ss.len()
            invariant
                expand_fuel(*self) + 1 < usize::MAX,
                0 <= i <= ss.len(),
                returns_m(*self, *ss, i as nat) == Ok::<Seq<TypeM>, ErrorM>(tys_m(out@)),
            decreases ss.len() - i,
        {
            assert(decreases_to!(*ss => ss[i as int]));
            match self.stmt_returns(&ss[i]) {
                Ok(us) => {
                    let ghost before = out@;
                    let mut us = us;
                    let ghost ua = us@;
                    out.append(&mut us);
                    assert(tys_m(out@) =~= tys_m(before) + tys_m(ua));
                },
                Err(err) => {
                    proof {
                        lemma_returns_err_stays(*self, *ss, (i + 1) as nat, ss.len() as nat);
                    }
                    return Err(err);
                },
            }
            i += 1;
        }
        Ok(out)
    }

    /// The types of the `return` statements in `s`, in order.
    pub fn stmt_returns(&self, s: &Stmt) -> (r: Result<Vec<Type>, Error>)
        requires
            expand_fuel(*self) + 1 < usize::MAX,
        ensures
            match r {
                Ok(v) => stmt_returns_m(*self, *s) == Ok::<Seq<TypeM>, ErrorM>(tys_m(v@)),
                Err(err) => stmt_returns_m(*self, *s) == Err::<Seq<TypeM>, ErrorM>(err_m(err)),
            },
        decreases s, 0nat,
    {
        match s {
            Stmt::Return(None) => {
                let v = vec![Type::Keyword(Keyword::Undefined)];
                assert(tys_m(v@) =~= seq![TypeM::Keyword(Keyword::Undefined)]);
                Ok(v)
            },
            Stmt::Return(Some(x)) => match self.type_of(x) {
                Ok(t) => {
                    let ghost tm = ty_m(t);
                    let v = vec![t];
                    assert(tys_m(v@) =~= seq![tm]);
                    Ok(v)
                },
                Err(err) => Err(err),
            },
            Stmt::Expr(_) => {
                let v: Vec<Type> = Vec::new();
                assert(tys_m(v@) =~= Seq::<TypeM>::empty());
                Ok(v)
            },
            Stmt::Block(v) => self.return_types(v),
            Stmt::If { cons, alt, .. } => {
                let mut ts = match self.stmt_returns(cons) {
                    Ok(ts) => ts,
                    Err(err) => return Err(err),
                };
                match alt {
                    None => Ok(ts),
                    Some(b) => match self.stmt_returns(b) {
                        Ok(us) => {
                            let ghost before = ts@;
                            let mut us = us;
                            let ghost ua = us@;
                            ts.append(&mut us);
                            assert(tys_m(ts@) =~= tys_m(before) + tys_m(ua));
                            Ok(ts)
                        },
                        Err(err) => Err(err),
                    },
                }
            },
        }
    }

    /// The public members of a class body: properties and constructors.
    pub fn class_members(&self, ms: &Vec<ClassMember>) -> (r: Result<Vec<Member>, Error>)
        requires
            expand_fuel(*self) + 1 < usize::MAX,
        ensures
            match r {
                Ok(v) => class_members_m(*self, *ms, ms.len() as nat) == Ok::<Seq<MemberM>, ErrorM>(members_m(v@)),
                Err(err) => class_members_m(*self, *ms, ms.len() as nat) == Err::<Seq<MemberM>, ErrorM>(err_m(err)),
            },
        decreases ms, 0nat,
    {
        let mut out: Vec<Member> = Vec::new();
        let mut i: usize = 0;
        assert(members_m(out@) =~= Seq::<MemberM>::empty());
        while i < ms.len()
            invariant
                expand_fuel(*self) + 1 < usize::MAX,
                0 <= i <= ms.len(),
                class_members_m(*self, *ms, i as nat) == Ok::<Seq<MemberM>, ErrorM>(members_m(out@)),
            decreases ms.len() - i,
        {
            assert(decreases_to!(*ms => ms[i as int]));
            let ghost before = out@;
            match &ms[i] {
                ClassMember::Prop { key, optional, readonly, type_ann, value } => {
                    let t = match type_ann {
                        Some(t) => clone_type(t),
                        None => match value {
                            Some(v) => match self.type_of(v) {
                                Ok(t) => t,
                                Err(err) => {
                                    proof {
                                        lemma_class_err_stays(*self, *ms, (i + 1) as nat, ms.len() as nat);
                                    }
                                    return Err(err);
                                },
                            },
                            None => Type::Keyword(Keyword::Any),
                        },
                    };
                    out.push(Member::Property {
                        key: copy_string(key),
                        optional: *optional,
                        readonly: *readonly,
                        ty: Some(Box::new(t)),
                    });
                    assert(members_m(out@) =~= members_m(before).push(member_m(out@.last())));
                },
                ClassMember::Constructor { params } => {
                    out.push(Member::Construct { params: clone_params(params), ret: None });
                    assert(members_m(out@) =~= members_m(before).push(member_m(out@.last())));
                },
                _ => {},
            }
            i += 1;
        }
        Ok(out)
    }
}

proof fn lemma_array_same_prefix(a: Analyzer, elems: Vec<ArrayElem>, t: TypeM, n: nat)
    requires
        1 <= n <= elems.len(),
        forall|j: int| 0 <= j < elems.len() ==> (#[trigger] elems@[j]) is Elem,
        forall|j: int| 0 <= j < elems.len() ==> type_of_m(a, (#[trigger] elems@[j])->Elem_0) == Ok::<TypeM, ErrorM>(t),
    ensures
        array_types_m(a, elems, n) == Ok::<Seq<TypeM>, ErrorM>(seq![generalize_m(t)]),
    decreases n,
{
    assert(elems@[n - 1] is Elem);
    assert(type_of_m(a, elems@[n - 1]->Elem_0) == Ok::<TypeM, ErrorM>(t));
    if n == 1 {
        assert(array_types_m(a, elems, 0) == Ok::<Seq<TypeM>, ErrorM>(Seq::empty()));
        assert(Seq::<TypeM>::empty().push(generalize_m(t)) =~= seq![generalize_m(t)]);
    } else {
        lemma_array_same_prefix(a, elems, t, (n - 1) as nat);
        assert(seq![generalize_m(t)].contains(generalize_m(t))) by {
            assert(seq![generalize_m(t)][0] == generalize_m(t));
        }
    }
}

/// An array literal whose elements all have one type has the array type of
/// that type, widened, with no union.
pub proof fn lemma_array_of_same_type(a: Analyzer, elems: Vec<ArrayElem>, t: TypeM)
    requires
        elems.len() >= 1,
        forall|j: int| 0 <= j < elems.len() ==> (#[trigger] elems@[j]) is Elem,
        forall|j: int| 0 <= j < elems.len() ==> type_of_m(a, (#[trigger] elems@[j])->Elem_0) == Ok::<TypeM, ErrorM>(t),
    ensures
        type_of_m(a, Expr::Array(elems)) == Ok::<TypeM, ErrorM>(TypeM::Array(Box::new(generalize_m(t)))),
{
    lemma_array_same_prefix(a, elems, t, elems.len() as nat);
}

/// A conditional whose two arms have the same type has that type, with no union.
pub proof fn lemma_cond_same_type(a: Analyzer, test: Box<Expr>, cons: Box<Expr>, alt: Box<Expr>, t: TypeM)
    requires
        type_of_m(a, *cons) == Ok::<TypeM, ErrorM>(t),
        type_of_m(a, *alt) == Ok::<TypeM, ErrorM>(t),
    ensures
        type_of_m(a, Expr::Cond(test, cons, alt)) == Ok::<TypeM, ErrorM>(t),
{
}

} // verus!
