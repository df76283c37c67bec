use vstd::prelude::*;

verus! {

broadcast use vstd::std_specs::vec::axiom_vec_index_decreases;

/// The keyword types.
#[derive(Clone, Copy, Debug, PartialEq, Eq, Structural)]
pub enum Keyword {
    Any,
    Undefined,
    Null,
    Void,
    Number,
    String,
    Boolean,
    Never,
    /// The `this` type.
    This,
}

/// The value of a literal type.
#[derive(Clone, Debug)]
pub enum LitValue {
    Bool(bool),
    Num(i64),
    Str(String),
}

/// A parameter of a signature: its name and whether it is optional.
#[derive(Clone, Debug)]
pub struct Param {
    pub name: String,
    pub optional: bool,
}

/// A member of a type literal.
#[derive(Debug)]
pub enum Member {
    Property { key: String, optional: bool, readonly: bool, ty: Option<Box<Type>> },
    Method { key: String, params: Vec<Param>, ret: Option<Box<Type>> },
    Call { params: Vec<Param>, ret: Option<Box<Type>> },
    Construct { params: Vec<Param>, ret: Option<Box<Type>> },
}

/// A type as the analyzer sees it. Types carry no source positions, so
/// equality ignoring spans is plain structural equality of the models.
#[derive(Debug)]
pub enum Type {
    Keyword(Keyword),
    Lit(LitValue),
    TypeLit(Vec<Member>),
    /// A reference by a possibly qualified name: `A.B.C` is `["A", "B", "C"]`.
    TypeRef(Vec<String>),
    IndexedAccess(Box<Type>, Box<Type>),
    Function { params: Vec<Param>, ret: Box<Type> },
    Constructor { params: Vec<Param>, ret: Box<Type> },
    /// `typeof name`.
    Query(String),
    Array(Box<Type>),
    Union(Vec<Type>),
    Enum(String),
}

pub enum LitM {
    Bool(bool),
    Num(i64),
    Str(Seq<char>),
}

pub struct ParamM {
    pub name: Seq<char>,
    pub optional: bool,
}

pub enum MemberM {
    Property { key: Seq<char>, optional: bool, readonly: bool, ty: Option<TypeM> },
    Method { key: Seq<char>, params: Seq<ParamM>, ret: Option<TypeM> },
    Call { params: Seq<ParamM>, ret: Option<TypeM> },
    Construct { params: Seq<ParamM>, ret: Option<TypeM> },
}

/// The mathematical value of a `Type`.
pub enum TypeM {
    Keyword(Keyword),
    Lit(LitM),
    TypeLit(Seq<MemberM>),
    TypeRef(Seq<Seq<char>>),
    IndexedAccess(Box<TypeM>, Box<TypeM>),
    Function(Seq<ParamM>, Box<TypeM>),
    Constructor(Seq<ParamM>, Box<TypeM>),
    Query(Seq<char>),
    Array(Box<TypeM>),
    Union(Seq<TypeM>),
    Enum(Seq<char>),
}

pub open spec fn lit_m(l: LitValue) -> LitM {
    match l {
        LitValue::Bool(b) => LitM::Bool(b),
        LitValue::Num(n) => LitM::Num(n),
        LitValue::Str(s) => LitM::Str(s@),
    }
}

pub open spec fn param_m(p: Param) -> ParamM {
    ParamM { name: p.name@, optional: p.optional }
}

pub open spec fn params_m(ps: Vec<Param>) -> Seq<ParamM> {
    ps@.map_values(|p: Param| param_m(p))
}

pub open spec fn names_m(ns: Vec<String>) -> Seq<Seq<char>> {
    ns@.map_values(|n: String| n@)
}

pub open spec fn opt_m(o: Option<Box<Type>>) -> Option<TypeM>
    decreases o,
{
    match o {
        Some(b) => Some(ty_m(*b)),
        None => None,
    }
}

pub open spec fn member_m(m: Member) -> MemberM
    decreases m,
{
    match m {
        Member::Property { key, optional, readonly, ty } => MemberM::Property {
            key: key@,
            optional,
            readonly,
            ty: opt_m(ty),
        },
        Member::Method { key, params, ret } => MemberM::Method {
            key: key@,
            params: params_m(params),
            ret: opt_m(ret),
        },
        Member::Call { params, ret } => MemberM::Call { params: params_m(params), ret: opt_m(ret) },
        Member::Construct { params, ret } => MemberM::Construct {
            params: params_m(params),
            ret: opt_m(ret),
        },
    }
}

/// The model of a type.
pub open spec fn ty_m(t: Type) -> TypeM
    decreases t,
{
    match t {
        Type::Keyword(k) => TypeM::Keyword(k),
        Type::Lit(l) => TypeM::Lit(lit_m(l)),
        Type::TypeLit(ms) => TypeM::TypeLit(
            Seq::new(ms.len() as nat, |i: int| if 0 <= i < ms.len() { member_m(ms[i]) } else { arbitrary() }),
        ),
        Type::TypeRef(ns) => TypeM::TypeRef(names_m(ns)),
        Type::IndexedAccess(o, i) => TypeM::IndexedAccess(Box::new(ty_m(*o)), Box::new(ty_m(*i))),
        Type::Function { params, ret } => TypeM::Function(params_m(params), Box::new(ty_m(*ret))),
        Type::Constructor { params, ret } => TypeM::Constructor(
            params_m(params),
            Box::new(ty_m(*ret)),
        ),
        Type::Query(n) => TypeM::Query(n@),
        Type::Array(e) => TypeM::Array(Box::new(ty_m(*e))),
        Type::Union(ts) => TypeM::Union(
            Seq::new(ts.len() as nat, |i: int| if 0 <= i < ts.len() { ty_m(ts[i]) } else { arbitrary() }),
        ),
        Type::Enum(n) => TypeM::Enum(n@),
    }
}

/// The models of a sequence of types.
pub open spec fn tys_m(ts: Seq<Type>) -> Seq<TypeM> {
    ts.map_values(|t: Type| ty_m(t))
}

/// Copies a string.
pub fn copy_string(s: &String) -> (r: String)
    ensures
        r@ == s@,
{
    s.clone()
}

/// Copies a list of parameters.
pub fn clone_params(ps: &Vec<Param>) -> (r: Vec<Param>)
    ensures
        params_m(*ps) == params_m(r),
{
    let mut r: Vec<Param> = Vec::new();
    let mut i: usize = 0;
    while i < ps.len()
        invariant
            0 <= i <= ps.len(),
            r@.len() == i,
            forall|j: int| 0 <= j < i ==> param_m(#[trigger] r@[j]) == param_m(ps@[j]),
        decreases ps.len() - i,
    {
        r.push(Param { name: copy_string(&ps[i].name), optional: ps[i].optional });
        i += 1;
    }
    assert(params_m(*ps) =~= params_m(r));
    r
}

/// Copies a qualified name.
pub fn clone_names(ns: &Vec<String>) -> (r: Vec<String>)
    ensures
        names_m(*ns) == names_m(r),
{
    let mut r: Vec<String> = Vec::new();
    let mut i: usize = 0;
    while i < ns.len()
        invariant
            0 <= i <= ns.len(),
            r@.len() == i,
            forall|j: int| 0 <= j < i ==> (#[trigger] r@[j])@ == ns@[j]@,
        decreases ns.len() - i,
    {
        r.push(copy_string(&ns[i]));
        i += 1;
    }
    assert(names_m(*ns) =~= names_m(r));
    r
}

/// Compares two parameter lists.
pub fn same_params(a: &Vec<Param>, b: &Vec<Param>) -> (r: bool)
    ensures
        r == (params_m(*a) == params_m(*b)),
{
    if a.len() != b.len() {
        assert(params_m(*a).len() != params_m(*b).len());
        return false;
    }
    let mut i: usize = 0;
    while i < a.len()
        invariant
            a.len() == b.len(),
            0 <= i <= a.len(),
            forall|j: int| 0 <= j < i ==> param_m(#[trigger] a@[j]) == param_m(b@[j]),
        decreases a.len() - i,
    {
        if a[i].optional != b[i].optional || a[i].name != b[i].name {
            assert(params_m(*a)[i as int] != params_m(*b)[i as int]);
            return false;
        }
        i += 1;
    }
    assert(params_m(*a) =~= params_m(*b));
    true
}

/// Compares two qualified names.
pub fn same_names(a: &Vec<String>, b: &Vec<String>) -> (r: bool)
    ensures
        r == (names_m(*a) == names_m(*b)),
{
    if a.len() != b.len() {
        assert(names_m(*a).len() != names_m(*b).len());
        return false;
    }
    let mut i: usize = 0;
    while i < a.len()
        invariant
            a.len() == b.len(),
            0 <= i <= a.len(),
            forall|j: int| 0 <= j < i ==> (#[trigger] a@[j])@ == b@[j]@,
        decreases a.len() - i,
    {
        if a[i] != b[i] {
            assert(names_m(*a)[i as int] != names_m(*b)[i as int]);
            return false;
        }
        i += 1;
    }
    assert(names_m(*a) =~= names_m(*b));
    true
}

pub fn clone_lit(l: &LitValue) -> (r: LitValue)
    ensures
        lit_m(r) == lit_m(*l),
{
    match l {
        LitValue::Bool(b) => LitValue::Bool(*b),
        LitValue::Num(n) => LitValue::Num(*n),
        LitValue::Str(s) => LitValue::Str(copy_string(s)),
    }
}

pub fn same_lit(a: &LitValue, b: &LitValue) -> (r: bool)
    ensures
        r == (lit_m(*a) == lit_m(*b)),
{
    match (a, b) {
        (LitValue::Bool(x), LitValue::Bool(y)) => *x == *y,
        (LitValue::Num(x), LitValue::Num(y)) => *x == *y,
        (LitValue::Str(x), LitValue::Str(y)) => *x == *y,
        _ => false,
    }
}

pub fn clone_opt(o: &Option<Box<Type>>) -> (r: Option<Box<Type>>)
    ensures
        opt_m(r) == opt_m(*o),
    decreases o,
{
    match o {
        Some(b) => Some(Box::new(clone_type(b))),
        None => None,
    }
}

pub fn same_opt(a: &Option<Box<Type>>, b: &Option<Box<Type>>) -> (r: bool)
    ensures
        r == (opt_m(*a) == opt_m(*b)),
    decreases a,
{
    match (a, b) {
        (Some(x), Some(y)) => same_type(x, y),
        (None, None) => true,
        _ => false,
    }
}

pub fn clone_member(m: &Member) -> (r: Member)
    ensures
        member_m(r) == member_m(*m),
    decreases m,
{
    match m {
        Member::Property { key, optional, readonly, ty } => Member::Property {
            key: copy_string(key),
            optional: *optional,
            readonly: *readonly,
            ty: clone_opt(ty),
        },
        Member::Method { key, params, ret } => Member::Method {
            key: copy_string(key),
            params: clone_params(params),
            ret: clone_opt(ret),
        },
        Member::Call { params, ret } => Member::Call {
            params: clone_params(params),
            ret: clone_opt(ret),
        },
        Member::Construct { params, ret } => Member::Construct {
            params: clone_params(params),
            ret: clone_opt(ret),
        },
    }
}

pub fn same_member(a: &Member, b: &Member) -> (r: bool)
    ensures
        r == (member_m(*a) == member_m(*b)),
    decreases a,
{
    match (a, b) {
        (
            Member::Property { key: k1, optional: o1, readonly: r1, ty: t1 },
            Member::Property { key: k2, optional: o2, readonly: r2, ty: t2 },
        ) => *k1 == *k2 && *o1 == *o2 && *r1 == *r2 && same_opt(t1, t2),
        (
            Member::Method { key: k1, params: p1, ret: t1 },
            Member::Method { key: k2, params: p2, ret: t2 },
        ) => *k1 == *k2 && same_params(p1, p2) && same_opt(t1, t2),
        (Member::Call { params: p1, ret: t1 }, Member::Call { params: p2, ret: t2 }) => same_params(
            p1,
            p2,
        ) && same_opt(t1, t2),
        (
            Member::Construct { params: p1, ret: t1 },
            Member::Construct { params: p2, ret: t2 },
        ) => same_params(p1, p2) && same_opt(t1, t2),
        _ => false,
    }
}

/// Copies a type.
pub fn clone_type(t: &Type) -> (r: Type)
    ensures
        ty_m(r) == ty_m(*t),
    decreases t,
{
    match t {
        Type::Keyword(k) => Type::Keyword(*k),
        Type::Lit(l) => Type::Lit(clone_lit(l)),
        Type::TypeLit(ms) => {
            let mut out: Vec<Member> = Vec::new();
            let mut i: usize = 0;
            while i < ms.len()
                invariant
                    decreases_to!(*t => *ms),
                    0 <= i <= ms.len(),
                    out@.len() == i,
                    forall|j: int| 0 <= j < i ==> member_m(#[trigger] out@[j]) == member_m(ms@[j]),
                decreases ms.len() - i,
            {
                out.push(clone_member(&ms[i]));
                i += 1;
            }
            let r = Type::TypeLit(out);
            assert(ty_m(r)->TypeLit_0 =~= ty_m(*t)->TypeLit_0);
            r
        },
        Type::TypeRef(ns) => Type::TypeRef(clone_names(ns)),
        Type::IndexedAccess(o, i) => Type::IndexedAccess(
            Box::new(clone_type(o)),
            Box::new(clone_type(i)),
        ),
        Type::Function { params, ret } => Type::Function {
            params: clone_params(params),
            ret: Box::new(clone_type(ret)),
        },
        Type::Constructor { params, ret } => Type::Constructor {
            params: clone_params(params),
            ret: Box::new(clone_type(ret)),
        },
        Type::Query(n) => Type::Query(copy_string(n)),
        Type::Array(e) => Type::Array(Box::new(clone_type(e))),
        Type::Union(ts) => {
            let mut out: Vec<Type> = Vec::new();
            let mut i: usize = 0;
            while i < ts.len()
                invariant
                    decreases_to!(*t => *ts),
                    0 <= i <= ts.len(),
                    out@.len() == i,
                    forall|j: int| 0 <= j < i ==> ty_m(#[trigger] out@[j]) == ty_m(ts@[j]),
                decreases ts.len() - i,
            {
                out.push(clone_type(&ts[i]));
                i += 1;
            }
            let r = Type::Union(out);
            assert(ty_m(r)->Union_0 =~= ty_m(*t)->Union_0);
            r
        },
        Type::Enum(n) => Type::Enum(copy_string(n)),
    }
}

/// Compares two types, ignoring source positions.
pub fn same_type(a: &Type, b: &Type) -> (r: bool)
    ensures
        r == (ty_m(*a) == ty_m(*b)),
    decreases a,
{
    match (a, b) {
        (Type::Keyword(x), Type::Keyword(y)) => *x == *y,
        (Type::Lit(x), Type::Lit(y)) => same_lit(x, y),
        (Type::TypeLit(x), Type::TypeLit(y)) => {
            if x.len() != y.len() {
                assert(ty_m(*a)->TypeLit_0.len() != ty_m(*b)->TypeLit_0.len());
                return false;
            }
            let mut i: usize = 0;
            while i < x.len()
                invariant
                    decreases_to!(*a => *x),
                    *a == Type::TypeLit(*x),
                    *b == Type::TypeLit(*y),
                    x.len() == y.len(),
                    0 <= i <= x.len(),
                    forall|j: int| 0 <= j < i ==> member_m(#[trigger] x@[j]) == member_m(y@[j]),
                decreases x.len() - i,
            {
                if !same_member(&x[i], &y[i]) {
                    assert(ty_m(*a)->TypeLit_0[i as int] != ty_m(*b)->TypeLit_0[i as int]);
                    return false;
                }
                i += 1;
            }
            assert(ty_m(*a)->TypeLit_0 =~= ty_m(*b)->TypeLit_0);
            true
        },
        (Type::TypeRef(x), Type::TypeRef(y)) => same_names(x, y),
        (Type::IndexedAccess(o1, i1), Type::IndexedAccess(o2, i2)) => same_type(o1, o2) && same_type(i1, i2),
        (Type::Function { params: p1, ret: r1 }, Type::Function { params: p2, ret: r2 }) => same_params(p1, p2)
            && same_type(r1, r2),
        (Type::Constructor { params: p1, ret: r1 }, Type::Constructor { params: p2, ret: r2 }) => same_params(
            p1,
            p2,
        ) && same_type(r1, r2),
        (Type::Query(x), Type::Query(y)) => *x == *y,
        (Type::Array(x), Type::Array(y)) => same_type(x, y),
        (Type::Union(x), Type::Union(y)) => {
            if x.len() != y.len() {
                assert(ty_m(*a)->Union_0.len() != ty_m(*b)->Union_0.len());
                return false;
            }
            let mut i: usize = 0;
            while i < x.len()
                invariant
                    decreases_to!(*a => *x),
                    *a == Type::Union(*x),
                    *b == Type::Union(*y),
                    x.len() == y.len(),
                    0 <= i <= x.len(),
                    forall|j: int| 0 <= j < i ==> ty_m(#[trigger] x@[j]) == ty_m(y@[j]),
                decreases x.len() - i,
            {
                if !same_type(&x[i], &y[i]) {
                    assert(ty_m(*a)->Union_0[i as int] != ty_m(*b)->Union_0[i as int]);
                    return false;
                }
                i += 1;
            }
            assert(ty_m(*a)->Union_0 =~= ty_m(*b)->Union_0);
            true
        },
        (Type::Enum(x), Type::Enum(y)) => *x == *y,
        _ => false,
    }
}

} // verus!
