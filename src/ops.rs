use vstd::prelude::*;
use crate::types::{Keyword, LitM, LitValue, Type, TypeM, clone_type, same_type, ty_m, tys_m};

verus! {

/// The type of `!x` for `x` of type `t`.
pub open spec fn negate_m(t: TypeM) -> TypeM {
    match t {
        TypeM::Lit(LitM::Bool(b)) => TypeM::Lit(LitM::Bool(!b)),
        TypeM::Lit(LitM::Num(n)) => TypeM::Lit(LitM::Bool(n != 0)),
        TypeM::Lit(LitM::Str(s)) => TypeM::Lit(LitM::Bool(s.len() != 0)),
        _ => TypeM::Keyword(Keyword::Boolean),
    }
}

/// A literal type widened to its primitive keyword type.
pub open spec fn generalize_m(t: TypeM) -> TypeM {
    match t {
        TypeM::Lit(LitM::Bool(_)) => TypeM::Keyword(Keyword::Boolean),
        TypeM::Lit(LitM::Num(_)) => TypeM::Keyword(Keyword::Number),
        TypeM::Lit(LitM::Str(_)) => TypeM::Keyword(Keyword::String),
        _ => t,
    }
}

/// `undefined`, `null` and the literal `false`.
pub open spec fn falsy_m(t: TypeM) -> bool {
    t == TypeM::Keyword(Keyword::Undefined) || t == TypeM::Keyword(Keyword::Null) || t
        == TypeM::Lit(LitM::Bool(false))
}

/// The members of `s` that are not falsy, in order.
pub open spec fn truthy_members(s: Seq<TypeM>) -> Seq<TypeM>
    decreases s.len(),
{
    if s.len() == 0 {
        s
    } else {
        let r = truthy_members(s.drop_last());
        if falsy_m(s.last()) {
            r
        } else {
            r.push(s.last())
        }
    }
}

/// A list of members as one type: `never` when empty, the member itself when
/// single, else their union.
pub open spec fn collapse_m(s: Seq<TypeM>) -> TypeM {
    if s.len() == 0 {
        TypeM::Keyword(Keyword::Never)
    } else if s.len() == 1 {
        s[0]
    } else {
        TypeM::Union(s)
    }
}

/// `t` with the falsy members of a union removed.
pub open spec fn remove_falsy_m(t: TypeM) -> TypeM {
    match t {
        TypeM::Union(s) => collapse_m(truthy_members(s)),
        _ => t,
    }
}

/// `s` with each later repetition of an earlier member left out.
pub open spec fn dedup_m(s: Seq<TypeM>) -> Seq<TypeM>
    decreases s.len(),
{
    if s.len() == 0 {
        s
    } else {
        let r = dedup_m(s.drop_last());
        if r.contains(s.last()) {
            r
        } else {
            r.push(s.last())
        }
    }
}

/// The `any` type.
pub fn any() -> (r: Type)
    ensures
        ty_m(r) == TypeM::Keyword(Keyword::Any),
{
    Type::Keyword(Keyword::Any)
}

/// The `undefined` type.
pub fn undefined() -> (r: Type)
    ensures
        ty_m(r) == TypeM::Keyword(Keyword::Undefined),
{
    Type::Keyword(Keyword::Undefined)
}

/// The `never` type.
pub fn never_ty() -> (r: Type)
    ensures
        ty_m(r) == TypeM::Keyword(Keyword::Never),
{
    Type::Keyword(Keyword::Never)
}

/// The type of `!x` for `x` of type `ty`.
pub fn negate(ty: Type) -> (r: Type)
    ensures
        ty_m(r) == negate_m(ty_m(ty)),
{
    match ty {
        Type::Lit(LitValue::Bool(b)) => Type::Lit(LitValue::Bool(!b)),
        Type::Lit(LitValue::Num(n)) => Type::Lit(LitValue::Bool(n != 0)),
        Type::Lit(LitValue::Str(s)) => Type::Lit(LitValue::Bool(!s.as_str().is_empty())),
        _ => Type::Keyword(Keyword::Boolean),
    }
}

/// Widens a literal type to its primitive.
pub fn generalize_lit(ty: Type) -> (r: Type)
    ensures
        ty_m(r) == generalize_m(ty_m(ty)),
{
    match ty {
        Type::Lit(LitValue::Bool(_)) => Type::Keyword(Keyword::Boolean),
        Type::Lit(LitValue::Num(_)) => Type::Keyword(Keyword::Number),
        Type::Lit(LitValue::Str(_)) => Type::Keyword(Keyword::String),
        _ => ty,
    }
}

fn is_falsy(t: &Type) -> (r: bool)
    ensures
        r == falsy_m(ty_m(*t)),
{
    match t {
        Type::Keyword(Keyword::Undefined) => true,
        Type::Keyword(Keyword::Null) => true,
        Type::Lit(LitValue::Bool(b)) => !*b,
        _ => false,
    }
}

/// Makes one type of a list of members (see `collapse_m`).
pub fn collapse(ts: Vec<Type>) -> (r: Type)
    ensures
        ty_m(r) == collapse_m(tys_m(ts@)),
{
    let mut ts = ts;
    if ts.len() == 0 {
        Type::Keyword(Keyword::Never)
    } else if ts.len() == 1 {
        let t = ts.pop().unwrap();
        t
    } else {
        let r = Type::Union(ts);
        assert(ty_m(r)->Union_0 =~= tys_m(ts@));
        r
    }
}

/// Removes `undefined`, `null` and `false` from a union, collapsing what is left.
pub fn remove_falsy(ty: Type) -> (r: Type)
    ensures
        ty_m(r) == remove_falsy_m(ty_m(ty)),
{
    match ty {
        Type::Union(ts) => {
            let ghost m = ty_m(Type::Union(ts))->Union_0;
            assert(m =~= tys_m(ts@));
            let mut kept: Vec<Type> = Vec::new();
            let mut i: usize = 0;
            while i < ts.len()
                invariant
                    0 <= i <= ts.len(),
                    m == tys_m(ts@),
                    tys_m(kept@) == truthy_members(m.take(i as int)),
                decreases ts.len() - i,
            {
                assert(m.take(i + 1).drop_last() =~= m.take(i as int));
                if !is_falsy(&ts[i]) {
                    kept.push(clone_type(&ts[i]));
                    assert(tys_m(kept@) =~= truthy_members(m.take(i as int)).push(m[i as int]));
                }
                i += 1;
            }
            assert(m.take(ts.len() as int) =~= m);
            collapse(kept)
        },
        _ => ty,
    }
}

/// Appends `t` to `ts` unless an equal member is already there.
pub fn push_unique(ts: &mut Vec<Type>, t: Type)
    ensures
        tys_m(final(ts)@) == if tys_m(old(ts)@).contains(ty_m(t)) {
            tys_m(old(ts)@)
        } else {
            tys_m(old(ts)@).push(ty_m(t))
        },
{
    let mut i: usize = 0;
    while i < ts.len()
        invariant
            0 <= i <= ts.len(),
            ts == old(ts),
            forall|j: int| 0 <= j < i ==> ty_m(#[trigger] ts@[j]) != ty_m(t),
        decreases ts.len() - i,
    {
        if same_type(&ts[i], &t) {
            assert(tys_m(ts@)[i as int] == ty_m(t));
            return;
        }
        i += 1;
    }
    assert(!tys_m(ts@).contains(ty_m(t)));
    ts.push(t);
    assert(tys_m(ts@) =~= tys_m(old(ts)@).push(ty_m(t)));
}

/// Negating a boolean literal type twice gives it back.
pub proof fn lemma_negate_bool_twice(b: bool)
    ensures
        negate_m(negate_m(TypeM::Lit(LitM::Bool(b)))) == TypeM::Lit(LitM::Bool(b)),
{
}

/// Negating any other literal type gives a boolean literal type, and so does
/// negating it again.
pub proof fn lemma_negate_lit_gives_bool_lit(t: TypeM)
    requires
        t is Lit,
    ensures
        negate_m(t) is Lit && negate_m(t)->Lit_0 is Bool,
        negate_m(negate_m(t)) is Lit && negate_m(negate_m(t))->Lit_0 is Bool,
{
}

} // verus!
