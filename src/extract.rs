use vstd::prelude::*;
use crate::analyzer::{
    Analyzer, Error, ErrorM, ExtractKind, Unsupported, err_m, expand_fuel, no_signature, expand_m, no_signature_m,
    res_m, try_instantiate, try_instantiate_m,
};
use crate::types::{Keyword, Member, MemberM, Type, TypeM, clone_type, member_m, opt_m, ty_m};

verus! {

broadcast use {vstd::std_specs::vec::axiom_vec_index_decreases, vstd::seq::axiom_seq_index_decreases};

/// A declared return type, `any` where none is declared.
pub open spec fn ret_or_any(o: Option<TypeM>) -> TypeM {
    match o {
        Some(t) => t,
        None => TypeM::Keyword(Keyword::Any),
    }
}

/// The number of members of a union; `0` for other types.
pub open spec fn width(t: TypeM) -> nat {
    match t {
        TypeM::Union(ms) => ms.len(),
        _ => 0,
    }
}

/// The return type of the first signature of `kind` among `ms[i..]` that
/// accepts `nargs` arguments.
pub open spec fn first_signature_m(ms: Seq<MemberM>, kind: ExtractKind, nargs: nat, i: int) -> Option<
    TypeM,
>
    decreases ms.len() - i,
{
    if i < 0 || i >= ms.len() {
        None
    } else {
        match ms[i] {
            MemberM::Call { params, ret } if kind == ExtractKind::Call => if try_instantiate_m(
                params,
                ret_or_any(ret),
                nargs,
            ) is Ok {
                Some(ret_or_any(ret))
            } else {
                first_signature_m(ms, kind, nargs, i + 1)
            },
            MemberM::Construct { params, ret } if kind == ExtractKind::New => if try_instantiate_m(
                params,
                ret_or_any(ret),
                nargs,
            ) is Ok {
                Some(ret_or_any(ret))
            } else {
                first_signature_m(ms, kind, nargs, i + 1)
            },
            _ => first_signature_m(ms, kind, nargs, i + 1),
        }
    }
}

/// The type that a call (or `new`) with `nargs` arguments on a value of type
/// `t` gives. References are expanded first; a union gives the first member
/// that accepts the call, or all the members' errors in order.
pub open spec fn extract_m(a: Analyzer, t: TypeM, kind: ExtractKind, nargs: nat, fuel: nat) -> Result<
    TypeM,
    ErrorM,
>
    decreases fuel, t, width(t) + 2,
{
    if t is TypeRef || t is Query {
        match expand_m(a, t, expand_fuel(a)) {
            Err(e) => Err(e),
            Ok(u) => if fuel == 0 {
                Err(ErrorM::Unimplemented(Unsupported::CyclicType, Seq::empty(), a.path@))
            } else {
                extract_expanded_m(a, u, kind, nargs, (fuel - 1) as nat)
            },
        }
    } else {
        extract_expanded_m(a, t, kind, nargs, fuel)
    }
}

/// `extract_m` on a type that has been expanded.
pub open spec fn extract_expanded_m(
    a: Analyzer,
    u: TypeM,
    kind: ExtractKind,
    nargs: nat,
    fuel: nat,
) -> Result<TypeM, ErrorM>
    decreases fuel, u, width(u) + 1,
{
    match u {
        TypeM::Keyword(Keyword::Any) => Ok(TypeM::Keyword(Keyword::Any)),
        TypeM::TypeLit(ms) => match first_signature_m(ms, kind, nargs, 0) {
            Some(r) => Ok(r),
            None => Err(no_signature_m(kind)),
        },
        TypeM::Function(ps, r) => if kind == ExtractKind::Call {
            try_instantiate_m(ps, *r, nargs)
        } else {
            Err(no_signature_m(kind))
        },
        TypeM::Constructor(ps, r) => if kind == ExtractKind::New {
            try_instantiate_m(ps, *r, nargs)
        } else {
            Err(no_signature_m(kind))
        },
        TypeM::Union(_) => union_extract_m(a, u, kind, nargs, fuel, 0, Seq::empty()),
        _ => Err(no_signature_m(kind)),
    }
}

/// Tries the members of union `u` from `i` on, `errs` holding the errors of
/// those before.
pub open spec fn union_extract_m(
    a: Analyzer,
    u: TypeM,
    kind: ExtractKind,
    nargs: nat,
    fuel: nat,
    i: nat,
    errs: Seq<ErrorM>,
) -> Result<TypeM, ErrorM>
    decreases fuel, u, width(u) - i,
{
    if !(u is Union) || i >= width(u) {
        Err(ErrorM::UnionError(errs))
    } else {
        match extract_m(a, u->Union_0[i as int], kind, nargs, fuel) {
            Ok(r) => Ok(r),
            Err(e) => union_extract_m(a, u, kind, nargs, fuel, i + 1, errs.push(e)),
        }
    }
}

/// The nesting of expansions that `extract` allows.
pub open spec fn extract_fuel(a: Analyzer) -> nat {
    expand_fuel(a) + 1
}

pub open spec fn errs_m(es: Seq<Error>) -> Seq<ErrorM> {
    es.map_values(|e: Error| err_m(e))
}

fn ret_type(o: &Option<Box<Type>>) -> (r: Type)
    ensures
        ty_m(r) == ret_or_any(opt_m(*o)),
{
    match o {
        Some(t) => clone_type(t),
        None => Type::Keyword(Keyword::Any),
    }
}

/// The return type of the first signature of `kind` in `ms` that accepts
/// `nargs` arguments.
pub fn first_signature(ms: &Vec<Member>, kind: ExtractKind, nargs: usize) -> (r: Option<Type>)
    ensures
        match r {
            Some(t) => first_signature_m(ms@.map_values(|m: Member| member_m(m)), kind, nargs as nat, 0)
                == Some(ty_m(t)),
            None => first_signature_m(ms@.map_values(|m: Member| member_m(m)), kind, nargs as nat, 0) is None,
        },
{
    let ghost mm = ms@.map_values(|m: Member| member_m(m));
    let mut i: usize = 0;
    while i < ms.len()
        invariant
            0 <= i <= ms.len(),
            mm == ms@.map_values(|m: Member| member_m(m)),
            first_signature_m(mm, kind, nargs as nat, 0) == first_signature_m(mm, kind, nargs as nat, i as int),
        decreases ms.len() - i,
    {
        assert(mm[i as int] == member_m(ms@[i as int]));
        match &ms[i] {
            Member::Call { params, ret } => {
                if kind == ExtractKind::Call {
                    if try_instantiate(params, ret_type(ret), nargs).is_ok() {
                        return Some(ret_type(ret));
                    }
                }
            },
            Member::Construct { params, ret } => {
                if kind == ExtractKind::New {
                    if try_instantiate(params, ret_type(ret), nargs).is_ok() {
                        return Some(ret_type(ret));
                    }
                }
            },
            _ => {},
        }
        i += 1;
    }
    None
}

impl Analyzer {
    /// The type that a call (`kind` `Call`) or a `new` with `nargs` arguments
    /// gives on a value of type `ty` (see `extract_m`).
    pub fn extract(&self, ty: &Type, kind: ExtractKind, nargs: usize) -> (r: Result<Type, Error>)
        requires
            expand_fuel(*self) + 1 < usize::MAX,
        ensures
            res_m(r) == extract_m(*self, ty_m(*ty), kind, nargs as nat, extract_fuel(*self)),
    {
        let fuel = self.resolved_imports.len() + self.scope.types.len() + 1;
        self.extract_with(ty, kind, nargs, fuel)
    }

    fn extract_with(&self, ty: &Type, kind: ExtractKind, nargs: usize, fuel: usize) -> (r: Result<Type, Error>)
        requires
            expand_fuel(*self) < usize::MAX,
        ensures
            res_m(r) == extract_m(*self, ty_m(*ty), kind, nargs as nat, fuel as nat),
        decreases fuel, ty, 2nat,
    {
        match ty {
            Type::TypeRef(_) | Type::Query(_) => {
                let efuel = self.resolved_imports.len() + self.scope.types.len();
                match self.expand_with(clone_type(ty), efuel) {
                    Err(e) => Err(e),
                    Ok(u) => {
                        if fuel == 0 {
                            Err(Error::Unimplemented {
                                what: Unsupported::CyclicType,
                                name: String::new(),
                                path: crate::types::copy_string(&self.path),
                            })
                        } else {
                            self.extract_expanded(&u, kind, nargs, fuel - 1)
                        }
                    },
                }
            },
            _ => self.extract_expanded(ty, kind, nargs, fuel),
        }
    }

    fn extract_expanded(&self, u: &Type, kind: ExtractKind, nargs: usize, fuel: usize) -> (r: Result<Type, Error>)
        requires
            expand_fuel(*self) < usize::MAX,
        ensures
            res_m(r) == extract_expanded_m(*self, ty_m(*u), kind, nargs as nat, fuel as nat),
        decreases fuel, u, 1nat,
    {
        match u {
            Type::Keyword(Keyword::Any) => Ok(Type::Keyword(Keyword::Any)),
            Type::TypeLit(ms) => {
                proof {
                    assert(ty_m(*u)->TypeLit_0 =~= ms@.map_values(|m: Member| member_m(m)));
                }
                match first_signature(ms, kind, nargs) {
                    Some(r) => Ok(r),
                    None => Err(no_signature(kind)),
                }
            },
            Type::Function { params, ret } => {
                if kind == ExtractKind::Call {
                    try_instantiate(params, clone_type(ret), nargs)
                } else {
                    Err(no_signature(kind))
                }
            },
            Type::Constructor { params, ret } => {
                if kind == ExtractKind::New {
                    try_instantiate(params, clone_type(ret), nargs)
                } else {
                    Err(no_signature(kind))
                }
            },
            Type::Union(ms) => {
                let ghost um = ty_m(*u);
                let ghost uu = *u;
                let mut errors: Vec<Error> = Vec::new();
                let mut i: usize = 0;
                assert(errs_m(errors@) =~= Seq::<ErrorM>::empty());
                assert(um->Union_0.len() == ms.len());
                while i < ms.len()
                    invariant
                        decreases_to!(*u => *ms),
                        um->Union_0.len() == ms.len(),
                        um == ty_m(uu),
                        uu == *u,
                        uu == Type::Union(*ms),
                        expand_fuel(*self) < usize::MAX,
                        0 <= i <= ms.len(),
                        extract_expanded_m(*self, um, kind, nargs as nat, fuel as nat) == union_extract_m(
                            *self,
                            um,
                            kind,
                            nargs as nat,
                            fuel as nat,
                            i as nat,
                            errs_m(errors@),
                        ),
                    decreases ms.len() - i,
                {
                    assert(um->Union_0[i as int] == ty_m(ms@[i as int]));
                    assert(decreases_to!(*ms => ms[i as int]));
                    match self.extract_with(&ms[i], kind, nargs, fuel) {
                        Ok(r) => {
                            return Ok(r);
                        },
                        Err(e) => {
                            let ghost em = err_m(e);
                            let ghost before = errors@;
                            errors.push(e);
                            assert(errs_m(errors@) =~= errs_m(before).push(em));
                        },
                    }
                    i += 1;
                }
                let r = Error::UnionError { errors };
                assert(err_m(r)->UnionError_0 =~= errs_m(errors@));
                Err(r)
            },
            _ => Err(no_signature(kind)),
        }
    }
}

proof fn lemma_union_from(
    a: Analyzer,
    ms: Seq<TypeM>,
    kind: ExtractKind,
    nargs: nat,
    fuel: nat,
    i: nat,
    errs: Seq<ErrorM>,
)
    requires
        i <= ms.len(),
        errs.len() == i,
    ensures
        (forall|j: int| i <= j < ms.len() ==> (#[trigger] extract_m(a, ms[j], kind, nargs, fuel)) is Err)
            ==> union_extract_m(a, TypeM::Union(ms), kind, nargs, fuel, i, errs) is Err
            && union_extract_m(a, TypeM::Union(ms), kind, nargs, fuel, i, errs)->Err_0 is UnionError
            && union_extract_m(a, TypeM::Union(ms), kind, nargs, fuel, i, errs)->Err_0->UnionError_0.len()
            == ms.len(),
        forall|k: int|
            i <= k < ms.len() && (#[trigger] extract_m(a, ms[k], kind, nargs, fuel)) is Ok && (forall|j: int|
                i <= j < ms.len() && j != k ==> (#[trigger] extract_m(a, ms[j], kind, nargs, fuel)) is Err)
                ==> union_extract_m(a, TypeM::Union(ms), kind, nargs, fuel, i, errs) == extract_m(
                a,
                ms[k],
                kind,
                nargs,
                fuel,
            ),
    decreases ms.len() - i,
{
    if i < ms.len() {
        let e = extract_m(a, ms[i as int], kind, nargs, fuel);
        if e is Err {
            lemma_union_from(a, ms, kind, nargs, fuel, i + 1, errs.push(e->Err_0));
        }
    }
}

/// Calling a union none of whose members accepts the call fails with one
/// error for each member.
pub proof fn lemma_union_none_callable(a: Analyzer, ms: Seq<TypeM>, kind: ExtractKind, nargs: nat, fuel: nat)
    requires
        forall|j: int| 0 <= j < ms.len() ==> (#[trigger] extract_m(a, ms[j], kind, nargs, fuel)) is Err,
    ensures
        extract_m(a, TypeM::Union(ms), kind, nargs, fuel) is Err,
        extract_m(a, TypeM::Union(ms), kind, nargs, fuel)->Err_0 is UnionError,
        extract_m(a, TypeM::Union(ms), kind, nargs, fuel)->Err_0->UnionError_0.len() == ms.len(),
{
    lemma_union_from(a, ms, kind, nargs, fuel, 0, Seq::empty());
}

/// Calling a union exactly one of whose members accepts the call gives what
/// that member gives.
pub proof fn lemma_union_one_callable(
    a: Analyzer,
    ms: Seq<TypeM>,
    kind: ExtractKind,
    nargs: nat,
    fuel: nat,
    k: int,
)
    requires
        0 <= k < ms.len(),
        extract_m(a, ms[k], kind, nargs, fuel) is Ok,
        forall|j: int| 0 <= j < ms.len() && j != k ==> (#[trigger] extract_m(a, ms[j], kind, nargs, fuel)) is Err,
    ensures
        extract_m(a, TypeM::Union(ms), kind, nargs, fuel) == extract_m(a, ms[k], kind, nargs, fuel),
{
    lemma_union_from(a, ms, kind, nargs, fuel, 0, Seq::empty());
}

/// A reference (or `typeof` query) that expands to a union none of whose
/// members accepts the call fails with one error for each member.
/// Following the reference uses one step of the nesting budget, so the
/// members are tried with `fuel - 1`, as `extract_m` tries them.
pub proof fn lemma_expanded_union_none_callable(
    a: Analyzer,
    t: TypeM,
    ms: Seq<TypeM>,
    kind: ExtractKind,
    nargs: nat,
    fuel: nat,
)
    requires
        t is TypeRef || t is Query,
        expand_m(a, t, expand_fuel(a)) == Ok::<TypeM, ErrorM>(TypeM::Union(ms)),
        fuel > 0,
        forall|j: int| 0 <= j < ms.len() ==> (#[trigger] extract_m(a, ms[j], kind, nargs, (fuel - 1) as nat)) is Err,
    ensures
        extract_m(a, t, kind, nargs, fuel) is Err,
        extract_m(a, t, kind, nargs, fuel)->Err_0 is UnionError,
        extract_m(a, t, kind, nargs, fuel)->Err_0->UnionError_0.len() == ms.len(),
{
    lemma_union_from(a, ms, kind, nargs, (fuel - 1) as nat, 0, Seq::empty());
}

/// A reference (or `typeof` query) that expands to a union exactly one of
/// whose members accepts the call gives what that member gives.
/// Following the reference uses one step of the nesting budget, so the
/// members are tried with `fuel - 1`, as `extract_m` tries them.
pub proof fn lemma_expanded_union_one_callable(
    a: Analyzer,
    t: TypeM,
    ms: Seq<TypeM>,
    kind: ExtractKind,
    nargs: nat,
    fuel: nat,
    k: int,
)
    requires
        t is TypeRef || t is Query,
        expand_m(a, t, expand_fuel(a)) == Ok::<TypeM, ErrorM>(TypeM::Union(ms)),
        fuel > 0,
        0 <= k < ms.len(),
        extract_m(a, ms[k], kind, nargs, (fuel - 1) as nat) is Ok,
        forall|j: int| 0 <= j < ms.len() && j != k ==> (#[trigger] extract_m(a, ms[j], kind, nargs, (fuel - 1) as nat)) is Err,
    ensures
        extract_m(a, t, kind, nargs, fuel) == extract_m(a, ms[k], kind, nargs, (fuel - 1) as nat),
{
    lemma_union_from(a, ms, kind, nargs, (fuel - 1) as nat, 0, Seq::empty());
}

} // verus!
