use vstd::prelude::*;
use crate::ast::Span;
use crate::types::{Keyword, Param, ParamM, Type, TypeM, clone_type, copy_string, names_m, params_m, ty_m};

verus! {

broadcast use vstd::std_specs::vec::axiom_vec_index_decreases;

/// A construct that the analyzer does not handle.
#[derive(Clone, Copy, Debug, PartialEq, Eq, Structural)]
pub enum Unsupported {
    ArraySpread,
    ObjectSpread,
    Await,
    MetaProp,
    ComputedMemberCall,
    DynamicRequire,
    OverloadedMethod,
    EnumMemberNotIdent,
    EmptySequence,
    RequireOutsideCall,
    UnresolvedType,
    CyclicType,
    Expression,
}

/// An analysis error.
#[derive(Debug)]
pub enum Error {
    UndefinedSymbol { span: Span },
    NoCallSignature,
    NoNewSignature,
    WrongParams { min: usize, max: usize, actual: usize },
    UnionError { errors: Vec<Error> },
    /// `name` is the type name concerned, where there is one; `path` is the source.
    Unimplemented { what: Unsupported, name: String, path: String },
}

pub enum ErrorM {
    UndefinedSymbol(Span),
    NoCallSignature,
    NoNewSignature,
    WrongParams(nat, nat, nat),
    UnionError(Seq<ErrorM>),
    Unimplemented(Unsupported, Seq<char>, Seq<char>),
}

/// The model of an error.
pub open spec fn err_m(e: Error) -> ErrorM
    decreases e,
{
    match e {
        Error::UndefinedSymbol { span } => ErrorM::UndefinedSymbol(span),
        Error::NoCallSignature => ErrorM::NoCallSignature,
        Error::NoNewSignature => ErrorM::NoNewSignature,
        Error::WrongParams { min, max, actual } => ErrorM::WrongParams(
            min as nat,
            max as nat,
            actual as nat,
        ),
        Error::UnionError { errors } => ErrorM::UnionError(
            Seq::new(
                errors.len() as nat,
                |i: int| if 0 <= i < errors.len() { err_m(errors[i]) } else { arbitrary() },
            ),
        ),
        Error::Unimplemented { what, name, path } => ErrorM::Unimplemented(what, name@, path@),
    }
}

/// The model of an analysis result.
pub open spec fn res_m(r: Result<Type, Error>) -> Result<TypeM, ErrorM> {
    match r {
        Ok(t) => Ok(ty_m(t)),
        Err(e) => Err(err_m(e)),
    }
}

/// A name bound to a type.
#[derive(Debug)]
pub struct Binding {
    pub name: String,
    pub ty: Type,
}

/// The lexical scope, innermost bindings last.
#[derive(Debug)]
pub struct Scope {
    pub vars: Vec<Binding>,
    pub types: Vec<Binding>,
}

/// What the analyzer knows: imports, the scope, the built-in library types and
/// the source path.
#[derive(Debug)]
pub struct Analyzer {
    pub resolved_imports: Vec<Binding>,
    pub scope: Scope,
    pub libs: Vec<Binding>,
    pub path: String,
}

/// Whether a call or a `new` is analyzed.
#[derive(Clone, Copy, Debug, PartialEq, Eq, Structural)]
pub enum ExtractKind {
    Call,
    New,
}

/// The type bound to `name` by the last binding of `bs` that names it.
pub open spec fn lookup_m(bs: Seq<Binding>, name: Seq<char>) -> Option<TypeM>
    decreases bs.len(),
{
    if bs.len() == 0 {
        None
    } else if bs.last().name@ == name {
        Some(ty_m(bs.last().ty))
    } else {
        lookup_m(bs.drop_last(), name)
    }
}

/// Finds the type bound to `name`, innermost binding first.
pub fn find<'a>(bs: &'a Vec<Binding>, name: &String) -> (r: Option<&'a Type>)
    ensures
        match r {
            Some(t) => lookup_m(bs@, name@) == Some(ty_m(*t)),
            None => lookup_m(bs@, name@) is None,
        },
{
    let mut i: usize = bs.len();
    assert(bs@.take(i as int) =~= bs@);
    while i > 0
        invariant
            0 <= i <= bs.len(),
            lookup_m(bs@, name@) == lookup_m(bs@.take(i as int), name@),
        decreases i,
    {
        assert(bs@.take(i as int).drop_last() =~= bs@.take(i - 1));
        if bs[i - 1].name == *name {
            return Some(&bs[i - 1].ty);
        }
        i -= 1;
    }
    None
}

/// `s` reads `w`.
pub fn is_word(s: &String, w: &str) -> (r: bool)
    ensures
        r == (s@ == w@),
{
    *s == w.to_owned()
}

pub open spec fn no_signature_m(kind: ExtractKind) -> ErrorM {
    match kind {
        ExtractKind::Call => ErrorM::NoCallSignature,
        ExtractKind::New => ErrorM::NoNewSignature,
    }
}

pub fn no_signature(kind: ExtractKind) -> (r: Error)
    ensures
        err_m(r) == no_signature_m(kind),
{
    match kind {
        ExtractKind::Call => Error::NoCallSignature,
        ExtractKind::New => Error::NoNewSignature,
    }
}

/// The number of parameters that are not optional.
pub open spec fn required_m(ps: Seq<ParamM>) -> nat
    decreases ps.len(),
{
    if ps.len() == 0 {
        0
    } else {
        required_m(ps.drop_last()) + if ps.last().optional {
            0nat
        } else {
            1nat
        }
    }
}

/// A call with `nargs` arguments on a signature: its return type when the
/// count lies between the required parameters and all of them.
pub open spec fn try_instantiate_m(ps: Seq<ParamM>, ret: TypeM, nargs: nat) -> Result<TypeM, ErrorM> {
    let min = required_m(ps);
    if nargs < min || nargs > ps.len() {
        Err(ErrorM::WrongParams(min, ps.len(), nargs))
    } else {
        Ok(ret)
    }
}

proof fn lemma_required_le(ps: Seq<ParamM>)
    ensures
        required_m(ps) <= ps.len(),
    decreases ps.len(),
{
    if ps.len() > 0 {
        lemma_required_le(ps.drop_last());
    }
}

/// Checks the argument count against a signature.
pub fn try_instantiate(params: &Vec<Param>, ret: Type, nargs: usize) -> (r: Result<Type, Error>)
    ensures
        res_m(r) == try_instantiate_m(params_m(*params), ty_m(ret), nargs as nat),
{
    let ghost ps = params_m(*params);
    let mut min: usize = 0;
    let mut i: usize = 0;
    while i < params.len()
        invariant
            0 <= i <= params.len(),
            ps == params_m(*params),
            min == required_m(ps.take(i as int)),
            min <= i,
        decreases params.len() - i,
    {
        assert(ps.take(i + 1).drop_last() =~= ps.take(i as int));
        if !params[i].optional {
            min += 1;
        }
        i += 1;
    }
    assert(ps.take(params.len() as int) =~= ps);
    if nargs < min || nargs > params.len() {
        Err(Error::WrongParams { min, max: params.len(), actual: nargs })
    } else {
        Ok(ret)
    }
}

/// The builtin generic names, which are recognized and, when bound, left as they are.
pub open spec fn builtin_generic_m(n: Seq<char>) -> bool {
    n == "Record"@ || n == "Readonly"@ || n == "ReadonlyArray"@ || n == "ReturnType"@ || n
        == "Partial"@ || n == "Required"@ || n == "NonNullable"@ || n == "Pick"@ || n
        == "Extract"@ || n == "Exclude"@
}

fn is_builtin_generic(n: &String) -> (r: bool)
    ensures
        r == builtin_generic_m(n@),
{
    is_word(n, "Record") || is_word(n, "Readonly") || is_word(n, "ReadonlyArray") || is_word(
        n,
        "ReturnType",
    ) || is_word(n, "Partial") || is_word(n, "Required") || is_word(n, "NonNullable") || is_word(
        n,
        "Pick",
    ) || is_word(n, "Extract") || is_word(n, "Exclude")
}

/// How many steps a chain of references may take: one per binding that could
/// resolve one; a longer chain repeats a name.
pub open spec fn expand_fuel(a: Analyzer) -> nat {
    (a.resolved_imports@.len() + a.scope.types@.len()) as nat
}

/// The type of a plain identifier: imports first, then the scope's variables,
/// then the library types.
pub open spec fn ident_type_m(a: Analyzer, sym: Seq<char>, span: Span) -> Result<TypeM, ErrorM> {
    if sym == "undefined"@ {
        Ok(TypeM::Keyword(Keyword::Undefined))
    } else if sym == "require"@ {
        Err(ErrorM::Unimplemented(Unsupported::RequireOutsideCall, sym, a.path@))
    } else if lookup_m(a.resolved_imports@, sym) is Some {
        Ok(lookup_m(a.resolved_imports@, sym)->0)
    } else if lookup_m(a.scope.vars@, sym) is Some {
        Ok(lookup_m(a.scope.vars@, sym)->0)
    } else if lookup_m(a.libs@, sym) is Some {
        Ok(lookup_m(a.libs@, sym)->0)
    } else {
        Err(ErrorM::UndefinedSymbol(span))
    }
}

/// Resolves a reference or a `typeof` query to the type it names; other
/// types stay as they are. A reference whose root is bound nowhere fails; a
/// bound builtin generic name (`Record`, `Partial`, ...) is recognized and left
/// as it is.
pub open spec fn expand_m(a: Analyzer, t: TypeM, fuel: nat) -> Result<TypeM, ErrorM>
    decreases fuel,
{
    match t {
        TypeM::TypeRef(ns) => {
            if ns.len() == 0 {
                Ok(t)
            } else {
                let root = ns[0];
                let found = if lookup_m(a.resolved_imports@, root) is Some {
                    lookup_m(a.resolved_imports@, root)
                } else {
                    lookup_m(a.scope.types@, root)
                };
                match found {
                    None => Err(ErrorM::Unimplemented(Unsupported::UnresolvedType, root, a.path@)),
                    Some(u) => if ns.len() == 1 && builtin_generic_m(root) {
                        Ok(t)
                    } else if fuel == 0 {
                        Err(ErrorM::Unimplemented(Unsupported::CyclicType, root, a.path@))
                    } else {
                        expand_m(a, u, (fuel - 1) as nat)
                    },
                }
            }
        },
        TypeM::Query(n) => ident_type_m(a, n, Span { lo: 0, hi: 0 }),
        _ => Ok(t),
    }
}

impl Analyzer {
    /// The type of a plain identifier (see `ident_type_m`).
    pub fn ident_type(&self, sym: &String, span: Span) -> (r: Result<Type, Error>)
        ensures
            res_m(r) == ident_type_m(*self, sym@, span),
    {
        if is_word(sym, "undefined") {
            return Ok(Type::Keyword(Keyword::Undefined));
        }
        if is_word(sym, "require") {
            return Err(
                Error::Unimplemented {
                    what: Unsupported::RequireOutsideCall,
                    name: copy_string(sym),
                    path: copy_string(&self.path),
                },
            );
        }
        if let Some(t) = find(&self.resolved_imports, sym) {
            return Ok(clone_type(t));
        }
        if let Some(t) = find(&self.scope.vars, sym) {
            return Ok(clone_type(t));
        }
        if let Some(t) = find(&self.libs, sym) {
            return Ok(clone_type(t));
        }
        Err(Error::UndefinedSymbol { span })
    }

    /// Resolves references and queries, following a chain of at most `fuel` names.
    pub fn expand_with(&self, ty: Type, fuel: usize) -> (r: Result<Type, Error>)
        ensures
            res_m(r) == expand_m(*self, ty_m(ty), fuel as nat),
        decreases fuel,
    {
        match ty {
            Type::TypeRef(ns) => {
                let ghost t = Type::TypeRef(ns);
                proof {
                    assert(ty_m(t)->TypeRef_0 == names_m(ns));
                }
                if ns.len() == 0 {
                    return Ok(Type::TypeRef(ns));
                }
                let root = &ns[0];
                let found = match find(&self.resolved_imports, root) {
                    Some(u) => Some(u),
                    None => find(&self.scope.types, root),
                };
                match found {
                    None => Err(
                        Error::Unimplemented {
                            what: Unsupported::UnresolvedType,
                            name: copy_string(root),
                            path: copy_string(&self.path),
                        },
                    ),
                    Some(u) => {
                        if ns.len() == 1 && is_builtin_generic(root) {
                            Ok(Type::TypeRef(ns))
                        } else if fuel == 0 {
                            Err(
                                Error::Unimplemented {
                                    what: Unsupported::CyclicType,
                                    name: copy_string(root),
                                    path: copy_string(&self.path),
                                },
                            )
                        } else {
                            let u = clone_type(u);
                            self.expand_with(u, fuel - 1)
                        }
                    },
                }
            },
            Type::Query(n) => self.ident_type(&n, Span { lo: 0, hi: 0 }),
            _ => Ok(ty),
        }
    }
}

} // verus!
