use vstd::prelude::*;
use crate::analyzer::is_word;
use crate::ast::{Arg, ArrayElem, ClassMember, Expr, FnBody, Prop, Stmt};
use crate::browser_data::{BrowserData, Versions, enable_rule, should_enable_row};
use crate::feature::v;
use crate::preset::{Config, Mode, Polyfills};
use crate::version::Version;

verus! {

broadcast use vstd::std_specs::vec::axiom_vec_index_decreases;

/// A library global that core-js 2 polyfills, in the order of its module specifier.
#[derive(Clone, Copy, Debug, PartialEq, Eq, Structural)]
pub enum BuiltIn {
    MapCtor,
    Promise,
    SetCtor,
    Symbol,
    WeakMap,
    WeakSet,
}

/// The number of polyfillable globals.
pub const BUILT_INS: usize = 6;

fn ver(major: u64, minor: u64) -> (r: Option<Version>)
    ensures
        r == v(major, minor),
{
    Some(Version { major, minor, patch: 0, pre_release: false })
}

impl BuiltIn {
    /// The position of the global in specifier order.
    pub open spec fn rank(self) -> nat {
        match self {
            BuiltIn::MapCtor => 0,
            BuiltIn::Promise => 1,
            BuiltIn::SetCtor => 2,
            BuiltIn::Symbol => 3,
            BuiltIn::WeakMap => 4,
            BuiltIn::WeakSet => 5,
        }
    }

    /// The global's name.
    pub open spec fn name_m(self) -> Seq<char> {
        match self {
            BuiltIn::MapCtor => "Map"@,
            BuiltIn::Promise => "Promise"@,
            BuiltIn::SetCtor => "Set"@,
            BuiltIn::Symbol => "Symbol"@,
            BuiltIn::WeakMap => "WeakMap"@,
            BuiltIn::WeakSet => "WeakSet"@,
        }
    }

    /// The module specifier of the polyfill.
    pub open spec fn specifier_m(self) -> Seq<char> {
        match self {
            BuiltIn::MapCtor => "core-js/modules/es6.map"@,
            BuiltIn::Promise => "core-js/modules/es6.promise"@,
            BuiltIn::SetCtor => "core-js/modules/es6.set"@,
            BuiltIn::Symbol => "core-js/modules/es6.symbol"@,
            BuiltIn::WeakMap => "core-js/modules/es6.weak-map"@,
            BuiltIn::WeakSet => "core-js/modules/es6.weak-set"@,
        }
    }

    /// The earliest version of each platform that ships the global natively.
    pub open spec fn row(self) -> Versions {
        match self {
            BuiltIn::MapCtor => BrowserData {
                chrome: v(51, 0),
                ie: None,
                edge: v(15, 0),
                firefox: v(53, 0),
                safari: v(10, 0),
                node: v(6, 5),
                ios: v(10, 0),
                samsung: v(5, 0),
                opera: v(38, 0),
                android: None,
                electron: v(1, 2),
                phantom: None,
            },
            BuiltIn::Promise => BrowserData {
                chrome: v(51, 0),
                ie: None,
                edge: v(14, 0),
                firefox: v(45, 0),
                safari: v(10, 0),
                node: v(6, 5),
                ios: v(10, 0),
                samsung: v(5, 0),
                opera: v(38, 0),
                android: None,
                electron: v(1, 2),
                phantom: None,
            },
            BuiltIn::SetCtor => BrowserData {
                chrome: v(51, 0),
                ie: None,
                edge: v(15, 0),
                firefox: v(53, 0),
                safari: v(10, 0),
                node: v(6, 5),
                ios: v(10, 0),
                samsung: v(5, 0),
                opera: v(38, 0),
                android: None,
                electron: v(1, 2),
                phantom: None,
            },
            BuiltIn::Symbol => BrowserData {
                chrome: v(51, 0),
                ie: None,
                edge: v(15, 0),
                firefox: v(51, 0),
                safari: v(10, 0),
                node: v(6, 5),
                ios: v(10, 0),
                samsung: v(5, 0),
                opera: v(38, 0),
                android: None,
                electron: v(1, 2),
                phantom: None,
            },
            BuiltIn::WeakMap => BrowserData {
                chrome: v(51, 0),
                ie: None,
                edge: v(15, 0),
                firefox: v(53, 0),
                safari: v(9, 0),
                node: v(6, 5),
                ios: v(9, 0),
                samsung: v(5, 0),
                opera: v(38, 0),
                android: None,
                electron: v(1, 2),
                phantom: None,
            },
            BuiltIn::WeakSet => BrowserData {
                chrome: v(51, 0),
                ie: None,
                edge: v(15, 0),
                firefox: v(53, 0),
                safari: v(9, 0),
                node: v(6, 5),
                ios: v(9, 0),
                samsung: v(5, 0),
                opera: v(38, 0),
                android: None,
                electron: v(1, 2),
                phantom: None,
            },
        }
    }

    pub fn compat_row(&self) -> (r: Versions)
        ensures
            r == self.row(),
    {
        match self {
            BuiltIn::MapCtor => BrowserData {
                chrome: ver(51, 0),
                ie: None,
                edge: ver(15, 0),
                firefox: ver(53, 0),
                safari: ver(10, 0),
                node: ver(6, 5),
                ios: ver(10, 0),
                samsung: ver(5, 0),
                opera: ver(38, 0),
                android: None,
                electron: ver(1, 2),
                phantom: None,
            },
            BuiltIn::Promise => BrowserData {
                chrome: ver(51, 0),
                ie: None,
                edge: ver(14, 0),
                firefox: ver(45, 0),
                safari: ver(10, 0),
                node: ver(6, 5),
                ios: ver(10, 0),
                samsung: ver(5, 0),
                opera: ver(38, 0),
                android: None,
                electron: ver(1, 2),
                phantom: None,
            },
            BuiltIn::SetCtor => BrowserData {
                chrome: ver(51, 0),
                ie: None,
                edge: ver(15, 0),
                firefox: ver(53, 0),
                safari: ver(10, 0),
                node: ver(6, 5),
                ios: ver(10, 0),
                samsung: ver(5, 0),
                opera: ver(38, 0),
                android: None,
                electron: ver(1, 2),
                phantom: None,
            },
            BuiltIn::Symbol => BrowserData {
                chrome: ver(51, 0),
                ie: None,
                edge: ver(15, 0),
                firefox: ver(51, 0),
                safari: ver(10, 0),
                node: ver(6, 5),
                ios: ver(10, 0),
                samsung: ver(5, 0),
                opera: ver(38, 0),
                android: None,
                electron: ver(1, 2),
                phantom: None,
            },
            BuiltIn::WeakMap => BrowserData {
                chrome: ver(51, 0),
                ie: None,
                edge: ver(15, 0),
                firefox: ver(53, 0),
                safari: ver(9, 0),
                node: ver(6, 5),
                ios: ver(9, 0),
                samsung: ver(5, 0),
                opera: ver(38, 0),
                android: None,
                electron: ver(1, 2),
                phantom: None,
            },
            BuiltIn::WeakSet => BrowserData {
                chrome: ver(51, 0),
                ie: None,
                edge: ver(15, 0),
                firefox: ver(53, 0),
                safari: ver(9, 0),
                node: ver(6, 5),
                ios: ver(9, 0),
                samsung: ver(5, 0),
                opera: ver(38, 0),
                android: None,
                electron: ver(1, 2),
                phantom: None,
            },
        }
    }

    /// The module specifier of the polyfill.
    pub fn specifier(&self) -> (r: &'static str)
        ensures
            r@ == self.specifier_m(),
    {
        match self {
            BuiltIn::MapCtor => "core-js/modules/es6.map",
            BuiltIn::Promise => "core-js/modules/es6.promise",
            BuiltIn::SetCtor => "core-js/modules/es6.set",
            BuiltIn::Symbol => "core-js/modules/es6.symbol",
            BuiltIn::WeakMap => "core-js/modules/es6.weak-map",
            BuiltIn::WeakSet => "core-js/modules/es6.weak-set",
        }
    }

    /// The global's name.
    pub fn name(&self) -> (r: &'static str)
        ensures
            r@ == self.name_m(),
    {
        match self {
            BuiltIn::MapCtor => "Map",
            BuiltIn::Promise => "Promise",
            BuiltIn::SetCtor => "Set",
            BuiltIn::Symbol => "Symbol",
            BuiltIn::WeakMap => "WeakMap",
            BuiltIn::WeakSet => "WeakSet",
        }
    }
}

/// All polyfillable globals, in specifier order.
pub open spec fn all_built_ins() -> Seq<BuiltIn> {
    seq![
        BuiltIn::MapCtor,
        BuiltIn::Promise,
        BuiltIn::SetCtor,
        BuiltIn::Symbol,
        BuiltIn::WeakMap,
        BuiltIn::WeakSet,
    ]
}

fn built_ins() -> (r: Vec<BuiltIn>)
    ensures
        r@ == all_built_ins(),
{
    let r = vec![
        BuiltIn::MapCtor,
        BuiltIn::Promise,
        BuiltIn::SetCtor,
        BuiltIn::Symbol,
        BuiltIn::WeakMap,
        BuiltIn::WeakSet,
    ];
    assert(r@ =~= all_built_ins());
    r
}

/// `e` refers to the global `n` somewhere inside it: in a sub-expression,
/// an argument, an element, a property value or shorthand, a class property's
/// value, or a statement of a function or arrow body.
pub open spec fn mentions_m(e: Expr, n: Seq<char>) -> bool
    decreases e, 0nat,
{
    match e {
        Expr::Ident(i) => i.sym@ == n,
        Expr::Paren(x) => mentions_m(*x, n),
        Expr::Unary(_, x) => mentions_m(*x, n),
        Expr::Update(x) => mentions_m(*x, n),
        Expr::Await(x) => mentions_m(*x, n),
        Expr::TsNonNull(x) => mentions_m(*x, n),
        Expr::TsAs(x, _) => mentions_m(*x, n),
        Expr::TsTypeCast(x, _) => mentions_m(*x, n),
        Expr::Bin(_, l, r) => mentions_m(*l, n) || mentions_m(*r, n),
        Expr::Assign(l, r) => mentions_m(*l, n) || mentions_m(*r, n),
        Expr::Cond(t, c, a) => mentions_m(*t, n) || mentions_m(*c, n) || mentions_m(*a, n),
        Expr::New(c, args) => mentions_m(*c, n) || args_mention_m(args, n, args.len() as nat),
        Expr::Call(c, args) => mentions_m(*c, n) || args_mention_m(args, n, args.len() as nat),
        Expr::SuperCall(args) => args_mention_m(args, n, args.len() as nat),
        Expr::Member { obj, prop, computed } => mentions_m(*obj, n) || (computed && mentions_m(*prop, n)),
        Expr::Sequence(es) => exprs_mention_m(es, n, es.len() as nat),
        Expr::Array(elems) => elems_mention_m(elems, n, elems.len() as nat),
        Expr::Object(props) => props_mention_m(props, n, props.len() as nat),
        Expr::Class(ms) => class_mention_m(ms, n, ms.len() as nat),
        Expr::Fn(f) => match f.body {
            FnBody::Block(ss) => stmts_mention_m(ss, n, ss.len() as nat),
            FnBody::Expr(x) => mentions_m(*x, n),
        },
        Expr::Arrow(f) => match f.body {
            FnBody::Block(ss) => stmts_mention_m(ss, n, ss.len() as nat),
            FnBody::Expr(x) => mentions_m(*x, n),
        },
        _ => false,
    }
}

/// One of the first `k` properties mentions `n`.
pub open spec fn props_mention_m(props: Vec<Prop>, n: Seq<char>, k: nat) -> bool
    decreases props, k,
{
    if k == 0 || k > props.len() {
        false
    } else {
        props_mention_m(props, n, (k - 1) as nat) || match props[k - 1] {
            Prop::KeyValue { value, .. } => mentions_m(value, n),
            Prop::Shorthand(name) => name@ == n,
            Prop::Spread(x) => mentions_m(x, n),
        }
    }
}

/// The value of one of the first `k` class properties mentions `n`.
pub open spec fn class_mention_m(ms: Vec<ClassMember>, n: Seq<char>, k: nat) -> bool
    decreases ms, k,
{
    if k == 0 || k > ms.len() {
        false
    } else {
        class_mention_m(ms, n, (k - 1) as nat) || match ms[k - 1] {
            ClassMember::Prop { value: Some(v), .. } => mentions_m(*v, n),
            _ => false,
        }
    }
}

/// One of the first `k` arguments mentions `n`.
pub open spec fn args_mention_m(args: Vec<Arg>, n: Seq<char>, k: nat) -> bool
    decreases args, k,
{
    if k == 0 || k > args.len() {
        false
    } else {
        args_mention_m(args, n, (k - 1) as nat) || mentions_m(args[k - 1].expr, n)
    }
}

/// One of the first `k` expressions mentions `n`.
pub open spec fn exprs_mention_m(es: Vec<Expr>, n: Seq<char>, k: nat) -> bool
    decreases es, k,
{
    if k == 0 || k > es.len() {
        false
    } else {
        exprs_mention_m(es, n, (k - 1) as nat) || mentions_m(es[k - 1], n)
    }
}

/// One of the first `k` array elements mentions `n`.
pub open spec fn elems_mention_m(elems: Vec<ArrayElem>, n: Seq<char>, k: nat) -> bool
    decreases elems, k,
{
    if k == 0 || k > elems.len() {
        false
    } else {
        elems_mention_m(elems, n, (k - 1) as nat) || match elems[k - 1] {
            ArrayElem::Hole => false,
            ArrayElem::Elem(x) => mentions_m(x, n),
            ArrayElem::Spread(x) => mentions_m(x, n),
        }
    }
}

/// A statement mentions `n` in one of its expressions.
pub open spec fn stmt_mentions_m(s: Stmt, n: Seq<char>) -> bool
    decreases s, 0nat,
{
    match s {
        Stmt::Return(Some(x)) => mentions_m(*x, n),
        Stmt::Return(None) => false,
        Stmt::Expr(x) => mentions_m(*x, n),
        Stmt::Block(v) => stmts_mention_m(v, n, v.len() as nat),
        Stmt::If { test, cons, alt } => mentions_m(*test, n) || stmt_mentions_m(*cons, n) || match alt {
            Some(b) => stmt_mentions_m(*b, n),
            None => false,
        },
    }
}

/// One of the first `k` statements mentions `n`.
pub open spec fn stmts_mention_m(ss: Vec<Stmt>, n: Seq<char>, k: nat) -> bool
    decreases ss, k,
{
    if k == 0 || k > ss.len() {
        false
    } else {
        stmts_mention_m(ss, n, (k - 1) as nat) || stmt_mentions_m(ss[k - 1], n)
    }
}

/// Whether `e` mentions `n` (see `mentions_m`).
pub fn mentions(e: &Expr, n: &str) -> (r: bool)
    ensures
        r == mentions_m(*e, n@),
    decreases e, 0nat,
{
    match e {
        Expr::Ident(i) => is_word(&i.sym, n),
        Expr::Paren(x) => mentions(x, n),
        Expr::Unary(_, x) => mentions(x, n),
        Expr::Update(x) => mentions(x, n),
        Expr::Await(x) => mentions(x, n),
        Expr::TsNonNull(x) => mentions(x, n),
        Expr::TsAs(x, _) => mentions(x, n),
        Expr::TsTypeCast(x, _) => mentions(x, n),
        Expr::Bin(_, l, r) => mentions(l, n) || mentions(r, n),
        Expr::Assign(l, r) => mentions(l, n) || mentions(r, n),
        Expr::Cond(t, c, a) => mentions(t, n) || mentions(c, n) || mentions(a, n),
        Expr::New(c, args) => mentions(c, n) || args_mention(args, n),
        Expr::Call(c, args) => mentions(c, n) || args_mention(args, n),
        Expr::SuperCall(args) => args_mention(args, n),
        Expr::Member { obj, prop, computed } => mentions(obj, n) || (*computed && mentions(prop, n)),
        Expr::Object(props) => props_mention(props, n),
        Expr::Class(ms) => class_mention(ms, n),
        Expr::Fn(f) => match &f.body {
            FnBody::Block(ss) => stmts_mention(ss, n),
            FnBody::Expr(x) => mentions(x, n),
        },
        Expr::Arrow(f) => match &f.body {
            FnBody::Block(ss) => stmts_mention(ss, n),
            FnBody::Expr(x) => mentions(x, n),
        },
        Expr::Sequence(es) => {
            let mut i: usize = 0;
            while i < es.len()
                invariant
                    decreases_to!(*e => *es),
                    *e == Expr::Sequence(*es),
                    0 <= i <= es.len(),
                    !exprs_mention_m(*es, n@, i as nat),
                decreases es.len() - i,
            {
                assert(decreases_to!(*es => es[i as int]));
                if mentions(&es[i], n) {
                    proof {
                        lemma_exprs_mention_grows(*es, n@, (i + 1) as nat, es.len() as nat);
                    }
                    return true;
                }
                i += 1;
            }
            false
        },
        Expr::Array(elems) => {
            let mut i: usize = 0;
            while i < elems.len()
                invariant
                    decreases_to!(*e => *elems),
                    *e == Expr::Array(*elems),
                    0 <= i <= elems.len(),
                    !elems_mention_m(*elems, n@, i as nat),
                decreases elems.len() - i,
            {
                assert(decreases_to!(*elems => elems[i as int]));
                let hit = match &elems[i] {
                    ArrayElem::Hole => false,
                    ArrayElem::Elem(x) => mentions(x, n),
                    ArrayElem::Spread(x) => mentions(x, n),
                };
                if hit {
                    proof {
                        lemma_elems_mention_grows(*elems, n@, (i + 1) as nat, elems.len() as nat);
                    }
                    return true;
                }
                i += 1;
            }
            false
        },
        _ => false,
    }
}

fn args_mention(args: &Vec<Arg>, n: &str) -> (r: bool)
    ensures
        r == args_mention_m(*args, n@, args.len() as nat),
    decreases args, 0nat,
{
    let mut i: usize = 0;
    while i < args.len()
        invariant
            0 <= i <= args.len(),
            !args_mention_m(*args, n@, i as nat),
        decreases args.len() - i,
    {
        assert(decreases_to!(*args => args[i as int]));
        if mentions(&args[i].expr, n) {
            proof {
                lemma_args_mention_grows(*args, n@, (i + 1) as nat, args.len() as nat);
            }
            return true;
        }
        i += 1;
    }
    false
}

fn props_mention(props: &Vec<Prop>, n: &str) -> (r: bool)
    ensures
        r == props_mention_m(*props, n@, props.len() as nat),
    decreases props, 0nat,
{
    let mut i: usize = 0;
    while i < props.len()
        invariant
            0 <= i <= props.len(),
            !props_mention_m(*props, n@, i as nat),
        decreases props.len() - i,
    {
        assert(decreases_to!(*props => props[i as int]));
        let hit = match &props[i] {
            Prop::KeyValue { value, .. } => mentions(value, n),
            Prop::Shorthand(name) => is_word(name, n),
            Prop::Spread(x) => mentions(x, n),
        };
        if hit {
            proof {
                lemma_props_mention_grows(*props, n@, (i + 1) as nat, props.len() as nat);
            }
            return true;
        }
        i += 1;
    }
    false
}

fn class_mention(ms: &Vec<ClassMember>, n: &str) -> (r: bool)
    ensures
        r == class_mention_m(*ms, n@, ms.len() as nat),
    decreases ms, 0nat,
{
    let mut i: usize = 0;
    while i < ms.len()
        invariant
            0 <= i <= ms.len(),
            !class_mention_m(*ms, n@, i as nat),
        decreases ms.len() - i,
    {
        assert(decreases_to!(*ms => ms[i as int]));
        let hit = match &ms[i] {
            ClassMember::Prop { value: Some(v), .. } => mentions(v, n),
            _ => false,
        };
        if hit {
            proof {
                lemma_class_mention_grows(*ms, n@, (i + 1) as nat, ms.len() as nat);
            }
            return true;
        }
        i += 1;
    }
    false
}

proof fn lemma_props_mention_grows(props: Vec<Prop>, n: Seq<char>, k: nat, m: nat)
    requires
        k <= m <= props.len(),
        props_mention_m(props, n, k),
    ensures
        props_mention_m(props, n, m),
    decreases m,
{
    if m > k {
        lemma_props_mention_grows(props, n, k, (m - 1) as nat);
    }
}

proof fn lemma_class_mention_grows(ms: Vec<ClassMember>, n: Seq<char>, k: nat, m: nat)
    requires
        k <= m <= ms.len(),
        class_mention_m(ms, n, k),
    ensures
        class_mention_m(ms, n, m),
    decreases m,
{
    if m > k {
        lemma_class_mention_grows(ms, n, k, (m - 1) as nat);
    }
}

proof fn lemma_args_mention_grows(args: Vec<Arg>, n: Seq<char>, k: nat, m: nat)
    requires
        k <= m <= args.len(),
        args_mention_m(args, n, k),
    ensures
        args_mention_m(args, n, m),
    decreases m,
{
    if m > k {
        lemma_args_mention_grows(args, n, k, (m - 1) as nat);
    }
}

proof fn lemma_exprs_mention_grows(es: Vec<Expr>, n: Seq<char>, k: nat, m: nat)
    requires
        k <= m <= es.len(),
        exprs_mention_m(es, n, k),
    ensures
        exprs_mention_m(es, n, m),
    decreases m,
{
    if m > k {
        lemma_exprs_mention_grows(es, n, k, (m - 1) as nat);
    }
}

proof fn lemma_elems_mention_grows(elems: Vec<ArrayElem>, n: Seq<char>, k: nat, m: nat)
    requires
        k <= m <= elems.len(),
        elems_mention_m(elems, n, k),
    ensures
        elems_mention_m(elems, n, m),
    decreases m,
{
    if m > k {
        lemma_elems_mention_grows(elems, n, k, (m - 1) as nat);
    }
}

proof fn lemma_stmts_mention_grows(ss: Vec<Stmt>, n: Seq<char>, k: nat, m: nat)
    requires
        k <= m <= ss.len(),
        stmts_mention_m(ss, n, k),
    ensures
        stmts_mention_m(ss, n, m),
    decreases m,
{
    if m > k {
        lemma_stmts_mention_grows(ss, n, k, (m - 1) as nat);
    }
}

/// Whether `s` mentions `n` (see `stmt_mentions_m`).
pub fn stmt_mentions(s: &Stmt, n: &str) -> (r: bool)
    ensures
        r == stmt_mentions_m(*s, n@),
    decreases s, 0nat,
{
    match s {
        Stmt::Return(Some(x)) => mentions(x, n),
        Stmt::Return(None) => false,
        Stmt::Expr(x) => mentions(x, n),
        Stmt::Block(v) => stmts_mention(v, n),
        Stmt::If { test, cons, alt } => mentions(test, n) || stmt_mentions(cons, n) || match alt {
            Some(b) => stmt_mentions(b, n),
            None => false,
        },
    }
}

/// Whether one of `ss` mentions `n`.
pub fn stmts_mention(ss: &Vec<Stmt>, n: &str) -> (r: bool)
    ensures
        r == stmts_mention_m(*ss, n@, ss.len() as nat),
    decreases ss, 0nat,
{
    let mut i: usize = 0;
    while i < ss.len()
        invariant
            0 <= i <= ss.len(),
            !stmts_mention_m(*ss, n@, i as nat),
        decreases ss.len() - i,
    {
        assert(decreases_to!(*ss => ss[i as int]));
        if stmt_mentions(&ss[i], n) {
            proof {
                lemma_stmts_mention_grows(*ss, n@, (i + 1) as nat, ss.len() as nat);
            }
            return true;
        }
        i += 1;
    }
    false
}

/// A top-level item of a module.
#[derive(Debug)]
pub enum ModuleItem {
    /// A bare side-effect import of a module specifier.
    Import { src: String },
    Stmt(Stmt),
}

/// An ES module.
#[derive(Debug)]
pub struct Module {
    pub body: Vec<ModuleItem>,
}

/// A parsed program: a module or a classic script.
#[derive(Debug)]
pub enum Program {
    Module(Module),
    Script(Vec<Stmt>),
}

/// Why the polyfill injector refused a program.
#[derive(Clone, Copy, Debug, PartialEq, Eq, Structural)]
pub enum PolyfillError {
    /// Automatic polyfills are not supported for scripts.
    ScriptUnsupported,
}

/// A statement of the module mentions `n`.
pub open spec fn module_mentions_m(body: Seq<ModuleItem>, n: Seq<char>) -> bool {
    exists|i: int| 0 <= i < body.len() && #[trigger] body[i] is Stmt && stmt_mentions_m(body[i]->Stmt_0, n)
}

/// `skip` names the polyfill of `b`.
pub open spec fn skipped_m(skip: Seq<String>, b: BuiltIn) -> bool {
    exists|i: int| 0 <= i < skip.len() && (#[trigger] skip[i])@ == b.specifier_m()
}

/// The module uses `b`, some target lacks it, and it is not skipped.
pub open spec fn needed_m(c: Config, body: Seq<ModuleItem>, b: BuiltIn) -> bool {
    &&& module_mentions_m(body, b.name_m())
    &&& enable_rule(b.row(), c.versions, true)
    &&& !skipped_m(c.skip@, b)
}

/// The needed globals among the first `k` in specifier order.
pub open spec fn required_prefix(c: Config, body: Seq<ModuleItem>, k: nat) -> Seq<BuiltIn>
    decreases k,
{
    if k == 0 || k > BUILT_INS {
        Seq::empty()
    } else {
        let r = required_prefix(c, body, (k - 1) as nat);
        if needed_m(c, body, all_built_ins()[k - 1]) {
            r.push(all_built_ins()[k - 1])
        } else {
            r
        }
    }
}

/// The globals whose polyfills the module needs, in specifier order.
pub open spec fn required_m(c: Config, body: Seq<ModuleItem>) -> Seq<BuiltIn> {
    required_prefix(c, body, BUILT_INS as nat)
}

/// Ranks strictly increase along `s`: it is sorted and holds no repetition.
pub open spec fn strictly_sorted(s: Seq<BuiltIn>) -> bool {
    forall|i: int, j: int| 0 <= i < j < s.len() ==> (#[trigger] s[i]).rank() < (#[trigger] s[j]).rank()
}

proof fn lemma_rank_of_index(k: int)
    requires
        0 <= k < BUILT_INS,
    ensures
        all_built_ins()[k].rank() == k,
{
}

proof fn lemma_required_prefix(c: Config, body: Seq<ModuleItem>, k: nat)
    requires
        k <= BUILT_INS,
    ensures
        strictly_sorted(required_prefix(c, body, k)),
        forall|i: int| 0 <= i < required_prefix(c, body, k).len() ==> (#[trigger] required_prefix(c, body, k)[i]).rank() < k,
        forall|b: BuiltIn| b.rank() < k ==> (required_prefix(c, body, k).contains(b) <==> needed_m(c, body, b)),
    decreases k,
{
    if k > 0 {
        lemma_required_prefix(c, body, (k - 1) as nat);
        lemma_rank_of_index(k - 1);
        let r = required_prefix(c, body, (k - 1) as nat);
        let b = all_built_ins()[k - 1];
        assert forall|x: BuiltIn| x.rank() < k implies (required_prefix(c, body, k).contains(x) <==> needed_m(c, body, x)) by {
            if x.rank() == k - 1 {
                assert(x == b);
                if needed_m(c, body, b) {
                    assert(required_prefix(c, body, k)[r.len() as int] == b);
                } else {
                    assert(!r.contains(x));
                }
            } else {
                if needed_m(c, body, b) {
                    assert(required_prefix(c, body, k) == r.push(b));
                    if r.contains(x) {
                        let j = choose|j: int| 0 <= j < r.len() && r[j] == x;
                        assert(required_prefix(c, body, k)[j] == x);
                    }
                    if required_prefix(c, body, k).contains(x) {
                        let j = choose|j: int| 0 <= j < r.len() + 1 && required_prefix(c, body, k)[j] == x;
                        assert(j < r.len());
                        assert(r[j] == x);
                    }
                }
            }
        }
    }
}

/// The polyfills that a module needs are listed in specifier order, each once.
pub proof fn lemma_required_sorted_unique(c: Config, body: Seq<ModuleItem>)
    ensures
        strictly_sorted(required_m(c, body)),
        forall|b: BuiltIn| #[trigger] required_m(c, body).contains(b) <==> needed_m(c, body, b),
{
    lemma_required_prefix(c, body, BUILT_INS as nat);
    assert forall|b: BuiltIn| #[trigger] required_m(c, body).contains(b) <==> needed_m(c, body, b) by {
        assert(b.rank() < BUILT_INS);
    }
}

/// Whether a statement of `body` mentions `n`.
pub fn module_mentions(body: &Vec<ModuleItem>, n: &str) -> (r: bool)
    ensures
        r == module_mentions_m(body@, n@),
{
    let mut i: usize = 0;
    while i < body.len()
        invariant
            0 <= i <= body.len(),
            forall|j: int| 0 <= j < i ==> !(#[trigger] body@[j] is Stmt && stmt_mentions_m(body@[j]->Stmt_0, n@)),
        decreases body.len() - i,
    {
        if let ModuleItem::Stmt(s) = &body[i] {
            if stmt_mentions(s, n) {
                return true;
            }
        }
        i += 1;
    }
    false
}

fn is_skipped(skip: &Vec<String>, b: BuiltIn) -> (r: bool)
    ensures
        r == skipped_m(skip@, b),
{
    let mut i: usize = 0;
    while i < skip.len()
        invariant
            0 <= i <= skip.len(),
            forall|j: int| 0 <= j < i ==> (#[trigger] skip@[j])@ != b.specifier_m(),
        decreases skip.len() - i,
    {
        if is_word(&skip[i], b.specifier()) {
            return true;
        }
        i += 1;
    }
    false
}

/// The globals whose polyfills `body` needs under `c`, in specifier order.
pub fn required_polyfills(c: &Config, body: &Vec<ModuleItem>) -> (r: Vec<BuiltIn>)
    ensures
        r@ == required_m(*c, body@),
        strictly_sorted(r@),
        forall|b: BuiltIn| #[trigger] r@.contains(b) <==> needed_m(*c, body@, b),
{
    let all = built_ins();
    let mut r: Vec<BuiltIn> = Vec::new();
    let mut i: usize = 0;
    while i < all.len()
        invariant
            all@ == all_built_ins(),
            0 <= i <= all.len(),
            r@ == required_prefix(*c, body@, i as nat),
        decreases all.len() - i,
    {
        let b = all[i];
        let row = b.compat_row();
        if module_mentions(body, b.name()) && should_enable_row(&row, &c.versions, true) && !is_skipped(&c.skip, b) {
            r.push(b);
        }
        i += 1;
    }
    proof {
        lemma_required_sorted_unique(*c, body@);
    }
    r
}

/// `out` is `body` with one import of each specifier of `req` before it.
pub open spec fn prepended(out: Seq<ModuleItem>, req: Seq<BuiltIn>, body: Seq<ModuleItem>) -> bool {
    &&& out.len() == req.len() + body.len()
    &&& forall|i: int| 0 <= i < req.len() ==> (#[trigger] out[i]) is Import && out[i]->src@ == req[i].specifier_m()
    &&& out.subrange(req.len() as int, out.len() as int) == body
}

impl Polyfills {
    /// In usage mode, prepends an import of each polyfill the module needs;
    /// otherwise leaves the module as it is.
    pub fn fold(&self, m: Module) -> (r: Module)
        ensures
            self.c.mode == Some(Mode::Usage) ==> prepended(r.body@, required_m(self.c, m.body@), m.body@),
            self.c.mode == Some(Mode::Usage) ==> forall|i: int, j: int|
                0 <= i < j < required_m(self.c, m.body@).len() ==> precedes(
                    (#[trigger] r.body@[i])->src@,
                    (#[trigger] r.body@[j])->src@,
                ),
            self.c.mode != Some(Mode::Usage) ==> r == m,
    {
        let usage = match self.c.mode {
            Some(Mode::Usage) => true,
            _ => false,
        };
        if !usage {
            return m;
        }
        let req = required_polyfills(&self.c, &m.body);
        let mut out: Vec<ModuleItem> = Vec::new();
        let mut i: usize = 0;
        while i < req.len()
            invariant
                0 <= i <= req.len(),
                out@.len() == i,
                forall|j: int| 0 <= j < i ==> (#[trigger] out@[j]) is Import && out@[j]->src@ == req@[j].specifier_m(),
            decreases req.len() - i,
        {
            out.push(ModuleItem::Import { src: req[i].specifier().to_owned() });
            i += 1;
        }
        let mut body = m.body;
        let ghost old_body = body@;
        out.append(&mut body);
        assert(out@.subrange(req@.len() as int, out@.len() as int) =~= old_body);
        proof {
            lemma_injected_imports_sorted(self.c, out@, old_body);
        }
        Module { body: out }
    }

    /// Injects polyfills into a module; a script is refused.
    pub fn fold_program(&self, p: Program) -> (r: Result<Program, PolyfillError>)
        ensures
            p is Script ==> r == Err::<Program, PolyfillError>(PolyfillError::ScriptUnsupported),
            p is Module ==> r is Ok && r->Ok_0 is Module && (self.c.mode == Some(Mode::Usage) ==> prepended(
                r->Ok_0->Module_0.body@,
                required_m(self.c, p->Module_0.body@),
                p->Module_0.body@,
            )) && (self.c.mode != Some(Mode::Usage) ==> r->Ok_0->Module_0 == p->Module_0),
    {
        match p {
            Program::Module(m) => Ok(Program::Module(self.fold(m))),
            Program::Script(_) => Err(PolyfillError::ScriptUnsupported),
        }
    }
}

/// Injecting polyfills does not change which polyfills the module needs: a
/// second run asks for the same specifiers.
pub proof fn lemma_injection_keeps_required(c: Config, out: Seq<ModuleItem>, req: Seq<BuiltIn>, body: Seq<ModuleItem>)
    requires
        prepended(out, req, body),
    ensures
        required_m(c, out) == required_m(c, body),
{
    assert forall|n: Seq<char>| module_mentions_m(out, n) == module_mentions_m(body, n) by {
        if module_mentions_m(out, n) {
            let i = choose|i: int| 0 <= i < out.len() && #[trigger] out[i] is Stmt && stmt_mentions_m(out[i]->Stmt_0, n);
            assert(i >= req.len());
            assert(out[i] == body[i - req.len()]);
        }
        if module_mentions_m(body, n) {
            let i = choose|i: int| 0 <= i < body.len() && #[trigger] body[i] is Stmt && stmt_mentions_m(body[i]->Stmt_0, n);
            assert(out[i + req.len()] == body[i]);
        }
    }
    assert forall|k: nat| k <= BUILT_INS implies required_prefix(c, out, k) == required_prefix(c, body, k) by {
        lemma_prefix_same(c, out, body, k);
    }
}

proof fn lemma_prefix_same(c: Config, x: Seq<ModuleItem>, y: Seq<ModuleItem>, k: nat)
    requires
        forall|n: Seq<char>| module_mentions_m(x, n) == module_mentions_m(y, n),
    ensures
        required_prefix(c, x, k) == required_prefix(c, y, k),
    decreases k,
{
    if k > 0 {
        lemma_prefix_same(c, x, y, (k - 1) as nat);
    }
}

/// `a` comes before `b` in dictionary order: they first differ at a position
/// where the character of `a` is the smaller one.
pub open spec fn precedes(a: Seq<char>, b: Seq<char>) -> bool {
    exists|k: int| 0 <= k < a.len() && k < b.len() && a.take(k) == b.take(k) && (a[k] as u32) < (b[k] as u32)
}

proof fn lemma_precedes_at(a: Seq<char>, b: Seq<char>, k: int)
    requires
        0 <= k < a.len(),
        k < b.len(),
        a.take(k) =~= b.take(k),
        (a[k] as u32) < (b[k] as u32),
    ensures
        precedes(a, b),
{
}

/// Specifier order is dictionary order.
pub proof fn lemma_specifiers_in_dictionary_order()
    ensures
        forall|x: BuiltIn, y: BuiltIn| x.rank() < y.rank() ==> precedes(#[trigger] x.specifier_m(), #[trigger] y.specifier_m()),
{
    reveal_strlit("core-js/modules/es6.map");
    reveal_strlit("core-js/modules/es6.promise");
    reveal_strlit("core-js/modules/es6.set");
    reveal_strlit("core-js/modules/es6.symbol");
    reveal_strlit("core-js/modules/es6.weak-map");
    reveal_strlit("core-js/modules/es6.weak-set");
    lemma_precedes_at(BuiltIn::MapCtor.specifier_m(), BuiltIn::Promise.specifier_m(), 20);
    lemma_precedes_at(BuiltIn::MapCtor.specifier_m(), BuiltIn::SetCtor.specifier_m(), 20);
    lemma_precedes_at(BuiltIn::MapCtor.specifier_m(), BuiltIn::Symbol.specifier_m(), 20);
    lemma_precedes_at(BuiltIn::MapCtor.specifier_m(), BuiltIn::WeakMap.specifier_m(), 20);
    lemma_precedes_at(BuiltIn::MapCtor.specifier_m(), BuiltIn::WeakSet.specifier_m(), 20);
    lemma_precedes_at(BuiltIn::Promise.specifier_m(), BuiltIn::SetCtor.specifier_m(), 20);
    lemma_precedes_at(BuiltIn::Promise.specifier_m(), BuiltIn::Symbol.specifier_m(), 20);
    lemma_precedes_at(BuiltIn::Promise.specifier_m(), BuiltIn::WeakMap.specifier_m(), 20);
    lemma_precedes_at(BuiltIn::Promise.specifier_m(), BuiltIn::WeakSet.specifier_m(), 20);
    lemma_precedes_at(BuiltIn::SetCtor.specifier_m(), BuiltIn::Symbol.specifier_m(), 21);
    lemma_precedes_at(BuiltIn::SetCtor.specifier_m(), BuiltIn::WeakMap.specifier_m(), 20);
    lemma_precedes_at(BuiltIn::SetCtor.specifier_m(), BuiltIn::WeakSet.specifier_m(), 20);
    lemma_precedes_at(BuiltIn::Symbol.specifier_m(), BuiltIn::WeakMap.specifier_m(), 20);
    lemma_precedes_at(BuiltIn::Symbol.specifier_m(), BuiltIn::WeakSet.specifier_m(), 20);
    lemma_precedes_at(BuiltIn::WeakMap.specifier_m(), BuiltIn::WeakSet.specifier_m(), 25);
}

/// The imports that usage mode prepends name their polyfills in dictionary
/// order, each once.
pub proof fn lemma_injected_imports_sorted(c: Config, out: Seq<ModuleItem>, body: Seq<ModuleItem>)
    requires
        prepended(out, required_m(c, body), body),
    ensures
        forall|i: int, j: int|
            0 <= i < j < required_m(c, body).len() ==> precedes((#[trigger] out[i])->src@, (#[trigger] out[j])->src@),
{
    lemma_required_sorted_unique(c, body);
    lemma_specifiers_in_dictionary_order();
    let req = required_m(c, body);
    assert forall|i: int, j: int| 0 <= i < j < req.len() implies precedes((#[trigger] out[i])->src@, (#[trigger] out[j])->src@) by {
        assert(req[i].rank() < req[j].rank());
        assert(out[i]->src@ == req[i].specifier_m());
        assert(out[j]->src@ == req[j].specifier_m());
    }
}

} // verus!
