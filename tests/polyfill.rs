use swc_preset_types::ast::{Arg, ClassMember, Expr, FnBody, Function, Ident, Prop, Span, Stmt};
use swc_preset_types::jsx::{jsx_self, JsxAttr, JsxOpeningElement};
use swc_preset_types::polyfill::{
    required_polyfills, BuiltIn, Module, ModuleItem, PolyfillError, Program,
};
use swc_preset_types::preset::{preset_env, Config, Mode};
use swc_preset_types::version::Version;

fn ident(name: &str) -> Expr {
    Expr::Ident(Ident { sym: name.to_string(), span: Span { lo: 0, hi: 0 } })
}

fn new_of(name: &str) -> ModuleItem {
    ModuleItem::Stmt(Stmt::Expr(Box::new(Expr::New(Box::new(ident(name)), vec![]))))
}

fn usage_config() -> Config {
    let mut c = Config::default();
    c.mode = Some(Mode::Usage);
    c
}

fn imports(m: &Module) -> Vec<String> {
    m.body
        .iter()
        .filter_map(|i| match i {
            ModuleItem::Import { src } => Some(src.clone()),
            _ => None,
        })
        .collect()
}

#[test]
fn usage_mode_injects_map() {
    let p = preset_env(usage_config());
    let m = Module { body: vec![new_of("Map")] };
    let out = p.polyfills.fold(m);
    let srcs = imports(&out);
    assert!(srcs.contains(&"core-js/modules/es6.map".to_string()));
    let mut sorted = srcs.clone();
    sorted.sort();
    assert_eq!(srcs, sorted);
    assert_eq!(out.body.len(), srcs.len() + 1);
    assert!(matches!(out.body[srcs.len()], ModuleItem::Stmt(_)));

    let again = p.polyfills.fold(out);
    let first = required_polyfills(&p.polyfills.c, &vec![new_of("Map")]);
    let second = required_polyfills(&p.polyfills.c, &again.body);
    assert_eq!(first, second);
}

#[test]
fn required_list_sorted_and_unique() {
    let c = usage_config();
    let body = vec![new_of("WeakSet"), new_of("Map"), new_of("Promise"), new_of("Map"), new_of("Symbol")];
    let r = required_polyfills(&c, &body);
    assert_eq!(r, vec![BuiltIn::MapCtor, BuiltIn::Promise, BuiltIn::Symbol, BuiltIn::WeakSet]);
    let specs: Vec<&str> = r.iter().map(|b| b.specifier()).collect();
    let mut sorted = specs.clone();
    sorted.sort();
    sorted.dedup();
    assert_eq!(specs, sorted);
}

#[test]
fn specifiers_in_lexicographic_order() {
    let all = [BuiltIn::MapCtor, BuiltIn::Promise, BuiltIn::SetCtor, BuiltIn::Symbol, BuiltIn::WeakMap, BuiltIn::WeakSet];
    for w in all.windows(2) {
        assert!(w[0].specifier() < w[1].specifier());
    }
}

#[test]
fn skipped_and_supported_polyfills_are_left_out() {
    let mut c = usage_config();
    c.skip = vec!["core-js/modules/es6.map".to_string()];
    assert!(required_polyfills(&c, &vec![new_of("Map"), new_of("Set")]) == vec![BuiltIn::SetCtor]);
    let mut c = usage_config();
    c.versions.chrome = Some(Version::new(70, 0, 0));
    assert!(required_polyfills(&c, &vec![new_of("Map")]).is_empty());
    c.versions.ie = Some(Version::new(11, 0, 0));
    assert_eq!(required_polyfills(&c, &vec![new_of("Map")]), vec![BuiltIn::MapCtor]);
}

#[test]
fn other_modes_inject_nothing() {
    let mut c = Config::default();
    c.mode = Some(Mode::Entry);
    let p = preset_env(c);
    let out = p.polyfills.fold(Module { body: vec![new_of("Map")] });
    assert_eq!(out.body.len(), 1);
    let p = preset_env(Config::default());
    let out = p.polyfills.fold(Module { body: vec![new_of("Promise")] });
    assert!(imports(&out).is_empty());
}

#[test]
fn script_is_refused() {
    let p = preset_env(usage_config());
    let r = p.polyfills.fold_program(Program::Script(vec![]));
    assert_eq!(r.unwrap_err(), PolyfillError::ScriptUnsupported);
    let r = p.polyfills.fold_program(Program::Module(Module { body: vec![new_of("Promise")] }));
    match r {
        Ok(Program::Module(m)) => assert_eq!(imports(&m), vec!["core-js/modules/es6.promise".to_string()]),
        _ => panic!("module expected"),
    }
}

#[test]
fn jsx_self_in_development() {
    let el = JsxOpeningElement { name: "div".to_string(), attrs: vec![JsxAttr { name: "a".to_string(), value: None }] };
    let out = jsx_self(true).fold(el);
    assert_eq!(out.attrs.len(), 2);
    assert_eq!(out.attrs[1].name, "__self");
    assert!(matches!(out.attrs[1].value, Some(Expr::This)));
    let el = JsxOpeningElement { name: "div".to_string(), attrs: vec![] };
    assert!(jsx_self(false).fold(el).attrs.is_empty());
}

#[test]
fn scan_reaches_nested_code() {
    let c = usage_config();
    let arrow = Expr::Arrow(Function {
        params: vec![],
        return_type: None,
        body: FnBody::Expr(Box::new(Expr::New(Box::new(ident("Map")), vec![]))),
    });
    let body = vec![ModuleItem::Stmt(Stmt::Expr(Box::new(arrow)))];
    assert_eq!(required_polyfills(&c, &body), vec![BuiltIn::MapCtor]);
    let obj = Expr::Object(vec![Prop::Shorthand("Promise".to_string())]);
    let class = Expr::Class(vec![ClassMember::Prop {
        key: "s".to_string(),
        optional: false,
        readonly: false,
        type_ann: None,
        value: Some(Box::new(ident("Symbol"))),
    }]);
    let body = vec![ModuleItem::Stmt(Stmt::Expr(Box::new(obj))), ModuleItem::Stmt(Stmt::Expr(Box::new(class)))];
    assert_eq!(required_polyfills(&c, &body), vec![BuiltIn::Promise, BuiltIn::Symbol]);
    let sup = Expr::SuperCall(vec![Arg { spread: false, expr: ident("WeakMap") }]);
    assert_eq!(
        required_polyfills(&c, &vec![ModuleItem::Stmt(Stmt::Expr(Box::new(sup)))]),
        vec![BuiltIn::WeakMap]
    );
}
