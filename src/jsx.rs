use vstd::prelude::*;
use crate::ast::Expr;

verus! {

/// An attribute of a JSX opening element: `name={expr}`, or a bare `name`.
#[derive(Debug)]
pub struct JsxAttr {
    pub name: String,
    pub value: Option<Expr>,
}

/// A JSX opening element such as `<div a={b}>`.
#[derive(Debug)]
pub struct JsxOpeningElement {
    pub name: String,
    pub attrs: Vec<JsxAttr>,
}

/// Adds a `__self={this}` attribute to every JSX element in development builds.
#[derive(Clone, Copy, Debug, PartialEq, Eq, Structural)]
pub struct JsxSelf {
    pub dev: bool,
}

/// The injector for development (`dev`) or production builds.
pub fn jsx_self(dev: bool) -> (r: JsxSelf)
    ensures
        r.dev == dev,
{
    JsxSelf { dev }
}

/// `a` is `__self={this}`.
pub open spec fn is_self_attr(a: JsxAttr) -> bool {
    a.name@ == "__self"@ && a.value == Some(Expr::This)
}

impl JsxSelf {
    /// Appends `__self={this}` to the element's attributes when in development.
    pub fn fold(&self, n: JsxOpeningElement) -> (r: JsxOpeningElement)
        ensures
            !self.dev ==> r == n,
            self.dev ==> r.name == n.name && r.attrs@.len() == n.attrs@.len() + 1 && r.attrs@.drop_last()
                == n.attrs@ && is_self_attr(r.attrs@.last()),
    {
        if !self.dev {
            return n;
        }
        let mut n = n;
        let ghost before = n.attrs@;
        n.attrs.push(JsxAttr { name: "__self".to_owned(), value: Some(Expr::This) });
        assert(n.attrs@.drop_last() =~= before);
        n
    }
}

} // verus!
