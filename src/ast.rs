use vstd::prelude::*;
use crate::types::{Param, Type};

verus! {

/// A source position.
#[derive(Clone, Copy, Debug, PartialEq, Eq, Structural)]
pub struct Span {
    pub lo: u32,
    pub hi: u32,
}

/// An identifier and where it stands.
#[derive(Debug)]
pub struct Ident {
    pub sym: String,
    pub span: Span,
}

/// A literal expression. Numbers are held as integers.
#[derive(Debug)]
pub enum Lit {
    Bool(bool),
    Str(String),
    Num(i64),
    Null,
    Regex,
}

#[derive(Clone, Copy, Debug, PartialEq, Eq, Structural)]
pub enum UnaryOp {
    Not,
    TypeOf,
    Void,
    Minus,
    Plus,
    Tilde,
    Delete,
}

#[derive(Clone, Copy, Debug, PartialEq, Eq, Structural)]
pub enum BinOp {
    LogicalOr,
    LogicalAnd,
    Sub,
    Add,
    Mul,
    Div,
    Mod,
    EqEqEq,
    NotEqEq,
    EqEq,
    NotEq,
    Lt,
    LtEq,
    Gt,
    GtEq,
    In,
    InstanceOf,
}

/// A call or constructor argument.
#[derive(Debug)]
pub struct Arg {
    pub spread: bool,
    pub expr: Expr,
}

/// An element of an array literal.
#[derive(Debug)]
pub enum ArrayElem {
    Hole,
    Elem(Expr),
    Spread(Expr),
}

/// A property of an object literal.
#[derive(Debug)]
pub enum Prop {
    KeyValue { key: String, value: Expr },
    Shorthand(String),
    Spread(Expr),
}

/// A statement, as far as return types are concerned.
#[derive(Debug)]
pub enum Stmt {
    Return(Option<Box<Expr>>),
    Expr(Box<Expr>),
    Block(Vec<Stmt>),
    If { test: Box<Expr>, cons: Box<Stmt>, alt: Option<Box<Stmt>> },
}

/// The body of an arrow or a function.
#[derive(Debug)]
pub enum FnBody {
    Block(Vec<Stmt>),
    Expr(Box<Expr>),
}

/// A function or arrow: parameters, declared return type and body.
#[derive(Debug)]
pub struct Function {
    pub params: Vec<Param>,
    pub return_type: Option<Box<Type>>,
    pub body: FnBody,
}

/// A member of a class body.
#[derive(Debug)]
pub enum ClassMember {
    Prop {
        key: String,
        optional: bool,
        readonly: bool,
        type_ann: Option<Box<Type>>,
        value: Option<Box<Expr>>,
    },
    Constructor { params: Vec<Param> },
    Method,
    IndexSignature,
    Private,
}

/// An expression.
#[derive(Debug)]
pub enum Expr {
    This,
    Ident(Ident),
    Lit(Lit),
    Array(Vec<ArrayElem>),
    Object(Vec<Prop>),
    Paren(Box<Expr>),
    Tpl,
    Unary(UnaryOp, Box<Expr>),
    Bin(BinOp, Box<Expr>, Box<Expr>),
    Assign(Box<Expr>, Box<Expr>),
    Sequence(Vec<Expr>),
    Cond(Box<Expr>, Box<Expr>, Box<Expr>),
    New(Box<Expr>, Vec<Arg>),
    Call(Box<Expr>, Vec<Arg>),
    SuperCall(Vec<Arg>),
    Member { obj: Box<Expr>, prop: Box<Expr>, computed: bool },
    Fn(Function),
    Arrow(Function),
    Class(Vec<ClassMember>),
    MetaProp,
    Yield,
    Await(Box<Expr>),
    Update(Box<Expr>),
    TsAs(Box<Expr>, Box<Type>),
    TsTypeCast(Box<Expr>, Box<Type>),
    TsNonNull(Box<Expr>),
}

} // verus!
