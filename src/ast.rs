//! The expression and statement trees that inference reads.
use vstd::prelude::*;
use crate::error::Span;
use crate::ty::{Key, Pat, Type, TypeParam};

verus! {

/// A literal expression. A number is held as the IEEE-754 bit pattern of its
/// value.
pub enum ExprLit {
    Bool(bool),
    Num(u64),
    Str(String),
    Null,
    Regex(String),
}

#[derive(Clone, Copy, Debug, PartialEq, Eq, Structural)]
pub enum UnaryOp {
    Not,
    TypeOf,
    Void,
    Minus,
    Plus,
    Tilde,
    Delete,
}

#[derive(Clone, Copy, Debug, PartialEq, Eq, Structural)]
pub enum BinaryOp {
    LogicalAnd,
    LogicalOr,
    Add,
    Sub,
    Mul,
    Div,
    Mod,
    Eq,
    NotEq,
    StrictEq,
    StrictNotEq,
    Lt,
    LtEq,
    Gt,
    GtEq,
    In,
    InstanceOf,
}

/// Whether a call is a call or a construction (`new`).
#[derive(Clone, Copy, Debug, PartialEq, Eq, Structural)]
pub enum CallKind {
    Call,
    New,
}

/// An argument of a call; `spread` marks `...expr`.
pub struct Arg {
    pub spread: bool,
    pub expr: Expr,
}

/// An element of an array literal.
pub enum ArrayElem {
    Hole,
    Item(Expr),
    Spread(Expr),
}

/// A member of an object literal.
pub enum Prop {
    KeyValue(Key, Expr),
    Shorthand(String, Span),
    Method(Key, Function),
    Spread(Expr),
}

/// What is called, or whose member is read: `super` or an expression.
pub enum Callee {
    Super,
    Expr(Box<Expr>),
}

/// The property of a member expression: `.name` or `[expr]`.
pub enum MemberProp {
    Ident(String),
    Computed(Box<Expr>),
}

/// A declared parameter: its pattern, annotation and default value.
pub struct ParamDecl {
    pub pat: Pat,
    pub ty: Option<Type>,
    pub default: Option<Expr>,
}

impl ParamDecl {
    /// The annotated type of the parameter.
    pub fn get_ty(&self) -> (r: Option<&Type>)
        ensures
            r is Some <==> self.ty is Some,
            r matches Some(t) ==> *t == self.ty->0,
    {
        match &self.ty {
            Some(t) => Some(t),
            None => None,
        }
    }

    /// Replaces the annotated type of the parameter; the pattern and the
    /// default value stay.
    pub fn set_ty(&mut self, ty: Option<Type>)
        ensures
            final(self).ty == ty,
            final(self).pat == old(self).pat,
            final(self).default == old(self).default,
    {
        self.ty = ty;
    }
}

/// A function: parameters, type parameters, return annotation and body.
pub struct Function {
    pub params: Vec<ParamDecl>,
    pub type_params: Option<Vec<TypeParam>>,
    pub ret: Option<Type>,
    pub body: Option<Vec<Stmt>>,
}

/// A constructor parameter: a plain one, or a parameter property
/// (`constructor(readonly x: T)`).
pub enum CtorParam {
    Plain(ParamDecl),
    Property(ParamDecl),
}

/// A member of a class body.
pub enum ClassMember {
    Property { key: Key, ty: Option<Type>, value: Option<Expr>, optional: bool, readonly: bool },
    Constructor(Vec<CtorParam>),
    Method(Key),
    IndexSignature,
    PrivateProperty,
    PrivateMethod,
}

pub struct Class {
    pub members: Vec<ClassMember>,
}

/// A statement of a function body.
pub enum Stmt {
    Expr(Expr),
    Return(Option<Expr>),
    Block(Vec<Stmt>),
    If(Expr, Box<Stmt>, Option<Box<Stmt>>),
    While(Expr, Box<Stmt>),
    DoWhile(Box<Stmt>, Expr),
    /// A `for` loop of any form, by its body.
    For(Box<Stmt>),
    /// A `switch`, with one statement (usually a block) per case.
    Switch(Expr, Vec<Stmt>),
    /// A `try` block with its optional `catch` and `finally` blocks.
    Try(Box<Stmt>, Option<Box<Stmt>>, Option<Box<Stmt>>),
    Labeled(String, Box<Stmt>),
    Empty,
}

/// An expression with its place in the source.
pub struct Expr {
    pub span: Span,
    pub kind: ExprKind,
}

pub enum ExprKind {
    This,
    Ident(String),
    Lit(ExprLit),
    Array(Vec<ArrayElem>),
    Object(Vec<Prop>),
    Paren(Box<Expr>),
    Tpl(Vec<Expr>),
    Unary(UnaryOp, Box<Expr>),
    Update(Box<Expr>),
    Bin(BinaryOp, Box<Expr>, Box<Expr>),
    Assign(Box<Expr>, Box<Expr>),
    Cond(Box<Expr>, Box<Expr>, Box<Expr>),
    Call(Callee, Vec<Arg>, Option<Vec<Type>>),
    New(Box<Expr>, Option<Vec<Arg>>, Option<Vec<Type>>),
    Sequence(Vec<Expr>),
    Member(Callee, MemberProp),
    TsAs(Box<Expr>, Type),
    TsTypeCast(Box<Expr>, Type),
    TsNonNull(Box<Expr>),
    Fn(Function),
    Arrow,
    Class(Class),
    Await(Box<Expr>),
    Yield(Option<Box<Expr>>),
    MetaProp,
}

} // verus!
