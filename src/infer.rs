//! Expression inference: the type of an expression in a scope.
use vstd::prelude::*;
use crate::algebra::generalized;
use crate::ast::{
    Arg, ArrayElem, BinaryOp, CallKind, Callee, Class, ClassMember, CtorParam, Expr, ExprKind,
    ExprLit, Function, MemberProp, ParamDecl, Prop, Stmt, UnaryOp,
};
use crate::copy::{copy_key, copy_opt_type_params, copy_opt_type, copy_pat, copy_type};
use crate::error::{type_result, Error, ErrorV, Span};
use crate::narrow::{narrowed, negate, negated};
use crate::resolve::{methods_named, no_signature_error, resolved, extracted, sigs_model};
use crate::scope::{bound_type, named_type, Scope};
use crate::ty::{
    opt_type_model, opt_type_params_model, params_model, types_model, members_model, Key, KeyV,
    Keyword, Lit, LitV, Member, MemberV, Param, ParamV, Signature, SignatureV, Type, TypeV,
};

verus! {

pub open spec fn lit_type(l: ExprLit) -> TypeV {
    match l {
        ExprLit::Bool(b) => TypeV::Lit(LitV::Bool(b)),
        ExprLit::Num(n) => TypeV::Lit(LitV::Num(n)),
        ExprLit::Str(s) => TypeV::Lit(LitV::Str(s@)),
        ExprLit::Null => TypeV::Keyword(Keyword::Null),
        ExprLit::Regex(_) => TypeV::Ref { name: "RegExp"@, args: Seq::empty() },
    }
}

pub open spec fn unsupported(sp: Span, what: Seq<char>) -> ErrorV {
    ErrorV::Unsupported { span: sp, description: what }
}

/// The type of an identifier written at `sp`: its variable, else the type its
/// name stands for, else its built-in default; an undefined symbol at `sp`
/// when none exists. `require` is not supported.
pub open spec fn ident_type(sc: Scope, name: Seq<char>, sp: Span) -> Result<TypeV, ErrorV> {
    if name == "require"@ {
        Err(unsupported(sp, "the type of `require`"@))
    } else if bound_type(sc.vars@, name) is Some {
        Ok(bound_type(sc.vars@, name)->0)
    } else if named_type(sc, name, false) is Some {
        Ok(named_type(sc, name, false)->0)
    } else if bound_type(sc.builtins@, name) is Some {
        Ok(bound_type(sc.builtins@, name)->0)
    } else {
        Err(ErrorV::UndefinedSymbol { span: sp })
    }
}

/// `s` with `x` appended unless it already holds it.
pub open spec fn dedup_push(s: Seq<TypeV>, x: TypeV) -> Seq<TypeV> {
    if s.contains(x) {
        s
    } else {
        s.push(x)
    }
}

/// The type of an array literal whose distinct element types are `ts`.
pub open spec fn array_of(ts: Seq<TypeV>) -> TypeV {
    if ts.len() == 0 {
        TypeV::Array(Box::new(TypeV::Keyword(Keyword::Any)))
    } else if ts.len() == 1 {
        TypeV::Array(Box::new(ts[0]))
    } else {
        TypeV::Array(Box::new(TypeV::Union(ts)))
    }
}

/// The type of a conditional expression whose branches have types `a`, `b`.
pub open spec fn cond_type(a: TypeV, b: TypeV) -> TypeV {
    if a == b {
        a
    } else {
        TypeV::Union(seq![a, b])
    }
}

/// The return type inferred from the types of a body's return statements.
pub open spec fn returns_type(ts: Seq<TypeV>) -> TypeV {
    if ts.len() == 0 {
        TypeV::Keyword(Keyword::Undefined)
    } else if ts.len() == 1 {
        ts[0]
    } else {
        TypeV::Union(ts)
    }
}

pub open spec fn is_comparison(op: BinaryOp) -> bool {
    ||| op == BinaryOp::Eq
    ||| op == BinaryOp::NotEq
    ||| op == BinaryOp::StrictEq
    ||| op == BinaryOp::StrictNotEq
    ||| op == BinaryOp::Lt
    ||| op == BinaryOp::LtEq
    ||| op == BinaryOp::Gt
    ||| op == BinaryOp::GtEq
}

pub open spec fn decl_param(d: ParamDecl) -> ParamV {
    ParamV { pat: d.pat@, ty: opt_type_model(&d.ty) }
}

pub open spec fn decl_params(ps: Seq<ParamDecl>) -> Seq<ParamV> {
    Seq::new(ps.len(), |i: int| decl_param(ps[i]))
}

/// A constructor parameter as a signature parameter: a parameter property
/// stands for its underlying parameter.
pub open spec fn ctor_param(p: CtorParam) -> ParamV {
    match p {
        CtorParam::Plain(d) => decl_param(d),
        CtorParam::Property(d) => decl_param(d),
    }
}

pub open spec fn ctor_params(ps: Seq<CtorParam>) -> Seq<ParamV> {
    Seq::new(ps.len(), |i: int| ctor_param(ps[i]))
}

pub open spec fn count_of(targs: Option<Vec<Type>>) -> int {
    match targs {
        Some(v) => v@.len() as int,
        None => 0,
    }
}

pub open spec fn args_count(args: Option<Vec<Arg>>) -> int {
    match args {
        Some(v) => v@.len() as int,
        None => 0,
    }
}

/// The result of calling the member `prop` of a value of type `ot`, for a
/// call at `sp`: for an object shape the methods of that name are the
/// candidates of a call (none is a missing call signature, a construction
/// has no signature, a computed member is not supported); `any` yields
/// `any`; any other type has no signature of the kind asked for.
pub open spec fn member_call(
    ot: TypeV,
    prop: MemberProp,
    kind: CallKind,
    nargs: int,
    ntargs: int,
    sp: Span,
) -> Result<TypeV, ErrorV> {
    match ot {
        TypeV::TypeLit(ms) => member_candidates(ms, prop, kind, nargs, ntargs, sp),
        TypeV::Interface { members, .. } => member_candidates(members, prop, kind, nargs, ntargs, sp),
        TypeV::Keyword(Keyword::Any) => Ok(TypeV::Keyword(Keyword::Any)),
        _ => Err(no_signature_error(kind, sp)),
    }
}

pub open spec fn member_candidates(
    ms: Seq<MemberV>,
    prop: MemberProp,
    kind: CallKind,
    nargs: int,
    ntargs: int,
    sp: Span,
) -> Result<TypeV, ErrorV> {
    match prop {
        MemberProp::Ident(name) => {
            let cands = methods_named(ms, KeyV { name: name@, computed: false }, ms.len() as int);
            if kind == CallKind::Call && cands.len() > 0 {
                resolved(cands, kind, nargs, ntargs, sp)
            } else {
                Err(no_signature_error(kind, sp))
            }
        },
        MemberProp::Computed(_) => Err(unsupported(sp, "a call of a computed member"@)),
    }
}

/// The result of inferring the type of `e` in scope `sc`: its type, or the
/// error. The error of a sub-expression is the error of the whole; shapes
/// not handled are unsupported at `e`'s span. (`z` only orders the
/// recursion.)
pub open spec fn inferred(e: Expr, sc: Scope, z: int) -> Result<TypeV, ErrorV>
    decreases e, z,
{
    let sp = e.span;
    match e.kind {
        ExprKind::This => Ok(TypeV::This),
        ExprKind::Ident(n) => ident_type(sc, n@, sp),
        ExprKind::Lit(l) => Ok(lit_type(l)),
        ExprKind::Array(elems) => match elem_types(elems@, sc, sp, elems@.len() as int) {
            Ok(ts) => Ok(array_of(ts)),
            Err(x) => Err(x),
        },
        ExprKind::Object(props) => match prop_types(props@, sc, sp, props@.len() as int) {
            Ok(ms) => Ok(TypeV::TypeLit(ms)),
            Err(x) => Err(x),
        },
        ExprKind::Paren(x) => inferred(*x, sc, 0),
        ExprKind::Tpl(_) => Ok(TypeV::Keyword(Keyword::String)),
        ExprKind::Unary(op, x) => match op {
            UnaryOp::Not => match inferred(*x, sc, 0) {
                Ok(t) => Ok(negated(t)),
                Err(x) => Err(x),
            },
            UnaryOp::TypeOf => Ok(TypeV::Keyword(Keyword::String)),
            UnaryOp::Void => Ok(TypeV::Keyword(Keyword::Undefined)),
            _ => Err(unsupported(sp, "this unary operator"@)),
        },
        ExprKind::TsAs(_, t) => Ok(t@),
        ExprKind::TsTypeCast(_, t) => Ok(t@),
        ExprKind::TsNonNull(x) => match inferred(*x, sc, 0) {
            Ok(t) => Ok(narrowed(t, true)),
            Err(x) => Err(x),
        },
        ExprKind::Cond(_, b, c) => match inferred(*b, sc, 0) {
            Ok(x) => match inferred(*c, sc, 0) {
                Ok(y) => Ok(cond_type(x, y)),
                Err(x) => Err(x),
            },
            Err(x) => Err(x),
        },
        ExprKind::Call(callee, args, targs) => match callee {
            Callee::Super => Ok(TypeV::Keyword(Keyword::Any)),
            Callee::Expr(f) => call_type(
                *f,
                CallKind::Call,
                args@.len() as int,
                count_of(targs),
                sc,
                sp,
                1,
            ),
        },
        ExprKind::New(f, args, targs) => call_type(
            *f,
            CallKind::New,
            args_count(args),
            count_of(targs),
            sc,
            sp,
            1,
        ),
        ExprKind::Sequence(es) => sequence_type(es@, sc, sp, es@.len() as int),
        ExprKind::Member(obj, prop) => match obj {
            Callee::Expr(o) => match inferred(*o, sc, 0) {
                Ok(ot) => match prop {
                    MemberProp::Ident(_) => Ok(
                        TypeV::IndexedAccess {
                            obj: Box::new(ot),
                            index: Box::new(TypeV::Keyword(Keyword::String)),
                        },
                    ),
                    MemberProp::Computed(p) => match inferred(*p, sc, 0) {
                        Ok(it) => Ok(TypeV::IndexedAccess { obj: Box::new(ot), index: Box::new(it) }),
                        Err(x) => Err(x),
                    },
                },
                Err(x) => Err(x),
            },
            Callee::Super => Err(unsupported(sp, "a member of `super`"@)),
        },
        ExprKind::Assign(_, r) => inferred(*r, sc, 0),
        ExprKind::Bin(op, _, r) => if op == BinaryOp::LogicalAnd || op == BinaryOp::LogicalOr {
            inferred(*r, sc, 0)
        } else if op == BinaryOp::Add || op == BinaryOp::Sub {
            Ok(TypeV::Keyword(Keyword::Number))
        } else if is_comparison(op) {
            Ok(TypeV::Keyword(Keyword::Boolean))
        } else {
            Err(unsupported(sp, "this binary operator"@))
        },
        ExprKind::Class(c) => match class_types(c.members@, sc, sp, c.members@.len() as int) {
            Ok(ms) => Ok(TypeV::TypeLit(ms)),
            Err(x) => Err(x),
        },
        ExprKind::Fn(f) => fn_type(f, sc, sp, 0),
        ExprKind::Update(_) => Err(unsupported(sp, "an update expression"@)),
        ExprKind::Arrow => Err(unsupported(sp, "an arrow function"@)),
        ExprKind::Await(_) => Err(unsupported(sp, "an await expression"@)),
        ExprKind::Yield(_) => Err(unsupported(sp, "a yield expression"@)),
        ExprKind::MetaProp => Err(unsupported(sp, "a meta property"@)),
    }
}

/// The type of a sequence expression of the first `n` expressions: each must
/// have a type (the first error is the result), and the last one's is the
/// type; an empty sequence is not supported.
pub open spec fn sequence_type(es: Seq<Expr>, sc: Scope, sp: Span, n: int) -> Result<TypeV, ErrorV>
    decreases es, n,
{
    if 0 < n <= es.len() {
        if n == 1 {
            inferred(es[0], sc, 0)
        } else {
            match sequence_type(es, sc, sp, n - 1) {
                Ok(_) => inferred(es[n - 1], sc, 0),
                Err(x) => Err(x),
            }
        }
    } else {
        Err(unsupported(sp, "an empty sequence expression"@))
    }
}

/// The result of calling (or constructing) `callee`, for a call at `sp`.
/// A call of `require` is not supported; a member call is resolved among the
/// methods of that name, its errors placed at the callee's span; any other
/// callee is resolved through its type.
pub open spec fn call_type(
    callee: Expr,
    kind: CallKind,
    nargs: int,
    ntargs: int,
    sc: Scope,
    sp: Span,
    z: int,
) -> Result<TypeV, ErrorV>
    decreases callee, z,
{
    match callee.kind {
        ExprKind::Ident(n) => if n@ == "require"@ {
            Err(unsupported(sp, "a dynamic `require`"@))
        } else if z > 0 {
            match inferred(callee, sc, 0) {
                Ok(t) => extracted(t, kind, nargs, ntargs, sp, 0),
                Err(x) => Err(x),
            }
        } else {
            Err(unsupported(sp, "a call"@))
        },
        ExprKind::Member(Callee::Expr(o), prop) => match inferred(*o, sc, 0) {
            Ok(ot) => member_call(ot, prop, kind, nargs, ntargs, callee.span),
            Err(x) => Err(x),
        },
        _ => if z > 0 {
            match inferred(callee, sc, 0) {
                Ok(t) => extracted(t, kind, nargs, ntargs, sp, 0),
                Err(x) => Err(x),
            }
        } else {
            Err(unsupported(sp, "a call"@))
        },
    }
}

/// The distinct widened types of the first `n` elements of an array literal;
/// a hole counts as `undefined`, a spread element is not supported; the first
/// error is the result.
pub open spec fn elem_types(es: Seq<ArrayElem>, sc: Scope, sp: Span, n: int) -> Result<
    Seq<TypeV>,
    ErrorV,
>
    decreases es, n,
{
    if 0 < n <= es.len() {
        match elem_types(es, sc, sp, n - 1) {
            Ok(s) => match es[n - 1] {
                ArrayElem::Hole => Ok(dedup_push(s, TypeV::Keyword(Keyword::Undefined))),
                ArrayElem::Item(x) => match inferred(x, sc, 0) {
                    Ok(t) => Ok(dedup_push(s, generalized(t))),
                    Err(x) => Err(x),
                },
                ArrayElem::Spread(_) => Err(unsupported(sp, "a spread element in an array literal"@)),
            },
            Err(x) => Err(x),
        }
    } else {
        Ok(Seq::empty())
    }
}

pub open spec fn property(key: KeyV, t: TypeV) -> MemberV {
    MemberV::Property { key, ty: Some(t), optional: false, readonly: false }
}

/// One property member for each of the first `n` members of an object
/// literal, typed by its value; a spread member is not supported; the first
/// error is the result.
pub open spec fn prop_types(ps: Seq<Prop>, sc: Scope, sp: Span, n: int) -> Result<
    Seq<MemberV>,
    ErrorV,
>
    decreases ps, n,
{
    if 0 < n <= ps.len() {
        match prop_types(ps, sc, sp, n - 1) {
            Ok(s) => match ps[n - 1] {
                Prop::KeyValue(k, x) => match inferred(x, sc, 0) {
                    Ok(t) => Ok(s.push(property(k@, t))),
                    Err(x) => Err(x),
                },
                Prop::Shorthand(name, nsp) => match ident_type(sc, name@, nsp) {
                    Ok(t) => Ok(s.push(property(KeyV { name: name@, computed: false }, t))),
                    Err(x) => Err(x),
                },
                Prop::Method(k, f) => match fn_type(f, sc, sp, 0) {
                    Ok(t) => Ok(s.push(property(k@, t))),
                    Err(x) => Err(x),
                },
                Prop::Spread(_) => Err(unsupported(sp, "a spread member in an object literal"@)),
            },
            Err(x) => Err(x),
        }
    } else {
        Ok(Seq::empty())
    }
}

/// The members synthesized from the first `n` members of a class body: a
/// property typed by its annotation, else by its initializer, else `any`; a
/// construct signature from the constructor's parameters. Methods and index
/// signatures are not supported; private members are left out; the first
/// error is the result.
pub open spec fn class_types(ms: Seq<ClassMember>, sc: Scope, sp: Span, n: int) -> Result<
    Seq<MemberV>,
    ErrorV,
>
    decreases ms, n,
{
    if 0 < n <= ms.len() {
        match class_types(ms, sc, sp, n - 1) {
            Ok(s) => match ms[n - 1] {
                ClassMember::Property { key, ty, value, optional, readonly } => {
                    let t = match ty {
                        Some(t) => Ok(t@),
                        None => match value {
                            Some(v) => inferred(v, sc, 0),
                            None => Ok(TypeV::Keyword(Keyword::Any)),
                        },
                    };
                    match t {
                        Ok(t) => Ok(
                            s.push(MemberV::Property { key: key@, ty: Some(t), optional, readonly }),
                        ),
                        Err(x) => Err(x),
                    }
                },
                ClassMember::Constructor(ps) => Ok(
                    s.push(
                        MemberV::Construct(
                            SignatureV {
                                type_params: None,
                                params: ctor_params(ps@),
                                ret: Box::new(TypeV::Keyword(Keyword::Any)),
                            },
                        ),
                    ),
                ),
                ClassMember::Method(_) => Err(unsupported(sp, "a method in a class expression"@)),
                ClassMember::IndexSignature => Err(unsupported(sp, "an index signature in a class expression"@)),
                _ => Ok(s),
            },
            Err(x) => Err(x),
        }
    } else {
        Ok(Seq::empty())
    }
}

/// The type of a function: its parameters as written, and its annotated
/// return type or else the one inferred from its return statements (whose
/// first error is the result). A function with neither a body nor a return
/// type is not supported.
pub open spec fn fn_type(f: Function, sc: Scope, sp: Span, z: int) -> Result<TypeV, ErrorV>
    decreases f, z,
{
    let ret = match f.ret {
        Some(t) => Ok(t@),
        None => match f.body {
            Some(b) => match stmts_returns(b@, sc, b@.len() as int) {
                Ok(ts) => Ok(returns_type(ts)),
                Err(x) => Err(x),
            },
            None => Err(unsupported(sp, "a function without a body or a return type"@)),
        },
    };
    match ret {
        Ok(r) => Ok(
            TypeV::Function(
                SignatureV {
                    type_params: opt_type_params_model(&f.type_params),
                    params: decl_params(f.params@),
                    ret: Box::new(r),
                },
            ),
        ),
        Err(x) => Err(x),
    }
}

/// The types of the return statements reachable in the first `n`
/// statements, in order; `return;` counts as `undefined`; the first error is
/// the result.
pub open spec fn stmts_returns(ss: Seq<Stmt>, sc: Scope, n: int) -> Result<Seq<TypeV>, ErrorV>
    decreases ss, n,
{
    if 0 < n <= ss.len() {
        match stmts_returns(ss, sc, n - 1) {
            Ok(a) => match stmt_returns(ss[n - 1], sc, 0) {
                Ok(b) => Ok(a + b),
                Err(x) => Err(x),
            },
            Err(x) => Err(x),
        }
    } else {
        Ok(Seq::empty())
    }
}

pub open spec fn opt_returns(s: Option<Box<Stmt>>, sc: Scope, z: int) -> Result<Seq<TypeV>, ErrorV>
    decreases s, z,
{
    match s {
        Some(x) => stmt_returns(*x, sc, 0),
        None => Ok(Seq::empty()),
    }
}

pub open spec fn stmt_returns(s: Stmt, sc: Scope, z: int) -> Result<Seq<TypeV>, ErrorV>
    decreases s, z,
{
    match s {
        Stmt::Return(x) => match x {
            Some(e) => match inferred(e, sc, 0) {
                Ok(t) => Ok(seq![t]),
                Err(x) => Err(x),
            },
            None => Ok(seq![TypeV::Keyword(Keyword::Undefined)]),
        },
        Stmt::Block(ss) => stmts_returns(ss@, sc, ss@.len() as int),
        Stmt::If(_, c, a) => match stmt_returns(*c, sc, 0) {
            Ok(x) => match opt_returns(a, sc, 0) {
                Ok(y) => Ok(x + y),
                Err(x) => Err(x),
            },
            Err(x) => Err(x),
        },
        Stmt::While(_, b) => stmt_returns(*b, sc, 0),
        Stmt::DoWhile(b, _) => stmt_returns(*b, sc, 0),
        Stmt::For(b) => stmt_returns(*b, sc, 0),
        Stmt::Labeled(_, b) => stmt_returns(*b, sc, 0),
        Stmt::Switch(_, cases) => stmts_returns(cases@, sc, cases@.len() as int),
        Stmt::Try(b, c, f) => match stmt_returns(*b, sc, 0) {
            Ok(x) => match opt_returns(c, sc, 0) {
                Ok(y) => match opt_returns(f, sc, 0) {
                    Ok(w) => Ok(x + y + w),
                    Err(x) => Err(x),
                },
                Err(x) => Err(x),
            },
            Err(x) => Err(x),
        },
        _ => Ok(Seq::empty()),
    }
}

} // verus!

verus! {

// Once a prefix has an error, every longer prefix has the same error.

proof fn lemma_elem_types_err(es: Seq<ArrayElem>, sc: Scope, sp: Span, m: int, n: int)
    requires
        0 <= m <= n <= es.len(),
        elem_types(es, sc, sp, m) is Err,
    ensures
        elem_types(es, sc, sp, n) == elem_types(es, sc, sp, m),
    decreases n - m,
{
    if m < n {
        lemma_elem_types_err(es, sc, sp, m, n - 1);
    }
}

proof fn lemma_prop_types_err(ps: Seq<Prop>, sc: Scope, sp: Span, m: int, n: int)
    requires
        0 <= m <= n <= ps.len(),
        prop_types(ps, sc, sp, m) is Err,
    ensures
        prop_types(ps, sc, sp, n) == prop_types(ps, sc, sp, m),
    decreases n - m,
{
    if m < n {
        lemma_prop_types_err(ps, sc, sp, m, n - 1);
    }
}

proof fn lemma_class_types_err(ms: Seq<ClassMember>, sc: Scope, sp: Span, m: int, n: int)
    requires
        0 <= m <= n <= ms.len(),
        class_types(ms, sc, sp, m) is Err,
    ensures
        class_types(ms, sc, sp, n) == class_types(ms, sc, sp, m),
    decreases n - m,
{
    if m < n {
        lemma_class_types_err(ms, sc, sp, m, n - 1);
    }
}

proof fn lemma_stmts_returns_err(ss: Seq<Stmt>, sc: Scope, m: int, n: int)
    requires
        0 <= m <= n <= ss.len(),
        stmts_returns(ss, sc, m) is Err,
    ensures
        stmts_returns(ss, sc, n) == stmts_returns(ss, sc, m),
    decreases n - m,
{
    if m < n {
        lemma_stmts_returns_err(ss, sc, m, n - 1);
    }
}

proof fn lemma_sequence_type_err(es: Seq<Expr>, sc: Scope, sp: Span, m: int, n: int)
    requires
        1 <= m <= n <= es.len(),
        sequence_type(es, sc, sp, m) is Err,
    ensures
        sequence_type(es, sc, sp, n) == sequence_type(es, sc, sp, m),
    decreases n - m,
{
    if m < n {
        lemma_sequence_type_err(es, sc, sp, m, n - 1);
    }
}

fn unsupported_error(span: Span, what: &str) -> (r: Error)
    ensures
        r@ == unsupported(span, what@),
{
    Error::Unsupported { span, description: String::from_str(what) }
}

fn is_require(name: &String) -> (r: bool)
    ensures
        r == (name@ == "require"@),
{
    let req = String::from_str("require");
    name.eq(&req)
}

fn lit_type_exec(l: &ExprLit) -> (r: Type)
    ensures
        r@ == lit_type(*l),
{
    match l {
        ExprLit::Bool(b) => Type::Lit(Lit::Bool(*b)),
        ExprLit::Num(n) => Type::Lit(Lit::Num(*n)),
        ExprLit::Str(s) => Type::Lit(Lit::Str(s.clone())),
        ExprLit::Null => Type::Keyword(Keyword::Null),
        ExprLit::Regex(_) => {
            let args: Vec<Type> = Vec::new();
            let r = Type::Ref { name: String::from_str("RegExp"), args };
            assert(types_model(args@) =~= Seq::<TypeV>::empty());
            r
        },
    }
}

fn ident_type_exec(sc: &Scope, name: &String, span: Span) -> (r: Result<Type, Error>)
    ensures
        type_result(&r) == ident_type(*sc, name@, span),
{
    if is_require(name) {
        return Err(unsupported_error(span, "the type of `require`"));
    }
    match sc.find_var_type(name) {
        Some(t) => Ok(t),
        None => match sc.expand_export_info(name, false, span) {
            Ok(t) => Ok(t),
            Err(_) => match sc.find_builtin(name) {
                Some(t) => Ok(t),
                None => Err(Error::UndefinedSymbol { span }),
            },
        },
    }
}

fn contains_type(v: &Vec<Type>, x: &Type) -> (r: bool)
    ensures
        r == types_model(v@).contains(x@),
{
    let mut i: usize = 0;
    while i < v.len()
        invariant
            i <= v.len(),
            forall|j: int| 0 <= j < i ==> types_model(v@)[j] != x@,
        decreases v.len() - i,
    {
        assert(types_model(v@)[i as int] == v@[i as int]@);
        if v[i].eq_ignore_span(x) {
            return true;
        }
        i += 1;
    }
    false
}

fn array_type(items: Vec<Type>) -> (r: Type)
    ensures
        r@ == array_of(types_model(items@)),
{
    let ghost tv = types_model(items@);
    let mut v = items;
    assert(tv.len() == v@.len());
    if v.len() == 0 {
        let k = Type::Keyword(Keyword::Any);
        assert(k@ == TypeV::Keyword(Keyword::Any));
        Type::Array(Box::new(k))
    } else if v.len() == 1 {
        assert(tv[0] == v@[0]@);
        match v.pop() {
            Some(x) => Type::Array(Box::new(x)),
            None => Type::Array(Box::new(Type::Keyword(Keyword::Any))),
        }
    } else {
        let ghost vv = v@;
        assert(types_model(vv) == tv);
        let u = Type::Union(v);
        assert(u@ == TypeV::Union(types_model(vv)));
        Type::Array(Box::new(u))
    }
}

fn returns_type_exec(items: Vec<Type>) -> (r: Type)
    ensures
        r@ == returns_type(types_model(items@)),
{
    let mut v = items;
    assert(types_model(v@).len() == v@.len());
    if v.len() == 0 {
        Type::Keyword(Keyword::Undefined)
    } else if v.len() == 1 {
        assert(types_model(v@)[0] == v@[0]@);
        match v.pop() {
            Some(x) => x,
            None => Type::Keyword(Keyword::Undefined),
        }
    } else {
        Type::Union(v)
    }
}

fn decl_params_exec(ps: &Vec<ParamDecl>) -> (r: Vec<Param>)
    ensures
        params_model(r@) == decl_params(ps@),
{
    let mut out: Vec<Param> = Vec::new();
    let mut i: usize = 0;
    while i < ps.len()
        invariant
            i <= ps.len(),
            out@.len() == i,
            forall|j: int| 0 <= j < i ==> (#[trigger] out@[j])@ == decl_param(ps@[j]),
        decreases ps.len() - i,
    {
        let p = Param { pat: copy_pat(&ps[i].pat), ty: copy_opt_type(&ps[i].ty) };
        out.push(p);
        i += 1;
    }
    assert(params_model(out@) =~= decl_params(ps@));
    out
}

fn ctor_params_exec(ps: &Vec<CtorParam>) -> (r: Vec<Param>)
    ensures
        params_model(r@) == ctor_params(ps@),
{
    let mut out: Vec<Param> = Vec::new();
    let mut i: usize = 0;
    while i < ps.len()
        invariant
            i <= ps.len(),
            out@.len() == i,
            forall|j: int| 0 <= j < i ==> (#[trigger] out@[j])@ == ctor_param(ps@[j]),
        decreases ps.len() - i,
    {
        let d = match &ps[i] {
            CtorParam::Plain(d) => d,
            CtorParam::Property(d) => d,
        };
        let p = Param { pat: copy_pat(&d.pat), ty: copy_opt_type(&d.ty) };
        out.push(p);
        i += 1;
    }
    assert(params_model(out@) =~= ctor_params(ps@));
    out
}

fn no_signature_exec(kind: CallKind, span: Span) -> (r: Error)
    ensures
        r@ == no_signature_error(kind, span),
{
    match kind {
        CallKind::Call => Error::NoCallSignature { span },
        CallKind::New => Error::NoNewSignature { span },
    }
}

fn member_call_exec(
    ot: &Type,
    prop: &MemberProp,
    kind: CallKind,
    nargs: usize,
    ntargs: usize,
    span: Span,
) -> (r: Result<Type, Error>)
    ensures
        type_result(&r) == member_call(ot@, *prop, kind, nargs as int, ntargs as int, span),
{
    match ot {
        Type::TypeLit(ms) | Type::Interface { members: ms, .. } => match prop {
            MemberProp::Ident(name) => {
                if kind == CallKind::Call {
                    let key = Key { name: name.clone(), computed: false };
                    let cands = crate::resolve::methods_with_key(ms, &key);
                    if cands.len() > 0 {
                        assert(sigs_model(cands@).len() == cands@.len());
                        crate::resolve::resolve(&cands, kind, nargs, ntargs, span)
                    } else {
                        Err(no_signature_exec(kind, span))
                    }
                } else {
                    Err(no_signature_exec(kind, span))
                }
            },
            MemberProp::Computed(_) => Err(unsupported_error(span, "a call of a computed member")),
        },
        Type::Keyword(Keyword::Any) => Ok(Type::Keyword(Keyword::Any)),
        _ => Err(no_signature_exec(kind, span)),
    }
}

fn call_type_exec(
    callee: &Expr,
    kind: CallKind,
    nargs: usize,
    ntargs: usize,
    sc: &Scope,
    span: Span,
) -> (r: Result<Type, Error>)
    ensures
        type_result(&r) == call_type(*callee, kind, nargs as int, ntargs as int, *sc, span, 1),
    decreases callee, 1int,
{
    match &callee.kind {
        ExprKind::Ident(n) => {
            if is_require(n) {
                return Err(unsupported_error(span, "a dynamic `require`"));
            }
        },
        ExprKind::Member(Callee::Expr(o), prop) => {
            let ot = match type_of(o, sc) {
                Ok(t) => t,
                Err(e) => {
                    return Err(e);
                },
            };
            return member_call_exec(&ot, prop, kind, nargs, ntargs, callee.span);
        },
        _ => {},
    }
    let t = match type_of(callee, sc) {
        Ok(t) => t,
        Err(e) => {
            return Err(e);
        },
    };
    crate::resolve::extract_n(&t, kind, nargs, ntargs, span)
}

fn elem_types_exec(es: &Vec<ArrayElem>, sc: &Scope, span: Span) -> (r: Result<Vec<Type>, Error>)
    ensures
        match r {
            Ok(v) => elem_types(es@, *sc, span, es@.len() as int) == Ok::<Seq<TypeV>, ErrorV>(
                types_model(v@),
            ),
            Err(e) => elem_types(es@, *sc, span, es@.len() as int) == Err::<Seq<TypeV>, ErrorV>(
                e@,
            ),
        },
    decreases es, 0int,
{
    let mut out: Vec<Type> = Vec::new();
    let mut i: usize = 0;
    assert(types_model(out@) =~= Seq::<TypeV>::empty());
    while i < es.len()
        invariant
            i <= es.len(),
            elem_types(es@, *sc, span, i as int) == Ok::<Seq<TypeV>, ErrorV>(types_model(out@)),
        decreases es.len() - i,
    {
        proof {
            assert(decreases_to!(*es => es[i as int]));
        }
        let x = match &es[i] {
            ArrayElem::Hole => Type::Keyword(Keyword::Undefined),
            ArrayElem::Item(x) => {
                proof {
                    assert(decreases_to!(es[i as int] => es[i as int]->Item_0));
                }
                match type_of(x, sc) {
                    Ok(t) => t.generalize_lit(),
                    Err(e) => {
                        proof {
                            lemma_elem_types_err(es@, *sc, span, i + 1, es@.len() as int);
                        }
                        return Err(e);
                    },
                }
            },
            ArrayElem::Spread(_) => {
                proof {
                    lemma_elem_types_err(es@, *sc, span, i + 1, es@.len() as int);
                }
                return Err(unsupported_error(span, "a spread element in an array literal"));
            },
        };
        let ghost before = out@;
        if !contains_type(&out, &x) {
            out.push(x);
            assert(types_model(out@) =~= types_model(before).push(x@));
        }
        i += 1;
    }
    Ok(out)
}

fn prop_types_exec(ps: &Vec<Prop>, sc: &Scope, span: Span) -> (r: Result<Vec<Member>, Error>)
    ensures
        match r {
            Ok(v) => prop_types(ps@, *sc, span, ps@.len() as int) == Ok::<Seq<MemberV>, ErrorV>(
                members_model(v@),
            ),
            Err(e) => prop_types(ps@, *sc, span, ps@.len() as int) == Err::<Seq<MemberV>, ErrorV>(
                e@,
            ),
        },
    decreases ps, 0int,
{
    let mut out: Vec<Member> = Vec::new();
    let mut i: usize = 0;
    assert(members_model(out@) =~= Seq::<MemberV>::empty());
    while i < ps.len()
        invariant
            i <= ps.len(),
            prop_types(ps@, *sc, span, i as int) == Ok::<Seq<MemberV>, ErrorV>(members_model(out@)),
        decreases ps.len() - i,
    {
        proof {
            assert(decreases_to!(*ps => ps[i as int]));
        }
        let m = match &ps[i] {
            Prop::KeyValue(k, x) => {
                proof {
                    assert(decreases_to!(ps[i as int] => ps[i as int]->KeyValue_1));
                }
                match type_of(x, sc) {
                    Ok(t) => Member::Property { key: copy_key(k), ty: Some(t), optional: false, readonly: false },
                    Err(e) => {
                        proof {
                            lemma_prop_types_err(ps@, *sc, span, i + 1, ps@.len() as int);
                        }
                        return Err(e);
                    },
                }
            },
            Prop::Shorthand(name, nspan) => match ident_type_exec(sc, name, *nspan) {
                Ok(t) => Member::Property {
                    key: Key { name: name.clone(), computed: false },
                    ty: Some(t),
                    optional: false,
                    readonly: false,
                },
                Err(e) => {
                    proof {
                        lemma_prop_types_err(ps@, *sc, span, i + 1, ps@.len() as int);
                    }
                    return Err(e);
                },
            },
            Prop::Method(k, f) => {
                proof {
                    assert(decreases_to!(ps[i as int] => ps[i as int]->Method_1));
                }
                match fn_type_exec(f, sc, span) {
                    Ok(t) => Member::Property { key: copy_key(k), ty: Some(t), optional: false, readonly: false },
                    Err(e) => {
                        proof {
                            lemma_prop_types_err(ps@, *sc, span, i + 1, ps@.len() as int);
                        }
                        return Err(e);
                    },
                }
            },
            Prop::Spread(_) => {
                proof {
                    lemma_prop_types_err(ps@, *sc, span, i + 1, ps@.len() as int);
                }
                return Err(unsupported_error(span, "a spread member in an object literal"));
            },
        };
        let ghost before = out@;
        out.push(m);
        assert(members_model(out@) =~= members_model(before).push(m@));
        i += 1;
    }
    Ok(out)
}

fn class_types_exec(ms: &Vec<ClassMember>, sc: &Scope, span: Span) -> (r: Result<Vec<Member>, Error>)
    ensures
        match r {
            Ok(v) => class_types(ms@, *sc, span, ms@.len() as int) == Ok::<Seq<MemberV>, ErrorV>(
                members_model(v@),
            ),
            Err(e) => class_types(ms@, *sc, span, ms@.len() as int) == Err::<Seq<MemberV>, ErrorV>(
                e@,
            ),
        },
    decreases ms, 0int,
{
    let mut out: Vec<Member> = Vec::new();
    let mut i: usize = 0;
    assert(members_model(out@) =~= Seq::<MemberV>::empty());
    while i < ms.len()
        invariant
            i <= ms.len(),
            class_types(ms@, *sc, span, i as int) == Ok::<Seq<MemberV>, ErrorV>(members_model(out@)),
        decreases ms.len() - i,
    {
        proof {
            assert(decreases_to!(*ms => ms[i as int]));
        }
        let ghost before = out@;
        match &ms[i] {
            ClassMember::Property { key, ty, value, optional, readonly } => {
                let t = match ty {
                    Some(t) => copy_type(t),
                    None => match value {
                        Some(v) => {
                            proof {
                                assert(decreases_to!(ms[i as int] => ms[i as int]->Property_value));
                            }
                            match type_of(v, sc) {
                                Ok(t) => t,
                                Err(e) => {
                                    proof {
                                        lemma_class_types_err(ms@, *sc, span, i + 1, ms@.len() as int);
                                    }
                                    return Err(e);
                                },
                            }
                        },
                        None => Type::Keyword(Keyword::Any),
                    },
                };
                let m = Member::Property {
                    key: copy_key(key),
                    ty: Some(t),
                    optional: *optional,
                    readonly: *readonly,
                };
                out.push(m);
                assert(members_model(out@) =~= members_model(before).push(m@));
            },
            ClassMember::Constructor(ps) => {
                let m = Member::Construct(
                    Signature {
                        type_params: None,
                        params: ctor_params_exec(ps),
                        ret: Box::new(Type::Keyword(Keyword::Any)),
                    },
                );
                out.push(m);
                assert(members_model(out@) =~= members_model(before).push(m@));
            },
            ClassMember::Method(_) => {
                proof {
                    lemma_class_types_err(ms@, *sc, span, i + 1, ms@.len() as int);
                }
                return Err(unsupported_error(span, "a method in a class expression"));
            },
            ClassMember::IndexSignature => {
                proof {
                    lemma_class_types_err(ms@, *sc, span, i + 1, ms@.len() as int);
                }
                return Err(unsupported_error(span, "an index signature in a class expression"));
            },
            _ => {},
        }
        i += 1;
    }
    Ok(out)
}

fn stmts_returns_exec(ss: &Vec<Stmt>, sc: &Scope) -> (r: Result<Vec<Type>, Error>)
    ensures
        match r {
            Ok(v) => stmts_returns(ss@, *sc, ss@.len() as int) == Ok::<Seq<TypeV>, ErrorV>(
                types_model(v@),
            ),
            Err(e) => stmts_returns(ss@, *sc, ss@.len() as int) == Err::<Seq<TypeV>, ErrorV>(e@),
        },
    decreases ss, 0int,
{
    let mut out: Vec<Type> = Vec::new();
    let mut i: usize = 0;
    assert(types_model(out@) =~= Seq::<TypeV>::empty());
    while i < ss.len()
        invariant
            i <= ss.len(),
            stmts_returns(ss@, *sc, i as int) == Ok::<Seq<TypeV>, ErrorV>(types_model(out@)),
        decreases ss.len() - i,
    {
        proof {
            assert(decreases_to!(*ss => ss[i as int]));
        }
        match stmt_returns_exec(&ss[i], sc) {
            Ok(v) => {
                let ghost before = out@;
                let ghost added = v@;
                let mut v = v;
                out.append(&mut v);
                assert(types_model(out@) =~= types_model(before) + types_model(added));
            },
            Err(e) => {
                proof {
                    lemma_stmts_returns_err(ss@, *sc, i + 1, ss@.len() as int);
                }
                return Err(e);
            },
        }
        i += 1;
    }
    Ok(out)
}

fn concat_types(x: Vec<Type>, y: Vec<Type>) -> (r: Vec<Type>)
    ensures
        types_model(r@) == types_model(x@) + types_model(y@),
{
    let mut x = x;
    let mut y = y;
    let ghost xv = x@;
    let ghost yv = y@;
    x.append(&mut y);
    assert(types_model(x@) =~= types_model(xv) + types_model(yv));
    x
}

fn opt_returns_exec(s: &Option<Box<Stmt>>, sc: &Scope) -> (r: Result<Vec<Type>, Error>)
    ensures
        match r {
            Ok(v) => opt_returns(*s, *sc, 0) == Ok::<Seq<TypeV>, ErrorV>(types_model(v@)),
            Err(e) => opt_returns(*s, *sc, 0) == Err::<Seq<TypeV>, ErrorV>(e@),
        },
    decreases s, 0int,
{
    match s {
        Some(x) => stmt_returns_exec(x, sc),
        None => {
            let v: Vec<Type> = Vec::new();
            assert(types_model(v@) =~= Seq::<TypeV>::empty());
            Ok(v)
        },
    }
}

fn stmt_returns_exec(s: &Stmt, sc: &Scope) -> (r: Result<Vec<Type>, Error>)
    ensures
        match r {
            Ok(v) => stmt_returns(*s, *sc, 0) == Ok::<Seq<TypeV>, ErrorV>(types_model(v@)),
            Err(e) => stmt_returns(*s, *sc, 0) == Err::<Seq<TypeV>, ErrorV>(e@),
        },
    decreases s, 0int,
{
    match s {
        Stmt::Return(x) => {
            let t = match x {
                Some(e) => match type_of(e, sc) {
                    Ok(t) => t,
                    Err(err) => {
                        return Err(err);
                    },
                },
                None => Type::Keyword(Keyword::Undefined),
            };
            let mut v: Vec<Type> = Vec::new();
            v.push(t);
            assert(types_model(v@) =~= seq![t@]);
            Ok(v)
        },
        Stmt::Block(ss) => stmts_returns_exec(ss, sc),
        Stmt::If(_, c, a) => {
            let x = match stmt_returns_exec(c, sc) {
                Ok(x) => x,
                Err(err) => {
                    return Err(err);
                },
            };
            match opt_returns_exec(a, sc) {
                Ok(y) => Ok(concat_types(x, y)),
                Err(err) => Err(err),
            }
        },
        Stmt::While(_, b) => stmt_returns_exec(b, sc),
        Stmt::DoWhile(b, _) => stmt_returns_exec(b, sc),
        Stmt::For(b) => stmt_returns_exec(b, sc),
        Stmt::Labeled(_, b) => stmt_returns_exec(b, sc),
        Stmt::Switch(_, cases) => stmts_returns_exec(cases, sc),
        Stmt::Try(b, c, f) => {
            let x = match stmt_returns_exec(b, sc) {
                Ok(x) => x,
                Err(err) => {
                    return Err(err);
                },
            };
            let y = match opt_returns_exec(c, sc) {
                Ok(y) => y,
                Err(err) => {
                    return Err(err);
                },
            };
            let w = match opt_returns_exec(f, sc) {
                Ok(w) => w,
                Err(err) => {
                    return Err(err);
                },
            };
            Ok(concat_types(concat_types(x, y), w))
        },
        _ => {
            let v: Vec<Type> = Vec::new();
            assert(types_model(v@) =~= Seq::<TypeV>::empty());
            Ok(v)
        },
    }
}

fn fn_type_exec(f: &Function, sc: &Scope, span: Span) -> (r: Result<Type, Error>)
    ensures
        type_result(&r) == fn_type(*f, *sc, span, 0),
    decreases f, 0int,
{
    let ret = match &f.ret {
        Some(t) => copy_type(t),
        None => match &f.body {
            Some(b) => match stmts_returns_exec(b, sc) {
                Ok(v) => returns_type_exec(v),
                Err(e) => {
                    return Err(e);
                },
            },
            None => {
                return Err(unsupported_error(span, "a function without a body or a return type"));
            },
        },
    };
    let sig = Signature {
        type_params: copy_opt_type_params(&f.type_params),
        params: decl_params_exec(&f.params),
        ret: Box::new(ret),
    };
    assert(sig@ == SignatureV {
        type_params: opt_type_params_model(&f.type_params),
        params: decl_params(f.params@),
        ret: Box::new(ret@),
    });
    Ok(Type::Function(sig))
}

fn sequence_type_exec(es: &Vec<Expr>, sc: &Scope, span: Span) -> (r: Result<Type, Error>)
    ensures
        type_result(&r) == sequence_type(es@, *sc, span, es@.len() as int),
    decreases es, 0int,
{
    if es.len() == 0 {
        return Err(unsupported_error(span, "an empty sequence expression"));
    }
    let mut last = Type::Keyword(Keyword::Undefined);
    let mut i: usize = 0;
    while i < es.len()
        invariant
            i <= es.len(),
            i > 0 ==> sequence_type(es@, *sc, span, i as int) == Ok::<TypeV, ErrorV>(last@),
        decreases es.len() - i,
    {
        proof {
            assert(decreases_to!(*es => es[i as int]));
        }
        match type_of(&es[i], sc) {
            Ok(t) => {
                last = t;
            },
            Err(e) => {
                proof {
                    lemma_sequence_type_err(es@, *sc, span, i + 1, es@.len() as int);
                }
                return Err(e);
            },
        }
        i += 1;
    }
    Ok(last)
}

/// The type of `e` in scope `sc`, or the error that `inferred` gives: an
/// undefined identifier is `UndefinedSymbol` at its span; a call is resolved
/// as `call_type` says; a sub-expression's error is returned unchanged; a
/// shape not handled is `Unsupported` at `e`'s span.
pub fn type_of(e: &Expr, sc: &Scope) -> (r: Result<Type, Error>)
    ensures
        type_result(&r) == inferred(*e, *sc, 0),
    decreases e, 0int,
{
    let span = e.span;
    match &e.kind {
        ExprKind::This => Ok(Type::This),
        ExprKind::Ident(n) => ident_type_exec(sc, n, span),
        ExprKind::Lit(l) => Ok(lit_type_exec(l)),
        ExprKind::Array(elems) => match elem_types_exec(elems, sc, span) {
            Ok(v) => Ok(array_type(v)),
            Err(err) => Err(err),
        },
        ExprKind::Object(props) => match prop_types_exec(props, sc, span) {
            Ok(v) => Ok(Type::TypeLit(v)),
            Err(err) => Err(err),
        },
        ExprKind::Paren(x) => type_of(x, sc),
        ExprKind::Tpl(_) => Ok(Type::Keyword(Keyword::String)),
        ExprKind::Unary(op, x) => match op {
            UnaryOp::Not => match type_of(x, sc) {
                Ok(t) => Ok(negate(&t)),
                Err(err) => Err(err),
            },
            UnaryOp::TypeOf => Ok(Type::Keyword(Keyword::String)),
            UnaryOp::Void => Ok(Type::Keyword(Keyword::Undefined)),
            _ => Err(unsupported_error(span, "this unary operator")),
        },
        ExprKind::TsAs(_, t) => Ok(copy_type(t)),
        ExprKind::TsTypeCast(_, t) => Ok(copy_type(t)),
        ExprKind::TsNonNull(x) => match type_of(x, sc) {
            Ok(t) => Ok(t.remove_falsy()),
            Err(err) => Err(err),
        },
        ExprKind::Cond(_, b, c) => {
            let x = match type_of(b, sc) {
                Ok(t) => t,
                Err(err) => {
                    return Err(err);
                },
            };
            let y = match type_of(c, sc) {
                Ok(t) => t,
                Err(err) => {
                    return Err(err);
                },
            };
            if x.eq_ignore_span(&y) {
                Ok(x)
            } else {
                let ghost xv = x@;
                let ghost yv = y@;
                let v = vec![x, y];
                assert(types_model(v@) =~= seq![xv, yv]);
                Ok(Type::Union(v))
            }
        },
        ExprKind::Call(callee, args, targs) => match callee {
            Callee::Super => Ok(Type::Keyword(Keyword::Any)),
            Callee::Expr(f) => {
                let ntargs: usize = match targs {
                    Some(v) => v.len(),
                    None => 0,
                };
                call_type_exec(f, CallKind::Call, args.len(), ntargs, sc, span)
            },
        },
        ExprKind::New(f, args, targs) => {
            let nargs: usize = match args {
                Some(v) => v.len(),
                None => 0,
            };
            let ntargs: usize = match targs {
                Some(v) => v.len(),
                None => 0,
            };
            call_type_exec(f, CallKind::New, nargs, ntargs, sc, span)
        },
        ExprKind::Sequence(es) => sequence_type_exec(es, sc, span),
        ExprKind::Member(obj, prop) => match obj {
            Callee::Expr(o) => {
                let ot = match type_of(o, sc) {
                    Ok(t) => t,
                    Err(err) => {
                        return Err(err);
                    },
                };
                match prop {
                    MemberProp::Ident(_) => {
                        let k = Type::Keyword(Keyword::String);
                        assert(k@ == TypeV::Keyword(Keyword::String));
                        Ok(Type::IndexedAccess { obj: Box::new(ot), index: Box::new(k) })
                    },
                    MemberProp::Computed(p) => match type_of(p, sc) {
                        Ok(it) => Ok(Type::IndexedAccess { obj: Box::new(ot), index: Box::new(it) }),
                        Err(err) => Err(err),
                    },
                }
            },
            Callee::Super => Err(unsupported_error(span, "a member of `super`")),
        },
        ExprKind::Assign(_, r) => type_of(r, sc),
        ExprKind::Bin(op, _, r) => {
            if *op == BinaryOp::LogicalAnd || *op == BinaryOp::LogicalOr {
                type_of(r, sc)
            } else if *op == BinaryOp::Add || *op == BinaryOp::Sub {
                Ok(Type::Keyword(Keyword::Number))
            } else if *op == BinaryOp::Eq || *op == BinaryOp::NotEq || *op == BinaryOp::StrictEq
                || *op == BinaryOp::StrictNotEq || *op == BinaryOp::Lt || *op == BinaryOp::LtEq
                || *op == BinaryOp::Gt || *op == BinaryOp::GtEq {
                Ok(Type::Keyword(Keyword::Boolean))
            } else {
                Err(unsupported_error(span, "this binary operator"))
            }
        },
        ExprKind::Class(c) => match class_types_exec(&c.members, sc, span) {
            Ok(v) => Ok(Type::TypeLit(v)),
            Err(err) => Err(err),
        },
        ExprKind::Fn(f) => fn_type_exec(f, sc, span),
        ExprKind::Update(_) => Err(unsupported_error(span, "an update expression")),
        ExprKind::Arrow => Err(unsupported_error(span, "an arrow function")),
        ExprKind::Await(_) => Err(unsupported_error(span, "an await expression")),
        ExprKind::Yield(_) => Err(unsupported_error(span, "a yield expression")),
        ExprKind::MetaProp => Err(unsupported_error(span, "a meta property")),
    }
}

} // verus!
