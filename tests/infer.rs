use tscheck::ast::{
    Arg, ArrayElem, BinaryOp, CallKind, Callee, Class, ClassMember, CtorParam, Expr, ExprKind,
    ExprLit, Function, MemberProp, ParamDecl, Prop, Stmt, UnaryOp,
};
use tscheck::error::{Error, Span};
use tscheck::infer::type_of;
use tscheck::narrow::negate;
use tscheck::resolve::{extract, try_instantiate};
use tscheck::scope::{ExportInfo, Scope};
use tscheck::ty::{Key, Keyword, Lit, Member, Param, Pat, Signature, Type, TypeParam};

fn sp() -> Span {
    Span { lo: 1, hi: 2 }
}

fn ex(kind: ExprKind) -> Expr {
    Expr { span: sp(), kind }
}

fn n(x: f64) -> Expr {
    ex(ExprKind::Lit(ExprLit::Num(x.to_bits())))
}

fn s(x: &str) -> Expr {
    ex(ExprKind::Lit(ExprLit::Str(x.to_string())))
}

fn id(x: &str) -> Expr {
    ex(ExprKind::Ident(x.to_string()))
}

fn kw(k: Keyword) -> Type {
    Type::Keyword(k)
}

fn num(x: f64) -> Type {
    Type::Lit(Lit::Num(x.to_bits()))
}

fn text(x: &str) -> Type {
    Type::Lit(Lit::Str(x.to_string()))
}

fn empty_scope() -> Scope {
    Scope { vars: vec![], imports: vec![], types: vec![], builtins: vec![] }
}

fn key(name: &str) -> Key {
    Key { name: name.to_string(), computed: false }
}

fn sig(params: Vec<Param>, ret: Type) -> Signature {
    Signature { type_params: None, params, ret: Box::new(ret) }
}

fn param(name: &str, ty: Type) -> Param {
    Param { pat: Pat::Ident(name.to_string()), ty: Some(ty) }
}

fn same(a: &Type, b: &Type) -> bool {
    a.eq_ignore_span(b)
}

fn arg(e: Expr) -> Arg {
    Arg { spread: false, expr: e }
}

#[test]
fn number_literal_and_its_widening() {
    let t = type_of(&n(42.0), &empty_scope()).ok().unwrap();
    assert!(same(&t, &num(42.0)));
    assert!(same(&t.generalize_lit(), &kw(Keyword::Number)));
}

#[test]
fn widening_of_each_literal_kind() {
    assert!(same(&Type::Lit(Lit::Bool(true)).generalize_lit(), &kw(Keyword::Boolean)));
    assert!(same(&num(42.0).generalize_lit(), &kw(Keyword::Number)));
    assert!(same(&text("q").generalize_lit(), &kw(Keyword::String)));
    assert!(same(&kw(Keyword::Null).generalize_lit(), &kw(Keyword::Null)));
}

#[test]
fn conditional_of_different_types_is_a_union() {
    let e = ex(ExprKind::Cond(Box::new(id("cond")), Box::new(n(1.0)), Box::new(s("a"))));
    let t = type_of(&e, &empty_scope()).ok().unwrap();
    assert!(same(&t, &Type::Union(vec![num(1.0), text("a")])));
    let e2 = ex(ExprKind::Cond(Box::new(id("cond")), Box::new(n(1.0)), Box::new(n(1.0))));
    assert!(same(&type_of(&e2, &empty_scope()).ok().unwrap(), &num(1.0)));
}

#[test]
fn method_call_resolves_to_its_return_type() {
    let obj = Type::TypeLit(vec![Member::Method {
        key: key("foo"),
        sig: sig(vec![param("x", kw(Keyword::Number))], kw(Keyword::String)),
    }]);
    let sc = Scope { vars: vec![("o".to_string(), obj)], imports: vec![], types: vec![], builtins: vec![] };
    let callee = ex(ExprKind::Member(Callee::Expr(Box::new(id("o"))), MemberProp::Ident("foo".to_string())));
    let call = ex(ExprKind::Call(Callee::Expr(Box::new(callee)), vec![arg(n(1.0))], None));
    assert!(same(&type_of(&call, &sc).ok().unwrap(), &kw(Keyword::String)));
}

#[test]
fn method_call_with_too_few_arguments() {
    let obj = Type::TypeLit(vec![Member::Method {
        key: key("foo"),
        sig: sig(vec![param("x", kw(Keyword::Number))], kw(Keyword::String)),
    }]);
    let sc = Scope { vars: vec![("o".to_string(), obj)], imports: vec![], types: vec![], builtins: vec![] };
    let callee = ex(ExprKind::Member(Callee::Expr(Box::new(id("o"))), MemberProp::Ident("foo".to_string())));
    let call = ex(ExprKind::Call(Callee::Expr(Box::new(callee)), vec![], None));
    assert!(matches!(type_of(&call, &sc), Err(Error::NoCallSignature { .. })));
}

#[test]
fn undefined_identifier() {
    assert!(matches!(type_of(&id("nowhere"), &empty_scope()), Err(Error::UndefinedSymbol { .. })));
}

#[test]
fn identifier_lookup_order() {
    let sc = Scope {
        vars: vec![("x".to_string(), kw(Keyword::Number)), ("x".to_string(), kw(Keyword::String))],
        imports: vec![("I".to_string(), ExportInfo::Alias(kw(Keyword::Boolean)))],
        types: vec![],
        builtins: vec![("Math".to_string(), kw(Keyword::Object)), ("x".to_string(), kw(Keyword::Void))],
    };
    assert!(same(&type_of(&id("x"), &sc).ok().unwrap(), &kw(Keyword::Number)));
    assert!(same(&type_of(&id("I"), &sc).ok().unwrap(), &kw(Keyword::Boolean)));
    assert!(same(&type_of(&id("Math"), &sc).ok().unwrap(), &kw(Keyword::Object)));
    assert!(matches!(type_of(&id("require"), &sc), Err(Error::Unsupported { .. })));
}

#[test]
fn array_literal_types() {
    let sc = empty_scope();
    let e = ex(ExprKind::Array(vec![]));
    assert!(same(&type_of(&e, &sc).ok().unwrap(), &Type::Array(Box::new(kw(Keyword::Any)))));
    let e = ex(ExprKind::Array(vec![ArrayElem::Item(n(1.0)), ArrayElem::Item(n(2.0))]));
    assert!(same(&type_of(&e, &sc).ok().unwrap(), &Type::Array(Box::new(kw(Keyword::Number)))));
    let e = ex(ExprKind::Array(vec![
        ArrayElem::Item(n(1.0)),
        ArrayElem::Item(s("a")),
        ArrayElem::Item(n(3.0)),
        ArrayElem::Hole,
    ]));
    let expected = Type::Array(Box::new(Type::Union(vec![
        kw(Keyword::Number),
        kw(Keyword::String),
        kw(Keyword::Undefined),
    ])));
    assert!(same(&type_of(&e, &sc).ok().unwrap(), &expected));
    let e = ex(ExprKind::Array(vec![ArrayElem::Spread(id("xs"))]));
    assert!(matches!(type_of(&e, &sc), Err(Error::Unsupported { .. })));
}

#[test]
fn object_literal_type() {
    let e = ex(ExprKind::Object(vec![Prop::KeyValue(key("a"), n(1.0)), Prop::KeyValue(key("b"), s("x"))]));
    let expected = Type::TypeLit(vec![
        Member::Property { key: key("a"), ty: Some(num(1.0)), optional: false, readonly: false },
        Member::Property { key: key("b"), ty: Some(text("x")), optional: false, readonly: false },
    ]);
    assert!(same(&type_of(&e, &empty_scope()).ok().unwrap(), &expected));
    let spread = ex(ExprKind::Object(vec![Prop::Spread(id("o"))]));
    assert!(matches!(type_of(&spread, &empty_scope()), Err(Error::Unsupported { .. })));
}

#[test]
fn operators() {
    let sc = empty_scope();
    let not0 = ex(ExprKind::Unary(UnaryOp::Not, Box::new(n(0.0))));
    assert!(same(&type_of(&not0, &sc).ok().unwrap(), &Type::Lit(Lit::Bool(true))));
    let not_s = ex(ExprKind::Unary(UnaryOp::Not, Box::new(s("a"))));
    assert!(same(&type_of(&not_s, &sc).ok().unwrap(), &Type::Lit(Lit::Bool(false))));
    let tyof = ex(ExprKind::Unary(UnaryOp::TypeOf, Box::new(n(0.0))));
    assert!(same(&type_of(&tyof, &sc).ok().unwrap(), &kw(Keyword::String)));
    let void = ex(ExprKind::Unary(UnaryOp::Void, Box::new(n(0.0))));
    assert!(same(&type_of(&void, &sc).ok().unwrap(), &kw(Keyword::Undefined)));
    let add = ex(ExprKind::Bin(BinaryOp::Add, Box::new(n(1.0)), Box::new(s("x"))));
    assert!(same(&type_of(&add, &sc).ok().unwrap(), &kw(Keyword::Number)));
    let lt = ex(ExprKind::Bin(BinaryOp::Lt, Box::new(n(1.0)), Box::new(n(2.0))));
    assert!(same(&type_of(&lt, &sc).ok().unwrap(), &kw(Keyword::Boolean)));
    let and = ex(ExprKind::Bin(BinaryOp::LogicalAnd, Box::new(n(1.0)), Box::new(s("r"))));
    assert!(same(&type_of(&and, &sc).ok().unwrap(), &text("r")));
    let mul = ex(ExprKind::Bin(BinaryOp::Mul, Box::new(n(1.0)), Box::new(n(2.0))));
    assert!(matches!(type_of(&mul, &sc), Err(Error::Unsupported { .. })));
    let seq = ex(ExprKind::Sequence(vec![n(1.0), s("last")]));
    assert!(same(&type_of(&seq, &sc).ok().unwrap(), &text("last")));
    let tpl = ex(ExprKind::Tpl(vec![]));
    assert!(same(&type_of(&tpl, &sc).ok().unwrap(), &kw(Keyword::String)));
}

#[test]
fn negation_of_literals() {
    assert!(same(&negate(&Type::Lit(Lit::Bool(true))), &Type::Lit(Lit::Bool(false))));
    assert!(same(&negate(&num(0.0)), &Type::Lit(Lit::Bool(true))));
    assert!(same(&negate(&num(5.0)), &Type::Lit(Lit::Bool(false))));
    assert!(same(&negate(&text("")), &Type::Lit(Lit::Bool(true))));
    assert!(same(&negate(&kw(Keyword::Number)), &kw(Keyword::Boolean)));
}

#[test]
fn non_null_assertion_removes_nullish() {
    let sc = Scope {
        vars: vec![("v".to_string(), Type::Union(vec![kw(Keyword::String), kw(Keyword::Undefined), kw(Keyword::Null)]))],
        imports: vec![],
        types: vec![],
        builtins: vec![],
    };
    let e = ex(ExprKind::TsNonNull(Box::new(id("v"))));
    assert!(same(&type_of(&e, &sc).ok().unwrap(), &Type::Union(vec![kw(Keyword::String)])));
}

#[test]
fn narrowing_of_intersections_and_truthiness() {
    let i = Type::Intersection(vec![kw(Keyword::String), kw(Keyword::Null)]);
    assert!(same(&i.remove_falsy(), &kw(Keyword::Never)));
    let u = Type::Union(vec![Type::Lit(Lit::Bool(true)), Type::Lit(Lit::Bool(false))]);
    assert!(same(&u.remove_truthy(), &Type::Union(vec![Type::Lit(Lit::Bool(false))])));
    assert!(same(&u.remove_falsy(), &Type::Union(vec![Type::Lit(Lit::Bool(true))])));
}

#[test]
fn member_access_and_casts() {
    let sc = Scope { vars: vec![("o".to_string(), kw(Keyword::Object))], imports: vec![], types: vec![], builtins: vec![] };
    let m = ex(ExprKind::Member(Callee::Expr(Box::new(id("o"))), MemberProp::Ident("p".to_string())));
    let expected = Type::IndexedAccess { obj: Box::new(kw(Keyword::Object)), index: Box::new(kw(Keyword::String)) };
    assert!(same(&type_of(&m, &sc).ok().unwrap(), &expected));
    let cast = ex(ExprKind::TsAs(Box::new(id("o")), kw(Keyword::Number)));
    assert!(same(&type_of(&cast, &sc).ok().unwrap(), &kw(Keyword::Number)));
    let assign = ex(ExprKind::Assign(Box::new(id("o")), Box::new(s("z"))));
    assert!(same(&type_of(&assign, &sc).ok().unwrap(), &text("z")));
}

#[test]
fn unsupported_shapes_do_not_abort() {
    let sc = empty_scope();
    assert!(matches!(type_of(&ex(ExprKind::Arrow), &sc), Err(Error::Unsupported { .. })));
    assert!(matches!(type_of(&ex(ExprKind::Await(Box::new(n(1.0)))), &sc), Err(Error::Unsupported { .. })));
    assert!(matches!(type_of(&ex(ExprKind::Yield(None)), &sc), Err(Error::Unsupported { .. })));
    assert!(matches!(type_of(&ex(ExprKind::MetaProp), &sc), Err(Error::Unsupported { .. })));
}

#[test]
fn function_expression_infers_returns() {
    let body = vec![
        Stmt::If(n(1.0), Box::new(Stmt::Return(Some(n(1.0)))), None),
        Stmt::Return(Some(s("a"))),
    ];
    let f = Function {
        params: vec![ParamDecl { pat: Pat::Ident("x".to_string()), ty: Some(kw(Keyword::Number)), default: None }],
        type_params: None,
        ret: None,
        body: Some(body),
    };
    let t = type_of(&ex(ExprKind::Fn(f)), &empty_scope()).ok().unwrap();
    let expected = Type::Function(sig(vec![param("x", kw(Keyword::Number))], Type::Union(vec![num(1.0), text("a")])));
    assert!(same(&t, &expected));
    let g = Function { params: vec![], type_params: None, ret: None, body: Some(vec![]) };
    let t = type_of(&ex(ExprKind::Fn(g)), &empty_scope()).ok().unwrap();
    assert!(same(&t, &Type::Function(sig(vec![], kw(Keyword::Undefined)))));
}

#[test]
fn class_expression_type() {
    let class = Class {
        members: vec![
            ClassMember::Property { key: key("a"), ty: None, value: Some(n(1.0)), optional: false, readonly: true },
            ClassMember::Property { key: key("b"), ty: None, value: None, optional: true, readonly: false },
            ClassMember::Constructor(vec![CtorParam::Property(ParamDecl {
                pat: Pat::Ident("p".to_string()),
                ty: Some(kw(Keyword::String)),
                default: Some(s("d")),
            })]),
            ClassMember::PrivateProperty,
        ],
    };
    let t = type_of(&ex(ExprKind::Class(class)), &empty_scope()).ok().unwrap();
    let expected = Type::TypeLit(vec![
        Member::Property { key: key("a"), ty: Some(num(1.0)), optional: false, readonly: true },
        Member::Property { key: key("b"), ty: Some(kw(Keyword::Any)), optional: true, readonly: false },
        Member::Construct(sig(vec![param("p", kw(Keyword::String))], kw(Keyword::Any))),
    ]);
    assert!(same(&t, &expected));
    let with_method = Class { members: vec![ClassMember::Method(key("m"))] };
    assert!(matches!(type_of(&ex(ExprKind::Class(with_method)), &empty_scope()), Err(Error::Unsupported { .. })));
}

#[test]
fn construction_through_construct_signature() {
    let ctor = Type::TypeLit(vec![Member::Construct(sig(vec![], kw(Keyword::Object)))]);
    let sc = Scope { vars: vec![("C".to_string(), ctor)], imports: vec![], types: vec![], builtins: vec![] };
    let e = ex(ExprKind::New(Box::new(id("C")), None, None));
    assert!(same(&type_of(&e, &sc).ok().unwrap(), &kw(Keyword::Object)));
    let call = ex(ExprKind::Call(Callee::Expr(Box::new(id("C"))), vec![], None));
    assert!(matches!(type_of(&call, &sc), Err(Error::NoCallSignature { .. })));
    let sup = ex(ExprKind::Call(Callee::Super, vec![], None));
    assert!(same(&type_of(&sup, &sc).ok().unwrap(), &kw(Keyword::Any)));
}

#[test]
fn extract_on_functions_unions_and_any() {
    let f = Type::Function(sig(vec![param("x", kw(Keyword::Number))], kw(Keyword::String)));
    let one = vec![arg(n(1.0))];
    assert!(same(&extract(&f, CallKind::Call, &one, &None, sp()).ok().unwrap(), &kw(Keyword::String)));
    assert!(matches!(extract(&f, CallKind::New, &one, &None, sp()), Err(Error::NoNewSignature { .. })));
    let u = Type::Union(vec![kw(Keyword::Number), f]);
    assert!(same(&extract(&u, CallKind::Call, &one, &None, sp()).ok().unwrap(), &kw(Keyword::String)));
    let bad = Type::Union(vec![kw(Keyword::Number), kw(Keyword::String)]);
    match extract(&bad, CallKind::Call, &one, &None, sp()) {
        Err(Error::UnionError { errors, .. }) => assert_eq!(errors.len(), 2),
        _ => panic!("expected a union error"),
    }
    assert!(same(&extract(&kw(Keyword::Any), CallKind::New, &one, &None, sp()).ok().unwrap(), &kw(Keyword::Any)));
}

#[test]
fn overloads_are_chosen_by_arity_or_refused() {
    let two = Type::TypeLit(vec![
        Member::Call(sig(vec![], kw(Keyword::Number))),
        Member::Call(sig(vec![param("a", kw(Keyword::Number))], kw(Keyword::String))),
    ]);
    let one = vec![arg(n(1.0))];
    assert!(same(&extract(&two, CallKind::Call, &one, &None, sp()).ok().unwrap(), &kw(Keyword::String)));
    let tie = Type::TypeLit(vec![
        Member::Call(sig(vec![param("a", kw(Keyword::Number))], kw(Keyword::Number))),
        Member::Call(sig(vec![param("b", kw(Keyword::String))], kw(Keyword::String))),
    ]);
    assert!(matches!(extract(&tie, CallKind::Call, &one, &None, sp()), Err(Error::Unsupported { .. })));
    let none = Type::TypeLit(vec![]);
    assert!(matches!(extract(&none, CallKind::Call, &one, &None, sp()), Err(Error::NoCallSignature { .. })));
}

#[test]
fn instantiation_checks_counts() {
    let generic = Signature {
        type_params: Some(vec![TypeParam { name: "T".to_string(), constraint: None }]),
        params: vec![param("x", kw(Keyword::Number))],
        ret: Box::new(kw(Keyword::Boolean)),
    };
    assert!(same(&try_instantiate(&generic, 1, 1, sp()).ok().unwrap(), &kw(Keyword::Boolean)));
    match try_instantiate(&generic, 1, 2, sp()) {
        Err(Error::WrongTypeParams { expected, actual: 2, .. }) => assert_eq!(expected, 0..1),
        _ => panic!("expected WrongTypeParams"),
    }
    match try_instantiate(&generic, 0, 0, sp()) {
        Err(Error::WrongParams { expected, actual: 0, .. }) => assert_eq!(expected, 0..1),
        _ => panic!("expected WrongParams"),
    }
}

#[test]
fn scope_expansion() {
    let sc = Scope {
        vars: vec![],
        imports: vec![("Shape".to_string(), ExportInfo::Interface(vec![Member::Property {
            key: key("w"),
            ty: Some(kw(Keyword::Number)),
            optional: false,
            readonly: false,
        }]))],
        types: vec![("E".to_string(), ExportInfo::Enum), ("T".to_string(), ExportInfo::Type(kw(Keyword::String)))],
        builtins: vec![],
    };
    let r = Type::Ref { name: "Shape".to_string(), args: vec![] };
    let t = sc.expand(&r, sp()).ok().unwrap();
    assert!(matches!(&t, Type::TypeLit(ms) if ms.len() == 1));
    assert!(matches!(sc.expand_export_info(&"E".to_string(), false, sp()), Err(Error::Unsupported { .. })));
    assert!(matches!(sc.expand_export_info(&"Q".to_string(), false, sp()), Err(Error::UndefinedSymbol { .. })));
    assert!(matches!(sc.expand_export_info(&"T".to_string(), true, sp()), Err(Error::Unsupported { .. })));
    assert!(same(&sc.expand(&kw(Keyword::Void), sp()).ok().unwrap(), &kw(Keyword::Void)));
}

#[test]
fn equality_with_and_without_names() {
    let a = Type::Function(sig(vec![param("x", kw(Keyword::Number))], kw(Keyword::Void)));
    let b = Type::Function(sig(vec![param("y", kw(Keyword::Number))], kw(Keyword::Void)));
    assert!(!a.eq_ignore_span(&b));
    assert!(a.eq_ignore_name_and_span(&b));
    assert!(a.deep_clone().eq_ignore_span(&a));
    let c = Type::Function(sig(vec![param("y", kw(Keyword::String))], kw(Keyword::Void)));
    assert!(!a.eq_ignore_name_and_span(&c));
}

#[test]
fn keyword_predicates() {
    let u = Type::Union(vec![kw(Keyword::String), Type::Union(vec![kw(Keyword::Undefined)])]);
    assert!(u.contains_undefined());
    assert!(!u.contains_void());
    assert!(!u.is_any());
    assert!(kw(Keyword::Any).is_any());
    assert!(kw(Keyword::Unknown).is_unknown());
    assert!(!Type::This.is_unknown());
    assert!(Type::Union(vec![kw(Keyword::Void)]).contains_void());
}

#[test]
fn parameter_annotation_accessors() {
    let mut p = ParamDecl { pat: Pat::Ident("x".to_string()), ty: None, default: None };
    assert!(p.get_ty().is_none());
    p.set_ty(Some(kw(Keyword::Number)));
    assert!(same(p.get_ty().unwrap(), &kw(Keyword::Number)));
}

#[test]
fn errors_of_sub_expressions_come_back_unchanged() {
    let sc = empty_scope();
    let bad = Expr { span: Span { lo: 7, hi: 9 }, kind: ExprKind::Ident("missing".to_string()) };
    let cond = ex(ExprKind::Cond(Box::new(n(1.0)), Box::new(n(1.0)), Box::new(bad)));
    match type_of(&cond, &sc) {
        Err(Error::UndefinedSymbol { span }) => assert_eq!(span, Span { lo: 7, hi: 9 }),
        _ => panic!("expected the branch's UndefinedSymbol"),
    }
    let bad = Expr { span: Span { lo: 3, hi: 4 }, kind: ExprKind::Ident("gone".to_string()) };
    let seq = ex(ExprKind::Sequence(vec![bad, n(1.0)]));
    match type_of(&seq, &sc) {
        Err(Error::UndefinedSymbol { span }) => assert_eq!(span, Span { lo: 3, hi: 4 }),
        _ => panic!("every element of a sequence is checked"),
    }
    let empty = ex(ExprKind::Sequence(vec![]));
    assert!(matches!(type_of(&empty, &sc), Err(Error::Unsupported { .. })));
}

#[test]
fn returns_inside_loops_switches_and_try() {
    let body = vec![
        Stmt::While(n(1.0), Box::new(Stmt::Return(Some(n(1.0))))),
        Stmt::For(Box::new(Stmt::Block(vec![Stmt::Return(Some(s("a")))]))),
        Stmt::Switch(n(0.0), vec![Stmt::Return(None)]),
        Stmt::Try(
            Box::new(Stmt::Return(Some(ex(ExprKind::Lit(ExprLit::Bool(true)))))),
            Some(Box::new(Stmt::Empty)),
            None,
        ),
    ];
    let f = Function { params: vec![], type_params: None, ret: None, body: Some(body) };
    let t = type_of(&ex(ExprKind::Fn(f)), &empty_scope()).ok().unwrap();
    let expected = Type::Function(sig(vec![], Type::Union(vec![
        num(1.0),
        text("a"),
        kw(Keyword::Undefined),
        Type::Lit(Lit::Bool(true)),
    ])));
    assert!(same(&t, &expected));
    let bad = Function {
        params: vec![],
        type_params: None,
        ret: None,
        body: Some(vec![Stmt::DoWhile(Box::new(Stmt::Return(Some(ex(ExprKind::Arrow)))), n(1.0))]),
    };
    assert!(matches!(type_of(&ex(ExprKind::Fn(bad)), &empty_scope()), Err(Error::Unsupported { .. })));
}

#[test]
fn member_call_errors() {
    let obj = Type::TypeLit(vec![
        Member::Method { key: key("f"), sig: sig(vec![param("a", kw(Keyword::Number))], kw(Keyword::Number)) },
        Member::Method { key: key("f"), sig: sig(vec![param("b", kw(Keyword::String))], kw(Keyword::String)) },
    ]);
    let sc = Scope { vars: vec![("o".to_string(), obj)], imports: vec![], types: vec![], builtins: vec![] };
    let call = |name: &str, args: Vec<Arg>| {
        let callee = ex(ExprKind::Member(Callee::Expr(Box::new(id("o"))), MemberProp::Ident(name.to_string())));
        ex(ExprKind::Call(Callee::Expr(Box::new(callee)), args, None))
    };
    assert!(matches!(type_of(&call("g", vec![]), &sc), Err(Error::NoCallSignature { .. })));
    assert!(matches!(type_of(&call("f", vec![arg(n(1.0))]), &sc), Err(Error::Unsupported { .. })));
    assert!(matches!(type_of(&call("f", vec![]), &sc), Err(Error::Unsupported { .. })));
    let req = ex(ExprKind::Call(Callee::Expr(Box::new(id("require"))), vec![arg(s("m"))], None));
    assert!(matches!(type_of(&req, &sc), Err(Error::Unsupported { .. })));
}

#[test]
fn single_signature_that_does_not_fit_is_no_signature() {
    let one = Type::TypeLit(vec![Member::Call(sig(vec![param("a", kw(Keyword::Number))], kw(Keyword::String)))]);
    assert!(matches!(extract(&one, CallKind::Call, &vec![], &None, sp()), Err(Error::NoCallSignature { .. })));
    let ctor = Type::TypeLit(vec![Member::Construct(sig(vec![param("a", kw(Keyword::Number))], kw(Keyword::Object)))]);
    assert!(matches!(extract(&ctor, CallKind::New, &vec![], &None, sp()), Err(Error::NoNewSignature { .. })));
    let f = Type::Function(sig(vec![param("a", kw(Keyword::Number))], kw(Keyword::String)));
    assert!(matches!(extract(&f, CallKind::Call, &vec![], &None, sp()), Err(Error::WrongParams { .. })));
}

#[test]
fn member_call_error_is_placed_at_the_callee() {
    let sc = Scope { vars: vec![("o".to_string(), Type::TypeLit(vec![]))], imports: vec![], types: vec![], builtins: vec![] };
    let callee = Expr {
        span: Span { lo: 0, hi: 5 },
        kind: ExprKind::Member(Callee::Expr(Box::new(id("o"))), MemberProp::Ident("f".to_string())),
    };
    let call = Expr { span: Span { lo: 0, hi: 10 }, kind: ExprKind::Call(Callee::Expr(Box::new(callee)), vec![], None) };
    match type_of(&call, &sc) {
        Err(Error::NoCallSignature { span }) => assert_eq!(span, Span { lo: 0, hi: 5 }),
        _ => panic!("expected NoCallSignature"),
    }
}
