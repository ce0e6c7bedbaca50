use tscheck::algebra::{any, undefined};
use tscheck::assign::assign;
use tscheck::render::render;
use tscheck::error::{Error, Span};
use tscheck::ty::{Key, Keyword, Lit, Member, Param, Pat, Signature, Type, TypeParam};

fn sp() -> Span {
    Span { lo: 0, hi: 0 }
}

fn kw(k: Keyword) -> Type {
    Type::Keyword(k)
}

fn num(x: f64) -> Type {
    Type::Lit(Lit::Num(x.to_bits()))
}

fn text(s: &str) -> Type {
    Type::Lit(Lit::Str(s.to_string()))
}

fn key(name: &str) -> Key {
    Key { name: name.to_string(), computed: false }
}

fn prop(name: &str, ty: Option<Type>) -> Member {
    Member::Property { key: key(name), ty, optional: false, readonly: false }
}

fn func(params: Vec<Param>, ret: Type) -> Type {
    Type::Function(Signature { type_params: None, params, ret: Box::new(ret) })
}

fn param(name: &str, ty: Type) -> Param {
    Param { pat: Pat::Ident(name.to_string()), ty: Some(ty) }
}

fn ok(to: &Type, from: &Type) -> bool {
    assign(to, from, sp()).is_ok()
}

#[test]
fn keyword_accepts_literal_of_its_kind() {
    assert!(ok(&kw(Keyword::Number), &num(42.0)));
    assert!(ok(&kw(Keyword::String), &text("x")));
    assert!(ok(&kw(Keyword::Boolean), &Type::Lit(Lit::Bool(true))));
    assert!(!ok(&kw(Keyword::String), &num(1.0)));
    assert!(!ok(&kw(Keyword::Number), &kw(Keyword::String)));
}

#[test]
fn union_target_takes_matching_branch() {
    let to = Type::Union(vec![kw(Keyword::String), kw(Keyword::Number)]);
    assert!(ok(&to, &text("x")));
    assert!(!ok(&to, &Type::Lit(Lit::Bool(false))));
}

#[test]
fn union_target_reports_every_branch() {
    let to = Type::Union(vec![kw(Keyword::String), kw(Keyword::Number)]);
    match assign(&to, &Type::Lit(Lit::Bool(false)), sp()) {
        Err(Error::UnionError { errors, .. }) => assert_eq!(errors.len(), 2),
        _ => panic!("expected a union error"),
    }
}

#[test]
fn union_source_needs_every_branch() {
    let from = Type::Union(vec![kw(Keyword::String), kw(Keyword::Number)]);
    assert!(!ok(&kw(Keyword::String), &from));
    assert!(ok(&Type::Union(vec![kw(Keyword::Number), kw(Keyword::String)]), &from));
    match assign(&kw(Keyword::String), &from, sp()) {
        Err(Error::UnionError { errors, .. }) => assert_eq!(errors.len(), 1),
        _ => panic!("expected a union error"),
    }
}

#[test]
fn union_distribution_on_both_sides() {
    let a = kw(Keyword::String);
    let b = kw(Keyword::Number);
    let c = text("c");
    let target = Type::Union(vec![kw(Keyword::String), kw(Keyword::Number)]);
    assert_eq!(ok(&target, &c), ok(&a, &c) || ok(&b, &c));
    let source = Type::Union(vec![text("p"), num(3.0)]);
    assert_eq!(ok(&a, &source), ok(&a, &text("p")) && ok(&a, &num(3.0)));
    assert!(!ok(&a, &source));
}

#[test]
fn any_and_unknown_absorb() {
    let samples = vec![kw(Keyword::Number), text("s"), Type::This, Type::Array(Box::new(kw(Keyword::String)))];
    for t in &samples {
        assert!(ok(&any(), t));
        assert!(ok(&kw(Keyword::Unknown), t));
        assert!(ok(t, &any()));
    }
    assert!(ok(&undefined(), &kw(Keyword::Unknown)));
    assert!(ok(&any(), &kw(Keyword::Unknown)));
    assert!(!ok(&kw(Keyword::Number), &kw(Keyword::Unknown)));
    assert!(!ok(&text("s"), &kw(Keyword::Unknown)));
}

#[test]
fn reflexive_on_ordinary_types() {
    let samples = vec![
        kw(Keyword::Number),
        kw(Keyword::Object),
        num(7.0),
        Type::Array(Box::new(kw(Keyword::String))),
        Type::Tuple(vec![num(1.0), text("a")]),
        Type::Union(vec![kw(Keyword::String), num(2.0)]),
        Type::TypeLit(vec![prop("a", Some(kw(Keyword::Number))), prop("b", None)]),
        func(vec![param("x", kw(Keyword::Number))], kw(Keyword::String)),
        Type::EnumVariant { enum_name: "E".to_string(), name: "A".to_string() },
        Type::Param { name: "T".to_string(), constraint: None },
        Type::Union(vec![Type::Union(vec![kw(Keyword::String), num(1.0)]), kw(Keyword::Null)]),
    ];
    for t in &samples {
        assert!(ok(t, t));
    }
}

#[test]
fn reflexivity_fails_where_the_rules_say_so() {
    let arr_this = Type::Array(Box::new(Type::This));
    assert!(!ok(&arr_this, &arr_this));
    let e = Type::Enum { name: "E".to_string(), members: vec![] };
    assert!(!ok(&e, &e));
    let u = Type::Union(vec![kw(Keyword::Unknown)]);
    assert!(!ok(&u, &u));
    let i = Type::Intersection(vec![kw(Keyword::Number)]);
    assert!(!ok(&i, &i));
}

#[test]
fn this_is_never_a_target() {
    match assign(&Type::This, &Type::This, sp()) {
        Err(Error::CannotAssignToThis { .. }) => {},
        _ => panic!("expected CannotAssignToThis"),
    }
}

#[test]
fn missing_field_is_reported() {
    let to = Type::TypeLit(vec![prop("a", Some(kw(Keyword::Number)))]);
    let from = Type::TypeLit(vec![]);
    match assign(&to, &from, sp()) {
        Err(Error::MissingFields { fields, .. }) => {
            assert_eq!(fields.len(), 1);
            match &fields[0] {
                Member::Property { key, .. } => assert_eq!(key.name, "a"),
                _ => panic!("expected a property"),
            }
        },
        _ => panic!("expected MissingFields"),
    }
}

#[test]
fn property_types_are_checked() {
    let to = Type::TypeLit(vec![prop("a", Some(kw(Keyword::Number)))]);
    assert!(ok(&to, &Type::TypeLit(vec![prop("a", Some(num(1.0))), prop("b", None)])));
    assert!(!ok(&to, &Type::TypeLit(vec![prop("a", Some(text("x")))])));
    assert!(ok(&to, &Type::TypeLit(vec![prop("a", None)])));
    assert!(!ok(&to, &Type::Tuple(vec![])));
}

#[test]
fn array_takes_arrays_and_tuples_covariantly() {
    let numbers = Type::Array(Box::new(kw(Keyword::Number)));
    assert!(ok(&numbers, &Type::Tuple(vec![num(1.0), num(2.0)])));
    assert!(!ok(&Type::Array(Box::new(kw(Keyword::String))), &Type::Tuple(vec![num(1.0)])));
    assert!(ok(&numbers, &Type::Array(Box::new(num(3.0)))));
    match assign(&numbers, &Type::Array(Box::new(text("s"))), sp()) {
        Err(Error::AssignFailed { cause, .. }) => assert_eq!(cause.len(), 1),
        _ => panic!("expected AssignFailed with a cause"),
    }
}

#[test]
fn tuple_lets_undefined_through() {
    let to = Type::Tuple(vec![kw(Keyword::Number), kw(Keyword::String)]);
    assert!(ok(&to, &Type::Tuple(vec![undefined(), undefined()])));
    assert!(!ok(&to, &Type::Tuple(vec![text("a"), text("b")])));
    assert!(!ok(&to, &Type::Tuple(vec![num(1.0)])));
}

#[test]
fn intersection_needs_every_branch() {
    let to = Type::Intersection(vec![kw(Keyword::Number), kw(Keyword::String)]);
    match assign(&to, &num(1.0), sp()) {
        Err(Error::IntersectionError { .. }) => {},
        _ => panic!("expected IntersectionError"),
    }
    let to2 = Type::Intersection(vec![kw(Keyword::Number), any()]);
    assert!(ok(&to2, &num(1.0)));
}

#[test]
fn object_keyword_takes_structural_values() {
    let obj = kw(Keyword::Object);
    assert!(ok(&obj, &Type::TypeLit(vec![])));
    assert!(ok(&obj, &func(vec![], kw(Keyword::Void))));
    assert!(ok(&obj, &kw(Keyword::String)));
    assert!(assign(&obj, &kw(Keyword::Boolean), sp()).is_err());
}

#[test]
fn enums_and_variants() {
    let e = Type::Enum { name: "Color".to_string(), members: vec!["Red".to_string()] };
    let red = Type::EnumVariant { enum_name: "Color".to_string(), name: "Red".to_string() };
    let other = Type::EnumVariant { enum_name: "Size".to_string(), name: "Red".to_string() };
    assert!(ok(&e, &red));
    assert!(!ok(&e, &other));
    assert!(!ok(&red, &other));
}

#[test]
fn functions_compare_return_types() {
    let to = func(vec![], kw(Keyword::Number));
    assert!(ok(&to, &func(vec![param("x", kw(Keyword::String))], num(1.0))));
    assert!(!ok(&to, &func(vec![], text("a"))));
}

#[test]
fn type_parameters() {
    let t = Type::Param { name: "T".to_string(), constraint: Some(Box::new(kw(Keyword::String))) };
    assert!(ok(&kw(Keyword::String), &t));
    assert!(!ok(&kw(Keyword::Number), &t));
    let u = Type::Param { name: "U".to_string(), constraint: None };
    assert!(ok(&Type::TypeLit(vec![]), &u));
    assert!(!ok(&kw(Keyword::Number), &u));
}

#[test]
fn unsupported_pair_is_reported_and_named_by_assign_to() {
    let to = Type::Ref { name: "Foo".to_string(), args: vec![] };
    let from = Type::Ref { name: "Bar".to_string(), args: vec![] };
    match assign(&to, &from, sp()) {
        Err(Error::Unsupported { .. }) => {},
        _ => panic!("expected Unsupported"),
    }
    match from.assign_to(&to, sp()) {
        Err(Error::AssignFailed { cause, .. }) => {
            assert_eq!(cause.len(), 1);
            assert!(matches!(cause[0], Error::Unsupported { .. }));
        },
        _ => panic!("expected AssignFailed"),
    }
    assert!(to.assign_to(&to, sp()).is_ok());
}

#[test]
fn call_signatures_match_ignoring_names() {
    let sig = |n: &str| Member::Call(Signature {
        type_params: Some(vec![TypeParam { name: n.to_string(), constraint: None }]),
        params: vec![param(n, kw(Keyword::Number))],
        ret: Box::new(kw(Keyword::Void)),
    });
    let to = Type::TypeLit(vec![sig("a")]);
    let from = Type::TypeLit(vec![sig("b")]);
    assert!(ok(&to, &from));
}

#[test]
fn error_details_of_composite_rejections() {
    let to = Type::Union(vec![kw(Keyword::String), kw(Keyword::Number), kw(Keyword::Boolean)]);
    match assign(&to, &Type::Tuple(vec![]), sp()) {
        Err(Error::UnionError { errors, .. }) => assert_eq!(errors.len(), 3),
        _ => panic!("expected one error per target branch"),
    }
    let inter = Type::Intersection(vec![kw(Keyword::Number), Type::This, kw(Keyword::String)]);
    match assign(&inter, &num(1.0), sp()) {
        Err(Error::IntersectionError { error, .. }) => {
            assert!(matches!(*error, Error::CannotAssignToThis { .. }))
        },
        _ => panic!("expected the first failing branch"),
    }
    let from = Type::Union(vec![num(1.0), text("a"), text("b")]);
    match assign(&kw(Keyword::Number), &from, sp()) {
        Err(Error::UnionError { errors, .. }) => {
            assert_eq!(errors.len(), 2);
            match &errors[0] {
                Error::AssignFailed { right, .. } => assert!(right.eq_ignore_span(&text("a"))),
                _ => panic!("expected AssignFailed"),
            }
        },
        _ => panic!("expected UnionError"),
    }
}

#[test]
fn constrained_parameter_passes_on_its_constraint_error() {
    let c = Type::TypeLit(vec![]);
    let t = Type::Param { name: "T".to_string(), constraint: Some(Box::new(c)) };
    let to = Type::TypeLit(vec![prop("a", Some(kw(Keyword::Number)))]);
    assert!(matches!(assign(&to, &t, sp()), Err(Error::MissingFields { .. })));
}

#[test]
fn property_mismatch_names_both_property_types() {
    let to = Type::TypeLit(vec![prop("a", Some(kw(Keyword::Number)))]);
    let from = Type::TypeLit(vec![prop("a", Some(text("x")))]);
    match assign(&to, &from, sp()) {
        Err(Error::AssignFailed { left, right, cause, .. }) => {
            assert!(left.eq_ignore_span(&kw(Keyword::Number)));
            assert!(right.eq_ignore_span(&text("x")));
            assert_eq!(cause.len(), 1);
        },
        _ => panic!("expected AssignFailed"),
    }
}

#[test]
fn last_resort_diagnostic_names_both_types() {
    let to = Type::Ref { name: "Foo".to_string(), args: vec![kw(Keyword::String)] };
    let from = Type::Ref { name: "Bar".to_string(), args: vec![] };
    match assign(&to, &from, sp()) {
        Err(Error::Unsupported { description, .. }) => {
            assert_eq!(description, "assigning Bar to Foo<string> is not supported")
        },
        _ => panic!("expected Unsupported"),
    }
}

#[test]
fn rendering_of_types() {
    assert_eq!(render(&Type::Union(vec![kw(Keyword::String), num(1.0)])), "(string | number literal)");
    assert_eq!(render(&Type::Array(Box::new(text("a")))), "\"a\"[]");
    assert_eq!(
        render(&Type::TypeLit(vec![prop("a", Some(kw(Keyword::Number))), prop("b", None)])),
        "{ a: number; b: any; }"
    );
    assert_eq!(
        render(&func(vec![param("x", kw(Keyword::Number)), param("y", kw(Keyword::Void))], kw(Keyword::Boolean))),
        "(x: number, y: void) => boolean"
    );
    assert_eq!(render(&Type::Tuple(vec![Type::This, Type::Lit(Lit::Bool(true))])), "[this, true]");
}
