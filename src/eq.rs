//! Structural equality of types, with and without identifier names.
//!
//! Two traversals share one code path, told apart by a flag: with names kept
//! it decides equality of the models; with names dropped it decides equality
//! of the models after `erase_type`, the projection that forgets every
//! binding name (parameter patterns, type-parameter names, and the names of
//! interfaces, classes and enums).
use vstd::prelude::*;
use crate::ty::{
    members_model, opt_type_model, opt_type_params_model, params_model, pat_model, pat_props_model,
    pats_model, strings_model, type_model, type_param_model, type_params_model, types_model,
    member_model, param_model, Key, Lit, Member, MemberV, Param, ParamV, Pat, PatV, Signature,
    SignatureV, Type, TypeParam, TypeParamV, TypeV,
};

verus! {

pub open spec fn erase_pat(p: PatV) -> PatV
    decreases p,
{
    match p {
        PatV::Ident(_) => PatV::Ident(Seq::empty()),
        PatV::Array(ps) => PatV::Array(erase_pats(ps)),
        PatV::Object(ps) => PatV::Object(erase_pat_props(ps)),
        PatV::Rest(q) => PatV::Rest(Box::new(erase_pat(*q))),
    }
}

pub open spec fn erase_pats(s: Seq<PatV>) -> Seq<PatV>
    decreases s,
{
    Seq::new(s.len(), |i: int| if 0 <= i < s.len() { erase_pat(s[i]) } else { PatV::Ident(Seq::empty()) })
}

pub open spec fn erase_pat_props(s: Seq<(Seq<char>, PatV)>) -> Seq<(Seq<char>, PatV)>
    decreases s,
{
    Seq::new(
        s.len(),
        |i: int|
            if 0 <= i < s.len() {
                (s[i].0, erase_pat(s[i].1))
            } else {
                (Seq::empty(), PatV::Ident(Seq::empty()))
            },
    )
}

pub open spec fn erase_opt(t: Option<TypeV>) -> Option<TypeV>
    decreases t,
{
    match t {
        Some(x) => Some(erase_type(x)),
        None => None,
    }
}

pub open spec fn erase_param(p: ParamV) -> ParamV
    decreases p,
{
    ParamV { pat: erase_pat(p.pat), ty: erase_opt(p.ty) }
}

pub open spec fn erase_params(s: Seq<ParamV>) -> Seq<ParamV>
    decreases s,
{
    Seq::new(
        s.len(),
        |i: int|
            if 0 <= i < s.len() {
                erase_param(s[i])
            } else {
                ParamV { pat: PatV::Ident(Seq::empty()), ty: None }
            },
    )
}

pub open spec fn erase_type_param(p: TypeParamV) -> TypeParamV
    decreases p,
{
    TypeParamV { name: Seq::empty(), constraint: erase_opt(p.constraint) }
}

pub open spec fn erase_type_params(s: Seq<TypeParamV>) -> Seq<TypeParamV>
    decreases s,
{
    Seq::new(
        s.len(),
        |i: int|
            if 0 <= i < s.len() {
                erase_type_param(s[i])
            } else {
                TypeParamV { name: Seq::empty(), constraint: None }
            },
    )
}

pub open spec fn erase_opt_type_params(s: Option<Seq<TypeParamV>>) -> Option<Seq<TypeParamV>>
    decreases s,
{
    match s {
        Some(v) => Some(erase_type_params(v)),
        None => None,
    }
}

pub open spec fn erase_sig(s: SignatureV) -> SignatureV
    decreases s,
{
    SignatureV {
        type_params: erase_opt_type_params(s.type_params),
        params: erase_params(s.params),
        ret: Box::new(erase_type(*s.ret)),
    }
}

pub open spec fn erase_member(m: MemberV) -> MemberV
    decreases m,
{
    match m {
        MemberV::Property { key, ty, optional, readonly } => MemberV::Property {
            key,
            ty: erase_opt(ty),
            optional,
            readonly,
        },
        MemberV::Method { key, sig } => MemberV::Method { key, sig: erase_sig(sig) },
        MemberV::Call(sig) => MemberV::Call(erase_sig(sig)),
        MemberV::Construct(sig) => MemberV::Construct(erase_sig(sig)),
    }
}

pub open spec fn erase_members(s: Seq<MemberV>) -> Seq<MemberV>
    decreases s,
{
    Seq::new(s.len(), |i: int| if 0 <= i < s.len() { erase_member(s[i]) } else { MemberV::Call(
        SignatureV { type_params: None, params: Seq::empty(), ret: Box::new(TypeV::This) },
    ) })
}

/// The type with every binding name replaced by the empty name.
pub open spec fn erase_type(t: TypeV) -> TypeV
    decreases t,
{
    match t {
        TypeV::Keyword(k) => TypeV::Keyword(k),
        TypeV::Lit(l) => TypeV::Lit(l),
        TypeV::Array(e) => TypeV::Array(Box::new(erase_type(*e))),
        TypeV::Tuple(ts) => TypeV::Tuple(erase_types(ts)),
        TypeV::Union(ts) => TypeV::Union(erase_types(ts)),
        TypeV::Intersection(ts) => TypeV::Intersection(erase_types(ts)),
        TypeV::TypeLit(ms) => TypeV::TypeLit(erase_members(ms)),
        TypeV::Interface { name, members, extends } => TypeV::Interface {
            name: Seq::empty(),
            members: erase_members(members),
            extends,
        },
        TypeV::Function(s) => TypeV::Function(erase_sig(s)),
        TypeV::Constructor(s) => TypeV::Constructor(erase_sig(s)),
        TypeV::Class { name, members } => TypeV::Class {
            name: Seq::empty(),
            members: erase_members(members),
        },
        TypeV::Enum { name, members } => TypeV::Enum { name: Seq::empty(), members },
        TypeV::EnumVariant { enum_name, name } => TypeV::EnumVariant { enum_name, name },
        TypeV::Param { name, constraint } => TypeV::Param {
            name,
            constraint: match constraint {
                Some(c) => Some(Box::new(erase_type(*c))),
                None => None,
            },
        },
        TypeV::This => TypeV::This,
        TypeV::Ref { name, args } => TypeV::Ref { name, args: erase_types(args) },
        TypeV::IndexedAccess { obj, index } => TypeV::IndexedAccess {
            obj: Box::new(erase_type(*obj)),
            index: Box::new(erase_type(*index)),
        },
    }
}

pub open spec fn erase_types(s: Seq<TypeV>) -> Seq<TypeV>
    decreases s,
{
    Seq::new(s.len(), |i: int| if 0 <= i < s.len() { erase_type(s[i]) } else { TypeV::This })
}

} // verus!

verus! {

pub(crate) fn str_eq(a: &String, b: &String) -> (r: bool)
    ensures
        r == (a@ == b@),
{
    a.eq(b)
}

fn strings_eq(a: &Vec<String>, b: &Vec<String>) -> (r: bool)
    ensures
        r == (strings_model(a@) == strings_model(b@)),
{
    if a.len() != b.len() {
        proof {
            assert(strings_model(a@).len() != strings_model(b@).len());
        }
        return false;
    }
    let mut i: usize = 0;
    while i < a.len()
        invariant
            a.len() == b.len(),
            i <= a.len(),
            forall|j: int| 0 <= j < i ==> (#[trigger] a@[j])@ == b@[j]@,
        decreases a.len() - i,
    {
        if !str_eq(&a[i], &b[i]) {
            proof {
                assert(strings_model(a@)[i as int] == a@[i as int]@);
                assert(strings_model(b@)[i as int] == b@[i as int]@);
            }
            return false;
        }
        i += 1;
    }
    proof {
        assert(strings_model(a@) =~= strings_model(b@));
    }
    true
}

pub(crate) fn lit_eq(a: &Lit, b: &Lit) -> (r: bool)
    ensures
        r == (a@ == b@),
{
    match (a, b) {
        (Lit::Bool(x), Lit::Bool(y)) => *x == *y,
        (Lit::Num(x), Lit::Num(y)) => *x == *y,
        (Lit::Str(x), Lit::Str(y)) => str_eq(x, y),
        _ => false,
    }
}

pub(crate) fn key_eq(a: &Key, b: &Key) -> (r: bool)
    ensures
        r == (a@ == b@),
{
    str_eq(&a.name, &b.name) && a.computed == b.computed
}

fn pat_eq(a: &Pat, b: &Pat, names: bool) -> (r: bool)
    ensures
        names ==> r == (a@ == b@),
        !names ==> r == (erase_pat(a@) == erase_pat(b@)),
    decreases a,
{
    match (a, b) {
        (Pat::Ident(x), Pat::Ident(y)) => !names || str_eq(x, y),
        (Pat::Array(xs), Pat::Array(ys)) => pats_eq(xs, ys, names),
        (Pat::Object(xs), Pat::Object(ys)) => pat_props_eq(xs, ys, names),
        (Pat::Rest(x), Pat::Rest(y)) => pat_eq(x, y, names),
        _ => false,
    }
}

fn pat_props_eq(a: &Vec<(String, Pat)>, b: &Vec<(String, Pat)>, names: bool) -> (r: bool)
    ensures
        names ==> r == (pat_props_model(a@) == pat_props_model(b@)),
        !names ==> r == (erase_pat_props(pat_props_model(a@)) == erase_pat_props(
            pat_props_model(b@),
        )),
    decreases a,
{
    if a.len() != b.len() {
        proof {
            assert(pat_props_model(a@).len() != pat_props_model(b@).len());
            assert(erase_pat_props(pat_props_model(a@)).len() != erase_pat_props(
                pat_props_model(b@),
            ).len());
        }
        return false;
    }
    let mut i: usize = 0;
    while i < a.len()
        invariant
            a.len() == b.len(),
            i <= a.len(),
            forall|j: int| 0 <= j < i ==> (#[trigger] a@[j]).0@ == b@[j].0@,
            names ==> forall|j: int|
                0 <= j < i ==> pat_model(&(#[trigger] a@[j]).1) == pat_model(&b@[j].1),
            !names ==> forall|j: int|
                0 <= j < i ==> erase_pat(pat_model(&(#[trigger] a@[j]).1)) == erase_pat(
                    pat_model(&b@[j].1),
                ),
        decreases a.len() - i,
    {
        proof {
            assert(decreases_to!(*a => a[i as int]));
            assert(decreases_to!(a[i as int] => a[i as int].1));
        }
        if !str_eq(&a[i].0, &b[i].0) || !pat_eq(&a[i].1, &b[i].1, names) {
            proof {
                assert(pat_props_model(a@)[i as int] == (a@[i as int].0@, pat_model(&a@[i as int].1)));
                assert(pat_props_model(b@)[i as int] == (b@[i as int].0@, pat_model(&b@[i as int].1)));
                assert(erase_pat_props(pat_props_model(a@))[i as int] == (
                    a@[i as int].0@,
                    erase_pat(pat_model(&a@[i as int].1)),
                ));
                assert(erase_pat_props(pat_props_model(b@))[i as int] == (
                    b@[i as int].0@,
                    erase_pat(pat_model(&b@[i as int].1)),
                ));
            }
            return false;
        }
        i += 1;
    }
    proof {
        if names {
            assert(pat_props_model(a@) =~= pat_props_model(b@));
        } else {
            assert(erase_pat_props(pat_props_model(a@)) =~= erase_pat_props(pat_props_model(b@)));
        }
    }
    true
}

fn opt_type_eq(a: &Option<Type>, b: &Option<Type>, names: bool) -> (r: bool)
    ensures
        names ==> r == (opt_type_model(a) == opt_type_model(b)),
        !names ==> r == (erase_opt(opt_type_model(a)) == erase_opt(opt_type_model(b))),
    decreases a,
{
    match (a, b) {
        (Some(x), Some(y)) => type_eq(x, y, names),
        (None, None) => true,
        _ => false,
    }
}

fn param_eq(a: &Param, b: &Param, names: bool) -> (r: bool)
    ensures
        names ==> r == (a@ == b@),
        !names ==> r == (erase_param(a@) == erase_param(b@)),
    decreases a,
{
    pat_eq(&a.pat, &b.pat, names) && opt_type_eq(&a.ty, &b.ty, names)
}

fn type_param_eq(a: &TypeParam, b: &TypeParam, names: bool) -> (r: bool)
    ensures
        names ==> r == (a@ == b@),
        !names ==> r == (erase_type_param(a@) == erase_type_param(b@)),
    decreases a,
{
    (!names || str_eq(&a.name, &b.name)) && opt_type_eq(&a.constraint, &b.constraint, names)
}

fn opt_type_params_eq(a: &Option<Vec<TypeParam>>, b: &Option<Vec<TypeParam>>, names: bool) -> (r:
    bool)
    ensures
        names ==> r == (opt_type_params_model(a) == opt_type_params_model(b)),
        !names ==> r == (erase_opt_type_params(opt_type_params_model(a)) == erase_opt_type_params(
            opt_type_params_model(b),
        )),
    decreases a,
{
    match (a, b) {
        (Some(x), Some(y)) => type_params_eq(x, y, names),
        (None, None) => true,
        _ => false,
    }
}

fn sig_eq(a: &Signature, b: &Signature, names: bool) -> (r: bool)
    ensures
        names ==> r == (a@ == b@),
        !names ==> r == (erase_sig(a@) == erase_sig(b@)),
    decreases a,
{
    opt_type_params_eq(&a.type_params, &b.type_params, names) && params_eq(
        &a.params,
        &b.params,
        names,
    ) && type_eq(&a.ret, &b.ret, names)
}

fn member_eq(a: &Member, b: &Member, names: bool) -> (r: bool)
    ensures
        names ==> r == (a@ == b@),
        !names ==> r == (erase_member(a@) == erase_member(b@)),
    decreases a,
{
    match (a, b) {
        (
            Member::Property { key: k1, ty: t1, optional: o1, readonly: r1 },
            Member::Property { key: k2, ty: t2, optional: o2, readonly: r2 },
        ) => key_eq(k1, k2) && *o1 == *o2 && *r1 == *r2 && opt_type_eq(t1, t2, names),
        (Member::Method { key: k1, sig: s1 }, Member::Method { key: k2, sig: s2 }) => key_eq(k1, k2)
            && sig_eq(s1, s2, names),
        (Member::Call(s1), Member::Call(s2)) => sig_eq(s1, s2, names),
        (Member::Construct(s1), Member::Construct(s2)) => sig_eq(s1, s2, names),
        _ => false,
    }
}

fn type_eq(a: &Type, b: &Type, names: bool) -> (r: bool)
    ensures
        names ==> r == (a@ == b@),
        !names ==> r == (erase_type(a@) == erase_type(b@)),
    decreases a,
{
    match (a, b) {
        (Type::Keyword(x), Type::Keyword(y)) => *x == *y,
        (Type::Lit(x), Type::Lit(y)) => lit_eq(x, y),
        (Type::Array(x), Type::Array(y)) => type_eq(x, y, names),
        (Type::Tuple(x), Type::Tuple(y)) => types_eq(x, y, names),
        (Type::Union(x), Type::Union(y)) => types_eq(x, y, names),
        (Type::Intersection(x), Type::Intersection(y)) => types_eq(x, y, names),
        (Type::TypeLit(x), Type::TypeLit(y)) => members_eq(x, y, names),
        (
            Type::Interface { name: n1, members: m1, extends: e1 },
            Type::Interface { name: n2, members: m2, extends: e2 },
        ) => (!names || str_eq(n1, n2)) && members_eq(m1, m2, names) && strings_eq(e1, e2),
        (Type::Function(x), Type::Function(y)) => sig_eq(x, y, names),
        (Type::Constructor(x), Type::Constructor(y)) => sig_eq(x, y, names),
        (Type::Class { name: n1, members: m1 }, Type::Class { name: n2, members: m2 }) => (!names
            || str_eq(n1, n2)) && members_eq(m1, m2, names),
        (Type::Enum { name: n1, members: m1 }, Type::Enum { name: n2, members: m2 }) => (!names
            || str_eq(n1, n2)) && strings_eq(m1, m2),
        (
            Type::EnumVariant { enum_name: e1, name: n1 },
            Type::EnumVariant { enum_name: e2, name: n2 },
        ) => str_eq(e1, e2) && str_eq(n1, n2),
        (Type::Param { name: n1, constraint: c1 }, Type::Param { name: n2, constraint: c2 }) => {
            str_eq(n1, n2) && match (c1, c2) {
                (Some(x), Some(y)) => type_eq(x, y, names),
                (None, None) => true,
                _ => false,
            }
        },
        (Type::This, Type::This) => true,
        (Type::Ref { name: n1, args: a1 }, Type::Ref { name: n2, args: a2 }) => str_eq(n1, n2)
            && types_eq(a1, a2, names),
        (
            Type::IndexedAccess { obj: o1, index: i1 },
            Type::IndexedAccess { obj: o2, index: i2 },
        ) => type_eq(o1, o2, names) && type_eq(i1, i2, names),
        _ => false,
    }
}

fn pats_eq(a: &Vec<Pat>, b: &Vec<Pat>, names: bool) -> (r: bool)
    ensures
        names ==> r == (pats_model(a@) == pats_model(b@)),
        !names ==> r == (erase_pats(pats_model(a@)) == erase_pats(pats_model(b@))),
    decreases a,
{
    if a.len() != b.len() {
        proof {
            assert(pats_model(a@).len() != pats_model(b@).len());
            assert(erase_pats(pats_model(a@)).len() != erase_pats(pats_model(b@)).len());
        }
        return false;
    }
    let mut i: usize = 0;
    while i < a.len()
        invariant
            a.len() == b.len(),
            i <= a.len(),
            names ==> forall|j: int| 0 <= j < i ==> pat_model(&#[trigger] a@[j]) == pat_model(&b@[j]),
            !names ==> forall|j: int| 0 <= j < i ==> erase_pat(pat_model(&#[trigger] a@[j])) == erase_pat(pat_model(&b@[j])),
        decreases a.len() - i,
    {
        proof {
            assert(decreases_to!(*a => a[i as int]));
        }
        if !pat_eq(&a[i], &b[i], names) {
            proof {
                assert(pats_model(a@)[i as int] == pat_model(&a@[i as int]));
                assert(pats_model(b@)[i as int] == pat_model(&b@[i as int]));
                assert(erase_pats(pats_model(a@))[i as int] == erase_pat(pat_model(&a@[i as int])));
                assert(erase_pats(pats_model(b@))[i as int] == erase_pat(pat_model(&b@[i as int])));
            }
            return false;
        }
        i += 1;
    }
    proof {
        if names {
            assert(pats_model(a@) =~= pats_model(b@));
        } else {
            assert(erase_pats(pats_model(a@)) =~= erase_pats(pats_model(b@)));
        }
    }
    true
}

fn params_eq(a: &Vec<Param>, b: &Vec<Param>, names: bool) -> (r: bool)
    ensures
        names ==> r == (params_model(a@) == params_model(b@)),
        !names ==> r == (erase_params(params_model(a@)) == erase_params(params_model(b@))),
    decreases a,
{
    if a.len() != b.len() {
        proof {
            assert(params_model(a@).len() != params_model(b@).len());
            assert(erase_params(params_model(a@)).len() != erase_params(params_model(b@)).len());
        }
        return false;
    }
    let mut i: usize = 0;
    while i < a.len()
        invariant
            a.len() == b.len(),
            i <= a.len(),
            names ==> forall|j: int| 0 <= j < i ==> param_model(&#[trigger] a@[j]) == param_model(&b@[j]),
            !names ==> forall|j: int| 0 <= j < i ==> erase_param(param_model(&#[trigger] a@[j])) == erase_param(param_model(&b@[j])),
        decreases a.len() - i,
    {
        proof {
            assert(decreases_to!(*a => a[i as int]));
        }
        if !param_eq(&a[i], &b[i], names) {
            proof {
                assert(params_model(a@)[i as int] == param_model(&a@[i as int]));
                assert(params_model(b@)[i as int] == param_model(&b@[i as int]));
                assert(erase_params(params_model(a@))[i as int] == erase_param(param_model(&a@[i as int])));
                assert(erase_params(params_model(b@))[i as int] == erase_param(param_model(&b@[i as int])));
            }
            return false;
        }
        i += 1;
    }
    proof {
        if names {
            assert(params_model(a@) =~= params_model(b@));
        } else {
            assert(erase_params(params_model(a@)) =~= erase_params(params_model(b@)));
        }
    }
    true
}

fn type_params_eq(a: &Vec<TypeParam>, b: &Vec<TypeParam>, names: bool) -> (r: bool)
    ensures
        names ==> r == (type_params_model(a@) == type_params_model(b@)),
        !names ==> r == (erase_type_params(type_params_model(a@)) == erase_type_params(type_params_model(b@))),
    decreases a,
{
    if a.len() != b.len() {
        proof {
            assert(type_params_model(a@).len() != type_params_model(b@).len());
            assert(erase_type_params(type_params_model(a@)).len() != erase_type_params(type_params_model(b@)).len());
        }
        return false;
    }
    let mut i: usize = 0;
    while i < a.len()
        invariant
            a.len() == b.len(),
            i <= a.len(),
            names ==> forall|j: int| 0 <= j < i ==> type_param_model(&#[trigger] a@[j]) == type_param_model(&b@[j]),
            !names ==> forall|j: int| 0 <= j < i ==> erase_type_param(type_param_model(&#[trigger] a@[j])) == erase_type_param(type_param_model(&b@[j])),
        decreases a.len() - i,
    {
        proof {
            assert(decreases_to!(*a => a[i as int]));
        }
        if !type_param_eq(&a[i], &b[i], names) {
            proof {
                assert(type_params_model(a@)[i as int] == type_param_model(&a@[i as int]));
                assert(type_params_model(b@)[i as int] == type_param_model(&b@[i as int]));
                assert(erase_type_params(type_params_model(a@))[i as int] == erase_type_param(type_param_model(&a@[i as int])));
                assert(erase_type_params(type_params_model(b@))[i as int] == erase_type_param(type_param_model(&b@[i as int])));
            }
            return false;
        }
        i += 1;
    }
    proof {
        if names {
            assert(type_params_model(a@) =~= type_params_model(b@));
        } else {
            assert(erase_type_params(type_params_model(a@)) =~= erase_type_params(type_params_model(b@)));
        }
    }
    true
}

fn members_eq(a: &Vec<Member>, b: &Vec<Member>, names: bool) -> (r: bool)
    ensures
        names ==> r == (members_model(a@) == members_model(b@)),
        !names ==> r == (erase_members(members_model(a@)) == erase_members(members_model(b@))),
    decreases a,
{
    if a.len() != b.len() {
        proof {
            assert(members_model(a@).len() != members_model(b@).len());
            assert(erase_members(members_model(a@)).len() != erase_members(members_model(b@)).len());
        }
        return false;
    }
    let mut i: usize = 0;
    while i < a.len()
        invariant
            a.len() == b.len(),
            i <= a.len(),
            names ==> forall|j: int| 0 <= j < i ==> member_model(&#[trigger] a@[j]) == member_model(&b@[j]),
            !names ==> forall|j: int| 0 <= j < i ==> erase_member(member_model(&#[trigger] a@[j])) == erase_member(member_model(&b@[j])),
        decreases a.len() - i,
    {
        proof {
            assert(decreases_to!(*a => a[i as int]));
        }
        if !member_eq(&a[i], &b[i], names) {
            proof {
                assert(members_model(a@)[i as int] == member_model(&a@[i as int]));
                assert(members_model(b@)[i as int] == member_model(&b@[i as int]));
                assert(erase_members(members_model(a@))[i as int] == erase_member(member_model(&a@[i as int])));
                assert(erase_members(members_model(b@))[i as int] == erase_member(member_model(&b@[i as int])));
            }
            return false;
        }
        i += 1;
    }
    proof {
        if names {
            assert(members_model(a@) =~= members_model(b@));
        } else {
            assert(erase_members(members_model(a@)) =~= erase_members(members_model(b@)));
        }
    }
    true
}

fn types_eq(a: &Vec<Type>, b: &Vec<Type>, names: bool) -> (r: bool)
    ensures
        names ==> r == (types_model(a@) == types_model(b@)),
        !names ==> r == (erase_types(types_model(a@)) == erase_types(types_model(b@))),
    decreases a,
{
    if a.len() != b.len() {
        proof {
            assert(types_model(a@).len() != types_model(b@).len());
            assert(erase_types(types_model(a@)).len() != erase_types(types_model(b@)).len());
        }
        return false;
    }
    let mut i: usize = 0;
    while i < a.len()
        invariant
            a.len() == b.len(),
            i <= a.len(),
            names ==> forall|j: int| 0 <= j < i ==> type_model(&#[trigger] a@[j]) == type_model(&b@[j]),
            !names ==> forall|j: int| 0 <= j < i ==> erase_type(type_model(&#[trigger] a@[j])) == erase_type(type_model(&b@[j])),
        decreases a.len() - i,
    {
        proof {
            assert(decreases_to!(*a => a[i as int]));
        }
        if !type_eq(&a[i], &b[i], names) {
            proof {
                assert(types_model(a@)[i as int] == type_model(&a@[i as int]));
                assert(types_model(b@)[i as int] == type_model(&b@[i as int]));
                assert(erase_types(types_model(a@))[i as int] == erase_type(type_model(&a@[i as int])));
                assert(erase_types(types_model(b@))[i as int] == erase_type(type_model(&b@[i as int])));
            }
            return false;
        }
        i += 1;
    }
    proof {
        if names {
            assert(types_model(a@) =~= types_model(b@));
        } else {
            assert(erase_types(types_model(a@)) =~= erase_types(types_model(b@)));
        }
    }
    true
}

impl Type {
    /// Structural equality. Types carry no source positions, so this is
    /// equality of the models.
    pub fn eq_ignore_span(&self, other: &Type) -> (r: bool)
        ensures
            r == (self@ == other@),
    {
        type_eq(self, other, true)
    }

    /// Structural equality after every binding name is forgotten on both sides.
    pub fn eq_ignore_name_and_span(&self, other: &Type) -> (r: bool)
        ensures
            r == (erase_type(self@) == erase_type(other@)),
    {
        type_eq(self, other, false)
    }
}

impl Member {
    /// Structural equality of members after every binding name is forgotten.
    pub fn eq_ignore_name_and_span(&self, other: &Member) -> (r: bool)
        ensures
            r == (erase_member(self@) == erase_member(other@)),
    {
        member_eq(self, other, false)
    }
}

} // verus!
