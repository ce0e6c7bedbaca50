//! Deep copies of types, proved to keep the model.
use vstd::prelude::*;
use crate::ty::{
    lit_model, key_model, member_model, members_model, opt_type_model, opt_type_params_model,
    param_model, params_model, pat_model, pat_props_model, pats_model, sig_model, strings_model,
    type_model, type_param_model, type_params_model, types_model, Key, Lit, Member, Param, Pat,
    Signature, Type, TypeParam,
};

verus! {

fn copy_string(s: &String) -> (r: String)
    ensures
        r@ == s@,
{
    s.clone()
}

fn copy_strings(a: &Vec<String>) -> (r: Vec<String>)
    ensures
        strings_model(r@) == strings_model(a@),
{
    let mut out: Vec<String> = Vec::new();
    let mut i: usize = 0;
    while i < a.len()
        invariant
            i <= a.len(),
            out@.len() == i,
            forall|j: int| 0 <= j < i ==> (#[trigger] out@[j])@ == a@[j]@,
        decreases a.len() - i,
    {
        let x = copy_string(&a[i]);
        out.push(x);
        i += 1;
    }
    proof {
        assert(strings_model(out@) =~= strings_model(a@));
    }
    out
}

fn copy_lit(l: &Lit) -> (r: Lit)
    ensures
        r@ == l@,
{
    match l {
        Lit::Bool(b) => Lit::Bool(*b),
        Lit::Num(n) => Lit::Num(*n),
        Lit::Str(s) => Lit::Str(copy_string(s)),
    }
}

pub(crate) fn copy_key(k: &Key) -> (r: Key)
    ensures
        r@ == k@,
{
    Key { name: copy_string(&k.name), computed: k.computed }
}

pub(crate) fn copy_pat(p: &Pat) -> (r: Pat)
    ensures
        r@ == p@,
    decreases p,
{
    match p {
        Pat::Ident(n) => Pat::Ident(copy_string(n)),
        Pat::Array(ps) => Pat::Array(copy_pats(ps)),
        Pat::Object(ps) => Pat::Object(copy_pat_props(ps)),
        Pat::Rest(q) => Pat::Rest(Box::new(copy_pat(q))),
    }
}

fn copy_pat_props(a: &Vec<(String, Pat)>) -> (r: Vec<(String, Pat)>)
    ensures
        pat_props_model(r@) == pat_props_model(a@),
    decreases a,
{
    let mut out: Vec<(String, Pat)> = Vec::new();
    let mut i: usize = 0;
    while i < a.len()
        invariant
            i <= a.len(),
            out@.len() == i,
            forall|j: int| 0 <= j < i ==> (#[trigger] out@[j]).0@ == a@[j].0@,
            forall|j: int| 0 <= j < i ==> pat_model(&(#[trigger] out@[j]).1) == pat_model(&a@[j].1),
        decreases a.len() - i,
    {
        proof {
            assert(decreases_to!(*a => a[i as int]));
            assert(decreases_to!(a[i as int] => a[i as int].1));
        }
        let k = copy_string(&a[i].0);
        let v = copy_pat(&a[i].1);
        out.push((k, v));
        i += 1;
    }
    proof {
        assert(pat_props_model(out@) =~= pat_props_model(a@));
    }
    out
}

pub(crate) fn copy_opt_type(t: &Option<Type>) -> (r: Option<Type>)
    ensures
        opt_type_model(&r) == opt_type_model(t),
    decreases t,
{
    match t {
        Some(x) => Some(copy_type(x)),
        None => None,
    }
}

fn copy_param(p: &Param) -> (r: Param)
    ensures
        r@ == p@,
    decreases p,
{
    Param { pat: copy_pat(&p.pat), ty: copy_opt_type(&p.ty) }
}

fn copy_type_param(p: &TypeParam) -> (r: TypeParam)
    ensures
        r@ == p@,
    decreases p,
{
    TypeParam { name: copy_string(&p.name), constraint: copy_opt_type(&p.constraint) }
}

pub(crate) fn copy_opt_type_params(t: &Option<Vec<TypeParam>>) -> (r: Option<Vec<TypeParam>>)
    ensures
        opt_type_params_model(&r) == opt_type_params_model(t),
    decreases t,
{
    match t {
        Some(x) => Some(copy_type_params(x)),
        None => None,
    }
}

pub(crate) fn copy_sig(s: &Signature) -> (r: Signature)
    ensures
        r@ == s@,
    decreases s,
{
    Signature {
        type_params: copy_opt_type_params(&s.type_params),
        params: copy_params(&s.params),
        ret: Box::new(copy_type(&s.ret)),
    }
}

fn copy_member(m: &Member) -> (r: Member)
    ensures
        r@ == m@,
    decreases m,
{
    match m {
        Member::Property { key, ty, optional, readonly } => Member::Property {
            key: copy_key(key),
            ty: copy_opt_type(ty),
            optional: *optional,
            readonly: *readonly,
        },
        Member::Method { key, sig } => Member::Method { key: copy_key(key), sig: copy_sig(sig) },
        Member::Call(sig) => Member::Call(copy_sig(sig)),
        Member::Construct(sig) => Member::Construct(copy_sig(sig)),
    }
}

pub(crate) fn copy_type(t: &Type) -> (r: Type)
    ensures
        r@ == t@,
    decreases t,
{
    match t {
        Type::Keyword(k) => Type::Keyword(*k),
        Type::Lit(l) => Type::Lit(copy_lit(l)),
        Type::Array(e) => Type::Array(Box::new(copy_type(e))),
        Type::Tuple(ts) => Type::Tuple(copy_types(ts)),
        Type::Union(ts) => Type::Union(copy_types(ts)),
        Type::Intersection(ts) => Type::Intersection(copy_types(ts)),
        Type::TypeLit(ms) => Type::TypeLit(copy_members(ms)),
        Type::Interface { name, members, extends } => Type::Interface {
            name: copy_string(name),
            members: copy_members(members),
            extends: copy_strings(extends),
        },
        Type::Function(s) => Type::Function(copy_sig(s)),
        Type::Constructor(s) => Type::Constructor(copy_sig(s)),
        Type::Class { name, members } => Type::Class {
            name: copy_string(name),
            members: copy_members(members),
        },
        Type::Enum { name, members } => Type::Enum {
            name: copy_string(name),
            members: copy_strings(members),
        },
        Type::EnumVariant { enum_name, name } => Type::EnumVariant {
            enum_name: copy_string(enum_name),
            name: copy_string(name),
        },
        Type::Param { name, constraint } => Type::Param {
            name: copy_string(name),
            constraint: match constraint {
                Some(c) => Some(Box::new(copy_type(c))),
                None => None,
            },
        },
        Type::This => Type::This,
        Type::Ref { name, args } => Type::Ref { name: copy_string(name), args: copy_types(args) },
        Type::IndexedAccess { obj, index } => Type::IndexedAccess {
            obj: Box::new(copy_type(obj)),
            index: Box::new(copy_type(index)),
        },
    }
}

fn copy_pats(a: &Vec<Pat>) -> (r: Vec<Pat>)
    ensures
        pats_model(r@) == pats_model(a@),
    decreases a,
{
    let mut out: Vec<Pat> = Vec::new();
    let mut i: usize = 0;
    while i < a.len()
        invariant
            i <= a.len(),
            out@.len() == i,
            forall|j: int| 0 <= j < i ==> pat_model(&#[trigger] out@[j]) == pat_model(&a@[j]),
        decreases a.len() - i,
    {
        proof {
            assert(decreases_to!(*a => a[i as int]));
        }
        let x = copy_pat(&a[i]);
        out.push(x);
        i += 1;
    }
    proof {
        assert(pats_model(out@) =~= pats_model(a@));
    }
    out
}

fn copy_params(a: &Vec<Param>) -> (r: Vec<Param>)
    ensures
        params_model(r@) == params_model(a@),
    decreases a,
{
    let mut out: Vec<Param> = Vec::new();
    let mut i: usize = 0;
    while i < a.len()
        invariant
            i <= a.len(),
            out@.len() == i,
            forall|j: int| 0 <= j < i ==> param_model(&#[trigger] out@[j]) == param_model(&a@[j]),
        decreases a.len() - i,
    {
        proof {
            assert(decreases_to!(*a => a[i as int]));
        }
        let x = copy_param(&a[i]);
        out.push(x);
        i += 1;
    }
    proof {
        assert(params_model(out@) =~= params_model(a@));
    }
    out
}

fn copy_type_params(a: &Vec<TypeParam>) -> (r: Vec<TypeParam>)
    ensures
        type_params_model(r@) == type_params_model(a@),
    decreases a,
{
    let mut out: Vec<TypeParam> = Vec::new();
    let mut i: usize = 0;
    while i < a.len()
        invariant
            i <= a.len(),
            out@.len() == i,
            forall|j: int| 0 <= j < i ==> type_param_model(&#[trigger] out@[j]) == type_param_model(&a@[j]),
        decreases a.len() - i,
    {
        proof {
            assert(decreases_to!(*a => a[i as int]));
        }
        let x = copy_type_param(&a[i]);
        out.push(x);
        i += 1;
    }
    proof {
        assert(type_params_model(out@) =~= type_params_model(a@));
    }
    out
}

pub(crate) fn copy_members(a: &Vec<Member>) -> (r: Vec<Member>)
    ensures
        members_model(r@) == members_model(a@),
    decreases a,
{
    let mut out: Vec<Member> = Vec::new();
    let mut i: usize = 0;
    while i < a.len()
        invariant
            i <= a.len(),
            out@.len() == i,
            forall|j: int| 0 <= j < i ==> member_model(&#[trigger] out@[j]) == member_model(&a@[j]),
        decreases a.len() - i,
    {
        proof {
            assert(decreases_to!(*a => a[i as int]));
        }
        let x = copy_member(&a[i]);
        out.push(x);
        i += 1;
    }
    proof {
        assert(members_model(out@) =~= members_model(a@));
    }
    out
}

fn copy_types(a: &Vec<Type>) -> (r: Vec<Type>)
    ensures
        types_model(r@) == types_model(a@),
    decreases a,
{
    let mut out: Vec<Type> = Vec::new();
    let mut i: usize = 0;
    while i < a.len()
        invariant
            i <= a.len(),
            out@.len() == i,
            forall|j: int| 0 <= j < i ==> type_model(&#[trigger] out@[j]) == type_model(&a@[j]),
        decreases a.len() - i,
    {
        proof {
            assert(decreases_to!(*a => a[i as int]));
        }
        let x = copy_type(&a[i]);
        out.push(x);
        i += 1;
    }
    proof {
        assert(types_model(out@) =~= types_model(a@));
    }
    out
}

impl Type {
    /// A copy of the whole type, equal to it in every part.
    pub fn deep_clone(&self) -> (r: Type)
        ensures
            r@ == self@,
    {
        copy_type(self)
    }
}

impl Member {
    /// A copy of the whole member, equal to it in every part.
    pub fn deep_clone(&self) -> (r: Member)
        ensures
            r@ == self@,
    {
        copy_member(self)
    }
}

} // verus!
