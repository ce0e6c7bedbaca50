//! The type algebra: the values that stand for static types, and their
//! mathematical models.
use vstd::prelude::*;

verus! {

/// A primitive keyword type.
#[derive(Clone, Copy, Debug, PartialEq, Eq, Structural)]
pub enum Keyword {
    Any,
    Unknown,
    Number,
    Object,
    Boolean,
    BigInt,
    String,
    Symbol,
    Void,
    Undefined,
    Null,
    Never,
}

/// The value of a literal type. A number is held as the IEEE-754 bit pattern
/// of its value, so that two literals are the same exactly when their bits are.
#[derive(Clone, Debug, PartialEq)]
pub enum Lit {
    Bool(bool),
    Num(u64),
    Str(String),
}

/// The key of a property or a method: its name, and whether it was written
/// as a computed key (`[name]`).
#[derive(Clone, Debug, PartialEq)]
pub struct Key {
    pub name: String,
    pub computed: bool,
}

/// A parameter pattern.
pub enum Pat {
    Ident(String),
    Array(Vec<Pat>),
    Object(Vec<(String, Pat)>),
    Rest(Box<Pat>),
}

/// A parameter of a signature: its pattern and its annotated type.
pub struct Param {
    pub pat: Pat,
    pub ty: Option<Type>,
}

/// A declared type parameter, with its constraint.
pub struct TypeParam {
    pub name: String,
    pub constraint: Option<Type>,
}

/// A call or construct signature.
pub struct Signature {
    pub type_params: Option<Vec<TypeParam>>,
    pub params: Vec<Param>,
    pub ret: Box<Type>,
}

/// A member of a structural object shape.
pub enum Member {
    Property { key: Key, ty: Option<Type>, optional: bool, readonly: bool },
    Method { key: Key, sig: Signature },
    Call(Signature),
    Construct(Signature),
}

/// A static type.
pub enum Type {
    Keyword(Keyword),
    Lit(Lit),
    Array(Box<Type>),
    Tuple(Vec<Type>),
    Union(Vec<Type>),
    Intersection(Vec<Type>),
    TypeLit(Vec<Member>),
    Interface { name: String, members: Vec<Member>, extends: Vec<String> },
    Function(Signature),
    Constructor(Signature),
    Class { name: String, members: Vec<Member> },
    Enum { name: String, members: Vec<String> },
    EnumVariant { enum_name: String, name: String },
    Param { name: String, constraint: Option<Box<Type>> },
    This,
    Ref { name: String, args: Vec<Type> },
    IndexedAccess { obj: Box<Type>, index: Box<Type> },
}

// ---------------------------------------------------------------------------
// Models
// ---------------------------------------------------------------------------

pub enum LitV {
    Bool(bool),
    Num(u64),
    Str(Seq<char>),
}

pub struct KeyV {
    pub name: Seq<char>,
    pub computed: bool,
}

pub enum PatV {
    Ident(Seq<char>),
    Array(Seq<PatV>),
    Object(Seq<(Seq<char>, PatV)>),
    Rest(Box<PatV>),
}

pub struct ParamV {
    pub pat: PatV,
    pub ty: Option<TypeV>,
}

pub struct TypeParamV {
    pub name: Seq<char>,
    pub constraint: Option<TypeV>,
}

pub struct SignatureV {
    pub type_params: Option<Seq<TypeParamV>>,
    pub params: Seq<ParamV>,
    pub ret: Box<TypeV>,
}

pub enum MemberV {
    Property { key: KeyV, ty: Option<TypeV>, optional: bool, readonly: bool },
    Method { key: KeyV, sig: SignatureV },
    Call(SignatureV),
    Construct(SignatureV),
}

pub enum TypeV {
    Keyword(Keyword),
    Lit(LitV),
    Array(Box<TypeV>),
    Tuple(Seq<TypeV>),
    Union(Seq<TypeV>),
    Intersection(Seq<TypeV>),
    TypeLit(Seq<MemberV>),
    Interface { name: Seq<char>, members: Seq<MemberV>, extends: Seq<Seq<char>> },
    Function(SignatureV),
    Constructor(SignatureV),
    Class { name: Seq<char>, members: Seq<MemberV> },
    Enum { name: Seq<char>, members: Seq<Seq<char>> },
    EnumVariant { enum_name: Seq<char>, name: Seq<char> },
    Param { name: Seq<char>, constraint: Option<Box<TypeV>> },
    This,
    Ref { name: Seq<char>, args: Seq<TypeV> },
    IndexedAccess { obj: Box<TypeV>, index: Box<TypeV> },
}

pub open spec fn lit_model(l: &Lit) -> LitV {
    match l {
        Lit::Bool(b) => LitV::Bool(*b),
        Lit::Num(n) => LitV::Num(*n),
        Lit::Str(s) => LitV::Str(s@),
    }
}

pub open spec fn strings_model(s: Seq<String>) -> Seq<Seq<char>> {
    Seq::new(s.len(), |i: int| s[i]@)
}

pub open spec fn pat_model(p: &Pat) -> PatV
    decreases p,
{
    match p {
        Pat::Ident(n) => PatV::Ident(n@),
        Pat::Array(ps) => PatV::Array(pats_model(ps@)),
        Pat::Object(ps) => PatV::Object(pat_props_model(ps@)),
        Pat::Rest(q) => PatV::Rest(Box::new(pat_model(q))),
    }
}

pub open spec fn pats_model(s: Seq<Pat>) -> Seq<PatV>
    decreases s,
{
    Seq::new(s.len(), |i: int| if 0 <= i < s.len() { pat_model(&s[i]) } else { PatV::Ident(Seq::empty()) })
}

pub open spec fn pat_props_model(s: Seq<(String, Pat)>) -> Seq<(Seq<char>, PatV)>
    decreases s,
{
    Seq::new(
        s.len(),
        |i: int|
            if 0 <= i < s.len() {
                (s[i].0@, pat_model(&s[i].1))
            } else {
                (Seq::empty(), PatV::Ident(Seq::empty()))
            },
    )
}

pub open spec fn opt_type_model(t: &Option<Type>) -> Option<TypeV>
    decreases t,
{
    match t {
        Some(x) => Some(type_model(x)),
        None => None,
    }
}

pub open spec fn param_model(p: &Param) -> ParamV
    decreases p,
{
    ParamV { pat: pat_model(&p.pat), ty: opt_type_model(&p.ty) }
}

pub open spec fn params_model(s: Seq<Param>) -> Seq<ParamV>
    decreases s,
{
    Seq::new(
        s.len(),
        |i: int|
            if 0 <= i < s.len() {
                param_model(&s[i])
            } else {
                ParamV { pat: PatV::Ident(Seq::empty()), ty: None }
            },
    )
}

pub open spec fn type_param_model(p: &TypeParam) -> TypeParamV
    decreases p,
{
    TypeParamV { name: p.name@, constraint: opt_type_model(&p.constraint) }
}

pub open spec fn type_params_model(s: Seq<TypeParam>) -> Seq<TypeParamV>
    decreases s,
{
    Seq::new(
        s.len(),
        |i: int|
            if 0 <= i < s.len() {
                type_param_model(&s[i])
            } else {
                TypeParamV { name: Seq::empty(), constraint: None }
            },
    )
}

pub open spec fn opt_type_params_model(s: &Option<Vec<TypeParam>>) -> Option<Seq<TypeParamV>>
    decreases s,
{
    match s {
        Some(v) => Some(type_params_model(v@)),
        None => None,
    }
}

pub open spec fn sig_model(s: &Signature) -> SignatureV
    decreases s,
{
    SignatureV {
        type_params: opt_type_params_model(&s.type_params),
        params: params_model(s.params@),
        ret: Box::new(type_model(&s.ret)),
    }
}

pub open spec fn key_model(k: &Key) -> KeyV {
    KeyV { name: k.name@, computed: k.computed }
}

pub open spec fn member_model(m: &Member) -> MemberV
    decreases m,
{
    match m {
        Member::Property { key, ty, optional, readonly } => MemberV::Property {
            key: key_model(key),
            ty: opt_type_model(ty),
            optional: *optional,
            readonly: *readonly,
        },
        Member::Method { key, sig } => MemberV::Method { key: key_model(key), sig: sig_model(sig) },
        Member::Call(sig) => MemberV::Call(sig_model(sig)),
        Member::Construct(sig) => MemberV::Construct(sig_model(sig)),
    }
}

pub open spec fn members_model(s: Seq<Member>) -> Seq<MemberV>
    decreases s,
{
    Seq::new(s.len(), |i: int| if 0 <= i < s.len() { member_model(&s[i]) } else { MemberV::Call(
        SignatureV { type_params: None, params: Seq::empty(), ret: Box::new(TypeV::This) },
    ) })
}

pub open spec fn type_model(t: &Type) -> TypeV
    decreases t,
{
    match t {
        Type::Keyword(k) => TypeV::Keyword(*k),
        Type::Lit(l) => TypeV::Lit(lit_model(l)),
        Type::Array(e) => TypeV::Array(Box::new(type_model(e))),
        Type::Tuple(ts) => TypeV::Tuple(types_model(ts@)),
        Type::Union(ts) => TypeV::Union(types_model(ts@)),
        Type::Intersection(ts) => TypeV::Intersection(types_model(ts@)),
        Type::TypeLit(ms) => TypeV::TypeLit(members_model(ms@)),
        Type::Interface { name, members, extends } => TypeV::Interface {
            name: name@,
            members: members_model(members@),
            extends: strings_model(extends@),
        },
        Type::Function(s) => TypeV::Function(sig_model(s)),
        Type::Constructor(s) => TypeV::Constructor(sig_model(s)),
        Type::Class { name, members } => TypeV::Class {
            name: name@,
            members: members_model(members@),
        },
        Type::Enum { name, members } => TypeV::Enum { name: name@, members: strings_model(members@) },
        Type::EnumVariant { enum_name, name } => TypeV::EnumVariant {
            enum_name: enum_name@,
            name: name@,
        },
        Type::Param { name, constraint } => TypeV::Param {
            name: name@,
            constraint: match constraint {
                Some(c) => Some(Box::new(type_model(c))),
                None => None,
            },
        },
        Type::This => TypeV::This,
        Type::Ref { name, args } => TypeV::Ref { name: name@, args: types_model(args@) },
        Type::IndexedAccess { obj, index } => TypeV::IndexedAccess {
            obj: Box::new(type_model(obj)),
            index: Box::new(type_model(index)),
        },
    }
}

pub open spec fn types_model(s: Seq<Type>) -> Seq<TypeV>
    decreases s,
{
    Seq::new(s.len(), |i: int| if 0 <= i < s.len() { type_model(&s[i]) } else { TypeV::This })
}

impl View for Lit {
    type V = LitV;

    open spec fn view(&self) -> LitV {
        lit_model(self)
    }
}

impl View for Key {
    type V = KeyV;

    open spec fn view(&self) -> KeyV {
        key_model(self)
    }
}

impl View for Pat {
    type V = PatV;

    open spec fn view(&self) -> PatV {
        pat_model(self)
    }
}

impl View for Param {
    type V = ParamV;

    open spec fn view(&self) -> ParamV {
        param_model(self)
    }
}

impl View for TypeParam {
    type V = TypeParamV;

    open spec fn view(&self) -> TypeParamV {
        type_param_model(self)
    }
}

impl View for Signature {
    type V = SignatureV;

    open spec fn view(&self) -> SignatureV {
        sig_model(self)
    }
}

impl View for Member {
    type V = MemberV;

    open spec fn view(&self) -> MemberV {
        member_model(self)
    }
}

impl View for Type {
    type V = TypeV;

    open spec fn view(&self) -> TypeV {
        type_model(self)
    }
}

} // verus!
