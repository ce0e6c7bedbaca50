//! Literal widening and the keyword predicates.
use vstd::prelude::*;
use crate::ty::{types_model, Keyword, Lit, LitV, Type, TypeV};

verus! {

/// The base keyword of a literal's kind.
pub open spec fn lit_keyword(l: LitV) -> Keyword {
    match l {
        LitV::Bool(_) => Keyword::Boolean,
        LitV::Num(_) => Keyword::Number,
        LitV::Str(_) => Keyword::String,
    }
}

/// A literal type widened to its keyword; every other type unchanged.
pub open spec fn generalized(t: TypeV) -> TypeV {
    match t {
        TypeV::Lit(l) => TypeV::Keyword(lit_keyword(l)),
        _ => t,
    }
}

/// Whether `t` is the keyword `k`, or a union with a branch of which this
/// holds.
pub open spec fn has_keyword(t: TypeV, k: Keyword) -> bool
    decreases t,
{
    match t {
        TypeV::Keyword(x) => x == k,
        TypeV::Union(ts) => exists|i: int| 0 <= i < ts.len() && has_keyword(#[trigger] ts[i], k),
        _ => false,
    }
}

fn has_keyword_exec(t: &Type, k: Keyword) -> (r: bool)
    ensures
        r == has_keyword(t@, k),
    decreases t,
{
    match t {
        Type::Keyword(x) => *x == k,
        Type::Union(ts) => {
            let r = some_has_keyword(ts, k);
            assert(types_model(ts@).len() == ts@.len());
            r
        },
        _ => false,
    }
}

fn some_has_keyword(ts: &Vec<Type>, k: Keyword) -> (r: bool)
    ensures
        r == exists|i: int| 0 <= i < ts@.len() && has_keyword(#[trigger] types_model(ts@)[i], k),
    decreases ts,
{
    let mut i: usize = 0;
    while i < ts.len()
        invariant
            i <= ts.len(),
            forall|j: int| 0 <= j < i ==> !has_keyword(#[trigger] types_model(ts@)[j], k),
        decreases ts.len() - i,
    {
        proof {
            assert(decreases_to!(*ts => ts[i as int]));
        }
        let found = has_keyword_exec(&ts[i], k);
        assert(types_model(ts@)[i as int] == ts@[i as int]@);
        if found {
            return true;
        }
        i += 1;
    }
    false
}

/// The `undefined` keyword type.
pub fn undefined() -> (r: Type)
    ensures
        r@ == TypeV::Keyword(Keyword::Undefined),
{
    Type::Keyword(Keyword::Undefined)
}

/// The `any` keyword type.
pub fn any() -> (r: Type)
    ensures
        r@ == TypeV::Keyword(Keyword::Any),
{
    Type::Keyword(Keyword::Any)
}

impl Type {
    /// Widens a literal type to the keyword of its kind (`true` to
    /// `boolean`, `42` to `number`, `"a"` to `string`); any other type is
    /// returned as it is.
    pub fn generalize_lit(self) -> (r: Type)
        ensures
            r@ == generalized(self@),
    {
        match self {
            Type::Lit(Lit::Bool(_)) => Type::Keyword(Keyword::Boolean),
            Type::Lit(Lit::Num(_)) => Type::Keyword(Keyword::Number),
            Type::Lit(Lit::Str(_)) => Type::Keyword(Keyword::String),
            other => other,
        }
    }

    /// `any`, or a union with such a branch.
    pub fn is_any(&self) -> (r: bool)
        ensures
            r == has_keyword(self@, Keyword::Any),
    {
        has_keyword_exec(self, Keyword::Any)
    }

    /// `unknown`, or a union with such a branch.
    pub fn is_unknown(&self) -> (r: bool)
        ensures
            r == has_keyword(self@, Keyword::Unknown),
    {
        has_keyword_exec(self, Keyword::Unknown)
    }

    /// `undefined`, or a union with such a branch.
    pub fn contains_undefined(&self) -> (r: bool)
        ensures
            r == has_keyword(self@, Keyword::Undefined),
    {
        has_keyword_exec(self, Keyword::Undefined)
    }

    /// `void`, or a union with such a branch.
    pub fn contains_void(&self) -> (r: bool)
        ensures
            r == has_keyword(self@, Keyword::Void),
    {
        has_keyword_exec(self, Keyword::Void)
    }
}

} // verus!
