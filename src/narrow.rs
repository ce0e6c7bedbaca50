//! Narrowing: removing the falsy or truthy parts of a type, and the type of a
//! logical negation.
use vstd::prelude::*;
use crate::copy::copy_type;
use crate::ty::{types_model, Keyword, Lit, LitV, Type, TypeV};

verus! {

pub open spec fn never() -> TypeV {
    TypeV::Keyword(Keyword::Never)
}

/// `t` with its falsy parts (`falsy`) or its truthy parts (`!falsy`) taken
/// out: `undefined`, `null` and `false` are falsy, `true` is truthy, and the
/// removed parts become `never`. Unions lose their `never` branches; an
/// intersection with a `never` branch becomes `never`.
pub open spec fn narrowed(t: TypeV, falsy: bool) -> TypeV
    decreases t,
{
    match t {
        TypeV::Keyword(k) => if falsy && (k == Keyword::Undefined || k == Keyword::Null) {
            never()
        } else {
            t
        },
        TypeV::Lit(LitV::Bool(b)) => if b != falsy {
            never()
        } else {
            t
        },
        TypeV::Union(ts) => TypeV::Union(drop_never(narrowed_all(ts, falsy))),
        TypeV::Intersection(ts) => if exists|i: int|
            0 <= i < ts.len() && #[trigger] narrowed_all(ts, falsy)[i] == never() {
            never()
        } else {
            TypeV::Intersection(narrowed_all(ts, falsy))
        },
        _ => t,
    }
}

pub open spec fn narrowed_all(ts: Seq<TypeV>, falsy: bool) -> Seq<TypeV>
    decreases ts,
{
    Seq::new(ts.len(), |i: int| if 0 <= i < ts.len() { narrowed(ts[i], falsy) } else { never() })
}

/// The sequence without its `never` elements, in order.
pub open spec fn drop_never(s: Seq<TypeV>) -> Seq<TypeV>
    decreases s.len(),
{
    if s.len() == 0 {
        s
    } else {
        let rest = drop_never(s.drop_last());
        if s.last() == never() {
            rest
        } else {
            rest.push(s.last())
        }
    }
}

/// Whether a number, given by its IEEE-754 bits, is truthy: neither zero nor NaN.
pub open spec fn num_truthy(bits: u64) -> bool {
    let m = bits & 0x7fff_ffff_ffff_ffffu64;
    m != 0 && m <= 0x7ff0_0000_0000_0000u64
}

/// The type of `!x` where `x` has type `t`: for a literal, the boolean
/// literal that negates its truthiness; otherwise `boolean`.
pub open spec fn negated(t: TypeV) -> TypeV {
    match t {
        TypeV::Lit(LitV::Bool(b)) => TypeV::Lit(LitV::Bool(!b)),
        TypeV::Lit(LitV::Num(n)) => TypeV::Lit(LitV::Bool(!num_truthy(n))),
        TypeV::Lit(LitV::Str(s)) => TypeV::Lit(LitV::Bool(s.len() == 0)),
        _ => TypeV::Keyword(Keyword::Boolean),
    }
}

fn is_never_exec(t: &Type) -> (r: bool)
    ensures
        r == (t@ == never()),
{
    match t {
        Type::Keyword(Keyword::Never) => true,
        _ => false,
    }
}

fn narrow(t: &Type, falsy: bool) -> (r: Type)
    ensures
        r@ == narrowed(t@, falsy),
    decreases t,
{
    match t {
        Type::Keyword(k) => {
            if falsy && (*k == Keyword::Undefined || *k == Keyword::Null) {
                Type::Keyword(Keyword::Never)
            } else {
                Type::Keyword(*k)
            }
        },
        Type::Lit(Lit::Bool(b)) => {
            if *b != falsy {
                Type::Keyword(Keyword::Never)
            } else {
                Type::Lit(Lit::Bool(*b))
            }
        },
        Type::Union(ts) => {
            let r = narrow_union(ts, falsy);
            Type::Union(r)
        },
        Type::Intersection(ts) => {
            let (r, has_never) = narrow_each(ts, falsy);
            if has_never {
                Type::Keyword(Keyword::Never)
            } else {
                Type::Intersection(r)
            }
        },
        _ => copy_type(t),
    }
}

fn narrow_union(ts: &Vec<Type>, falsy: bool) -> (r: Vec<Type>)
    ensures
        types_model(r@) == drop_never(narrowed_all(types_model(ts@), falsy)),
    decreases ts,
{
    let ghost all = narrowed_all(types_model(ts@), falsy);
    let mut out: Vec<Type> = Vec::new();
    let mut i: usize = 0;
    proof {
        assert(all.take(0) =~= Seq::<TypeV>::empty());
        assert(types_model(out@) =~= Seq::<TypeV>::empty());
    }
    while i < ts.len()
        invariant
            i <= ts.len(),
            all == narrowed_all(types_model(ts@), falsy),
            types_model(out@) == drop_never(all.take(i as int)),
        decreases ts.len() - i,
    {
        proof {
            assert(decreases_to!(*ts => ts[i as int]));
        }
        let x = narrow(&ts[i], falsy);
        proof {
            assert(types_model(ts@)[i as int] == ts@[i as int]@);
            assert(all[i as int] == x@);
            assert(all.take(i + 1).drop_last() =~= all.take(i as int));
            assert(all.take(i + 1).last() == x@);
        }
        if !is_never_exec(&x) {
            let ghost before = out@;
            out.push(x);
            proof {
                assert(types_model(out@) =~= types_model(before).push(all[i as int]));
            }
        }
        i += 1;
    }
    proof {
        assert(all.take(ts@.len() as int) =~= all);
    }
    out
}

fn narrow_each(ts: &Vec<Type>, falsy: bool) -> (r: (Vec<Type>, bool))
    ensures
        types_model(r.0@) == narrowed_all(types_model(ts@), falsy),
        r.1 == exists|i: int|
            0 <= i < ts@.len() && #[trigger] narrowed_all(types_model(ts@), falsy)[i] == never(),
    decreases ts,
{
    let ghost all = narrowed_all(types_model(ts@), falsy);
    let mut out: Vec<Type> = Vec::new();
    let mut found = false;
    let mut i: usize = 0;
    while i < ts.len()
        invariant
            i <= ts.len(),
            all == narrowed_all(types_model(ts@), falsy),
            out@.len() == i,
            forall|j: int| 0 <= j < i ==> (#[trigger] out@[j])@ == all[j],
            found == exists|j: int| 0 <= j < i && #[trigger] all[j] == never(),
        decreases ts.len() - i,
    {
        proof {
            assert(decreases_to!(*ts => ts[i as int]));
        }
        let x = narrow(&ts[i], falsy);
        proof {
            assert(types_model(ts@)[i as int] == ts@[i as int]@);
            assert(all[i as int] == x@);
        }
        if is_never_exec(&x) {
            found = true;
        }
        out.push(x);
        i += 1;
    }
    proof {
        assert(types_model(out@) =~= all);
    }
    (out, found)
}

impl Type {
    /// This type with `undefined`, `null` and `false` taken out (they become
    /// `never`, and `never` branches leave unions).
    pub fn remove_falsy(&self) -> (r: Type)
        ensures
            r@ == narrowed(self@, true),
    {
        narrow(self, true)
    }

    /// This type with `true` taken out (it becomes `never`, and `never`
    /// branches leave unions).
    pub fn remove_truthy(&self) -> (r: Type)
        ensures
            r@ == narrowed(self@, false),
    {
        narrow(self, false)
    }
}

/// The type of a logical negation of a value of type `t`.
pub fn negate(t: &Type) -> (r: Type)
    ensures
        r@ == negated(t@),
{
    match t {
        Type::Lit(Lit::Bool(b)) => Type::Lit(Lit::Bool(!*b)),
        Type::Lit(Lit::Num(n)) => {
            let m: u64 = *n & 0x7fff_ffff_ffff_ffffu64;
            Type::Lit(Lit::Bool(!(m != 0 && m <= 0x7ff0_0000_0000_0000u64)))
        },
        Type::Lit(Lit::Str(s)) => Type::Lit(Lit::Bool(s.as_str().is_empty())),
        _ => Type::Keyword(Keyword::Boolean),
    }
}

} // verus!
