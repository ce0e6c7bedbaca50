//! Laws of assignability, proved over the relation that `assign` computes.
use vstd::prelude::*;
use crate::assign::{
    accepts_each, assignable, assignable_to, member_found, members_found, method_in,
    pairs_accepted, property_in, signature_in, some_accepts,
};
use crate::ty::{Keyword, KeyV, MemberV, TypeV};

verus! {

/// `any` accepts every type.
pub proof fn law_any_accepts_all(t: TypeV)
    ensures
        assignable_to(TypeV::Keyword(Keyword::Any), t),
{
}

/// `unknown` accepts every type.
pub proof fn law_unknown_accepts_all(t: TypeV)
    ensures
        assignable_to(TypeV::Keyword(Keyword::Unknown), t),
{
}

/// A value of type `any` may be used wherever any type is expected.
pub proof fn law_any_assignable_to_all(t: TypeV)
    ensures
        assignable_to(t, TypeV::Keyword(Keyword::Any)),
{
}

/// Where a type other than `unknown` is expected, a value of type `unknown`
/// may be used only if that type is `any` or `undefined`. (`unknown` itself
/// accepts it, as it accepts every type.)
pub proof fn law_unknown_assignable_only_to_any_or_undefined(t: TypeV)
    requires
        t != TypeV::Keyword(Keyword::Unknown),
    ensures
        assignable_to(t, TypeV::Keyword(Keyword::Unknown)) <==> (t == TypeV::Keyword(Keyword::Any)
            || t == TypeV::Keyword(Keyword::Undefined)),
{
}

/// A union source is accepted exactly when both of its branches are.
pub proof fn law_union_source(a: TypeV, b: TypeV, c: TypeV)
    ensures
        assignable_to(a, TypeV::Union(seq![b, c])) <==> (assignable_to(a, b) && assignable_to(a, c)),
{
    let s = seq![b, c];
    assert(s[0] == b && s[1] == c);
    assert(accepts_each(a, s, 2) == (accepts_each(a, s, 1) && assignable(a, c, 0)));
    assert(accepts_each(a, s, 1) == (accepts_each(a, s, 0) && assignable(a, b, 0)));
}

/// A union target accepts a source exactly when one of its branches does,
/// for a source that is not itself a union, a type parameter or `unknown`
/// (those are decided by the source first).
pub proof fn law_union_target(a: TypeV, b: TypeV, c: TypeV)
    requires
        !(c is Union),
        !(c is Param),
        c != TypeV::Keyword(Keyword::Unknown),
    ensures
        assignable_to(TypeV::Union(seq![a, b]), c) <==> (assignable_to(a, c) || assignable_to(b, c)),
{
    let s = seq![a, b];
    assert(s[0] == a && s[1] == b);
    assert(some_accepts(s, c, 2) == (some_accepts(s, c, 1) || assignable(b, c, 0)));
    assert(some_accepts(s, c, 1) == (some_accepts(s, c, 0) || assignable(a, c, 0)));
    if c == TypeV::Keyword(Keyword::Any) {
        law_any_assignable_to_all(a);
        law_any_assignable_to_all(b);
    }
}

/// The types of which reflexivity is proved: no `this` and no enum
/// declaration where the check reaches it, no intersection with branches, and
/// no union with a branch that is a type parameter or `unknown`.
pub open spec fn plain(t: TypeV, z: int) -> bool
    decreases t, z,
{
    match t {
        TypeV::This => false,
        TypeV::Enum { .. } => false,
        TypeV::Intersection(ts) => ts.len() == 0,
        TypeV::Array(e) => plain(*e, 0),
        TypeV::Tuple(ts) => all_plain(ts, ts.len() as int),
        TypeV::Union(ts) => plain_branches(ts, ts.len() as int),
        TypeV::TypeLit(ms) => plain_members(ms, ms.len() as int),
        TypeV::Interface { members, .. } => plain_members(members, members.len() as int),
        TypeV::Function(sig) => sig.type_params is Some || plain(*sig.ret, 0),
        TypeV::Constructor(sig) => sig.type_params is Some || plain(*sig.ret, 0),
        _ => true,
    }
}

pub open spec fn all_plain(ts: Seq<TypeV>, n: int) -> bool
    decreases ts, n,
{
    if 0 < n <= ts.len() {
        all_plain(ts, n - 1) && plain(ts[n - 1], 0)
    } else {
        true
    }
}

pub open spec fn plain_branches(ts: Seq<TypeV>, n: int) -> bool
    decreases ts, n,
{
    if 0 < n <= ts.len() {
        &&& plain_branches(ts, n - 1)
        &&& plain(ts[n - 1], 0)
        &&& !(ts[n - 1] is Param)
        &&& ts[n - 1] != TypeV::Keyword(Keyword::Unknown)
    } else {
        true
    }
}

pub open spec fn plain_members(ms: Seq<MemberV>, n: int) -> bool
    decreases ms, n,
{
    if 0 < n <= ms.len() {
        plain_members(ms, n - 1) && match ms[n - 1] {
            MemberV::Property { ty, .. } => ty is None || plain(ty->0, 0),
            _ => true,
        }
    } else {
        true
    }
}

proof fn lemma_some_accepts_witness(ts: Seq<TypeV>, x: TypeV, j: int, n: int)
    requires
        0 <= j < n <= ts.len(),
        assignable(ts[j], x, 0),
    ensures
        some_accepts(ts, x, n),
    decreases n,
{
    if j < n - 1 {
        lemma_some_accepts_witness(ts, x, j, n - 1);
    }
}

proof fn lemma_property_in_witness(ty: Option<TypeV>, key: KeyV, rms: Seq<MemberV>, j: int, n: int)
    requires
        0 <= j < n <= rms.len(),
        match rms[j] {
            MemberV::Property { key: rk, ty: rty, .. } => rk == key && (ty is None || rty is None
                || assignable(ty->0, rty->0, 0)),
            _ => false,
        },
    ensures
        property_in(ty, key, rms, n),
    decreases n,
{
    if j < n - 1 {
        lemma_property_in_witness(ty, key, rms, j, n - 1);
    }
}

proof fn lemma_method_in_witness(key: KeyV, rms: Seq<MemberV>, j: int, n: int)
    requires
        0 <= j < n <= rms.len(),
        rms[j] matches MemberV::Method { key: rk, .. } && rk == key,
    ensures
        method_in(key, rms, n),
    decreases n,
{
    if j < n - 1 {
        lemma_method_in_witness(key, rms, j, n - 1);
    }
}

proof fn lemma_signature_in_witness(m: MemberV, rms: Seq<MemberV>, j: int, n: int)
    requires
        0 <= j < n <= rms.len(),
        rms[j] == m,
    ensures
        signature_in(m, rms, n),
    decreases n,
{
    if j < n - 1 {
        lemma_signature_in_witness(m, rms, j, n - 1);
    }
}

proof fn lemma_tuple_reflexive(ts: Seq<TypeV>, n: int)
    requires
        0 <= n <= ts.len(),
        all_plain(ts, n),
    ensures
        pairs_accepted(ts, ts, n),
    decreases ts, n,
{
    if n > 0 {
        lemma_tuple_reflexive(ts, n - 1);
        law_reflexive(ts[n - 1]);
    }
}

/// Whether `x` is `t`, or is reached from `t` by going into union branches.
pub open spec fn reaches(t: TypeV, x: TypeV, z: int) -> bool
    decreases t, z,
{
    t == x || match t {
        TypeV::Union(ts) => some_reaches(ts, x, ts.len() as int),
        _ => false,
    }
}

pub open spec fn some_reaches(ts: Seq<TypeV>, x: TypeV, n: int) -> bool
    decreases ts, n,
{
    if 0 < n <= ts.len() {
        some_reaches(ts, x, n - 1) || reaches(ts[n - 1], x, 0)
    } else {
        false
    }
}

proof fn lemma_some_reaches_witness(ts: Seq<TypeV>, x: TypeV, j: int, n: int)
    requires
        0 <= j < n <= ts.len(),
        reaches(ts[j], x, 0),
    ensures
        some_reaches(ts, x, n),
    decreases n,
{
    if j < n - 1 {
        lemma_some_reaches_witness(ts, x, j, n - 1);
    }
}

/// A union accepts every type that it reaches and that accepts itself, when
/// that type is not decided by the source rules.
proof fn lemma_reached_accepted(t: TypeV, x: TypeV)
    requires
        reaches(t, x, 0),
        !(x is Union),
        !(x is Param),
        x != TypeV::Keyword(Keyword::Unknown),
        assignable(x, x, 0),
    ensures
        assignable(t, x, 0),
    decreases t, 0int,
{
    if t != x {
        if let TypeV::Union(ts) = t {
            lemma_some_reaches_accepted(ts, x, ts.len() as int);
        }
    }
}

proof fn lemma_some_reaches_accepted(ts: Seq<TypeV>, x: TypeV, n: int)
    requires
        0 <= n <= ts.len(),
        some_reaches(ts, x, n),
        !(x is Union),
        !(x is Param),
        x != TypeV::Keyword(Keyword::Unknown),
        assignable(x, x, 0),
    ensures
        some_accepts(ts, x, ts.len() as int),
    decreases ts, n,
{
    if some_reaches(ts, x, n - 1) {
        lemma_some_reaches_accepted(ts, x, n - 1);
    } else {
        lemma_reached_accepted(ts[n - 1], x);
        lemma_some_accepts_witness(ts, x, n - 1, ts.len() as int);
    }
}

/// What a type reaches, it reaches through each branch of a reached union.
proof fn lemma_reaches_branch(t: TypeV, bs: Seq<TypeV>, k: int)
    requires
        reaches(t, TypeV::Union(bs), 0),
        0 <= k < bs.len(),
    ensures
        reaches(t, bs[k], 0),
    decreases t, 0int,
{
    if t == TypeV::Union(bs) {
        lemma_some_reaches_witness(bs, bs[k], k, bs.len() as int);
    } else if let TypeV::Union(ts) = t {
        lemma_some_reaches_branch(ts, bs, k, ts.len() as int);
    }
}

proof fn lemma_some_reaches_branch(ts: Seq<TypeV>, bs: Seq<TypeV>, k: int, n: int)
    requires
        0 <= n <= ts.len(),
        some_reaches(ts, TypeV::Union(bs), n),
        0 <= k < bs.len(),
    ensures
        some_reaches(ts, bs[k], n),
    decreases ts, n,
{
    if some_reaches(ts, TypeV::Union(bs), n - 1) {
        lemma_some_reaches_branch(ts, bs, k, n - 1);
    } else {
        lemma_reaches_branch(ts[n - 1], bs, k);
    }
}

/// A union accepts each union-free part that it reaches, provided the part
/// is of the class `plain`.
proof fn lemma_reached_part_accepted(t: TypeV, b: TypeV)
    requires
        t is Union,
        reaches(t, b, 0),
        plain(b, 0),
        !(b is Param),
        b != TypeV::Keyword(Keyword::Unknown),
    ensures
        assignable(t, b, 0),
    decreases b, 1int,
{
    if let TypeV::Union(bs) = b {
        lemma_reached_parts_accepted(t, bs, bs.len() as int);
    } else {
        law_reflexive(b);
        lemma_reached_accepted(t, b);
    }
}

proof fn lemma_reached_parts_accepted(t: TypeV, bs: Seq<TypeV>, n: int)
    requires
        t is Union,
        reaches(t, TypeV::Union(bs), 0),
        0 <= n <= bs.len(),
        plain_branches(bs, n),
    ensures
        accepts_each(t, bs, n),
    decreases bs, n,
{
    if n > 0 {
        lemma_reached_parts_accepted(t, bs, n - 1);
        lemma_reaches_branch(t, bs, n - 1);
        lemma_reached_part_accepted(t, bs[n - 1]);
    }
}

proof fn lemma_members_reflexive(ms: Seq<MemberV>, n: int)
    requires
        0 <= n <= ms.len(),
        plain_members(ms, n),
    ensures
        members_found(ms, ms, n),
    decreases ms, n,
{
    if n > 0 {
        lemma_members_reflexive(ms, n - 1);
        let m = ms[n - 1];
        match m {
            MemberV::Property { key, ty, .. } => {
                if ty is Some {
                    assert(decreases_to!(ms => ms[n - 1]));
                    assert(decreases_to!(m => m->Property_ty));
                    law_reflexive(ty->0);
                }
                lemma_property_in_witness(ty, key, ms, n - 1, ms.len() as int);
            },
            MemberV::Method { key, .. } => {
                lemma_method_in_witness(key, ms, n - 1, ms.len() as int);
            },
            _ => {
                lemma_signature_in_witness(m, ms, n - 1, ms.len() as int);
            },
        }
        assert(member_found(m, ms, 0));
    }
}

/// Every type of the class `plain` accepts itself.
pub proof fn law_reflexive(t: TypeV)
    requires
        plain(t, 0),
    ensures
        assignable_to(t, t),
    decreases t, 0int,
{
    match t {
        TypeV::Array(e) => {
            law_reflexive(*e);
        },
        TypeV::Tuple(ts) => {
            lemma_tuple_reflexive(ts, ts.len() as int);
        },
        TypeV::Union(ts) => {
            lemma_reached_parts_accepted(t, ts, ts.len() as int);
        },
        TypeV::TypeLit(ms) => {
            lemma_members_reflexive(ms, ms.len() as int);
        },
        TypeV::Interface { members, .. } => {
            lemma_members_reflexive(members, members.len() as int);
        },
        TypeV::Function(sig) => {
            if sig.type_params is None {
                law_reflexive(*sig.ret);
            }
        },
        TypeV::Constructor(sig) => {
            if sig.type_params is None {
                law_reflexive(*sig.ret);
            }
        },
        TypeV::Intersection(ts) => {
            assert(crate::assign::each_accepts(ts, t, ts.len() as int));
        },
        _ => {},
    }
}

} // verus!
