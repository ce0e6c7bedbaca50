//! Structural assignability: whether a value of one type may be used where
//! another type is expected.
use vstd::prelude::*;
use crate::eq::{erase_member, erase_type, key_eq, lit_eq, str_eq};
use crate::render::{render, rendered};
use crate::error::{error_model, errors_model, unit_result, Error, ErrorV, Span};
use crate::ty::{
    KeyV, members_model, opt_type_model, types_model, Keyword, Lit, LitV, Member, MemberV, Type, TypeV,
};

verus! {

/// Whether a keyword type takes the literals of `l`'s kind.
pub open spec fn keyword_takes_lit(k: Keyword, l: LitV) -> bool {
    ||| k == Keyword::String && l is Str
    ||| k == Keyword::Number && l is Num
    ||| k == Keyword::Boolean && l is Bool
}

/// The shapes that the `object` keyword accepts.
pub open spec fn object_accepts(t: TypeV) -> bool {
    match t {
        TypeV::Keyword(k) => k == Keyword::Number || k == Keyword::String,
        TypeV::Function(_) | TypeV::Constructor(_) | TypeV::Enum { .. } | TypeV::Class { .. }
        | TypeV::TypeLit(_) => true,
        _ => false,
    }
}

/// The members of an object shape.
pub open spec fn shape_members(t: TypeV) -> Option<Seq<MemberV>> {
    match t {
        TypeV::TypeLit(ms) => Some(ms),
        TypeV::Interface { members, .. } => Some(members),
        _ => None,
    }
}

/// The last resort: the two types are the same once names are forgotten.
pub open spec fn same_shape(to: TypeV, from: TypeV) -> bool {
    erase_type(to) == erase_type(from)
}

/// Whether the property type `ty` (a missing annotation stands for `any`)
/// accepts the type of one of the first `n` members of `rms` that is a property
/// with key `key`.
pub open spec fn property_in(ty: Option<TypeV>, key: KeyV, rms: Seq<MemberV>, n: int) -> bool
    decreases ty, rms, n,
{
    if 0 < n <= rms.len() {
        property_in(ty, key, rms, n - 1) || match rms[n - 1] {
            MemberV::Property { key: rk, ty: rty, .. } => rk == key && (ty is None || rty is None
                || assignable(ty->0, rty->0, 0)),
            _ => false,
        }
    } else {
        false
    }
}

/// Whether one of the first `n` members of `rms` is a method with key `key`.
pub open spec fn method_in(key: KeyV, rms: Seq<MemberV>, n: int) -> bool
    decreases n,
{
    if 0 < n <= rms.len() {
        method_in(key, rms, n - 1) || (rms[n - 1] matches MemberV::Method { key: rk, .. } && rk
            == key)
    } else {
        false
    }
}

/// Whether one of the first `n` members of `rms` equals `m` once names are
/// forgotten.
pub open spec fn signature_in(m: MemberV, rms: Seq<MemberV>, n: int) -> bool
    decreases n,
{
    if 0 < n <= rms.len() {
        signature_in(m, rms, n - 1) || erase_member(rms[n - 1]) == erase_member(m)
    } else {
        false
    }
}

/// Whether a member that the target requires is present among `rms`: a
/// property needs a property of the same key whose type its own type accepts,
/// a method a method of the same key, and a call or construct signature a
/// member equal to it once names are forgotten.
pub open spec fn member_found(m: MemberV, rms: Seq<MemberV>, z: int) -> bool
    decreases m, rms, z,
{
    match m {
        MemberV::Property { key, ty, .. } => property_in(ty, key, rms, rms.len() as int),
        MemberV::Method { key, .. } => method_in(key, rms, rms.len() as int),
        _ => signature_in(m, rms, rms.len() as int),
    }
}

/// Whether each of the first `n` members of `ms` is found among `rms`.
pub open spec fn members_found(ms: Seq<MemberV>, rms: Seq<MemberV>, n: int) -> bool
    decreases ms, rms, n,
{
    if 0 < n <= ms.len() {
        members_found(ms, rms, n - 1) && member_found(ms[n - 1], rms, 0)
    } else {
        true
    }
}

/// The first `n` members of `ms` that are not found among `rms`, in order.
pub open spec fn missing_members(ms: Seq<MemberV>, rms: Seq<MemberV>, n: int) -> Seq<MemberV>
    decreases n,
{
    if 0 < n <= ms.len() {
        let s = missing_members(ms, rms, n - 1);
        if member_found(ms[n - 1], rms, 0) {
            s
        } else {
            s.push(ms[n - 1])
        }
    } else {
        Seq::empty()
    }
}

/// Whether `to` accepts each of the first `n` types of `bs`.
pub open spec fn accepts_each(to: TypeV, bs: Seq<TypeV>, n: int) -> bool
    decreases to, bs, n,
{
    if 0 < n <= bs.len() {
        accepts_each(to, bs, n - 1) && assignable(to, bs[n - 1], 0)
    } else {
        true
    }
}

/// Whether one of the first `n` types of `ts` accepts `from`.
pub open spec fn some_accepts(ts: Seq<TypeV>, from: TypeV, n: int) -> bool
    decreases ts, from, n,
{
    if 0 < n <= ts.len() {
        some_accepts(ts, from, n - 1) || assignable(ts[n - 1], from, 0)
    } else {
        false
    }
}

/// Whether each of the first `n` types of `ts` accepts `from`.
pub open spec fn each_accepts(ts: Seq<TypeV>, from: TypeV, n: int) -> bool
    decreases ts, from, n,
{
    if 0 < n <= ts.len() {
        each_accepts(ts, from, n - 1) && assignable(ts[n - 1], from, 0)
    } else {
        true
    }
}

/// Whether the first `n` pairs of two tuples' elements are accepted, a pair
/// being let through where the source element is `undefined`.
pub open spec fn pairs_accepted(ts: Seq<TypeV>, ss: Seq<TypeV>, n: int) -> bool
    decreases ts, ss, n,
{
    if 0 < n <= ts.len() && n <= ss.len() {
        pairs_accepted(ts, ss, n - 1) && (assignable(ts[n - 1], ss[n - 1], 0) || ss[n - 1]
            == TypeV::Keyword(Keyword::Undefined))
    } else {
        true
    }
}

/// The relation computed by `assign`; `z` only orders the recursion and is
/// `0` at every use.
pub open spec fn assignable(to: TypeV, from: TypeV, z: int) -> bool
    decreases to, from, z,
{
    if to == TypeV::Keyword(Keyword::Any) || to == TypeV::Keyword(Keyword::Unknown) {
        true
    } else {
        match from {
            TypeV::Union(bs) => accepts_each(to, bs, bs.len() as int),
            TypeV::Keyword(Keyword::Any) => true,
            TypeV::Keyword(Keyword::Unknown) => to == TypeV::Keyword(Keyword::Undefined),
            TypeV::Param { name, constraint } => {
                if to matches TypeV::Param { name: n, .. } && n == name {
                    true
                } else {
                    match constraint {
                        Some(c) => assignable(to, *c, 0),
                        None => to == TypeV::TypeLit(Seq::empty()),
                    }
                }
            },
            _ => match to {
                TypeV::Array(t) => match from {
                    TypeV::Array(s) => assignable(*t, *s, 0),
                    TypeV::Tuple(ss) => accepts_each(*t, ss, ss.len() as int),
                    _ => false,
                },
                TypeV::Union(ts) => some_accepts(ts, from, ts.len() as int),
                TypeV::Intersection(ts) => each_accepts(ts, from, ts.len() as int),
                TypeV::Keyword(Keyword::Object) => object_accepts(from) || same_shape(to, from),
                TypeV::Keyword(k) => from == TypeV::Keyword(k) || (from is Lit && keyword_takes_lit(
                    k,
                    from->Lit_0,
                )),
                TypeV::Enum { name, .. } => from matches TypeV::EnumVariant { enum_name, .. }
                    && enum_name == name,
                TypeV::EnumVariant { enum_name, name } => from == TypeV::EnumVariant {
                    enum_name,
                    name,
                },
                TypeV::This => false,
                TypeV::TypeLit(ms) => match shape_members(from) {
                    Some(rms) => members_found(ms, rms, ms.len() as int),
                    None => if from is Tuple || from is Array || from is Lit {
                        false
                    } else {
                        same_shape(to, from)
                    },
                },
                TypeV::Interface { members: ms, .. } => match shape_members(from) {
                    Some(rms) => members_found(ms, rms, ms.len() as int),
                    None => if from is Tuple || from is Array || from is Lit {
                        false
                    } else {
                        same_shape(to, from)
                    },
                },
                TypeV::Lit(l) => from == TypeV::Lit(l),
                TypeV::Function(sig) => if sig.type_params is None {
                    from matches TypeV::Function(fs) && fs.type_params is None && assignable(
                        *sig.ret,
                        *fs.ret,
                        0,
                    )
                } else {
                    same_shape(to, from)
                },
                TypeV::Constructor(sig) => if sig.type_params is None {
                    from matches TypeV::Constructor(fs) && fs.type_params is None && assignable(
                        *sig.ret,
                        *fs.ret,
                        0,
                    )
                } else {
                    same_shape(to, from)
                },
                TypeV::Tuple(ts) => match from {
                    TypeV::Tuple(ss) => ts.len() == ss.len() && pairs_accepted(
                        ts,
                        ss,
                        ts.len() as int,
                    ),
                    _ => same_shape(to, from),
                },
                _ => same_shape(to, from),
            },
        }
    }
}

// The outcome of `assign`: success, or the exact error.

/// The error for a pair that the rules reject without a more specific cause.
pub open spec fn rejection(to: TypeV, from: TypeV, sp: Span) -> ErrorV {
    ErrorV::AssignFailed { span: sp, left: to, right: from, cause: Seq::empty() }
}

/// The text of the last-resort diagnostic, naming both types.
pub open spec fn last_resort_text(to: TypeV, from: TypeV) -> Seq<char> {
    "assigning "@ + rendered(from, 0) + " to "@ + rendered(to, 0) + " is not supported"@
}

/// The last resort: accepted when the two are the same once names are
/// forgotten, else unsupported, with a diagnostic naming both types.
pub open spec fn last_resort(to: TypeV, from: TypeV, sp: Span) -> Result<(), ErrorV> {
    if same_shape(to, from) {
        Ok(())
    } else {
        Err(ErrorV::Unsupported { span: sp, description: last_resort_text(to, from) })
    }
}

/// Success, or the members found missing, as the result of an object match.
pub open spec fn missing_outcome(r: Result<Seq<MemberV>, ErrorV>, sp: Span) -> Result<(), ErrorV> {
    match r {
        Ok(miss) => if miss.len() == 0 {
            Ok(())
        } else {
            Err(ErrorV::MissingFields { span: sp, fields: miss })
        },
        Err(e) => Err(e),
    }
}

pub open spec fn opt_error(o: Option<Error>) -> Option<ErrorV> {
    match o {
        Some(e) => Some(e@),
        None => None,
    }
}

/// Found, or the first rejection among properties of the key, or not found.
pub open spec fn scan_outcome(r: (bool, Option<ErrorV>)) -> Result<bool, ErrorV> {
    if r.0 {
        Ok(true)
    } else {
        match r.1 {
            Some(e) => Err(e),
            None => Ok(false),
        }
    }
}

/// The errors of the first `n` branches of a union source that `to`
/// rejects, in order.
pub open spec fn source_errors(to: TypeV, bs: Seq<TypeV>, sp: Span, n: int) -> Seq<ErrorV>
    decreases to, bs, n,
{
    if 0 < n <= bs.len() {
        let p = source_errors(to, bs, sp, n - 1);
        match assign_result(to, bs[n - 1], sp, 0) {
            Ok(_) => p,
            Err(e) => p.push(e),
        }
    } else {
        Seq::empty()
    }
}

/// The first rejection of the first `n` types of `ss` by `t`.
pub open spec fn first_rejection(t: TypeV, ss: Seq<TypeV>, sp: Span, n: int) -> Result<(), ErrorV>
    decreases t, ss, n,
{
    if 0 < n <= ss.len() {
        match first_rejection(t, ss, sp, n - 1) {
            Ok(_) => assign_result(t, ss[n - 1], sp, 0),
            Err(e) => Err(e),
        }
    } else {
        Ok(())
    }
}

/// Over the first `n` branches of a union target: success once one accepts,
/// else every branch's error in order.
pub open spec fn target_outcome(ts: Seq<TypeV>, from: TypeV, sp: Span, n: int) -> Result<
    (),
    Seq<ErrorV>,
>
    decreases ts, from, n,
{
    if 0 < n <= ts.len() {
        match target_outcome(ts, from, sp, n - 1) {
            Ok(_) => Ok(()),
            Err(es) => match assign_result(ts[n - 1], from, sp, 0) {
                Ok(_) => Ok(()),
                Err(e) => Err(es.push(e)),
            },
        }
    } else {
        Err(Seq::empty())
    }
}

/// The first rejection of `from` by the first `n` branches of an
/// intersection target.
pub open spec fn first_branch_rejection(ts: Seq<TypeV>, from: TypeV, sp: Span, n: int) -> Result<
    (),
    ErrorV,
>
    decreases ts, from, n,
{
    if 0 < n <= ts.len() {
        match first_branch_rejection(ts, from, sp, n - 1) {
            Ok(_) => assign_result(ts[n - 1], from, sp, 0),
            Err(e) => Err(e),
        }
    } else {
        Ok(())
    }
}

/// The first rejected pair among the first `n` element pairs of two tuples,
/// a pair being let through where the source element is `undefined`.
pub open spec fn first_pair_rejection(ts: Seq<TypeV>, ss: Seq<TypeV>, sp: Span, n: int) -> Result<
    (),
    ErrorV,
>
    decreases ts, ss, n,
{
    if 0 < n <= ts.len() && n <= ss.len() {
        match first_pair_rejection(ts, ss, sp, n - 1) {
            Ok(_) => match assign_result(ts[n - 1], ss[n - 1], sp, 0) {
                Ok(_) => Ok(()),
                Err(e) => if ss[n - 1] == TypeV::Keyword(Keyword::Undefined) {
                    Ok(())
                } else {
                    Err(e)
                },
            },
            Err(e) => Err(e),
        }
    } else {
        Ok(())
    }
}

/// Over the first `n` members of `rms`: whether a property of key `key`
/// is accepted by `ty` (a missing annotation accepts and is accepted), and the
/// first rejection among those properties, as an `AssignFailed` between the
/// two property types.
pub open spec fn property_scan(ty: Option<TypeV>, key: KeyV, rms: Seq<MemberV>, sp: Span, n: int) -> (
    bool,
    Option<ErrorV>,
)
    decreases ty, rms, n,
{
    if 0 < n <= rms.len() {
        let p = property_scan(ty, key, rms, sp, n - 1);
        if p.0 {
            p
        } else {
            match rms[n - 1] {
                MemberV::Property { key: rk, ty: rty, .. } => if rk != key {
                    p
                } else if ty is None || rty is None {
                    (true, p.1)
                } else {
                    match assign_result(ty->0, rty->0, sp, 0) {
                        Ok(_) => (true, p.1),
                        Err(x) => (
                            false,
                            if p.1 is None {
                                Some(
                                    ErrorV::AssignFailed {
                                        span: sp,
                                        left: ty->0,
                                        right: rty->0,
                                        cause: seq![x],
                                    },
                                )
                            } else {
                                p.1
                            },
                        ),
                    }
                },
                _ => p,
            }
        }
    } else {
        (false, None)
    }
}

/// Whether the member `m` of a target is present among `rms`, or the error
/// of its properties' types.
pub open spec fn member_result(m: MemberV, rms: Seq<MemberV>, sp: Span, z: int) -> Result<bool, ErrorV>
    decreases m, rms, z,
{
    match m {
        MemberV::Property { key, ty, .. } => scan_outcome(
            property_scan(ty, key, rms, sp, rms.len() as int),
        ),
        MemberV::Method { key, .. } => Ok(method_in(key, rms, rms.len() as int)),
        _ => Ok(signature_in(m, rms, rms.len() as int)),
    }
}

/// The first `n` members of `ms` that are missing from `rms`, in order, or
/// the first error met.
pub open spec fn missing_or_error(ms: Seq<MemberV>, rms: Seq<MemberV>, sp: Span, n: int) -> Result<
    Seq<MemberV>,
    ErrorV,
>
    decreases ms, rms, n,
{
    if 0 < n <= ms.len() {
        match missing_or_error(ms, rms, sp, n - 1) {
            Ok(miss) => match member_result(ms[n - 1], rms, sp, 0) {
                Ok(true) => Ok(miss),
                Ok(false) => Ok(miss.push(ms[n - 1])),
                Err(e) => Err(e),
            },
            Err(e) => Err(e),
        }
    } else {
        Ok(Seq::empty())
    }
}

/// The outcome of assigning `from` to `to` at `sp`, rule by rule: success,
/// or the exact error. (`z` only orders the recursion.)
pub open spec fn assign_result(to: TypeV, from: TypeV, sp: Span, z: int) -> Result<(), ErrorV>
    decreases to, from, z,
{
    if to == TypeV::Keyword(Keyword::Any) || to == TypeV::Keyword(Keyword::Unknown) {
        Ok(())
    } else {
        match from {
            TypeV::Union(bs) => {
                let es = source_errors(to, bs, sp, bs.len() as int);
                if es.len() == 0 {
                    Ok(())
                } else {
                    Err(ErrorV::UnionError { span: sp, errors: es })
                }
            },
            TypeV::Keyword(Keyword::Any) => Ok(()),
            TypeV::Keyword(Keyword::Unknown) => if to == TypeV::Keyword(Keyword::Undefined) {
                Ok(())
            } else {
                Err(rejection(to, from, sp))
            },
            TypeV::Param { name, constraint } => {
                if to matches TypeV::Param { name: n, .. } && n == name {
                    Ok(())
                } else {
                    match constraint {
                        Some(c) => assign_result(to, *c, sp, 0),
                        None => if to == TypeV::TypeLit(Seq::empty()) {
                            Ok(())
                        } else {
                            Err(rejection(to, from, sp))
                        },
                    }
                }
            },
            _ => match to {
                TypeV::Array(t) => match from {
                    TypeV::Array(s) => match assign_result(*t, *s, sp, 0) {
                        Ok(_) => Ok(()),
                        Err(c) => Err(
                            ErrorV::AssignFailed { span: sp, left: to, right: from, cause: seq![c] },
                        ),
                    },
                    TypeV::Tuple(ss) => first_rejection(*t, ss, sp, ss.len() as int),
                    _ => Err(rejection(to, from, sp)),
                },
                TypeV::Union(ts) => match target_outcome(ts, from, sp, ts.len() as int) {
                    Ok(_) => Ok(()),
                    Err(es) => Err(ErrorV::UnionError { span: sp, errors: es }),
                },
                TypeV::Intersection(ts) => match first_branch_rejection(ts, from, sp, ts.len() as int) {
                    Ok(_) => Ok(()),
                    Err(e) => Err(ErrorV::IntersectionError { span: sp, error: Box::new(e) }),
                },
                TypeV::Keyword(Keyword::Object) => if object_accepts(from) {
                    Ok(())
                } else {
                    last_resort(to, from, sp)
                },
                TypeV::Keyword(k) => if from == TypeV::Keyword(k) || (from is Lit && keyword_takes_lit(
                    k,
                    from->Lit_0,
                )) {
                    Ok(())
                } else {
                    Err(rejection(to, from, sp))
                },
                TypeV::Enum { name, .. } => if from matches TypeV::EnumVariant { enum_name, .. }
                    && enum_name == name {
                    Ok(())
                } else {
                    Err(rejection(to, from, sp))
                },
                TypeV::EnumVariant { enum_name, name } => if from == (TypeV::EnumVariant {
                    enum_name,
                    name,
                }) {
                    Ok(())
                } else {
                    Err(rejection(to, from, sp))
                },
                TypeV::This => Err(ErrorV::CannotAssignToThis { span: sp }),
                TypeV::TypeLit(ms) => match shape_members(from) {
                    Some(rms) => missing_outcome(missing_or_error(ms, rms, sp, ms.len() as int), sp),
                    None => if from is Tuple || from is Array || from is Lit {
                        Err(rejection(to, from, sp))
                    } else {
                        last_resort(to, from, sp)
                    },
                },
                TypeV::Interface { members: ms, .. } => match shape_members(from) {
                    Some(rms) => missing_outcome(missing_or_error(ms, rms, sp, ms.len() as int), sp),
                    None => if from is Tuple || from is Array || from is Lit {
                        Err(rejection(to, from, sp))
                    } else {
                        last_resort(to, from, sp)
                    },
                },
                TypeV::Lit(l) => if from == TypeV::Lit(l) {
                    Ok(())
                } else {
                    Err(rejection(to, from, sp))
                },
                TypeV::Function(sig) => if sig.type_params is None {
                    if from matches TypeV::Function(fs) && fs.type_params is None {
                        assign_result(*sig.ret, *from->Function_0.ret, sp, 0)
                    } else {
                        Err(rejection(to, from, sp))
                    }
                } else {
                    last_resort(to, from, sp)
                },
                TypeV::Constructor(sig) => if sig.type_params is None {
                    if from matches TypeV::Constructor(fs) && fs.type_params is None {
                        assign_result(*sig.ret, *from->Constructor_0.ret, sp, 0)
                    } else {
                        Err(rejection(to, from, sp))
                    }
                } else {
                    last_resort(to, from, sp)
                },
                TypeV::Tuple(ts) => match from {
                    TypeV::Tuple(ss) => if ts.len() != ss.len() {
                        Err(rejection(to, from, sp))
                    } else {
                        first_pair_rejection(ts, ss, sp, ts.len() as int)
                    },
                    _ => last_resort(to, from, sp),
                },
                _ => last_resort(to, from, sp),
            },
        }
    }
}

// Once a prefix decides an outcome, every longer prefix has that outcome.

proof fn lemma_first_rejection_stays(t: TypeV, ss: Seq<TypeV>, sp: Span, m: int, n: int)
    requires
        0 <= m <= n <= ss.len(),
        first_rejection(t, ss, sp, m) is Err,
    ensures
        first_rejection(t, ss, sp, n) == first_rejection(t, ss, sp, m),
    decreases n - m,
{
    if m < n {
        lemma_first_rejection_stays(t, ss, sp, m, n - 1);
    }
}

proof fn lemma_target_outcome_stays(ts: Seq<TypeV>, from: TypeV, sp: Span, m: int, n: int)
    requires
        0 <= m <= n <= ts.len(),
        target_outcome(ts, from, sp, m) is Ok,
    ensures
        target_outcome(ts, from, sp, n) is Ok,
    decreases n - m,
{
    if m < n {
        lemma_target_outcome_stays(ts, from, sp, m, n - 1);
    }
}

proof fn lemma_first_branch_rejection_stays(ts: Seq<TypeV>, from: TypeV, sp: Span, m: int, n: int)
    requires
        0 <= m <= n <= ts.len(),
        first_branch_rejection(ts, from, sp, m) is Err,
    ensures
        first_branch_rejection(ts, from, sp, n) == first_branch_rejection(ts, from, sp, m),
    decreases n - m,
{
    if m < n {
        lemma_first_branch_rejection_stays(ts, from, sp, m, n - 1);
    }
}

proof fn lemma_first_pair_rejection_stays(ts: Seq<TypeV>, ss: Seq<TypeV>, sp: Span, m: int, n: int)
    requires
        0 <= m <= n <= ts.len(),
        n <= ss.len(),
        first_pair_rejection(ts, ss, sp, m) is Err,
    ensures
        first_pair_rejection(ts, ss, sp, n) == first_pair_rejection(ts, ss, sp, m),
    decreases n - m,
{
    if m < n {
        lemma_first_pair_rejection_stays(ts, ss, sp, m, n - 1);
    }
}

proof fn lemma_property_scan_stays(
    ty: Option<TypeV>,
    key: KeyV,
    rms: Seq<MemberV>,
    sp: Span,
    m: int,
    n: int,
)
    requires
        0 <= m <= n <= rms.len(),
        property_scan(ty, key, rms, sp, m).0,
    ensures
        property_scan(ty, key, rms, sp, n).0,
    decreases n - m,
{
    if m < n {
        lemma_property_scan_stays(ty, key, rms, sp, m, n - 1);
    }
}

proof fn lemma_missing_or_error_stays(ms: Seq<MemberV>, rms: Seq<MemberV>, sp: Span, m: int, n: int)
    requires
        0 <= m <= n <= ms.len(),
        missing_or_error(ms, rms, sp, m) is Err,
    ensures
        missing_or_error(ms, rms, sp, n) == missing_or_error(ms, rms, sp, m),
    decreases n - m,
{
    if m < n {
        lemma_missing_or_error_stays(ms, rms, sp, m, n - 1);
    }
}

// Prefix facts of the index-recursive relations: what holds of all of a
// sequence holds of each prefix, and what holds of some prefix holds of all.

proof fn lemma_accepts_each_prefix(to: TypeV, bs: Seq<TypeV>, m: int, n: int)
    requires
        0 <= m <= n <= bs.len(),
        accepts_each(to, bs, n),
    ensures
        accepts_each(to, bs, m),
    decreases n - m,
{
    if m < n {
        lemma_accepts_each_prefix(to, bs, m, n - 1);
    }
}

proof fn lemma_each_accepts_prefix(ts: Seq<TypeV>, from: TypeV, m: int, n: int)
    requires
        0 <= m <= n <= ts.len(),
        each_accepts(ts, from, n),
    ensures
        each_accepts(ts, from, m),
    decreases n - m,
{
    if m < n {
        lemma_each_accepts_prefix(ts, from, m, n - 1);
    }
}

proof fn lemma_some_accepts_prefix(ts: Seq<TypeV>, from: TypeV, m: int, n: int)
    requires
        0 <= m <= n <= ts.len(),
        some_accepts(ts, from, m),
    ensures
        some_accepts(ts, from, n),
    decreases n - m,
{
    if m < n {
        lemma_some_accepts_prefix(ts, from, m, n - 1);
    }
}

proof fn lemma_pairs_accepted_prefix(ts: Seq<TypeV>, ss: Seq<TypeV>, m: int, n: int)
    requires
        0 <= m <= n <= ts.len(),
        n <= ss.len(),
        pairs_accepted(ts, ss, n),
    ensures
        pairs_accepted(ts, ss, m),
    decreases n - m,
{
    if m < n {
        lemma_pairs_accepted_prefix(ts, ss, m, n - 1);
    }
}

proof fn lemma_members_found_prefix(ms: Seq<MemberV>, rms: Seq<MemberV>, m: int, n: int)
    requires
        0 <= m <= n <= ms.len(),
        members_found(ms, rms, n),
    ensures
        members_found(ms, rms, m),
    decreases n - m,
{
    if m < n {
        lemma_members_found_prefix(ms, rms, m, n - 1);
    }
}

proof fn lemma_property_in_prefix(ty: Option<TypeV>, key: KeyV, rms: Seq<MemberV>, m: int, n: int)
    requires
        0 <= m <= n <= rms.len(),
        property_in(ty, key, rms, m),
    ensures
        property_in(ty, key, rms, n),
    decreases n - m,
{
    if m < n {
        lemma_property_in_prefix(ty, key, rms, m, n - 1);
    }
}

proof fn lemma_method_in_prefix(key: KeyV, rms: Seq<MemberV>, m: int, n: int)
    requires
        0 <= m <= n <= rms.len(),
        method_in(key, rms, m),
    ensures
        method_in(key, rms, n),
    decreases n - m,
{
    if m < n {
        lemma_method_in_prefix(key, rms, m, n - 1);
    }
}

proof fn lemma_signature_in_prefix(mm: MemberV, rms: Seq<MemberV>, m: int, n: int)
    requires
        0 <= m <= n <= rms.len(),
        signature_in(mm, rms, m),
    ensures
        signature_in(mm, rms, n),
    decreases n - m,
{
    if m < n {
        lemma_signature_in_prefix(mm, rms, m, n - 1);
    }
}

/// The sources that decide assignability before the target's shape is
/// looked at: unions, type parameters, `any` and `unknown`.
pub open spec fn decided_by_source(from: TypeV) -> bool {
    ||| from is Union
    ||| from is Param
    ||| from == TypeV::Keyword(Keyword::Any)
    ||| from == TypeV::Keyword(Keyword::Unknown)
}

/// Whether a value of type `from` may be used where `to` is expected.
pub open spec fn assignable_to(to: TypeV, from: TypeV) -> bool {
    assignable(to, from, 0)
}

} // verus!

verus! {

fn assign_failed(to: &Type, from: &Type, span: Span, cause: Vec<Error>) -> (r: Error)
    ensures
        r@ == (ErrorV::AssignFailed {
            span,
            left: to@,
            right: from@,
            cause: errors_model(cause@),
        }),
{
    Error::AssignFailed { span, left: to.deep_clone(), right: from.deep_clone(), cause }
}

fn fail(to: &Type, from: &Type, span: Span) -> (r: Result<(), Error>)
    ensures
        unit_result(&r) == Err::<(), ErrorV>(rejection(to@, from@, span)),
{
    let none: Vec<Error> = Vec::new();
    assert(errors_model(none@) =~= Seq::<ErrorV>::empty());
    Err(assign_failed(to, from, span, none))
}

/// The last resort of the dispatch: types that are the same once names are
/// forgotten are accepted; any other pair is reported as unsupported.
fn fallback(to: &Type, from: &Type, span: Span) -> (r: Result<(), Error>)
    ensures
        unit_result(&r) == last_resort(to@, from@, span),
{
    if to.eq_ignore_name_and_span(from) {
        Ok(())
    } else {
        let mut text = String::from_str("assigning ");
        let from_text = render(from);
        let to_text = render(to);
        text.append(from_text.as_str());
        text.append(" to ");
        text.append(to_text.as_str());
        text.append(" is not supported");
        assert(text@ =~= last_resort_text(to@, from@));
        Err(Error::Unsupported { span, description: text })
    }
}

fn object_accepts_exec(t: &Type) -> (r: bool)
    ensures
        r == object_accepts(t@),
{
    match t {
        Type::Keyword(Keyword::Number) | Type::Keyword(Keyword::String) => true,
        Type::Function(_) | Type::Constructor(_) | Type::Enum { .. } | Type::Class { .. }
        | Type::TypeLit(_) => true,
        _ => false,
    }
}

fn keyword_takes_lit_exec(k: Keyword, l: &Lit) -> (r: bool)
    ensures
        r == keyword_takes_lit(k, l@),
{
    match l {
        Lit::Str(_) => k == Keyword::String,
        Lit::Num(_) => k == Keyword::Number,
        Lit::Bool(_) => k == Keyword::Boolean,
    }
}

/// Every branch of a union source must be accepted; the causes of all
/// rejected branches are kept.
fn assign_from_each(to: &Type, bs: &Vec<Type>, span: Span) -> (r: Result<(), Error>)
    ensures
        r is Ok <==> accepts_each(to@, types_model(bs@), bs@.len() as int),
        unit_result(&r) == ({
            let es = source_errors(to@, types_model(bs@), span, bs@.len() as int);
            if es.len() == 0 {
                Ok::<(), ErrorV>(())
            } else {
                Err(ErrorV::UnionError { span, errors: es })
            }
        }),
    decreases to, bs,
{
    let mut errors: Vec<Error> = Vec::new();
    let mut i: usize = 0;
    assert(errors_model(errors@) =~= Seq::<ErrorV>::empty());
    while i < bs.len()
        invariant
            i <= bs.len(),
            errors@.len() == 0 <==> accepts_each(to@, types_model(bs@), i as int),
            errors_model(errors@) == source_errors(to@, types_model(bs@), span, i as int),
        decreases bs.len() - i,
    {
        proof {
            assert(decreases_to!(*bs => bs[i as int]));
        }
        let res = try_assign(to, &bs[i], span);
        assert(types_model(bs@)[i as int] == bs@[i as int]@);
        match res {
            Ok(()) => {},
            Err(e) => {
                let ghost before = errors@;
                errors.push(e);
                assert(errors_model(errors@) =~= errors_model(before).push(e@));
            },
        }
        i += 1;
    }
    assert(errors_model(errors@).len() == errors@.len());
    if errors.len() == 0 {
        Ok(())
    } else {
        Err(Error::UnionError { span, errors })
    }
}

/// An array target takes a tuple whose every element its element type accepts.
fn assign_elem_from_each(t: &Type, ss: &Vec<Type>, span: Span) -> (r: Result<(), Error>)
    ensures
        r is Ok <==> accepts_each(t@, types_model(ss@), ss@.len() as int),
        unit_result(&r) == first_rejection(t@, types_model(ss@), span, ss@.len() as int),
    decreases t, ss,
{
    let mut i: usize = 0;
    while i < ss.len()
        invariant
            i <= ss.len(),
            accepts_each(t@, types_model(ss@), i as int),
            first_rejection(t@, types_model(ss@), span, i as int) == Ok::<(), ErrorV>(()),
        decreases ss.len() - i,
    {
        proof {
            assert(decreases_to!(*ss => ss[i as int]));
        }
        let res = try_assign(t, &ss[i], span);
        assert(types_model(ss@)[i as int] == ss@[i as int]@);
        match res {
            Ok(()) => {},
            Err(e) => {
                proof {
                    if accepts_each(t@, types_model(ss@), ss@.len() as int) {
                        lemma_accepts_each_prefix(
                            t@,
                            types_model(ss@),
                            i + 1,
                            ss@.len() as int,
                        );
                    }
                    lemma_first_rejection_stays(t@, types_model(ss@), span, i + 1, ss@.len() as int);
                }
                return Err(e);
            },
        }
        i += 1;
    }
    Ok(())
}

/// A union target accepts what one of its branches accepts; when none does,
/// the causes of all branches are kept.
fn assign_to_some(ts: &Vec<Type>, from: &Type, span: Span) -> (r: Result<(), Error>)
    ensures
        r is Ok <==> some_accepts(types_model(ts@), from@, ts@.len() as int),
        unit_result(&r) == match target_outcome(types_model(ts@), from@, span, ts@.len() as int) {
            Ok(_) => Ok::<(), ErrorV>(()),
            Err(es) => Err(ErrorV::UnionError { span, errors: es }),
        },
    decreases ts, from,
{
    let mut errors: Vec<Error> = Vec::new();
    let mut i: usize = 0;
    assert(errors_model(errors@) =~= Seq::<ErrorV>::empty());
    while i < ts.len()
        invariant
            i <= ts.len(),
            !some_accepts(types_model(ts@), from@, i as int),
            target_outcome(types_model(ts@), from@, span, i as int) == Err::<(), Seq<ErrorV>>(
                errors_model(errors@),
            ),
        decreases ts.len() - i,
    {
        proof {
            assert(decreases_to!(*ts => ts[i as int]));
        }
        let res = try_assign(&ts[i], from, span);
        assert(types_model(ts@)[i as int] == ts@[i as int]@);
        match res {
            Ok(()) => {
                proof {
                    lemma_some_accepts_prefix(types_model(ts@), from@, i + 1, ts@.len() as int);
                    lemma_target_outcome_stays(types_model(ts@), from@, span, i + 1, ts@.len() as int);
                }
                return Ok(());
            },
            Err(e) => {
                let ghost before = errors@;
                errors.push(e);
                assert(errors_model(errors@) =~= errors_model(before).push(e@));
            },
        }
        i += 1;
    }
    Err(Error::UnionError { span, errors })
}

/// An intersection target needs every branch to accept; the first rejection
/// is reported.
fn assign_to_each(ts: &Vec<Type>, from: &Type, span: Span) -> (r: Result<(), Error>)
    ensures
        r is Ok <==> each_accepts(types_model(ts@), from@, ts@.len() as int),
        unit_result(&r) == match first_branch_rejection(
            types_model(ts@),
            from@,
            span,
            ts@.len() as int,
        ) {
            Ok(_) => Ok::<(), ErrorV>(()),
            Err(e) => Err(ErrorV::IntersectionError { span, error: Box::new(e) }),
        },
    decreases ts, from,
{
    let mut i: usize = 0;
    while i < ts.len()
        invariant
            i <= ts.len(),
            each_accepts(types_model(ts@), from@, i as int),
            first_branch_rejection(types_model(ts@), from@, span, i as int) == Ok::<(), ErrorV>(()),
        decreases ts.len() - i,
    {
        proof {
            assert(decreases_to!(*ts => ts[i as int]));
        }
        let res = try_assign(&ts[i], from, span);
        assert(types_model(ts@)[i as int] == ts@[i as int]@);
        match res {
            Ok(()) => {},
            Err(e) => {
                proof {
                    if each_accepts(types_model(ts@), from@, ts@.len() as int) {
                        lemma_each_accepts_prefix(types_model(ts@), from@, i + 1, ts@.len() as int);
                    }
                    lemma_first_branch_rejection_stays(
                        types_model(ts@),
                        from@,
                        span,
                        i + 1,
                        ts@.len() as int,
                    );
                }
                return Err(Error::IntersectionError { span, error: Box::new(e) });
            },
        }
        i += 1;
    }
    Ok(())
}

/// Element-wise assignment of tuples of one length; a rejected pair is let
/// through where the source element is `undefined`.
fn assign_tuple(ts: &Vec<Type>, ss: &Vec<Type>, to: &Type, from: &Type, span: Span) -> (r: Result<
    (),
    Error,
>)
    ensures
        r is Ok <==> (ts@.len() == ss@.len() && pairs_accepted(
            types_model(ts@),
            types_model(ss@),
            ts@.len() as int,
        )),
        unit_result(&r) == if ts@.len() != ss@.len() {
            Err::<(), ErrorV>(rejection(to@, from@, span))
        } else {
            first_pair_rejection(types_model(ts@), types_model(ss@), span, ts@.len() as int)
        },
    decreases ts, ss,
{
    if ts.len() != ss.len() {
        return fail(to, from, span);
    }
    let mut i: usize = 0;
    while i < ts.len()
        invariant
            i <= ts.len(),
            ts@.len() == ss@.len(),
            pairs_accepted(types_model(ts@), types_model(ss@), i as int),
            first_pair_rejection(types_model(ts@), types_model(ss@), span, i as int) == Ok::<
                (),
                ErrorV,
            >(()),
        decreases ts.len() - i,
    {
        proof {
            assert(decreases_to!(*ts => ts[i as int]));
        }
        let res = try_assign(&ts[i], &ss[i], span);
        assert(types_model(ts@)[i as int] == ts@[i as int]@);
        assert(types_model(ss@)[i as int] == ss@[i as int]@);
        match res {
            Ok(()) => {},
            Err(e) => {
                match &ss[i] {
                    Type::Keyword(Keyword::Undefined) => {},
                    _ => {
                        proof {
                            if pairs_accepted(types_model(ts@), types_model(ss@), ts@.len() as int) {
                                lemma_pairs_accepted_prefix(
                                    types_model(ts@),
                                    types_model(ss@),
                                    i + 1,
                                    ts@.len() as int,
                                );
                            }
                            lemma_first_pair_rejection_stays(
                                types_model(ts@),
                                types_model(ss@),
                                span,
                                i + 1,
                                ts@.len() as int,
                            );
                        }
                        return Err(e);
                    },
                }
            },
        }
        i += 1;
    }
    Ok(())
}

/// Looks for a member of `rms` that satisfies `m`. `Ok(true)` when one is
/// found; `Ok(false)` when none has its key or shape. When properties of its
/// key exist but none has a type that `m`'s type accepts, the first rejection
/// is reported as `AssignFailed` between the two property types.
fn find_member(m: &Member, rms: &Vec<Member>, span: Span) -> (r: Result<bool, Error>)
    ensures
        (r matches Ok(b) && b) <==> member_found(m@, members_model(rms@), 0),
        r is Err ==> r->Err_0 is AssignFailed,
        match r {
            Ok(b) => member_result(m@, members_model(rms@), span, 0) == Ok::<bool, ErrorV>(b),
            Err(e) => member_result(m@, members_model(rms@), span, 0) == Err::<bool, ErrorV>(e@),
        },
    decreases m, rms,
{
    let ghost rv = members_model(rms@);
    match m {
        Member::Property { key, ty, .. } => {
            let mut first_err: Option<Error> = None;
            let mut k: usize = 0;
            proof {
                assert(decreases_to!(*m => (*m)->Property_ty));
            }
            while k < rms.len()
                invariant
                    k <= rms.len(),
                    decreases_to!(*m => *ty),
                    first_err matches Some(e) ==> e is AssignFailed,
                    rv == members_model(rms@),
                    m@ matches MemberV::Property { key: mk, ty: mt, .. } && mk == key@ && mt
                        == opt_type_model(ty),
                    !property_in(opt_type_model(ty), key@, rv, k as int),
                    property_scan(opt_type_model(ty), key@, rv, span, k as int) == (
                        false,
                        opt_error(first_err),
                    ),
                decreases rms.len() - k,
            {
                assert(rv[k as int] == rms@[k as int]@);
                match &rms[k] {
                    Member::Property { key: rk, ty: rty, .. } => {
                        if key_eq(key, rk) {
                            match (ty, rty) {
                                (Some(a), Some(b)) => {
                                    proof {
                                        assert(decreases_to!(*ty => (*ty)->0));
                                    }
                                    match try_assign(a, b, span) {
                                        Ok(()) => {
                                            proof {
                                                lemma_property_in_prefix(
                                                    opt_type_model(ty),
                                                    key@,
                                                    rv,
                                                    k + 1,
                                                    rv.len() as int,
                                                );
                                                lemma_property_scan_stays(
                                                    opt_type_model(ty),
                                                    key@,
                                                    rv,
                                                    span,
                                                    k + 1,
                                                    rv.len() as int,
                                                );
                                            }
                                            return Ok(true);
                                        },
                                        Err(e) => {
                                            if first_err.is_none() {
                                                let ghost ev = e@;
                                                let mut cause: Vec<Error> = Vec::new();
                                                cause.push(e);
                                                assert(errors_model(cause@) =~= seq![ev]);
                                                first_err = Some(assign_failed(a, b, span, cause));
                                            }
                                        },
                                    }
                                },
                                _ => {
                                    proof {
                                        lemma_property_in_prefix(
                                            opt_type_model(ty),
                                            key@,
                                            rv,
                                            k + 1,
                                            rv.len() as int,
                                        );
                                        lemma_property_scan_stays(
                                            opt_type_model(ty),
                                            key@,
                                            rv,
                                            span,
                                            k + 1,
                                            rv.len() as int,
                                        );
                                    }
                                    return Ok(true);
                                },
                            }
                        }
                    },
                    _ => {},
                }
                k += 1;
            }
            match first_err {
                Some(e) => Err(e),
                None => Ok(false),
            }
        },
        Member::Method { key, .. } => {
            let mut k: usize = 0;
            while k < rms.len()
                invariant
                    k <= rms.len(),
                    rv == members_model(rms@),
                    m@ matches MemberV::Method { key: mk, .. } && mk == key@,
                    !method_in(key@, rv, k as int),
                decreases rms.len() - k,
            {
                assert(rv[k as int] == rms@[k as int]@);
                match &rms[k] {
                    Member::Method { key: rk, .. } => {
                        if key_eq(key, rk) {
                            proof {
                                lemma_method_in_prefix(key@, rv, k + 1, rv.len() as int);
                            }
                            return Ok(true);
                        }
                    },
                    _ => {},
                }
                k += 1;
            }
            Ok(false)
        },
        _ => {
            let mut k: usize = 0;
            while k < rms.len()
                invariant
                    k <= rms.len(),
                    rv == members_model(rms@),
                    !(m@ is Property),
                    !(m@ is Method),
                    !signature_in(m@, rv, k as int),
                decreases rms.len() - k,
            {
                assert(rv[k as int] == rms@[k as int]@);
                if rms[k].eq_ignore_name_and_span(m) {
                    proof {
                        lemma_signature_in_prefix(m@, rv, k + 1, rv.len() as int);
                    }
                    return Ok(true);
                }
                k += 1;
            }
            Ok(false)
        },
    }
}

/// Structural match of object shapes: every member of `ms` must be found in
/// `rms`. Members without a counterpart are reported together.
fn assign_members(ms: &Vec<Member>, rms: &Vec<Member>, span: Span) -> (r: Result<(), Error>)
    ensures
        r is Ok <==> members_found(members_model(ms@), members_model(rms@), ms@.len() as int),
        r matches Err(Error::MissingFields { fields, .. }) ==> members_model(fields@)
            == missing_members(members_model(ms@), members_model(rms@), ms@.len() as int),
        unit_result(&r) == missing_outcome(
            missing_or_error(members_model(ms@), members_model(rms@), span, ms@.len() as int),
            span,
        ),
    decreases ms, rms,
{
    let ghost mv = members_model(ms@);
    let ghost rv = members_model(rms@);
    let mut missing: Vec<Member> = Vec::new();
    let mut i: usize = 0;
    while i < ms.len()
        invariant
            i <= ms.len(),
            mv == members_model(ms@),
            rv == members_model(rms@),
            missing@.len() == 0 <==> members_found(mv, rv, i as int),
            members_model(missing@) == missing_members(mv, rv, i as int),
            missing_or_error(mv, rv, span, i as int) == Ok::<Seq<MemberV>, ErrorV>(
                members_model(missing@),
            ),
        decreases ms.len() - i,
    {
        proof {
            assert(decreases_to!(*ms => ms[i as int]));
        }
        let res = find_member(&ms[i], rms, span);
        assert(mv[i as int] == ms@[i as int]@);
        match res {
            Ok(true) => {},
            Ok(false) => {
                let ghost before = missing@;
                let m = ms[i].deep_clone();
                missing.push(m);
                assert(members_model(missing@) =~= members_model(before).push(m@));
            },
            Err(e) => {
                proof {
                    if members_found(mv, rv, ms@.len() as int) {
                        lemma_members_found_prefix(mv, rv, i + 1, ms@.len() as int);
                    }
                    lemma_missing_or_error_stays(mv, rv, span, i + 1, ms@.len() as int);
                }
                return Err(e);
            },
        }
        i += 1;
    }
    assert(members_model(missing@).len() == missing@.len());
    if missing.len() == 0 {
        Ok(())
    } else {
        Err(Error::MissingFields { span, fields: missing })
    }
}

fn try_assign(to: &Type, from: &Type, span: Span) -> (r: Result<(), Error>)
    ensures
        r is Ok <==> assignable(to@, from@, 0),
        unit_result(&r) == assign_result(to@, from@, span, 0),
        shape_members(to@) is Some && shape_members(from@) is Some ==> (r matches Err(
            Error::MissingFields { fields, .. },
        ) ==> members_model(fields@) == missing_members(
            shape_members(to@)->0,
            shape_members(from@)->0,
            shape_members(to@)->0.len() as int,
        )),
        r is Err && from@ is Union ==> r->Err_0 is UnionError,
        to@ == TypeV::This && !decided_by_source(from@) ==> r matches Err(
            Error::CannotAssignToThis { .. },
        ),
    decreases to, from,
{
    match to {
        Type::Keyword(Keyword::Any) | Type::Keyword(Keyword::Unknown) => {
            return Ok(());
        },
        _ => {},
    }
    match from {
        Type::Union(bs) => {
            assert(types_model(bs@).len() == bs@.len());
            return assign_from_each(to, bs, span);
        },
        Type::Keyword(Keyword::Any) => {
            return Ok(());
        },
        Type::Keyword(Keyword::Unknown) => {
            return match to {
                Type::Keyword(Keyword::Undefined) => Ok(()),
                _ => fail(to, from, span),
            };
        },
        Type::Param { name, constraint } => {
            match to {
                Type::Param { name: n, .. } => {
                    if str_eq(n, name) {
                        return Ok(());
                    }
                },
                _ => {},
            }
            return match constraint {
                Some(c) => try_assign(to, c, span),
                None => match to {
                    Type::TypeLit(ms) => if ms.len() == 0 {
                        assert(members_model(ms@) =~= Seq::<MemberV>::empty());
                        Ok(())
                    } else {
                        assert(members_model(ms@).len() == ms@.len());
                        fail(to, from, span)
                    },
                    _ => fail(to, from, span),
                },
            };
        },
        _ => {},
    }
    match to {
        Type::Array(t) => match from {
            Type::Array(s) => match try_assign(t, s, span) {
                Ok(()) => Ok(()),
                Err(cause) => {
                    let ghost cv = cause@;
                    let mut causes: Vec<Error> = Vec::new();
                    causes.push(cause);
                    assert(errors_model(causes@) =~= seq![cv]);
                    Err(assign_failed(to, from, span, causes))
                },
            },
            Type::Tuple(ss) => {
                assert(types_model(ss@).len() == ss@.len());
                assign_elem_from_each(t, ss, span)
            },
            _ => fail(to, from, span),
        },
        Type::Union(ts) => {
            assert(types_model(ts@).len() == ts@.len());
            assign_to_some(ts, from, span)
        },
        Type::Intersection(ts) => {
            assert(types_model(ts@).len() == ts@.len());
            assign_to_each(ts, from, span)
        },
        Type::Keyword(Keyword::Object) => {
            if object_accepts_exec(from) {
                Ok(())
            } else {
                fallback(to, from, span)
            }
        },
        Type::Keyword(k) => {
            let ok = match from {
                Type::Keyword(fk) => *fk == *k,
                Type::Lit(l) => keyword_takes_lit_exec(*k, l),
                _ => false,
            };
            if ok {
                Ok(())
            } else {
                fail(to, from, span)
            }
        },
        Type::Enum { name, .. } => match from {
            Type::EnumVariant { enum_name, .. } => if str_eq(enum_name, name) {
                Ok(())
            } else {
                fail(to, from, span)
            },
            _ => fail(to, from, span),
        },
        Type::EnumVariant { enum_name, name } => match from {
            Type::EnumVariant { enum_name: e2, name: n2 } => if str_eq(enum_name, e2) && str_eq(
                name,
                n2,
            ) {
                Ok(())
            } else {
                fail(to, from, span)
            },
            _ => fail(to, from, span),
        },
        Type::This => Err(Error::CannotAssignToThis { span }),
        Type::TypeLit(ms) | Type::Interface { members: ms, .. } => match from {
            Type::TypeLit(rms) | Type::Interface { members: rms, .. } => {
                assert(members_model(ms@).len() == ms@.len());
                assign_members(ms, rms, span)
            },
            Type::Tuple(_) | Type::Array(_) | Type::Lit(_) => fail(to, from, span),
            _ => fallback(to, from, span),
        },
        Type::Lit(l) => match from {
            Type::Lit(l2) => if lit_eq(l, l2) {
                Ok(())
            } else {
                fail(to, from, span)
            },
            _ => fail(to, from, span),
        },
        Type::Function(sig) => {
            if sig.type_params.is_none() {
                match from {
                    Type::Function(fs) => if fs.type_params.is_none() {
                        assert(to@ == TypeV::Function(sig@) && from@ == TypeV::Function(fs@));
                        assert(*sig@.ret == (*sig.ret)@ && *fs@.ret == (*fs.ret)@);
                        try_assign(&sig.ret, &fs.ret, span)
                    } else {
                        fail(to, from, span)
                    },
                    _ => fail(to, from, span),
                }
            } else {
                fallback(to, from, span)
            }
        },
        Type::Constructor(sig) => {
            if sig.type_params.is_none() {
                match from {
                    Type::Constructor(fs) => if fs.type_params.is_none() {
                        assert(to@ == TypeV::Constructor(sig@) && from@ == TypeV::Constructor(fs@));
                        assert(*sig@.ret == (*sig.ret)@ && *fs@.ret == (*fs.ret)@);
                        try_assign(&sig.ret, &fs.ret, span)
                    } else {
                        fail(to, from, span)
                    },
                    _ => fail(to, from, span),
                }
            } else {
                assert(to@ == TypeV::Constructor(sig@) && sig@.type_params is Some);
                fallback(to, from, span)
            }
        },
        Type::Tuple(ts) => match from {
            Type::Tuple(ss) => {
                assert(types_model(ts@).len() == ts@.len());
                assert(types_model(ss@).len() == ss@.len());
                assign_tuple(ts, ss, to, from, span)
            },
            _ => fallback(to, from, span),
        },
        _ => fallback(to, from, span),
    }
}

} // verus!

verus! {

/// Decides whether a value of type `from` may be used where `to` is
/// expected; the outcome, error included, is `assign_result`. On rejection the error holds the causes: a union source keeps
/// the error of every rejected branch, a union target the error of every
/// branch, an intersection target its first rejection, an object shape the
/// members it lacks; `this` as a target is never assignable.
pub fn assign(to: &Type, from: &Type, span: Span) -> (r: Result<(), Error>)
    ensures
        r is Ok <==> assignable_to(to@, from@),
        unit_result(&r) == assign_result(to@, from@, span, 0),
        shape_members(to@) is Some && shape_members(from@) is Some ==> (r matches Err(
            Error::MissingFields { fields, .. },
        ) ==> members_model(fields@) == missing_members(
            shape_members(to@)->0,
            shape_members(from@)->0,
            shape_members(to@)->0.len() as int,
        )),
        r is Err && from@ is Union ==> r->Err_0 is UnionError,
        to@ == TypeV::This && !decided_by_source(from@) ==> r matches Err(
            Error::CannotAssignToThis { .. },
        ),
{
    try_assign(to, from, span)
}

impl Type {
    /// Checks that this type may be used where `to` is expected. A rejection
    /// is always reported as `AssignFailed` naming both types: an error of
    /// another kind becomes its cause.
    pub fn assign_to(&self, to: &Type, span: Span) -> (r: Result<(), Error>)
        ensures
            r is Ok <==> assignable_to(to@, self@),
            r is Err ==> r->Err_0 is AssignFailed,
            unit_result(&r) == match assign_result(to@, self@, span, 0) {
                Ok(_) => Ok::<(), ErrorV>(()),
                Err(e) => if e is AssignFailed {
                    Err(e)
                } else {
                    Err(ErrorV::AssignFailed { span, left: to@, right: self@, cause: seq![e] })
                },
            },
    {
        match try_assign(to, self, span) {
            Ok(()) => Ok(()),
            Err(e) => match e {
                Error::AssignFailed { .. } => Err(e),
                _ => {
                    let ghost ev = e@;
                    let mut cause: Vec<Error> = Vec::new();
                    cause.push(e);
                    assert(errors_model(cause@) =~= seq![ev]);
                    Err(assign_failed(to, self, span, cause))
                },
            },
        }
    }
}

} // verus!
