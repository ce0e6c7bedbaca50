//! Signature resolution: the type that calling or constructing a value of a
//! given type yields, for a number of arguments and type arguments.
use vstd::prelude::*;
use crate::ast::{Arg, CallKind};
use crate::copy::{copy_sig, copy_type};
use crate::eq::key_eq;
use crate::error::{errors_model, type_result, Error, ErrorV, Span};
use crate::ty::{
    members_model, types_model, Key, KeyV, Keyword, Member, MemberV, Signature, SignatureV, Type,
    TypeV,
};

verus! {

pub open spec fn sigs_model(s: Seq<Signature>) -> Seq<SignatureV> {
    Seq::new(s.len(), |i: int| s[i]@)
}

pub open spec fn type_param_count(sig: SignatureV) -> int {
    match sig.type_params {
        Some(ps) => ps.len() as int,
        None => 0,
    }
}

/// The error of finding no signature of the kind asked for.
pub open spec fn no_signature_error(kind: CallKind, sp: Span) -> ErrorV {
    match kind {
        CallKind::Call => ErrorV::NoCallSignature { span: sp },
        CallKind::New => ErrorV::NoNewSignature { span: sp },
    }
}

/// The result of calling `sig` with `nargs` arguments and `ntargs` type
/// arguments: its declared return type, when no more type arguments are given
/// than it declares and no fewer arguments than it declares parameters.
/// Type parameters are not substituted.
pub open spec fn instantiated(sig: SignatureV, nargs: int, ntargs: int, sp: Span) -> Result<
    TypeV,
    ErrorV,
> {
    if ntargs > type_param_count(sig) {
        Err(ErrorV::WrongTypeParams { span: sp, start: 0, end: type_param_count(sig), actual: ntargs })
    } else if sig.params.len() > nargs {
        Err(ErrorV::WrongParams { span: sp, start: 0, end: sig.params.len() as int, actual: nargs })
    } else {
        Ok(*sig.ret)
    }
}

/// The signatures of the first `n` members that are call signatures (for a
/// call) or construct signatures (for a construction), in order.
pub open spec fn sigs_of_kind(ms: Seq<MemberV>, kind: CallKind, n: int) -> Seq<SignatureV>
    decreases n,
{
    if 0 < n <= ms.len() {
        let s = sigs_of_kind(ms, kind, n - 1);
        match ms[n - 1] {
            MemberV::Call(sig) => if kind == CallKind::Call {
                s.push(sig)
            } else {
                s
            },
            MemberV::Construct(sig) => if kind == CallKind::New {
                s.push(sig)
            } else {
                s
            },
            _ => s,
        }
    } else {
        Seq::empty()
    }
}

/// The signatures of the first `n` members that are methods with key `key`.
pub open spec fn methods_named(ms: Seq<MemberV>, key: KeyV, n: int) -> Seq<SignatureV>
    decreases n,
{
    if 0 < n <= ms.len() {
        let s = methods_named(ms, key, n - 1);
        match ms[n - 1] {
            MemberV::Method { key: k, sig } => if k == key {
                s.push(sig)
            } else {
                s
            },
            _ => s,
        }
    } else {
        Seq::empty()
    }
}

/// The first `n` signatures that declare exactly `nargs` parameters.
pub open spec fn of_arity(sigs: Seq<SignatureV>, nargs: int, n: int) -> Seq<SignatureV>
    decreases n,
{
    if 0 < n <= sigs.len() {
        let s = of_arity(sigs, nargs, n - 1);
        if sigs[n - 1].params.len() == nargs {
            s.push(sigs[n - 1])
        } else {
            s
        }
    } else {
        Seq::empty()
    }
}

/// The result of instantiating the chosen candidate: a candidate that does
/// not fit the call is a missing signature of the kind asked for, its own
/// error being dropped.
pub open spec fn candidate_result(sig: SignatureV, kind: CallKind, nargs: int, ntargs: int, sp: Span) -> Result<
    TypeV,
    ErrorV,
> {
    match instantiated(sig, nargs, ntargs, sp) {
        Ok(r) => Ok(r),
        Err(_) => Err(no_signature_error(kind, sp)),
    }
}

/// The result of choosing among candidate signatures: none is a missing
/// signature of the kind asked for; a single one is instantiated; among
/// several, the one signature whose parameter count equals the argument
/// count is instantiated, and no such signature or more than one is
/// unsupported (an ambiguous overload). A chosen candidate that does not fit
/// the call is a missing signature of the kind asked for.
pub open spec fn resolved(sigs: Seq<SignatureV>, kind: CallKind, nargs: int, ntargs: int, sp: Span) -> Result<
    TypeV,
    ErrorV,
> {
    if sigs.len() == 0 {
        Err(no_signature_error(kind, sp))
    } else if sigs.len() == 1 {
        candidate_result(sigs[0], kind, nargs, ntargs, sp)
    } else {
        let m = of_arity(sigs, nargs, sigs.len() as int);
        if m.len() == 1 {
            candidate_result(m[0], kind, nargs, ntargs, sp)
        } else {
            Err(ErrorV::Unsupported { span: sp, description: "no single signature matches the arguments"@ })
        }
    }
}

/// The result of calling (or constructing) a value of type `t`: `any` gives
/// `any`; an object shape resolves among its call (or construct) signatures;
/// a function type can be called and a constructor type constructed; a union
/// gives the result of its first branch that succeeds, or, when none does, a
/// union error holding every branch's error in order; anything else has no
/// signature of the kind asked for.
pub open spec fn extracted(t: TypeV, kind: CallKind, nargs: int, ntargs: int, sp: Span, z: int) -> Result<
    TypeV,
    ErrorV,
>
    decreases t, z,
{
    match t {
        TypeV::Keyword(Keyword::Any) => Ok(TypeV::Keyword(Keyword::Any)),
        TypeV::TypeLit(ms) => resolved(sigs_of_kind(ms, kind, ms.len() as int), kind, nargs, ntargs, sp),
        TypeV::Interface { members, .. } => resolved(
            sigs_of_kind(members, kind, members.len() as int),
            kind,
            nargs,
            ntargs,
            sp,
        ),
        TypeV::Function(sig) => if kind == CallKind::Call {
            instantiated(sig, nargs, ntargs, sp)
        } else {
            Err(no_signature_error(kind, sp))
        },
        TypeV::Constructor(sig) => if kind == CallKind::New {
            instantiated(sig, nargs, ntargs, sp)
        } else {
            Err(no_signature_error(kind, sp))
        },
        TypeV::Union(ts) => match first_extracted(ts, kind, nargs, ntargs, sp, 0) {
            Ok(r) => Ok(r),
            Err(es) => Err(ErrorV::UnionError { span: sp, errors: es }),
        },
        _ => Err(no_signature_error(kind, sp)),
    }
}

/// Over the branches from `i` on: the first success, or all the errors.
pub open spec fn first_extracted(
    ts: Seq<TypeV>,
    kind: CallKind,
    nargs: int,
    ntargs: int,
    sp: Span,
    i: int,
) -> Result<TypeV, Seq<ErrorV>>
    decreases ts, ts.len() - i,
{
    if 0 <= i < ts.len() {
        match extracted(ts[i], kind, nargs, ntargs, sp, 0) {
            Ok(r) => Ok(r),
            Err(e) => prepend_errors(seq![e], first_extracted(ts, kind, nargs, ntargs, sp, i + 1)),
        }
    } else {
        Err(Seq::empty())
    }
}

pub open spec fn prepend_errors(p: Seq<ErrorV>, r: Result<TypeV, Seq<ErrorV>>) -> Result<
    TypeV,
    Seq<ErrorV>,
> {
    match r {
        Ok(x) => Ok(x),
        Err(es) => Err(p + es),
    }
}

fn no_signature(kind: CallKind, span: Span) -> (r: Error)
    ensures
        r@ == no_signature_error(kind, span),
{
    match kind {
        CallKind::Call => Error::NoCallSignature { span },
        CallKind::New => Error::NoNewSignature { span },
    }
}

/// Checks the argument counts against `sig` and yields its declared return
/// type; type parameters are not substituted.
pub fn try_instantiate(sig: &Signature, nargs: usize, ntargs: usize, span: Span) -> (r: Result<
    Type,
    Error,
>)
    ensures
        type_result(&r) == instantiated(sig@, nargs as int, ntargs as int, span),
{
    let ntp: usize = match &sig.type_params {
        Some(ps) => ps.len(),
        None => 0,
    };
    assert(ntp == type_param_count(sig@)) by {
        if let Some(ps) = &sig.type_params {
            assert(crate::ty::type_params_model(ps@).len() == ps@.len());
        }
    }
    assert(crate::ty::params_model(sig.params@).len() == sig.params@.len());
    if ntargs > ntp {
        return Err(
            Error::WrongTypeParams {
                span,
                expected: std::ops::Range { start: 0, end: ntp },
                actual: ntargs,
            },
        );
    }
    if sig.params.len() > nargs {
        return Err(
            Error::WrongParams {
                span,
                expected: std::ops::Range { start: 0, end: sig.params.len() },
                actual: nargs,
            },
        );
    }
    Ok(copy_type(&sig.ret))
}

fn signatures_of_kind(ms: &Vec<Member>, kind: CallKind) -> (r: Vec<Signature>)
    ensures
        sigs_model(r@) == sigs_of_kind(members_model(ms@), kind, ms@.len() as int),
{
    let ghost mv = members_model(ms@);
    let mut out: Vec<Signature> = Vec::new();
    let mut i: usize = 0;
    while i < ms.len()
        invariant
            i <= ms.len(),
            mv == members_model(ms@),
            sigs_model(out@) == sigs_of_kind(mv, kind, i as int),
        decreases ms.len() - i,
    {
        assert(mv[i as int] == ms@[i as int]@);
        let ghost before = out@;
        match &ms[i] {
            Member::Call(sig) => if kind == CallKind::Call {
                out.push(copy_sig(sig));
                assert(sigs_model(out@) =~= sigs_model(before).push(sig@));
            },
            Member::Construct(sig) => if kind == CallKind::New {
                out.push(copy_sig(sig));
                assert(sigs_model(out@) =~= sigs_model(before).push(sig@));
            },
            _ => {},
        }
        i += 1;
    }
    out
}

pub(crate) fn methods_with_key(ms: &Vec<Member>, key: &Key) -> (r: Vec<Signature>)
    ensures
        sigs_model(r@) == methods_named(members_model(ms@), key@, ms@.len() as int),
{
    let ghost mv = members_model(ms@);
    let mut out: Vec<Signature> = Vec::new();
    let mut i: usize = 0;
    while i < ms.len()
        invariant
            i <= ms.len(),
            mv == members_model(ms@),
            sigs_model(out@) == methods_named(mv, key@, i as int),
        decreases ms.len() - i,
    {
        assert(mv[i as int] == ms@[i as int]@);
        let ghost before = out@;
        match &ms[i] {
            Member::Method { key: k, sig } => if key_eq(k, key) {
                out.push(copy_sig(sig));
                assert(sigs_model(out@) =~= sigs_model(before).push(sig@));
            },
            _ => {},
        }
        i += 1;
    }
    out
}

/// Chooses among candidate signatures (see `resolved`). No candidate is
/// reported as a missing call or construct signature; an ambiguity is
/// reported as unsupported.
pub fn resolve(sigs: &Vec<Signature>, kind: CallKind, nargs: usize, ntargs: usize, span: Span) -> (r:
    Result<Type, Error>)
    ensures
        type_result(&r) == resolved(sigs_model(sigs@), kind, nargs as int, ntargs as int, span),
{
    let ghost sv = sigs_model(sigs@);
    if sigs.len() == 0 {
        return Err(no_signature(kind, span));
    }
    if sigs.len() == 1 {
        return match try_instantiate(&sigs[0], nargs, ntargs, span) {
            Ok(t) => Ok(t),
            Err(_) => Err(no_signature(kind, span)),
        };
    }
    let mut found: Option<usize> = None;
    let mut count: usize = 0;
    let mut i: usize = 0;
    while i < sigs.len()
        invariant
            i <= sigs.len(),
            sv == sigs_model(sigs@),
            count == of_arity(sv, nargs as int, i as int).len(),
            count <= i,
            count >= 1 ==> (found matches Some(j) && j < sigs@.len() && of_arity(
                sv,
                nargs as int,
                i as int,
            )[0] == sv[j as int]),
        decreases sigs.len() - i,
    {
        assert(crate::ty::params_model(sigs@[i as int].params@).len() == sigs@[i as int].params@.len());
        if sigs[i].params.len() == nargs {
            if count == 0 {
                found = Some(i);
            }
            count += 1;
        }
        i += 1;
    }
    if count == 1 {
        match found {
            Some(j) => match try_instantiate(&sigs[j], nargs, ntargs, span) {
                Ok(t) => Ok(t),
                Err(_) => Err(no_signature(kind, span)),
            },
            None => Err(no_signature(kind, span)),
        }
    } else {
        Err(
            Error::Unsupported {
                span,
                description: String::from_str("no single signature matches the arguments"),
            },
        )
    }
}

pub(crate) fn extract_n(t: &Type, kind: CallKind, nargs: usize, ntargs: usize, span: Span) -> (r:
    Result<Type, Error>)
    ensures
        type_result(&r) == extracted(t@, kind, nargs as int, ntargs as int, span, 0),
    decreases t,
{
    match t {
        Type::Keyword(Keyword::Any) => Ok(Type::Keyword(Keyword::Any)),
        Type::TypeLit(ms) | Type::Interface { members: ms, .. } => {
            let sigs = signatures_of_kind(ms, kind);
            resolve(&sigs, kind, nargs, ntargs, span)
        },
        Type::Function(sig) => if kind == CallKind::Call {
            try_instantiate(sig, nargs, ntargs, span)
        } else {
            Err(no_signature(kind, span))
        },
        Type::Constructor(sig) => if kind == CallKind::New {
            try_instantiate(sig, nargs, ntargs, span)
        } else {
            Err(no_signature(kind, span))
        },
        Type::Union(ts) => extract_first(ts, kind, nargs, ntargs, span),
        _ => Err(no_signature(kind, span)),
    }
}

/// Tries each branch in order and yields the first success; when every branch
/// fails, their errors are kept together.
fn extract_first(ts: &Vec<Type>, kind: CallKind, nargs: usize, ntargs: usize, span: Span) -> (r:
    Result<Type, Error>)
    ensures
        type_result(&r) == match first_extracted(
            types_model(ts@),
            kind,
            nargs as int,
            ntargs as int,
            span,
            0,
        ) {
            Ok(x) => Ok(x),
            Err(es) => Err(ErrorV::UnionError { span, errors: es }),
        },
    decreases ts,
{
    let ghost tv = types_model(ts@);
    let mut errors: Vec<Error> = Vec::new();
    let mut i: usize = 0;
    proof {
        assert(errors_model(errors@) =~= Seq::<ErrorV>::empty());
        let r0 = first_extracted(tv, kind, nargs as int, ntargs as int, span, 0);
        if let Err(es) = r0 {
            assert(Seq::<ErrorV>::empty() + es =~= es);
        }
    }
    while i < ts.len()
        invariant
            i <= ts.len(),
            tv == types_model(ts@),
            first_extracted(tv, kind, nargs as int, ntargs as int, span, 0) == prepend_errors(
                errors_model(errors@),
                first_extracted(tv, kind, nargs as int, ntargs as int, span, i as int),
            ),
        decreases ts.len() - i,
    {
        proof {
            assert(decreases_to!(*ts => ts[i as int]));
        }
        assert(tv[i as int] == ts@[i as int]@);
        match extract_n(&ts[i], kind, nargs, ntargs, span) {
            Ok(x) => {
                return Ok(x);
            },
            Err(e) => {
                let ghost before = errors@;
                errors.push(e);
                proof {
                    assert(errors_model(errors@) =~= errors_model(before).push(e@));
                    let rest = first_extracted(tv, kind, nargs as int, ntargs as int, span, i + 1);
                    if let Err(es) = rest {
                        assert(errors_model(before) + (seq![e@] + es) =~= errors_model(errors@)
                            + es);
                    }
                }
            },
        }
        i += 1;
    }
    proof {
        assert(errors_model(errors@) + Seq::<ErrorV>::empty() =~= errors_model(errors@));
    }
    Err(Error::UnionError { span, errors })
}

/// The type that calling (`kind` is `Call`) or constructing (`New`) a value
/// of type `ty` with `args` and `type_args` yields. `any` yields `any`; an
/// object shape is resolved among its call or construct signatures; a union
/// yields the result of its first branch that can be called so.
pub fn extract(ty: &Type, kind: CallKind, args: &Vec<Arg>, type_args: &Option<Vec<Type>>, span: Span) -> (r:
    Result<Type, Error>)
    ensures
        type_result(&r) == extracted(
            ty@,
            kind,
            args@.len() as int,
            match type_args {
                Some(v) => v@.len() as int,
                None => 0,
            },
            span,
            0,
        ),
{
    let ntargs: usize = match type_args {
        Some(v) => v.len(),
        None => 0,
    };
    extract_n(ty, kind, args.len(), ntargs, span)
}

} // verus!
