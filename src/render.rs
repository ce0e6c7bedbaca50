//! A textual rendering of types, for diagnostics.
use vstd::prelude::*;
use crate::ty::{
    members_model, params_model, types_model, Keyword, Lit, LitV, Member, MemberV, Param, ParamV,
    Pat, PatV, Signature, SignatureV, Type, TypeV,
};

verus! {

pub open spec fn keyword_name(k: Keyword) -> Seq<char> {
    match k {
        Keyword::Any => "any"@,
        Keyword::Unknown => "unknown"@,
        Keyword::Number => "number"@,
        Keyword::Object => "object"@,
        Keyword::Boolean => "boolean"@,
        Keyword::BigInt => "bigint"@,
        Keyword::String => "string"@,
        Keyword::Symbol => "symbol"@,
        Keyword::Void => "void"@,
        Keyword::Undefined => "undefined"@,
        Keyword::Null => "null"@,
        Keyword::Never => "never"@,
    }
}

/// The name a parameter pattern is shown by: its identifier, `...` for a
/// rest pattern, `_` for a destructuring pattern.
pub open spec fn pat_name(p: PatV) -> Seq<char> {
    match p {
        PatV::Ident(n) => n,
        PatV::Rest(_) => "..."@,
        _ => "_"@,
    }
}

/// The text of a type: keywords by name, literals as written (a number
/// literal as `number literal`), `T[]`, `[A, B]`, `(A | B)`, `(A & B)`,
/// `{ k: T; }`, `(x: T) => R`, and named types by their names.
pub open spec fn rendered(t: TypeV, z: int) -> Seq<char>
    decreases t, z,
{
    match t {
        TypeV::Keyword(k) => keyword_name(k),
        TypeV::Lit(LitV::Bool(b)) => if b {
            "true"@
        } else {
            "false"@
        },
        TypeV::Lit(LitV::Num(_)) => "number literal"@,
        TypeV::Lit(LitV::Str(s)) => "\""@ + s + "\""@,
        TypeV::Array(e) => rendered(*e, 0) + "[]"@,
        TypeV::Tuple(ts) => "["@ + joined(ts, ", "@, ts.len() as int) + "]"@,
        TypeV::Union(ts) => "("@ + joined(ts, " | "@, ts.len() as int) + ")"@,
        TypeV::Intersection(ts) => "("@ + joined(ts, " & "@, ts.len() as int) + ")"@,
        TypeV::TypeLit(ms) => "{ "@ + members_text(ms, ms.len() as int) + "}"@,
        TypeV::Interface { name, .. } => name,
        TypeV::Function(sig) => sig_text(sig, 0),
        TypeV::Constructor(sig) => "new "@ + sig_text(sig, 0),
        TypeV::Class { name, .. } => "class "@ + name,
        TypeV::Enum { name, .. } => "enum "@ + name,
        TypeV::EnumVariant { enum_name, name } => enum_name + "."@ + name,
        TypeV::Param { name, .. } => name,
        TypeV::This => "this"@,
        TypeV::Ref { name, args } => if args.len() == 0 {
            name
        } else {
            name + "<"@ + joined(args, ", "@, args.len() as int) + ">"@
        },
        TypeV::IndexedAccess { obj, index } => rendered(*obj, 0) + "["@ + rendered(*index, 0) + "]"@,
    }
}

/// The first `n` types, rendered and separated by `sep`.
pub open spec fn joined(ts: Seq<TypeV>, sep: Seq<char>, n: int) -> Seq<char>
    decreases ts, n,
{
    if 0 < n <= ts.len() {
        if n == 1 {
            rendered(ts[0], 0)
        } else {
            joined(ts, sep, n - 1) + sep + rendered(ts[n - 1], 0)
        }
    } else {
        Seq::empty()
    }
}

/// The first `n` members, each followed by `; `.
pub open spec fn members_text(ms: Seq<MemberV>, n: int) -> Seq<char>
    decreases ms, n,
{
    if 0 < n <= ms.len() {
        members_text(ms, n - 1) + member_text(ms[n - 1], 0) + "; "@
    } else {
        Seq::empty()
    }
}

pub open spec fn member_text(m: MemberV, z: int) -> Seq<char>
    decreases m, z,
{
    match m {
        MemberV::Property { key, ty, .. } => key.name + ": "@ + opt_text(ty, 0),
        MemberV::Method { key, sig } => key.name + sig_text(sig, 0),
        MemberV::Call(sig) => sig_text(sig, 0),
        MemberV::Construct(sig) => "new "@ + sig_text(sig, 0),
    }
}

/// A property's annotated type; a missing annotation is shown as `any`.
pub open spec fn opt_text(o: Option<TypeV>, z: int) -> Seq<char>
    decreases o, z,
{
    match o {
        Some(t) => rendered(t, 0),
        None => "any"@,
    }
}

pub open spec fn sig_text(s: SignatureV, z: int) -> Seq<char>
    decreases s, z,
{
    "("@ + params_text(s.params, s.params.len() as int) + ") => "@ + rendered(*s.ret, 0)
}

/// The first `n` parameters, separated by `, `.
pub open spec fn params_text(ps: Seq<ParamV>, n: int) -> Seq<char>
    decreases ps, n,
{
    if 0 < n <= ps.len() {
        if n == 1 {
            param_text(ps[0], 0)
        } else {
            params_text(ps, n - 1) + ", "@ + param_text(ps[n - 1], 0)
        }
    } else {
        Seq::empty()
    }
}

pub open spec fn param_text(p: ParamV, z: int) -> Seq<char>
    decreases p, z,
{
    match p.ty {
        Some(t) => pat_name(p.pat) + ": "@ + rendered(t, 0),
        None => pat_name(p.pat),
    }
}

fn keyword_str(k: Keyword) -> (r: &'static str)
    ensures
        r@ == keyword_name(k),
{
    match k {
        Keyword::Any => "any",
        Keyword::Unknown => "unknown",
        Keyword::Number => "number",
        Keyword::Object => "object",
        Keyword::Boolean => "boolean",
        Keyword::BigInt => "bigint",
        Keyword::String => "string",
        Keyword::Symbol => "symbol",
        Keyword::Void => "void",
        Keyword::Undefined => "undefined",
        Keyword::Null => "null",
        Keyword::Never => "never",
    }
}

fn pat_name_into(p: &Pat, out: &mut String)
    ensures
        final(out)@ == old(out)@ + pat_name(p@),
{
    match p {
        Pat::Ident(n) => out.append(n.as_str()),
        Pat::Rest(_) => out.append("..."),
        _ => out.append("_"),
    }
}

fn render_into(t: &Type, out: &mut String)
    ensures
        final(out)@ == old(out)@ + rendered(t@, 0),
    decreases t, 0int,
{
    let ghost start = out@;
    match t {
        Type::Keyword(k) => out.append(keyword_str(*k)),
        Type::Lit(Lit::Bool(b)) => if *b {
            out.append("true")
        } else {
            out.append("false")
        },
        Type::Lit(Lit::Num(_)) => out.append("number literal"),
        Type::Lit(Lit::Str(s)) => {
            out.append("\"");
            out.append(s.as_str());
            out.append("\"");
        },
        Type::Array(e) => {
            render_into(e, out);
            out.append("[]");
        },
        Type::Tuple(ts) => {
            out.append("[");
            joined_into(ts, ", ", out);
            out.append("]");
        },
        Type::Union(ts) => {
            out.append("(");
            joined_into(ts, " | ", out);
            out.append(")");
        },
        Type::Intersection(ts) => {
            out.append("(");
            joined_into(ts, " & ", out);
            out.append(")");
        },
        Type::TypeLit(ms) => {
            out.append("{ ");
            members_into(ms, out);
            out.append("}");
        },
        Type::Interface { name, .. } => out.append(name.as_str()),
        Type::Function(sig) => sig_into(sig, out),
        Type::Constructor(sig) => {
            out.append("new ");
            sig_into(sig, out);
        },
        Type::Class { name, .. } => {
            out.append("class ");
            out.append(name.as_str());
        },
        Type::Enum { name, .. } => {
            out.append("enum ");
            out.append(name.as_str());
        },
        Type::EnumVariant { enum_name, name } => {
            out.append(enum_name.as_str());
            out.append(".");
            out.append(name.as_str());
        },
        Type::Param { name, .. } => out.append(name.as_str()),
        Type::This => out.append("this"),
        Type::Ref { name, args } => {
            out.append(name.as_str());
            assert(types_model(args@).len() == args@.len());
            if args.len() > 0 {
                out.append("<");
                joined_into(args, ", ", out);
                out.append(">");
            }
        },
        Type::IndexedAccess { obj, index } => {
            render_into(obj, out);
            out.append("[");
            render_into(index, out);
            out.append("]");
        },
    }
    assert(out@ =~= start + rendered(t@, 0));
}

fn joined_into(ts: &Vec<Type>, sep: &str, out: &mut String)
    ensures
        final(out)@ == old(out)@ + joined(types_model(ts@), sep@, ts@.len() as int),
    decreases ts, 0int,
{
    let ghost start = out@;
    let ghost tv = types_model(ts@);
    let mut i: usize = 0;
    assert(start + joined(tv, sep@, 0) =~= start);
    while i < ts.len()
        invariant
            i <= ts.len(),
            tv == types_model(ts@),
            out@ == start + joined(tv, sep@, i as int),
        decreases ts.len() - i,
    {
        proof {
            assert(decreases_to!(*ts => ts[i as int]));
        }
        assert(tv[i as int] == ts@[i as int]@);
        let ghost before = out@;
        if i > 0 {
            out.append(sep);
        }
        render_into(&ts[i], out);
        if i == 0 {
            assert(joined(tv, sep@, 0) =~= Seq::<char>::empty());
            assert(out@ =~= start + joined(tv, sep@, 1));
        } else {
            assert(out@ =~= start + joined(tv, sep@, i + 1));
        }
        i += 1;
    }
}

fn members_into(ms: &Vec<Member>, out: &mut String)
    ensures
        final(out)@ == old(out)@ + members_text(members_model(ms@), ms@.len() as int),
    decreases ms, 0int,
{
    let ghost start = out@;
    let ghost mv = members_model(ms@);
    let mut i: usize = 0;
    assert(start + members_text(mv, 0) =~= start);
    while i < ms.len()
        invariant
            i <= ms.len(),
            mv == members_model(ms@),
            out@ == start + members_text(mv, i as int),
        decreases ms.len() - i,
    {
        proof {
            assert(decreases_to!(*ms => ms[i as int]));
        }
        assert(mv[i as int] == ms@[i as int]@);
        member_into(&ms[i], out);
        out.append("; ");
        assert(out@ =~= start + members_text(mv, i + 1));
        i += 1;
    }
}

fn member_into(m: &Member, out: &mut String)
    ensures
        final(out)@ == old(out)@ + member_text(m@, 0),
    decreases m, 0int,
{
    let ghost start = out@;
    match m {
        Member::Property { key, ty, .. } => {
            out.append(key.name.as_str());
            out.append(": ");
            match ty {
                Some(t) => render_into(t, out),
                None => out.append("any"),
            }
        },
        Member::Method { key, sig } => {
            out.append(key.name.as_str());
            sig_into(sig, out);
        },
        Member::Call(sig) => sig_into(sig, out),
        Member::Construct(sig) => {
            out.append("new ");
            sig_into(sig, out);
        },
    }
    assert(out@ =~= start + member_text(m@, 0));
}

fn sig_into(s: &Signature, out: &mut String)
    ensures
        final(out)@ == old(out)@ + sig_text(s@, 0),
    decreases s, 0int,
{
    let ghost start = out@;
    out.append("(");
    params_into(&s.params, out);
    out.append(") => ");
    render_into(&s.ret, out);
    assert(params_model(s.params@).len() == s.params@.len());
    assert(out@ =~= start + sig_text(s@, 0));
}

fn params_into(ps: &Vec<Param>, out: &mut String)
    ensures
        final(out)@ == old(out)@ + params_text(params_model(ps@), ps@.len() as int),
    decreases ps, 0int,
{
    let ghost start = out@;
    let ghost pv = params_model(ps@);
    let mut i: usize = 0;
    assert(start + params_text(pv, 0) =~= start);
    while i < ps.len()
        invariant
            i <= ps.len(),
            pv == params_model(ps@),
            out@ == start + params_text(pv, i as int),
        decreases ps.len() - i,
    {
        proof {
            assert(decreases_to!(*ps => ps[i as int]));
        }
        assert(pv[i as int] == ps@[i as int]@);
        if i > 0 {
            out.append(", ");
        }
        param_into(&ps[i], out);
        if i == 0 {
            assert(params_text(pv, 0) =~= Seq::<char>::empty());
            assert(out@ =~= start + params_text(pv, 1));
        } else {
            assert(out@ =~= start + params_text(pv, i + 1));
        }
        i += 1;
    }
}

fn param_into(p: &Param, out: &mut String)
    ensures
        final(out)@ == old(out)@ + param_text(p@, 0),
    decreases p, 0int,
{
    let ghost start = out@;
    pat_name_into(&p.pat, out);
    match &p.ty {
        Some(t) => {
            out.append(": ");
            render_into(t, out);
        },
        None => {},
    }
    assert(out@ =~= start + param_text(p@, 0));
}

/// The text of a type (see `rendered`).
pub fn render(t: &Type) -> (r: String)
    ensures
        r@ == rendered(t@, 0),
{
    let mut out = String::new();
    render_into(t, &mut out);
    assert(out@ =~= rendered(t@, 0));
    out
}

} // verus!
