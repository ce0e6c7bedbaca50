//! The lexical environment that inference reads: variables, resolved
//! imports, declared types and built-in defaults. Each is a list of named
//! entries in which the first entry of a name is the one that counts.
use vstd::prelude::*;
use crate::copy::{copy_members, copy_type};
use crate::error::{type_result, Error, ErrorV, Span};
use crate::ty::{members_model, Member, Type, TypeV};

verus! {

/// What a name exported by a module or declared as a type stands for.
pub enum ExportInfo {
    Type(Type),
    Interface(Vec<Member>),
    Alias(Type),
    Enum,
    Namespace,
    Module,
}

pub struct Scope {
    pub vars: Vec<(String, Type)>,
    pub imports: Vec<(String, ExportInfo)>,
    pub types: Vec<(String, ExportInfo)>,
    pub builtins: Vec<(String, Type)>,
}

/// The first index at or after `i` whose entry is named `name`.
pub open spec fn index_of<V>(v: Seq<(String, V)>, name: Seq<char>, i: int) -> Option<int>
    decreases v.len() - i,
{
    if 0 <= i < v.len() {
        if v[i].0@ == name {
            Some(i)
        } else {
            index_of(v, name, i + 1)
        }
    } else {
        None
    }
}

/// The type bound to `name` by the first entry of that name in `v`.
pub open spec fn bound_type(v: Seq<(String, Type)>, name: Seq<char>) -> Option<TypeV> {
    match index_of(v, name, 0) {
        Some(i) => Some(v[i].1@),
        None => None,
    }
}

/// The type that an export stands for, if it can be expanded in one step:
/// a recorded type (which takes no type arguments), an interface as its
/// object shape, or an alias as its aliased type.
pub open spec fn expanded(info: ExportInfo, has_type_args: bool) -> Option<TypeV> {
    match info {
        ExportInfo::Type(t) => if has_type_args {
            None
        } else {
            Some(t@)
        },
        ExportInfo::Interface(ms) => Some(TypeV::TypeLit(members_model(ms@))),
        ExportInfo::Alias(t) => Some(t@),
        _ => None,
    }
}

/// The type that a type name stands for: the first import of that name, else
/// the first declared type of that name.
pub open spec fn named_type(sc: Scope, name: Seq<char>, has_type_args: bool) -> Option<TypeV> {
    match index_of(sc.imports@, name, 0) {
        Some(i) => expanded(sc.imports@[i].1, has_type_args),
        None => match index_of(sc.types@, name, 0) {
            Some(i) => expanded(sc.types@[i].1, has_type_args),
            None => None,
        },
    }
}

/// The result of expanding an export at `sp`: an enum, a namespace, a module,
/// or a recorded type given type arguments, is not supported.
pub open spec fn expansion(info: ExportInfo, has_type_args: bool, sp: Span) -> Result<TypeV, ErrorV> {
    match expanded(info, has_type_args) {
        Some(t) => Ok(t),
        None => Err(
            ErrorV::Unsupported {
                span: sp,
                description: match info {
                    ExportInfo::Enum => "expansion of an enum"@,
                    ExportInfo::Namespace => "expansion of a namespace"@,
                    ExportInfo::Module => "expansion of a module"@,
                    _ => "type arguments for an exported type"@,
                },
            },
        ),
    }
}

/// The result of looking up a type name at `sp`: the expansion of its first
/// import, else of its first declared type; an undefined symbol at `sp` when
/// neither exists.
pub open spec fn named_result(sc: Scope, name: Seq<char>, has_type_args: bool, sp: Span) -> Result<
    TypeV,
    ErrorV,
> {
    match index_of(sc.imports@, name, 0) {
        Some(i) => expansion(sc.imports@[i].1, has_type_args, sp),
        None => match index_of(sc.types@, name, 0) {
            Some(i) => expansion(sc.types@[i].1, has_type_args, sp),
            None => Err(ErrorV::UndefinedSymbol { span: sp }),
        },
    }
}

/// The type that `expand` gives: a reference by name is looked up, any other
/// type is itself.
pub open spec fn expanded_type(sc: Scope, t: TypeV) -> Option<TypeV> {
    match t {
        TypeV::Ref { name, args } => named_type(sc, name, args.len() > 0),
        _ => Some(t),
    }
}

pub(crate) fn find_index<V>(v: &Vec<(String, V)>, name: &String) -> (r: Option<usize>)
    ensures
        r matches Some(i) ==> index_of(v@, name@, 0) == Some(i as int) && i < v@.len(),
        r is None ==> index_of(v@, name@, 0) is None,
{
    let mut i: usize = 0;
    while i < v.len()
        invariant
            i <= v.len(),
            index_of(v@, name@, 0) == index_of(v@, name@, i as int),
        decreases v.len() - i,
    {
        if v[i].0.eq(name) {
            return Some(i);
        }
        i += 1;
    }
    None
}

fn expand_info(info: &ExportInfo, has_type_args: bool, span: Span) -> (r: Result<Type, Error>)
    ensures
        type_result(&r) == expansion(*info, has_type_args, span),
{
    match info {
        ExportInfo::Type(t) => if has_type_args {
            Err(
                Error::Unsupported {
                    span,
                    description: String::from_str("type arguments for an exported type"),
                },
            )
        } else {
            Ok(copy_type(t))
        },
        ExportInfo::Interface(ms) => Ok(Type::TypeLit(copy_members(ms))),
        ExportInfo::Alias(t) => Ok(copy_type(t)),
        ExportInfo::Enum => Err(
            Error::Unsupported { span, description: String::from_str("expansion of an enum") },
        ),
        ExportInfo::Namespace => Err(
            Error::Unsupported { span, description: String::from_str("expansion of a namespace") },
        ),
        ExportInfo::Module => Err(
            Error::Unsupported { span, description: String::from_str("expansion of a module") },
        ),
    }
}

impl Scope {
    /// The type of the variable `name`, from its first entry.
    pub fn find_var_type(&self, name: &String) -> (r: Option<Type>)
        ensures
            match r {
                Some(t) => bound_type(self.vars@, name@) == Some(t@),
                None => bound_type(self.vars@, name@) is None,
            },
    {
        match find_index(&self.vars, name) {
            Some(i) => Some(copy_type(&self.vars[i].1)),
            None => None,
        }
    }

    /// The built-in default type of `name`, from its first entry.
    pub fn find_builtin(&self, name: &String) -> (r: Option<Type>)
        ensures
            match r {
                Some(t) => bound_type(self.builtins@, name@) == Some(t@),
                None => bound_type(self.builtins@, name@) is None,
            },
    {
        match find_index(&self.builtins, name) {
            Some(i) => Some(copy_type(&self.builtins[i].1)),
            None => None,
        }
    }

    /// The type that the type name `name` stands for, looked up among the
    /// imports and then the declared types. A name found in neither is an
    /// undefined symbol; a declaration that cannot be expanded in one step is
    /// unsupported.
    pub fn expand_export_info(&self, name: &String, has_type_args: bool, span: Span) -> (r: Result<
        Type,
        Error,
    >)
        ensures
            type_result(&r) == named_result(*self, name@, has_type_args, span),
            r is Ok <==> named_type(*self, name@, has_type_args) is Some,
            r matches Ok(t) ==> named_type(*self, name@, has_type_args) == Some(t@),
    {
        match find_index(&self.imports, name) {
            Some(i) => expand_info(&self.imports[i].1, has_type_args, span),
            None => match find_index(&self.types, name) {
                Some(i) => expand_info(&self.types[i].1, has_type_args, span),
                None => Err(Error::UndefinedSymbol { span }),
            },
        }
    }

    /// A reference to a named type, replaced by what the name stands for; any
    /// other type is returned as it is.
    pub fn expand(&self, ty: &Type, span: Span) -> (r: Result<Type, Error>)
        ensures
            match r {
                Ok(t) => expanded_type(*self, ty@) == Some(t@),
                Err(_) => expanded_type(*self, ty@) is None,
            },
            ty@ matches TypeV::Ref { name, args } ==> type_result(&r) == named_result(
                *self,
                name,
                args.len() > 0,
                span,
            ),
    {
        match ty {
            Type::Ref { name, args } => {
                assert(crate::ty::types_model(args@).len() == args@.len());
                self.expand_export_info(name, args.len() > 0, span)
            },
            _ => Ok(copy_type(ty)),
        }
    }
}

} // verus!
