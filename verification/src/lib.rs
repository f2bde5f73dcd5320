//! Generation engine for specializing generic declarations into concrete,
//! non-generic wrapper types whose members forward to an inner instance.
//!
//! Given a substitution mapping from generic-parameter names to concrete
//! type expressions and a wrapper identifier, the engine rewrites member
//! signatures ([`macro_impl`]) and emits the wrapper data type
//! ([`macro_struct`]); the host compiler consumes the generated declarations.

pub mod ast;
pub mod macro_impl;
pub mod macro_struct;
pub mod mapping;

use vstd::prelude::*;

use crate::ast::{
    lemma_view_type_seq, view_type, view_type_seq, ArgsV, GenParam, GenParamV, TypeExpr, TypeV,
};
use crate::mapping::Mapping;

verus! {

/// The symbolic name that refers to the enclosing type inside member
/// signatures of the original declaration.
pub open spec fn self_alias() -> Seq<char> {
    "Self"@
}

/// The deliberately invalid identifier substituted for a generic parameter
/// absent from the mapping, so that an unresolved parameter surfaces as a
/// downstream type error instead of silently compiling to something wrong.
pub open spec fn sentinel_name() -> Seq<char> {
    "Please"@
}

/// The sentinel placeholder as a type expression.
pub open spec fn sentinel_type() -> TypeV {
    TypeV::Path { prefix: Seq::empty(), name: sentinel_name(), args: ArgsV::Absent }
}

/// Builds the sentinel placeholder.
pub fn make_sentinel() -> (r: TypeExpr)
    ensures
        r@ == sentinel_type(),
{
    ast::make_ident_type(String::from_str("Please"))
}

// ---------------------------------------------------------------------------
// Failure classification
// ---------------------------------------------------------------------------

/// How generation can fail.
#[derive(Clone, Copy, PartialEq, Eq, Structural, Debug)]
pub enum GenError {
    /// Malformed directive arguments, e.g. a visibility literal outside the
    /// recognized set.
    Syntax,
    /// An implementation-block item the generator cannot transform (a macro
    /// invocation or an unrecognized item form); reported per item.
    UnsupportedConstruct,
    /// A lifetime parameter in a resolved generic-parameter list; fatal for
    /// the whole declaration.
    UnsupportedParameter,
    /// An implementation block whose target type is not a simple named path;
    /// a tool defect, aborting generation for that declaration.
    InternalInconsistency,
}

// ---------------------------------------------------------------------------
// Directive arguments
// ---------------------------------------------------------------------------

/// The visibility qualifier a directive may carry for the wrapper.
#[derive(Clone, Copy, PartialEq, Eq, Structural, Debug)]
pub enum VisibilityKind {
    /// Default: the narrowest (private) visibility.
    Private,
    /// `pub`.
    Public,
    /// `pub(crate)`.
    PublicCrate,
    /// `pub(super)`.
    PublicSuper,
}

/// The parsed directive arguments: wrapper identifier, optional visibility,
/// and the substitution mapping.
pub struct MacroArgs {
    pub visibility: VisibilityKind,
    pub py_class_name: String,
    pub state_mappings: Mapping,
}

impl MacroArgs {
    /// The substitution mapping must be well formed.
    pub open spec fn wf(&self) -> bool {
        self.state_mappings.wf()
    }
}

/// Interprets the directive's visibility argument. Exactly the literals
/// `"pub"`, `"pub(crate)"` and `"pub(super)"` are accepted; any other literal
/// is rejected; an omitted visibility yields the private default.
pub fn visibility_from_literal(lit: Option<&String>) -> (r: Result<VisibilityKind, GenError>)
    ensures
        match lit {
            Option::None => r == Ok::<VisibilityKind, GenError>(VisibilityKind::Private),
            Option::Some(s) => r == if s@ == "pub"@ {
                Ok::<VisibilityKind, GenError>(VisibilityKind::Public)
            } else if s@ == "pub(crate)"@ {
                Ok::<VisibilityKind, GenError>(VisibilityKind::PublicCrate)
            } else if s@ == "pub(super)"@ {
                Ok::<VisibilityKind, GenError>(VisibilityKind::PublicSuper)
            } else {
                Err::<VisibilityKind, GenError>(GenError::Syntax)
            },
        },
{
    match lit {
        Option::None => Ok(VisibilityKind::Private),
        Option::Some(s) => {
            if *s == String::from_str("pub") {
                Ok(VisibilityKind::Public)
            } else if *s == String::from_str("pub(crate)") {
                Ok(VisibilityKind::PublicCrate)
            } else if *s == String::from_str("pub(super)") {
                Ok(VisibilityKind::PublicSuper)
            } else {
                Err(GenError::Syntax)
            }
        },
    }
}

// ---------------------------------------------------------------------------
// Hardcoded-generics resolver
// ---------------------------------------------------------------------------

/// Whether a declared generic-parameter list contains a lifetime parameter.
pub open spec fn has_lifetime(s: Seq<GenParam>) -> bool {
    exists|i: int| 0 <= i < s.len() && s[i] is LifetimeParam
}

/// The concrete argument a single declared parameter resolves to: a mapped
/// type or the sentinel for a type parameter, the parameter's own name for a
/// const parameter.
pub open spec fn spec_resolve_param(m: Map<Seq<char>, TypeV>, p: GenParamV) -> TypeV {
    match p {
        GenParamV::TypeParam { name } => if m.contains_key(name) {
            m[name]
        } else {
            sentinel_type()
        },
        GenParamV::ConstParam { name } => TypeV::Path {
            prefix: Seq::empty(),
            name,
            args: ArgsV::Absent,
        },
        GenParamV::LifetimeParam { name } => sentinel_type(),
    }
}

/// The concrete argument list a declared parameter list resolves to, one
/// entry per declared parameter, in declared order.
pub open spec fn spec_resolve_seq(m: Map<Seq<char>, TypeV>, s: Seq<GenParam>) -> Seq<TypeV>
    decreases s.len(),
{
    if s.len() == 0 {
        Seq::empty()
    } else {
        spec_resolve_seq(m, s.drop_last()).push(spec_resolve_param(m, s.last()@))
    }
}

/// The element views of `spec_resolve_seq` are the per-parameter resolutions.
pub proof fn lemma_spec_resolve_seq(m: Map<Seq<char>, TypeV>, s: Seq<GenParam>)
    ensures
        spec_resolve_seq(m, s).len() == s.len(),
        forall|i: int|
            0 <= i < s.len() ==> spec_resolve_seq(m, s)[i] == spec_resolve_param(m, s[i]@),
    decreases s.len(),
{
    if s.len() > 0 {
        lemma_spec_resolve_seq(m, s.drop_last());
    }
}

/// The resolved argument list always has exactly one entry per declared
/// parameter, in declared order, and a type parameter whose name the mapping
/// does not bind always resolves to the sentinel placeholder.
pub proof fn lemma_resolver_unmapped_yields_sentinel(
    m: Map<Seq<char>, TypeV>,
    s: Seq<GenParam>,
    i: int,
)
    requires
        0 <= i < s.len(),
    ensures
        spec_resolve_seq(m, s).len() == s.len(),
        spec_resolve_seq(m, s)[i] == spec_resolve_param(m, s[i]@),
        (s[i]@ matches GenParamV::TypeParam { name } && !m.contains_key(name))
            ==> spec_resolve_seq(m, s)[i] == sentinel_type(),
{
    lemma_spec_resolve_seq(m, s);
}

/// Resolves a declared generic-parameter list into the concrete
/// angle-bracket argument list the wrapper instantiates the original with.
///
/// The result has exactly one entry per declared parameter, in declared
/// order; a type parameter absent from the mapping yields the sentinel
/// placeholder; a lifetime parameter anywhere in the list is rejected
/// outright and yields no output.
pub fn generate_hardcoded_generics(m: &Mapping, generics: &Vec<GenParam>) -> (r: Result<
    Vec<TypeExpr>,
    GenError,
>)
    requires
        m.wf(),
    ensures
        match r {
            Ok(args) => {
                &&& !has_lifetime(generics@)
                &&& args@.len() == generics@.len()
                &&& view_type_seq(args@) == spec_resolve_seq(m@, generics@)
                &&& forall|i: int|
                    0 <= i < generics@.len() ==> view_type(#[trigger] args@[i])
                        == spec_resolve_param(m@, generics@[i]@)
            },
            Err(e) => e == GenError::UnsupportedParameter && has_lifetime(generics@),
        },
{
    let mut out: Vec<TypeExpr> = Vec::new();
    let n = generics.len();
    for i in 0..n
        invariant
            n == generics.len(),
            m.wf(),
            out@.len() == i,
            !has_lifetime(generics@.take(i as int)),
            forall|j: int|
                0 <= j < i ==> view_type(#[trigger] out@[j]) == spec_resolve_param(
                    m@,
                    generics@[j]@,
                ),
    {
        match &generics[i] {
            GenParam::TypeParam { name } => {
                match m.get_cloned(name) {
                    Option::Some(t) => out.push(t),
                    Option::None => out.push(make_sentinel()),
                }
            },
            GenParam::ConstParam { name } => {
                out.push(ast::make_ident_type(name.clone()));
            },
            GenParam::LifetimeParam { .. } => {
                proof {
                    assert(generics@[i as int] is LifetimeParam);
                }
                return Err(GenError::UnsupportedParameter);
            },
        }
        proof {
            assert(generics@.take(i + 1).drop_last() =~= generics@.take(i as int));
        }
    }
    proof {
        assert(generics@.take(n as int) =~= generics@);
        lemma_view_type_seq(out@);
        lemma_spec_resolve_seq(m@, generics@);
        assert(view_type_seq(out@) =~= spec_resolve_seq(m@, generics@));
    }
    Ok(out)
}

} // verus!
