//! The member-forwarding transform: rewrites every item of an implementation
//! block into a delegation attached to the wrapper type, substituting generic
//! parameters and the Self-Alias throughout member signatures.

use vstd::prelude::*;

use crate::ast::{
    clone_string_opt, clone_string_vec, clone_type, lemma_view_gen_arg_seq, lemma_view_type_seq,
    view_args, view_gen_arg, view_gen_arg_seq, view_type, view_type_opt, view_type_seq, ArgsV,
    GenArg, GenArgV, GenParam, PathArgs, TypeExpr, TypeV,
};
use crate::mapping::Mapping;
use crate::{
    generate_hardcoded_generics, has_lifetime, self_alias, spec_resolve_seq, GenError, MacroArgs,
};

verus! {

// ---------------------------------------------------------------------------
// The generic-substitution engine
// ---------------------------------------------------------------------------

/// Whether a rewritten value must be passed through the conversion
/// constructor before it is returned: only when the outermost, unwrapped
/// form of a return type is exactly the Self-Alias.
pub open spec fn spec_needs_wrap(t: TypeV, is_return: bool) -> bool {
    is_return && (t matches TypeV::Path { name, .. } && name == self_alias())
}

/// The substitution of the mapping into one type expression: the Self-Alias
/// becomes the wrapper identifier, a mapped parameter name is replaced by its
/// concrete type verbatim, and any other named path keeps its name while its
/// generic arguments are substituted recursively. References, tuples and
/// arrays are walked through with their qualifiers kept; any other type form
/// passes through unchanged.
pub open spec fn spec_substitute(
    m: Map<Seq<char>, TypeV>,
    t: TypeV,
    w: Seq<char>,
    is_return: bool,
) -> TypeV
    decreases t,
{
    match t {
        TypeV::Path { prefix, name, args } => {
            if name == self_alias() {
                TypeV::Path { prefix, name: w, args: spec_substitute_args(m, args, w, is_return) }
            } else if m.contains_key(name) {
                m[name]
            } else {
                TypeV::Path { prefix, name, args: spec_substitute_args(m, args, w, is_return) }
            }
        },
        TypeV::Reference { lifetime, mutable, elem } => TypeV::Reference {
            lifetime,
            mutable,
            elem: Box::new(spec_substitute(m, *elem, w, is_return)),
        },
        TypeV::Tuple { elems } => TypeV::Tuple {
            elems: spec_substitute_seq(m, elems, w, is_return),
        },
        TypeV::Array { elem, len } => TypeV::Array {
            elem: Box::new(spec_substitute(m, *elem, w, is_return)),
            len,
        },
        TypeV::Verbatim { tokens } => TypeV::Verbatim { tokens },
    }
}

/// Elementwise substitution into a sequence of type expressions.
pub open spec fn spec_substitute_seq(
    m: Map<Seq<char>, TypeV>,
    s: Seq<TypeV>,
    w: Seq<char>,
    is_return: bool,
) -> Seq<TypeV>
    decreases s,
{
    if s.len() == 0 {
        Seq::empty()
    } else {
        spec_substitute_seq(m, s.drop_last(), w, is_return).push(
            spec_substitute(m, s.last(), w, is_return),
        )
    }
}

/// Substitution into a path's generic-argument list: only angle-bracketed
/// type arguments are rewritten; everything else is kept verbatim.
pub open spec fn spec_substitute_args(
    m: Map<Seq<char>, TypeV>,
    a: ArgsV,
    w: Seq<char>,
    is_return: bool,
) -> ArgsV
    decreases a,
{
    match a {
        ArgsV::Absent => ArgsV::Absent,
        ArgsV::Angle { args } => ArgsV::Angle {
            args: spec_substitute_gen_seq(m, args, w, is_return),
        },
        ArgsV::Opaque { tokens } => ArgsV::Opaque { tokens },
    }
}

/// Elementwise substitution into a sequence of generic arguments.
pub open spec fn spec_substitute_gen_seq(
    m: Map<Seq<char>, TypeV>,
    s: Seq<GenArgV>,
    w: Seq<char>,
    is_return: bool,
) -> Seq<GenArgV>
    decreases s,
{
    if s.len() == 0 {
        Seq::empty()
    } else {
        spec_substitute_gen_seq(m, s.drop_last(), w, is_return).push(
            spec_substitute_gen_arg(m, s.last(), w, is_return),
        )
    }
}

/// Substitution into one generic argument.
pub open spec fn spec_substitute_gen_arg(
    m: Map<Seq<char>, TypeV>,
    g: GenArgV,
    w: Seq<char>,
    is_return: bool,
) -> GenArgV
    decreases g,
{
    match g {
        GenArgV::TypeArg { ty } => GenArgV::TypeArg { ty: spec_substitute(m, ty, w, is_return) },
        GenArgV::OpaqueArg { tokens } => GenArgV::OpaqueArg { tokens },
    }
}

/// The elements of `spec_substitute_seq` are the substituted elements.
pub proof fn lemma_spec_substitute_seq(
    m: Map<Seq<char>, TypeV>,
    s: Seq<TypeV>,
    w: Seq<char>,
    is_return: bool,
)
    ensures
        spec_substitute_seq(m, s, w, is_return).len() == s.len(),
        forall|i: int|
            0 <= i < s.len() ==> spec_substitute_seq(m, s, w, is_return)[i] == spec_substitute(
                m,
                s[i],
                w,
                is_return,
            ),
    decreases s,
{
    if s.len() > 0 {
        lemma_spec_substitute_seq(m, s.drop_last(), w, is_return);
    }
}

/// The elements of `spec_substitute_gen_seq` are the substituted elements.
pub proof fn lemma_spec_substitute_gen_seq(
    m: Map<Seq<char>, TypeV>,
    s: Seq<GenArgV>,
    w: Seq<char>,
    is_return: bool,
)
    ensures
        spec_substitute_gen_seq(m, s, w, is_return).len() == s.len(),
        forall|i: int|
            0 <= i < s.len() ==> spec_substitute_gen_seq(m, s, w, is_return)[i]
                == spec_substitute_gen_arg(m, s[i], w, is_return),
    decreases s,
{
    if s.len() > 0 {
        lemma_spec_substitute_gen_seq(m, s.drop_last(), w, is_return);
    }
}

/// Substituting the Self-Alias at the outermost level always yields the
/// wrapper identifier, with the path's qualifiers kept and its generic
/// arguments substituted in place; the result requires conversion exactly in
/// return context, never in parameter context.
pub proof fn lemma_self_alias_outermost(
    m: Map<Seq<char>, TypeV>,
    prefix: Seq<Seq<char>>,
    args: ArgsV,
    w: Seq<char>,
)
    ensures
        ({
            let t = TypeV::Path { prefix, name: self_alias(), args };
            &&& spec_substitute(m, t, w, true) == (TypeV::Path {
                prefix,
                name: w,
                args: spec_substitute_args(m, args, w, true),
            })
            &&& spec_substitute(m, t, w, false) == (TypeV::Path {
                prefix,
                name: w,
                args: spec_substitute_args(m, args, w, false),
            })
            &&& spec_needs_wrap(t, true)
            &&& !spec_needs_wrap(t, false)
        }),
{
}

/// Substituting into a reference, tuple or array type never requires
/// conversion at the outer level, in either context, even though each
/// contained type is substituted in place (so a Self-Alias nested inside is
/// still renamed to the wrapper identifier).
pub proof fn lemma_nested_self_not_wrapped(
    m: Map<Seq<char>, TypeV>,
    t: TypeV,
    w: Seq<char>,
    is_return: bool,
)
    requires
        t is Reference || t is Tuple || t is Array,
    ensures
        !spec_needs_wrap(t, is_return),
        t matches TypeV::Reference { lifetime, mutable, elem } ==> spec_substitute(
            m,
            t,
            w,
            is_return,
        ) == (TypeV::Reference {
            lifetime,
            mutable,
            elem: Box::new(spec_substitute(m, *elem, w, is_return)),
        }),
        t matches TypeV::Array { elem, len } ==> spec_substitute(m, t, w, is_return)
            == (TypeV::Array { elem: Box::new(spec_substitute(m, *elem, w, is_return)), len }),
        t matches TypeV::Tuple { elems } ==> {
            let out = spec_substitute(m, t, w, is_return);
            &&& out matches TypeV::Tuple { elems: out_elems }
            &&& spec_substitute(m, t, w, is_return) == (TypeV::Tuple {
                elems: spec_substitute_seq(m, elems, w, is_return),
            })
            &&& spec_substitute_seq(m, elems, w, is_return).len() == elems.len()
            &&& forall|i: int|
                0 <= i < elems.len() ==> spec_substitute_seq(m, elems, w, is_return)[i]
                    == spec_substitute(m, elems[i], w, is_return)
        },
{
    if t is Tuple {
        lemma_spec_substitute_seq(m, t->Tuple_elems, w, is_return);
    }
}

/// Rewrites one type expression under the substitution mapping, and reports
/// whether a value of this type, produced in return position, must be passed
/// through the conversion constructor.
pub fn replace_generics_in_type(
    m: &Mapping,
    t: &TypeExpr,
    py_class_name: &String,
    wrap_return_type: bool,
) -> (r: (TypeExpr, bool))
    requires
        m.wf(),
    ensures
        r.0@ == spec_substitute(m@, t@, py_class_name@, wrap_return_type),
        r.1 == spec_needs_wrap(t@, wrap_return_type),
    decreases *t,
{
    match t {
        TypeExpr::Path { prefix, name, args } => {
            if *name == String::from_str("Self") {
                let new_args = replace_generics_in_path_args(m, args, py_class_name,
                    wrap_return_type);
                (
                    TypeExpr::Path {
                        prefix: clone_string_vec(prefix),
                        name: py_class_name.clone(),
                        args: new_args,
                    },
                    wrap_return_type,
                )
            } else {
                match m.get_cloned(name) {
                    Option::Some(mapped) => (mapped, false),
                    Option::None => {
                        let new_args = replace_generics_in_path_args(m, args, py_class_name,
                            wrap_return_type);
                        (
                            TypeExpr::Path {
                                prefix: clone_string_vec(prefix),
                                name: name.clone(),
                                args: new_args,
                            },
                            false,
                        )
                    },
                }
            }
        },
        TypeExpr::Reference { lifetime, mutable, elem } => {
            let (new_elem, _) = replace_generics_in_type(m, elem, py_class_name, wrap_return_type);
            (
                TypeExpr::Reference {
                    lifetime: clone_string_opt(lifetime),
                    mutable: *mutable,
                    elem: Box::new(new_elem),
                },
                false,
            )
        },
        TypeExpr::Tuple { elems } => (
            TypeExpr::Tuple {
                elems: replace_generics_in_type_vec(m, elems, py_class_name, wrap_return_type),
            },
            false,
        ),
        TypeExpr::Array { elem, len } => {
            let (new_elem, _) = replace_generics_in_type(m, elem, py_class_name, wrap_return_type);
            (TypeExpr::Array { elem: Box::new(new_elem), len: len.clone() }, false)
        },
        TypeExpr::Verbatim { tokens } => (TypeExpr::Verbatim { tokens: tokens.clone() }, false),
    }
}

/// Rewrites each type expression in a list under the substitution mapping.
fn replace_generics_in_type_vec(
    m: &Mapping,
    v: &Vec<TypeExpr>,
    py_class_name: &String,
    wrap_return_type: bool,
) -> (r: Vec<TypeExpr>)
    requires
        m.wf(),
    ensures
        view_type_seq(r@) == spec_substitute_seq(
            m@,
            view_type_seq(v@),
            py_class_name@,
            wrap_return_type,
        ),
    decreases v@,
{
    let mut out: Vec<TypeExpr> = Vec::new();
    let n = v.len();
    for i in 0..n
        invariant
            n == v.len(),
            m.wf(),
            out@.len() == i,
            forall|j: int|
                0 <= j < i ==> view_type(#[trigger] out@[j]) == spec_substitute(
                    m@,
                    view_type(v@[j]),
                    py_class_name@,
                    wrap_return_type,
                ),
    {
        let (new_elem, _) = replace_generics_in_type(m, &v[i], py_class_name, wrap_return_type);
        out.push(new_elem);
    }
    proof {
        lemma_view_type_seq(v@);
        lemma_view_type_seq(out@);
        lemma_spec_substitute_seq(m@, view_type_seq(v@), py_class_name@, wrap_return_type);
        assert(view_type_seq(out@) =~= spec_substitute_seq(
            m@,
            view_type_seq(v@),
            py_class_name@,
            wrap_return_type,
        ));
    }
    out
}

/// Rewrites a path's generic-argument list under the substitution mapping.
fn replace_generics_in_path_args(
    m: &Mapping,
    a: &PathArgs,
    py_class_name: &String,
    wrap_return_type: bool,
) -> (r: PathArgs)
    requires
        m.wf(),
    ensures
        view_args(r) == spec_substitute_args(m@, view_args(*a), py_class_name@, wrap_return_type),
    decreases *a,
{
    match a {
        PathArgs::Absent => PathArgs::Absent,
        PathArgs::Angle { args } => PathArgs::Angle {
            args: replace_generics_in_gen_args(m, args, py_class_name, wrap_return_type),
        },
        PathArgs::Opaque { tokens } => PathArgs::Opaque { tokens: tokens.clone() },
    }
}

/// Rewrites each generic argument in a list under the substitution mapping.
fn replace_generics_in_gen_args(
    m: &Mapping,
    v: &Vec<GenArg>,
    py_class_name: &String,
    wrap_return_type: bool,
) -> (r: Vec<GenArg>)
    requires
        m.wf(),
    ensures
        view_gen_arg_seq(r@) == spec_substitute_gen_seq(
            m@,
            view_gen_arg_seq(v@),
            py_class_name@,
            wrap_return_type,
        ),
    decreases v@,
{
    let mut out: Vec<GenArg> = Vec::new();
    let n = v.len();
    for i in 0..n
        invariant
            n == v.len(),
            m.wf(),
            out@.len() == i,
            forall|j: int|
                0 <= j < i ==> view_gen_arg(#[trigger] out@[j]) == spec_substitute_gen_arg(
                    m@,
                    view_gen_arg(v@[j]),
                    py_class_name@,
                    wrap_return_type,
                ),
    {
        out.push(replace_generics_in_gen_arg(m, &v[i], py_class_name, wrap_return_type));
    }
    proof {
        lemma_view_gen_arg_seq(v@);
        lemma_view_gen_arg_seq(out@);
        lemma_spec_substitute_gen_seq(m@, view_gen_arg_seq(v@), py_class_name@, wrap_return_type);
        assert(view_gen_arg_seq(out@) =~= spec_substitute_gen_seq(
            m@,
            view_gen_arg_seq(v@),
            py_class_name@,
            wrap_return_type,
        ));
    }
    out
}

// ---------------------------------------------------------------------------
// Receivers and method signatures
// ---------------------------------------------------------------------------

/// How a method receives its enclosing instance; determines both the
/// delegation's own receiver form and whether the generated body calls the
/// held inner instance or a fully qualified static path.
#[derive(Clone, Copy, PartialEq, Eq, Structural, Debug)]
pub enum SelfKind {
    /// No receiver: a static/associated function.
    NoReceiver,
    /// `self`: consumes the instance.
    Consume,
    /// `&self`.
    ImmutableReference,
    /// `&mut self`.
    MutableReference,
    /// `mut self`: consumes the instance, owned mutably.
    Mutable,
}

/// The receiver kind implied by the presence of `&` and `mut`.
pub open spec fn kind_of_receiver(reference: bool, mutable: bool) -> SelfKind {
    if reference && mutable {
        SelfKind::MutableReference
    } else if !reference && mutable {
        SelfKind::Mutable
    } else if reference {
        SelfKind::ImmutableReference
    } else {
        SelfKind::Consume
    }
}

/// One input of a method signature.
#[derive(PartialEq, Eq, Debug)]
pub enum FnInput {
    /// The receiver, e.g. `&mut self`.
    Receiver { reference: bool, mutable: bool },
    /// An ordinary typed argument; the binding name is kept for forwarding.
    Typed { pat: String, ty: TypeExpr },
}

/// One rewritten, typed parameter of a delegation.
#[derive(PartialEq, Eq, Debug)]
pub struct Param {
    pub pat: String,
    pub ty: TypeExpr,
}

/// Ghost mirror of `Param`.
pub struct ParamV {
    pub pat: Seq<char>,
    pub ty: TypeV,
}

/// View of one parameter.
pub open spec fn view_param(p: Param) -> ParamV {
    ParamV { pat: p.pat@, ty: p.ty@ }
}

/// Elementwise view of a parameter list.
pub open spec fn view_param_seq(s: Seq<Param>) -> Seq<ParamV>
    decreases s.len(),
{
    if s.len() == 0 {
        Seq::empty()
    } else {
        view_param_seq(s.drop_last()).push(view_param(s.last()))
    }
}

/// The receiver kind of an input list: the last receiver wins; a list
/// without a receiver is a static/associated function.
pub open spec fn spec_self_kind(s: Seq<FnInput>) -> SelfKind
    decreases s.len(),
{
    if s.len() == 0 {
        SelfKind::NoReceiver
    } else {
        match s.last() {
            FnInput::Receiver { reference, mutable } => kind_of_receiver(reference, mutable),
            FnInput::Typed { .. } => spec_self_kind(s.drop_last()),
        }
    }
}

/// The rewritten typed parameters of an input list, in order: binding names
/// kept, types substituted outside return context.
pub open spec fn spec_params(m: Map<Seq<char>, TypeV>, s: Seq<FnInput>, w: Seq<char>) -> Seq<
    ParamV,
>
    decreases s.len(),
{
    if s.len() == 0 {
        Seq::empty()
    } else {
        let rest = spec_params(m, s.drop_last(), w);
        match s.last() {
            FnInput::Receiver { .. } => rest,
            FnInput::Typed { pat, ty } => rest.push(
                ParamV { pat: pat@, ty: spec_substitute(m, ty@, w, false) },
            ),
        }
    }
}

/// Classifies the receiver and rewrites every typed parameter of a method's
/// input list, keeping the original binding names for forwarding.
pub fn replace_generics_in_inputs(m: &Mapping, inputs: &Vec<FnInput>, py_class_name: &String) -> (r:
    (SelfKind, Vec<Param>))
    requires
        m.wf(),
    ensures
        r.0 == spec_self_kind(inputs@),
        view_param_seq(r.1@) == spec_params(m@, inputs@, py_class_name@),
{
    let mut self_kind = SelfKind::NoReceiver;
    let mut params: Vec<Param> = Vec::new();
    let n = inputs.len();
    for i in 0..n
        invariant
            n == inputs.len(),
            m.wf(),
            self_kind == spec_self_kind(inputs@.take(i as int)),
            view_param_seq(params@) == spec_params(m@, inputs@.take(i as int), py_class_name@),
    {
        let ghost prev_params = params@;
        match &inputs[i] {
            FnInput::Receiver { reference, mutable } => {
                self_kind = if *reference && *mutable {
                    SelfKind::MutableReference
                } else if !*reference && *mutable {
                    SelfKind::Mutable
                } else if *reference {
                    SelfKind::ImmutableReference
                } else {
                    SelfKind::Consume
                };
            },
            FnInput::Typed { pat, ty } => {
                let (new_ty, _) = replace_generics_in_type(m, ty, py_class_name, false);
                params.push(Param { pat: pat.clone(), ty: new_ty });
                proof {
                    assert(params@.drop_last() =~= prev_params);
                }
            },
        }
        proof {
            assert(inputs@.take(i + 1).drop_last() =~= inputs@.take(i as int));
            assert(inputs@.take(i + 1).last() == inputs@[i as int]);
        }
    }
    proof {
        assert(inputs@.take(n as int) =~= inputs@);
    }
    (self_kind, params)
}

/// The substituted return type: absent stays absent; otherwise the type is
/// rewritten in return context.
pub open spec fn spec_substitute_ret(m: Map<Seq<char>, TypeV>, o: Option<TypeV>, w: Seq<char>)
    -> Option<TypeV> {
    match o {
        Option::Some(t) => Option::Some(spec_substitute(m, t, w, true)),
        Option::None => Option::None,
    }
}

/// Whether a delegation body must convert its result into the wrapper:
/// exactly when the outermost form of the declared return type is the
/// Self-Alias.
pub open spec fn spec_ret_needs_wrap(o: Option<TypeV>) -> bool {
    match o {
        Option::Some(t) => spec_needs_wrap(t, true),
        Option::None => false,
    }
}

/// Rewrites a method's return type in return context and reports whether the
/// produced value must be re-wrapped.
pub fn replace_generics_in_return_type(
    m: &Mapping,
    return_type: &Option<TypeExpr>,
    py_class_name: &String,
) -> (r: (Option<TypeExpr>, bool))
    requires
        m.wf(),
    ensures
        view_type_opt(r.0) == spec_substitute_ret(m@, view_type_opt(*return_type), py_class_name@),
        r.1 == spec_ret_needs_wrap(view_type_opt(*return_type)),
{
    match return_type {
        Option::None => (Option::None, false),
        Option::Some(ty) => {
            let (new_ty, wrapped) = replace_generics_in_type(m, ty, py_class_name, true);
            (Option::Some(new_ty), wrapped)
        },
    }
}

/// Rewrites one generic argument under the substitution mapping.
fn replace_generics_in_gen_arg(
    m: &Mapping,
    g: &GenArg,
    py_class_name: &String,
    wrap_return_type: bool,
) -> (r: GenArg)
    requires
        m.wf(),
    ensures
        view_gen_arg(r) == spec_substitute_gen_arg(
            m@,
            view_gen_arg(*g),
            py_class_name@,
            wrap_return_type,
        ),
    decreases *g,
{
    match g {
        GenArg::TypeArg { ty } => {
            let (new_ty, _) = replace_generics_in_type(m, ty, py_class_name, wrap_return_type);
            GenArg::TypeArg { ty: new_ty }
        },
        GenArg::OpaqueArg { tokens } => GenArg::OpaqueArg { tokens: tokens.clone() },
    }
}

// ---------------------------------------------------------------------------
// Implementation-block members and their delegations
// ---------------------------------------------------------------------------

/// A method's signature, with every qualifier the delegation must copy
/// verbatim.
#[derive(PartialEq, Eq, Debug)]
pub struct MethodSig {
    pub unsafety: bool,
    pub constness: bool,
    pub asyncness: bool,
    pub abi: Option<String>,
    pub name: String,
    pub inputs: Vec<FnInput>,
    pub output: Option<TypeExpr>,
}

/// One item of the annotated implementation block.
#[derive(PartialEq, Eq, Debug)]
pub enum ImplMember {
    /// An associated constant; re-emitted unchanged, with no substitution
    /// applied to its declared type.
    ConstItem { attrs: Vec<String>, vis: String, name: String, ty: TypeExpr, expr: String },
    /// An associated type; its own generic-parameter list is resolved and
    /// appended to the right-hand side.
    TypeItem { attrs: Vec<String>, vis: String, name: String, generics: Vec<GenParam>, ty: TypeExpr },
    /// A method.
    MethodItem { attrs: Vec<String>, vis: String, sig: MethodSig },
    /// A macro invocation; never transformable.
    MacroItem { tokens: String },
    /// Any other item form; never transformable.
    UnrecognizedItem { tokens: String },
}

/// What a generated method body calls.
#[derive(PartialEq, Eq, Debug)]
pub enum CallTarget {
    /// The same-named method on the held inner instance.
    InnerInstance,
    /// The fully specialized static path of the original declaration.
    StaticPath { type_ident: String, generic_args: Vec<TypeExpr> },
}

/// One generated member attached to the wrapper.
#[derive(PartialEq, Eq, Debug)]
pub enum DelegationItem {
    /// The constant, re-emitted unchanged.
    ConstItem { attrs: Vec<String>, vis: String, name: String, ty: TypeExpr, expr: String },
    /// The associated type, with the resolved arguments appended to its
    /// right-hand side.
    TypeItem { attrs: Vec<String>, vis: String, name: String, ty: TypeExpr, generic_args: Vec<TypeExpr> },
    /// The forwarding method: rewritten signature, original qualifiers, and a
    /// body that calls `target` and re-wraps the result when `wrap_result`.
    MethodItem {
        attrs: Vec<String>,
        vis: String,
        unsafety: bool,
        constness: bool,
        asyncness: bool,
        abi: Option<String>,
        name: String,
        self_kind: SelfKind,
        params: Vec<Param>,
        ret: Option<TypeExpr>,
        target: CallTarget,
        wrap_result: bool,
    },
}

/// The outcome for one implementation-block item: either its delegation, or
/// a per-item diagnostic that leaves the sibling items unaffected.
#[derive(PartialEq, Eq, Debug)]
pub enum MemberOutput {
    Generated { item: DelegationItem },
    Unsupported { error: GenError },
}

/// Ghost mirror of `CallTarget`.
pub enum CallTargetV {
    InnerInstance,
    StaticPath { type_ident: Seq<char>, generic_args: Seq<TypeV> },
}

/// Ghost mirror of `DelegationItem`.
pub enum DelegationItemV {
    ConstItem { attrs: Seq<Seq<char>>, vis: Seq<char>, name: Seq<char>, ty: TypeV, expr: Seq<char> },
    TypeItem {
        attrs: Seq<Seq<char>>,
        vis: Seq<char>,
        name: Seq<char>,
        ty: TypeV,
        generic_args: Seq<TypeV>,
    },
    MethodItem {
        attrs: Seq<Seq<char>>,
        vis: Seq<char>,
        unsafety: bool,
        constness: bool,
        asyncness: bool,
        abi: Option<Seq<char>>,
        name: Seq<char>,
        self_kind: SelfKind,
        params: Seq<ParamV>,
        ret: Option<TypeV>,
        target: CallTargetV,
        wrap_result: bool,
    },
}

/// Ghost mirror of `MemberOutput`.
pub enum MemberOutputV {
    Generated { item: DelegationItemV },
    Unsupported { error: GenError },
}

/// View of a call target.
pub open spec fn view_call_target(t: CallTarget) -> CallTargetV {
    match t {
        CallTarget::InnerInstance => CallTargetV::InnerInstance,
        CallTarget::StaticPath { type_ident, generic_args } => CallTargetV::StaticPath {
            type_ident: type_ident@,
            generic_args: view_type_seq(generic_args@),
        },
    }
}

/// View of a delegation item.
pub open spec fn view_delegation(d: DelegationItem) -> DelegationItemV {
    match d {
        DelegationItem::ConstItem { attrs, vis, name, ty, expr } => DelegationItemV::ConstItem {
            attrs: attrs.deep_view(),
            vis: vis@,
            name: name@,
            ty: ty@,
            expr: expr@,
        },
        DelegationItem::TypeItem { attrs, vis, name, ty, generic_args } => DelegationItemV::TypeItem {
            attrs: attrs.deep_view(),
            vis: vis@,
            name: name@,
            ty: ty@,
            generic_args: view_type_seq(generic_args@),
        },
        DelegationItem::MethodItem {
            attrs,
            vis,
            unsafety,
            constness,
            asyncness,
            abi,
            name,
            self_kind,
            params,
            ret,
            target,
            wrap_result,
        } => DelegationItemV::MethodItem {
            attrs: attrs.deep_view(),
            vis: vis@,
            unsafety,
            constness,
            asyncness,
            abi: abi.deep_view(),
            name: name@,
            self_kind,
            params: view_param_seq(params@),
            ret: view_type_opt(ret),
            target: view_call_target(target),
            wrap_result,
        },
    }
}

/// View of a member outcome.
pub open spec fn view_member_output(o: MemberOutput) -> MemberOutputV {
    match o {
        MemberOutput::Generated { item } => MemberOutputV::Generated { item: view_delegation(item) },
        MemberOutput::Unsupported { error } => MemberOutputV::Unsupported { error },
    }
}

/// The outcome one implementation-block item transforms to: the delegation
/// for a constant, associated type or method; a per-item diagnostic for a
/// macro invocation or unrecognized item; or, fatally for the whole
/// declaration, a lifetime-parameter failure from a resolved list.
pub open spec fn spec_member_output(
    m: Map<Seq<char>, TypeV>,
    item: ImplMember,
    w: Seq<char>,
    orig_name: Seq<char>,
    orig_generics: Seq<GenParam>,
) -> Result<MemberOutputV, GenError> {
    match item {
        ImplMember::ConstItem { attrs, vis, name, ty, expr } => Ok(
            MemberOutputV::Generated {
                item: DelegationItemV::ConstItem {
                    attrs: attrs.deep_view(),
                    vis: vis@,
                    name: name@,
                    ty: ty@,
                    expr: expr@,
                },
            },
        ),
        ImplMember::TypeItem { attrs, vis, name, generics, ty } => if has_lifetime(generics@) {
            Err(GenError::UnsupportedParameter)
        } else {
            Ok(
                MemberOutputV::Generated {
                    item: DelegationItemV::TypeItem {
                        attrs: attrs.deep_view(),
                        vis: vis@,
                        name: name@,
                        ty: ty@,
                        generic_args: spec_resolve_seq(m, generics@),
                    },
                },
            )
        },
        ImplMember::MethodItem { attrs, vis, sig } => {
            let kind = spec_self_kind(sig.inputs@);
            if kind == SelfKind::NoReceiver && has_lifetime(orig_generics) {
                Err(GenError::UnsupportedParameter)
            } else {
                Ok(
                    MemberOutputV::Generated {
                        item: DelegationItemV::MethodItem {
                            attrs: attrs.deep_view(),
                            vis: vis@,
                            unsafety: sig.unsafety,
                            constness: sig.constness,
                            asyncness: sig.asyncness,
                            abi: sig.abi.deep_view(),
                            name: sig.name@,
                            self_kind: kind,
                            params: spec_params(m, sig.inputs@, w),
                            ret: spec_substitute_ret(m, view_type_opt(sig.output), w),
                            target: if kind == SelfKind::NoReceiver {
                                CallTargetV::StaticPath {
                                    type_ident: orig_name,
                                    generic_args: spec_resolve_seq(m, orig_generics),
                                }
                            } else {
                                CallTargetV::InnerInstance
                            },
                            wrap_result: spec_ret_needs_wrap(view_type_opt(sig.output)),
                        },
                    },
                )
            }
        },
        ImplMember::MacroItem { .. } => Ok(
            MemberOutputV::Unsupported { error: GenError::UnsupportedConstruct },
        ),
        ImplMember::UnrecognizedItem { .. } => Ok(
            MemberOutputV::Unsupported { error: GenError::UnsupportedConstruct },
        ),
    }
}

/// An implementation-block item that is a macro invocation always produces
/// the per-item `UnsupportedConstruct` diagnostic, never a fatal error; and
/// since every item's outcome is a function of that item alone, the failing
/// item leaves the outcomes of its sibling items unaffected.
pub proof fn lemma_macro_item_isolated(
    m: Map<Seq<char>, TypeV>,
    item: ImplMember,
    w: Seq<char>,
    orig_name: Seq<char>,
    orig_generics: Seq<GenParam>,
)
    requires
        item is MacroItem,
    ensures
        spec_member_output(m, item, w, orig_name, orig_generics) == Ok::<MemberOutputV, GenError>(
            MemberOutputV::Unsupported { error: GenError::UnsupportedConstruct },
        ),
{
}

/// Transforms one implementation-block item into its delegation (or per-item
/// diagnostic), dispatching on the item kind.
pub fn generate_impl_item_block(
    m: &Mapping,
    item: &ImplMember,
    py_class_name: &String,
    original_type_ident: &String,
    original_type_generics: &Vec<GenParam>,
) -> (r: Result<MemberOutput, GenError>)
    requires
        m.wf(),
    ensures
        match r {
            Ok(out) => spec_member_output(
                m@,
                *item,
                py_class_name@,
                original_type_ident@,
                original_type_generics@,
            ) == Ok::<MemberOutputV, GenError>(view_member_output(out)),
            Err(e) => spec_member_output(
                m@,
                *item,
                py_class_name@,
                original_type_ident@,
                original_type_generics@,
            ) == Err::<MemberOutputV, GenError>(e),
        },
{
    match item {
        ImplMember::ConstItem { attrs, vis, name, ty, expr } => Ok(
            MemberOutput::Generated {
                item: DelegationItem::ConstItem {
                    attrs: clone_string_vec(attrs),
                    vis: vis.clone(),
                    name: name.clone(),
                    ty: clone_type(ty),
                    expr: expr.clone(),
                },
            },
        ),
        ImplMember::TypeItem { attrs, vis, name, generics, ty } => {
            match generate_hardcoded_generics(m, generics) {
                Ok(generic_args) => Ok(
                    MemberOutput::Generated {
                        item: DelegationItem::TypeItem {
                            attrs: clone_string_vec(attrs),
                            vis: vis.clone(),
                            name: name.clone(),
                            ty: clone_type(ty),
                            generic_args,
                        },
                    },
                ),
                Err(e) => Err(e),
            }
        },
        ImplMember::MethodItem { attrs, vis, sig } => {
            let (self_kind, params) = replace_generics_in_inputs(m, &sig.inputs, py_class_name);
            let (ret, wrap_result) = replace_generics_in_return_type(m, &sig.output, py_class_name);
            let target = if self_kind == SelfKind::NoReceiver {
                match generate_hardcoded_generics(m, original_type_generics) {
                    Ok(generic_args) => CallTarget::StaticPath {
                        type_ident: original_type_ident.clone(),
                        generic_args,
                    },
                    Err(e) => {
                        return Err(e);
                    },
                }
            } else {
                CallTarget::InnerInstance
            };
            Ok(
                MemberOutput::Generated {
                    item: DelegationItem::MethodItem {
                        attrs: clone_string_vec(attrs),
                        vis: vis.clone(),
                        unsafety: sig.unsafety,
                        constness: sig.constness,
                        asyncness: sig.asyncness,
                        abi: clone_string_opt(&sig.abi),
                        name: sig.name.clone(),
                        self_kind,
                        params,
                        ret,
                        target,
                        wrap_result,
                    },
                },
            )
        },
        ImplMember::MacroItem { .. } => Ok(
            MemberOutput::Unsupported { error: GenError::UnsupportedConstruct },
        ),
        ImplMember::UnrecognizedItem { .. } => Ok(
            MemberOutput::Unsupported { error: GenError::UnsupportedConstruct },
        ),
    }
}

// ---------------------------------------------------------------------------
// The implementation-block transform
// ---------------------------------------------------------------------------

/// The annotated implementation block, as far as the transform inspects it.
#[derive(PartialEq, Eq, Debug)]
pub struct ImplBlock {
    /// Whether the block is `unsafe impl`.
    pub unsafety: bool,
    /// The implemented trait's path, kept verbatim, if any.
    pub trait_name: Option<String>,
    /// The target type; must be a simple named path.
    pub self_ty: TypeExpr,
    /// The block's declared generic parameters.
    pub generics: Vec<GenParam>,
    /// The block's items.
    pub members: Vec<ImplMember>,
}

/// The generated implementation block attached to the wrapper: same
/// unsafety, same implemented trait if any, one outcome per original member.
#[derive(PartialEq, Eq, Debug)]
pub struct ImplOutput {
    pub unsafety: bool,
    pub trait_name: Option<String>,
    pub class_name: String,
    pub items: Vec<MemberOutput>,
}

/// The terminal identifier of an implementation block's target type; only
/// meaningful when that type is a named path.
pub open spec fn impl_target_name(t: TypeExpr) -> Seq<char> {
    match t {
        TypeExpr::Path { name, .. } => name@,
        _ => Seq::empty(),
    }
}

/// Transforms an implementation block into the wrapper's implementation
/// block: one delegation (or per-item diagnostic) per member, in order.
///
/// Fails with `InternalInconsistency` exactly when the target type is not a
/// simple named path, and with `UnsupportedParameter` exactly when some
/// member requires resolving a generic-parameter list that contains a
/// lifetime parameter; member-level `UnsupportedConstruct` diagnostics do
/// not abort the surrounding block.
pub fn macro_impl(args: &MacroArgs, item: &ImplBlock) -> (r: Result<ImplOutput, GenError>)
    requires
        args.wf(),
    ensures
        match r {
            Ok(out) => {
                &&& item.self_ty is Path
                &&& out.unsafety == item.unsafety
                &&& out.trait_name.deep_view() == item.trait_name.deep_view()
                &&& out.class_name@ == args.py_class_name@
                &&& out.items@.len() == item.members@.len()
                &&& forall|i: int|
                    0 <= i < item.members@.len() ==> spec_member_output(
                        args.state_mappings@,
                        item.members@[i],
                        args.py_class_name@,
                        impl_target_name(item.self_ty),
                        item.generics@,
                    ) == Ok::<MemberOutputV, GenError>(view_member_output(#[trigger] out.items@[i]))
            },
            Err(e) => {
                ||| (e == GenError::InternalInconsistency && !(item.self_ty is Path))
                ||| (e == GenError::UnsupportedParameter && item.self_ty is Path && exists|i: int|
                    0 <= i < item.members@.len() && spec_member_output(
                        args.state_mappings@,
                        #[trigger] item.members@[i],
                        args.py_class_name@,
                        impl_target_name(item.self_ty),
                        item.generics@,
                    ) == Err::<MemberOutputV, GenError>(GenError::UnsupportedParameter))
            },
        },
{
    let original_type_ident = match &item.self_ty {
        TypeExpr::Path { name, .. } => name.clone(),
        _ => {
            return Err(GenError::InternalInconsistency);
        },
    };
    let mut items: Vec<MemberOutput> = Vec::new();
    let n = item.members.len();
    for i in 0..n
        invariant
            n == item.members.len(),
            args.wf(),
            item.self_ty is Path,
            original_type_ident@ == impl_target_name(item.self_ty),
            items@.len() == i,
            forall|j: int|
                0 <= j < i ==> spec_member_output(
                    args.state_mappings@,
                    item.members@[j],
                    args.py_class_name@,
                    impl_target_name(item.self_ty),
                    item.generics@,
                ) == Ok::<MemberOutputV, GenError>(view_member_output(#[trigger] items@[j])),
    {
        match generate_impl_item_block(
            &args.state_mappings,
            &item.members[i],
            &args.py_class_name,
            &original_type_ident,
            &item.generics,
        ) {
            Ok(out) => items.push(out),
            Err(e) => {
                proof {
                    assert(spec_member_output(
                        args.state_mappings@,
                        item.members@[i as int],
                        args.py_class_name@,
                        impl_target_name(item.self_ty),
                        item.generics@,
                    ) == Err::<MemberOutputV, GenError>(e));
                }
                return Err(e);
            },
        }
    }
    Ok(
        ImplOutput {
            unsafety: item.unsafety,
            trait_name: clone_string_opt(&item.trait_name),
            class_name: args.py_class_name.clone(),
            items,
        },
    )
}

} // verus!
