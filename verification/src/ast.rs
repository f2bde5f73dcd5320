//! Syntactic data model: type expressions, generic parameters, receiver
//! kinds, visibilities, and the ghost-level views the contracts speak of.

use vstd::prelude::*;

verus! {

// ---------------------------------------------------------------------------
// Executable type expressions
// ---------------------------------------------------------------------------

/// A type expression, as far as the substitution engine inspects it.
///
/// A named path keeps its leading segments verbatim and exposes the terminal
/// segment's identifier and generic arguments, which is all the engine ever
/// examines. References, tuples and fixed-size arrays are walked through;
/// every other syntactic form is carried verbatim as an opaque token string.
#[derive(PartialEq, Eq, Debug)]
pub enum TypeExpr {
    /// A named path, e.g. `std::vec::Vec<T>`: leading segments kept verbatim,
    /// terminal identifier and its generic arguments exposed.
    Path { prefix: Vec<String>, name: String, args: PathArgs },
    /// A reference type `&'a mut T`.
    Reference { lifetime: Option<String>, mutable: bool, elem: Box<TypeExpr> },
    /// A tuple type `(T, U, ...)`.
    Tuple { elems: Vec<TypeExpr> },
    /// A fixed-size array type `[T; LEN]`; the length expression is kept
    /// verbatim.
    Array { elem: Box<TypeExpr>, len: String },
    /// Any other type form, carried through unchanged.
    Verbatim { tokens: String },
}

/// The generic arguments attached to a path's terminal segment.
#[derive(PartialEq, Eq, Debug)]
pub enum PathArgs {
    /// No argument list at all.
    Absent,
    /// An angle-bracketed list `<A1, ..., An>`.
    Angle { args: Vec<GenArg> },
    /// Some other argument form (e.g. parenthesized), kept verbatim.
    Opaque { tokens: String },
}

/// One angle-bracketed generic argument.
#[derive(PartialEq, Eq, Debug)]
pub enum GenArg {
    /// A type argument, which the engine substitutes into.
    TypeArg { ty: TypeExpr },
    /// Any non-type argument (lifetime, const expression, ...), kept verbatim.
    OpaqueArg { tokens: String },
}

// ---------------------------------------------------------------------------
// Ghost views of type expressions
// ---------------------------------------------------------------------------

/// Ghost mirror of `TypeExpr`, with identifiers as character sequences.
pub enum TypeV {
    Path { prefix: Seq<Seq<char>>, name: Seq<char>, args: ArgsV },
    Reference { lifetime: Option<Seq<char>>, mutable: bool, elem: Box<TypeV> },
    Tuple { elems: Seq<TypeV> },
    Array { elem: Box<TypeV>, len: Seq<char> },
    Verbatim { tokens: Seq<char> },
}

/// Ghost mirror of `PathArgs`.
pub enum ArgsV {
    Absent,
    Angle { args: Seq<GenArgV> },
    Opaque { tokens: Seq<char> },
}

/// Ghost mirror of `GenArg`.
pub enum GenArgV {
    TypeArg { ty: TypeV },
    OpaqueArg { tokens: Seq<char> },
}

/// View of a type expression.
pub open spec fn view_type(t: TypeExpr) -> TypeV
    decreases t,
{
    match t {
        TypeExpr::Path { prefix, name, args } => TypeV::Path {
            prefix: prefix.deep_view(),
            name: name@,
            args: view_args(args),
        },
        TypeExpr::Reference { lifetime, mutable, elem } => TypeV::Reference {
            lifetime: lifetime.deep_view(),
            mutable,
            elem: Box::new(view_type(*elem)),
        },
        TypeExpr::Tuple { elems } => TypeV::Tuple { elems: view_type_seq(elems@) },
        TypeExpr::Array { elem, len } => TypeV::Array {
            elem: Box::new(view_type(*elem)),
            len: len@,
        },
        TypeExpr::Verbatim { tokens } => TypeV::Verbatim { tokens: tokens@ },
    }
}

/// Elementwise view of a sequence of type expressions.
pub open spec fn view_type_seq(s: Seq<TypeExpr>) -> Seq<TypeV>
    decreases s,
{
    if s.len() == 0 {
        Seq::empty()
    } else {
        view_type_seq(s.drop_last()).push(view_type(s.last()))
    }
}

/// View of a path's generic-argument list.
pub open spec fn view_args(a: PathArgs) -> ArgsV
    decreases a,
{
    match a {
        PathArgs::Absent => ArgsV::Absent,
        PathArgs::Angle { args } => ArgsV::Angle { args: view_gen_arg_seq(args@) },
        PathArgs::Opaque { tokens } => ArgsV::Opaque { tokens: tokens@ },
    }
}

/// Elementwise view of a sequence of generic arguments.
pub open spec fn view_gen_arg_seq(s: Seq<GenArg>) -> Seq<GenArgV>
    decreases s,
{
    if s.len() == 0 {
        Seq::empty()
    } else {
        view_gen_arg_seq(s.drop_last()).push(view_gen_arg(s.last()))
    }
}

/// View of one generic argument.
pub open spec fn view_gen_arg(g: GenArg) -> GenArgV
    decreases g,
{
    match g {
        GenArg::TypeArg { ty } => GenArgV::TypeArg { ty: view_type(ty) },
        GenArg::OpaqueArg { tokens } => GenArgV::OpaqueArg { tokens: tokens@ },
    }
}

impl View for TypeExpr {
    type V = TypeV;

    open spec fn view(&self) -> TypeV {
        view_type(*self)
    }
}

/// View of an optional type expression.
pub open spec fn view_type_opt(o: Option<TypeExpr>) -> Option<TypeV> {
    match o {
        Option::Some(t) => Option::Some(view_type(t)),
        Option::None => Option::None,
    }
}

/// Builds a bare path type consisting of a single identifier.
pub fn make_ident_type(name: String) -> (r: TypeExpr)
    ensures
        r@ == (TypeV::Path { prefix: Seq::empty(), name: name@, args: ArgsV::Absent }),
{
    let prefix: Vec<String> = Vec::new();
    let r = TypeExpr::Path { prefix, name, args: PathArgs::Absent };
    proof {
        match &r {
            TypeExpr::Path { prefix: p, name: n, args: a } => {
                assert(p.deep_view() =~= Seq::<Seq<char>>::empty());
                assert(view_type(r) == TypeV::Path {
                    prefix: p.deep_view(),
                    name: n@,
                    args: view_args(*a),
                });
            },
            _ => {},
        }
    }
    r
}

/// The element views of `view_type_seq` are the views of the elements.
pub proof fn lemma_view_type_seq(s: Seq<TypeExpr>)
    ensures
        view_type_seq(s).len() == s.len(),
        forall|i: int| 0 <= i < s.len() ==> view_type_seq(s)[i] == view_type(s[i]),
    decreases s.len(),
{
    if s.len() > 0 {
        lemma_view_type_seq(s.drop_last());
    }
}

/// The element views of `view_gen_arg_seq` are the views of the elements.
pub proof fn lemma_view_gen_arg_seq(s: Seq<GenArg>)
    ensures
        view_gen_arg_seq(s).len() == s.len(),
        forall|i: int| 0 <= i < s.len() ==> view_gen_arg_seq(s)[i] == view_gen_arg(s[i]),
    decreases s.len(),
{
    if s.len() > 0 {
        lemma_view_gen_arg_seq(s.drop_last());
    }
}

// ---------------------------------------------------------------------------
// Generic parameters
// ---------------------------------------------------------------------------

/// One declared generic parameter of the original declaration.
#[derive(PartialEq, Eq, Debug)]
pub enum GenParam {
    /// A type parameter, e.g. `T`.
    TypeParam { name: String },
    /// A const parameter, e.g. `const N: usize`; only its name matters here.
    ConstParam { name: String },
    /// A lifetime parameter, e.g. `'a`; never supported by the resolver.
    LifetimeParam { name: String },
}

/// Ghost mirror of `GenParam`.
pub enum GenParamV {
    TypeParam { name: Seq<char> },
    ConstParam { name: Seq<char> },
    LifetimeParam { name: Seq<char> },
}

impl View for GenParam {
    type V = GenParamV;

    open spec fn view(&self) -> GenParamV {
        match self {
            GenParam::TypeParam { name } => GenParamV::TypeParam { name: name@ },
            GenParam::ConstParam { name } => GenParamV::ConstParam { name: name@ },
            GenParam::LifetimeParam { name } => GenParamV::LifetimeParam { name: name@ },
        }
    }
}

// ---------------------------------------------------------------------------
// Verified deep clones
// ---------------------------------------------------------------------------

/// Clones a vector of strings, preserving the contents.
pub fn clone_string_vec(v: &Vec<String>) -> (r: Vec<String>)
    ensures
        r.deep_view() == v.deep_view(),
{
    let mut r: Vec<String> = Vec::new();
    let n = v.len();
    for i in 0..n
        invariant
            n == v.len(),
            r.len() == i,
            forall|j: int| 0 <= j < i ==> r.deep_view()[j] == v.deep_view()[j],
    {
        r.push(v[i].clone());
    }
    assert(r.deep_view() =~= v.deep_view());
    r
}

/// Clones an optional string, preserving the contents.
pub fn clone_string_opt(v: &Option<String>) -> (r: Option<String>)
    ensures
        r.deep_view() == v.deep_view(),
{
    match v {
        Option::Some(s) => Option::Some(s.clone()),
        Option::None => Option::None,
    }
}

/// Clones a type expression, preserving its view.
pub fn clone_type(t: &TypeExpr) -> (r: TypeExpr)
    ensures
        r@ == t@,
    decreases *t,
{
    match t {
        TypeExpr::Path { prefix, name, args } => TypeExpr::Path {
            prefix: clone_string_vec(prefix),
            name: name.clone(),
            args: clone_path_args(args),
        },
        TypeExpr::Reference { lifetime, mutable, elem } => TypeExpr::Reference {
            lifetime: clone_string_opt(lifetime),
            mutable: *mutable,
            elem: Box::new(clone_type(elem)),
        },
        TypeExpr::Tuple { elems } => TypeExpr::Tuple { elems: clone_type_vec(elems) },
        TypeExpr::Array { elem, len } => TypeExpr::Array {
            elem: Box::new(clone_type(elem)),
            len: len.clone(),
        },
        TypeExpr::Verbatim { tokens } => TypeExpr::Verbatim { tokens: tokens.clone() },
    }
}

/// Clones a vector of type expressions, preserving the views.
pub fn clone_type_vec(v: &Vec<TypeExpr>) -> (r: Vec<TypeExpr>)
    ensures
        view_type_seq(r@) == view_type_seq(v@),
    decreases v@,
{
    let mut r: Vec<TypeExpr> = Vec::new();
    let n = v.len();
    for i in 0..n
        invariant
            n == v.len(),
            r.len() == i,
            forall|j: int| 0 <= j < i ==> view_type(#[trigger] r@[j]) == view_type(v@[j]),
    {
        r.push(clone_type(&v[i]));
    }
    proof {
        lemma_view_type_seq(r@);
        lemma_view_type_seq(v@);
        assert(view_type_seq(r@) =~= view_type_seq(v@));
    }
    r
}

/// Clones a path's generic-argument list, preserving its view.
pub fn clone_path_args(a: &PathArgs) -> (r: PathArgs)
    ensures
        view_args(r) == view_args(*a),
    decreases *a,
{
    match a {
        PathArgs::Absent => PathArgs::Absent,
        PathArgs::Angle { args } => PathArgs::Angle { args: clone_gen_arg_vec(args) },
        PathArgs::Opaque { tokens } => PathArgs::Opaque { tokens: tokens.clone() },
    }
}

/// Clones a vector of generic arguments, preserving the views.
pub fn clone_gen_arg_vec(v: &Vec<GenArg>) -> (r: Vec<GenArg>)
    ensures
        view_gen_arg_seq(r@) == view_gen_arg_seq(v@),
    decreases v@,
{
    let mut r: Vec<GenArg> = Vec::new();
    let n = v.len();
    for i in 0..n
        invariant
            n == v.len(),
            r.len() == i,
            forall|j: int| 0 <= j < i ==> view_gen_arg(#[trigger] r@[j]) == view_gen_arg(v@[j]),
    {
        r.push(clone_gen_arg(&v[i]));
    }
    proof {
        lemma_view_gen_arg_seq(r@);
        lemma_view_gen_arg_seq(v@);
        assert(view_gen_arg_seq(r@) =~= view_gen_arg_seq(v@));
    }
    r
}

/// Clones one generic argument, preserving its view.
pub fn clone_gen_arg(g: &GenArg) -> (r: GenArg)
    ensures
        view_gen_arg(r) == view_gen_arg(*g),
    decreases *g,
{
    match g {
        GenArg::TypeArg { ty } => GenArg::TypeArg { ty: clone_type(ty) },
        GenArg::OpaqueArg { tokens } => GenArg::OpaqueArg { tokens: tokens.clone() },
    }
}

} // verus!
