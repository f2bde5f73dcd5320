//! The struct transform: emits the wrapper data type that holds one instance
//! of the original type, instantiated with the resolved generic arguments,
//! together with the conversion constructor from that instantiated type.

use vstd::prelude::*;

use crate::ast::{view_type_seq, GenParam, TypeExpr};
use crate::mapping::Mapping;
use crate::{generate_hardcoded_generics, has_lifetime, spec_resolve_seq, GenError, MacroArgs};

verus! {

/// The original data-type declaration, as far as the transform inspects it:
/// its identifier and its declared generic parameters. The declaration
/// itself is always re-emitted unchanged alongside the generated wrapper.
#[derive(PartialEq, Eq, Debug)]
pub struct StructDecl {
    pub name: String,
    pub generics: Vec<GenParam>,
}

/// The generated wrapper declaration: a type named `class_name`, carrying
/// the directive's visibility, whose single field holds one exclusively
/// owned instance of `inner_type_ident` instantiated with `inner_args`.
/// The conversion constructor from that instantiated type into the wrapper
/// is generated alongside and has no varying parts beyond these.
#[derive(PartialEq, Eq, Debug)]
pub struct StructOutput {
    pub visibility: crate::VisibilityKind,
    pub class_name: String,
    pub inner_type_ident: String,
    pub inner_args: Vec<TypeExpr>,
}

/// Transforms a data-type declaration into the wrapper declaration.
///
/// Succeeds exactly when the declared generic-parameter list holds no
/// lifetime parameter; the wrapper then carries the directive's visibility
/// (the private default if none was supplied) and holds the original type
/// instantiated with the resolved argument list, one argument per declared
/// parameter, in declared order.
pub fn macro_struct(args: &MacroArgs, input: &StructDecl) -> (r: Result<StructOutput, GenError>)
    requires
        args.wf(),
    ensures
        match r {
            Ok(out) => {
                &&& !has_lifetime(input.generics@)
                &&& out.visibility == args.visibility
                &&& out.class_name@ == args.py_class_name@
                &&& out.inner_type_ident@ == input.name@
                &&& view_type_seq(out.inner_args@) == spec_resolve_seq(
                    args.state_mappings@,
                    input.generics@,
                )
            },
            Err(e) => e == GenError::UnsupportedParameter && has_lifetime(input.generics@),
        },
{
    match generate_hardcoded_generics(&args.state_mappings, &input.generics) {
        Ok(inner_args) => Ok(
            StructOutput {
                visibility: args.visibility,
                class_name: args.py_class_name.clone(),
                inner_type_ident: input.name.clone(),
                inner_args,
            },
        ),
        Err(e) => Err(e),
    }
}

} // verus!
