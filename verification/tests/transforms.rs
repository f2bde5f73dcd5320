use pyo3_state_machine::ast::{GenParam, PathArgs, TypeExpr};
use pyo3_state_machine::macro_impl::{
    macro_impl, CallTarget, DelegationItem, FnInput, ImplBlock, ImplMember, MemberOutput,
    MethodSig, Param, SelfKind,
};
use pyo3_state_machine::macro_struct::{macro_struct, StructDecl, StructOutput};
use pyo3_state_machine::mapping::Mapping;
use pyo3_state_machine::{GenError, MacroArgs, VisibilityKind};

fn ident(name: &str) -> TypeExpr {
    TypeExpr::Path { prefix: Vec::new(), name: name.to_string(), args: PathArgs::Absent }
}

fn plain_sig(name: &str, inputs: Vec<FnInput>, output: Option<TypeExpr>) -> MethodSig {
    MethodSig {
        unsafety: false,
        constness: false,
        asyncness: false,
        abi: None,
        name: name.to_string(),
        inputs,
        output,
    }
}

fn string_box_args() -> MacroArgs {
    let mut m = Mapping::new();
    m.insert("T".to_string(), ident("String"));
    MacroArgs {
        visibility: VisibilityKind::Public,
        py_class_name: "StringBox".to_string(),
        state_mappings: m,
    }
}

fn password_manager_args() -> MacroArgs {
    let mut m = Mapping::new();
    m.insert("A".to_string(), ident("AuthPending"));
    m.insert("B".to_string(), ident("Authenticated"));
    MacroArgs {
        visibility: VisibilityKind::Public,
        py_class_name: "PasswordManagerAuthPending".to_string(),
        state_mappings: m,
    }
}

#[test]
fn generic_container_end_to_end() {
    let args = string_box_args();
    let decl = StructDecl {
        name: "Box".to_string(),
        generics: vec![GenParam::TypeParam { name: "T".to_string() }],
    };
    let out = macro_struct(&args, &decl).unwrap();
    assert_eq!(
        out,
        StructOutput {
            visibility: VisibilityKind::Public,
            class_name: "StringBox".to_string(),
            inner_type_ident: "Box".to_string(),
            inner_args: vec![ident("String")],
        }
    );

    let args = string_box_args();
    let block = ImplBlock {
        unsafety: false,
        trait_name: None,
        self_ty: ident("Box"),
        generics: vec![GenParam::TypeParam { name: "T".to_string() }],
        members: vec![ImplMember::MethodItem {
            attrs: Vec::new(),
            vis: "pub".to_string(),
            sig: plain_sig(
                "get",
                vec![FnInput::Receiver { reference: true, mutable: false }],
                Some(ident("T")),
            ),
        }],
    };
    let out = macro_impl(&args, &block).unwrap();
    assert!(!out.unsafety);
    assert_eq!(out.trait_name, None);
    assert_eq!(out.class_name, "StringBox".to_string());
    assert_eq!(
        out.items,
        vec![MemberOutput::Generated {
            item: DelegationItem::MethodItem {
                attrs: Vec::new(),
                vis: "pub".to_string(),
                unsafety: false,
                constness: false,
                asyncness: false,
                abi: None,
                name: "get".to_string(),
                self_kind: SelfKind::ImmutableReference,
                params: Vec::new(),
                ret: Some(ident("String")),
                target: CallTarget::InnerInstance,
                wrap_result: false,
            },
        }]
    );
}

#[test]
fn typestate_transition_end_to_end() {
    let args = password_manager_args();
    let decl = StructDecl {
        name: "PasswordManager".to_string(),
        generics: vec![
            GenParam::TypeParam { name: "A".to_string() },
            GenParam::TypeParam { name: "B".to_string() },
        ],
    };
    let out = macro_struct(&args, &decl).unwrap();
    assert_eq!(
        out,
        StructOutput {
            visibility: VisibilityKind::Public,
            class_name: "PasswordManagerAuthPending".to_string(),
            inner_type_ident: "PasswordManager".to_string(),
            inner_args: vec![ident("AuthPending"), ident("Authenticated")],
        }
    );

    let args = password_manager_args();
    let block = ImplBlock {
        unsafety: false,
        trait_name: None,
        self_ty: ident("PasswordManager"),
        generics: vec![
            GenParam::TypeParam { name: "A".to_string() },
            GenParam::TypeParam { name: "B".to_string() },
        ],
        members: vec![ImplMember::MethodItem {
            attrs: Vec::new(),
            vis: "pub".to_string(),
            sig: plain_sig(
                "authenticate",
                vec![FnInput::Receiver { reference: false, mutable: false }],
                Some(ident("Self")),
            ),
        }],
    };
    let out = macro_impl(&args, &block).unwrap();
    assert_eq!(
        out.items,
        vec![MemberOutput::Generated {
            item: DelegationItem::MethodItem {
                attrs: Vec::new(),
                vis: "pub".to_string(),
                unsafety: false,
                constness: false,
                asyncness: false,
                abi: None,
                name: "authenticate".to_string(),
                self_kind: SelfKind::Consume,
                params: Vec::new(),
                ret: Some(ident("PasswordManagerAuthPending")),
                target: CallTarget::InnerInstance,
                wrap_result: true,
            },
        }]
    );
}

#[test]
fn static_method_targets_specialized_path() {
    let args = string_box_args();
    let block = ImplBlock {
        unsafety: false,
        trait_name: None,
        self_ty: ident("Box"),
        generics: vec![GenParam::TypeParam { name: "T".to_string() }],
        members: vec![ImplMember::MethodItem {
            attrs: Vec::new(),
            vis: "pub".to_string(),
            sig: plain_sig(
                "new",
                vec![FnInput::Typed { pat: "value".to_string(), ty: ident("T") }],
                Some(ident("Self")),
            ),
        }],
    };
    let out = macro_impl(&args, &block).unwrap();
    assert_eq!(
        out.items,
        vec![MemberOutput::Generated {
            item: DelegationItem::MethodItem {
                attrs: Vec::new(),
                vis: "pub".to_string(),
                unsafety: false,
                constness: false,
                asyncness: false,
                abi: None,
                name: "new".to_string(),
                self_kind: SelfKind::NoReceiver,
                params: vec![Param { pat: "value".to_string(), ty: ident("String") }],
                ret: Some(ident("StringBox")),
                target: CallTarget::StaticPath {
                    type_ident: "Box".to_string(),
                    generic_args: vec![ident("String")],
                },
                wrap_result: true,
            },
        }]
    );
}

#[test]
fn macro_item_reported_and_siblings_kept() {
    let args = string_box_args();
    let block = ImplBlock {
        unsafety: false,
        trait_name: None,
        self_ty: ident("Box"),
        generics: vec![GenParam::TypeParam { name: "T".to_string() }],
        members: vec![
            ImplMember::ConstItem {
                attrs: Vec::new(),
                vis: String::new(),
                name: "LIMIT".to_string(),
                ty: ident("usize"),
                expr: "8".to_string(),
            },
            ImplMember::MacroItem { tokens: "forward_methods!()".to_string() },
            ImplMember::MethodItem {
                attrs: Vec::new(),
                vis: String::new(),
                sig: plain_sig(
                    "len",
                    vec![FnInput::Receiver { reference: true, mutable: false }],
                    Some(ident("usize")),
                ),
            },
        ],
    };
    let out = macro_impl(&args, &block).unwrap();
    assert_eq!(out.items.len(), 3);
    assert!(matches!(out.items[0], MemberOutput::Generated { .. }));
    assert_eq!(
        out.items[1],
        MemberOutput::Unsupported { error: GenError::UnsupportedConstruct }
    );
    assert!(matches!(out.items[2], MemberOutput::Generated { .. }));
}

#[test]
fn unrecognized_item_reported_per_item() {
    let args = string_box_args();
    let block = ImplBlock {
        unsafety: false,
        trait_name: None,
        self_ty: ident("Box"),
        generics: Vec::new(),
        members: vec![ImplMember::UnrecognizedItem { tokens: "0".to_string() }],
    };
    let out = macro_impl(&args, &block).unwrap();
    assert_eq!(
        out.items,
        vec![MemberOutput::Unsupported { error: GenError::UnsupportedConstruct }]
    );
}

#[test]
fn const_item_re_emitted_without_substitution() {
    let args = string_box_args();
    let block = ImplBlock {
        unsafety: false,
        trait_name: None,
        self_ty: ident("Box"),
        generics: vec![GenParam::TypeParam { name: "T".to_string() }],
        members: vec![ImplMember::ConstItem {
            attrs: vec!["#[doc = \"limit\"]".to_string()],
            vis: "pub".to_string(),
            name: "DEFAULT".to_string(),
            ty: ident("T"),
            expr: "Default::default()".to_string(),
        }],
    };
    let out = macro_impl(&args, &block).unwrap();
    assert_eq!(
        out.items,
        vec![MemberOutput::Generated {
            item: DelegationItem::ConstItem {
                attrs: vec!["#[doc = \"limit\"]".to_string()],
                vis: "pub".to_string(),
                name: "DEFAULT".to_string(),
                ty: ident("T"),
                expr: "Default::default()".to_string(),
            },
        }]
    );
}

#[test]
fn associated_type_gets_resolved_arguments() {
    let args = string_box_args();
    let block = ImplBlock {
        unsafety: false,
        trait_name: Some("Container".to_string()),
        self_ty: ident("Box"),
        generics: vec![GenParam::TypeParam { name: "T".to_string() }],
        members: vec![ImplMember::TypeItem {
            attrs: Vec::new(),
            vis: String::new(),
            name: "Item".to_string(),
            generics: vec![GenParam::TypeParam { name: "T".to_string() }],
            ty: ident("Inner"),
        }],
    };
    let out = macro_impl(&args, &block).unwrap();
    assert_eq!(out.trait_name, Some("Container".to_string()));
    assert_eq!(
        out.items,
        vec![MemberOutput::Generated {
            item: DelegationItem::TypeItem {
                attrs: Vec::new(),
                vis: String::new(),
                name: "Item".to_string(),
                ty: ident("Inner"),
                generic_args: vec![ident("String")],
            },
        }]
    );
}

#[test]
fn unsafety_and_trait_copied() {
    let args = string_box_args();
    let block = ImplBlock {
        unsafety: true,
        trait_name: Some("Send".to_string()),
        self_ty: ident("Box"),
        generics: Vec::new(),
        members: Vec::new(),
    };
    let out = macro_impl(&args, &block).unwrap();
    assert!(out.unsafety);
    assert_eq!(out.trait_name, Some("Send".to_string()));
    assert!(out.items.is_empty());
}

#[test]
fn non_path_target_is_internal_inconsistency() {
    let args = string_box_args();
    let block = ImplBlock {
        unsafety: false,
        trait_name: None,
        self_ty: TypeExpr::Tuple { elems: Vec::new() },
        generics: Vec::new(),
        members: Vec::new(),
    };
    assert_eq!(macro_impl(&args, &block), Err(GenError::InternalInconsistency));
}

#[test]
fn lifetime_in_struct_generics_is_fatal() {
    let args = string_box_args();
    let decl = StructDecl {
        name: "Box".to_string(),
        generics: vec![GenParam::LifetimeParam { name: "'a".to_string() }],
    };
    assert_eq!(macro_struct(&args, &decl), Err(GenError::UnsupportedParameter));
}

#[test]
fn lifetime_in_impl_generics_fatal_for_static_method() {
    let args = string_box_args();
    let block = ImplBlock {
        unsafety: false,
        trait_name: None,
        self_ty: ident("Box"),
        generics: vec![GenParam::LifetimeParam { name: "'a".to_string() }],
        members: vec![ImplMember::MethodItem {
            attrs: Vec::new(),
            vis: String::new(),
            sig: plain_sig("make", Vec::new(), Some(ident("Self"))),
        }],
    };
    assert_eq!(macro_impl(&args, &block), Err(GenError::UnsupportedParameter));
}

#[test]
fn struct_default_visibility_is_private() {
    let mut m = Mapping::new();
    m.insert("T".to_string(), ident("u8"));
    let args = MacroArgs {
        visibility: VisibilityKind::Private,
        py_class_name: "ByteBox".to_string(),
        state_mappings: m,
    };
    let decl = StructDecl {
        name: "Box".to_string(),
        generics: vec![GenParam::TypeParam { name: "T".to_string() }],
    };
    let out = macro_struct(&args, &decl).unwrap();
    assert_eq!(out.visibility, VisibilityKind::Private);
}
