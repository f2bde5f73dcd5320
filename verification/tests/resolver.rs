use pyo3_state_machine::ast::{GenParam, PathArgs, TypeExpr};
use pyo3_state_machine::mapping::Mapping;
use pyo3_state_machine::{generate_hardcoded_generics, GenError};

fn ident(name: &str) -> TypeExpr {
    TypeExpr::Path { prefix: Vec::new(), name: name.to_string(), args: PathArgs::Absent }
}

#[test]
fn resolver_keeps_declared_order_and_length() {
    let mut m = Mapping::new();
    m.insert("B".to_string(), ident("Authenticated"));
    m.insert("A".to_string(), ident("AuthPending"));
    let generics = vec![
        GenParam::TypeParam { name: "A".to_string() },
        GenParam::TypeParam { name: "B".to_string() },
    ];
    let out = generate_hardcoded_generics(&m, &generics).unwrap();
    assert_eq!(out, vec![ident("AuthPending"), ident("Authenticated")]);
}

#[test]
fn resolver_unmapped_parameter_yields_sentinel() {
    let mut m = Mapping::new();
    m.insert("A".to_string(), ident("AuthPending"));
    let generics = vec![
        GenParam::TypeParam { name: "A".to_string() },
        GenParam::TypeParam { name: "B".to_string() },
    ];
    let out = generate_hardcoded_generics(&m, &generics).unwrap();
    assert_eq!(out, vec![ident("AuthPending"), ident("Please")]);
}

#[test]
fn resolver_empty_mapping_yields_all_sentinels() {
    let m = Mapping::new();
    let generics = vec![
        GenParam::TypeParam { name: "A".to_string() },
        GenParam::TypeParam { name: "B".to_string() },
        GenParam::TypeParam { name: "C".to_string() },
    ];
    let out = generate_hardcoded_generics(&m, &generics).unwrap();
    assert_eq!(out, vec![ident("Please"), ident("Please"), ident("Please")]);
}

#[test]
fn resolver_const_parameter_re_emits_its_name() {
    let m = Mapping::new();
    let generics = vec![GenParam::ConstParam { name: "N".to_string() }];
    let out = generate_hardcoded_generics(&m, &generics).unwrap();
    assert_eq!(out, vec![ident("N")]);
}

#[test]
fn resolver_empty_parameter_list() {
    let m = Mapping::new();
    let out = generate_hardcoded_generics(&m, &Vec::new()).unwrap();
    assert!(out.is_empty());
}

#[test]
fn resolver_lifetime_parameter_rejected() {
    let mut m = Mapping::new();
    m.insert("A".to_string(), ident("AuthPending"));
    let generics = vec![
        GenParam::TypeParam { name: "A".to_string() },
        GenParam::LifetimeParam { name: "'a".to_string() },
    ];
    assert_eq!(generate_hardcoded_generics(&m, &generics), Err(GenError::UnsupportedParameter));
}

#[test]
fn resolver_lifetime_rejected_wherever_it_stands() {
    let m = Mapping::new();
    let generics = vec![
        GenParam::LifetimeParam { name: "'a".to_string() },
        GenParam::TypeParam { name: "A".to_string() },
    ];
    assert_eq!(generate_hardcoded_generics(&m, &generics), Err(GenError::UnsupportedParameter));
}
