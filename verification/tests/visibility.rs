use pyo3_state_machine::ast::{PathArgs, TypeExpr};
use pyo3_state_machine::mapping::Mapping;
use pyo3_state_machine::{visibility_from_literal, GenError, VisibilityKind};

fn ident(name: &str) -> TypeExpr {
    TypeExpr::Path { prefix: Vec::new(), name: name.to_string(), args: PathArgs::Absent }
}

#[test]
fn visibility_omitted_is_private() {
    assert_eq!(visibility_from_literal(None), Ok(VisibilityKind::Private));
}

#[test]
fn visibility_pub_accepted() {
    let lit = "pub".to_string();
    assert_eq!(visibility_from_literal(Some(&lit)), Ok(VisibilityKind::Public));
}

#[test]
fn visibility_pub_crate_accepted() {
    let lit = "pub(crate)".to_string();
    assert_eq!(visibility_from_literal(Some(&lit)), Ok(VisibilityKind::PublicCrate));
}

#[test]
fn visibility_pub_super_accepted() {
    let lit = "pub(super)".to_string();
    assert_eq!(visibility_from_literal(Some(&lit)), Ok(VisibilityKind::PublicSuper));
}

#[test]
fn visibility_other_literals_rejected() {
    for bad in ["private", "PUB", "pub(in crate::a)", "pub(self)", "", "pub "] {
        let lit = bad.to_string();
        assert_eq!(visibility_from_literal(Some(&lit)), Err(GenError::Syntax));
    }
}

#[test]
fn mapping_absent_key_is_none() {
    let m = Mapping::new();
    assert!(m.get_cloned(&"T".to_string()).is_none());
}

#[test]
fn mapping_insert_then_get() {
    let mut m = Mapping::new();
    m.insert("T".to_string(), ident("String"));
    assert_eq!(m.get_cloned(&"T".to_string()), Some(ident("String")));
    assert!(m.get_cloned(&"U".to_string()).is_none());
}

#[test]
fn mapping_insert_replaces_earlier_binding() {
    let mut m = Mapping::new();
    m.insert("T".to_string(), ident("String"));
    m.insert("T".to_string(), ident("u64"));
    assert_eq!(m.get_cloned(&"T".to_string()), Some(ident("u64")));
}
