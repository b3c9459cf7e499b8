use mkcert_rs::env::{
    common_name, country, locality, org_name, org_unit, COMMON_NAME_VAR, COUNTRY_VAR, LOCALITY_VAR,
    ORG_NAME_VAR, ORG_UNIT_VAR,
};

#[test]
fn variables_are_named() {
    assert_eq!(COMMON_NAME_VAR, "COMMON_NAME");
    assert_eq!(LOCALITY_VAR, "LOCALITY");
    assert_eq!(COUNTRY_VAR, "COUNTRY");
    assert_eq!(ORG_UNIT_VAR, "ORG_UNIT");
    assert_eq!(ORG_NAME_VAR, "ORG_NAME");
}

#[test]
fn unset_variables_fall_back() {
    assert_eq!(common_name(None), "Mkcert Development Certificate");
    assert_eq!(locality(None), "San Francisco");
    assert_eq!(country(None), "US");
    assert_eq!(org_unit(None), "Development");
    assert_eq!(org_name(None), "Mkcert");
}

#[test]
fn set_variables_are_taken() {
    assert_eq!(common_name(Some("My CA".to_string())), "My CA");
    assert_eq!(locality(Some("Oslo".to_string())), "Oslo");
    assert_eq!(country(Some("NO".to_string())), "NO");
    assert_eq!(org_unit(Some("Ops".to_string())), "Ops");
    assert_eq!(org_name(Some("Example".to_string())), "Example");
}

#[test]
fn an_empty_variable_is_set() {
    assert_eq!(common_name(Some(String::new())), "");
}
