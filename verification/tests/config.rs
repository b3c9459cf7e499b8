use mkcert_rs::config::{
    Config, DnAttribute, DEFAULT_COMMON_NAME, DEFAULT_COUNTRY, DEFAULT_LOCALITY, DEFAULT_ORG_NAME,
    DEFAULT_ORG_UNIT,
};

fn sample() -> Config {
    Config {
        common_name: Some("Test CA".to_string()),
        locality: Some("Berlin".to_string()),
        country: Some("DE".to_string()),
        org_unit: Some("Platform".to_string()),
        org_name: Some("Example".to_string()),
        thumbprint: None,
    }
}

fn bare() -> Config {
    Config {
        common_name: None,
        locality: None,
        country: None,
        org_unit: None,
        org_name: None,
        thumbprint: None,
    }
}

#[test]
fn default_identity_has_the_fixed_values() {
    let config = Config::default();
    assert_eq!(config.common_name.as_deref(), Some("Mkcert Development CA"));
    assert_eq!(config.locality.as_deref(), Some("San Francisco"));
    assert_eq!(config.country.as_deref(), Some("US"));
    assert_eq!(config.org_unit.as_deref(), Some("Development"));
    assert_eq!(config.org_name.as_deref(), Some("mkcert-rs"));
    assert_eq!(config.thumbprint, None);
}

#[test]
fn default_constants() {
    assert_eq!(DEFAULT_COMMON_NAME, "Mkcert Development CA");
    assert_eq!(DEFAULT_LOCALITY, "San Francisco");
    assert_eq!(DEFAULT_COUNTRY, "US");
    assert_eq!(DEFAULT_ORG_UNIT, "Development");
    assert_eq!(DEFAULT_ORG_NAME, "mkcert-rs");
}

#[test]
fn read_config_creates_the_default_on_first_use() {
    let (config, created) = Config::read_config(None);
    assert!(created);
    assert_eq!(config.common_name.as_deref(), Some("Mkcert Development CA"));
    assert_eq!(config.org_name.as_deref(), Some("mkcert-rs"));
    assert_eq!(config.thumbprint, None);
}

#[test]
fn read_config_keeps_what_was_stored() {
    let stored = sample().with_thumbprint("AB12".to_string());
    let (config, created) = Config::read_config(Some(stored));
    assert!(!created);
    assert_eq!(config.common_name.as_deref(), Some("Test CA"));
    assert_eq!(config.locality.as_deref(), Some("Berlin"));
    assert_eq!(config.country.as_deref(), Some("DE"));
    assert_eq!(config.org_unit.as_deref(), Some("Platform"));
    assert_eq!(config.org_name.as_deref(), Some("Example"));
    assert_eq!(config.thumbprint.as_deref(), Some("AB12"));
}

#[test]
fn attribute_is_what_the_identity_holds() {
    let config = sample();
    assert_eq!(config.attribute(DnAttribute::CommonName), "Test CA");
    assert_eq!(config.attribute(DnAttribute::Locality), "Berlin");
    assert_eq!(config.attribute(DnAttribute::Country), "DE");
    assert_eq!(config.attribute(DnAttribute::Organization), "Example");
    assert_eq!(config.attribute(DnAttribute::OrganizationalUnit), "Platform");
}

#[test]
fn attribute_falls_back_where_absent() {
    let config = bare();
    assert_eq!(config.attribute(DnAttribute::CommonName), "Mkcert Development CA");
    assert_eq!(config.attribute(DnAttribute::Locality), "San Francisco");
    assert_eq!(config.attribute(DnAttribute::Country), "US");
    assert_eq!(config.attribute(DnAttribute::Organization), "mkcert-rs");
    assert_eq!(config.attribute(DnAttribute::OrganizationalUnit), "Development");
}

#[test]
fn attribute_falls_back_one_by_one() {
    let config = Config { common_name: Some("Test CA".to_string()), ..bare() };
    assert_eq!(config.attribute(DnAttribute::CommonName), "Test CA");
    assert_eq!(config.attribute(DnAttribute::Country), "US");
}

#[test]
fn an_empty_attribute_is_not_absent() {
    let config = Config { locality: Some(String::new()), ..bare() };
    assert_eq!(config.attribute(DnAttribute::Locality), "");
}

#[test]
fn with_thumbprint_sets_only_the_thumbprint() {
    let config = sample().with_thumbprint("DA39".to_string());
    assert!(config.is_installed());
    assert_eq!(config.thumbprint.as_deref(), Some("DA39"));
    assert_eq!(config.common_name.as_deref(), Some("Test CA"));
    assert_eq!(config.locality.as_deref(), Some("Berlin"));
    assert_eq!(config.country.as_deref(), Some("DE"));
    assert_eq!(config.org_unit.as_deref(), Some("Platform"));
    assert_eq!(config.org_name.as_deref(), Some("Example"));
}

#[test]
fn with_thumbprint_replaces_an_earlier_one() {
    let config = sample().with_thumbprint("OLD".to_string()).with_thumbprint("NEW".to_string());
    assert_eq!(config.thumbprint.as_deref(), Some("NEW"));
}

#[test]
fn without_thumbprint_clears_only_the_thumbprint() {
    let config = sample().with_thumbprint("DA39".to_string()).without_thumbprint();
    assert!(!config.is_installed());
    assert_eq!(config.thumbprint, None);
    assert_eq!(config.common_name.as_deref(), Some("Test CA"));
    assert_eq!(config.org_name.as_deref(), Some("Example"));
}

#[test]
fn a_fresh_identity_is_not_installed() {
    assert!(!Config::default().is_installed());
    assert!(!bare().without_thumbprint().is_installed());
}

#[test]
fn files_are_named() {
    assert_eq!(mkcert_rs::store::APP_DIR, "mkcert-rs");
    assert_eq!(mkcert_rs::store::CONFIG_FILE, "config.json");
    assert_eq!(mkcert_rs::store::ROOT_CERT_FILE, "rootCA.crt");
    assert_eq!(mkcert_rs::store::ROOT_KEY_FILE, "rootCA.key");
    assert_eq!(mkcert_rs::store::ROOT_P12_FILE, "rootCA.p12");
}
