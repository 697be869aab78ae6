use openttd_social_integration_api::metadata::Attributes;
use openttd_social_integration_api::metadata::MetadataError;
use openttd_social_integration_api::metadata::get_info;

fn full_attributes() -> Attributes {
    let mut attrs = Attributes::new();
    attrs
        .parse(&"platform".to_string(), "Discord".to_string())
        .unwrap();
    attrs
        .parse(&"name".to_string(), "Discord Plugin".to_string())
        .unwrap();
    attrs.parse(&"version".to_string(), "0.1".to_string()).unwrap();
    attrs
}

#[test]
fn parse_assigns_each_key() {
    let attrs = full_attributes();
    assert_eq!(attrs.social_platform.as_deref(), Some("Discord"));
    assert_eq!(attrs.name.as_deref(), Some("Discord Plugin"));
    assert_eq!(attrs.version.as_deref(), Some("0.1"));
}

#[test]
fn default_attributes_have_no_keys() {
    let attrs = Attributes::default();
    assert!(attrs.social_platform.is_none());
    assert!(attrs.name.is_none());
    assert!(attrs.version.is_none());
}

#[test]
fn parse_rejects_unknown_key() {
    let mut attrs = Attributes::new();
    let r = attrs.parse(&"author".to_string(), "someone".to_string());
    assert_eq!(r, Err(MetadataError::UnsupportedProperty));
    assert!(attrs.social_platform.is_none());
    assert!(attrs.name.is_none());
    assert!(attrs.version.is_none());
}

#[test]
fn validate_accepts_full_triple() {
    let meta = full_attributes().validate().unwrap();
    assert_eq!(meta.social_platform, "Discord");
    assert_eq!(meta.name, "Discord Plugin");
    assert_eq!(meta.version, "0.1");
}

#[test]
fn validate_rejects_missing_platform() {
    let mut attrs = full_attributes();
    attrs.social_platform = None;
    assert_eq!(attrs.validate().unwrap_err(), MetadataError::MissingAttribute);
}

#[test]
fn validate_rejects_missing_name() {
    let mut attrs = full_attributes();
    attrs.name = None;
    assert_eq!(attrs.validate().unwrap_err(), MetadataError::MissingAttribute);
}

#[test]
fn validate_rejects_missing_version() {
    let mut attrs = full_attributes();
    attrs.version = None;
    assert_eq!(attrs.validate().unwrap_err(), MetadataError::MissingAttribute);
}

#[test]
fn validate_rejects_empty_value() {
    let mut attrs = full_attributes();
    attrs.name = Some(String::new());
    assert_eq!(attrs.validate().unwrap_err(), MetadataError::EmptyAttribute);
}

#[test]
fn get_info_populates_exact_values_repeatedly() {
    let meta = full_attributes().validate().unwrap();
    let first = get_info(&meta);
    assert_eq!(first.social_platform, "Discord");
    assert_eq!(first.name, "Discord Plugin");
    assert_eq!(first.version, "0.1");
    let second = get_info(&meta);
    assert_eq!(first.social_platform, second.social_platform);
    assert_eq!(first.name, second.name);
    assert_eq!(first.version, second.version);
}
