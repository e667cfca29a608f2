use plugin_manifest::Manifest;
use plugin_manifest::ManifestError;

#[test]
fn test_facade_detects_package() {
    let toml = r#"
[package]
id = "vendor.pack"
name = "Test Pack"
version = "1.0.0"

[[plugins]]
id = "vendor.plugin-a"
name = "Plugin A"
type = "extension"
binary = "plugin_a"

[[plugins]]
id = "vendor.plugin-b"
name = "Plugin B"
type = "theme"
binary = "plugin_b"
"#;
    let manifest = Manifest::from_toml(toml).unwrap();
    assert!(manifest.is_package());
    assert_eq!(manifest.id(), "vendor.pack");
    assert_eq!(manifest.version(), "1.0.0");
    assert_eq!(manifest.plugin_ids(), vec!["vendor.plugin-a", "vendor.plugin-b"]);
    assert!(manifest.cli_config().is_none());
}

#[test]
fn test_facade_detects_single_plugin() {
    let toml = r#"
[plugin]
id = "vendor.single"
name = "Single"
version = "0.2.0"
type = "extension"

[cli]
command = "single"
"#;
    let manifest = Manifest::from_toml(toml).unwrap();
    assert!(!manifest.is_package());
    assert_eq!(manifest.id(), "vendor.single");
    assert_eq!(manifest.version(), "0.2.0");
    assert_eq!(manifest.plugin_ids(), vec!["vendor.single"]);
    let cli = manifest.cli_config().unwrap();
    assert_eq!(cli.command, "single");
}

#[test]
fn test_facade_rejects_neither_marker() {
    let toml = r#"
[something]
key = "value"
"#;
    let result = Manifest::from_toml(toml);
    assert!(matches!(result, Err(ManifestError::InvalidFormat(_))));
}

#[test]
fn test_facade_package_marker_takes_priority() {
    let toml = r#"
[package]
id = "vendor.pack"
name = "Pack"
version = "1.0.0"

[plugin]
id = "vendor.stray"
name = "Stray"
version = "1.0.0"
type = "extension"

[[plugins]]
id = "vendor.plugin-a"
name = "Plugin A"
type = "extension"
binary = "plugin_a"
"#;
    let manifest = Manifest::from_toml(toml).unwrap();
    assert!(manifest.is_package());
    assert_eq!(manifest.id(), "vendor.pack");
}

#[test]
fn test_facade_propagates_parse_errors() {
    let result = Manifest::from_toml("[package\nbroken");
    assert!(matches!(result, Err(ManifestError::TomlParse(_))));
}
