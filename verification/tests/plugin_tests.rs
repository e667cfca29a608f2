use plugin_manifest::ManifestError;
use plugin_manifest::PluginManifest;

#[test]
fn test_parse_plugin_manifest() {
    let toml = r#"
[plugin]
id = "vendor.test-plugin"
name = "Test Plugin"
version = "1.0.0"
type = "extension"
author = "Test Author"

[compatibility]
api_version = 1
min_host_version = "0.8.0"
platforms = ["darwin-aarch64", "linux-x86_64"]

[binary]
name = "test_plugin"
[binary.checksums]
darwin-aarch64 = "sha256:abc123"

[config.defaults]
enabled = true
"#;

    let manifest = PluginManifest::from_toml(toml).unwrap();
    assert_eq!(manifest.plugin.id, "vendor.test-plugin");
    assert_eq!(manifest.plugin.name, "Test Plugin");
    assert_eq!(manifest.plugin.version, "1.0.0");
    assert_eq!(manifest.plugin.plugin_type, "extension");
    assert_eq!(manifest.compatibility.api_version, 1);
    assert_eq!(manifest.binary.name, "test_plugin");
}

#[test]
fn test_binary_filename() {
    let toml = r#"
[plugin]
id = "test.plugin"
name = "Test"
version = "1.0.0"
type = "test"

[binary]
name = "my_plugin"
"#;

    let manifest = PluginManifest::from_toml(toml).unwrap();
    let filename = manifest.binary_filename();
    assert!(filename.contains("my_plugin"));
}

#[test]
fn test_missing_plugin_id() {
    let toml = r#"
[plugin]
name = "Test"
version = "1.0.0"
type = "test"
"#;
    let result = PluginManifest::from_toml(toml);
    match result {
        Err(ManifestError::MissingField(path)) => assert_eq!(path, "plugin.id"),
        other => panic!("expected a missing-field error, got {:?}", other),
    }
}

#[test]
fn test_missing_plugin_name() {
    let toml = r#"
[plugin]
id = "test.plugin"
version = "1.0.0"
type = "test"
"#;
    let result = PluginManifest::from_toml(toml);
    match result {
        Err(ManifestError::MissingField(path)) => assert_eq!(path, "plugin.name"),
        other => panic!("expected a missing-field error, got {:?}", other),
    }
}

#[test]
fn test_missing_plugin_type() {
    let toml = r#"
[plugin]
id = "test.plugin"
name = "Test"
version = "1.0.0"
"#;
    let result = PluginManifest::from_toml(toml);
    match result {
        Err(ManifestError::MissingField(path)) => assert_eq!(path, "plugin.type"),
        other => panic!("expected a missing-field error, got {:?}", other),
    }
}

#[test]
fn test_missing_plugin_section() {
    let toml = r#"
[binary]
name = "my_plugin"
"#;
    let result = PluginManifest::from_toml(toml);
    match result {
        Err(ManifestError::MissingField(path)) => assert_eq!(path, "plugin"),
        other => panic!("expected a missing-field error, got {:?}", other),
    }
}

#[test]
fn test_minimal_manifest_defaults() {
    let toml = r#"
[plugin]
id = "test.plugin"
name = "Test"
version = "1.0.0"
type = "test"
"#;
    let manifest = PluginManifest::from_toml(toml).unwrap();
    assert_eq!(manifest.compatibility.api_version, 2);
    assert_eq!(manifest.binary.name, "plugin");
    assert!(manifest.provides.is_empty());
    assert!(manifest.cli.is_none());
    assert!(manifest.requires.is_empty());
    assert!(manifest.capabilities.is_empty());
    assert!(manifest.signature.is_none());
    assert!(manifest.config.defaults.is_empty());
    assert_eq!(manifest.plugin.author, "");
    assert_eq!(manifest.plugin.description, "");
    assert!(manifest.plugin.license.is_none());
    assert!(manifest.compatibility.platforms.is_empty());
    assert!(manifest.compatibility.depends_on.is_empty());
}

#[test]
fn test_wrong_field_type_is_parse_error() {
    let toml = r#"
[plugin]
id = 17
name = "Test"
version = "1.0.0"
type = "test"
"#;
    let result = PluginManifest::from_toml(toml);
    assert!(matches!(result, Err(ManifestError::TomlParse(_))));
}

#[test]
fn test_unparseable_text_is_parse_error() {
    let result = PluginManifest::from_toml("this is [not TOML");
    assert!(matches!(result, Err(ManifestError::TomlParse(_))));
}

#[test]
fn test_round_trip_plugin_manifest() {
    let toml = r#"
[plugin]
id = "vendor.round-trip"
name = "Round Trip"
version = "2.3.4"
type = "extension"
author = "Vendor"
license = "MIT"

[compatibility]
api_version = 3
min_host_version = "0.9.0"
platforms = ["linux-x86_64"]
depends_on = ["vendor.base"]

[binary]
name = "round_trip"

[cli]
command = "round-trip"
description = "Says it back"
aliases = ["rt"]
dynamic_completions = true

[[provides]]
id = "vendor.round-trip.svc"
version = "1.2.0"
description = "A service"

[[requires]]
id = "vendor.base.svc"
min_version = "0.5.0"
optional = true

[[capabilities]]
protocol = "vendor.proto"
version = "1.0.0"

[tags]
categories = ["demo"]

[signature]
public_key = "SECRET-REDACTED"
signature_file = "plugin.sig"
"#;
    let first = PluginManifest::from_toml(toml).unwrap();
    let text = first.to_toml().unwrap();
    let second = PluginManifest::from_toml(&text).unwrap();

    assert_eq!(second.plugin.id, first.plugin.id);
    assert_eq!(second.plugin.name, first.plugin.name);
    assert_eq!(second.plugin.version, first.plugin.version);
    assert_eq!(second.plugin.plugin_type, first.plugin.plugin_type);
    assert_eq!(second.plugin.author, first.plugin.author);
    assert_eq!(second.plugin.license, first.plugin.license);

    let cli1 = first.cli.as_ref().unwrap();
    let cli2 = second.cli.as_ref().unwrap();
    assert_eq!(cli2.command, cli1.command);
    assert_eq!(cli2.description, cli1.description);
    assert_eq!(cli2.aliases, cli1.aliases);
    assert_eq!(cli2.dynamic_completions, cli1.dynamic_completions);

    assert_eq!(second.provides.len(), first.provides.len());
    assert_eq!(second.provides[0].id, first.provides[0].id);
    assert_eq!(second.provides[0].version, first.provides[0].version);
    assert_eq!(second.provides[0].description, first.provides[0].description);

    assert_eq!(second.requires.len(), 1);
    assert_eq!(second.requires[0].id, "vendor.base.svc");
    assert_eq!(second.requires[0].min_version.as_deref(), Some("0.5.0"));
    assert!(second.requires[0].optional);

    assert_eq!(second.capabilities.len(), 1);
    assert_eq!(second.capabilities[0].protocol, "vendor.proto");

    assert_eq!(second.compatibility.api_version, 3);
    assert_eq!(second.compatibility.platforms, vec!["linux-x86_64"]);
    assert_eq!(second.compatibility.depends_on, vec!["vendor.base"]);
    assert_eq!(second.binary.name, "round_trip");
    let sig = second.signature.as_ref().unwrap();
    assert_eq!(sig.public_key, "SECRET-REDACTED");
    assert_eq!(sig.signature_file, "plugin.sig");
    let tags = second.tags.as_ref().unwrap();
    assert_eq!(tags.categories, vec!["demo"]);
}

#[test]
fn test_round_trip_minimal_manifest() {
    let toml = r#"
[plugin]
id = "a.b"
name = "AB"
version = "0.1.0"
type = "core"
"#;
    let first = PluginManifest::from_toml(toml).unwrap();
    let text = first.to_toml().unwrap();
    let second = PluginManifest::from_toml(&text).unwrap();
    assert_eq!(second.plugin.id, "a.b");
    assert_eq!(second.plugin.version, "0.1.0");
    assert!(second.cli.is_none());
    assert!(second.provides.is_empty());
    assert!(second.tags.is_none());
    assert!(second.hive.is_none());
    assert!(second.translation.is_none());
    assert!(second.language.is_none());
    assert!(second.requirements.is_none());
}

#[test]
fn test_error_messages() {
    assert_eq!(
        ManifestError::Io("gone".to_string()).message(),
        "IO error: gone"
    );
    assert_eq!(
        ManifestError::InvalidVersion("x.y".to_string()).message(),
        "Invalid version: x.y"
    );
    assert_eq!(
        ManifestError::MissingField("plugin.id".to_string()).message(),
        "Missing required field: plugin.id"
    );
    assert_eq!(
        ManifestError::CircularDependency("a.b".to_string()).message(),
        "Circular dependency detected: a.b"
    );
}
