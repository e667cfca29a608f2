use plugin_manifest::ManifestError;
use plugin_manifest::PackageManifest;

#[test]
fn test_parse_package_manifest() {
    let toml = r#"
[package]
id = "vendor.theme-pack"
name = "Theme Collection"
version = "2.0.0"
author = "Vendor Team"
description = "A collection of themes"

[compatibility]
api_version = 1
min_host_version = "0.8.0"

[[plugins]]
id = "vendor.theme-dark"
name = "Dark Theme"
type = "theme"
binary = "dark_theme"

[[plugins]]
id = "vendor.theme-light"
name = "Light Theme"
type = "theme"
binary = "light_theme"

[[plugins]]
id = "vendor.theme-custom"
name = "Custom Theme Builder"
type = "extension"
binary = "custom_builder"
depends_on = ["vendor.theme-dark"]

[binary.checksums]
darwin-aarch64 = "sha256:abc123"
"#;

    let manifest = PackageManifest::from_toml(toml).unwrap();
    assert_eq!(manifest.package.id, "vendor.theme-pack");
    assert_eq!(manifest.package.name, "Theme Collection");
    assert_eq!(manifest.plugins.len(), 3);
}

#[test]
fn test_expand_plugins() {
    let toml = r#"
[package]
id = "vendor.pack"
name = "Test Pack"
version = "1.0.0"

[[plugins]]
id = "vendor.plugin-a"
name = "Plugin A"
type = "extension"
binary = "plugin_a"

[[plugins]]
id = "vendor.plugin-b"
name = "Plugin B"
type = "theme"
binary = "plugin_b"
"#;

    let manifest = PackageManifest::from_toml(toml).unwrap();
    let expanded = manifest.expand_plugins();

    assert_eq!(expanded.len(), 2);
    assert_eq!(expanded[0].plugin.id, "vendor.plugin-a");
    assert_eq!(expanded[1].plugin.id, "vendor.plugin-b");
    // All inherit package version
    assert_eq!(expanded[0].plugin.version, "1.0.0");
    assert_eq!(expanded[1].plugin.version, "1.0.0");
}

#[test]
fn test_install_order() {
    let toml = r#"
[package]
id = "vendor.pack"
name = "Test Pack"
version = "1.0.0"

[[plugins]]
id = "vendor.plugin-c"
name = "Plugin C"
type = "extension"
binary = "plugin_c"
depends_on = ["vendor.plugin-a", "vendor.plugin-b"]

[[plugins]]
id = "vendor.plugin-a"
name = "Plugin A"
type = "extension"
binary = "plugin_a"

[[plugins]]
id = "vendor.plugin-b"
name = "Plugin B"
type = "extension"
binary = "plugin_b"
depends_on = ["vendor.plugin-a"]
"#;

    let manifest = PackageManifest::from_toml(toml).unwrap();
    let order = manifest.install_order().unwrap();

    // A must come before B (B depends on A)
    // A and B must come before C (C depends on both)
    let ids: Vec<&str> = order.iter().map(|p| p.id.as_str()).collect();
    let pos_a = ids.iter().position(|&id| id == "vendor.plugin-a").unwrap();
    let pos_b = ids.iter().position(|&id| id == "vendor.plugin-b").unwrap();
    let pos_c = ids.iter().position(|&id| id == "vendor.plugin-c").unwrap();

    assert!(pos_a < pos_b, "A should come before B");
    assert!(pos_a < pos_c, "A should come before C");
    assert!(pos_b < pos_c, "B should come before C");
}

#[test]
fn test_circular_dependency_detection() {
    let toml = r#"
[package]
id = "vendor.pack"
name = "Test Pack"
version = "1.0.0"

[[plugins]]
id = "vendor.plugin-a"
name = "Plugin A"
type = "extension"
binary = "plugin_a"
depends_on = ["vendor.plugin-b"]

[[plugins]]
id = "vendor.plugin-b"
name = "Plugin B"
type = "extension"
binary = "plugin_b"
depends_on = ["vendor.plugin-a"]
"#;

    let manifest = PackageManifest::from_toml(toml).unwrap();
    let result = manifest.install_order();

    assert!(result.is_err());
    assert!(matches!(result, Err(ManifestError::CircularDependency(_))));
}

#[test]
fn test_expand_inherits_shared_fields() {
    let toml = r#"
[package]
id = "vendor.pack"
name = "Test Pack"
version = "1.0.0"
author = "Vendor"
description = "Shared description"
license = "Apache-2.0"

[compatibility]
api_version = 4
depends_on = ["vendor.shared-base"]

[[plugins]]
id = "vendor.plugin-a"
name = "Plugin A"
type = "extension"
binary = "plugin_a"
description = "Own description"

[[plugins]]
id = "vendor.plugin-b"
name = "Plugin B"
type = "theme"
binary = "plugin_b"
depends_on = ["vendor.plugin-a"]

[binary.checksums]
linux-x86_64 = "sha256:def456"
"#;
    let manifest = PackageManifest::from_toml(toml).unwrap();
    let expanded = manifest.expand_plugins();

    // shared fields are inherited
    assert_eq!(expanded[0].plugin.author, "Vendor");
    assert_eq!(expanded[0].plugin.license.as_deref(), Some("Apache-2.0"));
    assert_eq!(expanded[0].compatibility.api_version, 4);
    assert_eq!(
        expanded[0].binary.checksums,
        vec![("linux-x86_64".to_string(), "sha256:def456".to_string())]
    );
    // a definition's own description wins; otherwise the package's is used
    assert_eq!(expanded[0].plugin.description, "Own description");
    assert_eq!(expanded[1].plugin.description, "Shared description");
    // a definition's own depends_on overrides the shared list
    assert_eq!(expanded[0].compatibility.depends_on, vec!["vendor.shared-base"]);
    assert_eq!(expanded[1].compatibility.depends_on, vec!["vendor.plugin-a"]);
    // expanded manifests never carry single-plugin-only sections
    assert!(expanded[0].cli.is_none());
    assert!(expanded[0].capabilities.is_empty());
    assert!(expanded[1].cli.is_none());
    assert!(expanded[1].capabilities.is_empty());
    assert_eq!(expanded[0].binary.name, "plugin_a");
}

#[test]
fn test_missing_package_version() {
    let toml = r#"
[package]
id = "vendor.pack"
name = "Test Pack"

[[plugins]]
id = "vendor.plugin-a"
name = "Plugin A"
type = "extension"
binary = "plugin_a"
"#;
    let result = PackageManifest::from_toml(toml);
    match result {
        Err(ManifestError::MissingField(path)) => assert_eq!(path, "package.version"),
        other => panic!("expected a missing-field error, got {:?}", other),
    }
}

#[test]
fn test_missing_plugins_list() {
    let toml = r#"
[package]
id = "vendor.pack"
name = "Test Pack"
version = "1.0.0"
"#;
    let result = PackageManifest::from_toml(toml);
    match result {
        Err(ManifestError::MissingField(path)) => assert_eq!(path, "plugins"),
        other => panic!("expected a missing-field error, got {:?}", other),
    }
}

#[test]
fn test_unknown_dependency_is_skipped() {
    let toml = r#"
[package]
id = "vendor.pack"
name = "Test Pack"
version = "1.0.0"

[[plugins]]
id = "vendor.plugin-a"
name = "Plugin A"
type = "extension"
binary = "plugin_a"
depends_on = ["vendor.not-in-this-package"]

[[plugins]]
id = "vendor.plugin-b"
name = "Plugin B"
type = "extension"
binary = "plugin_b"
depends_on = ["vendor.not-in-this-package", "vendor.plugin-a"]
"#;
    let manifest = PackageManifest::from_toml(toml).unwrap();
    let order = manifest.install_order().unwrap();
    let ids: Vec<&str> = order.iter().map(|p| p.id.as_str()).collect();
    assert_eq!(ids, vec!["vendor.plugin-a", "vendor.plugin-b"]);
}
