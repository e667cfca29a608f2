use plugin_manifest::PluginManifest;
use plugin_manifest::current_platform;
use plugin_manifest::library_filename;
use plugin_manifest::matches_platform;

#[test]
fn test_current_platform() {
    let platform = current_platform();
    assert!(!platform.is_empty());
    assert!(platform.contains('-'));
}

#[test]
fn test_library_filename() {
    let name = library_filename("my_plugin");
    assert!(name.contains("my_plugin"));
}

#[test]
fn test_matches_platform() {
    assert!(matches_platform(&current_platform()));
    assert!(matches_platform("all"));
    assert!(!matches_platform("nonexistent-platform"));
}

#[test]
fn test_supports_current_platform_unrestricted() {
    let toml = r#"
[plugin]
id = "test.plugin"
name = "Test"
version = "1.0.0"
type = "test"
"#;
    let manifest = PluginManifest::from_toml(toml).unwrap();
    assert!(manifest.supports_current_platform());
}

#[test]
fn test_supports_current_platform_wildcard() {
    let toml = r#"
[plugin]
id = "test.plugin"
name = "Test"
version = "1.0.0"
type = "test"

[compatibility]
platforms = ["all"]
"#;
    let manifest = PluginManifest::from_toml(toml).unwrap();
    assert!(manifest.supports_current_platform());
}

#[test]
fn test_supports_current_platform_restricted() {
    let toml = r#"
[plugin]
id = "test.plugin"
name = "Test"
version = "1.0.0"
type = "test"

[compatibility]
platforms = ["nonexistent-platform"]
"#;
    let manifest = PluginManifest::from_toml(toml).unwrap();
    assert!(!manifest.supports_current_platform());
}

#[test]
fn test_checksum_for_current_platform_absent() {
    let toml = r#"
[plugin]
id = "test.plugin"
name = "Test"
version = "1.0.0"
type = "test"

[binary.checksums]
nonexistent-platform = "sha256:abc"
"#;
    let manifest = PluginManifest::from_toml(toml).unwrap();
    assert!(manifest.checksum_for_current_platform().is_none());
}

#[test]
fn test_checksum_for_current_platform_present() {
    let current = current_platform();
    let toml = format!(
        r#"
[plugin]
id = "test.plugin"
name = "Test"
version = "1.0.0"
type = "test"

[binary.checksums]
{} = "sha256:abc"
"#,
        current
    );
    let manifest = PluginManifest::from_toml(&toml).unwrap();
    assert_eq!(manifest.checksum_for_current_platform(), Some("sha256:abc"));
}
