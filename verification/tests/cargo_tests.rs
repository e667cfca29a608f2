use plugin_manifest::VersionDirective;
use plugin_manifest::manifest_from_cargo_doc;
use plugin_manifest::parse_document;
use plugin_manifest::resolve_version;
use plugin_manifest::workspace_version_of;

#[test]
fn test_cargo_extraction() {
    let text = r#"
[package]
name = "adi-tasks-plugin"
version = "0.8.8"
edition = "2021"
description = "Task management with dependency tracking"
authors = ["ADI Team"]

[package.metadata.plugin]
id = "adi.tasks"
name = "ADI Tasks"
type = "core"

[package.metadata.plugin.compatibility]
api_version = 3
min_host_version = "0.9.0"

[package.metadata.plugin.cli]
command = "tasks"
description = "Task management"
aliases = ["t"]

[[package.metadata.plugin.provides]]
id = "adi.tasks.cli"
version = "1.0.0"
description = "CLI commands"

[package.metadata.plugin.binary]
name = "plugin"

[package.metadata.plugin.tags]
categories = ["tasks", "workflow"]
"#;
    let doc = parse_document(text).unwrap();
    let pkg = match &doc {
        plugin_manifest::DocValue::Table(root) => root
            .iter()
            .find(|(k, _)| k.as_str() == "package")
            .map(|(_, v)| v)
            .unwrap(),
        _ => panic!("descriptor root should be a table"),
    };
    let version = match resolve_version(pkg).unwrap() {
        VersionDirective::Literal(v) => v,
        VersionDirective::Workspace => panic!("version should be literal"),
    };
    assert_eq!(version, "0.8.8");

    let manifest = manifest_from_cargo_doc(&doc, &version).unwrap();
    assert_eq!(manifest.plugin.id, "adi.tasks");
    assert_eq!(manifest.plugin.name, "ADI Tasks");
    assert_eq!(manifest.plugin.version, "0.8.8");
    assert_eq!(manifest.plugin.plugin_type, "core");
    assert_eq!(manifest.plugin.author, "ADI Team");
    assert_eq!(
        manifest.plugin.description,
        "Task management with dependency tracking"
    );
    assert_eq!(manifest.compatibility.api_version, 3);
    assert_eq!(
        manifest.compatibility.min_host_version,
        Some("0.9.0".into())
    );
    assert!(manifest.cli.is_some());
    let cli = manifest.cli.unwrap();
    assert_eq!(cli.command, "tasks");
    assert_eq!(cli.aliases, vec!["t"]);
    assert_eq!(manifest.provides.len(), 1);
    assert_eq!(manifest.provides[0].id, "adi.tasks.cli");
    let tags = manifest.tags.unwrap();
    assert_eq!(tags.categories, vec!["tasks", "workflow"]);
}

#[test]
fn test_workspace_version_marker() {
    let text = r#"
[package]
name = "test-plugin"
version.workspace = true
description = "Test"
authors = ["Test"]

[package.metadata.plugin]
id = "test.plugin"
name = "Test Plugin"
type = "core"
"#;
    let doc = parse_document(text).unwrap();
    let pkg = match &doc {
        plugin_manifest::DocValue::Table(root) => root
            .iter()
            .find(|(k, _)| k.as_str() == "package")
            .map(|(_, v)| v)
            .unwrap(),
        _ => panic!("descriptor root should be a table"),
    };
    assert!(matches!(
        resolve_version(pkg).unwrap(),
        VersionDirective::Workspace
    ));
}

#[test]
fn test_workspace_version_declaration() {
    let text = r#"
[workspace]
members = ["plugins/test"]

[workspace.package]
version = "1.2.3"
"#;
    let doc = parse_document(text).unwrap();
    assert_eq!(workspace_version_of(&doc), Some("1.2.3".to_string()));
}

#[test]
fn test_workspace_version_absent() {
    let text = r#"
[workspace]
members = ["plugins/test"]
"#;
    let doc = parse_document(text).unwrap();
    assert!(workspace_version_of(&doc).is_none());
}

#[test]
fn test_cargo_hive_extraction() {
    let text = r#"
[package]
name = "hive-runner-docker"
version = "0.1.0"
description = "Docker runner"
authors = ["ADI Team"]

[package.metadata.plugin]
id = "hive.runner.docker"
name = "Docker Runner"
type = "hive-plugin"

[package.metadata.plugin.hive]
category = "runner"
name = "docker"

[package.metadata.plugin.tags]
categories = ["hive", "runner"]
"#;
    let doc = parse_document(text).unwrap();
    let manifest = manifest_from_cargo_doc(&doc, "0.1.0").unwrap();
    assert_eq!(manifest.plugin.id, "hive.runner.docker");
    let hive = manifest.hive.unwrap();
    assert_eq!(hive.category, "runner");
    assert_eq!(hive.name, "docker");
}

#[test]
fn test_cargo_translation_extraction() {
    let text = r#"
[package]
name = "adi-workflow-lang-en"
version = "1.0.0"
description = "English translations"
authors = ["ADI Team"]

[package.metadata.plugin]
id = "adi.workflow.en-US"
name = "ADI Workflow - English"
type = "translation"

[package.metadata.plugin.translation]
translates = "adi.workflow"
language = "en-US"
language_name = "English (United States)"
namespace = "workflow"
"#;
    let doc = parse_document(text).unwrap();
    let manifest = manifest_from_cargo_doc(&doc, "1.0.0").unwrap();
    let tr = manifest.translation.unwrap();
    assert_eq!(tr.translates, "adi.workflow");
    assert_eq!(tr.language, "en-US");
}

#[test]
fn test_cargo_language_extraction() {
    let text = r#"
[package]
name = "adi-lang-rust"
version = "3.0.0"
description = "Rust language support"
authors = ["ADI Team"]

[package.metadata.plugin]
id = "adi.lang.rust"
name = "Rust Language Support"
type = "lang"

[package.metadata.plugin.language]
id = "rust"
extensions = ["rs"]

[package.metadata.plugin.compatibility]
api_version = 3
min_host_version = "0.9.0"
"#;
    let doc = parse_document(text).unwrap();
    let manifest = manifest_from_cargo_doc(&doc, "3.0.0").unwrap();
    let lang = manifest.language.unwrap();
    assert_eq!(lang.id, "rust");
    assert_eq!(lang.extensions, vec!["rs"]);
}

#[test]
fn test_cargo_missing_plugin_metadata() {
    let text = r#"
[package]
name = "plain-crate"
version = "0.1.0"
"#;
    let doc = parse_document(text).unwrap();
    let result = manifest_from_cargo_doc(&doc, "0.1.0");
    match result {
        Err(plugin_manifest::ManifestError::MissingField(path)) => {
            assert_eq!(path, "package.metadata.plugin")
        },
        other => panic!("expected a missing-field error, got {:?}", other),
    }
}

#[test]
fn test_cargo_missing_id() {
    let text = r#"
[package]
name = "plain-crate"
version = "0.1.0"

[package.metadata.plugin]
name = "No Id"
type = "core"
"#;
    let doc = parse_document(text).unwrap();
    let result = manifest_from_cargo_doc(&doc, "0.1.0");
    match result {
        Err(plugin_manifest::ManifestError::MissingField(path)) => {
            assert_eq!(path, "package.metadata.plugin.id")
        },
        other => panic!("expected a missing-field error, got {:?}", other),
    }
}
