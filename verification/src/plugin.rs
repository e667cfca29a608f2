//! Single plugin manifest: the data model.
//!
//! A plugin manifest has a mandatory `plugin` section carrying identity, and
//! optional sections for compatibility, binary, signature, configuration,
//! offered and required services, a CLI command, capabilities, and
//! type-specific extras (tags, hive, translation, language, requirements).

use vstd::prelude::*;

use crate::error::ErrorKind;
use crate::error::ManifestError;
use crate::error::spec_wrong_type;
use crate::platform::checksum_for_platform_list;
use crate::platform::library_filename;
use crate::platform::spec_checksum_lookup;
use crate::platform::spec_current_platform;
use crate::platform::spec_library_filename;
use crate::platform::spec_supports_current;
use crate::platform::supports_current;
use crate::schema::binary_matches;
use crate::schema::capabilities_matches;
use crate::schema::cli_matches;
use crate::schema::compat_matches;
use crate::schema::config_matches;
use crate::schema::hive_matches;
use crate::schema::language_matches;
use crate::schema::opt_table;
use crate::schema::parse_binary_section;
use crate::schema::parse_capabilities_field;
use crate::schema::parse_cli_section;
use crate::schema::parse_compat_section;
use crate::schema::parse_config_section;
use crate::schema::parse_hive_section;
use crate::schema::parse_language_section;
use crate::schema::parse_plugin_meta;
use crate::schema::parse_provides_field;
use crate::schema::parse_requirements_section;
use crate::schema::parse_requires_field;
use crate::schema::parse_signature_section;
use crate::schema::parse_tags_section;
use crate::schema::parse_translation_section;
use crate::schema::plugin_meta_matches;
use crate::schema::provides_matches;
use crate::schema::requirements_matches;
use crate::schema::requires_matches;
use crate::schema::signature_matches;
use crate::schema::spec_binary_err;
use crate::schema::spec_capabilities_err;
use crate::schema::spec_cli_err;
use crate::schema::spec_compat_err;
use crate::schema::spec_config_err;
use crate::schema::spec_hive_err;
use crate::schema::spec_language_err;
use crate::schema::spec_opt_table_ok;
use crate::schema::spec_plugin_meta_err;
use crate::schema::spec_provides_err;
use crate::schema::spec_requirements_err;
use crate::schema::spec_requires_err;
use crate::schema::spec_signature_err;
use crate::schema::spec_table_at;
use crate::schema::spec_tags_err;
use crate::schema::spec_translation_err;
use crate::schema::tags_matches;
use crate::schema::translation_matches;
use crate::value::DocValue;
use crate::value::parse_toml_text;
use crate::value::spec_lookup;
use crate::value::toml_doc_of;

verus! {

/// The manifest-format's current API generation: the default for
/// `compatibility.api_version` when a manifest does not declare one.
pub fn default_api_version() -> (r: u32)
    ensures
        r == 2,
{
    2
}

/// The default base binary name used when a manifest does not declare one.
pub fn default_binary_name() -> (r: String)
    ensures
        r@ == "plugin"@,
{
    "plugin".to_owned()
}

/// Plugin metadata: the identity of a single plugin.
#[derive(Debug)]
pub struct PluginMeta {
    /// Unique identifier (e.g., "vendor.plugin-name").
    pub id: String,
    /// Human-readable name.
    pub name: String,
    /// Version string (semver).
    pub version: String,
    /// Plugin type (e.g., "theme", "extension", "core").
    pub plugin_type: String,
    /// Author, empty when not declared.
    pub author: String,
    /// Description, empty when not declared.
    pub description: String,
    /// License identifier (SPDX).
    pub license: Option<String>,
    /// Homepage URL.
    pub homepage: Option<String>,
}

/// Compatibility information, shared verbatim by all plugins of a package.
#[derive(Debug)]
pub struct CompatibilityInfo {
    /// Plugin API version.
    pub api_version: u32,
    /// Minimum host version required.
    pub min_host_version: Option<String>,
    /// Maximum host version allowed.
    pub max_host_version: Option<String>,
    /// Supported platforms; empty means all platforms.
    pub platforms: Vec<String>,
    /// Ids of plugins that must be present and loaded first.
    pub depends_on: Vec<String>,
}

impl Default for CompatibilityInfo {
    /// The compatibility data of a manifest that declares none: the current
    /// API generation and no further restriction.
    fn default() -> (r: Self)
        ensures
            r.api_version == 2,
            r.min_host_version is None,
            r.max_host_version is None,
            r.platforms@.len() == 0,
            r.depends_on@.len() == 0,
    {
        CompatibilityInfo {
            api_version: default_api_version(),
            min_host_version: None,
            max_host_version: None,
            platforms: Vec::new(),
            depends_on: Vec::new(),
        }
    }
}

/// Binary information for a single plugin.
#[derive(Debug)]
pub struct BinaryInfo {
    /// Base binary name, without the library prefix and extension.
    pub name: String,
    /// Checksums keyed by platform identifier.
    pub checksums: Vec<(String, String)>,
}

impl Default for BinaryInfo {
    /// The binary data of a manifest that declares none: the default base
    /// name and no checksums.
    fn default() -> (r: Self)
        ensures
            r.name@ == "plugin"@,
            r.checksums@.len() == 0,
    {
        BinaryInfo { name: default_binary_name(), checksums: Vec::new() }
    }
}

/// Signature information, carried through unvalidated.
#[derive(Debug)]
pub struct SignatureInfo {
    /// Ed25519 public key (base64 encoded).
    pub public_key: String,
    /// Signature file path, relative to the manifest.
    pub signature_file: String,
}

/// Default configuration values seeded into the host's settings.
#[derive(Debug)]
pub struct ConfigInfo {
    /// Default configuration values by key.
    pub defaults: Vec<(String, DocValue)>,
}

impl Default for ConfigInfo {
    /// The configuration of a manifest that declares none: no defaults.
    fn default() -> (r: Self)
        ensures
            r.defaults@.len() == 0,
    {
        ConfigInfo { defaults: Vec::new() }
    }
}

/// A service this plugin offers.
#[derive(Debug)]
pub struct ServiceDeclaration {
    /// Service id (e.g., "vendor.indexer.search").
    pub id: String,
    /// Service version (semver).
    pub version: String,
    /// Human-readable description, empty when not declared.
    pub description: String,
}

/// A service this plugin requires.
#[derive(Debug)]
pub struct ServiceRequirement {
    /// Required service id.
    pub id: String,
    /// Minimum version required.
    pub min_version: Option<String>,
    /// Whether the requirement is optional; false means a hard requirement.
    pub optional: bool,
}

/// A capability protocol this plugin advertises for cross-plugin routing.
#[derive(Debug)]
pub struct CapabilityDeclaration {
    /// Protocol name.
    pub protocol: String,
    /// Protocol version.
    pub version: String,
    /// Human-readable description, empty when not declared.
    pub description: String,
}

/// CLI command registration for a single plugin.
#[derive(Debug)]
pub struct CliConfig {
    /// Command word; by convention lowercase alphanumeric with hyphens.
    pub command: String,
    /// Human-readable description, empty when not declared.
    pub description: String,
    /// Alternative command words.
    pub aliases: Vec<String>,
    /// Whether the plugin computes completions dynamically.
    pub dynamic_completions: bool,
}

/// Free-form categorization tags.
#[derive(Debug)]
pub struct TagsInfo {
    /// Category tags.
    pub categories: Vec<String>,
    /// Platform tags.
    pub platforms: Vec<String>,
}

/// Hive extension identity, for plugins of the matching type.
#[derive(Debug)]
pub struct HiveInfo {
    /// Hive category (e.g., "runner").
    pub category: String,
    /// Name within the category.
    pub name: String,
}

/// Translation target and language, for translation plugins.
#[derive(Debug)]
pub struct TranslationInfo {
    /// Id of the plugin being translated.
    pub translates: String,
    /// Language tag (e.g., "en-US").
    pub language: String,
    /// Human-readable language name, empty when not declared.
    pub language_name: String,
    /// Translation namespace, empty when not declared.
    pub namespace: String,
}

/// Language support identity, for language plugins.
#[derive(Debug)]
pub struct LanguageInfo {
    /// Language id (e.g., "rust").
    pub id: String,
    /// File extensions handled.
    pub extensions: Vec<String>,
}

/// OS, architecture and free-form notes on what the plugin needs.
#[derive(Debug)]
pub struct RequirementsInfo {
    /// Operating system requirement.
    pub os: Option<String>,
    /// Architecture requirement.
    pub arch: Option<String>,
    /// Free-form notes.
    pub notes: Option<String>,
}

/// A single plugin manifest.
#[derive(Debug)]
pub struct PluginManifest {
    /// Plugin metadata.
    pub plugin: PluginMeta,
    /// Compatibility information; defaulted when absent.
    pub compatibility: CompatibilityInfo,
    /// Binary information; defaulted when absent.
    pub binary: BinaryInfo,
    /// Signature information.
    pub signature: Option<SignatureInfo>,
    /// Default configuration values; defaulted when absent.
    pub config: ConfigInfo,
    /// Services this plugin offers.
    pub provides: Vec<ServiceDeclaration>,
    /// Services this plugin requires.
    pub requires: Vec<ServiceRequirement>,
    /// CLI command registration.
    pub cli: Option<CliConfig>,
    /// Capability protocols advertised.
    pub capabilities: Vec<CapabilityDeclaration>,
    /// Categorization tags.
    pub tags: Option<TagsInfo>,
    /// Hive extension identity.
    pub hive: Option<HiveInfo>,
    /// Translation target and language.
    pub translation: Option<TranslationInfo>,
    /// Language support identity.
    pub language: Option<LanguageInfo>,
    /// OS/architecture requirements.
    pub requirements: Option<RequirementsInfo>,
}

// ---------------------------------------------------------------------------
// Parsing a plugin manifest out of a document
// ---------------------------------------------------------------------------

/// The first error of a plugin manifest's root table, sections checked in
/// document-model order.
pub open spec fn spec_plugin_root_err(root: Seq<(String, DocValue)>) -> Option<ErrorKind> {
    if spec_lookup(root, "plugin"@) is None {
        Some(ErrorKind::MissingField("plugin"@))
    } else if !spec_opt_table_ok(root, "plugin"@) {
        Some(ErrorKind::TomlParse(spec_wrong_type("plugin"@)))
    } else if spec_plugin_meta_err(spec_table_at(root, "plugin"@)) is Some {
        spec_plugin_meta_err(spec_table_at(root, "plugin"@))
    } else if !spec_opt_table_ok(root, "compatibility"@) {
        Some(ErrorKind::TomlParse(spec_wrong_type("compatibility"@)))
    } else if spec_compat_err(spec_table_at(root, "compatibility"@)) is Some {
        spec_compat_err(spec_table_at(root, "compatibility"@))
    } else if !spec_opt_table_ok(root, "binary"@) {
        Some(ErrorKind::TomlParse(spec_wrong_type("binary"@)))
    } else if spec_binary_err(spec_table_at(root, "binary"@)) is Some {
        spec_binary_err(spec_table_at(root, "binary"@))
    } else if !spec_opt_table_ok(root, "signature"@) {
        Some(ErrorKind::TomlParse(spec_wrong_type("signature"@)))
    } else if spec_lookup(root, "signature"@) is Some && spec_signature_err(
        spec_table_at(root, "signature"@),
    ) is Some {
        spec_signature_err(spec_table_at(root, "signature"@))
    } else if !spec_opt_table_ok(root, "config"@) {
        Some(ErrorKind::TomlParse(spec_wrong_type("config"@)))
    } else if spec_config_err(spec_table_at(root, "config"@)) is Some {
        spec_config_err(spec_table_at(root, "config"@))
    } else if spec_provides_err(root) is Some {
        spec_provides_err(root)
    } else if spec_requires_err(root) is Some {
        spec_requires_err(root)
    } else if !spec_opt_table_ok(root, "cli"@) {
        Some(ErrorKind::TomlParse(spec_wrong_type("cli"@)))
    } else if spec_lookup(root, "cli"@) is Some && spec_cli_err(spec_table_at(root, "cli"@)) is Some {
        spec_cli_err(spec_table_at(root, "cli"@))
    } else if spec_capabilities_err(root) is Some {
        spec_capabilities_err(root)
    } else if !spec_opt_table_ok(root, "tags"@) {
        Some(ErrorKind::TomlParse(spec_wrong_type("tags"@)))
    } else if spec_lookup(root, "tags"@) is Some && spec_tags_err(
        spec_table_at(root, "tags"@),
    ) is Some {
        spec_tags_err(spec_table_at(root, "tags"@))
    } else if !spec_opt_table_ok(root, "hive"@) {
        Some(ErrorKind::TomlParse(spec_wrong_type("hive"@)))
    } else if spec_lookup(root, "hive"@) is Some && spec_hive_err(
        spec_table_at(root, "hive"@),
    ) is Some {
        spec_hive_err(spec_table_at(root, "hive"@))
    } else if !spec_opt_table_ok(root, "translation"@) {
        Some(ErrorKind::TomlParse(spec_wrong_type("translation"@)))
    } else if spec_lookup(root, "translation"@) is Some && spec_translation_err(
        spec_table_at(root, "translation"@),
    ) is Some {
        spec_translation_err(spec_table_at(root, "translation"@))
    } else if !spec_opt_table_ok(root, "language"@) {
        Some(ErrorKind::TomlParse(spec_wrong_type("language"@)))
    } else if spec_lookup(root, "language"@) is Some && spec_language_err(
        spec_table_at(root, "language"@),
    ) is Some {
        spec_language_err(spec_table_at(root, "language"@))
    } else if !spec_opt_table_ok(root, "requirements"@) {
        Some(ErrorKind::TomlParse(spec_wrong_type("requirements"@)))
    } else if spec_lookup(root, "requirements"@) is Some && spec_requirements_err(
        spec_table_at(root, "requirements"@),
    ) is Some {
        spec_requirements_err(spec_table_at(root, "requirements"@))
    } else {
        None
    }
}

/// What a plugin manifest parsed from a root table holds, when the text has
/// no error: every section's fields, with the stated defaults for absent
/// optional sections.
pub open spec fn plugin_manifest_matches_root(
    m: PluginManifest,
    root: Seq<(String, DocValue)>,
) -> bool {
    &&& plugin_meta_matches(m.plugin, spec_table_at(root, "plugin"@))
    &&& compat_matches(m.compatibility, spec_table_at(root, "compatibility"@))
    &&& binary_matches(m.binary, spec_table_at(root, "binary"@))
    &&& (match spec_lookup(root, "signature"@) {
        None => m.signature is None,
        Some(DocValue::Table(tt)) => m.signature matches Some(s) && signature_matches(s, tt@),
        Some(_) => true,
    })
    &&& config_matches(m.config, spec_table_at(root, "config"@))
    &&& provides_matches(m.provides@, root)
    &&& requires_matches(m.requires@, root)
    &&& (match spec_lookup(root, "cli"@) {
        None => m.cli is None,
        Some(DocValue::Table(tt)) => m.cli matches Some(c) && cli_matches(c, tt@),
        Some(_) => true,
    })
    &&& capabilities_matches(m.capabilities@, root)
    &&& (match spec_lookup(root, "tags"@) {
        None => m.tags is None,
        Some(DocValue::Table(tt)) => m.tags matches Some(g) && tags_matches(g, tt@),
        Some(_) => true,
    })
    &&& (match spec_lookup(root, "hive"@) {
        None => m.hive is None,
        Some(DocValue::Table(tt)) => m.hive matches Some(h) && hive_matches(h, tt@),
        Some(_) => true,
    })
    &&& (match spec_lookup(root, "translation"@) {
        None => m.translation is None,
        Some(DocValue::Table(tt)) => m.translation matches Some(x) && translation_matches(x, tt@),
        Some(_) => true,
    })
    &&& (match spec_lookup(root, "language"@) {
        None => m.language is None,
        Some(DocValue::Table(tt)) => m.language matches Some(x) && language_matches(x, tt@),
        Some(_) => true,
    })
    &&& (match spec_lookup(root, "requirements"@) {
        None => m.requirements is None,
        Some(DocValue::Table(tt)) => m.requirements matches Some(x) && requirements_matches(
            x,
            tt@,
        ),
        Some(_) => true,
    })
}

/// The first error of a plugin manifest document; a document whose root is
/// not a table is malformed.
pub open spec fn spec_plugin_doc_err(doc: DocValue) -> Option<ErrorKind> {
    match doc {
        DocValue::Table(root) => spec_plugin_root_err(root@),
        _ => Some(ErrorKind::TomlParse(spec_wrong_type("manifest"@))),
    }
}

/// What a plugin manifest parsed from a document holds, when the text has no
/// error.
pub open spec fn plugin_manifest_matches(m: PluginManifest, doc: DocValue) -> bool {
    doc matches DocValue::Table(root) && plugin_manifest_matches_root(m, root@)
}

impl PluginManifest {
    /// Parse a plugin manifest out of a document tree.
    pub fn from_doc(doc: &DocValue) -> (r: Result<PluginManifest, ManifestError>)
        ensures
            match r {
                Ok(m) => spec_plugin_doc_err(*doc) is None && plugin_manifest_matches(m, *doc),
                Err(e) => spec_plugin_doc_err(*doc) == Some(e@),
            },
    {
        let root = match doc {
            DocValue::Table(root) => root,
            _ => {
                return Err(ManifestError::wrong_type("manifest"));
            },
        };
        let plugin_tbl = match opt_table(root, "plugin", "plugin") {
            Ok(Some(tt)) => tt,
            Ok(None) => {
                return Err(ManifestError::missing("plugin"));
            },
            Err(e) => {
                return Err(e);
            },
        };
        let plugin = match parse_plugin_meta(plugin_tbl) {
            Ok(v) => v,
            Err(e) => {
                return Err(e);
            },
        };
        let compatibility = match opt_table(root, "compatibility", "compatibility") {
            Ok(Some(tt)) => match parse_compat_section(tt) {
                Ok(v) => v,
                Err(e) => {
                    return Err(e);
                },
            },
            Ok(None) => {
                let empty: Vec<(String, DocValue)> = Vec::new();
                proof {
                    assert(empty@ =~= spec_table_at(root@, "compatibility"@));
                }
                match parse_compat_section(&empty) {
                    Ok(v) => v,
                    Err(e) => {
                        return Err(e);
                    },
                }
            },
            Err(e) => {
                return Err(e);
            },
        };
        let binary = match opt_table(root, "binary", "binary") {
            Ok(Some(tt)) => match parse_binary_section(tt) {
                Ok(v) => v,
                Err(e) => {
                    return Err(e);
                },
            },
            Ok(None) => {
                let empty: Vec<(String, DocValue)> = Vec::new();
                proof {
                    assert(empty@ =~= spec_table_at(root@, "binary"@));
                }
                match parse_binary_section(&empty) {
                    Ok(v) => v,
                    Err(e) => {
                        return Err(e);
                    },
                }
            },
            Err(e) => {
                return Err(e);
            },
        };
        let signature = match opt_table(root, "signature", "signature") {
            Ok(Some(tt)) => match parse_signature_section(tt) {
                Ok(v) => Some(v),
                Err(e) => {
                    return Err(e);
                },
            },
            Ok(None) => None,
            Err(e) => {
                return Err(e);
            },
        };
        let config = match opt_table(root, "config", "config") {
            Ok(Some(tt)) => match parse_config_section(tt) {
                Ok(v) => v,
                Err(e) => {
                    return Err(e);
                },
            },
            Ok(None) => {
                let empty: Vec<(String, DocValue)> = Vec::new();
                proof {
                    assert(empty@ =~= spec_table_at(root@, "config"@));
                }
                match parse_config_section(&empty) {
                    Ok(v) => v,
                    Err(e) => {
                        return Err(e);
                    },
                }
            },
            Err(e) => {
                return Err(e);
            },
        };
        let provides = match parse_provides_field(root) {
            Ok(v) => v,
            Err(e) => {
                return Err(e);
            },
        };
        let requires_list = match parse_requires_field(root) {
            Ok(v) => v,
            Err(e) => {
                return Err(e);
            },
        };
        let cli = match opt_table(root, "cli", "cli") {
            Ok(Some(tt)) => match parse_cli_section(tt) {
                Ok(v) => Some(v),
                Err(e) => {
                    return Err(e);
                },
            },
            Ok(None) => None,
            Err(e) => {
                return Err(e);
            },
        };
        let capabilities = match parse_capabilities_field(root) {
            Ok(v) => v,
            Err(e) => {
                return Err(e);
            },
        };
        let tags = match opt_table(root, "tags", "tags") {
            Ok(Some(tt)) => match parse_tags_section(tt) {
                Ok(v) => Some(v),
                Err(e) => {
                    return Err(e);
                },
            },
            Ok(None) => None,
            Err(e) => {
                return Err(e);
            },
        };
        let hive = match opt_table(root, "hive", "hive") {
            Ok(Some(tt)) => match parse_hive_section(tt) {
                Ok(v) => Some(v),
                Err(e) => {
                    return Err(e);
                },
            },
            Ok(None) => None,
            Err(e) => {
                return Err(e);
            },
        };
        let translation = match opt_table(root, "translation", "translation") {
            Ok(Some(tt)) => match parse_translation_section(tt) {
                Ok(v) => Some(v),
                Err(e) => {
                    return Err(e);
                },
            },
            Ok(None) => None,
            Err(e) => {
                return Err(e);
            },
        };
        let language = match opt_table(root, "language", "language") {
            Ok(Some(tt)) => match parse_language_section(tt) {
                Ok(v) => Some(v),
                Err(e) => {
                    return Err(e);
                },
            },
            Ok(None) => None,
            Err(e) => {
                return Err(e);
            },
        };
        let requirements = match opt_table(root, "requirements", "requirements") {
            Ok(Some(tt)) => match parse_requirements_section(tt) {
                Ok(v) => Some(v),
                Err(e) => {
                    return Err(e);
                },
            },
            Ok(None) => None,
            Err(e) => {
                return Err(e);
            },
        };
        Ok(
            PluginManifest {
                plugin,
                compatibility,
                binary,
                signature,
                config,
                provides,
                requires: requires_list,
                cli,
                capabilities,
                tags,
                hive,
                translation,
                language,
                requirements,
            },
        )
    }

    /// Parse a plugin manifest from TOML text.
    pub fn from_toml(content: &str) -> (r: Result<PluginManifest, ManifestError>)
        ensures
            match toml_doc_of(content@) {
                Err(msg) => r matches Err(e) && e@ == ErrorKind::TomlParse(msg),
                Ok(doc) => match r {
                    Ok(m) => spec_plugin_doc_err(doc) is None && plugin_manifest_matches(m, doc),
                    Err(e) => spec_plugin_doc_err(doc) == Some(e@),
                },
            },
    {
        match parse_toml_text(content) {
            Ok(doc) => PluginManifest::from_doc(&doc),
            Err(msg) => Err(ManifestError::TomlParse(msg)),
        }
    }

    /// Get the binary filename for the current platform.
    pub fn binary_filename(&self) -> (r: String)
        ensures
            r@ == spec_library_filename(self.binary.name@),
    {
        library_filename(self.binary.name.as_str())
    }

    /// Get the checksum declared for the current platform, if any.
    pub fn checksum_for_current_platform(&self) -> (r: Option<&str>)
        ensures
            r.deep_view() == spec_checksum_lookup(
                self.binary.checksums.deep_view(),
                spec_current_platform(),
            ),
    {
        checksum_for_platform_list(&self.binary.checksums)
    }

    /// Check if the current platform is supported: no declared restriction,
    /// or a declared platform matching the current one.
    pub fn supports_current_platform(&self) -> (r: bool)
        ensures
            r == spec_supports_current(self.compatibility.platforms.deep_view()),
    {
        supports_current(&self.compatibility.platforms)
    }
}

} // verus!
