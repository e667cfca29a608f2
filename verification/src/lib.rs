//! Plugin manifest parsing and dependency resolution.
//!
//! A manifest describes either a single installable plugin or a package of
//! several plugins sharing compatibility and binary metadata. Manifests are
//! written in TOML; this crate parses them into verified data structures,
//! serializes them back, expands packages into per-plugin manifests, and
//! computes a dependency-respecting install order with cycle detection.

use vstd::prelude::*;

mod cargo_extract;
mod error;
mod expand;
mod order;
mod package;
mod platform;
mod plugin;
mod schema;
mod serialize;
mod value;

pub use crate::error::ErrorKind;
pub use crate::error::ManifestError;
pub use crate::value::DocValue;

pub use crate::plugin::BinaryInfo;
pub use crate::plugin::CapabilityDeclaration;
pub use crate::plugin::CliConfig;
pub use crate::plugin::CompatibilityInfo;
pub use crate::plugin::ConfigInfo;
pub use crate::plugin::HiveInfo;
pub use crate::plugin::LanguageInfo;
pub use crate::plugin::PluginManifest;
pub use crate::plugin::PluginMeta;
pub use crate::plugin::RequirementsInfo;
pub use crate::plugin::ServiceDeclaration;
pub use crate::plugin::ServiceRequirement;
pub use crate::plugin::SignatureInfo;
pub use crate::plugin::TagsInfo;
pub use crate::plugin::TranslationInfo;
pub use crate::plugin::default_api_version;
pub use crate::plugin::default_binary_name;

pub use crate::package::PackageBinaryInfo;
pub use crate::package::PackageManifest;
pub use crate::package::PackageMeta;
pub use crate::package::PluginDef;

pub use crate::expand::is_expansion_of;
pub use crate::order::has_cycle;
pub use crate::order::install_order_ok;
pub use crate::order::lemma_order_excludes_cycle;
pub use crate::serialize::lemma_round_trip;

pub use crate::cargo_extract::VersionDirective;
pub use crate::cargo_extract::manifest_from_cargo_doc;
pub use crate::cargo_extract::resolve_version;
pub use crate::cargo_extract::workspace_version_of;
pub use crate::value::parse_document;

pub use crate::platform::current_platform;
pub use crate::platform::library_filename;
pub use crate::platform::matches_platform;

use crate::package::package_manifest_matches;
use crate::package::spec_package_doc_err;
use crate::plugin::plugin_manifest_matches;
use crate::plugin::spec_plugin_doc_err;
use crate::value::lookup;
use crate::value::parse_toml_text;
use crate::value::spec_lookup;
use crate::value::toml_doc_of;

verus! {

/// A manifest of either kind: a single plugin, or a multi-plugin package.
#[derive(Debug)]
pub enum Manifest {
    /// A single plugin manifest.
    Single(PluginManifest),
    /// A multi-plugin package manifest.
    Package(PackageManifest),
}

/// Whether a document carries the package root marker: a `package` entry at
/// the document root.
pub open spec fn spec_is_package_doc(doc: DocValue) -> bool {
    doc matches DocValue::Table(root) && spec_lookup(root@, "package"@) is Some
}

/// Whether a document carries the single-plugin root marker: a `plugin`
/// entry at the document root.
pub open spec fn spec_is_plugin_doc(doc: DocValue) -> bool {
    doc matches DocValue::Table(root) && spec_lookup(root@, "plugin"@) is Some
}

/// The ids a manifest declares: the one plugin's id, or a package's plugin
/// ids in declaration order.
pub open spec fn spec_plugin_ids(m: Manifest) -> Seq<Seq<char>> {
    match m {
        Manifest::Single(s) => seq![s.plugin.id@],
        Manifest::Package(p) => Seq::new(p.plugins@.len(), |i: int| p.plugins@[i].id@),
    }
}

impl Manifest {
    /// Parse a manifest from TOML text, detecting its kind by the root
    /// section: a `package` marker takes priority over a `plugin` marker;
    /// text carrying neither is rejected as an invalid format.
    pub fn from_toml(content: &str) -> (r: Result<Manifest, ManifestError>)
        ensures
            match toml_doc_of(content@) {
                Err(msg) => r matches Err(e) && e@ == ErrorKind::TomlParse(msg),
                Ok(doc) => {
                    if spec_is_package_doc(doc) {
                        match r {
                            Ok(m) => m matches Manifest::Package(p) && spec_package_doc_err(
                                doc,
                            ) is None && package_manifest_matches(p, doc),
                            Err(e) => spec_package_doc_err(doc) == Some(e@),
                        }
                    } else if spec_is_plugin_doc(doc) {
                        match r {
                            Ok(m) => m matches Manifest::Single(s) && spec_plugin_doc_err(
                                doc,
                            ) is None && plugin_manifest_matches(s, doc),
                            Err(e) => spec_plugin_doc_err(doc) == Some(e@),
                        }
                    } else {
                        r matches Err(e) && e@ == ErrorKind::InvalidFormat(
                            "Manifest must contain either [plugin] or [package] section"@,
                        )
                    }
                },
            },
    {
        let doc = match parse_toml_text(content) {
            Ok(doc) => doc,
            Err(msg) => {
                return Err(ManifestError::TomlParse(msg));
            },
        };
        let is_package = match &doc {
            DocValue::Table(root) => lookup(root, "package").is_some(),
            _ => false,
        };
        if is_package {
            match PackageManifest::from_doc(&doc) {
                Ok(p) => Ok(Manifest::Package(p)),
                Err(e) => Err(e),
            }
        } else {
            let is_plugin = match &doc {
                DocValue::Table(root) => lookup(root, "plugin").is_some(),
                _ => false,
            };
            if is_plugin {
                match PluginManifest::from_doc(&doc) {
                    Ok(s) => Ok(Manifest::Single(s)),
                    Err(e) => Err(e),
                }
            } else {
                Err(
                    ManifestError::InvalidFormat(
                        "Manifest must contain either [plugin] or [package] section".to_owned(),
                    ),
                )
            }
        }
    }

    /// Get all plugin ids contained in this manifest: one id for a single
    /// plugin, the declared-order ids for a package.
    pub fn plugin_ids(&self) -> (r: Vec<&str>)
        ensures
            r.deep_view() == spec_plugin_ids(*self),
    {
        match self {
            Manifest::Single(m) => {
                let mut ids: Vec<&str> = Vec::new();
                ids.push(m.plugin.id.as_str());
                proof {
                    assert(ids.deep_view() =~= spec_plugin_ids(*self));
                }
                ids
            },
            Manifest::Package(m) => {
                let mut ids: Vec<&str> = Vec::new();
                let mut i: usize = 0;
                while i < m.plugins.len()
                    invariant
                        0 <= i <= m.plugins@.len(),
                        ids@.len() == i,
                        forall|j: int| 0 <= j < i ==> (#[trigger] ids@[j])@ == m.plugins@[j].id@,
                    decreases m.plugins@.len() - i,
                {
                    ids.push(m.plugins[i].id.as_str());
                    i = i + 1;
                }
                proof {
                    assert(ids.deep_view() =~= spec_plugin_ids(*self));
                }
                ids
            },
        }
    }

    /// Get the manifest's own id: the plugin id, or the package id.
    pub fn id(&self) -> (r: &str)
        ensures
            r@ == (match *self {
                Manifest::Single(m) => m.plugin.id@,
                Manifest::Package(m) => m.package.id@,
            }),
    {
        match self {
            Manifest::Single(m) => m.plugin.id.as_str(),
            Manifest::Package(m) => m.package.id.as_str(),
        }
    }

    /// Get the manifest's version: the plugin version, or the package
    /// version.
    pub fn version(&self) -> (r: &str)
        ensures
            r@ == (match *self {
                Manifest::Single(m) => m.plugin.version@,
                Manifest::Package(m) => m.package.version@,
            }),
    {
        match self {
            Manifest::Single(m) => m.plugin.version.as_str(),
            Manifest::Package(m) => m.package.version.as_str(),
        }
    }

    /// Check if this is a package of several plugins.
    pub fn is_package(&self) -> (r: bool)
        ensures
            r == (*self matches Manifest::Package(_)),
    {
        match self {
            Manifest::Single(_) => false,
            Manifest::Package(_) => true,
        }
    }

    /// Get the CLI configuration if this is a single plugin that declares
    /// one; packages cannot register CLI commands.
    pub fn cli_config(&self) -> (r: Option<&CliConfig>)
        ensures
            match *self {
                Manifest::Single(m) => match r {
                    Some(c) => m.cli matches Some(mc) && *c == mc,
                    None => m.cli is None,
                },
                Manifest::Package(_) => r is None,
            },
    {
        match self {
            Manifest::Single(m) => match &m.cli {
                Some(c) => Some(c),
                None => None,
            },
            Manifest::Package(_) => None,
        }
    }
}

} // verus!
