//! Multi-plugin package manifest: the data model and its parsing.
//!
//! A package bundles several plugin definitions that share compatibility,
//! binary checksum and signature metadata. Expansion into per-plugin
//! manifests and install ordering live in their own modules.

use vstd::prelude::*;

use crate::error::ErrorKind;
use crate::error::ManifestError;
use crate::error::spec_wrong_type;
use crate::plugin::CompatibilityInfo;
use crate::plugin::ConfigInfo;
use crate::plugin::ServiceDeclaration;
use crate::plugin::ServiceRequirement;
use crate::plugin::SignatureInfo;
use crate::platform::checksum_for_platform_list;
use crate::platform::library_filename;
use crate::platform::spec_checksum_lookup;
use crate::platform::spec_current_platform;
use crate::platform::spec_library_filename;
use crate::platform::spec_supports_current;
use crate::platform::supports_current;
use crate::schema::compat_matches;
use crate::schema::config_matches;
use crate::schema::opt_table;
use crate::schema::opt_arr;
use crate::schema::parse_compat_section;
use crate::schema::parse_config_section;
use crate::schema::parse_provides_field;
use crate::schema::parse_requires_field;
use crate::schema::parse_signature_section;
use crate::schema::provides_matches;
use crate::schema::requires_matches;
use crate::schema::signature_matches;
use crate::schema::spec_compat_err;
use crate::schema::spec_config_err;
use crate::schema::spec_opt_table_ok;
use crate::schema::spec_provides_err;
use crate::schema::spec_requires_err;
use crate::schema::spec_signature_err;
use crate::schema::spec_table_at;
use crate::value::DocValue;
use crate::value::opt_str;
use crate::value::opt_str_arr;
use crate::value::opt_str_option;
use crate::value::opt_str_table;
use crate::value::parse_toml_text;
use crate::value::req_str;
use crate::value::spec_lookup;
use crate::value::spec_opt_str_arr_ok;
use crate::value::spec_opt_str_arr_val;
use crate::value::spec_opt_str_ok;
use crate::value::spec_opt_str_table_ok;
use crate::value::spec_opt_str_table_val;
use crate::value::spec_opt_str_val;
use crate::value::spec_req_str_err;
use crate::value::spec_str_at;
use crate::value::toml_doc_of;

verus! {

/// Package metadata: the identity of a multi-plugin package.
#[derive(Debug)]
pub struct PackageMeta {
    /// Unique identifier (e.g., "vendor.theme-pack").
    pub id: String,
    /// Human-readable name.
    pub name: String,
    /// Version string (semver), inherited by every plugin in the package.
    pub version: String,
    /// Author, empty when not declared.
    pub author: String,
    /// Description, empty when not declared.
    pub description: String,
    /// License identifier (SPDX).
    pub license: Option<String>,
    /// Homepage URL.
    pub homepage: Option<String>,
}

/// A plugin definition inside a package.
#[derive(Debug)]
pub struct PluginDef {
    /// Unique identifier.
    pub id: String,
    /// Human-readable name.
    pub name: String,
    /// Plugin type.
    pub plugin_type: String,
    /// Base binary name, without the library prefix and extension.
    pub binary: String,
    /// Description; inherits the package description when absent.
    pub description: Option<String>,
    /// Ids of sibling plugins in this package that must be installed first.
    pub depends_on: Vec<String>,
    /// Plugin-specific configuration defaults.
    pub config: Option<ConfigInfo>,
    /// Services this plugin offers.
    pub provides: Vec<ServiceDeclaration>,
    /// Services this plugin requires.
    pub requires: Vec<ServiceRequirement>,
}

/// Binary information shared by the whole package: checksums of its single
/// archive, keyed by platform identifier.
#[derive(Debug)]
pub struct PackageBinaryInfo {
    /// Checksums keyed by platform identifier.
    pub checksums: Vec<(String, String)>,
}

impl Default for PackageBinaryInfo {
    /// The binary data of a package that declares none: no checksums.
    fn default() -> (r: Self)
        ensures
            r.checksums@.len() == 0,
    {
        PackageBinaryInfo { checksums: Vec::new() }
    }
}

/// A multi-plugin package manifest.
#[derive(Debug)]
pub struct PackageManifest {
    /// Package metadata.
    pub package: PackageMeta,
    /// Compatibility information shared by all plugins; defaulted when absent.
    pub compatibility: CompatibilityInfo,
    /// The plugins of this package, in declaration order.
    pub plugins: Vec<PluginDef>,
    /// Shared binary checksums; defaulted when absent.
    pub binary: PackageBinaryInfo,
    /// Shared signature information.
    pub signature: Option<SignatureInfo>,
}

// ---------------------------------------------------------------------------
// Package metadata section
// ---------------------------------------------------------------------------

/// The first error of the `package` section's fields, in field order.
pub open spec fn spec_package_meta_err(t: Seq<(String, DocValue)>) -> Option<ErrorKind> {
    if spec_req_str_err(t, "id"@, "package.id"@) is Some {
        spec_req_str_err(t, "id"@, "package.id"@)
    } else if spec_req_str_err(t, "name"@, "package.name"@) is Some {
        spec_req_str_err(t, "name"@, "package.name"@)
    } else if spec_req_str_err(t, "version"@, "package.version"@) is Some {
        spec_req_str_err(t, "version"@, "package.version"@)
    } else if !spec_opt_str_ok(t, "author"@) {
        Some(ErrorKind::TomlParse(spec_wrong_type("package.author"@)))
    } else if !spec_opt_str_ok(t, "description"@) {
        Some(ErrorKind::TomlParse(spec_wrong_type("package.description"@)))
    } else if !spec_opt_str_ok(t, "license"@) {
        Some(ErrorKind::TomlParse(spec_wrong_type("package.license"@)))
    } else if !spec_opt_str_ok(t, "homepage"@) {
        Some(ErrorKind::TomlParse(spec_wrong_type("package.homepage"@)))
    } else {
        None
    }
}

/// What the parsed `package` section holds, when its text has no error.
pub open spec fn package_meta_matches(m: PackageMeta, t: Seq<(String, DocValue)>) -> bool {
    &&& Some(m.id@) == spec_str_at(t, "id"@)
    &&& Some(m.name@) == spec_str_at(t, "name"@)
    &&& Some(m.version@) == spec_str_at(t, "version"@)
    &&& m.author@ == spec_opt_str_val(t, "author"@, ""@)
    &&& m.description@ == spec_opt_str_val(t, "description"@, ""@)
    &&& m.license.deep_view() == spec_str_at(t, "license"@)
    &&& m.homepage.deep_view() == spec_str_at(t, "homepage"@)
}

/// Parse the `package` section.
pub fn parse_package_meta(t: &Vec<(String, DocValue)>) -> (r: Result<PackageMeta, ManifestError>)
    ensures
        match r {
            Ok(m) => spec_package_meta_err(t@) is None && package_meta_matches(m, t@),
            Err(e) => spec_package_meta_err(t@) == Some(e@),
        },
{
    let id = match req_str(t, "id", "package.id") {
        Ok(v) => v,
        Err(e) => {
            return Err(e);
        },
    };
    let name = match req_str(t, "name", "package.name") {
        Ok(v) => v,
        Err(e) => {
            return Err(e);
        },
    };
    let version = match req_str(t, "version", "package.version") {
        Ok(v) => v,
        Err(e) => {
            return Err(e);
        },
    };
    let author = match opt_str(t, "author", "package.author", "") {
        Ok(v) => v,
        Err(e) => {
            return Err(e);
        },
    };
    let description = match opt_str(t, "description", "package.description", "") {
        Ok(v) => v,
        Err(e) => {
            return Err(e);
        },
    };
    let license = match opt_str_option(t, "license", "package.license") {
        Ok(v) => v,
        Err(e) => {
            return Err(e);
        },
    };
    let homepage = match opt_str_option(t, "homepage", "package.homepage") {
        Ok(v) => v,
        Err(e) => {
            return Err(e);
        },
    };
    Ok(PackageMeta { id, name, version, author, description, license, homepage })
}

// ---------------------------------------------------------------------------
// Plugin definitions
// ---------------------------------------------------------------------------

/// The first error of one `plugins` entry's fields, in field order.
pub open spec fn spec_plugin_def_err(t: Seq<(String, DocValue)>) -> Option<ErrorKind> {
    if spec_req_str_err(t, "id"@, "plugins.id"@) is Some {
        spec_req_str_err(t, "id"@, "plugins.id"@)
    } else if spec_req_str_err(t, "name"@, "plugins.name"@) is Some {
        spec_req_str_err(t, "name"@, "plugins.name"@)
    } else if spec_req_str_err(t, "type"@, "plugins.type"@) is Some {
        spec_req_str_err(t, "type"@, "plugins.type"@)
    } else if spec_req_str_err(t, "binary"@, "plugins.binary"@) is Some {
        spec_req_str_err(t, "binary"@, "plugins.binary"@)
    } else if !spec_opt_str_ok(t, "description"@) {
        Some(ErrorKind::TomlParse(spec_wrong_type("plugins.description"@)))
    } else if !spec_opt_str_arr_ok(t, "depends_on"@) {
        Some(ErrorKind::TomlParse(spec_wrong_type("plugins.depends_on"@)))
    } else if !spec_opt_table_ok(t, "config"@) {
        Some(ErrorKind::TomlParse(spec_wrong_type("plugins.config"@)))
    } else if spec_lookup(t, "config"@) is Some && spec_config_err(
        spec_table_at(t, "config"@),
    ) is Some {
        spec_config_err(spec_table_at(t, "config"@))
    } else if spec_provides_err(t) is Some {
        spec_provides_err(t)
    } else if spec_requires_err(t) is Some {
        spec_requires_err(t)
    } else {
        None
    }
}

/// What one parsed `plugins` entry holds, when its text has no error.
pub open spec fn plugin_def_matches(d: PluginDef, t: Seq<(String, DocValue)>) -> bool {
    &&& Some(d.id@) == spec_str_at(t, "id"@)
    &&& Some(d.name@) == spec_str_at(t, "name"@)
    &&& Some(d.plugin_type@) == spec_str_at(t, "type"@)
    &&& Some(d.binary@) == spec_str_at(t, "binary"@)
    &&& d.description.deep_view() == spec_str_at(t, "description"@)
    &&& d.depends_on.deep_view() == spec_opt_str_arr_val(t, "depends_on"@)
    &&& (match spec_lookup(t, "config"@) {
        None => d.config is None,
        Some(DocValue::Table(tt)) => d.config matches Some(c) && config_matches(c, tt@),
        Some(_) => true,
    })
    &&& provides_matches(d.provides@, t)
    &&& requires_matches(d.requires@, t)
}

/// Parse one `plugins` entry.
pub fn parse_plugin_def(t: &Vec<(String, DocValue)>) -> (r: Result<PluginDef, ManifestError>)
    ensures
        match r {
            Ok(d) => spec_plugin_def_err(t@) is None && plugin_def_matches(d, t@),
            Err(e) => spec_plugin_def_err(t@) == Some(e@),
        },
{
    let id = match req_str(t, "id", "plugins.id") {
        Ok(v) => v,
        Err(e) => {
            return Err(e);
        },
    };
    let name = match req_str(t, "name", "plugins.name") {
        Ok(v) => v,
        Err(e) => {
            return Err(e);
        },
    };
    let plugin_type = match req_str(t, "type", "plugins.type") {
        Ok(v) => v,
        Err(e) => {
            return Err(e);
        },
    };
    let binary = match req_str(t, "binary", "plugins.binary") {
        Ok(v) => v,
        Err(e) => {
            return Err(e);
        },
    };
    let description = match opt_str_option(t, "description", "plugins.description") {
        Ok(v) => v,
        Err(e) => {
            return Err(e);
        },
    };
    let depends_on = match opt_str_arr(t, "depends_on", "plugins.depends_on") {
        Ok(v) => v,
        Err(e) => {
            return Err(e);
        },
    };
    let config = match opt_table(t, "config", "plugins.config") {
        Ok(Some(tt)) => match parse_config_section(tt) {
            Ok(c) => Some(c),
            Err(e) => {
                return Err(e);
            },
        },
        Ok(None) => None,
        Err(e) => {
            return Err(e);
        },
    };
    let provides = match parse_provides_field(t) {
        Ok(v) => v,
        Err(e) => {
            return Err(e);
        },
    };
    let requires_list = match parse_requires_field(t) {
        Ok(v) => v,
        Err(e) => {
            return Err(e);
        },
    };
    Ok(
        PluginDef {
            id,
            name,
            plugin_type,
            binary,
            description,
            depends_on,
            config,
            provides,
            requires: requires_list,
        },
    )
}

/// The first error of the `plugins` entry list, in declaration order; an
/// entry that is not a table is malformed.
pub open spec fn spec_def_list_err(items: Seq<DocValue>) -> Option<ErrorKind>
    decreases items.len(),
{
    if items.len() == 0 {
        None
    } else {
        match items[0] {
            DocValue::Table(tt) => match spec_plugin_def_err(tt@) {
                Some(e) => Some(e),
                None => spec_def_list_err(items.drop_first()),
            },
            _ => Some(ErrorKind::TomlParse(spec_wrong_type("plugins"@))),
        }
    }
}

/// What the parsed `plugins` entry list holds, when its text has no error.
pub open spec fn def_list_matches(v: Seq<PluginDef>, items: Seq<DocValue>) -> bool {
    &&& v.len() == items.len()
    &&& forall|i: int|
        0 <= i < items.len() ==> ((#[trigger] items[i]) matches DocValue::Table(tt)
            && plugin_def_matches(v[i], tt@))
}

/// Parse the `plugins` entry list.
pub fn parse_def_list(items: &Vec<DocValue>) -> (r: Result<Vec<PluginDef>, ManifestError>)
    ensures
        match r {
            Ok(v) => spec_def_list_err(items@) is None && def_list_matches(v@, items@),
            Err(e) => spec_def_list_err(items@) == Some(e@),
        },
{
    let mut out: Vec<PluginDef> = Vec::new();
    let mut i: usize = 0;
    proof {
        assert(items@.skip(0) =~= items@);
    }
    while i < items.len()
        invariant
            0 <= i <= items@.len(),
            out@.len() == i,
            spec_def_list_err(items@) == spec_def_list_err(items@.skip(i as int)),
            forall|j: int|
                0 <= j < i ==> ((#[trigger] items@[j]) matches DocValue::Table(tt)
                    && plugin_def_matches(out@[j], tt@)),
        decreases items@.len() - i,
    {
        proof {
            assert(items@.skip(i as int).drop_first() =~= items@.skip(i + 1));
            assert(items@.skip(i as int)[0] == items@[i as int]);
        }
        match &items[i] {
            DocValue::Table(tt) => {
                match parse_plugin_def(tt) {
                    Ok(d) => {
                        out.push(d);
                    },
                    Err(e) => {
                        return Err(e);
                    },
                }
            },
            _ => {
                return Err(ManifestError::wrong_type("plugins"));
            },
        }
        i = i + 1;
    }
    proof {
        assert(items@.skip(i as int).len() == 0);
    }
    Ok(out)
}

// ---------------------------------------------------------------------------
// Package binary section
// ---------------------------------------------------------------------------

/// The first error of the package `binary` section's fields.
pub open spec fn spec_pkg_binary_err(t: Seq<(String, DocValue)>) -> Option<ErrorKind> {
    if !spec_opt_str_table_ok(t, "checksums"@) {
        Some(ErrorKind::TomlParse(spec_wrong_type("binary.checksums"@)))
    } else {
        None
    }
}

/// What the parsed package `binary` section holds, when its text has no
/// error.
pub open spec fn pkg_binary_matches(b: PackageBinaryInfo, t: Seq<(String, DocValue)>) -> bool {
    b.checksums.deep_view() == spec_opt_str_table_val(t, "checksums"@)
}

/// Parse the package `binary` section.
pub fn parse_pkg_binary_section(t: &Vec<(String, DocValue)>) -> (r: Result<
    PackageBinaryInfo,
    ManifestError,
>)
    ensures
        match r {
            Ok(b) => spec_pkg_binary_err(t@) is None && pkg_binary_matches(b, t@),
            Err(e) => spec_pkg_binary_err(t@) == Some(e@),
        },
{
    let checksums = match opt_str_table(t, "checksums", "binary.checksums") {
        Ok(v) => v,
        Err(e) => {
            return Err(e);
        },
    };
    Ok(PackageBinaryInfo { checksums })
}

// ---------------------------------------------------------------------------
// Parsing a package manifest out of a document
// ---------------------------------------------------------------------------

/// The first error of a package manifest's root table, sections checked in
/// document-model order.
pub open spec fn spec_package_root_err(root: Seq<(String, DocValue)>) -> Option<ErrorKind> {
    if spec_lookup(root, "package"@) is None {
        Some(ErrorKind::MissingField("package"@))
    } else if !spec_opt_table_ok(root, "package"@) {
        Some(ErrorKind::TomlParse(spec_wrong_type("package"@)))
    } else if spec_package_meta_err(spec_table_at(root, "package"@)) is Some {
        spec_package_meta_err(spec_table_at(root, "package"@))
    } else if !spec_opt_table_ok(root, "compatibility"@) {
        Some(ErrorKind::TomlParse(spec_wrong_type("compatibility"@)))
    } else if spec_compat_err(spec_table_at(root, "compatibility"@)) is Some {
        spec_compat_err(spec_table_at(root, "compatibility"@))
    } else if spec_lookup(root, "plugins"@) is None {
        Some(ErrorKind::MissingField("plugins"@))
    } else if !(spec_lookup(root, "plugins"@)->0 is Arr) {
        Some(ErrorKind::TomlParse(spec_wrong_type("plugins"@)))
    } else if spec_def_list_err(spec_lookup(root, "plugins"@)->0->Arr_0@) is Some {
        spec_def_list_err(spec_lookup(root, "plugins"@)->0->Arr_0@)
    } else if !spec_opt_table_ok(root, "binary"@) {
        Some(ErrorKind::TomlParse(spec_wrong_type("binary"@)))
    } else if spec_pkg_binary_err(spec_table_at(root, "binary"@)) is Some {
        spec_pkg_binary_err(spec_table_at(root, "binary"@))
    } else if !spec_opt_table_ok(root, "signature"@) {
        Some(ErrorKind::TomlParse(spec_wrong_type("signature"@)))
    } else if spec_lookup(root, "signature"@) is Some && spec_signature_err(
        spec_table_at(root, "signature"@),
    ) is Some {
        spec_signature_err(spec_table_at(root, "signature"@))
    } else {
        None
    }
}

/// What a package manifest parsed from a root table holds, when the text has
/// no error.
pub open spec fn package_manifest_matches_root(
    m: PackageManifest,
    root: Seq<(String, DocValue)>,
) -> bool {
    &&& package_meta_matches(m.package, spec_table_at(root, "package"@))
    &&& compat_matches(m.compatibility, spec_table_at(root, "compatibility"@))
    &&& (spec_lookup(root, "plugins"@) matches Some(v) && v matches DocValue::Arr(items)
        && def_list_matches(m.plugins@, items@))
    &&& pkg_binary_matches(m.binary, spec_table_at(root, "binary"@))
    &&& (match spec_lookup(root, "signature"@) {
        None => m.signature is None,
        Some(DocValue::Table(tt)) => m.signature matches Some(s) && signature_matches(s, tt@),
        Some(_) => true,
    })
}

/// The first error of a package manifest document; a document whose root is
/// not a table is malformed.
pub open spec fn spec_package_doc_err(doc: DocValue) -> Option<ErrorKind> {
    match doc {
        DocValue::Table(root) => spec_package_root_err(root@),
        _ => Some(ErrorKind::TomlParse(spec_wrong_type("manifest"@))),
    }
}

/// What a package manifest parsed from a document holds, when the text has
/// no error.
pub open spec fn package_manifest_matches(m: PackageManifest, doc: DocValue) -> bool {
    doc matches DocValue::Table(root) && package_manifest_matches_root(m, root@)
}

impl PackageManifest {
    /// Parse a package manifest out of a document tree.
    pub fn from_doc(doc: &DocValue) -> (r: Result<PackageManifest, ManifestError>)
        ensures
            match r {
                Ok(m) => spec_package_doc_err(*doc) is None && package_manifest_matches(m, *doc),
                Err(e) => spec_package_doc_err(*doc) == Some(e@),
            },
    {
        let root = match doc {
            DocValue::Table(root) => root,
            _ => {
                return Err(ManifestError::wrong_type("manifest"));
            },
        };
        let package_tbl = match opt_table(root, "package", "package") {
            Ok(Some(tt)) => tt,
            Ok(None) => {
                return Err(ManifestError::missing("package"));
            },
            Err(e) => {
                return Err(e);
            },
        };
        let package = match parse_package_meta(package_tbl) {
            Ok(v) => v,
            Err(e) => {
                return Err(e);
            },
        };
        let compatibility = match opt_table(root, "compatibility", "compatibility") {
            Ok(Some(tt)) => match parse_compat_section(tt) {
                Ok(v) => v,
                Err(e) => {
                    return Err(e);
                },
            },
            Ok(None) => {
                let empty: Vec<(String, DocValue)> = Vec::new();
                proof {
                    assert(empty@ =~= spec_table_at(root@, "compatibility"@));
                }
                match parse_compat_section(&empty) {
                    Ok(v) => v,
                    Err(e) => {
                        return Err(e);
                    },
                }
            },
            Err(e) => {
                return Err(e);
            },
        };
        let plugins = match opt_arr(root, "plugins", "plugins") {
            Ok(Some(items)) => match parse_def_list(items) {
                Ok(v) => v,
                Err(e) => {
                    return Err(e);
                },
            },
            Ok(None) => {
                return Err(ManifestError::missing("plugins"));
            },
            Err(e) => {
                return Err(e);
            },
        };
        let binary = match opt_table(root, "binary", "binary") {
            Ok(Some(tt)) => match parse_pkg_binary_section(tt) {
                Ok(v) => v,
                Err(e) => {
                    return Err(e);
                },
            },
            Ok(None) => {
                let empty: Vec<(String, DocValue)> = Vec::new();
                proof {
                    assert(empty@ =~= spec_table_at(root@, "binary"@));
                }
                match parse_pkg_binary_section(&empty) {
                    Ok(v) => v,
                    Err(e) => {
                        return Err(e);
                    },
                }
            },
            Err(e) => {
                return Err(e);
            },
        };
        let signature = match opt_table(root, "signature", "signature") {
            Ok(Some(tt)) => match parse_signature_section(tt) {
                Ok(s) => Some(s),
                Err(e) => {
                    return Err(e);
                },
            },
            Ok(None) => None,
            Err(e) => {
                return Err(e);
            },
        };
        Ok(PackageManifest { package, compatibility, plugins, binary, signature })
    }

    /// Parse a package manifest from TOML text.
    pub fn from_toml(content: &str) -> (r: Result<PackageManifest, ManifestError>)
        ensures
            match toml_doc_of(content@) {
                Err(msg) => r matches Err(e) && e@ == ErrorKind::TomlParse(msg),
                Ok(doc) => match r {
                    Ok(m) => spec_package_doc_err(doc) is None && package_manifest_matches(m, doc),
                    Err(e) => spec_package_doc_err(doc) == Some(e@),
                },
            },
    {
        match parse_toml_text(content) {
            Ok(doc) => PackageManifest::from_doc(&doc),
            Err(msg) => Err(ManifestError::TomlParse(msg)),
        }
    }

    /// Get the checksum declared for the current platform, if any.
    pub fn checksum_for_current_platform(&self) -> (r: Option<&str>)
        ensures
            r.deep_view() == spec_checksum_lookup(
                self.binary.checksums.deep_view(),
                spec_current_platform(),
            ),
    {
        checksum_for_platform_list(&self.binary.checksums)
    }

    /// Check if the current platform is supported: no declared restriction,
    /// or a declared platform matching the current one.
    pub fn supports_current_platform(&self) -> (r: bool)
        ensures
            r == spec_supports_current(self.compatibility.platforms.deep_view()),
    {
        supports_current(&self.compatibility.platforms)
    }
}

impl PluginDef {
    /// Get the binary filename for the current platform.
    pub fn binary_filename(&self) -> (r: String)
        ensures
            r@ == spec_library_filename(self.binary@),
    {
        library_filename(self.binary.as_str())
    }
}

} // verus!
