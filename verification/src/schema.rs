//! Shared schema sections: reading manifest sections out of a document tree.
//!
//! Each section has a spec-level description of two things: which error, if
//! any, the section's text produces (checked in field order), and what the
//! parsed section holds when there is none. The executable parsers are
//! verified against both.

use vstd::prelude::*;

use crate::error::ErrorKind;
use crate::error::ManifestError;
use crate::error::spec_wrong_type;
use crate::plugin::BinaryInfo;
use crate::plugin::CapabilityDeclaration;
use crate::plugin::CliConfig;
use crate::plugin::CompatibilityInfo;
use crate::plugin::ConfigInfo;
use crate::plugin::HiveInfo;
use crate::plugin::LanguageInfo;
use crate::plugin::PluginMeta;
use crate::plugin::RequirementsInfo;
use crate::plugin::ServiceDeclaration;
use crate::plugin::ServiceRequirement;
use crate::plugin::SignatureInfo;
use crate::plugin::TagsInfo;
use crate::plugin::TranslationInfo;
use crate::value::DocValue;
use crate::value::lookup;
use crate::value::opt_bool;
use crate::value::opt_str;
use crate::value::opt_str_arr;
use crate::value::opt_str_option;
use crate::value::opt_str_table;
use crate::value::opt_u32;
use crate::value::pairs_like;
use crate::value::clone_pairs;
use crate::value::req_str;
use crate::value::spec_lookup;
use crate::value::spec_opt_bool_ok;
use crate::value::spec_opt_bool_val;
use crate::value::spec_opt_str_arr_ok;
use crate::value::spec_opt_str_arr_val;
use crate::value::spec_opt_str_ok;
use crate::value::spec_opt_str_table_ok;
use crate::value::spec_opt_str_table_val;
use crate::value::spec_opt_str_val;
use crate::value::spec_opt_u32_ok;
use crate::value::spec_opt_u32_val;
use crate::value::spec_req_str_err;
use crate::value::spec_str_at;

verus! {

// ---------------------------------------------------------------------------
// Section access
// ---------------------------------------------------------------------------

/// Whether an optional table field is acceptable: absent, or a table.
pub open spec fn spec_opt_table_ok(t: Seq<(String, DocValue)>, key: Seq<char>) -> bool {
    match spec_lookup(t, key) {
        None => true,
        Some(v) => v is Table,
    }
}

/// The pair list of a table field, empty when the field is absent.
pub open spec fn spec_table_at(t: Seq<(String, DocValue)>, key: Seq<char>) -> Seq<
    (String, DocValue),
> {
    match spec_lookup(t, key) {
        Some(DocValue::Table(tt)) => tt@,
        _ => Seq::empty(),
    }
}

/// Read an optional table-valued section.
pub(crate) fn opt_table<'a>(t: &'a Vec<(String, DocValue)>, key: &str, path: &str) -> (r: Result<
    Option<&'a Vec<(String, DocValue)>>,
    ManifestError,
>)
    ensures
        match r {
            Ok(Some(tt)) => spec_lookup(t@, key@) == Some(DocValue::Table(*tt)),
            Ok(None) => spec_lookup(t@, key@) is None,
            Err(e) => !spec_opt_table_ok(t@, key@) && e@ == ErrorKind::TomlParse(
                spec_wrong_type(path@),
            ),
        },
{
    match lookup(t, key) {
        None => Ok(None),
        Some(v) => match v {
            DocValue::Table(tt) => Ok(Some(tt)),
            _ => Err(ManifestError::wrong_type(path)),
        },
    }
}

/// Read an optional array-valued section.
pub(crate) fn opt_arr<'a>(t: &'a Vec<(String, DocValue)>, key: &str, path: &str) -> (r: Result<
    Option<&'a Vec<DocValue>>,
    ManifestError,
>)
    ensures
        match r {
            Ok(Some(items)) => spec_lookup(t@, key@) == Some(DocValue::Arr(*items)),
            Ok(None) => spec_lookup(t@, key@) is None,
            Err(e) => {
                &&& match spec_lookup(t@, key@) {
                    None => false,
                    Some(v) => !(v is Arr),
                }
                &&& e@ == ErrorKind::TomlParse(spec_wrong_type(path@))
            },
        },
{
    match lookup(t, key) {
        None => Ok(None),
        Some(v) => match v {
            DocValue::Arr(items) => Ok(Some(items)),
            _ => Err(ManifestError::wrong_type(path)),
        },
    }
}

// ---------------------------------------------------------------------------
// Plugin metadata section
// ---------------------------------------------------------------------------

/// The first error of the `plugin` section's fields, in field order.
pub open spec fn spec_plugin_meta_err(t: Seq<(String, DocValue)>) -> Option<ErrorKind> {
    if spec_req_str_err(t, "id"@, "plugin.id"@) is Some {
        spec_req_str_err(t, "id"@, "plugin.id"@)
    } else if spec_req_str_err(t, "name"@, "plugin.name"@) is Some {
        spec_req_str_err(t, "name"@, "plugin.name"@)
    } else if spec_req_str_err(t, "version"@, "plugin.version"@) is Some {
        spec_req_str_err(t, "version"@, "plugin.version"@)
    } else if spec_req_str_err(t, "type"@, "plugin.type"@) is Some {
        spec_req_str_err(t, "type"@, "plugin.type"@)
    } else if !spec_opt_str_ok(t, "author"@) {
        Some(ErrorKind::TomlParse(spec_wrong_type("plugin.author"@)))
    } else if !spec_opt_str_ok(t, "description"@) {
        Some(ErrorKind::TomlParse(spec_wrong_type("plugin.description"@)))
    } else if !spec_opt_str_ok(t, "license"@) {
        Some(ErrorKind::TomlParse(spec_wrong_type("plugin.license"@)))
    } else if !spec_opt_str_ok(t, "homepage"@) {
        Some(ErrorKind::TomlParse(spec_wrong_type("plugin.homepage"@)))
    } else {
        None
    }
}

/// What the parsed `plugin` section holds, when its text has no error.
pub open spec fn plugin_meta_matches(m: PluginMeta, t: Seq<(String, DocValue)>) -> bool {
    &&& Some(m.id@) == spec_str_at(t, "id"@)
    &&& Some(m.name@) == spec_str_at(t, "name"@)
    &&& Some(m.version@) == spec_str_at(t, "version"@)
    &&& Some(m.plugin_type@) == spec_str_at(t, "type"@)
    &&& m.author@ == spec_opt_str_val(t, "author"@, ""@)
    &&& m.description@ == spec_opt_str_val(t, "description"@, ""@)
    &&& m.license.deep_view() == spec_str_at(t, "license"@)
    &&& m.homepage.deep_view() == spec_str_at(t, "homepage"@)
}

/// Parse the `plugin` section.
pub(crate) fn parse_plugin_meta(t: &Vec<(String, DocValue)>) -> (r: Result<PluginMeta, ManifestError>)
    ensures
        match r {
            Ok(m) => spec_plugin_meta_err(t@) is None && plugin_meta_matches(m, t@),
            Err(e) => spec_plugin_meta_err(t@) == Some(e@),
        },
{
    let id = match req_str(t, "id", "plugin.id") {
        Ok(v) => v,
        Err(e) => {
            return Err(e);
        },
    };
    let name = match req_str(t, "name", "plugin.name") {
        Ok(v) => v,
        Err(e) => {
            return Err(e);
        },
    };
    let version = match req_str(t, "version", "plugin.version") {
        Ok(v) => v,
        Err(e) => {
            return Err(e);
        },
    };
    let plugin_type = match req_str(t, "type", "plugin.type") {
        Ok(v) => v,
        Err(e) => {
            return Err(e);
        },
    };
    let author = match opt_str(t, "author", "plugin.author", "") {
        Ok(v) => v,
        Err(e) => {
            return Err(e);
        },
    };
    let description = match opt_str(t, "description", "plugin.description", "") {
        Ok(v) => v,
        Err(e) => {
            return Err(e);
        },
    };
    let license = match opt_str_option(t, "license", "plugin.license") {
        Ok(v) => v,
        Err(e) => {
            return Err(e);
        },
    };
    let homepage = match opt_str_option(t, "homepage", "plugin.homepage") {
        Ok(v) => v,
        Err(e) => {
            return Err(e);
        },
    };
    Ok(PluginMeta { id, name, version, plugin_type, author, description, license, homepage })
}

// ---------------------------------------------------------------------------
// Compatibility section
// ---------------------------------------------------------------------------

/// The first error of the `compatibility` section's fields, in field order.
pub open spec fn spec_compat_err(t: Seq<(String, DocValue)>) -> Option<ErrorKind> {
    if !spec_opt_u32_ok(t, "api_version"@) {
        Some(ErrorKind::TomlParse(spec_wrong_type("compatibility.api_version"@)))
    } else if !spec_opt_str_ok(t, "min_host_version"@) {
        Some(ErrorKind::TomlParse(spec_wrong_type("compatibility.min_host_version"@)))
    } else if !spec_opt_str_ok(t, "max_host_version"@) {
        Some(ErrorKind::TomlParse(spec_wrong_type("compatibility.max_host_version"@)))
    } else if !spec_opt_str_arr_ok(t, "platforms"@) {
        Some(ErrorKind::TomlParse(spec_wrong_type("compatibility.platforms"@)))
    } else if !spec_opt_str_arr_ok(t, "depends_on"@) {
        Some(ErrorKind::TomlParse(spec_wrong_type("compatibility.depends_on"@)))
    } else {
        None
    }
}

/// What the parsed `compatibility` section holds, when its text has no
/// error. Parsing an absent section is parsing the empty table, which gives
/// the defaults.
pub open spec fn compat_matches(c: CompatibilityInfo, t: Seq<(String, DocValue)>) -> bool {
    &&& c.api_version == spec_opt_u32_val(t, "api_version"@, 2)
    &&& c.min_host_version.deep_view() == spec_str_at(t, "min_host_version"@)
    &&& c.max_host_version.deep_view() == spec_str_at(t, "max_host_version"@)
    &&& c.platforms.deep_view() == spec_opt_str_arr_val(t, "platforms"@)
    &&& c.depends_on.deep_view() == spec_opt_str_arr_val(t, "depends_on"@)
}

/// Parse the `compatibility` section.
pub(crate) fn parse_compat_section(t: &Vec<(String, DocValue)>) -> (r: Result<
    CompatibilityInfo,
    ManifestError,
>)
    ensures
        match r {
            Ok(c) => spec_compat_err(t@) is None && compat_matches(c, t@),
            Err(e) => spec_compat_err(t@) == Some(e@),
        },
{
    let api_version = match opt_u32(t, "api_version", "compatibility.api_version", 2) {
        Ok(v) => v,
        Err(e) => {
            return Err(e);
        },
    };
    let min_host_version = match opt_str_option(
        t,
        "min_host_version",
        "compatibility.min_host_version",
    ) {
        Ok(v) => v,
        Err(e) => {
            return Err(e);
        },
    };
    let max_host_version = match opt_str_option(
        t,
        "max_host_version",
        "compatibility.max_host_version",
    ) {
        Ok(v) => v,
        Err(e) => {
            return Err(e);
        },
    };
    let platforms = match opt_str_arr(t, "platforms", "compatibility.platforms") {
        Ok(v) => v,
        Err(e) => {
            return Err(e);
        },
    };
    let depends_on = match opt_str_arr(t, "depends_on", "compatibility.depends_on") {
        Ok(v) => v,
        Err(e) => {
            return Err(e);
        },
    };
    Ok(
        CompatibilityInfo {
            api_version,
            min_host_version,
            max_host_version,
            platforms,
            depends_on,
        },
    )
}

// ---------------------------------------------------------------------------
// Binary section
// ---------------------------------------------------------------------------

/// The first error of the `binary` section's fields, in field order.
pub open spec fn spec_binary_err(t: Seq<(String, DocValue)>) -> Option<ErrorKind> {
    if !spec_opt_str_ok(t, "name"@) {
        Some(ErrorKind::TomlParse(spec_wrong_type("binary.name"@)))
    } else if !spec_opt_str_table_ok(t, "checksums"@) {
        Some(ErrorKind::TomlParse(spec_wrong_type("binary.checksums"@)))
    } else {
        None
    }
}

/// What the parsed `binary` section holds, when its text has no error.
pub open spec fn binary_matches(b: BinaryInfo, t: Seq<(String, DocValue)>) -> bool {
    &&& b.name@ == spec_opt_str_val(t, "name"@, "plugin"@)
    &&& b.checksums.deep_view() == spec_opt_str_table_val(t, "checksums"@)
}

/// Parse the `binary` section.
pub(crate) fn parse_binary_section(t: &Vec<(String, DocValue)>) -> (r: Result<BinaryInfo, ManifestError>)
    ensures
        match r {
            Ok(b) => spec_binary_err(t@) is None && binary_matches(b, t@),
            Err(e) => spec_binary_err(t@) == Some(e@),
        },
{
    let name = match opt_str(t, "name", "binary.name", "plugin") {
        Ok(v) => v,
        Err(e) => {
            return Err(e);
        },
    };
    let checksums = match opt_str_table(t, "checksums", "binary.checksums") {
        Ok(v) => v,
        Err(e) => {
            return Err(e);
        },
    };
    Ok(BinaryInfo { name, checksums })
}

// ---------------------------------------------------------------------------
// Signature section
// ---------------------------------------------------------------------------

/// The first error of the `signature` section's fields, in field order.
pub open spec fn spec_signature_err(t: Seq<(String, DocValue)>) -> Option<ErrorKind> {
    if spec_req_str_err(t, "public_key"@, "signature.public_key"@) is Some {
        spec_req_str_err(t, "public_key"@, "signature.public_key"@)
    } else if spec_req_str_err(t, "signature_file"@, "signature.signature_file"@) is Some {
        spec_req_str_err(t, "signature_file"@, "signature.signature_file"@)
    } else {
        None
    }
}

/// What the parsed `signature` section holds, when its text has no error.
pub open spec fn signature_matches(s: SignatureInfo, t: Seq<(String, DocValue)>) -> bool {
    &&& Some(s.public_key@) == spec_str_at(t, "public_key"@)
    &&& Some(s.signature_file@) == spec_str_at(t, "signature_file"@)
}

/// Parse the `signature` section.
pub(crate) fn parse_signature_section(t: &Vec<(String, DocValue)>) -> (r: Result<
    SignatureInfo,
    ManifestError,
>)
    ensures
        match r {
            Ok(s) => spec_signature_err(t@) is None && signature_matches(s, t@),
            Err(e) => spec_signature_err(t@) == Some(e@),
        },
{
    let public_key = match req_str(t, "public_key", "signature.public_key") {
        Ok(v) => v,
        Err(e) => {
            return Err(e);
        },
    };
    let signature_file = match req_str(t, "signature_file", "signature.signature_file") {
        Ok(v) => v,
        Err(e) => {
            return Err(e);
        },
    };
    Ok(SignatureInfo { public_key, signature_file })
}

// ---------------------------------------------------------------------------
// Config section
// ---------------------------------------------------------------------------

/// The first error of the `config` section's fields.
pub open spec fn spec_config_err(t: Seq<(String, DocValue)>) -> Option<ErrorKind> {
    if !spec_opt_table_ok(t, "defaults"@) {
        Some(ErrorKind::TomlParse(spec_wrong_type("config.defaults"@)))
    } else {
        None
    }
}

/// What the parsed `config` section holds, when its text has no error: a
/// structurally equivalent copy of the `defaults` table.
pub open spec fn config_matches(c: ConfigInfo, t: Seq<(String, DocValue)>) -> bool {
    pairs_like(spec_table_at(t, "defaults"@), c.defaults@)
}

/// Parse the `config` section.
pub(crate) fn parse_config_section(t: &Vec<(String, DocValue)>) -> (r: Result<ConfigInfo, ManifestError>)
    ensures
        match r {
            Ok(c) => spec_config_err(t@) is None && config_matches(c, t@),
            Err(e) => spec_config_err(t@) == Some(e@),
        },
{
    match opt_table(t, "defaults", "config.defaults") {
        Ok(Some(tt)) => Ok(ConfigInfo { defaults: clone_pairs(tt) }),
        Ok(None) => {
            let c = ConfigInfo { defaults: Vec::new() };
            proof {
                assert(pairs_like(spec_table_at(t@, "defaults"@), c.defaults@));
            }
            Ok(c)
        },
        Err(e) => Err(e),
    }
}

// ---------------------------------------------------------------------------
// Service declarations (`provides`)
// ---------------------------------------------------------------------------

/// The first error of one `provides` entry's fields, in field order.
pub open spec fn spec_svc_err(t: Seq<(String, DocValue)>) -> Option<ErrorKind> {
    if spec_req_str_err(t, "id"@, "provides.id"@) is Some {
        spec_req_str_err(t, "id"@, "provides.id"@)
    } else if spec_req_str_err(t, "version"@, "provides.version"@) is Some {
        spec_req_str_err(t, "version"@, "provides.version"@)
    } else if !spec_opt_str_ok(t, "description"@) {
        Some(ErrorKind::TomlParse(spec_wrong_type("provides.description"@)))
    } else {
        None
    }
}

/// What one parsed `provides` entry holds, when its text has no error.
pub open spec fn svc_matches(s: ServiceDeclaration, t: Seq<(String, DocValue)>) -> bool {
    &&& Some(s.id@) == spec_str_at(t, "id"@)
    &&& Some(s.version@) == spec_str_at(t, "version"@)
    &&& s.description@ == spec_opt_str_val(t, "description"@, ""@)
}

/// Parse one `provides` entry.
pub(crate) fn parse_svc(t: &Vec<(String, DocValue)>) -> (r: Result<ServiceDeclaration, ManifestError>)
    ensures
        match r {
            Ok(s) => spec_svc_err(t@) is None && svc_matches(s, t@),
            Err(e) => spec_svc_err(t@) == Some(e@),
        },
{
    let id = match req_str(t, "id", "provides.id") {
        Ok(v) => v,
        Err(e) => {
            return Err(e);
        },
    };
    let version = match req_str(t, "version", "provides.version") {
        Ok(v) => v,
        Err(e) => {
            return Err(e);
        },
    };
    let description = match opt_str(t, "description", "provides.description", "") {
        Ok(v) => v,
        Err(e) => {
            return Err(e);
        },
    };
    Ok(ServiceDeclaration { id, version, description })
}

/// The first error of a `provides` entry list, in declaration order; an
/// entry that is not a table reads as the wrong type for `path`.
pub open spec fn spec_svc_list_err(items: Seq<DocValue>, path: Seq<char>) -> Option<ErrorKind>
    decreases items.len(),
{
    if items.len() == 0 {
        None
    } else {
        match items[0] {
            DocValue::Table(tt) => match spec_svc_err(tt@) {
                Some(e) => Some(e),
                None => spec_svc_list_err(items.drop_first(), path),
            },
            _ => Some(ErrorKind::TomlParse(spec_wrong_type(path))),
        }
    }
}

/// What a parsed `provides` entry list holds, when its text has no error.
pub open spec fn svc_list_matches(v: Seq<ServiceDeclaration>, items: Seq<DocValue>) -> bool {
    &&& v.len() == items.len()
    &&& forall|i: int|
        0 <= i < items.len() ==> ((#[trigger] items[i]) matches DocValue::Table(tt)
            && svc_matches(v[i], tt@))
}

/// Parse a `provides` entry list.
pub(crate) fn parse_svc_list(items: &Vec<DocValue>, path: &str) -> (r: Result<
    Vec<ServiceDeclaration>,
    ManifestError,
>)
    ensures
        match r {
            Ok(v) => spec_svc_list_err(items@, path@) is None && svc_list_matches(v@, items@),
            Err(e) => spec_svc_list_err(items@, path@) == Some(e@),
        },
{
    let mut out: Vec<ServiceDeclaration> = Vec::new();
    let mut i: usize = 0;
    proof {
        assert(items@.skip(0) =~= items@);
    }
    while i < items.len()
        invariant
            0 <= i <= items@.len(),
            out@.len() == i,
            spec_svc_list_err(items@, path@) == spec_svc_list_err(items@.skip(i as int), path@),
            forall|j: int|
                0 <= j < i ==> ((#[trigger] items@[j]) matches DocValue::Table(tt)
                    && svc_matches(out@[j], tt@)),
        decreases items@.len() - i,
    {
        proof {
            assert(items@.skip(i as int).drop_first() =~= items@.skip(i + 1));
            assert(items@.skip(i as int)[0] == items@[i as int]);
        }
        match &items[i] {
            DocValue::Table(tt) => {
                match parse_svc(tt) {
                    Ok(s) => {
                        out.push(s);
                    },
                    Err(e) => {
                        return Err(e);
                    },
                }
            },
            _ => {
                return Err(ManifestError::wrong_type(path));
            },
        }
        i = i + 1;
    }
    proof {
        assert(items@.skip(i as int).len() == 0);
    }
    Ok(out)
}

/// The first error of the `provides` field at a manifest root.
pub open spec fn spec_provides_err(root: Seq<(String, DocValue)>) -> Option<ErrorKind> {
    match spec_lookup(root, "provides"@) {
        None => None,
        Some(DocValue::Arr(items)) => spec_svc_list_err(items@, "provides"@),
        Some(_) => Some(ErrorKind::TomlParse(spec_wrong_type("provides"@))),
    }
}

/// What the parsed `provides` field holds, when its text has no error.
pub open spec fn provides_matches(v: Seq<ServiceDeclaration>, root: Seq<(String, DocValue)>) -> bool {
    match spec_lookup(root, "provides"@) {
        None => v.len() == 0,
        Some(DocValue::Arr(items)) => svc_list_matches(v, items@),
        Some(_) => true,
    }
}

/// Parse the `provides` field of a manifest root or plugin definition.
pub(crate) fn parse_provides_field(root: &Vec<(String, DocValue)>) -> (r: Result<
    Vec<ServiceDeclaration>,
    ManifestError,
>)
    ensures
        match r {
            Ok(v) => spec_provides_err(root@) is None && provides_matches(v@, root@),
            Err(e) => spec_provides_err(root@) == Some(e@),
        },
{
    match opt_arr(root, "provides", "provides") {
        Ok(Some(items)) => parse_svc_list(items, "provides"),
        Ok(None) => Ok(Vec::new()),
        Err(e) => Err(e),
    }
}

// ---------------------------------------------------------------------------
// Service requirements (`requires`)
// ---------------------------------------------------------------------------

/// The first error of one `requires` entry's fields, in field order.
pub open spec fn spec_req_entry_err(t: Seq<(String, DocValue)>) -> Option<ErrorKind> {
    if spec_req_str_err(t, "id"@, "requires.id"@) is Some {
        spec_req_str_err(t, "id"@, "requires.id"@)
    } else if !spec_opt_str_ok(t, "min_version"@) {
        Some(ErrorKind::TomlParse(spec_wrong_type("requires.min_version"@)))
    } else if !spec_opt_bool_ok(t, "optional"@) {
        Some(ErrorKind::TomlParse(spec_wrong_type("requires.optional"@)))
    } else {
        None
    }
}

/// What one parsed `requires` entry holds, when its text has no error.
pub open spec fn req_entry_matches(s: ServiceRequirement, t: Seq<(String, DocValue)>) -> bool {
    &&& Some(s.id@) == spec_str_at(t, "id"@)
    &&& s.min_version.deep_view() == spec_str_at(t, "min_version"@)
    &&& s.optional == spec_opt_bool_val(t, "optional"@)
}

/// Parse one `requires` entry.
pub(crate) fn parse_req_entry(t: &Vec<(String, DocValue)>) -> (r: Result<
    ServiceRequirement,
    ManifestError,
>)
    ensures
        match r {
            Ok(s) => spec_req_entry_err(t@) is None && req_entry_matches(s, t@),
            Err(e) => spec_req_entry_err(t@) == Some(e@),
        },
{
    let id = match req_str(t, "id", "requires.id") {
        Ok(v) => v,
        Err(e) => {
            return Err(e);
        },
    };
    let min_version = match opt_str_option(t, "min_version", "requires.min_version") {
        Ok(v) => v,
        Err(e) => {
            return Err(e);
        },
    };
    let optional = match opt_bool(t, "optional", "requires.optional") {
        Ok(v) => v,
        Err(e) => {
            return Err(e);
        },
    };
    Ok(ServiceRequirement { id, min_version, optional })
}

/// The first error of a `requires` entry list, in declaration order.
pub open spec fn spec_req_list_err(items: Seq<DocValue>, path: Seq<char>) -> Option<ErrorKind>
    decreases items.len(),
{
    if items.len() == 0 {
        None
    } else {
        match items[0] {
            DocValue::Table(tt) => match spec_req_entry_err(tt@) {
                Some(e) => Some(e),
                None => spec_req_list_err(items.drop_first(), path),
            },
            _ => Some(ErrorKind::TomlParse(spec_wrong_type(path))),
        }
    }
}

/// What a parsed `requires` entry list holds, when its text has no error.
pub open spec fn req_list_matches(v: Seq<ServiceRequirement>, items: Seq<DocValue>) -> bool {
    &&& v.len() == items.len()
    &&& forall|i: int|
        0 <= i < items.len() ==> ((#[trigger] items[i]) matches DocValue::Table(tt)
            && req_entry_matches(v[i], tt@))
}

/// Parse a `requires` entry list.
pub(crate) fn parse_req_list(items: &Vec<DocValue>, path: &str) -> (r: Result<
    Vec<ServiceRequirement>,
    ManifestError,
>)
    ensures
        match r {
            Ok(v) => spec_req_list_err(items@, path@) is None && req_list_matches(v@, items@),
            Err(e) => spec_req_list_err(items@, path@) == Some(e@),
        },
{
    let mut out: Vec<ServiceRequirement> = Vec::new();
    let mut i: usize = 0;
    proof {
        assert(items@.skip(0) =~= items@);
    }
    while i < items.len()
        invariant
            0 <= i <= items@.len(),
            out@.len() == i,
            spec_req_list_err(items@, path@) == spec_req_list_err(items@.skip(i as int), path@),
            forall|j: int|
                0 <= j < i ==> ((#[trigger] items@[j]) matches DocValue::Table(tt)
                    && req_entry_matches(out@[j], tt@)),
        decreases items@.len() - i,
    {
        proof {
            assert(items@.skip(i as int).drop_first() =~= items@.skip(i + 1));
            assert(items@.skip(i as int)[0] == items@[i as int]);
        }
        match &items[i] {
            DocValue::Table(tt) => {
                match parse_req_entry(tt) {
                    Ok(s) => {
                        out.push(s);
                    },
                    Err(e) => {
                        return Err(e);
                    },
                }
            },
            _ => {
                return Err(ManifestError::wrong_type(path));
            },
        }
        i = i + 1;
    }
    proof {
        assert(items@.skip(i as int).len() == 0);
    }
    Ok(out)
}

/// The first error of the `requires` field at a manifest root.
pub open spec fn spec_requires_err(root: Seq<(String, DocValue)>) -> Option<ErrorKind> {
    match spec_lookup(root, "requires"@) {
        None => None,
        Some(DocValue::Arr(items)) => spec_req_list_err(items@, "requires"@),
        Some(_) => Some(ErrorKind::TomlParse(spec_wrong_type("requires"@))),
    }
}

/// What the parsed `requires` field holds, when its text has no error.
pub open spec fn requires_matches(v: Seq<ServiceRequirement>, root: Seq<(String, DocValue)>) -> bool {
    match spec_lookup(root, "requires"@) {
        None => v.len() == 0,
        Some(DocValue::Arr(items)) => req_list_matches(v, items@),
        Some(_) => true,
    }
}

/// Parse the `requires` field of a manifest root or plugin definition.
pub(crate) fn parse_requires_field(root: &Vec<(String, DocValue)>) -> (r: Result<
    Vec<ServiceRequirement>,
    ManifestError,
>)
    ensures
        match r {
            Ok(v) => spec_requires_err(root@) is None && requires_matches(v@, root@),
            Err(e) => spec_requires_err(root@) == Some(e@),
        },
{
    match opt_arr(root, "requires", "requires") {
        Ok(Some(items)) => parse_req_list(items, "requires"),
        Ok(None) => Ok(Vec::new()),
        Err(e) => Err(e),
    }
}

// ---------------------------------------------------------------------------
// Capability declarations (`capabilities`)
// ---------------------------------------------------------------------------

/// The first error of one `capabilities` entry's fields, in field order.
pub open spec fn spec_cap_err(t: Seq<(String, DocValue)>) -> Option<ErrorKind> {
    if spec_req_str_err(t, "protocol"@, "capabilities.protocol"@) is Some {
        spec_req_str_err(t, "protocol"@, "capabilities.protocol"@)
    } else if spec_req_str_err(t, "version"@, "capabilities.version"@) is Some {
        spec_req_str_err(t, "version"@, "capabilities.version"@)
    } else if !spec_opt_str_ok(t, "description"@) {
        Some(ErrorKind::TomlParse(spec_wrong_type("capabilities.description"@)))
    } else {
        None
    }
}

/// What one parsed `capabilities` entry holds, when its text has no error.
pub open spec fn cap_matches(c: CapabilityDeclaration, t: Seq<(String, DocValue)>) -> bool {
    &&& Some(c.protocol@) == spec_str_at(t, "protocol"@)
    &&& Some(c.version@) == spec_str_at(t, "version"@)
    &&& c.description@ == spec_opt_str_val(t, "description"@, ""@)
}

/// Parse one `capabilities` entry.
pub(crate) fn parse_cap(t: &Vec<(String, DocValue)>) -> (r: Result<CapabilityDeclaration, ManifestError>)
    ensures
        match r {
            Ok(c) => spec_cap_err(t@) is None && cap_matches(c, t@),
            Err(e) => spec_cap_err(t@) == Some(e@),
        },
{
    let protocol = match req_str(t, "protocol", "capabilities.protocol") {
        Ok(v) => v,
        Err(e) => {
            return Err(e);
        },
    };
    let version = match req_str(t, "version", "capabilities.version") {
        Ok(v) => v,
        Err(e) => {
            return Err(e);
        },
    };
    let description = match opt_str(t, "description", "capabilities.description", "") {
        Ok(v) => v,
        Err(e) => {
            return Err(e);
        },
    };
    Ok(CapabilityDeclaration { protocol, version, description })
}

/// The first error of a `capabilities` entry list, in declaration order.
pub open spec fn spec_cap_list_err(items: Seq<DocValue>, path: Seq<char>) -> Option<ErrorKind>
    decreases items.len(),
{
    if items.len() == 0 {
        None
    } else {
        match items[0] {
            DocValue::Table(tt) => match spec_cap_err(tt@) {
                Some(e) => Some(e),
                None => spec_cap_list_err(items.drop_first(), path),
            },
            _ => Some(ErrorKind::TomlParse(spec_wrong_type(path))),
        }
    }
}

/// What a parsed `capabilities` entry list holds, when its text has no error.
pub open spec fn cap_list_matches(v: Seq<CapabilityDeclaration>, items: Seq<DocValue>) -> bool {
    &&& v.len() == items.len()
    &&& forall|i: int|
        0 <= i < items.len() ==> ((#[trigger] items[i]) matches DocValue::Table(tt)
            && cap_matches(v[i], tt@))
}

/// Parse a `capabilities` entry list.
pub(crate) fn parse_cap_list(items: &Vec<DocValue>, path: &str) -> (r: Result<
    Vec<CapabilityDeclaration>,
    ManifestError,
>)
    ensures
        match r {
            Ok(v) => spec_cap_list_err(items@, path@) is None && cap_list_matches(v@, items@),
            Err(e) => spec_cap_list_err(items@, path@) == Some(e@),
        },
{
    let mut out: Vec<CapabilityDeclaration> = Vec::new();
    let mut i: usize = 0;
    proof {
        assert(items@.skip(0) =~= items@);
    }
    while i < items.len()
        invariant
            0 <= i <= items@.len(),
            out@.len() == i,
            spec_cap_list_err(items@, path@) == spec_cap_list_err(items@.skip(i as int), path@),
            forall|j: int|
                0 <= j < i ==> ((#[trigger] items@[j]) matches DocValue::Table(tt)
                    && cap_matches(out@[j], tt@)),
        decreases items@.len() - i,
    {
        proof {
            assert(items@.skip(i as int).drop_first() =~= items@.skip(i + 1));
            assert(items@.skip(i as int)[0] == items@[i as int]);
        }
        match &items[i] {
            DocValue::Table(tt) => {
                match parse_cap(tt) {
                    Ok(c) => {
                        out.push(c);
                    },
                    Err(e) => {
                        return Err(e);
                    },
                }
            },
            _ => {
                return Err(ManifestError::wrong_type(path));
            },
        }
        i = i + 1;
    }
    proof {
        assert(items@.skip(i as int).len() == 0);
    }
    Ok(out)
}

/// The first error of the `capabilities` field at a manifest root.
pub open spec fn spec_capabilities_err(root: Seq<(String, DocValue)>) -> Option<ErrorKind> {
    match spec_lookup(root, "capabilities"@) {
        None => None,
        Some(DocValue::Arr(items)) => spec_cap_list_err(items@, "capabilities"@),
        Some(_) => Some(ErrorKind::TomlParse(spec_wrong_type("capabilities"@))),
    }
}

/// What the parsed `capabilities` field holds, when its text has no error.
pub open spec fn capabilities_matches(
    v: Seq<CapabilityDeclaration>,
    root: Seq<(String, DocValue)>,
) -> bool {
    match spec_lookup(root, "capabilities"@) {
        None => v.len() == 0,
        Some(DocValue::Arr(items)) => cap_list_matches(v, items@),
        Some(_) => true,
    }
}

/// Parse the `capabilities` field of a manifest root.
pub(crate) fn parse_capabilities_field(root: &Vec<(String, DocValue)>) -> (r: Result<
    Vec<CapabilityDeclaration>,
    ManifestError,
>)
    ensures
        match r {
            Ok(v) => spec_capabilities_err(root@) is None && capabilities_matches(v@, root@),
            Err(e) => spec_capabilities_err(root@) == Some(e@),
        },
{
    match opt_arr(root, "capabilities", "capabilities") {
        Ok(Some(items)) => parse_cap_list(items, "capabilities"),
        Ok(None) => Ok(Vec::new()),
        Err(e) => Err(e),
    }
}

// ---------------------------------------------------------------------------
// CLI, tags, hive, translation, language, requirements sections
// ---------------------------------------------------------------------------

/// The first error of the `cli` section's fields, in field order.
pub open spec fn spec_cli_err(t: Seq<(String, DocValue)>) -> Option<ErrorKind> {
    if spec_req_str_err(t, "command"@, "cli.command"@) is Some {
        spec_req_str_err(t, "command"@, "cli.command"@)
    } else if !spec_opt_str_ok(t, "description"@) {
        Some(ErrorKind::TomlParse(spec_wrong_type("cli.description"@)))
    } else if !spec_opt_str_arr_ok(t, "aliases"@) {
        Some(ErrorKind::TomlParse(spec_wrong_type("cli.aliases"@)))
    } else if !spec_opt_bool_ok(t, "dynamic_completions"@) {
        Some(ErrorKind::TomlParse(spec_wrong_type("cli.dynamic_completions"@)))
    } else {
        None
    }
}

/// What the parsed `cli` section holds, when its text has no error.
pub open spec fn cli_matches(c: CliConfig, t: Seq<(String, DocValue)>) -> bool {
    &&& Some(c.command@) == spec_str_at(t, "command"@)
    &&& c.description@ == spec_opt_str_val(t, "description"@, ""@)
    &&& c.aliases.deep_view() == spec_opt_str_arr_val(t, "aliases"@)
    &&& c.dynamic_completions == spec_opt_bool_val(t, "dynamic_completions"@)
}

/// Parse the `cli` section.
pub(crate) fn parse_cli_section(t: &Vec<(String, DocValue)>) -> (r: Result<CliConfig, ManifestError>)
    ensures
        match r {
            Ok(c) => spec_cli_err(t@) is None && cli_matches(c, t@),
            Err(e) => spec_cli_err(t@) == Some(e@),
        },
{
    let command = match req_str(t, "command", "cli.command") {
        Ok(v) => v,
        Err(e) => {
            return Err(e);
        },
    };
    let description = match opt_str(t, "description", "cli.description", "") {
        Ok(v) => v,
        Err(e) => {
            return Err(e);
        },
    };
    let aliases = match opt_str_arr(t, "aliases", "cli.aliases") {
        Ok(v) => v,
        Err(e) => {
            return Err(e);
        },
    };
    let dynamic_completions = match opt_bool(t, "dynamic_completions", "cli.dynamic_completions") {
        Ok(v) => v,
        Err(e) => {
            return Err(e);
        },
    };
    Ok(CliConfig { command, description, aliases, dynamic_completions })
}

/// The first error of the `tags` section's fields, in field order.
pub open spec fn spec_tags_err(t: Seq<(String, DocValue)>) -> Option<ErrorKind> {
    if !spec_opt_str_arr_ok(t, "categories"@) {
        Some(ErrorKind::TomlParse(spec_wrong_type("tags.categories"@)))
    } else if !spec_opt_str_arr_ok(t, "platforms"@) {
        Some(ErrorKind::TomlParse(spec_wrong_type("tags.platforms"@)))
    } else {
        None
    }
}

/// What the parsed `tags` section holds, when its text has no error.
pub open spec fn tags_matches(g: TagsInfo, t: Seq<(String, DocValue)>) -> bool {
    &&& g.categories.deep_view() == spec_opt_str_arr_val(t, "categories"@)
    &&& g.platforms.deep_view() == spec_opt_str_arr_val(t, "platforms"@)
}

/// Parse the `tags` section.
pub(crate) fn parse_tags_section(t: &Vec<(String, DocValue)>) -> (r: Result<TagsInfo, ManifestError>)
    ensures
        match r {
            Ok(g) => spec_tags_err(t@) is None && tags_matches(g, t@),
            Err(e) => spec_tags_err(t@) == Some(e@),
        },
{
    let categories = match opt_str_arr(t, "categories", "tags.categories") {
        Ok(v) => v,
        Err(e) => {
            return Err(e);
        },
    };
    let platforms = match opt_str_arr(t, "platforms", "tags.platforms") {
        Ok(v) => v,
        Err(e) => {
            return Err(e);
        },
    };
    Ok(TagsInfo { categories, platforms })
}

/// The first error of the `hive` section's fields, in field order.
pub open spec fn spec_hive_err(t: Seq<(String, DocValue)>) -> Option<ErrorKind> {
    if spec_req_str_err(t, "category"@, "hive.category"@) is Some {
        spec_req_str_err(t, "category"@, "hive.category"@)
    } else if spec_req_str_err(t, "name"@, "hive.name"@) is Some {
        spec_req_str_err(t, "name"@, "hive.name"@)
    } else {
        None
    }
}

/// What the parsed `hive` section holds, when its text has no error.
pub open spec fn hive_matches(h: HiveInfo, t: Seq<(String, DocValue)>) -> bool {
    &&& Some(h.category@) == spec_str_at(t, "category"@)
    &&& Some(h.name@) == spec_str_at(t, "name"@)
}

/// Parse the `hive` section.
pub(crate) fn parse_hive_section(t: &Vec<(String, DocValue)>) -> (r: Result<HiveInfo, ManifestError>)
    ensures
        match r {
            Ok(h) => spec_hive_err(t@) is None && hive_matches(h, t@),
            Err(e) => spec_hive_err(t@) == Some(e@),
        },
{
    let category = match req_str(t, "category", "hive.category") {
        Ok(v) => v,
        Err(e) => {
            return Err(e);
        },
    };
    let name = match req_str(t, "name", "hive.name") {
        Ok(v) => v,
        Err(e) => {
            return Err(e);
        },
    };
    Ok(HiveInfo { category, name })
}

/// The first error of the `translation` section's fields, in field order.
pub open spec fn spec_translation_err(t: Seq<(String, DocValue)>) -> Option<ErrorKind> {
    if spec_req_str_err(t, "translates"@, "translation.translates"@) is Some {
        spec_req_str_err(t, "translates"@, "translation.translates"@)
    } else if spec_req_str_err(t, "language"@, "translation.language"@) is Some {
        spec_req_str_err(t, "language"@, "translation.language"@)
    } else if !spec_opt_str_ok(t, "language_name"@) {
        Some(ErrorKind::TomlParse(spec_wrong_type("translation.language_name"@)))
    } else if !spec_opt_str_ok(t, "namespace"@) {
        Some(ErrorKind::TomlParse(spec_wrong_type("translation.namespace"@)))
    } else {
        None
    }
}

/// What the parsed `translation` section holds, when its text has no error.
pub open spec fn translation_matches(x: TranslationInfo, t: Seq<(String, DocValue)>) -> bool {
    &&& Some(x.translates@) == spec_str_at(t, "translates"@)
    &&& Some(x.language@) == spec_str_at(t, "language"@)
    &&& x.language_name@ == spec_opt_str_val(t, "language_name"@, ""@)
    &&& x.namespace@ == spec_opt_str_val(t, "namespace"@, ""@)
}

/// Parse the `translation` section.
pub(crate) fn parse_translation_section(t: &Vec<(String, DocValue)>) -> (r: Result<
    TranslationInfo,
    ManifestError,
>)
    ensures
        match r {
            Ok(x) => spec_translation_err(t@) is None && translation_matches(x, t@),
            Err(e) => spec_translation_err(t@) == Some(e@),
        },
{
    let translates = match req_str(t, "translates", "translation.translates") {
        Ok(v) => v,
        Err(e) => {
            return Err(e);
        },
    };
    let language = match req_str(t, "language", "translation.language") {
        Ok(v) => v,
        Err(e) => {
            return Err(e);
        },
    };
    let language_name = match opt_str(t, "language_name", "translation.language_name", "") {
        Ok(v) => v,
        Err(e) => {
            return Err(e);
        },
    };
    let namespace = match opt_str(t, "namespace", "translation.namespace", "") {
        Ok(v) => v,
        Err(e) => {
            return Err(e);
        },
    };
    Ok(TranslationInfo { translates, language, language_name, namespace })
}

/// The first error of the `language` section's fields, in field order.
pub open spec fn spec_language_err(t: Seq<(String, DocValue)>) -> Option<ErrorKind> {
    if spec_req_str_err(t, "id"@, "language.id"@) is Some {
        spec_req_str_err(t, "id"@, "language.id"@)
    } else if !spec_opt_str_arr_ok(t, "extensions"@) {
        Some(ErrorKind::TomlParse(spec_wrong_type("language.extensions"@)))
    } else {
        None
    }
}

/// What the parsed `language` section holds, when its text has no error.
pub open spec fn language_matches(x: LanguageInfo, t: Seq<(String, DocValue)>) -> bool {
    &&& Some(x.id@) == spec_str_at(t, "id"@)
    &&& x.extensions.deep_view() == spec_opt_str_arr_val(t, "extensions"@)
}

/// Parse the `language` section.
pub(crate) fn parse_language_section(t: &Vec<(String, DocValue)>) -> (r: Result<
    LanguageInfo,
    ManifestError,
>)
    ensures
        match r {
            Ok(x) => spec_language_err(t@) is None && language_matches(x, t@),
            Err(e) => spec_language_err(t@) == Some(e@),
        },
{
    let id = match req_str(t, "id", "language.id") {
        Ok(v) => v,
        Err(e) => {
            return Err(e);
        },
    };
    let extensions = match opt_str_arr(t, "extensions", "language.extensions") {
        Ok(v) => v,
        Err(e) => {
            return Err(e);
        },
    };
    Ok(LanguageInfo { id, extensions })
}

/// The first error of the `requirements` section's fields, in field order.
pub open spec fn spec_requirements_err(t: Seq<(String, DocValue)>) -> Option<ErrorKind> {
    if !spec_opt_str_ok(t, "os"@) {
        Some(ErrorKind::TomlParse(spec_wrong_type("requirements.os"@)))
    } else if !spec_opt_str_ok(t, "arch"@) {
        Some(ErrorKind::TomlParse(spec_wrong_type("requirements.arch"@)))
    } else if !spec_opt_str_ok(t, "notes"@) {
        Some(ErrorKind::TomlParse(spec_wrong_type("requirements.notes"@)))
    } else {
        None
    }
}

/// What the parsed `requirements` section holds, when its text has no error.
pub open spec fn requirements_matches(x: RequirementsInfo, t: Seq<(String, DocValue)>) -> bool {
    &&& x.os.deep_view() == spec_str_at(t, "os"@)
    &&& x.arch.deep_view() == spec_str_at(t, "arch"@)
    &&& x.notes.deep_view() == spec_str_at(t, "notes"@)
}

/// Parse the `requirements` section.
pub(crate) fn parse_requirements_section(t: &Vec<(String, DocValue)>) -> (r: Result<
    RequirementsInfo,
    ManifestError,
>)
    ensures
        match r {
            Ok(x) => spec_requirements_err(t@) is None && requirements_matches(x, t@),
            Err(e) => spec_requirements_err(t@) == Some(e@),
        },
{
    let os = match opt_str_option(t, "os", "requirements.os") {
        Ok(v) => v,
        Err(e) => {
            return Err(e);
        },
    };
    let arch = match opt_str_option(t, "arch", "requirements.arch") {
        Ok(v) => v,
        Err(e) => {
            return Err(e);
        },
    };
    let notes = match opt_str_option(t, "notes", "requirements.notes") {
        Ok(v) => v,
        Err(e) => {
            return Err(e);
        },
    };
    Ok(RequirementsInfo { os, arch, notes })
}

} // verus!
