//! Deriving a plugin manifest from a build-config document.
//!
//! A project descriptor carries plugin identity under its package metadata;
//! this module reads such a document into a [`PluginManifest`]. Unlike the
//! manifest schema's own parser, this extraction is permissive: a field of an
//! unexpected type reads as absent, and list entries missing their mandatory
//! field are skipped. Only the plugin id, name and type, the package section
//! itself, and a resolvable version are demanded. Reading the descriptor and
//! walking ancestor directories for a workspace version are the caller's
//! I/O; the decisions stand here.

use vstd::prelude::*;

use crate::error::ErrorKind;
use crate::error::ManifestError;
use crate::plugin::BinaryInfo;
use crate::plugin::CapabilityDeclaration;
use crate::plugin::CliConfig;
use crate::plugin::CompatibilityInfo;
use crate::plugin::ConfigInfo;
use crate::plugin::HiveInfo;
use crate::plugin::LanguageInfo;
use crate::plugin::PluginManifest;
use crate::plugin::PluginMeta;
use crate::plugin::RequirementsInfo;
use crate::plugin::ServiceDeclaration;
use crate::plugin::ServiceRequirement;
use crate::plugin::TagsInfo;
use crate::plugin::TranslationInfo;
use crate::value::DocValue;
use crate::value::lookup;
use crate::value::spec_lookup;

verus! {

// ---------------------------------------------------------------------------
// Permissive field access
// ---------------------------------------------------------------------------

/// The entry a key names inside a value; anything but a table has no
/// entries.
pub open spec fn spec_getv(v: DocValue, key: Seq<char>) -> Option<DocValue> {
    match v {
        DocValue::Table(t) => spec_lookup(t@, key),
        _ => None,
    }
}

/// The entry a key names inside an optional value.
pub open spec fn spec_geto(o: Option<DocValue>, key: Seq<char>) -> Option<DocValue> {
    match o {
        Some(v) => spec_getv(v, key),
        None => None,
    }
}

/// The value an optional reference points at.
pub open spec fn opt_deref(o: Option<&DocValue>) -> Option<DocValue> {
    match o {
        Some(v) => Some(*v),
        None => None,
    }
}

/// The string characters of an optional value's entry, when it is a string.
pub open spec fn spec_p_str(o: Option<DocValue>, key: Seq<char>) -> Option<Seq<char>> {
    match spec_geto(o, key) {
        Some(DocValue::Str(s)) => Some(s@),
        _ => None,
    }
}

/// The string of an optional value's entry, with a default.
pub open spec fn spec_p_str_or(o: Option<DocValue>, key: Seq<char>, default: Seq<char>) -> Seq<
    char,
> {
    match spec_p_str(o, key) {
        Some(s) => s,
        None => default,
    }
}

/// The boolean of an optional value's entry, false when absent or not a
/// boolean.
pub open spec fn spec_p_bool(o: Option<DocValue>, key: Seq<char>) -> bool {
    match spec_geto(o, key) {
        Some(DocValue::Bool(b)) => b,
        _ => false,
    }
}

/// The unsigned integer of an optional value's entry, truncated to 32 bits
/// as the descriptor format reads integers, with a default when absent or
/// not an integer.
pub open spec fn spec_p_u32(o: Option<DocValue>, key: Seq<char>, default: u32) -> u32 {
    match spec_geto(o, key) {
        Some(DocValue::Int(i)) => ((i as int) % 0x1_0000_0000) as u32,
        _ => default,
    }
}

/// The strings among a value sequence, in order; other elements are skipped.
pub open spec fn spec_filter_strs(vs: Seq<DocValue>) -> Seq<Seq<char>>
    decreases vs.len(),
{
    if vs.len() == 0 {
        Seq::empty()
    } else {
        spec_filter_strs(vs.drop_last()) + (match vs.last() {
            DocValue::Str(s) => seq![s@],
            _ => Seq::<Seq<char>>::empty(),
        })
    }
}

/// The string list of an optional value's entry: the strings of its array,
/// empty when absent or not an array.
pub open spec fn spec_p_str_list(o: Option<DocValue>, key: Seq<char>) -> Seq<Seq<char>> {
    match spec_geto(o, key) {
        Some(DocValue::Arr(a)) => spec_filter_strs(a@),
        _ => Seq::empty(),
    }
}

/// Read the entry a key names inside a value.
pub(crate) fn getv<'a>(v: &'a DocValue, key: &str) -> (r: Option<&'a DocValue>)
    ensures
        opt_deref(r) == spec_getv(*v, key@),
{
    match v {
        DocValue::Table(t) => lookup(t, key),
        _ => None,
    }
}

/// Read the entry a key names inside an optional value.
fn geto<'a>(o: Option<&'a DocValue>, key: &str) -> (r: Option<&'a DocValue>)
    ensures
        opt_deref(r) == spec_geto(opt_deref(o), key@),
{
    match o {
        Some(v) => getv(v, key),
        None => None,
    }
}

/// Read a string field permissively.
fn p_str(o: Option<&DocValue>, key: &str) -> (r: Option<String>)
    ensures
        r.deep_view() == spec_p_str(opt_deref(o), key@),
{
    match geto(o, key) {
        Some(v) => match v {
            DocValue::Str(s) => Some(s.clone()),
            _ => None,
        },
        None => None,
    }
}

/// Read a string field permissively, with a default.
fn p_str_or(o: Option<&DocValue>, key: &str, default: &str) -> (r: String)
    ensures
        r@ == spec_p_str_or(opt_deref(o), key@, default@),
{
    match p_str(o, key) {
        Some(s) => s,
        None => default.to_owned(),
    }
}

/// Read a boolean field permissively.
fn p_bool(o: Option<&DocValue>, key: &str) -> (r: bool)
    ensures
        r == spec_p_bool(opt_deref(o), key@),
{
    match geto(o, key) {
        Some(v) => match v {
            DocValue::Bool(b) => *b,
            _ => false,
        },
        None => false,
    }
}

/// Read an unsigned integer field permissively, truncating to 32 bits.
fn p_u32(o: Option<&DocValue>, key: &str, default: u32) -> (r: u32)
    ensures
        r == spec_p_u32(opt_deref(o), key@, default),
{
    match geto(o, key) {
        Some(v) => match v {
            DocValue::Int(i) => {
                let rem: i64 = *i % 0x1_0000_0000;
                let rem: i64 = if rem < 0 {
                    rem + 0x1_0000_0000
                } else {
                    rem
                };
                rem as u32
            },
            _ => default,
        },
        None => default,
    }
}

/// Read a string-list field permissively: non-string elements are skipped.
fn p_str_list(o: Option<&DocValue>, key: &str) -> (r: Vec<String>)
    ensures
        r.deep_view() == spec_p_str_list(opt_deref(o), key@),
{
    match geto(o, key) {
        Some(v) => match v {
            DocValue::Arr(items) => {
                let mut out: Vec<String> = Vec::new();
                let mut i: usize = 0;
                proof {
                    assert(items@.take(0) =~= Seq::<DocValue>::empty());
                    assert(out.deep_view() =~= spec_filter_strs(items@.take(0)));
                }
                while i < items.len()
                    invariant
                        0 <= i <= items@.len(),
                        out.deep_view() == spec_filter_strs(items@.take(i as int)),
                    decreases items@.len() - i,
                {
                    proof {
                        assert(items@.take(i + 1).drop_last() =~= items@.take(i as int));
                        assert(items@.take(i + 1).last() == items@[i as int]);
                    }
                    match &items[i] {
                        DocValue::Str(s) => {
                            out.push(s.clone());
                            proof {
                                assert(out.deep_view() =~= spec_filter_strs(items@.take(i + 1)));
                            }
                        },
                        _ => {
                            proof {
                                assert(out.deep_view() =~= spec_filter_strs(items@.take(i + 1)));
                            }
                        },
                    }
                    i = i + 1;
                }
                proof {
                    assert(items@.take(i as int) =~= items@);
                }
                out
            },
            _ => Vec::new(),
        },
        None => Vec::new(),
    }
}

// ---------------------------------------------------------------------------
// Sections of the descriptor's plugin metadata
// ---------------------------------------------------------------------------

/// What the compatibility data extracted from the plugin metadata holds.
pub open spec fn gen_compat_matches(c: CompatibilityInfo, meta: DocValue) -> bool {
    let compat = spec_getv(meta, "compatibility"@);
    &&& c.api_version == spec_p_u32(compat, "api_version"@, 2)
    &&& c.min_host_version.deep_view() == spec_p_str(compat, "min_host_version"@)
    &&& c.max_host_version.deep_view() == spec_p_str(compat, "max_host_version"@)
    &&& c.platforms.deep_view() == spec_p_str_list(compat, "platforms"@)
    &&& c.depends_on.deep_view() == spec_p_str_list(compat, "depends_on"@)
}

/// Extract the compatibility data of the plugin metadata.
pub(crate) fn parse_compatibility(meta: &DocValue) -> (c: CompatibilityInfo)
    ensures
        gen_compat_matches(c, *meta),
{
    let compat = getv(meta, "compatibility");
    CompatibilityInfo {
        api_version: p_u32(compat, "api_version", 2),
        min_host_version: p_str(compat, "min_host_version"),
        max_host_version: p_str(compat, "max_host_version"),
        platforms: p_str_list(compat, "platforms"),
        depends_on: p_str_list(compat, "depends_on"),
    }
}

/// What the CLI registration extracted from the plugin metadata holds: a
/// registration exists exactly when a `cli` section declares a string
/// command.
pub open spec fn gen_cli_matches(c: Option<CliConfig>, meta: DocValue) -> bool {
    let cli = spec_getv(meta, "cli"@);
    match spec_p_str(cli, "command"@) {
        None => c is None,
        Some(command) => c matches Some(cc) && {
            &&& cc.command@ == command
            &&& cc.description@ == spec_p_str_or(cli, "description"@, ""@)
            &&& cc.aliases.deep_view() == spec_p_str_list(cli, "aliases"@)
            &&& cc.dynamic_completions == spec_p_bool(cli, "dynamic_completions"@)
        },
    }
}

/// Extract the CLI registration of the plugin metadata.
pub(crate) fn parse_cli(meta: &DocValue) -> (c: Option<CliConfig>)
    ensures
        gen_cli_matches(c, *meta),
{
    let cli = getv(meta, "cli");
    match p_str(cli, "command") {
        Some(command) => Some(
            CliConfig {
                command,
                description: p_str_or(cli, "description", ""),
                aliases: p_str_list(cli, "aliases"),
                dynamic_completions: p_bool(cli, "dynamic_completions"),
            },
        ),
        None => None,
    }
}

/// What one extracted service declaration holds, for its entry.
pub open spec fn gen_svc_matches(s: ServiceDeclaration, v: DocValue) -> bool {
    &&& Some(s.id@) == spec_p_str(Some(v), "id"@)
    &&& s.version@ == spec_p_str_or(Some(v), "version"@, "1.0.0"@)
    &&& s.description@ == spec_p_str_or(Some(v), "description"@, ""@)
}

/// What an extracted service declaration list holds: one declaration per
/// array entry carrying a string id, in order; entries without one are
/// skipped.
pub open spec fn gen_svc_list_matches(out: Seq<ServiceDeclaration>, vs: Seq<DocValue>) -> bool
    decreases vs.len(),
{
    if vs.len() == 0 {
        out.len() == 0
    } else if spec_p_str(Some(vs.last()), "id"@) is Some {
        out.len() > 0 && gen_svc_matches(out.last(), vs.last()) && gen_svc_list_matches(
            out.drop_last(),
            vs.drop_last(),
        )
    } else {
        gen_svc_list_matches(out, vs.drop_last())
    }
}

/// What the `provides` list extracted from the plugin metadata holds.
pub open spec fn gen_provides_matches(out: Seq<ServiceDeclaration>, meta: DocValue) -> bool {
    match spec_getv(meta, "provides"@) {
        Some(DocValue::Arr(a)) => gen_svc_list_matches(out, a@),
        _ => out.len() == 0,
    }
}

/// Extract the services the plugin offers.
pub(crate) fn parse_provides(meta: &DocValue) -> (out: Vec<ServiceDeclaration>)
    ensures
        gen_provides_matches(out@, *meta),
{
    match getv(meta, "provides") {
        Some(v) => match v {
            DocValue::Arr(items) => {
                let mut out: Vec<ServiceDeclaration> = Vec::new();
                let mut i: usize = 0;
                proof {
                    assert(items@.take(0) =~= Seq::<DocValue>::empty());
                }
                while i < items.len()
                    invariant
                        0 <= i <= items@.len(),
                        gen_svc_list_matches(out@, items@.take(i as int)),
                    decreases items@.len() - i,
                {
                    proof {
                        assert(items@.take(i + 1).drop_last() =~= items@.take(i as int));
                        assert(items@.take(i + 1).last() == items@[i as int]);
                    }
                    let entry = Some(&items[i]);
                    let ghost out_before = out@;
                    match p_str(entry, "id") {
                        Some(id) => {
                            out.push(
                                ServiceDeclaration {
                                    id,
                                    version: p_str_or(entry, "version", "1.0.0"),
                                    description: p_str_or(entry, "description", ""),
                                },
                            );
                            proof {
                                assert(out@.drop_last() =~= out_before);
                            }
                        },
                        None => {},
                    }
                    i = i + 1;
                }
                proof {
                    assert(items@.take(i as int) =~= items@);
                }
                out
            },
            _ => Vec::new(),
        },
        None => Vec::new(),
    }
}

/// What one extracted service requirement holds, for its entry: the minimum
/// version may be named by either the `min_version` or the `version` key.
pub open spec fn gen_req_matches(s: ServiceRequirement, v: DocValue) -> bool {
    &&& Some(s.id@) == spec_p_str(Some(v), "id"@)
    &&& s.min_version.deep_view() == (match spec_geto(Some(v), "min_version"@) {
        Some(mv) => match mv {
            DocValue::Str(ss) => Some(ss@),
            _ => None,
        },
        None => spec_p_str(Some(v), "version"@),
    })
    &&& s.optional == spec_p_bool(Some(v), "optional"@)
}

/// What an extracted service requirement list holds.
pub open spec fn gen_req_list_matches(out: Seq<ServiceRequirement>, vs: Seq<DocValue>) -> bool
    decreases vs.len(),
{
    if vs.len() == 0 {
        out.len() == 0
    } else if spec_p_str(Some(vs.last()), "id"@) is Some {
        out.len() > 0 && gen_req_matches(out.last(), vs.last()) && gen_req_list_matches(
            out.drop_last(),
            vs.drop_last(),
        )
    } else {
        gen_req_list_matches(out, vs.drop_last())
    }
}

/// What the `requires` list extracted from the plugin metadata holds.
pub open spec fn gen_requires_matches(out: Seq<ServiceRequirement>, meta: DocValue) -> bool {
    match spec_getv(meta, "requires"@) {
        Some(DocValue::Arr(a)) => gen_req_list_matches(out, a@),
        _ => out.len() == 0,
    }
}

/// Extract the services the plugin requires.
pub(crate) fn parse_requires(meta: &DocValue) -> (out: Vec<ServiceRequirement>)
    ensures
        gen_requires_matches(out@, *meta),
{
    match getv(meta, "requires") {
        Some(v) => match v {
            DocValue::Arr(items) => {
                let mut out: Vec<ServiceRequirement> = Vec::new();
                let mut i: usize = 0;
                proof {
                    assert(items@.take(0) =~= Seq::<DocValue>::empty());
                }
                while i < items.len()
                    invariant
                        0 <= i <= items@.len(),
                        gen_req_list_matches(out@, items@.take(i as int)),
                    decreases items@.len() - i,
                {
                    proof {
                        assert(items@.take(i + 1).drop_last() =~= items@.take(i as int));
                        assert(items@.take(i + 1).last() == items@[i as int]);
                    }
                    let entry = Some(&items[i]);
                    let ghost out_before = out@;
                    match p_str(entry, "id") {
                        Some(id) => {
                            let min_version = match geto(entry, "min_version") {
                                Some(mv) => match mv {
                                    DocValue::Str(ss) => Some(ss.clone()),
                                    _ => None,
                                },
                                None => p_str(entry, "version"),
                            };
                            out.push(
                                ServiceRequirement {
                                    id,
                                    min_version,
                                    optional: p_bool(entry, "optional"),
                                },
                            );
                            proof {
                                assert(out@.drop_last() =~= out_before);
                            }
                        },
                        None => {},
                    }
                    i = i + 1;
                }
                proof {
                    assert(items@.take(i as int) =~= items@);
                }
                out
            },
            _ => Vec::new(),
        },
        None => Vec::new(),
    }
}

/// What one extracted capability declaration holds, for its entry.
pub open spec fn gen_cap_matches(s: CapabilityDeclaration, v: DocValue) -> bool {
    &&& Some(s.protocol@) == spec_p_str(Some(v), "protocol"@)
    &&& s.version@ == spec_p_str_or(Some(v), "version"@, "1.0.0"@)
    &&& s.description@ == spec_p_str_or(Some(v), "description"@, ""@)
}

/// What an extracted capability list holds.
pub open spec fn gen_cap_list_matches(out: Seq<CapabilityDeclaration>, vs: Seq<DocValue>) -> bool
    decreases vs.len(),
{
    if vs.len() == 0 {
        out.len() == 0
    } else if spec_p_str(Some(vs.last()), "protocol"@) is Some {
        out.len() > 0 && gen_cap_matches(out.last(), vs.last()) && gen_cap_list_matches(
            out.drop_last(),
            vs.drop_last(),
        )
    } else {
        gen_cap_list_matches(out, vs.drop_last())
    }
}

/// What the `capabilities` list extracted from the plugin metadata holds.
pub open spec fn gen_capabilities_matches(out: Seq<CapabilityDeclaration>, meta: DocValue) -> bool {
    match spec_getv(meta, "capabilities"@) {
        Some(DocValue::Arr(a)) => gen_cap_list_matches(out, a@),
        _ => out.len() == 0,
    }
}

/// Extract the capabilities the plugin advertises.
pub(crate) fn parse_capabilities(meta: &DocValue) -> (out: Vec<CapabilityDeclaration>)
    ensures
        gen_capabilities_matches(out@, *meta),
{
    match getv(meta, "capabilities") {
        Some(v) => match v {
            DocValue::Arr(items) => {
                let mut out: Vec<CapabilityDeclaration> = Vec::new();
                let mut i: usize = 0;
                proof {
                    assert(items@.take(0) =~= Seq::<DocValue>::empty());
                }
                while i < items.len()
                    invariant
                        0 <= i <= items@.len(),
                        gen_cap_list_matches(out@, items@.take(i as int)),
                    decreases items@.len() - i,
                {
                    proof {
                        assert(items@.take(i + 1).drop_last() =~= items@.take(i as int));
                        assert(items@.take(i + 1).last() == items@[i as int]);
                    }
                    let entry = Some(&items[i]);
                    let ghost out_before = out@;
                    match p_str(entry, "protocol") {
                        Some(protocol) => {
                            out.push(
                                CapabilityDeclaration {
                                    protocol,
                                    version: p_str_or(entry, "version", "1.0.0"),
                                    description: p_str_or(entry, "description", ""),
                                },
                            );
                            proof {
                                assert(out@.drop_last() =~= out_before);
                            }
                        },
                        None => {},
                    }
                    i = i + 1;
                }
                proof {
                    assert(items@.take(i as int) =~= items@);
                }
                out
            },
            _ => Vec::new(),
        },
        None => Vec::new(),
    }
}

/// What the binary data extracted from the plugin metadata holds: the base
/// name with its default, and no checksums, which the descriptor does not
/// carry.
pub open spec fn gen_binary_matches(b: BinaryInfo, meta: DocValue) -> bool {
    &&& b.name@ == spec_p_str_or(spec_getv(meta, "binary"@), "name"@, "plugin"@)
    &&& b.checksums@.len() == 0
}

/// Extract the binary data of the plugin metadata.
pub(crate) fn parse_binary(meta: &DocValue) -> (b: BinaryInfo)
    ensures
        gen_binary_matches(b, *meta),
{
    let binary = getv(meta, "binary");
    BinaryInfo { name: p_str_or(binary, "name", "plugin"), checksums: Vec::new() }
}

/// What the tags extracted from the plugin metadata hold: present exactly
/// when a `tags` section is.
pub open spec fn gen_tags_matches(g: Option<TagsInfo>, meta: DocValue) -> bool {
    match spec_getv(meta, "tags"@) {
        None => g is None,
        Some(tv) => g matches Some(gg) && {
            &&& gg.categories.deep_view() == spec_p_str_list(Some(tv), "categories"@)
            &&& gg.platforms.deep_view() == spec_p_str_list(Some(tv), "platforms"@)
        },
    }
}

/// Extract the tags of the plugin metadata.
pub(crate) fn parse_tags(meta: &DocValue) -> (g: Option<TagsInfo>)
    ensures
        gen_tags_matches(g, *meta),
{
    match getv(meta, "tags") {
        Some(tv) => Some(
            TagsInfo {
                categories: p_str_list(Some(tv), "categories"),
                platforms: p_str_list(Some(tv), "platforms"),
            },
        ),
        None => None,
    }
}

/// What the hive identity extracted from the plugin metadata holds: present
/// exactly when a `hive` section declares string category and name.
pub open spec fn gen_hive_matches(h: Option<HiveInfo>, meta: DocValue) -> bool {
    let hive = spec_getv(meta, "hive"@);
    match (spec_p_str(hive, "category"@), spec_p_str(hive, "name"@)) {
        (Some(category), Some(name)) => h matches Some(hh) && hh.category@ == category && hh.name@
            == name,
        _ => h is None,
    }
}

/// Extract the hive identity of the plugin metadata.
pub(crate) fn parse_hive(meta: &DocValue) -> (h: Option<HiveInfo>)
    ensures
        gen_hive_matches(h, *meta),
{
    let hive = getv(meta, "hive");
    match p_str(hive, "category") {
        Some(category) => match p_str(hive, "name") {
            Some(name) => Some(HiveInfo { category, name }),
            None => None,
        },
        None => None,
    }
}

/// What the translation identity extracted from the plugin metadata holds:
/// present exactly when a `translation` section declares string target and
/// language.
pub open spec fn gen_translation_matches(x: Option<TranslationInfo>, meta: DocValue) -> bool {
    let tr = spec_getv(meta, "translation"@);
    match (spec_p_str(tr, "translates"@), spec_p_str(tr, "language"@)) {
        (Some(translates), Some(language)) => x matches Some(xx) && {
            &&& xx.translates@ == translates
            &&& xx.language@ == language
            &&& xx.language_name@ == spec_p_str_or(tr, "language_name"@, ""@)
            &&& xx.namespace@ == spec_p_str_or(tr, "namespace"@, ""@)
        },
        _ => x is None,
    }
}

/// Extract the translation identity of the plugin metadata.
pub(crate) fn parse_translation(meta: &DocValue) -> (x: Option<TranslationInfo>)
    ensures
        gen_translation_matches(x, *meta),
{
    let tr = getv(meta, "translation");
    match p_str(tr, "translates") {
        Some(translates) => match p_str(tr, "language") {
            Some(language) => Some(
                TranslationInfo {
                    translates,
                    language,
                    language_name: p_str_or(tr, "language_name", ""),
                    namespace: p_str_or(tr, "namespace", ""),
                },
            ),
            None => None,
        },
        None => None,
    }
}

/// What the language identity extracted from the plugin metadata holds:
/// present exactly when a `language` section declares a string id.
pub open spec fn gen_language_matches(x: Option<LanguageInfo>, meta: DocValue) -> bool {
    let lang = spec_getv(meta, "language"@);
    match spec_p_str(lang, "id"@) {
        Some(id) => x matches Some(xx) && xx.id@ == id && xx.extensions.deep_view()
            == spec_p_str_list(lang, "extensions"@),
        None => x is None,
    }
}

/// Extract the language identity of the plugin metadata.
pub(crate) fn parse_language(meta: &DocValue) -> (x: Option<LanguageInfo>)
    ensures
        gen_language_matches(x, *meta),
{
    let lang = getv(meta, "language");
    match p_str(lang, "id") {
        Some(id) => Some(LanguageInfo { id, extensions: p_str_list(lang, "extensions") }),
        None => None,
    }
}

/// What the requirements extracted from the plugin metadata hold: present
/// exactly when a `requirements` section is.
pub open spec fn gen_requirements_matches(x: Option<RequirementsInfo>, meta: DocValue) -> bool {
    match spec_getv(meta, "requirements"@) {
        None => x is None,
        Some(rv) => x matches Some(xx) && {
            &&& xx.os.deep_view() == spec_p_str(Some(rv), "os"@)
            &&& xx.arch.deep_view() == spec_p_str(Some(rv), "arch"@)
            &&& xx.notes.deep_view() == spec_p_str(Some(rv), "notes"@)
        },
    }
}

/// Extract the requirements of the plugin metadata.
pub(crate) fn parse_requirements(meta: &DocValue) -> (x: Option<RequirementsInfo>)
    ensures
        gen_requirements_matches(x, *meta),
{
    match getv(meta, "requirements") {
        Some(rv) => Some(
            RequirementsInfo {
                os: p_str(Some(rv), "os"),
                arch: p_str(Some(rv), "arch"),
                notes: p_str(Some(rv), "notes"),
            },
        ),
        None => None,
    }
}

// ---------------------------------------------------------------------------
// Version and author resolution
// ---------------------------------------------------------------------------

/// Where a descriptor's version comes from: a literal string, or the
/// enclosing workspace's shared version.
#[derive(Debug)]
pub enum VersionDirective {
    /// The version is this literal string.
    Literal(String),
    /// The version delegates to the workspace's shared version.
    Workspace,
}

/// What version resolution decides for a `package` section: a string version
/// is literal; a table setting `workspace = true` delegates; anything else
/// is a missing version.
pub open spec fn spec_version_directive(pkg: DocValue) -> Result<Option<Seq<char>>, ErrorKind> {
    match spec_getv(pkg, "version"@) {
        Some(DocValue::Str(s)) => Ok(Some(s@)),
        Some(DocValue::Table(t)) => {
            if spec_lookup(t@, "workspace"@) matches Some(DocValue::Bool(true)) {
                Ok(None)
            } else {
                Err(ErrorKind::MissingField("package.version"@))
            }
        },
        _ => Err(ErrorKind::MissingField("package.version"@)),
    }
}

/// Decide how the version of a descriptor's `package` section resolves.
pub fn resolve_version(pkg: &DocValue) -> (r: Result<VersionDirective, ManifestError>)
    ensures
        match spec_version_directive(*pkg) {
            Ok(Some(s)) => r matches Ok(VersionDirective::Literal(v)) && v@ == s,
            Ok(None) => r matches Ok(VersionDirective::Workspace),
            Err(k) => r matches Err(e) && e@ == k,
        },
{
    match getv(pkg, "version") {
        Some(v) => match v {
            DocValue::Str(s) => Ok(VersionDirective::Literal(s.clone())),
            DocValue::Table(t) => match lookup(t, "workspace") {
                Some(w) => match w {
                    DocValue::Bool(true) => Ok(VersionDirective::Workspace),
                    _ => Err(ManifestError::missing("package.version")),
                },
                None => Err(ManifestError::missing("package.version")),
            },
            _ => Err(ManifestError::missing("package.version")),
        },
        None => Err(ManifestError::missing("package.version")),
    }
}

/// The author a `package` section declares: the first entry of its `authors`
/// array when that is a string, empty otherwise.
pub open spec fn spec_author_of(pkg: DocValue) -> Seq<char> {
    match spec_getv(pkg, "authors"@) {
        Some(DocValue::Arr(a)) => if a@.len() > 0 && a@[0] is Str {
            a@[0]->Str_0@
        } else {
            ""@
        },
        _ => ""@,
    }
}

/// Extract the author of a descriptor's `package` section.
pub(crate) fn resolve_author(pkg: &DocValue) -> (r: String)
    ensures
        r@ == spec_author_of(*pkg),
{
    match getv(pkg, "authors") {
        Some(v) => match v {
            DocValue::Arr(a) => {
                if a.len() > 0 {
                    match &a[0] {
                        DocValue::Str(s) => s.clone(),
                        _ => "".to_owned(),
                    }
                } else {
                    "".to_owned()
                }
            },
            _ => "".to_owned(),
        },
        None => "".to_owned(),
    }
}

/// The workspace version a root descriptor declares, under
/// `workspace.package.version`.
pub open spec fn spec_workspace_version(doc: DocValue) -> Option<Seq<char>> {
    spec_p_str(spec_geto(spec_getv(doc, "workspace"@), "package"@), "version"@)
}

/// Read the shared workspace version out of a root descriptor, if it
/// declares one.
pub fn workspace_version_of(doc: &DocValue) -> (r: Option<String>)
    ensures
        r.deep_view() == spec_workspace_version(*doc),
{
    p_str(geto(getv(doc, "workspace"), "package"), "version")
}

// ---------------------------------------------------------------------------
// The descriptor's manifest
// ---------------------------------------------------------------------------

/// What a manifest derived from a descriptor holds, given the `package`
/// section, its plugin metadata, and the resolved version.
pub open spec fn gen_manifest_matches(
    m: PluginManifest,
    pkg: DocValue,
    mp: DocValue,
    version: Seq<char>,
) -> bool {
    &&& Some(m.plugin.id@) == spec_p_str(Some(mp), "id"@)
    &&& Some(m.plugin.name@) == spec_p_str(Some(mp), "name"@)
    &&& Some(m.plugin.plugin_type@) == spec_p_str(Some(mp), "type"@)
    &&& m.plugin.version@ == version
    &&& m.plugin.author@ == spec_author_of(pkg)
    &&& m.plugin.description@ == spec_p_str_or(Some(pkg), "description"@, ""@)
    &&& m.plugin.license is None
    &&& m.plugin.homepage is None
    &&& gen_compat_matches(m.compatibility, mp)
    &&& gen_binary_matches(m.binary, mp)
    &&& m.signature is None
    &&& m.config.defaults@.len() == 0
    &&& gen_provides_matches(m.provides@, mp)
    &&& gen_requires_matches(m.requires@, mp)
    &&& gen_cli_matches(m.cli, mp)
    &&& gen_capabilities_matches(m.capabilities@, mp)
    &&& gen_tags_matches(m.tags, mp)
    &&& gen_hive_matches(m.hive, mp)
    &&& gen_translation_matches(m.translation, mp)
    &&& gen_language_matches(m.language, mp)
    &&& gen_requirements_matches(m.requirements, mp)
}

/// The error a descriptor's identity fields produce, checked in order: the
/// `package` section, its plugin metadata, and the mandatory id, name and
/// type.
pub open spec fn spec_gen_err(doc: DocValue) -> Option<ErrorKind> {
    match spec_getv(doc, "package"@) {
        None => Some(ErrorKind::MissingField("package"@)),
        Some(pkg) => {
            let mp = spec_geto(spec_getv(pkg, "metadata"@), "plugin"@);
            if mp is None {
                Some(ErrorKind::MissingField("package.metadata.plugin"@))
            } else if spec_p_str(mp, "id"@) is None {
                Some(ErrorKind::MissingField("package.metadata.plugin.id"@))
            } else if spec_p_str(mp, "name"@) is None {
                Some(ErrorKind::MissingField("package.metadata.plugin.name"@))
            } else if spec_p_str(mp, "type"@) is None {
                Some(ErrorKind::MissingField("package.metadata.plugin.type"@))
            } else {
                None
            }
        },
    }
}

/// Derive a plugin manifest from a descriptor document, with the version
/// already resolved. Fails exactly when the `package` section, its plugin
/// metadata, or the metadata's string id, name or type is missing.
pub fn manifest_from_cargo_doc(doc: &DocValue, version: &str) -> (r: Result<
    PluginManifest,
    ManifestError,
>)
    ensures
        match r {
            Ok(m) => {
                &&& spec_gen_err(*doc) is None
                &&& spec_getv(*doc, "package"@) matches Some(pkg) && gen_manifest_matches(
                    m,
                    pkg,
                    spec_geto(spec_getv(pkg, "metadata"@), "plugin"@)->0,
                    version@,
                )
            },
            Err(e) => spec_gen_err(*doc) == Some(e@),
        },
{
    let pkg = match getv(doc, "package") {
        Some(p) => p,
        None => {
            return Err(ManifestError::missing("package"));
        },
    };
    let mp = match geto(getv(pkg, "metadata"), "plugin") {
        Some(mp) => mp,
        None => {
            return Err(ManifestError::missing("package.metadata.plugin"));
        },
    };
    let id = match p_str(Some(mp), "id") {
        Some(s) => s,
        None => {
            return Err(ManifestError::missing("package.metadata.plugin.id"));
        },
    };
    let name = match p_str(Some(mp), "name") {
        Some(s) => s,
        None => {
            return Err(ManifestError::missing("package.metadata.plugin.name"));
        },
    };
    let plugin_type = match p_str(Some(mp), "type") {
        Some(s) => s,
        None => {
            return Err(ManifestError::missing("package.metadata.plugin.type"));
        },
    };
    Ok(
        PluginManifest {
            plugin: PluginMeta {
                id,
                name,
                version: version.to_owned(),
                plugin_type,
                author: resolve_author(pkg),
                description: p_str_or(Some(pkg), "description", ""),
                license: None,
                homepage: None,
            },
            compatibility: parse_compatibility(mp),
            binary: parse_binary(mp),
            signature: None,
            config: ConfigInfo { defaults: Vec::new() },
            provides: parse_provides(mp),
            requires: parse_requires(mp),
            cli: parse_cli(mp),
            capabilities: parse_capabilities(mp),
            tags: parse_tags(mp),
            hive: parse_hive(mp),
            translation: parse_translation(mp),
            language: parse_language(mp),
            requirements: parse_requirements(mp),
        },
    )
}

} // verus!
