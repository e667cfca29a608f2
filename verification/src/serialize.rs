//! Serialization: building a document tree back out of a plugin manifest.
//!
//! The built document parses without error, to a manifest holding the same
//! fields: serialization is the structural inverse of parsing. The TOML text
//! itself is rendered from the tree at the trusted boundary.

use vstd::prelude::*;

use crate::error::ErrorKind;
use crate::error::ManifestError;
use crate::plugin::BinaryInfo;
use crate::plugin::CapabilityDeclaration;
use crate::plugin::CliConfig;
use crate::plugin::CompatibilityInfo;
use crate::plugin::ConfigInfo;
use crate::plugin::HiveInfo;
use crate::plugin::LanguageInfo;
use crate::plugin::PluginManifest;
use crate::plugin::PluginMeta;
use crate::plugin::RequirementsInfo;
use crate::plugin::ServiceDeclaration;
use crate::plugin::ServiceRequirement;
use crate::plugin::SignatureInfo;
use crate::plugin::TagsInfo;
use crate::plugin::TranslationInfo;
use crate::plugin::plugin_manifest_matches;
use crate::plugin::spec_plugin_doc_err;
use crate::schema::binary_matches;
use crate::schema::cap_list_matches;
use crate::schema::cap_matches;
use crate::schema::cli_matches;
use crate::schema::compat_matches;
use crate::schema::config_matches;
use crate::schema::hive_matches;
use crate::schema::language_matches;
use crate::schema::plugin_meta_matches;
use crate::schema::req_entry_matches;
use crate::schema::req_list_matches;
use crate::schema::requirements_matches;
use crate::schema::requires_matches;
use crate::schema::signature_matches;
use crate::schema::spec_binary_err;
use crate::schema::spec_cap_err;
use crate::schema::spec_cap_list_err;
use crate::schema::spec_cli_err;
use crate::schema::spec_compat_err;
use crate::schema::spec_config_err;
use crate::schema::spec_hive_err;
use crate::schema::spec_language_err;
use crate::schema::spec_plugin_meta_err;
use crate::schema::spec_req_entry_err;
use crate::schema::spec_req_list_err;
use crate::schema::spec_requirements_err;
use crate::schema::spec_signature_err;
use crate::schema::spec_svc_err;
use crate::schema::spec_svc_list_err;
use crate::schema::spec_table_at;
use crate::schema::spec_tags_err;
use crate::schema::spec_translation_err;
use crate::schema::svc_list_matches;
use crate::schema::svc_matches;
use crate::schema::tags_matches;
use crate::schema::translation_matches;
use crate::value::DocValue;
use crate::value::clone_pairs;
use crate::value::lemma_lookup_at;
use crate::value::lemma_lookup_none;
use crate::value::lemma_pairs_like_sym;
use crate::value::render_toml_text;
use crate::value::spec_all_str;
use crate::value::spec_all_str_pairs;
use crate::value::spec_lookup;
use crate::value::spec_str_pairs;
use crate::value::spec_str_seq;
use crate::value::toml_text_of;

verus! {

broadcast use vstd::string::group_string_axioms;

/// Build an array value out of a list of strings.
fn build_str_arr(v: &Vec<String>) -> (r: DocValue)
    ensures
        r matches DocValue::Arr(items) && spec_all_str(items@) && spec_str_seq(items@)
            == v.deep_view(),
{
    let mut items: Vec<DocValue> = Vec::new();
    let mut i: usize = 0;
    while i < v.len()
        invariant
            0 <= i <= v@.len(),
            items@.len() == i,
            forall|j: int|
                0 <= j < i ==> ((#[trigger] items@[j]) matches DocValue::Str(s) && s@ == v@[j]@),
        decreases v@.len() - i,
    {
        items.push(DocValue::Str(v[i].clone()));
        i = i + 1;
    }
    proof {
        assert(spec_str_seq(items@) =~= v.deep_view());
    }
    DocValue::Arr(items)
}

/// Build a table value out of a list of string pairs.
fn build_str_table(v: &Vec<(String, String)>) -> (r: DocValue)
    ensures
        r matches DocValue::Table(tt) && spec_all_str_pairs(tt@) && spec_str_pairs(tt@)
            == v.deep_view(),
{
    let mut tt: Vec<(String, DocValue)> = Vec::new();
    let mut i: usize = 0;
    while i < v.len()
        invariant
            0 <= i <= v@.len(),
            tt@.len() == i,
            forall|j: int|
                0 <= j < i ==> ((#[trigger] tt@[j]).0@ == v@[j].0@ && (tt@[j].1 matches
                DocValue::Str(s) && s@ == v@[j].1@)),
        decreases v@.len() - i,
    {
        tt.push((v[i].0.clone(), DocValue::Str(v[i].1.clone())));
        i = i + 1;
    }
    proof {
        assert(spec_str_pairs(tt@) =~= v.deep_view());
    }
    DocValue::Table(tt)
}

/// Build the `plugin` section of a manifest.
fn build_meta(m: &PluginMeta) -> (r: Vec<(String, DocValue)>)
    ensures
        spec_plugin_meta_err(r@) is None,
        plugin_meta_matches(*m, r@),
{
    let mut t: Vec<(String, DocValue)> = Vec::new();
    t.push(("id".to_owned(), DocValue::Str(m.id.clone())));
    t.push(("name".to_owned(), DocValue::Str(m.name.clone())));
    t.push(("version".to_owned(), DocValue::Str(m.version.clone())));
    t.push(("type".to_owned(), DocValue::Str(m.plugin_type.clone())));
    t.push(("author".to_owned(), DocValue::Str(m.author.clone())));
    t.push(("description".to_owned(), DocValue::Str(m.description.clone())));
    match &m.license {
        Some(s) => {
            t.push(("license".to_owned(), DocValue::Str(s.clone())));
        },
        None => {},
    }
    match &m.homepage {
        Some(s) => {
            t.push(("homepage".to_owned(), DocValue::Str(s.clone())));
        },
        None => {},
    }
    proof {
        reveal_strlit("id");
        reveal_strlit("name");
        reveal_strlit("version");
        reveal_strlit("type");
        reveal_strlit("author");
        reveal_strlit("description");
        reveal_strlit("license");
        reveal_strlit("homepage");
        assert("id"@.len() == 2);
        assert("name"@.len() == 4);
        assert("version"@.len() == 7);
        assert("type"@.len() == 4);
        assert("author"@.len() == 6);
        assert("description"@.len() == 11);
        assert("license"@.len() == 7);
        assert("homepage"@.len() == 8);
        assert("name"@[0] == 'n' && "type"@[0] == 't');
        assert("version"@[0] == 'v' && "license"@[0] == 'l');
        lemma_lookup_at(t@, "id"@, 0);
        lemma_lookup_at(t@, "name"@, 1);
        lemma_lookup_at(t@, "version"@, 2);
        lemma_lookup_at(t@, "type"@, 3);
        lemma_lookup_at(t@, "author"@, 4);
        lemma_lookup_at(t@, "description"@, 5);
        if m.license is Some {
            lemma_lookup_at(t@, "license"@, 6);
        } else {
            lemma_lookup_none(t@, "license"@);
        }
        if m.homepage is Some {
            if m.license is Some {
                lemma_lookup_at(t@, "homepage"@, 7);
            } else {
                lemma_lookup_at(t@, "homepage"@, 6);
            }
        } else {
            lemma_lookup_none(t@, "homepage"@);
        }
        assert(plugin_meta_matches(*m, t@));
        assert(spec_plugin_meta_err(t@) is None);
    }
    t
}

/// Build the `compatibility` section of a manifest.
fn build_compat(c: &CompatibilityInfo) -> (r: Vec<(String, DocValue)>)
    ensures
        spec_compat_err(r@) is None,
        compat_matches(*c, r@),
{
    let mut t: Vec<(String, DocValue)> = Vec::new();
    t.push(("api_version".to_owned(), DocValue::Int(c.api_version as i64)));
    t.push(("platforms".to_owned(), build_str_arr(&c.platforms)));
    t.push(("depends_on".to_owned(), build_str_arr(&c.depends_on)));
    match &c.min_host_version {
        Some(s) => {
            t.push(("min_host_version".to_owned(), DocValue::Str(s.clone())));
        },
        None => {},
    }
    let ghost p_max = t@.len() as int;
    match &c.max_host_version {
        Some(s) => {
            t.push(("max_host_version".to_owned(), DocValue::Str(s.clone())));
        },
        None => {},
    }
    proof {
        reveal_strlit("api_version");
        reveal_strlit("min_host_version");
        reveal_strlit("max_host_version");
        reveal_strlit("platforms");
        reveal_strlit("depends_on");
        assert("api_version"@.len() == 11);
        assert("platforms"@.len() == 9);
        assert("depends_on"@.len() == 10);
        assert("min_host_version"@.len() == 16);
        assert("max_host_version"@.len() == 16);
        assert("min_host_version"@[1] == 'i' && "max_host_version"@[1] == 'a');
        lemma_lookup_at(t@, "api_version"@, 0);
        lemma_lookup_at(t@, "platforms"@, 1);
        lemma_lookup_at(t@, "depends_on"@, 2);
        if c.min_host_version is Some {
            lemma_lookup_at(t@, "min_host_version"@, 3);
        } else {
            lemma_lookup_none(t@, "min_host_version"@);
        }
        if c.max_host_version is Some {
            lemma_lookup_at(t@, "max_host_version"@, p_max);
        } else {
            lemma_lookup_none(t@, "max_host_version"@);
        }
        assert(compat_matches(*c, t@));
        assert(spec_compat_err(t@) is None);
    }
    t
}

/// Build the `binary` section of a manifest.
fn build_binary(b: &BinaryInfo) -> (r: Vec<(String, DocValue)>)
    ensures
        spec_binary_err(r@) is None,
        binary_matches(*b, r@),
{
    let mut t: Vec<(String, DocValue)> = Vec::new();
    t.push(("name".to_owned(), DocValue::Str(b.name.clone())));
    t.push(("checksums".to_owned(), build_str_table(&b.checksums)));
    proof {
        reveal_strlit("name");
        reveal_strlit("checksums");
        assert("name"@.len() == 4);
        assert("checksums"@.len() == 9);
        lemma_lookup_at(t@, "name"@, 0);
        lemma_lookup_at(t@, "checksums"@, 1);
        assert(binary_matches(*b, t@));
        assert(spec_binary_err(t@) is None);
    }
    t
}

/// Build the `signature` section of a manifest.
fn build_signature(s: &SignatureInfo) -> (r: Vec<(String, DocValue)>)
    ensures
        spec_signature_err(r@) is None,
        signature_matches(*s, r@),
{
    let mut t: Vec<(String, DocValue)> = Vec::new();
    t.push(("public_key".to_owned(), DocValue::Str(s.public_key.clone())));
    t.push(("signature_file".to_owned(), DocValue::Str(s.signature_file.clone())));
    proof {
        reveal_strlit("public_key");
        reveal_strlit("signature_file");
        assert("public_key"@.len() == 10);
        assert("signature_file"@.len() == 14);
        lemma_lookup_at(t@, "public_key"@, 0);
        lemma_lookup_at(t@, "signature_file"@, 1);
        assert(signature_matches(*s, t@));
        assert(spec_signature_err(t@) is None);
    }
    t
}

/// Build the `config` section of a manifest.
fn build_config(c: &ConfigInfo) -> (r: Vec<(String, DocValue)>)
    ensures
        spec_config_err(r@) is None,
        config_matches(*c, r@),
{
    let mut t: Vec<(String, DocValue)> = Vec::new();
    let copied = clone_pairs(&c.defaults);
    t.push(("defaults".to_owned(), DocValue::Table(copied)));
    proof {
        reveal_strlit("defaults");
        lemma_lookup_at(t@, "defaults"@, 0);
        lemma_pairs_like_sym(c.defaults@, spec_table_at(t@, "defaults"@));
    }
    t
}

/// Build one `provides` entry.
fn build_svc(s: &ServiceDeclaration) -> (r: DocValue)
    ensures
        r matches DocValue::Table(tt) && spec_svc_err(tt@) is None && svc_matches(*s, tt@),
{
    let mut t: Vec<(String, DocValue)> = Vec::new();
    t.push(("id".to_owned(), DocValue::Str(s.id.clone())));
    t.push(("version".to_owned(), DocValue::Str(s.version.clone())));
    t.push(("description".to_owned(), DocValue::Str(s.description.clone())));
    proof {
        reveal_strlit("id");
        reveal_strlit("version");
        reveal_strlit("description");
        assert("id"@.len() == 2);
        assert("version"@.len() == 7);
        assert("description"@.len() == 11);
        lemma_lookup_at(t@, "id"@, 0);
        lemma_lookup_at(t@, "version"@, 1);
        lemma_lookup_at(t@, "description"@, 2);
        assert(svc_matches(*s, t@));
        assert(spec_svc_err(t@) is None);
    }
    DocValue::Table(t)
}

/// Build the `provides` entry list.
fn build_provides(v: &Vec<ServiceDeclaration>) -> (r: DocValue)
    ensures
        r matches DocValue::Arr(items) && spec_svc_list_err(items@, "provides"@) is None
            && svc_list_matches(v@, items@),
{
    let mut items: Vec<DocValue> = Vec::new();
    let mut i: usize = 0;
    while i < v.len()
        invariant
            0 <= i <= v@.len(),
            items@.len() == i,
            spec_svc_list_err(items@, "provides"@) is None,
            forall|j: int|
                0 <= j < i ==> ((#[trigger] items@[j]) matches DocValue::Table(tt) && spec_svc_err(
                    tt@,
                ) is None && svc_matches(v@[j], tt@)),
        decreases v@.len() - i,
    {
        let ghost items_before = items@;
        items.push(build_svc(&v[i]));
        i = i + 1;
        proof {
            lemma_svc_list_err_push(items_before, items@[items@.len() - 1]);
        }
    }
    DocValue::Arr(items)
}

/// Appending an error-free table entry keeps a `provides` entry list
/// error-free.
proof fn lemma_svc_list_err_push(items: Seq<DocValue>, x: DocValue)
    requires
        spec_svc_list_err(items, "provides"@) is None,
        x matches DocValue::Table(tt) && spec_svc_err(tt@) is None,
    ensures
        spec_svc_list_err(items.push(x), "provides"@) is None,
    decreases items.len(),
{
    if items.len() == 0 {
        assert(items.push(x)[0] == x);
        assert(items.push(x).drop_first() =~= Seq::empty());
    } else {
        assert(items.push(x)[0] == items[0]);
        assert(items.push(x).drop_first() =~= items.drop_first().push(x));
        lemma_svc_list_err_push(items.drop_first(), x);
    }
}

/// Build one `requires` entry.
fn build_req(s: &ServiceRequirement) -> (r: DocValue)
    ensures
        r matches DocValue::Table(tt) && spec_req_entry_err(tt@) is None && req_entry_matches(
            *s,
            tt@,
        ),
{
    let mut t: Vec<(String, DocValue)> = Vec::new();
    t.push(("id".to_owned(), DocValue::Str(s.id.clone())));
    t.push(("optional".to_owned(), DocValue::Bool(s.optional)));
    match &s.min_version {
        Some(mv) => {
            t.push(("min_version".to_owned(), DocValue::Str(mv.clone())));
        },
        None => {},
    }
    proof {
        reveal_strlit("id");
        reveal_strlit("min_version");
        reveal_strlit("optional");
        assert("id"@.len() == 2);
        assert("optional"@.len() == 8);
        assert("min_version"@.len() == 11);
        lemma_lookup_at(t@, "id"@, 0);
        lemma_lookup_at(t@, "optional"@, 1);
        if s.min_version is Some {
            lemma_lookup_at(t@, "min_version"@, 2);
        } else {
            lemma_lookup_none(t@, "min_version"@);
        }
        assert(req_entry_matches(*s, t@));
        assert(spec_req_entry_err(t@) is None);
    }
    DocValue::Table(t)
}

/// Build the `requires` entry list.
fn build_requires(v: &Vec<ServiceRequirement>) -> (r: DocValue)
    ensures
        r matches DocValue::Arr(items) && spec_req_list_err(items@, "requires"@) is None
            && req_list_matches(v@, items@),
{
    let mut items: Vec<DocValue> = Vec::new();
    let mut i: usize = 0;
    while i < v.len()
        invariant
            0 <= i <= v@.len(),
            items@.len() == i,
            spec_req_list_err(items@, "requires"@) is None,
            forall|j: int|
                0 <= j < i ==> ((#[trigger] items@[j]) matches DocValue::Table(tt)
                    && spec_req_entry_err(tt@) is None && req_entry_matches(v@[j], tt@)),
        decreases v@.len() - i,
    {
        let ghost items_before = items@;
        items.push(build_req(&v[i]));
        i = i + 1;
        proof {
            lemma_req_list_err_push(items_before, items@[items@.len() - 1]);
        }
    }
    DocValue::Arr(items)
}

/// Appending an error-free table entry keeps a `requires` entry list
/// error-free.
proof fn lemma_req_list_err_push(items: Seq<DocValue>, x: DocValue)
    requires
        spec_req_list_err(items, "requires"@) is None,
        x matches DocValue::Table(tt) && spec_req_entry_err(tt@) is None,
    ensures
        spec_req_list_err(items.push(x), "requires"@) is None,
    decreases items.len(),
{
    if items.len() == 0 {
        assert(items.push(x)[0] == x);
        assert(items.push(x).drop_first() =~= Seq::empty());
    } else {
        assert(items.push(x)[0] == items[0]);
        assert(items.push(x).drop_first() =~= items.drop_first().push(x));
        lemma_req_list_err_push(items.drop_first(), x);
    }
}

/// Build one `capabilities` entry.
fn build_cap(s: &CapabilityDeclaration) -> (r: DocValue)
    ensures
        r matches DocValue::Table(tt) && spec_cap_err(tt@) is None && cap_matches(*s, tt@),
{
    let mut t: Vec<(String, DocValue)> = Vec::new();
    t.push(("protocol".to_owned(), DocValue::Str(s.protocol.clone())));
    t.push(("version".to_owned(), DocValue::Str(s.version.clone())));
    t.push(("description".to_owned(), DocValue::Str(s.description.clone())));
    proof {
        reveal_strlit("protocol");
        reveal_strlit("version");
        reveal_strlit("description");
        assert("protocol"@.len() == 8);
        assert("version"@.len() == 7);
        assert("description"@.len() == 11);
        lemma_lookup_at(t@, "protocol"@, 0);
        lemma_lookup_at(t@, "version"@, 1);
        lemma_lookup_at(t@, "description"@, 2);
        assert(cap_matches(*s, t@));
        assert(spec_cap_err(t@) is None);
    }
    DocValue::Table(t)
}

/// Build the `capabilities` entry list.
fn build_capabilities(v: &Vec<CapabilityDeclaration>) -> (r: DocValue)
    ensures
        r matches DocValue::Arr(items) && spec_cap_list_err(items@, "capabilities"@) is None
            && cap_list_matches(v@, items@),
{
    let mut items: Vec<DocValue> = Vec::new();
    let mut i: usize = 0;
    while i < v.len()
        invariant
            0 <= i <= v@.len(),
            items@.len() == i,
            spec_cap_list_err(items@, "capabilities"@) is None,
            forall|j: int|
                0 <= j < i ==> ((#[trigger] items@[j]) matches DocValue::Table(tt) && spec_cap_err(
                    tt@,
                ) is None && cap_matches(v@[j], tt@)),
        decreases v@.len() - i,
    {
        let ghost items_before = items@;
        items.push(build_cap(&v[i]));
        i = i + 1;
        proof {
            lemma_cap_list_err_push(items_before, items@[items@.len() - 1]);
        }
    }
    DocValue::Arr(items)
}

/// Appending an error-free table entry keeps a `capabilities` entry list
/// error-free.
proof fn lemma_cap_list_err_push(items: Seq<DocValue>, x: DocValue)
    requires
        spec_cap_list_err(items, "capabilities"@) is None,
        x matches DocValue::Table(tt) && spec_cap_err(tt@) is None,
    ensures
        spec_cap_list_err(items.push(x), "capabilities"@) is None,
    decreases items.len(),
{
    if items.len() == 0 {
        assert(items.push(x)[0] == x);
        assert(items.push(x).drop_first() =~= Seq::empty());
    } else {
        assert(items.push(x)[0] == items[0]);
        assert(items.push(x).drop_first() =~= items.drop_first().push(x));
        lemma_cap_list_err_push(items.drop_first(), x);
    }
}

/// Build the `cli` section of a manifest.
fn build_cli(c: &CliConfig) -> (r: Vec<(String, DocValue)>)
    ensures
        spec_cli_err(r@) is None,
        cli_matches(*c, r@),
{
    let mut t: Vec<(String, DocValue)> = Vec::new();
    t.push(("command".to_owned(), DocValue::Str(c.command.clone())));
    t.push(("description".to_owned(), DocValue::Str(c.description.clone())));
    t.push(("aliases".to_owned(), build_str_arr(&c.aliases)));
    t.push(("dynamic_completions".to_owned(), DocValue::Bool(c.dynamic_completions)));
    proof {
        reveal_strlit("command");
        reveal_strlit("description");
        reveal_strlit("aliases");
        reveal_strlit("dynamic_completions");
        assert("command"@.len() == 7);
        assert("description"@.len() == 11);
        assert("aliases"@.len() == 7);
        assert("dynamic_completions"@.len() == 19);
        assert("command"@[0] == 'c' && "aliases"@[0] == 'a');
        lemma_lookup_at(t@, "command"@, 0);
        lemma_lookup_at(t@, "description"@, 1);
        lemma_lookup_at(t@, "aliases"@, 2);
        lemma_lookup_at(t@, "dynamic_completions"@, 3);
        assert(cli_matches(*c, t@));
        assert(spec_cli_err(t@) is None);
    }
    t
}

/// Build the `tags` section of a manifest.
fn build_tags(g: &TagsInfo) -> (r: Vec<(String, DocValue)>)
    ensures
        spec_tags_err(r@) is None,
        tags_matches(*g, r@),
{
    let mut t: Vec<(String, DocValue)> = Vec::new();
    t.push(("categories".to_owned(), build_str_arr(&g.categories)));
    t.push(("platforms".to_owned(), build_str_arr(&g.platforms)));
    proof {
        reveal_strlit("categories");
        reveal_strlit("platforms");
        assert("categories"@.len() == 10);
        assert("platforms"@.len() == 9);
        lemma_lookup_at(t@, "categories"@, 0);
        lemma_lookup_at(t@, "platforms"@, 1);
        assert(tags_matches(*g, t@));
        assert(spec_tags_err(t@) is None);
    }
    t
}

/// Build the `hive` section of a manifest.
fn build_hive(h: &HiveInfo) -> (r: Vec<(String, DocValue)>)
    ensures
        spec_hive_err(r@) is None,
        hive_matches(*h, r@),
{
    let mut t: Vec<(String, DocValue)> = Vec::new();
    t.push(("category".to_owned(), DocValue::Str(h.category.clone())));
    t.push(("name".to_owned(), DocValue::Str(h.name.clone())));
    proof {
        reveal_strlit("category");
        reveal_strlit("name");
        assert("category"@.len() == 8);
        assert("name"@.len() == 4);
        lemma_lookup_at(t@, "category"@, 0);
        lemma_lookup_at(t@, "name"@, 1);
        assert(hive_matches(*h, t@));
        assert(spec_hive_err(t@) is None);
    }
    t
}

/// Build the `translation` section of a manifest.
fn build_translation(x: &TranslationInfo) -> (r: Vec<(String, DocValue)>)
    ensures
        spec_translation_err(r@) is None,
        translation_matches(*x, r@),
{
    let mut t: Vec<(String, DocValue)> = Vec::new();
    t.push(("translates".to_owned(), DocValue::Str(x.translates.clone())));
    t.push(("language".to_owned(), DocValue::Str(x.language.clone())));
    t.push(("language_name".to_owned(), DocValue::Str(x.language_name.clone())));
    t.push(("namespace".to_owned(), DocValue::Str(x.namespace.clone())));
    proof {
        reveal_strlit("translates");
        reveal_strlit("language");
        reveal_strlit("language_name");
        reveal_strlit("namespace");
        assert("translates"@.len() == 10);
        assert("language"@.len() == 8);
        assert("language_name"@.len() == 13);
        assert("namespace"@.len() == 9);
        lemma_lookup_at(t@, "translates"@, 0);
        lemma_lookup_at(t@, "language"@, 1);
        lemma_lookup_at(t@, "language_name"@, 2);
        lemma_lookup_at(t@, "namespace"@, 3);
        assert(translation_matches(*x, t@));
        assert(spec_translation_err(t@) is None);
    }
    t
}

/// Build the `language` section of a manifest.
fn build_language(x: &LanguageInfo) -> (r: Vec<(String, DocValue)>)
    ensures
        spec_language_err(r@) is None,
        language_matches(*x, r@),
{
    let mut t: Vec<(String, DocValue)> = Vec::new();
    t.push(("id".to_owned(), DocValue::Str(x.id.clone())));
    t.push(("extensions".to_owned(), build_str_arr(&x.extensions)));
    proof {
        reveal_strlit("id");
        reveal_strlit("extensions");
        assert("id"@.len() == 2);
        assert("extensions"@.len() == 10);
        lemma_lookup_at(t@, "id"@, 0);
        lemma_lookup_at(t@, "extensions"@, 1);
        assert(language_matches(*x, t@));
        assert(spec_language_err(t@) is None);
    }
    t
}

/// Build the `requirements` section of a manifest.
fn build_requirements(x: &RequirementsInfo) -> (r: Vec<(String, DocValue)>)
    ensures
        spec_requirements_err(r@) is None,
        requirements_matches(*x, r@),
{
    let mut t: Vec<(String, DocValue)> = Vec::new();
    match &x.os {
        Some(s) => {
            t.push(("os".to_owned(), DocValue::Str(s.clone())));
        },
        None => {},
    }
    let ghost p_arch = t@.len() as int;
    match &x.arch {
        Some(s) => {
            t.push(("arch".to_owned(), DocValue::Str(s.clone())));
        },
        None => {},
    }
    let ghost p_notes = t@.len() as int;
    match &x.notes {
        Some(s) => {
            t.push(("notes".to_owned(), DocValue::Str(s.clone())));
        },
        None => {},
    }
    proof {
        reveal_strlit("os");
        reveal_strlit("arch");
        reveal_strlit("notes");
        assert("os"@.len() == 2);
        assert("arch"@.len() == 4);
        assert("notes"@.len() == 5);
        if x.os is Some {
            lemma_lookup_at(t@, "os"@, 0);
        } else {
            lemma_lookup_none(t@, "os"@);
        }
        if x.arch is Some {
            lemma_lookup_at(t@, "arch"@, p_arch);
        } else {
            lemma_lookup_none(t@, "arch"@);
        }
        if x.notes is Some {
            lemma_lookup_at(t@, "notes"@, p_notes);
        } else {
            lemma_lookup_none(t@, "notes"@);
        }
        assert(requirements_matches(*x, t@));
        assert(spec_requirements_err(t@) is None);
    }
    t
}

impl PluginManifest {
    /// Build the document tree that serializes this manifest: it parses
    /// without error, back to the same fields.
    #[verifier::rlimit(100)]
    pub fn to_doc(&self) -> (r: DocValue)
        ensures
            spec_plugin_doc_err(r) is None,
            plugin_manifest_matches(*self, r),
    {
        let mut root: Vec<(String, DocValue)> = Vec::new();
        root.push(("plugin".to_owned(), DocValue::Table(build_meta(&self.plugin))));
        root.push(("compatibility".to_owned(), DocValue::Table(build_compat(&self.compatibility))));
        root.push(("binary".to_owned(), DocValue::Table(build_binary(&self.binary))));
        root.push(("config".to_owned(), DocValue::Table(build_config(&self.config))));
        root.push(("provides".to_owned(), build_provides(&self.provides)));
        root.push(("requires".to_owned(), build_requires(&self.requires)));
        root.push(("capabilities".to_owned(), build_capabilities(&self.capabilities)));
        let ghost p_signature = root@.len() as int;
        match &self.signature {
            Some(s) => {
                root.push(("signature".to_owned(), DocValue::Table(build_signature(s))));
            },
            None => {},
        }
        let ghost p_cli = root@.len() as int;
        match &self.cli {
            Some(c) => {
                root.push(("cli".to_owned(), DocValue::Table(build_cli(c))));
            },
            None => {},
        }
        let ghost p_tags = root@.len() as int;
        match &self.tags {
            Some(g) => {
                root.push(("tags".to_owned(), DocValue::Table(build_tags(g))));
            },
            None => {},
        }
        let ghost p_hive = root@.len() as int;
        match &self.hive {
            Some(h) => {
                root.push(("hive".to_owned(), DocValue::Table(build_hive(h))));
            },
            None => {},
        }
        let ghost p_translation = root@.len() as int;
        match &self.translation {
            Some(x) => {
                root.push(("translation".to_owned(), DocValue::Table(build_translation(x))));
            },
            None => {},
        }
        let ghost p_language = root@.len() as int;
        match &self.language {
            Some(x) => {
                root.push(("language".to_owned(), DocValue::Table(build_language(x))));
            },
            None => {},
        }
        let ghost p_requirements = root@.len() as int;
        match &self.requirements {
            Some(x) => {
                root.push(("requirements".to_owned(), DocValue::Table(build_requirements(x))));
            },
            None => {},
        }
        let r = DocValue::Table(root);
        proof {
            reveal_strlit("plugin");
            reveal_strlit("compatibility");
            reveal_strlit("binary");
            reveal_strlit("config");
            reveal_strlit("provides");
            reveal_strlit("requires");
            reveal_strlit("capabilities");
            reveal_strlit("signature");
            reveal_strlit("cli");
            reveal_strlit("tags");
            reveal_strlit("hive");
            reveal_strlit("translation");
            reveal_strlit("language");
            reveal_strlit("requirements");
            assert("plugin"@.len() == 6);
            assert("compatibility"@.len() == 13);
            assert("binary"@.len() == 6);
            assert("config"@.len() == 6);
            assert("provides"@.len() == 8);
            assert("requires"@.len() == 8);
            assert("capabilities"@.len() == 12);
            assert("signature"@.len() == 9);
            assert("cli"@.len() == 3);
            assert("tags"@.len() == 4);
            assert("hive"@.len() == 4);
            assert("translation"@.len() == 11);
            assert("language"@.len() == 8);
            assert("requirements"@.len() == 12);
            assert("plugin"@[0] == 'p' && "binary"@[0] == 'b' && "config"@[0] == 'c');
            assert("provides"@[0] == 'p' && "requires"@[0] == 'r' && "language"@[0] == 'l');
            assert("capabilities"@[0] == 'c' && "requirements"@[0] == 'r');
            assert("tags"@[0] == 't' && "hive"@[0] == 'h');
            lemma_lookup_at(root@, "plugin"@, 0);
            lemma_lookup_at(root@, "compatibility"@, 1);
            lemma_lookup_at(root@, "binary"@, 2);
            lemma_lookup_at(root@, "config"@, 3);
            lemma_lookup_at(root@, "provides"@, 4);
            lemma_lookup_at(root@, "requires"@, 5);
            lemma_lookup_at(root@, "capabilities"@, 6);
            if self.signature is Some {
                lemma_lookup_at(root@, "signature"@, p_signature);
            } else {
                lemma_lookup_none(root@, "signature"@);
            }
            if self.cli is Some {
                lemma_lookup_at(root@, "cli"@, p_cli);
            } else {
                lemma_lookup_none(root@, "cli"@);
            }
            if self.tags is Some {
                lemma_lookup_at(root@, "tags"@, p_tags);
            } else {
                lemma_lookup_none(root@, "tags"@);
            }
            if self.hive is Some {
                lemma_lookup_at(root@, "hive"@, p_hive);
            } else {
                lemma_lookup_none(root@, "hive"@);
            }
            if self.translation is Some {
                lemma_lookup_at(root@, "translation"@, p_translation);
            } else {
                lemma_lookup_none(root@, "translation"@);
            }
            if self.language is Some {
                lemma_lookup_at(root@, "language"@, p_language);
            } else {
                lemma_lookup_none(root@, "language"@);
            }
            if self.requirements is Some {
                lemma_lookup_at(root@, "requirements"@, p_requirements);
            } else {
                lemma_lookup_none(root@, "requirements"@);
            }
            assert(plugin_manifest_matches(*self, r));
            assert(spec_plugin_doc_err(r) is None);
        }
        r
    }

    /// Serialize this manifest as TOML text.
    pub fn to_toml(&self) -> (r: Result<String, ManifestError>)
        ensures
            match r {
                Ok(s) => exists|doc: DocValue|
                    {
                        &&& spec_plugin_doc_err(doc) is None
                        &&& #[trigger] plugin_manifest_matches(*self, doc)
                        &&& toml_text_of(doc) == Ok::<Seq<char>, Seq<char>>(s@)
                    },
                Err(e) => e@ matches ErrorKind::TomlParse(msg) && exists|doc: DocValue|
                    {
                        &&& spec_plugin_doc_err(doc) is None
                        &&& #[trigger] plugin_manifest_matches(*self, doc)
                        &&& toml_text_of(doc) == Err::<Seq<char>, Seq<char>>(msg)
                    },
            },
    {
        let doc = self.to_doc();
        match render_toml_text(&doc) {
            Ok(s) => {
                proof {
                    assert(plugin_manifest_matches(*self, doc));
                }
                Ok(s)
            },
            Err(msg) => {
                proof {
                    assert(plugin_manifest_matches(*self, doc));
                }
                Err(ManifestError::TomlParse(msg))
            },
        }
    }
}

/// Round-trip law: two plugin manifests that parsing relates to one
/// error-free document agree on identity, version, CLI configuration and
/// offered services. Since serialization builds a document that the
/// serialized manifest matches, a parse of a serialized manifest reproduces
/// these fields.
pub proof fn lemma_round_trip(m: PluginManifest, doc: DocValue, m2: PluginManifest)
    requires
        spec_plugin_doc_err(doc) is None,
        plugin_manifest_matches(m, doc),
        plugin_manifest_matches(m2, doc),
    ensures
        m2.plugin.id@ == m.plugin.id@,
        m2.plugin.name@ == m.plugin.name@,
        m2.plugin.version@ == m.plugin.version@,
        m2.plugin.plugin_type@ == m.plugin.plugin_type@,
        m2.cli is Some <==> m.cli is Some,
        m.cli matches Some(c1) ==> ({
            &&& m2.cli matches Some(c2)
            &&& c2.command@ == c1.command@
            &&& c2.description@ == c1.description@
            &&& c2.aliases.deep_view() == c1.aliases.deep_view()
            &&& c2.dynamic_completions == c1.dynamic_completions
        }),
        m2.provides@.len() == m.provides@.len(),
        forall|i: int|
            0 <= i < m.provides@.len() ==> {
                &&& (#[trigger] m2.provides@[i]).id@ == m.provides@[i].id@
                &&& m2.provides@[i].version@ == m.provides@[i].version@
                &&& m2.provides@[i].description@ == m.provides@[i].description@
            },
{
    let root = doc->Table_0;
    match spec_lookup(root@, "cli"@) {
        None => {},
        Some(v) => {
            assert(v is Table);
        },
    }
    match spec_lookup(root@, "provides"@) {
        None => {},
        Some(v) => {
            assert(v is Arr);
            let items = v->Arr_0;
            assert forall|i: int| 0 <= i < m.provides@.len() implies {
                &&& (#[trigger] m2.provides@[i]).id@ == m.provides@[i].id@
                &&& m2.provides@[i].version@ == m.provides@[i].version@
                &&& m2.provides@[i].description@ == m.provides@[i].description@
            } by {
                assert(items@[i] matches DocValue::Table(tt) && svc_matches(m.provides@[i], tt@));
                assert(items@[i] matches DocValue::Table(tt) && svc_matches(m2.provides@[i], tt@));
            }
        },
    }
}

} // verus!
