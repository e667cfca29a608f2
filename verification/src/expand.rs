//! Package expansion: the equivalent single-plugin manifests of a package.
//!
//! Each plugin definition becomes a full plugin manifest, inheriting the
//! package's version, author, license, homepage, compatibility, checksums and
//! signature; a definition's own `depends_on` list overrides the shared one
//! when non-empty. Expansion is total and keeps declaration order.

use vstd::prelude::*;

use crate::package::PackageManifest;
use crate::package::PluginDef;
use crate::plugin::BinaryInfo;
use crate::plugin::CompatibilityInfo;
use crate::plugin::ConfigInfo;
use crate::plugin::PluginManifest;
use crate::plugin::PluginMeta;
use crate::plugin::ServiceDeclaration;
use crate::plugin::ServiceRequirement;
use crate::plugin::SignatureInfo;
use crate::value::clone_pairs;
use crate::value::pairs_like;

verus! {

/// Copy a list of strings.
fn clone_string_vec(v: &Vec<String>) -> (r: Vec<String>)
    ensures
        r@ == v@,
{
    let mut out: Vec<String> = Vec::new();
    let mut i: usize = 0;
    while i < v.len()
        invariant
            0 <= i <= v@.len(),
            out@.len() == i,
            forall|j: int| 0 <= j < i ==> out@[j] == v@[j],
        decreases v@.len() - i,
    {
        out.push(v[i].clone());
        i = i + 1;
    }
    proof {
        assert(out@ =~= v@);
    }
    out
}

/// Copy a checksum list.
fn clone_checksums(v: &Vec<(String, String)>) -> (r: Vec<(String, String)>)
    ensures
        r@ == v@,
{
    let mut out: Vec<(String, String)> = Vec::new();
    let mut i: usize = 0;
    while i < v.len()
        invariant
            0 <= i <= v@.len(),
            out@.len() == i,
            forall|j: int| 0 <= j < i ==> out@[j] == v@[j],
        decreases v@.len() - i,
    {
        out.push((v[i].0.clone(), v[i].1.clone()));
        i = i + 1;
    }
    proof {
        assert(out@ =~= v@);
    }
    out
}

/// Copy a list of service declarations.
fn clone_svc_vec(v: &Vec<ServiceDeclaration>) -> (r: Vec<ServiceDeclaration>)
    ensures
        r@ == v@,
{
    let mut out: Vec<ServiceDeclaration> = Vec::new();
    let mut i: usize = 0;
    while i < v.len()
        invariant
            0 <= i <= v@.len(),
            out@.len() == i,
            forall|j: int| 0 <= j < i ==> out@[j] == v@[j],
        decreases v@.len() - i,
    {
        let e = &v[i];
        out.push(
            ServiceDeclaration {
                id: e.id.clone(),
                version: e.version.clone(),
                description: e.description.clone(),
            },
        );
        i = i + 1;
    }
    proof {
        assert(out@ =~= v@);
    }
    out
}

/// Copy a list of service requirements.
fn clone_req_vec(v: &Vec<ServiceRequirement>) -> (r: Vec<ServiceRequirement>)
    ensures
        r@ == v@,
{
    let mut out: Vec<ServiceRequirement> = Vec::new();
    let mut i: usize = 0;
    while i < v.len()
        invariant
            0 <= i <= v@.len(),
            out@.len() == i,
            forall|j: int| 0 <= j < i ==> out@[j] == v@[j],
        decreases v@.len() - i,
    {
        let e = &v[i];
        let min_version = match &e.min_version {
            Some(s) => Some(s.clone()),
            None => None,
        };
        out.push(ServiceRequirement { id: e.id.clone(), min_version, optional: e.optional });
        i = i + 1;
    }
    proof {
        assert(out@ =~= v@);
    }
    out
}

/// Copy an optional string.
fn clone_opt_string(o: &Option<String>) -> (r: Option<String>)
    ensures
        r == *o,
{
    match o {
        Some(s) => Some(s.clone()),
        None => None,
    }
}

/// What one expanded manifest holds, for a definition `d` of package `pkg`:
/// the definition's own identity and services, the package's version and
/// shared metadata, and none of the single-plugin-only sections.
pub open spec fn is_expansion_of(m: PluginManifest, d: PluginDef, pkg: PackageManifest) -> bool {
    &&& m.plugin.id == d.id
    &&& m.plugin.name == d.name
    &&& m.plugin.version == pkg.package.version
    &&& m.plugin.plugin_type == d.plugin_type
    &&& m.plugin.author == pkg.package.author
    &&& m.plugin.description@ == (match d.description {
        Some(s) => s@,
        None => pkg.package.description@,
    })
    &&& m.plugin.license == pkg.package.license
    &&& m.plugin.homepage == pkg.package.homepage
    &&& m.compatibility.api_version == pkg.compatibility.api_version
    &&& m.compatibility.min_host_version == pkg.compatibility.min_host_version
    &&& m.compatibility.max_host_version == pkg.compatibility.max_host_version
    &&& m.compatibility.platforms@ == pkg.compatibility.platforms@
    &&& m.compatibility.depends_on@ == (if d.depends_on@.len() > 0 {
        d.depends_on@
    } else {
        pkg.compatibility.depends_on@
    })
    &&& m.binary.name == d.binary
    &&& m.binary.checksums@ == pkg.binary.checksums@
    &&& (match pkg.signature {
        Some(s) => m.signature matches Some(ms) && ms.public_key == s.public_key
            && ms.signature_file == s.signature_file,
        None => m.signature is None,
    })
    &&& (match d.config {
        Some(c) => pairs_like(c.defaults@, m.config.defaults@),
        None => m.config.defaults@.len() == 0,
    })
    &&& m.provides@ == d.provides@
    &&& m.requires@ == d.requires@
    &&& m.cli is None
    &&& m.capabilities@.len() == 0
    &&& m.tags is None
    &&& m.hive is None
    &&& m.translation is None
    &&& m.language is None
    &&& m.requirements is None
}

impl PackageManifest {
    /// Expand the package into the equivalent single-plugin manifests, one
    /// per plugin definition, in declaration order. Expansion cannot fail.
    pub fn expand_plugins(&self) -> (r: Vec<PluginManifest>)
        ensures
            r@.len() == self.plugins@.len(),
            forall|i: int|
                0 <= i < r@.len() ==> is_expansion_of(
                    #[trigger] r@[i],
                    self.plugins@[i],
                    *self,
                ),
    {
        let mut out: Vec<PluginManifest> = Vec::new();
        let mut i: usize = 0;
        while i < self.plugins.len()
            invariant
                0 <= i <= self.plugins@.len(),
                out@.len() == i,
                forall|j: int|
                    0 <= j < i ==> is_expansion_of(#[trigger] out@[j], self.plugins@[j], *self),
            decreases self.plugins@.len() - i,
        {
            let d = &self.plugins[i];
            let depends_on = if d.depends_on.len() > 0 {
                clone_string_vec(&d.depends_on)
            } else {
                clone_string_vec(&self.compatibility.depends_on)
            };
            let description = match &d.description {
                Some(s) => s.clone(),
                None => self.package.description.clone(),
            };
            let signature = match &self.signature {
                Some(s) => Some(
                    SignatureInfo {
                        public_key: s.public_key.clone(),
                        signature_file: s.signature_file.clone(),
                    },
                ),
                None => None,
            };
            let config = match &d.config {
                Some(c) => ConfigInfo { defaults: clone_pairs(&c.defaults) },
                None => ConfigInfo { defaults: Vec::new() },
            };
            out.push(
                PluginManifest {
                    plugin: PluginMeta {
                        id: d.id.clone(),
                        name: d.name.clone(),
                        version: self.package.version.clone(),
                        plugin_type: d.plugin_type.clone(),
                        author: self.package.author.clone(),
                        description,
                        license: clone_opt_string(&self.package.license),
                        homepage: clone_opt_string(&self.package.homepage),
                    },
                    compatibility: CompatibilityInfo {
                        api_version: self.compatibility.api_version,
                        min_host_version: clone_opt_string(&self.compatibility.min_host_version),
                        max_host_version: clone_opt_string(&self.compatibility.max_host_version),
                        platforms: clone_string_vec(&self.compatibility.platforms),
                        depends_on,
                    },
                    binary: BinaryInfo {
                        name: d.binary.clone(),
                        checksums: clone_checksums(&self.binary.checksums),
                    },
                    signature,
                    config,
                    provides: clone_svc_vec(&d.provides),
                    requires: clone_req_vec(&d.requires),
                    cli: None,
                    capabilities: Vec::new(),
                    tags: None,
                    hive: None,
                    translation: None,
                    language: None,
                    requirements: None,
                },
            );
            i = i + 1;
        }
        out
    }
}

} // verus!
