//! Google's Android SDK repository manifest (`repository2-3.xml`), resolved into the components
//! the toolchain bootstraps: `cmdline-tools;latest`, `platform-tools` and `emulator`.
//!
//! Per `<remotePackage path="...">`: a `<revision>` (`major[.minor[.micro]]`) and one
//! `<archive>` per host build, each with a `<host-os>`, an optional `<host-arch>` (absent means
//! every architecture on that OS), and a `<complete>` holding `<size>`, `<checksum type="sha1">`
//! and a `<url>` relative to [`BASE_URL`].

use vstd::prelude::*;

use crate::android::avd_list::opt_view;
use crate::error::CoreError;
use crate::model::component::{
    host_arch_tag, host_os_tag, repo_path_of, Component, ComponentId, ComponentView, HostArch,
    HostOs,
};
use crate::text::{cat, cat3, chars_of, parse_unsigned, parse_unsigned_chars, str_eq};
use crate::xml::{
    attr_of, attribute, child_text, decode_utf8, find_child, find_sha1_checksum, first_where,
    has_tag, node_views, parse_xml, revision_of, revision_string, sha1_checksum_child,
    child_with_tag, subtree_end, text_of, utf8_decode, xml_doc, XmlNode, XmlNodeView,
};

verus! {

/// Every relative `<url>` in the manifest resolves against this.
pub const BASE_URL: &'static str = "https://dl.google.com/android/repository/";

/// `tail` resolved against the URL `base` (the `url` crate), or the parser's error message.
pub uninterp spec fn url_joined(base: Seq<char>, tail: Seq<char>) -> Result<Seq<char>, Seq<char>>;

/// `Url::join`: `tail` resolved against the URL `base` (parsed first), serialized; or the
/// error's message.
#[verifier::external_body]
fn url_join(base: &str, tail: &str) -> (r: Result<String, String>)
    ensures
        match r {
            Ok(u) => url_joined(base@, tail@) == Ok::<Seq<char>, Seq<char>>(u@),
            Err(e) => url_joined(base@, tail@) == Err::<Seq<char>, Seq<char>>(e@),
        },
{
    let b = url::Url::parse(base).map_err(|e| e.to_string())?;
    b.join(tail).map(|u| u.to_string()).map_err(|e| e.to_string())
}

/// Why a component could not be resolved.
pub enum CatalogFailure {
    /// A parse error with this detail (`what` is `repository xml`).
    Parse(Seq<char>),
    /// A not-found error naming what and which.
    NotFound(Seq<char>, Seq<char>),
}

/// `e` is the error a failure describes.
pub open spec fn is_failure(e: CoreError, f: CatalogFailure) -> bool {
    match f {
        CatalogFailure::Parse(d) => crate::error::is_parse_error(e, "repository xml"@, d),
        CatalogFailure::NotFound(w, n) => e matches CoreError::NotFound { what, name } && what@
            == w && name@ == n,
    }
}

/// The archive's `<host-os>` is the OS, and its `<host-arch>`, when present, the architecture.
pub open spec fn archive_matches(nodes: Seq<XmlNodeView>, a: int, os: HostOs, arch: HostArch) -> bool {
    match text_of(nodes, a, "host-os"@) {
        None => false,
        Some(o) => o == host_os_tag(os) && match text_of(nodes, a, "host-arch"@) {
            Some(h) => h == host_arch_tag(arch),
            None => true,
        },
    }
}

/// The first `<remotePackage>` of the document whose `path` is `repo`.
pub open spec fn package_of(nodes: Seq<XmlNodeView>, repo: Seq<char>) -> Option<int> {
    first_where(
        nodes,
        0,
        nodes.len() as int,
        |n: XmlNodeView| has_tag(n, "remotePackage"@) && attr_of(n.attrs, "path"@) == Some(repo),
    )
}

/// The first matching `<archive>` among a package node and its descendants.
pub open spec fn archive_from(
    nodes: Seq<XmlNodeView>,
    from: int,
    to: int,
    os: HostOs,
    arch: HostArch,
) -> Option<int>
    decreases to - from,
{
    if from >= to || from < 0 || from >= nodes.len() {
        None
    } else if has_tag(nodes[from], "archive"@) && archive_matches(nodes, from, os, arch) {
        Some(from)
    } else {
        archive_from(nodes, from + 1, to, os, arch)
    }
}

/// How a component resolves from the manifest's nodes: its package, revision, host-matched
/// archive, size, SHA-1 and URL, each missing one a specific error.
#[verifier::opaque]
pub open spec fn resolved_component(
    nodes: Seq<XmlNodeView>,
    id: ComponentId,
    os: HostOs,
    arch: HostArch,
) -> Result<ComponentView, CatalogFailure> {
    let repo = repo_path_of(id);
    match package_of(nodes, repo) {
        None => Err(CatalogFailure::NotFound("SDK component in repository manifest"@, repo)),
        Some(p) => match revision_of(nodes, p) {
            None => Err(CatalogFailure::Parse("`"@ + repo + "` has no <revision><major>"@)),
            Some(version) => match archive_from(nodes, p, subtree_end(nodes, p), os, arch) {
                None => Err(
                    CatalogFailure::NotFound(
                        "SDK component archive for this host"@,
                        repo + " on "@ + host_os_tag(os) + "/"@ + host_arch_tag(arch),
                    ),
                ),
                Some(a) => match child_with_tag(nodes, a, "complete"@) {
                    None => Err(CatalogFailure::Parse("`"@ + repo + "` archive has no <complete>"@)),
                    Some(c) => {
                        let size = match text_of(nodes, c, "size"@) {
                            Some(t) => parse_unsigned(t, 10, u64::MAX as int),
                            None => None,
                        };
                        let sha1 = match sha1_checksum_child(nodes, c) {
                            Some(k) => nodes[k].text,
                            None => None,
                        };
                        match size {
                            None => Err(CatalogFailure::Parse("missing or non-numeric <size>"@)),
                            Some(size) => match sha1 {
                                None => Err(CatalogFailure::Parse("missing sha1 <checksum>"@)),
                                Some(sha1) => match text_of(nodes, c, "url"@) {
                                    None => Err(CatalogFailure::Parse("missing <url>"@)),
                                    Some(tail) => match url_joined(
                                        "https://dl.google.com/android/repository/"@,
                                        tail,
                                    ) {
                                        Err(e) => Err(
                                            CatalogFailure::Parse(
                                                "bad <url> `"@ + tail + "`: "@ + e,
                                            ),
                                        ),
                                        Ok(url) => Ok(
                                            ComponentView {
                                                id,
                                                version,
                                                url,
                                                size_bytes: size as u64,
                                                sha1,
                                            },
                                        ),
                                    },
                                },
                            },
                        }
                    },
                },
            },
        },
    }
}

/// Whether an archive node matches the host.
fn archive_matches_exec(nodes: &[XmlNode], a: usize, os: HostOs, arch: HostArch) -> (r: bool)
    requires
        a < nodes@.len(),
    ensures
        r == archive_matches(node_views(nodes@), a as int, os, arch),
{
    let archive_os = match child_text(nodes, a, "host-os") {
        Some(o) => o,
        None => {
            return false;
        },
    };
    if !str_eq(archive_os.as_str(), os.tag()) {
        return false;
    }
    match child_text(nodes, a, "host-arch") {
        Some(h) => str_eq(h.as_str(), arch.tag()),
        None => true,
    }
}

/// The first `<remotePackage>` whose `path` is `repo`.
fn find_package(nodes: &[XmlNode], repo: &str) -> (r: Option<usize>)
    ensures
        match r {
            Some(p) => package_of(node_views(nodes@), repo@) == Some(p as int) && p < nodes@.len(),
            None => package_of(node_views(nodes@), repo@) is None,
        },
{
    let ghost nv = node_views(nodes@);
    let n = nodes.len();
    let ghost pred = |x: XmlNodeView| has_tag(x, "remotePackage"@) && attr_of(x.attrs, "path"@)
        == Some(repo@);
    let mut i: usize = 0;
    while i < n
        invariant
            i <= n,
            n == nodes@.len(),
            nv == node_views(nodes@),
            pred == (|x: XmlNodeView| has_tag(x, "remotePackage"@) && attr_of(x.attrs, "path"@)
                == Some(repo@)),
            package_of(nv, repo@) == first_where(nv, i as int, n as int, pred),
        decreases n - i,
    {
        assert(nv[i as int] == nodes@[i as int]@);
        if nodes[i].element && str_eq(nodes[i].tag.as_str(), "remotePackage") {
            let path = attribute(&nodes[i], "path");
            let hit = match &path {
                Some(p) => str_eq(p.as_str(), repo),
                None => false,
            };
            if hit {
                return Some(i);
            }
        }
        i = i + 1;
    }
    None
}

/// The first host-matching `<archive>` in positions `p .. end`.
fn find_archive(nodes: &[XmlNode], p: usize, end: usize, os: HostOs, arch: HostArch) -> (r: Option<usize>)
    requires
        end <= nodes@.len(),
    ensures
        match r {
            Some(a) => archive_from(node_views(nodes@), p as int, end as int, os, arch) == Some(
                a as int,
            ) && a < nodes@.len(),
            None => archive_from(node_views(nodes@), p as int, end as int, os, arch) is None,
        },
{
    let ghost nv = node_views(nodes@);
    let mut j: usize = p;
    while j < end
        invariant
            p <= j,
            end <= nodes@.len(),
            nv == node_views(nodes@),
            archive_from(nv, p as int, end as int, os, arch) == archive_from(
                nv,
                j as int,
                end as int,
                os,
                arch,
            ),
        decreases end - j,
    {
        assert(nv[j as int] == nodes@[j as int]@);
        if nodes[j].element && str_eq(nodes[j].tag.as_str(), "archive") && archive_matches_exec(
            nodes,
            j,
            os,
            arch,
        ) {
            return Some(j);
        }
        j = j + 1;
    }
    None
}

/// Resolve one component from the manifest's nodes.
pub fn resolve_component(nodes: &[XmlNode], id: ComponentId, os: HostOs, arch: HostArch) -> (r: Result<Component, CoreError>)
    ensures
        match (r, resolved_component(node_views(nodes@), id, os, arch)) {
            (Ok(c), Ok(v)) => c@ == v,
            (Err(e), Err(f)) => is_failure(e, f),
            _ => false,
        },
{
    reveal(resolved_component);
    let ghost nv = node_views(nodes@);
    let repo = id.repo_path();
    let n = nodes.len();
    let p = match find_package(nodes, repo) {
        Some(p) => p,
        None => {
            return Err(
                CoreError::NotFound {
                    what: "SDK component in repository manifest",
                    name: repo.to_owned(),
                },
            );
        },
    };
    assert(package_of(nv, repo@) == Some(p as int));
    let version = match revision_string(nodes, p) {
        Some(v) => v,
        None => {
            let d = cat3("`", repo, "` has no <revision><major>");
            return Err(CoreError::parse("repository xml", d.as_str()));
        },
    };
    let span_p: usize = if nodes[p].size > 0 {
        nodes[p].size
    } else {
        1
    };
    let end: usize = if span_p <= n - p {
        p + span_p
    } else {
        n
    };
    assert(end == subtree_end(nv, p as int));
    let archive = find_archive(nodes, p, end, os, arch);
    let a = match archive {
        Some(a) => a,
        None => {
            let mut name = cat3(repo, " on ", os.tag());
            name.append("/");
            name.append(arch.tag());
            return Err(CoreError::NotFound { what: "SDK component archive for this host", name });
        },
    };
    let c = match find_child(nodes, a, "complete") {
        Some(c) => c,
        None => {
            let d = cat3("`", repo, "` archive has no <complete>");
            return Err(CoreError::parse("repository xml", d.as_str()));
        },
    };
    let size = match child_text(nodes, c, "size") {
        Some(t) => {
            let tc = chars_of(t.as_str());
            parse_unsigned_chars(tc.as_slice(), 10, 0xffff_ffff_ffff_ffffu64)
        },
        None => None,
    };
    let size_bytes = match size {
        Some(s) => s,
        None => {
            return Err(CoreError::parse("repository xml", "missing or non-numeric <size>"));
        },
    };
    let sha1 = match find_sha1_checksum(nodes, c) {
        Some(k) => {
            assert(nv[k as int] == nodes@[k as int]@);
            nodes[k].text.clone()
        },
        None => None,
    };
    let sha1 = match sha1 {
        Some(s) => s,
        None => {
            return Err(CoreError::parse("repository xml", "missing sha1 <checksum>"));
        },
    };
    let tail = match child_text(nodes, c, "url") {
        Some(t) => t,
        None => {
            return Err(CoreError::parse("repository xml", "missing <url>"));
        },
    };
    let url = match url_join(BASE_URL, tail.as_str()) {
        Ok(u) => u,
        Err(e) => {
            let mut d = cat3("bad <url> `", tail.as_str(), "`: ");
            d.append(e.as_str());
            return Err(CoreError::parse("repository xml", d.as_str()));
        },
    };
    Ok(Component { id, version, url, size_bytes, sha1 })
}

/// How the manifest resolves: a decoding or XML error, else the bootstrap components in
/// install order, the first unresolvable one being the error.
pub open spec fn catalog_of(xml: Seq<u8>, os: HostOs, arch: HostArch) -> Result<Seq<ComponentView>, CatalogFailure> {
    match utf8_decode(xml) {
        Err(e) => Err(CatalogFailure::Parse("not valid utf-8: "@ + e)),
        Ok(text) => match xml_doc(text) {
            Err(e) => Err(CatalogFailure::Parse(e)),
            Ok(nodes) => match resolved_component(nodes, ComponentId::CmdlineTools, os, arch) {
                Err(f) => Err(f),
                Ok(a) => match resolved_component(nodes, ComponentId::PlatformTools, os, arch) {
                    Err(f) => Err(f),
                    Ok(b) => match resolved_component(nodes, ComponentId::Emulator, os, arch) {
                        Err(f) => Err(f),
                        Ok(c) => Ok(seq![a, b, c]),
                    },
                },
            },
        },
    }
}

/// Parse the manifest and resolve the bootstrap components for `(os, arch)`.
pub fn parse(xml: &[u8], os: HostOs, arch: HostArch) -> (r: Result<Vec<Component>, CoreError>)
    ensures
        match (r, catalog_of(xml@, os, arch)) {
            (Ok(v), Ok(w)) => v@.map_values(|c: Component| c@) == w,
            (Err(e), Err(f)) => is_failure(e, f),
            _ => false,
        },
{
    let text = match decode_utf8(xml) {
        Ok(t) => t,
        Err(e) => {
            let d = cat("not valid utf-8: ", e.as_str());
            return Err(CoreError::parse("repository xml", d.as_str()));
        },
    };
    let nodes = match parse_xml(text.as_str()) {
        Ok(n) => n,
        Err(e) => {
            return Err(CoreError::parse("repository xml", e.as_str()));
        },
    };
    let a = match resolve_component(nodes.as_slice(), ComponentId::CmdlineTools, os, arch) {
        Ok(c) => c,
        Err(e) => {
            return Err(e);
        },
    };
    let b = match resolve_component(nodes.as_slice(), ComponentId::PlatformTools, os, arch) {
        Ok(c) => c,
        Err(e) => {
            return Err(e);
        },
    };
    let c = match resolve_component(nodes.as_slice(), ComponentId::Emulator, os, arch) {
        Ok(c) => c,
        Err(e) => {
            return Err(e);
        },
    };
    let mut v: Vec<Component> = Vec::new();
    let ghost (av, bv, cv) = (a@, b@, c@);
    v.push(a);
    v.push(b);
    v.push(c);
    assert(v@.map_values(|c: Component| c@) =~= seq![av, bv, cv]);
    Ok(v)
}

} // verus!
