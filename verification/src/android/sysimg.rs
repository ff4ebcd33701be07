//! System images as the per-tag manifests (`sys-img2-3.xml`) publish them, and the marketing
//! Android version of an API level.

use vstd::prelude::*;

use crate::android::avd_list::opt_view;
use crate::error::CoreError;
use crate::model::image::{coord_parse, ImageCoord, SystemImage};
use crate::text::{cat, chars_of, decimal, digit_char, parse_unsigned, parse_unsigned_chars};
use crate::xml::{
    attr_of, attribute, child_text, child_with_tag, decode_utf8, find_child, find_sha1_checksum,
    first_tagged, first_where, has_tag, node_views, parse_xml, revision_of, revision_string,
    sha1_checksum_child, subtree_end, text_of, utf8_decode, xml_doc, XmlNode, XmlNodeView,
};

verus! {

/// One system-image package resolved from a manifest, before its local install state is known.
#[derive(Debug, Clone, PartialEq, Eq)]
pub struct SysImgEntry {
    /// The image's identity.
    pub coord: ImageCoord,
    /// Package revision (`<major>[.<minor>[.<micro>]]`).
    pub revision: String,
    /// Archive size in bytes, when the manifest publishes one.
    pub size_bytes: Option<u64>,
    /// Lower-case hex SHA-1 of the archive, when published.
    pub sha1: Option<String>,
}

/// The marketing Android version of an API level (Android's own API-level table); a level newer
/// than the table shows as the level itself.
pub open spec fn android_version_of(api: u32) -> Seq<char> {
    if api == 35 {
        "15"@
    } else if api == 34 {
        "14"@
    } else if api == 33 {
        "13"@
    } else if api == 32 || api == 31 {
        "12"@
    } else if api == 30 {
        "11"@
    } else if api == 29 {
        "10"@
    } else if api == 28 {
        "9"@
    } else if api == 27 {
        "8.1"@
    } else if api == 26 {
        "8.0"@
    } else if api == 25 {
        "7.1"@
    } else if api == 24 {
        "7.0"@
    } else if api == 23 {
        "6.0"@
    } else if api == 22 {
        "5.1"@
    } else if api == 21 {
        "5.0"@
    } else {
        decimal(api as nat)
    }
}

/// Two-digit numbers are written as their tens digit then their units digit.
proof fn lemma_two_digit_decimal(n: nat)
    requires
        10 <= n < 100,
    ensures
        decimal(n) == seq![digit_char((n / 10) as int), digit_char((n % 10) as int)],
{
    assert(decimal(n / 10) == seq![digit_char((n / 10) as int)]);
    assert(decimal(n) =~= seq![digit_char((n / 10) as int), digit_char((n % 10) as int)]);
}

/// Android's version table: API levels 32 to 35 are Android 12 to 15 (the level less 20),
/// levels 28 to 31 are Android 9 to 12 (the level less 19), levels 21 to 27 are the point
/// releases 5.0, 5.1, 6.0, 7.0, 7.1, 8.0 and 8.1 in turn, and any other level shows as itself.
pub proof fn lemma_android_version_table(api: u32)
    ensures
        32 <= api <= 35 ==> android_version_of(api) == decimal((api - 20) as nat),
        28 <= api <= 31 ==> android_version_of(api) == decimal((api - 19) as nat),
        21 <= api <= 27 ==> android_version_of(api) == decimal(
            seq![5nat, 5, 6, 7, 7, 8, 8][api - 21],
        ) + "."@ + decimal(seq![0nat, 1, 0, 0, 1, 0, 1][api - 21]),
        api < 21 || api > 35 ==> android_version_of(api) == decimal(api as nat),
{
    if api < 21 || api > 35 {
    } else if api == 21 {
        reveal_strlit("5.0");
        assert(decimal(5) == seq![digit_char(5)]);
        assert(decimal(0) == seq![digit_char(0)]);
        reveal_strlit(".");
        assert(seq![5nat, 5, 6, 7, 7, 8, 8][api - 21] == 5);
        assert(seq![0nat, 1, 0, 0, 1, 0, 1][api - 21] == 0);
        assert(decimal(5) + "."@ + decimal(0) =~= "5.0"@);
        assert(android_version_of(api) =~= "5.0"@);
    } else if api == 22 {
        reveal_strlit("5.1");
        assert(decimal(5) == seq![digit_char(5)]);
        assert(decimal(1) == seq![digit_char(1)]);
        reveal_strlit(".");
        assert(seq![5nat, 5, 6, 7, 7, 8, 8][api - 21] == 5);
        assert(seq![0nat, 1, 0, 0, 1, 0, 1][api - 21] == 1);
        assert(decimal(5) + "."@ + decimal(1) =~= "5.1"@);
        assert(android_version_of(api) =~= "5.1"@);
    } else if api == 23 {
        reveal_strlit("6.0");
        assert(decimal(6) == seq![digit_char(6)]);
        assert(decimal(0) == seq![digit_char(0)]);
        reveal_strlit(".");
        assert(seq![5nat, 5, 6, 7, 7, 8, 8][api - 21] == 6);
        assert(seq![0nat, 1, 0, 0, 1, 0, 1][api - 21] == 0);
        assert(decimal(6) + "."@ + decimal(0) =~= "6.0"@);
        assert(android_version_of(api) =~= "6.0"@);
    } else if api == 24 {
        reveal_strlit("7.0");
        assert(decimal(7) == seq![digit_char(7)]);
        assert(decimal(0) == seq![digit_char(0)]);
        reveal_strlit(".");
        assert(seq![5nat, 5, 6, 7, 7, 8, 8][api - 21] == 7);
        assert(seq![0nat, 1, 0, 0, 1, 0, 1][api - 21] == 0);
        assert(decimal(7) + "."@ + decimal(0) =~= "7.0"@);
        assert(android_version_of(api) =~= "7.0"@);
    } else if api == 25 {
        reveal_strlit("7.1");
        assert(decimal(7) == seq![digit_char(7)]);
        assert(decimal(1) == seq![digit_char(1)]);
        reveal_strlit(".");
        assert(seq![5nat, 5, 6, 7, 7, 8, 8][api - 21] == 7);
        assert(seq![0nat, 1, 0, 0, 1, 0, 1][api - 21] == 1);
        assert(decimal(7) + "."@ + decimal(1) =~= "7.1"@);
        assert(android_version_of(api) =~= "7.1"@);
    } else if api == 26 {
        reveal_strlit("8.0");
        assert(decimal(8) == seq![digit_char(8)]);
        assert(decimal(0) == seq![digit_char(0)]);
        reveal_strlit(".");
        assert(seq![5nat, 5, 6, 7, 7, 8, 8][api - 21] == 8);
        assert(seq![0nat, 1, 0, 0, 1, 0, 1][api - 21] == 0);
        assert(decimal(8) + "."@ + decimal(0) =~= "8.0"@);
        assert(android_version_of(api) =~= "8.0"@);
    } else if api == 27 {
        reveal_strlit("8.1");
        assert(decimal(8) == seq![digit_char(8)]);
        assert(decimal(1) == seq![digit_char(1)]);
        reveal_strlit(".");
        assert(seq![5nat, 5, 6, 7, 7, 8, 8][api - 21] == 8);
        assert(seq![0nat, 1, 0, 0, 1, 0, 1][api - 21] == 1);
        assert(decimal(8) + "."@ + decimal(1) =~= "8.1"@);
        assert(android_version_of(api) =~= "8.1"@);
    } else if api == 28 {
        reveal_strlit("9");
        assert(decimal(9) == seq![digit_char(9)]);
        assert(decimal(9) =~= "9"@);
        assert(android_version_of(api) =~= "9"@);
    } else if api == 29 {
        reveal_strlit("10");
        lemma_two_digit_decimal(10);
        assert(decimal(10) =~= "10"@);
        assert(android_version_of(api) =~= "10"@);
    } else if api == 30 {
        reveal_strlit("11");
        lemma_two_digit_decimal(11);
        assert(decimal(11) =~= "11"@);
        assert(android_version_of(api) =~= "11"@);
    } else if api == 31 {
        reveal_strlit("12");
        lemma_two_digit_decimal(12);
        assert(decimal(12) =~= "12"@);
        assert(android_version_of(api) =~= "12"@);
    } else if api == 32 {
        reveal_strlit("12");
        lemma_two_digit_decimal(12);
        assert(decimal(12) =~= "12"@);
        assert(android_version_of(api) =~= "12"@);
    } else if api == 33 {
        reveal_strlit("13");
        lemma_two_digit_decimal(13);
        assert(decimal(13) =~= "13"@);
        assert(android_version_of(api) =~= "13"@);
    } else if api == 34 {
        reveal_strlit("14");
        lemma_two_digit_decimal(14);
        assert(decimal(14) =~= "14"@);
        assert(android_version_of(api) =~= "14"@);
    } else if api == 35 {
        reveal_strlit("15");
        lemma_two_digit_decimal(15);
        assert(decimal(15) =~= "15"@);
        assert(android_version_of(api) =~= "15"@);
    }
}

/// The marketing Android version of an API level.
pub fn android_version_name(api: u32) -> (r: String)
    ensures
        r@ == android_version_of(api),
{
    let name: &str = match api {
        35 => "15",
        34 => "14",
        33 => "13",
        32 | 31 => "12",
        30 => "11",
        29 => "10",
        28 => "9",
        27 => "8.1",
        26 => "8.0",
        25 => "7.1",
        24 => "7.0",
        23 => "6.0",
        22 => "5.1",
        21 => "5.0",
        _ => {
            return crate::text::u64_to_string(api as u64);
        },
    };
    name.to_owned()
}

/// The UI-facing [`SystemImage`] of a manifest entry: its marketing version filled in, and the
/// install state the caller read from the filesystem.
pub fn to_system_image(entry: &SysImgEntry, installed: bool) -> (r: SystemImage)
    ensures
        r.coord == entry.coord,
        r.android_version@ == android_version_of(entry.coord.api),
        r.revision@ == entry.revision@,
        r.download_size_bytes == entry.size_bytes,
        r.installed == installed,
{
    SystemImage {
        coord: entry.coord,
        android_version: android_version_name(entry.coord.api),
        revision: entry.revision.clone(),
        download_size_bytes: entry.size_bytes,
        installed,
    }
}

/// The contents of a [`SysImgEntry`].
pub struct SysImgEntryView {
    pub coord: ImageCoord,
    pub revision: Seq<char>,
    pub size_bytes: Option<u64>,
    pub sha1: Option<Seq<char>>,
}

impl View for SysImgEntry {
    type V = SysImgEntryView;

    open spec fn view(&self) -> SysImgEntryView {
        SysImgEntryView {
            coord: self.coord,
            revision: self.revision@,
            size_bytes: self.size_bytes,
            sha1: opt_view(self.sha1),
        }
    }
}

/// `(size, sha1)` of a package's first `<archive>`'s `<complete>`, when present.
pub open spec fn archive_facts_of(nodes: Seq<XmlNodeView>, k: int) -> (Option<u64>, Option<Seq<char>>) {
    match first_where(nodes, k, subtree_end(nodes, k), |n: XmlNodeView| has_tag(n, "archive"@)) {
        None => (None, None),
        Some(a) => match child_with_tag(nodes, a, "complete"@) {
            None => (None, None),
            Some(c) => (
                match text_of(nodes, c, "size"@) {
                    Some(t) => match parse_unsigned(t, 10, u64::MAX as int) {
                        Some(v) => Some(v as u64),
                        None => None,
                    },
                    None => None,
                },
                match sha1_checksum_child(nodes, c) {
                    Some(x) => nodes[x].text,
                    None => None,
                },
            ),
        },
    }
}

/// The entry the node at `k` gives: a `<remotePackage>` whose `path` reads as a plain image
/// coordinate (extension-level packages and unknown tags or ABIs give nothing), with its
/// revision (`"0"` when absent) and archive facts.
pub open spec fn sysimg_entry_of(nodes: Seq<XmlNodeView>, k: int) -> Option<SysImgEntryView> {
    if !has_tag(nodes[k], "remotePackage"@) {
        None
    } else {
        match attr_of(nodes[k].attrs, "path"@) {
            None => None,
            Some(path) => match coord_parse(path) {
                Err(_) => None,
                Ok(coord) => Some(
                    SysImgEntryView {
                        coord,
                        revision: match revision_of(nodes, k) {
                            Some(r) => r,
                            None => "0"@,
                        },
                        size_bytes: archive_facts_of(nodes, k).0,
                        sha1: archive_facts_of(nodes, k).1,
                    },
                ),
            },
        }
    }
}

/// The entries of a manifest's nodes, in document order.
pub open spec fn sysimg_entries_of(nodes: Seq<XmlNodeView>) -> Seq<SysImgEntryView> {
    crate::text::somes(Seq::new(nodes.len(), |k: int| sysimg_entry_of(nodes, k)))
}

/// The archive facts of the package at `k`.
fn archive_facts(nodes: &[XmlNode], k: usize) -> (r: (Option<u64>, Option<String>))
    requires
        k < nodes@.len(),
    ensures
        (r.0, opt_view(r.1)) == archive_facts_of(node_views(nodes@), k as int),
{
    let ghost nv = node_views(nodes@);
    let n = nodes.len();
    let span_k: usize = if nodes[k].size > 0 {
        nodes[k].size
    } else {
        1
    };
    let end: usize = if span_k <= n - k {
        k + span_k
    } else {
        n
    };
    assert(end == subtree_end(nv, k as int));
    let a = match first_tagged(nodes, k, end, "archive") {
        Some(a) => a,
        None => {
            return (None, None);
        },
    };
    let c = match find_child(nodes, a, "complete") {
        Some(c) => c,
        None => {
            return (None, None);
        },
    };
    let size = match child_text(nodes, c, "size") {
        Some(t) => {
            let tc = chars_of(t.as_str());
            parse_unsigned_chars(tc.as_slice(), 10, 0xffff_ffff_ffff_ffffu64)
        },
        None => None,
    };
    let sha1 = match find_sha1_checksum(nodes, c) {
        Some(x) => {
            assert(nv[x as int] == nodes@[x as int]@);
            nodes[x].text.clone()
        },
        None => None,
    };
    (size, sha1)
}

/// How a manifest parses: a decoding or XML error (what: `system image manifest`), else its
/// entries.
pub open spec fn manifest_of(xml: Seq<u8>) -> Result<Seq<SysImgEntryView>, Seq<char>> {
    match utf8_decode(xml) {
        Err(e) => Err("not valid utf-8: "@ + e),
        Ok(text) => match xml_doc(text) {
            Err(e) => Err(e),
            Ok(nodes) => Ok(sysimg_entries_of(nodes)),
        },
    }
}

/// Parse one `sys-img2-3.xml` manifest. A package whose path is not a plain coordinate is
/// skipped, not an error; only undecodable or malformed XML is.
pub fn parse(xml: &[u8]) -> (r: Result<Vec<SysImgEntry>, CoreError>)
    ensures
        match (r, manifest_of(xml@)) {
            (Ok(v), Ok(w)) => v@.map_values(|e: SysImgEntry| e@) == w,
            (Err(e), Err(d)) => crate::error::is_parse_error(e, "system image manifest"@, d),
            _ => false,
        },
{
    let text = match decode_utf8(xml) {
        Ok(t) => t,
        Err(e) => {
            let d = cat("not valid utf-8: ", e.as_str());
            return Err(CoreError::parse("system image manifest", d.as_str()));
        },
    };
    let nodes = match parse_xml(text.as_str()) {
        Ok(n) => n,
        Err(e) => {
            return Err(CoreError::parse("system image manifest", e.as_str()));
        },
    };
    Ok(entries_from_nodes(&nodes))
}

/// The system-image entries a manifest's nodes list, in document order: every
/// `remotePackage` whose path is a plain coordinate.
pub fn entries_from_nodes(nodes: &[XmlNode]) -> (r: Vec<SysImgEntry>)
    ensures
        r@.map_values(|e: SysImgEntry| e@) == sysimg_entries_of(node_views(nodes@)),
{
    let ghost nv = node_views(nodes@);
    let ghost opts = Seq::new(nv.len(), |k: int| sysimg_entry_of(nv, k));
    let mut out: Vec<SysImgEntry> = Vec::new();
    let n = nodes.len();
    let mut i: usize = 0;
    while i < n
        invariant
            i <= n,
            n == nodes@.len(),
            nv == node_views(nodes@),
            opts == Seq::new(nv.len(), |k: int| sysimg_entry_of(nv, k)),
            out@.map_values(|e: SysImgEntry| e@) == crate::text::somes(opts.take(i as int)),
        decreases n - i,
    {
        proof {
            crate::text::lemma_somes_step(opts, i as int);
        }
        assert(nv[i as int] == nodes@[i as int]@);
        let entry: Option<SysImgEntry> = if nodes[i].element && crate::text::str_eq(
            nodes[i].tag.as_str(),
            "remotePackage",
        ) {
            match attribute(&nodes[i], "path") {
                None => None,
                Some(path) => match ImageCoord::from_str(path.as_str()) {
                    Err(_) => None,
                    Ok(coord) => {
                        let revision = match revision_string(nodes, i) {
                            Some(r) => r,
                            None => "0".to_owned(),
                        };
                        let (size_bytes, sha1) = archive_facts(nodes, i);
                        Some(SysImgEntry { coord, revision, size_bytes, sha1 })
                    },
                },
            }
        } else {
            None
        };
        match entry {
            Some(e) => {
                let ghost before = out@.map_values(|e: SysImgEntry| e@);
                let ghost ev = e@;
                out.push(e);
                assert(out@.map_values(|e: SysImgEntry| e@) =~= before.push(ev));
            },
            None => {},
        }
        i = i + 1;
    }
    assert(opts.take(n as int) =~= opts);
    out
}

/// Google's per-tag system-image manifests.
pub open spec fn manifest_urls_list() -> Seq<Seq<char>> {
    seq![
        "https://dl.google.com/android/repository/sys-img/android/sys-img2-3.xml"@,
        "https://dl.google.com/android/repository/sys-img/google_apis/sys-img2-3.xml"@,
        "https://dl.google.com/android/repository/sys-img/google_apis_playstore/sys-img2-3.xml"@,
        "https://dl.google.com/android/repository/sys-img/android-wear/sys-img2-3.xml"@,
        "https://dl.google.com/android/repository/sys-img/android-tv/sys-img2-3.xml"@,
        "https://dl.google.com/android/repository/sys-img/android-automotive/sys-img2-3.xml"@,
    ]
}

/// Google's per-tag system-image manifests, one per image type the app offers.
pub fn manifest_urls() -> (r: Vec<&'static str>)
    ensures
        r@.map_values(|u: &'static str| u@) == manifest_urls_list(),
{
    let r = vec![
        "https://dl.google.com/android/repository/sys-img/android/sys-img2-3.xml",
        "https://dl.google.com/android/repository/sys-img/google_apis/sys-img2-3.xml",
        "https://dl.google.com/android/repository/sys-img/google_apis_playstore/sys-img2-3.xml",
        "https://dl.google.com/android/repository/sys-img/android-wear/sys-img2-3.xml",
        "https://dl.google.com/android/repository/sys-img/android-tv/sys-img2-3.xml",
        "https://dl.google.com/android/repository/sys-img/android-automotive/sys-img2-3.xml",
    ];
    assert(r@.map_values(|u: &'static str| u@) =~= manifest_urls_list());
    r
}

} // verus!
