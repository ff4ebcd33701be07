//! The device inspector's readings of a running emulator: facts (model, Android version,
//! battery, `/data` usage) and network state (interface addresses, open IPv4 sockets), each
//! parsed defensively from the output of a small `adb shell` one-shot.

use std::collections::HashMap;

use vstd::prelude::*;

use crate::android::avd_list::opt_view;
use crate::text::{
    chars_of, decimal, lemma_somes_step, lines, lines_of, parse_unsigned, parse_unsigned_chars,
    somes, split_once_at, split_once_char, starts_with, starts_with_chars, str_eq, string_of,
    strip_prefix_chars, tokens, tokens_of, trim, trim_chars, u64_to_string, views,
};

verus! {

/// A quick read of a running device; a value appears only when its `adb` one-shot ran and
/// parsed cleanly.
#[derive(Debug, Clone, PartialEq, Eq)]
pub struct DeviceFacts {
    /// `ro.product.model`.
    pub model: Option<String>,
    /// `ro.build.version.release` (e.g. `"14"`).
    pub android_release: Option<String>,
    /// `ro.build.version.sdk` (API level).
    pub sdk_int: Option<u32>,
    /// Battery charge percent from `dumpsys battery` (`level:`).
    pub battery_pct: Option<u8>,
    /// Free space on `/data`, MB, from `df /data`.
    pub data_free_mb: Option<u64>,
    /// Total size of `/data`, MB, from `df /data`.
    pub data_total_mb: Option<u64>,
}

/// Live network state of a running device.
#[derive(Debug, Clone, PartialEq, Eq)]
pub struct DeviceNetwork {
    /// Interface addresses.
    pub interfaces: Vec<NetInterface>,
    /// Open IPv4 sockets.
    pub connections: Vec<NetConnection>,
}

/// One address on one network interface (from `ip -o addr`).
#[derive(Debug, Clone, PartialEq, Eq)]
pub struct NetInterface {
    /// e.g. `wlan0`, `radio0`, `lo`.
    pub name: String,
    /// e.g. `10.0.2.16/24`.
    pub addr: String,
}

/// The contents of a [`NetInterface`].
pub struct NetInterfaceView {
    pub name: Seq<char>,
    pub addr: Seq<char>,
}

impl View for NetInterface {
    type V = NetInterfaceView;

    open spec fn view(&self) -> NetInterfaceView {
        NetInterfaceView { name: self.name@, addr: self.addr@ }
    }
}

/// The views of a sequence of interfaces.
pub open spec fn iface_views(v: Seq<NetInterface>) -> Seq<NetInterfaceView> {
    v.map_values(|i: NetInterface| i@)
}

/// One open IPv4 socket (from `/proc/net/tcp` or `/proc/net/udp`).
#[derive(Debug, Clone, PartialEq, Eq)]
pub struct NetConnection {
    /// `"tcp"` or `"udp"`.
    pub proto: &'static str,
    /// `ip:port`.
    pub local: String,
    /// `ip:port`; `0.0.0.0:0` for a listener or unconnected UDP.
    pub remote: String,
    /// TCP state (`ESTABLISHED`, `LISTEN`, …); empty for UDP.
    pub state: &'static str,
    /// Owning Linux uid.
    pub uid: u32,
    /// Package name for `uid`, when `pm list packages -U` mapped it.
    pub package: Option<String>,
}

/// The contents of a [`NetConnection`].
pub struct NetConnectionView {
    pub proto: Seq<char>,
    pub local: Seq<char>,
    pub remote: Seq<char>,
    pub state: Seq<char>,
    pub uid: u32,
    pub package: Option<Seq<char>>,
}

impl View for NetConnection {
    type V = NetConnectionView;

    open spec fn view(&self) -> NetConnectionView {
        NetConnectionView {
            proto: self.proto@,
            local: self.local@,
            remote: self.remote@,
            state: self.state@,
            uid: self.uid,
            package: opt_view(self.package),
        }
    }
}

/// The views of a sequence of connections.
pub open spec fn conn_views(v: Seq<NetConnection>) -> Seq<NetConnectionView> {
    v.map_values(|c: NetConnection| c@)
}

// ---------------------------------------------------------------------------
// `dumpsys battery`, `df /data`, `getprop`
// ---------------------------------------------------------------------------

/// The battery level a `dumpsys battery` line gives, if it is a `level:` line with a `u8`.
pub open spec fn battery_line(line: Seq<char>) -> Option<u8> {
    let t = trim(line);
    if starts_with(t, "level:"@) {
        match parse_unsigned(trim(t.skip(6)), 10, 255) {
            Some(v) => Some(v as u8),
            None => None,
        }
    } else {
        None
    }
}

/// The first battery level among the lines.
pub open spec fn first_battery(ls: Seq<Seq<char>>) -> Option<u8>
    decreases ls.len(),
{
    if ls.len() == 0 {
        None
    } else {
        match battery_line(ls[0]) {
            Some(v) => Some(v),
            None => first_battery(ls.drop_first()),
        }
    }
}

/// The `level: NN` line of `adb shell dumpsys battery`, as a percent: the first line that
/// starts (after trimming) with `level:` and holds a `u8` after it.
pub fn parse_battery_level(dumpsys: &str) -> (r: Option<u8>)
    ensures
        r == first_battery(lines_of(dumpsys@)),
{
    let cs = chars_of(dumpsys);
    let ls = lines(cs.as_slice());
    let ghost lv = lines_of(dumpsys@);
    let n = ls.len();
    let prefix = chars_of("level:");
    proof {
        reveal_strlit("level:");
    }
    let mut i: usize = 0;
    assert(lv.skip(0) =~= lv);
    while i < n
        invariant
            i <= n,
            n == ls@.len(),
            views(ls@) == lv,
            lv == lines_of(dumpsys@),
            prefix@ == "level:"@,
            first_battery(lv) == first_battery(lv.skip(i as int)),
        decreases n - i,
    {
        assert(lv.skip(i as int)[0] == lv[i as int]);
        assert(lv.skip(i as int).drop_first() =~= lv.skip(i + 1));
        assert(ls@[i as int]@ == lv[i as int]);
        let t = trim_chars(ls[i].as_slice());
        proof {
            reveal_strlit("level:");
        }
        assert(prefix@.len() == 6);
        let found: Option<u8> = match strip_prefix_chars(t.as_slice(), prefix.as_slice()) {
            Some(rest) => {
                let v = trim_chars(rest.as_slice());
                match parse_unsigned_chars(v.as_slice(), 10, 255) {
                    Some(x) => Some(x as u8),
                    None => None,
                }
            },
            None => None,
        };
        assert(found == battery_line(lv[i as int]));
        if let Some(x) = found {
            assert(lv.skip(i as int).len() > 0);
            assert(first_battery(lv.skip(i as int)) == Some(x));
            return Some(x);
        }
        i = i + 1;
    }
    None
}

/// `(free MB, total MB)` from `df /data`: the second line's whitespace columns 3 (Available)
/// and 1 (1K-blocks), each a `u64` count of KiB divided by 1024. A row without both numeric
/// columns gives `(None, None)`.
pub open spec fn df_data_of(df: Seq<char>) -> (Option<u64>, Option<u64>) {
    let ls = lines_of(df);
    if ls.len() < 2 {
        (None, None)
    } else {
        let cols = tokens_of(ls[1]);
        let total = if cols.len() > 1 {
            match parse_unsigned(cols[1], 10, u64::MAX as int) {
                Some(k) => Some((k / 1024) as u64),
                None => None,
            }
        } else {
            None
        };
        let free = if cols.len() > 3 {
            match parse_unsigned(cols[3], 10, u64::MAX as int) {
                Some(k) => Some((k / 1024) as u64),
                None => None,
            }
        } else {
            None
        };
        if free is Some && total is Some {
            (free, total)
        } else {
            (None, None)
        }
    }
}

/// `adb shell df /data` as `(free MB, total MB)`.
pub fn parse_df_data(df: &str) -> (r: (Option<u64>, Option<u64>))
    ensures
        r == df_data_of(df@),
{
    let cs = chars_of(df);
    let ls = lines(cs.as_slice());
    if ls.len() < 2 {
        return (None, None);
    }
    assert(ls@[1]@ == lines_of(df@)[1]);
    let cols = tokens(ls[1].as_slice());
    let total = if cols.len() > 1 {
        assert(cols@[1]@ == tokens_of(lines_of(df@)[1])[1]);
        match parse_unsigned_chars(cols[1].as_slice(), 10, 0xffff_ffff_ffff_ffffu64) {
            Some(k) => Some(k / 1024),
            None => None,
        }
    } else {
        None
    };
    let free = if cols.len() > 3 {
        assert(cols@[3]@ == tokens_of(lines_of(df@)[1])[3]);
        match parse_unsigned_chars(cols[3].as_slice(), 10, 0xffff_ffff_ffff_ffffu64) {
            Some(k) => Some(k / 1024),
            None => None,
        }
    } else {
        None
    };
    if free.is_some() && total.is_some() {
        (free, total)
    } else {
        (None, None)
    }
}

/// A `getprop` reply: the trimmed output, unless that is empty.
pub open spec fn getprop_of(stdout: Seq<char>) -> Option<Seq<char>> {
    if trim(stdout).len() == 0 {
        None
    } else {
        Some(trim(stdout))
    }
}

/// The value a `getprop` run printed.
pub fn getprop_value(stdout: &str) -> (r: Option<String>)
    ensures
        opt_view(r) == getprop_of(stdout@),
{
    let t = crate::text::trim_str(stdout);
    if t.as_str().is_empty() {
        None
    } else {
        Some(t)
    }
}

/// The API level a `getprop ro.build.version.sdk` reply gives.
pub open spec fn sdk_int_of(stdout: Seq<char>) -> Option<u32> {
    match getprop_of(stdout) {
        Some(v) => match parse_unsigned(v, 10, u32::MAX as int) {
            Some(n) => Some(n as u32),
            None => None,
        },
        None => None,
    }
}

/// The API level a `getprop ro.build.version.sdk` run printed.
pub fn sdk_int_value(stdout: &str) -> (r: Option<u32>)
    ensures
        r == sdk_int_of(stdout@),
{
    match getprop_value(stdout) {
        Some(v) => {
            let cs = chars_of(v.as_str());
            match parse_unsigned_chars(cs.as_slice(), 10, 0xffff_ffffu64) {
                Some(n) => Some(n as u32),
                None => None,
            }
        },
        None => None,
    }
}

// ---------------------------------------------------------------------------
// `ip -o addr`
// ---------------------------------------------------------------------------

/// `s` without its trailing `c`s (`str::trim_end_matches(char)`).
pub open spec fn trim_end_char(s: Seq<char>, c: char) -> Seq<char>
    decreases s.len(),
{
    if s.len() > 0 && s.last() == c {
        trim_end_char(s.drop_last(), c)
    } else {
        s
    }
}

/// `str::trim_end_matches(char)` on a character slice.
pub fn trim_end_char_exec(s: &[char], c: char) -> (r: Vec<char>)
    ensures
        r@ == trim_end_char(s@, c),
{
    let mut j: usize = s.len();
    assert(s@.take(j as int) =~= s@);
    while j > 0 && s[j - 1] == c
        invariant
            j <= s@.len(),
            trim_end_char(s@, c) == trim_end_char(s@.take(j as int), c),
        decreases j,
    {
        assert(s@.take(j as int).drop_last() =~= s@.take(j - 1));
        j = j - 1;
    }
    crate::text::slice_to_vec(s, 0, j)
}

/// The interface address an `ip -o addr` line gives: `<idx>: <iface> <family> <addr> …`, for
/// the `inet` and `inet6` families only.
pub open spec fn ip_addr_line(line: Seq<char>) -> Option<NetInterfaceView> {
    let toks = tokens_of(line);
    if toks.len() < 3 {
        None
    } else if toks[2] != "inet"@ && toks[2] != "inet6"@ {
        None
    } else if toks.len() < 4 {
        None
    } else {
        Some(NetInterfaceView { name: trim_end_char(toks[1], ':'), addr: toks[3] })
    }
}

/// `ip -o addr` as one [`NetInterface`] per `inet`/`inet6` address line.
pub fn parse_ip_addr(out: &str) -> (r: Vec<NetInterface>)
    ensures
        iface_views(r@) == somes(lines_of(out@).map_values(|l: Seq<char>| ip_addr_line(l))),
{
    let cs = chars_of(out);
    let ls = lines(cs.as_slice());
    let ghost lv = lines_of(out@);
    let ghost opts = lv.map_values(|l: Seq<char>| ip_addr_line(l));
    let mut r: Vec<NetInterface> = Vec::new();
    let n = ls.len();
    let mut i: usize = 0;
    while i < n
        invariant
            i <= n,
            n == ls@.len(),
            views(ls@) == lv,
            opts == lv.map_values(|l: Seq<char>| ip_addr_line(l)),
            iface_views(r@) == somes(opts.take(i as int)),
        decreases n - i,
    {
        proof {
            lemma_somes_step(opts, i as int);
        }
        assert(ls@[i as int]@ == lv[i as int]);
        let toks = tokens(ls[i].as_slice());
        let ghost tv = tokens_of(lv[i as int]);
        if toks.len() >= 3 {
            assert(toks@[2]@ == tv[2]);
            let fam = string_of(toks[2].as_slice());
            if str_eq(fam.as_str(), "inet") || str_eq(fam.as_str(), "inet6") {
                if toks.len() >= 4 {
                    assert(toks@[1]@ == tv[1]);
                    assert(toks@[3]@ == tv[3]);
                    let name = trim_end_char_exec(toks[1].as_slice(), ':');
                    let iface = NetInterface {
                        name: string_of(name.as_slice()),
                        addr: string_of(toks[3].as_slice()),
                    };
                    let ghost before = iface_views(r@);
                    r.push(iface);
                    assert(iface_views(r@) =~= before.push(iface@));
                }
            }
        }
        i = i + 1;
    }
    assert(opts.take(n as int) =~= opts);
    r
}

// ---------------------------------------------------------------------------
// `pm list packages -U`
// ---------------------------------------------------------------------------

/// The rest of the first token that starts with `prefix`, if any.
pub open spec fn first_with_prefix(toks: Seq<Seq<char>>, prefix: Seq<char>) -> Option<Seq<char>>
    decreases toks.len(),
{
    if toks.len() == 0 {
        None
    } else if starts_with(toks[0], prefix) {
        Some(toks[0].skip(prefix.len() as int))
    } else {
        first_with_prefix(toks.drop_first(), prefix)
    }
}

/// The rest of the first token that starts with `prefix`.
fn first_with_prefix_exec(toks: &Vec<Vec<char>>, prefix: &[char]) -> (r: Option<Vec<char>>)
    ensures
        match r {
            Some(v) => first_with_prefix(views(toks@), prefix@) == Some(v@),
            None => first_with_prefix(views(toks@), prefix@) is None,
        },
{
    let ghost tv = views(toks@);
    let n = toks.len();
    let mut i: usize = 0;
    assert(tv.skip(0) =~= tv);
    while i < n
        invariant
            i <= n,
            n == toks@.len(),
            tv == views(toks@),
            first_with_prefix(tv, prefix@) == first_with_prefix(tv.skip(i as int), prefix@),
        decreases n - i,
    {
        assert(tv.skip(i as int)[0] == tv[i as int]);
        assert(tv.skip(i as int).drop_first() =~= tv.skip(i + 1));
        assert(toks@[i as int]@ == tv[i as int]);
        match strip_prefix_chars(toks[i].as_slice(), prefix) {
            Some(rest) => {
                return Some(rest);
            },
            None => {},
        }
        i = i + 1;
    }
    None
}

/// The `(uid, package)` a `pm list packages -U` line gives: the first `package:` token and the
/// first `uid:` token (whose rest must be a `u32`).
pub open spec fn pm_line(line: Seq<char>) -> Option<(u32, Seq<char>)> {
    let toks = tokens_of(line);
    match (first_with_prefix(toks, "package:"@), first_with_prefix(toks, "uid:"@)) {
        (Some(pkg), Some(u)) => match parse_unsigned(trim(u), 10, u32::MAX as int) {
            Some(n) => Some((n as u32, pkg)),
            None => None,
        },
        _ => None,
    }
}

/// Whether `uid` is already mapped.
pub open spec fn has_uid(m: Seq<(u32, Seq<char>)>, uid: u32) -> bool {
    exists|i: int| 0 <= i < m.len() && m[i].0 == uid
}

/// Record a mapping unless the uid is already mapped (the first one wins).
pub open spec fn add_uid(m: Seq<(u32, Seq<char>)>, e: Option<(u32, Seq<char>)>) -> Seq<(u32, Seq<char>)> {
    match e {
        Some(p) => if has_uid(m, p.0) {
            m
        } else {
            m.push(p)
        },
        None => m,
    }
}

/// The uid-to-package mapping of the lines, first mapping of each uid kept.
pub open spec fn uid_map_of(ls: Seq<Seq<char>>) -> Seq<(u32, Seq<char>)>
    decreases ls.len(),
{
    if ls.len() == 0 {
        seq![]
    } else {
        add_uid(uid_map_of(ls.drop_last()), pm_line(ls.last()))
    }
}

/// The package mapped to `uid`, if any.
pub open spec fn package_of_uid(m: Seq<(u32, Seq<char>)>, uid: u32) -> Option<Seq<char>>
    decreases m.len(),
{
    if m.len() == 0 {
        None
    } else if m[0].0 == uid {
        Some(m[0].1)
    } else {
        package_of_uid(m.drop_first(), uid)
    }
}

/// The package a map gives `uid`, if any.
pub open spec fn uid_entry(m: Map<u32, String>, uid: u32) -> Option<Seq<char>> {
    if m.contains_key(uid) {
        Some(m[uid]@)
    } else {
        None
    }
}

/// A uid is mapped exactly when a package is found for it.
proof fn lemma_has_uid_iff(m: Seq<(u32, Seq<char>)>, uid: u32)
    ensures
        has_uid(m, uid) <==> package_of_uid(m, uid) is Some,
    decreases m.len(),
{
    if m.len() > 0 {
        lemma_has_uid_iff(m.drop_first(), uid);
        if has_uid(m, uid) && m[0].0 != uid {
            let i = choose|i: int| 0 <= i < m.len() && m[i].0 == uid;
            assert(m.drop_first()[i - 1].0 == uid);
        }
        if has_uid(m.drop_first(), uid) {
            let i = choose|i: int| 0 <= i < m.len() - 1 && m.drop_first()[i].0 == uid;
            assert(m[i + 1].0 == uid);
        }
    }
}

/// Appending a mapping only answers a uid nothing answered before.
proof fn lemma_package_of_push(m: Seq<(u32, Seq<char>)>, p: (u32, Seq<char>), uid: u32)
    ensures
        package_of_uid(m.push(p), uid) == if package_of_uid(m, uid) is Some {
            package_of_uid(m, uid)
        } else if p.0 == uid {
            Some(p.1)
        } else {
            None
        },
    decreases m.len(),
{
    let mp = m.push(p);
    if m.len() > 0 {
        lemma_package_of_push(m.drop_first(), p, uid);
        assert(mp[0] == m[0]);
        assert(mp.drop_first() =~= m.drop_first().push(p));
        if m[0].0 == uid {
            assert(package_of_uid(mp, uid) == Some(m[0].1));
            assert(package_of_uid(m, uid) == Some(m[0].1));
        } else {
            assert(package_of_uid(mp, uid) == package_of_uid(mp.drop_first(), uid));
            assert(package_of_uid(m, uid) == package_of_uid(m.drop_first(), uid));
        }
    } else {
        assert(package_of_uid(m, uid) is None);
        assert(mp[0] == p);
        assert(mp.drop_first() =~= Seq::<(u32, Seq<char>)>::empty());
        assert(package_of_uid(mp.drop_first(), uid) is None);
    }
}

/// `pm list packages -U` as a uid-to-package map (each line is `package:<name> uid:<n>`); the
/// first line naming a uid wins.
pub fn parse_pm_list_packages_u(out: &str) -> (r: HashMap<u32, String>)
    ensures
        forall|uid: u32| #[trigger] uid_entry(r@, uid) == package_of_uid(uid_map_of(lines_of(out@)), uid),
{
    broadcast use vstd::std_specs::hash::group_hash_axioms;

    let cs = chars_of(out);
    let ls = lines(cs.as_slice());
    let ghost lv = lines_of(out@);
    let pkg_prefix = chars_of("package:");
    let uid_prefix = chars_of("uid:");
    let mut m: HashMap<u32, String> = HashMap::new();
    let n = ls.len();
    let mut i: usize = 0;
    while i < n
        invariant
            i <= n,
            n == ls@.len(),
            views(ls@) == lv,
            pkg_prefix@ == "package:"@,
            uid_prefix@ == "uid:"@,
            forall|u: u32| #[trigger] uid_entry(m@, u) == package_of_uid(uid_map_of(lv.take(i as int)), u),
        decreases n - i,
    {
        let ghost mv = uid_map_of(lv.take(i as int));
        assert(lv.take(i + 1).drop_last() =~= lv.take(i as int));
        assert(ls@[i as int]@ == lv[i as int]);
        let toks = tokens(ls[i].as_slice());
        let pkg = first_with_prefix_exec(&toks, pkg_prefix.as_slice());
        let uid = first_with_prefix_exec(&toks, uid_prefix.as_slice());
        match (pkg, uid) {
            (Some(p), Some(u)) => {
                let ut = trim_chars(u.as_slice());
                match parse_unsigned_chars(ut.as_slice(), 10, 0xffff_ffffu64) {
                    Some(id) => {
                        let id = id as u32;
                        proof {
                            lemma_has_uid_iff(mv, id);
                            assert(uid_entry(m@, id) == package_of_uid(mv, id));
                        }
                        if !m.contains_key(&id) {
                            let ghost old_m = m@;
                            let text = string_of(p.as_slice());
                            m.insert(id, text);
                            proof {
                                assert forall|u: u32| #[trigger] uid_entry(m@, u) == package_of_uid(
                                    uid_map_of(lv.take(i + 1)),
                                    u,
                                ) by {
                                    lemma_package_of_push(mv, (id, p@), u);
                                    assert(uid_entry(old_m, u) == package_of_uid(mv, u));
                                }
                            }
                        } else {
                            proof {
                                assert forall|u: u32| #[trigger] uid_entry(m@, u) == package_of_uid(
                                    uid_map_of(lv.take(i + 1)),
                                    u,
                                ) by {
                                    assert(uid_entry(m@, u) == package_of_uid(mv, u));
                                }
                            }
                        }
                    },
                    None => {},
                }
            },
            _ => {},
        }
        i = i + 1;
    }
    assert(lv.take(n as int) =~= lv);
    m
}

// ---------------------------------------------------------------------------
// `/proc/net/tcp` and `/proc/net/udp`
// ---------------------------------------------------------------------------

/// `"a.b.c.d:port"` for a `/proc/net/*` little-endian hex `IIIIIIII:PPPP` field: the address's
/// low byte first, the port in decimal. A field whose address part is not eight hex digits (an
/// IPv6 field, or malformed) gives nothing.
pub open spec fn hex_addr_of(field: Seq<char>) -> Option<Seq<char>> {
    match split_once_char(field, ':') {
        None => None,
        Some((ip, port)) => if ip.len() != 8 {
            None
        } else {
            match (parse_unsigned(ip, 16, u32::MAX as int), parse_unsigned(port, 16, 65535)) {
                (Some(n), Some(p)) => Some(
                    decimal((n % 256) as nat) + "."@ + decimal(((n / 256) % 256) as nat) + "."@
                        + decimal(((n / 65536) % 256) as nat) + "."@ + decimal(
                        (n / 16777216) as nat,
                    ) + ":"@ + decimal(p as nat),
                ),
                _ => None,
            }
        },
    }
}

/// Decode a `/proc/net/*` `IIIIIIII:PPPP` field into `"a.b.c.d:port"`.
pub fn decode_hex_addr(field: &str) -> (r: Option<String>)
    ensures
        opt_view(r) == hex_addr_of(field@),
{
    let cs = chars_of(field);
    let (ip, port) = match split_once_at(cs.as_slice(), ':') {
        Some(p) => p,
        None => {
            return None;
        },
    };
    if ip.len() != 8 {
        return None;
    }
    let n = match parse_unsigned_chars(ip.as_slice(), 16, 0xffff_ffffu64) {
        Some(v) => v,
        None => {
            return None;
        },
    };
    let p = match parse_unsigned_chars(port.as_slice(), 16, 65535) {
        Some(v) => v,
        None => {
            return None;
        },
    };
    let a = u64_to_string(n % 256);
    let b = u64_to_string((n / 256) % 256);
    let c = u64_to_string((n / 65536) % 256);
    let d = u64_to_string(n / 16777216);
    let ps = u64_to_string(p);
    let mut s = a;
    s.append(".");
    s.append(b.as_str());
    s.append(".");
    s.append(c.as_str());
    s.append(".");
    s.append(d.as_str());
    s.append(":");
    s.append(ps.as_str());
    Some(s)
}

/// The name of a hex TCP state (`/proc/net/tcp` column 3); `?` for an unknown one.
pub open spec fn tcp_state_of(hex: Seq<char>) -> Seq<char> {
    if hex == "01"@ {
        "ESTABLISHED"@
    } else if hex == "02"@ {
        "SYN_SENT"@
    } else if hex == "03"@ {
        "SYN_RECV"@
    } else if hex == "04"@ {
        "FIN_WAIT1"@
    } else if hex == "05"@ {
        "FIN_WAIT2"@
    } else if hex == "06"@ {
        "TIME_WAIT"@
    } else if hex == "07"@ {
        "CLOSE"@
    } else if hex == "08"@ {
        "CLOSE_WAIT"@
    } else if hex == "09"@ {
        "LAST_ACK"@
    } else if hex == "0A"@ {
        "LISTEN"@
    } else if hex == "0B"@ {
        "CLOSING"@
    } else {
        "?"@
    }
}

/// The name of a hex TCP state.
pub fn tcp_state(hex: &str) -> (r: &'static str)
    ensures
        r@ == tcp_state_of(hex@),
{
    if str_eq(hex, "01") {
        "ESTABLISHED"
    } else if str_eq(hex, "02") {
        "SYN_SENT"
    } else if str_eq(hex, "03") {
        "SYN_RECV"
    } else if str_eq(hex, "04") {
        "FIN_WAIT1"
    } else if str_eq(hex, "05") {
        "FIN_WAIT2"
    } else if str_eq(hex, "06") {
        "TIME_WAIT"
    } else if str_eq(hex, "07") {
        "CLOSE"
    } else if str_eq(hex, "08") {
        "CLOSE_WAIT"
    } else if str_eq(hex, "09") {
        "LAST_ACK"
    } else if str_eq(hex, "0A") {
        "LISTEN"
    } else if str_eq(hex, "0B") {
        "CLOSING"
    } else {
        "?"
    }
}

/// The socket a `/proc/net/*` row gives: columns `sl local rem st … uid` (uid is column 7).
pub open spec fn proc_net_row(
    line: Seq<char>,
    proto: Seq<char>,
    uid_pkg: Map<u32, String>,
) -> Option<NetConnectionView> {
    let cols = tokens_of(line);
    if cols.len() < 2 {
        None
    } else {
        match hex_addr_of(cols[1]) {
            None => None,
            Some(local) => if cols.len() < 3 {
                None
            } else {
                match hex_addr_of(cols[2]) {
                    None => None,
                    Some(remote) => if proto == "tcp"@ && cols.len() < 4 {
                        None
                    } else if cols.len() < 8 {
                        None
                    } else {
                        match parse_unsigned(cols[7], 10, u32::MAX as int) {
                            None => None,
                            Some(uid) => Some(
                                NetConnectionView {
                                    proto,
                                    local,
                                    remote,
                                    state: if proto == "tcp"@ {
                                        tcp_state_of(cols[3])
                                    } else {
                                        ""@
                                    },
                                    uid: uid as u32,
                                    package: uid_entry(uid_pkg, uid as u32),
                                },
                            ),
                        }
                    },
                }
            },
        }
    }
}

/// One `/proc/net/*` row.
fn proc_net_row_exec(line: &[char], proto: &'static str, uid_pkg: &HashMap<u32, String>) -> (r: Option<NetConnection>)
    ensures
        match r {
            Some(c) => proc_net_row(line@, proto@, uid_pkg@) == Some(c@),
            None => proc_net_row(line@, proto@, uid_pkg@) is None,
        },
{
    broadcast use vstd::std_specs::hash::group_hash_axioms;

    let cols = tokens(line);
    let ghost cv = tokens_of(line@);
    if cols.len() < 2 {
        return None;
    }
    assert(cols@[1]@ == cv[1]);
    let c1 = string_of(cols[1].as_slice());
    let local = match decode_hex_addr(c1.as_str()) {
        Some(l) => l,
        None => {
            return None;
        },
    };
    if cols.len() < 3 {
        return None;
    }
    assert(cols@[2]@ == cv[2]);
    let c2 = string_of(cols[2].as_slice());
    let remote = match decode_hex_addr(c2.as_str()) {
        Some(r) => r,
        None => {
            return None;
        },
    };
    let is_tcp = str_eq(proto, "tcp");
    if is_tcp && cols.len() < 4 {
        return None;
    }
    if cols.len() < 8 {
        return None;
    }
    assert(cols@[7]@ == cv[7]);
    let uid = match parse_unsigned_chars(cols[7].as_slice(), 10, 0xffff_ffffu64) {
        Some(u) => u as u32,
        None => {
            return None;
        },
    };
    let state: &'static str = if is_tcp {
        assert(cols@[3]@ == cv[3]);
        let c3 = string_of(cols[3].as_slice());
        tcp_state(c3.as_str())
    } else {
        ""
    };
    let package = match uid_pkg.get(&uid) {
        Some(p) => Some(p.clone()),
        None => None,
    };
    Some(NetConnection { proto, local, remote, state, uid, package })
}

/// The sockets of a `/proc/net/*` listing: every row after the header that parses.
pub open spec fn proc_net_of(
    out: Seq<char>,
    proto: Seq<char>,
    uid_pkg: Map<u32, String>,
) -> Seq<NetConnectionView> {
    let ls = lines_of(out);
    if ls.len() == 0 {
        seq![]
    } else {
        somes(ls.skip(1).map_values(|l: Seq<char>| proc_net_row(l, proto, uid_pkg)))
    }
}

/// `/proc/net/tcp` (or `udp`) as [`NetConnection`]s: every row after the header that parses,
/// each socket's package looked up by its uid.
pub fn parse_proc_net(out: &str, proto: &'static str, uid_pkg: &HashMap<u32, String>) -> (r: Vec<NetConnection>)
    ensures
        conn_views(r@) == proc_net_of(out@, proto@, uid_pkg@),
{
    let cs = chars_of(out);
    let ls = lines(cs.as_slice());
    let ghost lv = lines_of(out@);
    let ghost opts = lv.skip(1).map_values(
        |l: Seq<char>| proc_net_row(l, proto@, uid_pkg@),
    );
    let mut r: Vec<NetConnection> = Vec::new();
    let n = ls.len();
    if n == 0 {
        return r;
    }
    let mut i: usize = 1;
    assert(opts.take(0) =~= Seq::<Option<NetConnectionView>>::empty());
    while i < n
        invariant
            1 <= i <= n,
            n == ls@.len(),
            views(ls@) == lv,
            opts == lv.skip(1).map_values(
                |l: Seq<char>| proc_net_row(l, proto@, uid_pkg@),
            ),
            conn_views(r@) == somes(opts.take(i - 1)),
        decreases n - i,
    {
        proof {
            lemma_somes_step(opts, i - 1);
        }
        assert(ls@[i as int]@ == lv[i as int]);
        assert(opts[i - 1] == proc_net_row(lv[i as int], proto@, uid_pkg@));
        match proc_net_row_exec(ls[i].as_slice(), proto, uid_pkg) {
            Some(c) => {
                let ghost before = conn_views(r@);
                r.push(c);
                assert(conn_views(r@) =~= before.push(c@));
            },
            None => {},
        }
        i = i + 1;
    }
    assert(opts.take(n - 1) =~= opts);
    r
}

} // verus!
