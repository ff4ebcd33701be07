//! System images and their coordinates.
//!
//! An image is identified by its [`ImageCoord`], which renders to exactly the `sdkmanager`
//! package path, e.g. `system-images;android-34;google_apis_playstore;x86_64`. The tag strings
//! are what `sdkmanager` and `avdmanager` expect on the command line and print in their lists.

use vstd::prelude::*;
use vstd::string::*;

use crate::error::{parsed_as, CoreError};
use crate::text::{
    cat, cat3, chars_of, decimal, int_error, joined_by, lemma_split_join, int_error_message, int_error_text, is_digit,
    lemma_decimal_digits, lemma_parse_decimal, lemma_split_first_piece, lemma_split_no_sep,
    parse_unsigned, parse_unsigned_result, split_at_char, split_char, starts_with, str_eq,
    string_of, strip_prefix_chars, u64_to_string, views,
};

verus! {

/// The "type" segment of an image coordinate: which API surface the image ships.
#[derive(Debug, Clone, Copy, PartialEq, Eq, Hash, Structural)]
pub enum ImageType {
    /// `default`: AOSP, no Google apps.
    Default,
    /// `google_apis`: Google APIs, no Play Store.
    GoogleApis,
    /// `google_apis_playstore`: Google APIs and the Play Store.
    GoogleApisPlaystore,
    /// `android-wear`: Wear OS.
    AndroidWear,
    /// `android-tv`: Android TV.
    AndroidTv,
    /// `android-automotive`: Android Automotive OS.
    AndroidAutomotive,
    /// `android-automotive-playstore`: Automotive with the Play Store.
    AndroidAutomotivePlaystore,
}

/// The `sdkmanager` tag of an image type.
pub open spec fn image_type_tag(t: ImageType) -> Seq<char> {
    match t {
        ImageType::Default => "default"@,
        ImageType::GoogleApis => "google_apis"@,
        ImageType::GoogleApisPlaystore => "google_apis_playstore"@,
        ImageType::AndroidWear => "android-wear"@,
        ImageType::AndroidTv => "android-tv"@,
        ImageType::AndroidAutomotive => "android-automotive"@,
        ImageType::AndroidAutomotivePlaystore => "android-automotive-playstore"@,
    }
}

/// Reading an image type from its tag; an unknown tag is a parse error.
pub open spec fn image_type_parse(s: Seq<char>) -> Result<ImageType, (Seq<char>, Seq<char>)> {
    if s == "default"@ {
        Ok(ImageType::Default)
    } else if s == "google_apis"@ {
        Ok(ImageType::GoogleApis)
    } else if s == "google_apis_playstore"@ {
        Ok(ImageType::GoogleApisPlaystore)
    } else if s == "android-wear"@ {
        Ok(ImageType::AndroidWear)
    } else if s == "android-tv"@ {
        Ok(ImageType::AndroidTv)
    } else if s == "android-automotive"@ {
        Ok(ImageType::AndroidAutomotive)
    } else if s == "android-automotive-playstore"@ {
        Ok(ImageType::AndroidAutomotivePlaystore)
    } else {
        Err(("image type"@, "unknown tag `"@ + s + "`"@))
    }
}

impl ImageType {
    /// The `sdkmanager` tag string.
    pub fn tag(self) -> (r: &'static str)
        ensures
            r@ == image_type_tag(self),
    {
        match self {
            ImageType::Default => "default",
            ImageType::GoogleApis => "google_apis",
            ImageType::GoogleApisPlaystore => "google_apis_playstore",
            ImageType::AndroidWear => "android-wear",
            ImageType::AndroidTv => "android-tv",
            ImageType::AndroidAutomotive => "android-automotive",
            ImageType::AndroidAutomotivePlaystore => "android-automotive-playstore",
        }
    }

    /// `true` if the image bundles the Play Store.
    pub fn has_play_store(self) -> (r: bool)
        ensures
            r == (self == ImageType::GoogleApisPlaystore || self
                == ImageType::AndroidAutomotivePlaystore),
    {
        match self {
            ImageType::GoogleApisPlaystore | ImageType::AndroidAutomotivePlaystore => true,
            _ => false,
        }
    }

    /// The tag, as the type's display text.
    pub fn to_string(&self) -> (r: String)
        ensures
            r@ == image_type_tag(*self),
    {
        self.tag().to_owned()
    }

    /// Read an image type from its `sdkmanager` tag.
    pub fn from_str(s: &str) -> (r: Result<ImageType, CoreError>)
        ensures
            parsed_as(r, image_type_parse(s@)),
    {
        if str_eq(s, "default") {
            Ok(ImageType::Default)
        } else if str_eq(s, "google_apis") {
            Ok(ImageType::GoogleApis)
        } else if str_eq(s, "google_apis_playstore") {
            Ok(ImageType::GoogleApisPlaystore)
        } else if str_eq(s, "android-wear") {
            Ok(ImageType::AndroidWear)
        } else if str_eq(s, "android-tv") {
            Ok(ImageType::AndroidTv)
        } else if str_eq(s, "android-automotive") {
            Ok(ImageType::AndroidAutomotive)
        } else if str_eq(s, "android-automotive-playstore") {
            Ok(ImageType::AndroidAutomotivePlaystore)
        } else {
            let d = cat3("unknown tag `", s, "`");
            Err(CoreError::parse("image type", d.as_str()))
        }
    }
}

/// CPU architecture of a system image or AVD.
#[derive(Debug, Clone, Copy, PartialEq, Eq, Hash, Structural)]
pub enum Abi {
    /// `x86_64`: 64-bit Intel.
    X86_64,
    /// `arm64-v8a`: 64-bit ARM.
    Arm64V8a,
    /// `x86`: 32-bit Intel.
    X86,
    /// `armeabi-v7a`: 32-bit ARM.
    ArmeabiV7a,
}

/// The `sdkmanager` / `avdmanager` string of an ABI.
pub open spec fn abi_tag(a: Abi) -> Seq<char> {
    match a {
        Abi::X86_64 => "x86_64"@,
        Abi::Arm64V8a => "arm64-v8a"@,
        Abi::X86 => "x86"@,
        Abi::ArmeabiV7a => "armeabi-v7a"@,
    }
}

/// Reading an ABI from its string; an unknown one is a parse error.
pub open spec fn abi_parse(s: Seq<char>) -> Result<Abi, (Seq<char>, Seq<char>)> {
    if s == "x86_64"@ {
        Ok(Abi::X86_64)
    } else if s == "arm64-v8a"@ {
        Ok(Abi::Arm64V8a)
    } else if s == "x86"@ {
        Ok(Abi::X86)
    } else if s == "armeabi-v7a"@ {
        Ok(Abi::ArmeabiV7a)
    } else {
        Err(("abi"@, "unknown abi `"@ + s + "`"@))
    }
}

impl Abi {
    /// The `sdkmanager` / `avdmanager` abi string.
    pub fn tag(self) -> (r: &'static str)
        ensures
            r@ == abi_tag(self),
    {
        match self {
            Abi::X86_64 => "x86_64",
            Abi::Arm64V8a => "arm64-v8a",
            Abi::X86 => "x86",
            Abi::ArmeabiV7a => "armeabi-v7a",
        }
    }

    /// `true` for the 64-bit ABIs.
    pub fn is_64_bit(self) -> (r: bool)
        ensures
            r == (self == Abi::X86_64 || self == Abi::Arm64V8a),
    {
        match self {
            Abi::X86_64 | Abi::Arm64V8a => true,
            _ => false,
        }
    }

    /// The abi string, as the ABI's display text.
    pub fn to_string(&self) -> (r: String)
        ensures
            r@ == abi_tag(*self),
    {
        self.tag().to_owned()
    }

    /// Read an ABI from its string.
    pub fn from_str(s: &str) -> (r: Result<Abi, CoreError>)
        ensures
            parsed_as(r, abi_parse(s@)),
    {
        if str_eq(s, "x86_64") {
            Ok(Abi::X86_64)
        } else if str_eq(s, "arm64-v8a") {
            Ok(Abi::Arm64V8a)
        } else if str_eq(s, "x86") {
            Ok(Abi::X86)
        } else if str_eq(s, "armeabi-v7a") {
            Ok(Abi::ArmeabiV7a)
        } else {
            let d = cat3("unknown abi `", s, "`");
            Err(CoreError::parse("abi", d.as_str()))
        }
    }
}

/// The identity of a system image: API level, type and ABI.
#[derive(Debug, Clone, Copy, PartialEq, Eq, Hash, Structural)]
pub struct ImageCoord {
    /// Android API level, e.g. `34`.
    pub api: u32,
    /// Which API surface the image ships.
    pub image_type: ImageType,
    /// CPU architecture.
    pub abi: Abi,
}

/// The `sdkmanager` package path of a coordinate.
pub open spec fn coord_text(c: ImageCoord) -> Seq<char> {
    "system-images"@ + seq![';'] + ("android-"@ + decimal(c.api as nat)) + seq![';']
        + image_type_tag(c.image_type) + seq![';'] + abi_tag(c.abi)
}

/// Reading a coordinate from a package path: four `;`-separated segments, the literal
/// `system-images`, `android-` and a `u32` API level, an image type tag and an ABI.
pub open spec fn coord_parse(s: Seq<char>) -> Result<ImageCoord, (Seq<char>, Seq<char>)> {
    let parts = split_char(s, ';');
    let what = "image coordinate"@;
    if parts.len() != 4 {
        Err((what, "expected 4 `;`-separated segments, got "@ + decimal(parts.len())))
    } else if parts[0] != "system-images"@ {
        Err((what, "first segment must be `system-images`, got `"@ + parts[0] + "`"@))
    } else if !starts_with(parts[1], "android-"@) {
        Err((what, "second segment must be `android-<api>`, got `"@ + parts[1] + "`"@))
    } else {
        let level = parts[1].skip("android-"@.len() as int);
        match int_error(level, 10, u32::MAX as int) {
            Some(k) => Err((what, "bad API level: "@ + int_error_message(k))),
            None => match image_type_parse(parts[2]) {
                Err(e) => Err(e),
                Ok(t) => match abi_parse(parts[3]) {
                    Err(e) => Err(e),
                    Ok(a) => Ok(
                        ImageCoord {
                            api: parse_unsigned(level, 10, u32::MAX as int)->0 as u32,
                            image_type: t,
                            abi: a,
                        },
                    ),
                },
            },
        }
    }
}

impl ImageCoord {
    /// Construct a coordinate.
    pub fn new(api: u32, image_type: ImageType, abi: Abi) -> (r: Self)
        ensures
            r == (ImageCoord { api, image_type, abi }),
    {
        ImageCoord { api, image_type, abi }
    }

    /// The `sdkmanager` package path (the coordinate's display text).
    pub fn to_string(&self) -> (r: String)
        ensures
            r@ == coord_text(*self),
    {
        let level = u64_to_string(self.api as u64);
        let mut s = cat("system-images;android-", level.as_str());
        s.append(";");
        s.append(self.image_type.tag());
        s.append(";");
        s.append(self.abi.tag());
        proof {
            reveal_strlit("system-images;android-");
            reveal_strlit("system-images");
            reveal_strlit("android-");
            reveal_strlit(";");
            assert(s@ =~= coord_text(*self));
        }
        s
    }

    /// Read a coordinate from an `sdkmanager` package path.
    pub fn from_str(s: &str) -> (r: Result<ImageCoord, CoreError>)
        ensures
            parsed_as(r, coord_parse(s@)),
    {
        let cs = chars_of(s);
        let parts = split_at_char(cs.as_slice(), ';');
        let ghost ps = split_char(s@, ';');
        assert(views(parts@) == ps);
        assert(parts@.len() == ps.len());
        if parts.len() != 4 {
            let n = u64_to_string(parts.len() as u64);
            let d = cat("expected 4 `;`-separated segments, got ", n.as_str());
            return Err(CoreError::parse("image coordinate", d.as_str()));
        }
        assert(parts@[0]@ == ps[0]);
        assert(parts@[1]@ == ps[1]);
        assert(parts@[2]@ == ps[2]);
        assert(parts@[3]@ == ps[3]);
        let prefix = string_of(parts[0].as_slice());
        if !str_eq(prefix.as_str(), "system-images") {
            let d = cat3(
                "first segment must be `system-images`, got `",
                prefix.as_str(),
                "`",
            );
            return Err(CoreError::parse("image coordinate", d.as_str()));
        }
        let android = chars_of("android-");
        let level = match strip_prefix_chars(parts[1].as_slice(), android.as_slice()) {
            Some(l) => l,
            None => {
                let seg = string_of(parts[1].as_slice());
                let d = cat3(
                    "second segment must be `android-<api>`, got `",
                    seg.as_str(),
                    "`",
                );
                return Err(CoreError::parse("image coordinate", d.as_str()));
            },
        };
        let api = match parse_unsigned_result(level.as_slice(), 10, 0xffff_ffffu64) {
            Ok(v) => v as u32,
            Err(k) => {
                let e = int_error_text(k);
                let d = cat("bad API level: ", e.as_str());
                return Err(CoreError::parse("image coordinate", d.as_str()));
            },
        };
        let kind = string_of(parts[2].as_slice());
        let image_type = match ImageType::from_str(kind.as_str()) {
            Ok(t) => t,
            Err(e) => {
                return Err(e);
            },
        };
        let arch = string_of(parts[3].as_slice());
        let abi = match Abi::from_str(arch.as_str()) {
            Ok(a) => a,
            Err(e) => {
                return Err(e);
            },
        };
        Ok(ImageCoord { api, image_type, abi })
    }
}

/// A system image as `sdkmanager` reports it, plus the local install state.
#[derive(Debug, Clone, PartialEq, Eq)]
pub struct SystemImage {
    /// The identity of the image.
    pub coord: ImageCoord,
    /// Marketing Android version, e.g. `"14"`.
    pub android_version: String,
    /// Package revision, e.g. `"12"`.
    pub revision: String,
    /// Archive download size in bytes, when known.
    pub download_size_bytes: Option<u64>,
    /// Whether the image is present in the managed SDK directory (read from the filesystem,
    /// never from a cache).
    pub installed: bool,
}

/// Filter for listing system images.
#[derive(Debug, Clone, PartialEq, Eq)]
pub struct ImageFilter {
    /// Restrict to a single API level.
    pub api: Option<u32>,
    /// Restrict to a single image type.
    pub image_type: Option<ImageType>,
    /// Restrict to a single ABI.
    pub abi: Option<Abi>,
    /// Only images already installed locally.
    pub installed_only: bool,
}

impl Default for ImageFilter {
    fn default() -> (r: ImageFilter)
        ensures
            r.api is None && r.image_type is None && r.abi is None && !r.installed_only,
    {
        ImageFilter { api: None, image_type: None, abi: None, installed_only: false }
    }
}

/// No image type tag contains a `;`.
proof fn lemma_image_tag_no_semicolon(t: ImageType)
    ensures
        !image_type_tag(t).contains(';'),
        image_type_parse(image_type_tag(t)) == Ok::<ImageType, (Seq<char>, Seq<char>)>(t),
{
    reveal_strlit("default");
    reveal_strlit("google_apis");
    reveal_strlit("google_apis_playstore");
    reveal_strlit("android-wear");
    reveal_strlit("android-tv");
    reveal_strlit("android-automotive");
    reveal_strlit("android-automotive-playstore");
    // The tags have pairwise different lengths.
    assert("default"@.len() == 7);
    assert("google_apis"@.len() == 11);
    assert("google_apis_playstore"@.len() == 21);
    assert("android-wear"@.len() == 12);
    assert("android-tv"@.len() == 10);
    assert("android-automotive"@.len() == 18);
    assert("android-automotive-playstore"@.len() == 28);
    let s = image_type_tag(t);
    assert forall|i: int| 0 <= i < s.len() implies s[i] != ';' by {}
}

/// No ABI string contains a `;`.
proof fn lemma_abi_tag_no_semicolon(a: Abi)
    ensures
        !abi_tag(a).contains(';'),
        abi_parse(abi_tag(a)) == Ok::<Abi, (Seq<char>, Seq<char>)>(a),
{
    reveal_strlit("x86_64");
    reveal_strlit("arm64-v8a");
    reveal_strlit("x86");
    reveal_strlit("armeabi-v7a");
    // The strings have pairwise different lengths.
    assert("x86_64"@.len() == 6);
    assert("arm64-v8a"@.len() == 9);
    assert("x86"@.len() == 3);
    assert("armeabi-v7a"@.len() == 11);
    let s = abi_tag(a);
    assert forall|i: int| 0 <= i < s.len() implies s[i] != ';' by {}
}

/// Reading back an image type's tag gives the same image type.
pub proof fn lemma_image_type_round_trip(t: ImageType)
    ensures
        image_type_parse(image_type_tag(t)) == Ok::<ImageType, (Seq<char>, Seq<char>)>(t),
{
    lemma_image_tag_no_semicolon(t);
}

/// Reading back an ABI's string gives the same ABI.
pub proof fn lemma_abi_round_trip(a: Abi)
    ensures
        abi_parse(abi_tag(a)) == Ok::<Abi, (Seq<char>, Seq<char>)>(a),
{
    lemma_abi_tag_no_semicolon(a);
}

/// A coordinate's package path reads back as the same coordinate: display and parse are
/// inverse.
pub proof fn lemma_coord_round_trip(c: ImageCoord)
    ensures
        coord_parse(coord_text(c)) == Ok::<ImageCoord, (Seq<char>, Seq<char>)>(c),
{
    reveal_strlit("system-images");
    reveal_strlit("android-");
    let p0 = "system-images"@;
    let dec = decimal(c.api as nat);
    let p1 = "android-"@ + dec;
    let p2 = image_type_tag(c.image_type);
    let p3 = abi_tag(c.abi);
    lemma_image_tag_no_semicolon(c.image_type);
    lemma_abi_tag_no_semicolon(c.abi);
    lemma_decimal_digits(c.api as nat);
    assert forall|i: int| 0 <= i < p0.len() implies p0[i] != ';' by {}
    assert(!p0.contains(';'));
    assert forall|i: int| 0 <= i < p1.len() implies p1[i] != ';' by {
        if i >= 8 {
            assert(p1[i] == dec[i - 8]);
            assert(is_digit(dec[i - 8]));
        }
    }
    assert(!p1.contains(';'));
    let s = coord_text(c);
    let r2 = p2 + seq![';'] + p3;
    let r1 = p1 + seq![';'] + r2;
    assert(s =~= p0 + seq![';'] + r1);
    lemma_split_first_piece(p0, ';', r1);
    lemma_split_first_piece(p1, ';', r2);
    lemma_split_first_piece(p2, ';', p3);
    lemma_split_no_sep(p3, ';');
    let parts = split_char(s, ';');
    assert(parts =~= seq![p0, p1, p2, p3]);
    assert(starts_with(p1, "android-"@)) by {
        assert(p1.take(8) =~= "android-"@);
    }
    let level = p1.skip(8);
    assert(level =~= dec);
    lemma_parse_decimal(c.api as nat, u32::MAX as int);
}

/// A package path in canonical form: it reads as a coordinate, and its API level is written as
/// plain decimal (no sign, no leading zero).
pub open spec fn canonical_coord_text(s: Seq<char>) -> bool {
    let parts = split_char(s, ';');
    &&& coord_parse(s) is Ok
    &&& parts[1] == "android-"@ + decimal(parse_unsigned(parts[1].skip(8), 10, u32::MAX as int)->0 as nat)
}

/// Reading a canonical package path and writing the coordinate back gives the same text (a
/// non-canonical level such as `034` reads as 34 and writes back as `34`).
pub proof fn lemma_canonical_coord_text_round_trip(s: Seq<char>)
    requires
        canonical_coord_text(s),
    ensures
        coord_parse(s) matches Ok(c) && coord_text(c) == s,
{
    reveal_strlit("android-");
    reveal_strlit("system-images");
    let parts = split_char(s, ';');
    lemma_split_join(s, ';');
    assert(parts.len() == 4);
    let c = coord_parse(s)->Ok_0;
    let level = parts[1].skip("android-"@.len() as int);
    let v = parse_unsigned(level, 10, u32::MAX as int)->0;
    assert(c.api == v as u32);
    assert(0 <= v <= u32::MAX) by {
        crate::text::lemma_scan_digits_bound(crate::text::unsigned_digits(level), 10, u32::MAX as int);
    }
    assert(parts[2] == image_type_tag(c.image_type));
    assert(parts[3] == abi_tag(c.abi));
    let q1 = parts.drop_first();
    let q2 = q1.drop_first();
    let q3 = q2.drop_first();
    assert(q3.len() == 1 && q3[0] == parts[3]);
    assert(joined_by(q3, ';') == parts[3]);
    assert(q2[0] == parts[2] && q2.len() == 2);
    assert(joined_by(q2, ';') == parts[2] + seq![';'] + parts[3]);
    assert(q1[0] == parts[1] && q1.len() == 3);
    assert(joined_by(q1, ';') == parts[1] + seq![';'] + (parts[2] + seq![';'] + parts[3]));
    assert(joined_by(parts, ';') == parts[0] + seq![';'] + (parts[1] + seq![';'] + (parts[2]
        + seq![';'] + parts[3])));
    assert(coord_text(c) =~= s);
}

} // verus!
