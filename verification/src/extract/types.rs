//! Typed configuration for frame extraction: image format, output resolution and file naming.

use vstd::prelude::*;
use vstd::string::StrSliceExecFns;
use crate::filter::VideoFilterChain;
use crate::text::{dec, lemma_zero_padded_value, push_dec, push_zero_padded, zero_padded};

verus! {

/// Quality used for JPEG when a caller doesn't specify one.
pub const DEFAULT_JPEG_QUALITY: u8 = 90;

/// The image format (and quality) extracted frames are encoded to.
#[derive(Clone, Copy, Debug, PartialEq, Eq, Structural)]
pub enum ImageFormat {
    /// JPEG at the given quality (1–100).
    Jpeg {
        /// Encoder quality: 1 (smallest) – 100 (best).
        quality: u8,
    },
    /// Lossless PNG.
    Png,
}

impl Default for ImageFormat {
    fn default() -> (f: Self)
        ensures
            f == (ImageFormat::Jpeg { quality: DEFAULT_JPEG_QUALITY }),
    {
        ImageFormat::Jpeg { quality: DEFAULT_JPEG_QUALITY }
    }
}

/// `c` with ASCII upper-case letters mapped to lower case.
pub open spec fn ascii_lower(c: char) -> char {
    if 'A' <= c <= 'Z' {
        ((c as int) + 32) as char
    } else {
        c
    }
}

/// `s` with ASCII upper-case letters mapped to lower case.
pub open spec fn ascii_lower_seq(s: Seq<char>) -> Seq<char> {
    s.map_values(|c: char| ascii_lower(c))
}

/// The format a file-name extension names: `jpg`/`jpeg` (any ASCII case) is JPEG at the
/// default quality, `png` is PNG.
pub open spec fn spec_from_extension(ext: Seq<char>) -> Option<ImageFormat> {
    let l = ascii_lower_seq(ext);
    if l == "jpg"@ || l == "jpeg"@ {
        Some(ImageFormat::Jpeg { quality: DEFAULT_JPEG_QUALITY })
    } else if l == "png"@ {
        Some(ImageFormat::Png)
    } else {
        None
    }
}

/// The extension `std::path::Path::extension` finds in `path` (the part of the file name
/// after its last `.`), as text.
pub uninterp spec fn path_extension(path: Seq<char>) -> Option<Seq<char>>;

/// Calls `std::path::Path::extension` on `path`; the contract says the result is
/// [`path_extension`] of the path's text. Nothing more about how `std` splits a path is stated.
#[verifier::external_body]
fn extension_of(path: &str) -> (ext: Option<&str>)
    ensures
        ext matches Some(e) ==> path_extension(path@) == Some(e@),
        ext is None ==> path_extension(path@) is None,
{
    std::path::Path::new(path).extension().and_then(|e| e.to_str())
}

/// `true` when `s`, with ASCII letters lower-cased, equals `lit`.
fn eq_ascii_lowercase(s: &str, lit: &str) -> (b: bool)
    ensures
        b == (ascii_lower_seq(s@) == lit@),
{
    let n = s.unicode_len();
    let m = lit.unicode_len();
    if n != m {
        assert(ascii_lower_seq(s@).len() != lit@.len());
        return false;
    }
    let mut i: usize = 0;
    while i < n
        invariant
            n == s@.len(),
            m == lit@.len(),
            n == m,
            i <= n,
            forall|j: int| 0 <= j < i ==> ascii_lower(s@[j]) == lit@[j],
        decreases n - i,
    {
        let c = s.get_char(i);
        let t = lit.get_char(i);
        let matches = if 'A' <= c && c <= 'Z' {
            (c as u32) + 32 == (t as u32)
        } else {
            c == t
        };
        if !matches {
            assert(ascii_lower_seq(s@)[i as int] != lit@[i as int]);
            return false;
        }
        i = i + 1;
    }
    assert(ascii_lower_seq(s@) =~= lit@);
    true
}

impl ImageFormat {
    /// The conventional file extension for this format (without a leading dot).
    pub fn extension(self) -> (e: &'static str)
        ensures
            self is Jpeg ==> e@ == "jpg"@,
            self is Png ==> e@ == "png"@,
    {
        match self {
            ImageFormat::Jpeg { .. } => "jpg",
            ImageFormat::Png => "png",
        }
    }

    /// Infer a format from a file-name extension (`jpg`/`jpeg` → JPEG, `png` → PNG, in any
    /// ASCII case). JPEG defaults to quality 90.
    pub fn from_extension(ext: &str) -> (f: Option<Self>)
        ensures
            f == spec_from_extension(ext@),
    {
        proof {
            reveal_strlit("jpg");
            reveal_strlit("jpeg");
            reveal_strlit("png");
        }
        if eq_ascii_lowercase(ext, "jpg") || eq_ascii_lowercase(ext, "jpeg") {
            Some(ImageFormat::Jpeg { quality: DEFAULT_JPEG_QUALITY })
        } else if eq_ascii_lowercase(ext, "png") {
            Some(ImageFormat::Png)
        } else {
            None
        }
    }

    /// Infer a format from a path's extension.
    pub fn from_path(path: &str) -> (f: Option<Self>)
        ensures
            f == (match path_extension(path@) {
                Some(e) => spec_from_extension(e),
                None => None,
            }),
    {
        match extension_of(path) {
            Some(e) => Self::from_extension(e),
            None => None,
        }
    }
}

/// The output resolution of extracted frames.
#[derive(Clone, Copy, Debug, PartialEq, Eq, Structural)]
pub enum Resolution {
    /// Keep the source frame's dimensions.
    Original,
    /// Scale every frame to exactly `width`×`height`.
    Fixed(u32, u32),
}

impl Default for Resolution {
    fn default() -> (r: Self)
        ensures
            r == Resolution::Original,
    {
        Resolution::Original
    }
}

/// The filter description that turns decoded frames into packed RGB24 at `resolution`:
/// `format=rgb24`, preceded by `scale=W:H` for a fixed size.
pub open spec fn spec_rgb_conversion(resolution: Resolution) -> Seq<char> {
    match resolution {
        Resolution::Original => "format=rgb24"@,
        Resolution::Fixed(w, h) => "scale="@ + dec(w as nat) + ":"@ + dec(h as nat) + ",format=rgb24"@,
    }
}

/// The one-stage filter chain that converts decoded frames to packed RGB24 at `resolution`.
pub fn rgb_conversion_chain(resolution: Resolution) -> (c: VideoFilterChain)
    ensures
        c@ == seq![spec_rgb_conversion(resolution)],
{
    proof {
        reveal_strlit("format=rgb24");
        reveal_strlit("scale=");
        reveal_strlit(":");
        reveal_strlit(",format=rgb24");
    }
    match resolution {
        Resolution::Original => VideoFilterChain::raw("format=rgb24"),
        Resolution::Fixed(w, h) => {
            let mut s = String::from_str("scale=");
            push_dec(&mut s, w as u64);
            s.append(":");
            push_dec(&mut s, h as u64);
            s.append(",format=rgb24");
            assert(s@ =~= spec_rgb_conversion(resolution));
            VideoFilterChain::raw(s.as_str())
        },
    }
}

/// How output files are named within the destination directory.
#[derive(Clone, Debug)]
pub enum NamingScheme {
    /// `<prefix>_<index>.<ext>`, the index zero-padded to `padding` digits
    /// (e.g. `frame_0000.jpg`).
    Sequential {
        /// Filename stem before the index.
        prefix: String,
        /// Zero-padding width for the index.
        padding: usize,
    },
}

/// The file name of frame `index` with extension `ext` under a sequential scheme.
pub open spec fn sequential_name(prefix: Seq<char>, padding: nat, index: nat, ext: Seq<char>) -> Seq<char> {
    prefix + "_"@ + zero_padded(index, padding) + "."@ + ext
}

impl Default for NamingScheme {
    fn default() -> (n: Self)
        ensures
            n matches NamingScheme::Sequential { prefix, padding } && prefix@ == "frame"@
                && padding == 4,
    {
        NamingScheme::Sequential { prefix: String::from_str("frame"), padding: 4 }
    }
}

impl NamingScheme {
    /// The file name for the frame at `index`, using extension `ext`. An index wider than the
    /// padding is written in full.
    pub fn file_name(&self, index: u32, ext: &str) -> (name: String)
        ensures
            match self {
                NamingScheme::Sequential { prefix, padding } => name@ == sequential_name(
                    prefix@,
                    *padding as nat,
                    index as nat,
                    ext@,
                ),
            },
    {
        match self {
            NamingScheme::Sequential { prefix, padding } => {
                let mut name = prefix.clone();
                name.append("_");
                push_zero_padded(&mut name, index as u64, *padding);
                name.append(".");
                name.append(ext);
                name
            },
        }
    }
}

/// Different frames never share a file name: under one sequential scheme and extension, the
/// names of two different indices differ (the zero padding widens rather than truncates).
pub proof fn lemma_file_names_distinct(prefix: Seq<char>, padding: nat, i: nat, j: nat, ext: Seq<char>)
    requires
        i != j,
    ensures
        sequential_name(prefix, padding, i, ext) != sequential_name(prefix, padding, j, ext),
{
    let a = sequential_name(prefix, padding, i, ext);
    let b = sequential_name(prefix, padding, j, ext);
    let zi = zero_padded(i, padding);
    let zj = zero_padded(j, padding);
    reveal_strlit("_");
    reveal_strlit(".");
    let start: int = prefix.len() as int + 1;
    lemma_zero_padded_value(i, padding);
    lemma_zero_padded_value(j, padding);
    assert("_"@.len() == 1 && "."@.len() == 1);
    assert(a.len() == prefix.len() + 1 + zi.len() + 1 + ext.len());
    assert(b.len() == prefix.len() + 1 + zj.len() + 1 + ext.len());
    if a == b {
        assert(zi.len() == zj.len());
        assert(a.subrange(start, start + zi.len() as int) =~= zi);
        assert(b.subrange(start, start + zj.len() as int) =~= zj);
        assert(zi == zj);
    }
}

} // verus!
