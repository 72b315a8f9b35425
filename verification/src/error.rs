//! Error types and the FFmpeg return-code conventions.
//!
//! FFmpeg reports failures as negative `int` return codes. [`check`] turns such a code into a
//! [`Result`]. A few values that FFmpeg only exposes as C macros (`AVERROR_EOF`, `EAGAIN`,
//! `AVERROR_EAGAIN`) are defined here, together with the tag arithmetic they are built from.

use vstd::prelude::*;

verus! {

/// The crate-wide result type.
pub type Result<T> = std::result::Result<T, Error>;

/// Errors returned by the library.
#[derive(Debug)]
pub enum Error {
    /// The requested codec is not present in this FFmpeg build.
    CodecUnavailable(String),
    /// The input has no video stream but the operation requires one.
    NoVideoStream,
    /// The input has no audio stream but the operation requires one.
    NoAudioStream,
    /// The requested stream index does not exist.
    StreamOutOfRange(usize),
    /// A resolution the chosen codec cannot encode.
    UnsupportedResolution {
        /// Requested width in pixels.
        width: i32,
        /// Requested height in pixels.
        height: i32,
    },
    /// The input could not be opened.
    OpenInput(String),
    /// The output could not be created.
    CreateOutput(String),
    /// A heap allocation inside FFmpeg returned null.
    AllocFailed(&'static str),
    /// The builder/config was used incorrectly (missing required field, etc.).
    InvalidConfig(&'static str),
    /// A path contained an interior NUL byte.
    InvalidPath,
    /// Encoding a decoded frame to an image failed.
    ImageEncode(String),
    /// A raw FFmpeg error code plus its decoded message.
    Internal {
        /// The negative `AVERROR` code FFmpeg returned.
        code: i32,
        /// The human-readable message (empty until decoded at the FFmpeg boundary).
        message: String,
    },
}

/// `e` is the internal error carrying return code `code`.
pub open spec fn is_internal_code(e: Error, code: i32) -> bool {
    e matches Error::Internal { code: c, message } && c == code && message@ == Seq::<char>::empty()
}

impl Error {
    /// Build an [`Error::Internal`] from a raw FFmpeg return code. The message text is left
    /// empty here; `av_strerror` decodes it where the FFmpeg libraries are linked.
    pub fn from_code(code: i32) -> (e: Self)
        ensures
            is_internal_code(e, code),
    {
        Error::Internal { code, message: String::new() }
    }
}

/// Convert an FFmpeg return code into a `Result`: `code < 0` is an error, `>= 0` is `Ok`.
pub fn check(code: i32) -> (r: Result<()>)
    ensures
        r is Ok <==> code >= 0,
        r matches Err(e) ==> is_internal_code(e, code),
{
    if code < 0 {
        Err(Error::from_code(code))
    } else {
        Ok(())
    }
}

/// A path can be handed to FFmpeg only if it holds no NUL character.
pub fn check_path(path: &str) -> (r: Result<()>)
    ensures
        path@.contains('\0') ==> r matches Err(Error::InvalidPath),
        !path@.contains('\0') ==> r is Ok,
{
    let n = path.unicode_len();
    let mut i: usize = 0;
    while i < n
        invariant
            n == path@.len(),
            i <= n,
            forall|j: int| 0 <= j < i ==> path@[j] != '\0',
        decreases n - i,
    {
        if path.get_char(i) == '\0' {
            return Err(Error::InvalidPath);
        }
        i = i + 1;
    }
    Ok(())
}

/// `AVERROR(e)` wraps a positive `errno` value into FFmpeg's negative error space.
pub fn averror(e: i32) -> (r: i32)
    requires
        e != i32::MIN,
    ensures
        r == -e,
{
    -e
}

/// The value of `MKTAG(a, b, c, d)`: the four bytes packed little-endian into 32 bits and
/// read back as a signed `i32`.
pub open spec fn spec_mktag(a: u8, b: u8, c: u8, d: u8) -> int {
    let v = a + 256 * b + 65536 * c + 16777216 * d;
    if v < 0x8000_0000 {
        v
    } else {
        v - 0x1_0000_0000
    }
}

/// `MKTAG(a, b, c, d)` — packs four bytes into a little-endian tag, matching FFmpeg.
pub fn mktag(a: u8, b: u8, c: u8, d: u8) -> (r: i32)
    ensures
        r == spec_mktag(a, b, c, d),
{
    let v: u32 = (a as u32) | ((b as u32) << 8) | ((c as u32) << 16) | ((d as u32) << 24);
    assert(v == a + 256 * b + 65536 * c + 16777216 * d) by (bit_vector)
        requires
            v == (a as u32) | ((b as u32) << 8) | ((c as u32) << 16) | ((d as u32) << 24),
    ;
    assert((v as i32) == (if v < 0x8000_0000u32 { v as int } else { v - 0x1_0000_0000 })) by (bit_vector);
    v as i32
}

/// `FFERRTAG(a, b, c, d)` — the negated tag form FFmpeg uses for sentinel error codes.
pub fn fferrtag(a: u8, b: u8, c: u8, d: u8) -> (r: i32)
    requires
        spec_mktag(a, b, c, d) != i32::MIN,
    ensures
        r == -spec_mktag(a, b, c, d),
{
    -mktag(a, b, c, d)
}

/// End of file / end of stream (`AVERROR_EOF`, i.e. `FFERRTAG('E','O','F',' ')`).
pub const AVERROR_EOF: i32 = -541478725;

/// `EAGAIN` (resource temporarily unavailable) as numbered by Linux and the MSVC/UCRT C
/// runtime.
pub const EAGAIN: i32 = 11;

/// `EAGAIN` as macOS, iOS and the BSDs number it.
pub const EAGAIN_BSD: i32 = 35;

/// `AVERROR(EAGAIN)` — the "needs more input" sentinel from the send/receive APIs, on Linux
/// and Windows.
pub const AVERROR_EAGAIN: i32 = -11;

/// `AV_NOPTS_VALUE` — the "timestamp unknown" sentinel.
pub const AV_NOPTS_VALUE: i64 = i64::MIN;

/// The sentinel constants are the values of the macros they stand for.
pub proof fn lemma_sentinels()
    ensures
        AVERROR_EOF == -spec_mktag(69u8, 79u8, 70u8, 32u8),
        AVERROR_EAGAIN == -EAGAIN,
{
}

} // verus!
