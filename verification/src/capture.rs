//! Window capture: geometry validation, capture-file naming, and the
//! encoding of the captured pixels as an uncompressed 32-bit top-down
//! bitmap file. The pixel copy itself and the file write are the host's
//! work; everything here is a total function from plain values.

use vstd::prelude::*;

use crate::WindowHandle;
use crate::text::{dec_str, trim_chars, trim_str, u64_to_string};

verus! {

/// A window rectangle in screen coordinates.
#[derive(Clone, Copy, Debug, PartialEq, Eq, Structural)]
pub struct Rect {
    pub left: i32,
    pub top: i32,
    pub right: i32,
    pub bottom: i32,
}

/// Why a capture failed. Failures are never fatal to the caller: the
/// record's screenshot path degrades to absent.
#[derive(Clone, Copy, Debug, PartialEq, Eq, Structural)]
pub enum CaptureError {
    /// The window handle was null.
    InvalidHandle,
    /// The window rectangle had zero or negative width or height.
    InvalidGeometry,
    /// The screen-to-memory pixel block copy failed.
    PixelCopyFailed,
    /// The destination directory could not be created.
    DirectoryCreationFailed,
    /// The bitmap file could not be written.
    FileWriteFailed,
}

/// A character filesystems refuse in file names.
pub open spec fn is_illegal_char(c: char) -> bool {
    c == '<' || c == '>' || c == ':' || c == '"' || c == '/' || c == '\\' || c == '|' || c == '?'
        || c == '*'
}

fn is_illegal_exec(c: char) -> (r: bool)
    ensures
        r == is_illegal_char(c),
{
    c == '<' || c == '>' || c == ':' || c == '"' || c == '/' || c == '\\' || c == '|' || c == '?'
        || c == '*'
}

/// Every illegal character replaced by an underscore.
pub open spec fn replace_illegal(s: Seq<char>) -> Seq<char> {
    Seq::new(s.len(), |i: int| if is_illegal_char(s[i]) { '_' } else { s[i] })
}

/// The sanitized form of a title: illegal characters replaced, then
/// whitespace trimmed from both ends.
pub open spec fn sanitized(s: Seq<char>) -> Seq<char> {
    trim_chars(replace_illegal(s))
}

/// The capture file's name: sanitized title, an underscore, the
/// timestamp in decimal, and the bitmap extension.
pub open spec fn capture_file_name(safe_title: Seq<char>, timestamp: nat) -> Seq<char> {
    safe_title + "_"@ + dec_str(timestamp) + ".bmp"@
}

/// The title a capture file is named after: the window's, or a fixed
/// label when the window reports none.
pub open spec fn capture_title(title: Seq<char>) -> Seq<char> {
    if title.len() == 0 {
        "Unknown_Window"@
    } else {
        title
    }
}

/// Whether a window rectangle has a usable, positive area.
pub open spec fn valid_dims(r: Rect) -> bool {
    0 < r.right - r.left <= i32::MAX && 0 < r.bottom - r.top <= i32::MAX
}

/// What a capture will do, once the host has validated everything that
/// can be validated without touching the screen: the bitmap dimensions
/// and the file name to write.
pub struct CapturePlan {
    pub width: i32,
    pub height: i32,
    pub file_name: String,
}

/// The window-capture operations. The pixel copy and the file write
/// stay with the host; the naming, validation and encoding stand here.
pub struct WindowCapture;

impl WindowCapture {
    /// Replaces the characters filesystems refuse with underscores and
    /// trims surrounding whitespace.
    pub fn sanitize_filename(filename: &str) -> (r: String)
        ensures
            r@ == sanitized(filename@),
    {
        let len = filename.unicode_len();
        let mut out = String::new();
        let mut i: usize = 0;
        while i < len
            invariant
                i <= len,
                len == filename@.len(),
                out@.len() == i,
                forall|k: int|
                    0 <= k < i ==> out@[k] == (if is_illegal_char(filename@[k]) {
                        '_'
                    } else {
                        filename@[k]
                    }),
            decreases len - i,
        {
            let c = filename.get_char(i);
            if is_illegal_exec(c) {
                crate::text::push_char(&mut out, '_');
            } else {
                crate::text::push_char(&mut out, c);
            }
            i = i + 1;
        }
        proof {
            assert(out@ =~= replace_illegal(filename@));
        }
        trim_str(out.as_str())
    }

    /// Builds the capture file's name from the sanitized title and a
    /// Unix-epoch-seconds timestamp.
    pub fn generate_filename(safe_title: &str, timestamp: u64) -> (r: String)
        ensures
            r@ == capture_file_name(safe_title@, timestamp as nat),
    {
        let mut s = String::from_str(safe_title);
        s.append("_");
        let ts = u64_to_string(timestamp);
        s.append(ts.as_str());
        s.append(".bmp");
        s
    }

    /// Validates a window rectangle, returning its width and height, or
    /// the geometry error for an empty or degenerate area.
    pub fn validate_geometry(r: &Rect) -> (res: Result<(i32, i32), CaptureError>)
        ensures
            match res {
                Ok(d) => valid_dims(*r) && d.0 == r.right - r.left && d.1 == r.bottom - r.top,
                Err(e) => !valid_dims(*r) && e == CaptureError::InvalidGeometry,
            },
    {
        let w = r.right as i64 - r.left as i64;
        let h = r.bottom as i64 - r.top as i64;
        if w <= 0 || h <= 0 || w > i32::MAX as i64 || h > i32::MAX as i64 {
            Err(CaptureError::InvalidGeometry)
        } else {
            Ok((w as i32, h as i32))
        }
    }

    /// Everything a capture decides before touching the screen: rejects
    /// a null handle, rejects a zero-area rectangle, and fixes the
    /// dimensions and the file name. No file is written and no pixel is
    /// read on any error.
    pub fn capture_plan(
        handle: WindowHandle,
        rect: &Rect,
        title: &str,
        timestamp: u64,
    ) -> (res: Result<CapturePlan, CaptureError>)
        ensures
            match res {
                Ok(plan) => !handle.is_null() && valid_dims(*rect) && plan.width == rect.right
                    - rect.left && plan.height == rect.bottom - rect.top && plan.file_name@
                    == capture_file_name(sanitized(capture_title(title@)), timestamp as nat),
                Err(e) => (handle.is_null() && e == CaptureError::InvalidHandle) || (
                !handle.is_null() && !valid_dims(*rect) && e == CaptureError::InvalidGeometry),
            },
    {
        if handle.is_null() {
            return Err(CaptureError::InvalidHandle);
        }
        let dims = Self::validate_geometry(rect)?;
        let safe_title = if title.unicode_len() == 0 {
            Self::sanitize_filename("Unknown_Window")
        } else {
            Self::sanitize_filename(title)
        };
        let file_name = Self::generate_filename(safe_title.as_str(), timestamp);
        Ok(CapturePlan { width: dims.0, height: dims.1, file_name })
    }
}

/// The two bytes of a 16-bit value, least significant first.
pub open spec fn u16_le(n: u16) -> Seq<u8> {
    seq![(n & 0xff) as u8, ((n >> 8) & 0xff) as u8]
}

/// The four bytes of a 32-bit value, least significant first.
pub open spec fn u32_le(n: u32) -> Seq<u8> {
    seq![
        (n & 0xff) as u8,
        ((n >> 8) & 0xff) as u8,
        ((n >> 16) & 0xff) as u8,
        ((n >> 24) & 0xff) as u8,
    ]
}

/// The two's-complement bits of the negated height; a top-down bitmap
/// stores its height negated.
pub open spec fn neg_height_bits(h: u32) -> u32 {
    if h == 0 {
        0
    } else {
        (0x100000000 - h) as u32
    }
}

/// The 14-byte bitmap file header.
pub open spec fn bmp_file_header(file_size: u32) -> Seq<u8> {
    u16_le(0x4d42) + u32_le(file_size) + u16_le(0) + u16_le(0) + u32_le(54)
}

/// The 40-byte bitmap info header: top-down, one plane, 32 bits per
/// pixel, uncompressed.
pub open spec fn bmp_info_header(width: u32, height: u32, image_size: u32) -> Seq<u8> {
    u32_le(40) + u32_le(width) + u32_le(neg_height_bits(height)) + u16_le(1) + u16_le(32)
        + u32_le(0) + u32_le(image_size) + u32_le(0) + u32_le(0) + u32_le(0) + u32_le(0)
}

/// A whole bitmap file: both headers followed by the raw pixel rows.
pub open spec fn bmp_file(width: u32, height: u32, pixels: Seq<u8>) -> Seq<u8> {
    bmp_file_header((54 + pixels.len()) as u32) + bmp_info_header(
        width,
        height,
        pixels.len() as u32,
    ) + pixels
}

fn push_u16_le(v: &mut Vec<u8>, n: u16)
    ensures
        final(v)@ == old(v)@ + u16_le(n),
{
    proof {
        assert(n & 0xff < 256 && (n >> 8) & 0xff < 256) by (bit_vector);
    }
    let b0 = (n & 0xff) as u8;
    let b1 = ((n >> 8) & 0xff) as u8;
    v.push(b0);
    v.push(b1);
    proof {
        assert(v@ =~= old(v)@ + u16_le(n));
    }
}

fn push_u32_le(v: &mut Vec<u8>, n: u32)
    ensures
        final(v)@ == old(v)@ + u32_le(n),
{
    proof {
        assert(n & 0xff < 256 && (n >> 8) & 0xff < 256 && (n >> 16) & 0xff < 256 && (n >> 24)
            & 0xff < 256) by (bit_vector);
    }
    let b0 = (n & 0xff) as u8;
    let b1 = ((n >> 8) & 0xff) as u8;
    let b2 = ((n >> 16) & 0xff) as u8;
    let b3 = ((n >> 24) & 0xff) as u8;
    v.push(b0);
    v.push(b1);
    v.push(b2);
    v.push(b3);
    proof {
        assert(v@ =~= old(v)@ + u32_le(n));
    }
}

impl WindowCapture {
    /// Encodes captured pixels as an uncompressed, top-down, 32-bit
    /// bitmap file: file header, info header, then the raw pixel rows.
    pub fn bmp_file_bytes(width: u32, height: u32, pixels: &Vec<u8>) -> (r: Vec<u8>)
        requires
            1 <= width,
            1 <= height,
            pixels@.len() == 4 * width * height,
            54 + pixels@.len() <= u32::MAX,
        ensures
            r@ == bmp_file(width, height, pixels@),
            r@.len() == 54 + pixels@.len(),
            r@.subrange(54, r@.len() as int) == pixels@,
    {
        let image_size: u32 = pixels.len() as u32;
        let file_size: u32 = 54 + image_size;
        let mut out: Vec<u8> = Vec::new();
        push_u16_le(&mut out, 0x4d42);
        push_u32_le(&mut out, file_size);
        push_u16_le(&mut out, 0);
        push_u16_le(&mut out, 0);
        push_u32_le(&mut out, 54);
        proof {
            assert(out@ =~= bmp_file_header(file_size));
        }
        let ghost fh = out@;
        push_u32_le(&mut out, 40);
        push_u32_le(&mut out, width);
        let neg_h: u32 = (0x100000000u64 - height as u64) as u32;
        proof {
            assert(neg_h == neg_height_bits(height));
        }
        push_u32_le(&mut out, neg_h);
        push_u16_le(&mut out, 1);
        push_u16_le(&mut out, 32);
        push_u32_le(&mut out, 0);
        push_u32_le(&mut out, image_size);
        push_u32_le(&mut out, 0);
        push_u32_le(&mut out, 0);
        push_u32_le(&mut out, 0);
        push_u32_le(&mut out, 0);
        proof {
            assert(out@ =~= fh + bmp_info_header(width, height, image_size));
        }
        let ghost headers = out@;
        let n = pixels.len();
        let mut i: usize = 0;
        while i < n
            invariant
                i <= n,
                n == pixels@.len(),
                out@ == headers + pixels@.take(i as int),
            decreases n - i,
        {
            let b = pixels[i];
            out.push(b);
            proof {
                assert(headers + pixels@.take(i as int) + seq![pixels@[i as int]] =~= headers
                    + pixels@.take(i + 1));
            }
            i = i + 1;
        }
        proof {
            assert(pixels@.take(n as int) =~= pixels@);
            assert(out@ =~= bmp_file(width, height, pixels@));
            assert(out@.subrange(54, out@.len() as int) =~= pixels@);
        }
        out
    }
}

/// Distinct sanitized titles give distinct capture file names in the
/// same second: the file name determines the title it was built from.
pub proof fn lemma_filename_uniqueness(t1: Seq<char>, t2: Seq<char>, timestamp: nat)
    requires
        t1 != t2,
    ensures
        capture_file_name(t1, timestamp) != capture_file_name(t2, timestamp),
{
    let e = "_"@ + dec_str(timestamp) + ".bmp"@;
    assert(capture_file_name(t1, timestamp) =~= t1 + e);
    assert(capture_file_name(t2, timestamp) =~= t2 + e);
    if capture_file_name(t1, timestamp) == capture_file_name(t2, timestamp) {
        assert(t1.len() == t2.len());
        assert forall|i: int| 0 <= i < t1.len() implies t1[i] == t2[i] by {
            assert((t1 + e)[i] == t1[i]);
            assert((t2 + e)[i] == t2[i]);
        }
        assert(t1 =~= t2);
    }
}

} // verus!
