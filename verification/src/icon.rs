//! Icon encoding: the reordering of platform-native BGRA pixels into
//! canonical RGBA order, PNG encoding, and base64 text, the last two
//! through outside crates behind trusted wrappers.

use vstd::prelude::*;

use crate::model::Application;

verus! {

/// What the PNG encoder produces for given RGBA pixels and dimensions;
/// the encoding depends on these arguments alone.
pub uninterp spec fn png_of(rgba: Seq<u8>, width: nat, height: nat) -> Seq<u8>;

/// What the base64 encoder (standard alphabet, padded) produces for
/// given bytes; the encoding depends on the bytes alone.
pub uninterp spec fn base64_of(bytes: Seq<u8>) -> Seq<char>;

/// The largest input the base64 wrapper accepts; far below the length
/// at which computing the output size would overflow.
pub const BASE64_INPUT_LIMIT: usize = 0x30000000;

/// Relies on base64's `Engine::encode` with the `STANDARD` engine: the
/// output is a function of the input bytes alone, four characters for
/// every three input bytes, rounded up (the engine pads).
#[verifier::external_body]
fn base64_encode(bytes: &Vec<u8>) -> (r: String)
    requires
        bytes@.len() <= BASE64_INPUT_LIMIT,
    ensures
        r@ == base64_of(bytes@),
        r@.len() == 4 * ((bytes@.len() + 2) / 3),
{
    base64::Engine::encode(&base64::engine::general_purpose::STANDARD, bytes)
}

/// Relies on image's `ImageBuffer::from_raw`, which accepts a buffer of
/// exactly the size the dimensions ask for, and `ImageBuffer::write_to`
/// with the PNG format, whose output depends on the pixel bytes and the
/// dimensions alone and which, writing into an in-memory cursor, fails
/// only for a zero width or height.
#[verifier::external_body]
fn encode_png_rgba(rgba: Vec<u8>, width: u32, height: u32) -> (r: Option<Vec<u8>>)
    requires
        rgba@.len() == 4 * width * height,
    ensures
        r matches Some(p) ==> p@ == png_of(rgba@, width as nat, height as nat),
        width > 0 && height > 0 ==> r is Some,
{
    let img: image::ImageBuffer<image::Rgba<u8>, Vec<u8>> =
        match image::ImageBuffer::from_raw(width, height, rgba) {
            Some(i) => i,
            None => return None,
        };
    let mut buf = std::io::Cursor::new(Vec::new());
    match img.write_to(&mut buf, image::ImageFormat::Png) {
        Ok(()) => Some(buf.into_inner()),
        Err(_) => None,
    }
}

/// BGRA pixel bytes reordered to RGBA: within each four-byte pixel the
/// first and third channels swap, the rest stay.
pub open spec fn bgra_to_rgba(bgra: Seq<u8>) -> Seq<u8> {
    Seq::new(
        bgra.len(),
        |i: int|
            if i % 4 == 0 {
                bgra[i + 2]
            } else if i % 4 == 2 {
                bgra[i - 2]
            } else {
                bgra[i]
            },
    )
}

/// Reorders BGRA pixel data into canonical RGBA order.
pub fn bgra_to_rgba_bytes(bgra: &Vec<u8>) -> (r: Vec<u8>)
    requires
        bgra@.len() % 4 == 0,
    ensures
        r@ == bgra_to_rgba(bgra@),
{
    let n = bgra.len();
    let mut out: Vec<u8> = Vec::new();
    let mut i: usize = 0;
    while i < n
        invariant
            i <= n,
            i % 4 == 0,
            n == bgra@.len(),
            n % 4 == 0,
            out@.len() == i,
            forall|k: int| 0 <= k < i ==> out@[k] == bgra_to_rgba(bgra@)[k],
        decreases n - i,
    {
        proof {
            assert(i + 4 <= n) by {
                assert(n % 4 == 0 && i % 4 == 0 && i < n);
                assert((n - i) % 4 == 0) by {
                    assert(n % 4 == 0 && i % 4 == 0);
                };
            };
        }
        let b = bgra[i];
        let g = bgra[i + 1];
        let r = bgra[i + 2];
        let a = bgra[i + 3];
        out.push(r);
        out.push(g);
        out.push(b);
        out.push(a);
        proof {
            assert((i as int) % 4 == 0 && (i + 1) % 4 == 1 && (i + 2) % 4 == 2 && (i + 3) % 4
                == 3);
        }
        i = i + 4;
    }
    proof {
        assert(out@ =~= bgra_to_rgba(bgra@));
    }
    out
}

impl Application {
    /// Converts platform-native BGRA pixel data into PNG bytes. The
    /// conversion succeeds exactly when the buffer holds one 32-bit
    /// pixel per cell of the stated, positive dimensions; a buffer of
    /// the wrong size or an empty image yields `None`, never a panic.
    pub fn bgra_to_png(bgra: Vec<u8>, width: u32, height: u32) -> (r: Option<Vec<u8>>)
        requires
            bgra@.len() % 4 == 0,
        ensures
            match r {
                Some(p) => bgra@.len() == 4 * width * height && width > 0 && height > 0
                    && p@ == png_of(bgra_to_rgba(bgra@), width as nat, height as nat),
                None => bgra@.len() != 4 * width * height || width == 0 || height == 0,
            },
    {
        proof {
            let w = width as int;
            let h = height as int;
            assert(4 * w * h <= 4 * 0xffffffff * 0xffffffff) by (nonlinear_arith)
                requires
                    0 <= w <= 0xffffffff && 0 <= h <= 0xffffffff,
            ;
        }
        let exact = bgra.len() as u128 == 4u128 * (width as u128) * (height as u128);
        if !exact || width == 0 || height == 0 {
            return None;
        }
        let rgba = bgra_to_rgba_bytes(&bgra);
        match encode_png_rgba(rgba, width, height) {
            Some(p) => Some(p),
            None => {
                proof {
                    assert(false);
                }
                None
            },
        }
    }

    /// The desktop provider's icon-source preference: the icon the
    /// window answers the window-message protocol with is taken first;
    /// the icon stored on the window class is the fallback; a window
    /// with neither (both handles null) has no icon.
    pub fn select_window_icon(message_icon: usize, class_icon: usize) -> (r: Option<usize>)
        ensures
            message_icon != 0 ==> r == Some(message_icon),
            message_icon == 0 && class_icon != 0 ==> r == Some(class_icon),
            message_icon == 0 && class_icon == 0 ==> r is None,
    {
        if message_icon != 0 {
            Some(message_icon)
        } else if class_icon != 0 {
            Some(class_icon)
        } else {
            None
        }
    }

    /// Encodes already-produced image bytes (a PNG) as base64 text;
    /// `None` only for an input too large to encode at all.
    pub fn image_bytes_to_base64(data: Vec<u8>) -> (r: Option<String>)
        ensures
            match r {
                Some(s) => data@.len() <= BASE64_INPUT_LIMIT && s@ == base64_of(data@),
                None => data@.len() > BASE64_INPUT_LIMIT,
            },
    {
        if data.len() <= BASE64_INPUT_LIMIT {
            Some(base64_encode(&data))
        } else {
            None
        }
    }

    /// The whole icon pipeline from a platform-native BGRA bitmap: pixel
    /// reordering, PNG encoding, then base64 text. It succeeds exactly
    /// when the buffer matches the positive dimensions and the encoded
    /// image is small enough to encode as text; extraction stays
    /// best-effort, failure is `None`, never a panic.
    pub fn icon_base64_from_bgra(bgra: Vec<u8>, width: u32, height: u32) -> (r: Option<String>)
        requires
            bgra@.len() % 4 == 0,
        ensures
            ({
                let png = png_of(bgra_to_rgba(bgra@), width as nat, height as nat);
                match r {
                    Some(s) => bgra@.len() == 4 * width * height && width > 0 && height > 0
                        && png.len() <= BASE64_INPUT_LIMIT && s@ == base64_of(png),
                    None => bgra@.len() != 4 * width * height || width == 0 || height == 0
                        || png.len() > BASE64_INPUT_LIMIT,
                }
            }),
    {
        match Self::bgra_to_png(bgra, width, height) {
            Some(png) => Self::image_bytes_to_base64(png),
            None => None,
        }
    }
}

} // verus!
