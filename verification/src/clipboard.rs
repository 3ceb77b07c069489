//! Clipboard image extraction.
//!
//! The clipboard command hands the front end a list holding exactly one
//! base64 data URI. A snapshot of the clipboard's raw RGBA pixels — taken
//! by the platform layer — is reconstructed into a pixel buffer, encoded
//! as a PNG container and wrapped as a data URI. On any failure (no
//! snapshot, byte count not matching the dimensions, encoder refusal) the
//! command absorbs the error and returns a fixed, hardcoded minimal PNG
//! placeholder instead: callers always receive a usable image payload,
//! never an error.

use vstd::prelude::*;
use vstd::string::StrSliceExecFns;
use vstd::string::StringExecFns;

verus! {

/// A clipboard image snapshot: the reported dimensions and the raw RGBA
/// bytes, captured once and converted once.
pub struct ClipboardImage {
    pub width: usize,
    pub height: usize,
    pub bytes: Vec<u8>,
}

/// The failures the conversion path can meet; all of them are absorbed
/// behind the placeholder fallback, none reaches the caller.
#[derive(Clone, Copy, Debug, PartialEq, Eq, Structural)]
pub enum ClipboardError {
    /// The byte count does not match the reported dimensions, or the
    /// dimensions do not fit the encoder's range.
    DimensionMismatch,
    /// The PNG encoder refused the image.
    EncodeFailed,
}

/// Whether a snapshot can be reconstructed at all: the byte count is
/// exactly four bytes per reported pixel, and the dimensions are in the
/// encoder's range.
pub open spec fn spec_snapshot_fits(width: nat, height: nat, len: nat) -> bool {
    &&& len == width * height * 4
    &&& width <= u32::MAX
    &&& height <= u32::MAX
}

/// What the base64 crate's STANDARD engine returns for these bytes.
pub uninterp spec fn base64_of(bytes: Seq<u8>) -> Seq<char>;

/// A character of the padded standard base64 alphabet.
pub open spec fn is_base64_char(c: char) -> bool {
    ||| 'A' <= c && c <= 'Z'
    ||| 'a' <= c && c <= 'z'
    ||| '0' <= c && c <= '9'
    ||| c == '+'
    ||| c == '/'
    ||| c == '='
}

/// Relies on base64's Engine::encode with the STANDARD engine: the
/// standard alphabet with '=' padding. The output depends on the input
/// bytes alone; it is four characters for every started group of three
/// bytes, each from the padded standard alphabet. The engine panics when
/// the encoded length overflows usize, so inputs that long are excluded.
#[verifier::external_body]
fn base64_encode(bytes: &Vec<u8>) -> (r: String)
    requires
        bytes@.len() <= usize::MAX / 4,
    ensures
        r@ == base64_of(bytes@),
        r@.len() == 4 * ((bytes@.len() + 2) / 3),
        forall|i: int| 0 <= i < r@.len() ==> is_base64_char(r@[i]),
{
    base64::Engine::encode(&base64::engine::general_purpose::STANDARD, bytes.as_slice())
}

/// What the image crate's PNG encoder returns for an RGBA pixel buffer of
/// these dimensions.
pub uninterp spec fn png_of(width: nat, height: nat, rgba: Seq<u8>) -> Seq<u8>;

/// Relies on image::RgbaImage::from_raw — which succeeds when the buffer
/// holds at least the four bytes per pixel the dimensions call for, here
/// exactly — and on ImageBuffer::write_to with the PNG format: the
/// encoded container depends on the dimensions and pixels alone. With an
/// in-memory writer, a matching buffer and the 8-bit RGBA colour type,
/// the PNG encoder refuses only zero dimensions, so encoding succeeds
/// whenever both dimensions are nonzero; refusal is surfaced as None,
/// never a panic.
#[verifier::external_body]
fn encode_rgba_as_png(width: u32, height: u32, rgba: Vec<u8>) -> (r: Option<Vec<u8>>)
    requires
        rgba@.len() == width * height * 4,
    ensures
        r matches Some(p) ==> p@ == png_of(width as nat, height as nat, rgba@),
        width >= 1 && height >= 1 ==> r is Some,
{
    let img = match image::RgbaImage::from_raw(width, height, rgba) {
        Some(img) => img,
        None => return None,
    };
    let mut out: Vec<u8> = Vec::new();
    let mut cursor = std::io::Cursor::new(&mut out);
    match img.write_to(&mut cursor, image::ImageFormat::Png) {
        Ok(()) => Some(out),
        Err(_) => None,
    }
}

/// The compute half of the clipboard read: reconstructs the pixel buffer
/// from the snapshot and encodes it as a PNG container. Fails exactly
/// when the byte count does not match the dimensions or the dimensions
/// are out of range, or — only for a zero dimension — when the encoder
/// refuses the image; every fitting snapshot with nonzero dimensions
/// encodes.
pub fn encode_snapshot(img: ClipboardImage) -> (r: Result<Vec<u8>, ClipboardError>)
    ensures
        !spec_snapshot_fits(img.width as nat, img.height as nat, img.bytes@.len()) ==> r == Err::<
            Vec<u8>,
            ClipboardError,
        >(ClipboardError::DimensionMismatch),
        spec_snapshot_fits(img.width as nat, img.height as nat, img.bytes@.len()) ==> match r {
            Ok(p) => p@ == png_of(img.width as nat, img.height as nat, img.bytes@),
            Err(e) => e == ClipboardError::EncodeFailed,
        },
        spec_snapshot_fits(img.width as nat, img.height as nat, img.bytes@.len()) && img.width >= 1
            && img.height >= 1 ==> r is Ok,
{
    let u32_max: usize = u32::MAX as usize;
    let blen: usize = img.bytes.len();
    if img.width > u32_max || img.height > u32_max {
        return Err(ClipboardError::DimensionMismatch);
    }
    match img.width.checked_mul(img.height) {
        Some(p) => match p.checked_mul(4) {
            Some(n) => {
                if n != blen {
                    return Err(ClipboardError::DimensionMismatch);
                }
                let w = img.width as u32;
                let h = img.height as u32;
                match encode_rgba_as_png(w, h, img.bytes) {
                    Some(png) => Ok(png),
                    None => Err(ClipboardError::EncodeFailed),
                }
            },
            None => {
                proof {
                    assert(img.width * img.height * 4 == p * 4);
                    assert(blen <= usize::MAX < img.width * img.height * 4);
                }
                Err(ClipboardError::DimensionMismatch)
            },
        },
        None => {
            proof {
                assert(img.width * img.height * 4 >= img.width * img.height) by (nonlinear_arith);
                assert(blen <= usize::MAX < img.width * img.height * 4);
            }
            Err(ClipboardError::DimensionMismatch)
        },
    }
}

/// The bytes of the hardcoded minimal placeholder PNG: signature, IHDR,
/// one small IDAT, IEND.
pub open spec fn spec_sample_png() -> Seq<u8> {
    seq![
        0x89u8,
        0x50,
        0x4e,
        0x47,
        0x0d,
        0x0a,
        0x1a,
        0x0a,
        0x00,
        0x00,
        0x00,
        0x0d,
        0x49,
        0x48,
        0x44,
        0x52,
        0x00,
        0x00,
        0x00,
        0x64,
        0x00,
        0x00,
        0x00,
        0x64,
        0x08,
        0x02,
        0x00,
        0x00,
        0x00,
        0x9a,
        0x9c,
        0x18,
        0x00,
        0x00,
        0x00,
        0x00,
        0x0a,
        0x49,
        0x44,
        0x41,
        0x54,
        0x78,
        0x9c,
        0x63,
        0x64,
        0x00,
        0x00,
        0x00,
        0x04,
        0x00,
        0x01,
        0x00,
        0x00,
        0x00,
        0x00,
        0x00,
        0x00,
        0x00,
        0x00,
        0x49,
        0x45,
        0x4e,
        0x44,
        0xae,
        0x42,
        0x60,
        0x82,
    ]
}

/// The placeholder image returned when no clipboard image can be had: a
/// fixed minimal PNG. The reported dimensions are accepted for interface
/// compatibility and ignored; the placeholder is always the same bytes,
/// beginning with the PNG signature.
pub fn create_sample_image(_width: u32, _height: u32) -> (r: Vec<u8>)
    ensures
        r@ == spec_sample_png(),
{
    let png_data: Vec<u8> = vec![
        0x89, 0x50, 0x4e, 0x47, 0x0d, 0x0a, 0x1a, 0x0a, 0x00, 0x00, 0x00, 0x0d, 0x49, 0x48, 0x44,
        0x52, 0x00, 0x00, 0x00, 0x64, 0x00, 0x00, 0x00, 0x64, 0x08, 0x02, 0x00, 0x00, 0x00, 0x9a,
        0x9c, 0x18, 0x00, 0x00, 0x00, 0x00, 0x0a, 0x49, 0x44, 0x41, 0x54, 0x78, 0x9c, 0x63, 0x64,
        0x00, 0x00, 0x00, 0x04, 0x00, 0x01, 0x00, 0x00, 0x00, 0x00, 0x00, 0x00, 0x00, 0x00, 0x49,
        0x45, 0x4e, 0x44, 0xae, 0x42, 0x60, 0x82,
    ];
    proof {
        assert(png_data@ =~= spec_sample_png());
    }
    png_data
}

/// Whether two string slices hold the same characters.
fn str_eq(a: &str, b: &str) -> (r: bool)
    ensures
        r == (a@ == b@),
{
    let an = a.unicode_len();
    let bn = b.unicode_len();
    if an != bn {
        return false;
    }
    let mut i: usize = 0;
    while i < an
        invariant
            i <= an,
            an == a@.len(),
            an == b@.len(),
            forall|j: int| 0 <= j < i ==> a@[j] == b@[j],
        decreases an - i,
    {
        if a.get_char(i) != b.get_char(i) {
            return false;
        }
        i += 1;
    }
    proof {
        assert(a@ =~= b@);
    }
    true
}

/// The MIME type inferred from a format hint: one of a fixed small set,
/// PNG when the hint is unrecognized.
pub open spec fn spec_mime_for_hint(hint: Seq<char>) -> Seq<char> {
    if hint == "jpeg"@ || hint == "jpg"@ {
        "image/jpeg"@
    } else if hint == "png"@ {
        "image/png"@
    } else if hint == "bmp"@ {
        "image/bmp"@
    } else if hint == "gif"@ {
        "image/gif"@
    } else if hint == "webp"@ {
        "image/webp"@
    } else {
        "image/png"@
    }
}

/// A MIME type naming an image: it begins with "image/".
pub open spec fn is_image_mime(mime: Seq<char>) -> bool {
    "image/"@.len() <= mime.len() && mime.take("image/"@.len() as int) == "image/"@
}

/// Every MIME type the hint inference returns names an image.
pub proof fn lemma_mime_for_hint_is_image(hint: Seq<char>)
    ensures
        is_image_mime(spec_mime_for_hint(hint)),
{
    reveal_strlit("image/");
    reveal_strlit("image/jpeg");
    reveal_strlit("image/png");
    reveal_strlit("image/bmp");
    reveal_strlit("image/gif");
    reveal_strlit("image/webp");
    assert("image/jpeg"@.take("image/"@.len() as int) =~= "image/"@);
    assert("image/png"@.take("image/"@.len() as int) =~= "image/"@);
    assert("image/bmp"@.take("image/"@.len() as int) =~= "image/"@);
    assert("image/gif"@.take("image/"@.len() as int) =~= "image/"@);
    assert("image/webp"@.take("image/"@.len() as int) =~= "image/"@);
}

/// Infers the data URI's MIME type from a format hint.
pub fn mime_for_hint(hint: &str) -> (r: &'static str)
    ensures
        r@ == spec_mime_for_hint(hint@),
{
    if str_eq(hint, "jpeg") || str_eq(hint, "jpg") {
        "image/jpeg"
    } else if str_eq(hint, "png") {
        "image/png"
    } else if str_eq(hint, "bmp") {
        "image/bmp"
    } else if str_eq(hint, "gif") {
        "image/gif"
    } else if str_eq(hint, "webp") {
        "image/webp"
    } else {
        "image/png"
    }
}

/// The data URI wrapping a payload under a MIME type.
pub open spec fn spec_data_uri(mime: Seq<char>, payload: Seq<u8>) -> Seq<char> {
    "data:"@ + mime + ";base64,"@ + base64_of(payload)
}

/// A syntactically valid image data URI: it begins with "data:image/",
/// holds the ";base64," marker, and after the marker only characters of
/// the padded standard base64 alphabet.
pub open spec fn is_image_data_uri(s: Seq<char>) -> bool {
    &&& "data:image/"@.len() <= s.len()
    &&& s.take("data:image/"@.len() as int) == "data:image/"@
    &&& exists|k: int|
        {
            &&& "data:image/"@.len() <= k
            &&& k + ";base64,"@.len() <= s.len()
            &&& #[trigger] s.subrange(k, k + ";base64,"@.len()) == ";base64,"@
            &&& forall|i: int| k + ";base64,"@.len() <= i < s.len() ==> is_base64_char(s[i])
        }
}

/// A data URI built from an image MIME type and a base64 body drawn from
/// the alphabet is a syntactically valid image data URI.
pub proof fn lemma_data_uri_shape(mime: Seq<char>, payload: Seq<u8>)
    requires
        is_image_mime(mime),
        forall|i: int| 0 <= i < base64_of(payload).len() ==> is_base64_char(
            #[trigger] base64_of(payload)[i],
        ),
    ensures
        is_image_data_uri(spec_data_uri(mime, payload)),
{
    reveal_strlit("data:");
    reveal_strlit("image/");
    reveal_strlit("data:image/");
    reveal_strlit(";base64,");
    let s = spec_data_uri(mime, payload);
    let b = base64_of(payload);
    assert(s.len() == 5 + mime.len() + 8 + b.len());
    assert forall|i: int| 0 <= i < 11 implies s[i] == "data:image/"@[i] by {
        if i < 5 {
            assert(s[i] == "data:"@[i]);
        } else {
            assert(s[i] == mime[i - 5]);
            assert(mime.take(6) == "image/"@);
            assert(mime[i - 5] == mime.take(6)[i - 5]);
        }
    }
    assert(s.take(11) =~= "data:image/"@);
    let k: int = 5 + mime.len() as int;
    assert forall|i: int| 0 <= i < 8 implies s[k + i] == ";base64,"@[i] by {
    }
    assert(s.subrange(k, k + 8) =~= ";base64,"@);
    assert forall|i: int| k + 8 <= i < s.len() implies is_base64_char(s[i]) by {
        assert(s[i] == b[i - k - 8]);
    }
    assert({
        &&& "data:image/"@.len() <= k
        &&& k + ";base64,"@.len() <= s.len()
        &&& s.subrange(k, k + ";base64,"@.len()) == ";base64,"@
        &&& forall|i: int| k + ";base64,"@.len() <= i < s.len() ==> is_base64_char(s[i])
    });
}

/// Wraps an encoded image as a base64 data URI under the given MIME type.
pub fn make_data_uri(mime: &str, payload: &Vec<u8>) -> (r: String)
    requires
        payload@.len() <= usize::MAX / 4,
    ensures
        r@ == spec_data_uri(mime@, payload@),
        is_image_mime(mime@) ==> is_image_data_uri(r@),
{
    let mut s = String::from_str("data:");
    s.append(mime);
    s.append(";base64,");
    let body = base64_encode(payload);
    s.append(body.as_str());
    proof {
        assert(s@ =~= spec_data_uri(mime@, payload@));
        if is_image_mime(mime@) {
            lemma_data_uri_shape(mime@, payload@);
        }
    }
    s
}

/// The data URI returned when no clipboard image can be had: the
/// placeholder PNG under the PNG MIME type.
pub open spec fn spec_fallback_data_uri() -> Seq<char> {
    spec_data_uri("image/png"@, spec_sample_png())
}

/// Builds the fallback data URI around the placeholder PNG.
fn fallback_data_uri() -> (r: String)
    ensures
        r@ == spec_fallback_data_uri(),
        is_image_data_uri(r@),
{
    let png = create_sample_image(100, 100);
    proof {
        reveal_strlit("image/png");
        reveal_strlit("image/");
        assert("image/png"@.take("image/"@.len() as int) =~= "image/"@);
    }
    make_data_uri("image/png", &png)
}

/// The clipboard command: always a list of exactly one syntactically
/// valid image data URI, never an error. A fitting snapshot with nonzero
/// dimensions is returned as its own PNG data URI; on any failure — no
/// snapshot, byte count not matching the dimensions, a zero dimension
/// that the encoder refuses — the fixed placeholder data URI is returned
/// instead.
pub fn get_clipboard_images(snapshot: Option<ClipboardImage>) -> (r: Vec<String>)
    ensures
        r@.len() == 1,
        is_image_data_uri(r@[0]@),
        snapshot is None ==> r@[0]@ == spec_fallback_data_uri(),
        snapshot matches Some(img) ==> {
            let fits = spec_snapshot_fits(img.width as nat, img.height as nat, img.bytes@.len());
            let png = png_of(img.width as nat, img.height as nat, img.bytes@);
            &&& !fits ==> r@[0]@ == spec_fallback_data_uri()
            &&& fits ==> (r@[0]@ == spec_data_uri("image/png"@, png) || r@[0]@
                == spec_fallback_data_uri())
            &&& fits && img.width >= 1 && img.height >= 1 && png.len() <= usize::MAX / 4
                ==> r@[0]@ == spec_data_uri("image/png"@, png)
        },
{
    let data_uri: String = match snapshot {
        Some(img) => match encode_snapshot(img) {
            Ok(png) => {
                if png.len() <= usize::MAX / 4 {
                    let mime = mime_for_hint("png");
                    proof {
                        lemma_mime_for_hint_is_image("png"@);
                        reveal_strlit("png");
                        reveal_strlit("jpeg");
                        reveal_strlit("jpg");
                        assert("png"@.len() == 3 && "jpeg"@.len() == 4 && "jpg"@.len() == 3);
                        assert("png"@[0] == 'p' && "jpg"@[0] == 'j');
                        assert("png"@ != "jpeg"@);
                        assert("png"@ != "jpg"@);
                        assert(mime@ == "image/png"@);
                    }
                    make_data_uri(mime, &png)
                } else {
                    // The base64 engine cannot take a container this long;
                    // absorb the failure like any other encode failure.
                    fallback_data_uri()
                }
            },
            Err(_) => fallback_data_uri(),
        },
        None => fallback_data_uri(),
    };
    let mut r: Vec<String> = Vec::new();
    r.push(data_uri);
    r
}

} // verus!
