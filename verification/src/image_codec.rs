//! Image and Base64 coding through the `image` and `base64` crates, with RGBA
//! images carried as plain `(bytes, width, height)` values.
use vstd::prelude::*;

use base64::Engine;
use vstd::arithmetic::div_mod::lemma_fundamental_div_mod_converse;

verus! {

/// The bytes of a `w`×`h` RGBA image at least as long as its pixels (4 bytes each).
pub open spec fn holds_rgba(pixels: Seq<u8>, w: u32, h: u32) -> bool {
    (w as int) * (h as int) * 4 <= pixels.len()
}

/// The bytes of a `w`×`h` RGBA image exactly as long as its pixels (4 bytes each).
pub open spec fn exact_rgba(pixels: Seq<u8>, w: u32, h: u32) -> bool {
    pixels.len() == (w as int) * (h as int) * 4
}

/// What `image::load_from_memory(..).into_rgba8()` gives for some bytes: the RGBA
/// pixels with width and height, or the decoding error's message.
pub uninterp spec fn decoded_rgba(bytes: Seq<u8>) -> Result<(Seq<u8>, u32, u32), Seq<char>>;

/// What `image::load_from_memory_with_format(.., ImageFormat::Png).into_rgba8()` gives.
pub uninterp spec fn decoded_png_rgba(bytes: Seq<u8>) -> Result<(Seq<u8>, u32, u32), Seq<char>>;

/// What `ImageReader::new(Cursor::new(..)).with_guessed_format()` followed by
/// `decode()` and `into_rgba8()` gives: the outer error is the reader's (format
/// guessing), the inner one the decoder's.
pub uninterp spec fn guessed_rgba(bytes: Seq<u8>) -> Result<
    Result<(Seq<u8>, u32, u32), Seq<char>>,
    Seq<char>,
>;

/// The PNG file `ImageBuffer::write_to(.., ImageFormat::Png)` writes for the first
/// `w * h * 4` bytes of `pixels` taken as a `w`×`h` RGBA image, or the error's message.
pub uninterp spec fn png_encoding(pixels: Seq<u8>, w: u32, h: u32) -> Result<Seq<u8>, Seq<char>>;

/// What `base64`'s standard engine decodes from a text, or the error's message.
pub uninterp spec fn base64_decoding(text: Seq<char>) -> Result<Seq<u8>, Seq<char>>;

/// The view of a decoded image.
pub open spec fn image_view(r: Result<(Vec<u8>, u32, u32), String>) -> Result<
    (Seq<u8>, u32, u32),
    Seq<char>,
> {
    match r {
        Ok((p, w, h)) => Ok((p@, w, h)),
        Err(m) => Err(m@),
    }
}

/// `image::load_from_memory`, converted to RGBA; the result is named by `decoded_rgba`.
/// The RGBA buffer of a decoded image holds exactly its pixels.
#[verifier::external_body]
pub(crate) fn load_rgba(bytes: &[u8]) -> (r: Result<(Vec<u8>, u32, u32), String>)
    ensures
        image_view(r) == decoded_rgba(bytes@),
        r matches Ok((p, w, h)) ==> exact_rgba(p@, w, h),
{
    match image::load_from_memory(bytes) {
        Ok(img) => {
            let rgba = img.into_rgba8();
            let (w, h) = (rgba.width(), rgba.height());
            Ok((rgba.into_raw(), w, h))
        },
        Err(e) => Err(e.to_string()),
    }
}

/// `image::load_from_memory_with_format` for PNG, converted to RGBA; the result is
/// named by `decoded_png_rgba`; the RGBA buffer holds exactly the image's pixels.
#[verifier::external_body]
pub(crate) fn load_png_rgba(bytes: &[u8]) -> (r: Result<(Vec<u8>, u32, u32), String>)
    ensures
        image_view(r) == decoded_png_rgba(bytes@),
        r matches Ok((p, w, h)) ==> exact_rgba(p@, w, h),
{
    match image::load_from_memory_with_format(bytes, image::ImageFormat::Png) {
        Ok(img) => {
            let rgba = img.into_rgba8();
            let (w, h) = (rgba.width(), rgba.height());
            Ok((rgba.into_raw(), w, h))
        },
        Err(e) => Err(e.to_string()),
    }
}

/// `ImageReader` with a guessed format, decoded and converted to RGBA; the result is
/// named by `guessed_rgba`; the RGBA buffer holds exactly the image's pixels.
#[verifier::external_body]
pub(crate) fn read_guessed_rgba(bytes: &[u8]) -> (r: Result<
    Result<(Vec<u8>, u32, u32), String>,
    String,
>)
    ensures
        match r {
            Ok(inner) => guessed_rgba(bytes@) == Ok::<_, Seq<char>>(image_view(inner)),
            Err(m) => guessed_rgba(bytes@) == Err::<Result<(Seq<u8>, u32, u32), Seq<char>>, _>(
                m@,
            ),
        },
        r matches Ok(Ok((p, w, h))) ==> exact_rgba(p@, w, h),
{
    match image::ImageReader::new(std::io::Cursor::new(bytes)).with_guessed_format() {
        Ok(reader) => match reader.decode() {
            Ok(img) => {
                let rgba = img.into_rgba8();
                let (w, h) = (rgba.width(), rgba.height());
                Ok(Ok((rgba.into_raw(), w, h)))
            },
            Err(e) => Ok(Err(e.to_string())),
        },
        Err(e) => Err(e.to_string()),
    }
}

/// `ImageBuffer::from_raw` and `write_to(.., ImageFormat::Png)`: the result is named by
/// `png_encoding` (the buffer holds the image, so `from_raw` accepts it).
#[verifier::external_body]
pub(crate) fn png_encode(rgba: &[u8], w: u32, h: u32) -> (r: Result<Vec<u8>, String>)
    requires
        holds_rgba(rgba@, w, h),
    ensures
        match r {
            Ok(b) => png_encoding(rgba@, w, h) == Ok::<_, Seq<char>>(b@),
            Err(m) => png_encoding(rgba@, w, h) == Err::<Seq<u8>, _>(m@),
        },
{
    let mut out: Vec<u8> = Vec::new();
    let written = match image::RgbaImage::from_raw(w, h, rgba.to_vec()) {
        Some(img) => img.write_to(&mut std::io::Cursor::new(&mut out), image::ImageFormat::Png),
        None => return Err(String::new()),
    };
    match written {
        Ok(()) => Ok(out),
        Err(e) => Err(e.to_string()),
    }
}

/// The `w`×`h` region at `(x, y)` of an RGBA image `img_w` pixels wide, row after row.
pub open spec fn crop_pixels(pixels: Seq<u8>, img_w: int, x: int, y: int, w: int, h: int) -> Seq<u8> {
    Seq::new(
        (w * h * 4) as nat,
        |i: int| pixels[((y + i / (w * 4)) * img_w + x) * 4 + i % (w * 4)],
    )
}

/// The cropped region holds `w * h` pixels, and its pixel `(i, j)` is the image's pixel
/// `(x + i, y + j)`.
pub proof fn law_crop_pixels_are_region(
    pixels: Seq<u8>,
    img_w: nat,
    x: nat,
    y: nat,
    w: nat,
    h: nat,
    i: int,
    j: int,
    k: int,
)
    requires
        0 <= i < w,
        0 <= j < h,
        0 <= k < 4,
    ensures
        crop_pixels(pixels, img_w as int, x as int, y as int, w as int, h as int).len() == w * h * 4,
        crop_pixels(pixels, img_w as int, x as int, y as int, w as int, h as int)[(j * w + i) * 4 + k]
            == pixels[((y + j) * img_w + x + i) * 4 + k],
{
    let n = (j * w + i) * 4 + k;
    assert(n == j * (w * 4) + (i * 4 + k)) by (nonlinear_arith)
        requires
            n == (j * w + i) * 4 + k,
    ;
    assert(0 <= n < w * h * 4) by (nonlinear_arith)
        requires
            n == j * (w * 4) + (i * 4 + k),
            0 <= i < w,
            0 <= j < h,
            0 <= k < 4,
    ;
    assert(0 <= w * h * 4) by (nonlinear_arith);
    lemma_fundamental_div_mod_converse(n, (w * 4) as int, j, i * 4 + k);
}

/// `image::imageops::crop_imm(..).to_image()` of a region inside the image: the
/// region's pixels, row after row.
#[verifier::external_body]
pub(crate) fn crop_image(
    rgba: &[u8],
    img_w: u32,
    img_h: u32,
    x: u32,
    y: u32,
    w: u32,
    h: u32,
) -> (r: Vec<u8>)
    requires
        holds_rgba(rgba@, img_w, img_h),
        x + w <= img_w,
        y + h <= img_h,
    ensures
        r@ == crop_pixels(rgba@, img_w as int, x as int, y as int, w as int, h as int),
{
    match image::RgbaImage::from_raw(img_w, img_h, rgba.to_vec()) {
        Some(img) => image::imageops::crop_imm(&img, x, y, w, h).to_image().into_raw(),
        None => Vec::new(),
    }
}

/// The standard Base64 alphabet.
pub open spec fn base64_char(v: int) -> char {
    if v < 26 {
        (65 + v) as char
    } else if v < 52 {
        (97 + v - 26) as char
    } else if v < 62 {
        (48 + v - 52) as char
    } else if v == 62 {
        '+'
    } else {
        '/'
    }
}

/// Standard Base64 (RFC 4648 alphabet, `=` padding) of a byte sequence.
pub open spec fn base64_standard(b: Seq<u8>) -> Seq<char>
    decreases b.len(),
{
    if b.len() == 0 {
        seq![]
    } else if b.len() == 1 {
        seq![base64_char(b[0] as int / 4), base64_char((b[0] as int % 4) * 16), '=', '=']
    } else if b.len() == 2 {
        seq![
            base64_char(b[0] as int / 4),
            base64_char((b[0] as int % 4) * 16 + b[1] as int / 16),
            base64_char((b[1] as int % 16) * 4),
            '=',
        ]
    } else {
        seq![
            base64_char(b[0] as int / 4),
            base64_char((b[0] as int % 4) * 16 + b[1] as int / 16),
            base64_char((b[1] as int % 16) * 4 + b[2] as int / 64),
            base64_char(b[2] as int % 64),
        ] + base64_standard(b.skip(3))
    }
}

/// Each value below 64 has its own Base64 character, and none of them is `=`.
proof fn lemma_base64_char_injective(v1: int, v2: int)
    requires
        0 <= v1 < 64,
        0 <= v2 < 64,
    ensures
        base64_char(v1) != '=',
        base64_char(v1) == base64_char(v2) ==> v1 == v2,
{
}

/// Three bytes are recovered from the four values they are written as.
proof fn lemma_base64_group(a0: u8, a1: u8, a2: u8, b0: u8, b1: u8, b2: u8)
    requires
        a0 as int / 4 == b0 as int / 4,
        (a0 as int % 4) * 16 + a1 as int / 16 == (b0 as int % 4) * 16 + b1 as int / 16,
        (a1 as int % 16) * 4 + a2 as int / 64 == (b1 as int % 16) * 4 + b2 as int / 64,
        a2 as int % 64 == b2 as int % 64,
    ensures
        a0 == b0,
        a1 == b1,
        a2 == b2,
{
}

/// Different byte sequences have different Base64 texts.
pub proof fn lemma_base64_standard_injective(a: Seq<u8>, b: Seq<u8>)
    requires
        base64_standard(a) == base64_standard(b),
    ensures
        a == b,
    decreases a.len(),
{
    let ea = base64_standard(a);
    let eb = base64_standard(b);
    if a.len() >= 3 && b.len() >= 3 {
        lemma_base64_char_injective(a[0] as int / 4, b[0] as int / 4);
        assert(ea[0] == eb[0]);
        assert(ea[1] == eb[1]);
        assert(ea[2] == eb[2]);
        assert(ea[3] == eb[3]);
        lemma_base64_char_injective(
            (a[0] as int % 4) * 16 + a[1] as int / 16,
            (b[0] as int % 4) * 16 + b[1] as int / 16,
        );
        lemma_base64_char_injective(
            (a[1] as int % 16) * 4 + a[2] as int / 64,
            (b[1] as int % 16) * 4 + b[2] as int / 64,
        );
        lemma_base64_char_injective(a[2] as int % 64, b[2] as int % 64);
        lemma_base64_group(a[0], a[1], a[2], b[0], b[1], b[2]);
        assert(ea.skip(4) =~= base64_standard(a.skip(3)));
        assert(eb.skip(4) =~= base64_standard(b.skip(3)));
        lemma_base64_standard_injective(a.skip(3), b.skip(3));
        assert(a =~= a.take(3) + a.skip(3));
        assert(b =~= b.take(3) + b.skip(3));
        assert(a.take(3) =~= b.take(3));
    } else if a.len() >= 3 || b.len() >= 3 {
        // a full group ends in an alphabet character, a short one in `=`
        if a.len() >= 3 {
            lemma_base64_char_injective(a[2] as int % 64, 0);
            assert(ea.len() >= 4);
            assert(ea[3] != '=');
            assert(eb.len() == 0 || eb[3] == '=');
        } else {
            lemma_base64_char_injective(b[2] as int % 64, 0);
            assert(eb.len() >= 4);
            assert(eb[3] != '=');
            assert(ea.len() == 0 || ea[3] == '=');
        }
    } else if a.len() == 0 || b.len() == 0 {
        assert(ea.len() == 0 && eb.len() == 0);
    } else if a.len() == 1 && b.len() == 1 {
        lemma_base64_char_injective(a[0] as int / 4, b[0] as int / 4);
        assert(ea[0] == eb[0] && ea[1] == eb[1]);
        lemma_base64_char_injective((a[0] as int % 4) * 16, (b[0] as int % 4) * 16);
        assert(a =~= b);
    } else if a.len() == 2 && b.len() == 2 {
        assert(ea[0] == eb[0] && ea[1] == eb[1] && ea[2] == eb[2]);
        lemma_base64_char_injective(a[0] as int / 4, b[0] as int / 4);
        lemma_base64_char_injective(
            (a[0] as int % 4) * 16 + a[1] as int / 16,
            (b[0] as int % 4) * 16 + b[1] as int / 16,
        );
        lemma_base64_char_injective((a[1] as int % 16) * 4, (b[1] as int % 16) * 4);
        lemma_base64_group(a[0], a[1], 0, b[0], b[1], 0);
        assert(a =~= b);
    } else {
        // one byte against two: the third character is `=` only for one byte
        if a.len() == 2 {
            lemma_base64_char_injective((a[1] as int % 16) * 4, 0);
            assert(ea[2] != '=' && eb[2] == '=');
        } else {
            lemma_base64_char_injective((b[1] as int % 16) * 4, 0);
            assert(eb[2] != '=' && ea[2] == '=');
        }
    }
}

/// `base64::engine::general_purpose::STANDARD.encode`: standard Base64 with padding.
#[verifier::external_body]
pub(crate) fn base64_encode(bytes: &[u8]) -> (r: String)
    ensures
        r@ == base64_standard(bytes@),
{
    base64::engine::general_purpose::STANDARD.encode(bytes)
}

/// The bytes a text is the standard Base64 of, if it is the Base64 of any.
pub open spec fn base64_bytes_of(text: Seq<char>) -> Option<Seq<u8>> {
    if exists|b: Seq<u8>| base64_standard(b) == text {
        Some(choose|b: Seq<u8>| base64_standard(b) == text)
    } else {
        None
    }
}

/// `base64::engine::general_purpose::STANDARD.decode`: the result is named by
/// `base64_decoding`.  The engine requires canonical padding and no trailing bits, so
/// it accepts exactly the texts its encoder writes: it succeeds on a text precisely
/// when the text is the standard Base64 of some bytes, and gives those bytes.  The
/// error's message is not stated.
#[verifier::external_body]
pub(crate) fn base64_decode(text: &str) -> (r: Result<Vec<u8>, String>)
    ensures
        match r {
            Ok(b) => base64_decoding(text@) == Ok::<_, Seq<char>>(b@),
            Err(m) => base64_decoding(text@) == Err::<Seq<u8>, _>(m@),
        },
        r matches Ok(b) ==> text@ == base64_standard(b@),
        r is Err ==> forall|b: Seq<u8>| #[trigger] base64_standard(b) != text@,
{
    match base64::engine::general_purpose::STANDARD.decode(text) {
        Ok(b) => Ok(b),
        Err(e) => Err(e.to_string()),
    }
}

} // verus!
