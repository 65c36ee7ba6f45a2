//! Capturing the canvas for hand-off to an external caller: the exported
//! RGBA pixel buffer is encoded as a PNG image and then as base64 text, so
//! a UI shell or a network boundary can carry it as a plain string.

use base64::Engine;
use vstd::prelude::*;

use crate::canvas::Canvas;
use crate::exporter::bytes_of;

verus! {

/// The name of what the PNG encoder returns: the PNG encoding of a tight
/// `width * height` RGBA byte buffer. The encoding is a function of the
/// pixel bytes and the dimensions alone.
pub uninterp spec fn png_of(data: Seq<u8>, width: int, height: int) -> Seq<u8>;

/// The standard base64 alphabet of RFC 4648.
pub open spec fn b64_alphabet() -> Seq<char> {
    seq![
        'A', 'B', 'C', 'D', 'E', 'F', 'G', 'H', 'I', 'J', 'K', 'L', 'M', 'N', 'O', 'P', 'Q', 'R',
        'S', 'T', 'U', 'V', 'W', 'X', 'Y', 'Z', 'a', 'b', 'c', 'd', 'e', 'f', 'g', 'h', 'i', 'j',
        'k', 'l', 'm', 'n', 'o', 'p', 'q', 'r', 's', 't', 'u', 'v', 'w', 'x', 'y', 'z', '0', '1',
        '2', '3', '4', '5', '6', '7', '8', '9', '+', '/',
    ]
}

/// Standard base64 text with `=` padding: each group of three input bytes
/// becomes four alphabet characters; a final group of one or two bytes is
/// encoded with two or one padding characters.
pub open spec fn b64_of(s: Seq<u8>) -> Seq<char>
    decreases s.len(),
{
    if s.len() == 0 {
        Seq::empty()
    } else if s.len() == 1 {
        let b0 = s[0] as int;
        seq![b64_alphabet()[b0 / 4], b64_alphabet()[(b0 % 4) * 16], '=', '=']
    } else if s.len() == 2 {
        let b0 = s[0] as int;
        let b1 = s[1] as int;
        seq![
            b64_alphabet()[b0 / 4],
            b64_alphabet()[(b0 % 4) * 16 + b1 / 16],
            b64_alphabet()[(b1 % 16) * 4],
            '=',
        ]
    } else {
        let b0 = s[0] as int;
        let b1 = s[1] as int;
        let b2 = s[2] as int;
        seq![
            b64_alphabet()[b0 / 4],
            b64_alphabet()[(b0 % 4) * 16 + b1 / 16],
            b64_alphabet()[(b1 % 16) * 4 + b2 / 64],
            b64_alphabet()[b2 % 64],
        ] + b64_of(s.skip(3))
    }
}

/// Relies on image's PNG encoder (`PngEncoder` and `write_with_encoder` on
/// an RGBA image rebuilt from the tight buffer): for positive extents and a
/// buffer of exactly four bytes per pixel the encoding succeeds, writes
/// only to the output vector, and depends on the pixel bytes and the
/// dimensions alone.
#[verifier::external_body]
fn png_encode(data: &Vec<u8>, width: u32, height: u32) -> (r: Vec<u8>)
    requires
        1 <= width,
        1 <= height,
        data@.len() == 4 * ((width as int) * (height as int)),
    ensures
        r@ == png_of(data@, width as int, height as int),
{
    let img = image::RgbaImage::from_raw(width, height, data.clone()).unwrap();
    let mut out: Vec<u8> = Vec::new();
    let encoder = image::codecs::png::PngEncoder::new(&mut out);
    img.write_with_encoder(encoder).unwrap();
    out
}

/// Relies on base64's standard-alphabet engine with padding
/// (`general_purpose::STANDARD.encode`): the result is RFC 4648 base64
/// text of the input bytes. The length bound keeps the four-thirds output
/// size computable, so the encoder cannot fail.
#[verifier::external_body]
fn base64_encode(data: &Vec<u8>) -> (r: String)
    requires
        data@.len() <= usize::MAX / 8,
    ensures
        r@ == b64_of(data@),
{
    base64::engine::general_purpose::STANDARD.encode(data)
}

/// Captures the canvas as a PNG image, base64-encoded as a string, for
/// hand-off to an external caller. A PNG too large for base64 yields the
/// empty string; that cannot arise for an encoding that fits in memory
/// alongside the canvas.
pub fn get_canvas_capture(canvas: &Canvas) -> (r: String)
    requires
        canvas.wf(),
    ensures
        png_of(bytes_of(canvas.data@), canvas.width as int, canvas.height as int).len()
            <= usize::MAX / 8 ==> r@ == b64_of(
            png_of(bytes_of(canvas.data@), canvas.width as int, canvas.height as int),
        ),
        png_of(bytes_of(canvas.data@), canvas.width as int, canvas.height as int).len()
            > usize::MAX / 8 ==> r@ == Seq::<char>::empty(),
{
    let frame = canvas.extract_framebuffer();
    let png = png_encode(&frame, canvas.width, canvas.height);
    if png.len() <= usize::MAX / 8 {
        base64_encode(&png)
    } else {
        String::new()
    }
}

} // verus!
