//! Export of a finished image: its pixels as a row-major RGB byte stream, and
//! that stream encoded as a PNG file's bytes.
use vstd::prelude::*;
use crate::camera::MAX_SIDE;
use crate::framebuffer::Framebuffer;

verus! {

/// A quantized pixel, 8 bits per channel.
#[derive(Clone, Copy, Debug, PartialEq, Eq, Structural)]
pub struct Rgb8 {
    pub r: u8,
    pub g: u8,
    pub b: u8,
}

/// Why an image could not be exported.
#[derive(Clone, Copy, Debug, PartialEq, Eq, Structural)]
pub enum ExportError {
    /// The image has no pixel: its width or its height is zero.
    EmptyImage,
    /// A side exceeds what the format records, or the byte stream would not fit in memory.
    TooLarge,
    /// The encoder refused the image; an image that is neither empty nor too
    /// large is never refused.
    Encoding,
}

/// The pixels' channels, pixel after pixel, in red, green, blue order.
pub open spec fn rgb_bytes_of(px: Seq<Rgb8>) -> Seq<u8>
    decreases px.len(),
{
    if px.len() == 0 {
        Seq::empty()
    } else {
        let p = px.last();
        rgb_bytes_of(px.drop_last()) + seq![p.r, p.g, p.b]
    }
}

/// The byte stream has three bytes per pixel, each channel in its place.
pub proof fn lemma_rgb_bytes_of(px: Seq<Rgb8>)
    ensures
        rgb_bytes_of(px).len() == 3 * px.len(),
        forall|k: int|
            0 <= k < px.len() ==> {
                &&& #[trigger] rgb_bytes_of(px)[3 * k] == px[k].r
                &&& rgb_bytes_of(px)[3 * k + 1] == px[k].g
                &&& rgb_bytes_of(px)[3 * k + 2] == px[k].b
            },
    decreases px.len(),
{
    if px.len() > 0 {
        lemma_rgb_bytes_of(px.drop_last());
    }
}

/// The bytes of a PNG file holding a `width × height` 8-bit RGB image whose
/// row-major pixel bytes are `data`, as the png crate writes it.
pub uninterp spec fn png_rgb8_of(width: nat, height: nat, data: Seq<u8>) -> Seq<u8>;

/// png's `EncodingError`, carried only to be mapped to [`ExportError::Encoding`].
#[verifier::external_type_specification]
#[verifier::external_body]
pub struct ExEncodingError(png::EncodingError);

/// Relies on png's `Encoder::new`, `set_color(Rgb)`, `set_depth(Eight)`,
/// `write_header`, `Writer::write_image_data` and `Writer::finish`, writing into
/// memory: the bytes written are a function of the dimensions and the pixel
/// bytes alone. `write_header` refuses only a zero side, and
/// `write_image_data` only a buffer whose length is not three bytes per pixel;
/// writing into a `Vec` does not fail. The byte size of the image is computed
/// before that length test, so it must fit in a `usize`.
#[verifier::external_body]
fn png_encode_rgb8(width: u32, height: u32, data: &Vec<u8>) -> (r: Result<Vec<u8>, png::EncodingError>)
    requires
        3 * (width as nat * height as nat) <= usize::MAX,
    ensures
        r is Ok ==> r->Ok_0@ == png_rgb8_of(width as nat, height as nat, data@),
        width > 0 && height > 0 && data@.len() == 3 * (width as nat * height as nat) ==> r is Ok,
{
    let mut out: Vec<u8> = Vec::new();
    let mut encoder = png::Encoder::new(&mut out, width, height);
    encoder.set_color(png::ColorType::Rgb);
    encoder.set_depth(png::BitDepth::Eight);
    let mut writer = encoder.write_header()?;
    writer.write_image_data(data.as_slice())?;
    writer.finish()?;
    Ok(out)
}

/// Whether a `width × height` image can be exported: both sides fit the
/// format, and its byte stream fits in memory.
pub open spec fn exportable(width: nat, height: nat) -> bool {
    &&& width <= MAX_SIDE
    &&& height <= MAX_SIDE
    &&& 3 * (width * height) <= usize::MAX
}

/// The image's pixels as a row-major RGB byte stream.
pub fn rgb_bytes(fb: &Framebuffer<Rgb8>) -> (r: Vec<u8>)
    requires
        fb.wf(),
        3 * fb@.len() <= usize::MAX,
    ensures
        r@ == rgb_bytes_of(fb@),
        r@.len() == 3 * fb@.len(),
{
    let px = fb.cells();
    let n: usize = px.len();
    let mut out: Vec<u8> = Vec::new();
    let mut k: usize = 0;
    while k < n
        invariant
            n == px@.len(),
            px@ == fb@,
            k <= n,
            out@ == rgb_bytes_of(px@.take(k as int)),
        decreases n - k,
    {
        let p = px[k];
        out.push(p.r);
        out.push(p.g);
        out.push(p.b);
        proof {
            assert(px@.take(k as int + 1).drop_last() =~= px@.take(k as int));
            assert(out@ =~= rgb_bytes_of(px@.take(k as int + 1)));
        }
        k = k + 1;
    }
    proof {
        assert(px@.take(n as int) =~= px@);
        lemma_rgb_bytes_of(px@);
    }
    out
}

/// Encodes the image as a PNG file, 8 bits per RGB channel.
pub fn encode_png(fb: &Framebuffer<Rgb8>) -> (r: Result<Vec<u8>, ExportError>)
    requires
        fb.wf(),
    ensures
        (fb.spec_width() == 0 || fb.spec_height() == 0) <==> r == Err::<Vec<u8>, ExportError>(
            ExportError::EmptyImage,
        ),
        (fb.spec_width() > 0 && fb.spec_height() > 0 && !exportable(
            fb.spec_width(),
            fb.spec_height(),
        )) <==> r == Err::<Vec<u8>, ExportError>(ExportError::TooLarge),
        fb.spec_width() > 0 && fb.spec_height() > 0 && exportable(
            fb.spec_width(),
            fb.spec_height(),
        ) ==> r is Ok,
        r is Ok ==> r->Ok_0@ == png_rgb8_of(
            fb.spec_width(),
            fb.spec_height(),
            rgb_bytes_of(fb@),
        ),
{
    let w = fb.width();
    let h = fb.height();
    if w == 0 || h == 0 {
        return Err(ExportError::EmptyImage);
    }
    if w > MAX_SIDE || h > MAX_SIDE || fb.cells().len() > usize::MAX / 3 {
        return Err(ExportError::TooLarge);
    }
    let data = rgb_bytes(fb);
    match png_encode_rgb8(w as u32, h as u32, &data) {
        Ok(bytes) => Ok(bytes),
        Err(_) => Err(ExportError::Encoding),
    }
}

} // verus!
