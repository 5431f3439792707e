//! Encoding an image as a PNG file held in memory.

use vstd::prelude::*;
use crate::image::{ColorMode, Image, ImageError, ImageView};

verus! {

/// The error type of the `png` crate's encoder. Nothing is known of a value
/// of it; it is only told apart from success.
#[verifier::external_type_specification]
#[verifier::external_body]
pub struct ExEncodingError(png::EncodingError);

/// What the `png` crate's encoder makes, with its default compression and
/// filter, of an image of the given width and height with eight bits per
/// sample, the given layout and the given sample bytes: the bytes of the PNG
/// file, or nothing where the encoder refuses the image.
pub uninterp spec fn png_encoding(width: u32, height: u32, mode: ColorMode, data: Seq<u8>) -> Option<
    Seq<u8>,
>;

/// The number of sample bytes that one pixel takes in the given layout.
pub open spec fn samples_per_pixel(mode: ColorMode) -> int {
    if mode == ColorMode::Rgba {
        4
    } else {
        3
    }
}

/// Runs the `png` crate's encoder into a fresh byte vector:
/// `Encoder::new`, `set_depth` with eight bits, `set_color` with the layout,
/// then `write_header`, `write_image_data` and `finish`.
///
/// The caller hands over exactly one group of sample bytes per pixel; the
/// encoder multiplies the row length by the height before it looks at the
/// buffer, and with a buffer of that very length the product cannot overflow.
///
/// Trusted, not proved: the outcome is the one that [`png_encoding`] names,
/// the file on success and nothing on failure, and an image without columns
/// or without rows is refused (`write_header` reports a zero width or height
/// as an error). That every other image is encoded is not claimed: it rests
/// on the deflate compressor never running out of its internal buffers.
#[verifier::external_body]
fn encode_png(width: u32, height: u32, mode: ColorMode, data: &Vec<u8>) -> (r: Result<
    Vec<u8>,
    png::EncodingError,
>)
    requires
        data@.len() == width * height * samples_per_pixel(mode),
    ensures
        match r {
            Ok(bytes) => png_encoding(width, height, mode, data@) == Some(bytes@),
            Err(_) => png_encoding(width, height, mode, data@) is None,
        },
        width == 0 || height == 0 ==> r is Err,
{
    let mut out: Vec<u8> = Vec::new();
    let mut encoder = png::Encoder::new(&mut out, width, height);
    encoder.set_depth(png::BitDepth::Eight);
    encoder.set_color(
        match mode {
            ColorMode::Rgb => png::ColorType::Rgb,
            ColorMode::Rgba => png::ColorType::Rgba,
        },
    );
    let mut writer = encoder.write_header()?;
    writer.write_image_data(data.as_slice())?;
    writer.finish()?;
    Ok(out)
}

/// Turns the encoder's outcome into the library's: the encoded bytes as they
/// are, and any failure of the encoder as [`ImageError::IoError`].
pub fn encoded(r: Result<Vec<u8>, png::EncodingError>) -> (res: Result<Vec<u8>, ImageError>)
    ensures
        match r {
            Ok(bytes) => res matches Ok(out) && out == bytes,
            Err(_) => res matches Err(e) && e == ImageError::IoError,
        },
{
    match r {
        Ok(bytes) => Ok(bytes),
        Err(_) => Err(ImageError::IoError),
    }
}

impl ImageView {
    /// The outcome of encoding this image as a PNG file.
    pub open spec fn png(self) -> Option<Seq<u8>> {
        png_encoding(self.width as u32, self.height as u32, self.mode(), self.bytes)
    }
}

impl Image {
    /// Encodes the image as a PNG file with eight bits per sample, in RGB for
    /// three channels and RGBA for four, and returns the file's bytes.
    ///
    /// A file is returned exactly where the encoder makes one of this image's
    /// width, height, layout and bytes, and it is that file. An image without
    /// pixels is never encoded. Every failure is [`ImageError::IoError`].
    pub fn to_png(&self) -> (res: Result<Vec<u8>, ImageError>)
        requires
            self.wf(),
        ensures
            match res {
                Ok(file) => self@.png() == Some(file@),
                Err(e) => e == ImageError::IoError && self@.png() is None,
            },
            self@.width == 0 || self@.height == 0 ==> res is Err,
    {
        let r = encode_png(self.width(), self.height(), self.color_mode(), self.data());
        encoded(r)
    }
}

} // verus!
