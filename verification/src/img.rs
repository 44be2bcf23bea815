//! Pixel buffers: decoding a raster source, resampling to a square, and PNG
//! encoding.

use crate::error::{failure, too_small_text, ErrorKind, FavisError, FavisErrorView};
use image::ImageEncoder;
use vstd::prelude::*;

verus! {

/// Declares `image::ImageError`, the error of the decoder and the encoder,
/// as an opaque type.
#[verifier::external_type_specification]
#[verifier::external_body]
pub struct ExImageError(image::ImageError);

/// Smallest edge, in pixels, of a usable raster source.
pub const MIN_SOURCE_SIZE: u32 = 64;

/// Largest edge, in pixels, that is resampled from or to. The resampler
/// computes pixel coordinates in single precision, which is exact for whole
/// numbers up to this one.
pub const MAX_RESAMPLE_EDGE: u32 = 16_777_216;

/// A decoded image: RGBA8 samples in row-major order from top to bottom.
///
/// The sample vector always holds `4 * width * height` bytes.
#[derive(Debug)]
pub struct PixelBuffer {
    width: u32,
    height: u32,
    data: Vec<u8>,
}

/// Number of bytes of an RGBA8 image of the given dimensions.
pub open spec fn rgba_len(width: u32, height: u32) -> int {
    4 * width * height
}

/// Whether an image of `width` × `height` pixels can be resampled to a
/// square of `size` pixels: the edges are in range and the buffers that the
/// resampler allocates can be addressed on this machine.
pub open spec fn can_resample(width: u32, height: u32, size: u32) -> bool {
    &&& 1 <= size <= MAX_RESAMPLE_EDGE
    &&& width <= MAX_RESAMPLE_EDGE
    &&& height <= MAX_RESAMPLE_EDGE
    &&& 16 * width * size <= isize::MAX
    &&& 4 * size * size <= isize::MAX
}

/// What decoding `bytes` as a PNG image and converting it to RGBA8 gives:
/// width, height and samples, or `None` where the decoder fails.
pub uninterp spec fn png_pixels(bytes: Seq<u8>) -> Option<(u32, u32, Seq<u8>)>;

/// The PNG file that the encoder writes for an RGBA8 image, or `None` where
/// the encoder fails.
pub uninterp spec fn png_encoding(width: u32, height: u32, data: Seq<u8>) -> Option<Seq<u8>>;

/// Decodes a PNG byte stream with `image::load_from_memory_with_format` and
/// converts the image to RGBA8 with `DynamicImage::into_rgba8`. The contract
/// names the outcome and claims that the sample vector of a decoded image
/// holds four bytes per pixel.
#[verifier::external_body]
fn decode_png(bytes: &[u8]) -> (r: Result<(u32, u32, Vec<u8>), image::ImageError>)
    ensures
        match r {
            Ok((width, height, data)) => png_pixels(bytes@) == Some((width, height, data@))
                && data@.len() == rgba_len(width, height),
            Err(_) => png_pixels(bytes@) is None,
        },
{
    let decoded = image::load_from_memory_with_format(bytes, image::ImageFormat::Png)?;
    let rgba = decoded.into_rgba8();
    Ok((rgba.width(), rgba.height(), rgba.into_raw()))
}

/// Resamples an RGBA8 image to `size` × `size` pixels with
/// `image::DynamicImage::resize_exact` and the Lanczos3 filter. The contract
/// claims that the call returns, that the result holds four bytes per pixel
/// of the new size, and that an image that already has the new size comes
/// back unchanged. Nothing else is claimed of the samples: the filter is
/// computed in floating point.
#[verifier::external_body]
fn resample(width: u32, height: u32, data: &Vec<u8>, size: u32) -> (out: Option<Vec<u8>>)
    requires
        data@.len() == rgba_len(width, height),
        can_resample(width, height, size),
    ensures
        match out {
            Some(samples) => samples@.len() == rgba_len(size, size) && (width == size && height
                == size ==> samples@ == data@),
            None => false,
        },
{
    let source = image::RgbaImage::from_raw(width, height, data.clone())?;
    let resized = image::DynamicImage::ImageRgba8(source).resize_exact(
        size,
        size,
        image::imageops::FilterType::Lanczos3,
    );
    Some(resized.into_rgba8().into_raw())
}

/// Encodes an RGBA8 image as a PNG file in memory with
/// `image::codecs::png::PngEncoder::write_image`. The contract only names
/// the outcome.
#[verifier::external_body]
fn write_png(width: u32, height: u32, data: &Vec<u8>) -> (r: Result<Vec<u8>, image::ImageError>)
    requires
        data@.len() == rgba_len(width, height),
    ensures
        match r {
            Ok(file) => png_encoding(width, height, data@) == Some(file@),
            Err(_) => png_encoding(width, height, data@) is None,
        },
{
    let mut file: Vec<u8> = Vec::new();
    image::codecs::png::PngEncoder::new(&mut file).write_image(
        data,
        width,
        height,
        image::ExtendedColorType::Rgba8,
    )?;
    Ok(file)
}

/// The product of two edges, which fits 64 bits.
fn product(a: u32, b: u32) -> (p: u64)
    ensures
        p == a * b,
        p <= 0xffff_ffff * 0xffff_ffff,
{
    assert(0 <= a * b <= 0xffff_ffff * 0xffff_ffff) by (nonlinear_arith)
        requires
            0 <= a <= 0xffff_ffff,
            0 <= b <= 0xffff_ffff,
    ;
    a as u64 * b as u64
}

/// Whether `len` is the number of bytes of an RGBA8 image of the given
/// dimensions.
fn is_rgba_len(width: u32, height: u32, len: usize) -> (ok: bool)
    ensures
        ok == (len == rgba_len(width, height)),
{
    let bytes: u128 = 4 * (product(width, height) as u128);
    assert(bytes == 4 * width * height) by (nonlinear_arith)
        requires
            bytes == 4 * (width * height),
    ;
    len as u128 == bytes
}

impl PixelBuffer {
    #[verifier::type_invariant]
    spec fn well_formed(self) -> bool {
        self.data@.len() == rgba_len(self.width, self.height)
    }

    /// Width in pixels.
    pub closed spec fn spec_width(&self) -> u32 {
        self.width
    }

    /// Height in pixels.
    pub closed spec fn spec_height(&self) -> u32 {
        self.height
    }

    /// The RGBA8 samples, row by row.
    pub closed spec fn samples(&self) -> Seq<u8> {
        self.data@
    }

    /// Width in pixels.
    #[verifier::when_used_as_spec(spec_width)]
    pub fn width(&self) -> (w: u32)
        ensures
            w == self.spec_width(),
    {
        self.width
    }

    /// Height in pixels.
    #[verifier::when_used_as_spec(spec_height)]
    pub fn height(&self) -> (h: u32)
        ensures
            h == self.spec_height(),
    {
        self.height
    }

    /// The RGBA8 samples, row by row: `4 * width * height` bytes.
    pub fn data(&self) -> (d: &Vec<u8>)
        ensures
            d@ == self.samples(),
            d@.len() == rgba_len(self.width(), self.height()),
    {
        proof {
            use_type_invariant(self);
        }
        &self.data
    }

    /// Gives up the buffer for its samples.
    pub fn into_data(self) -> (d: Vec<u8>)
        ensures
            d@ == self.samples(),
            d@.len() == rgba_len(self.width(), self.height()),
    {
        proof {
            use_type_invariant(&self);
        }
        self.data
    }

    /// A buffer of the given dimensions and samples; `None` unless `data`
    /// holds exactly four bytes per pixel.
    pub fn from_rgba(width: u32, height: u32, data: Vec<u8>) -> (b: Option<PixelBuffer>)
        ensures
            b is Some <==> data@.len() == rgba_len(width, height),
            b matches Some(buffer) ==> buffer.width() == width && buffer.height() == height
                && buffer.samples() == data@,
    {
        if is_rgba_len(width, height, data.len()) {
            Some(PixelBuffer { width, height, data })
        } else {
            None
        }
    }

    /// Whether the buffer can be resampled to a square of `size` pixels.
    pub fn resizable_to(&self, size: u32) -> (ok: bool)
        ensures
            ok == can_resample(self.width(), self.height(), size),
    {
        if size < 1 || size > MAX_RESAMPLE_EDGE || self.width > MAX_RESAMPLE_EDGE || self.height
            > MAX_RESAMPLE_EDGE {
            return false;
        }
        let limit: u64 = isize::MAX as u64;
        assert(self.width * size <= 16_777_216 * 16_777_216 && size * size <= 16_777_216
            * 16_777_216) by (nonlinear_arith)
            requires
                self.width <= 16_777_216,
                size <= 16_777_216,
        ;
        let scratch: u64 = 16 * product(self.width, size);
        let result: u64 = 4 * product(size, size);
        assert(scratch == 16 * self.width * size) by (nonlinear_arith)
            requires
                scratch == 16 * (self.width * size),
        ;
        assert(result == 4 * size * size) by (nonlinear_arith)
            requires
                result == 4 * (size * size),
        ;
        scratch <= limit && result <= limit
    }

    /// Resamples the buffer to exactly `size` × `size` pixels with a
    /// Lanczos-class filter. The aspect ratio is not preserved; nothing is
    /// cropped or padded. A buffer that already is `size` × `size` keeps its
    /// samples.
    pub fn resize_square(&self, size: u32) -> (out: PixelBuffer)
        requires
            can_resample(self.width(), self.height(), size),
        ensures
            out.width() == size,
            out.height() == size,
            self.width() == size && self.height() == size ==> out.samples() == self.samples(),
    {
        proof {
            use_type_invariant(self);
        }
        match resample(self.width, self.height, &self.data, size) {
            Some(data) => PixelBuffer { width: size, height: size, data },
            None => vstd::pervasive::unreached(),
        }
    }

    /// Encodes the buffer as a PNG file.
    pub fn encode_png(&self) -> (r: Result<Vec<u8>, FavisError>)
        ensures
            png_outcome(png_encoding(self.width(), self.height(), self.samples()), r),
    {
        proof {
            use_type_invariant(self);
        }
        png_result(write_png(self.width, self.height, &self.data))
    }
}

/// How the encoder's outcome shows in the result of
/// [`PixelBuffer::encode_png`].
pub open spec fn png_outcome(encoded: Option<Seq<u8>>, r: Result<Vec<u8>, FavisError>) -> bool {
    match encoded {
        Some(file) => r matches Ok(bytes) && bytes@ == file,
        None => r matches Err(e) && e@ == failure(
            ErrorKind::WriteError,
            "Can't write to: Cannot encode PNG image"@,
            "Make sure the output directory exists and you have write permissions."@,
        ),
    }
}

/// Turns the encoder's answer into the result of [`PixelBuffer::encode_png`]:
/// the file, or a write error where the encoder failed.
pub fn png_result(encoded: Result<Vec<u8>, image::ImageError>) -> (r: Result<Vec<u8>, FavisError>)
    ensures
        match encoded {
            Ok(file) => r == Ok::<Vec<u8>, FavisError>(file),
            Err(_) => r matches Err(e) && e@ == failure(
                ErrorKind::WriteError,
                "Can't write to: Cannot encode PNG image"@,
                "Make sure the output directory exists and you have write permissions."@,
            ),
        },
{
    match encoded {
        Ok(file) => Ok(file),
        Err(_) => {
            proof {
                reveal_strlit("Can't write to: Cannot encode PNG image");
                reveal_strlit("Can't write to: ");
                reveal_strlit("Cannot encode PNG image");
                assert("Can't write to: "@ + "Cannot encode PNG image"@
                    =~= "Can't write to: Cannot encode PNG image"@);
            }
            Err(FavisError::write_error("Cannot encode PNG image"))
        },
    }
}

/// What the decoder's outcome means for a raster source: a source that does
/// not decode is no supported image, and one below [`MIN_SOURCE_SIZE`] in
/// either direction is too small.
pub open spec fn raster_outcome(
    decoded: Option<(u32, u32, Seq<u8>)>,
    r: Result<PixelBuffer, FavisError>,
) -> bool {
    match decoded {
        None => r matches Err(e) && e@ == failure(
            ErrorKind::InvalidFormat,
            "Oops! That file format isn't supported."@,
            "Try an SVG (best option!) or a PNG with --raster-ok."@,
        ),
        Some((width, height, data)) => if width < MIN_SOURCE_SIZE || height < MIN_SOURCE_SIZE {
            r matches Err(e) && e@ == failure(
                ErrorKind::ImageTooSmall,
                too_small_text(MIN_SOURCE_SIZE),
                "Try a larger source image or use an SVG for crisp results at any size!"@,
            )
        } else {
            r matches Ok(buffer) && buffer.width() == width && buffer.height() == height
                && buffer.samples() == data
        },
    }
}

/// Admits a decoded raster source, or says why it cannot be used.
pub fn admit_raster(decoded: Result<(u32, u32, Vec<u8>), image::ImageError>) -> (r: Result<
    PixelBuffer,
    FavisError,
>)
    requires
        decoded matches Ok((width, height, data)) ==> data@.len() == rgba_len(width, height),
    ensures
        raster_outcome(
            match decoded {
                Ok((width, height, data)) => Some((width, height, data@)),
                Err(_) => None,
            },
            r,
        ),
{
    match decoded {
        Err(_) => {
            let e = FavisError::invalid_format("Oops! That file format isn't supported.");
            proof {
                reveal_strlit("Oops! That file format isn't supported.");
                reveal_strlit("isn't supported");
                assert(crate::text::occurs_at(
                    "Oops! That file format isn't supported."@,
                    "isn't supported"@,
                    23,
                )) by {
                    assert("Oops! That file format isn't supported."@.subrange(23, 38)
                        =~= "isn't supported"@);
                }
            }
            Err(e)
        },
        Ok((width, height, data)) => {
            if width < MIN_SOURCE_SIZE || height < MIN_SOURCE_SIZE {
                Err(FavisError::image_too_small(MIN_SOURCE_SIZE))
            } else {
                Ok(PixelBuffer { width, height, data })
            }
        },
    }
}

/// What kind of source an image is.
#[derive(Debug, Clone, Copy, PartialEq, Eq, Structural)]
pub enum SourceKind {
    /// Vector markup (SVG), drawn at the size it declares.
    Vector,
    /// A raster image (PNG).
    Raster,
}

/// The error for vector markup without content.
pub open spec fn empty_svg() -> FavisErrorView {
    failure(
        ErrorKind::InvalidVectorSource,
        "SVG trouble: SVG file is empty"@,
        "Check the SVG syntax or try a different SVG file."@,
    )
}

/// Decodes a source image into pixels.
///
/// A raster source fails with `InvalidFormat` if the bytes are not a PNG
/// image and with `ImageTooSmall` if the image is below
/// [`MIN_SOURCE_SIZE`] pixels in either direction. A vector source is
/// exempt from the minimum: it fails with `InvalidVectorSource` if it is
/// empty or its markup cannot be read, and with a processing error if it
/// cannot be drawn at the size it declares.
pub fn decode(bytes: &[u8], kind: SourceKind) -> (r: Result<PixelBuffer, FavisError>)
    ensures
        kind == SourceKind::Raster ==> raster_outcome(png_pixels(bytes@), r),
        kind == SourceKind::Vector ==> match r {
            Ok(buffer) => bytes@.len() > 0 && crate::svg::pixmap_fits(
                buffer.width(),
                buffer.height(),
            ),
            Err(e) => if bytes@.len() == 0 {
                e@ == empty_svg()
            } else {
                (exists|reason: Seq<char>| e@ == crate::svg::unreadable(reason))
                    || crate::svg::is_pixmap_failure(e@)
            },
        },
{
    match kind {
        SourceKind::Raster => decode_raster(bytes),
        SourceKind::Vector => {
            if bytes.len() == 0 {
                proof {
                    reveal_strlit("SVG trouble: SVG file is empty");
                    reveal_strlit("SVG trouble: ");
                    reveal_strlit("SVG file is empty");
                    assert("SVG trouble: "@ + "SVG file is empty"@
                        =~= "SVG trouble: SVG file is empty"@);
                }
                Err(FavisError::invalid_svg("SVG file is empty"))
            } else {
                crate::svg::render_svg_original_size(bytes)
            }
        },
    }
}

/// Decodes a raster source. Fails with `InvalidFormat` if the bytes are not
/// a PNG image, and with `ImageTooSmall` if the image is below
/// [`MIN_SOURCE_SIZE`] pixels in either direction.
pub fn decode_raster(bytes: &[u8]) -> (r: Result<PixelBuffer, FavisError>)
    ensures
        raster_outcome(png_pixels(bytes@), r),
{
    admit_raster(decode_png(bytes))
}

} // verus!
