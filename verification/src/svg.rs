//! SVG rendering to pixels using resvg.

use crate::error::{failure, processing_failure, ErrorKind, FavisError, FavisErrorView};
use crate::img::{rgba_len, PixelBuffer};
use crate::text::{append, append_str, chars_of, decimal, decimal_chars, string_of};
use vstd::prelude::*;

verus! {

/// Declares `resvg::usvg::Tree`, a parsed SVG document, as an opaque type.
#[verifier::external_type_specification]
#[verifier::external_body]
pub struct ExSvgTree(resvg::usvg::Tree);

/// Declares `resvg::usvg::Error`, the error of the SVG parser, as an opaque
/// type.
#[verifier::external_type_specification]
#[verifier::external_body]
pub struct ExSvgError(resvg::usvg::Error);

/// Whether a pixel map of the given dimensions can be allocated: both edges
/// are positive, a row fits 31 bits, and the whole map can be allocated on
/// this machine.
pub open spec fn pixmap_fits(width: u32, height: u32) -> bool {
    &&& width >= 1
    &&& height >= 1
    &&& 4 * width <= i32::MAX
    &&& rgba_len(width, height) <= isize::MAX
}

/// Whether a pixel map of the given dimensions can be allocated.
pub fn can_allocate(width: u32, height: u32) -> (ok: bool)
    ensures
        ok == pixmap_fits(width, height),
{
    if width < 1 || height < 1 || width > 0x1fff_ffff {
        return false;
    }
    assert(width * height <= 0x1fff_ffff * 0xffff_ffff) by (nonlinear_arith)
        requires
            0 <= width <= 0x1fff_ffff,
            0 <= height <= 0xffff_ffff,
    ;
    let bytes: u64 = 4 * (width as u64 * height as u64);
    assert(bytes == rgba_len(width, height)) by (nonlinear_arith)
        requires
            bytes == 4 * (width * height),
    ;
    bytes <= isize::MAX as u64
}

/// Parses SVG data with `resvg::usvg::Tree::from_data` and the default
/// options. Nothing is claimed of the outcome.
#[verifier::external_body]
fn parse_svg(data: &[u8]) -> Result<resvg::usvg::Tree, resvg::usvg::Error> {
    resvg::usvg::Tree::from_data(data, &resvg::usvg::Options::default())
}

/// The text of a parser error, as its `Display` impl gives it. Nothing is
/// claimed of the text.
#[verifier::external_body]
fn svg_error_text(error: &resvg::usvg::Error) -> String {
    error.to_string()
}

/// The size that the document declares, from `resvg::usvg::Tree::size`, each
/// edge cut down to a whole number of pixels. Nothing is claimed of the
/// numbers.
#[verifier::external_body]
fn tree_size(tree: &resvg::usvg::Tree) -> (u32, u32) {
    let size = tree.size();
    (size.width() as u32, size.height() as u32)
}

/// Allocates a pixel map with `resvg::tiny_skia::Pixmap::new`, draws the
/// document onto it with `resvg::render` and hands out the samples. The
/// contract claims that a map of dimensions that [`pixmap_fits`] admits is
/// always made, and that it holds four bytes per pixel. Nothing is claimed
/// of what is drawn.
#[verifier::external_body]
fn draw_tree(tree: &resvg::usvg::Tree, width: u32, height: u32) -> (r: Option<Vec<u8>>)
    requires
        pixmap_fits(width, height),
    ensures
        match r {
            Some(samples) => samples@.len() == rgba_len(width, height),
            None => false,
        },
{
    let mut pixmap = resvg::tiny_skia::Pixmap::new(width, height)?;
    resvg::render(tree, resvg::usvg::Transform::default(), &mut pixmap.as_mut());
    Some(pixmap.take())
}

/// The text that reports a pixel map that cannot be made.
pub open spec fn pixmap_text(width: u32, height: u32) -> Seq<char> {
    "Processing hiccup: Cannot create "@ + decimal(width as nat) + "x"@ + decimal(height as nat)
        + " pixmap - insufficient memory"@
}

/// The error for vector markup that cannot be read, with the parser's words
/// in `reason`.
pub open spec fn unreadable(reason: Seq<char>) -> FavisErrorView {
    failure(
        ErrorKind::InvalidVectorSource,
        "SVG trouble: "@ + reason,
        "Check the SVG syntax or try a different SVG file."@,
    )
}

/// Whether `e` is the error for a pixel map that cannot be made.
pub open spec fn is_pixmap_failure(e: FavisErrorView) -> bool {
    exists|width: u32, height: u32|
        !pixmap_fits(width, height) && e == processing_failure(
            #[trigger] pixmap_text(width, height),
        )
}

/// Render a parsed document to pixels of the given dimensions.
///
/// Fails with a processing error exactly if no pixel map of these
/// dimensions can be made.
pub fn render_tree(tree: &resvg::usvg::Tree, width: u32, height: u32) -> (r: Result<
    PixelBuffer,
    FavisError,
>)
    ensures
        match r {
            Ok(buffer) => pixmap_fits(width, height) && buffer.width() == width
                && buffer.height() == height,
            Err(e) => !pixmap_fits(width, height) && e@ == processing_failure(
                pixmap_text(width, height),
            ),
        },
{
    if can_allocate(width, height) {
        match draw_tree(tree, width, height) {
            Some(samples) => match PixelBuffer::from_rgba(width, height, samples) {
                Some(buffer) => Ok(buffer),
                None => vstd::pervasive::unreached(),
            },
            None => vstd::pervasive::unreached(),
        }
    } else {
        let w = decimal_chars(width);
        let h = decimal_chars(height);
        let mut text = chars_of("Cannot create ");
        append(&mut text, &w);
        append_str(&mut text, "x");
        append(&mut text, &h);
        append_str(&mut text, " pixmap - insufficient memory");
        let details = string_of(&text);
        let e = FavisError::processing_error(details.as_str());
        proof {
            reveal_strlit("Cannot create ");
            reveal_strlit("Processing hiccup: Cannot create ");
            reveal_strlit("Processing hiccup: ");
            assert("Processing hiccup: "@ + "Cannot create "@
                =~= "Processing hiccup: Cannot create "@);
            assert("Processing hiccup: "@ + details@ =~= pixmap_text(width, height));
        }
        Err(e)
    }
}

/// Render SVG data to pixels at the specified size.
///
/// Fails with `InvalidVectorSource` if the markup cannot be read, and with
/// a processing error if it can but no pixel map of these dimensions can be
/// made.
pub fn render_svg(svg_data: &[u8], width: u32, height: u32) -> (r: Result<PixelBuffer, FavisError>)
    ensures
        match r {
            Ok(buffer) => pixmap_fits(width, height) && buffer.width() == width
                && buffer.height() == height,
            Err(e) => (exists|reason: Seq<char>| e@ == unreadable(reason)) || (!pixmap_fits(
                width,
                height,
            ) && e@ == processing_failure(pixmap_text(width, height))),
        },
{
    match parse_svg(svg_data) {
        Ok(tree) => render_tree(&tree, width, height),
        Err(error) => {
            let reason = svg_error_text(&error);
            let e = FavisError::invalid_svg(reason.as_str());
            assert(e@ == unreadable(reason@));
            Err(e)
        },
    }
}

/// What reading the dimensions of a document gives, from what the parser
/// said: the size it found, or, for markup that it could not read, an
/// `InvalidVectorSource` error with its words.
pub fn dimensions_result(found: Result<(u32, u32), String>) -> (r: Result<(u32, u32), FavisError>)
    ensures
        match found {
            Ok(size) => r == Ok::<(u32, u32), FavisError>(size),
            Err(reason) => r matches Err(e) && e@ == unreadable(reason@),
        },
{
    match found {
        Ok(size) => Ok(size),
        Err(reason) => Err(FavisError::invalid_svg(reason.as_str())),
    }
}

/// Get the native dimensions of an SVG file: the size that the document
/// declares, in whole pixels.
///
/// Fails, with `InvalidVectorSource`, only if the markup cannot be read.
/// Whether it can be read, and which size it declares, is for the parser to
/// say; [`dimensions_result`] states what is returned for each answer.
pub fn get_svg_dimensions(svg_data: &[u8]) -> (r: Result<(u32, u32), FavisError>)
    ensures
        r matches Err(e) ==> exists|reason: Seq<char>| e@ == unreadable(reason),
{
    let found = match parse_svg(svg_data) {
        Ok(tree) => Ok(tree_size(&tree)),
        Err(error) => Err(svg_error_text(&error)),
    };
    dimensions_result(found)
}

/// Render SVG data to pixels at its native size. A vector source is never
/// too small: it is drawn at whatever size it declares.
pub fn render_svg_original_size(svg_data: &[u8]) -> (r: Result<PixelBuffer, FavisError>)
    ensures
        match r {
            Ok(buffer) => pixmap_fits(buffer.width(), buffer.height()),
            Err(e) => (exists|reason: Seq<char>| e@ == unreadable(reason)) || is_pixmap_failure(
                e@,
            ),
        },
{
    match get_svg_dimensions(svg_data) {
        Ok((width, height)) => render_svg(svg_data, width, height),
        Err(e) => Err(e),
    }
}

} // verus!
