//! The commands of the `favis` tool and what they ask for.
//!
//! The types mirror the command line; reading the arguments themselves is
//! left to the caller.

use crate::error::{failure, format_suggestion, ErrorKind, FavisError, FavisErrorView};
use crate::icon_sizes::{get_ico_sizes, get_png_sizes, ico_sizes, png_sizes, IconPriority};
use crate::img::SourceKind;
use crate::text::{chars_of, ends_with, has_suffix, lowercase, lowercased, str_same};
use vstd::prelude::*;

verus! {

/// The parsed command line.
#[derive(Debug)]
pub struct Cli {
    pub command: Option<Commands>,
}

/// Icon size coverage: required, recommended, or extended
#[derive(Copy, Clone, Debug, PartialEq, Eq, Structural)]
pub enum SizeLevel {
    /// Only required sizes (minimal set, fastest)
    Required,
    /// Recommended sizes (good compatibility, default)
    Recommended,
    /// All sizes (maximum compatibility)
    Extended,
}

#[derive(Debug)]
#[allow(inconsistent_fields)]
pub enum Commands {
    /// Generate favicon PNGs, ICO, and manifest from a source image
    Generate {
        /// Path to the source image file (SVG preferred)
        source: String,
        /// Icon size coverage: required, recommended, or extended
        coverage: SizeLevel,
        /// Also generate a web manifest file
        manifest: bool,
        /// Output directory for generated files
        output: String,
        /// Allow raster source images despite quality concerns
        raster_ok: bool,
    },
    /// Generate HTML <link> tags from a webmanifest file
    Link {
        /// Path to the manifest.webmanifest file
        manifest: String,
        /// Base URL path to prefix for all icon links
        base: Option<String>,
        /// Output HTML file path (default: print to stdout)
        output: Option<String>,
    },
}

impl SizeLevel {
    /// The catalog tier of the coverage level.
    pub open spec fn spec_priority(self) -> IconPriority {
        match self {
            SizeLevel::Required => IconPriority::Required,
            SizeLevel::Recommended => IconPriority::Recommended,
            SizeLevel::Extended => IconPriority::Extended,
        }
    }

    /// The word for the coverage level on the command line.
    pub open spec fn spec_name(self) -> Seq<char> {
        match self {
            SizeLevel::Required => "required"@,
            SizeLevel::Recommended => "recommended"@,
            SizeLevel::Extended => "extended"@,
        }
    }

    /// Convert the coverage level to the catalog's priority tier.
    #[verifier::when_used_as_spec(spec_priority)]
    pub fn priority(self) -> (p: IconPriority)
        ensures
            p == self.spec_priority(),
    {
        match self {
            SizeLevel::Required => IconPriority::Required,
            SizeLevel::Recommended => IconPriority::Recommended,
            SizeLevel::Extended => IconPriority::Extended,
        }
    }

    /// The word for the coverage level on the command line.
    pub fn name(self) -> (word: &'static str)
        ensures
            word@ == self.spec_name(),
    {
        match self {
            SizeLevel::Required => "required",
            SizeLevel::Recommended => "recommended",
            SizeLevel::Extended => "extended",
        }
    }

    /// The coverage level that `word` names, if it names one: `required`,
    /// `recommended` or `extended`.
    pub fn from_name(word: &str) -> (level: Option<SizeLevel>)
        ensures
            match level {
                Some(l) => word@ == l.spec_name(),
                None => word@ != "required"@ && word@ != "recommended"@ && word@ != "extended"@,
            },
    {
        if str_same(word, "required") {
            Some(SizeLevel::Required)
        } else if str_same(word, "recommended") {
            Some(SizeLevel::Recommended)
        } else if str_same(word, "extended") {
            Some(SizeLevel::Extended)
        } else {
            None
        }
    }
}

/// Whether the file name ends in the given extension, whatever the case of
/// its letters.
pub open spec fn has_extension(source: Seq<char>, extension: Seq<char>) -> bool {
    has_suffix(lowercased(source), extension)
}

/// The error for a source that is neither SVG nor PNG.
pub open spec fn unsupported_source() -> FavisErrorView {
    failure(
        ErrorKind::InvalidFormat,
        "Oops! That file format isn't supported."@,
        format_suggestion("Oops! That file format isn't supported."@),
    )
}

/// The error for a PNG source that was not explicitly allowed.
pub open spec fn raster_not_allowed() -> FavisErrorView {
    failure(
        ErrorKind::InvalidFormat,
        "PNG detected! You'll need the --raster-ok flag to continue."@,
        format_suggestion("PNG detected! You'll need the --raster-ok flag to continue."@),
    )
}

/// The kind of a source that is accepted, given what the extension tests
/// showed: vector for `.svg`; raster for `.png` if raster sources are
/// allowed.
pub open spec fn classified(is_svg: bool, is_png: bool, raster_ok: bool) -> Option<SourceKind> {
    if is_svg {
        Some(SourceKind::Vector)
    } else if is_png && raster_ok {
        Some(SourceKind::Raster)
    } else {
        None
    }
}

/// Tells what kind of source a file is, given whether its name ends in
/// `.svg` and whether it ends in `.png`.
///
/// An SVG is a vector source. A PNG is a raster source, which is accepted
/// only if `raster_ok` is set. Anything else is rejected.
pub fn classify(is_svg: bool, is_png: bool, raster_ok: bool) -> (r: Result<SourceKind, FavisError>)
    ensures
        match r {
            Ok(kind) => classified(is_svg, is_png, raster_ok) == Some(kind),
            Err(e) => classified(is_svg, is_png, raster_ok) is None && if is_png {
                e@ == raster_not_allowed()
            } else {
                e@ == unsupported_source()
            },
        },
{
    // Validate that the file is a supported image format
    if !is_svg && !is_png {
        return Err(FavisError::invalid_format("Oops! That file format isn't supported."));
    }
    // Check if using PNG (raster) and require explicit approval
    if is_png && !is_svg && !raster_ok {
        return Err(
            FavisError::invalid_format(
                "PNG detected! You'll need the --raster-ok flag to continue.",
            ),
        );
    }
    if is_svg {
        Ok(SourceKind::Vector)
    } else {
        Ok(SourceKind::Raster)
    }
}

/// Tells from its name what kind of source a file is.
///
/// A name that ends in `.svg` is a vector source. A name that ends in
/// `.png` is a raster source, which is accepted only if `raster_ok` is set.
/// Any other name is rejected.
pub fn classify_source(source: &str, raster_ok: bool) -> (r: Result<SourceKind, FavisError>)
    ensures
        match r {
            Ok(kind) => classify_source_ok(source@, raster_ok) == Some(kind),
            Err(e) => classify_source_ok(source@, raster_ok) is None && if has_extension(
                source@,
                ".png"@,
            ) {
                e@ == raster_not_allowed()
            } else {
                e@ == unsupported_source()
            },
        },
{
    // Check file extension to determine format
    let source_lower = chars_of(lowercase(source).as_str());
    let is_svg = ends_with(&source_lower, &chars_of(".svg"));
    let is_png = ends_with(&source_lower, &chars_of(".png"));
    classify(is_svg, is_png, raster_ok)
}

/// What a `generate` command produces.
#[derive(Debug)]
pub struct GeneratePlan {
    /// Kind of the source image.
    pub kind: SourceKind,
    /// The catalog tier that was asked for.
    pub priority: IconPriority,
    /// Sizes of the raster files, in catalog order.
    pub png_sizes: Vec<u32>,
    /// Sizes embedded in the container, in catalog order.
    pub ico_sizes: Vec<u32>,
}

/// Plans a `generate` command: validates the source by its name and selects
/// the sizes of the coverage level.
pub fn plan_generate(source: &str, coverage: SizeLevel, raster_ok: bool) -> (r: Result<
    GeneratePlan,
    FavisError,
>)
    ensures
        match r {
            Ok(plan) => {
                &&& classify_source_ok(source@, raster_ok) == Some(plan.kind)
                &&& plan.priority == coverage.priority()
                &&& plan.png_sizes@ == png_sizes(coverage.priority())
                &&& plan.ico_sizes@ == ico_sizes(coverage.priority())
            },
            Err(e) => classify_source_ok(source@, raster_ok) is None && if has_extension(
                source@,
                ".png"@,
            ) {
                e@ == raster_not_allowed()
            } else {
                e@ == unsupported_source()
            },
        },
{
    match classify_source(source, raster_ok) {
        Ok(kind) => {
            // Convert the coverage level to the catalog's priority
            let priority = coverage.priority();
            // Get the appropriate sizes based on priority
            Ok(
                GeneratePlan {
                    kind,
                    priority,
                    png_sizes: get_png_sizes(priority),
                    ico_sizes: get_ico_sizes(priority),
                },
            )
        },
        Err(e) => Err(e),
    }
}

/// The kind of a source that is accepted, by its name.
pub open spec fn classify_source_ok(source: Seq<char>, raster_ok: bool) -> Option<SourceKind> {
    classified(has_extension(source, ".svg"@), has_extension(source, ".png"@), raster_ok)
}

} // verus!
