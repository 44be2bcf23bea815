//! Centralized error handling with helpful recovery suggestions.

use crate::text::{append_str, chars_of, decimal, decimal_chars, has_infix, str_contains, string_of};
use vstd::prelude::*;
use vstd::string::StringExecFns;

verus! {

/// What went wrong, independent of the wording shown to the user.
#[derive(Debug, Clone, Copy, PartialEq, Eq, Structural)]
pub enum ErrorKind {
    /// A file that should be read does not exist.
    FileNotFound,
    /// The operating system denied access to a file or directory.
    PermissionDenied,
    /// The input is not in a supported format or shape.
    InvalidFormat,
    /// Vector markup could not be read.
    InvalidVectorSource,
    /// A raster source is below the minimum usable resolution.
    ImageTooSmall,
    /// An output could not be written.
    WriteError,
    /// Resampling or encoding failed.
    ProcessingError,
    /// The user cancelled the run; a clean abort, not a failure.
    UserCancelled,
}

/// What an I/O error of the operating system is about, as far as the error
/// taxonomy tells it apart.
#[derive(Debug, Clone, Copy, PartialEq, Eq, Structural)]
pub enum IoErrorClass {
    /// The file or directory does not exist.
    NotFound,
    /// Access was denied.
    PermissionDenied,
    /// Anything else.
    Other,
}

/// Custom error type with context and recovery suggestions
#[derive(Debug)]
pub struct FavisError {
    pub kind: ErrorKind,
    pub context: String,
    pub suggestion: Option<String>,
}

/// Mathematical value of a [`FavisError`].
pub struct FavisErrorView {
    pub kind: ErrorKind,
    pub context: Seq<char>,
    pub suggestion: Option<Seq<char>>,
}

impl View for FavisError {
    type V = FavisErrorView;

    open spec fn view(&self) -> FavisErrorView {
        FavisErrorView {
            kind: self.kind,
            context: self.context@,
            suggestion: match self.suggestion {
                Some(s) => Some(s@),
                None => None,
            },
        }
    }
}

/// An error value with a suggestion.
pub open spec fn failure(kind: ErrorKind, context: Seq<char>, suggestion: Seq<char>)
    -> FavisErrorView {
    FavisErrorView { kind, context, suggestion: Some(suggestion) }
}

/// The suggestion that goes with a format error whose text is `context`.
pub open spec fn format_suggestion(context: Seq<char>) -> Seq<char> {
    if has_infix(context, "isn't supported"@) {
        "Try an SVG (best option!) or a PNG with --raster-ok."@
    } else if has_infix(context, "--raster-ok flag"@) {
        "Add --raster-ok to use PNG files (quality might not be perfect at larger sizes)."@
    } else {
        "Use an SVG file for best results, or PNG with --raster-ok."@
    }
}

/// The suggestion that goes with a processing error whose text is `context`.
pub open spec fn processing_suggestion(context: Seq<char>) -> Seq<char> {
    if has_infix(context, "memory"@) || has_infix(context, "allocation"@) {
        "Try with a smaller image or close other apps to free up memory."@
    } else {
        "Check system resources and give it another shot!"@
    }
}

/// A processing error whose full text is `context`.
pub open spec fn processing_failure(context: Seq<char>) -> FavisErrorView {
    failure(ErrorKind::ProcessingError, context, processing_suggestion(context))
}

/// The error for a document that is not JSON of the expected shape, with the
/// parser's words in `reason`.
pub open spec fn unparsable(reason: Seq<char>) -> FavisErrorView {
    failure(
        ErrorKind::InvalidFormat,
        "JSON parsing error: "@ + reason,
        format_suggestion("JSON parsing error: "@ + reason),
    )
}

/// The text that reports a source below `min_size` pixels.
pub open spec fn too_small_text(min_size: u32) -> Seq<char> {
    "Oops! Image is too small - needs to be at least "@ + decimal(min_size as nat) + "x"@
        + decimal(min_size as nat) + " pixels"@
}

fn prefixed(prefix: &str, rest: &str) -> (s: String)
    ensures
        s@ == prefix@ + rest@,
{
    String::from_str(prefix).concat(rest)
}

impl FavisError {
    pub fn new(kind: ErrorKind, context: &str, suggestion: Option<String>) -> (e: FavisError)
        ensures
            e.kind == kind,
            e.context@ == context@,
            e.suggestion == suggestion,
    {
        FavisError { kind, context: String::from_str(context), suggestion }
    }

    fn with_hint(kind: ErrorKind, context: String, hint: &str) -> (e: FavisError)
        ensures
            e@ == failure(kind, context@, hint@),
    {
        FavisError { kind, context, suggestion: Some(String::from_str(hint)) }
    }

    pub fn file_not_found(path: &str) -> (e: FavisError)
        ensures
            e@ == failure(
                ErrorKind::FileNotFound,
                "Hmm, can't find that file: "@ + path@,
                "Double-check the path and make sure the file exists!"@,
            ),
    {
        Self::with_hint(
            ErrorKind::FileNotFound,
            prefixed("Hmm, can't find that file: ", path),
            "Double-check the path and make sure the file exists!",
        )
    }

    pub fn permission_denied(path: &str) -> (e: FavisError)
        ensures
            e@ == failure(
                ErrorKind::PermissionDenied,
                "Permission denied: "@ + path@,
                "Try running with elevated permissions or check file/directory permissions."@,
            ),
    {
        Self::with_hint(
            ErrorKind::PermissionDenied,
            prefixed("Permission denied: ", path),
            "Try running with elevated permissions or check file/directory permissions.",
        )
    }

    pub fn invalid_format(details: &str) -> (e: FavisError)
        ensures
            e@ == failure(ErrorKind::InvalidFormat, details@, format_suggestion(details@)),
    {
        let suggestion = if str_contains(details, "isn't supported") {
            "Try an SVG (best option!) or a PNG with --raster-ok."
        } else if str_contains(details, "--raster-ok flag") {
            "Add --raster-ok to use PNG files (quality might not be perfect at larger sizes)."
        } else {
            "Use an SVG file for best results, or PNG with --raster-ok."
        };
        Self::with_hint(ErrorKind::InvalidFormat, String::from_str(details), suggestion)
    }

    pub fn image_too_small(min_size: u32) -> (e: FavisError)
        ensures
            e@ == failure(
                ErrorKind::ImageTooSmall,
                too_small_text(min_size),
                "Try a larger source image or use an SVG for crisp results at any size!"@,
            ),
    {
        let digits = decimal_chars(min_size);
        let mut text = chars_of("Oops! Image is too small - needs to be at least ");
        crate::text::append(&mut text, &digits);
        append_str(&mut text, "x");
        crate::text::append(&mut text, &digits);
        append_str(&mut text, " pixels");
        Self::with_hint(
            ErrorKind::ImageTooSmall,
            string_of(&text),
            "Try a larger source image or use an SVG for crisp results at any size!",
        )
    }

    pub fn invalid_svg(reason: &str) -> (e: FavisError)
        ensures
            e@ == failure(
                ErrorKind::InvalidVectorSource,
                "SVG trouble: "@ + reason@,
                "Check the SVG syntax or try a different SVG file."@,
            ),
    {
        Self::with_hint(
            ErrorKind::InvalidVectorSource,
            prefixed("SVG trouble: ", reason),
            "Check the SVG syntax or try a different SVG file.",
        )
    }

    pub fn write_error(path: &str) -> (e: FavisError)
        ensures
            e@ == failure(
                ErrorKind::WriteError,
                "Can't write to: "@ + path@,
                "Make sure the output directory exists and you have write permissions."@,
            ),
    {
        Self::with_hint(
            ErrorKind::WriteError,
            prefixed("Can't write to: ", path),
            "Make sure the output directory exists and you have write permissions.",
        )
    }

    pub fn processing_error(details: &str) -> (e: FavisError)
        ensures
            e@ == processing_failure("Processing hiccup: "@ + details@),
    {
        let context = prefixed("Processing hiccup: ", details);
        let suggestion = if str_contains(context.as_str(), "memory") || str_contains(
            context.as_str(),
            "allocation",
        ) {
            "Try with a smaller image or close other apps to free up memory."
        } else {
            "Check system resources and give it another shot!"
        };
        Self::with_hint(ErrorKind::ProcessingError, context, suggestion)
    }

    pub fn user_cancelled() -> (e: FavisError)
        ensures
            e@ == failure(
                ErrorKind::UserCancelled,
                "Operation cancelled by user"@,
                "All partial files have been cleaned up automatically."@,
            ),
    {
        Self::with_hint(
            ErrorKind::UserCancelled,
            String::from_str("Operation cancelled by user"),
            "All partial files have been cleaned up automatically.",
        )
    }

    pub fn interrupted(details: &str) -> (e: FavisError)
        ensures
            e@ == failure(
                ErrorKind::UserCancelled,
                "Process interrupted: "@ + details@,
                "Cleaning up temporary files and partial outputs"@,
            ),
    {
        Self::with_hint(
            ErrorKind::UserCancelled,
            prefixed("Process interrupted: ", details),
            "Cleaning up temporary files and partial outputs",
        )
    }

    /// The error for an I/O failure of the given class, with the words of
    /// the operating system.
    pub fn from_io(class: IoErrorClass, message: &str) -> (e: FavisError)
        ensures
            e@ == match class {
                IoErrorClass::NotFound => failure(
                    ErrorKind::FileNotFound,
                    "Hmm, can't find that file: "@ + message@,
                    "Double-check the path and make sure the file exists!"@,
                ),
                IoErrorClass::PermissionDenied => failure(
                    ErrorKind::PermissionDenied,
                    "Permission denied: "@ + message@,
                    "Try running with elevated permissions or check file/directory permissions."@,
                ),
                IoErrorClass::Other => processing_failure("Processing hiccup: "@ + message@),
            },
    {
        match class {
            IoErrorClass::NotFound => Self::file_not_found(message),
            IoErrorClass::PermissionDenied => Self::permission_denied(message),
            IoErrorClass::Other => Self::processing_error(message),
        }
    }

    /// The error for a document that is not JSON of the expected shape, with
    /// the words of the parser.
    pub fn from_json(message: &str) -> (e: FavisError)
        ensures
            e@ == unparsable(message@),
    {
        let details = prefixed("JSON parsing error: ", message);
        Self::invalid_format(details.as_str())
    }

    /// Whether the error reports a cancellation by the user rather than a
    /// genuine failure.
    pub fn is_cancellation(&self) -> (c: bool)
        ensures
            c == (self.kind == ErrorKind::UserCancelled),
    {
        self.kind == ErrorKind::UserCancelled
    }

    /// The text shown for the error: its context.
    pub fn message(&self) -> (m: String)
        ensures
            m@ == self.context@,
    {
        self.context.clone()
    }
}

/// Result type alias for convenience
pub type Result<T> = std::result::Result<T, FavisError>;

} // verus!
