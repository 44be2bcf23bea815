use favis::error::{ErrorKind, FavisError, IoErrorClass};

#[test]
fn new_keeps_what_it_is_given() {
    let e = FavisError::new(ErrorKind::WriteError, "disk full", Some("free some space".to_string()));
    assert_eq!(e.kind, ErrorKind::WriteError);
    assert_eq!(e.context, "disk full");
    assert_eq!(e.suggestion.as_deref(), Some("free some space"));
    let bare = FavisError::new(ErrorKind::ProcessingError, "oops", None);
    assert_eq!(bare.suggestion, None);
}

#[test]
fn file_not_found_names_the_path() {
    let e = FavisError::file_not_found("logo.svg");
    assert_eq!(e.kind, ErrorKind::FileNotFound);
    assert_eq!(e.context, "Hmm, can't find that file: logo.svg");
    assert_eq!(
        e.suggestion.as_deref(),
        Some("Double-check the path and make sure the file exists!")
    );
}

#[test]
fn permission_denied_names_the_path() {
    let e = FavisError::permission_denied("/root/out");
    assert_eq!(e.kind, ErrorKind::PermissionDenied);
    assert_eq!(e.context, "Permission denied: /root/out");
    assert_eq!(
        e.suggestion.as_deref(),
        Some("Try running with elevated permissions or check file/directory permissions.")
    );
}

#[test]
fn invalid_format_picks_its_suggestion_from_the_text() {
    let unsupported = FavisError::invalid_format("Oops! That file format isn't supported.");
    assert_eq!(unsupported.kind, ErrorKind::InvalidFormat);
    assert_eq!(unsupported.context, "Oops! That file format isn't supported.");
    assert_eq!(
        unsupported.suggestion.as_deref(),
        Some("Try an SVG (best option!) or a PNG with --raster-ok.")
    );
    let raster =
        FavisError::invalid_format("PNG detected! You'll need the --raster-ok flag to continue.");
    assert_eq!(
        raster.suggestion.as_deref(),
        Some("Add --raster-ok to use PNG files (quality might not be perfect at larger sizes).")
    );
    let other = FavisError::invalid_format("not an image");
    assert_eq!(
        other.suggestion.as_deref(),
        Some("Use an SVG file for best results, or PNG with --raster-ok.")
    );
    let both = FavisError::invalid_format("isn't supported without the --raster-ok flag");
    assert_eq!(
        both.suggestion.as_deref(),
        Some("Try an SVG (best option!) or a PNG with --raster-ok.")
    );
}

#[test]
fn image_too_small_states_the_minimum() {
    let e = FavisError::image_too_small(64);
    assert_eq!(e.kind, ErrorKind::ImageTooSmall);
    assert_eq!(e.context, "Oops! Image is too small - needs to be at least 64x64 pixels");
    assert_eq!(
        e.suggestion.as_deref(),
        Some("Try a larger source image or use an SVG for crisp results at any size!")
    );
    assert_eq!(
        FavisError::image_too_small(0).context,
        "Oops! Image is too small - needs to be at least 0x0 pixels"
    );
    assert_eq!(
        FavisError::image_too_small(4294967295).context,
        "Oops! Image is too small - needs to be at least 4294967295x4294967295 pixels"
    );
}

#[test]
fn invalid_svg_gives_the_reason() {
    let e = FavisError::invalid_svg("SVG file is empty");
    assert_eq!(e.kind, ErrorKind::InvalidVectorSource);
    assert_eq!(e.context, "SVG trouble: SVG file is empty");
    assert_eq!(e.suggestion.as_deref(), Some("Check the SVG syntax or try a different SVG file."));
}

#[test]
fn write_error_names_the_target() {
    let e = FavisError::write_error("Cannot create output directory: out");
    assert_eq!(e.kind, ErrorKind::WriteError);
    assert_eq!(e.context, "Can't write to: Cannot create output directory: out");
    assert_eq!(
        e.suggestion.as_deref(),
        Some("Make sure the output directory exists and you have write permissions.")
    );
}

#[test]
fn processing_error_suggests_memory_relief_only_for_memory_trouble() {
    let plain = FavisError::processing_error("Cannot encode 16x16 icon for ICO");
    assert_eq!(plain.kind, ErrorKind::ProcessingError);
    assert_eq!(plain.context, "Processing hiccup: Cannot encode 16x16 icon for ICO");
    assert_eq!(
        plain.suggestion.as_deref(),
        Some("Check system resources and give it another shot!")
    );
    let memory = FavisError::processing_error("Cannot create 9x9 pixmap - insufficient memory");
    assert_eq!(
        memory.suggestion.as_deref(),
        Some("Try with a smaller image or close other apps to free up memory.")
    );
    let allocation = FavisError::processing_error("allocation failed");
    assert_eq!(
        allocation.suggestion.as_deref(),
        Some("Try with a smaller image or close other apps to free up memory.")
    );
}

#[test]
fn user_cancelled_is_a_clean_abort() {
    let e = FavisError::user_cancelled();
    assert_eq!(e.kind, ErrorKind::UserCancelled);
    assert_eq!(e.context, "Operation cancelled by user");
    assert_eq!(
        e.suggestion.as_deref(),
        Some("All partial files have been cleaned up automatically.")
    );
    assert!(e.is_cancellation());
    assert!(!FavisError::write_error("x").is_cancellation());
}

#[test]
fn interrupted_gives_the_details() {
    let e = FavisError::interrupted("SIGINT");
    assert_eq!(e.kind, ErrorKind::UserCancelled);
    assert_eq!(e.context, "Process interrupted: SIGINT");
    assert_eq!(
        e.suggestion.as_deref(),
        Some("Cleaning up temporary files and partial outputs")
    );
}

#[test]
fn message_is_the_context() {
    assert_eq!(FavisError::write_error("a.png").message(), "Can't write to: a.png");
    assert_eq!(FavisError::user_cancelled().message(), "Operation cancelled by user");
}

#[test]
fn io_failures_map_by_class() {
    let missing = FavisError::from_io(IoErrorClass::NotFound, "No such file or directory");
    assert_eq!(missing.kind, ErrorKind::FileNotFound);
    assert_eq!(missing.context, "Hmm, can't find that file: No such file or directory");
    let denied = FavisError::from_io(IoErrorClass::PermissionDenied, "Permission denied");
    assert_eq!(denied.kind, ErrorKind::PermissionDenied);
    assert_eq!(denied.context, "Permission denied: Permission denied");
    let other = FavisError::from_io(IoErrorClass::Other, "out of memory");
    assert_eq!(other.kind, ErrorKind::ProcessingError);
    assert_eq!(other.context, "Processing hiccup: out of memory");
    assert_eq!(
        other.suggestion.as_deref(),
        Some("Try with a smaller image or close other apps to free up memory.")
    );
}

#[test]
fn json_failures_are_format_errors() {
    let e = FavisError::from_json("expected value at line 1 column 1");
    assert_eq!(e.kind, ErrorKind::InvalidFormat);
    assert_eq!(e.context, "JSON parsing error: expected value at line 1 column 1");
    assert_eq!(
        e.suggestion.as_deref(),
        Some("Use an SVG file for best results, or PNG with --raster-ok.")
    );
}
