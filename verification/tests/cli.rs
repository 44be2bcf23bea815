use favis::cli::{classify, classify_source, plan_generate, Cli, Commands, SizeLevel};
use favis::error::ErrorKind;
use favis::icon_sizes::IconPriority;
use favis::img::SourceKind;

#[test]
fn coverage_levels_map_one_to_one_to_tiers() {
    assert_eq!(SizeLevel::Required.priority(), IconPriority::Required);
    assert_eq!(SizeLevel::Recommended.priority(), IconPriority::Recommended);
    assert_eq!(SizeLevel::Extended.priority(), IconPriority::Extended);
}

#[test]
fn coverage_levels_have_their_words() {
    for level in [SizeLevel::Required, SizeLevel::Recommended, SizeLevel::Extended] {
        assert_eq!(SizeLevel::from_name(level.name()), Some(level));
    }
    assert_eq!(SizeLevel::Required.name(), "required");
    assert_eq!(SizeLevel::Recommended.name(), "recommended");
    assert_eq!(SizeLevel::Extended.name(), "extended");
    assert_eq!(SizeLevel::from_name("Required"), None);
    assert_eq!(SizeLevel::from_name("all"), None);
    assert_eq!(SizeLevel::from_name(""), None);
}

#[test]
fn svg_sources_are_vector() {
    assert_eq!(classify_source("logo.svg", false).unwrap(), SourceKind::Vector);
    assert_eq!(classify_source("logo.SVG", true).unwrap(), SourceKind::Vector);
    assert_eq!(classify_source("dir.png/logo.Svg", false).unwrap(), SourceKind::Vector);
}

#[test]
fn png_sources_need_explicit_approval() {
    assert_eq!(classify_source("logo.png", true).unwrap(), SourceKind::Raster);
    assert_eq!(classify_source("LOGO.PNG", true).unwrap(), SourceKind::Raster);
    let e = classify_source("logo.png", false).unwrap_err();
    assert_eq!(e.kind, ErrorKind::InvalidFormat);
    assert_eq!(e.context, "PNG detected! You'll need the --raster-ok flag to continue.");
    assert_eq!(
        e.suggestion.as_deref(),
        Some("Add --raster-ok to use PNG files (quality might not be perfect at larger sizes).")
    );
}

#[test]
fn other_sources_are_refused() {
    for source in ["logo.jpg", "logo", "logo.svg.gz", "", "png", "logo.pngx"] {
        for raster_ok in [false, true] {
            let e = classify_source(source, raster_ok).unwrap_err();
            assert_eq!(e.kind, ErrorKind::InvalidFormat);
            assert_eq!(e.context, "Oops! That file format isn't supported.");
            assert_eq!(
                e.suggestion.as_deref(),
                Some("Try an SVG (best option!) or a PNG with --raster-ok.")
            );
        }
    }
}

#[test]
fn a_plan_selects_the_sizes_of_the_level() {
    let plan = plan_generate("logo.svg", SizeLevel::Required, false).unwrap();
    assert_eq!(plan.kind, SourceKind::Vector);
    assert_eq!(plan.priority, IconPriority::Required);
    assert_eq!(plan.png_sizes, vec![16, 32, 180, 192]);
    assert_eq!(plan.ico_sizes, vec![16, 32]);
    let plan = plan_generate("logo.png", SizeLevel::Extended, true).unwrap();
    assert_eq!(plan.kind, SourceKind::Raster);
    assert_eq!(plan.png_sizes.len(), 18);
    assert_eq!(plan.ico_sizes, vec![16, 32, 48, 128, 64, 256]);
}

#[test]
fn a_plan_fails_as_the_source_check_does() {
    let e = plan_generate("logo.png", SizeLevel::Recommended, false).unwrap_err();
    assert_eq!(e.context, "PNG detected! You'll need the --raster-ok flag to continue.");
    let e = plan_generate("logo.bmp", SizeLevel::Recommended, true).unwrap_err();
    assert_eq!(e.context, "Oops! That file format isn't supported.");
}

#[test]
fn commands_carry_their_arguments() {
    let cli = Cli {
        command: Some(Commands::Link {
            manifest: "manifest.webmanifest".to_string(),
            base: Some("/assets".to_string()),
            output: None,
        }),
    };
    match cli.command {
        Some(Commands::Link { manifest, base, output }) => {
            assert_eq!(manifest, "manifest.webmanifest");
            assert_eq!(base.as_deref(), Some("/assets"));
            assert_eq!(output, None);
        }
        _ => panic!("not a link command"),
    }
    let generate = Commands::Generate {
        source: "logo.svg".to_string(),
        coverage: SizeLevel::Recommended,
        manifest: true,
        output: ".".to_string(),
        raster_ok: false,
    };
    assert!(matches!(generate, Commands::Generate { manifest: true, raster_ok: false, .. }));
}

#[test]
fn classify_decides_from_the_extension_tests() {
    assert_eq!(classify(true, false, false).unwrap(), SourceKind::Vector);
    assert_eq!(classify(true, false, true).unwrap(), SourceKind::Vector);
    assert_eq!(classify(true, true, false).unwrap(), SourceKind::Vector);
    assert_eq!(classify(false, true, true).unwrap(), SourceKind::Raster);
    let e = classify(false, true, false).unwrap_err();
    assert_eq!(e.kind, ErrorKind::InvalidFormat);
    assert_eq!(e.context, "PNG detected! You'll need the --raster-ok flag to continue.");
    for raster_ok in [false, true] {
        let e = classify(false, false, raster_ok).unwrap_err();
        assert_eq!(e.context, "Oops! That file format isn't supported.");
    }
}
