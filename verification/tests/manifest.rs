use favis::icon_sizes::{IconPriority, IconPurpose};
use favis::manifest::{
    generate_manifest, map_purpose_to_manifest, sizes_attribute, Manifest, ManifestIcon,
};

fn existing_document() -> Manifest {
    Manifest {
        name: Some("My App".to_string()),
        short_name: None,
        icons: vec![ManifestIcon {
            src: "old.png".to_string(),
            sizes: "1x1".to_string(),
            mime_type: "image/png".to_string(),
            purpose: Some("monochrome".to_string()),
        }],
        start_url: Some("/".to_string()),
        display: Some("standalone".to_string()),
        theme_color: Some("#ffffff".to_string()),
        background_color: None,
        additional_fields: vec![
            ("orientation".to_string(), "\"portrait\"".to_string()),
            ("x-vendor".to_string(), "{\"deep\":[1,2,{\"k\":null}]}".to_string()),
            ("categories".to_string(), "[ \"a\",  \"b\" ]".to_string()),
        ],
    }
}

#[test]
fn purposes_map_to_their_manifest_keywords() {
    assert_eq!(map_purpose_to_manifest(&IconPurpose::PWA), Some("any"));
    assert_eq!(map_purpose_to_manifest(&IconPurpose::Android), Some("maskable"));
    assert_eq!(map_purpose_to_manifest(&IconPurpose::Favicon), None);
    assert_eq!(map_purpose_to_manifest(&IconPurpose::AppleTouch), None);
    assert_eq!(map_purpose_to_manifest(&IconPurpose::Windows), None);
}

#[test]
fn sizes_attribute_is_n_by_n() {
    assert_eq!(sizes_attribute(16), "16x16");
    assert_eq!(sizes_attribute(512), "512x512");
}

#[test]
fn a_new_manifest_holds_only_icons() {
    let manifest = generate_manifest(None, IconPriority::Required);
    assert_eq!(manifest.name, None);
    assert_eq!(manifest.short_name, None);
    assert_eq!(manifest.start_url, None);
    assert_eq!(manifest.display, None);
    assert_eq!(manifest.theme_color, None);
    assert_eq!(manifest.background_color, None);
    assert!(manifest.additional_fields.is_empty());
    let listed: Vec<(&str, &str, &str, Option<&str>)> = manifest
        .icons
        .iter()
        .map(|i| (i.src.as_str(), i.sizes.as_str(), i.mime_type.as_str(), i.purpose.as_deref()))
        .collect();
    assert_eq!(
        listed,
        vec![
            ("favicon-16x16.png", "16x16", "image/png", None),
            ("favicon-32x32.png", "32x32", "image/png", None),
            ("favicon-180x180.png", "180x180", "image/png", None),
            ("favicon-192x192.png", "192x192", "image/png", Some("maskable")),
        ]
    );
}

#[test]
fn purpose_is_present_only_where_a_keyword_exists() {
    let manifest = generate_manifest(None, IconPriority::Extended);
    assert_eq!(manifest.icons.len(), 18);
    for icon in &manifest.icons {
        let expected = match icon.sizes.as_str() {
            "192x192" | "96x96" => Some("maskable"),
            "512x512" | "384x384" => Some("any"),
            _ => None,
        };
        assert_eq!(icon.purpose.as_deref(), expected);
        assert_eq!(icon.mime_type, "image/png");
        assert_eq!(icon.src, format!("favicon-{}.png", icon.sizes));
    }
}

#[test]
fn merging_replaces_the_icons_and_nothing_else() {
    let manifest = generate_manifest(Some(existing_document()), IconPriority::Recommended);
    let before = existing_document();
    assert_eq!(manifest.name, before.name);
    assert_eq!(manifest.short_name, before.short_name);
    assert_eq!(manifest.start_url, before.start_url);
    assert_eq!(manifest.display, before.display);
    assert_eq!(manifest.theme_color, before.theme_color);
    assert_eq!(manifest.background_color, before.background_color);
    assert_eq!(manifest.additional_fields, before.additional_fields);
    assert_eq!(manifest.icons.len(), 11);
    assert!(manifest.icons.iter().all(|i| i.src != "old.png"));
    assert_eq!(manifest.icons[0].src, "favicon-16x16.png");
    assert_eq!(manifest.icons[10].sizes, "512x512");
    assert_eq!(manifest.icons[10].purpose.as_deref(), Some("any"));
}

#[test]
fn an_unknown_field_survives_unchanged() {
    let manifest = generate_manifest(Some(existing_document()), IconPriority::Required);
    let kept = manifest
        .additional_fields
        .iter()
        .find(|f| f.0 == "x-vendor")
        .expect("the unknown field is gone");
    assert_eq!(kept.1, "{\"deep\":[1,2,{\"k\":null}]}");
    assert_eq!(manifest.additional_fields[2].1, "[ \"a\",  \"b\" ]");
}

#[test]
fn merged_and_new_manifests_have_the_same_icons() {
    let merged = generate_manifest(Some(existing_document()), IconPriority::Extended);
    let fresh = generate_manifest(None, IconPriority::Extended);
    assert_eq!(merged.icons.len(), fresh.icons.len());
    for (a, b) in merged.icons.iter().zip(fresh.icons.iter()) {
        assert_eq!(a.src, b.src);
        assert_eq!(a.sizes, b.sizes);
        assert_eq!(a.mime_type, b.mime_type);
        assert_eq!(a.purpose, b.purpose);
    }
}

#[test]
fn manifest_synthesis_fails_on_a_document_that_did_not_parse() {
    let e = match favis::manifest::synthesize(
        Some(Err("missing field `icons` at line 1 column 2".to_string())),
        IconPriority::Required,
    ) {
        Ok(_) => panic!("an unparsable document was accepted"),
        Err(e) => e,
    };
    assert_eq!(e.kind, favis::error::ErrorKind::InvalidFormat);
    assert_eq!(e.context, "JSON parsing error: missing field `icons` at line 1 column 2");
}

#[test]
fn manifest_synthesis_builds_or_merges_what_parsed() {
    let fresh = favis::manifest::synthesize(None, IconPriority::Required).unwrap();
    assert_eq!(fresh.icons.len(), 4);
    assert_eq!(fresh.name, None);
    let merged =
        favis::manifest::synthesize(Some(Ok(existing_document())), IconPriority::Required).unwrap();
    assert_eq!(merged.icons.len(), 4);
    assert_eq!(merged.name.as_deref(), Some("My App"));
    assert_eq!(merged.additional_fields, existing_document().additional_fields);
}
