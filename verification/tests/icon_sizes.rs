use favis::icon_sizes::{
    filter_by_priority, filter_by_purpose, get_all_sizes, get_ico_sizes, get_png_sizes,
    has_purpose, IconPriority, IconPurpose, ICO_MAX_SIZE,
};

#[test]
fn catalog_has_eighteen_entries_in_declaration_order() {
    let all = get_all_sizes();
    let sizes: Vec<u32> = all.iter().map(|e| e.size).collect();
    assert_eq!(
        sizes,
        vec![16, 32, 180, 192, 48, 76, 120, 152, 96, 128, 512, 57, 72, 114, 144, 64, 256, 384]
    );
    assert_eq!(all[0].description, "Classic favicon, browser tabs");
    assert_eq!(all[3].purposes, vec![IconPurpose::Android, IconPurpose::PWA]);
    assert_eq!(all[16].purposes, vec![IconPurpose::Favicon, IconPurpose::Windows]);
    assert_eq!(all[16].priority, IconPriority::Extended);
    assert_eq!(all[17].description, "PWA icon (large)");
}

#[test]
fn priority_levels_are_one_two_three() {
    assert_eq!(IconPriority::Required.level(), 1);
    assert_eq!(IconPriority::Recommended.level(), 2);
    assert_eq!(IconPriority::Extended.level(), 3);
}

#[test]
fn required_tier_yields_the_minimal_set() {
    assert_eq!(get_png_sizes(IconPriority::Required), vec![16, 32, 180, 192]);
    assert_eq!(get_ico_sizes(IconPriority::Required), vec![16, 32]);
}

#[test]
fn recommended_tier_keeps_catalog_order() {
    assert_eq!(
        get_png_sizes(IconPriority::Recommended),
        vec![16, 32, 180, 192, 48, 76, 120, 152, 96, 128, 512]
    );
    assert_eq!(get_ico_sizes(IconPriority::Recommended), vec![16, 32, 48, 128]);
}

#[test]
fn extended_tier_selects_everything() {
    assert_eq!(
        get_png_sizes(IconPriority::Extended),
        vec![16, 32, 180, 192, 48, 76, 120, 152, 96, 128, 512, 57, 72, 114, 144, 64, 256, 384]
    );
    assert_eq!(get_ico_sizes(IconPriority::Extended), vec![16, 32, 48, 128, 64, 256]);
}

#[test]
fn tiers_nest() {
    let required = get_png_sizes(IconPriority::Required);
    let recommended = get_png_sizes(IconPriority::Recommended);
    let extended = get_png_sizes(IconPriority::Extended);
    for size in &required {
        assert!(recommended.contains(size));
    }
    for size in &recommended {
        assert!(extended.contains(size));
    }
    assert!(required.len() < recommended.len());
    assert!(recommended.len() < extended.len());
}

#[test]
fn container_sizes_are_favicons_within_the_ceiling() {
    let all = get_all_sizes();
    for tier in [IconPriority::Required, IconPriority::Recommended, IconPriority::Extended] {
        for size in get_ico_sizes(tier) {
            assert!(size <= ICO_MAX_SIZE);
            assert!(size <= 256);
            assert!(all
                .iter()
                .any(|e| e.size == size && e.purposes.contains(&IconPurpose::Favicon)));
        }
    }
}

#[test]
fn filter_by_priority_keeps_whole_entries() {
    let kept = filter_by_priority(IconPriority::Required);
    assert_eq!(kept.len(), 4);
    assert_eq!(kept[2].size, 180);
    assert_eq!(kept[2].purposes, vec![IconPurpose::AppleTouch]);
    assert_eq!(kept[2].priority, IconPriority::Required);
    assert_eq!(kept[2].description, "Apple Touch Icon for iPhone (retina display)");
}

#[test]
fn filter_by_purpose_combines_both_predicates() {
    let apple: Vec<u32> =
        filter_by_purpose(IconPurpose::AppleTouch, IconPriority::Recommended)
            .iter()
            .map(|e| e.size)
            .collect();
    assert_eq!(apple, vec![180, 76, 120, 152]);
    let pwa: Vec<u32> = filter_by_purpose(IconPurpose::PWA, IconPriority::Extended)
        .iter()
        .map(|e| e.size)
        .collect();
    assert_eq!(pwa, vec![192, 512, 384]);
    let windows: Vec<u32> = filter_by_purpose(IconPurpose::Windows, IconPriority::Recommended)
        .iter()
        .map(|e| e.size)
        .collect();
    assert_eq!(windows, Vec::<u32>::new());
}

#[test]
fn has_purpose_finds_only_what_is_there() {
    let purposes = vec![IconPurpose::Android, IconPurpose::PWA];
    assert!(has_purpose(&purposes, IconPurpose::PWA));
    assert!(!has_purpose(&purposes, IconPurpose::Favicon));
    assert!(!has_purpose(&Vec::new(), IconPurpose::Favicon));
}
