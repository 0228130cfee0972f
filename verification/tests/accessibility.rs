use ios_examples::accessibility_bold_text::{AccessibilityBoldText, AccessibilityBoldTextPlugin};
use ios_examples::preferred_content_size_category::{
    ContentSizeCategoryNames, LatestContentSizeCategory, PreferredContentSizeCategory,
};

fn names() -> ContentSizeCategoryNames {
    ContentSizeCategoryNames {
        unspecified: "_UICTContentSizeCategoryUnspecified".to_string(),
        extra_small: "UICTContentSizeCategoryXS".to_string(),
        small: "UICTContentSizeCategoryS".to_string(),
        medium: "UICTContentSizeCategoryM".to_string(),
        large: "UICTContentSizeCategoryL".to_string(),
        extra_large: "UICTContentSizeCategoryXL".to_string(),
        extra_extra_large: "UICTContentSizeCategoryXXL".to_string(),
        extra_extra_extra_large: "UICTContentSizeCategoryXXXL".to_string(),
        accessibility_medium: "UICTContentSizeCategoryAccessibilityM".to_string(),
        accessibility_large: "UICTContentSizeCategoryAccessibilityL".to_string(),
        accessibility_extra_large: "UICTContentSizeCategoryAccessibilityXL".to_string(),
        accessibility_extra_extra_large: "UICTContentSizeCategoryAccessibilityXXL".to_string(),
        accessibility_extra_extra_extra_large: "UICTContentSizeCategoryAccessibilityXXXL".to_string(),
    }
}

fn all() -> Vec<(&'static str, PreferredContentSizeCategory, u32)> {
    vec![
        ("_UICTContentSizeCategoryUnspecified", PreferredContentSizeCategory::Unspecified, 10),
        ("UICTContentSizeCategoryXS", PreferredContentSizeCategory::ExtraSmall, 6),
        ("UICTContentSizeCategoryS", PreferredContentSizeCategory::Small, 8),
        ("UICTContentSizeCategoryM", PreferredContentSizeCategory::Medium, 10),
        ("UICTContentSizeCategoryL", PreferredContentSizeCategory::Large, 12),
        ("UICTContentSizeCategoryXL", PreferredContentSizeCategory::ExtraLarge, 14),
        ("UICTContentSizeCategoryXXL", PreferredContentSizeCategory::ExtraExtraLarge, 17),
        ("UICTContentSizeCategoryXXXL", PreferredContentSizeCategory::ExtraExtraExtraLarge, 20),
        ("UICTContentSizeCategoryAccessibilityM", PreferredContentSizeCategory::AccessibilityMedium, 30),
        ("UICTContentSizeCategoryAccessibilityL", PreferredContentSizeCategory::AccessibilityLarge, 40),
        ("UICTContentSizeCategoryAccessibilityXL", PreferredContentSizeCategory::AccessibilityExtraLarge, 50),
        ("UICTContentSizeCategoryAccessibilityXXL", PreferredContentSizeCategory::AccessibilityExtraExtraLarge, 60),
        ("UICTContentSizeCategoryAccessibilityXXXL", PreferredContentSizeCategory::AccessibilityExtraExtraExtraLarge, 70),
    ]
}

#[test]
fn bold_text_refresh_writes_only_changes() {
    let _plugin = AccessibilityBoldTextPlugin::new();
    let mut bold = AccessibilityBoldText(false);
    assert!(!bold.refresh(false));
    assert_eq!(bold, AccessibilityBoldText(false));
    assert!(bold.refresh(true));
    assert_eq!(bold, AccessibilityBoldText(true));
    assert!(!bold.refresh(true));
    assert!(bold.refresh(false));
    assert_eq!(bold.0, false);
}

#[test]
fn every_category_name_parses_to_its_category() {
    let names = names();
    for (name, category, _) in all() {
        assert_eq!(PreferredContentSizeCategory::parse(name, &names), Some(category));
        assert_eq!(PreferredContentSizeCategory::from_name(name, &names), category);
    }
}

#[test]
fn unknown_category_name_is_rejected_and_read_as_unspecified() {
    let names = names();
    assert_eq!(PreferredContentSizeCategory::parse("UICTContentSizeCategoryXXXXL", &names), None);
    assert_eq!(PreferredContentSizeCategory::parse("", &names), None);
    assert_eq!(
        PreferredContentSizeCategory::from_name("somethingElse", &names),
        PreferredContentSizeCategory::Unspecified
    );
}

#[test]
fn shared_name_goes_to_the_first_category_tried() {
    let mut names = names();
    names.large = names.small.clone();
    assert_eq!(
        PreferredContentSizeCategory::parse("UICTContentSizeCategoryS", &names),
        Some(PreferredContentSizeCategory::Small)
    );
    names.extra_small = names.unspecified.clone();
    assert_eq!(
        PreferredContentSizeCategory::parse("_UICTContentSizeCategoryUnspecified", &names),
        Some(PreferredContentSizeCategory::Unspecified)
    );
}

#[test]
fn font_scales_follow_the_table() {
    for (_, category, tenths) in all() {
        assert_eq!(category.font_scale_tenths(), tenths);
    }
    // The scale in tenths gives the very same float factor as the decimal literal.
    assert_eq!(PreferredContentSizeCategory::ExtraSmall.font_scale_tenths() as f32 / 10.0, 0.6f32);
    assert_eq!(PreferredContentSizeCategory::ExtraExtraLarge.font_scale_tenths() as f32 / 10.0, 1.7f32);
}

#[test]
fn font_scales_grow_with_the_size() {
    let sizes: Vec<u32> = all().iter().skip(1).map(|(_, c, _)| c.font_scale_tenths()).collect();
    for pair in sizes.windows(2) {
        assert!(pair[0] < pair[1]);
    }
}

#[test]
fn category_refresh_writes_only_changes() {
    let mut current = PreferredContentSizeCategory::Unspecified;
    assert!(current.refresh(PreferredContentSizeCategory::Large));
    assert_eq!(current, PreferredContentSizeCategory::Large);
    assert!(!current.refresh(PreferredContentSizeCategory::Large));
    assert_eq!(current, PreferredContentSizeCategory::Large);
}

#[test]
fn the_last_report_wins() {
    let names = names();
    let mut latest = LatestContentSizeCategory::new(PreferredContentSizeCategory::Medium);
    let mut resource = PreferredContentSizeCategory::Medium;
    assert!(!latest.apply_to(&mut resource));
    latest.observe("UICTContentSizeCategoryXL", &names);
    latest.observe("UICTContentSizeCategoryS", &names);
    assert!(latest.apply_to(&mut resource));
    assert_eq!(resource, PreferredContentSizeCategory::Small);
    assert!(!latest.apply_to(&mut resource));
    latest.observe("not a category", &names);
    assert!(latest.apply_to(&mut resource));
    assert_eq!(resource, PreferredContentSizeCategory::Unspecified);
}
