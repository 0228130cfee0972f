use vstd::prelude::*;

verus! {

/// The preferred content and text size.
///
/// Controlled in `Settings > Accessibility > Display & Text Size > Larger Text`.
#[non_exhaustive]
#[derive(Clone, Copy, Debug, PartialEq, Eq, Hash, Structural)]
pub enum PreferredContentSizeCategory {
    ExtraSmall,
    Small,
    Medium,
    Large,
    ExtraLarge,
    ExtraExtraLarge,
    ExtraExtraExtraLarge,
    // Accessibility sizes are even larger
    AccessibilityMedium,
    AccessibilityLarge,
    AccessibilityExtraLarge,
    AccessibilityExtraExtraLarge,
    AccessibilityExtraExtraExtraLarge,
    Unspecified,
}

/// The identifiers under which the system reports each content size category, one for each
/// category.
pub struct ContentSizeCategoryNames {
    pub unspecified: String,
    pub extra_small: String,
    pub small: String,
    pub medium: String,
    pub large: String,
    pub extra_large: String,
    pub extra_extra_large: String,
    pub extra_extra_extra_large: String,
    pub accessibility_medium: String,
    pub accessibility_large: String,
    pub accessibility_extra_large: String,
    pub accessibility_extra_extra_large: String,
    pub accessibility_extra_extra_extra_large: String,
}

impl ContentSizeCategoryNames {
    /// The identifier of `category`.
    pub open spec fn name_of(self, category: PreferredContentSizeCategory) -> Seq<char> {
        match category {
            PreferredContentSizeCategory::Unspecified => self.unspecified@,
            PreferredContentSizeCategory::ExtraSmall => self.extra_small@,
            PreferredContentSizeCategory::Small => self.small@,
            PreferredContentSizeCategory::Medium => self.medium@,
            PreferredContentSizeCategory::Large => self.large@,
            PreferredContentSizeCategory::ExtraLarge => self.extra_large@,
            PreferredContentSizeCategory::ExtraExtraLarge => self.extra_extra_large@,
            PreferredContentSizeCategory::ExtraExtraExtraLarge => self.extra_extra_extra_large@,
            PreferredContentSizeCategory::AccessibilityMedium => self.accessibility_medium@,
            PreferredContentSizeCategory::AccessibilityLarge => self.accessibility_large@,
            PreferredContentSizeCategory::AccessibilityExtraLarge => self.accessibility_extra_large@,
            PreferredContentSizeCategory::AccessibilityExtraExtraLarge => self.accessibility_extra_extra_large@,
            PreferredContentSizeCategory::AccessibilityExtraExtraExtraLarge => self.accessibility_extra_extra_extra_large@,
        }
    }

    /// No two categories share an identifier.
    pub open spec fn distinct(self) -> bool {
        forall|a: PreferredContentSizeCategory, b: PreferredContentSizeCategory|
            a != b ==> #[trigger] self.name_of(a) != #[trigger] self.name_of(b)
    }
}

/// The category that the identifier `s` names: the categories are tried in the order
/// Unspecified, ExtraSmall, Small, Medium, Large, ExtraLarge, ExtraExtraLarge,
/// ExtraExtraExtraLarge, then the accessibility sizes from Medium up, and the first whose
/// identifier equals `s` is taken; `None` where none does.
pub open spec fn parse_category(s: Seq<char>, names: ContentSizeCategoryNames) -> Option<
    PreferredContentSizeCategory,
> {
    if s == names.unspecified@ {
        Some(PreferredContentSizeCategory::Unspecified)
    } else if s == names.extra_small@ {
        Some(PreferredContentSizeCategory::ExtraSmall)
    } else if s == names.small@ {
        Some(PreferredContentSizeCategory::Small)
    } else if s == names.medium@ {
        Some(PreferredContentSizeCategory::Medium)
    } else if s == names.large@ {
        Some(PreferredContentSizeCategory::Large)
    } else if s == names.extra_large@ {
        Some(PreferredContentSizeCategory::ExtraLarge)
    } else if s == names.extra_extra_large@ {
        Some(PreferredContentSizeCategory::ExtraExtraLarge)
    } else if s == names.extra_extra_extra_large@ {
        Some(PreferredContentSizeCategory::ExtraExtraExtraLarge)
    } else if s == names.accessibility_medium@ {
        Some(PreferredContentSizeCategory::AccessibilityMedium)
    } else if s == names.accessibility_large@ {
        Some(PreferredContentSizeCategory::AccessibilityLarge)
    } else if s == names.accessibility_extra_large@ {
        Some(PreferredContentSizeCategory::AccessibilityExtraLarge)
    } else if s == names.accessibility_extra_extra_large@ {
        Some(PreferredContentSizeCategory::AccessibilityExtraExtraLarge)
    } else if s == names.accessibility_extra_extra_extra_large@ {
        Some(PreferredContentSizeCategory::AccessibilityExtraExtraExtraLarge)
    } else {
        None
    }
}

/// The category that the identifier `s` names, or `Unspecified` where it names none.
pub open spec fn category_or_unspecified(s: Seq<char>, names: ContentSizeCategoryNames) -> PreferredContentSizeCategory {
    match parse_category(s, names) {
        Some(c) => c,
        None => PreferredContentSizeCategory::Unspecified,
    }
}

/// The position of a category in the order of sizes, smallest first; `Unspecified` has none.
pub open spec fn size_rank(c: PreferredContentSizeCategory) -> Option<int> {
    match c {
        PreferredContentSizeCategory::ExtraSmall => Some(0),
        PreferredContentSizeCategory::Small => Some(1),
        PreferredContentSizeCategory::Medium => Some(2),
        PreferredContentSizeCategory::Large => Some(3),
        PreferredContentSizeCategory::ExtraLarge => Some(4),
        PreferredContentSizeCategory::ExtraExtraLarge => Some(5),
        PreferredContentSizeCategory::ExtraExtraExtraLarge => Some(6),
        PreferredContentSizeCategory::AccessibilityMedium => Some(7),
        PreferredContentSizeCategory::AccessibilityLarge => Some(8),
        PreferredContentSizeCategory::AccessibilityExtraLarge => Some(9),
        PreferredContentSizeCategory::AccessibilityExtraExtraLarge => Some(10),
        PreferredContentSizeCategory::AccessibilityExtraExtraExtraLarge => Some(11),
        PreferredContentSizeCategory::Unspecified => None,
    }
}

/// How much auto-scaled text grows or shrinks in a category, in tenths of its base size.
pub open spec fn scale_tenths(c: PreferredContentSizeCategory) -> u32 {
    match c {
        PreferredContentSizeCategory::ExtraSmall => 6,
        PreferredContentSizeCategory::Small => 8,
        PreferredContentSizeCategory::Medium => 10,
        PreferredContentSizeCategory::Large => 12,
        PreferredContentSizeCategory::ExtraLarge => 14,
        PreferredContentSizeCategory::ExtraExtraLarge => 17,
        PreferredContentSizeCategory::ExtraExtraExtraLarge => 20,
        PreferredContentSizeCategory::AccessibilityMedium => 30,
        PreferredContentSizeCategory::AccessibilityLarge => 40,
        PreferredContentSizeCategory::AccessibilityExtraLarge => 50,
        PreferredContentSizeCategory::AccessibilityExtraExtraLarge => 60,
        PreferredContentSizeCategory::AccessibilityExtraExtraExtraLarge => 70,
        PreferredContentSizeCategory::Unspecified => 10,
    }
}

fn same_text(a: &str, b: &String) -> (r: bool)
    ensures
        r == (a@ == b@),
{
    a.to_owned() == *b
}

impl PreferredContentSizeCategory {
    /// The category that the system identifier `s` names, tried in the order of
    /// [`parse_category`].
    pub fn parse(s: &str, names: &ContentSizeCategoryNames) -> (r: Option<Self>)
        ensures
            r == parse_category(s@, *names),
    {
        Some(
            if same_text(s, &names.unspecified) {
                Self::Unspecified
            } else if same_text(s, &names.extra_small) {
                Self::ExtraSmall
            } else if same_text(s, &names.small) {
                Self::Small
            } else if same_text(s, &names.medium) {
                Self::Medium
            } else if same_text(s, &names.large) {
                Self::Large
            } else if same_text(s, &names.extra_large) {
                Self::ExtraLarge
            } else if same_text(s, &names.extra_extra_large) {
                Self::ExtraExtraLarge
            } else if same_text(s, &names.extra_extra_extra_large) {
                Self::ExtraExtraExtraLarge
            } else if same_text(s, &names.accessibility_medium) {
                Self::AccessibilityMedium
            } else if same_text(s, &names.accessibility_large) {
                Self::AccessibilityLarge
            } else if same_text(s, &names.accessibility_extra_large) {
                Self::AccessibilityExtraLarge
            } else if same_text(s, &names.accessibility_extra_extra_large) {
                Self::AccessibilityExtraExtraLarge
            } else if same_text(s, &names.accessibility_extra_extra_extra_large) {
                Self::AccessibilityExtraExtraExtraLarge
            } else {
                return None;
            },
        )
    }

    /// The category that the system reports under `s`, taken as `Unspecified` where `s`
    /// names none.
    pub fn from_name(s: &str, names: &ContentSizeCategoryNames) -> (r: Self)
        ensures
            r == category_or_unspecified(s@, *names),
    {
        match Self::parse(s, names) {
            Some(c) => c,
            None => Self::Unspecified,
        }
    }

    /// Brings the stored category in line with the latest report; writes only when it
    /// differs, and says whether it wrote.
    pub fn refresh(&mut self, new: Self) -> (changed: bool)
        ensures
            *final(self) == new,
            changed == (*old(self) != new),
    {
        if *self != new {
            *self = new;
            true
        } else {
            false
        }
    }

    /// How much auto-scaled text is scaled in this category, in tenths: from 6 for
    /// ExtraSmall to 70 for the largest accessibility size, 10 where unspecified.
    pub fn font_scale_tenths(&self) -> (t: u32)
        ensures
            t == scale_tenths(*self),
    {
        match self {
            Self::ExtraSmall => 6,
            Self::Small => 8,
            Self::Medium => 10,
            Self::Large => 12,
            Self::ExtraLarge => 14,
            Self::ExtraExtraLarge => 17,
            Self::ExtraExtraExtraLarge => 20,
            Self::AccessibilityMedium => 30,
            Self::AccessibilityLarge => 40,
            Self::AccessibilityExtraLarge => 50,
            Self::AccessibilityExtraExtraLarge => 60,
            Self::AccessibilityExtraExtraExtraLarge => 70,
            _ => 10,
        }
    }
}

/// Where no two categories share an identifier, each category's identifier reads back as
/// that category.
pub proof fn lemma_parse_name_roundtrip(names: ContentSizeCategoryNames, c: PreferredContentSizeCategory)
    requires
        names.distinct(),
    ensures
        parse_category(names.name_of(c), names) == Some(c),
{
    let n = names.name_of(c);
    assert(names.name_of(PreferredContentSizeCategory::Unspecified) == names.unspecified@);
    assert(names.name_of(PreferredContentSizeCategory::ExtraSmall) == names.extra_small@);
    assert(names.name_of(PreferredContentSizeCategory::Small) == names.small@);
    assert(names.name_of(PreferredContentSizeCategory::Medium) == names.medium@);
    assert(names.name_of(PreferredContentSizeCategory::Large) == names.large@);
    assert(names.name_of(PreferredContentSizeCategory::ExtraLarge) == names.extra_large@);
    assert(names.name_of(PreferredContentSizeCategory::ExtraExtraLarge) == names.extra_extra_large@);
    assert(names.name_of(PreferredContentSizeCategory::ExtraExtraExtraLarge) == names.extra_extra_extra_large@);
    assert(names.name_of(PreferredContentSizeCategory::AccessibilityMedium) == names.accessibility_medium@);
    assert(names.name_of(PreferredContentSizeCategory::AccessibilityLarge) == names.accessibility_large@);
    assert(names.name_of(PreferredContentSizeCategory::AccessibilityExtraLarge) == names.accessibility_extra_large@);
    assert(names.name_of(PreferredContentSizeCategory::AccessibilityExtraExtraLarge) == names.accessibility_extra_extra_large@);
    assert(names.name_of(PreferredContentSizeCategory::AccessibilityExtraExtraExtraLarge) == names.accessibility_extra_extra_extra_large@);
}

/// Whatever the identifiers, a category read from a text is one whose identifier is that
/// text.
pub proof fn lemma_parse_sound(s: Seq<char>, names: ContentSizeCategoryNames)
    ensures
        parse_category(s, names) matches Some(c) ==> names.name_of(c) == s,
{
}

/// Whatever the identifiers, two texts read as the same category are the same text: the
/// reading is one-to-one.
pub proof fn lemma_parse_one_to_one(s1: Seq<char>, s2: Seq<char>, names: ContentSizeCategoryNames)
    ensures
        parse_category(s1, names) is Some && parse_category(s1, names) == parse_category(s2, names)
            ==> s1 == s2,
{
    lemma_parse_sound(s1, names);
    lemma_parse_sound(s2, names);
}

/// The category that the system reported last, kept between a report and the next update;
/// it starts at the category read when the app came up.
pub struct LatestContentSizeCategory {
    pub category: PreferredContentSizeCategory,
}

impl LatestContentSizeCategory {
    /// Keeps `initial` until the first report.
    pub fn new(initial: PreferredContentSizeCategory) -> (l: Self)
        ensures
            l.category == initial,
    {
        Self { category: initial }
    }

    /// Records a report that the category is now the one named `identifier`, read as
    /// [`PreferredContentSizeCategory::from_name`] reads it.
    pub fn observe(&mut self, identifier: &str, names: &ContentSizeCategoryNames)
        ensures
            final(self).category == after_report(old(self).category, *names, identifier@),
    {
        self.category = PreferredContentSizeCategory::from_name(identifier, names);
    }

    /// Brings `current` in line with the last report; says whether it changed.
    pub fn apply_to(&self, current: &mut PreferredContentSizeCategory) -> (changed: bool)
        ensures
            *final(current) == self.category,
            changed == (*old(current) != self.category),
    {
        current.refresh(self.category)
    }
}

/// The category kept after a report of `report` where `kept` was kept before.
pub open spec fn after_report(
    kept: PreferredContentSizeCategory,
    names: ContentSizeCategoryNames,
    report: Seq<char>,
) -> PreferredContentSizeCategory {
    category_or_unspecified(report, names)
}

/// The category kept after reports of the identifiers `reports`, in order, starting from
/// `start`.
pub open spec fn latest_after(
    start: PreferredContentSizeCategory,
    names: ContentSizeCategoryNames,
    reports: Seq<Seq<char>>,
) -> PreferredContentSizeCategory
    decreases reports.len(),
{
    if reports.len() == 0 {
        start
    } else {
        after_report(latest_after(start, names, reports.drop_last()), names, reports.last())
    }
}

/// After any run of reports the last one wins, read as its category or as `Unspecified`
/// where it names none; with no report the category kept is the one it started with.
pub proof fn lemma_last_report_wins(
    start: PreferredContentSizeCategory,
    names: ContentSizeCategoryNames,
    reports: Seq<Seq<char>>,
)
    ensures
        reports.len() > 0 ==> latest_after(start, names, reports) == category_or_unspecified(
            reports.last(),
            names,
        ),
        reports.len() == 0 ==> latest_after(start, names, reports) == start,
{
}

/// Larger categories scale auto-scaled text strictly more, and every category scales it by
/// a positive amount.
pub proof fn lemma_scale_monotone(a: PreferredContentSizeCategory, b: PreferredContentSizeCategory)
    ensures
        scale_tenths(a) > 0,
        size_rank(a) matches Some(ra) ==> (size_rank(b) matches Some(rb) ==> (ra < rb ==> scale_tenths(a) < scale_tenths(b))),
{
}

} // verus!
