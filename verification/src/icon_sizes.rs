//! Centralized icon size definitions with priority and purpose metadata.

use vstd::prelude::*;

verus! {

/// Largest edge, in pixels, that the multi-resolution container can embed.
pub const ICO_MAX_SIZE: u32 = 256;

/// Icon priority level. The tiers are totally ordered:
/// `Required < Recommended < Extended`.
#[derive(Debug, Clone, Copy, PartialEq, Eq, Structural)]
pub enum IconPriority {
    /// Level 1: Required sizes only (minimal set)
    Required,
    /// Level 2: Recommended sizes (good compatibility)
    Recommended,
    /// Level 3: All sizes (maximum compatibility)
    Extended,
}

impl IconPriority {
    /// Ordinal of the tier: 1, 2 or 3.
    pub open spec fn spec_level(self) -> u8 {
        match self {
            IconPriority::Required => 1,
            IconPriority::Recommended => 2,
            IconPriority::Extended => 3,
        }
    }

    /// Ordinal of the tier: 1, 2 or 3.
    #[verifier::when_used_as_spec(spec_level)]
    pub fn level(self) -> (l: u8)
        ensures
            l == self.spec_level(),
    {
        match self {
            IconPriority::Required => 1,
            IconPriority::Recommended => 2,
            IconPriority::Extended => 3,
        }
    }

    /// Whether an entry of tier `self` is included when `tier` is selected.
    pub open spec fn included_at(self, tier: IconPriority) -> bool {
        self.spec_level() <= tier.spec_level()
    }
}

/// Icon purpose/usage type.
#[derive(Debug, Clone, Copy, PartialEq, Eq, Structural)]
pub enum IconPurpose {
    /// Standard favicons for browsers
    Favicon,
    /// Apple Touch Icons for iOS
    AppleTouch,
    /// Android homescreen icons
    Android,
    /// Windows Tiles/Icons
    Windows,
    /// Generic PWA icon
    PWA,
}

/// Icon size definition with metadata.
#[derive(Debug, Clone)]
pub struct IconSize {
    /// Size in pixels (square)
    pub size: u32,
    /// Primary purpose(s) of this icon
    pub purposes: Vec<IconPurpose>,
    /// Priority level (1-3)
    pub priority: IconPriority,
    /// Human-readable description of where this icon is used
    pub description: &'static str,
}

/// Mathematical value of an [`IconSize`].
pub struct IconSizeView {
    pub size: u32,
    pub purposes: Seq<IconPurpose>,
    pub priority: IconPriority,
    pub description: Seq<char>,
}

impl View for IconSize {
    type V = IconSizeView;

    open spec fn view(&self) -> IconSizeView {
        IconSizeView {
            size: self.size,
            purposes: self.purposes@,
            priority: self.priority,
            description: self.description@,
        }
    }
}

/// The values of a list of icon sizes, in order.
pub open spec fn views(list: Seq<IconSize>) -> Seq<IconSizeView> {
    list.map_values(|e: IconSize| e@)
}

/// One row of the catalog.
pub open spec fn row(
    size: u32,
    purposes: Seq<IconPurpose>,
    priority: IconPriority,
    description: Seq<char>,
) -> IconSizeView {
    IconSizeView { size, purposes, priority, description }
}

/// The catalog: every icon size this crate knows, in declaration order.
pub open spec fn catalog() -> Seq<IconSizeView> {
    seq![
        row(16, seq![IconPurpose::Favicon], IconPriority::Required,
            "Classic favicon, browser tabs"@),
        row(32, seq![IconPurpose::Favicon], IconPriority::Required,
            "Standard favicon for modern browsers"@),
        row(180, seq![IconPurpose::AppleTouch], IconPriority::Required,
            "Apple Touch Icon for iPhone (retina display)"@),
        row(192, seq![IconPurpose::Android, IconPurpose::PWA], IconPriority::Required,
            "Android homescreen icon"@),
        row(48, seq![IconPurpose::Favicon], IconPriority::Recommended,
            "Windows site icon"@),
        row(76, seq![IconPurpose::AppleTouch], IconPriority::Recommended,
            "Apple Touch Icon for iPad (non-retina)"@),
        row(120, seq![IconPurpose::AppleTouch], IconPriority::Recommended,
            "Apple Touch Icon for iPhone (X/Plus)"@),
        row(152, seq![IconPurpose::AppleTouch], IconPriority::Recommended,
            "Apple Touch Icon for iPad, iPad mini"@),
        row(96, seq![IconPurpose::Android], IconPriority::Recommended,
            "Google TV icon"@),
        row(128, seq![IconPurpose::Favicon], IconPriority::Recommended,
            "Chrome Web Store icon"@),
        row(512, seq![IconPurpose::PWA], IconPriority::Recommended,
            "PWA splash screen icon"@),
        row(57, seq![IconPurpose::AppleTouch], IconPriority::Extended,
            "Apple Touch Icon (older iPhone, pre-retina)"@),
        row(72, seq![IconPurpose::AppleTouch], IconPriority::Extended,
            "Apple Touch Icon (older iPad, pre-retina)"@),
        row(114, seq![IconPurpose::AppleTouch], IconPriority::Extended,
            "Apple Touch Icon (older iPhone, retina)"@),
        row(144, seq![IconPurpose::AppleTouch], IconPriority::Extended,
            "Apple Touch Icon (older iPad, retina)"@),
        row(64, seq![IconPurpose::Favicon], IconPriority::Extended,
            "Windows site icon (medium)"@),
        row(256, seq![IconPurpose::Favicon, IconPurpose::Windows], IconPriority::Extended,
            "Windows site icon (large)"@),
        row(384, seq![IconPurpose::PWA], IconPriority::Extended,
            "PWA icon (large)"@),
    ]
}

fn entry(
    size: u32,
    purposes: Vec<IconPurpose>,
    priority: IconPriority,
    description: &'static str,
) -> (e: IconSize)
    ensures
        e@ == row(size, purposes@, priority, description@),
{
    IconSize { size, purposes, priority, description }
}

fn one(purpose: IconPurpose) -> (v: Vec<IconPurpose>)
    ensures
        v@ == seq![purpose],
{
    let mut v: Vec<IconPurpose> = Vec::new();
    v.push(purpose);
    v
}

fn two(first: IconPurpose, second: IconPurpose) -> (v: Vec<IconPurpose>)
    ensures
        v@ == seq![first, second],
{
    let mut v: Vec<IconPurpose> = Vec::new();
    v.push(first);
    v.push(second);
    v
}

/// Get all defined icon sizes.
pub fn get_all_sizes() -> (all: Vec<IconSize>)
    ensures
        views(all@) == catalog(),
{
    let mut all: Vec<IconSize> = Vec::new();
    // Priority 1: Required sizes
    all.push(entry(16, one(IconPurpose::Favicon), IconPriority::Required,
        "Classic favicon, browser tabs"));
    all.push(entry(32, one(IconPurpose::Favicon), IconPriority::Required,
        "Standard favicon for modern browsers"));
    all.push(entry(180, one(IconPurpose::AppleTouch), IconPriority::Required,
        "Apple Touch Icon for iPhone (retina display)"));
    all.push(entry(192, two(IconPurpose::Android, IconPurpose::PWA), IconPriority::Required,
        "Android homescreen icon"));
    // Priority 2: Recommended sizes
    all.push(entry(48, one(IconPurpose::Favicon), IconPriority::Recommended,
        "Windows site icon"));
    all.push(entry(76, one(IconPurpose::AppleTouch), IconPriority::Recommended,
        "Apple Touch Icon for iPad (non-retina)"));
    all.push(entry(120, one(IconPurpose::AppleTouch), IconPriority::Recommended,
        "Apple Touch Icon for iPhone (X/Plus)"));
    all.push(entry(152, one(IconPurpose::AppleTouch), IconPriority::Recommended,
        "Apple Touch Icon for iPad, iPad mini"));
    all.push(entry(96, one(IconPurpose::Android), IconPriority::Recommended,
        "Google TV icon"));
    all.push(entry(128, one(IconPurpose::Favicon), IconPriority::Recommended,
        "Chrome Web Store icon"));
    all.push(entry(512, one(IconPurpose::PWA), IconPriority::Recommended,
        "PWA splash screen icon"));
    // Priority 3: Extended sizes
    all.push(entry(57, one(IconPurpose::AppleTouch), IconPriority::Extended,
        "Apple Touch Icon (older iPhone, pre-retina)"));
    all.push(entry(72, one(IconPurpose::AppleTouch), IconPriority::Extended,
        "Apple Touch Icon (older iPad, pre-retina)"));
    all.push(entry(114, one(IconPurpose::AppleTouch), IconPriority::Extended,
        "Apple Touch Icon (older iPhone, retina)"));
    all.push(entry(144, one(IconPurpose::AppleTouch), IconPriority::Extended,
        "Apple Touch Icon (older iPad, retina)"));
    all.push(entry(64, one(IconPurpose::Favicon), IconPriority::Extended,
        "Windows site icon (medium)"));
    all.push(entry(256, two(IconPurpose::Favicon, IconPurpose::Windows), IconPriority::Extended,
        "Windows site icon (large)"));
    all.push(entry(384, one(IconPurpose::PWA), IconPriority::Extended,
        "PWA icon (large)"));
    assert(views(all@) =~= catalog());
    all
}

/// What a selection keeps.
#[derive(Clone, Copy)]
enum Criterion {
    /// Entries whose tier is at most the given one.
    Tier(IconPriority),
    /// Entries that the container format can embed.
    Container,
    /// Entries that serve the given purpose.
    Purpose(IconPurpose),
}

/// Whether the container format can embed the entry: a favicon of at most
/// [`ICO_MAX_SIZE`] pixels.
pub open spec fn fits_container(e: IconSizeView) -> bool {
    e.purposes.contains(IconPurpose::Favicon) && e.size <= ICO_MAX_SIZE
}

/// The entries of tier `tier` or below.
pub open spec fn tier_filter(tier: IconPriority) -> spec_fn(IconSizeView) -> bool {
    |e: IconSizeView| e.priority.included_at(tier)
}

/// The entries that the container format can embed.
pub open spec fn container_filter() -> spec_fn(IconSizeView) -> bool {
    |e: IconSizeView| fits_container(e)
}

/// The entries that serve `purpose`.
pub open spec fn purpose_filter(purpose: IconPurpose) -> spec_fn(IconSizeView) -> bool {
    |e: IconSizeView| e.purposes.contains(purpose)
}

/// Entries of `cat` whose tier is at most `tier`, in the order of `cat`.
pub open spec fn at_or_below(cat: Seq<IconSizeView>, tier: IconPriority) -> Seq<IconSizeView> {
    cat.filter(tier_filter(tier))
}

/// The sizes of `list`, in order.
pub open spec fn sizes_of(list: Seq<IconSizeView>) -> Seq<u32> {
    list.map_values(|e: IconSizeView| e.size)
}

/// Sizes of the raster images produced at `tier`, in catalog order.
pub open spec fn png_sizes(tier: IconPriority) -> Seq<u32> {
    sizes_of(at_or_below(catalog(), tier))
}

/// Entries embedded in the container at `tier`, in catalog order.
pub open spec fn container_entries(cat: Seq<IconSizeView>, tier: IconPriority) -> Seq<
    IconSizeView,
> {
    at_or_below(cat, tier).filter(container_filter())
}

/// Sizes embedded in the container at `tier`, in catalog order.
pub open spec fn ico_sizes(tier: IconPriority) -> Seq<u32> {
    sizes_of(container_entries(catalog(), tier))
}

/// Entries of tier `tier` or below that serve `purpose`, in catalog order.
pub open spec fn with_purpose(purpose: IconPurpose, tier: IconPriority) -> Seq<IconSizeView> {
    at_or_below(catalog(), tier).filter(purpose_filter(purpose))
}

impl Criterion {
    spec fn filter(self) -> spec_fn(IconSizeView) -> bool {
        match self {
            Criterion::Tier(tier) => tier_filter(tier),
            Criterion::Container => container_filter(),
            Criterion::Purpose(purpose) => purpose_filter(purpose),
        }
    }

    fn keeps(self, e: &IconSize) -> (k: bool)
        ensures
            k == (self.filter())(e@),
    {
        match self {
            Criterion::Tier(tier) => e.priority.level() <= tier.level(),
            Criterion::Container => has_purpose(&e.purposes, IconPurpose::Favicon) && e.size
                <= ICO_MAX_SIZE,
            Criterion::Purpose(purpose) => has_purpose(&e.purposes, purpose),
        }
    }
}

/// Whether `purposes` holds `purpose`.
pub fn has_purpose(purposes: &Vec<IconPurpose>, purpose: IconPurpose) -> (found: bool)
    ensures
        found == purposes@.contains(purpose),
{
    let mut i: usize = 0;
    while i < purposes.len()
        invariant
            i <= purposes.len(),
            forall|j: int| 0 <= j < i ==> purposes@[j] != purpose,
        decreases purposes.len() - i,
    {
        if purposes[i] == purpose {
            return true;
        }
        i += 1;
    }
    false
}

fn copy_of(e: &IconSize) -> (c: IconSize)
    ensures
        c@ == e@,
{
    let mut purposes: Vec<IconPurpose> = Vec::new();
    let mut i: usize = 0;
    while i < e.purposes.len()
        invariant
            i <= e.purposes.len(),
            purposes@ == e.purposes@.take(i as int),
        decreases e.purposes.len() - i,
    {
        purposes.push(e.purposes[i]);
        proof {
            e.purposes@.lemma_take_succ_push(i as int);
        }
        i += 1;
    }
    assert(e.purposes@.take(e.purposes.len() as int) == e.purposes@);
    IconSize { size: e.size, purposes, priority: e.priority, description: e.description }
}

fn select(list: &Vec<IconSize>, criterion: Criterion) -> (kept: Vec<IconSize>)
    ensures
        views(kept@) == views(list@).filter(criterion.filter()),
{
    let mut kept: Vec<IconSize> = Vec::new();
    let mut i: usize = 0;
    while i < list.len()
        invariant
            i <= list.len(),
            views(kept@) == views(list@).take(i as int).filter(criterion.filter()),
        decreases list.len() - i,
    {
        proof {
            views(list@).lemma_take_succ_push(i as int);
            views(list@).take(i as int).lemma_filter_push(list@[i as int]@, criterion.filter());
        }
        if criterion.keeps(&list[i]) {
            let c = copy_of(&list[i]);
            proof {
                kept@.lemma_push_map_commute(|e: IconSize| e@, c);
            }
            kept.push(c);
        }
        i += 1;
    }
    assert(views(list@).take(list.len() as int) == views(list@));
    kept
}

fn sizes(list: &Vec<IconSize>) -> (out: Vec<u32>)
    ensures
        out@ == sizes_of(views(list@)),
{
    let mut out: Vec<u32> = Vec::new();
    let mut i: usize = 0;
    while i < list.len()
        invariant
            i <= list.len(),
            out@ == sizes_of(views(list@)).take(i as int),
        decreases list.len() - i,
    {
        out.push(list[i].size);
        proof {
            sizes_of(views(list@)).lemma_take_succ_push(i as int);
        }
        i += 1;
    }
    assert(sizes_of(views(list@)).take(list.len() as int) == sizes_of(views(list@)));
    out
}

/// Filter sizes by priority level (inclusive).
///
/// Returns all sizes with priority <= the given level, in catalog order:
/// - Level 1: Required sizes only
/// - Level 2: Required + Recommended sizes
/// - Level 3: All sizes (Required + Recommended + Extended)
pub fn filter_by_priority(priority: IconPriority) -> (kept: Vec<IconSize>)
    ensures
        views(kept@) == at_or_below(catalog(), priority),
{
    let all = get_all_sizes();
    select(&all, Criterion::Tier(priority))
}

/// Get PNG sizes based on priority level.
pub fn get_png_sizes(priority: IconPriority) -> (out: Vec<u32>)
    ensures
        out@ == png_sizes(priority),
{
    let kept = filter_by_priority(priority);
    sizes(&kept)
}

/// Get ICO sizes based on priority level: the favicon sizes of the tier that
/// the container format can embed.
pub fn get_ico_sizes(priority: IconPriority) -> (out: Vec<u32>)
    ensures
        out@ == ico_sizes(priority),
        forall|i: int|
            0 <= i < out@.len() ==> 1 <= #[trigger] out@[i] <= ICO_MAX_SIZE && favicon_size(
                catalog(),
                out@[i],
            ),
{
    let kept = filter_by_priority(priority);
    let eligible = select(&kept, Criterion::Container);
    let out = sizes(&eligible);
    proof {
        lemma_container_ceiling(catalog(), priority);
        lemma_catalog_sizes_positive();
        assert forall|i: int| 0 <= i < out@.len() implies 1 <= #[trigger] out@[i] <= ICO_MAX_SIZE
            && favicon_size(catalog(), out@[i]) by {
            let s = sizes_of(container_entries(catalog(), priority))[i];
            assert(size_in(catalog(), s));
            let k = choose|k: int| 0 <= k < catalog().len() && (#[trigger] catalog()[k]).size == s;
            assert(catalog()[k].size >= 1);
        }
    }
    out
}

/// Filter sizes by purpose.
pub fn filter_by_purpose(purpose: IconPurpose, priority: IconPriority) -> (kept: Vec<IconSize>)
    ensures
        views(kept@) == with_purpose(purpose, priority),
{
    let kept = filter_by_priority(priority);
    select(&kept, Criterion::Purpose(purpose))
}

/// Whether `cat` has a favicon entry of `size` pixels.
pub open spec fn favicon_size(cat: Seq<IconSizeView>, size: u32) -> bool {
    exists|k: int|
        0 <= k < cat.len() && (#[trigger] cat[k]).size == size && cat[k].purposes.contains(
            IconPurpose::Favicon,
        )
}

/// Tiers form a chain: whatever a tier selects from a catalog, every higher
/// tier selects too. This holds of any catalog, so it survives catalog edits.
pub proof fn lemma_tiers_monotonic(
    cat: Seq<IconSizeView>,
    lower: IconPriority,
    higher: IconPriority,
)
    requires
        lower.level() <= higher.level(),
    ensures
        forall|e: IconSizeView| #[trigger]
            at_or_below(cat, lower).contains(e) ==> at_or_below(cat, higher).contains(e),
        sizes_of(at_or_below(cat, lower)).to_set().subset_of(
            sizes_of(at_or_below(cat, higher)).to_set(),
        ),
{
    let low = at_or_below(cat, lower);
    let high = at_or_below(cat, higher);
    assert forall|e: IconSizeView| #[trigger] low.contains(e) implies high.contains(e) by {
        cat.lemma_filter_contains_rev(tier_filter(lower), e);
        assert(tier_filter(higher)(e));
        let k = choose|k: int| 0 <= k < cat.len() && cat[k] == e;
        cat.lemma_filter_contains(tier_filter(higher), k);
    }
    assert forall|s: u32| #[trigger]
        sizes_of(low).to_set().contains(s) implies sizes_of(high).to_set().contains(s) by {
        let i = choose|i: int| 0 <= i < sizes_of(low).len() && sizes_of(low)[i] == s;
        assert(low.contains(low[i]));
        let j = choose|j: int| 0 <= j < high.len() && high[j] == low[i];
        assert(sizes_of(high)[j] == s);
    }
}

/// The three tiers of the catalog nest: the sizes selected at `Required` are
/// selected at `Recommended`, and those are selected at `Extended`.
pub proof fn lemma_tier_chain()
    ensures
        png_sizes(IconPriority::Required).to_set().subset_of(
            png_sizes(IconPriority::Recommended).to_set(),
        ),
        png_sizes(IconPriority::Recommended).to_set().subset_of(
            png_sizes(IconPriority::Extended).to_set(),
        ),
{
    lemma_tiers_monotonic(catalog(), IconPriority::Required, IconPriority::Recommended);
    lemma_tiers_monotonic(catalog(), IconPriority::Recommended, IconPriority::Extended);
}

/// Container ceiling: at every tier, each size selected for the container is
/// at most [`ICO_MAX_SIZE`] and is the size of a favicon entry of the catalog.
pub proof fn lemma_container_ceiling(cat: Seq<IconSizeView>, tier: IconPriority)
    ensures
        forall|i: int|
            0 <= i < sizes_of(container_entries(cat, tier)).len() ==> (#[trigger] sizes_of(
                container_entries(cat, tier),
            )[i]) <= ICO_MAX_SIZE && favicon_size(cat, sizes_of(container_entries(cat, tier))[i])
                && size_in(cat, sizes_of(container_entries(cat, tier))[i]),
{
    let below = at_or_below(cat, tier);
    let kept = container_entries(cat, tier);
    assert forall|i: int| 0 <= i < sizes_of(kept).len() implies (#[trigger] sizes_of(kept)[i])
        <= ICO_MAX_SIZE && favicon_size(cat, sizes_of(kept)[i]) && size_in(
        cat,
        sizes_of(kept)[i],
    ) by {
        let e = kept[i];
        assert(kept.contains(e));
        below.lemma_filter_contains_rev(container_filter(), e);
        cat.lemma_filter_contains_rev(tier_filter(tier), e);
        let k = choose|k: int| 0 <= k < cat.len() && cat[k] == e;
        assert(cat[k].size == sizes_of(kept)[i]);
    }
}

/// Whether `cat` has an entry of `size` pixels.
pub open spec fn size_in(cat: Seq<IconSizeView>, size: u32) -> bool {
    exists|k: int| 0 <= k < cat.len() && (#[trigger] cat[k]).size == size
}

/// Every size of the catalog is positive, and no size occurs twice.
pub proof fn lemma_catalog_sizes_positive()
    ensures
        forall|k: int| 0 <= k < catalog().len() ==> (#[trigger] catalog()[k]).size >= 1,
        forall|j: int, k: int|
            0 <= j < k < catalog().len() ==> (#[trigger] catalog()[j]).size != (
            #[trigger] catalog()[k]).size,
{
}

} // verus!
