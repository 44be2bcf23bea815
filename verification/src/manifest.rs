//! Web manifest generator for PWA icons.
//!
//! A manifest is a partially typed record: the fields this crate knows are
//! typed, and every other top-level field is kept as an opaque key and
//! value, in order, so that regenerating the icons never drops what the
//! author of the document wrote.

use crate::error::{unparsable, FavisError};
use crate::icon_sizes::{
    at_or_below, catalog, filter_by_priority, views, IconPriority, IconPurpose, IconSize,
    IconSizeView,
};
use crate::pipeline::{png_file_name, png_name};
use crate::text::{append, append_str, decimal, decimal_chars, string_of};
use vstd::prelude::*;
use vstd::string::StringExecFns;

verus! {

/// Icon entry in the webmanifest
#[derive(Debug)]
pub struct ManifestIcon {
    pub src: String,
    pub sizes: String,
    pub mime_type: String,
    pub purpose: Option<String>,
}

/// Simplified webmanifest structure
#[derive(Debug)]
pub struct Manifest {
    pub name: Option<String>,
    pub short_name: Option<String>,
    pub icons: Vec<ManifestIcon>,
    pub start_url: Option<String>,
    pub display: Option<String>,
    pub theme_color: Option<String>,
    pub background_color: Option<String>,
    /// Any additional fields, each as its key and the text of its value, in
    /// the order of the document.
    pub additional_fields: Vec<(String, String)>,
}

/// The text of an optional string.
pub open spec fn opt_text(o: Option<String>) -> Option<Seq<char>> {
    match o {
        Some(s) => Some(s@),
        None => None,
    }
}

/// Mathematical value of a [`ManifestIcon`].
pub struct ManifestIconView {
    pub src: Seq<char>,
    pub sizes: Seq<char>,
    pub mime_type: Seq<char>,
    pub purpose: Option<Seq<char>>,
}

impl View for ManifestIcon {
    type V = ManifestIconView;

    open spec fn view(&self) -> ManifestIconView {
        ManifestIconView {
            src: self.src@,
            sizes: self.sizes@,
            mime_type: self.mime_type@,
            purpose: opt_text(self.purpose),
        }
    }
}

/// Mathematical value of a [`Manifest`].
pub struct ManifestView {
    pub name: Option<Seq<char>>,
    pub short_name: Option<Seq<char>>,
    pub icons: Seq<ManifestIconView>,
    pub start_url: Option<Seq<char>>,
    pub display: Option<Seq<char>>,
    pub theme_color: Option<Seq<char>>,
    pub background_color: Option<Seq<char>>,
    pub additional_fields: Seq<(Seq<char>, Seq<char>)>,
}

impl View for Manifest {
    type V = ManifestView;

    open spec fn view(&self) -> ManifestView {
        ManifestView {
            name: opt_text(self.name),
            short_name: opt_text(self.short_name),
            icons: self.icons@.map_values(|i: ManifestIcon| i@),
            start_url: opt_text(self.start_url),
            display: opt_text(self.display),
            theme_color: opt_text(self.theme_color),
            background_color: opt_text(self.background_color),
            additional_fields: self.additional_fields@.map_values(
                |f: (String, String)| (f.0@, f.1@),
            ),
        }
    }
}

/// The manifest keyword of a purpose, for the purposes that have one.
pub open spec fn manifest_purpose(purpose: IconPurpose) -> Option<Seq<char>> {
    match purpose {
        IconPurpose::PWA => Some("any"@),
        IconPurpose::Android => Some("maskable"@),
        _ => None,
    }
}

/// The keyword of the first purpose of the list that has one.
pub open spec fn first_keyword(purposes: Seq<IconPurpose>) -> Option<Seq<char>>
    decreases purposes.len(),
{
    if purposes.len() == 0 {
        None
    } else {
        match manifest_purpose(purposes[0]) {
            Some(keyword) => Some(keyword),
            None => first_keyword(purposes.skip(1)),
        }
    }
}

/// The `sizes` text of a square icon: `{N}x{N}`.
pub open spec fn sizes_text(size: u32) -> Seq<char> {
    decimal(size as nat) + "x"@ + decimal(size as nat)
}

/// The manifest entry of a catalog entry.
pub open spec fn icon_for(e: IconSizeView) -> ManifestIconView {
    ManifestIconView {
        src: png_name(e.size),
        sizes: sizes_text(e.size),
        mime_type: "image/png"@,
        purpose: first_keyword(e.purposes),
    }
}

/// The icon list of a manifest generated at `tier`: one entry per catalog
/// entry of that tier or below, in catalog order.
pub open spec fn icons_at(tier: IconPriority) -> Seq<ManifestIconView> {
    at_or_below(catalog(), tier).map_values(|e: IconSizeView| icon_for(e))
}

/// The minimal manifest: nothing but the given icons.
pub open spec fn minimal(icons: Seq<ManifestIconView>) -> ManifestView {
    ManifestView {
        name: None,
        short_name: None,
        icons,
        start_url: None,
        display: None,
        theme_color: None,
        background_color: None,
        additional_fields: Seq::empty(),
    }
}

/// The manifest generated at `tier` over an existing document, if there is
/// one: the icons are replaced, everything else is kept.
pub open spec fn merged(existing: Option<ManifestView>, tier: IconPriority) -> ManifestView {
    match existing {
        Some(document) => ManifestView { icons: icons_at(tier), ..document },
        None => minimal(icons_at(tier)),
    }
}

/// The view of an optional manifest.
pub open spec fn opt_manifest(existing: Option<Manifest>) -> Option<ManifestView> {
    match existing {
        Some(document) => Some(document@),
        None => None,
    }
}

/// Map our internal purpose to PWA manifest purpose
pub fn map_purpose_to_manifest(purpose: &IconPurpose) -> (keyword: Option<&'static str>)
    ensures
        match keyword {
            Some(k) => manifest_purpose(*purpose) == Some(k@),
            None => manifest_purpose(*purpose) is None,
        },
{
    match purpose {
        IconPurpose::PWA => Some("any"),
        IconPurpose::Android => Some("maskable"),
        _ => None,
    }
}

/// The `sizes` text of a square icon: `{N}x{N}`.
pub fn sizes_attribute(size: u32) -> (s: String)
    ensures
        s@ == sizes_text(size),
{
    let digits = decimal_chars(size);
    let mut text: Vec<char> = Vec::new();
    append(&mut text, &digits);
    append_str(&mut text, "x");
    append(&mut text, &digits);
    string_of(&text)
}

/// Find the primary purpose for the manifest: the keyword of the first
/// purpose that has one.
fn primary_purpose(purposes: &Vec<IconPurpose>) -> (keyword: Option<String>)
    ensures
        opt_text(keyword) == first_keyword(purposes@),
{
    let mut i: usize = 0;
    assert(purposes@.skip(0) == purposes@);
    while i < purposes.len()
        invariant
            i <= purposes.len(),
            first_keyword(purposes@) == first_keyword(purposes@.skip(i as int)),
        decreases purposes.len() - i,
    {
        let ghost rest = purposes@.skip(i as int);
        assert(rest[0] == purposes@[i as int]);
        assert(rest.skip(1) == purposes@.skip(i + 1));
        match map_purpose_to_manifest(&purposes[i]) {
            Some(k) => {
                return Some(String::from_str(k));
            },
            None => {},
        }
        i += 1;
    }
    None
}

fn manifest_icon(size: &IconSize) -> (icon: ManifestIcon)
    ensures
        icon@ == icon_for(size@),
{
    ManifestIcon {
        src: png_file_name(size.size),
        sizes: sizes_attribute(size.size),
        mime_type: String::from_str("image/png"),
        purpose: primary_purpose(&size.purposes),
    }
}

/// Generates or updates a manifest using provided priority level.
///
/// Without an existing document the result holds the icons and nothing
/// else. With one, only the icons are replaced: every other field, known or
/// not, is kept as it is.
pub fn generate_manifest(existing: Option<Manifest>, priority: IconPriority) -> (manifest: Manifest)
    ensures
        manifest@ == merged(opt_manifest(existing), priority),
{
    // Get all icon sizes for the requested priority level
    let icon_sizes = filter_by_priority(priority);
    let ghost selected = at_or_below(catalog(), priority);

    // Create manifest icons with proper purpose values
    let mut icons: Vec<ManifestIcon> = Vec::new();
    let mut i: usize = 0;
    while i < icon_sizes.len()
        invariant
            i <= icon_sizes.len(),
            views(icon_sizes@) == selected,
            icons@.map_values(|m: ManifestIcon| m@) == selected.take(i as int).map_values(
                |e: IconSizeView| icon_for(e),
            ),
        decreases icon_sizes.len() - i,
    {
        let icon = manifest_icon(&icon_sizes[i]);
        proof {
            assert(selected[i as int] == icon_sizes@[i as int]@);
            selected.lemma_take_succ_push(i as int);
            selected.take(i as int).lemma_push_map_commute(
                |e: IconSizeView| icon_for(e),
                selected[i as int],
            );
            icons@.lemma_push_map_commute(|m: ManifestIcon| m@, icon);
        }
        icons.push(icon);
        i += 1;
    }
    assert(selected.take(icon_sizes.len() as int) == selected);

    // Update only the icons field
    match existing {
        Some(document) => {
            let mut manifest = document;
            manifest.icons = icons;
            manifest
        },
        None => {
            let manifest = Manifest {
                name: None,
                short_name: None,
                icons,
                start_url: None,
                display: None,
                theme_color: None,
                background_color: None,
                additional_fields: Vec::new(),
            };
            assert(manifest@.additional_fields =~= Seq::<(Seq<char>, Seq<char>)>::empty());
            manifest
        },
    }
}

/// Synthesizes the manifest at `priority` over what was found at the target
/// path: nothing, a parsed document, or, for a text that could not be parsed
/// as a manifest, the parser's words. Fails with `InvalidFormat` exactly in
/// the last case.
pub fn synthesize(existing: Option<Result<Manifest, String>>, priority: IconPriority) -> (r: Result<
    Manifest,
    FavisError,
>)
    ensures
        match existing {
            None => r matches Ok(manifest) && manifest@ == merged(None, priority),
            Some(Ok(document)) => r matches Ok(manifest) && manifest@ == merged(
                Some(document@),
                priority,
            ),
            Some(Err(reason)) => r matches Err(e) && e@ == unparsable(reason@),
        },
{
    match existing {
        None => Ok(generate_manifest(None, priority)),
        Some(Ok(document)) => Ok(generate_manifest(Some(document), priority)),
        Some(Err(reason)) => Err(FavisError::from_json(reason.as_str())),
    }
}

/// Regenerating a manifest preserves what it does not own: every known
/// top-level field but the icons, and every unknown field with its key, its
/// value and its place, is in the result exactly as in the existing
/// document. Only the icons differ, and they depend on the tier alone.
pub proof fn lemma_merge_preserves_unknowns(document: ManifestView, tier: IconPriority)
    ensures
        merged(Some(document), tier).additional_fields == document.additional_fields,
        merged(Some(document), tier).name == document.name,
        merged(Some(document), tier).short_name == document.short_name,
        merged(Some(document), tier).start_url == document.start_url,
        merged(Some(document), tier).display == document.display,
        merged(Some(document), tier).theme_color == document.theme_color,
        merged(Some(document), tier).background_color == document.background_color,
        merged(Some(document), tier).icons == icons_at(tier),
        forall|i: int|
            0 <= i < document.additional_fields.len() ==> merged(
                Some(document),
                tier,
            ).additional_fields[i] == document.additional_fields[i],
{
}

} // verus!
