//! Generate HTML <link> tags from a webmanifest

use crate::error::{unparsable, FavisError};
use crate::icon_sizes::{catalog, get_all_sizes, has_purpose, views, IconPurpose, IconSizeView};
use crate::manifest::{opt_text, sizes_attribute, sizes_text};
use crate::text::{
    append, append_str, chars_of, ends_with, has_suffix, lowercase, lowercased, parse_u32,
    parse_u32_range, str_same, string_of,
};
use vstd::prelude::*;

verus! {

/// Minimal representation of the 'icons' array in webmanifest
#[derive(Debug)]
pub struct Manifest {
    pub icons: Vec<IconEntry>,
}

/// One icon of a manifest, as far as the link tags need it.
#[derive(Debug)]
pub struct IconEntry {
    pub src: String,
    pub sizes: Option<String>,
    pub mime_type: Option<String>,
    pub purpose: Option<String>,
}

/// Represents a <link> tag for favicon
#[derive(Debug)]
pub struct LinkTag {
    pub rel: &'static str,
    pub href: String,
    pub sizes: Option<String>,
    pub type_attr: Option<String>,
}

/// Mathematical value of an [`IconEntry`].
pub struct IconEntryView {
    pub src: Seq<char>,
    pub sizes: Option<Seq<char>>,
    pub mime_type: Option<Seq<char>>,
    pub purpose: Option<Seq<char>>,
}

impl View for IconEntry {
    type V = IconEntryView;

    open spec fn view(&self) -> IconEntryView {
        IconEntryView {
            src: self.src@,
            sizes: opt_text(self.sizes),
            mime_type: opt_text(self.mime_type),
            purpose: opt_text(self.purpose),
        }
    }
}

impl View for Manifest {
    type V = Seq<IconEntryView>;

    open spec fn view(&self) -> Seq<IconEntryView> {
        self.icons@.map_values(|e: IconEntry| e@)
    }
}

/// Mathematical value of a [`LinkTag`].
pub struct LinkTagView {
    pub rel: Seq<char>,
    pub href: Seq<char>,
    pub sizes: Option<Seq<char>>,
    pub type_attr: Option<Seq<char>>,
}

impl View for LinkTag {
    type V = LinkTagView;

    open spec fn view(&self) -> LinkTagView {
        LinkTagView {
            rel: self.rel@,
            href: self.href@,
            sizes: opt_text(self.sizes),
            type_attr: opt_text(self.type_attr),
        }
    }
}

/// The values of a list of tags, in order.
pub open spec fn tag_views(tags: Seq<LinkTag>) -> Seq<LinkTagView> {
    tags.map_values(|t: LinkTag| t@)
}

/// An attribute as it stands in a tag: a space, the name, and the value in
/// double quotes.
pub open spec fn attribute(name: Seq<char>, value: Seq<char>) -> Seq<char> {
    " "@ + name + "=\""@ + value + "\""@
}

/// An optional attribute: nothing if the value is absent.
pub open spec fn optional_attribute(name: Seq<char>, value: Option<Seq<char>>) -> Seq<char> {
    match value {
        Some(v) => attribute(name, v),
        None => Seq::empty(),
    }
}

/// The self-closing tag of a link: `rel`, `href`, and then `sizes` and
/// `type` where the link has them.
pub open spec fn html_of(tag: LinkTagView) -> Seq<char> {
    "<link"@ + attribute("rel"@, tag.rel) + attribute("href"@, tag.href) + optional_attribute(
        "sizes"@,
        tag.sizes,
    ) + optional_attribute("type"@, tag.type_attr) + "/>"@
}

fn push_attribute(out: &mut Vec<char>, name: &str, value: &str)
    ensures
        final(out)@ == old(out)@ + attribute(name@, value@),
{
    append_str(out, " ");
    append_str(out, name);
    append_str(out, "=\"");
    append_str(out, value);
    append_str(out, "\"");
    assert(out@ =~= old(out)@ + attribute(name@, value@));
}

fn push_optional_attribute(out: &mut Vec<char>, name: &str, value: &Option<String>)
    ensures
        final(out)@ == old(out)@ + optional_attribute(name@, opt_text(*value)),
{
    match value {
        Some(v) => push_attribute(out, name, v.as_str()),
        None => {
            assert(out@ =~= old(out)@ + Seq::<char>::empty());
        },
    }
}

fn push_html(out: &mut Vec<char>, tag: &LinkTag)
    ensures
        final(out)@ == old(out)@ + html_of(tag@),
{
    append_str(out, "<link");
    push_attribute(out, "rel", tag.rel);
    push_attribute(out, "href", tag.href.as_str());
    push_optional_attribute(out, "sizes", &tag.sizes);
    push_optional_attribute(out, "type", &tag.type_attr);
    append_str(out, "/>");
    assert(out@ =~= old(out)@ + html_of(tag@));
}

impl LinkTag {
    /// Formats as HTML <link ... />
    pub fn to_html(&self) -> (html: String)
        ensures
            html@ == html_of(self@),
    {
        let mut out: Vec<char> = Vec::new();
        push_html(&mut out, self);
        assert(out@ =~= html_of(self@));
        string_of(&out)
    }
}

/// The text without its last character, if that is a slash.
pub open spec fn without_trailing_slash(s: Seq<char>) -> Seq<char> {
    if s.len() > 0 && s.last() == '/' {
        s.drop_last()
    } else {
        s
    }
}

/// The text without its first character, if that is a slash.
pub open spec fn without_leading_slash(s: Seq<char>) -> Seq<char> {
    if s.len() > 0 && s[0] == '/' {
        s.skip(1)
    } else {
        s
    }
}

/// The address of an icon: `src` as it is, or, under a base, the base and
/// `src` joined by one slash, after at most one slash is taken from the end
/// of the base and at most one from the start of `src`.
pub open spec fn href_of(base: Option<Seq<char>>, src: Seq<char>) -> Seq<char> {
    match base {
        Some(b) => without_trailing_slash(b) + "/"@ + without_leading_slash(src),
        None => src,
    }
}

fn push_range(out: &mut Vec<char>, text: &Vec<char>, from: usize, to: usize)
    requires
        from <= to <= text.len(),
    ensures
        final(out)@ == old(out)@ + text@.subrange(from as int, to as int),
{
    let mut i: usize = from;
    while i < to
        invariant
            from <= i <= to <= text.len(),
            out@ == old(out)@ + text@.subrange(from as int, i as int),
        decreases to - i,
    {
        out.push(text[i]);
        assert(text@.subrange(from as int, i + 1) == text@.subrange(from as int, i as int).push(
            text@[i as int],
        ));
        i += 1;
    }
}

/// Build href with optional base
pub fn join_href(base_url: Option<&str>, src: &str) -> (href: String)
    ensures
        href@ == href_of(
            match base_url {
                Some(b) => Some(b@),
                None => None,
            },
            src@,
        ),
{
    match base_url {
        None => string_of(&chars_of(src)),
        Some(base) => {
            let b = chars_of(base);
            let s = chars_of(src);
            let end: usize = if b.len() > 0 && b[b.len() - 1] == '/' {
                b.len() - 1
            } else {
                b.len()
            };
            let start: usize = if s.len() > 0 && s[0] == '/' {
                1
            } else {
                0
            };
            let mut out: Vec<char> = Vec::new();
            push_range(&mut out, &b, 0, end);
            append_str(&mut out, "/");
            push_range(&mut out, &s, start, s.len());
            assert(b@.subrange(0, end as int) =~= without_trailing_slash(base@));
            assert(s@.subrange(start as int, s.len() as int) =~= without_leading_slash(src@));
            assert(out@ =~= without_trailing_slash(base@) + "/"@ + without_leading_slash(src@));
            string_of(&out)
        },
    }
}

/// Whether the file name ends in `.ico`, whatever the case of its letters.
pub open spec fn is_ico(src: Seq<char>) -> bool {
    has_suffix(lowercased(src), ".ico"@)
}

/// The purposes that the list gives for the `sizes` text: those of the last
/// entry whose size, written `{N}x{N}`, is that text.
pub open spec fn purposes_for(list: Seq<IconSizeView>, sizes: Seq<char>) -> Option<
    Seq<IconPurpose>,
>
    decreases list.len(),
{
    if list.len() == 0 {
        None
    } else if sizes_text(list.last().size) == sizes {
        Some(list.last().purposes)
    } else {
        purposes_for(list.drop_last(), sizes)
    }
}

/// The `rel` that extension sniffing gives, for a file name that has the
/// container's extension or has not.
pub open spec fn sniffed_rel(ico: bool) -> Seq<char> {
    if ico {
        "shortcut icon"@
    } else {
        "icon"@
    }
}

/// The `rel` that a set of purposes gives to an icon, if it gives one.
pub open spec fn rel_of_purposes(purposes: Seq<IconPurpose>, ico: bool) -> Option<Seq<char>> {
    if purposes.contains(IconPurpose::AppleTouch) {
        Some("apple-touch-icon"@)
    } else if purposes.contains(IconPurpose::Favicon) {
        Some(sniffed_rel(ico))
    } else if purposes.contains(IconPurpose::Android) || purposes.contains(IconPurpose::PWA) {
        Some("icon"@)
    } else {
        None
    }
}

/// The `rel` of an icon, given whether its file name has the container's
/// extension: what the purposes of its size say, and extension sniffing
/// where the size is absent, unknown to the catalog, or of no purpose that
/// decides.
pub open spec fn rel_given(sizes: Option<Seq<char>>, ico: bool) -> Seq<char> {
    let decided = match sizes {
        Some(s) => match purposes_for(catalog(), s) {
            Some(purposes) => rel_of_purposes(purposes, ico),
            None => None,
        },
        None => None,
    };
    match decided {
        Some(rel) => rel,
        None => sniffed_rel(ico),
    }
}

/// The `rel` of an icon with the given `sizes` and file name.
pub open spec fn rel_of(sizes: Option<Seq<char>>, src: Seq<char>) -> Seq<char> {
    rel_given(sizes, is_ico(src))
}

/// Whether the file name ends in `.ico`, whatever the case of its letters.
pub fn has_ico_extension(src: &str) -> (ico: bool)
    ensures
        ico == is_ico(src@),
{
    let lowered = lowercase(src);
    ends_with(&chars_of(lowered.as_str()), &chars_of(".ico"))
}

fn sniff(ico: bool) -> (rel: &'static str)
    ensures
        rel@ == sniffed_rel(ico),
{
    if ico {
        "shortcut icon"
    } else {
        "icon"
    }
}

/// Determine rel using the catalog's metadata, given whether the file name
/// has the container's extension.
pub fn infer_rel_given(sizes: &Option<String>, ico: bool) -> (rel: &'static str)
    ensures
        rel@ == rel_given(opt_text(*sizes), ico),
{
    match sizes {
        None => sniff(ico),
        Some(s) => {
            let known = get_all_sizes();
            let ghost list = views(known@);
            let mut i: usize = known.len();
            assert(list.take(known.len() as int) == list);
            while i > 0
                invariant
                    i <= known.len(),
                    list == views(known@),
                    list == catalog(),
                    opt_text(*sizes) == Some(s@),
                    purposes_for(list, s@) == purposes_for(list.take(i as int), s@),
                decreases i,
            {
                i -= 1;
                let ghost front = list.take(i + 1);
                assert(front.last() == known@[i as int]@);
                assert(front.drop_last() == list.take(i as int));
                let text = sizes_attribute(known[i].size);
                if str_same(text.as_str(), s.as_str()) {
                    let purposes = &known[i].purposes;
                    assert(purposes_for(front, s@) == Some(purposes@));
                    let apple = has_purpose(purposes, IconPurpose::AppleTouch);
                    let favicon = has_purpose(purposes, IconPurpose::Favicon);
                    let android = has_purpose(purposes, IconPurpose::Android);
                    let pwa = has_purpose(purposes, IconPurpose::PWA);
                    if apple {
                        return "apple-touch-icon";
                    } else if favicon {
                        return sniff(ico);
                    } else if android || pwa {
                        return "icon";
                    } else {
                        return sniff(ico);
                    }
                }
                assert(purposes_for(front, s@) == purposes_for(list.take(i as int), s@));
            }
            sniff(ico)
        },
    }
}

/// Determine rel using the catalog's metadata
pub fn infer_rel(sizes: &Option<String>, src: &str) -> (rel: &'static str)
    ensures
        rel@ == rel_of(opt_text(*sizes), src@),
{
    infer_rel_given(sizes, has_ico_extension(src))
}

/// Place of a `rel` in the fixed order `shortcut icon`, `icon`,
/// `apple-touch-icon`; any other `rel` comes after these.
pub open spec fn rel_rank(rel: Seq<char>) -> int {
    if rel == "shortcut icon"@ {
        0
    } else if rel == "icon"@ {
        1
    } else if rel == "apple-touch-icon"@ {
        2
    } else {
        3
    }
}

/// Number of characters of `s` before its first `x`; all of them if it has
/// none.
pub open spec fn first_x(s: Seq<char>) -> int
    decreases s.len(),
{
    if s.len() == 0 || s[0] == 'x' {
        0
    } else {
        1 + first_x(s.skip(1))
    }
}

/// The width that a `sizes` text states: the number before its first `x`,
/// and 0 where the text is absent or states none.
pub open spec fn numeric_width(sizes: Option<Seq<char>>) -> u32 {
    match sizes {
        Some(s) => match parse_u32(s.take(first_x(s))) {
            Some(n) => n,
            None => 0,
        },
        None => 0,
    }
}

/// Whether `a` may stand before `b`: its `rel` ranks lower, or ranks the
/// same with a width that is not greater.
pub open spec fn key_le(a: LinkTagView, b: LinkTagView) -> bool {
    rel_rank(a.rel) < rel_rank(b.rel) || (rel_rank(a.rel) == rel_rank(b.rel) && numeric_width(
        a.sizes,
    ) <= numeric_width(b.sizes))
}

/// Whether the tags are non-decreasing in rank of `rel`, then width.
pub open spec fn sorted(tags: Seq<LinkTagView>) -> bool {
    forall|i: int, j: int| 0 <= i < j < tags.len() ==> key_le(#[trigger] tags[i], #[trigger] tags[j])
}

/// Whether two tags share the pair of `rel` and `sizes`.
pub open spec fn same_key(a: LinkTagView, b: LinkTagView) -> bool {
    a.rel == b.rel && a.sizes == b.sizes
}

/// Whether some tag of the list shares `rel` and `sizes` with `t`.
pub open spec fn has_key(tags: Seq<LinkTagView>, t: LinkTagView) -> bool {
    exists|j: int| 0 <= j < tags.len() && same_key(#[trigger] tags[j], t)
}

/// Whether no two tags of the list share `rel` and `sizes`.
pub open spec fn distinct_keys(tags: Seq<LinkTagView>) -> bool {
    forall|i: int, j: int|
        0 <= i < j < tags.len() ==> !same_key(#[trigger] tags[i], #[trigger] tags[j])
}

/// Whether `tags[i]` is the first tag of the list with its `rel` and
/// `sizes`.
pub open spec fn is_first(tags: Seq<LinkTagView>, i: int) -> bool {
    0 <= i < tags.len() && forall|j: int| 0 <= j < i ==> !same_key(#[trigger] tags[j], tags[i])
}

/// The tags without later duplicates: of the tags that share `rel` and
/// `sizes`, the first stays, in its place.
pub open spec fn dedup(tags: Seq<LinkTagView>) -> Seq<LinkTagView>
    decreases tags.len(),
{
    if tags.len() == 0 {
        tags
    } else if has_key(tags.drop_last(), tags.last()) {
        dedup(tags.drop_last())
    } else {
        dedup(tags.drop_last()).push(tags.last())
    }
}

/// Where `t` goes into sorted tags: behind the last tag that may stand
/// before it.
pub open spec fn insert_pos(tags: Seq<LinkTagView>, t: LinkTagView) -> int
    decreases tags.len(),
{
    if tags.len() == 0 {
        0
    } else if key_le(tags.last(), t) {
        tags.len() as int
    } else {
        insert_pos(tags.drop_last(), t)
    }
}

/// The tags in stable order: non-decreasing in rank of `rel`, then width,
/// and tags that tie stay in the order they came in.
pub open spec fn stable_sort(tags: Seq<LinkTagView>) -> Seq<LinkTagView>
    decreases tags.len(),
{
    if tags.len() == 0 {
        tags
    } else {
        let front = stable_sort(tags.drop_last());
        front.insert(insert_pos(front, tags.last()), tags.last())
    }
}

/// The tag of one icon entry, given whether its file name has the
/// container's extension.
pub open spec fn tag_given(entry: IconEntryView, ico: bool, base: Option<Seq<char>>)
    -> LinkTagView {
    LinkTagView {
        rel: rel_given(entry.sizes, ico),
        href: href_of(base, entry.src),
        sizes: entry.sizes,
        type_attr: entry.mime_type,
    }
}

/// The tag of one icon entry.
pub open spec fn tag_of(entry: IconEntryView, base: Option<Seq<char>>) -> LinkTagView {
    tag_given(entry, is_ico(entry.src), base)
}

/// The tags of the icon entries, one per entry, in order.
pub open spec fn tags_of(entries: Seq<IconEntryView>, base: Option<Seq<char>>) -> Seq<
    LinkTagView,
> {
    entries.map_values(|e: IconEntryView| tag_of(e, base))
}

/// The link tags of a manifest: one per entry, without later duplicates,
/// in stable order.
pub open spec fn link_tags(entries: Seq<IconEntryView>, base: Option<Seq<char>>) -> Seq<
    LinkTagView,
> {
    stable_sort(dedup(tags_of(entries, base)))
}

/// The tags as text: each tag on a line of its own.
pub open spec fn html_lines(tags: Seq<LinkTagView>) -> Seq<char>
    decreases tags.len(),
{
    if tags.len() == 0 {
        Seq::empty()
    } else {
        html_lines(tags.drop_last()) + html_of(tags.last()) + "\n"@
    }
}

/// The text of an optional base.
pub open spec fn opt_str(base: Option<&str>) -> Option<Seq<char>> {
    match base {
        Some(b) => Some(b@),
        None => None,
    }
}

/// Whatever stands before the first `x` holds no `x`, and an `x` stands
/// right behind it unless the text ends there.
proof fn lemma_first_x(s: Seq<char>, k: int)
    requires
        0 <= k <= s.len(),
        forall|j: int| 0 <= j < k ==> s[j] != 'x',
        k == s.len() || s[k] == 'x',
    ensures
        first_x(s) == k,
    decreases k,
{
    if k > 0 {
        let rest = s.skip(1);
        assert forall|j: int| 0 <= j < k - 1 implies rest[j] != 'x' by {
            assert(rest[j] == s[j + 1]);
        }
        lemma_first_x(rest, k - 1);
    }
}

/// The insert position splits the tags: no tag from it on may stand before
/// `t`, and the tag right before it may.
proof fn lemma_insert_pos(tags: Seq<LinkTagView>, t: LinkTagView)
    ensures
        0 <= insert_pos(tags, t) <= tags.len(),
        insert_pos(tags, t) > 0 ==> key_le(tags[insert_pos(tags, t) - 1], t),
        forall|j: int| insert_pos(tags, t) <= j < tags.len() ==> !key_le(#[trigger] tags[j], t),
    decreases tags.len(),
{
    if tags.len() > 0 && !key_le(tags.last(), t) {
        lemma_insert_pos(tags.drop_last(), t);
        let pos = insert_pos(tags.drop_last(), t);
        assert forall|j: int| pos <= j < tags.len() implies !key_le(#[trigger] tags[j], t) by {
            if j < tags.len() - 1 {
                assert(tags.drop_last()[j] == tags[j]);
            }
        }
        if pos > 0 {
            assert(tags.drop_last()[pos - 1] == tags[pos - 1]);
        }
    }
}

/// A position that splits the tags as the insert position does is the
/// insert position.
proof fn lemma_insert_pos_unique(tags: Seq<LinkTagView>, t: LinkTagView, pos: int)
    requires
        0 <= pos <= tags.len(),
        pos > 0 ==> key_le(tags[pos - 1], t),
        forall|j: int| pos <= j < tags.len() ==> !key_le(#[trigger] tags[j], t),
    ensures
        insert_pos(tags, t) == pos,
    decreases tags.len(),
{
    if tags.len() > 0 {
        if pos == tags.len() {
        } else {
            assert(!key_le(tags[tags.len() - 1], t));
            let front = tags.drop_last();
            if pos > 0 {
                assert(front[pos - 1] == tags[pos - 1]);
            }
            assert forall|j: int| pos <= j < front.len() implies !key_le(#[trigger] front[j], t) by {
                assert(front[j] == tags[j]);
            }
            lemma_insert_pos_unique(front, t, pos);
        }
    }
}

/// Inserting a tag at its insert position keeps sorted tags sorted, adds
/// this tag and no other, and keeps keys distinct if the tag's key is new.
proof fn lemma_insert_keeps(tags: Seq<LinkTagView>, t: LinkTagView)
    ensures
        tags.insert(insert_pos(tags, t), t).len() == tags.len() + 1,
        sorted(tags) ==> sorted(tags.insert(insert_pos(tags, t), t)),
        forall|u: LinkTagView| #[trigger]
            tags.insert(insert_pos(tags, t), t).contains(u) <==> tags.contains(u) || u == t,
        distinct_keys(tags) && !has_key(tags, t) ==> distinct_keys(
            tags.insert(insert_pos(tags, t), t),
        ),
{
    lemma_insert_pos(tags, t);
    let pos = insert_pos(tags, t);
    let out = tags.insert(pos, t);
    tags.insert_ensures(pos, t);
    assert forall|i: int| 0 <= i < out.len() implies (#[trigger] out[i]) == (if i < pos {
        tags[i]
    } else if i == pos {
        t
    } else {
        tags[i - 1]
    }) by {
        if i > pos {
            assert(out[(i - 1) + 1] == tags[i - 1]);
        }
    }
    if sorted(tags) {
        assert forall|i: int, j: int| 0 <= i < j < out.len() implies key_le(
            #[trigger] out[i],
            #[trigger] out[j],
        ) by {
            if j < pos {
                assert(key_le(tags[i], tags[j]));
            } else if j == pos {
                if i < pos - 1 {
                    assert(key_le(tags[i], tags[pos - 1]));
                }
            } else if i < pos {
                assert(key_le(tags[i], tags[j - 1]));
            } else if i == pos {
                assert(!key_le(tags[j - 1], t));
            } else {
                assert(key_le(tags[i - 1], tags[j - 1]));
            }
        }
    }
    assert forall|u: LinkTagView| #[trigger] out.contains(u) <==> tags.contains(u) || u == t by {
        if out.contains(u) {
            let i = choose|i: int| 0 <= i < out.len() && out[i] == u;
            if i < pos {
                assert(tags[i] == u);
            } else if i > pos {
                assert(tags[i - 1] == u);
            }
        }
        if tags.contains(u) {
            let i = choose|i: int| 0 <= i < tags.len() && tags[i] == u;
            if i < pos {
                assert(out[i] == u);
            } else {
                assert(out[i + 1] == u);
            }
        }
        if u == t {
            assert(out[pos] == u);
        }
    }
    if distinct_keys(tags) && !has_key(tags, t) {
        assert forall|i: int, j: int| 0 <= i < j < out.len() implies !same_key(
            #[trigger] out[i],
            #[trigger] out[j],
        ) by {
            let a = if i < pos {
                i
            } else {
                i - 1
            };
            let b = if j < pos {
                j
            } else {
                j - 1
            };
            if i == pos {
                assert(out[j] == tags[b]);
                assert(!same_key(tags[b], t));
            } else if j == pos {
                assert(out[i] == tags[a]);
                assert(!same_key(tags[a], t));
            } else {
                assert(out[i] == tags[a] && out[j] == tags[b]);
                assert(!same_key(tags[a], tags[b]));
            }
        }
    }
}

/// Sorting keeps every tag and adds none, puts the tags in order, and keeps
/// keys distinct.
pub proof fn lemma_stable_sort(tags: Seq<LinkTagView>)
    ensures
        stable_sort(tags).len() == tags.len(),
        sorted(stable_sort(tags)),
        forall|u: LinkTagView| #[trigger] stable_sort(tags).contains(u) <==> tags.contains(u),
        distinct_keys(tags) ==> distinct_keys(stable_sort(tags)),
    decreases tags.len(),
{
    if tags.len() > 0 {
        let front = tags.drop_last();
        let last = tags.last();
        lemma_stable_sort(front);
        lemma_insert_keeps(stable_sort(front), last);
        assert forall|u: LinkTagView| #[trigger]
            stable_sort(tags).contains(u) <==> tags.contains(u) by {
            if tags.contains(u) {
                let i = choose|i: int| 0 <= i < tags.len() && tags[i] == u;
                if i < tags.len() - 1 {
                    assert(front[i] == u);
                }
            }
            if front.contains(u) {
                let i = choose|i: int| 0 <= i < front.len() && front[i] == u;
                assert(tags[i] == u);
            }
            if u == last {
                assert(tags[tags.len() - 1] == u);
            }
        }
        if distinct_keys(tags) {
            assert forall|i: int, j: int| 0 <= i < j < front.len() implies !same_key(
                #[trigger] front[i],
                #[trigger] front[j],
            ) by {
                assert(front[i] == tags[i] && front[j] == tags[j]);
            }
            if has_key(stable_sort(front), last) {
                let j = choose|j: int|
                    0 <= j < stable_sort(front).len() && same_key(
                        #[trigger] stable_sort(front)[j],
                        last,
                    );
                let u = stable_sort(front)[j];
                assert(stable_sort(front).contains(u));
                let i = choose|i: int| 0 <= i < front.len() && front[i] == u;
                assert(same_key(tags[i], tags[tags.len() - 1]));
            }
        }
    }
}

/// Dropping duplicates drops no key and adds none.
proof fn lemma_dedup_keys(tags: Seq<LinkTagView>, t: LinkTagView)
    ensures
        dedup(tags).len() <= tags.len(),
        has_key(dedup(tags), t) <==> has_key(tags, t),
    decreases tags.len(),
{
    if tags.len() > 0 {
        let front = tags.drop_last();
        let last = tags.last();
        let n = tags.len() - 1;
        lemma_dedup_keys(front, t);
        lemma_dedup_keys(front, last);
        let d = dedup(front);
        let out = dedup(tags);
        if has_key(out, t) {
            let j = choose|j: int| 0 <= j < out.len() && same_key(#[trigger] out[j], t);
            if j < d.len() {
                assert(same_key(d[j], t));
                let i = choose|i: int| 0 <= i < front.len() && same_key(#[trigger] front[i], t);
                assert(same_key(tags[i], t));
            } else {
                assert(same_key(tags[n], t));
            }
        }
        if has_key(tags, t) {
            let i = choose|i: int| 0 <= i < tags.len() && same_key(#[trigger] tags[i], t);
            if i < n {
                assert(same_key(front[i], t));
                let j = choose|j: int| 0 <= j < d.len() && same_key(#[trigger] d[j], t);
                assert(same_key(out[j], t));
            } else if has_key(front, last) {
                let j = choose|j: int| 0 <= j < d.len() && same_key(#[trigger] d[j], last);
                assert(same_key(out[j], t));
            } else {
                assert(same_key(out[out.len() - 1], t));
            }
        }
    }
}

/// Every tag that is left is the first of its key in the input.
proof fn lemma_dedup_firsts(tags: Seq<LinkTagView>, k: int)
    requires
        0 <= k < dedup(tags).len(),
    ensures
        exists|i: int| is_first(tags, i) && tags[i] == dedup(tags)[k],
    decreases tags.len(),
{
    let front = tags.drop_last();
    let last = tags.last();
    let n = tags.len() - 1;
    let d = dedup(front);
    if k < d.len() {
        lemma_dedup_firsts(front, k);
        let i = choose|i: int| is_first(front, i) && front[i] == d[k];
        assert forall|j: int| 0 <= j < i implies !same_key(#[trigger] tags[j], tags[i]) by {
            assert(!same_key(front[j], front[i]));
        }
        assert(is_first(tags, i) && tags[i] == dedup(tags)[k]);
    } else {
        assert forall|j: int| 0 <= j < n implies !same_key(#[trigger] tags[j], tags[n]) by {
            if same_key(tags[j], tags[n]) {
                assert(same_key(front[j], last));
            }
        }
        assert(is_first(tags, n) && tags[n] == dedup(tags)[k]);
    }
}

/// The first tag of every key of the input is left.
proof fn lemma_dedup_covers(tags: Seq<LinkTagView>, i: int)
    requires
        is_first(tags, i),
    ensures
        dedup(tags).contains(tags[i]),
    decreases tags.len(),
{
    let front = tags.drop_last();
    let last = tags.last();
    let n = tags.len() - 1;
    let d = dedup(front);
    let out = dedup(tags);
    if i < n {
        assert forall|j: int| 0 <= j < i implies !same_key(#[trigger] front[j], front[i]) by {
            assert(!same_key(tags[j], tags[i]));
        }
        lemma_dedup_covers(front, i);
        let k = choose|k: int| 0 <= k < d.len() && d[k] == front[i];
        assert(out[k] == tags[i]);
    } else {
        if has_key(front, last) {
            let j = choose|j: int| 0 <= j < front.len() && same_key(#[trigger] front[j], last);
            assert(same_key(tags[j], tags[i]));
        }
        assert(out[out.len() - 1] == tags[i]);
    }
}

/// No key is left twice.
proof fn lemma_dedup_distinct(tags: Seq<LinkTagView>)
    ensures
        distinct_keys(dedup(tags)),
    decreases tags.len(),
{
    if tags.len() > 0 {
        let front = tags.drop_last();
        let last = tags.last();
        lemma_dedup_distinct(front);
        lemma_dedup_keys(front, last);
        let d = dedup(front);
        let out = dedup(tags);
        if !has_key(front, last) {
            assert forall|i: int, j: int| 0 <= i < j < out.len() implies !same_key(
                #[trigger] out[i],
                #[trigger] out[j],
            ) by {
                if j == d.len() {
                    if same_key(out[i], out[j]) {
                        assert(same_key(d[i], last));
                    }
                } else {
                    assert(!same_key(d[i], d[j]));
                }
            }
        }
    }
}

/// What is left after duplicates are dropped: every tag that is left is the
/// first of its key in the input, the first of every key of the input is
/// left, and no key is left twice.
pub proof fn lemma_dedup(tags: Seq<LinkTagView>)
    ensures
        dedup(tags).len() <= tags.len(),
        distinct_keys(dedup(tags)),
        forall|t: LinkTagView| has_key(dedup(tags), t) <==> has_key(tags, t),
        forall|k: int|
            0 <= k < dedup(tags).len() ==> exists|i: int|
                is_first(tags, i) && tags[i] == #[trigger] dedup(tags)[k],
        forall|i: int| is_first(tags, i) ==> dedup(tags).contains(#[trigger] tags[i]),
{
    lemma_dedup_distinct(tags);
    assert forall|t: LinkTagView| has_key(dedup(tags), t) <==> has_key(tags, t) by {
        lemma_dedup_keys(tags, t);
    }
    if tags.len() > 0 {
        lemma_dedup_keys(tags, tags[0]);
    }
    assert forall|k: int| 0 <= k < dedup(tags).len() implies exists|i: int|
        is_first(tags, i) && tags[i] == #[trigger] dedup(tags)[k] by {
        lemma_dedup_firsts(tags, k);
    }
    assert forall|i: int| is_first(tags, i) implies dedup(tags).contains(#[trigger] tags[i]) by {
        lemma_dedup_covers(tags, i);
    }
}

/// Dedupe and order of the link tags. Of the tags that share `rel` and
/// `sizes`, exactly one is emitted, and it is the first in input order:
/// every emitted tag is the first of its pair, the first of every pair is
/// emitted, and no pair is emitted twice. The emitted tags are
/// non-decreasing in rank of `rel`, then width.
pub proof fn lemma_links_deduped_and_ordered(tags: Seq<LinkTagView>)
    ensures
        sorted(stable_sort(dedup(tags))),
        distinct_keys(stable_sort(dedup(tags))),
        forall|k: int|
            0 <= k < stable_sort(dedup(tags)).len() ==> exists|i: int|
                is_first(tags, i) && tags[i] == #[trigger] stable_sort(dedup(tags))[k],
        forall|i: int|
            is_first(tags, i) ==> stable_sort(dedup(tags)).contains(#[trigger] tags[i]),
        forall|i: int|
            0 <= i < tags.len() ==> has_key(stable_sort(dedup(tags)), #[trigger] tags[i]),
{
    let d = dedup(tags);
    let out = stable_sort(d);
    lemma_dedup(tags);
    lemma_stable_sort(d);
    assert forall|k: int| 0 <= k < out.len() implies exists|i: int|
        is_first(tags, i) && tags[i] == #[trigger] out[k] by {
        assert(out.contains(out[k]));
        assert(d.contains(out[k]));
        let m = choose|m: int| 0 <= m < d.len() && d[m] == out[k];
        let i = choose|i: int| is_first(tags, i) && tags[i] == d[m];
        assert(is_first(tags, i) && tags[i] == out[k]);
    }
    assert forall|i: int| is_first(tags, i) implies out.contains(#[trigger] tags[i]) by {
        assert(d.contains(tags[i]));
    }
    assert forall|i: int| 0 <= i < tags.len() implies has_key(out, #[trigger] tags[i]) by {
        assert(same_key(tags[i], tags[i]));
        assert(has_key(tags, tags[i]));
        assert(has_key(d, tags[i]));
        let m = choose|m: int| 0 <= m < d.len() && same_key(#[trigger] d[m], tags[i]);
        assert(d.contains(d[m]));
        assert(out.contains(d[m]));
        let k = choose|k: int| 0 <= k < out.len() && out[k] == d[m];
        assert(same_key(out[k], tags[i]));
    }
}

/// Place of a `rel` in the fixed order; 3 for a `rel` that is not in it.
pub fn rank_of(rel: &str) -> (rank: u8)
    ensures
        rank == rel_rank(rel@),
{
    if str_same(rel, "shortcut icon") {
        0
    } else if str_same(rel, "icon") {
        1
    } else if str_same(rel, "apple-touch-icon") {
        2
    } else {
        3
    }
}

/// The width that a `sizes` text states, and 0 where it is absent or states
/// none.
pub fn width_of(sizes: &Option<String>) -> (width: u32)
    ensures
        width == numeric_width(opt_text(*sizes)),
{
    match sizes {
        None => 0,
        Some(s) => {
            let text = chars_of(s.as_str());
            let mut k: usize = 0;
            while k < text.len() && text[k] != 'x'
                invariant
                    k <= text.len(),
                    forall|j: int| 0 <= j < k ==> text@[j] != 'x',
                decreases text.len() - k,
            {
                k += 1;
            }
            proof {
                lemma_first_x(text@, k as int);
            }
            match parse_u32_range(&text, 0, k) {
                Some(n) => n,
                None => 0,
            }
        },
    }
}

fn may_precede(a: &LinkTag, b: &LinkTag) -> (le: bool)
    ensures
        le == key_le(a@, b@),
{
    let ra = rank_of(a.rel);
    let rb = rank_of(b.rel);
    ra < rb || (ra == rb && width_of(&a.sizes) <= width_of(&b.sizes))
}

fn opt_same(a: &Option<String>, b: &Option<String>) -> (eq: bool)
    ensures
        eq == (opt_text(*a) == opt_text(*b)),
{
    match a {
        Some(x) => match b {
            Some(y) => str_same(x.as_str(), y.as_str()),
            None => false,
        },
        None => match b {
            Some(_) => false,
            None => true,
        },
    }
}

fn copy_opt(o: &Option<String>) -> (c: Option<String>)
    ensures
        opt_text(c) == opt_text(*o),
{
    match o {
        Some(s) => Some(s.clone()),
        None => None,
    }
}

fn copy_tag(t: &LinkTag) -> (c: LinkTag)
    ensures
        c@ == t@,
{
    LinkTag {
        rel: t.rel,
        href: t.href.clone(),
        sizes: copy_opt(&t.sizes),
        type_attr: copy_opt(&t.type_attr),
    }
}

fn seen(tags: &Vec<LinkTag>, rel: &str, sizes: &Option<String>) -> (found: bool)
    ensures
        found == exists|j: int|
            0 <= j < tags@.len() && (#[trigger] tags@[j])@.rel == rel@ && tags@[j]@.sizes
                == opt_text(*sizes),
{
    let mut i: usize = 0;
    while i < tags.len()
        invariant
            i <= tags.len(),
            forall|j: int|
                0 <= j < i ==> !((#[trigger] tags@[j])@.rel == rel@ && tags@[j]@.sizes == opt_text(
                    *sizes,
                )),
        decreases tags.len() - i,
    {
        if str_same(tags[i].rel, rel) && opt_same(&tags[i].sizes, sizes) {
            return true;
        }
        i += 1;
    }
    false
}

/// The tag of one icon entry, given whether its file name has the
/// container's extension.
pub fn tag_for(icon: &IconEntry, ico: bool, base_url: Option<&str>) -> (tag: LinkTag)
    ensures
        tag@ == tag_given(icon@, ico, opt_str(base_url)),
{
    LinkTag {
        // Determine rel using the catalog's metadata
        rel: infer_rel_given(&icon.sizes, ico),
        // Build href with optional base
        href: join_href(base_url, icon.src.as_str()),
        sizes: copy_opt(&icon.sizes),
        type_attr: copy_opt(&icon.mime_type),
    }
}

/// The tags without later duplicates: of the tags that share `rel` and
/// `sizes`, the first stays, in its place.
pub fn dedup_tags(tags: Vec<LinkTag>) -> (kept: Vec<LinkTag>)
    ensures
        tag_views(kept@) == dedup(tag_views(tags@)),
{
    let ghost all = tag_views(tags@);
    let mut kept: Vec<LinkTag> = Vec::new();
    let mut i: usize = 0;
    assert(all.take(0) =~= Seq::<LinkTagView>::empty());
    assert(tag_views(kept@) =~= Seq::<LinkTagView>::empty());
    while i < tags.len()
        invariant
            i <= tags.len(),
            all == tag_views(tags@),
            tag_views(kept@) == dedup(all.take(i as int)),
        decreases tags.len() - i,
    {
        let tag = copy_tag(&tags[i]);
        let ghost prefix = all.take(i as int);
        let ghost next = all.take(i + 1);
        proof {
            assert(next.drop_last() == prefix);
            assert(next.last() == tag@);
            lemma_dedup(prefix);
        }
        let dup = seen(&kept, tag.rel, &tag.sizes);
        proof {
            let d = tag_views(kept@);
            if dup {
                let j = choose|j: int|
                    0 <= j < kept@.len() && (#[trigger] kept@[j])@.rel == tag.rel@
                        && kept@[j]@.sizes == opt_text(tag.sizes);
                assert(same_key(d[j], tag@));
                assert(has_key(d, tag@));
            }
            if has_key(d, tag@) {
                let j = choose|j: int| 0 <= j < d.len() && same_key(#[trigger] d[j], tag@);
                assert(kept@[j]@.rel == tag.rel@ && kept@[j]@.sizes == opt_text(tag.sizes));
            }
            assert(dup == has_key(prefix, tag@));
        }
        if !dup {
            proof {
                kept@.lemma_push_map_commute(|t: LinkTag| t@, tag);
            }
            kept.push(tag);
        }
        i += 1;
    }
    assert(all.take(tags.len() as int) == all);
    kept
}

/// The tags of a manifest's icons, without later duplicates, in input
/// order.
pub fn collect_tags(manifest: &Manifest, base_url: Option<&str>) -> (tags: Vec<LinkTag>)
    ensures
        tag_views(tags@) == dedup(tags_of(manifest@, opt_str(base_url))),
{
    let ghost all = tags_of(manifest@, opt_str(base_url));
    let mut tags: Vec<LinkTag> = Vec::new();
    let mut i: usize = 0;
    assert(all.take(0) =~= Seq::<LinkTagView>::empty());
    assert(tag_views(tags@) =~= Seq::<LinkTagView>::empty());
    while i < manifest.icons.len()
        invariant
            i <= manifest.icons.len(),
            all == tags_of(manifest@, opt_str(base_url)),
            all.len() == manifest.icons.len(),
            tag_views(tags@) == all.take(i as int),
        decreases manifest.icons.len() - i,
    {
        let icon = &manifest.icons[i];
        let tag = tag_for(icon, has_ico_extension(icon.src.as_str()), base_url);
        proof {
            assert(manifest@[i as int] == icon@);
            assert(all[i as int] == tag_of(icon@, opt_str(base_url)));
            all.lemma_take_succ_push(i as int);
            tags@.lemma_push_map_commute(|t: LinkTag| t@, tag);
        }
        tags.push(tag);
        i += 1;
    }
    assert(all.take(manifest.icons.len() as int) == all);
    dedup_tags(tags)
}

/// Sort tags by rel priority, then by numeric size; tags that tie keep
/// their order.
pub fn sort_tags(tags: &Vec<LinkTag>) -> (out: Vec<LinkTag>)
    ensures
        tag_views(out@) == stable_sort(tag_views(tags@)),
{
    let ghost all = tag_views(tags@);
    let mut out: Vec<LinkTag> = Vec::new();
    let mut i: usize = 0;
    assert(all.take(0) =~= Seq::<LinkTagView>::empty());
    assert(tag_views(out@) =~= Seq::<LinkTagView>::empty());
    while i < tags.len()
        invariant
            i <= tags.len(),
            all == tag_views(tags@),
            tag_views(out@) == stable_sort(all.take(i as int)),
        decreases tags.len() - i,
    {
        let tag = copy_tag(&tags[i]);
        let ghost front = tag_views(out@);
        let mut pos: usize = out.len();
        while pos > 0 && !may_precede(&out[pos - 1], &tag)
            invariant
                pos <= out.len(),
                front == tag_views(out@),
                forall|j: int| pos <= j < front.len() ==> !key_le(#[trigger] front[j], tag@),
            decreases pos,
        {
            pos -= 1;
        }
        proof {
            if pos > 0 {
                assert(key_le(front[pos - 1], tag@));
            }
            lemma_insert_pos_unique(front, tag@, pos as int);
            let next = all.take(i + 1);
            assert(next.drop_last() == all.take(i as int));
            assert(next.last() == tag@);
            assert(tag_views(out@.insert(pos as int, tag)) =~= front.insert(pos as int, tag@)) by {
                out@.insert_ensures(pos as int, tag);
                front.insert_ensures(pos as int, tag@);
                let a = tag_views(out@.insert(pos as int, tag));
                let b = front.insert(pos as int, tag@);
                assert forall|k: int| 0 <= k < a.len() implies a[k] == b[k] by {
                    if k < pos {
                    } else if k > pos {
                        assert(out@.insert(pos as int, tag)[(k - 1) + 1] == out@[k - 1]);
                        assert(b[(k - 1) + 1] == front[k - 1]);
                    }
                }
            }
        }
        out.insert(pos, tag);
        i += 1;
    }
    assert(all.take(tags.len() as int) == all);
    out
}

/// The tags as text: each tag on a line of its own.
pub fn render_tags(tags: &Vec<LinkTag>) -> (html: String)
    ensures
        html@ == html_lines(tag_views(tags@)),
{
    let ghost all = tag_views(tags@);
    let mut out: Vec<char> = Vec::new();
    let mut i: usize = 0;
    assert(all.take(0) =~= Seq::<LinkTagView>::empty());
    while i < tags.len()
        invariant
            i <= tags.len(),
            all == tag_views(tags@),
            out@ == html_lines(all.take(i as int)),
        decreases tags.len() - i,
    {
        proof {
            let next = all.take(i + 1);
            assert(next.drop_last() == all.take(i as int));
            assert(next.last() == tags@[i as int]@);
        }
        push_html(&mut out, &tags[i]);
        append_str(&mut out, "\n");
        i += 1;
    }
    assert(all.take(tags.len() as int) == all);
    string_of(&out)
}

/// Builds the link tags of a manifest and returns them as an HTML snippet:
/// one tag per icon, without later duplicates of the same `rel` and
/// `sizes`, ordered by `rel` and then by width, each on its own line.
pub fn generate_links_from_manifest(manifest: &Manifest, base_url: Option<&str>) -> (html: String)
    ensures
        html@ == html_lines(link_tags(manifest@, opt_str(base_url))),
{
    let tags = collect_tags(manifest, base_url);
    let ordered = sort_tags(&tags);
    render_tags(&ordered)
}

/// Synthesizes the link tags of a document that was read elsewhere.
///
/// `document` is the parsed document, or the parser's words if the text
/// could not be parsed or lacks an icons list. Fails with `InvalidFormat`
/// exactly in the second case.
pub fn synthesize(document: Result<Manifest, String>, base_url: Option<&str>) -> (r: Result<
    String,
    FavisError,
>)
    ensures
        match document {
            Ok(manifest) => r matches Ok(html) && html@ == html_lines(
                link_tags(manifest@, opt_str(base_url)),
            ),
            Err(reason) => r matches Err(e) && e@ == unparsable(reason@),
        },
{
    match document {
        Ok(manifest) => Ok(generate_links_from_manifest(&manifest, base_url)),
        Err(reason) => Err(FavisError::from_json(reason.as_str())),
    }
}

} // verus!
