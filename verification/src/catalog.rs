//! The fixed post catalog and the content resolver.
//!
//! Posts are keyed by slug. The catalog is embedded at build time and never
//! changes; an unknown slug resolves to fixed sentinel values rather than to
//! an error.

use vstd::prelude::*;
use crate::text::str_eq;

verus! {

/// The slug of the one post in the catalog.
pub open spec fn post1_slug() -> Seq<char> {
    "post1"@
}

/// The display title of the one post in the catalog.
pub open spec fn post1_title() -> Seq<char> {
    "First Blog Post"@
}

/// The display date of the one post in the catalog.
pub open spec fn post1_date() -> Seq<char> {
    "March 27, 2025"@
}

/// The embedded markdown source of the one post in the catalog.
pub open spec fn post1_markdown() -> Seq<char> {
    "# Hello, world!\n\nWelcome to the blog. This *first* post is written in **markdown**.\n\n- a heading\n- a list\n- a [link](https://example.com)\n\nSome `inline code` to finish.\n"@
}

/// Title shown for a slug that is not in the catalog.
pub open spec fn unknown_title() -> Seq<char> {
    "Unknown Post"@
}

/// Body shown for a slug that is not in the catalog.
pub open spec fn missing_body() -> Seq<char> {
    "Post not found."@
}

/// Whether a slug names a post of the catalog.
pub open spec fn known_slug(slug: Seq<char>) -> bool {
    slug == post1_slug()
}

/// The title that resolving a slug yields: the catalog title for a known
/// slug, the sentinel title otherwise.
pub open spec fn spec_title(slug: Seq<char>) -> Seq<char> {
    if known_slug(slug) {
        post1_title()
    } else {
        unknown_title()
    }
}

/// The markdown body that resolving a slug yields: the embedded source for a
/// known slug, the sentinel body otherwise.
pub open spec fn spec_body(slug: Seq<char>) -> Seq<char> {
    if known_slug(slug) {
        post1_markdown()
    } else {
        missing_body()
    }
}

/// The display date that resolving a slug yields: the catalog date for a
/// known slug, empty otherwise.
pub open spec fn spec_date(slug: Seq<char>) -> Seq<char> {
    if known_slug(slug) {
        post1_date()
    } else {
        Seq::<char>::empty()
    }
}

/// Resolution never yields an empty title: known slugs carry their catalog
/// title, and unknown slugs carry the sentinel title.
pub proof fn lemma_title_nonempty(slug: Seq<char>)
    ensures
        spec_title(slug).len() > 0,
{
    reveal_strlit("First Blog Post");
    reveal_strlit("Unknown Post");
}

/// One entry of the catalog: a post with its lookup key.
pub struct PostEntry {
    pub slug: String,
    pub title: String,
    pub date: String,
    pub body: String,
}

impl PostEntry {
    /// The entry carries exactly the catalog values for its own slug.
    pub open spec fn consistent(&self) -> bool {
        &&& known_slug(self.slug@)
        &&& self.title@ == spec_title(self.slug@)
        &&& self.date@ == spec_date(self.slug@)
        &&& self.body@ == spec_body(self.slug@)
    }
}

/// The full catalog, one entry per known post. Every entry is consistent
/// with the resolver's spec, and every known slug appears, so the home
/// listing and the resolver cannot drift apart.
pub fn catalog() -> (r: Vec<PostEntry>)
    ensures
        r@.len() == 1,
        r@[0].slug@ == post1_slug(),
        forall|j: int| 0 <= j < r@.len() ==> (#[trigger] r@[j]).consistent(),
        forall|s: Seq<char>| known_slug(s) ==> exists|j: int|
            0 <= j < r@.len() && (#[trigger] r@[j]).slug@ == s,
{
    let mut entries: Vec<PostEntry> = Vec::new();
    entries.push(PostEntry {
        slug: "post1".to_owned(),
        title: "First Blog Post".to_owned(),
        date: "March 27, 2025".to_owned(),
        body: "# Hello, world!\n\nWelcome to the blog. This *first* post is written in **markdown**.\n\n- a heading\n- a list\n- a [link](https://example.com)\n\nSome `inline code` to finish.\n".to_owned(),
    });
    entries
}

/// What resolving a slug returns: display title, raw markdown body, display
/// date (empty when the post has none or the slug is unknown).
pub struct ResolvedPost {
    pub title: String,
    pub body: String,
    pub date: String,
}

/// Exact-match lookup of a slug against the fixed catalog. Unknown slugs are
/// not an error: they resolve to the fixed sentinel values.
pub fn resolve(slug: &str) -> (r: ResolvedPost)
    ensures
        r.title@ == spec_title(slug@),
        r.body@ == spec_body(slug@),
        r.date@ == spec_date(slug@),
        !known_slug(slug@) ==> {
            &&& r.title@ == unknown_title()
            &&& r.body@ == missing_body()
            &&& r.date@ == Seq::<char>::empty()
        },
{
    let mut entries = catalog();
    let n = entries.len();
    let mut i: usize = 0;
    while i < n
        invariant
            n == entries@.len(),
            i <= n,
            entries@.len() == 1,
            entries@[0].slug@ == post1_slug(),
            forall|j: int| 0 <= j < entries@.len() ==> (#[trigger] entries@[j]).consistent(),
            forall|j: int| 0 <= j < i ==> (#[trigger] entries@[j]).slug@ != slug@,
        decreases n - i,
    {
        if str_eq(slug, entries[i].slug.as_str()) {
            let entry = entries.remove(i);
            return ResolvedPost { title: entry.title, body: entry.body, date: entry.date };
        }
        i = i + 1;
    }
    ResolvedPost {
        title: "Unknown Post".to_owned(),
        body: "Post not found.".to_owned(),
        date: String::new(),
    }
}

} // verus!
