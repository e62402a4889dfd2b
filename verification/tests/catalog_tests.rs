use blog_core::catalog::{catalog, resolve};

const POST1_MD: &str = "# Hello, world!\n\nWelcome to the blog. This *first* post is written in **markdown**.\n\n- a heading\n- a list\n- a [link](https://example.com)\n\nSome `inline code` to finish.\n";

#[test]
fn resolve_known_post1() {
    let r = resolve("post1");
    assert_eq!(r.title, "First Blog Post");
    assert_eq!(r.date, "March 27, 2025");
    assert_eq!(r.body, POST1_MD);
}

#[test]
fn resolve_unknown_returns_sentinels() {
    for slug in ["", "does-not-exist", "post2", "post3", "POST1", "post1 ", "/post1"] {
        let r = resolve(slug);
        assert_eq!(r.title, "Unknown Post");
        assert_eq!(r.body, "Post not found.");
        assert_eq!(r.date, "");
    }
}

#[test]
fn catalog_holds_post1() {
    let entries = catalog();
    assert_eq!(entries.len(), 1);
    assert_eq!(entries[0].slug, "post1");
    assert_eq!(entries[0].title, "First Blog Post");
    assert_eq!(entries[0].date, "March 27, 2025");
    assert_eq!(entries[0].body, POST1_MD);
}

#[test]
fn catalog_agrees_with_resolver() {
    for entry in catalog() {
        let r = resolve(&entry.slug);
        assert_eq!(r.title, entry.title);
        assert_eq!(r.date, entry.date);
        assert_eq!(r.body, entry.body);
    }
}
