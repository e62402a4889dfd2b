//! Page composition: the home listing and the post detail view.
//!
//! A page is plain data — links, headings, and a body fragment that has
//! already passed through the sanitizer. The surrounding shell only displays
//! these values; it never builds markup of its own from post content.

use vstd::prelude::*;
use crate::catalog::{
    catalog, known_slug, post1_slug, resolve, spec_body, spec_date, spec_title,
};
use crate::render::{active_content_free, clean_of, html_of, render_safe};
use crate::router::{route_of, route_slug, Route, RouteView};

verus! {

/// A navigable link: the route it leads to and the text it shows.
pub struct LinkItem {
    pub target: Route,
    pub label: String,
}

/// A link to one post's detail page, labelled with its title.
#[allow(non_snake_case)]
pub fn BlogLink(slug: &str, title: &str) -> (r: LinkItem)
    ensures
        r.target@ == (RouteView::Post { slug: slug@ }),
        r.label@ == title@,
{
    LinkItem { target: Route::Post { slug: slug.to_owned() }, label: title.to_owned() }
}

/// A sanitized markdown fragment together with the style class it is
/// displayed under.
pub struct MarkdownFragment {
    pub css_class: String,
    pub html: String,
}

/// Render a markdown source into a displayable fragment: the one rendering
/// pipeline, sanitizer included, wrapped for embedding in a page body.
#[allow(non_snake_case)]
pub fn RenderMarkdown(source: &str) -> (r: MarkdownFragment)
    ensures
        r.css_class@ == "markdown-content"@,
        r.html@ == clean_of(html_of(source@)),
        active_content_free(r.html@),
{
    MarkdownFragment { css_class: "markdown-content".to_owned(), html: render_safe(source) }
}

/// The home page: one link per catalog post.
pub struct HomeView {
    pub links: Vec<LinkItem>,
}

impl HomeView {
    /// Every link leads to a known post and is labelled with that post's
    /// resolved title, so the listing cannot drift from the resolver.
    pub open spec fn consistent(&self) -> bool {
        forall|j: int| 0 <= j < self.links@.len() ==> {
            &&& (#[trigger] self.links@[j]).target@ is Post
            &&& known_slug(route_slug(self.links@[j].target@))
            &&& self.links@[j].label@ == spec_title(route_slug(self.links@[j].target@))
        }
    }
}

/// Build the home listing from the catalog.
#[allow(non_snake_case)]
pub fn Home() -> (r: HomeView)
    ensures
        r.consistent(),
        r.links@.len() == 1,
        route_slug(r.links@[0].target@) == post1_slug(),
{
    let entries = catalog();
    let n = entries.len();
    let mut links: Vec<LinkItem> = Vec::new();
    let mut i: usize = 0;
    while i < n
        invariant
            n == entries@.len(),
            i <= n,
            links@.len() == i,
            forall|j: int| 0 <= j < entries@.len() ==> (#[trigger] entries@[j]).consistent(),
            entries@.len() == 1,
            entries@[0].slug@ == post1_slug(),
            forall|j: int| 0 <= j < i ==> {
                &&& (#[trigger] links@[j]).target@ is Post
                &&& route_slug(links@[j].target@) == entries@[j].slug@
                &&& links@[j].label@ == spec_title(entries@[j].slug@)
            },
        decreases n - i,
    {
        let link = BlogLink(entries[i].slug.as_str(), entries[i].title.as_str());
        links.push(link);
        i = i + 1;
    }
    HomeView { links }
}

/// The post detail page: a back link to home, the resolved title as the
/// heading, the resolved date, and the sanitized body fragment — in that
/// order.
pub struct PostView {
    pub back: LinkItem,
    pub title: String,
    pub date: String,
    pub body: MarkdownFragment,
}

/// Build the detail page for a slug: resolve it against the catalog and run
/// the body through the rendering pipeline. An unknown slug yields a valid
/// page built from the sentinel values.
#[allow(non_snake_case)]
pub fn Post(slug: &str) -> (r: PostView)
    ensures
        r.back.target@ is Home,
        r.back.label@ == "< Back"@,
        r.title@ == spec_title(slug@),
        r.date@ == spec_date(slug@),
        r.body.html@ == clean_of(html_of(spec_body(slug@))),
        active_content_free(r.body.html@),
{
    let resolved = resolve(slug);
    let body = RenderMarkdown(resolved.body.as_str());
    PostView {
        back: LinkItem { target: Route::Home, label: "< Back".to_owned() },
        title: resolved.title,
        date: resolved.date,
        body,
    }
}

/// A fully composed page: the home listing or one post's detail view.
pub enum Page {
    HomePage { home: HomeView },
    PostPage { post: PostView },
}

/// The whole navigation pipeline: route the path, then compose the page it
/// leads to. The home path yields the catalog listing; every other path
/// yields a post page whose content is resolved, rendered and sanitized for
/// the slug the path carries.
pub fn navigate(path: &str) -> (r: Page)
    requires
        path@.len() >= 1,
        path@[0] == '/',
    ensures
        r is HomePage <==> route_of(path@) is Home,
        r is HomePage ==> {
            &&& r->home.consistent()
            &&& r->home.links@.len() == 1
            &&& route_slug(r->home.links@[0].target@) == post1_slug()
        },
        r is PostPage ==> {
            &&& r->post.title@ == spec_title(route_slug(route_of(path@)))
            &&& r->post.date@ == spec_date(route_slug(route_of(path@)))
            &&& r->post.body.html@ == clean_of(html_of(spec_body(route_slug(route_of(path@)))))
            &&& active_content_free(r->post.body.html@)
            &&& r->post.back.target@ is Home
        },
{
    let route = crate::router::parse_path(path);
    page_of_route(route)
}

/// Compose the page for an already parsed route.
fn page_of_route(route: Route) -> (r: Page)
    ensures
        r is HomePage <==> route@ is Home,
        r is HomePage ==> {
            &&& r->home.consistent()
            &&& r->home.links@.len() == 1
            &&& route_slug(r->home.links@[0].target@) == post1_slug()
        },
        r is PostPage ==> {
            &&& r->post.title@ == spec_title(route_slug(route@))
            &&& r->post.date@ == spec_date(route_slug(route@))
            &&& r->post.body.html@ == clean_of(html_of(spec_body(route_slug(route@))))
            &&& active_content_free(r->post.body.html@)
            &&& r->post.back.target@ is Home
        },
{
    match route {
        Route::Home => Page::HomePage { home: Home() },
        Route::Post { slug } => Page::PostPage { post: Post(slug.as_str()) },
    }
}

} // verus!
