//! Routing from a navigational path to a page variant.
//!
//! The application has two logical paths: `/` is the home listing, and
//! `/<slug>` is the detail page of one post. A slug that is not in the
//! catalog still routes to a post page; the resolver supplies its fallback
//! content there.

use vstd::prelude::*;
use vstd::string::StrSliceExecFns;

verus! {

/// The two page variants a path can route to.
#[derive(Clone)]
pub enum Route {
    Home,
    Post { slug: String },
}

/// Mathematical model of a route: the post variant carries the slug's
/// character sequence.
pub ghost enum RouteView {
    Home,
    Post { slug: Seq<char> },
}

impl View for Route {
    type V = RouteView;

    open spec fn view(&self) -> RouteView {
        match self {
            Route::Home => RouteView::Home,
            Route::Post { slug } => RouteView::Post { slug: slug@ },
        }
    }
}

/// The slug a route carries; empty for the home route.
pub open spec fn route_slug(r: RouteView) -> Seq<char> {
    match r {
        RouteView::Home => Seq::<char>::empty(),
        RouteView::Post { slug } => slug,
    }
}

/// The route a path leads to: `/` is home, anything else after the leading
/// `/` is taken as a post slug.
pub open spec fn route_of(path: Seq<char>) -> RouteView {
    if path == "/"@ {
        RouteView::Home
    } else {
        RouteView::Post { slug: path.skip(1) }
    }
}

/// Map the current navigational path to its route. Paths start with `/`;
/// everything after it is the slug, which need not name a known post.
pub fn parse_path(path: &str) -> (r: Route)
    requires
        path@.len() >= 1,
        path@[0] == '/',
    ensures
        r@ == route_of(path@),
{
    let n = path.unicode_len();
    proof {
        reveal_strlit("/");
    }
    if n == 1 {
        proof {
            assert(path@ =~= "/"@);
        }
        Route::Home
    } else {
        let slug = path.substring_char(1, n);
        proof {
            assert(path@ != "/"@);
            assert(slug@ =~= path@.skip(1));
        }
        Route::Post { slug: slug.to_owned() }
    }
}

} // verus!
