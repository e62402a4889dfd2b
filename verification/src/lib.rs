//! Core of a small personal blog: a fixed catalog of posts keyed by slug,
//! a markdown-to-HTML rendering step, an allow-list HTML sanitizer applied
//! to every rendered fragment, and a router from navigational paths to pages.

pub mod catalog;
pub mod pages;
pub mod render;
pub mod router;
pub mod text;
