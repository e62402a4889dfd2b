use blog_core::render::{render_safe, render_safe_twice, sanitize, to_html};
use blog_core::text::str_eq;

#[test]
fn to_html_renders_markdown() {
    assert_eq!(to_html("*hello*"), "<p><em>hello</em></p>\n");
    assert_eq!(to_html("# Title"), "<h1>Title</h1>\n");
    assert_eq!(
        to_html("- one\n- two\n"),
        "<ul>\n<li>one</li>\n<li>two</li>\n</ul>\n"
    );
}

#[test]
fn to_html_total_on_unusual_input() {
    // Unmatched markers degrade gracefully instead of failing.
    let out = to_html("*unclosed emphasis");
    assert!(out.contains("*unclosed emphasis"));
    let _ = to_html("");
}

#[test]
fn sanitize_strips_script_element() {
    assert_eq!(sanitize("XSS<script>attack</script>"), "XSS");
}

#[test]
fn sanitize_strips_event_handler_attribute() {
    assert_eq!(sanitize("<b onclick=\"alert(1)\">hi</b>"), "<b>hi</b>");
}

#[test]
fn sanitize_keeps_safe_structure() {
    let safe = "<h1>Title</h1>\n<p><em>hello</em></p>\n";
    assert_eq!(sanitize(safe), safe);
}

#[test]
fn sanitize_idempotent_on_rendered_fragments() {
    let sources = [
        "# Hello, world!\n\nA *first* paragraph.",
        "plain text",
        "- a\n- b\n\n> quoted\n\n`code`",
        "[link](https://example.com) and [bad](javascript:alert(1))",
        "<script>alert(1)</script>raw html<b onclick=x>bold</b>",
        "",
    ];
    for src in sources {
        let once = sanitize(&to_html(src));
        let twice = sanitize(&once);
        assert_eq!(twice, once);
    }
}

#[test]
fn render_safe_removes_active_content() {
    let cases = [
        "before <script>alert(1)</script> after",
        "<img src=x onerror=alert(1)>",
        "<a href=\"https://ok.example\" onclick=\"evil()\">text</a>",
        "[click me](javascript:alert(1))",
        "<style>body { display: none }</style>paragraph",
    ];
    for src in cases {
        let out = render_safe(src);
        assert!(!out.contains("<script"), "script survived in {out:?}");
        assert!(!out.contains("<style"), "style survived in {out:?}");
        assert!(!out.contains("onclick"), "onclick survived in {out:?}");
        assert!(!out.contains("onerror"), "onerror survived in {out:?}");
        assert!(!out.contains("javascript:"), "javascript: survived in {out:?}");
    }
}

#[test]
fn render_safe_keeps_harmless_text() {
    let out = render_safe("before <script>alert(1)</script> after");
    assert!(out.contains("before"));
    assert!(out.contains("after"));
}

#[test]
fn render_twice_is_byte_identical() {
    let src = "# Hello\n\nSome *markdown* with a [link](https://example.com).";
    assert_eq!(render_safe(src), render_safe(src));
    let (first, second) = render_safe_twice(src);
    assert_eq!(first, second);
}

#[test]
fn str_eq_matches_string_equality() {
    assert!(str_eq("post1", "post1"));
    assert!(!str_eq("post1", "post2"));
    assert!(!str_eq("post1", "post10"));
    assert!(str_eq("", ""));
    assert!(!str_eq("", "a"));
}
