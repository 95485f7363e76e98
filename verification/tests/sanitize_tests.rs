use newswatch::sanitize::sanitize_html;

#[test]
fn test_html_sanitization() {
    let raw = r#"Together with <a href="https://warthunder.com/en/news/7583-development-dagor-engine-6-5-zoom-in-enhance-it-en">texture upscaling</a> and <a href="https://warthunder.com/en/news/7585-development-dagor-engine-6-5-new-surface-rendering-en">new surface rendering options</a>, the new version of the War Thunder graphic engine brings numerous minor features and improvements. Meet new visuals coming soon in the “Wind of Change” update!"#;
    let escaped = r#"Together with [texture upscaling](https://warthunder.com/en/news/7583-development-dagor-engine-6-5-zoom-in-enhance-it-en)  and [new surface rendering options](https://warthunder.com/en/news/7585-development-dagor-engine-6-5-new-surface-rendering-en) , the new version of the War Thunder graphic engine brings numerous minor features and improvements. Meet new visuals coming soon in the “Wind of Change” update!"#;

    assert_eq!(sanitize_html(raw), escaped);
}

#[test]
fn sanitize_keeps_plain_text() {
    assert_eq!(sanitize_html("plain text, no markup"), "plain text, no markup");
}

#[test]
fn sanitize_empty_input() {
    assert_eq!(sanitize_html(""), "");
}

#[test]
fn sanitize_strips_non_anchor_tags() {
    assert_eq!(sanitize_html("a <b>x</b> c"), "a x c");
}
