use newswatch::embed::{EmbedData, ScrapeType};

#[test]
fn new_escapes_spaces_in_the_image_url_only() {
    let e = EmbedData::new(
        "a title with spaces",
        "https://example.test/post 1",
        "https://example.test/img one.png",
        "preview text",
        ScrapeType::Forum,
    );
    assert_eq!(e.title, "a title with spaces");
    assert_eq!(e.url, "https://example.test/post 1");
    assert_eq!(e.img_url, "https://example.test/img%20one.png");
    assert_eq!(e.preview_text, "preview text");
    assert_eq!(e.scrape_type, ScrapeType::Forum);
}

#[test]
fn new_leaves_spaceless_image_url_alone() {
    let e = EmbedData::new("t", "u", "https://example.test/i.png", "p", ScrapeType::Changelog);
    assert_eq!(e.img_url, "https://example.test/i.png");
}

#[test]
fn test_item_is_the_fixed_probe() {
    let e = EmbedData::test();
    assert_eq!(e.scrape_type, ScrapeType::Main);
    assert_eq!(e.title, "This is a test message");
    assert_eq!(e.url, "");
    assert_eq!(e.img_url, "");
    assert_eq!(e.preview_text, "");
}
