use newswatch::embed::ScrapeType;
use newswatch::scrape_meta::{pick_image, scrape_news_image, try_scrape_meta};

fn forum_page() -> String {
    let metas = "<meta name=\"m1\" content=\"c1\"><meta name=\"m2\" content=\"c2\"><meta name=\"m3\" content=\"c3\"><meta name=\"m4\" content=\"c4\"><meta name=\"m5\" content=\"Forum Title\"><meta name=\"m6\" content=\"c6\"><meta name=\"m7\" content=\"c7\"><meta name=\"m8\" content=\"Forum preview text\">";
    format!("<html><head>{metas}</head><body></body></html>")
}

fn thirteen_metas(thirteenth: &str) -> String {
    let mut metas = String::new();
    for i in 1..=12 {
        metas.push_str(&format!("<meta name=\"m{i}\" content=\"c{i}\">"));
    }
    metas.push_str(&format!("<meta name=\"m13\" content=\"{thirteenth}\">"));
    metas
}

#[test]
fn forum_page_yields_title_and_preview_metas() {
    let html = forum_page();
    let e = try_scrape_meta(&html, ScrapeType::Forum, "https://example.test/post").unwrap();
    assert_eq!(e.title, "Forum Title");
    assert_eq!(e.preview_text, "Forum preview text");
    assert_eq!(e.img_url, "");
    assert_eq!(e.url, "https://example.test/post");
    assert_eq!(e.scrape_type, ScrapeType::Forum);
}

#[test]
fn forum_page_without_enough_metas_is_refused() {
    let html = "<html><head><meta name=\"m1\" content=\"c1\"></head><body></body></html>";
    assert!(try_scrape_meta(html, ScrapeType::Forum, "u").is_none());
}

#[test]
fn main_page_yields_meta_title_image_and_sanitized_preview() {
    let html = format!(
        "<html><head>{}</head><body><p>Hello <b>world</b></p><img src=\"/pic one.png\"></body></html>",
        thirteen_metas("Main Title")
    );
    let e = try_scrape_meta(&html, ScrapeType::Main, "https://example.test/m").unwrap();
    assert_eq!(e.title, "Main Title");
    assert_eq!(e.preview_text, "Hello world");
    assert_eq!(e.img_url, "/pic%20one.png");
    assert_eq!(e.url, "https://example.test/m");
}

#[test]
fn changelog_page_yields_upload_image_and_fixed_preview() {
    let metas = thirteen_metas("Changelog Title").replace(
        "<meta name=\"m2\" content=\"c2\">",
        "<meta name=\"m2\" content=\"https://warthunder.com/upload/image//!shot.jpg\">",
    );
    let html = format!("<html><head>{metas}</head><body></body></html>");
    let e = try_scrape_meta(&html, ScrapeType::Changelog, "https://example.test/c").unwrap();
    assert_eq!(e.title, "Changelog Title");
    assert_eq!(e.img_url, "https://warthunder.com/upload/image//!shot.jpg");
    assert!(e.preview_text.starts_with("The current provided changelog reflects"));
    assert!(e.preview_text.ends_with("without the client being updated."));
}

#[test]
fn changelog_page_without_thirteen_metas_is_refused() {
    let html = "<html><head><meta name=\"m1\" content=\"c1\"></head><body></body></html>";
    assert!(try_scrape_meta(html, ScrapeType::Changelog, "u").is_none());
}

#[test]
fn image_walk_skips_twitter_image_and_plain_contents() {
    let cands = vec![
        (
            Some("https://warthunder.com/upload/image//!a.jpg".to_owned()),
            Some("twitter:image".to_owned()),
            None,
        ),
        (Some("plain description".to_owned()), Some("m2".to_owned()), None),
        (
            Some("https://warthunder.com/upload/image//!b.jpg".to_owned()),
            Some("m3".to_owned()),
            None,
        ),
    ];
    assert_eq!(pick_image(&cands), "https://warthunder.com/upload/image//!b.jpg");
}

#[test]
fn image_walk_falls_back_to_first_src() {
    let cands = vec![
        (Some("nothing to see".to_owned()), None, None),
        (None, None, Some("/fallback.png".to_owned())),
        (None, None, Some("/later.png".to_owned())),
    ];
    assert_eq!(pick_image(&cands), "/fallback.png");
    assert_eq!(pick_image(&Vec::new()), "");
}

#[test]
fn image_walk_over_a_real_document() {
    let html = "<html><head><meta name=\"m1\" content=\"https://warthunder.com/upload/image//!real.jpg\"></head><body><img src=\"/ignored.png\"></body></html>";
    assert_eq!(scrape_news_image(html), "https://warthunder.com/upload/image//!real.jpg");
}
