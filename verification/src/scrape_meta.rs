//! Builds the structured item for one fetched page. The page itself is
//! queried through the markup-extraction collaborator behind named, trusted
//! selector calls; everything done with the selected values is verified.

use vstd::prelude::*;
use crate::embed::{spec_encode_spaces, EmbedData, ScrapeType};
use crate::sanitize::{contains_chars, spec_contains, spec_sanitize_html, sanitize_html};
use crate::text::{str_chars, str_eq};

verus! {

/// The named attribute of the first element of `html` that matches
/// `selector`: the outer option says whether any element matched, the inner
/// one whether that element carries the attribute.
pub uninterp spec fn selected_attr(html: Seq<char>, selector: Seq<char>, attr: Seq<char>) -> Option<
    Option<Seq<char>>,
>;

/// The inner markup of the first element of `html` matching `selector`, if
/// any element matches.
pub uninterp spec fn selected_inner_html(html: Seq<char>, selector: Seq<char>) -> Option<Seq<char>>;

/// The (content, name, src) attribute triples of the `meta` and `img`
/// elements of `html`, in document order.
pub uninterp spec fn selected_image_candidates(html: Seq<char>) -> Seq<
    (Option<Seq<char>>, Option<Seq<char>>, Option<Seq<char>>),
>;

/// Relies on scraper's `Html::parse_document`, `Selector::parse` and
/// `ElementRef::attr`: hands out `selected_attr` for the given selector and
/// attribute; the selectors used here are fixed valid css.
#[verifier::external_body]
fn select_first_attr(html: &str, selector: &str, attr: &str) -> (r: Option<Option<String>>)
    ensures
        match r {
            Some(Some(s)) => selected_attr(html@, selector@, attr@) == Some(Some(s@)),
            Some(None) => selected_attr(html@, selector@, attr@) == Some(None::<Seq<char>>),
            None => selected_attr(html@, selector@, attr@) is None,
        },
{
    let sel = match scraper::Selector::parse(selector) {
        Ok(s) => s,
        Err(_) => return None,
    };
    let doc = scraper::Html::parse_document(html);
    match doc.select(&sel).next() {
        Some(el) => Some(el.attr(attr).map(|a| a.to_string())),
        None => None,
    }
}

/// Relies on scraper's `ElementRef::inner_html`: hands out
/// `selected_inner_html` for the given selector.
#[verifier::external_body]
fn select_first_inner_html(html: &str, selector: &str) -> (r: Option<String>)
    ensures
        match r {
            Some(s) => selected_inner_html(html@, selector@) == Some(s@),
            None => selected_inner_html(html@, selector@) is None,
        },
{
    let sel = match scraper::Selector::parse(selector) {
        Ok(s) => s,
        Err(_) => return None,
    };
    let doc = scraper::Html::parse_document(html);
    doc.select(&sel).next().map(|el| el.inner_html())
}

/// The views of a vector of selected attribute triples.
pub open spec fn cand_views(v: Seq<(Option<String>, Option<String>, Option<String>)>) -> Seq<
    (Option<Seq<char>>, Option<Seq<char>>, Option<Seq<char>>),
> {
    Seq::new(v.len(), |i: int| (opt_view(v[i].0), opt_view(v[i].1), opt_view(v[i].2)))
}

/// The view of an optional string.
pub open spec fn opt_view(o: Option<String>) -> Option<Seq<char>> {
    match o {
        Some(s) => Some(s@),
        None => None,
    }
}

/// Relies on scraper's select over the fixed `meta, img` selector: hands out
/// `selected_image_candidates`, one triple per matching element.
#[verifier::external_body]
fn select_image_candidates(html: &str) -> (r: Vec<(Option<String>, Option<String>, Option<String>)>)
    ensures
        cand_views(r@) == selected_image_candidates(html@),
{
    let sel = match scraper::Selector::parse("meta, img") {
        Ok(s) => s,
        Err(_) => return Vec::new(),
    };
    let doc = scraper::Html::parse_document(html);
    doc.select(&sel).map(|el| (
        el.attr("content").map(|v| v.to_string()),
        el.attr("name").map(|v| v.to_string()),
        el.attr("src").map(|v| v.to_string()),
    )).collect()
}

/// The selected value where the element matched and carries the attribute;
/// empty where the attribute is missing.
pub open spec fn attr_or_empty(x: Option<Option<Seq<char>>>) -> Seq<char> {
    match x {
        Some(Some(s)) => s,
        _ => Seq::empty(),
    }
}

/// The image choice over the candidate triples, first match wins: a content
/// attribute holding an upload-image address and not named as the twitter
/// image; otherwise any src attribute; otherwise empty.
pub open spec fn spec_pick_image(
    cands: Seq<(Option<Seq<char>>, Option<Seq<char>>, Option<Seq<char>>)>,
) -> Seq<char>
    decreases cands.len(),
{
    if cands.len() == 0 {
        Seq::empty()
    } else if cands.first().0 matches Some(content) && spec_contains(
        content,
        "https://warthunder.com/upload/image//!"@,
    ) && cands.first().1 != Some("twitter:image"@) {
        cands.first().0->0
    } else if cands.first().2 is Some {
        cands.first().2->0
    } else {
        spec_pick_image(cands.skip(1))
    }
}

/// Picks the news image from the selected attribute triples.
pub fn pick_image(cands: &Vec<(Option<String>, Option<String>, Option<String>)>) -> (r: String)
    ensures
        r@ == spec_pick_image(cand_views(cands@)),
{
    let upload_pat = str_chars("https://warthunder.com/upload/image//!");
    let n = cands.len();
    let mut j: usize = 0;
    proof {
        assert(cand_views(cands@).skip(0) =~= cand_views(cands@));
    }
    while j < n
        invariant
            j <= n,
            n == cands@.len(),
            upload_pat@ == "https://warthunder.com/upload/image//!"@,
            spec_pick_image(cand_views(cands@)) == spec_pick_image(
                cand_views(cands@).skip(j as int),
            ),
        decreases n - j,
    {
        let ghost cv = cand_views(cands@);
        proof {
            assert(cv.skip(j as int).first() == cv[j as int]);
            assert(cv.skip(j as int).skip(1) =~= cv.skip(j as int + 1));
        }
        match &cands[j].0 {
            Some(content) => {
                let content_chars = str_chars(content.as_str());
                let is_twitter = match &cands[j].1 {
                    Some(nm) => str_eq(nm.as_str(), "twitter:image"),
                    None => false,
                };
                if contains_chars(&content_chars, &upload_pat) && !is_twitter {
                    return content.clone();
                }
            },
            None => {},
        }
        match &cands[j].2 {
            Some(src) => {
                return src.clone();
            },
            None => {},
        }
        j += 1;
    }
    proof {
        assert(cand_views(cands@).skip(n as int).len() == 0);
    }
    String::new()
}

/// The image chosen for the page, as the collaborator's candidate listing
/// determines it.
pub fn scrape_news_image(html: &str) -> (r: String)
    ensures
        r@ == spec_pick_image(selected_image_candidates(html@)),
{
    let cands = select_image_candidates(html);
    pick_image(&cands)
}

/// The fixed preview text for changelog pages.
pub open spec fn spec_changelog_preview() -> Seq<char> {
    "The current provided changelog reflects the major changes within the game as part of this Update. Some updates, additions and fixes may not be listed in the provided notes. War Thunder is constantly improving and specific fixes may be implemented without the client being updated."@
}

/// The selected values a page must yield for its scrape type: the meta
/// elements the rules read must be present, and for a main page also a
/// paragraph to preview.
pub open spec fn spec_scrape_ready(h: Seq<char>, st: ScrapeType) -> bool {
    match st {
        ScrapeType::Forum => selected_attr(h, "head>meta:nth-child(5)"@, "content"@) is Some
            && selected_attr(h, "head>meta:nth-child(8)"@, "content"@) is Some,
        ScrapeType::Main => selected_attr(h, "head>meta:nth-child(13)"@, "content"@) is Some
            && selected_inner_html(h, "p"@) is Some,
        ScrapeType::Changelog => selected_attr(h, "head>meta:nth-child(13)"@, "content"@) is Some,
    }
}

/// The (title, image, preview) fields the extraction rules read off a page
/// of the given scrape type.
pub open spec fn spec_scraped_fields(h: Seq<char>, st: ScrapeType) -> (Seq<char>, Seq<char>, Seq<
    char,
>) {
    match st {
        ScrapeType::Forum => (
            attr_or_empty(selected_attr(h, "head>meta:nth-child(5)"@, "content"@)),
            Seq::empty(),
            attr_or_empty(selected_attr(h, "head>meta:nth-child(8)"@, "content"@)),
        ),
        ScrapeType::Main => (
            attr_or_empty(selected_attr(h, "head>meta:nth-child(13)"@, "content"@)),
            spec_pick_image(selected_image_candidates(h)),
            spec_sanitize_html(
                match selected_inner_html(h, "p"@) {
                    Some(p) => p,
                    None => Seq::empty(),
                },
            ),
        ),
        ScrapeType::Changelog => (
            attr_or_empty(selected_attr(h, "head>meta:nth-child(13)"@, "content"@)),
            spec_pick_image(selected_image_candidates(h)),
            spec_changelog_preview(),
        ),
    }
}

fn scrape_forum(html: &str) -> (r: (String, String, String))
    requires
        spec_scrape_ready(html@, ScrapeType::Forum),
    ensures
        r.0@ == spec_scraped_fields(html@, ScrapeType::Forum).0,
        r.1@ == spec_scraped_fields(html@, ScrapeType::Forum).1,
        r.2@ == spec_scraped_fields(html@, ScrapeType::Forum).2,
{
    let title = select_first_attr(html, "head>meta:nth-child(5)", "content");
    let preview = select_first_attr(html, "head>meta:nth-child(8)", "content");
    let t = match title {
        Some(Some(s)) => s,
        Some(None) => String::new(),
        None => String::new(),
    };
    let p = match preview {
        Some(Some(s)) => s,
        Some(None) => String::new(),
        None => String::new(),
    };
    (t, String::new(), p)
}

fn scrape_main(html: &str) -> (r: (String, String, String))
    requires
        spec_scrape_ready(html@, ScrapeType::Main),
    ensures
        r.0@ == spec_scraped_fields(html@, ScrapeType::Main).0,
        r.1@ == spec_scraped_fields(html@, ScrapeType::Main).1,
        r.2@ == spec_scraped_fields(html@, ScrapeType::Main).2,
{
    let title = select_first_attr(html, "head>meta:nth-child(13)", "content");
    let t = match title {
        Some(Some(s)) => s,
        Some(None) => String::new(),
        None => String::new(),
    };
    let img = scrape_news_image(html);
    let paragraph = match select_first_inner_html(html, "p") {
        Some(p) => p,
        None => String::new(),
    };
    let preview = sanitize_html(paragraph.as_str());
    (t, img, preview)
}

fn scrape_changelog(html: &str) -> (r: (String, String, String))
    requires
        spec_scrape_ready(html@, ScrapeType::Changelog),
    ensures
        r.0@ == spec_scraped_fields(html@, ScrapeType::Changelog).0,
        r.1@ == spec_scraped_fields(html@, ScrapeType::Changelog).1,
        r.2@ == spec_scraped_fields(html@, ScrapeType::Changelog).2,
{
    let title = select_first_attr(html, "head>meta:nth-child(13)", "content");
    let t = match title {
        Some(Some(s)) => s,
        Some(None) => String::new(),
        None => String::new(),
    };
    let img = scrape_news_image(html);
    let preview =
        "The current provided changelog reflects the major changes within the game as part of this Update. Some updates, additions and fixes may not be listed in the provided notes. War Thunder is constantly improving and specific fixes may be implemented without the client being updated.".to_owned();
    (t, img, preview)
}

/// Builds the item for a fetched page whose needed selections are present:
/// the title, image and preview the scrape type's rules read, the post url
/// as identity, spaces in the image url percent-escaped.
pub fn scrape_meta(html: &str, scrape_type: ScrapeType, post_url: &str) -> (r: EmbedData)
    requires
        spec_scrape_ready(html@, scrape_type),
    ensures
        r.scrape_type == scrape_type,
        r.title@ == spec_scraped_fields(html@, scrape_type).0,
        r.url@ == post_url@,
        r.img_url@ == spec_encode_spaces(spec_scraped_fields(html@, scrape_type).1),
        r.preview_text@ == spec_scraped_fields(html@, scrape_type).2,
{
    let fields = match scrape_type {
        ScrapeType::Forum => scrape_forum(html),
        ScrapeType::Main => scrape_main(html),
        ScrapeType::Changelog => scrape_changelog(html),
    };
    EmbedData::new(
        fields.0.as_str(),
        post_url,
        fields.1.as_str(),
        fields.2.as_str(),
        scrape_type,
    )
}

/// Probes the page first and builds the item only where the needed
/// selections are present; answers nothing exactly where they are not.
pub fn try_scrape_meta(html: &str, scrape_type: ScrapeType, post_url: &str) -> (r: Option<
    EmbedData,
>)
    ensures
        match r {
            Some(e) => spec_scrape_ready(html@, scrape_type) && e.scrape_type == scrape_type
                && e.title@ == spec_scraped_fields(html@, scrape_type).0 && e.url@ == post_url@
                && e.img_url@ == spec_encode_spaces(spec_scraped_fields(html@, scrape_type).1)
                && e.preview_text@ == spec_scraped_fields(html@, scrape_type).2,
            None => !spec_scrape_ready(html@, scrape_type),
        },
{
    let ready = match scrape_type {
        ScrapeType::Forum => {
            let a = select_first_attr(html, "head>meta:nth-child(5)", "content");
            let b = select_first_attr(html, "head>meta:nth-child(8)", "content");
            a.is_some() && b.is_some()
        },
        ScrapeType::Main => {
            let a = select_first_attr(html, "head>meta:nth-child(13)", "content");
            let b = select_first_inner_html(html, "p");
            a.is_some() && b.is_some()
        },
        ScrapeType::Changelog => {
            let a = select_first_attr(html, "head>meta:nth-child(13)", "content");
            a.is_some()
        },
    };
    if ready {
        Some(scrape_meta(html, scrape_type, post_url))
    } else {
        None
    }
}

} // verus!
