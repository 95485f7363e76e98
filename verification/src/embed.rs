//! The structured item the extraction collaborator produces for one post,
//! immutable once constructed.

use vstd::prelude::*;

verus! {

/// Which extraction rules apply to a source; opaque to the engine beyond
/// routing.
#[derive(Clone, Copy, Debug, PartialEq, Eq, Structural)]
pub enum ScrapeType {
    Main,
    Forum,
    Changelog,
}

/// Every space written as its percent escape `%20`; all other characters
/// unchanged.
pub open spec fn spec_encode_spaces(s: Seq<char>) -> Seq<char>
    decreases s.len(),
{
    if s.len() == 0 {
        Seq::empty()
    } else {
        spec_encode_spaces(s.drop_last()) + (if s.last() == ' ' {
            seq!['%', '2', '0']
        } else {
            seq![s.last()]
        })
    }
}

/// Writes `s` with every space percent-escaped, so the value can stand in a
/// url position.
pub fn encode_spaces(s: &str) -> (r: String)
    ensures
        r@ == spec_encode_spaces(s@),
{
    let n = s.unicode_len();
    let mut out = String::new();
    let mut i: usize = 0;
    while i < n
        invariant
            i <= n,
            n == s@.len(),
            out@ == spec_encode_spaces(s@.take(i as int)),
        decreases n - i,
    {
        let c = s.get_char(i);
        proof {
            assert(s@.take(i + 1 as int).drop_last() =~= s@.take(i as int));
            assert(s@.take(i + 1 as int).last() == s@[i as int]);
        }
        let ghost prefix = out@;
        if c == ' ' {
            out.push('%');
            out.push('2');
            out.push('0');
            proof {
                assert(out@ =~= prefix + seq!['%', '2', '0']);
            }
        } else {
            out.push(c);
            proof {
                assert(out@ =~= prefix + seq![c]);
            }
        }
        i += 1;
    }
    proof {
        assert(s@.take(n as int) =~= s@);
    }
    out
}

/// One discovered item: its url is its identity within a source; the other
/// fields are descriptive.
#[derive(Debug)]
pub struct EmbedData {
    pub scrape_type: ScrapeType,
    pub title: String,
    pub url: String,
    pub img_url: String,
    pub preview_text: String,
}

impl EmbedData {
    /// Builds an item, percent-escaping spaces in the image url; the other
    /// fields are taken as given.
    pub fn new(title: &str, url: &str, img_url: &str, preview_text: &str, scrape_type: ScrapeType) -> (r:
        EmbedData)
        ensures
            r.scrape_type == scrape_type,
            r.title@ == title@,
            r.url@ == url@,
            r.img_url@ == spec_encode_spaces(img_url@),
            r.preview_text@ == preview_text@,
    {
        let sanitized_img_url = encode_spaces(img_url);
        EmbedData {
            scrape_type,
            title: title.to_owned(),
            url: url.to_owned(),
            img_url: sanitized_img_url,
            preview_text: preview_text.to_owned(),
        }
    }

    /// A fixed probe item for exercising the notification path.
    pub fn test() -> (r: EmbedData)
        ensures
            r.scrape_type == ScrapeType::Main,
            r.title@ == "This is a test message"@,
            r.url@ == ""@,
            r.img_url@ == ""@,
            r.preview_text@ == ""@,
    {
        EmbedData {
            scrape_type: ScrapeType::Main,
            title: "This is a test message".to_owned(),
            url: "".to_owned(),
            img_url: "".to_owned(),
            preview_text: "".to_owned(),
        }
    }
}

} // verus!
