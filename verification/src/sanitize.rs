//! Turns the extractor's raw paragraph markup into notification text: finds
//! the anchors, strips the remaining tags, and rewrites each anchor as
//! `[text](url)`. Specified character by character over sequence models of
//! splitting, searching and replacing.

use vstd::prelude::*;
use crate::text::{chars_string, str_chars};

verus! {

/// Whether `s` begins with `pat`.
pub open spec fn spec_starts_with(s: Seq<char>, pat: Seq<char>) -> bool {
    s.len() >= pat.len() && s.take(pat.len() as int) == pat
}

/// Whether `pat` occurs anywhere in `s`.
pub open spec fn spec_contains(s: Seq<char>, pat: Seq<char>) -> bool
    decreases s.len(),
{
    if spec_starts_with(s, pat) {
        true
    } else if s.len() == 0 {
        false
    } else {
        spec_contains(s.skip(1), pat)
    }
}

/// The pieces of `s` between non-overlapping occurrences of `sep`, scanned
/// left to right; a leading, trailing or doubled separator yields an empty
/// piece, as `str::split` has it.
pub open spec fn spec_split(s: Seq<char>, sep: Seq<char>) -> Seq<Seq<char>>
    decreases s.len(),
{
    if sep.len() == 0 {
        seq![s]
    } else if s.len() == 0 {
        seq![s]
    } else if spec_starts_with(s, sep) {
        seq![Seq::<char>::empty()] + spec_split(s.skip(sep.len() as int), sep)
    } else {
        let r = spec_split(s.skip(1), sep);
        seq![seq![s[0]] + r.first()] + r.skip(1)
    }
}

/// Splitting yields at least one piece.
pub proof fn lemma_split_nonempty(s: Seq<char>, sep: Seq<char>)
    ensures
        spec_split(s, sep).len() >= 1,
    decreases s.len(),
{
    if sep.len() == 0 || s.len() == 0 {
    } else if spec_starts_with(s, sep) {
        lemma_split_nonempty(s.skip(sep.len() as int), sep);
    } else {
        lemma_split_nonempty(s.skip(1), sep);
    }
}

/// `s` with every non-overlapping occurrence of `pat` removed, scanned left
/// to right: `str::replace` with an empty replacement.
pub open spec fn spec_remove_all(s: Seq<char>, pat: Seq<char>) -> Seq<char>
    decreases s.len(),
{
    if pat.len() == 0 {
        s
    } else if s.len() == 0 {
        s
    } else if spec_starts_with(s, pat) {
        spec_remove_all(s.skip(pat.len() as int), pat)
    } else {
        seq![s[0]] + spec_remove_all(s.skip(1), pat)
    }
}

/// `s` with only the first occurrence of `pat` replaced by `to`:
/// `str::replacen` with a count of one.
pub open spec fn spec_replace_first(s: Seq<char>, pat: Seq<char>, to: Seq<char>) -> Seq<char>
    decreases s.len(),
{
    if pat.len() == 0 {
        to + s
    } else if s.len() == 0 {
        s
    } else if spec_starts_with(s, pat) {
        to + s.skip(pat.len() as int)
    } else {
        seq![s[0]] + spec_replace_first(s.skip(1), pat, to)
    }
}

/// The tag-stripping pass from position `i` on: text outside tags is kept,
/// tags are dropped, and an opening `<a` leaves a duck marker and a space
/// where the anchor stood.
pub open spec fn spec_escape(s: Seq<char>, i: int, in_escape: bool) -> Seq<char>
    decreases s.len() - i
    when 0 <= i <= s.len()
{
    if i >= s.len() {
        Seq::empty()
    } else if s[i] == '>' {
        spec_escape(s, i + 1, false)
    } else if s[i] == '<' {
        (if i + 1 < s.len() && s[i + 1] == 'a' {
            seq!['🦆', ' ']
        } else {
            Seq::<char>::empty()
        }) + spec_escape(s, i + 1, true)
    } else {
        (if !in_escape {
            seq![s[i]]
        } else {
            Seq::<char>::empty()
        }) + spec_escape(s, i + 1, in_escape)
    }
}

/// The anchor a split piece describes, if it describes one: a piece holding
/// an absolute link, split by the closing quote into exactly a url and a
/// remainder, whose text runs to the closing anchor tag.
pub open spec fn spec_extract_one(item: Seq<char>) -> Seq<(Seq<char>, Seq<char>)> {
    if !spec_contains(item, "https"@) {
        Seq::empty()
    } else {
        let url_split = spec_split(item, "\">"@);
        if url_split.len() != 2 {
            Seq::empty()
        } else {
            seq![(spec_split(url_split[1], "</a>"@).first(), url_split[0])]
        }
    }
}

/// All (text, url) anchor pairs over the pieces, in order.
pub open spec fn spec_extract_urls(pieces: Seq<Seq<char>>) -> Seq<(Seq<char>, Seq<char>)>
    decreases pieces.len(),
{
    if pieces.len() == 0 {
        Seq::empty()
    } else {
        spec_extract_one(pieces.first()) + spec_extract_urls(pieces.skip(1))
    }
}

/// An anchor written back as `[text](url)`.
pub open spec fn spec_bracket(text: Seq<char>, url: Seq<char>) -> Seq<char> {
    seq!['['] + text + seq![']', '('] + url + seq![')']
}

/// For each anchor in order: drop its text everywhere, then put the
/// bracketed form in place of the first remaining duck marker.
pub open spec fn spec_apply_urls(c: Seq<char>, urls: Seq<(Seq<char>, Seq<char>)>) -> Seq<char>
    decreases urls.len(),
{
    if urls.len() == 0 {
        c
    } else {
        spec_apply_urls(
            spec_replace_first(
                spec_remove_all(c, urls.first().0),
                seq!['🦆'],
                spec_bracket(urls.first().0, urls.first().1),
            ),
            urls.skip(1),
        )
    }
}

/// The whole sanitization: collect the anchors from the pieces between
/// `href="` markers, strip the tags, then write the anchors back in
/// bracketed form.
pub open spec fn spec_sanitize_html(h: Seq<char>) -> Seq<char> {
    spec_apply_urls(spec_escape(h, 0, false), spec_extract_urls(spec_split(h, "href=\""@)))
}

/// The views of a vector of (text, url) character pairs.
pub open spec fn pair_views(v: Seq<(Vec<char>, Vec<char>)>) -> Seq<(Seq<char>, Seq<char>)> {
    Seq::new(v.len(), |i: int| (v[i].0@, v[i].1@))
}

/// The views of a vector of character-vector pieces.
pub open spec fn piece_views(v: Seq<Vec<char>>) -> Seq<Seq<char>> {
    Seq::new(v.len(), |i: int| v[i]@)
}

fn starts_with_at(s: &Vec<char>, i: usize, pat: &Vec<char>) -> (r: bool)
    requires
        i <= s@.len(),
    ensures
        r == spec_starts_with(s@.skip(i as int), pat@),
{
    let n = s.len();
    if n - i < pat.len() {
        return false;
    }
    let plen = pat.len();
    let mut k: usize = 0;
    while k < plen
        invariant
            n == s@.len(),
            plen == pat@.len(),
            i + plen <= n,
            k <= plen,
            forall|t: int| 0 <= t < k ==> s@[i + t] == pat@[t],
        decreases plen - k,
    {
        if s[i + k] != pat[k] {
            proof {
                assert(s@.skip(i as int)[k as int] == s@[i + k]);
            }
            return false;
        }
        k += 1;
    }
    proof {
        assert(s@.skip(i as int).take(pat@.len() as int) =~= pat@);
    }
    true
}

pub(crate) fn contains_chars(s: &Vec<char>, pat: &Vec<char>) -> (r: bool)
    ensures
        r == spec_contains(s@, pat@),
{
    let n = s.len();
    let mut i: usize = 0;
    proof {
        assert(s@.skip(0) =~= s@);
    }
    while i < n
        invariant
            i <= n,
            n == s@.len(),
            spec_contains(s@, pat@) == spec_contains(s@.skip(i as int), pat@),
        decreases n - i,
    {
        if starts_with_at(s, i, pat) {
            return true;
        }
        proof {
            assert(s@.skip(i as int).skip(1) =~= s@.skip(i as int + 1));
        }
        i += 1;
    }
    let r = starts_with_at(s, n, pat);
    proof {
        assert(s@.skip(n as int).len() == 0);
    }
    r
}

fn copy_chars(s: &Vec<char>) -> (r: Vec<char>)
    ensures
        r@ == s@,
{
    let mut out: Vec<char> = Vec::new();
    let mut i: usize = 0;
    while i < s.len()
        invariant
            i <= s@.len(),
            out@ == s@.take(i as int),
        decreases s@.len() - i,
    {
        out.push(s[i]);
        proof {
            assert(s@.take(i as int + 1) =~= s@.take(i as int).push(s@[i as int]));
        }
        i += 1;
    }
    proof {
        assert(s@.take(s@.len() as int) =~= s@);
    }
    out
}

fn append_chars(out: &mut Vec<char>, add: &Vec<char>)
    ensures
        final(out)@ == old(out)@ + add@,
{
    let mut i: usize = 0;
    while i < add.len()
        invariant
            i <= add@.len(),
            out@ == old(out)@ + add@.take(i as int),
        decreases add@.len() - i,
    {
        out.push(add[i]);
        proof {
            assert(old(out)@ + add@.take(i as int + 1) =~= (old(out)@ + add@.take(i as int)).push(
                add@[i as int],
            ));
        }
        i += 1;
    }
    proof {
        assert(add@.take(add@.len() as int) =~= add@);
    }
}

/// One split piece grafted onto the front of the first piece of a finer
/// split of the remainder.
pub open spec fn prepend_first(c: Seq<char>, r: Seq<Seq<char>>) -> Seq<Seq<char>> {
    seq![c + r.first()] + r.skip(1)
}

fn split_chars(s: &Vec<char>, sep: &Vec<char>) -> (r: Vec<Vec<char>>)
    requires
        sep@.len() >= 1,
    ensures
        piece_views(r@) == spec_split(s@, sep@),
{
    let n = s.len();
    let mut done: Vec<Vec<char>> = Vec::new();
    let mut cur: Vec<char> = Vec::new();
    let mut i: usize = 0;
    proof {
        lemma_split_nonempty(s@, sep@);
        assert(s@.skip(0) =~= s@);
        assert(piece_views(done@) =~= Seq::<Seq<char>>::empty());
        assert(prepend_first(cur@, spec_split(s@, sep@)) =~~= spec_split(s@, sep@));
        assert(piece_views(done@) + prepend_first(cur@, spec_split(s@.skip(0), sep@)) =~~=
            spec_split(s@, sep@));
    }
    while i < n
        invariant
            i <= n,
            n == s@.len(),
            sep@.len() >= 1,
            piece_views(done@) + prepend_first(cur@, spec_split(s@.skip(i as int), sep@)) ==
                spec_split(s@, sep@),
        decreases n - i,
    {
        let ghost old_done = piece_views(done@);
        let ghost old_cur = cur@;
        let ghost rest = spec_split(s@.skip(i as int), sep@);
        if starts_with_at(s, i, sep) {
            let ghost rest2 = spec_split(s@.skip(i as int + sep@.len() as int), sep@);
            proof {
                assert(s@.skip(i as int).skip(sep@.len() as int) =~= s@.skip(
                    i as int + sep@.len() as int,
                ));
                assert(rest == seq![Seq::<char>::empty()] + rest2);
                assert(rest.first() =~= Seq::<char>::empty());
                assert(rest.skip(1) =~= rest2);
                assert(old_cur + rest.first() =~= old_cur);
                assert(prepend_first(old_cur, rest) =~~= seq![old_cur] + rest2);
                lemma_split_nonempty(s@.skip(i as int + sep@.len() as int), sep@);
            }
            done.push(cur);
            cur = Vec::new();
            i = i + sep.len();
            proof {
                assert(piece_views(done@) =~= old_done.push(old_cur));
                assert(prepend_first(cur@, rest2) =~~= rest2);
                assert(old_done.push(old_cur) + rest2 =~~= old_done + (seq![old_cur] + rest2));
                assert(piece_views(done@) + prepend_first(cur@, spec_split(s@.skip(i as int), sep@))
                    =~~= spec_split(s@, sep@));
            }
        } else {
            let ghost rest2 = spec_split(s@.skip(i as int + 1), sep@);
            proof {
                assert(s@.skip(i as int).skip(1) =~= s@.skip(i as int + 1));
                assert(s@.skip(i as int)[0] == s@[i as int]);
                assert(rest == seq![seq![s@[i as int]] + rest2.first()] + rest2.skip(1));
                assert(rest.first() == seq![s@[i as int]] + rest2.first());
                assert(rest.skip(1) =~= rest2.skip(1));
                assert(old_cur + rest.first() =~= old_cur.push(s@[i as int]) + rest2.first());
                assert(prepend_first(old_cur, rest) =~~= prepend_first(
                    old_cur.push(s@[i as int]),
                    rest2,
                ));
            }
            cur.push(s[i]);
            i += 1;
            proof {
                assert(cur@ == old_cur.push(s@[i as int - 1]));
                assert(piece_views(done@) + prepend_first(cur@, spec_split(s@.skip(i as int), sep@))
                    =~~= spec_split(s@, sep@));
            }
        }
    }
    let ghost old_done = piece_views(done@);
    let ghost old_cur = cur@;
    proof {
        assert(s@.skip(n as int).len() == 0);
        assert(spec_split(s@.skip(n as int), sep@) == seq![s@.skip(n as int)]);
        assert(prepend_first(old_cur, seq![s@.skip(n as int)]).len() == 1);
        assert(old_cur + seq![s@.skip(n as int)].first() =~= old_cur);
        assert(prepend_first(old_cur, seq![s@.skip(n as int)]) =~~= seq![old_cur]);
    }
    done.push(cur);
    proof {
        assert(piece_views(done@) =~= old_done.push(old_cur));
        assert(old_done.push(old_cur) =~~= old_done + seq![old_cur]);
        assert(piece_views(done@) =~~= spec_split(s@, sep@));
    }
    done
}

fn remove_all_chars(s: &Vec<char>, pat: &Vec<char>) -> (r: Vec<char>)
    ensures
        r@ == spec_remove_all(s@, pat@),
{
    if pat.len() == 0 {
        return copy_chars(s);
    }
    let n = s.len();
    let mut out: Vec<char> = Vec::new();
    let mut i: usize = 0;
    proof {
        assert(s@.skip(0) =~= s@);
        assert(out@ + spec_remove_all(s@, pat@) =~= spec_remove_all(s@, pat@));
    }
    while i < n
        invariant
            i <= n,
            n == s@.len(),
            pat@.len() >= 1,
            out@ + spec_remove_all(s@.skip(i as int), pat@) == spec_remove_all(s@, pat@),
        decreases n - i,
    {
        let ghost old_out = out@;
        if starts_with_at(s, i, pat) {
            proof {
                assert(s@.skip(i as int).skip(pat@.len() as int) =~= s@.skip(
                    i as int + pat@.len() as int,
                ));
            }
            i = i + pat.len();
        } else {
            proof {
                assert(s@.skip(i as int).skip(1) =~= s@.skip(i as int + 1));
                assert(s@.skip(i as int)[0] == s@[i as int]);
                assert(old_out + (seq![s@[i as int]] + spec_remove_all(
                    s@.skip(i as int + 1),
                    pat@,
                )) =~= old_out.push(s@[i as int]) + spec_remove_all(s@.skip(i as int + 1), pat@));
            }
            out.push(s[i]);
            i += 1;
        }
    }
    proof {
        assert(s@.skip(n as int).len() == 0);
        assert(out@ + spec_remove_all(s@.skip(n as int), pat@) =~= out@);
    }
    out
}

fn replace_first_chars(s: &Vec<char>, pat: &Vec<char>, to: &Vec<char>) -> (r: Vec<char>)
    requires
        pat@.len() >= 1,
    ensures
        r@ == spec_replace_first(s@, pat@, to@),
{
    let n = s.len();
    let mut out: Vec<char> = Vec::new();
    let mut i: usize = 0;
    proof {
        assert(s@.skip(0) =~= s@);
        assert(out@ + spec_replace_first(s@, pat@, to@) =~= spec_replace_first(s@, pat@, to@));
    }
    while i < n
        invariant
            i <= n,
            n == s@.len(),
            pat@.len() >= 1,
            out@ + spec_replace_first(s@.skip(i as int), pat@, to@) == spec_replace_first(
                s@,
                pat@,
                to@,
            ),
        decreases n - i,
    {
        let ghost old_out = out@;
        if starts_with_at(s, i, pat) {
            proof {
                assert(s@.skip(i as int).skip(pat@.len() as int) =~= s@.skip(
                    i as int + pat@.len() as int,
                ));
                assert(old_out + (to@ + s@.skip(i as int + pat@.len() as int)) =~= (old_out + to@)
                    + s@.skip(i as int + pat@.len() as int));
            }
            append_chars(&mut out, to);
            let mut j = i + pat.len();
            while j < n
                invariant
                    i as int + pat@.len() <= j <= n,
                    n == s@.len(),
                    out@ == (old_out + to@) + s@.subrange(i as int + pat@.len() as int, j as int),
                decreases n - j,
            {
                out.push(s[j]);
                proof {
                    assert(s@.subrange(i as int + pat@.len() as int, j as int + 1) =~= s@.subrange(
                        i as int + pat@.len() as int,
                        j as int,
                    ).push(s@[j as int]));
                    assert((old_out + to@) + s@.subrange(
                        i as int + pat@.len() as int,
                        j as int,
                    ).push(s@[j as int]) =~= ((old_out + to@) + s@.subrange(
                        i as int + pat@.len() as int,
                        j as int,
                    )).push(s@[j as int]));
                }
                j += 1;
            }
            proof {
                assert(s@.subrange(i as int + pat@.len() as int, n as int) =~= s@.skip(
                    i as int + pat@.len() as int,
                ));
            }
            return out;
        } else {
            proof {
                assert(s@.skip(i as int).skip(1) =~= s@.skip(i as int + 1));
                assert(s@.skip(i as int)[0] == s@[i as int]);
                assert(old_out + (seq![s@[i as int]] + spec_replace_first(
                    s@.skip(i as int + 1),
                    pat@,
                    to@,
                )) =~= old_out.push(s@[i as int]) + spec_replace_first(
                    s@.skip(i as int + 1),
                    pat@,
                    to@,
                ));
            }
            out.push(s[i]);
            i += 1;
        }
    }
    proof {
        assert(s@.skip(n as int).len() == 0);
        assert(out@ + spec_replace_first(s@.skip(n as int), pat@, to@) =~= out@);
    }
    out
}

fn escape_tags(s: &Vec<char>) -> (r: Vec<char>)
    ensures
        r@ == spec_escape(s@, 0, false),
{
    let n = s.len();
    let mut out: Vec<char> = Vec::new();
    let mut in_escape = false;
    let mut i: usize = 0;
    proof {
        assert(out@ + spec_escape(s@, 0, false) =~= spec_escape(s@, 0, false));
    }
    while i < n
        invariant
            i <= n,
            n == s@.len(),
            out@ + spec_escape(s@, i as int, in_escape) == spec_escape(s@, 0, false),
        decreases n - i,
    {
        let ghost old_out = out@;
        let ghost old_esc = in_escape;
        let c = s[i];
        if c == '>' {
            in_escape = false;
            proof {
                assert(spec_escape(s@, i as int, old_esc) == spec_escape(s@, i as int + 1, false));
            }
        } else if c == '<' {
            if i + 1 < n && s[i + 1] == 'a' {
                out.push('🦆');
                out.push(' ');
                proof {
                    assert(out@ =~= old_out + seq!['🦆', ' ']);
                    assert(old_out + (seq!['🦆', ' '] + spec_escape(s@, i as int + 1, true)) =~= (
                    old_out + seq!['🦆', ' ']) + spec_escape(s@, i as int + 1, true));
                }
            } else {
                proof {
                    assert(spec_escape(s@, i as int, old_esc) =~= spec_escape(
                        s@,
                        i as int + 1,
                        true,
                    ));
                }
            }
            in_escape = true;
        } else {
            if !in_escape {
                out.push(c);
                proof {
                    assert(old_out + (seq![s@[i as int]] + spec_escape(
                        s@,
                        i as int + 1,
                        old_esc,
                    )) =~= old_out.push(s@[i as int]) + spec_escape(s@, i as int + 1, old_esc));
                }
            } else {
                proof {
                    assert(spec_escape(s@, i as int, old_esc) =~= spec_escape(
                        s@,
                        i as int + 1,
                        old_esc,
                    ));
                }
            }
        }
        i += 1;
    }
    proof {
        assert(spec_escape(s@, n as int, in_escape) =~= Seq::<char>::empty());
        assert(out@ + Seq::<char>::empty() =~= out@);
    }
    out
}

fn extract_urls(pieces: &Vec<Vec<char>>) -> (r: Vec<(Vec<char>, Vec<char>)>)
    ensures
        pair_views(r@) == spec_extract_urls(piece_views(pieces@)),
{
    let https_pat = str_chars("https");
    let quote_pat = str_chars("\">");
    let close_pat = str_chars("</a>");
    proof {
        reveal_strlit("https");
        reveal_strlit("\">");
        reveal_strlit("</a>");
    }
    let m = pieces.len();
    let mut out: Vec<(Vec<char>, Vec<char>)> = Vec::new();
    let mut j: usize = 0;
    proof {
        assert(pair_views(out@) =~= Seq::<(Seq<char>, Seq<char>)>::empty());
        assert(piece_views(pieces@).skip(0) =~= piece_views(pieces@));
        assert(pair_views(out@) + spec_extract_urls(piece_views(pieces@)) =~= spec_extract_urls(
            piece_views(pieces@),
        ));
    }
    while j < m
        invariant
            j <= m,
            m == pieces@.len(),
            https_pat@ == "https"@,
            quote_pat@ == "\">"@,
            close_pat@ == "</a>"@,
            pair_views(out@) + spec_extract_urls(piece_views(pieces@).skip(j as int)) ==
                spec_extract_urls(piece_views(pieces@)),
        decreases m - j,
    {
        proof {
            reveal_strlit("https");
            reveal_strlit("\">");
            reveal_strlit("</a>");
        }
        let ghost old_views = pair_views(out@);
        let ghost piece_view = piece_views(pieces@)[j as int];
        proof {
            assert(piece_views(pieces@).skip(j as int).first() == piece_view);
            assert(piece_views(pieces@).skip(j as int).skip(1) =~= piece_views(pieces@).skip(
                j as int + 1,
            ));
            assert(piece_view == pieces@[j as int]@);
        }
        if contains_chars(&pieces[j], &https_pat) {
            let us = split_chars(&pieces[j], &quote_pat);
            if us.len() == 2 {
                let parts = split_chars(&us[1], &close_pat);
                proof {
                    lemma_split_nonempty(us@[1]@, close_pat@);
                    assert(piece_views(parts@).len() == spec_split(us@[1]@, close_pat@).len());
                }
                let text = copy_chars(&parts[0]);
                let url = copy_chars(&us[0]);
                out.push((text, url));
                proof {
                    assert(piece_views(us@)[0] == us@[0]@);
                    assert(piece_views(us@)[1] == us@[1]@);
                    assert(piece_views(parts@)[0] == parts@[0]@);
                    assert(spec_split(piece_view, "\">"@).len() == 2);
                    assert(spec_split(piece_view, "\">"@)[1] == us@[1]@);
                    assert(spec_split(us@[1]@, "</a>"@).first() == parts@[0]@);
                    assert(spec_extract_one(piece_view) == seq![(parts@[0]@, us@[0]@)]);
                    assert(pair_views(out@) =~= old_views.push((parts@[0]@, us@[0]@)));
                    assert(old_views.push((parts@[0]@, us@[0]@)) =~= old_views + seq![
                        (parts@[0]@, us@[0]@)
                    ]);
                    assert(pair_views(out@) + spec_extract_urls(
                        piece_views(pieces@).skip(j as int + 1),
                    ) =~~= spec_extract_urls(piece_views(pieces@)));
                }
            } else {
                proof {
                    assert(spec_split(piece_view, "\">"@).len() == piece_views(us@).len());
                    assert(spec_extract_one(piece_view) =~= Seq::<(Seq<char>, Seq<char>)>::empty());
                    assert(spec_extract_urls(piece_views(pieces@).skip(j as int)) =~=
                        spec_extract_urls(piece_views(pieces@).skip(j as int + 1)));
                }
            }
        } else {
            proof {
                assert(spec_extract_one(piece_view) =~= Seq::<(Seq<char>, Seq<char>)>::empty());
                assert(spec_extract_urls(piece_views(pieces@).skip(j as int)) =~= spec_extract_urls(
                    piece_views(pieces@).skip(j as int + 1),
                ));
            }
        }
        j += 1;
    }
    proof {
        assert(piece_views(pieces@).skip(m as int).len() == 0);
        assert(spec_extract_urls(piece_views(pieces@).skip(m as int)) =~= Seq::<(
            Seq<char>,
            Seq<char>,
        )>::empty());
        assert(pair_views(out@) + Seq::<(Seq<char>, Seq<char>)>::empty() =~= pair_views(out@));
    }
    out
}

fn apply_urls(constructed: Vec<char>, urls: &Vec<(Vec<char>, Vec<char>)>) -> (r: Vec<char>)
    ensures
        r@ == spec_apply_urls(constructed@, pair_views(urls@)),
{
    let ghost c0 = constructed@;
    let ghost uv = pair_views(urls@);
    let mut delim: Vec<char> = Vec::new();
    delim.push('🦆');
    proof {
        assert(delim@ =~= seq!['🦆']);
    }
    let mut cur = constructed;
    let m = urls.len();
    let mut j: usize = 0;
    proof {
        assert(uv.skip(0) =~= uv);
    }
    while j < m
        invariant
            j <= m,
            m == urls@.len(),
            uv == pair_views(urls@),
            delim@ == seq!['🦆'],
            spec_apply_urls(cur@, uv.skip(j as int)) == spec_apply_urls(c0, uv),
        decreases m - j,
    {
        let ghost pair = uv[j as int];
        proof {
            assert(uv.skip(j as int).first() == pair);
            assert(uv.skip(j as int).skip(1) =~= uv.skip(j as int + 1));
            assert(pair.0 == urls@[j as int].0@);
            assert(pair.1 == urls@[j as int].1@);
        }
        let stripped = remove_all_chars(&cur, &urls[j].0);
        let mut bracket: Vec<char> = Vec::new();
        bracket.push('[');
        append_chars(&mut bracket, &urls[j].0);
        bracket.push(']');
        bracket.push('(');
        append_chars(&mut bracket, &urls[j].1);
        bracket.push(')');
        proof {
            assert(bracket@ =~= spec_bracket(pair.0, pair.1));
        }
        cur = replace_first_chars(&stripped, &delim, &bracket);
        j += 1;
    }
    proof {
        assert(uv.skip(m as int).len() == 0);
    }
    cur
}

/// Strips markup from one extracted paragraph and rewrites each absolute
/// link as `[text](url)`: the notification body for a main-page post.
pub fn sanitize_html(html: &str) -> (r: String)
    ensures
        r@ == spec_sanitize_html(html@),
{
    let cs = str_chars(html);
    let href_pat = str_chars("href=\"");
    proof {
        reveal_strlit("href=\"");
    }
    let pieces = split_chars(&cs, &href_pat);
    let urls = extract_urls(&pieces);
    let escaped = escape_tags(&cs);
    let merged = apply_urls(escaped, &urls);
    chars_string(&merged)
}

} // verus!
