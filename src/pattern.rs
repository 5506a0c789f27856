//! The calls into the `regex` crate and into the parts of `str` that the
//! verifier has no specification of. Each result that would take pages to
//! state is given a name; the parser's own contracts speak of those names.
use vstd::prelude::*;

verus! {

/// The capture groups of one match: group 0 is the whole match, a group
/// that took no part in the match is `None`.
pub type Groups = Seq<Option<Seq<char>>>;

pub open spec fn groups_view(g: Seq<Option<String>>) -> Groups {
    g.map_values(|o: Option<String>|
        match o {
            Some(s) => Some(s@),
            None => None,
        }
    )
}

pub open spec fn opt_groups_view(g: Option<Vec<Option<String>>>) -> Option<Groups> {
    match g {
        Some(v) => Some(groups_view(v@)),
        None => None,
    }
}

/// The groups of the leftmost match of `pattern` in `text` (`None`: no
/// match, or a pattern that does not compile).
pub uninterp spec fn regex_captures(pattern: Seq<char>, text: Seq<char>) -> Option<Groups>;

/// The groups of each successive non-overlapping match of `pattern` in `text`.
pub uninterp spec fn regex_captures_all(pattern: Seq<char>, text: Seq<char>) -> Seq<Groups>;

/// The text before the leftmost match of `pattern`, the match, and the text
/// after it.
pub uninterp spec fn regex_split(pattern: Seq<char>, text: Seq<char>) -> Option<
    (Seq<char>, Seq<char>, Seq<char>),
>;

/// The characters with the Unicode property White_Space, which is what
/// `str::trim`, `str::split_whitespace` and `char::is_whitespace` go by.
pub open spec fn is_white(c: char) -> bool {
    let u = c as u32;
    (0x9 <= u && u <= 0xd) || u == 0x20 || u == 0x85 || u == 0xa0 || u == 0x1680 || (0x2000 <= u
        && u <= 0x200a) || u == 0x2028 || u == 0x2029 || u == 0x202f || u == 0x205f || u == 0x3000
}

/// `s` without leading white space.
pub open spec fn trimmed_start(s: Seq<char>) -> Seq<char>
    decreases s.len(),
{
    if s.len() > 0 && is_white(s[0]) {
        trimmed_start(s.drop_first())
    } else {
        s
    }
}

/// `s` without trailing white space.
pub open spec fn trimmed_end(s: Seq<char>) -> Seq<char>
    decreases s.len(),
{
    if s.len() > 0 && is_white(s.last()) {
        trimmed_end(s.drop_last())
    } else {
        s
    }
}

/// `s` without leading and trailing white space.
pub open spec fn trimmed(s: Seq<char>) -> Seq<char> {
    trimmed_end(trimmed_start(s))
}

/// Relies on `regex::Regex::new` and `regex::Regex::captures`: the groups of
/// the leftmost match.
#[verifier::external_body]
pub(crate) fn captures(pattern: &str, text: &str) -> (r: Option<Vec<Option<String>>>)
    ensures
        opt_groups_view(r) == regex_captures(pattern@, text@),
{
    let re = regex::Regex::new(pattern).ok()?;
    re.captures(text).map(|c| c.iter().map(|m| m.map(|m| m.as_str().to_string())).collect())
}

/// Relies on `regex::Regex::new` and `regex::Regex::captures_iter`: the
/// groups of every non-overlapping match, left to right.
#[verifier::external_body]
pub(crate) fn captures_all(pattern: &str, text: &str) -> (r: Vec<Vec<Option<String>>>)
    ensures
        r@.len() == regex_captures_all(pattern@, text@).len(),
        forall|i: int|
            0 <= i < r@.len() ==> groups_view(#[trigger] r@[i]@) == regex_captures_all(
                pattern@,
                text@,
            )[i],
{
    match regex::Regex::new(pattern) {
        Ok(re) => re.captures_iter(text).map(
            |c| c.iter().map(|m| m.map(|m| m.as_str().to_string())).collect(),
        ).collect(),
        Err(_) => Vec::new(),
    }
}

/// Relies on `regex::Regex::new` and `regex::Regex::find`: the leftmost match
/// and the text around it.
#[verifier::external_body]
pub(crate) fn split_at_match(pattern: &str, text: &str) -> (r: Option<(String, String, String)>)
    ensures
        match r {
            Some((a, b, c)) => regex_split(pattern@, text@) == Some((a@, b@, c@)),
            None => regex_split(pattern@, text@) == None::<(Seq<char>, Seq<char>, Seq<char>)>,
        },
{
    let re = regex::Regex::new(pattern).ok()?;
    re.find(text).map(
        |m|
            (
                text[..m.start()].to_string(),
                m.as_str().to_string(),
                text[m.end()..].to_string(),
            ),
    )
}

fn white(c: char) -> (r: bool)
    ensures
        r == is_white(c),
{
    let u = c as u32;
    (0x9 <= u && u <= 0xd) || u == 0x20 || u == 0x85 || u == 0xa0 || u == 0x1680 || (0x2000 <= u
        && u <= 0x200a) || u == 0x2028 || u == 0x2029 || u == 0x202f || u == 0x205f || u == 0x3000
}

/// The index after the leading white space of `v`, and the index before
/// its trailing white space.
fn white_bounds(v: &Vec<char>) -> (r: (usize, usize))
    ensures
        r.0 <= r.1 <= v@.len(),
        v@.subrange(r.0 as int, v@.len() as int) == trimmed_start(v@),
        v@.subrange(r.0 as int, r.1 as int) == trimmed(v@),
{
    let n = v.len();
    let mut start: usize = 0;
    assert(v@.subrange(0, n as int) == v@);
    while start < n && white(v[start])
        invariant
            start <= n == v@.len(),
            trimmed_start(v@.subrange(start as int, n as int)) == trimmed_start(v@),
        decreases n - start,
    {
        let ghost sub = v@.subrange(start as int, n as int);
        assert(sub[0] == v@[start as int]);
        assert(sub.drop_first() == v@.subrange(start + 1, n as int));
        start = start + 1;
    }
    let ghost sub = v@.subrange(start as int, n as int);
    assert(trimmed_start(sub) == sub) by {
        if sub.len() > 0 {
            assert(sub[0] == v@[start as int]);
        }
    }
    let mut end: usize = n;
    while end > start && white(v[end - 1])
        invariant
            start <= end <= n == v@.len(),
            trimmed_end(v@.subrange(start as int, end as int)) == trimmed(v@),
        decreases end,
    {
        let ghost sub = v@.subrange(start as int, end as int);
        assert(sub.last() == v@[end - 1]);
        assert(sub.drop_last() == v@.subrange(start as int, end - 1));
        end = end - 1;
    }
    let ghost last = v@.subrange(start as int, end as int);
    assert(trimmed_end(last) == last) by {
        if last.len() > 0 {
            assert(last.last() == v@[end - 1]);
        }
    }
    (start, end)
}

/// `s` without leading and trailing white space (as `str::trim` gives it).
pub(crate) fn trim(s: &str) -> (r: String)
    ensures
        r@ == trimmed(s@),
{
    let v = chars_of(s);
    let (a, b) = white_bounds(&v);
    string_of(&crate::text::slice_chars(&v, a, b))
}

/// `s` without leading white space (as `str::trim_start` gives it).
pub(crate) fn trim_start(s: &str) -> (r: String)
    ensures
        r@ == trimmed_start(s@),
{
    let v = chars_of(s);
    let (a, _) = white_bounds(&v);
    string_of(&crate::text::slice_chars(&v, a, v.len()))
}

/// The characters of `s`, in order.
pub(crate) fn chars_of(s: &str) -> (r: Vec<char>)
    ensures
        r@ == s@,
{
    let n = s.unicode_len();
    let mut v: Vec<char> = Vec::new();
    let mut i: usize = 0;
    while i < n
        invariant
            i <= n,
            n == s@.len(),
            v@ == s@.subrange(0, i as int),
        decreases n - i,
    {
        v.push(s.get_char(i));
        assert(v@ =~= s@.subrange(0, i + 1));
        i = i + 1;
    }
    assert(v@ =~= s@);
    v
}

/// Relies on `FromIterator<char>` for `String`: the string of these characters.
#[verifier::external_body]
pub(crate) fn string_of(v: &Vec<char>) -> (r: String)
    ensures
        r@ == v@,
{
    v.iter().collect()
}

/// The words of `s` found so far and the word under way, reading `s`
/// from the left; white space ends a word.
pub open spec fn words_state(s: Seq<char>) -> (Seq<Seq<char>>, Seq<char>)
    decreases s.len(),
{
    if s.len() == 0 {
        (Seq::empty(), Seq::empty())
    } else {
        let (ws, cur) = words_state(s.drop_last());
        if is_white(s.last()) {
            if cur.len() > 0 {
                (ws.push(cur), Seq::empty())
            } else {
                (ws, Seq::empty())
            }
        } else {
            (ws, cur.push(s.last()))
        }
    }
}

/// The white-space separated words of `s`, in order (as
/// `str::split_whitespace` gives them).
pub open spec fn words_of(s: Seq<char>) -> Seq<Seq<char>> {
    let (ws, cur) = words_state(s);
    if cur.len() > 0 {
        ws.push(cur)
    } else {
        ws
    }
}

pub open spec fn strip_cr(l: Seq<char>) -> Seq<char> {
    if l.len() > 0 && l.last() == '\r' {
        l.drop_last()
    } else {
        l
    }
}

/// The lines of `s` (as `str::lines` gives them): the pieces between
/// `\n`, each but the last without a `\r` before its `\n`, and no empty
/// last piece after a final `\n`.
pub open spec fn lines_of(s: Seq<char>) -> Seq<Seq<char>> {
    let p = crate::text::split_on(s, '\n');
    let full = p.drop_last();
    let done = full.map_values(|l: Seq<char>| strip_cr(l));
    if p.last().len() == 0 {
        done
    } else {
        done.push(p.last())
    }
}

/// The words of `s`.
pub(crate) fn words(s: &str) -> (r: Vec<String>)
    ensures
        crate::protocol::strings_view(r@) == words_of(s@),
{
    let v = chars_of(s);
    let mut ws: Vec<String> = Vec::new();
    let mut cur: Vec<char> = Vec::new();
    let mut i: usize = 0;
    while i < v.len()
        invariant
            i <= v@.len(),
            v@ == s@,
            (crate::protocol::strings_view(ws@), cur@) == words_state(v@.subrange(0, i as int)),
        decreases v@.len() - i,
    {
        let ghost pre = v@.subrange(0, i as int);
        assert(v@.subrange(0, i + 1).drop_last() == pre);
        assert(v@.subrange(0, i + 1).last() == v@[i as int]);
        if white(v[i]) {
            if cur.len() > 0 {
                let w = string_of(&cur);
                let ghost before = ws@;
                ws.push(w);
                assert(crate::protocol::strings_view(ws@) =~= crate::protocol::strings_view(before).push(
                    w@,
                ));
                cur = Vec::new();
            } else {
                cur = Vec::new();
            }
        } else {
            cur.push(v[i]);
        }
        i = i + 1;
    }
    assert(v@.subrange(0, v@.len() as int) == v@);
    if cur.len() > 0 {
        let w = string_of(&cur);
        let ghost before = ws@;
        ws.push(w);
        assert(crate::protocol::strings_view(ws@) =~= crate::protocol::strings_view(before).push(w@));
    }
    ws
}

/// The lines of `s`.
pub(crate) fn lines(s: &str) -> (r: Vec<String>)
    ensures
        crate::protocol::strings_view(r@) == lines_of(s@),
{
    let v = chars_of(s);
    let pieces = crate::text::split_chars(&v, '\n');
    let ghost p = crate::text::split_on(s@, '\n');
    proof {
        crate::text::lemma_split_nonempty(s@, '\n');
    }
    let n = pieces.len();
    let mut out: Vec<String> = Vec::new();
    let mut i: usize = 0;
    while i + 1 < n
        invariant
            n == pieces@.len() == p.len(),
            n >= 1,
            i < n,
            crate::text::views_of(pieces@) == p,
            crate::protocol::strings_view(out@) == p.subrange(0, i as int).map_values(
                |l: Seq<char>| strip_cr(l),
            ),
        decreases n - i,
    {
        assert(pieces@[i as int]@ == p[i as int]);
        let piece = &pieces[i];
        let k = piece.len();
        let line = if k > 0 && piece[k - 1] == '\r' {
            crate::text::slice_chars(piece, 0, k - 1)
        } else {
            crate::text::slice_chars(piece, 0, k)
        };
        assert(line@ == strip_cr(p[i as int])) by {
            assert(piece@.subrange(0, k as int) == piece@);
        }
        let w = string_of(&line);
        let ghost before = out@;
        out.push(w);
        assert(crate::protocol::strings_view(out@) =~= crate::protocol::strings_view(before).push(w@));
        assert(p.subrange(0, i + 1).map_values(|l: Seq<char>| strip_cr(l)) =~= p.subrange(
            0,
            i as int,
        ).map_values(|l: Seq<char>| strip_cr(l)).push(strip_cr(p[i as int])));
        i = i + 1;
    }
    assert(p.subrange(0, (n - 1) as int) == p.drop_last());
    assert(pieces@[(n - 1) as int]@ == p.last());
    if pieces[n - 1].len() > 0 {
        let w = string_of(&pieces[n - 1]);
        let ghost before = out@;
        out.push(w);
        assert(crate::protocol::strings_view(out@) =~= crate::protocol::strings_view(before).push(w@));
    }
    out
}

} // verus!
