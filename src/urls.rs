use vstd::prelude::*;
use crate::text::{
    append_str, chars_of, contains_text, matches_at, occurs_at, push_char, seq_contains,
    seq_starts_with, starts_with_text, string_of_range,
};

verus! {

/// The position after every repetition of `p` that starts at `i`.
pub open spec fn strip_from(s: Seq<char>, p: Seq<char>, i: int) -> int
    decreases s.len() - i,
{
    if p.len() > 0 && 0 <= i && occurs_at(s, p, i) {
        strip_from(s, p, i + p.len())
    } else {
        i
    }
}

/// The first position at or after `i` that holds `c`, or the length.
pub open spec fn index_of(s: Seq<char>, c: char, i: int) -> int
    decreases s.len() - i,
{
    if i >= s.len() {
        s.len() as int
    } else if s[i] == c {
        i
    } else {
        index_of(s, c, i + 1)
    }
}

/// The last position in `lo..end` that holds `c`, or `lo - 1`.
pub open spec fn last_in(s: Seq<char>, c: char, lo: int, end: int) -> int
    decreases end - lo,
{
    if end <= lo {
        lo - 1
    } else if s[end - 1] == c {
        end - 1
    } else {
        last_in(s, c, lo, end - 1)
    }
}

/// Where the host starts: after any leading `http://`, then any leading
/// `https://`.
pub open spec fn host_start(url: Seq<char>) -> int {
    strip_from(url, "https://"@, strip_from(url, "http://"@, 0))
}

/// The second-level and top-level labels of a URL's host: the last two
/// dot-separated parts of what stands between the scheme and the first `/`.
/// None when the host has no dot.
pub open spec fn parsed_url(url: Seq<char>) -> Option<(Seq<char>, Seq<char>)> {
    let lo = host_start(url);
    let end = index_of(url, '/', lo);
    let k = last_in(url, '.', lo, end);
    if k < lo {
        None
    } else {
        let k2 = last_in(url, '.', lo, k);
        Some((url.subrange(k2 + 1, k), url.subrange(k + 1, end)))
    }
}

fn strip_repeated(v: &Vec<char>, p: &Vec<char>, i: usize) -> (r: usize)
    requires
        i <= v.len(),
    ensures
        r == strip_from(v@, p@, i as int),
        i <= r <= v.len(),
{
    let mut j = i;
    while p.len() > 0 && matches_at(v, p, j)
        invariant
            i <= j <= v.len(),
            strip_from(v@, p@, i as int) == strip_from(v@, p@, j as int),
        decreases v.len() - j,
    {
        j = j + p.len();
    }
    j
}

fn index_from(v: &Vec<char>, c: char, i: usize) -> (r: usize)
    requires
        i <= v.len(),
    ensures
        r == index_of(v@, c, i as int),
        i <= r <= v.len(),
{
    let mut j = i;
    while j < v.len() && v[j] != c
        invariant
            i <= j <= v.len(),
            index_of(v@, c, i as int) == index_of(v@, c, j as int),
        decreases v.len() - j,
    {
        j = j + 1;
    }
    j
}

fn last_in_range(v: &Vec<char>, c: char, lo: usize, end: usize) -> (r: Option<usize>)
    requires
        lo <= end <= v.len(),
    ensures
        match r {
            Some(k) => k == last_in(v@, c, lo as int, end as int) && lo <= k < end,
            None => last_in(v@, c, lo as int, end as int) == lo - 1,
        },
{
    let mut e = end;
    while e > lo && v[e - 1] != c
        invariant
            lo <= e <= end <= v.len(),
            last_in(v@, c, lo as int, end as int) == last_in(v@, c, lo as int, e as int),
        decreases e,
    {
        e = e - 1;
    }
    if e > lo {
        Some(e - 1)
    } else {
        None
    }
}

/// The second-level and top-level labels of a URL's host, when it has a dot.
pub fn parse_url(url: &str) -> (r: Option<(String, String)>)
    ensures
        match r {
            Some((sld, tld)) => parsed_url(url@) == Some((sld@, tld@)),
            None => parsed_url(url@) is None,
        },
{
    let v = chars_of(url);
    let http = chars_of("http://");
    let https = chars_of("https://");
    let a = strip_repeated(&v, &http, 0);
    let lo = strip_repeated(&v, &https, a);
    let end = index_from(&v, '/', lo);
    match last_in_range(&v, '.', lo, end) {
        None => None,
        Some(k) => {
            let start = match last_in_range(&v, '.', lo, k) {
                Some(k2) => k2 + 1,
                None => lo,
            };
            let sld = string_of_range(&v, start, k);
            let tld = string_of_range(&v, k + 1, end);
            Some((sld, tld))
        },
    }
}

/// The website to store for a listing: none for an empty one, and one without
/// any `http` gets the secure scheme in front.
pub open spec fn normalized_website(w: Seq<char>) -> Option<Seq<char>> {
    if w.len() == 0 {
        None
    } else if seq_contains(w, "http"@) {
        Some(w)
    } else {
        Some("https://"@ + w)
    }
}

/// Gives a website a scheme when it lacks one; none for an empty website.
pub fn normalize_website(website: &str) -> (r: Option<String>)
    ensures
        match r {
            Some(s) => normalized_website(website@) == Some(s@),
            None => normalized_website(website@) is None,
        },
{
    if website.is_empty() {
        None
    } else if contains_text(website, "http") {
        Some(website.to_owned())
    } else {
        let mut s = String::new();
        append_str(&mut s, "https://");
        append_str(&mut s, website);
        proof {
            assert("https://"@ =~= Seq::<char>::empty() + "https://"@);
        }
        Some(s)
    }
}

/// `s` without any occurrence of `c`.
pub open spec fn without_char(s: Seq<char>, c: char) -> Seq<char>
    decreases s.len(),
{
    if s.len() == 0 {
        s
    } else {
        let r = without_char(s.drop_last(), c);
        if s.last() == c {
            r
        } else {
            r.push(s.last())
        }
    }
}

fn remove_char(s: &str, c: char) -> (r: String)
    ensures
        r@ == without_char(s@, c),
{
    let v = chars_of(s);
    let mut r = String::new();
    let mut i: usize = 0;
    while i < v.len()
        invariant
            i <= v.len(),
            v@ == s@,
            r@ == without_char(v@.subrange(0, i as int), c),
        decreases v.len() - i,
    {
        assert(v@.subrange(0, i + 1).drop_last() =~= v@.subrange(0, i as int));
        if v[i] != c {
            push_char(&mut r, v[i]);
        }
        i = i + 1;
    }
    assert(v@.subrange(0, i as int) =~= v@);
    r
}

/// The absolute address of a contact page, from the company's website and the
/// link found on its main page. None when the website's host cannot be
/// parsed or the link is empty.
pub open spec fn resolved_contact_link(website: Seq<char>, link: Seq<char>) -> Option<Seq<char>> {
    match parsed_url(website) {
        None => None,
        Some((domain, tld)) => if domain.len() == 0 || tld.len() == 0 || link.len() == 0 {
            None
        } else if seq_contains(link, domain) {
            Some(link)
        } else if seq_starts_with(link, "/"@) {
            Some("https://"@ + domain + "."@ + tld + link)
        } else {
            Some("https://"@ + domain + "."@ + tld + "/"@ + without_char(link, '/'))
        },
    }
}

/// Makes a contact link absolute against the company's website.
pub fn resolve_contact_link(website: &str, link: &str) -> (r: Option<String>)
    ensures
        match r {
            Some(s) => resolved_contact_link(website@, link@) == Some(s@),
            None => resolved_contact_link(website@, link@) is None,
        },
{
    match parse_url(website) {
        None => None,
        Some((domain, tld)) => {
            if domain.as_str().is_empty() || tld.as_str().is_empty() || link.is_empty() {
                None
            } else if contains_text(link, domain.as_str()) {
                Some(link.to_owned())
            } else {
                let mut s = String::new();
                append_str(&mut s, "https://");
                append_str(&mut s, domain.as_str());
                append_str(&mut s, ".");
                append_str(&mut s, tld.as_str());
                if starts_with_text(link, "/") {
                    append_str(&mut s, link);
                } else {
                    append_str(&mut s, "/");
                    let rest = remove_char(link, '/');
                    append_str(&mut s, rest.as_str());
                }
                proof {
                    assert("https://"@ =~= Seq::<char>::empty() + "https://"@);
                }
                Some(s)
            }
        },
    }
}

} // verus!
