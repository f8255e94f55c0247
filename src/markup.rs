use vstd::prelude::*;

verus! {

/// The inner markup of the first element of `html` that `selector` matches;
/// empty when none matches or the selector does not parse.
pub uninterp spec fn first_inner_html_of(html: Seq<char>, selector: Seq<char>) -> Seq<char>;

/// The value of attribute `attr` on the first element of `html` that
/// `selector` matches; empty when none matches, the attribute is absent or the
/// selector does not parse.
pub uninterp spec fn first_attr_of(html: Seq<char>, selector: Seq<char>, attr: Seq<char>) -> Seq<
    char,
>;

/// The outer markup of every element of `html` that `selector` matches, in
/// document order; empty when the selector does not parse.
pub uninterp spec fn fragments_of(html: Seq<char>, selector: Seq<char>) -> Seq<Seq<char>>;

/// The text of every non-overlapping match of regular expression `pattern` in
/// `text`, left to right; none when the pattern does not compile.
pub uninterp spec fn regex_matches_of(pattern: Seq<char>, text: Seq<char>) -> Option<Seq<Seq<char>>>;

/// Relies on scraper's `Html::parse_document`, `Selector::parse`,
/// `Html::select` and `ElementRef::inner_html`: the inner markup of the first
/// match, which depends on the two strings alone.
#[verifier::external_body]
pub(crate) fn first_inner_html(html: &str, selector: &str) -> (r: String)
    ensures
        r@ == first_inner_html_of(html@, selector@),
{
    let doc = scraper::Html::parse_document(html);
    match scraper::Selector::parse(selector) {
        Ok(sel) => match doc.select(&sel).next() {
            Some(e) => e.inner_html(),
            None => String::new(),
        },
        Err(_) => String::new(),
    }
}

/// Relies on scraper's `Html::parse_document`, `Selector::parse`,
/// `Html::select` and `Element::attr`: an attribute of the first match, which
/// depends on the three strings alone.
#[verifier::external_body]
pub(crate) fn first_attr(html: &str, selector: &str, attr: &str) -> (r: String)
    ensures
        r@ == first_attr_of(html@, selector@, attr@),
{
    let doc = scraper::Html::parse_document(html);
    match scraper::Selector::parse(selector) {
        Ok(sel) => match doc.select(&sel).next() {
            Some(e) => e.value().attr(attr).unwrap_or_default().to_string(),
            None => String::new(),
        },
        Err(_) => String::new(),
    }
}

/// Relies on scraper's `Html::parse_document`, `Selector::parse`,
/// `Html::select` and `ElementRef::html`: the outer markup of each match in
/// document order, which depends on the two strings alone.
#[verifier::external_body]
pub(crate) fn fragments(html: &str, selector: &str) -> (r: Vec<String>)
    ensures
        r@.map_values(|s: String| s@) == fragments_of(html@, selector@),
{
    let doc = scraper::Html::parse_document(html);
    match scraper::Selector::parse(selector) {
        Ok(sel) => doc.select(&sel).map(|e| e.html()).collect(),
        Err(_) => Vec::new(),
    }
}

/// Relies on regex's `Regex::new` and `Regex::find_iter`: the text of each
/// match, left to right, which depends on the pattern and the text alone.
#[verifier::external_body]
pub(crate) fn regex_matches(pattern: &str, text: &str) -> (r: Option<Vec<String>>)
    ensures
        match r {
            Some(v) => regex_matches_of(pattern@, text@) == Some(v@.map_values(|s: String| s@)),
            None => regex_matches_of(pattern@, text@) is None,
        },
{
    match regex::Regex::new(pattern) {
        Ok(re) => Some(re.find_iter(text).map(|m| m.as_str().to_string()).collect()),
        Err(_) => None,
    }
}

} // verus!
