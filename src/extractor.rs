use vstd::prelude::*;
use crate::enrich::contains_string;
use crate::markup::{
    first_attr, first_attr_of, first_inner_html, first_inner_html_of, fragments, fragments_of,
    regex_matches, regex_matches_of,
};
use crate::records::RecordsData;
use crate::text::append_str;

verus! {

/// A listing card of the member directory.
pub const PROFILE_SELECTOR: &'static str = ".searchprofile";

/// The card's link to the member page.
pub const MORE_INFO_SELECTOR: &'static str = ".more-info > a";

/// The card's company name.
pub const COMPANY_NAME_SELECTOR: &'static str = "h3 > a";

/// The phone link of a member page.
pub const PHONE_SELECTOR: &'static str = ".member-contact a[href^='tel:']";

/// The website link of a member page.
pub const WEBSITE_SELECTOR: &'static str =
    ".member-contact a[href^='http://'], .member-contact a[href^='https://']";

/// A block of results on a listing page of the second directory.
pub const HOUZZ_RESULTS_SELECTOR: &'static str = ".hz-pro-search-results";

/// A result's link inside such a block.
pub const HOUZZ_LINK_SELECTOR: &'static str = ".hz-pro-search-results__item a";

/// The company name inside a result's link.
pub const HOUZZ_NAME_SELECTOR: &'static str = "span[itemprop='name']";

/// The phone of a detail page of the second directory.
pub const HOUZZ_PHONE_SELECTOR: &'static str = "#business > div > div:nth-child(2) > p";

/// The website of a detail page of the second directory.
pub const HOUZZ_WEBSITE_SELECTOR: &'static str =
    "div[data-component='Website'] span[font-size='smallPlus,medium']";

/// A link whose target mentions a contact page.
pub const CONTACT_LINK_SELECTOR: &'static str = "a[href*='contact']";

/// The root element of a link fragment.
pub const ANCHOR_SELECTOR: &'static str = "a";

pub const HREF: &'static str = "href";

/// What an e-mail address looks like.
pub const EMAIL_PATTERN: &'static str = r"[a-zA-Z0-9._%+-]+@[a-zA-Z0-9.-]+\.[a-zA-Z]{2,}";

/// The separator of a list of e-mail addresses.
pub const EMAIL_SEPARATOR: &'static str = ", ";

/// A company found on a listing page, with the link to its detail page.
#[derive(Debug)]
pub struct CompanyInfo {
    pub company: String,
    pub link: String,
}

/// The contact fields found on a detail page.
pub struct CompanyContactDetails {
    pub phone: String,
    pub website: String,
}

pub open spec fn info_view(c: CompanyInfo) -> (Seq<char>, Seq<char>) {
    (c.company@, c.link@)
}

/// The companies of the member directory's cards: each card with a
/// more-info link gives its name and that link.
pub open spec fn company_infos(cards: Seq<Seq<char>>) -> Seq<(Seq<char>, Seq<char>)>
    decreases cards.len(),
{
    if cards.len() == 0 {
        Seq::empty()
    } else {
        let card = cards.last();
        let rest = company_infos(cards.drop_last());
        if fragments_of(card, MORE_INFO_SELECTOR@).len() > 0 {
            rest.push(
                (
                    first_inner_html_of(card, COMPANY_NAME_SELECTOR@),
                    first_attr_of(card, MORE_INFO_SELECTOR@, HREF@),
                ),
            )
        } else {
            rest
        }
    }
}

/// The companies of a list of result links: each link that holds a company
/// name gives that name and its target.
pub open spec fn houzz_link_infos(links: Seq<Seq<char>>) -> Seq<(Seq<char>, Seq<char>)>
    decreases links.len(),
{
    if links.len() == 0 {
        Seq::empty()
    } else {
        let l = links.last();
        let rest = houzz_link_infos(links.drop_last());
        if fragments_of(l, HOUZZ_NAME_SELECTOR@).len() > 0 {
            rest.push(
                (first_inner_html_of(l, HOUZZ_NAME_SELECTOR@), first_attr_of(l, ANCHOR_SELECTOR@, HREF@)),
            )
        } else {
            rest
        }
    }
}

/// The companies of the result blocks of a listing page, block by block.
pub open spec fn houzz_infos(blocks: Seq<Seq<char>>) -> Seq<(Seq<char>, Seq<char>)>
    decreases blocks.len(),
{
    if blocks.len() == 0 {
        Seq::empty()
    } else {
        houzz_infos(blocks.drop_last()) + houzz_link_infos(
            fragments_of(blocks.last(), HOUZZ_LINK_SELECTOR@),
        )
    }
}

/// Each string once, in the order of first occurrence.
pub open spec fn dedup(s: Seq<Seq<char>>) -> Seq<Seq<char>>
    decreases s.len(),
{
    if s.len() == 0 {
        Seq::empty()
    } else {
        let d = dedup(s.drop_last());
        if d.contains(s.last()) {
            d
        } else {
            d.push(s.last())
        }
    }
}

/// The parts, with `sep` between each two.
pub open spec fn join(parts: Seq<Seq<char>>, sep: Seq<char>) -> Seq<char>
    decreases parts.len(),
{
    if parts.len() == 0 {
        Seq::empty()
    } else if parts.len() == 1 {
        parts[0]
    } else {
        join(parts.drop_last(), sep) + sep + parts.last()
    }
}

/// The e-mail addresses found in a text, in order.
pub open spec fn emails_in(text: Seq<char>) -> Seq<Seq<char>> {
    match regex_matches_of(EMAIL_PATTERN@, text) {
        Some(m) => m,
        None => Seq::empty(),
    }
}

/// The strings of `v`, each once, in the order of first occurrence.
pub fn dedup_strings(v: &Vec<String>) -> (r: Vec<String>)
    ensures
        r@.map_values(|s: String| s@) == dedup(v@.map_values(|s: String| s@)),
{
    let ghost views = v@.map_values(|s: String| s@);
    let mut out: Vec<String> = Vec::new();
    let mut i: usize = 0;
    while i < v.len()
        invariant
            i <= v.len(),
            views == v@.map_values(|s: String| s@),
            out@.map_values(|s: String| s@) == dedup(views.subrange(0, i as int)),
        decreases v.len() - i,
    {
        assert(views.subrange(0, i + 1).drop_last() =~= views.subrange(0, i as int));
        if !contains_string(&out, &v[i]) {
            let ghost before = out@;
            out.push(v[i].clone());
            assert(out@.map_values(|s: String| s@) =~= before.map_values(|s: String| s@).push(
                views[i as int],
            ));
        }
        i = i + 1;
    }
    assert(views.subrange(0, i as int) =~= views);
    out
}

/// The strings of `v` with `sep` between each two.
pub fn join_strings(v: &Vec<String>, sep: &str) -> (r: String)
    ensures
        r@ == join(v@.map_values(|s: String| s@), sep@),
{
    let ghost views = v@.map_values(|s: String| s@);
    let mut out = String::new();
    let mut i: usize = 0;
    while i < v.len()
        invariant
            i <= v.len(),
            views == v@.map_values(|s: String| s@),
            out@ == join(views.subrange(0, i as int), sep@),
        decreases v.len() - i,
    {
        assert(views.subrange(0, i + 1).drop_last() =~= views.subrange(0, i as int));
        if i > 0 {
            append_str(&mut out, sep);
        }
        append_str(&mut out, v[i].as_str());
        proof {
            if i == 0 {
                assert(out@ =~= views[0]);
            }
        }
        i = i + 1;
    }
    assert(views.subrange(0, i as int) =~= views);
    out
}

fn email_list(text: &str) -> (r: Vec<String>)
    ensures
        r@.map_values(|s: String| s@) == emails_in(text@),
{
    match regex_matches(EMAIL_PATTERN, text) {
        Some(v) => v,
        None => {
            let v: Vec<String> = Vec::new();
            assert(v@.map_values(|s: String| s@) =~= Seq::<Seq<char>>::empty());
            v
        },
    }
}

/// The e-mail addresses of a company's main page and contact page, each once
/// in the order found, separated by a comma and a space.
pub fn emails_of_pages(main_page_html: &str, contact_page_html: &str) -> (r: String)
    ensures
        r@ == join(dedup(emails_in(main_page_html@) + emails_in(contact_page_html@)), EMAIL_SEPARATOR@),
{
    let mut all = email_list(main_page_html);
    let mut more = email_list(contact_page_html);
    let ghost a = all@;
    let ghost b = more@;
    all.append(&mut more);
    assert(all@.map_values(|s: String| s@) =~= a.map_values(|s: String| s@) + b.map_values(
        |s: String| s@,
    ));
    let unique = dedup_strings(&all);
    join_strings(&unique, EMAIL_SEPARATOR)
}

/// Holds the markup that the extraction functions read.
pub struct Extractor {
    pub html: String,
}

impl Extractor {
    pub fn new(html: String) -> (r: Self)
        ensures
            r.html@ == html@,
    {
        Self { html }
    }

    pub fn set_html(&mut self, html: String)
        ensures
            final(self).html@ == html@,
    {
        self.html = html;
    }

    /// The companies on a member-directory listing page.
    pub fn get_company_info(&self) -> (r: Vec<CompanyInfo>)
        ensures
            r@.map_values(|c: CompanyInfo| info_view(c)) == company_infos(
                fragments_of(self.html@, PROFILE_SELECTOR@),
            ),
    {
        let cards = fragments(self.html.as_str(), PROFILE_SELECTOR);
        let ghost views = cards@.map_values(|s: String| s@);
        let mut out: Vec<CompanyInfo> = Vec::new();
        let mut i: usize = 0;
        while i < cards.len()
            invariant
                i <= cards.len(),
                views == cards@.map_values(|s: String| s@),
                out@.map_values(|c: CompanyInfo| info_view(c)) == company_infos(
                    views.subrange(0, i as int),
                ),
            decreases cards.len() - i,
        {
            assert(views.subrange(0, i + 1).drop_last() =~= views.subrange(0, i as int));
            let card = cards[i].as_str();
            let more = fragments(card, MORE_INFO_SELECTOR);
            if more.len() > 0 {
                let company = first_inner_html(card, COMPANY_NAME_SELECTOR);
                let link = first_attr(card, MORE_INFO_SELECTOR, HREF);
                let ghost before = out@;
                out.push(CompanyInfo { company, link });
                assert(out@.map_values(|c: CompanyInfo| info_view(c)) =~= before.map_values(
                    |c: CompanyInfo| info_view(c),
                ).push(info_view(out@.last())));
            }
            i = i + 1;
        }
        assert(views.subrange(0, i as int) =~= views);
        out
    }

    /// The phone and website on a member-directory detail page.
    pub fn get_company_details(&self) -> (r: CompanyContactDetails)
        ensures
            r.phone@ == first_inner_html_of(self.html@, PHONE_SELECTOR@),
            r.website@ == first_attr_of(self.html@, WEBSITE_SELECTOR@, HREF@),
    {
        let phone = first_inner_html(self.html.as_str(), PHONE_SELECTOR);
        let website = first_attr(self.html.as_str(), WEBSITE_SELECTOR, HREF);
        CompanyContactDetails { phone, website }
    }

    /// The target of the first link that mentions a contact page, when it is
    /// not empty.
    pub fn find_contact_us_link(&self) -> (r: Option<String>)
        ensures
            match r {
                Some(l) => l@ == first_attr_of(self.html@, CONTACT_LINK_SELECTOR@, HREF@) && l@.len()
                    > 0,
                None => first_attr_of(self.html@, CONTACT_LINK_SELECTOR@, HREF@).len() == 0,
            },
    {
        let link = first_attr(self.html.as_str(), CONTACT_LINK_SELECTOR, HREF);
        if link.as_str().is_empty() {
            None
        } else {
            Some(link)
        }
    }

    /// The e-mail addresses in the markup, each once in the order found,
    /// separated by a comma and a space.
    pub fn find_emails_by_regex(&self) -> (r: String)
        ensures
            r@ == join(dedup(emails_in(self.html@)), EMAIL_SEPARATOR@),
    {
        let all = email_list(self.html.as_str());
        let unique = dedup_strings(&all);
        join_strings(&unique, EMAIL_SEPARATOR)
    }

    /// The companies on a listing page of the second directory.
    pub fn get_company_info_houzz(&self) -> (r: Vec<CompanyInfo>)
        ensures
            r@.map_values(|c: CompanyInfo| info_view(c)) == houzz_infos(
                fragments_of(self.html@, HOUZZ_RESULTS_SELECTOR@),
            ),
    {
        let blocks = fragments(self.html.as_str(), HOUZZ_RESULTS_SELECTOR);
        let ghost views = blocks@.map_values(|s: String| s@);
        let mut out: Vec<CompanyInfo> = Vec::new();
        let mut i: usize = 0;
        while i < blocks.len()
            invariant
                i <= blocks.len(),
                views == blocks@.map_values(|s: String| s@),
                out@.map_values(|c: CompanyInfo| info_view(c)) == houzz_infos(
                    views.subrange(0, i as int),
                ),
            decreases blocks.len() - i,
        {
            assert(views.subrange(0, i + 1).drop_last() =~= views.subrange(0, i as int));
            let links = fragments(blocks[i].as_str(), HOUZZ_LINK_SELECTOR);
            let mut found = link_infos(&links);
            let ghost before = out@;
            let ghost added = found@;
            out.append(&mut found);
            assert(out@.map_values(|c: CompanyInfo| info_view(c)) =~= before.map_values(
                |c: CompanyInfo| info_view(c),
            ) + added.map_values(|c: CompanyInfo| info_view(c)));
            i = i + 1;
        }
        assert(views.subrange(0, i as int) =~= views);
        out
    }

    /// The phone and website on a detail page of the second directory.
    pub fn get_company_details_houzz(&self) -> (r: CompanyContactDetails)
        ensures
            r.phone@ == first_inner_html_of(self.html@, HOUZZ_PHONE_SELECTOR@),
            r.website@ == first_inner_html_of(self.html@, HOUZZ_WEBSITE_SELECTOR@),
    {
        let phone = first_inner_html(self.html.as_str(), HOUZZ_PHONE_SELECTOR);
        let website = first_inner_html(self.html.as_str(), HOUZZ_WEBSITE_SELECTOR);
        CompanyContactDetails { phone, website }
    }
}

fn link_infos(links: &Vec<String>) -> (r: Vec<CompanyInfo>)
    ensures
        r@.map_values(|c: CompanyInfo| info_view(c)) == houzz_link_infos(
            links@.map_values(|s: String| s@),
        ),
{
    let ghost views = links@.map_values(|s: String| s@);
    let mut out: Vec<CompanyInfo> = Vec::new();
    let mut i: usize = 0;
    while i < links.len()
        invariant
            i <= links.len(),
            views == links@.map_values(|s: String| s@),
            out@.map_values(|c: CompanyInfo| info_view(c)) == houzz_link_infos(
                views.subrange(0, i as int),
            ),
        decreases links.len() - i,
    {
        assert(views.subrange(0, i + 1).drop_last() =~= views.subrange(0, i as int));
        let l = links[i].as_str();
        let names = fragments(l, HOUZZ_NAME_SELECTOR);
        if names.len() > 0 {
            let company = first_inner_html(l, HOUZZ_NAME_SELECTOR);
            let link = first_attr(l, ANCHOR_SELECTOR, HREF);
            let ghost before = out@;
            out.push(CompanyInfo { company, link });
            assert(out@.map_values(|c: CompanyInfo| info_view(c)) =~= before.map_values(
                |c: CompanyInfo| info_view(c),
            ).push(info_view(out@.last())));
        }
        i = i + 1;
    }
    assert(views.subrange(0, i as int) =~= views);
    out
}

impl CompanyContactDetails {
    /// The enriched record these details make for detail page
    /// `records_html_id`: no e-mail yet and an empty contact link.
    pub fn into_record_data(self, records_html_id: i32) -> (r: RecordsData)
        ensures
            r.id == 0,
            r.records_html_id == records_html_id,
            r.email@.len() == 0,
            r.phone@ == self.phone@,
            r.website@ == self.website@,
            r.contact_us_link matches Some(l) && l@.len() == 0,
    {
        RecordsData {
            id: 0,
            records_html_id,
            email: String::new(),
            phone: self.phone,
            website: self.website,
            contact_us_link: Some(String::new()),
        }
    }
}

} // verus!
