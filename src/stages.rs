use vstd::prelude::*;
use crate::extractor::CompanyInfo;
use crate::records::{
    LinksToRecordDetails, RecordsData, UrlData, UrlDataLinks, UrlDataRecord, WebsitesHtml,
    WebsitesHtmlData,
};
use crate::text::{append_str, contains_text, push_char, seq_contains};

verus! {

/// Markup that a listing page shows once the results have run out.
pub const END_OF_LISTING_MARKER: &'static str = "hz-browse-suggestions__tip";

/// The query parameter that selects a listing page's first result.
pub const OFFSET_PARAM: &'static str = "?fi=";

/// Results on one listing page.
pub const RESULTS_PER_PAGE: u64 = 15;

/// The watermark before any page has reported the end of the listing.
pub const NO_WATERMARK: u64 = 0xffff_ffff_ffff_ffff;

/// Whether fetched listing markup says that the results have run out.
pub fn marks_end_of_listing(markup: &str) -> (r: bool)
    ensures
        r == seq_contains(markup@, END_OF_LISTING_MARKER@),
{
    contains_text(markup, END_OF_LISTING_MARKER)
}

/// The watermark after page `page` reported the end of the listing: it only
/// goes down.
pub fn lower_watermark(current: u64, page: u64) -> (r: u64)
    ensures
        r == if page < current { page } else { current },
        r <= current,
{
    if page < current {
        page
    } else {
        current
    }
}

/// Whether a page lies at or past the watermark, so its task need not start.
pub fn past_watermark(page: u64, watermark: u64) -> (r: bool)
    ensures
        r == (page >= watermark),
{
    page >= watermark
}

pub open spec fn digit_char(d: nat) -> char {
    if d == 0 { '0' }
    else if d == 1 { '1' }
    else if d == 2 { '2' }
    else if d == 3 { '3' }
    else if d == 4 { '4' }
    else if d == 5 { '5' }
    else if d == 6 { '6' }
    else if d == 7 { '7' }
    else if d == 8 { '8' }
    else { '9' }
}

/// The decimal digits of `n`, most significant first.
pub open spec fn decimal(n: nat) -> Seq<char>
    decreases n,
{
    if n < 10 {
        seq![digit_char(n)]
    } else {
        decimal(n / 10).push(digit_char(n % 10))
    }
}

fn digit(d: u64) -> (c: char)
    requires
        d < 10,
    ensures
        c == digit_char(d as nat),
{
    if d == 0 { '0' }
    else if d == 1 { '1' }
    else if d == 2 { '2' }
    else if d == 3 { '3' }
    else if d == 4 { '4' }
    else if d == 5 { '5' }
    else if d == 6 { '6' }
    else if d == 7 { '7' }
    else if d == 8 { '8' }
    else { '9' }
}

/// `n` in decimal.
pub fn decimal_string(n: u64) -> (r: String)
    ensures
        r@ == decimal(n as nat),
    decreases n,
{
    if n < 10 {
        let mut s = String::new();
        push_char(&mut s, digit(n));
        s
    } else {
        let mut s = decimal_string(n / 10);
        push_char(&mut s, digit(n % 10));
        s
    }
}

/// The address of listing page `page` of a category.
pub open spec fn page_url(link: Seq<char>, page: nat) -> Seq<char> {
    link + OFFSET_PARAM@ + decimal((page * RESULTS_PER_PAGE) as nat)
}

/// The work items of the page-harvesting stage: pages `first` up to, not
/// including, `last` of the category at `link`.
pub fn page_urls(link: &str, first: u32, last: u32) -> (r: Vec<UrlData>)
    requires
        last <= i32::MAX,
    ensures
        r@.len() == if first < last { last - first } else { 0 },
        forall|k: int|
            0 <= k < r@.len() ==> (#[trigger] r@[k]).page == first + k && r@[k].url@ == page_url(
                link@,
                (first + k) as nat,
            ),
{
    let mut out: Vec<UrlData> = Vec::new();
    let mut page = first;
    while page < last
        invariant
            first <= last ==> first <= page <= last,
            first > last ==> page == first,
            last <= i32::MAX,
            out@.len() == page - first,
            forall|k: int|
                0 <= k < out@.len() ==> (#[trigger] out@[k]).page == first + k && out@[k].url@
                    == page_url(link@, (first + k) as nat),
        decreases last - page,
    {
        let mut url = String::new();
        append_str(&mut url, link);
        append_str(&mut url, OFFSET_PARAM);
        let offset = decimal_string(page as u64 * RESULTS_PER_PAGE);
        append_str(&mut url, offset.as_str());
        out.push(UrlData { url, page: page as i32 });
        page = page + 1;
    }
    out
}

/// The work items of the detail-page stage, one for each unvisited link.
pub fn link_work_items(links: &Vec<LinksToRecordDetails>) -> (r: Vec<UrlDataLinks>)
    ensures
        r@.len() == links@.len(),
        forall|k: int|
            0 <= k < r@.len() ==> (#[trigger] r@[k]).url@ == links@[k].link@
                && r@[k].link_to_record_details_id == links@[k].id,
{
    let mut out: Vec<UrlDataLinks> = Vec::new();
    let mut i: usize = 0;
    while i < links.len()
        invariant
            i <= links.len(),
            out@.len() == i,
            forall|k: int|
                0 <= k < i ==> (#[trigger] out@[k]).url@ == links@[k].link@
                    && out@[k].link_to_record_details_id == links@[k].id,
        decreases links.len() - i,
    {
        out.push(UrlDataLinks { url: links[i].link.clone(), link_to_record_details_id: links[i].id });
        i = i + 1;
    }
    out
}

/// The work items of the website stage, one for each enriched record.
pub fn website_work_items(records: &Vec<RecordsData>) -> (r: Vec<UrlDataRecord>)
    ensures
        r@.len() == records@.len(),
        forall|k: int|
            0 <= k < r@.len() ==> (#[trigger] r@[k]).url@ == records@[k].website@
                && r@[k].record_id == records@[k].id,
{
    let mut out: Vec<UrlDataRecord> = Vec::new();
    let mut i: usize = 0;
    while i < records.len()
        invariant
            i <= records.len(),
            out@.len() == i,
            forall|k: int|
                0 <= k < i ==> (#[trigger] out@[k]).url@ == records@[k].website@
                    && out@[k].record_id == records@[k].id,
        decreases records.len() - i,
    {
        out.push(UrlDataRecord { url: records[i].website.clone(), record_id: records[i].id });
        i = i + 1;
    }
    out
}

/// The work items of the contact-page stage, one for each website row.
pub fn contact_work_items(sites: &Vec<WebsitesHtml>) -> (r: Vec<WebsitesHtmlData>)
    ensures
        r@.len() == sites@.len(),
        forall|k: int|
            0 <= k < r@.len() ==> (#[trigger] r@[k]).website@ == sites@[k].website@
                && r@[k].website_html_id == sites@[k].id && r@[k].record_id
                == sites@[k].records_data_id,
{
    let mut out: Vec<WebsitesHtmlData> = Vec::new();
    let mut i: usize = 0;
    while i < sites.len()
        invariant
            i <= sites.len(),
            out@.len() == i,
            forall|k: int|
                0 <= k < i ==> (#[trigger] out@[k]).website@ == sites@[k].website@
                    && out@[k].website_html_id == sites@[k].id && out@[k].record_id
                    == sites@[k].records_data_id,
        decreases sites.len() - i,
    {
        out.push(
            WebsitesHtmlData {
                website: sites[i].website.clone(),
                website_html_id: sites[i].id,
                record_id: sites[i].records_data_id,
            },
        );
        i = i + 1;
    }
    out
}

/// The link records that the companies of listing page `page_id` make, not
/// yet visited.
pub fn links_from_companies(page_id: i32, infos: Vec<CompanyInfo>) -> (r: Vec<LinksToRecordDetails>)
    ensures
        r@.len() == infos@.len(),
        forall|k: int|
            0 <= k < r@.len() ==> (#[trigger] r@[k]).company@ == infos@[k].company@ && r@[k].link@
                == infos@[k].link@ && r@[k].pages_with_all_records_id == page_id && r@[k].visited
                == 0 && r@[k].id == 0,
{
    let mut out: Vec<LinksToRecordDetails> = Vec::new();
    let mut i: usize = 0;
    while i < infos.len()
        invariant
            i <= infos.len(),
            out@.len() == i,
            forall|k: int|
                0 <= k < i ==> (#[trigger] out@[k]).company@ == infos@[k].company@ && out@[k].link@
                    == infos@[k].link@ && out@[k].pages_with_all_records_id == page_id
                    && out@[k].visited == 0 && out@[k].id == 0,
        decreases infos.len() - i,
    {
        out.push(
            LinksToRecordDetails {
                id: 0,
                pages_with_all_records_id: page_id,
                company: infos[i].company.clone(),
                link: infos[i].link.clone(),
                visited: 0,
            },
        );
        i = i + 1;
    }
    out
}

} // verus!
