use vstd::prelude::*;

verus! {

/// A listing page as fetched from the directory.
#[derive(Clone, Debug)]
pub struct PagesWithAllRecords {
    pub id: i32,
    pub page: Option<String>,
    pub district: Option<String>,
    pub query: Option<String>,
    pub html: Option<String>,
    pub processed: Option<i32>,
}

/// A link to a listing's detail page, found on a listing page.
#[derive(Clone, Debug)]
pub struct LinksToRecordDetails {
    pub id: i32,
    pub pages_with_all_records_id: i32,
    pub company: String,
    pub link: String,
    pub visited: i32,
}

/// The markup of a listing's detail page.
#[derive(Clone, Debug)]
pub struct RecordsHtml {
    pub id: i32,
    pub link_to_record_details_id: i32,
    pub html: String,
    pub processed: i32,
}

/// The contact data of one listing: the enriched record.
#[derive(Clone, Debug)]
pub struct RecordsData {
    pub id: i32,
    pub records_html_id: i32,
    pub email: String,
    pub phone: String,
    pub website: String,
    pub contact_us_link: Option<String>,
}

/// A company website's main page and contact page.
#[derive(Clone, Debug)]
pub struct WebsitesHtml {
    pub id: i32,
    pub records_data_id: i32,
    pub website: String,
    pub main_page_html: String,
    pub contact_page_html: String,
}

/// A website row without its main page.
#[derive(Clone, Debug)]
pub struct PartialWebsitesHtml {
    pub id: i32,
    pub records_data_id: i32,
    pub website: String,
    pub contact_page_html: Option<String>,
}

/// A quarantine entry: a target that is never fetched again.
#[derive(Clone, Debug)]
pub struct InvalidWebsites {
    pub website: String,
}

/// Work item of the page-harvesting stage.
#[derive(Clone, Debug)]
pub struct UrlData {
    pub url: String,
    pub page: i32,
}

/// Work item of the detail-page stage.
#[derive(Clone, Debug)]
pub struct UrlDataLinks {
    pub url: String,
    pub link_to_record_details_id: i32,
}

/// Work item of the website stage.
#[derive(Clone, Debug)]
pub struct UrlDataRecord {
    pub url: String,
    pub record_id: i32,
}

/// Work item of the contact-page stage.
#[derive(Clone, Debug)]
pub struct WebsitesHtmlData {
    pub website: String,
    pub website_html_id: i32,
    pub record_id: i32,
}

} // verus!
