use listing_harvester::enrich::select_new_records;
use listing_harvester::records::RecordsData;
use listing_harvester::stages::{
    decimal_string, link_work_items, lower_watermark, marks_end_of_listing, page_urls,
    past_watermark, NO_WATERMARK,
};
use listing_harvester::records::LinksToRecordDetails;
use listing_harvester::urls::{normalize_website, parse_url, resolve_contact_link};
use listing_harvester::config::{pick_delay_ms, session_port, DelayRange};
use listing_harvester::extractor::emails_of_pages;

fn record(phone: &str, website: &str) -> RecordsData {
    RecordsData {
        id: 0,
        records_html_id: 1,
        email: String::new(),
        phone: phone.to_string(),
        website: website.to_string(),
        contact_us_link: Some(String::new()),
    }
}

#[test]
fn known_website_inserts_nothing() {
    let existing = vec![record("", "example.com")];
    let out = select_new_records(&existing, vec![record("", "example.com")]);
    assert_eq!(out.len(), 0);
}

#[test]
fn known_phone_inserts_nothing_and_duplicates_in_one_run_collapse() {
    let existing = vec![record("111", "")];
    let cands = vec![
        record("111", "a.com"),
        record("", "b.com"),
        record("222", "b.com"),
        record("", ""),
        record("", ""),
    ];
    let out = select_new_records(&existing, cands);
    assert_eq!(out.len(), 3);
    assert_eq!(out[0].website, "b.com");
    assert_eq!(out[1].website, "");
    assert_eq!(out[2].website, "");
}

#[test]
fn websites_get_a_scheme() {
    assert_eq!(normalize_website(""), None);
    assert_eq!(normalize_website("www.a.com"), Some("https://www.a.com".to_string()));
    assert_eq!(normalize_website("http://a.com"), Some("http://a.com".to_string()));
}

#[test]
fn parse_url_gives_the_last_two_labels() {
    assert_eq!(
        parse_url("https://www.mdrlandscapes.com/contact"),
        Some(("mdrlandscapes".to_string(), "com".to_string()))
    );
    assert_eq!(parse_url("http://a.b.c.org"), Some(("c".to_string(), "org".to_string())));
    assert_eq!(parse_url("example.ca/x.y"), Some(("example".to_string(), "ca".to_string())));
    assert_eq!(parse_url("https://localhost/a.b"), None);
    assert_eq!(parse_url(""), None);
}

#[test]
fn contact_links_become_absolute() {
    assert_eq!(
        resolve_contact_link("https://www.site.com/", "https://www.site.com/contact"),
        Some("https://www.site.com/contact".to_string())
    );
    assert_eq!(
        resolve_contact_link("https://www.site.com/", "/contact-us"),
        Some("https://site.com/contact-us".to_string())
    );
    assert_eq!(
        resolve_contact_link("https://www.site.com/", "contact/us/"),
        Some("https://site.com/contactus".to_string())
    );
    assert_eq!(resolve_contact_link("https://nohost/", "/contact"), None);
    assert_eq!(resolve_contact_link("https://www.site.com/", ""), None);
}

#[test]
fn emails_of_both_pages_are_merged_once() {
    let merged = emails_of_pages("x a@b.com y c@d.org", "c@d.org e@f.net");
    assert_eq!(merged, "a@b.com, c@d.org, e@f.net");
}

#[test]
fn page_urls_carry_the_result_offset() {
    let urls = page_urls("https://dir.test/list", 334, 336);
    assert_eq!(urls.len(), 2);
    assert_eq!(urls[0].url, "https://dir.test/list?fi=5010");
    assert_eq!(urls[0].page, 334);
    assert_eq!(urls[1].url, "https://dir.test/list?fi=5025");
    assert_eq!(page_urls("x", 5, 5).len(), 0);
    assert_eq!(decimal_string(0), "0");
    assert_eq!(decimal_string(1234567890), "1234567890");
}

#[test]
fn watermark_only_goes_down() {
    let w = lower_watermark(NO_WATERMARK, 40);
    assert_eq!(w, 40);
    assert_eq!(lower_watermark(w, 50), 40);
    assert_eq!(lower_watermark(w, 12), 12);
    assert!(past_watermark(40, 40));
    assert!(!past_watermark(39, 40));
    assert!(marks_end_of_listing("<div class=\"hz-browse-suggestions__tip\">"));
    assert!(!marks_end_of_listing("<div class=\"pro-results\">"));
}

#[test]
fn link_rows_become_work_items() {
    let links = vec![LinksToRecordDetails {
        id: 9,
        pages_with_all_records_id: 2,
        company: "C".to_string(),
        link: "https://d.test/c".to_string(),
        visited: 0,
    }];
    let items = link_work_items(&links);
    assert_eq!(items.len(), 1);
    assert_eq!(items[0].url, "https://d.test/c");
    assert_eq!(items[0].link_to_record_details_id, 9);
}

#[test]
fn ports_and_delays() {
    assert_eq!(session_port(0), Some(4444));
    assert_eq!(session_port(11), Some(4455));
    assert_eq!(session_port(70000), None);
    assert_eq!(pick_delay_ms(DelayRange { min_ms: 0, max_ms: 0 }), 0);
    for _ in 0..20 {
        let d = pick_delay_ms(DelayRange { min_ms: 1000, max_ms: 2000 });
        assert!((1000..=2000).contains(&d));
    }
}
