use polymind::config::RssFeedCfg;
use polymind::finjuice::{parse_fj_parts, parse_fj_time, parse_headlines, HeadlineItem, InvalidBaseUrl};
use polymind::ingest::FetchError;
use polymind::messages::RawNews;
use polymind::rss::{entries_to_news, flatten_feed_results, news_from_feed_body, FeedEntry};

fn feed() -> RssFeedCfg {
    RssFeedCfg { id: "f1".to_string(), url: "http://feed.example/rss".to_string(), lang: "en".to_string() }
}

const FEED_XML: &str = r#"<?xml version="1.0"?>
<rss version="2.0"><channel>
<title>Example</title><link>http://feed.example</link><description>News</description>
<item>
  <title>Hello</title>
  <link>http://feed.example/a</link>
  <description>World</description>
  <pubDate>Wed, 02 Oct 2002 13:00:00 GMT</pubDate>
</item>
<item>
  <title>Second</title>
</item>
</channel></rss>"#;

#[test]
fn a_feed_document_becomes_tagged_news() {
    let body = FEED_XML.as_bytes().to_vec();
    let news = news_from_feed_body(&feed(), &body).expect("a well-formed feed parses");
    assert_eq!(news.len(), 2);
    assert_eq!(news[0].title, "Hello");
    assert_eq!(news[0].url, "http://feed.example/a");
    assert_eq!(news[0].description, "World");
    assert_eq!(news[0].feed, "f1");
    assert_eq!(news[0].published, Some(1_033_563_600_000));
    assert!(news[0].labels.is_empty());
    assert_eq!(news[1].title, "Second");
    assert_eq!(news[1].url, "");
    assert_eq!(news[1].description, "");
    assert_eq!(news[1].published, None);
}

#[test]
fn bytes_that_are_no_feed_are_a_decode_failure() {
    let body = b"this is not a feed".to_vec();
    assert_eq!(news_from_feed_body(&feed(), &body), Err(FetchError::Decode));
}

#[test]
fn an_unreadable_date_leaves_the_item_undated() {
    let entries = vec![FeedEntry {
        title: Some("T".to_string()),
        link: None,
        description: None,
        pub_date: Some("yesterdayish".to_string()),
    }];
    let id = "f1".to_string();
    let news = entries_to_news(&id, &entries);
    assert_eq!(news.len(), 1);
    assert_eq!(news[0].published, None);
}

#[test]
fn one_failing_feed_does_not_abort_the_others() {
    let ok1 = news_from_feed_body(&feed(), &FEED_XML.as_bytes().to_vec()).unwrap();
    let results: Vec<Result<Vec<RawNews>, FetchError>> =
        vec![Ok(ok1), Err(FetchError::Network), Ok(Vec::new())];
    let (news, failed) = flatten_feed_results(&results);
    assert_eq!(news.len(), 2);
    assert_eq!(failed, 1);
}

#[test]
fn headline_time_text_parses_into_its_parts() {
    assert_eq!(parse_fj_parts("09:30 Sep 12"), Some((9, 30, 9, 12)));
    assert_eq!(parse_fj_parts("23:59 Dec 31"), Some((23, 59, 12, 31)));
    assert_eq!(parse_fj_parts("09:30 Nowhere 12"), None);
    assert_eq!(parse_fj_parts("09:30 Sep"), None);
    assert_eq!(parse_fj_parts("junk"), None);
    assert_eq!(parse_fj_parts("25:00 Sep 12"), None);
}

#[test]
fn unparseable_time_text_yields_no_instant() {
    assert_eq!(parse_fj_time("not a time"), None);
    assert_eq!(parse_fj_time(""), None);
}

fn item(
    id: Option<&str>,
    title: Option<&str>,
    link: Option<&str>,
    labels: &[&str],
    time: Option<&str>,
) -> HeadlineItem {
    HeadlineItem {
        headline_id: id.map(|s| s.to_string()),
        title: title.map(|s| s.to_string()),
        link: link.map(|s| s.to_string()),
        labels: labels.iter().map(|s| s.to_string()).collect(),
        time_text: time.map(|s| s.to_string()),
    }
}

#[test]
fn headline_parsing_filters_and_normalizes() {
    let base = "http://headlines.example/".to_string();
    let items = vec![
        item(Some("0"), Some("Sponsored"), None, &[], None),
        item(None, Some("No id"), None, &[], None),
        item(Some("11"), None, None, &[], None),
        item(Some("12"), Some("   \t"), None, &[], None),
        item(
            Some("13"),
            Some("  Rates decision \n"),
            Some("http://headlines.example/item/13"),
            &["  Fed  ", "   ", "Rates"],
            Some(" 09:30 Sep 12 "),
        ),
        item(Some("14"), Some("Short one"), None, &[], Some("nonsense")),
    ];
    let news = parse_headlines(&items, &base).expect("the base address parses");
    assert_eq!(news.len(), 2);

    assert_eq!(news[0].title, "Rates decision");
    assert_eq!(news[0].url, "http://headlines.example/item/13");
    assert_eq!(news[0].feed, "FinancialJuice");
    assert_eq!(news[0].description, "");
    assert_eq!(news[0].labels, vec!["Fed".to_string(), "Rates".to_string()]);
    assert!(news[0].published.is_some());

    assert_eq!(news[1].title, "Short one");
    assert_eq!(news[1].url, base);
    assert!(news[1].labels.is_empty());
    assert_eq!(news[1].published, None);
}

#[test]
fn an_invalid_base_address_rejects_the_page() {
    let items = vec![item(Some("9"), Some("Kept otherwise"), None, &[], None)];
    let base = "not an absolute address".to_string();
    assert_eq!(parse_headlines(&items, &base), Err(InvalidBaseUrl));
}

#[test]
fn linkless_headlines_fall_back_to_the_normalised_base_address() {
    let items = vec![item(Some("9"), Some("Kept"), None, &[], None)];
    let base = "http://headlines.example".to_string();
    let news = parse_headlines(&items, &base).expect("the base address parses");
    assert_eq!(news[0].url, "http://headlines.example/");
}
