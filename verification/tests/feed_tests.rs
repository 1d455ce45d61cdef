use dilbert_feed::feed::{resolve_title, DEFAULT_FEED_LENGTH};
use dilbert_feed::{Date, Feed, FeedError, TitleLookup};

fn test_feed() -> Feed {
    Feed::new(
        "dilbert-feed-test".to_string(),
        "strips".to_string(),
        Date::new(2018, 10, 1).unwrap(),
        3,
    )
    .unwrap()
}

fn missing(n: usize) -> Vec<TitleLookup> {
    let mut v = Vec::new();
    for _ in 0..n {
        v.push(TitleLookup::Missing);
    }
    v
}

#[test]
fn test_resolve_title_found() {
    let date = Date::new(2018, 10, 1).unwrap();
    let got = resolve_title(&TitleLookup::Found("Intentionally Underbidding".to_string()), &date);
    assert_eq!(got, Ok("Intentionally Underbidding".to_string()));
}

#[test]
fn test_resolve_title_missing_synthesizes() {
    let date = Date::new(2018, 10, 1).unwrap();
    let got = resolve_title(&TitleLookup::Missing, &date);
    assert_eq!(got, Ok("Dilbert - 2018-10-01".to_string()));
}

#[test]
fn test_resolve_title_transport_failure() {
    let date = Date::new(2018, 10, 1).unwrap();
    let got = resolve_title(&TitleLookup::Failed, &date);
    assert_eq!(got, Err(FeedError::Storage));
}

#[test]
fn test_feed_dates_descending() {
    let feed = test_feed();
    let dates = feed.dates();
    assert_eq!(
        dates,
        vec![
            Date::new(2018, 10, 1).unwrap(),
            Date::new(2018, 9, 30).unwrap(),
            Date::new(2018, 9, 29).unwrap(),
        ]
    );
}

#[test]
fn test_feed_new_rejects_window_before_calendar() {
    let got = Feed::new(
        "bucket".to_string(),
        "strips".to_string(),
        Date::new(1, 1, 2).unwrap(),
        5,
    );
    assert_eq!(got, Err(FeedError::InvalidDate));
}

#[test]
fn test_default_feed_length() {
    let feed = Feed::with_default_length(
        "bucket".to_string(),
        "strips".to_string(),
        Date::new(2018, 10, 1).unwrap(),
    )
    .unwrap();
    assert_eq!(feed.feed_length, DEFAULT_FEED_LENGTH);
    assert_eq!(feed.feed_length, 30);
}

#[test]
fn test_xml_entries_ordered_most_recent_first() {
    let feed = test_feed();
    let xml = feed.xml(&missing(3)).unwrap();

    let url1 = "https://dilbert-feed-test.s3.amazonaws.com/strips/2018-10-01.gif";
    let url2 = "https://dilbert-feed-test.s3.amazonaws.com/strips/2018-09-30.gif";
    let url3 = "https://dilbert-feed-test.s3.amazonaws.com/strips/2018-09-29.gif";
    let p1 = xml.find(url1).unwrap();
    let p2 = xml.find(url2).unwrap();
    let p3 = xml.find(url3).unwrap();
    assert!(p1 < p2 && p2 < p3);
    assert_eq!(xml.matches("<item>").count(), 3);
    assert_eq!(xml.matches(url1).count(), 3);

    assert!(xml.contains("<title>Dilbert</title>"));
    assert!(xml.contains("<link>https://dilbert.com</link>"));
    assert!(xml.contains("<description>Dilbert Daily Strip</description>"));
    assert!(xml.contains("<title>Dilbert - 2018-10-01</title>"));
    assert!(xml.contains("<pubDate>Mon, 1 Oct 2018 00:00:00 +0000</pubDate>"));
}

#[test]
fn test_xml_uses_stored_titles() {
    let feed = test_feed();
    let lookups = vec![
        TitleLookup::Found("Intentionally Underbidding".to_string()),
        TitleLookup::Missing,
        TitleLookup::Found("Multiple Choice".to_string()),
    ];
    let xml = feed.xml(&lookups).unwrap();
    assert!(xml.contains("<title>Intentionally Underbidding</title>"));
    assert!(xml.contains("<title>Dilbert - 2018-09-30</title>"));
    assert!(xml.contains("<title>Multiple Choice</title>"));
}

#[test]
fn test_xml_fails_whole_build_on_transport_failure() {
    let feed = test_feed();
    let lookups = vec![TitleLookup::Missing, TitleLookup::Failed, TitleLookup::Missing];
    assert_eq!(feed.xml(&lookups), Err(FeedError::Storage));
}

#[test]
fn test_xml_deterministic() {
    let feed = test_feed();
    let lookups = vec![
        TitleLookup::Found("Elbonian Words".to_string()),
        TitleLookup::Missing,
        TitleLookup::Missing,
    ];
    let first = feed.xml(&lookups).unwrap();
    let second = feed.xml(&lookups).unwrap();
    assert_eq!(first, second);
    let again = test_feed().xml(&lookups).unwrap();
    assert_eq!(first, again);
}

#[test]
fn test_xml_empty_window() {
    let feed = Feed::new(
        "dilbert-feed-test".to_string(),
        "strips".to_string(),
        Date::new(2018, 10, 1).unwrap(),
        0,
    )
    .unwrap();
    let xml = feed.xml(&missing(0)).unwrap();
    assert_eq!(xml.matches("<item>").count(), 0);
    assert!(xml.contains("<title>Dilbert</title>"));
}

#[test]
fn test_xml() {
    let feed = test_feed();
    let got = feed.xml(&missing(3)).unwrap();
    let want = r#"<?xml version="1.0" encoding="utf-8"?>
<rss version="2.0">
  <channel>
    <title>Dilbert</title>
    <link>https://dilbert.com</link>
    <description>Dilbert Daily Strip</description>
    <item>
      <title>Dilbert - 2018-10-01</title>
      <link>https://dilbert-feed-test.s3.amazonaws.com/strips/2018-10-01.gif</link>
      <description><![CDATA[<img src="https://dilbert-feed-test.s3.amazonaws.com/strips/2018-10-01.gif">]]></description>
      <guid>https://dilbert-feed-test.s3.amazonaws.com/strips/2018-10-01.gif</guid>
      <pubDate>Mon, 1 Oct 2018 00:00:00 +0000</pubDate>
    </item>
    <item>
      <title>Dilbert - 2018-09-30</title>
      <link>https://dilbert-feed-test.s3.amazonaws.com/strips/2018-09-30.gif</link>
      <description><![CDATA[<img src="https://dilbert-feed-test.s3.amazonaws.com/strips/2018-09-30.gif">]]></description>
      <guid>https://dilbert-feed-test.s3.amazonaws.com/strips/2018-09-30.gif</guid>
      <pubDate>Sun, 30 Sep 2018 00:00:00 +0000</pubDate>
    </item>
    <item>
      <title>Dilbert - 2018-09-29</title>
      <link>https://dilbert-feed-test.s3.amazonaws.com/strips/2018-09-29.gif</link>
      <description><![CDATA[<img src="https://dilbert-feed-test.s3.amazonaws.com/strips/2018-09-29.gif">]]></description>
      <guid>https://dilbert-feed-test.s3.amazonaws.com/strips/2018-09-29.gif</guid>
      <pubDate>Sat, 29 Sep 2018 00:00:00 +0000</pubDate>
    </item>
  </channel>
</rss>"#;
    assert_eq!(got, want);
}
