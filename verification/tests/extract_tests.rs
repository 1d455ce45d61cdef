use dilbert_feed::error::Field;
use dilbert_feed::{Comic, Date, Dilbert, FeedError};

fn fixture(id: &str, title: &str, image: &str) -> String {
    format!(
        "<html><head><title>strip</title></head><body>\
         <div class=\"img-comic-container\"><p>decoy</p></div>\
         <div class=\"comic-item-container\" data-id=\"{}\" data-title=\"{}\" data-image=\"{}\">\
         <img src=\"{}\"></div>\
         </body></html>",
        id, title, image, image
    )
}

#[test]
fn test_scrape_comic() {
    let cases = vec![
        (
            (2000, 1, 1),
            "Dilbert Comic for 2000-01-01",
            "https://assets.amuniversal.com/bdc8a4d06d6401301d80001dd8b71c47",
        ),
        (
            (2018, 10, 30),
            "Intentionally Underbidding",
            "https://assets.amuniversal.com/cda546d0a88c01365b26005056a9545d",
        ),
        (
            (2019, 11, 2),
            "Multiple Choice",
            "https://assets.amuniversal.com/ce7ec130d6480137c832005056a9545d",
        ),
        (
            (2020, 11, 11),
            "Elbonian Words",
            "https://assets.amuniversal.com/f25312c0fb5b01382ef9005056a9545d",
        ),
    ];
    let client = Dilbert::new("https://dilbert.com");
    for ((y, m, d), title, image) in cases {
        let date = Date::new(y, m, d).unwrap();
        let html = fixture(&date.iso(), title, image);
        let comic = client.extract(&html, &date).unwrap();
        assert_eq!(
            comic,
            Comic {
                date,
                title: title.to_string(),
                image_url: image.to_string(),
                strip_url: format!("https://dilbert.com/strip/{}", date.iso()),
            }
        );
    }
}

#[test]
fn test_extract_trims_and_collapses_whitespace() {
    let date = Date::new(2021, 10, 10).unwrap();
    let html = fixture(
        "2021-10-10",
        "  Sunday   Data\t Looks \n Two  Ways ",
        "  https://assets.amuniversal.com/4b9300d0f2400139769e005056a9545d  ",
    );
    let comic = Dilbert::new("https://dilbert.com").extract(&html, &date).unwrap();
    assert_eq!(comic.title, "Sunday Data Looks Two Ways");
    assert_eq!(
        comic.image_url,
        "https://assets.amuniversal.com/4b9300d0f2400139769e005056a9545d"
    );
}

#[test]
fn test_extract_date_mismatch() {
    let date = Date::new(2018, 10, 30).unwrap();
    let html = fixture("2018-10-29", "Intentionally Underbidding", "https://example.com/a.gif");
    let got = Dilbert::new("https://dilbert.com").extract(&html, &date);
    assert_eq!(got, Err(FeedError::DateMismatch));
}

#[test]
fn test_extract_missing_id_is_mismatch() {
    let date = Date::new(2018, 10, 30).unwrap();
    let html = "<html><body><div class=\"comic-item-container\" \
                data-title=\"T\" data-image=\"https://example.com/a.gif\"></div></body></html>";
    let got = Dilbert::new("https://dilbert.com").extract(html, &date);
    assert_eq!(got, Err(FeedError::DateMismatch));
}

#[test]
fn test_extract_container_absent() {
    let date = Date::new(2018, 10, 30).unwrap();
    let html = "<html><body><div class=\"some-other-container\" data-id=\"2018-10-30\"></div>\
                </body></html>";
    let got = Dilbert::new("https://dilbert.com").extract(html, &date);
    assert_eq!(got, Err(FeedError::NotFound));
}

#[test]
fn test_extract_missing_title() {
    let date = Date::new(2018, 10, 30).unwrap();
    let html = "<html><body><div class=\"comic-item-container\" data-id=\"2018-10-30\" \
                data-image=\"https://example.com/a.gif\"></div></body></html>";
    let got = Dilbert::new("https://dilbert.com").extract(html, &date);
    assert_eq!(got, Err(FeedError::MissingField(Field::Title)));
}

#[test]
fn test_extract_missing_image() {
    let date = Date::new(2018, 10, 30).unwrap();
    let html = "<html><body><div class=\"comic-item-container\" data-id=\"2018-10-30\" \
                data-title=\"T\"></div></body></html>";
    let got = Dilbert::new("https://dilbert.com").extract(html, &date);
    assert_eq!(got, Err(FeedError::MissingField(Field::Image)));
}

#[test]
fn test_strip_url_against_other_base() {
    let date = Date::new(2000, 1, 1).unwrap();
    let client = Dilbert::new("http://127.0.0.1:8080");
    assert_eq!(client.strip_url(&date), "http://127.0.0.1:8080/strip/2000-01-01");
    let html = fixture("2000-01-01", "T", "https://example.com/a.gif");
    let comic = client.extract(&html, &date).unwrap();
    assert_eq!(comic.strip_url, "http://127.0.0.1:8080/strip/2000-01-01");
}

#[test]
fn test_comic_from_response_checks_status_first() {
    let date = Date::new(2018, 10, 30).unwrap();
    let html = fixture("2018-10-30", "Intentionally Underbidding", "https://example.com/a.gif");
    let client = Dilbert::new("https://dilbert.com");
    assert_eq!(client.comic_from_response(404, &html, &date), Err(FeedError::HttpStatus(404)));
    assert_eq!(client.comic_from_response(500, &html, &date), Err(FeedError::HttpStatus(500)));
    let comic = client.comic_from_response(200, &html, &date).unwrap();
    assert_eq!(comic.title, "Intentionally Underbidding");
}

#[test]
fn test_default_base_url() {
    let client = Dilbert::default();
    assert_eq!(client.base_url, "https://dilbert.com");
}
