use media_downloader::errors::MediaError;
use media_downloader::xiaobao::{
    unescape_url, EasySelector, SimpleTVShowMetadata, TextFragments, XiaobaoTV,
};

#[test]
fn episode_page_url() {
    let tv = XiaobaoTV::new("xiaoxintv.com");
    assert_eq!(
        tv.tv_show_web_page_url("548", 1),
        "https://xiaoxintv.com/index.php/vod/play/id/548/sid/1/nid/1.html"
    );
    assert_eq!(
        tv.tv_show_web_page_url("548", 12),
        "https://xiaoxintv.com/index.php/vod/play/id/548/sid/1/nid/12.html"
    );
}

#[test]
fn download_url_is_extracted_and_unescaped() {
    let tv = XiaobaoTV::new("xiaoxintv.com");
    let html = r#"var player={"flag":"play","url":"https:\/\/cdn.example.com\/v\/548.m3u8","url_next":"x"}"#;
    assert_eq!(
        tv.extract_download_url_from_web_page_html(html).unwrap(),
        "https://cdn.example.com/v/548.m3u8"
    );
}

#[test]
fn download_url_miss_is_a_recoverable_parse_error() {
    let tv = XiaobaoTV::new("xiaoxintv.com");
    match tv.extract_download_url_from_web_page_html("<html><body>no player here</body></html>") {
        Err(MediaError::ParseError { message }) => {
            assert_eq!(message, "download url not found in page");
        }
        _ => panic!("a page without the pattern is a parse error"),
    }
}

#[test]
fn unescape_only_touches_escaped_slashes() {
    assert_eq!(unescape_url(r"https:\/\/h\/x"), "https://h/x");
    assert_eq!(unescape_url("plain/path"), "plain/path");
    assert_eq!(unescape_url(r"tail\"), "tail\\");
    assert_eq!(unescape_url(""), "");
}

#[test]
fn metadata_is_scraped_from_the_page() {
    let tv = XiaobaoTV::new("xiaoxintv.com");
    let html = r#"<html><body>
        <h1 class="title text-fff">海贼王</h1>
        <div class="myui-player__data">
          <span class="text-muted">genre<span class="text-muted">anime</span></span>
          <span class="text-muted">year<span class="text-muted">1999</span></span>
        </div>
      </body></html>"#;
    let m = tv.extract_tv_show_metadata_from_web_page(html).unwrap();
    assert_eq!(m.name, "海贼王");
    assert_eq!(m.year, 1999);
    // Episode counting is a known gap: the count is always zero.
    assert_eq!(m.total_episodes, 0);
}

#[test]
fn selector_miss_is_a_recoverable_parse_error() {
    let tv = XiaobaoTV::new("xiaoxintv.com");
    match tv.extract_tv_show_metadata_from_web_page("<html><body></body></html>") {
        Err(MediaError::ParseError { message }) => {
            assert_eq!(message, "tv show metadata not found in page");
        }
        _ => panic!("a page without the elements is a parse error"),
    }
}

#[test]
fn non_numeric_year_is_a_recoverable_parse_error() {
    let tv = XiaobaoTV::new("xiaoxintv.com");
    let html = r#"<html><body>
        <h1 class="title text-fff">海贼王</h1>
        <div class="myui-player__data">
          <span class="text-muted">year<span class="text-muted">unknown</span></span>
        </div>
      </body></html>"#;
    match tv.extract_tv_show_metadata_from_web_page(html) {
        Err(MediaError::ParseError { message }) => {
            assert_eq!(message, "tv show year is not a number");
        }
        _ => panic!("a year that is not a number is a parse error"),
    }
}

#[test]
fn inner_text_concatenates_fragments() {
    let el = TextFragments {
        fragments: vec!["海".to_string(), "贼".to_string(), "王".to_string()],
    };
    assert_eq!(el.inner_text(), "海贼王");
    let empty = TextFragments { fragments: Vec::new() };
    assert_eq!(empty.inner_text(), "");
}

#[test]
fn show_metadata_carries_the_scrape() {
    let tv = XiaobaoTV::new("xiaoxintv.com");
    let scraped = SimpleTVShowMetadata {
        name: "海贼王".to_string(),
        year: 1999,
        total_episodes: 0,
    };
    let m = tv.tv_show_metadata("548", &scraped);
    assert_eq!(m.channel, "xiaobao");
    assert_eq!(m.id, "548");
    assert_eq!(m.name, "海贼王");
    assert_eq!(m.year, 1999);
    assert_eq!(m.total_episodes, 0);
}
