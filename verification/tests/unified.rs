use media_downloader::errors::MediaError;
use media_downloader::unified::{
    first_detail, join_ids, metadata_from_detail, search_response, select_playback_url, Detail,
    ListRequest, MediaKind, StringOrNumber, TypeItem, UnifiedAPI, UnifiedMediaService,
};

fn detail() -> Detail {
    Detail {
        id: 548,
        name: "海贼王".to_string(),
        type_id: 4,
        kind_name: "动漫".to_string(),
        year: "1999".to_string(),
        picture: "http://img.example.com/548.jpg".to_string(),
        description: "pirates".to_string(),
        play_url: "第1集$http://v.example.com/1.m3u8#第2集$http://v.example.com/2.m3u8"
            .to_string(),
    }
}

#[test]
fn selector_takes_the_numbered_option() {
    let field = "A$urlA#B$urlB";
    assert_eq!(select_playback_url(field, 1).unwrap(), "urlA");
    assert_eq!(select_playback_url(field, 2).unwrap(), "urlB");
}

#[test]
fn selector_out_of_range_is_an_error_not_a_crash() {
    let field = "A$urlA#B$urlB";
    match select_playback_url(field, 3) {
        Err(MediaError::NotFoundError { message }) => {
            assert_eq!(message, "invalid playback option number");
        }
        _ => panic!("an option number past the list is a not-found error"),
    }
    assert!(matches!(
        select_playback_url(field, 0),
        Err(MediaError::NotFoundError { .. })
    ));
}

#[test]
fn selector_without_url_part_is_a_parse_error() {
    match select_playback_url("nameonly#B$urlB", 1) {
        Err(MediaError::ParseError { message }) => {
            assert_eq!(message, "invalid playback url format");
        }
        _ => panic!("an option without a dollar-separated url is a parse error"),
    }
}

#[test]
fn list_query_carries_the_request() {
    let api = UnifiedAPI::new("https://cms.example.com/api.php/provide/vod/");
    let q = api.list_query(&ListRequest {
        page: 3,
        keyword: Some("海贼王".to_string()),
        type_id: None,
    });
    assert_eq!(q.len(), 4);
    assert_eq!(q[0], ("ac".to_string(), "list".to_string()));
    assert_eq!(q[1], ("pg".to_string(), "3".to_string()));
    assert_eq!(q[2], ("wd".to_string(), "海贼王".to_string()));
    assert_eq!(q[3], ("t".to_string(), "0".to_string()));
}

#[test]
fn detail_query_joins_ids() {
    let api = UnifiedAPI::new_with_http_1("https://cms.example.com/api.php/provide/vod/");
    let q = api.detail_query(&vec!["548".to_string(), "9104".to_string()]);
    assert_eq!(q[0], ("ac".to_string(), "detail".to_string()));
    assert_eq!(q[1], ("ids".to_string(), "548,9104".to_string()));
    assert_eq!(join_ids(&vec!["1".to_string()]), "1");
    assert_eq!(join_ids(&Vec::new()), "");
}

#[test]
fn response_code_other_than_success_fails() {
    let api = UnifiedAPI::new("https://cms.example.com/api.php/provide/vod/");
    assert!(api.check_response_code(1).is_ok());
    assert!(matches!(
        api.check_response_code(0),
        Err(MediaError::ParseError { .. })
    ));
}

#[test]
fn metadata_carries_detail_fields() {
    let m = metadata_from_detail("heimuer", &detail());
    assert_eq!(m.channel, "heimuer");
    assert_eq!(m.id, "548");
    assert_eq!(m.name, "海贼王");
    assert_eq!(m.release_year, 1999);
    assert_eq!(m.poster_url, "http://img.example.com/548.jpg");
    assert_eq!(m.description, "pirates");
}

#[test]
fn malformed_year_reads_as_zero() {
    let mut d = detail();
    d.year = "unknown".to_string();
    assert_eq!(metadata_from_detail("heimuer", &d).release_year, 0);
}

#[test]
fn string_or_number_reads_both_shapes() {
    assert_eq!(StringOrNumber::Number(7).as_u32(), Some(7));
    assert_eq!(StringOrNumber::String("42".to_string()).as_u32(), Some(42));
    assert_eq!(StringOrNumber::String("x".to_string()).as_u32(), None);
}

fn taxonomy() -> Vec<TypeItem> {
    vec![
        TypeItem { type_id: 1, type_pid: 0, kind_name: "电影".to_string() },
        TypeItem { type_id: 2, type_pid: 0, kind_name: "电视剧".to_string() },
        TypeItem { type_id: 4, type_pid: 0, kind_name: "动漫".to_string() },
        TypeItem { type_id: 5, type_pid: 0, kind_name: "综艺".to_string() },
    ]
}

#[test]
fn taxonomy_fetched_at_most_once() {
    // Two metadata round trips on a fresh adapter: the taxonomy fetch
    // runs the first time only.
    let mut service = UnifiedMediaService::new("heimuer", "https://cms.example.com/");
    let mut fetches = 0;

    for _ in 0..2 {
        if service.needs_taxonomy_fetch() {
            fetches += 1;
            service.store_taxonomy(taxonomy());
        }
        let _ = service.kind_of(detail().type_id);
    }

    assert_eq!(fetches, 1);
}

#[test]
fn kind_derives_from_taxonomy() {
    let mut service = UnifiedMediaService::new("heimuer", "https://cms.example.com/");
    // Without a cached taxonomy every id reads as other.
    assert_eq!(service.kind_of(1), MediaKind::Other);
    service.store_taxonomy(taxonomy());
    assert_eq!(service.kind_of(1), MediaKind::Movie);
    assert_eq!(service.kind_of(2), MediaKind::Tv);
    assert_eq!(service.kind_of(4), MediaKind::Anime);
    assert_eq!(service.kind_of(5), MediaKind::Variety);
    assert_eq!(service.kind_of(99), MediaKind::Other);
}

#[test]
fn empty_detail_list_is_an_invalid_id() {
    match first_detail(Vec::new()) {
        Err(MediaError::NotFoundError { message }) => assert_eq!(message, "invalid media id"),
        _ => panic!("an empty detail list is a not-found error"),
    }
    let first = first_detail(vec![detail()]).unwrap();
    assert_eq!(first.id, 548);
}

#[test]
fn search_results_carry_every_record() {
    let mut second = detail();
    second.id = 549;
    second.name = "second".to_string();
    let response = search_response("heimuer", &vec![detail(), second], 2, 1, 20);
    assert_eq!(response.items.len(), 2);
    assert_eq!(response.items[0].name, "海贼王");
    assert_eq!(response.items[1].name, "second");
    assert_eq!(response.items[1].channel, "heimuer");
    assert_eq!(response.total, 2);
    assert_eq!(response.page, 1);
    assert_eq!(response.page_size, 20);
}
