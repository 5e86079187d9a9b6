use media_downloader::channel_service::{
    download_file_name, ChannelAdapter, ChannelService, MediaChannelExt,
};
use media_downloader::configuration::{
    AppConfiguration, Configuration, DatabaseConfig, Environment, UnifiedItemConfig,
    UserConfiguration,
};
use media_downloader::errors::MediaError;
use media_downloader::gateway::{app_error_from_rpc, is_json_content_type, AppError, RpcCode, SearchMediaQuery};
use media_downloader::media_service::{
    batch_episode_numbers, file_extension, rename_media_path, DownloadWatch,
};
use media_downloader::pb::{ChannelClient, ChannelServer, CompressionEncoding};
use media_downloader::progress::DownloadProgressItem;
use media_downloader::terminal::{HelpPanel, KeyBinding, MediaAPI, SearchMediaOptions, SearchState};

fn configuration() -> Configuration {
    Configuration::from_user_configuration(
        Environment::Test,
        UserConfiguration {
            app: AppConfiguration {
                services_addr: "127.0.0.1:50051".to_string(),
                gateway_addr: "127.0.0.1:8080".to_string(),
            },
            database: DatabaseConfig { url: "postgres://localhost/media".to_string() },
            unified_channels: vec![
                (
                    "heimuer".to_string(),
                    UnifiedItemConfig { base_url: "https://heimuer.example.com/".to_string() },
                ),
                (
                    "huaweiba".to_string(),
                    UnifiedItemConfig { base_url: "https://huaweiba.example.com/".to_string() },
                ),
            ],
            default_channel: "heimuer".to_string(),
        },
    )
}

#[test]
fn registry_finds_configured_channels() {
    let service = ChannelService::new(&configuration());
    let adapter = service.get_channel_by_name("huaweiba").unwrap();
    assert_eq!(adapter.channel_name(), "huaweiba");
    assert!(matches!(adapter, ChannelAdapter::Unified(_)));
}

#[test]
fn unknown_channel_is_not_found() {
    let service = ChannelService::new(&configuration());
    match service.get_channel_by_name("nosuch") {
        Err(MediaError::NotFoundError { message }) => {
            assert_eq!(message, "No channel 'nosuch' found.");
        }
        _ => panic!("an unregistered channel is a not-found error"),
    }
}

#[test]
fn default_channel_substitutes() {
    let service = ChannelService::new(&configuration());
    assert_eq!(service.requested_channel(&None), "heimuer");
    assert_eq!(service.requested_channel(&Some("huaweiba".to_string())), "huaweiba");
}

#[test]
fn download_file_names() {
    assert_eq!(download_file_name("548", Some(3)), "548-3.mp4");
    assert_eq!(download_file_name("548", None), "548-1.mp4");
}

#[test]
fn error_constructors_carry_their_data() {
    match MediaError::network_error(503) {
        MediaError::NetworkError { status } => assert_eq!(status, 503),
        _ => panic!("a transport failure keeps its status"),
    }
    match MediaError::parse_error("bad manifest") {
        MediaError::ParseError { message } => assert_eq!(message, "bad manifest"),
        _ => panic!("a parse failure keeps its message"),
    }
    match MediaError::not_found("nothing here") {
        MediaError::NotFoundError { message } => assert_eq!(message, "nothing here"),
        _ => panic!("a not-found failure keeps its message"),
    }
}

#[test]
fn environment_names() {
    assert_eq!(Environment::parse("local").unwrap(), Environment::Local);
    assert_eq!(Environment::parse("test").unwrap(), Environment::Test);
    assert_eq!(Environment::parse("production").unwrap(), Environment::Production);
    assert!(Environment::parse("staging").is_err());
    assert_eq!(Environment::Production.as_str(), "production");
}

#[test]
fn watch_follows_a_job_to_its_path() {
    let mut watch = DownloadWatch::new();
    assert_eq!(
        watch.on_event(&DownloadProgressItem::Started {
            total_segments_of_media: 2,
            started_at: "t0".to_string(),
        }),
        None
    );
    assert_eq!(watch.total, Some(2));
    assert_eq!(
        watch.on_event(&DownloadProgressItem::SegmentDownloaded {
            message: "Segment downloaded: 0".to_string(),
            started_at: "t1".to_string(),
        }),
        None
    );
    assert_eq!(watch.finished, 1);
    let path = watch.on_event(&DownloadProgressItem::Done {
        local_path: "/downloads/548-1.mp4".to_string(),
        completed_at: "t2".to_string(),
    });
    assert_eq!(path, Some("/downloads/548-1.mp4".to_string()));
}

#[test]
fn renamed_library_path() {
    assert_eq!(
        rename_media_path("media", "海贼王", 1999, 3, "mp4"),
        "media/海贼王 (1999)/Season 01/海贼王 S01E3.mp4"
    );
}

#[test]
fn file_extensions() {
    assert_eq!(file_extension("/downloads/548-1.mp4"), Some("mp4".to_string()));
    assert_eq!(file_extension("archive.tar.gz"), Some("gz".to_string()));
    assert_eq!(file_extension("no_extension"), None);
}

#[test]
fn batch_numbers_are_consecutive() {
    assert_eq!(batch_episode_numbers(5, 3), vec![5, 6, 7]);
    assert_eq!(batch_episode_numbers(1, 0), Vec::<u32>::new());
}

#[test]
fn app_error_responses() {
    assert_eq!(AppError::not_found("missing").app_response().status, 404);
    assert_eq!(AppError::not_found("missing").app_response().message, "missing");
    assert_eq!(AppError::bad_request("bad").app_response().status, 400);
    assert_eq!(AppError::unauthorized("who").app_response().status, 401);
    assert_eq!(AppError::forbidden().app_response().status, 403);
    assert_eq!(AppError::forbidden().app_response().message, "Forbidden");
    assert_eq!(AppError::validation_error("v").app_response().status, 422);
    assert_eq!(AppError::unsupported_media_type("m").app_response().status, 415);
    let internal = AppError::internal_server_error("secret detail").app_response();
    assert_eq!(internal.status, 500);
    assert_eq!(internal.message, "Internal server error");
    assert_eq!(AppError::database_error("d").app_response().message, "Database error");
    assert_eq!(AppError::proxy_error("p").app_response().status, 502);
}

#[test]
fn rpc_failures_map_to_the_taxonomy() {
    assert!(matches!(app_error_from_rpc(RpcCode::NotFound, "x"), AppError::NotFound(_)));
    assert!(matches!(app_error_from_rpc(RpcCode::InvalidArgument, "x"), AppError::BadRequest(_)));
    assert!(matches!(app_error_from_rpc(RpcCode::PermissionDenied, "x"), AppError::Forbidden));
    assert!(matches!(app_error_from_rpc(RpcCode::Unauthenticated, "x"), AppError::Unauthorized(_)));
    assert!(matches!(app_error_from_rpc(RpcCode::Other, "x"), AppError::InternalServerError(_)));
}

#[test]
fn json_content_types() {
    assert!(is_json_content_type("application/json"));
    assert!(is_json_content_type("application/json; charset=utf-8"));
    assert!(!is_json_content_type("text/html"));
}

#[test]
fn search_query_defaults() {
    let q = SearchMediaQuery {
        channel: None,
        keyword: "海贼王".to_string(),
        page: None,
        page_size: None,
    };
    let r = q.into_request();
    assert_eq!(r.page, 1);
    assert_eq!(r.page_size, 20);
    let q2 = SearchMediaQuery {
        channel: Some("heimuer".to_string()),
        keyword: "x".to_string(),
        page: Some(4),
        page_size: Some(50),
    };
    let r2 = q2.into_request();
    assert_eq!(r2.page, 4);
    assert_eq!(r2.page_size, 50);
}

#[test]
fn client_builders_accumulate_configuration() {
    let client = ChannelClient::new(())
        .send_compressed(CompressionEncoding::Gzip)
        .accept_compressed(CompressionEncoding::Zstd)
        .max_decoding_message_size(1024)
        .max_encoding_message_size(2048);
    assert_eq!(client.send_compression, Some(CompressionEncoding::Gzip));
    assert_eq!(client.accept_compression, Some(CompressionEncoding::Zstd));
    assert_eq!(client.max_decoding_size, Some(1024));
    assert_eq!(client.max_encoding_size, Some(2048));
    assert!(client.origin.is_none());

    let with_origin = ChannelClient::with_origin((), "http://127.0.0.1:50051".to_string());
    assert_eq!(with_origin.origin, Some("http://127.0.0.1:50051".to_string()));

    let server = ChannelServer::new(())
        .accept_compressed(CompressionEncoding::Gzip)
        .max_decoding_message_size(4096);
    assert_eq!(server.accept_compression, Some(CompressionEncoding::Gzip));
    assert_eq!(server.max_decoding_size, Some(4096));
    assert!(server.send_compression.is_none());
}

#[test]
fn search_state_queries() {
    assert!(SearchState::Pending.is_pending());
    assert!(!SearchState::Searching.is_pending());
    assert!(SearchState::Error("boom".to_string()).is_completed());
    assert!(!SearchState::Input.is_completed());
}

#[test]
fn terminal_api_urls_and_help_width() {
    let api = MediaAPI::new("http://127.0.0.1:8080");
    assert_eq!(
        api.search_url(&SearchMediaOptions { keyword: "one".to_string(), page: 2 }),
        "http://127.0.0.1:8080/api/v1/media/search?keyword=one&page=2"
    );

    let narrow = HelpPanel::new(vec![KeyBinding {
        description: "quit".to_string(),
        keys: vec!["q".to_string()],
    }]);
    assert_eq!(narrow.key_column_width(), 4);

    let wide = HelpPanel::new(vec![KeyBinding {
        description: "search".to_string(),
        keys: vec!["ctrl".to_string(), "s".to_string()],
    }]);
    assert_eq!(wide.key_column_width(), 6);
}
