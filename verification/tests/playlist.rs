use media_downloader::errors::MediaError;
use media_downloader::playlist::{
    normalize_url, parse_playlist, render_media_playlist, resolve_chain, resolve_step,
    rewrite_playlist, select_variant, DownloadedSegment, MasterPlaylist, MediaPlaylist,
    MediaSegment, ParsedManifest, ResolveStep, VariantStream, MAX_RESOLVE_DEPTH,
};

fn master(uris: &[&str]) -> MasterPlaylist {
    MasterPlaylist {
        variants: uris.iter().map(|u| VariantStream { uri: u.to_string() }).collect(),
    }
}

fn media(uris: &[&str]) -> MediaPlaylist {
    MediaPlaylist {
        target_duration: 10,
        segments: uris
            .iter()
            .map(|u| MediaSegment { uri: u.to_string(), duration: "10".to_string() })
            .collect(),
    }
}

#[test]
fn master_resolves_to_exactly_one_variant() {
    let m = master(&["v1.m3u8", "v2.m3u8", "v3.m3u8"]);
    // The fixed tie-break picks the last-listed variant.
    assert_eq!(select_variant(&m).unwrap(), "v3.m3u8");

    let empty = master(&[]);
    assert!(matches!(
        select_variant(&empty),
        Err(MediaError::ParseError { .. })
    ));
}

#[test]
fn two_level_chain_resolves() {
    let manifests = vec![
        ParsedManifest::Master(master(&["/a.m3u8", "/b.m3u8"])),
        ParsedManifest::Master(master(&["/inner.m3u8"])),
        ParsedManifest::Media(media(&["/s0.ts", "/s1.ts"])),
    ];
    let resolved = resolve_chain("http://host/start.m3u8", &manifests, MAX_RESOLVE_DEPTH)
        .expect("a master-master-media chain resolves");
    assert_eq!(resolved.segments.len(), 2);
    assert_eq!(resolved.segments[0].uri, "http://host/s0.ts");
    assert_eq!(resolved.segments[1].uri, "http://host/s1.ts");
}

#[test]
fn chain_beyond_depth_cap_fails_cleanly() {
    let manifests: Vec<ParsedManifest> =
        (0..MAX_RESOLVE_DEPTH + 1).map(|_| ParsedManifest::Master(master(&["v.m3u8"]))).collect();
    let err = resolve_chain("http://host/start.m3u8", &manifests, MAX_RESOLVE_DEPTH)
        .expect_err("a chain deeper than the cap fails");
    match err {
        MediaError::ParseError { message } => {
            assert_eq!(message, "manifest recursion limit exceeded");
        }
        _ => panic!("the cap failure is a parse error"),
    }
}

#[test]
fn resolve_step_normalizes_against_origin() {
    let m = ParsedManifest::Master(master(&["/variants/v1.m3u8"]));
    match resolve_step("https://cdn.example.com/live/index.m3u8", &m, 0, MAX_RESOLVE_DEPTH) {
        ResolveStep::FetchNext(u) => {
            assert_eq!(u, "https://cdn.example.com/variants/v1.m3u8");
        }
        _ => panic!("a master below the cap asks for the next fetch"),
    }
}

#[test]
fn normalize_url_keeps_absolute_urls() {
    assert_eq!(
        normalize_url("https://cdn.example.com/live/index.m3u8", "http://other.example.com/x.ts"),
        "http://other.example.com/x.ts"
    );
    assert_eq!(
        normalize_url("https://cdn.example.com/live/index.m3u8", "/seg/1.ts"),
        "https://cdn.example.com/seg/1.ts"
    );
}

#[test]
fn rewrite_maps_each_index_to_its_original_segment() {
    let playlist = media(&["s0.ts", "s1.ts", "s2.ts"]);
    // Completion order 2, 0, 1: the rewrite still follows original index
    // order.
    let results = vec![
        DownloadedSegment { index: 2, local_path: "/tmp/s2.ts".to_string() },
        DownloadedSegment { index: 0, local_path: "/tmp/s0.ts".to_string() },
        DownloadedSegment { index: 1, local_path: "/tmp/s1.ts".to_string() },
    ];
    let rewritten = rewrite_playlist(&playlist, &results).unwrap();
    assert_eq!(rewritten.segments[0].uri, "/tmp/s0.ts");
    assert_eq!(rewritten.segments[1].uri, "/tmp/s1.ts");
    assert_eq!(rewritten.segments[2].uri, "/tmp/s2.ts");
    assert_eq!(rewritten.segments[1].duration, "10");
}

#[test]
fn rewrite_rejects_duplicate_and_missing_indexes() {
    let playlist = media(&["s0.ts", "s1.ts"]);
    let duplicated = vec![
        DownloadedSegment { index: 0, local_path: "/tmp/a.ts".to_string() },
        DownloadedSegment { index: 0, local_path: "/tmp/b.ts".to_string() },
    ];
    assert!(matches!(
        rewrite_playlist(&playlist, &duplicated),
        Err(MediaError::ConcurrencyError)
    ));

    let short = vec![DownloadedSegment { index: 0, local_path: "/tmp/a.ts".to_string() }];
    assert!(matches!(
        rewrite_playlist(&playlist, &short),
        Err(MediaError::ConcurrencyError)
    ));
}

#[test]
fn parse_real_media_manifest() {
    let body = b"#EXTM3U\n#EXT-X-VERSION:3\n#EXT-X-TARGETDURATION:10\n#EXTINF:9.0,\nhttp://host/s0.ts\n#EXTINF:9.0,\nhttp://host/s1.ts\n#EXT-X-ENDLIST\n".to_vec();
    match parse_playlist(&body) {
        ParsedManifest::Media(p) => {
            assert_eq!(p.segments.len(), 2);
            assert_eq!(p.segments[0].uri, "http://host/s0.ts");
            assert_eq!(p.segments[1].uri, "http://host/s1.ts");
        }
        _ => panic!("a media manifest parses as a media playlist"),
    }
}

#[test]
fn parse_real_master_manifest() {
    let body = b"#EXTM3U\n#EXT-X-STREAM-INF:BANDWIDTH=1280000\nlow.m3u8\n#EXT-X-STREAM-INF:BANDWIDTH=2560000\nhigh.m3u8\n".to_vec();
    match parse_playlist(&body) {
        ParsedManifest::Master(m) => {
            assert_eq!(m.variants.len(), 2);
            assert_eq!(m.variants[0].uri, "low.m3u8");
            assert_eq!(m.variants[1].uri, "high.m3u8");
        }
        _ => panic!("a master manifest parses as a master playlist"),
    }
}

#[test]
fn parse_rejects_garbage() {
    let body = b"not a manifest at all".to_vec();
    assert!(matches!(parse_playlist(&body), ParsedManifest::Invalid));
}

#[test]
fn render_writes_segments_in_order() {
    let p = media(&["/tmp/s0.ts", "/tmp/s1.ts"]);
    let text = render_media_playlist(&p);
    assert_eq!(
        text,
        "#EXTM3U\n#EXT-X-TARGETDURATION:10\n#EXTINF:10,\n/tmp/s0.ts\n#EXTINF:10,\n/tmp/s1.ts\n#EXT-X-ENDLIST\n"
    );
}
