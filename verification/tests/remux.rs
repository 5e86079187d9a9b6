use media_downloader::errors::MediaError;
use media_downloader::remux::{parse_clock, percent, remux_outcome, RemuxProgress};

#[test]
fn clock_parses_to_seconds() {
    assert_eq!(parse_clock("00:00:03.00"), Some(3));
    assert_eq!(parse_clock("01:02:03.45"), Some(3723));
    assert_eq!(parse_clock("10:00:00"), Some(36000));
    assert_eq!(parse_clock("garbage"), None);
    assert_eq!(parse_clock("12:34"), None);
    assert_eq!(parse_clock("aa:bb:cc"), None);
}

#[test]
fn percentage_is_capped_before_completion() {
    assert_eq!(percent(0, 10), 0);
    assert_eq!(percent(5, 10), 50);
    assert_eq!(percent(10, 10), 99);
    assert_eq!(percent(997, 1000), 99);
    assert_eq!(percent(3, 0), 99);
}

#[test]
fn segment_open_markers_are_counted_silently() {
    let mut progress = RemuxProgress::new(4);
    assert_eq!(progress.on_line("[hls @ 0x1] Opening 'seg0.ts' for reading"), None);
    assert_eq!(progress.on_line("[hls @ 0x1] Opening 'seg1.ts' for reading"), None);
    assert_eq!(progress.segments_opened, 2);
}

#[test]
fn time_markers_report_only_on_advance() {
    let mut progress = RemuxProgress::new(4);
    progress.on_line("[hls @ 0x1] Opening 'seg0.ts' for reading");

    // The first clock reading always reports.
    let first = progress
        .on_line("frame=  100 fps=25 time=00:00:02.00 bitrate=1000k speed=1x")
        .expect("the first clock reading reports");
    assert_eq!(first, "elapsed 2s, segments 1 of 4, 25%");

    // A reading less than the interval further stays silent.
    assert_eq!(
        progress.on_line("frame=  120 fps=25 time=00:00:04.00 bitrate=1000k speed=1x"),
        None
    );

    // A reading a full interval further reports again.
    let second = progress
        .on_line("frame=  200 fps=25 time=00:00:05.00 bitrate=1000k speed=1x")
        .expect("an advanced clock reports");
    assert_eq!(second, "elapsed 5s, segments 1 of 4, 25%");
}

#[test]
fn summary_line_reports_once_more() {
    let mut progress = RemuxProgress::new(2);
    let last = progress.on_line("video:1024kB audio:256kB subtitle:0kB other streams:0kB");
    assert_eq!(last, Some("remux summary received".to_string()));
    // An unrelated line stays silent.
    assert_eq!(progress.on_line("Press [q] to stop, [?] for help"), None);
}

#[test]
fn nonzero_exit_is_an_external_tool_error() {
    assert_eq!(remux_outcome(0, "/downloads/548-1.mp4").unwrap(), "/downloads/548-1.mp4");
    match remux_outcome(1, "/downloads/548-1.mp4") {
        Err(MediaError::ExternalToolError { code }) => assert_eq!(code, 1),
        _ => panic!("a non-zero exit is an external tool error"),
    }
}
