use media_downloader::downloader::{segment_local_path, SegmentScheduler};
use media_downloader::errors::MediaError;

#[test]
fn concurrency_never_exceeds_limit() {
    // Five segments under a limit of two: drive starts and completions
    // in an adversarial order and watch the in-flight count.
    let mut scheduler = SegmentScheduler::new(2, 5);
    let mut in_flight: Vec<usize> = Vec::new();
    let mut max_in_flight = 0;
    let mut completed = 0;

    while completed < 5 {
        // Start everything the permits allow before completing anything.
        while let Some(idx) = scheduler.start_next() {
            in_flight.push(idx);
            max_in_flight = max_in_flight.max(in_flight.len());
        }
        assert!(in_flight.len() <= 2);
        // Complete out of order: always the newest first.
        let idx = in_flight.pop().expect("permits exhausted with work left");
        scheduler.complete(idx).unwrap();
        completed += 1;
    }

    assert_eq!(max_in_flight, 2);
    assert!(scheduler.finished());
}

#[test]
fn starts_run_in_index_order() {
    let mut scheduler = SegmentScheduler::new(3, 3);
    assert_eq!(scheduler.start_next(), Some(0));
    assert_eq!(scheduler.start_next(), Some(1));
    assert_eq!(scheduler.start_next(), Some(2));
    assert_eq!(scheduler.start_next(), None);
}

#[test]
fn bogus_completions_are_rejected() {
    let mut scheduler = SegmentScheduler::new(2, 3);
    // Completing a segment that never started is a permit violation.
    assert!(matches!(
        scheduler.complete(0),
        Err(MediaError::ConcurrencyError)
    ));
    let idx = scheduler.start_next().unwrap();
    scheduler.complete(idx).unwrap();
    // Completing the same segment twice is one as well.
    assert!(matches!(
        scheduler.complete(idx),
        Err(MediaError::ConcurrencyError)
    ));
}

#[test]
fn segment_path_uses_url_tail() {
    assert_eq!(
        segment_local_path("/tmp/media-downloader", "https://cdn.example.com/seg/00042.ts?tok=1")
            .unwrap(),
        "/tmp/media-downloader/00042.ts"
    );
    assert!(matches!(
        segment_local_path("/tmp/media-downloader", "not a url"),
        Err(MediaError::ParseError { .. })
    ));
}
