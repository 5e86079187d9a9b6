use media_downloader::progress::{DownloadProgressItem, DownloadProgressStream};
use media_downloader::stream::{PollNext, Stream};

fn poll_doubled(stream: &Stream<i32>, r: &mut media_downloader::stream::Receiver<i32>) -> PollNext<i32> {
    match stream.poll_next(r) {
        PollNext::Item(v) => PollNext::Item(*v * 2),
        PollNext::End => PollNext::End,
        PollNext::Pending => PollNext::Pending,
    }
}

#[test]
fn test_stream() {
    let mut stream: Stream<i32> = Stream::new();

    let mut receiver = stream.recv();

    stream.send(1);
    stream.send(2);
    stream.send(3);

    stream.end();

    assert_eq!(stream.receiver_count(), 1);

    assert!(matches!(poll_doubled(&stream, &mut receiver), PollNext::Item(2)));
    assert!(matches!(poll_doubled(&stream, &mut receiver), PollNext::Item(4)));
    assert!(matches!(poll_doubled(&stream, &mut receiver), PollNext::Item(6)));
    assert!(matches!(poll_doubled(&stream, &mut receiver), PollNext::End));

    let mut receiver1 = stream.recv();

    assert!(matches!(poll_doubled(&stream, &mut receiver1), PollNext::Item(2)));
    assert!(matches!(poll_doubled(&stream, &mut receiver1), PollNext::Item(4)));
    assert!(matches!(poll_doubled(&stream, &mut receiver1), PollNext::Item(6)));
    assert!(matches!(poll_doubled(&stream, &mut receiver1), PollNext::End));

    assert_eq!(stream.receiver_count(), 2);

    stream.disconnect(receiver);
    stream.disconnect(receiver1);

    assert_eq!(stream.receiver_count(), 0);
}

#[test]
fn test_pending() {
    let mut stream: Stream<i32> = Stream::new();

    stream.send(1);

    let mut receiver = stream.recv();

    assert!(matches!(poll_doubled(&stream, &mut receiver), PollNext::Item(2)));
    assert!(matches!(poll_doubled(&stream, &mut receiver), PollNext::Pending));

    stream.end();

    assert!(matches!(poll_doubled(&stream, &mut receiver), PollNext::End));
}

#[test]
fn replay_after_late_subscribe() {
    let mut stream: Stream<u32> = Stream::new();
    let mut early = stream.recv();

    stream.send(10);
    stream.send(20);

    // A subscriber that arrives mid-stream still starts from the very
    // first item.
    let mut late = stream.recv();

    stream.send(30);
    stream.end();

    let mut seen_early = Vec::new();
    loop {
        match stream.poll_next(&mut early) {
            PollNext::Item(v) => seen_early.push(*v),
            PollNext::End => break,
            PollNext::Pending => panic!("completed stream must not be pending"),
        }
    }
    let mut seen_late = Vec::new();
    loop {
        match stream.poll_next(&mut late) {
            PollNext::Item(v) => seen_late.push(*v),
            PollNext::End => break,
            PollNext::Pending => panic!("completed stream must not be pending"),
        }
    }

    assert_eq!(seen_early, vec![10, 20, 30]);
    assert_eq!(seen_late, vec![10, 20, 30]);
}

#[test]
fn progress_log_shape() {
    let mut stream = DownloadProgressStream::new();
    let mut receiver = stream.recv();

    stream.start(5);
    stream.segment_downloaded("Segment downloaded: 0");
    stream.transforming_video();
    stream.done("/downloads/1-1.mp4");

    let mut log = Vec::new();
    loop {
        match stream.poll_next(&mut receiver) {
            PollNext::Item(it) => log.push(clone_item(it)),
            PollNext::End => break,
            PollNext::Pending => panic!("completed stream must not be pending"),
        }
    }

    assert_eq!(log.len(), 4);
    // Exactly one opening event, first.
    assert!(matches!(
        log[0],
        DownloadProgressItem::Started { total_segments_of_media: 5, .. }
    ));
    for it in &log[1..] {
        assert!(!matches!(it, DownloadProgressItem::Started { .. }));
    }
    // Exactly one terminal event, last, and nothing after it.
    for it in &log[..3] {
        assert!(!matches!(
            it,
            DownloadProgressItem::Done { .. } | DownloadProgressItem::Failed { .. }
        ));
    }
    match &log[3] {
        DownloadProgressItem::Done { local_path, .. } => {
            assert_eq!(local_path, "/downloads/1-1.mp4");
        }
        _ => panic!("terminal event must be the successful one"),
    }
}

#[test]
fn failed_job_emits_single_terminal_event() {
    let mut stream = DownloadProgressStream::new();
    let mut receiver = stream.recv();

    stream.start(2);
    stream.segment_downloaded("Segment downloaded: 0");
    stream.failed("Request failed with code 429");

    let mut log = Vec::new();
    loop {
        match stream.poll_next(&mut receiver) {
            PollNext::Item(it) => log.push(clone_item(it)),
            PollNext::End => break,
            PollNext::Pending => panic!("completed stream must not be pending"),
        }
    }
    assert_eq!(log.len(), 3);
    match &log[2] {
        DownloadProgressItem::Failed { reason, .. } => {
            assert_eq!(reason, "Request failed with code 429");
        }
        _ => panic!("failed job must end with the failure event"),
    }
}

fn clone_item(it: &DownloadProgressItem) -> DownloadProgressItem {
    match it {
        DownloadProgressItem::Started { total_segments_of_media, started_at } => {
            DownloadProgressItem::Started {
                total_segments_of_media: *total_segments_of_media,
                started_at: started_at.clone(),
            }
        }
        DownloadProgressItem::SegmentDownloaded { message, started_at } => {
            DownloadProgressItem::SegmentDownloaded {
                message: message.clone(),
                started_at: started_at.clone(),
            }
        }
        DownloadProgressItem::TransformingVideo { started_at } => {
            DownloadProgressItem::TransformingVideo { started_at: started_at.clone() }
        }
        DownloadProgressItem::Done { local_path, completed_at } => DownloadProgressItem::Done {
            local_path: local_path.clone(),
            completed_at: completed_at.clone(),
        },
        DownloadProgressItem::Failed { reason, completed_at } => DownloadProgressItem::Failed {
            reason: reason.clone(),
            completed_at: completed_at.clone(),
        },
    }
}
