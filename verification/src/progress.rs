//! Download progress events and the publishing protocol over a broadcast
//! stream: exactly one `Started` opens a job's log, a single terminal event
//! (`Done` or `Failed`) closes it, and nothing follows the terminal event.

use crate::stream::{PollNext, Receiver, Stream};
use vstd::prelude::*;

verus! {

/// One progress event of a download job. Timestamps are carried as plain
/// rendered text.
pub enum DownloadProgressItem {
    Started { total_segments_of_media: usize, started_at: String },
    SegmentDownloaded { message: String, started_at: String },
    TransformingVideo { started_at: String },
    Done { local_path: String, completed_at: String },
    Failed { reason: String, completed_at: String },
}

/// Whether an event opens a job.
pub open spec fn is_started(it: DownloadProgressItem) -> bool {
    it is Started
}

/// Whether an event is terminal: it closes the job for good.
pub open spec fn is_terminal(it: DownloadProgressItem) -> bool {
    it is Done || it is Failed
}

/// The shape every job's event log keeps at all times: `Started` stands
/// first and nowhere else, and a terminal event stands nowhere but last.
pub open spec fn wf_progress_log(log: Seq<DownloadProgressItem>) -> bool {
    &&& log.len() > 0 ==> is_started(log[0])
    &&& forall|i: int| 1 <= i < log.len() ==> !is_started(#[trigger] log[i])
    &&& forall|i: int| 0 <= i < log.len() - 1 ==> !is_terminal(#[trigger] log[i])
}

/// The current wall-clock time rendered as text.
///
/// Relies on `chrono::Utc::now`: the result depends on the clock, so
/// nothing is claimed of it.
#[verifier::external_body]
pub fn now() -> String {
    chrono::Utc::now().to_string()
}

/// A broadcast stream of progress events that enforces the event protocol:
/// its log always satisfies [`wf_progress_log`], and it is completed
/// exactly when a terminal event has been published.
pub struct DownloadProgressStream {
    inner: Stream<DownloadProgressItem>,
}

/// A consumer of a [`DownloadProgressStream`].
pub type DownloadProgressReceiver = Receiver<DownloadProgressItem>;

impl DownloadProgressStream {
    /// The ordered event log published so far.
    pub closed spec fn log(&self) -> Seq<DownloadProgressItem> {
        self.inner.log()
    }

    /// Whether a terminal event has been published.
    pub closed spec fn completed(&self) -> bool {
        self.inner.completed()
    }

    /// How many receivers are attached.
    pub closed spec fn receivers(&self) -> int {
        self.inner.receivers()
    }

    /// The protocol invariant, kept by every operation.
    pub open spec fn wf(&self) -> bool {
        &&& wf_progress_log(self.log())
        &&& self.completed() <==> (self.log().len() > 0 && is_terminal(self.log().last()))
    }

    /// A receiver is in step when what it has observed is exactly the
    /// prefix of the log up to its cursor.
    pub open spec fn synced(&self, r: &DownloadProgressReceiver) -> bool {
        &&& 0 <= r.cursor() <= self.log().len()
        &&& r.received() == self.log().take(r.cursor())
    }

    /// A fresh, empty progress stream.
    pub fn new() -> (s: Self)
        ensures
            s.log() == Seq::<DownloadProgressItem>::empty(),
            !s.completed(),
            s.receivers() == 0,
            s.wf(),
    {
        DownloadProgressStream { inner: Stream::new() }
    }

    /// Attaches a new receiver with its cursor at the start of the log.
    pub fn recv(&mut self) -> (r: DownloadProgressReceiver)
        requires
            old(self).receivers() < usize::MAX,
        ensures
            final(self).log() == old(self).log(),
            final(self).completed() == old(self).completed(),
            final(self).receivers() == old(self).receivers() + 1,
            final(self).wf() == old(self).wf(),
            r.cursor() == 0,
            r.received() == Seq::<DownloadProgressItem>::empty(),
            final(self).synced(&r),
    {
        self.inner.recv()
    }

    /// One poll of a receiver: the next event if the cursor is inside the
    /// log, the end if the job is over, or nothing yet.
    pub fn poll_next<'a>(&'a self, r: &mut DownloadProgressReceiver) -> (p: PollNext<
        &'a DownloadProgressItem,
    >)
        requires
            self.synced(old(r)),
        ensures
            self.synced(final(r)),
            old(r).cursor() < self.log().len() ==> (p matches PollNext::Item(it) && *it
                == self.log()[old(r).cursor()] && final(r).cursor() == old(r).cursor() + 1
                && final(r).received() == old(r).received().push(*it)),
            old(r).cursor() >= self.log().len() && self.completed() ==> (p is End && *final(r)
                == *old(r)),
            old(r).cursor() >= self.log().len() && !self.completed() ==> (p is Pending && *final(r)
                == *old(r)),
    {
        self.inner.poll_next(r)
    }

    /// Detaches one receiver; the last one to leave resets the instance.
    pub fn disconnect(&mut self, r: DownloadProgressReceiver)
        requires
            old(self).receivers() > 0,
        ensures
            final(self).receivers() == old(self).receivers() - 1,
            old(self).receivers() > 1 ==> final(self).log() == old(self).log()
                && final(self).completed() == old(self).completed()
                && final(self).wf() == old(self).wf(),
            old(self).receivers() == 1 ==> final(self).log()
                == Seq::<DownloadProgressItem>::empty() && !final(self).completed()
                && final(self).wf(),
    {
        self.inner.disconnect(r)
    }

    /// How many receivers are attached.
    pub fn receiver_count(&self) -> (n: usize)
        ensures
            n == self.receivers(),
    {
        self.inner.receiver_count()
    }

    /// Publishes the opening `Started` event, carrying the number of
    /// segments the job will download.
    pub fn start(&mut self, total_segments: usize)
        requires
            old(self).wf(),
            old(self).log().len() == 0,
        ensures
            final(self).wf(),
            final(self).log().len() == 1,
            final(self).log().last() matches DownloadProgressItem::Started {
                total_segments_of_media: t,
                ..
            } && t == total_segments,
            !final(self).completed(),
            final(self).receivers() == old(self).receivers(),
    {
        let it = DownloadProgressItem::Started {
            total_segments_of_media: total_segments,
            started_at: now(),
        };
        self.inner.send(it);
    }

    /// Publishes one `SegmentDownloaded` event with the given message.
    pub fn segment_downloaded(&mut self, msg: &str)
        requires
            old(self).wf(),
            old(self).log().len() > 0,
            !old(self).completed(),
        ensures
            final(self).wf(),
            final(self).log().drop_last() == old(self).log(),
            final(self).log().last() matches DownloadProgressItem::SegmentDownloaded {
                message: m,
                ..
            } && m@ == msg@,
            !final(self).completed(),
            final(self).receivers() == old(self).receivers(),
    {
        let it = DownloadProgressItem::SegmentDownloaded {
            message: msg.to_owned(),
            started_at: now(),
        };
        self.inner.send(it);
        proof {
            self.lemma_push_keeps_wf(old(self).log());
        }
    }

    /// Publishes the `TransformingVideo` event: all segments are local and
    /// the remux step begins.
    pub fn transforming_video(&mut self)
        requires
            old(self).wf(),
            old(self).log().len() > 0,
            !old(self).completed(),
        ensures
            final(self).wf(),
            final(self).log().drop_last() == old(self).log(),
            final(self).log().last() is TransformingVideo,
            !final(self).completed(),
            final(self).receivers() == old(self).receivers(),
    {
        let it = DownloadProgressItem::TransformingVideo { started_at: now() };
        self.inner.send(it);
        proof {
            self.lemma_push_keeps_wf(old(self).log());
        }
    }

    /// Publishes the terminal `Done` event with the final local path, and
    /// completes the stream: nothing can follow.
    pub fn done(&mut self, local_path: &str)
        requires
            old(self).wf(),
            old(self).log().len() > 0,
            !old(self).completed(),
        ensures
            final(self).wf(),
            final(self).log().drop_last() == old(self).log(),
            final(self).log().last() matches DownloadProgressItem::Done { local_path: p, .. } && p@
                == local_path@,
            final(self).completed(),
            final(self).receivers() == old(self).receivers(),
    {
        let it = DownloadProgressItem::Done {
            local_path: local_path.to_owned(),
            completed_at: now(),
        };
        self.inner.send(it);
        self.inner.end();
        proof {
            assert(self.log().drop_last() =~= old(self).log());
            self.lemma_push_keeps_wf(old(self).log());
        }
    }

    /// Publishes the terminal `Failed` event with the failure reason, and
    /// completes the stream: nothing can follow.
    pub fn failed(&mut self, reason: &str)
        requires
            old(self).wf(),
            old(self).log().len() > 0,
            !old(self).completed(),
        ensures
            final(self).wf(),
            final(self).log().drop_last() == old(self).log(),
            final(self).log().last() matches DownloadProgressItem::Failed { reason: r, .. } && r@
                == reason@,
            final(self).completed(),
            final(self).receivers() == old(self).receivers(),
    {
        let it = DownloadProgressItem::Failed { reason: reason.to_owned(), completed_at: now() };
        self.inner.send(it);
        self.inner.end();
        proof {
            assert(self.log().drop_last() =~= old(self).log());
            self.lemma_push_keeps_wf(old(self).log());
        }
    }

    /// Pushing a non-`Started` event onto a well-shaped, unterminated log
    /// keeps the log well shaped.
    proof fn lemma_push_keeps_wf(&self, prev: Seq<DownloadProgressItem>)
        requires
            wf_progress_log(prev),
            prev.len() > 0,
            !is_terminal(prev.last()),
            self.log().len() == prev.len() + 1,
            self.log().drop_last() == prev,
            !is_started(self.log().last()),
        ensures
            wf_progress_log(self.log()),
    {
        let log = self.log();
        assert forall|i: int| 1 <= i < log.len() implies !is_started(#[trigger] log[i]) by {
            if i < log.len() - 1 {
                assert(log[i] == prev[i]);
            }
        }
        assert forall|i: int| 0 <= i < log.len() - 1 implies !is_terminal(#[trigger] log[i]) by {
            assert(log[i] == prev[i]);
            if i < prev.len() - 1 {
            } else {
                assert(log[i] == prev.last());
            }
        }
        assert(log[0] == prev[0]);
    }
}

/// The shape of every finished job's event log: it begins with the one and
/// only `Started` event, it ends with the one and only terminal event, and
/// no event follows the terminal one.
pub proof fn lemma_finished_log_shape(log: Seq<DownloadProgressItem>)
    requires
        wf_progress_log(log),
        log.len() > 0,
        is_terminal(log.last()),
    ensures
        is_started(log[0]),
        forall|i: int| 0 < i < log.len() ==> !is_started(#[trigger] log[i]),
        forall|i: int| 0 <= i < log.len() ==> (is_terminal(#[trigger] log[i]) <==> i == log.len()
            - 1),
{
    assert(is_terminal(log[log.len() - 1]));
}

} // verus!
