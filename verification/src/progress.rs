//! Progress reporting for a long-running download, modelled as a stream of
//! discrete events: `Started` precedes every `Progress`, and `Finished` is
//! emitted exactly once and last.  The surrounding application forwards each
//! emitted event to its UI layer.

use vstd::prelude::*;

verus! {

/// One progress event handed to the UI layer.
#[derive(Debug)]
pub enum ProgressEvent {
    /// Emitted once, before any `Progress`, with the total size when known.
    Started { total: Option<u64> },
    /// One received chunk: its length, the bytes downloaded so far, and the
    /// total size when known.
    Progress { chunk: u64, downloaded: u64, total: Option<u64> },
    /// Emitted exactly once, after every other event.
    Finished,
}

/// The saturating running total of downloaded bytes.
pub open spec fn saturated_add(a: u64, b: u64) -> u64 {
    if a + b <= u64::MAX {
        (a + b) as u64
    } else {
        u64::MAX
    }
}

/// Accumulates download progress and emits events in the guaranteed order:
/// `Started` once with the first chunk, a `Progress` per chunk, `Finished`
/// once at the end and never before another event follows.
pub struct ProgressTracker {
    pub started: bool,
    pub finished: bool,
    pub downloaded: u64,
    pub total: Option<u64>,
}

impl ProgressTracker {
    /// A tracker that has seen nothing yet.
    pub fn new() -> (r: ProgressTracker)
        ensures
            !r.started,
            !r.finished,
            r.downloaded == 0,
            r.total is None,
    {
        ProgressTracker { started: false, finished: false, downloaded: 0, total: None }
    }

    /// Records one received chunk.  The first chunk fixes the total and
    /// emits `Started` followed by a `Progress`; every later chunk emits one
    /// `Progress`.  The running total saturates rather than overflowing.
    pub fn on_chunk(&mut self, chunk_len: u64, content_length: Option<u64>) -> (events: Vec<
        ProgressEvent,
    >)
        requires
            !old(self).finished,
        ensures
            final(self).started,
            !final(self).finished,
            final(self).downloaded == saturated_add(old(self).downloaded, chunk_len),
            final(self).total == (if old(self).started {
                old(self).total
            } else {
                content_length
            }),
            events@.len() == (if old(self).started {
                1int
            } else {
                2int
            }),
            !old(self).started ==> events@[0] == (ProgressEvent::Started {
                total: content_length,
            }),
            events@.last() == (ProgressEvent::Progress {
                chunk: chunk_len,
                downloaded: final(self).downloaded,
                total: final(self).total,
            }),
    {
        let mut events: Vec<ProgressEvent> = Vec::new();
        if !self.started {
            self.total = content_length;
            self.started = true;
            events.push(ProgressEvent::Started { total: content_length });
        }
        self.downloaded = if self.downloaded <= u64::MAX - chunk_len {
            self.downloaded + chunk_len
        } else {
            u64::MAX
        };
        events.push(
            ProgressEvent::Progress {
                chunk: chunk_len,
                downloaded: self.downloaded,
                total: self.total,
            },
        );
        events
    }

    /// Ends the stream: emits `Finished`, exactly once, after which no
    /// further event can be produced.
    pub fn on_finished(&mut self) -> (event: ProgressEvent)
        requires
            !old(self).finished,
        ensures
            final(self).finished,
            final(self).started == old(self).started,
            final(self).downloaded == old(self).downloaded,
            final(self).total == old(self).total,
            event == ProgressEvent::Finished,
    {
        self.finished = true;
        ProgressEvent::Finished
    }
}

} // verus!
