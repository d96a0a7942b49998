//! The decisions of an upload session: what a write does, what a failed
//! write reports once the worker has been looked at, and how the session is
//! finalized exactly once. The caller runs the worker thread and hands the
//! outcome of each look at it back as an event.
use vstd::prelude::*;
use crate::error::{UploadError, status_outcome, is_success_status, existence_outcome};
use crate::pipe::{ChannelWriter, concat_chunks};

verus! {

/// Whether the worker still has to be joined.
#[derive(Debug, Clone, Copy, PartialEq, Eq, Structural)]
pub enum WorkerState {
    Running,
    Joined,
}

/// What was found when looking at the worker after a failed write.
#[derive(Debug)]
pub enum WorkerEvent {
    /// The worker has not finished: it is left to run.
    StillRunning,
    /// The worker had finished and was joined with this result.
    Finished(Result<(), UploadError>),
}

/// What a write did, or what the caller has to do next.
#[derive(Debug, PartialEq, Eq)]
pub enum WriteStep {
    /// All the bytes were handed to the pipe.
    Written(usize),
    /// The write failed with this error.
    Failed(UploadError),
    /// The pipe broke with this error while the worker was running: look
    /// at the worker and pass the finding to `after_failed_send`.
    CheckWorker(UploadError),
}

/// What finalizing asks of the caller.
#[derive(Debug, Clone, Copy, PartialEq, Eq)]
pub enum CloseStep {
    /// Wait for the worker and pass its result to `finish_close`.
    JoinWorker,
    /// Nothing is left to wait for or to report.
    Done,
}

/// The producer side of an upload: the pipe's writer, the count of bytes
/// written, and where the worker stands.
pub struct UploadSession {
    pub tx: ChannelWriter,
    /// Bytes accepted by `write` so far.
    pub pos: u64,
    pub worker: WorkerState,
    /// The error the worker ended with, once it has been joined after a
    /// failed write.
    pub failure: Option<UploadError>,
    /// Whether the session has been finalized.
    pub closed: bool,
}

/// The sum of the lengths of a sequence of chunks.
pub open spec fn total_len(chunks: Seq<Seq<u8>>) -> nat
    decreases chunks.len(),
{
    if chunks.len() == 0 {
        0
    } else {
        total_len(chunks.drop_last()) + chunks.last().len()
    }
}

/// The bytes of a sequence of chunks number the sum of their lengths.
pub proof fn lemma_concat_len(chunks: Seq<Seq<u8>>)
    ensures
        concat_chunks(chunks).len() == total_len(chunks),
    decreases chunks.len(),
{
    if chunks.len() > 0 {
        lemma_concat_len(chunks.drop_last());
    }
}

/// The error that a failed write reports once the worker has been looked
/// at: the worker's own error when it had finished with one, the pipe's
/// error otherwise.
pub open spec fn failed_send_report(s: UploadSession, pipe_err: UploadError, event: WorkerEvent) -> UploadError {
    match (s.worker, event) {
        (WorkerState::Running, WorkerEvent::Finished(Err(w))) => w,
        _ => pipe_err,
    }
}

/// The session after a failed write: a finished worker counts as joined
/// and the reported error is kept for later writes.
pub open spec fn failed_send_state(s: UploadSession, pipe_err: UploadError, event: WorkerEvent) -> UploadSession {
    match (s.worker, event) {
        (WorkerState::Running, WorkerEvent::Finished(_)) => UploadSession {
            worker: WorkerState::Joined,
            failure: Some(failed_send_report(s, pipe_err, event)),
            ..s
        },
        _ => s,
    }
}

/// What the first step of finalizing asks for: a join only the first time
/// and only while the worker has not been joined.
pub open spec fn close_step(s: UploadSession) -> CloseStep {
    if !s.closed && s.worker == WorkerState::Running {
        CloseStep::JoinWorker
    } else {
        CloseStep::Done
    }
}

/// The session once its writer is closed.
pub open spec fn closed_state(s: UploadSession) -> UploadSession {
    UploadSession { tx: ChannelWriter { inner: None, ..s.tx }, closed: true, ..s }
}

/// What finalizing reports once the worker's result is known: that result
/// the first time the worker is joined, success after that.
pub open spec fn finish_result(s: UploadSession, outcome: Result<(), UploadError>) -> Result<(), UploadError> {
    if s.worker == WorkerState::Running {
        outcome
    } else {
        Ok(())
    }
}

/// The session once the worker has been joined by finalizing.
pub open spec fn finished_state(s: UploadSession, outcome: Result<(), UploadError>) -> UploadSession {
    if s.worker == WorkerState::Running {
        UploadSession {
            worker: WorkerState::Joined,
            failure: match outcome {
                Ok(()) => s.failure,
                Err(e) => Some(e),
            },
            ..s
        }
    } else {
        s
    }
}

impl UploadSession {
    /// The counter matches the bytes sent; an open session can still send.
    pub open spec fn wf(&self) -> bool {
        &&& self.tx.wf()
        &&& self.pos == self.tx.bytes_sent().len()
        &&& !self.closed ==> self.tx.inner is Some
    }

    /// A session whose existence check passed, writing into `sender` while
    /// a worker reads the other end.
    pub fn new(sender: std::sync::mpsc::Sender<Vec<u8>>) -> (r: Self)
        ensures
            r.wf(),
            r.tx.inner == Some(sender),
            r.tx.sent@ == Seq::<Seq<u8>>::empty(),
            r.pos == 0,
            r.worker == WorkerState::Running,
            r.failure is None,
            !r.closed,
    {
        UploadSession {
            tx: ChannelWriter::new(sender),
            pos: 0,
            worker: WorkerState::Running,
            failure: None,
            closed: false,
        }
    }

    /// Opens a session on `sender` only when the zero-length PUT was answered
    /// with a success status; otherwise gives its error and no session.
    pub fn open(answer: Result<u16, UploadError>, sender: std::sync::mpsc::Sender<Vec<u8>>) -> (r:
        Result<Self, UploadError>)
        ensures
            match answer {
                Ok(code) => if is_success_status(code) {
                    r matches Ok(s) && s.wf() && s.tx.inner == Some(sender) && s.tx.sent@
                        == Seq::<Seq<u8>>::empty() && s.pos == 0 && s.worker
                        == WorkerState::Running && s.failure is None && !s.closed
                } else {
                    r matches Err(e) && e == UploadError::UploadFailed(code)
                },
                Err(e) => r matches Err(f) && f == e,
            },
    {
        match existence_outcome(answer) {
            Ok(()) => Ok(UploadSession::new(sender)),
            Err(e) => Err(e),
        }
    }

    /// Writes all of `buf` into the pipe. After a recorded failure the write
    /// fails with it at once, and after finalizing with `ChannelClosed`.
    /// When the pipe breaks, the caller looks at a running worker before
    /// reporting.
    pub fn write(&mut self, buf: &[u8]) -> (r: WriteStep)
        requires
            old(self).wf(),
            old(self).pos + buf@.len() <= u64::MAX,
        ensures
            final(self).wf(),
            old(self).failure matches Some(e) ==> r == WriteStep::Failed(e) && *final(self)
                == *old(self),
            old(self).failure is None && old(self).closed ==> r == WriteStep::Failed(
                UploadError::ChannelClosed,
            ) && *final(self) == *old(self),
            old(self).failure is None && !old(self).closed ==> match r {
                WriteStep::Written(n) => {
                    &&& n == buf@.len()
                    &&& final(self).pos == old(self).pos + n
                    &&& final(self).tx.sent@ == if buf@.len() > 0 {
                        old(self).tx.sent@.push(buf@)
                    } else {
                        old(self).tx.sent@
                    }
                    &&& final(self).tx.bytes_sent() == old(self).tx.bytes_sent() + buf@
                    &&& final(self).tx.inner == old(self).tx.inner
                    &&& final(self).worker == old(self).worker
                    &&& final(self).failure == old(self).failure
                    &&& final(self).closed == old(self).closed
                },
                WriteStep::CheckWorker(e) => {
                    &&& e is BrokenPipe
                    &&& old(self).worker == WorkerState::Running
                    &&& *final(self) == *old(self)
                },
                WriteStep::Failed(e) => {
                    &&& e is BrokenPipe
                    &&& old(self).worker == WorkerState::Joined
                    &&& *final(self) == *old(self)
                },
            },
    {
        match &self.failure {
            Some(e) => {
                return WriteStep::Failed(e.duplicate());
            },
            None => {},
        }
        if self.closed {
            return WriteStep::Failed(UploadError::ChannelClosed);
        }
        match self.tx.write(buf) {
            Ok(n) => {
                self.pos = self.pos + n as u64;
                WriteStep::Written(n)
            },
            Err(e) => {
                if self.worker == WorkerState::Running {
                    WriteStep::CheckWorker(e)
                } else {
                    WriteStep::Failed(e)
                }
            },
        }
    }

    /// Takes in what was found when looking at the worker after the pipe
    /// broke with `pipe_err`, and gives the error to report.
    pub fn after_failed_send(&mut self, pipe_err: UploadError, event: WorkerEvent) -> (r: UploadError)
        requires
            old(self).wf(),
        ensures
            final(self).wf(),
            r == failed_send_report(*old(self), pipe_err, event),
            *final(self) == failed_send_state(*old(self), pipe_err, event),
    {
        if self.worker == WorkerState::Joined {
            return pipe_err;
        }
        match event {
            WorkerEvent::StillRunning => pipe_err,
            WorkerEvent::Finished(outcome) => {
                let report = match outcome {
                    Ok(()) => pipe_err,
                    Err(w) => w,
                };
                self.worker = WorkerState::Joined;
                self.failure = Some(report.duplicate());
                report
            },
        }
    }

    /// First step of finalizing: closes the writer, so that the worker sees
    /// the end of the body, and says whether the worker is still to be
    /// joined.
    pub fn begin_close(&mut self) -> (r: CloseStep)
        requires
            old(self).wf(),
        ensures
            final(self).wf(),
            r == close_step(*old(self)),
            *final(self) == closed_state(*old(self)),
    {
        let r = if !self.closed && self.worker == WorkerState::Running {
            CloseStep::JoinWorker
        } else {
            CloseStep::Done
        };
        self.tx.close();
        self.closed = true;
        r
    }

    /// Last step of finalizing: takes in the joined worker's result and
    /// gives what finalizing reports.
    pub fn finish_close(&mut self, outcome: Result<(), UploadError>) -> (r: Result<(), UploadError>)
        requires
            old(self).wf(),
        ensures
            final(self).wf(),
            r == finish_result(*old(self), outcome),
            *final(self) == finished_state(*old(self), outcome),
    {
        if self.worker == WorkerState::Joined {
            return Ok(());
        }
        self.worker = WorkerState::Joined;
        if let Err(e) = &outcome {
            self.failure = Some(e.duplicate());
        }
        outcome
    }
}

/// The counter of a session is the sum of the lengths of what it wrote.
pub proof fn lemma_written_is_sum(s: UploadSession)
    requires
        s.wf(),
    ensures
        s.pos == total_len(s.tx.sent@),
{
    lemma_concat_len(s.tx.sent@);
}

/// When the streaming request is answered with a failure status, that
/// status is what the session reports: to a write whose send failed once
/// the finished worker is joined, to every write after it, and to
/// finalizing when no write failed first.
pub proof fn lemma_status_failure_surfaces(s: UploadSession, pipe_err: UploadError, status: u16)
    requires
        s.wf(),
        s.worker == WorkerState::Running,
        !is_success_status(status),
    ensures
        failed_send_report(s, pipe_err, WorkerEvent::Finished(status_outcome(status)))
            == UploadError::UploadFailed(status),
        failed_send_state(s, pipe_err, WorkerEvent::Finished(status_outcome(status))).failure
            == Some(UploadError::UploadFailed(status)),
        !s.closed ==> close_step(s) == CloseStep::JoinWorker,
        finish_result(closed_state(s), status_outcome(status)) == Err::<(), UploadError>(
            UploadError::UploadFailed(status),
        ),
{
}

/// Finalizing a second time joins nothing and reports nothing, whatever the
/// first time found.
pub proof fn lemma_finalize_once(s: UploadSession, first: Result<(), UploadError>, second: Result<(), UploadError>)
    requires
        s.wf(),
        !s.closed,
    ensures
        ({
            let c = closed_state(s);
            let once = if close_step(s) == CloseStep::JoinWorker {
                finished_state(c, first)
            } else {
                c
            };
            &&& close_step(once) == CloseStep::Done
            &&& finish_result(closed_state(once), second) == Ok::<(), UploadError>(())
        }),
{
}

} // verus!
