//! A reader that reports every byte it passes on to a progress bar, and
//! the step that ends the bar when the upload succeeds.
use vstd::prelude::*;
use crate::error::{UploadError, status_outcome, check_status};
use crate::pipe::{ChannelReader, ChannelWriter, read_effect};

verus! {

#[verifier::external_type_specification]
#[verifier::external_body]
pub struct ExProgressBar(indicatif::ProgressBar);

/// Relies on indicatif's `ProgressBar::inc`: advances the bar by `delta`.
/// The bar is shared with its renderer, so nothing is promised of it here.
pub assume_specification[ indicatif::ProgressBar::inc ](pb: &indicatif::ProgressBar, delta: u64);

/// Relies on indicatif's `ProgressBar::finish_with_message`: marks the bar
/// finished and shows `msg`.
#[verifier::external_body]
fn finish_with_message(pb: &indicatif::ProgressBar, msg: &'static str) {
    pb.finish_with_message(msg)
}

/// Passes reads through from a pipe reader, adding each positive count to
/// the progress bar.
pub struct ProgressReader {
    pub inner: ChannelReader,
    pub pb: indicatif::ProgressBar,
    /// The sum of all increments given to the bar.
    pub reported: Ghost<nat>,
}

impl ProgressReader {
    /// The bar has been advanced by exactly the bytes handed out.
    pub open spec fn wf(&self) -> bool {
        &&& self.inner.wf()
        &&& self.reported@ == self.inner.delivered@.len()
    }

    pub fn new(inner: ChannelReader, pb: indicatif::ProgressBar) -> (r: Self)
        requires
            inner.wf(),
            inner.delivered@.len() == 0,
        ensures
            r.wf(),
            r.inner == inner,
            r.reported@ == 0,
    {
        ProgressReader { inner, pb, reported: Ghost(0) }
    }

    /// Reads as the inner reader does, returning its count and leaving its
    /// bytes, then advances the bar by the count when it is positive. The
    /// total reported never goes down.
    pub fn read(&mut self, buf: &mut [u8]) -> (n: usize)
        requires
            old(self).wf(),
        ensures
            final(self).wf(),
            read_effect(old(self).inner, final(self).inner, old(buf)@, final(buf)@, n),
            final(self).pb == old(self).pb,
            final(self).reported@ == old(self).reported@ + n,
            final(self).reported@ >= old(self).reported@,
    {
        let n = self.inner.read(buf);
        if n > 0 {
            self.pb.inc(n as u64);
        }
        self.reported = Ghost((self.reported@ + n) as nat);
        n
    }
}

/// Ends the streaming upload once the server answered with `status`: on a
/// success status the bar is marked finished, otherwise the upload failed
/// with that status.
pub fn finish_upload(pb: &indicatif::ProgressBar, status: u16) -> (r: Result<(), UploadError>)
    ensures
        r == status_outcome(status),
{
    let r = check_status(status);
    if r.is_ok() {
        finish_with_message(pb, "[OK]");
    }
    r
}

/// Once the body has been read to its end, and every chunk sent through
/// the pipe was received, the bar has been advanced by exactly the number
/// of bytes written.
pub proof fn lemma_progress_total(pr: ProgressReader, writer: ChannelWriter)
    requires
        pr.wf(),
        pr.inner.ended@,
        pr.inner.received@ == writer.sent@,
    ensures
        pr.reported@ == writer.bytes_sent().len(),
{
    assert(pr.inner.pending().len() == 0);
    assert(pr.inner.delivered@ =~= pr.inner.delivered@ + pr.inner.pending());
}

} // verus!
