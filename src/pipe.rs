//! Both ends of the byte pipe: a writer that hands each write to a channel
//! as one chunk, and a reader that serves those chunks to a pull-based
//! consumer in pieces of any size.
use vstd::prelude::*;
use crate::error::UploadError;
use vstd::math::min;

verus! {

#[verifier::external_type_specification]
#[verifier::external_body]
#[verifier::reject_recursive_types(T)]
pub struct ExSender<T>(std::sync::mpsc::Sender<T>);

#[verifier::external_type_specification]
#[verifier::external_body]
#[verifier::reject_recursive_types(T)]
pub struct ExReceiver<T>(std::sync::mpsc::Receiver<T>);

/// Relies on std's `Sender::send`: hands the chunk to the channel, and fails
/// only when the receiving end is gone, with the error's text. Whether it
/// fails depends on the other thread, so nothing is promised of the result.
#[verifier::external_body]
fn send_chunk(tx: &std::sync::mpsc::Sender<Vec<u8>>, chunk: Vec<u8>) -> (r: Result<(), String>) {
    match tx.send(chunk) {
        Ok(()) => Ok(()),
        Err(e) => Err(e.to_string()),
    }
}

/// Relies on std's `Receiver::recv`: blocks for the next chunk, or gives
/// `None` once every sender is gone. What arrives depends on the other
/// thread, so nothing is promised of it.
#[verifier::external_body]
fn recv_chunk(rx: &std::sync::mpsc::Receiver<Vec<u8>>) -> (r: Option<Vec<u8>>) {
    rx.recv().ok()
}

/// The bytes of a sequence of chunks, one after the other.
pub open spec fn concat_chunks(chunks: Seq<Seq<u8>>) -> Seq<u8>
    decreases chunks.len(),
{
    if chunks.len() == 0 {
        Seq::empty()
    } else {
        concat_chunks(chunks.drop_last()) + chunks.last()
    }
}

/// Appending a chunk appends its bytes.
pub proof fn lemma_concat_push(chunks: Seq<Seq<u8>>, c: Seq<u8>)
    ensures
        concat_chunks(chunks.push(c)) == concat_chunks(chunks) + c,
{
    assert(chunks.push(c).drop_last() =~= chunks);
}

/// Copies a slice into a new vector.
fn copy_to_vec(buf: &[u8]) -> (v: Vec<u8>)
    ensures
        v@ == buf@,
{
    let mut v: Vec<u8> = Vec::new();
    let mut i: usize = 0;
    while i < buf.len()
        invariant
            i <= buf@.len(),
            v@ == buf@.subrange(0, i as int),
        decreases buf@.len() - i,
    {
        v.push(buf[i]);
        i = i + 1;
        assert(v@ =~= buf@.subrange(0, i as int));
    }
    assert(v@ =~= buf@);
    v
}

/// The consumer end of the pipe, read in pieces.
pub struct ChannelReader {
    /// The receiving end, until the reader is closed.
    pub inner: Option<std::sync::mpsc::Receiver<Vec<u8>>>,
    /// The chunk being served.
    pub buffer: Vec<u8>,
    /// How much of `buffer` has been served.
    pub pos: usize,
    /// Every non-empty chunk taken from the channel, in order.
    pub received: Ghost<Seq<Seq<u8>>>,
    /// How many empty chunks were taken from the channel and passed over.
    pub skipped: Ghost<nat>,
    /// Every byte handed out by `read`, in order.
    pub delivered: Ghost<Seq<u8>>,
    /// Whether the last look at the channel found it ended.
    pub ended: Ghost<bool>,
}

/// What one call of `ChannelReader::read` does, from the reader `r0` and
/// the buffer `b0` before the call to `r1` and `b1` after it, having
/// returned `n`.
pub open spec fn read_effect(r0: ChannelReader, r1: ChannelReader, b0: Seq<u8>, b1: Seq<u8>, n: usize) -> bool {
    &&& r1.wf()
    &&& r1.inner == r0.inner
    &&& n <= b0.len()
    &&& b1.len() == b0.len()
    &&& b1.skip(n as int) == b0.skip(n as int)
    &&& r1.delivered@ == r0.delivered@ + b1.take(n as int)
    // A closed reader reads nothing and stays as it was.
    &&& r0.inner is None ==> n == 0 && r1 == r0
    // A chunk in hand is served first, as far as the buffer allows.
    &&& r0.inner is Some && r0.pending().len() > 0 ==> {
        &&& n == min(r0.pending().len() as int, b0.len() as int)
        &&& b1.take(n as int) == r0.pending().take(n as int)
        &&& r1.buffer == r0.buffer
        &&& r1.pos == r0.pos + n
        &&& r1.received == r0.received
        &&& r1.skipped == r0.skipped
        &&& r1.ended == r0.ended
    }
    // Otherwise empty chunks are passed over until the channel ends or
    // gives a non-empty chunk, which is then served.
    &&& r0.inner is Some && r0.pending().len() == 0 ==> {
        ||| {
            &&& r1.ended@
            &&& n == 0
            &&& r1.received == r0.received
            &&& r1.buffer == r0.buffer
            &&& r1.pos == r0.pos
            &&& r1.skipped@ >= r0.skipped@
        }
        ||| {
            &&& !r1.ended@
            &&& r1.buffer@.len() > 0
            &&& r1.received@ == r0.received@.push(r1.buffer@)
            &&& n == min(r1.buffer@.len() as int, b0.len() as int)
            &&& r1.pos == n
            &&& b1.take(n as int) == r1.buffer@.take(n as int)
            &&& r1.skipped@ >= r0.skipped@
        }
        ||| {
            &&& r1.skipped@ == r0.skipped@ + u64::MAX
            &&& n == 0
            &&& r1.received == r0.received
            &&& r1.buffer == r0.buffer
            &&& r1.pos == r0.pos
            &&& r1.ended == r0.ended
        }
    }
}

impl ChannelReader {
    /// The part of the current chunk not yet handed out.
    pub open spec fn pending(&self) -> Seq<u8> {
        self.buffer@.subrange(self.pos as int, self.buffer@.len() as int)
    }

    /// The bytes read so far, followed by those still held, are exactly the
    /// bytes received.
    pub open spec fn wf(&self) -> bool {
        &&& self.pos <= self.buffer@.len()
        &&& concat_chunks(self.received@) == self.delivered@ + self.pending()
        &&& self.ended@ ==> self.pending().len() == 0
    }

    pub fn new(receiver: std::sync::mpsc::Receiver<Vec<u8>>) -> (r: Self)
        ensures
            r.wf(),
            r.inner == Some(receiver),
            r.buffer@ == Seq::<u8>::empty(),
            r.pos == 0,
            r.received@ == Seq::<Seq<u8>>::empty(),
            r.skipped@ == 0,
            r.delivered@ == Seq::<u8>::empty(),
            !r.ended@,
    {
        let r = ChannelReader {
            inner: Some(receiver),
            buffer: Vec::new(),
            pos: 0,
            received: Ghost(Seq::empty()),
            skipped: Ghost(0),
            delivered: Ghost(Seq::empty()),
            ended: Ghost(false),
        };
        assert(r.pending() =~= Seq::<u8>::empty());
        r
    }

    /// Lets go of the receiving end; later reads give 0.
    pub fn close(&mut self)
        ensures
            *final(self) == (ChannelReader { inner: None, ..*old(self) }),
    {
        self.inner = None;
    }

    /// Copies `n` pending bytes into the front of `buf`.
    fn serve(&mut self, buf: &mut [u8], n: usize)
        requires
            old(self).wf(),
            n <= old(self).pending().len(),
            n <= old(buf)@.len(),
        ensures
            final(self).wf(),
            final(self).inner == old(self).inner,
            final(self).buffer == old(self).buffer,
            final(self).pos == old(self).pos + n,
            final(self).received == old(self).received,
            final(self).skipped == old(self).skipped,
            final(self).ended == old(self).ended,
            final(self).delivered@ == old(self).delivered@ + old(self).pending().take(n as int),
            final(self).pending() == old(self).pending().skip(n as int),
            final(buf)@ == old(self).pending().take(n as int) + old(buf)@.skip(n as int),
    {
        let ghost start = self.pos;
        let ghost buf0 = buf@;
        let total = self.buffer.len();
        let mut i: usize = 0;
        while i < n
            invariant
                0 <= i <= n,
                self.buffer@.len() == total,
                n <= buf0.len(),
                start + n <= self.buffer@.len(),
                self.pos == start,
                buf@.len() == buf0.len(),
                forall|k: int| 0 <= k < i ==> buf@[k] == self.buffer@[start + k],
                forall|k: int| i <= k < buf0.len() ==> buf@[k] == buf0[k],
            decreases n - i,
        {
            buf[i] = self.buffer[self.pos + i];
            i = i + 1;
        }
        let ghost taken = self.pending().take(n as int);
        self.pos = self.pos + n;
        self.delivered = Ghost(self.delivered@ + taken);
        assert(buf@ =~= taken + buf0.skip(n as int));
        assert(self.pending() =~= old(self).pending().skip(n as int));
        assert(old(self).pending() =~= taken + self.pending());
        assert(self.delivered@ + self.pending() =~= old(self).delivered@ + old(self).pending());
    }

    /// Reads up to `buf.len()` bytes: the rest of the current chunk, or of
    /// the next non-empty one when the current one is used up. Gives 0 at
    /// the end of the stream and after `close`. Empty chunks are passed
    /// over, so that they are not taken for the end; after `u64::MAX` of
    /// them in a row the read gives up and returns 0.
    pub fn read(&mut self, buf: &mut [u8]) -> (n: usize)
        requires
            old(self).wf(),
        ensures
            read_effect(*old(self), *final(self), old(buf)@, final(buf)@, n),
    {
        proof {
            assert(buf@.skip(0) =~= buf@);
            assert(buf@.take(0) =~= Seq::<u8>::empty());
            assert(self.delivered@ + buf@.take(0) =~= self.delivered@);
        }
        match &self.inner {
            None => 0,
            Some(receiver) => {
                if self.pos >= self.buffer.len() {
                    let mut budget: u64 = u64::MAX;
                    let mut fresh: Option<Vec<u8>> = None;
                    loop
                        invariant_except_break
                            fresh is None,
                        invariant
                            self.wf(),
                            old(self).inner is Some,
                            old(self).pending().len() == 0,
                            self.inner == old(self).inner,
                            self.buffer == old(self).buffer,
                            self.pos == old(self).pos,
                            self.received == old(self).received,
                            self.delivered == old(self).delivered,
                            self.ended == old(self).ended,
                            self.skipped@ == old(self).skipped@ + (u64::MAX - budget),
                            self.pending().len() == 0,
                            buf@ == old(buf)@,
                            self.delivered@ + buf@.take(0) == self.delivered@,
                            buf@.skip(0) == buf@,
                        ensures
                            fresh matches Some(d) && d@.len() > 0,
                        decreases budget,
                    {
                        if budget == 0 {
                            return 0;
                        }
                        match recv_chunk(receiver) {
                            Some(data) => {
                                if data.len() > 0 {
                                    fresh = Some(data);
                                    break;
                                }
                                budget = budget - 1;
                                self.skipped = Ghost(self.skipped@ + 1);
                            },
                            None => {
                                self.ended = Ghost(true);
                                return 0;
                            },
                        }
                    }
                    if let Some(data) = fresh {
                        proof {
                            lemma_concat_push(self.received@, data@);
                            assert(self.delivered@ + self.pending() =~= self.delivered@);
                        }
                        self.received = Ghost(self.received@.push(data@));
                        self.buffer = data;
                        self.pos = 0;
                        self.ended = Ghost(false);
                        assert(self.pending() =~= self.buffer@);
                    }
                }
                let remaining = self.buffer.len() - self.pos;
                let to_read = if remaining < buf.len() {
                    remaining
                } else {
                    buf.len()
                };
                let ghost held = self.pending();
                self.serve(buf, to_read);
                assert(buf@.take(to_read as int) =~= held.take(to_read as int));
                assert(buf@.skip(to_read as int) =~= old(buf)@.skip(to_read as int));
                to_read
            },
        }
    }
}

/// Once the body has been read to its end, and every chunk sent through
/// the pipe was received, the body holds exactly the bytes written, in the
/// order written.
pub proof fn lemma_body_matches_writes(reader: ChannelReader, writer: ChannelWriter)
    requires
        reader.wf(),
        reader.ended@,
        reader.received@ == writer.sent@,
    ensures
        reader.delivered@ == writer.bytes_sent(),
{
    assert(reader.delivered@ =~= reader.delivered@ + reader.pending());
}

/// The producer end of the pipe: each write becomes one chunk.
pub struct ChannelWriter {
    /// The sending end, until the writer is closed.
    pub inner: Option<std::sync::mpsc::Sender<Vec<u8>>>,
    /// Every non-empty chunk handed to the channel, in order.
    pub sent: Ghost<Seq<Seq<u8>>>,
}

impl ChannelWriter {
    /// Only non-empty chunks are recorded: a reader passes over the others.
    pub open spec fn wf(&self) -> bool {
        forall|i: int| 0 <= i < self.sent@.len() ==> #[trigger] self.sent@[i].len() > 0
    }

    /// The bytes handed to the channel so far.
    pub open spec fn bytes_sent(&self) -> Seq<u8> {
        concat_chunks(self.sent@)
    }

    pub fn new(sender: std::sync::mpsc::Sender<Vec<u8>>) -> (r: Self)
        ensures
            r.wf(),
            r.inner == Some(sender),
            r.sent@ == Seq::<Seq<u8>>::empty(),
    {
        ChannelWriter { inner: Some(sender), sent: Ghost(Seq::empty()) }
    }

    /// Lets go of the sending end, so that the reader sees the end of the
    /// stream; closing again changes nothing.
    pub fn close(&mut self)
        ensures
            final(self).inner is None,
            final(self).sent == old(self).sent,
    {
        self.inner = None;
    }

    /// Sends a copy of `buf` as one chunk, and fails with `BrokenPipe`,
    /// carrying the channel's reason, when the reader is gone. After
    /// `close` nothing is sent and 0 bytes are written.
    pub fn write(&mut self, buf: &[u8]) -> (r: Result<usize, UploadError>)
        requires
            old(self).wf(),
        ensures
            final(self).wf(),
            final(self).inner == old(self).inner,
            old(self).inner is None ==> r == Ok::<usize, UploadError>(0)
                && final(self).sent == old(self).sent,
            old(self).inner is Some ==> match r {
                Ok(n) => {
                    &&& n == buf@.len()
                    &&& final(self).sent@ == if buf@.len() > 0 {
                        old(self).sent@.push(buf@)
                    } else {
                        old(self).sent@
                    }
                    &&& final(self).bytes_sent() == old(self).bytes_sent() + buf@
                },
                Err(e) => e is BrokenPipe && final(self).sent == old(self).sent,
            },
    {
        match &self.inner {
            None => Ok(0),
            Some(sender) => {
                let chunk = copy_to_vec(buf);
                match send_chunk(sender, chunk) {
                    Ok(()) => {
                        if buf.len() > 0 {
                            proof {
                                lemma_concat_push(self.sent@, buf@);
                            }
                            self.sent = Ghost(self.sent@.push(buf@));
                        } else {
                            assert(self.bytes_sent() + buf@ =~= self.bytes_sent());
                        }
                        Ok(buf.len())
                    },
                    Err(reason) => Err(UploadError::BrokenPipe(reason)),
                }
            },
        }
    }

    /// Nothing is buffered, so there is nothing to flush.
    pub fn flush(&mut self) -> (r: Result<(), UploadError>)
        ensures
            r is Ok,
            *final(self) == *old(self),
    {
        Ok(())
    }
}

} // verus!
