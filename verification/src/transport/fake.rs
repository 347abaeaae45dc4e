//! A transport backed by scripted bytes, for tests.
//!
//! The point is determinism. Every ASH and EZSP behaviour worth testing --
//! a reset handshake, a retransmission, a callback interleaved with a
//! response, a corrupt frame followed by a good one -- can be expressed as
//! "these bytes arrive in this order", with no hardware, no timing and no
//! flakiness.
//!
//! It also serves as the replay mechanism for captured traces: a real
//! hardware bug becomes a recorded byte string and a test that fails until it
//! is fixed.

use std::collections::VecDeque;

use vstd::prelude::*;

use crate::transport::error::TransportError;

verus! {

/// A transport that returns queued bytes and records what was written.
#[derive(Debug)]
pub struct FakeTransport {
    /// Chunks still to be handed out, in order.
    to_read: VecDeque<Vec<u8>>,
    /// Everything written, concatenated.
    written: Vec<u8>,
    /// Set to fail the next read.
    fail_next_read: Option<TransportError>,
    /// Whether the other end has gone away.
    ///
    /// Distinct from having nothing queued. A real port with no data pends
    /// until some arrives; only an unplugged device closes. Conflating the two
    /// makes every test that waits for a timeout report a transport failure
    /// instead.
    closed: bool,
}

/// What a scripted transport holds.
pub struct FakeTransportModel {
    /// Chunks still to be handed out, in order.
    pub to_read: Seq<Seq<u8>>,
    /// Everything written, concatenated.
    pub written: Seq<u8>,
    /// What the next read fails with.
    pub fail_next_read: Option<TransportError>,
    /// Whether the other end has gone away.
    pub closed: bool,
}

/// Chunks as byte sequences.
pub open spec fn chunk_bytes(chunks: Seq<Vec<u8>>) -> Seq<Seq<u8>> {
    Seq::new(chunks.len(), |i: int| chunks[i]@)
}

impl View for FakeTransport {
    type V = FakeTransportModel;

    closed spec fn view(&self) -> FakeTransportModel {
        FakeTransportModel {
            to_read: chunk_bytes(self.to_read@),
            written: self.written@,
            fail_next_read: self.fail_next_read,
            closed: self.closed,
        }
    }
}

impl FakeTransportModel {
    /// A script with these chunks, and nothing that has happened yet.
    pub open spec fn script(chunks: Seq<Seq<u8>>) -> FakeTransportModel {
        FakeTransportModel {
            to_read: chunks,
            written: seq![],
            fail_next_read: None,
            closed: false,
        }
    }
}

impl Default for FakeTransport {
    fn default() -> (res: Self)
        ensures
            res@ == FakeTransportModel::script(seq![]),
    {
        let res = FakeTransport {
            to_read: VecDeque::new(),
            written: Vec::new(),
            fail_next_read: None,
            closed: false,
        };
        proof {
            assert(res@.to_read =~= seq![]);
        }
        res
    }
}

impl FakeTransport {
    /// A transport with nothing queued.
    pub fn new() -> (res: Self)
        ensures
            res@ == FakeTransportModel::script(seq![]),
    {
        FakeTransport::default()
    }

    /// A transport that will hand out these chunks, in order.
    ///
    /// Chunk boundaries are meaningful: they model the arbitrary boundaries a
    /// real serial read produces, which is exactly what a frame decoder must
    /// not depend on.
    pub fn with_chunks(chunks: Vec<Vec<u8>>) -> (res: Self)
        ensures
            res@ == FakeTransportModel::script(chunk_bytes(chunks@)),
    {
        let ghost all = chunks@;
        let mut left: Vec<Vec<u8>> = chunks;
        let mut to_read: VecDeque<Vec<u8>> = VecDeque::new();
        while left.len() > 0
            invariant
                left@.len() <= all.len(),
                left@ == all.take(left@.len() as int),
                to_read@ == all.skip(left@.len() as int),
            decreases left@.len(),
        {
            if let Some(chunk) = left.pop() {
                to_read.push_front(chunk);
                proof {
                    assert(left@ =~= all.take(left@.len() as int));
                    assert(to_read@ =~= all.skip(left@.len() as int));
                }
            }
        }
        proof {
            assert(to_read@ =~= all);
        }
        FakeTransport { to_read, written: Vec::new(), fail_next_read: None, closed: false }
    }

    /// Queues another chunk to be read.
    pub fn push_chunk(&mut self, chunk: Vec<u8>)
        ensures
            final(self)@ == (FakeTransportModel {
                to_read: old(self)@.to_read.push(chunk@),
                ..old(self)@
            }),
    {
        self.to_read.push_back(chunk);
        proof {
            assert(self@.to_read =~= old(self)@.to_read.push(chunk@));
        }
    }

    /// Makes the next read fail.
    pub fn fail_next_read(&mut self, error: TransportError)
        ensures
            final(self)@ == (FakeTransportModel { fail_next_read: Some(error), ..old(self)@ }),
    {
        self.fail_next_read = Some(error);
    }

    /// Models the other end going away.
    ///
    /// Without this, "nothing more to read" and "the device was unplugged"
    /// would be the same thing, and they call for opposite responses: one
    /// waits, the other gives up.
    pub fn close(&mut self)
        ensures
            final(self)@ == (FakeTransportModel { closed: true, ..old(self)@ }),
    {
        self.closed = true;
    }

    /// Everything written so far.
    pub fn written(&self) -> (res: &[u8])
        ensures
            res@ == self@.written,
    {
        self.written.as_slice()
    }

    /// Whether every queued chunk has been read.
    pub fn is_drained(&self) -> (res: bool)
        ensures
            res == (self@.to_read.len() == 0),
    {
        self.to_read.len() == 0
    }

    /// Records bytes as written. A scripted transport accepts everything.
    pub fn write(&mut self, data: &[u8]) -> (res: Result<(), TransportError>)
        ensures
            res is Ok,
            final(self)@ == (FakeTransportModel {
                written: old(self)@.written + data@,
                ..old(self)@
            }),
    {
        self.written.extend_from_slice(data);
        proof {
            assert(self@.written =~= old(self)@.written + data@);
        }
        Ok(())
    }

    /// What a read gives now: a scripted failure once, else the next chunk,
    /// else that the other end has gone.
    ///
    /// `None` is a drained but open transport, which pends like a real port
    /// with nothing to say. The caller's deadline decides what that means.
    /// Answering `Closed` here would turn every expected timeout into a
    /// transport failure, and an empty chunk would make a caller spin.
    pub fn read(&mut self) -> (res: Option<Result<Vec<u8>, TransportError>>)
        ensures
            match old(self)@.fail_next_read {
                Some(error) => {
                    &&& res == Some(Err::<Vec<u8>, TransportError>(error))
                    &&& final(self)@ == (FakeTransportModel { fail_next_read: None, ..old(self)@ })
                },
                None => if old(self)@.to_read.len() > 0 {
                    &&& res matches Some(Ok(chunk)) && chunk@ == old(self)@.to_read[0]
                    &&& final(self)@ == (FakeTransportModel {
                        to_read: old(self)@.to_read.skip(1),
                        ..old(self)@
                    })
                } else if old(self)@.closed {
                    &&& res == Some(Err::<Vec<u8>, TransportError>(TransportError::Closed))
                    &&& final(self)@ == old(self)@
                } else {
                    &&& res is None
                    &&& final(self)@ == old(self)@
                },
            },
    {
        if let Some(error) = self.fail_next_read.take() {
            return Some(Err(error));
        }
        if let Some(chunk) = self.to_read.pop_front() {
            proof {
                assert(self@.to_read =~= old(self)@.to_read.skip(1));
            }
            return Some(Ok(chunk));
        }
        if self.closed {
            return Some(Err(TransportError::Closed));
        }
        None
    }
}

} // verus!
