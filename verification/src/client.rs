//! The serve loop of the client that owns the connection to one motion
//! controller: one request at a time, each frame followed by its own read
//! before the next frame goes out.

use vstd::prelude::*;
use vstd::slice::slice_to_vec;
use crate::controller::REPLY_WINDOW;

verus! {

/// Least time between two requests, in milliseconds.
pub const REQUEST_SPACING_MS: u64 = 5;

/// How long to wait before the next request goes out, given the time
/// since the last one: what is missing to the least spacing.
pub fn spacing(since_last_ms: u64) -> (wait_ms: u64)
    ensures
        wait_ms == if since_last_ms < REQUEST_SPACING_MS {
            REQUEST_SPACING_MS - since_last_ms
        } else {
            0
        },
{
    if since_last_ms < REQUEST_SPACING_MS {
        REQUEST_SPACING_MS - since_last_ms
    } else {
        0
    }
}

/// Life of a client.
#[derive(Clone, Copy, Debug, PartialEq, Eq, Structural)]
pub enum ClientState {
    Connecting,
    Serving,
    Closed,
}

/// How a read of the socket ended.
#[derive(Clone, Copy, Debug, PartialEq, Eq, Structural)]
pub enum ReadOutcome {
    /// Some bytes arrived.
    Data,
    /// No byte arrived: the peer closed the connection.
    Closed,
    /// The read failed.
    Failed,
}

/// Classifies a read by the number of bytes it gave, or nothing if it
/// failed: no byte means that the peer closed the connection.
pub fn read_outcome(bytes_read: Option<usize>) -> (outcome: ReadOutcome)
    ensures
        outcome == match bytes_read {
            None => ReadOutcome::Failed,
            Some(n) => if n == 0 {
                ReadOutcome::Closed
            } else {
                ReadOutcome::Data
            },
        },
{
    match bytes_read {
        None => ReadOutcome::Failed,
        Some(n) => if n == 0 {
            ReadOutcome::Closed
        } else {
            ReadOutcome::Data
        },
    }
}

/// What the serve loop does after a read.
#[derive(Debug)]
pub enum ServeStep {
    /// Hand the whole read window to the caller and take the next request.
    Deliver(Vec<u8>),
    /// Hand the caller nothing and take the next request.
    Skip,
    /// Leave the serve loop.
    Terminate,
}

/// One event on the connection.
pub enum WireEvent {
    /// A whole request frame was written.
    Sent(Seq<u8>),
    /// The read that follows a frame ended.
    Read(ReadOutcome, Seq<u8>),
}

/// The bytes written to the connection: the frames of the history, each
/// whole and in order.
pub open spec fn written(wire: Seq<WireEvent>) -> Seq<u8>
    decreases wire.len(),
{
    if wire.len() == 0 {
        Seq::empty()
    } else {
        match wire.last() {
            WireEvent::Sent(frame) => written(wire.drop_last()) + frame,
            WireEvent::Read(_, _) => written(wire.drop_last()),
        }
    }
}

/// The client of one controller, with the history of its connection.
pub struct MotionClient {
    pub state: ClientState,
    pub awaiting: bool,
    pub wire: Ghost<Seq<WireEvent>>,
}

impl MotionClient {
    /// Whether the history alternates frames and reads, starting with a
    /// frame, and the client awaits a read exactly after a frame.
    pub open spec fn wf(&self) -> bool {
        &&& forall|k: int|
            0 <= k < self.wire@.len() ==> ((#[trigger] self.wire@[k]) is Sent <==> k % 2 == 0)
        &&& self.awaiting <==> self.wire@.len() % 2 == 1
        &&& self.awaiting ==> self.state == ClientState::Serving
        &&& self.state == ClientState::Connecting ==> self.wire@.len() == 0
    }

    /// A client that has yet to connect.
    pub fn new() -> (client: Self)
        ensures
            client.wf(),
            client.state == ClientState::Connecting,
            !client.awaiting,
            client.wire@.len() == 0,
    {
        MotionClient { state: ClientState::Connecting, awaiting: false, wire: Ghost(Seq::empty()) }
    }

    /// Records how the connection attempt ended: the client serves after
    /// a success and is closed after a failure.
    pub fn connected(&mut self, success: bool)
        requires
            old(self).wf(),
            old(self).state == ClientState::Connecting,
        ensures
            final(self).wf(),
            final(self).state == if success {
                ClientState::Serving
            } else {
                ClientState::Closed
            },
            !final(self).awaiting,
            final(self).wire@ == old(self).wire@,
    {
        self.state = if success { ClientState::Serving } else { ClientState::Closed };
    }

    /// Whether the next request may go out: the client serves and no read
    /// is outstanding.
    pub fn ready(&self) -> (ready: bool)
        ensures
            ready == (self.state == ClientState::Serving && !self.awaiting),
    {
        self.state == ClientState::Serving && !self.awaiting
    }

    /// Records that the whole of `frame` was written to the socket: the
    /// bytes on the connection are those written before, followed by this
    /// frame and by nothing of any other.
    pub fn begin(&mut self, frame: &[u8])
        requires
            old(self).wf(),
            old(self).state == ClientState::Serving,
            !old(self).awaiting,
        ensures
            final(self).wf(),
            final(self).state == ClientState::Serving,
            final(self).awaiting,
            final(self).wire@ == old(self).wire@.push(WireEvent::Sent(frame@)),
            written(final(self).wire@) == written(old(self).wire@) + frame@,
    {
        self.awaiting = true;
        proof {
            assert(self.wire@.push(WireEvent::Sent(frame@)).drop_last() =~= self.wire@);
        }
        self.wire = Ghost(self.wire@.push(WireEvent::Sent(frame@)));
    }

    /// Decides what follows the read after a frame. Bytes are delivered as
    /// the whole window, untrimmed; a closed connection delivers nothing
    /// and lets the next request find the error; a failed read ends the
    /// loop.
    pub fn complete(&mut self, outcome: ReadOutcome, window: &[u8; 100]) -> (step: ServeStep)
        requires
            old(self).wf(),
            old(self).awaiting,
        ensures
            final(self).wf(),
            !final(self).awaiting,
            final(self).wire@ == old(self).wire@.push(WireEvent::Read(outcome, window@)),
            written(final(self).wire@) == written(old(self).wire@),
            final(self).state == if outcome == ReadOutcome::Failed {
                ClientState::Closed
            } else {
                ClientState::Serving
            },
            match outcome {
                ReadOutcome::Data => match step {
                    ServeStep::Deliver(reply) => reply@ == window@ && reply@.len() == REPLY_WINDOW,
                    _ => false,
                },
                ReadOutcome::Closed => step is Skip,
                ReadOutcome::Failed => step is Terminate,
            },
    {
        self.awaiting = false;
        proof {
            assert(self.wire@.push(WireEvent::Read(outcome, window@)).drop_last() =~= self.wire@);
        }
        self.wire = Ghost(self.wire@.push(WireEvent::Read(outcome, window@)));
        match outcome {
            ReadOutcome::Data => ServeStep::Deliver(slice_to_vec(window.as_slice())),
            ReadOutcome::Closed => ServeStep::Skip,
            ReadOutcome::Failed => {
                self.state = ClientState::Closed;
                ServeStep::Terminate
            },
        }
    }

    /// Records that the loop ended: a write failed or every sender is
    /// gone. A caller whose read is outstanding gets no reply.
    pub fn close(&mut self)
        requires
            old(self).wf(),
        ensures
            final(self).state == ClientState::Closed,
            !final(self).awaiting,
            final(self).wire@ == if old(self).awaiting {
                old(self).wire@.push(WireEvent::Read(ReadOutcome::Failed, Seq::empty()))
            } else {
                old(self).wire@
            },
            written(final(self).wire@) == written(old(self).wire@),
            final(self).wf(),
    {
        if self.awaiting {
            proof {
                assert(self.wire@.push(
                    WireEvent::Read(ReadOutcome::Failed, Seq::empty()),
                ).drop_last() =~= self.wire@);
            }
            self.wire = Ghost(
                self.wire@.push(WireEvent::Read(ReadOutcome::Failed, Seq::empty())),
            );
        }
        self.awaiting = false;
        self.state = ClientState::Closed;
    }
}

/// Of two frames on the connection, the read that answers the earlier one
/// stands directly behind it and before the later frame: replies are
/// produced in the order of the requests, and nothing comes between a
/// frame and its own read.
pub proof fn lemma_reply_precedes_next_frame(client: MotionClient, earlier: int, later: int)
    requires
        client.wf(),
        0 <= earlier < later < client.wire@.len(),
        client.wire@[earlier] is Sent,
        client.wire@[later] is Sent,
    ensures
        earlier + 1 < later,
        client.wire@[earlier + 1] is Read,
        forall|k: int| earlier < k < later && client.wire@[k] is Sent ==> earlier + 1 < k,
{
    assert(earlier % 2 == 0);
    assert(later % 2 == 0);
    assert(!(client.wire@[earlier + 1] is Sent));
}

} // verus!
