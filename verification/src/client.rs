use vstd::prelude::*;

use crate::errors::ClientError;
use crate::frame::{encode_frame, frame_of};

verus! {

/// The wire form of a protocol message, as handed over by the collaborator
/// that owns the message's shape. This layer treats payloads as opaque,
/// pre-serialized values: either the serialized text is at hand, or the
/// encoder rejected the value and reported why.
#[derive(Debug)]
pub enum Payload {
    /// The serialized text of the message, as bytes.
    Json(Vec<u8>),
    /// The encoder could not represent the value; its report.
    Rejected(String),
}

impl Payload {
    /// The wire text this payload serializes to, if it has one.
    pub open spec fn wire(self) -> Option<Seq<u8>> {
        match self {
            Payload::Json(body) => Some(body@),
            Payload::Rejected(_) => None,
        }
    }

    /// The encoder's report, for a rejected payload.
    pub open spec fn rejection(self) -> Seq<char> {
        match self {
            Payload::Json(_) => Seq::empty(),
            Payload::Rejected(why) => why@,
        }
    }
}

/// An event pushed to the client. Its concrete shape belongs to a
/// collaborator; here it is already in wire form.
#[derive(Debug)]
pub struct Event {
    pub payload: Payload,
}

/// A response to a command from the client.
#[derive(Debug)]
pub struct Response {
    pub payload: Payload,
}

/// A request issued by the server toward its client.
#[derive(Debug)]
pub struct ReverseRequest {
    pub payload: Payload,
}

/// The closed set of message kinds that can be written to the client. A
/// frame carries no wrapper tag, so the three payload shapes must stay
/// distinguishable by their own content; this layer does not enforce that.
#[derive(Debug)]
pub enum Sendable {
    Response(Response),
    Event(Event),
    ReverseRequest(ReverseRequest),
}

impl Sendable {
    /// The payload inside, whichever kind wraps it.
    pub open spec fn payload(self) -> Payload {
        match self {
            Sendable::Response(m) => m.payload,
            Sendable::Event(m) => m.payload,
            Sendable::ReverseRequest(m) => m.payload,
        }
    }

    /// The wire text of the payload inside, if it has one.
    pub open spec fn wire(self) -> Option<Seq<u8>> {
        self.payload().wire()
    }
}

/// The abstract state of a writer: the exit flag, the bytes already handed
/// to the transport, and the bytes framed but not yet handed over.
#[verifier::ext_equal]
pub ghost struct WriterView {
    pub exit: bool,
    pub flushed: Seq<u8>,
    pub pending: Seq<u8>,
}

impl WriterView {
    /// Everything written to the output stream since the writer was made.
    pub open spec fn stream(self) -> Seq<u8> {
        self.flushed + self.pending
    }

    /// The state after one successful `write` of a message whose wire text
    /// is `body`: exactly one frame appended, nothing else touched.
    pub open spec fn wrote(self, body: Seq<u8>) -> WriterView {
        WriterView { pending: self.pending + frame_of(body), ..self }
    }

    /// The state after `request_exit`.
    pub open spec fn requested(self) -> WriterView {
        WriterView { exit: true, ..self }
    }

    /// The state after `cancel_exit`.
    pub open spec fn cancelled(self) -> WriterView {
        WriterView { exit: false, ..self }
    }
}

/// What one call of the shared write path did: on a payload with wire text,
/// success and exactly one frame appended; on a rejected payload, a
/// serialization error carrying the encoder's report, and no byte written.
pub open spec fn write_effect(
    pre: WriterView,
    p: Payload,
    post: WriterView,
    r: Result<(), ClientError>,
) -> bool {
    match p.wire() {
        Some(body) => r is Ok && post == pre.wrote(body),
        None => post == pre && r is Err
            && (r->Err_0 matches ClientError::SerializationError(why) && why@ == p.rejection()),
    }
}

/// A writer of protocol frames to the process's standard output, used by
/// the server to send replies back to the IDE. It owns the output stream:
/// frames are appended here, in call order, and the surrounding program
/// hands them on to the transport with `take_output`. It also carries the
/// exit signal the dispatch loop uses to coordinate a graceful shutdown.
pub struct StdoutWriter {
    should_exit: bool,
    pending: Vec<u8>,
    flushed: Ghost<Seq<u8>>,
}

impl View for StdoutWriter {
    type V = WriterView;

    closed spec fn view(&self) -> WriterView {
        WriterView { exit: self.should_exit, flushed: self.flushed@, pending: self.pending@ }
    }
}

impl StdoutWriter {
    /// A fresh writer: empty stream, no exit requested.
    pub fn new() -> (w: StdoutWriter)
        ensures
            w@.exit == false,
            w@.flushed == Seq::<u8>::empty(),
            w@.pending == Seq::<u8>::empty(),
            w@.stream() == Seq::<u8>::empty(),
    {
        let w = StdoutWriter {
            should_exit: false,
            pending: Vec::new(),
            flushed: Ghost(Seq::empty()),
        };
        proof {
            assert(w@.stream() =~= Seq::<u8>::empty());
        }
        w
    }

    /// Send an event to the IDE.
    pub fn send_event(&mut self, event: Event) -> (r: Result<(), ClientError>)
        ensures
            r is Ok <==> event.payload.wire() is Some,
            write_effect(old(self)@, event.payload, final(self)@, r),
    {
        self.write(Sendable::Event(event))
    }

    /// Send a reverse request to the IDE.
    pub fn send_reverse_request(&mut self, request: ReverseRequest) -> (r: Result<
        (),
        ClientError,
    >)
        ensures
            r is Ok <==> request.payload.wire() is Some,
            write_effect(old(self)@, request.payload, final(self)@, r),
    {
        self.write(Sendable::ReverseRequest(request))
    }

    /// Send a response to the IDE.
    pub fn send_response(&mut self, response: Response) -> (r: Result<(), ClientError>)
        ensures
            r is Ok <==> response.payload.wire() is Some,
            write_effect(old(self)@, response.payload, final(self)@, r),
    {
        self.write(Sendable::Response(response))
    }

    /// Notify the server that it should gracefully exit after the current
    /// processing cycle: the accept loop reads the flag once per cycle and
    /// stops accepting further work when it is set.
    pub fn request_exit(&mut self)
        ensures
            final(self)@ == old(self)@.requested(),
    {
        self.should_exit = true;
    }

    /// Clear an exit request made in the same processing cycle. Once the
    /// accept loop has observed the flag across a cycle boundary, clearing
    /// it no longer has a defined effect: the loop is already stopping.
    pub fn cancel_exit(&mut self)
        ensures
            final(self)@ == old(self)@.cancelled(),
    {
        self.should_exit = false;
    }

    /// Whether an exit has been requested.
    pub fn get_exit_state(&self) -> (r: bool)
        ensures
            r == self@.exit,
    {
        self.should_exit
    }

    /// The shared write path: frame the message's wire text and append the
    /// frame, whole, to the output stream. A rejected payload is reported
    /// as a serialization error and writes nothing.
    pub fn write(&mut self, s: Sendable) -> (r: Result<(), ClientError>)
        ensures
            r is Ok <==> s.wire() is Some,
            write_effect(old(self)@, s.payload(), final(self)@, r),
    {
        let payload = match s {
            Sendable::Response(m) => m.payload,
            Sendable::Event(m) => m.payload,
            Sendable::ReverseRequest(m) => m.payload,
        };
        match payload {
            Payload::Json(body) => {
                let mut bytes = encode_frame(&body);
                self.pending.append(&mut bytes);
                Ok(())
            },
            Payload::Rejected(why) => Err(ClientError::SerializationError(why)),
        }
    }

    /// Hand over every framed byte not yet given to the transport, oldest
    /// first. The surrounding program writes them to the real stream; the
    /// stream as a whole is unchanged by this move.
    pub fn take_output(&mut self) -> (r: Vec<u8>)
        ensures
            r@ == old(self)@.pending,
            final(self)@.pending == Seq::<u8>::empty(),
            final(self)@.flushed == old(self)@.stream(),
            final(self)@.exit == old(self)@.exit,
            final(self)@.stream() == old(self)@.stream(),
    {
        let r = self.pending.split_off(0);
        proof {
            assert(r@ =~= old(self)@.pending);
            assert(self.pending@ =~= Seq::<u8>::empty());
        }
        self.flushed = Ghost(self.flushed@ + r@);
        proof {
            assert(self@.stream() =~= old(self)@.stream());
        }
        r
    }
}

/// Two sequential writes append their frames in call order: the stream
/// afterwards is the old stream followed by the first frame and then the
/// second — no interleaving, no reordering.
pub proof fn lemma_sequential_writes(v: WriterView, b1: Seq<u8>, b2: Seq<u8>)
    ensures
        v.wrote(b1).wrote(b2).stream() == v.stream() + frame_of(b1) + frame_of(b2),
        v.wrote(b1).wrote(b2).exit == v.exit,
{
    assert(v.wrote(b1).wrote(b2).stream() =~= v.stream() + frame_of(b1) + frame_of(b2));
}

/// Requesting an exit and then reading the flag in the same cycle yields
/// `true`; cancelling immediately after returns it to `false`, leaving the
/// stream untouched either way.
pub proof fn lemma_request_then_cancel(v: WriterView)
    ensures
        v.requested().exit == true,
        v.requested().cancelled().exit == false,
        v.requested().stream() == v.stream(),
        v.requested().cancelled() == v.cancelled(),
{
    assert(v.requested().cancelled() =~= v.cancelled());
}

/// Cancelling with no exit request pending changes nothing at all.
pub proof fn lemma_cancel_without_request(v: WriterView)
    requires
        v.exit == false,
    ensures
        v.cancelled() == v,
{
    assert(v.cancelled() =~= v);
}

} // verus!
