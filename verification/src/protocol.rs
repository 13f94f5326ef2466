use crate::codec::decode_ack;
use crate::codec::decode_value;
use crate::codec::encode_ack;
use crate::codec::encode_value;
use crate::codec::lemma_value_round_trip;
use crate::codec::value_of_wire;
use crate::codec::wire_ack;
use crate::codec::wire_value;
use crate::codec::ACK_LEN;
use crate::codec::VALUE_LEN;
use crate::errors::GutterError;
use vstd::prelude::*;

verus! {

/// One of the six blocking operations a caller can run on a connected
/// endpoint. Values travel as their raw 64 bits; the driver converts from
/// and to the caller's double at the boundary.
#[derive(Clone, Copy, Debug, PartialEq, Eq)]
pub enum Op {
    /// Receive one value.
    PickUp,
    /// Send one value.
    Throw(u64),
    /// Send one acknowledgement.
    Hail,
    /// Receive one acknowledgement.
    Wait,
    /// Receive one value, then acknowledge it.
    PickUpAndHail,
    /// Send one value, then wait for the peer's acknowledgement.
    ThrowAndWait(u64),
}

/// One piece of stream work the driver must perform next. The engine never
/// touches the stream itself; it only says what the stream must carry.
#[derive(Clone, Debug, PartialEq, Eq)]
pub enum Action {
    /// Read exactly this many bytes, blocking until they have all arrived
    /// or the stream fails.
    ReadExact(usize),
    /// Write all of these bytes, blocking until they are out or the stream
    /// fails.
    WriteAll(Vec<u8>),
}

/// What the driver reports back after attempting an [`Action`].
#[derive(Clone, Debug, PartialEq, Eq)]
pub enum Event {
    /// The requested bytes were read in full.
    Got(Vec<u8>),
    /// The requested bytes were written in full.
    Sent,
    /// The stream failed: the peer disconnected, reset the connection, or
    /// broke the pipe.
    Broken,
    /// A configured deadline elapsed before the stream work completed.
    TimedOut,
}

/// The engine's state between two pieces of stream work: what the pending
/// action waits for, and what remains of the operation afterwards.
#[derive(Clone, Copy, Debug, PartialEq, Eq)]
pub enum Session {
    /// Waiting for the 8 bytes of one value; `then_hail` says whether an
    /// acknowledgement must follow the receipt.
    AwaitValue { then_hail: bool },
    /// Waiting for a value write to complete; `then_wait` says whether the
    /// peer's acknowledgement must be awaited afterwards.
    AwaitSendValue { then_wait: bool },
    /// Waiting for the acknowledgement marker byte.
    AwaitAck,
    /// Waiting for an acknowledgement write to complete; `picked` carries
    /// the value to deliver once it has, when the acknowledgement concludes
    /// a combined receive.
    AwaitSendAck { picked: Option<u64> },
}

/// What an operation has come to after one piece of stream work.
#[derive(Clone, Debug, PartialEq, Eq)]
pub enum Step {
    /// The operation needs one more piece of stream work.
    Continue(Action, Session),
    /// The operation completed and received this value.
    Value(u64),
    /// The operation completed without receiving a value.
    Done,
    /// The operation failed; the stream must be treated as unusable.
    Fail(GutterError),
}

/// Mathematical model of an [`Action`].
pub enum ActionModel {
    Read(nat),
    Write(Seq<u8>),
}

/// Mathematical model of an [`Event`].
pub enum EventModel {
    Got(Seq<u8>),
    Sent,
    Broken,
    TimedOut,
}

/// Mathematical model of a [`Step`].
pub enum StepModel {
    Continue(ActionModel, Session),
    Value(u64),
    Done,
    Fail(GutterError),
}

impl View for Action {
    type V = ActionModel;

    open spec fn view(&self) -> ActionModel {
        match self {
            Action::ReadExact(n) => ActionModel::Read(*n as nat),
            Action::WriteAll(bytes) => ActionModel::Write(bytes@),
        }
    }
}

impl View for Event {
    type V = EventModel;

    open spec fn view(&self) -> EventModel {
        match self {
            Event::Got(bytes) => EventModel::Got(bytes@),
            Event::Sent => EventModel::Sent,
            Event::Broken => EventModel::Broken,
            Event::TimedOut => EventModel::TimedOut,
        }
    }
}

impl View for Step {
    type V = StepModel;

    open spec fn view(&self) -> StepModel {
        match self {
            Step::Continue(action, session) => StepModel::Continue(action@, *session),
            Step::Value(bits) => StepModel::Value(*bits),
            Step::Done => StepModel::Done,
            Step::Fail(e) => StepModel::Fail(*e),
        }
    }
}

/// The first piece of stream work of each operation, and the engine state
/// that waits for its outcome.
pub open spec fn begin_model(op: Op) -> (ActionModel, Session) {
    match op {
        Op::PickUp => (
            ActionModel::Read(VALUE_LEN as nat),
            Session::AwaitValue { then_hail: false },
        ),
        Op::Throw(bits) => (
            ActionModel::Write(wire_value(bits)),
            Session::AwaitSendValue { then_wait: false },
        ),
        Op::Hail => (ActionModel::Write(wire_ack()), Session::AwaitSendAck { picked: None }),
        Op::Wait => (ActionModel::Read(ACK_LEN as nat), Session::AwaitAck),
        Op::PickUpAndHail => (
            ActionModel::Read(VALUE_LEN as nat),
            Session::AwaitValue { then_hail: true },
        ),
        Op::ThrowAndWait(bits) => (
            ActionModel::Write(wire_value(bits)),
            Session::AwaitSendValue { then_wait: true },
        ),
    }
}

/// Whether an event is one the driver can honestly report for the given
/// engine state: a read result only while a read is pending, and with
/// exactly the requested length; a write completion only while a write is
/// pending; a failure at any time.
pub open spec fn event_fits(s: Session, ev: EventModel) -> bool {
    match ev {
        EventModel::Got(bytes) => match s {
            Session::AwaitValue { .. } => bytes.len() == VALUE_LEN,
            Session::AwaitAck => bytes.len() == ACK_LEN,
            Session::AwaitSendValue { .. } | Session::AwaitSendAck { .. } => false,
        },
        EventModel::Sent => match s {
            Session::AwaitSendValue { .. } | Session::AwaitSendAck { .. } => true,
            Session::AwaitValue { .. } | Session::AwaitAck => false,
        },
        EventModel::Broken | EventModel::TimedOut => true,
    }
}

/// What the engine concludes from the outcome of the pending stream work:
/// the next piece of work of a compound operation, the completed result, or
/// the failure. A stream failure or an elapsed deadline aborts whatever was
/// pending; an event that does not fit the pending action is a protocol
/// violation.
pub open spec fn step_model(s: Session, ev: EventModel) -> StepModel
    recommends
        event_fits(s, ev),
{
    match ev {
        EventModel::Broken => StepModel::Fail(GutterError::Io),
        EventModel::TimedOut => StepModel::Fail(GutterError::Timeout),
        EventModel::Got(bytes) => match s {
            Session::AwaitValue { then_hail } => if then_hail {
                StepModel::Continue(
                    ActionModel::Write(wire_ack()),
                    Session::AwaitSendAck { picked: Some(value_of_wire(bytes)) },
                )
            } else {
                StepModel::Value(value_of_wire(bytes))
            },
            Session::AwaitAck => if bytes == wire_ack() {
                StepModel::Done
            } else {
                StepModel::Fail(GutterError::Protocol)
            },
            Session::AwaitSendValue { .. } | Session::AwaitSendAck { .. } => StepModel::Fail(
                GutterError::Protocol,
            ),
        },
        EventModel::Sent => match s {
            Session::AwaitSendValue { then_wait } => if then_wait {
                StepModel::Continue(ActionModel::Read(ACK_LEN as nat), Session::AwaitAck)
            } else {
                StepModel::Done
            },
            Session::AwaitSendAck { picked } => match picked {
                Some(bits) => StepModel::Value(bits),
                None => StepModel::Done,
            },
            Session::AwaitValue { .. } | Session::AwaitAck => StepModel::Fail(
                GutterError::Protocol,
            ),
        },
    }
}

impl Session {
    /// Start one operation: hand the driver its first piece of stream work
    /// and the engine state that waits for the outcome.
    pub fn begin(op: Op) -> (r: (Action, Session))
        ensures
            r.0@ == begin_model(op).0,
            r.1 == begin_model(op).1,
    {
        match op {
            Op::PickUp => (
                Action::ReadExact(VALUE_LEN),
                Session::AwaitValue { then_hail: false },
            ),
            Op::Throw(bits) => (
                Action::WriteAll(encode_value(bits)),
                Session::AwaitSendValue { then_wait: false },
            ),
            Op::Hail => (Action::WriteAll(encode_ack()), Session::AwaitSendAck { picked: None }),
            Op::Wait => (Action::ReadExact(ACK_LEN), Session::AwaitAck),
            Op::PickUpAndHail => (
                Action::ReadExact(VALUE_LEN),
                Session::AwaitValue { then_hail: true },
            ),
            Op::ThrowAndWait(bits) => (
                Action::WriteAll(encode_value(bits)),
                Session::AwaitSendValue { then_wait: true },
            ),
        }
    }

    /// Fold the outcome of the pending stream work into the operation:
    /// either more stream work follows, or the operation's result — a
    /// value, a bare completion, or a failure — is final.
    pub fn step(self, ev: Event) -> (r: Step)
        requires
            event_fits(self, ev@),
        ensures
            r@ == step_model(self, ev@),
    {
        match ev {
            Event::Broken => Step::Fail(GutterError::Io),
            Event::TimedOut => Step::Fail(GutterError::Timeout),
            Event::Got(bytes) => match self {
                Session::AwaitValue { then_hail } => {
                    let bits = decode_value(bytes.as_slice());
                    if then_hail {
                        Step::Continue(
                            Action::WriteAll(encode_ack()),
                            Session::AwaitSendAck { picked: Some(bits) },
                        )
                    } else {
                        Step::Value(bits)
                    }
                },
                Session::AwaitAck => match decode_ack(bytes.as_slice()) {
                    Ok(()) => Step::Done,
                    Err(e) => Step::Fail(e),
                },
                Session::AwaitSendValue { .. } | Session::AwaitSendAck { .. } => Step::Fail(
                    GutterError::Protocol,
                ),
            },
            Event::Sent => match self {
                Session::AwaitSendValue { then_wait } => if then_wait {
                    Step::Continue(Action::ReadExact(ACK_LEN), Session::AwaitAck)
                } else {
                    Step::Done
                },
                Session::AwaitSendAck { picked } => match picked {
                    Some(bits) => Step::Value(bits),
                    None => Step::Done,
                },
                Session::AwaitValue { .. } | Session::AwaitAck => Step::Fail(
                    GutterError::Protocol,
                ),
            },
        }
    }
}

/// Law: a value thrown on one side and delivered unaltered to a picking-up
/// peer arrives exactly as sent, for every 64-bit pattern: the sender's
/// single write carries the wire form, the sender completes once it is
/// out, and feeding those very bytes to the receiver's engine yields the
/// value.
pub proof fn lemma_loopback_transfer(bits: u64)
    ensures
        begin_model(Op::Throw(bits)).0 == ActionModel::Write(wire_value(bits)),
        step_model(begin_model(Op::Throw(bits)).1, EventModel::Sent) == StepModel::Done,
        begin_model(Op::PickUp).0 == ActionModel::Read(VALUE_LEN as nat),
        step_model(begin_model(Op::PickUp).1, EventModel::Got(wire_value(bits)))
            == StepModel::Value(bits),
{
    lemma_value_round_trip(bits);
}

/// Law: the acknowledged rendezvous keeps its order. With a sender running
/// the combined send-and-wait and a receiver running the combined
/// receive-and-acknowledge: the sender first writes the value, and once it
/// is out the sender is not finished but must read the marker; the
/// receiver starts with a read, writes the marker only after the whole
/// value has arrived, and delivers the value — exactly the one sent — only
/// once its marker write has completed; the sender completes on the exact
/// marker and on nothing else.
pub proof fn lemma_ack_rendezvous(bits: u64)
    ensures
        begin_model(Op::ThrowAndWait(bits)).0 == ActionModel::Write(wire_value(bits)),
        step_model(begin_model(Op::ThrowAndWait(bits)).1, EventModel::Sent)
            == StepModel::Continue(ActionModel::Read(ACK_LEN as nat), Session::AwaitAck),
        begin_model(Op::PickUpAndHail).0 == ActionModel::Read(VALUE_LEN as nat),
        step_model(begin_model(Op::PickUpAndHail).1, EventModel::Got(wire_value(bits)))
            == StepModel::Continue(
            ActionModel::Write(wire_ack()),
            Session::AwaitSendAck { picked: Some(bits) },
        ),
        step_model(Session::AwaitSendAck { picked: Some(bits) }, EventModel::Sent)
            == StepModel::Value(bits),
        forall|bytes: Seq<u8>|
            (#[trigger] step_model(Session::AwaitAck, EventModel::Got(bytes))) == StepModel::Done
                <==> bytes == wire_ack(),
{
    lemma_value_round_trip(bits);
}

/// Law: a stream failure aborts the pending operation with an I/O failure,
/// whatever state the engine is in: no value is delivered, nothing is
/// mistaken for an acknowledgement, and no later step of a compound
/// operation is attempted.
pub proof fn lemma_broken_stream_fails(s: Session)
    ensures
        step_model(s, EventModel::Broken) == StepModel::Fail(GutterError::Io),
{
}

/// Law: while waiting for an acknowledgement, any received byte string
/// other than the exact marker is rejected as a protocol violation; only
/// the marker itself completes the wait.
pub proof fn lemma_malformed_ack_rejected(bytes: Seq<u8>)
    ensures
        bytes == wire_ack() ==> step_model(Session::AwaitAck, EventModel::Got(bytes))
            == StepModel::Done,
        bytes != wire_ack() ==> step_model(Session::AwaitAck, EventModel::Got(bytes))
            == StepModel::Fail(GutterError::Protocol),
{
}

} // verus!
