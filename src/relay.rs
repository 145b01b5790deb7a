//! Decisions taken while one request is in flight. The caller performs each
//! action (connect, call, decode the body) and reports the outcome as an
//! event; the relay answers with the next action, ending with the result.
use vstd::prelude::*;
use crate::command::ReplyShape;

verus! {

/// A decoded reply body.
#[derive(Clone, Debug, PartialEq, Eq)]
pub enum Reply {
    Text(String),
    Flag(bool),
    Unit,
}

pub enum ReplyView {
    Text(Seq<char>),
    Flag(bool),
    Unit,
}

impl View for Reply {
    type V = ReplyView;

    open spec fn view(&self) -> ReplyView {
        match self {
            Reply::Text(s) => ReplyView::Text(s@),
            Reply::Flag(b) => ReplyView::Flag(*b),
            Reply::Unit => ReplyView::Unit,
        }
    }
}

/// What happened to the last action, as reported by the caller.
#[derive(Clone, Debug, PartialEq, Eq)]
pub enum RelayEvent {
    Connected,
    ConnectFailed(String),
    Replied,
    CallFailed(String),
    Decoded(Reply),
    DecodeFailed(String),
}

pub enum RelayEventView {
    Connected,
    ConnectFailed(Seq<char>),
    Replied,
    CallFailed(Seq<char>),
    Decoded(ReplyView),
    DecodeFailed(Seq<char>),
}

impl View for RelayEvent {
    type V = RelayEventView;

    open spec fn view(&self) -> RelayEventView {
        match self {
            RelayEvent::Connected => RelayEventView::Connected,
            RelayEvent::ConnectFailed(e) => RelayEventView::ConnectFailed(e@),
            RelayEvent::Replied => RelayEventView::Replied,
            RelayEvent::CallFailed(e) => RelayEventView::CallFailed(e@),
            RelayEvent::Decoded(r) => RelayEventView::Decoded(r@),
            RelayEvent::DecodeFailed(e) => RelayEventView::DecodeFailed(e@),
        }
    }
}

/// What the caller is to do next.
#[derive(Debug, PartialEq, Eq)]
pub enum RelayAction {
    /// Acquire a connection to the session bus.
    Connect,
    /// Issue the request against the daemon endpoint.
    Call,
    /// Decode the reply body as the given shape.
    Decode(ReplyShape),
    /// The invocation is over, with this result.
    Finish(Result<Reply, String>),
}

pub enum RelayActionView {
    Connect,
    Call,
    Decode(ReplyShape),
    Finish(Result<ReplyView, Seq<char>>),
}

impl View for RelayAction {
    type V = RelayActionView;

    open spec fn view(&self) -> RelayActionView {
        match self {
            RelayAction::Connect => RelayActionView::Connect,
            RelayAction::Call => RelayActionView::Call,
            RelayAction::Decode(s) => RelayActionView::Decode(*s),
            RelayAction::Finish(Ok(r)) => RelayActionView::Finish(Ok(r@)),
            RelayAction::Finish(Err(e)) => RelayActionView::Finish(Err(e@)),
        }
    }
}

#[derive(Clone, Copy, Debug, PartialEq, Eq, Structural)]
pub enum RelayPhase {
    Connecting,
    Calling,
    Decoding,
    Done,
}

pub open spec fn spec_matches_shape(shape: ReplyShape, r: ReplyView) -> bool {
    match (shape, r) {
        (ReplyShape::Text, ReplyView::Text(_)) => true,
        (ReplyShape::Flag, ReplyView::Flag(_)) => true,
        (ReplyShape::Unit, ReplyView::Unit) => true,
        _ => false,
    }
}

pub open spec fn spec_shape_error() -> Seq<char> {
    "reply does not match the expected shape"@
}

pub open spec fn spec_order_error() -> Seq<char> {
    "event does not follow the pending action"@
}

/// One step of a request: from the phase, the expected reply shape and the
/// reported event, the next phase and action. Every failure ends the
/// request with its message; an event that answers no pending action ends
/// it with an ordering error.
pub open spec fn spec_step(phase: RelayPhase, shape: ReplyShape, e: RelayEventView) -> (RelayPhase, RelayActionView) {
    match (phase, e) {
        (RelayPhase::Connecting, RelayEventView::Connected) => (RelayPhase::Calling, RelayActionView::Call),
        (RelayPhase::Connecting, RelayEventView::ConnectFailed(m)) => (RelayPhase::Done, RelayActionView::Finish(Err(m))),
        (RelayPhase::Calling, RelayEventView::Replied) =>
            if shape == ReplyShape::Unit {
                (RelayPhase::Done, RelayActionView::Finish(Ok(ReplyView::Unit)))
            } else {
                (RelayPhase::Decoding, RelayActionView::Decode(shape))
            },
        (RelayPhase::Calling, RelayEventView::CallFailed(m)) => (RelayPhase::Done, RelayActionView::Finish(Err(m))),
        (RelayPhase::Decoding, RelayEventView::Decoded(r)) =>
            if spec_matches_shape(shape, r) {
                (RelayPhase::Done, RelayActionView::Finish(Ok(r)))
            } else {
                (RelayPhase::Done, RelayActionView::Finish(Err(spec_shape_error())))
            },
        (RelayPhase::Decoding, RelayEventView::DecodeFailed(m)) => (RelayPhase::Done, RelayActionView::Finish(Err(m))),
        _ => (RelayPhase::Done, RelayActionView::Finish(Err(spec_order_error()))),
    }
}

fn matches_shape(shape: ReplyShape, r: &Reply) -> (b: bool)
    ensures
        b == spec_matches_shape(shape, r@),
{
    match (shape, r) {
        (ReplyShape::Text, Reply::Text(_)) => true,
        (ReplyShape::Flag, Reply::Flag(_)) => true,
        (ReplyShape::Unit, Reply::Unit) => true,
        _ => false,
    }
}

/// The state of one request/reply exchange with the daemon.
pub struct Relay {
    pub phase: RelayPhase,
    pub shape: ReplyShape,
}

impl Relay {
    /// Starts an exchange whose reply has the given shape; the first action
    /// is always to connect.
    pub fn new(shape: ReplyShape) -> (r: (Relay, RelayAction))
        ensures
            r.0.phase == RelayPhase::Connecting,
            r.0.shape == shape,
            r.1@ == RelayActionView::Connect,
    {
        (Relay { phase: RelayPhase::Connecting, shape }, RelayAction::Connect)
    }

    /// Takes in the outcome of the pending action and returns the next one.
    pub fn step(&mut self, event: RelayEvent) -> (a: RelayAction)
        ensures
            final(self).shape == old(self).shape,
            (final(self).phase, a@) == spec_step(old(self).phase, old(self).shape, event@),
    {
        let shape = self.shape;
        let (phase, action) = match (self.phase, event) {
            (RelayPhase::Connecting, RelayEvent::Connected) => (RelayPhase::Calling, RelayAction::Call),
            (RelayPhase::Connecting, RelayEvent::ConnectFailed(m)) => (RelayPhase::Done, RelayAction::Finish(Err(m))),
            (RelayPhase::Calling, RelayEvent::Replied) => {
                if shape == ReplyShape::Unit {
                    (RelayPhase::Done, RelayAction::Finish(Ok(Reply::Unit)))
                } else {
                    (RelayPhase::Decoding, RelayAction::Decode(shape))
                }
            },
            (RelayPhase::Calling, RelayEvent::CallFailed(m)) => (RelayPhase::Done, RelayAction::Finish(Err(m))),
            (RelayPhase::Decoding, RelayEvent::Decoded(r)) => {
                if matches_shape(shape, &r) {
                    (RelayPhase::Done, RelayAction::Finish(Ok(r)))
                } else {
                    let m = "reply does not match the expected shape".to_owned();
                    (RelayPhase::Done, RelayAction::Finish(Err(m)))
                }
            },
            (RelayPhase::Decoding, RelayEvent::DecodeFailed(m)) => (RelayPhase::Done, RelayAction::Finish(Err(m))),
            _ => {
                let m = "event does not follow the pending action".to_owned();
                (RelayPhase::Done, RelayAction::Finish(Err(m)))
            },
        };
        self.phase = phase;
        action
    }
}

/// The string carried by a finished text request, handed over verbatim.
pub fn into_text(result: Result<Reply, String>) -> (r: Result<String, String>)
    ensures
        match result {
            Ok(Reply::Text(s)) => r == Ok::<String, String>(s),
            Ok(_) => r is Err && r->Err_0@ == spec_shape_error(),
            Err(e) => r == Err::<String, String>(e),
        },
{
    match result {
        Ok(Reply::Text(s)) => Ok(s),
        Ok(_) => Err("reply does not match the expected shape".to_owned()),
        Err(e) => Err(e),
    }
}

/// The boolean carried by a finished flag request.
pub fn into_flag(result: Result<Reply, String>) -> (r: Result<bool, String>)
    ensures
        match result {
            Ok(Reply::Flag(b)) => r == Ok::<bool, String>(b),
            Ok(_) => r is Err && r->Err_0@ == spec_shape_error(),
            Err(e) => r == Err::<bool, String>(e),
        },
{
    match result {
        Ok(Reply::Flag(b)) => Ok(b),
        Ok(_) => Err("reply does not match the expected shape".to_owned()),
        Err(e) => Err(e),
    }
}

/// The outcome of a finished request whose reply carries nothing.
pub fn into_unit(result: Result<Reply, String>) -> (r: Result<(), String>)
    ensures
        match result {
            Ok(Reply::Unit) => r == Ok::<(), String>(()),
            Ok(_) => r is Err && r->Err_0@ == spec_shape_error(),
            Err(e) => r == Err::<(), String>(e),
        },
{
    match result {
        Ok(Reply::Unit) => Ok(()),
        Ok(_) => Err("reply does not match the expected shape".to_owned()),
        Err(e) => Err(e),
    }
}

/// A request whose reply is a string or a boolean, against a daemon that
/// answers it, ends with exactly the decoded reply: connect, call, decode,
/// and the reply comes back unchanged.
pub proof fn lemma_reply_passes_through(shape: ReplyShape, reply: ReplyView)
    requires
        shape != ReplyShape::Unit,
        spec_matches_shape(shape, reply),
    ensures
        ({
            let (p1, a1) = spec_step(RelayPhase::Connecting, shape, RelayEventView::Connected);
            let (p2, a2) = spec_step(p1, shape, RelayEventView::Replied);
            let (p3, a3) = spec_step(p2, shape, RelayEventView::Decoded(reply));
            &&& a1 == RelayActionView::Call
            &&& a2 == RelayActionView::Decode(shape)
            &&& p3 == RelayPhase::Done
            &&& a3 == RelayActionView::Finish(Ok(reply))
        }),
{
}

/// A request whose reply carries nothing succeeds as soon as the daemon
/// answers: no body is decoded and no payload is produced.
pub proof fn lemma_unit_reply_succeeds_empty()
    ensures
        ({
            let (p1, a1) = spec_step(RelayPhase::Connecting, ReplyShape::Unit, RelayEventView::Connected);
            let (p2, a2) = spec_step(p1, ReplyShape::Unit, RelayEventView::Replied);
            &&& a1 == RelayActionView::Call
            &&& p2 == RelayPhase::Done
            &&& a2 == RelayActionView::Finish(Ok(ReplyView::Unit))
        }),
{
}

} // verus!
