//! The four signal subscriptions relayed to the interface as local events.
//! Each subscription runs on its own: a failed setup, a malformed message
//! or the end of one stream leaves the others as they were.
use vstd::prelude::*;
use crate::endpoint::{interface_name, object_path, service_name, spec_interface_name, spec_object_path, spec_service_name};

verus! {

#[derive(Clone, Copy, Debug, PartialEq, Eq, Structural)]
pub enum SignalKind {
    ListenStateChanged,
    AnalysisDone,
    TranscriptChunk,
    TranscriptUpdated,
}

pub open spec fn spec_member(k: SignalKind) -> Seq<char> {
    match k {
        SignalKind::ListenStateChanged => "ListenStateChanged"@,
        SignalKind::AnalysisDone => "AnalysisDone"@,
        SignalKind::TranscriptChunk => "TranscriptChunk"@,
        SignalKind::TranscriptUpdated => "TranscriptUpdated"@,
    }
}

pub open spec fn spec_event_name(k: SignalKind) -> Seq<char> {
    match k {
        SignalKind::ListenStateChanged => "listen-state-changed"@,
        SignalKind::AnalysisDone => "analysis-done"@,
        SignalKind::TranscriptChunk => "transcript-chunk"@,
        SignalKind::TranscriptUpdated => "transcript-updated"@,
    }
}

/// The subscriptions in the order they are set up.
pub open spec fn spec_kind_at(i: int) -> SignalKind {
    if i == 0 {
        SignalKind::ListenStateChanged
    } else if i == 1 {
        SignalKind::AnalysisDone
    } else if i == 2 {
        SignalKind::TranscriptChunk
    } else {
        SignalKind::TranscriptUpdated
    }
}

/// The four kinds of message on the bus.
#[derive(Clone, Copy, Debug, PartialEq, Eq, Structural)]
pub enum MessageKind {
    MethodCall,
    MethodReturn,
    Error,
    Signal,
}

/// Which messages a subscription receives: those of one kind, from one
/// sender, object path and interface, with one member name.
#[derive(Clone, Copy, Debug, PartialEq, Eq)]
pub struct SignalFilter {
    pub msg_type: MessageKind,
    pub sender: &'static str,
    pub path: &'static str,
    pub interface: &'static str,
    pub member: &'static str,
}

impl SignalKind {
    /// Member name of the signal on the daemon's interface.
    pub fn member(&self) -> (r: &'static str)
        ensures
            r@ == spec_member(*self),
    {
        match self {
            SignalKind::ListenStateChanged => "ListenStateChanged",
            SignalKind::AnalysisDone => "AnalysisDone",
            SignalKind::TranscriptChunk => "TranscriptChunk",
            SignalKind::TranscriptUpdated => "TranscriptUpdated",
        }
    }

    /// Name of the local event the signal is relayed as.
    pub fn event_name(&self) -> (r: &'static str)
        ensures
            r@ == spec_event_name(*self),
    {
        match self {
            SignalKind::ListenStateChanged => "listen-state-changed",
            SignalKind::AnalysisDone => "analysis-done",
            SignalKind::TranscriptChunk => "transcript-chunk",
            SignalKind::TranscriptUpdated => "transcript-updated",
        }
    }

    /// The match rule for this subscription.
    pub fn filter(&self) -> (r: SignalFilter)
        ensures
            r.msg_type == MessageKind::Signal,
            r.sender@ == spec_service_name(),
            r.path@ == spec_object_path(),
            r.interface@ == spec_interface_name(),
            r.member@ == spec_member(*self),
    {
        SignalFilter {
            msg_type: MessageKind::Signal,
            sender: service_name(),
            path: object_path(),
            interface: interface_name(),
            member: self.member(),
        }
    }
}

/// The decoded body of a signal message.
#[derive(Clone, Debug, PartialEq, Eq)]
pub enum SignalPayload {
    ListenState { is_listening: bool },
    AnalysisDone { status: String },
    TranscriptChunk { text: String, speaker: String, timestamp_ms: u32, is_final: bool },
    TranscriptUpdated { session_id: u32 },
}

pub enum PayloadView {
    ListenState { is_listening: bool },
    AnalysisDone { status: Seq<char> },
    TranscriptChunk { text: Seq<char>, speaker: Seq<char>, timestamp_ms: u32, is_final: bool },
    TranscriptUpdated { session_id: u32 },
}

impl View for SignalPayload {
    type V = PayloadView;

    open spec fn view(&self) -> PayloadView {
        match self {
            SignalPayload::ListenState { is_listening } => PayloadView::ListenState { is_listening: *is_listening },
            SignalPayload::AnalysisDone { status } => PayloadView::AnalysisDone { status: status@ },
            SignalPayload::TranscriptChunk { text, speaker, timestamp_ms, is_final } => PayloadView::TranscriptChunk {
                text: text@,
                speaker: speaker@,
                timestamp_ms: *timestamp_ms,
                is_final: *is_final,
            },
            SignalPayload::TranscriptUpdated { session_id } => PayloadView::TranscriptUpdated { session_id: *session_id },
        }
    }
}

/// Whether a payload has the shape that a subscription's signal carries.
pub open spec fn spec_fits(k: SignalKind, p: PayloadView) -> bool {
    match (k, p) {
        (SignalKind::ListenStateChanged, PayloadView::ListenState { .. }) => true,
        (SignalKind::AnalysisDone, PayloadView::AnalysisDone { .. }) => true,
        (SignalKind::TranscriptChunk, PayloadView::TranscriptChunk { .. }) => true,
        (SignalKind::TranscriptUpdated, PayloadView::TranscriptUpdated { .. }) => true,
        _ => false,
    }
}

/// A named, structured event for the interface.
#[derive(Clone, Debug, PartialEq, Eq)]
pub struct LocalEvent {
    pub name: String,
    pub payload: SignalPayload,
}

pub struct LocalEventView {
    pub name: Seq<char>,
    pub payload: PayloadView,
}

impl View for LocalEvent {
    type V = LocalEventView;

    open spec fn view(&self) -> LocalEventView {
        LocalEventView { name: self.name@, payload: self.payload@ }
    }
}

pub open spec fn opt_event_view(e: Option<LocalEvent>) -> Option<LocalEventView> {
    match e {
        Some(e) => Some(e@),
        None => None,
    }
}

/// What one received message of a live subscription turns into: an event
/// when it decoded to the subscription's shape, nothing otherwise.
pub open spec fn spec_on_message(k: SignalKind, m: Option<PayloadView>) -> Option<LocalEventView> {
    match m {
        Some(p) => if spec_fits(k, p) {
            Some(LocalEventView { name: spec_event_name(k), payload: p })
        } else {
            None
        },
        None => None,
    }
}

/// The events emitted, in order, for a run of received messages.
pub open spec fn spec_emitted(k: SignalKind, msgs: Seq<Option<PayloadView>>) -> Seq<LocalEventView>
    decreases msgs.len(),
{
    if msgs.len() == 0 {
        Seq::empty()
    } else {
        let prev = spec_emitted(k, msgs.drop_last());
        match spec_on_message(k, msgs.last()) {
            Some(e) => prev.push(e),
            None => prev,
        }
    }
}

#[derive(Clone, Copy, Debug, PartialEq, Eq, Structural)]
pub enum LoopPhase {
    Connecting,
    Subscribed,
    Ended,
}

/// What the transport reported for one subscription.
#[derive(Clone, Debug, PartialEq, Eq)]
pub enum LoopEvent {
    /// The match rule was registered.
    Subscribed,
    /// The connection or the match rule could not be set up.
    SetupFailed,
    /// A message arrived; `None` when it could not be read or decoded.
    Received(Option<SignalPayload>),
    /// The stream ended.
    StreamEnded,
}

pub enum LoopEventView {
    Subscribed,
    SetupFailed,
    Received(Option<PayloadView>),
    StreamEnded,
}

impl View for LoopEvent {
    type V = LoopEventView;

    open spec fn view(&self) -> LoopEventView {
        match self {
            LoopEvent::Subscribed => LoopEventView::Subscribed,
            LoopEvent::SetupFailed => LoopEventView::SetupFailed,
            LoopEvent::Received(Some(p)) => LoopEventView::Received(Some(p@)),
            LoopEvent::Received(None) => LoopEventView::Received(None),
            LoopEvent::StreamEnded => LoopEventView::StreamEnded,
        }
    }
}

/// One subscription loop: `Connecting`, then `Subscribed` while messages
/// are relayed, then `Ended` for good.
#[derive(Clone, Copy, Debug, PartialEq, Eq, Structural)]
pub struct Subscription {
    pub kind: SignalKind,
    pub phase: LoopPhase,
}

pub open spec fn spec_next(s: Subscription, e: LoopEventView) -> Subscription {
    let phase = match (s.phase, e) {
        (LoopPhase::Connecting, LoopEventView::Subscribed) => LoopPhase::Subscribed,
        (_, LoopEventView::SetupFailed) => LoopPhase::Ended,
        (_, LoopEventView::StreamEnded) => LoopPhase::Ended,
        (p, _) => p,
    };
    Subscription { kind: s.kind, phase }
}

pub open spec fn spec_emit(s: Subscription, e: LoopEventView) -> Option<LocalEventView> {
    match (s.phase, e) {
        (LoopPhase::Subscribed, LoopEventView::Received(m)) => spec_on_message(s.kind, m),
        _ => None,
    }
}

fn fits(k: SignalKind, p: &SignalPayload) -> (b: bool)
    ensures
        b == spec_fits(k, p@),
{
    match (k, p) {
        (SignalKind::ListenStateChanged, SignalPayload::ListenState { .. }) => true,
        (SignalKind::AnalysisDone, SignalPayload::AnalysisDone { .. }) => true,
        (SignalKind::TranscriptChunk, SignalPayload::TranscriptChunk { .. }) => true,
        (SignalKind::TranscriptUpdated, SignalPayload::TranscriptUpdated { .. }) => true,
        _ => false,
    }
}

impl Subscription {
    pub fn new(kind: SignalKind) -> (r: Subscription)
        ensures
            r == (Subscription { kind, phase: LoopPhase::Connecting }),
    {
        Subscription { kind, phase: LoopPhase::Connecting }
    }

    /// Whether messages are being relayed.
    pub fn is_active(&self) -> (b: bool)
        ensures
            b == (self.phase == LoopPhase::Subscribed),
    {
        self.phase == LoopPhase::Subscribed
    }

    /// Takes in one transport event; returns the local event to emit, if any.
    /// Malformed messages are dropped and the loop goes on.
    pub fn step(&mut self, event: LoopEvent) -> (r: Option<LocalEvent>)
        ensures
            *final(self) == spec_next(*old(self), event@),
            opt_event_view(r) == spec_emit(*old(self), event@),
    {
        let kind = self.kind;
        let phase = self.phase;
        match event {
            LoopEvent::Subscribed => {
                if phase == LoopPhase::Connecting {
                    self.phase = LoopPhase::Subscribed;
                }
                None
            },
            LoopEvent::SetupFailed => {
                self.phase = LoopPhase::Ended;
                None
            },
            LoopEvent::StreamEnded => {
                self.phase = LoopPhase::Ended;
                None
            },
            LoopEvent::Received(m) => {
                if phase != LoopPhase::Subscribed {
                    return None;
                }
                match m {
                    Some(p) => {
                        if fits(kind, &p) {
                            Some(LocalEvent { name: kind.event_name().to_owned(), payload: p })
                        } else {
                            None
                        }
                    },
                    None => None,
                }
            },
        }
    }
}

/// The four subscriptions, one per signal, each with its own state.
pub struct SignalRelay {
    pub loops: Vec<Subscription>,
}

/// Four subscriptions, one per signal, in setup order.
pub open spec fn spec_relay_wf(loops: Seq<Subscription>) -> bool {
    &&& loops.len() == 4
    &&& forall|i: int| 0 <= i < 4 ==> #[trigger] loops[i].kind == spec_kind_at(i)
}

/// The subscriptions after `e` reached the one at `index`.
pub open spec fn spec_handle(loops: Seq<Subscription>, index: int, e: LoopEventView) -> Seq<Subscription> {
    loops.update(index, spec_next(loops[index], e))
}

impl SignalRelay {
    pub open spec fn wf(&self) -> bool {
        spec_relay_wf(self.loops@)
    }

    /// All four subscriptions, none set up yet.
    pub fn new() -> (r: SignalRelay)
        ensures
            r.wf(),
            forall|i: int| 0 <= i < 4 ==> (#[trigger] r.loops@[i]).phase == LoopPhase::Connecting,
    {
        let loops = vec![
            Subscription::new(SignalKind::ListenStateChanged),
            Subscription::new(SignalKind::AnalysisDone),
            Subscription::new(SignalKind::TranscriptChunk),
            Subscription::new(SignalKind::TranscriptUpdated),
        ];
        SignalRelay { loops }
    }

    /// The subscription at `index`.
    pub fn get(&self, index: usize) -> (r: Subscription)
        requires
            self.wf(),
            index < 4,
        ensures
            r == self.loops@[index as int],
    {
        self.loops[index]
    }

    /// Hands `event` to the subscription at `index` alone; the others are
    /// left as they were.
    pub fn handle(&mut self, index: usize, event: LoopEvent) -> (r: Option<LocalEvent>)
        requires
            old(self).wf(),
            index < 4,
        ensures
            final(self).wf(),
            final(self).loops@ == spec_handle(old(self).loops@, index as int, event@),
            opt_event_view(r) == spec_emit(old(self).loops@[index as int], event@),
    {
        let mut s = self.loops[index];
        let r = s.step(event);
        self.loops.set(index, s);
        r
    }
}

/// Emission over a run of messages splits at any point.
pub proof fn lemma_emitted_append(k: SignalKind, a: Seq<Option<PayloadView>>, b: Seq<Option<PayloadView>>)
    ensures
        spec_emitted(k, a + b) == spec_emitted(k, a) + spec_emitted(k, b),
    decreases b.len(),
{
    if b.len() == 0 {
        assert(a + b =~= a);
        assert(spec_emitted(k, b) =~= Seq::empty());
        assert(spec_emitted(k, a) + spec_emitted(k, b) =~= spec_emitted(k, a));
    } else {
        let b0 = b.drop_last();
        lemma_emitted_append(k, a, b0);
        assert((a + b).drop_last() =~= a + b0);
        assert((a + b).last() == b.last());
        match spec_on_message(k, b.last()) {
            Some(e) => {
                assert(spec_emitted(k, a) + spec_emitted(k, b0).push(e) =~= (spec_emitted(k, a) + spec_emitted(k, b0)).push(e));
            },
            None => {},
        }
    }
}

/// A message that does not decode to a subscription's shape is dropped:
/// the subscription stays live, nothing is emitted for it, and the messages
/// after it are emitted exactly as if it had never arrived.
pub proof fn lemma_malformed_message_skipped(
    s: Subscription,
    bad: Option<PayloadView>,
    before: Seq<Option<PayloadView>>,
    after: Seq<Option<PayloadView>>,
)
    requires
        s.phase == LoopPhase::Subscribed,
        spec_on_message(s.kind, bad) is None,
    ensures
        spec_next(s, LoopEventView::Received(bad)) == s,
        spec_emit(s, LoopEventView::Received(bad)) is None,
        spec_emitted(s.kind, before.push(bad) + after) == spec_emitted(s.kind, before) + spec_emitted(s.kind, after),
{
    lemma_emitted_append(s.kind, before.push(bad), after);
    assert(before.push(bad).drop_last() =~= before);
}

/// A failed setup of one subscription does not keep any other from being
/// set up and relaying its events.
pub proof fn lemma_setup_failure_isolated(loops: Seq<Subscription>, failed: int, other: int, p: PayloadView)
    requires
        spec_relay_wf(loops),
        0 <= failed < 4,
        0 <= other < 4,
        failed != other,
        loops[other].phase == LoopPhase::Connecting,
        spec_fits(spec_kind_at(other), p),
    ensures
        ({
            let after_fail = spec_handle(loops, failed, LoopEventView::SetupFailed);
            let after_setup = spec_handle(after_fail, other, LoopEventView::Subscribed);
            &&& spec_relay_wf(after_setup)
            &&& after_setup[failed].phase == LoopPhase::Ended
            &&& after_setup[other].phase == LoopPhase::Subscribed
            &&& spec_emit(after_setup[other], LoopEventView::Received(Some(p)))
                == Some(LocalEventView { name: spec_event_name(spec_kind_at(other)), payload: p })
        }),
{
    let after_fail = spec_handle(loops, failed, LoopEventView::SetupFailed);
    let after_setup = spec_handle(after_fail, other, LoopEventView::Subscribed);
    assert forall|i: int| 0 <= i < 4 implies #[trigger] after_setup[i].kind == spec_kind_at(i) by {
        assert(loops[i].kind == spec_kind_at(i));
    }
}

} // verus!
