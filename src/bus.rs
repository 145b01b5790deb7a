//! What the bridge computes from session-bus values: reply and signal
//! bodies decoded to the expected shapes, and the subscriptions' match
//! rules. Connecting, calling and receiving stay with the caller.
use vstd::prelude::*;
use crate::command::ReplyShape;
use crate::endpoint::{spec_interface_name, spec_object_path, spec_service_name};
use crate::relay::{Reply, RelayEvent, RelayEventView, ReplyView};
use crate::signals::{spec_member, MessageKind, PayloadView, SignalFilter, SignalKind, SignalPayload};

verus! {

#[verifier::external_type_specification]
#[verifier::external_body]
pub struct ExMessage(zbus::Message);

#[verifier::external_type_specification]
#[verifier::external_body]
pub struct ExError(zbus::Error);

#[verifier::external_type_specification]
#[verifier::external_body]
pub struct ExMatchRule<'m>(zbus::MatchRule<'m>);

/// What `Body::deserialize::<String>` gives for a message's body.
pub uninterp spec fn text_body_of(m: zbus::Message) -> Option<Seq<char>>;

/// What `Body::deserialize::<bool>` gives for a message's body.
pub uninterp spec fn flag_body_of(m: zbus::Message) -> Option<bool>;

/// What `Body::deserialize::<(bool,)>` gives for a message's body.
pub uninterp spec fn listen_state_body_of(m: zbus::Message) -> Option<bool>;

/// What `Body::deserialize::<(String,)>` gives for a message's body.
pub uninterp spec fn status_body_of(m: zbus::Message) -> Option<Seq<char>>;

/// What `Body::deserialize::<(String, String, u32, bool)>` gives for a
/// message's body.
pub uninterp spec fn chunk_body_of(m: zbus::Message) -> Option<(Seq<char>, Seq<char>, u32, bool)>;

/// What `Body::deserialize::<(u32,)>` gives for a message's body.
pub uninterp spec fn session_id_body_of(m: zbus::Message) -> Option<u32>;

/// Relies on zbus's `Body::deserialize::<String>`: the body read as one
/// string, or an error when its signature is another; a function of the
/// message alone.
#[verifier::external_body]
fn body_text(m: &zbus::Message) -> (r: Result<String, zbus::Error>)
    ensures
        r is Ok <==> text_body_of(*m) is Some,
        r matches Ok(s) ==> text_body_of(*m) == Some(s@),
{
    m.body().deserialize::<String>()
}

/// Relies on zbus's `Body::deserialize::<bool>`: the body read as one
/// boolean, or an error when its signature is another.
#[verifier::external_body]
fn body_flag(m: &zbus::Message) -> (r: Result<bool, zbus::Error>)
    ensures
        r is Ok <==> flag_body_of(*m) is Some,
        r matches Ok(b) ==> flag_body_of(*m) == Some(b),
{
    m.body().deserialize::<bool>()
}

/// Relies on zbus's `Body::deserialize::<(bool,)>`.
#[verifier::external_body]
fn body_listen_state(m: &zbus::Message) -> (r: Result<bool, zbus::Error>)
    ensures
        r is Ok <==> listen_state_body_of(*m) is Some,
        r matches Ok(b) ==> listen_state_body_of(*m) == Some(b),
{
    m.body().deserialize::<(bool,)>().map(|t| t.0)
}

/// Relies on zbus's `Body::deserialize::<(String,)>`.
#[verifier::external_body]
fn body_status(m: &zbus::Message) -> (r: Result<String, zbus::Error>)
    ensures
        r is Ok <==> status_body_of(*m) is Some,
        r matches Ok(s) ==> status_body_of(*m) == Some(s@),
{
    m.body().deserialize::<(String,)>().map(|t| t.0)
}

/// Relies on zbus's `Body::deserialize::<(String, String, u32, bool)>`.
#[verifier::external_body]
fn body_chunk(m: &zbus::Message) -> (r: Result<(String, String, u32, bool), zbus::Error>)
    ensures
        r is Ok <==> chunk_body_of(*m) is Some,
        r matches Ok(t) ==> chunk_body_of(*m) == Some((t.0@, t.1@, t.2, t.3)),
{
    m.body().deserialize::<(String, String, u32, bool)>()
}

/// Relies on zbus's `Body::deserialize::<(u32,)>`.
#[verifier::external_body]
fn body_session_id(m: &zbus::Message) -> (r: Result<u32, zbus::Error>)
    ensures
        r is Ok <==> session_id_body_of(*m) is Some,
        r matches Ok(n) ==> session_id_body_of(*m) == Some(n),
{
    m.body().deserialize::<(u32,)>().map(|t| t.0)
}

/// Relies on `Display` for `zbus::Error`: a readable description.
#[verifier::external_body]
fn error_text(e: &zbus::Error) -> String {
    e.to_string()
}

/// An ASCII letter or `_`: what a name element may start with.
pub open spec fn spec_name_start(c: char) -> bool {
    ('a' <= c && c <= 'z') || ('A' <= c && c <= 'Z') || c == '_'
}

/// An ASCII letter, digit or `_`.
pub open spec fn spec_name_char(c: char) -> bool {
    spec_name_start(c) || ('0' <= c && c <= '9')
}

/// A member name: one element, at most 255 characters.
pub open spec fn spec_valid_member(s: Seq<char>) -> bool {
    &&& 1 <= s.len() <= 255
    &&& spec_name_start(s[0])
    &&& forall|i: int| 0 <= i < s.len() ==> spec_name_char(#[trigger] s[i])
}

/// Two or more elements joined by `.`, at most 255 characters: an
/// interface name, and also a well-known bus name.
pub open spec fn spec_valid_dotted(s: Seq<char>) -> bool {
    &&& 1 <= s.len() <= 255
    &&& spec_name_start(s[0])
    &&& s[s.len() - 1] != '.'
    &&& exists|i: int| 0 <= i < s.len() && #[trigger] s[i] == '.'
    &&& forall|i: int| 0 <= i < s.len() ==> spec_name_char(#[trigger] s[i]) || s[i] == '.'
    &&& forall|i: int| 0 <= i < s.len() - 1 && #[trigger] s[i] == '.' ==> spec_name_start(s[i + 1])
}

/// An object path: `/`, or `/`-led elements of letters, digits and `_`.
pub open spec fn spec_valid_path(s: Seq<char>) -> bool {
    &&& 1 <= s.len()
    &&& s[0] == '/'
    &&& s.len() > 1 ==> s[s.len() - 1] != '/'
    &&& forall|i: int| 0 <= i < s.len() ==> spec_name_char(#[trigger] s[i]) || s[i] == '/'
    &&& forall|i: int| 0 <= i < s.len() - 1 && #[trigger] s[i] == '/' ==> s[i + 1] != '/'
}

/// Names that the bus accepts in every field of a match rule.
pub open spec fn spec_valid_filter(f: SignalFilter) -> bool {
    &&& spec_valid_dotted(f.sender@)
    &&& spec_valid_path(f.path@)
    &&& spec_valid_dotted(f.interface@)
    &&& spec_valid_member(f.member@)
}

/// What `Display` for `zbus::MatchRule` writes: the rule in the bus's
/// textual form.
pub uninterp spec fn rule_text_of(r: zbus::MatchRule<'static>) -> Seq<char>;

pub open spec fn spec_type_text(k: MessageKind) -> Seq<char> {
    match k {
        MessageKind::MethodCall => "method_call"@,
        MessageKind::MethodReturn => "method_return"@,
        MessageKind::Error => "error"@,
        MessageKind::Signal => "signal"@,
    }
}

/// One `key='value'` component of a rule's text.
pub open spec fn spec_component(key: Seq<char>, value: Seq<char>) -> Seq<char> {
    key + "='"@ + value + "'"@
}

/// The text of a rule with a message type, sender, interface, member and
/// path, in the order the bus library writes them.
pub open spec fn spec_rule_text(
    msg_type: Seq<char>,
    sender: Seq<char>,
    interface: Seq<char>,
    member: Seq<char>,
    path: Seq<char>,
) -> Seq<char> {
    spec_component("type"@, msg_type) + ","@ + spec_component("sender"@, sender) + ","@
        + spec_component("interface"@, interface) + ","@ + spec_component("member"@, member)
        + ","@ + spec_component("path"@, path)
}

pub open spec fn spec_filter_text(f: SignalFilter) -> Seq<char> {
    spec_rule_text(spec_type_text(f.msg_type), f.sender@, f.interface@, f.member@, f.path@)
}

/// Relies on zbus's `MatchRule` builder: a rule with the filter's message
/// type, sender, path, interface and member, and nothing else, which its
/// `Display` writes as `type='..',sender='..',interface='..',member='..',path='..'`.
/// Each name is checked by zbus_names' or zvariant's validation, which
/// accepts every name of the shapes above; a refused name comes back as
/// the error.
#[verifier::external_body]
fn build_match_rule(f: &SignalFilter) -> (r: Result<zbus::MatchRule<'static>, zbus::Error>)
    ensures
        spec_valid_filter(*f) ==> r is Ok,
        r matches Ok(rule) ==> rule_text_of(rule) == spec_filter_text(*f),
{
    let msg_type = match f.msg_type {
        MessageKind::MethodCall => zbus::message::Type::MethodCall,
        MessageKind::MethodReturn => zbus::message::Type::MethodReturn,
        MessageKind::Error => zbus::message::Type::Error,
        MessageKind::Signal => zbus::message::Type::Signal,
    };
    Ok(zbus::MatchRule::builder()
        .msg_type(msg_type)
        .sender(f.sender)?
        .path(f.path)?
        .interface(f.interface)?
        .member(f.member)?
        .build())
}

/// Decodes a reply body as the expected shape, for the relay's `Decode`
/// action. A unit reply has no body to read.
pub fn decode_reply(m: &zbus::Message, shape: ReplyShape) -> (e: RelayEvent)
    ensures
        shape == ReplyShape::Unit ==> e@ == RelayEventView::Decoded(ReplyView::Unit),
        shape == ReplyShape::Text ==> match text_body_of(*m) {
            Some(t) => e@ == RelayEventView::Decoded(ReplyView::Text(t)),
            None => e is DecodeFailed,
        },
        shape == ReplyShape::Flag ==> match flag_body_of(*m) {
            Some(b) => e@ == RelayEventView::Decoded(ReplyView::Flag(b)),
            None => e is DecodeFailed,
        },
{
    match shape {
        ReplyShape::Text => match body_text(m) {
            Ok(s) => RelayEvent::Decoded(Reply::Text(s)),
            Err(err) => RelayEvent::DecodeFailed(error_text(&err)),
        },
        ReplyShape::Flag => match body_flag(m) {
            Ok(b) => RelayEvent::Decoded(Reply::Flag(b)),
            Err(err) => RelayEvent::DecodeFailed(error_text(&err)),
        },
        ReplyShape::Unit => RelayEvent::Decoded(Reply::Unit),
    }
}

/// The payload a signal body decodes to for a subscription: `None` when
/// the body has another shape.
pub open spec fn spec_signal_payload(kind: SignalKind, m: zbus::Message) -> Option<PayloadView> {
    match kind {
        SignalKind::ListenStateChanged => match listen_state_body_of(m) {
            Some(b) => Some(PayloadView::ListenState { is_listening: b }),
            None => None,
        },
        SignalKind::AnalysisDone => match status_body_of(m) {
            Some(s) => Some(PayloadView::AnalysisDone { status: s }),
            None => None,
        },
        SignalKind::TranscriptChunk => match chunk_body_of(m) {
            Some((t, s, ts, f)) => Some(
                PayloadView::TranscriptChunk { text: t, speaker: s, timestamp_ms: ts, is_final: f },
            ),
            None => None,
        },
        SignalKind::TranscriptUpdated => match session_id_body_of(m) {
            Some(n) => Some(PayloadView::TranscriptUpdated { session_id: n }),
            None => None,
        },
    }
}

/// Decodes a signal body as the payload of the subscription's signal.
pub fn decode_signal(kind: SignalKind, m: &zbus::Message) -> (r: Option<SignalPayload>)
    ensures
        match r {
            Some(p) => spec_signal_payload(kind, *m) == Some(p@),
            None => spec_signal_payload(kind, *m) is None,
        },
{
    match kind {
        SignalKind::ListenStateChanged => match body_listen_state(m) {
            Ok(is_listening) => Some(SignalPayload::ListenState { is_listening }),
            Err(_) => None,
        },
        SignalKind::AnalysisDone => match body_status(m) {
            Ok(status) => Some(SignalPayload::AnalysisDone { status }),
            Err(_) => None,
        },
        SignalKind::TranscriptChunk => match body_chunk(m) {
            Ok((text, speaker, timestamp_ms, is_final)) => Some(
                SignalPayload::TranscriptChunk { text, speaker, timestamp_ms, is_final },
            ),
            Err(_) => None,
        },
        SignalKind::TranscriptUpdated => match body_session_id(m) {
            Ok(session_id) => Some(SignalPayload::TranscriptUpdated { session_id }),
            Err(_) => None,
        },
    }
}

/// The daemon's names, and each signal's member name, are valid on the bus.
proof fn lemma_filter_valid(kind: SignalKind)
    ensures
        spec_valid_dotted(spec_service_name()),
        spec_valid_path(spec_object_path()),
        spec_valid_dotted(spec_interface_name()),
        spec_valid_member(spec_member(kind)),
{
    reveal_strlit("com.voiceforge.App");
    reveal_strlit("/com/voiceforge/App");
    reveal_strlit("ListenStateChanged");
    reveal_strlit("AnalysisDone");
    reveal_strlit("TranscriptChunk");
    reveal_strlit("TranscriptUpdated");
    let name = spec_service_name();
    assert(name[3] == '.');
}

/// The bus match rule of a subscription: signals of the subscription's
/// member from the daemon's name, path and interface, and no other
/// messages. The names are fixed and valid, so the rule is always built.
pub fn match_rule(kind: SignalKind) -> (r: Result<zbus::MatchRule<'static>, String>)
    ensures
        r is Ok,
        r matches Ok(rule) ==> rule_text_of(rule) == spec_rule_text(
            "signal"@,
            spec_service_name(),
            spec_interface_name(),
            spec_member(kind),
            spec_object_path(),
        ),
{
    let f = kind.filter();
    proof {
        lemma_filter_valid(kind);
    }
    match build_match_rule(&f) {
        Ok(rule) => Ok(rule),
        Err(err) => Err(error_text(&err)),
    }
}

} // verus!
