//! The daemon's method surface: one request description per operation.
use vstd::prelude::*;

verus! {

/// One positional argument of a method call.
#[derive(Clone, Debug, PartialEq, Eq)]
pub enum Arg {
    U32(u32),
    Str(String),
}

pub enum ArgView {
    U32(u32),
    Str(Seq<char>),
}

impl View for Arg {
    type V = ArgView;

    open spec fn view(&self) -> ArgView {
        match self {
            Arg::U32(n) => ArgView::U32(*n),
            Arg::Str(s) => ArgView::Str(s@),
        }
    }
}

/// What the body of a successful reply is decoded as.
#[derive(Clone, Copy, Debug, PartialEq, Eq, Structural)]
pub enum ReplyShape {
    /// A single string, handed back verbatim.
    Text,
    /// A single boolean.
    Flag,
    /// Nothing: the reply body is not read.
    Unit,
}

/// A request against the daemon endpoint: method name, positional
/// arguments in order, and the shape of the expected reply.
#[derive(Clone, Debug, PartialEq, Eq)]
pub struct MethodCall {
    pub method: String,
    pub args: Vec<Arg>,
    pub reply: ReplyShape,
}

pub struct MethodCallView {
    pub method: Seq<char>,
    pub args: Seq<ArgView>,
    pub reply: ReplyShape,
}

impl View for MethodCall {
    type V = MethodCallView;

    open spec fn view(&self) -> MethodCallView {
        MethodCallView {
            method: self.method@,
            args: self.args@.map_values(|a: Arg| a@),
            reply: self.reply,
        }
    }
}

pub open spec fn spec_call(method: Seq<char>, args: Seq<ArgView>, reply: ReplyShape) -> MethodCallView {
    MethodCallView { method, args, reply }
}

fn make_call(method: &str, args: Vec<Arg>, reply: ReplyShape) -> (r: MethodCall)
    ensures
        r@ == spec_call(method@, args@.map_values(|a: Arg| a@), reply),
{
    MethodCall { method: method.to_owned(), args, reply }
}

/// A call without arguments whose reply is a single string.
fn call_method0(method: &str) -> (r: MethodCall)
    ensures
        r@ == spec_call(method@, seq![], ReplyShape::Text),
{
    let r = make_call(method, Vec::new(), ReplyShape::Text);
    assert(r@.args =~= seq![]);
    r
}

/// `Ping`: answers "pong" while the daemon is up.
pub fn ping() -> (r: MethodCall)
    ensures
        r@ == spec_call("Ping"@, seq![], ReplyShape::Text),
{
    call_method0("Ping")
}

/// `GetSettings`: the daemon's settings as a JSON string.
pub fn get_settings() -> (r: MethodCall)
    ensures
        r@ == spec_call("GetSettings"@, seq![], ReplyShape::Text),
{
    call_method0("GetSettings")
}

/// `GetSessions(limit)`: the most recent sessions as a JSON string.
pub fn get_sessions(limit: u32) -> (r: MethodCall)
    ensures
        r@ == spec_call("GetSessions"@, seq![ArgView::U32(limit)], ReplyShape::Text),
{
    let r = make_call("GetSessions", vec![Arg::U32(limit)], ReplyShape::Text);
    assert(r@.args =~= seq![ArgView::U32(limit)]);
    r
}

/// `GetSessionDetail(session_id)`: one session as a JSON string.
pub fn get_session_detail(session_id: u32) -> (r: MethodCall)
    ensures
        r@ == spec_call("GetSessionDetail"@, seq![ArgView::U32(session_id)], ReplyShape::Text),
{
    let r = make_call("GetSessionDetail", vec![Arg::U32(session_id)], ReplyShape::Text);
    assert(r@.args =~= seq![ArgView::U32(session_id)]);
    r
}

/// `GetAnalytics(period)`: statistics over a period such as "7d".
pub fn get_analytics(period: String) -> (r: MethodCall)
    ensures
        r@ == spec_call("GetAnalytics"@, seq![ArgView::Str(period@)], ReplyShape::Text),
{
    let ghost p = period@;
    let r = make_call("GetAnalytics", vec![Arg::Str(period)], ReplyShape::Text);
    assert(r@.args =~= seq![ArgView::Str(p)]);
    r
}

/// `IsListening`: whether recording is active.
pub fn is_listening() -> (r: MethodCall)
    ensures
        r@ == spec_call("IsListening"@, seq![], ReplyShape::Flag),
{
    let r = make_call("IsListening", Vec::new(), ReplyShape::Flag);
    assert(r@.args =~= seq![]);
    r
}

/// `ListenStart`: start recording; the reply carries nothing.
pub fn listen_start() -> (r: MethodCall)
    ensures
        r@ == spec_call("ListenStart"@, seq![], ReplyShape::Unit),
{
    let r = make_call("ListenStart", Vec::new(), ReplyShape::Unit);
    assert(r@.args =~= seq![]);
    r
}

/// `ListenStop`: stop recording; the reply carries nothing.
pub fn listen_stop() -> (r: MethodCall)
    ensures
        r@ == spec_call("ListenStop"@, seq![], ReplyShape::Unit),
{
    let r = make_call("ListenStop", Vec::new(), ReplyShape::Unit);
    assert(r@.args =~= seq![]);
    r
}

/// The template actually sent: the given one, or the empty string.
pub open spec fn spec_template(template: Option<String>) -> Seq<char> {
    match template {
        Some(t) => t@,
        None => Seq::empty(),
    }
}

/// `Analyze(seconds, template)`: analyse the last `seconds` of audio; a
/// missing template is sent as the empty string.
pub fn analyze(seconds: u32, template: Option<String>) -> (r: MethodCall)
    ensures
        r@ == spec_call(
            "Analyze"@,
            seq![ArgView::U32(seconds), ArgView::Str(spec_template(template))],
            ReplyShape::Text,
        ),
{
    let t = match template {
        Some(t) => t,
        None => String::new(),
    };
    let ghost tv = t@;
    let r = make_call("Analyze", vec![Arg::U32(seconds), Arg::Str(t)], ReplyShape::Text);
    assert(r@.args =~= seq![ArgView::U32(seconds), ArgView::Str(tv)]);
    r
}

/// `GetStreamingTranscript`: the partial and final transcript so far.
pub fn get_streaming_transcript() -> (r: MethodCall)
    ensures
        r@ == spec_call("GetStreamingTranscript"@, seq![], ReplyShape::Text),
{
    call_method0("GetStreamingTranscript")
}

} // verus!
