use voiceforge_bridge::command::{Arg, MethodCall, ReplyShape};
use voiceforge_bridge::endpoint::{interface_name, object_path, service_name};
use voiceforge_bridge::export::{export_invocation, export_outcome, parse_format, ExportFormat};
use voiceforge_bridge::relay::{into_flag, into_text, into_unit, Relay, RelayAction, RelayEvent, Reply};
use voiceforge_bridge::signals::{
    LocalEvent, LoopEvent, LoopPhase, MessageKind, SignalKind, SignalPayload, SignalRelay, Subscription,
};
use voiceforge_bridge::{
    analyze, export_session, get_analytics, get_session_detail, get_sessions, get_settings,
    get_streaming_transcript, is_listening, listen_start, listen_stop, ping,
};

/// Runs one request against a daemon stub that answers with `reply`.
fn run_with_stub(call: &MethodCall, reply: Reply) -> Result<Reply, String> {
    let (mut relay, action) = Relay::new(call.reply);
    assert_eq!(action, RelayAction::Connect);
    assert_eq!(relay.step(RelayEvent::Connected), RelayAction::Call);
    match relay.step(RelayEvent::Replied) {
        RelayAction::Decode(shape) => {
            assert_eq!(shape, call.reply);
            match relay.step(RelayEvent::Decoded(reply)) {
                RelayAction::Finish(r) => r,
                other => panic!("unexpected action {:?}", other),
            }
        }
        RelayAction::Finish(r) => r,
        other => panic!("unexpected action {:?}", other),
    }
}

fn s(x: &str) -> String {
    x.to_string()
}

#[test]
fn endpoint_identity() {
    assert_eq!(service_name(), "com.voiceforge.App");
    assert_eq!(object_path(), "/com/voiceforge/App");
    assert_eq!(interface_name(), "com.voiceforge.App");
}

#[test]
fn requests_without_arguments() {
    for (call, name, shape) in [
        (ping(), "Ping", ReplyShape::Text),
        (get_settings(), "GetSettings", ReplyShape::Text),
        (get_streaming_transcript(), "GetStreamingTranscript", ReplyShape::Text),
        (is_listening(), "IsListening", ReplyShape::Flag),
        (listen_start(), "ListenStart", ReplyShape::Unit),
        (listen_stop(), "ListenStop", ReplyShape::Unit),
    ] {
        assert_eq!(call.method, name);
        assert!(call.args.is_empty());
        assert_eq!(call.reply, shape);
    }
}

#[test]
fn requests_with_arguments() {
    let c = get_sessions(5);
    assert_eq!(c.method, "GetSessions");
    assert_eq!(c.args, vec![Arg::U32(5)]);
    assert_eq!(c.reply, ReplyShape::Text);
    let c = get_session_detail(42);
    assert_eq!(c.method, "GetSessionDetail");
    assert_eq!(c.args, vec![Arg::U32(42)]);
    let c = get_analytics(s("7d"));
    assert_eq!(c.method, "GetAnalytics");
    assert_eq!(c.args, vec![Arg::Str(s("7d"))]);
}

#[test]
fn analyze_defaults_template_to_empty() {
    let c = analyze(30, None);
    assert_eq!(c.method, "Analyze");
    assert_eq!(c.args, vec![Arg::U32(30), Arg::Str(String::new())]);
    assert_eq!(c.reply, ReplyShape::Text);
    let c = analyze(60, Some(s("standup")));
    assert_eq!(c.args, vec![Arg::U32(60), Arg::Str(s("standup"))]);
}

#[test]
fn get_sessions_returns_stub_reply_verbatim() {
    let canned = s("[{\"id\":1}]");
    let r = run_with_stub(&get_sessions(5), Reply::Text(canned.clone()));
    assert_eq!(into_text(r), Ok(canned));
}

#[test]
fn every_text_command_returns_stub_reply_verbatim() {
    let canned = s("{\"ok\":true,\"data\":{}}");
    for call in [
        ping(),
        get_settings(),
        get_sessions(1),
        get_session_detail(2),
        get_analytics(s("30d")),
        analyze(10, None),
        get_streaming_transcript(),
    ] {
        let r = run_with_stub(&call, Reply::Text(canned.clone()));
        assert_eq!(into_text(r), Ok(canned.clone()));
    }
}

#[test]
fn is_listening_returns_stub_flag() {
    for b in [true, false] {
        let r = run_with_stub(&is_listening(), Reply::Flag(b));
        assert_eq!(into_flag(r), Ok(b));
    }
}

#[test]
fn unit_commands_succeed_without_payload() {
    for call in [listen_start(), listen_stop()] {
        let (mut relay, _) = Relay::new(call.reply);
        assert_eq!(relay.step(RelayEvent::Connected), RelayAction::Call);
        let done = relay.step(RelayEvent::Replied);
        assert_eq!(done, RelayAction::Finish(Ok(Reply::Unit)));
        if let RelayAction::Finish(r) = done {
            assert_eq!(into_unit(r), Ok(()));
        }
    }
}

#[test]
fn connection_failure_is_reported() {
    let (mut relay, _) = Relay::new(ReplyShape::Text);
    assert_eq!(
        relay.step(RelayEvent::ConnectFailed(s("no session bus"))),
        RelayAction::Finish(Err(s("no session bus")))
    );
}

#[test]
fn call_failure_is_reported() {
    let (mut relay, _) = Relay::new(ReplyShape::Unit);
    relay.step(RelayEvent::Connected);
    assert_eq!(
        relay.step(RelayEvent::CallFailed(s("service unknown"))),
        RelayAction::Finish(Err(s("service unknown")))
    );
}

#[test]
fn decode_failure_is_reported() {
    let (mut relay, _) = Relay::new(ReplyShape::Flag);
    relay.step(RelayEvent::Connected);
    assert_eq!(relay.step(RelayEvent::Replied), RelayAction::Decode(ReplyShape::Flag));
    assert_eq!(
        relay.step(RelayEvent::DecodeFailed(s("signature mismatch"))),
        RelayAction::Finish(Err(s("signature mismatch")))
    );
}

#[test]
fn reply_of_wrong_shape_is_an_error() {
    let r = run_with_stub(&ping(), Reply::Flag(true));
    assert_eq!(r, Err(s("reply does not match the expected shape")));
    assert_eq!(into_flag(Ok(Reply::Text(s("x")))), Err(s("reply does not match the expected shape")));
}

#[test]
fn event_out_of_order_ends_request() {
    let (mut relay, _) = Relay::new(ReplyShape::Text);
    assert_eq!(
        relay.step(RelayEvent::Replied),
        RelayAction::Finish(Err(s("event does not follow the pending action")))
    );
}

#[test]
fn filters_target_the_daemon() {
    let f = SignalKind::TranscriptChunk.filter();
    assert_eq!(f.msg_type, MessageKind::Signal);
    assert_eq!(f.sender, "com.voiceforge.App");
    assert_eq!(f.path, "/com/voiceforge/App");
    assert_eq!(f.interface, "com.voiceforge.App");
    assert_eq!(f.member, "TranscriptChunk");
    assert_eq!(SignalKind::ListenStateChanged.filter().member, "ListenStateChanged");
    assert_eq!(SignalKind::AnalysisDone.filter().member, "AnalysisDone");
    assert_eq!(SignalKind::TranscriptUpdated.filter().member, "TranscriptUpdated");
}

#[test]
fn transcript_chunk_becomes_local_event() {
    let mut sub = Subscription::new(SignalKind::TranscriptChunk);
    assert_eq!(sub.step(LoopEvent::Subscribed), None);
    let payload = SignalPayload::TranscriptChunk {
        text: s("hello"),
        speaker: s("Alice"),
        timestamp_ms: 1000,
        is_final: false,
    };
    let ev = sub.step(LoopEvent::Received(Some(payload.clone())));
    assert_eq!(ev, Some(LocalEvent { name: s("transcript-chunk"), payload }));
}

#[test]
fn each_signal_maps_to_its_event() {
    let cases = [
        (SignalKind::ListenStateChanged, SignalPayload::ListenState { is_listening: true }, "listen-state-changed"),
        (SignalKind::AnalysisDone, SignalPayload::AnalysisDone { status: s("ok") }, "analysis-done"),
        (SignalKind::TranscriptUpdated, SignalPayload::TranscriptUpdated { session_id: 9 }, "transcript-updated"),
    ];
    for (kind, payload, name) in cases {
        let mut sub = Subscription::new(kind);
        sub.step(LoopEvent::Subscribed);
        let ev = sub.step(LoopEvent::Received(Some(payload.clone())));
        assert_eq!(ev, Some(LocalEvent { name: s(name), payload }));
    }
}

#[test]
fn malformed_message_does_not_stop_subscription() {
    let mut sub = Subscription::new(SignalKind::AnalysisDone);
    sub.step(LoopEvent::Subscribed);
    assert_eq!(sub.step(LoopEvent::Received(None)), None);
    let wrong = SignalPayload::TranscriptUpdated { session_id: 3 };
    assert_eq!(sub.step(LoopEvent::Received(Some(wrong))), None);
    assert!(sub.is_active());
    let good = SignalPayload::AnalysisDone { status: s("done") };
    assert_eq!(
        sub.step(LoopEvent::Received(Some(good.clone()))),
        Some(LocalEvent { name: s("analysis-done"), payload: good })
    );
}

#[test]
fn stream_end_stops_only_that_subscription() {
    let mut sub = Subscription::new(SignalKind::ListenStateChanged);
    sub.step(LoopEvent::Subscribed);
    sub.step(LoopEvent::StreamEnded);
    assert_eq!(sub.phase, LoopPhase::Ended);
    let p = SignalPayload::ListenState { is_listening: true };
    assert_eq!(sub.step(LoopEvent::Received(Some(p))), None);
}

#[test]
fn failed_setup_leaves_other_subscriptions_working() {
    let mut relay = SignalRelay::new();
    assert_eq!(relay.handle(1, LoopEvent::SetupFailed), None);
    for i in [0usize, 2, 3] {
        relay.handle(i, LoopEvent::Subscribed);
    }
    assert_eq!(relay.get(1).phase, LoopPhase::Ended);
    assert!(relay.get(0).is_active() && relay.get(2).is_active() && relay.get(3).is_active());
    assert_eq!(relay.handle(1, LoopEvent::Received(Some(SignalPayload::AnalysisDone { status: s("x") }))), None);
    let p = SignalPayload::TranscriptUpdated { session_id: 7 };
    assert_eq!(
        relay.handle(3, LoopEvent::Received(Some(p.clone()))),
        Some(LocalEvent { name: s("transcript-updated"), payload: p })
    );
    let p = SignalPayload::ListenState { is_listening: false };
    assert_eq!(
        relay.handle(0, LoopEvent::Received(Some(p.clone()))),
        Some(LocalEvent { name: s("listen-state-changed"), payload: p })
    );
}

#[test]
fn export_format_is_case_insensitive() {
    let inv = export_session(12, "MD").unwrap();
    assert_eq!(inv.program, "voiceforge");
    assert_eq!(inv.args, vec![s("export"), s("--id"), s("12"), s("--format"), s("md")]);
    let inv = export_session(4294967295, "Pdf").unwrap();
    assert_eq!(inv.args, vec![s("export"), s("--id"), s("4294967295"), s("--format"), s("pdf")]);
    let inv = export_session(0, "pdf").unwrap();
    assert_eq!(inv.args[2], "0");
}

#[test]
fn export_rejects_other_formats() {
    for bad in ["docx", "", "m d", "mdx", "txt"] {
        assert_eq!(export_session(1, bad), Err(s("format must be md or pdf")));
    }
}

#[test]
fn parse_format_takes_lowercase_names() {
    assert_eq!(parse_format(&s("md")), Ok(ExportFormat::Markdown));
    assert_eq!(parse_format(&s("pdf")), Ok(ExportFormat::Pdf));
    assert_eq!(parse_format(&s("PDF")), Err(s("format must be md or pdf")));
    assert_eq!(ExportFormat::Pdf.as_str(), "pdf");
    assert!(export_invocation(3, &s("MD")).is_err());
}

#[test]
fn export_outcome_success_is_trimmed_stdout() {
    assert_eq!(
        export_outcome(true, b"  /home/u/session_12.md\n", b"warning\n"),
        Ok(s("/home/u/session_12.md"))
    );
}

#[test]
fn export_outcome_failure_is_stderr_text() {
    assert_eq!(export_outcome(false, b"partial", b"session not found\n"), Err(s("session not found\n")));
    assert_eq!(export_outcome(false, b"", b"bad \xff byte"), Err(s("bad \u{FFFD} byte")));
}
