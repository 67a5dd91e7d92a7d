use tihc::chat::{
    bus_step, piece_step, stream_chunk_step, stream_refusal_events, stream_start_failure_events,
    stream_start_step, AiChatChunk, BusReceipt, BusStep, PieceStep, SseEvent, StreamChatQuery,
    StreamStart,
};
use tihc::token::{exp_to_time, Claims, Session};
use tihc::shared::DomainError;

fn data(e: &SseEvent) -> (String, Option<bool>, Option<String>) {
    match e {
        SseEvent::Data(p) => (p.content.clone(), p.finished, p.error.clone()),
        SseEvent::Complete => panic!("expected data"),
    }
}

fn piece(text: &str, finished: bool) -> AiChatChunk {
    AiChatChunk { session_id: None, chat_id: None, text: text.to_string(), finished }
}

#[test]
fn stream_answers() {
    let r = stream_refusal_events();
    assert_eq!(r.len(), 2);
    assert_eq!(
        data(&r[0]),
        ("参数错误：messages 或 userId 不能为空。".to_string(), None, Some("missing messages or userId".to_string()))
    );
    assert!(matches!(r[1], SseEvent::Complete));

    let f = stream_start_failure_events("bus down");
    assert_eq!(data(&f[0]), ("很抱歉，AI服务当前不可用，请稍后重试。".to_string(), None, Some("bus down".to_string())));
    assert!(matches!(f[1], SseEvent::Complete));

    let (events, stop) = stream_chunk_step(Ok(piece("Hel", false)));
    assert!(!stop);
    assert_eq!(events.len(), 1);
    assert_eq!(data(&events[0]), ("Hel".to_string(), Some(false), None));

    let (events, stop) = stream_chunk_step(Ok(piece("lo", true)));
    assert!(stop);
    assert_eq!(events.len(), 2);
    assert!(matches!(events[1], SseEvent::Complete));

    let (events, stop) = stream_chunk_step(Err("broken".to_string()));
    assert!(stop);
    assert_eq!(data(&events[0]), ("抱歉，处理您的请求时出现错误。".to_string(), None, Some("broken".to_string())));
}

#[test]
fn bus_deliveries() {
    assert!(matches!(bus_step::<u8>(BusReceipt::Failed), BusStep::Stop));
    assert!(matches!(
        bus_step(BusReceipt::Event { event_type: "other".into(), payload: Some(1u8), items: None }),
        BusStep::Skip
    ));
    assert!(matches!(
        bus_step::<u8>(BusReceipt::Event { event_type: "ai.chat_stream".into(), payload: None, items: None }),
        BusStep::Skip
    ));
    assert!(matches!(
        bus_step(BusReceipt::Event { event_type: "ai.chat_stream".into(), payload: Some(9u8), items: Some(vec![4, 5]) }),
        BusStep::Decode(5)
    ));
    assert!(matches!(
        bus_step(BusReceipt::Event { event_type: "ai.chat_stream".into(), payload: Some(9u8), items: Some(vec![4, 5, 6]) }),
        BusStep::Decode(9)
    ));
    match piece_step(Ok(piece("x", true))) {
        PieceStep::Yield { chunk, last } => {
            assert_eq!(chunk.text, "x");
            assert!(last);
        }
        PieceStep::Skip => panic!("expected a piece"),
    }
    assert!(matches!(piece_step(Err("bad json".into())), PieceStep::Skip));
}

#[test]
fn session_survives_claims() {
    let s = Session {
        user_id: 77,
        username: "u".into(),
        email: "e".into(),
        nick_name: None,
        exp: 5,
        iat: 4,
        jti: "j".into(),
    };
    let back = Session::from(Claims::from_session(s.clone()));
    assert_eq!(back.user_id, 77);
    assert_eq!(back.exp, 5);
    assert_eq!(back.iat, 4);
    assert_eq!(back.jti, "j");
}

#[test]
fn expiry_out_of_chrono_range() {
    assert_eq!(exp_to_time(8_210_266_876_799).unwrap().secs, 8_210_266_876_799);
    match exp_to_time(8_210_266_876_800) {
        Err(DomainError::InternalError { message }) => assert_eq!(message, "无法解析过期时间戳: 8210266876800"),
        other => panic!("unexpected {:?}", other),
    }
}

#[test]
fn stream_start_or_refuse() {
    let blank = StreamChatQuery { messages: "   ".to_string(), user_id: Some(3) };
    match stream_start_step(blank, 1_700_000_000) {
        StreamStart::Refuse(events) => {
            assert_eq!(events.len(), 2);
            assert_eq!(data(&events[0]).0, "参数错误：messages 或 userId 不能为空。");
            assert!(matches!(events[1], SseEvent::Complete));
        }
        StreamStart::Ask { .. } => panic!("blank messages were put to the assistant"),
    }
    let no_user = StreamChatQuery { messages: "hi".to_string(), user_id: None };
    assert!(matches!(stream_start_step(no_user, 1), StreamStart::Refuse(_)));
    let ok = StreamChatQuery { messages: "hi".to_string(), user_id: Some(3) };
    match stream_start_step(ok, 1_700_000_000) {
        StreamStart::Ask { session_id, messages, user_id } => {
            assert_eq!(session_id, "stream_session_1700000000");
            assert_eq!(messages, "hi");
            assert_eq!(user_id, Some(3));
        }
        StreamStart::Refuse(_) => panic!("refused"),
    }
}
