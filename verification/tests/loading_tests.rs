use tradingview::error::DecodeError;
use tradingview::message::{respond, Event, EventKind, LoadingMsg, TradingViewResponse, Undecodable};
use tradingview::value::{Number, Value};

fn text(s: &str) -> Value {
    Value::String(s.to_string())
}

#[test]
fn loading_message_is_decoded_from_session_and_series_list() {
    let raw = vec![text("cs_1"), Value::Array(vec![text("sds_1"), text("s1")])];
    assert_eq!(
        LoadingMsg::new(&raw),
        Ok(LoadingMsg {
            session: "cs_1".to_string(),
            series: vec!["sds_1".to_string(), "s1".to_string()],
        })
    );
}

#[test]
fn loading_message_may_list_no_series() {
    let raw = vec![text("cs_1"), Value::Array(Vec::new())];
    assert_eq!(
        LoadingMsg::new(&raw),
        Ok(LoadingMsg { session: "cs_1".to_string(), series: Vec::new() })
    );
}

#[test]
fn loading_message_ignores_further_arguments() {
    let raw = vec![
        text("cs_1"),
        Value::Array(vec![text("st1")]),
        Value::Number(Number::PosInt(3)),
        Value::Null,
    ];
    assert_eq!(
        LoadingMsg::new(&raw),
        Ok(LoadingMsg { session: "cs_1".to_string(), series: vec!["st1".to_string()] })
    );
}

#[test]
fn empty_payload_misses_the_session() {
    assert_eq!(LoadingMsg::new(&[]), Err(DecodeError::MissingField(0)));
}

#[test]
fn payload_without_series_list_misses_it() {
    assert_eq!(LoadingMsg::new(&[text("cs_1")]), Err(DecodeError::MissingField(1)));
    assert_eq!(LoadingMsg::new(&[Value::Null]), Err(DecodeError::MissingField(1)));
}

#[test]
fn session_must_be_a_string() {
    let raw = vec![Value::Number(Number::PosInt(1)), Value::Array(vec![text("s1")])];
    assert_eq!(LoadingMsg::new(&raw), Err(DecodeError::WrongType(0)));
    let both_wrong = vec![Value::Bool(true), Value::Null];
    assert_eq!(LoadingMsg::new(&both_wrong), Err(DecodeError::WrongType(0)));
}

#[test]
fn series_list_must_be_an_array() {
    assert_eq!(LoadingMsg::new(&[text("cs_1"), text("sds_1")]), Err(DecodeError::WrongType(1)));
    assert_eq!(LoadingMsg::new(&[text("cs_1"), Value::Null]), Err(DecodeError::WrongType(1)));
    assert_eq!(
        LoadingMsg::new(&[text("cs_1"), Value::Object(Vec::new())]),
        Err(DecodeError::WrongType(1))
    );
}

#[test]
fn series_list_must_hold_strings_only() {
    let raw = vec![text("cs_1"), Value::Array(vec![text("sds_1"), Value::Bool(false)])];
    assert_eq!(LoadingMsg::new(&raw), Err(DecodeError::WrongType(1)));
    let first = vec![text("cs_1"), Value::Array(vec![Value::Null, text("s1")])];
    assert_eq!(LoadingMsg::new(&first), Err(DecodeError::WrongType(1)));
}

#[test]
fn decoding_is_repeatable() {
    let raw = vec![text("cs_1"), Value::Array(vec![text("sds_1")])];
    assert_eq!(LoadingMsg::new(&raw), LoadingMsg::new(&raw));
    let bad = vec![text("cs_1")];
    assert_eq!(LoadingMsg::new(&bad), LoadingMsg::new(&bad));
}

#[test]
fn respond_wraps_a_raw_payload_unchanged() {
    let raw = vec![text("cs_1"), Value::Null, Value::Number(Number::NegInt(-5))];
    assert_eq!(
        respond(Event::SeriesCompleted(raw.clone())),
        Ok(TradingViewResponse::SeriesCompleted(raw.clone()))
    );
    assert_eq!(
        respond(Event::StudyCompleted(raw.clone())),
        Ok(TradingViewResponse::StudyCompleted(raw.clone()))
    );
    assert_eq!(
        respond(Event::QuoteCompleted(Vec::new())),
        Ok(TradingViewResponse::QuoteCompleted(Vec::new()))
    );
    assert_eq!(respond(Event::ReplayOk(raw.clone())), Ok(TradingViewResponse::ReplayOk(raw)));
}

#[test]
fn respond_decodes_both_loading_kinds_alike() {
    let raw = vec![text("cs_1"), Value::Array(vec![text("sds_1")])];
    let msg = LoadingMsg { session: "cs_1".to_string(), series: vec!["sds_1".to_string()] };
    assert_eq!(
        respond(Event::SeriesLoading(raw.clone())),
        Ok(TradingViewResponse::SeriesLoading(msg.clone()))
    );
    assert_eq!(respond(Event::StudyLoading(raw)), Ok(TradingViewResponse::StudyLoading(msg)));
}

#[test]
fn respond_hands_a_refused_event_back_with_the_reason() {
    let raw = vec![text("cs_1")];
    assert_eq!(
        respond(Event::SeriesLoading(raw.clone())),
        Err(Undecodable {
            event: Event::SeriesLoading(raw.clone()),
            error: DecodeError::MissingField(1),
        })
    );
    assert_eq!(
        respond(Event::StudyLoading(raw.clone())),
        Err(Undecodable { event: Event::StudyLoading(raw), error: DecodeError::MissingField(1) })
    );
}

#[test]
fn response_has_the_kind_of_its_event() {
    let event = Event::UnknownEvent("du".to_string(), vec![Value::Null]);
    let kind = event.kind();
    assert_eq!(kind, EventKind::UnknownEvent);
    assert_eq!(respond(event).map(|r| r.kind()), Ok(EventKind::UnknownEvent));
    assert_eq!(
        respond(Event::ReplayInstanceId(Vec::new())).map(|r| r.kind()),
        Ok(EventKind::ReplayInstanceId)
    );
}
