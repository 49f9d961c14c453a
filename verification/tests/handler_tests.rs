use std::sync::{Arc, Mutex};
use tokio::sync::mpsc::error::TryRecvError;
use tokio::sync::mpsc::unbounded_channel;
use tradingview::chart::{DataPoint, SeriesInfo, StudyOptions, StudyResponseData, SymbolInfo};
use tradingview::error::{DecodeError, Error, TradingViewError};
use tradingview::handler::{
    create_handler, default_callback, deliver, forward, Callback, Level, Outcome,
    TradingViewHandler,
};
use tradingview::message::{Event, EventKind, LoadingMsg, TradingViewResponse};
use tradingview::pine_indicator::ScriptType;
use tradingview::quote::{QuoteData, QuoteValue};
use tradingview::value::{Number, Value};

fn text(s: &str) -> Value {
    Value::String(s.to_string())
}

fn raw_payload() -> Vec<Value> {
    vec![text("cs_abc"), text("sds_1"), Value::Number(Number::PosInt(7))]
}

fn loading_payload() -> Vec<Value> {
    vec![text("cs_abc"), Value::Array(vec![text("sds_1"), text("s1")])]
}

fn symbol_info() -> SymbolInfo {
    SymbolInfo {
        id: "BINANCE:BTCUSDT".to_string(),
        name: "BTCUSDT".to_string(),
        full_name: "BINANCE:BTCUSDT".to_string(),
        description: "Bitcoin / TetherUS".to_string(),
        exchange: "BINANCE".to_string(),
        listed_exchange: "BINANCE".to_string(),
        provider_id: "binance".to_string(),
        base_currency: "BTC".to_string(),
        currency_code: "USDT".to_string(),
        timezone: "Etc/UTC".to_string(),
        market_type: "spot".to_string(),
        session: "24x7".to_string(),
        price_scale: 100,
        point_value: 1,
        min_move: 1,
        has_intraday: true,
        is_tradable: true,
        is_replayable: false,
        has_adjustment: false,
        has_extended_hours: false,
    }
}

fn series_info() -> SeriesInfo {
    SeriesInfo {
        chart_session: "cs_abc".to_string(),
        series_id: "sds_1".to_string(),
        symbol: "BTCUSDT".to_string(),
        exchange: "BINANCE".to_string(),
        interval: "1D".to_string(),
    }
}

fn points() -> Vec<DataPoint> {
    vec![
        DataPoint { index: 0, value: vec![Number::PosInt(1700000000), Number::PosInt(42)] },
        DataPoint { index: 1, value: vec![Number::PosInt(1700086400), Number::NegInt(-3)] },
    ]
}

fn study_options() -> StudyOptions {
    StudyOptions {
        script_id: "STD;RSI".to_string(),
        script_version: "33.0".to_string(),
        script_type: ScriptType::Script,
    }
}

fn study_data() -> StudyResponseData {
    StudyResponseData { node: "st1".to_string(), studies: points(), raw_graphics: Value::Null }
}

fn quote() -> QuoteValue {
    QuoteValue {
        id: "BINANCE:BTCUSDT".to_string(),
        status: "ok".to_string(),
        value: QuoteData {
            ask: Some(Number::PosInt(101)),
            ask_size: None,
            bid: Some(Number::PosInt(99)),
            bid_size: None,
            price_change: Some(Number::NegInt(-1)),
            price_percent_change: None,
            open: None,
            high: None,
            low: None,
            prev_close: None,
            price: Some(Number::PosInt(100)),
            timestamp: Some(Number::PosInt(1700000000)),
            volume: None,
            currency: Some("USDT".to_string()),
            symbol: Some("BTCUSDT".to_string()),
            exchange: Some("BINANCE".to_string()),
            market_type: None,
        },
    }
}

fn sample_events() -> Vec<Event> {
    vec![
        Event::SymbolInfo(symbol_info()),
        Event::SeriesLoading(loading_payload()),
        Event::ChartData(series_info(), points()),
        Event::SeriesCompleted(raw_payload()),
        Event::StudyLoading(loading_payload()),
        Event::StudyData(study_options(), study_data()),
        Event::StudyCompleted(raw_payload()),
        Event::QuoteData(quote()),
        Event::QuoteCompleted(raw_payload()),
        Event::ReplayOk(raw_payload()),
        Event::ReplayPoint(raw_payload()),
        Event::ReplayInstanceId(raw_payload()),
        Event::ReplayResolutions(raw_payload()),
        Event::ReplayDataEnd(raw_payload()),
        Event::Error(Error::TradingViewError(TradingViewError::SeriesError), raw_payload()),
        Event::UnknownEvent("tickmark_update".to_string(), raw_payload()),
    ]
}

fn loading_msg() -> LoadingMsg {
    LoadingMsg {
        session: "cs_abc".to_string(),
        series: vec!["sds_1".to_string(), "s1".to_string()],
    }
}

fn expected_responses() -> Vec<TradingViewResponse> {
    vec![
        TradingViewResponse::SymbolInfo(symbol_info()),
        TradingViewResponse::SeriesLoading(loading_msg()),
        TradingViewResponse::ChartData(series_info(), points()),
        TradingViewResponse::SeriesCompleted(raw_payload()),
        TradingViewResponse::StudyLoading(loading_msg()),
        TradingViewResponse::StudyData(study_options(), study_data()),
        TradingViewResponse::StudyCompleted(raw_payload()),
        TradingViewResponse::QuoteData(quote()),
        TradingViewResponse::QuoteCompleted(raw_payload()),
        TradingViewResponse::ReplayOk(raw_payload()),
        TradingViewResponse::ReplayPoint(raw_payload()),
        TradingViewResponse::ReplayInstanceId(raw_payload()),
        TradingViewResponse::ReplayResolutions(raw_payload()),
        TradingViewResponse::ReplayDataEnd(raw_payload()),
        TradingViewResponse::Error(
            Error::TradingViewError(TradingViewError::SeriesError),
            raw_payload(),
        ),
        TradingViewResponse::UnknownEvent("tickmark_update".to_string(), raw_payload()),
    ]
}

#[test]
fn sample_events_cover_every_kind_once() {
    let kinds: Vec<EventKind> = sample_events().iter().map(|e| e.kind()).collect();
    assert_eq!(kinds.len(), 16);
    for (i, a) in kinds.iter().enumerate() {
        for b in kinds.iter().skip(i + 1) {
            assert_ne!(a, b);
        }
    }
}

#[test]
fn default_handler_observes_every_kind_and_sends_nothing() {
    let handler = TradingViewHandler::default();
    for event in sample_events() {
        let kind = event.kind();
        let out = handler.dispatch(event.clone());
        assert_eq!(out, Outcome::Observed(kind.name(), event));
        assert_eq!(out.diagnostics(), 1);
        assert_eq!(out.sends(), 0);
        assert_eq!(out.level(), Some(Level::Trace));
    }
}

#[test]
fn default_handler_observes_an_undecodable_loading_payload_too() {
    let handler = TradingViewHandler::default();
    let event = Event::SeriesLoading(vec![text("cs_abc")]);
    let out = handler.dispatch(event.clone());
    assert_eq!(out, Outcome::Observed("ON_SERIES_LOADING", event));
    assert_eq!(out.diagnostics(), 1);
    assert_eq!(out.sends(), 0);
}

#[test]
fn default_callback_observes_under_the_given_name() {
    let callback: Callback<Vec<Value>> = default_callback("ON_REPLAY_OK");
    assert!(matches!(callback, Callback::Observe("ON_REPLAY_OK")));
}

#[test]
fn bridge_delivers_one_matching_response_for_every_kind() {
    let events = sample_events();
    let expected = expected_responses();
    assert_eq!(events.len(), expected.len());
    for (event, response) in events.into_iter().zip(expected.into_iter()) {
        let (tx, mut rx) = unbounded_channel::<TradingViewResponse>();
        let handler = create_handler(Arc::new(tx));
        let kind = event.kind();
        let out = handler.dispatch(event);
        assert_eq!(out, Outcome::Delivered);
        assert_eq!(out.sends(), 1);
        assert_eq!(out.diagnostics(), 0);
        assert_eq!(out.level(), None);
        let received = rx.try_recv().expect("one response on the channel");
        assert_eq!(received.kind(), kind);
        assert_eq!(received, response);
        assert_eq!(rx.try_recv(), Err(TryRecvError::Empty));
    }
}

#[test]
fn bridge_keeps_the_unknown_event_name_and_payload() {
    let (tx, mut rx) = unbounded_channel::<TradingViewResponse>();
    let handler = create_handler(Arc::new(tx));
    let out = handler.dispatch(Event::UnknownEvent("du".to_string(), vec![Value::Bool(true)]));
    assert_eq!(out, Outcome::Delivered);
    assert_eq!(
        rx.try_recv(),
        Ok(TradingViewResponse::UnknownEvent("du".to_string(), vec![Value::Bool(true)]))
    );
}

#[test]
fn bridge_sends_nothing_for_loading_payload_without_series_list() {
    let (tx, mut rx) = unbounded_channel::<TradingViewResponse>();
    let handler = create_handler(Arc::new(tx));
    let raw = vec![text("cs_abc")];

    let series = handler.dispatch(Event::SeriesLoading(raw.clone()));
    assert_eq!(
        series,
        Outcome::Undecodable(Event::SeriesLoading(raw.clone()), DecodeError::MissingField(1))
    );
    assert_eq!(series.sends(), 0);
    assert_eq!(series.diagnostics(), 1);
    assert_eq!(series.level(), Some(Level::Error));

    let study = handler.dispatch(Event::StudyLoading(raw.clone()));
    assert_eq!(
        study,
        Outcome::Undecodable(Event::StudyLoading(raw), DecodeError::MissingField(1))
    );
    assert_eq!(study.sends(), 0);
    assert_eq!(study.diagnostics(), 1);

    assert_eq!(rx.try_recv(), Err(TryRecvError::Empty));
}

#[test]
fn bridge_goes_on_after_an_undecodable_payload() {
    let (tx, mut rx) = unbounded_channel::<TradingViewResponse>();
    let handler = create_handler(Arc::new(tx));
    let refused = handler.dispatch(Event::StudyLoading(vec![Value::Null, Value::Null]));
    assert_eq!(
        refused,
        Outcome::Undecodable(
            Event::StudyLoading(vec![Value::Null, Value::Null]),
            DecodeError::WrongType(0)
        )
    );
    assert_eq!(handler.dispatch(Event::StudyLoading(loading_payload())), Outcome::Delivered);
    assert_eq!(rx.try_recv(), Ok(TradingViewResponse::StudyLoading(loading_msg())));
    assert_eq!(rx.try_recv(), Err(TryRecvError::Empty));
}

#[test]
fn responses_arrive_in_the_order_of_the_events() {
    let (tx, mut rx) = unbounded_channel::<TradingViewResponse>();
    let handler = create_handler(Arc::new(tx));
    assert_eq!(handler.dispatch(Event::QuoteData(quote())), Outcome::Delivered);
    assert_eq!(handler.dispatch(Event::ChartData(series_info(), points())), Outcome::Delivered);
    assert_eq!(rx.try_recv(), Ok(TradingViewResponse::QuoteData(quote())));
    assert_eq!(rx.try_recv(), Ok(TradingViewResponse::ChartData(series_info(), points())));
    assert_eq!(rx.try_recv(), Err(TryRecvError::Empty));
}

#[test]
fn responses_of_all_kinds_arrive_in_order() {
    let (tx, mut rx) = unbounded_channel::<TradingViewResponse>();
    let handler = create_handler(Arc::new(tx));
    for event in sample_events() {
        assert_eq!(handler.dispatch(event), Outcome::Delivered);
    }
    for response in expected_responses() {
        assert_eq!(rx.try_recv(), Ok(response));
    }
    assert_eq!(rx.try_recv(), Err(TryRecvError::Empty));
}

#[test]
fn closed_channel_is_reported_for_every_event_and_nothing_else_happens() {
    let (tx, rx) = unbounded_channel::<TradingViewResponse>();
    drop(rx);
    let handler = create_handler(Arc::new(tx));
    let events = sample_events();
    let expected = expected_responses();
    for (event, response) in events.into_iter().zip(expected.into_iter()) {
        let out = handler.dispatch(event);
        assert_eq!(out, Outcome::Undelivered(response));
        assert_eq!(out.sends(), 0);
        assert_eq!(out.diagnostics(), 1);
        assert_eq!(out.level(), Some(Level::Error));
    }
}

#[test]
fn closed_channel_still_reports_decode_failures() {
    let (tx, rx) = unbounded_channel::<TradingViewResponse>();
    drop(rx);
    let handler = create_handler(Arc::new(tx));
    let out = handler.dispatch(Event::SeriesLoading(Vec::new()));
    assert_eq!(
        out,
        Outcome::Undecodable(Event::SeriesLoading(Vec::new()), DecodeError::MissingField(0))
    );
}

#[test]
fn channel_closed_by_the_receiver_hands_the_response_back() {
    let (tx, mut rx) = unbounded_channel::<TradingViewResponse>();
    assert_eq!(deliver(&tx, TradingViewResponse::ReplayOk(raw_payload())), Outcome::Delivered);
    rx.close();
    assert_eq!(
        deliver(&tx, TradingViewResponse::ReplayPoint(raw_payload())),
        Outcome::Undelivered(TradingViewResponse::ReplayPoint(raw_payload()))
    );
    assert_eq!(rx.try_recv(), Ok(TradingViewResponse::ReplayOk(raw_payload())));
    assert_eq!(rx.try_recv(), Err(TryRecvError::Disconnected));
}

#[test]
fn forward_builds_the_response_then_delivers() {
    let (tx, mut rx) = unbounded_channel::<TradingViewResponse>();
    assert_eq!(forward(&tx, Event::SeriesLoading(loading_payload())), Outcome::Delivered);
    assert_eq!(rx.try_recv(), Ok(TradingViewResponse::SeriesLoading(loading_msg())));
    let refused = forward(&tx, Event::SeriesLoading(vec![text("cs_abc"), text("sds_1")]));
    assert_eq!(
        refused,
        Outcome::Undecodable(
            Event::SeriesLoading(vec![text("cs_abc"), text("sds_1")]),
            DecodeError::WrongType(1)
        )
    );
    assert_eq!(rx.try_recv(), Err(TryRecvError::Empty));
}

#[test]
fn outcome_of_send_follows_the_channel() {
    assert_eq!(Outcome::of_send(Ok(())), Outcome::Delivered);
    assert_eq!(
        Outcome::of_send(Err(TradingViewResponse::QuoteData(quote()))),
        Outcome::Undelivered(TradingViewResponse::QuoteData(quote()))
    );
}

#[test]
fn handled_outcome_calls_for_no_report() {
    assert_eq!(Outcome::Handled.level(), None);
    assert_eq!(Outcome::Handled.diagnostics(), 0);
    assert_eq!(Outcome::Handled.sends(), 0);
}

#[test]
fn setter_replaces_one_handler_and_leaves_the_others() {
    let calls = Arc::new(Mutex::new(0usize));
    let seen = calls.clone();
    let handler = TradingViewHandler::default().on_quote_data(move |quote: QuoteValue| {
        assert_eq!(quote.id, "BINANCE:BTCUSDT");
        *seen.lock().unwrap() += 1;
    });
    assert!(matches!(handler.on_quote_data, Callback::Custom(_)));
    assert!(matches!(handler.on_quote_completed, Callback::Observe("ON_QUOTE_COMPLETED")));

    assert_eq!(handler.dispatch(Event::QuoteData(quote())), Outcome::Handled);
    assert_eq!(*calls.lock().unwrap(), 1);
    for event in sample_events() {
        if event.kind() != EventKind::QuoteData {
            let kind = event.kind();
            assert_eq!(handler.dispatch(event.clone()), Outcome::Observed(kind.name(), event));
        }
    }
    assert_eq!(*calls.lock().unwrap(), 1);
}

#[test]
fn setters_chain_and_take_tuples() {
    let calls = Arc::new(Mutex::new(0usize));
    let a = calls.clone();
    let b = calls.clone();
    let c = calls.clone();
    let d = calls.clone();
    let handler = TradingViewHandler::default()
        .on_chart_data(move |(series, points): (SeriesInfo, Vec<DataPoint>)| {
            assert_eq!(series.series_id, "sds_1");
            assert_eq!(points.len(), 2);
            *a.lock().unwrap() += 1;
        })
        .on_study_data(move |(options, data): (StudyOptions, StudyResponseData)| {
            assert_eq!(options.script_id, "STD;RSI");
            assert_eq!(data.node, "st1");
            *b.lock().unwrap() += 10;
        })
        .on_error(move |(error, raw): (Error, Vec<Value>)| {
            assert_eq!(error, Error::Internal("boom".to_string()));
            assert!(raw.is_empty());
            *c.lock().unwrap() += 100;
        })
        .on_unknown_event(move |(name, raw): (String, Vec<Value>)| {
            assert_eq!(name, "du");
            assert_eq!(raw, vec![Value::Null]);
            *d.lock().unwrap() += 1000;
        });
    assert_eq!(handler.dispatch(Event::ChartData(series_info(), points())), Outcome::Handled);
    assert_eq!(handler.dispatch(Event::StudyData(study_options(), study_data())), Outcome::Handled);
    assert_eq!(
        handler.dispatch(Event::Error(Error::Internal("boom".to_string()), Vec::new())),
        Outcome::Handled
    );
    assert_eq!(
        handler.dispatch(Event::UnknownEvent("du".to_string(), vec![Value::Null])),
        Outcome::Handled
    );
    assert_eq!(*calls.lock().unwrap(), 1111);
}

#[test]
fn every_setter_binds_its_own_kind() {
    let calls = Arc::new(Mutex::new(0usize));
    let c1 = calls.clone();
    let c2 = calls.clone();
    let c3 = calls.clone();
    let c4 = calls.clone();
    let c5 = calls.clone();
    let c6 = calls.clone();
    let c7 = calls.clone();
    let c8 = calls.clone();
    let c9 = calls.clone();
    let c10 = calls.clone();
    let c11 = calls.clone();
    let handler = TradingViewHandler::default()
        .on_symbol_info(move |_info: SymbolInfo| {
            *c1.lock().unwrap() += 1;
        })
        .on_series_loading(move |_raw: Vec<Value>| {
            *c2.lock().unwrap() += 1;
        })
        .on_series_completed(move |_raw: Vec<Value>| {
            *c3.lock().unwrap() += 1;
        })
        .on_study_loading(move |_raw: Vec<Value>| {
            *c4.lock().unwrap() += 1;
        })
        .on_study_completed(move |_raw: Vec<Value>| {
            *c5.lock().unwrap() += 1;
        })
        .on_quote_completed(move |_raw: Vec<Value>| {
            *c6.lock().unwrap() += 1;
        })
        .on_replay_ok(move |_raw: Vec<Value>| {
            *c7.lock().unwrap() += 1;
        })
        .on_replay_point(move |_raw: Vec<Value>| {
            *c8.lock().unwrap() += 1;
        })
        .on_replay_instance_id(move |_raw: Vec<Value>| {
            *c9.lock().unwrap() += 1;
        })
        .on_replay_resolutions(move |_raw: Vec<Value>| {
            *c10.lock().unwrap() += 1;
        })
        .on_replay_data_end(move |_raw: Vec<Value>| {
            *c11.lock().unwrap() += 1;
        });
    let mut handled: usize = 0;
    let mut observed: usize = 0;
    for event in sample_events() {
        match handler.dispatch(event) {
            Outcome::Handled => handled += 1,
            Outcome::Observed(..) => observed += 1,
            other => panic!("unexpected outcome {:?}", other),
        }
    }
    assert_eq!(handled, 11);
    assert_eq!(observed, 5);
    assert_eq!(*calls.lock().unwrap(), 11);
}

#[test]
fn custom_loading_handler_gets_the_raw_payload_undecoded() {
    let calls = Arc::new(Mutex::new(0usize));
    let seen = calls.clone();
    let handler = TradingViewHandler::default().on_series_loading(move |raw: Vec<Value>| {
        assert_eq!(raw, vec![Value::Null]);
        *seen.lock().unwrap() += 1;
    });
    assert_eq!(handler.dispatch(Event::SeriesLoading(vec![Value::Null])), Outcome::Handled);
    assert_eq!(*calls.lock().unwrap(), 1);
}

#[test]
fn setter_on_a_bridge_overrides_only_that_kind() {
    let (tx, mut rx) = unbounded_channel::<TradingViewResponse>();
    let calls = Arc::new(Mutex::new(0usize));
    let seen = calls.clone();
    let handler = create_handler(Arc::new(tx)).on_replay_ok(move |_raw: Vec<Value>| {
        *seen.lock().unwrap() += 1;
    });
    assert_eq!(handler.dispatch(Event::ReplayOk(raw_payload())), Outcome::Handled);
    assert_eq!(handler.dispatch(Event::ReplayPoint(raw_payload())), Outcome::Delivered);
    assert_eq!(*calls.lock().unwrap(), 1);
    assert_eq!(rx.try_recv(), Ok(TradingViewResponse::ReplayPoint(raw_payload())));
    assert_eq!(rx.try_recv(), Err(TryRecvError::Empty));
}

#[test]
fn cloned_registry_shares_its_handlers() {
    let (tx, mut rx) = unbounded_channel::<TradingViewResponse>();
    let calls = Arc::new(Mutex::new(0usize));
    let seen = calls.clone();
    let handler = create_handler(Arc::new(tx)).on_replay_ok(move |_raw: Vec<Value>| {
        *seen.lock().unwrap() += 1;
    });
    let copy = handler.clone();
    assert_eq!(handler.dispatch(Event::ReplayOk(raw_payload())), Outcome::Handled);
    assert_eq!(copy.dispatch(Event::ReplayOk(raw_payload())), Outcome::Handled);
    assert_eq!(*calls.lock().unwrap(), 2);
    assert_eq!(copy.dispatch(Event::ReplayDataEnd(raw_payload())), Outcome::Delivered);
    assert_eq!(handler.dispatch(Event::ReplayDataEnd(Vec::new())), Outcome::Delivered);
    assert_eq!(rx.try_recv(), Ok(TradingViewResponse::ReplayDataEnd(raw_payload())));
    assert_eq!(rx.try_recv(), Ok(TradingViewResponse::ReplayDataEnd(Vec::new())));
}

fn shareable<T: Send + Sync + Clone>(_value: &T) -> bool {
    true
}

#[test]
fn registry_can_be_shared_between_threads() {
    let (tx, _rx) = unbounded_channel::<TradingViewResponse>();
    let handler = create_handler(Arc::new(tx)).on_replay_ok(|_raw: Vec<Value>| {});
    assert!(shareable(&handler));
    assert!(shareable(&TradingViewHandler::default()));
}

#[test]
fn event_kinds_have_their_handler_names() {
    assert_eq!(EventKind::SymbolInfo.name(), "ON_SYMBOL_INFO");
    assert_eq!(EventKind::SeriesLoading.name(), "ON_SERIES_LOADING");
    assert_eq!(EventKind::ChartData.name(), "ON_CHART_DATA");
    assert_eq!(EventKind::SeriesCompleted.name(), "ON_SERIES_COMPLETED");
    assert_eq!(EventKind::StudyLoading.name(), "ON_STUDY_LOADING");
    assert_eq!(EventKind::StudyData.name(), "ON_STUDY_DATA");
    assert_eq!(EventKind::StudyCompleted.name(), "ON_STUDY_COMPLETED");
    assert_eq!(EventKind::QuoteData.name(), "ON_QUOTE_DATA");
    assert_eq!(EventKind::QuoteCompleted.name(), "ON_QUOTE_COMPLETED");
    assert_eq!(EventKind::ReplayOk.name(), "ON_REPLAY_OK");
    assert_eq!(EventKind::ReplayPoint.name(), "ON_REPLAY_POINT");
    assert_eq!(EventKind::ReplayInstanceId.name(), "ON_REPLAY_INSTANCE_ID");
    assert_eq!(EventKind::ReplayResolutions.name(), "ON_REPLAY_RESOLUTIONS");
    assert_eq!(EventKind::ReplayDataEnd.name(), "ON_REPLAY_DATA_END");
    assert_eq!(EventKind::Error.name(), "ON_ERROR");
    assert_eq!(EventKind::UnknownEvent.name(), "ON_UNKNOWN_EVENT");
}
