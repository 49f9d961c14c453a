//! The events of the stream and the responses that stand for them.
//!
//! An [`Event`] is what the transport hands over: the kind of one wire event
//! and its payload. A [`TradingViewResponse`] is what the application
//! receives. [`respond`] makes the one from the other.

use crate::chart::{DataPoint, SeriesInfo, StudyOptions, StudyResponseData, SymbolInfo};
use crate::error::{DecodeError, Error};
use crate::quote::QuoteValue;
use crate::value::{views, Value, ValueView};
use vstd::prelude::*;

verus! {

/// The kinds of event that the stream carries. `UnknownEvent` stands for
/// every event whose name this layer does not know.
#[derive(Debug, Clone, Copy, PartialEq, Eq, Structural)]
pub enum EventKind {
    SymbolInfo,
    SeriesLoading,
    ChartData,
    SeriesCompleted,
    StudyLoading,
    StudyData,
    StudyCompleted,
    QuoteData,
    QuoteCompleted,
    ReplayOk,
    ReplayPoint,
    ReplayInstanceId,
    ReplayResolutions,
    ReplayDataEnd,
    Error,
    UnknownEvent,
}

impl EventKind {
    /// The name under which the kind's handler is known.
    pub open spec fn label(self) -> &'static str {
        match self {
            EventKind::SymbolInfo => "ON_SYMBOL_INFO",
            EventKind::SeriesLoading => "ON_SERIES_LOADING",
            EventKind::ChartData => "ON_CHART_DATA",
            EventKind::SeriesCompleted => "ON_SERIES_COMPLETED",
            EventKind::StudyLoading => "ON_STUDY_LOADING",
            EventKind::StudyData => "ON_STUDY_DATA",
            EventKind::StudyCompleted => "ON_STUDY_COMPLETED",
            EventKind::QuoteData => "ON_QUOTE_DATA",
            EventKind::QuoteCompleted => "ON_QUOTE_COMPLETED",
            EventKind::ReplayOk => "ON_REPLAY_OK",
            EventKind::ReplayPoint => "ON_REPLAY_POINT",
            EventKind::ReplayInstanceId => "ON_REPLAY_INSTANCE_ID",
            EventKind::ReplayResolutions => "ON_REPLAY_RESOLUTIONS",
            EventKind::ReplayDataEnd => "ON_REPLAY_DATA_END",
            EventKind::Error => "ON_ERROR",
            EventKind::UnknownEvent => "ON_UNKNOWN_EVENT",
        }
    }

    /// The name under which the kind's handler is known.
    pub fn name(&self) -> (name: &'static str)
        ensures
            name == self.label(),
    {
        match self {
            EventKind::SymbolInfo => "ON_SYMBOL_INFO",
            EventKind::SeriesLoading => "ON_SERIES_LOADING",
            EventKind::ChartData => "ON_CHART_DATA",
            EventKind::SeriesCompleted => "ON_SERIES_COMPLETED",
            EventKind::StudyLoading => "ON_STUDY_LOADING",
            EventKind::StudyData => "ON_STUDY_DATA",
            EventKind::StudyCompleted => "ON_STUDY_COMPLETED",
            EventKind::QuoteData => "ON_QUOTE_DATA",
            EventKind::QuoteCompleted => "ON_QUOTE_COMPLETED",
            EventKind::ReplayOk => "ON_REPLAY_OK",
            EventKind::ReplayPoint => "ON_REPLAY_POINT",
            EventKind::ReplayInstanceId => "ON_REPLAY_INSTANCE_ID",
            EventKind::ReplayResolutions => "ON_REPLAY_RESOLUTIONS",
            EventKind::ReplayDataEnd => "ON_REPLAY_DATA_END",
            EventKind::Error => "ON_ERROR",
            EventKind::UnknownEvent => "ON_UNKNOWN_EVENT",
        }
    }

    /// Whether events of the kind carry a loading message, which has to be
    /// decoded from the event's arguments.
    pub open spec fn is_loading(self) -> bool {
        self == EventKind::SeriesLoading || self == EventKind::StudyLoading
    }
}

/// The message of a series-loading or study-loading event: the session it
/// belongs to and the series that are being loaded.
#[derive(Debug, Clone, PartialEq, Eq)]
pub struct LoadingMsg {
    pub session: String,
    pub series: Vec<String>,
}

/// The mathematical model of a [`LoadingMsg`].
pub struct LoadingMsgView {
    pub session: Seq<char>,
    pub series: Seq<Seq<char>>,
}

/// The texts of a sequence of strings, position by position.
pub open spec fn texts_of(strings: Seq<String>) -> Seq<Seq<char>> {
    Seq::new(strings.len(), |i: int| strings[i]@)
}

impl View for LoadingMsg {
    type V = LoadingMsgView;

    open spec fn view(&self) -> LoadingMsgView {
        LoadingMsgView { session: self.session@, series: texts_of(self.series@) }
    }
}

/// Whether every item is a string.
pub open spec fn all_strings(items: Seq<ValueView>) -> bool {
    forall|i: int| 0 <= i < items.len() ==> (#[trigger] items[i]) is String
}

/// The texts of items that are strings, position by position.
pub open spec fn string_texts(items: Seq<ValueView>) -> Seq<Seq<char>> {
    Seq::new(items.len(), |i: int| items[i]->String_0)
}

/// The loading message that an argument sequence holds, or why it holds
/// none. The first argument is the session, a string; the second is the list
/// of series, an array of strings; further arguments are not looked at. The
/// first requirement that fails decides the error: the length, then the
/// session, then the list.
pub open spec fn decode_loading(raw: Seq<ValueView>) -> Result<LoadingMsgView, DecodeError> {
    if raw.len() < 2 {
        Err(DecodeError::MissingField(raw.len() as usize))
    } else {
        match (raw[0], raw[1]) {
            (ValueView::String(session), ValueView::Array(items)) => if all_strings(items) {
                Ok(LoadingMsgView { session, series: string_texts(items) })
            } else {
                Err(DecodeError::WrongType(1))
            },
            (ValueView::String(_), _) => Err(DecodeError::WrongType(1)),
            _ => Err(DecodeError::WrongType(0)),
        }
    }
}

impl LoadingMsg {
    /// Decodes the loading message that an argument sequence holds. Nothing
    /// is built from a sequence that holds none.
    pub fn new(data: &[Value]) -> (r: Result<LoadingMsg, DecodeError>)
        ensures
            match r {
                Ok(msg) => decode_loading(views(data@)) == Ok::<LoadingMsgView, DecodeError>(msg@),
                Err(error) => decode_loading(views(data@)) == Err::<LoadingMsgView, DecodeError>(
                    error,
                ),
            },
    {
        if data.len() < 2 {
            return Err(DecodeError::MissingField(data.len()));
        }
        assert(views(data@)[0] == data@[0]@);
        assert(views(data@)[1] == data@[1]@);
        let session = match data[0].as_str() {
            Some(text) => text.to_owned(),
            None => {
                return Err(DecodeError::WrongType(0));
            },
        };
        let items = match data[1].as_array() {
            Some(items) => items,
            None => {
                return Err(DecodeError::WrongType(1));
            },
        };
        let mut series: Vec<String> = Vec::new();
        let mut i: usize = 0;
        while i < items.len()
            invariant
                i <= items@.len(),
                series@.len() == i,
                forall|j: int| 0 <= j < i ==> views(items@)[j] == ValueView::String(series@[j]@),
                data@.len() >= 2,
                views(data@)[0] == ValueView::String(session@),
                views(data@)[1] == ValueView::Array(views(items@)),
            decreases items@.len() - i,
        {
            match items[i].as_str() {
                Some(text) => {
                    series.push(text.to_owned());
                },
                None => {
                    assert(!(views(items@)[i as int] is String));
                    return Err(DecodeError::WrongType(1));
                },
            }
            i += 1;
        }
        let msg = LoadingMsg { session, series };
        assert(msg@.series =~= string_texts(views(items@)));
        Ok(msg)
    }
}

/// What the application receives: one variant for each kind of event, with
/// the kind's payload.
#[derive(Debug, Clone, PartialEq, Eq)]
pub enum TradingViewResponse {
    ChartData(SeriesInfo, Vec<DataPoint>),
    QuoteData(QuoteValue),
    StudyData(StudyOptions, StudyResponseData),
    Error(Error, Vec<Value>),
    SymbolInfo(SymbolInfo),
    SeriesCompleted(Vec<Value>),
    SeriesLoading(LoadingMsg),
    QuoteCompleted(Vec<Value>),
    ReplayOk(Vec<Value>),
    ReplayPoint(Vec<Value>),
    ReplayInstanceId(Vec<Value>),
    ReplayResolutions(Vec<Value>),
    ReplayDataEnd(Vec<Value>),
    StudyLoading(LoadingMsg),
    StudyCompleted(Vec<Value>),
    /// The name of an event that this layer does not know, and its arguments.
    UnknownEvent(String, Vec<Value>),
}

impl TradingViewResponse {
    /// The kind of event that the response stands for.
    pub open spec fn spec_kind(&self) -> EventKind {
        match self {
            TradingViewResponse::ChartData(..) => EventKind::ChartData,
            TradingViewResponse::QuoteData(..) => EventKind::QuoteData,
            TradingViewResponse::StudyData(..) => EventKind::StudyData,
            TradingViewResponse::Error(..) => EventKind::Error,
            TradingViewResponse::SymbolInfo(..) => EventKind::SymbolInfo,
            TradingViewResponse::SeriesCompleted(..) => EventKind::SeriesCompleted,
            TradingViewResponse::SeriesLoading(..) => EventKind::SeriesLoading,
            TradingViewResponse::QuoteCompleted(..) => EventKind::QuoteCompleted,
            TradingViewResponse::ReplayOk(..) => EventKind::ReplayOk,
            TradingViewResponse::ReplayPoint(..) => EventKind::ReplayPoint,
            TradingViewResponse::ReplayInstanceId(..) => EventKind::ReplayInstanceId,
            TradingViewResponse::ReplayResolutions(..) => EventKind::ReplayResolutions,
            TradingViewResponse::ReplayDataEnd(..) => EventKind::ReplayDataEnd,
            TradingViewResponse::StudyLoading(..) => EventKind::StudyLoading,
            TradingViewResponse::StudyCompleted(..) => EventKind::StudyCompleted,
            TradingViewResponse::UnknownEvent(..) => EventKind::UnknownEvent,
        }
    }

    /// The kind of event that the response stands for.
    #[verifier::when_used_as_spec(spec_kind)]
    pub fn kind(&self) -> (kind: EventKind)
        ensures
            kind == self.spec_kind(),
    {
        match self {
            TradingViewResponse::ChartData(..) => EventKind::ChartData,
            TradingViewResponse::QuoteData(..) => EventKind::QuoteData,
            TradingViewResponse::StudyData(..) => EventKind::StudyData,
            TradingViewResponse::Error(..) => EventKind::Error,
            TradingViewResponse::SymbolInfo(..) => EventKind::SymbolInfo,
            TradingViewResponse::SeriesCompleted(..) => EventKind::SeriesCompleted,
            TradingViewResponse::SeriesLoading(..) => EventKind::SeriesLoading,
            TradingViewResponse::QuoteCompleted(..) => EventKind::QuoteCompleted,
            TradingViewResponse::ReplayOk(..) => EventKind::ReplayOk,
            TradingViewResponse::ReplayPoint(..) => EventKind::ReplayPoint,
            TradingViewResponse::ReplayInstanceId(..) => EventKind::ReplayInstanceId,
            TradingViewResponse::ReplayResolutions(..) => EventKind::ReplayResolutions,
            TradingViewResponse::ReplayDataEnd(..) => EventKind::ReplayDataEnd,
            TradingViewResponse::StudyLoading(..) => EventKind::StudyLoading,
            TradingViewResponse::StudyCompleted(..) => EventKind::StudyCompleted,
            TradingViewResponse::UnknownEvent(..) => EventKind::UnknownEvent,
        }
    }
}

/// One event of the stream: its kind, and the payload that handlers of the
/// kind take.
#[derive(Debug, Clone, PartialEq, Eq)]
pub enum Event {
    SymbolInfo(SymbolInfo),
    SeriesLoading(Vec<Value>),
    ChartData(SeriesInfo, Vec<DataPoint>),
    SeriesCompleted(Vec<Value>),
    StudyLoading(Vec<Value>),
    StudyData(StudyOptions, StudyResponseData),
    StudyCompleted(Vec<Value>),
    QuoteData(QuoteValue),
    QuoteCompleted(Vec<Value>),
    ReplayOk(Vec<Value>),
    ReplayPoint(Vec<Value>),
    ReplayInstanceId(Vec<Value>),
    ReplayResolutions(Vec<Value>),
    ReplayDataEnd(Vec<Value>),
    Error(Error, Vec<Value>),
    /// The name of an event that this layer does not know, and its arguments.
    UnknownEvent(String, Vec<Value>),
}

impl Event {
    /// The kind of the event.
    pub open spec fn spec_kind(&self) -> EventKind {
        match self {
            Event::SymbolInfo(..) => EventKind::SymbolInfo,
            Event::SeriesLoading(..) => EventKind::SeriesLoading,
            Event::ChartData(..) => EventKind::ChartData,
            Event::SeriesCompleted(..) => EventKind::SeriesCompleted,
            Event::StudyLoading(..) => EventKind::StudyLoading,
            Event::StudyData(..) => EventKind::StudyData,
            Event::StudyCompleted(..) => EventKind::StudyCompleted,
            Event::QuoteData(..) => EventKind::QuoteData,
            Event::QuoteCompleted(..) => EventKind::QuoteCompleted,
            Event::ReplayOk(..) => EventKind::ReplayOk,
            Event::ReplayPoint(..) => EventKind::ReplayPoint,
            Event::ReplayInstanceId(..) => EventKind::ReplayInstanceId,
            Event::ReplayResolutions(..) => EventKind::ReplayResolutions,
            Event::ReplayDataEnd(..) => EventKind::ReplayDataEnd,
            Event::Error(..) => EventKind::Error,
            Event::UnknownEvent(..) => EventKind::UnknownEvent,
        }
    }

    /// The kind of the event.
    #[verifier::when_used_as_spec(spec_kind)]
    pub fn kind(&self) -> (kind: EventKind)
        ensures
            kind == self.spec_kind(),
    {
        match self {
            Event::SymbolInfo(..) => EventKind::SymbolInfo,
            Event::SeriesLoading(..) => EventKind::SeriesLoading,
            Event::ChartData(..) => EventKind::ChartData,
            Event::SeriesCompleted(..) => EventKind::SeriesCompleted,
            Event::StudyLoading(..) => EventKind::StudyLoading,
            Event::StudyData(..) => EventKind::StudyData,
            Event::StudyCompleted(..) => EventKind::StudyCompleted,
            Event::QuoteData(..) => EventKind::QuoteData,
            Event::QuoteCompleted(..) => EventKind::QuoteCompleted,
            Event::ReplayOk(..) => EventKind::ReplayOk,
            Event::ReplayPoint(..) => EventKind::ReplayPoint,
            Event::ReplayInstanceId(..) => EventKind::ReplayInstanceId,
            Event::ReplayResolutions(..) => EventKind::ReplayResolutions,
            Event::ReplayDataEnd(..) => EventKind::ReplayDataEnd,
            Event::Error(..) => EventKind::Error,
            Event::UnknownEvent(..) => EventKind::UnknownEvent,
        }
    }

    /// The error with which the event's payload is refused, if it is: the
    /// arguments of a series-loading or study-loading event have to hold a
    /// loading message; the payload of every other event is taken as it is.
    pub open spec fn rejection(self) -> Option<DecodeError> {
        match self {
            Event::SeriesLoading(raw) | Event::StudyLoading(raw) => match decode_loading(
                views(raw@),
            ) {
                Ok(_) => None,
                Err(error) => Some(error),
            },
            _ => None,
        }
    }

    /// Whether the response is the one that stands for the event: it is of
    /// the event's kind and carries the event's payload, field by field; for
    /// a series-loading or study-loading event it carries the loading message
    /// that the event's arguments hold.
    pub open spec fn answered_by(self, response: TradingViewResponse) -> bool {
        match self {
            Event::SymbolInfo(info) => response == TradingViewResponse::SymbolInfo(info),
            Event::SeriesLoading(raw) => response matches TradingViewResponse::SeriesLoading(msg)
                && decode_loading(views(raw@)) == Ok::<LoadingMsgView, DecodeError>(msg@),
            Event::ChartData(series, points) => response == TradingViewResponse::ChartData(
                series,
                points,
            ),
            Event::SeriesCompleted(raw) => response == TradingViewResponse::SeriesCompleted(raw),
            Event::StudyLoading(raw) => response matches TradingViewResponse::StudyLoading(msg)
                && decode_loading(views(raw@)) == Ok::<LoadingMsgView, DecodeError>(msg@),
            Event::StudyData(options, data) => response == TradingViewResponse::StudyData(
                options,
                data,
            ),
            Event::StudyCompleted(raw) => response == TradingViewResponse::StudyCompleted(raw),
            Event::QuoteData(quote) => response == TradingViewResponse::QuoteData(quote),
            Event::QuoteCompleted(raw) => response == TradingViewResponse::QuoteCompleted(raw),
            Event::ReplayOk(raw) => response == TradingViewResponse::ReplayOk(raw),
            Event::ReplayPoint(raw) => response == TradingViewResponse::ReplayPoint(raw),
            Event::ReplayInstanceId(raw) => response == TradingViewResponse::ReplayInstanceId(raw),
            Event::ReplayResolutions(raw) => response == TradingViewResponse::ReplayResolutions(
                raw,
            ),
            Event::ReplayDataEnd(raw) => response == TradingViewResponse::ReplayDataEnd(raw),
            Event::Error(error, raw) => response == TradingViewResponse::Error(error, raw),
            Event::UnknownEvent(name, raw) => response == TradingViewResponse::UnknownEvent(
                name,
                raw,
            ),
        }
    }
}

/// An event whose payload was refused, with the reason.
#[derive(Debug, Clone, PartialEq, Eq)]
pub struct Undecodable {
    pub event: Event,
    pub error: DecodeError,
}

/// Makes the response that stands for an event. An event whose
/// payload is refused is handed back with the reason, and nothing is built
/// for it.
pub fn respond(event: Event) -> (r: Result<TradingViewResponse, Undecodable>)
    ensures
        match r {
            Ok(response) => event.rejection() is None && event.answered_by(response),
            Err(refused) => refused.event == event && event.rejection() == Some(refused.error),
        },
{
    match event {
        Event::SymbolInfo(info) => Ok(TradingViewResponse::SymbolInfo(info)),
        Event::SeriesLoading(raw) => match LoadingMsg::new(raw.as_slice()) {
            Ok(msg) => Ok(TradingViewResponse::SeriesLoading(msg)),
            Err(error) => Err(Undecodable { event: Event::SeriesLoading(raw), error }),
        },
        Event::ChartData(series, points) => Ok(TradingViewResponse::ChartData(series, points)),
        Event::SeriesCompleted(raw) => Ok(TradingViewResponse::SeriesCompleted(raw)),
        Event::StudyLoading(raw) => match LoadingMsg::new(raw.as_slice()) {
            Ok(msg) => Ok(TradingViewResponse::StudyLoading(msg)),
            Err(error) => Err(Undecodable { event: Event::StudyLoading(raw), error }),
        },
        Event::StudyData(options, data) => Ok(TradingViewResponse::StudyData(options, data)),
        Event::StudyCompleted(raw) => Ok(TradingViewResponse::StudyCompleted(raw)),
        Event::QuoteData(quote) => Ok(TradingViewResponse::QuoteData(quote)),
        Event::QuoteCompleted(raw) => Ok(TradingViewResponse::QuoteCompleted(raw)),
        Event::ReplayOk(raw) => Ok(TradingViewResponse::ReplayOk(raw)),
        Event::ReplayPoint(raw) => Ok(TradingViewResponse::ReplayPoint(raw)),
        Event::ReplayInstanceId(raw) => Ok(TradingViewResponse::ReplayInstanceId(raw)),
        Event::ReplayResolutions(raw) => Ok(TradingViewResponse::ReplayResolutions(raw)),
        Event::ReplayDataEnd(raw) => Ok(TradingViewResponse::ReplayDataEnd(raw)),
        Event::Error(error, raw) => Ok(TradingViewResponse::Error(error, raw)),
        Event::UnknownEvent(name, raw) => Ok(TradingViewResponse::UnknownEvent(name, raw)),
    }
}

/// The response that stands for an event is of the event's kind.
pub proof fn lemma_response_keeps_kind(event: Event, response: TradingViewResponse)
    requires
        event.answered_by(response),
    ensures
        response.kind() == event.kind(),
{
}

/// An event has one response that stands for it: two such responses are
/// equal, or, where they carry a loading message, carry messages with the
/// same session and the same series.
pub proof fn lemma_response_determined(
    event: Event,
    first: TradingViewResponse,
    second: TradingViewResponse,
)
    requires
        event.answered_by(first),
        event.answered_by(second),
    ensures
        first.kind() == second.kind(),
        !event.kind().is_loading() ==> first == second,
        event is SeriesLoading ==> first->SeriesLoading_0@ == second->SeriesLoading_0@,
        event is StudyLoading ==> first->StudyLoading_0@ == second->StudyLoading_0@,
{
}

/// Only the payload of a series-loading or study-loading event is ever
/// refused.
pub proof fn lemma_only_loading_refused(event: Event)
    requires
        event.rejection() is Some,
    ensures
        event.kind().is_loading(),
{
}

/// The same arguments are refused, or hold the same loading message, whether
/// they come with a series-loading or with a study-loading event.
pub proof fn lemma_loading_kinds_agree(raw: Vec<Value>, msg: LoadingMsg)
    ensures
        Event::SeriesLoading(raw).rejection() == Event::StudyLoading(raw).rejection(),
        Event::SeriesLoading(raw).answered_by(TradingViewResponse::SeriesLoading(msg))
            <==> Event::StudyLoading(raw).answered_by(TradingViewResponse::StudyLoading(msg)),
{
}

/// Arguments that end before the list of series hold no loading message.
pub proof fn lemma_missing_series_refused(raw: Seq<ValueView>)
    requires
        raw.len() < 2,
    ensures
        decode_loading(raw) == Err::<LoadingMsgView, DecodeError>(
            DecodeError::MissingField(raw.len() as usize),
        ),
{
}

} // verus!
