//! The registry of handlers, one for each kind of event, and the bridge that
//! forwards every event as a response to one delivery channel.
//!
//! A handler is bound to its kind in one of three ways: it observes and
//! discards (the default), it forwards to a delivery channel (the bridge), or
//! it calls a function of the application. What a handler did with an event
//! is told by the [`Outcome`] of the dispatch; the caller reports it.

use crate::chart::{DataPoint, SeriesInfo, StudyOptions, StudyResponseData, SymbolInfo};
use crate::error::{DecodeError, Error};
use crate::message::{respond, Event, EventKind, TradingViewResponse};
use crate::quote::QuoteValue;
use crate::value::Value;
use std::marker::PhantomData;
use std::sync::Arc;
use tokio::sync::mpsc::error::SendError;
use tokio::sync::mpsc::{UnboundedReceiver, UnboundedSender};
use vstd::prelude::*;

verus! {

/// The sending end of an unbounded channel, `tokio::sync::mpsc::UnboundedSender`.
/// Nothing is known of what a value of this type holds.
#[verifier::external_type_specification]
#[verifier::external_body]
#[verifier::reject_recursive_types(T)]
pub struct ExUnboundedSender<T>(tokio::sync::mpsc::UnboundedSender<T>);

/// The sending end of the delivery channel.
pub type DataTx = UnboundedSender<TradingViewResponse>;

/// The receiving end of the delivery channel, from which the application
/// takes the responses in the order in which they were sent.
pub type DataRx = UnboundedReceiver<TradingViewResponse>;

/// Sends a response on the delivery channel, by `UnboundedSender::send` of
/// `tokio`, which never waits. Whether the send succeeds depends on whether
/// the receiving end is still open, and nothing is claimed of that, nor of a
/// send that succeeds. One thing is claimed and not proved: where the send
/// fails, the response that comes back with the error is the response that
/// was given.
#[verifier::external_body]
fn send(tx: &DataTx, response: TradingViewResponse) -> (sent: Result<(), TradingViewResponse>)
    ensures
        sent matches Err(returned) ==> returned == response,
{
    match tx.send(response) {
        Ok(()) => Ok(()),
        Err(SendError(returned)) => Err(returned),
    }
}

/// How loudly an outcome is reported.
#[derive(Debug, Clone, Copy, PartialEq, Eq, Structural)]
pub enum Level {
    Trace,
    Error,
}

/// What a handler did with one event.
#[derive(Debug, Clone, PartialEq, Eq)]
pub enum Outcome {
    /// The handler, known under this name, looked at the event and dropped
    /// it. The event is handed back to be reported.
    Observed(&'static str, Event),
    /// A function of the application was called with the event's payload.
    Handled,
    /// The response that stands for the event was put on the delivery
    /// channel.
    Delivered,
    /// The event's payload was refused; nothing was sent. The event is
    /// handed back to be reported, with the reason.
    Undecodable(Event, DecodeError),
    /// The delivery channel's receiving end is closed; the response that
    /// stands for the event is handed back to be reported.
    Undelivered(TradingViewResponse),
}

impl Outcome {
    /// How loudly the outcome is to be reported, if it is to be reported.
    pub open spec fn spec_level(&self) -> Option<Level> {
        match self {
            Outcome::Observed(..) => Some(Level::Trace),
            Outcome::Handled => None,
            Outcome::Delivered => None,
            Outcome::Undecodable(..) => Some(Level::Error),
            Outcome::Undelivered(..) => Some(Level::Error),
        }
    }

    /// How loudly the outcome is to be reported, if it is to be reported.
    #[verifier::when_used_as_spec(spec_level)]
    pub fn level(&self) -> (level: Option<Level>)
        ensures
            level == self.spec_level(),
    {
        match self {
            Outcome::Observed(..) => Some(Level::Trace),
            Outcome::Handled => None,
            Outcome::Delivered => None,
            Outcome::Undecodable(..) => Some(Level::Error),
            Outcome::Undelivered(..) => Some(Level::Error),
        }
    }

    /// The number of diagnostics that the outcome calls for.
    pub open spec fn spec_diagnostics(&self) -> usize {
        if self.level() is Some {
            1
        } else {
            0
        }
    }

    /// The number of diagnostics that the outcome calls for.
    #[verifier::when_used_as_spec(spec_diagnostics)]
    pub fn diagnostics(&self) -> (count: usize)
        ensures
            count == self.spec_diagnostics(),
    {
        if self.level().is_some() {
            1
        } else {
            0
        }
    }

    /// The number of responses that were put on the delivery channel.
    pub open spec fn spec_sends(&self) -> usize {
        if self is Delivered {
            1
        } else {
            0
        }
    }

    /// The number of responses that were put on the delivery channel.
    #[verifier::when_used_as_spec(spec_sends)]
    pub fn sends(&self) -> (count: usize)
        ensures
            count == self.spec_sends(),
    {
        match self {
            Outcome::Delivered => 1,
            _ => 0,
        }
    }

    /// The outcome of an attempt to send a response: delivered if the channel
    /// took it, undelivered if the channel handed it back.
    pub fn of_send(sent: Result<(), TradingViewResponse>) -> (out: Outcome)
        ensures
            out == match sent {
                Ok(()) => Outcome::Delivered,
                Err(returned) => Outcome::Undelivered(returned),
            },
    {
        match sent {
            Ok(()) => Outcome::Delivered,
            Err(returned) => Outcome::Undelivered(returned),
        }
    }
}

/// Puts a response on the delivery channel. The call never waits and is
/// never tried again: a response that a closed channel hands back is part of
/// the outcome.
pub fn deliver(tx: &DataTx, response: TradingViewResponse) -> (out: Outcome)
    ensures
        out == Outcome::Delivered || out == Outcome::Undelivered(response),
{
    Outcome::of_send(send(tx, response))
}

/// Whether an outcome is one that forwarding the event can have. An event
/// whose payload is refused has the outcome that says so. Every other event
/// is delivered, or the response that stands for it is handed back
/// undelivered.
pub open spec fn forwarded(event: Event, out: Outcome) -> bool {
    match event.rejection() {
        Some(error) => out == Outcome::Undecodable(event, error),
        None => out == Outcome::Delivered || (out matches Outcome::Undelivered(response)
            && event.answered_by(response)),
    }
}

/// Forwards an event to the delivery channel as the response that stands
/// for it.
pub fn forward(tx: &DataTx, event: Event) -> (out: Outcome)
    ensures
        forwarded(event, out),
{
    match respond(event) {
        Ok(response) => deliver(tx, response),
        Err(refused) => Outcome::Undecodable(refused.event, refused.error),
    }
}

/// A function of the application that handles the payload of one kind of
/// event. It may be called from several threads at once.
pub trait CallbackFn<T>: Send + Sync {
    /// What the function promises of a call with this payload that has
    /// returned.
    spec fn ran(&self, data: T) -> bool;

    /// Calls the function with the payload.
    fn call(&self, data: T)
        ensures
            self.ran(data),
    ;
}

/// A function that can be called with every payload, as a [`CallbackFn`].
struct FnCallback<T, F: Fn(T)> {
    function: F,
    payload: PhantomData<T>,
}

impl<T, F: Fn(T)> FnCallback<T, F> {
    #[verifier::type_invariant]
    spec fn takes_every_payload(self) -> bool {
        forall|data: T| call_requires(self.function, (data,))
    }

    /// Wraps a function that can be called with every payload: the callback
    /// holds the function given.
    fn new(function: F) -> (callback: Self)
        requires
            forall|data: T| call_requires(function, (data,)),
        ensures
            callback.function == function,
    {
        FnCallback { function, payload: PhantomData }
    }
}

impl<T: Send + Sync, F: Fn(T) + Send + Sync> CallbackFn<T> for FnCallback<T, F> {
    /// A call of the callback is a call of the function it holds.
    closed spec fn ran(&self, data: T) -> bool {
        call_ensures(self.function, (data,), ())
    }

    fn call(&self, data: T) {
        proof {
            use_type_invariant(self);
        }
        (self.function)(data)
    }
}

/// The handler of one kind of event.
#[verifier::reject_recursive_types(T)]
pub enum Callback<T> {
    /// Looks at the payload and drops it. The name is the one under which the
    /// handler is reported.
    Observe(&'static str),
    /// Forwards the event to this delivery channel.
    Forward(Arc<DataTx>),
    /// Calls a function of the application.
    Custom(Arc<Box<dyn CallbackFn<T>>>),
}

/// How a handler is bound, whatever payload it takes.
pub enum Binding {
    Observe(&'static str),
    Forward(Arc<DataTx>),
    Custom,
}

impl<T> Callback<T> {
    /// How the handler is bound.
    pub open spec fn binding(self) -> Binding {
        match self {
            Callback::Observe(name) => Binding::Observe(name),
            Callback::Forward(tx) => Binding::Forward(tx),
            Callback::Custom(_) => Binding::Custom,
        }
    }

    /// Whether the handler calls a function of the application, and the
    /// function promises this of a call with the payload that has returned.
    pub open spec fn ran(self, data: T) -> bool {
        self matches Callback::Custom(handler) && handler.ran(data)
    }

    /// Whether the handler is one that calls this function: a call of the
    /// handler with a payload is a call of the function with that payload.
    pub open spec fn calls<F: Fn(T)>(self, function: F) -> bool {
        self matches Callback::Custom(handler) && forall|data: T|
            #[trigger] handler.ran(data) <==> call_ensures(function, (data,), ())
    }
}

impl<T: Send + Sync + 'static> Callback<T> {
    /// The handler that calls the function given.
    pub fn custom<F: Fn(T) + Send + Sync + 'static>(function: F) -> (callback: Self)
        requires
            forall|data: T| call_requires(function, (data,)),
        ensures
            callback.calls(function),
    {
        let wrapped = FnCallback::new(function);
        let boxed: Box<dyn CallbackFn<T>> = Box::new(wrapped);
        let shared = Arc::new(boxed);
        assert forall|data: T| #[trigger] shared.ran(data) <==> call_ensures(
            function,
            (data,),
            (),
        ) by {
            assert(shared.ran(data) <==> wrapped.ran(data));
        }
        Callback::Custom(shared)
    }
}

impl<T> Clone for Callback<T> {
    /// Another handle on the same handler.
    fn clone(&self) -> (res: Self)
        ensures
            res == *self,
    {
        match self {
            Callback::Observe(name) => Callback::Observe(name),
            Callback::Forward(tx) => Callback::Forward(tx.clone()),
            Callback::Custom(function) => Callback::Custom(function.clone()),
        }
    }
}

/// The handler that every kind has until another is set: it looks at the
/// payload and drops it.
pub fn default_callback<T>(name: &'static str) -> (callback: Callback<T>)
    ensures
        callback == Callback::<T>::Observe(name),
{
    Callback::Observe(name)
}

/// The handlers of a session, one for each kind of event. Every kind has a
/// handler at all times.
pub struct TradingViewHandler {
    /// Takes the description of a symbol.
    pub on_symbol_info: Callback<SymbolInfo>,
    /// Takes the arguments of a series-loading event.
    pub on_series_loading: Callback<Vec<Value>>,
    /// Takes a series and its new points.
    pub on_chart_data: Callback<(SeriesInfo, Vec<DataPoint>)>,
    /// Takes the arguments of a series-completed event.
    pub on_series_completed: Callback<Vec<Value>>,
    /// Takes the arguments of a study-loading event.
    pub on_study_loading: Callback<Vec<Value>>,
    /// Takes a study and its new data.
    pub on_study_data: Callback<(StudyOptions, StudyResponseData)>,
    /// Takes the arguments of a study-completed event.
    pub on_study_completed: Callback<Vec<Value>>,
    /// Takes a quote update.
    pub on_quote_data: Callback<QuoteValue>,
    /// Takes the arguments of a quote-completed event.
    pub on_quote_completed: Callback<Vec<Value>>,
    /// Takes the arguments of a replay-ok event.
    pub on_replay_ok: Callback<Vec<Value>>,
    /// Takes the arguments of a replay-point event.
    pub on_replay_point: Callback<Vec<Value>>,
    /// Takes the arguments of a replay-instance-id event.
    pub on_replay_instance_id: Callback<Vec<Value>>,
    /// Takes the arguments of a replay-resolutions event.
    pub on_replay_resolutions: Callback<Vec<Value>>,
    /// Takes the arguments of a replay-data-end event.
    pub on_replay_data_end: Callback<Vec<Value>>,
    /// Takes an error and the arguments it came with.
    pub on_error: Callback<(Error, Vec<Value>)>,
    /// Takes the name of an event that is not known, and its arguments.
    pub on_unknown_event: Callback<(String, Vec<Value>)>,
}

impl TradingViewHandler {
    /// How the handler of a kind is bound.
    pub open spec fn binding(self, kind: EventKind) -> Binding {
        match kind {
            EventKind::SymbolInfo => self.on_symbol_info.binding(),
            EventKind::SeriesLoading => self.on_series_loading.binding(),
            EventKind::ChartData => self.on_chart_data.binding(),
            EventKind::SeriesCompleted => self.on_series_completed.binding(),
            EventKind::StudyLoading => self.on_study_loading.binding(),
            EventKind::StudyData => self.on_study_data.binding(),
            EventKind::StudyCompleted => self.on_study_completed.binding(),
            EventKind::QuoteData => self.on_quote_data.binding(),
            EventKind::QuoteCompleted => self.on_quote_completed.binding(),
            EventKind::ReplayOk => self.on_replay_ok.binding(),
            EventKind::ReplayPoint => self.on_replay_point.binding(),
            EventKind::ReplayInstanceId => self.on_replay_instance_id.binding(),
            EventKind::ReplayResolutions => self.on_replay_resolutions.binding(),
            EventKind::ReplayDataEnd => self.on_replay_data_end.binding(),
            EventKind::Error => self.on_error.binding(),
            EventKind::UnknownEvent => self.on_unknown_event.binding(),
        }
    }

    /// The registry in which every handler observes and discards, under the
    /// name of its kind.
    pub open spec fn observing() -> TradingViewHandler {
        TradingViewHandler {
            on_symbol_info: Callback::Observe(EventKind::SymbolInfo.label()),
            on_series_loading: Callback::Observe(EventKind::SeriesLoading.label()),
            on_chart_data: Callback::Observe(EventKind::ChartData.label()),
            on_series_completed: Callback::Observe(EventKind::SeriesCompleted.label()),
            on_study_loading: Callback::Observe(EventKind::StudyLoading.label()),
            on_study_data: Callback::Observe(EventKind::StudyData.label()),
            on_study_completed: Callback::Observe(EventKind::StudyCompleted.label()),
            on_quote_data: Callback::Observe(EventKind::QuoteData.label()),
            on_quote_completed: Callback::Observe(EventKind::QuoteCompleted.label()),
            on_replay_ok: Callback::Observe(EventKind::ReplayOk.label()),
            on_replay_point: Callback::Observe(EventKind::ReplayPoint.label()),
            on_replay_instance_id: Callback::Observe(EventKind::ReplayInstanceId.label()),
            on_replay_resolutions: Callback::Observe(EventKind::ReplayResolutions.label()),
            on_replay_data_end: Callback::Observe(EventKind::ReplayDataEnd.label()),
            on_error: Callback::Observe(EventKind::Error.label()),
            on_unknown_event: Callback::Observe(EventKind::UnknownEvent.label()),
        }
    }

    /// The registry in which every handler forwards to one delivery channel.
    pub open spec fn forwarding(tx: Arc<DataTx>) -> TradingViewHandler {
        TradingViewHandler {
            on_symbol_info: Callback::Forward(tx),
            on_series_loading: Callback::Forward(tx),
            on_chart_data: Callback::Forward(tx),
            on_series_completed: Callback::Forward(tx),
            on_study_loading: Callback::Forward(tx),
            on_study_data: Callback::Forward(tx),
            on_study_completed: Callback::Forward(tx),
            on_quote_data: Callback::Forward(tx),
            on_quote_completed: Callback::Forward(tx),
            on_replay_ok: Callback::Forward(tx),
            on_replay_point: Callback::Forward(tx),
            on_replay_instance_id: Callback::Forward(tx),
            on_replay_resolutions: Callback::Forward(tx),
            on_replay_data_end: Callback::Forward(tx),
            on_error: Callback::Forward(tx),
            on_unknown_event: Callback::Forward(tx),
        }
    }

    /// Whether the handler of the event's kind calls a function of the
    /// application, and the function promises this of a call with the event's
    /// payload that has returned.
    pub open spec fn ran(self, event: Event) -> bool {
        match event {
            Event::SymbolInfo(info) => self.on_symbol_info.ran(info),
            Event::SeriesLoading(raw) => self.on_series_loading.ran(raw),
            Event::ChartData(series, points) => self.on_chart_data.ran((series, points)),
            Event::SeriesCompleted(raw) => self.on_series_completed.ran(raw),
            Event::StudyLoading(raw) => self.on_study_loading.ran(raw),
            Event::StudyData(options, data) => self.on_study_data.ran((options, data)),
            Event::StudyCompleted(raw) => self.on_study_completed.ran(raw),
            Event::QuoteData(quote) => self.on_quote_data.ran(quote),
            Event::QuoteCompleted(raw) => self.on_quote_completed.ran(raw),
            Event::ReplayOk(raw) => self.on_replay_ok.ran(raw),
            Event::ReplayPoint(raw) => self.on_replay_point.ran(raw),
            Event::ReplayInstanceId(raw) => self.on_replay_instance_id.ran(raw),
            Event::ReplayResolutions(raw) => self.on_replay_resolutions.ran(raw),
            Event::ReplayDataEnd(raw) => self.on_replay_data_end.ran(raw),
            Event::Error(error, raw) => self.on_error.ran((error, raw)),
            Event::UnknownEvent(name, raw) => self.on_unknown_event.ran((name, raw)),
        }
    }

    /// Whether an outcome is one that dispatching the event to this registry
    /// can have. The handler of the event's kind decides: one that observes
    /// hands the event back under its name; one that forwards has an outcome
    /// of forwarding; a function of the application is called with the
    /// event's payload, and has returned.
    pub open spec fn dispatches(self, event: Event, out: Outcome) -> bool {
        match self.binding(event.kind()) {
            Binding::Observe(name) => out == Outcome::Observed(name, event),
            Binding::Forward(_) => forwarded(event, out),
            Binding::Custom => out == Outcome::Handled && self.ran(event),
        }
    }

    /// Lets a function of the application take the description of a symbol.
    /// Every other handler stays as it is.
    pub fn on_symbol_info(
        self,
        f: impl Fn(SymbolInfo) + Send + Sync + 'static,
    ) -> (handler: Self)
        requires
            forall|data: SymbolInfo| call_requires(f, (data,)),
        ensures
            handler.on_symbol_info.calls(f),
            handler == (TradingViewHandler {
                on_symbol_info: handler.on_symbol_info,
                ..self
            }),
    {
        let mut handler = self;
        handler.on_symbol_info = Callback::custom(f);
        handler
    }

    /// Lets a function of the application take the arguments of a
    /// series-loading event. Every other handler stays as it is.
    pub fn on_series_loading(
        self,
        f: impl Fn(Vec<Value>) + Send + Sync + 'static,
    ) -> (handler: Self)
        requires
            forall|data: Vec<Value>| call_requires(f, (data,)),
        ensures
            handler.on_series_loading.calls(f),
            handler == (TradingViewHandler {
                on_series_loading: handler.on_series_loading,
                ..self
            }),
    {
        let mut handler = self;
        handler.on_series_loading = Callback::custom(f);
        handler
    }

    /// Lets a function of the application take a series and its new points.
    /// Every other handler stays as it is.
    pub fn on_chart_data(
        self,
        f: impl Fn((SeriesInfo, Vec<DataPoint>)) + Send + Sync + 'static,
    ) -> (handler: Self)
        requires
            forall|data: (SeriesInfo, Vec<DataPoint>)| call_requires(f, (data,)),
        ensures
            handler.on_chart_data.calls(f),
            handler == (TradingViewHandler {
                on_chart_data: handler.on_chart_data,
                ..self
            }),
    {
        let mut handler = self;
        handler.on_chart_data = Callback::custom(f);
        handler
    }

    /// Lets a function of the application take the arguments of a
    /// series-completed event. Every other handler stays as it is.
    pub fn on_series_completed(
        self,
        f: impl Fn(Vec<Value>) + Send + Sync + 'static,
    ) -> (handler: Self)
        requires
            forall|data: Vec<Value>| call_requires(f, (data,)),
        ensures
            handler.on_series_completed.calls(f),
            handler == (TradingViewHandler {
                on_series_completed: handler.on_series_completed,
                ..self
            }),
    {
        let mut handler = self;
        handler.on_series_completed = Callback::custom(f);
        handler
    }

    /// Lets a function of the application take the arguments of a study-loading
    /// event. Every other handler stays as it is.
    pub fn on_study_loading(
        self,
        f: impl Fn(Vec<Value>) + Send + Sync + 'static,
    ) -> (handler: Self)
        requires
            forall|data: Vec<Value>| call_requires(f, (data,)),
        ensures
            handler.on_study_loading.calls(f),
            handler == (TradingViewHandler {
                on_study_loading: handler.on_study_loading,
                ..self
            }),
    {
        let mut handler = self;
        handler.on_study_loading = Callback::custom(f);
        handler
    }

    /// Lets a function of the application take a study and its new data. Every
    /// other handler stays as it is.
    pub fn on_study_data(
        self,
        f: impl Fn((StudyOptions, StudyResponseData)) + Send + Sync + 'static,
    ) -> (handler: Self)
        requires
            forall|data: (StudyOptions, StudyResponseData)| call_requires(f, (data,)),
        ensures
            handler.on_study_data.calls(f),
            handler == (TradingViewHandler {
                on_study_data: handler.on_study_data,
                ..self
            }),
    {
        let mut handler = self;
        handler.on_study_data = Callback::custom(f);
        handler
    }

    /// Lets a function of the application take the arguments of a
    /// study-completed event. Every other handler stays as it is.
    pub fn on_study_completed(
        self,
        f: impl Fn(Vec<Value>) + Send + Sync + 'static,
    ) -> (handler: Self)
        requires
            forall|data: Vec<Value>| call_requires(f, (data,)),
        ensures
            handler.on_study_completed.calls(f),
            handler == (TradingViewHandler {
                on_study_completed: handler.on_study_completed,
                ..self
            }),
    {
        let mut handler = self;
        handler.on_study_completed = Callback::custom(f);
        handler
    }

    /// Lets a function of the application take a quote update. Every other
    /// handler stays as it is.
    pub fn on_quote_data(
        self,
        f: impl Fn(QuoteValue) + Send + Sync + 'static,
    ) -> (handler: Self)
        requires
            forall|data: QuoteValue| call_requires(f, (data,)),
        ensures
            handler.on_quote_data.calls(f),
            handler == (TradingViewHandler {
                on_quote_data: handler.on_quote_data,
                ..self
            }),
    {
        let mut handler = self;
        handler.on_quote_data = Callback::custom(f);
        handler
    }

    /// Lets a function of the application take the arguments of a
    /// quote-completed event. Every other handler stays as it is.
    pub fn on_quote_completed(
        self,
        f: impl Fn(Vec<Value>) + Send + Sync + 'static,
    ) -> (handler: Self)
        requires
            forall|data: Vec<Value>| call_requires(f, (data,)),
        ensures
            handler.on_quote_completed.calls(f),
            handler == (TradingViewHandler {
                on_quote_completed: handler.on_quote_completed,
                ..self
            }),
    {
        let mut handler = self;
        handler.on_quote_completed = Callback::custom(f);
        handler
    }

    /// Lets a function of the application take the arguments of a replay-ok
    /// event. Every other handler stays as it is.
    pub fn on_replay_ok(
        self,
        f: impl Fn(Vec<Value>) + Send + Sync + 'static,
    ) -> (handler: Self)
        requires
            forall|data: Vec<Value>| call_requires(f, (data,)),
        ensures
            handler.on_replay_ok.calls(f),
            handler == (TradingViewHandler {
                on_replay_ok: handler.on_replay_ok,
                ..self
            }),
    {
        let mut handler = self;
        handler.on_replay_ok = Callback::custom(f);
        handler
    }

    /// Lets a function of the application take the arguments of a replay-point
    /// event. Every other handler stays as it is.
    pub fn on_replay_point(
        self,
        f: impl Fn(Vec<Value>) + Send + Sync + 'static,
    ) -> (handler: Self)
        requires
            forall|data: Vec<Value>| call_requires(f, (data,)),
        ensures
            handler.on_replay_point.calls(f),
            handler == (TradingViewHandler {
                on_replay_point: handler.on_replay_point,
                ..self
            }),
    {
        let mut handler = self;
        handler.on_replay_point = Callback::custom(f);
        handler
    }

    /// Lets a function of the application take the arguments of a
    /// replay-instance-id event. Every other handler stays as it is.
    pub fn on_replay_instance_id(
        self,
        f: impl Fn(Vec<Value>) + Send + Sync + 'static,
    ) -> (handler: Self)
        requires
            forall|data: Vec<Value>| call_requires(f, (data,)),
        ensures
            handler.on_replay_instance_id.calls(f),
            handler == (TradingViewHandler {
                on_replay_instance_id: handler.on_replay_instance_id,
                ..self
            }),
    {
        let mut handler = self;
        handler.on_replay_instance_id = Callback::custom(f);
        handler
    }

    /// Lets a function of the application take the arguments of a
    /// replay-resolutions event. Every other handler stays as it is.
    pub fn on_replay_resolutions(
        self,
        f: impl Fn(Vec<Value>) + Send + Sync + 'static,
    ) -> (handler: Self)
        requires
            forall|data: Vec<Value>| call_requires(f, (data,)),
        ensures
            handler.on_replay_resolutions.calls(f),
            handler == (TradingViewHandler {
                on_replay_resolutions: handler.on_replay_resolutions,
                ..self
            }),
    {
        let mut handler = self;
        handler.on_replay_resolutions = Callback::custom(f);
        handler
    }

    /// Lets a function of the application take the arguments of a
    /// replay-data-end event. Every other handler stays as it is.
    pub fn on_replay_data_end(
        self,
        f: impl Fn(Vec<Value>) + Send + Sync + 'static,
    ) -> (handler: Self)
        requires
            forall|data: Vec<Value>| call_requires(f, (data,)),
        ensures
            handler.on_replay_data_end.calls(f),
            handler == (TradingViewHandler {
                on_replay_data_end: handler.on_replay_data_end,
                ..self
            }),
    {
        let mut handler = self;
        handler.on_replay_data_end = Callback::custom(f);
        handler
    }

    /// Lets a function of the application take an error and the arguments it
    /// came with. Every other handler stays as it is.
    pub fn on_error(
        self,
        f: impl Fn((Error, Vec<Value>)) + Send + Sync + 'static,
    ) -> (handler: Self)
        requires
            forall|data: (Error, Vec<Value>)| call_requires(f, (data,)),
        ensures
            handler.on_error.calls(f),
            handler == (TradingViewHandler {
                on_error: handler.on_error,
                ..self
            }),
    {
        let mut handler = self;
        handler.on_error = Callback::custom(f);
        handler
    }

    /// Lets a function of the application take the name of an event that is not
    /// known, and its arguments. Every other handler stays as it is.
    pub fn on_unknown_event(
        self,
        f: impl Fn((String, Vec<Value>)) + Send + Sync + 'static,
    ) -> (handler: Self)
        requires
            forall|data: (String, Vec<Value>)| call_requires(f, (data,)),
        ensures
            handler.on_unknown_event.calls(f),
            handler == (TradingViewHandler {
                on_unknown_event: handler.on_unknown_event,
                ..self
            }),
    {
        let mut handler = self;
        handler.on_unknown_event = Callback::custom(f);
        handler
    }

    /// Hands an event to the handler of its kind and tells what the handler
    /// did with it.
    pub fn dispatch(&self, event: Event) -> (out: Outcome)
        ensures
            self.dispatches(event, out),
    {
        match event {
            Event::SymbolInfo(info) => match &self.on_symbol_info {
                Callback::Observe(label) => Outcome::Observed(*label, Event::SymbolInfo(info)),
                Callback::Forward(tx) => forward(tx, Event::SymbolInfo(info)),
                Callback::Custom(function) => {
                    function.call(info);
                    Outcome::Handled
                },
            },
            Event::SeriesLoading(raw) => match &self.on_series_loading {
                Callback::Observe(label) => Outcome::Observed(*label, Event::SeriesLoading(raw)),
                Callback::Forward(tx) => forward(tx, Event::SeriesLoading(raw)),
                Callback::Custom(function) => {
                    function.call(raw);
                    Outcome::Handled
                },
            },
            Event::ChartData(series, points) => match &self.on_chart_data {
                Callback::Observe(label) => Outcome::Observed(
                    *label,
                    Event::ChartData(series, points),
                ),
                Callback::Forward(tx) => forward(tx, Event::ChartData(series, points)),
                Callback::Custom(function) => {
                    function.call((series, points));
                    Outcome::Handled
                },
            },
            Event::SeriesCompleted(raw) => match &self.on_series_completed {
                Callback::Observe(label) => Outcome::Observed(*label, Event::SeriesCompleted(raw)),
                Callback::Forward(tx) => forward(tx, Event::SeriesCompleted(raw)),
                Callback::Custom(function) => {
                    function.call(raw);
                    Outcome::Handled
                },
            },
            Event::StudyLoading(raw) => match &self.on_study_loading {
                Callback::Observe(label) => Outcome::Observed(*label, Event::StudyLoading(raw)),
                Callback::Forward(tx) => forward(tx, Event::StudyLoading(raw)),
                Callback::Custom(function) => {
                    function.call(raw);
                    Outcome::Handled
                },
            },
            Event::StudyData(options, data) => match &self.on_study_data {
                Callback::Observe(label) => Outcome::Observed(
                    *label,
                    Event::StudyData(options, data),
                ),
                Callback::Forward(tx) => forward(tx, Event::StudyData(options, data)),
                Callback::Custom(function) => {
                    function.call((options, data));
                    Outcome::Handled
                },
            },
            Event::StudyCompleted(raw) => match &self.on_study_completed {
                Callback::Observe(label) => Outcome::Observed(*label, Event::StudyCompleted(raw)),
                Callback::Forward(tx) => forward(tx, Event::StudyCompleted(raw)),
                Callback::Custom(function) => {
                    function.call(raw);
                    Outcome::Handled
                },
            },
            Event::QuoteData(quote) => match &self.on_quote_data {
                Callback::Observe(label) => Outcome::Observed(*label, Event::QuoteData(quote)),
                Callback::Forward(tx) => forward(tx, Event::QuoteData(quote)),
                Callback::Custom(function) => {
                    function.call(quote);
                    Outcome::Handled
                },
            },
            Event::QuoteCompleted(raw) => match &self.on_quote_completed {
                Callback::Observe(label) => Outcome::Observed(*label, Event::QuoteCompleted(raw)),
                Callback::Forward(tx) => forward(tx, Event::QuoteCompleted(raw)),
                Callback::Custom(function) => {
                    function.call(raw);
                    Outcome::Handled
                },
            },
            Event::ReplayOk(raw) => match &self.on_replay_ok {
                Callback::Observe(label) => Outcome::Observed(*label, Event::ReplayOk(raw)),
                Callback::Forward(tx) => forward(tx, Event::ReplayOk(raw)),
                Callback::Custom(function) => {
                    function.call(raw);
                    Outcome::Handled
                },
            },
            Event::ReplayPoint(raw) => match &self.on_replay_point {
                Callback::Observe(label) => Outcome::Observed(*label, Event::ReplayPoint(raw)),
                Callback::Forward(tx) => forward(tx, Event::ReplayPoint(raw)),
                Callback::Custom(function) => {
                    function.call(raw);
                    Outcome::Handled
                },
            },
            Event::ReplayInstanceId(raw) => match &self.on_replay_instance_id {
                Callback::Observe(label) => Outcome::Observed(*label, Event::ReplayInstanceId(raw)),
                Callback::Forward(tx) => forward(tx, Event::ReplayInstanceId(raw)),
                Callback::Custom(function) => {
                    function.call(raw);
                    Outcome::Handled
                },
            },
            Event::ReplayResolutions(raw) => match &self.on_replay_resolutions {
                Callback::Observe(label) => Outcome::Observed(
                    *label,
                    Event::ReplayResolutions(raw),
                ),
                Callback::Forward(tx) => forward(tx, Event::ReplayResolutions(raw)),
                Callback::Custom(function) => {
                    function.call(raw);
                    Outcome::Handled
                },
            },
            Event::ReplayDataEnd(raw) => match &self.on_replay_data_end {
                Callback::Observe(label) => Outcome::Observed(*label, Event::ReplayDataEnd(raw)),
                Callback::Forward(tx) => forward(tx, Event::ReplayDataEnd(raw)),
                Callback::Custom(function) => {
                    function.call(raw);
                    Outcome::Handled
                },
            },
            Event::Error(error, raw) => match &self.on_error {
                Callback::Observe(label) => Outcome::Observed(*label, Event::Error(error, raw)),
                Callback::Forward(tx) => forward(tx, Event::Error(error, raw)),
                Callback::Custom(function) => {
                    function.call((error, raw));
                    Outcome::Handled
                },
            },
            Event::UnknownEvent(name, raw) => match &self.on_unknown_event {
                Callback::Observe(label) => Outcome::Observed(
                    *label,
                    Event::UnknownEvent(name, raw),
                ),
                Callback::Forward(tx) => forward(tx, Event::UnknownEvent(name, raw)),
                Callback::Custom(function) => {
                    function.call((name, raw));
                    Outcome::Handled
                },
            },
        }
    }
}

impl Default for TradingViewHandler {
    /// Every handler observes and discards.
    fn default() -> (handler: Self)
        ensures
            handler == TradingViewHandler::observing(),
    {
        TradingViewHandler {
            on_symbol_info: default_callback(EventKind::SymbolInfo.name()),
            on_series_loading: default_callback(EventKind::SeriesLoading.name()),
            on_chart_data: default_callback(EventKind::ChartData.name()),
            on_series_completed: default_callback(EventKind::SeriesCompleted.name()),
            on_study_loading: default_callback(EventKind::StudyLoading.name()),
            on_study_data: default_callback(EventKind::StudyData.name()),
            on_study_completed: default_callback(EventKind::StudyCompleted.name()),
            on_quote_data: default_callback(EventKind::QuoteData.name()),
            on_quote_completed: default_callback(EventKind::QuoteCompleted.name()),
            on_replay_ok: default_callback(EventKind::ReplayOk.name()),
            on_replay_point: default_callback(EventKind::ReplayPoint.name()),
            on_replay_instance_id: default_callback(EventKind::ReplayInstanceId.name()),
            on_replay_resolutions: default_callback(EventKind::ReplayResolutions.name()),
            on_replay_data_end: default_callback(EventKind::ReplayDataEnd.name()),
            on_error: default_callback(EventKind::Error.name()),
            on_unknown_event: default_callback(EventKind::UnknownEvent.name()),
        }
    }
}

impl Clone for TradingViewHandler {
    /// Another registry with the same handlers.
    fn clone(&self) -> (res: Self)
        ensures
            res == *self,
    {
        TradingViewHandler {
            on_symbol_info: self.on_symbol_info.clone(),
            on_series_loading: self.on_series_loading.clone(),
            on_chart_data: self.on_chart_data.clone(),
            on_series_completed: self.on_series_completed.clone(),
            on_study_loading: self.on_study_loading.clone(),
            on_study_data: self.on_study_data.clone(),
            on_study_completed: self.on_study_completed.clone(),
            on_quote_data: self.on_quote_data.clone(),
            on_quote_completed: self.on_quote_completed.clone(),
            on_replay_ok: self.on_replay_ok.clone(),
            on_replay_point: self.on_replay_point.clone(),
            on_replay_instance_id: self.on_replay_instance_id.clone(),
            on_replay_resolutions: self.on_replay_resolutions.clone(),
            on_replay_data_end: self.on_replay_data_end.clone(),
            on_error: self.on_error.clone(),
            on_unknown_event: self.on_unknown_event.clone(),
        }
    }
}

/// The registry of the bridge: every handler forwards the events of its kind
/// to the delivery channel, as the responses that stand for them.
pub fn create_handler(tx: Arc<DataTx>) -> (handler: TradingViewHandler)
    ensures
        handler == TradingViewHandler::forwarding(tx),
{
    TradingViewHandler {
        on_symbol_info: Callback::Forward(tx.clone()),
        on_series_loading: Callback::Forward(tx.clone()),
        on_chart_data: Callback::Forward(tx.clone()),
        on_series_completed: Callback::Forward(tx.clone()),
        on_study_loading: Callback::Forward(tx.clone()),
        on_study_data: Callback::Forward(tx.clone()),
        on_study_completed: Callback::Forward(tx.clone()),
        on_quote_data: Callback::Forward(tx.clone()),
        on_quote_completed: Callback::Forward(tx.clone()),
        on_replay_ok: Callback::Forward(tx.clone()),
        on_replay_point: Callback::Forward(tx.clone()),
        on_replay_instance_id: Callback::Forward(tx.clone()),
        on_replay_resolutions: Callback::Forward(tx.clone()),
        on_replay_data_end: Callback::Forward(tx.clone()),
        on_error: Callback::Forward(tx.clone()),
        on_unknown_event: Callback::Forward(tx),
    }
}

/// With no handler set, every event of every kind is observed and dropped:
/// it is reported once, and nothing is sent.
pub proof fn lemma_default_observes(event: Event, out: Outcome)
    requires
        TradingViewHandler::observing().dispatches(event, out),
    ensures
        out == Outcome::Observed(event.kind().label(), event),
        out.diagnostics() == 1,
        out.sends() == 0,
{
}

/// For an event whose payload it takes, the bridge has one of two outcomes.
/// Either a response was delivered, and there is nothing to report. Or
/// nothing was delivered, and the response that is handed back to be
/// reported is the one that stands for the event, of the event's kind.
pub proof fn lemma_bridge_forwards(tx: Arc<DataTx>, event: Event, out: Outcome)
    requires
        TradingViewHandler::forwarding(tx).dispatches(event, out),
        event.rejection() is None,
    ensures
        out == Outcome::Delivered || (out matches Outcome::Undelivered(response)
            && event.answered_by(response) && response.kind() == event.kind()),
        out.sends() + out.diagnostics() == 1,
{
}

/// The bridge sends nothing for an event whose payload is refused, and
/// reports the refusal once. Only a series-loading or study-loading event is
/// ever refused.
pub proof fn lemma_bridge_refuses(tx: Arc<DataTx>, event: Event, out: Outcome)
    requires
        TradingViewHandler::forwarding(tx).dispatches(event, out),
        event.rejection() is Some,
    ensures
        event.kind().is_loading(),
        out == Outcome::Undecodable(event, event.rejection()->Some_0),
        out.sends() == 0,
        out.diagnostics() == 1,
{
}

/// Whatever the handlers are, the outcome of an event counts at most one
/// response sent and at most one report. A response is sent only by a handler
/// that forwards, and only for an event whose payload is not refused.
pub proof fn lemma_at_most_one_send(handler: TradingViewHandler, event: Event, out: Outcome)
    requires
        handler.dispatches(event, out),
    ensures
        out.sends() <= 1,
        out.diagnostics() <= 1,
        out.sends() == 1 ==> handler.binding(event.kind()) is Forward && event.rejection() is None,
{
}

/// A response that a closed channel hands back counts as not sent, and is
/// reported once, as an error.
pub proof fn lemma_undelivered_reported_once(response: TradingViewResponse)
    ensures
        Outcome::Undelivered(response).sends() == 0,
        Outcome::Undelivered(response).diagnostics() == 1,
        Outcome::Undelivered(response).level() == Some(Level::Error),
{
}

} // verus!
