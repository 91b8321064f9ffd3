//! The channels between the engine and its listeners.
//!
//! What waits in a channel depends on what the other end does meanwhile, so
//! nothing is stated of it. What a channel was made with is stated, which ends
//! belong to it, and what was tried and answered at each of them.

use flume::{Receiver, Sender};
use vstd::prelude::*;

use crate::term::engine::{TerminalEvent, TerminalRequest};

verus! {

/// The end of a channel that values are sent into.
#[verifier::external_type_specification]
#[verifier::external_body]
#[verifier::reject_recursive_types(T)]
pub struct ExSender<T>(flume::Sender<T>);

/// The end of a channel that values are received from.
#[verifier::external_type_specification]
#[verifier::external_body]
#[verifier::reject_recursive_types(T)]
pub struct ExReceiver<T>(flume::Receiver<T>);

/// Why a value could not be sent.
#[derive(Debug, Clone, Copy, PartialEq, Eq, Structural)]
pub enum ChannelSendError {
    Full,
    Disconnected,
}

/// Why no value could be received.
#[derive(Debug, Clone, Copy, PartialEq, Eq, Structural)]
pub enum ChannelTryRecvError {
    Empty,
    Disconnected,
}

/// How many events the channel of this end was made to hold; `None` stands for
/// no limit.
pub uninterp spec fn event_limit(sender: &Sender<TerminalEvent>) -> Option<usize>;

/// How many events the channel of this end was made to hold; `None` stands for
/// no limit.
pub uninterp spec fn event_source_limit(receiver: &Receiver<TerminalEvent>) -> Option<usize>;

/// How many requests the channel of this end was made to hold; `None` stands for
/// no limit.
pub uninterp spec fn request_limit(sender: &Sender<TerminalRequest>) -> Option<usize>;

/// How many requests the channel of this end was made to hold; `None` stands for
/// no limit.
pub uninterp spec fn request_source_limit(receiver: &Receiver<TerminalRequest>) -> Option<usize>;

/// Which channel the events that are sent from this end go into.
pub uninterp spec fn event_channel_of(sender: &Sender<TerminalEvent>) -> int;

/// Which channel the events that are received at this end come out of.
pub uninterp spec fn event_source_of(receiver: &Receiver<TerminalEvent>) -> int;

/// Which channel the requests that are sent from this end go into.
pub uninterp spec fn request_channel_of(sender: &Sender<TerminalRequest>) -> int;

/// Which channel the requests that are received at this end come out of.
pub uninterp spec fn request_source_of(receiver: &Receiver<TerminalRequest>) -> int;

/// The tries to send an event from this end, each with the answer of the
/// channel, in order.
pub uninterp spec fn event_tries(sender: &Sender<TerminalEvent>) -> Seq<
    (TerminalEvent, Result<(), ChannelSendError>),
>;

/// The tries to send a request from this end, each with the answer of the
/// channel, in order.
pub uninterp spec fn request_tries(sender: &Sender<TerminalRequest>) -> Seq<
    (TerminalRequest, Result<(), ChannelSendError>),
>;

/// What the channel has answered to each try to receive an event at this end,
/// in order: the event that it handed out, or why there was none.
pub uninterp spec fn event_answers(receiver: &Receiver<TerminalEvent>) -> Seq<
    Result<TerminalEvent, ChannelTryRecvError>,
>;

/// What the channel has answered to each try to receive a request at this end,
/// in order: the request that it handed out, or why there was none.
pub uninterp spec fn request_answers(receiver: &Receiver<TerminalRequest>) -> Seq<
    Result<TerminalRequest, ChannelTryRecvError>,
>;

/// Whether a channel with the given limit can be received from.
pub open spec fn is_receivable(limit: Option<usize>) -> bool {
    limit != Some(usize::MAX)
}

/// The limit of a channel that is asked for with the given capacity. The
/// greatest capacity there is stands for no limit.
pub open spec fn limit_for(capacity: Option<usize>) -> Option<usize> {
    if capacity == Some(usize::MAX) {
        None
    } else {
        capacity
    }
}

/// `flume::bounded` makes a channel with the given limit, through which nothing
/// has gone yet, and hands out its two ends.
#[verifier::external_body]
fn bounded_events(capacity: usize) -> (r: (Sender<TerminalEvent>, Receiver<TerminalEvent>))
    ensures
        event_limit(&r.0) == Some(capacity),
        event_source_limit(&r.1) == Some(capacity),
        event_channel_of(&r.0) == event_source_of(&r.1),
        event_tries(&r.0).len() == 0,
        event_answers(&r.1).len() == 0,
{
    flume::bounded(capacity)
}

/// `flume::unbounded` makes a channel without a limit, through which nothing
/// has gone yet, and hands out its two ends.
#[verifier::external_body]
fn unbounded_events() -> (r: (Sender<TerminalEvent>, Receiver<TerminalEvent>))
    ensures
        event_limit(&r.0) is None,
        event_source_limit(&r.1) is None,
        event_channel_of(&r.0) == event_source_of(&r.1),
        event_tries(&r.0).len() == 0,
        event_answers(&r.1).len() == 0,
{
    flume::unbounded()
}

/// `flume::bounded` makes a channel with the given limit, through which nothing
/// has gone yet, and hands out its two ends.
#[verifier::external_body]
fn bounded_requests(capacity: usize) -> (r: (Sender<TerminalRequest>, Receiver<TerminalRequest>))
    ensures
        request_limit(&r.0) == Some(capacity),
        request_source_limit(&r.1) == Some(capacity),
        request_channel_of(&r.0) == request_source_of(&r.1),
        request_tries(&r.0).len() == 0,
        request_answers(&r.1).len() == 0,
{
    flume::bounded(capacity)
}

/// `flume::unbounded` makes a channel without a limit, through which nothing
/// has gone yet, and hands out its two ends.
#[verifier::external_body]
fn unbounded_requests() -> (r: (Sender<TerminalRequest>, Receiver<TerminalRequest>))
    ensures
        request_limit(&r.0) is None,
        request_source_limit(&r.1) is None,
        request_channel_of(&r.0) == request_source_of(&r.1),
        request_tries(&r.0).len() == 0,
        request_answers(&r.1).len() == 0,
{
    flume::unbounded()
}

/// `Sender::try_send` sends an event without waiting, and only a channel with a
/// limit can be full. Whether this one is, and whether anybody listens, is up
/// to the other end and not stated; the contract puts the try and its answer on
/// the record of this end, which stays an end of its channel.
#[verifier::external_body]
pub(crate) fn try_send_event(sender: &mut Sender<TerminalEvent>, event: TerminalEvent) -> (r:
    Result<(), ChannelSendError>)
    ensures
        event_limit(final(sender)) == event_limit(old(sender)),
        event_channel_of(final(sender)) == event_channel_of(old(sender)),
        event_tries(final(sender)) == event_tries(old(sender)).push((event, r)),
        r is Err && event_limit(old(sender)) is None ==> r->Err_0 is Disconnected,
{
    sender.try_send(event).map_err(|err| match err {
        flume::TrySendError::Full(_) => ChannelSendError::Full,
        flume::TrySendError::Disconnected(_) => ChannelSendError::Disconnected,
    })
}

/// `Sender::try_send` sends a request without waiting, and only a channel with a
/// limit can be full. Whether this one is, and whether anybody listens, is up
/// to the other end and not stated; the contract puts the try and its answer on
/// the record of this end, which stays an end of its channel.
#[verifier::external_body]
fn try_send_request(sender: &mut Sender<TerminalRequest>, request: TerminalRequest) -> (r: Result<
    (),
    ChannelSendError,
>)
    ensures
        request_limit(final(sender)) == request_limit(old(sender)),
        request_channel_of(final(sender)) == request_channel_of(old(sender)),
        request_tries(final(sender)) == request_tries(old(sender)).push((request, r)),
        r is Err && request_limit(old(sender)) is None ==> r->Err_0 is Disconnected,
{
    sender.try_send(request).map_err(|err| match err {
        flume::TrySendError::Full(_) => ChannelSendError::Full,
        flume::TrySendError::Disconnected(_) => ChannelSendError::Disconnected,
    })
}

/// `Receiver::try_recv` takes the next value out of the channel, or says why
/// there is none. What it answers is up to the other end and not stated; the
/// contract puts the answer on the record of this end, which stays an end of its
/// channel. On the way the call adds one to the limit of the channel; where that
/// is possible, it does not panic.
#[verifier::external_body]
fn try_recv_request(receiver: &mut Receiver<TerminalRequest>) -> (r: Result<
    TerminalRequest,
    ChannelTryRecvError,
>)
    requires
        is_receivable(request_source_limit(old(receiver))),
    ensures
        request_source_limit(final(receiver)) == request_source_limit(old(receiver)),
        request_source_of(final(receiver)) == request_source_of(old(receiver)),
        request_answers(final(receiver)) == request_answers(old(receiver)).push(r),
    no_unwind
{
    receiver.try_recv().map_err(|err| match err {
        flume::TryRecvError::Empty => ChannelTryRecvError::Empty,
        flume::TryRecvError::Disconnected => ChannelTryRecvError::Disconnected,
    })
}

/// `Receiver::try_recv` takes the next value out of the channel, or says why
/// there is none. What it answers is up to the other end and not stated; the
/// contract puts the answer on the record of this end, which stays an end of its
/// channel. On the way the call adds one to the limit of the channel; where that
/// is possible, it does not panic.
#[verifier::external_body]
fn try_recv_event(receiver: &mut Receiver<TerminalEvent>) -> (r: Result<
    TerminalEvent,
    ChannelTryRecvError,
>)
    requires
        is_receivable(event_source_limit(old(receiver))),
    ensures
        event_source_limit(final(receiver)) == event_source_limit(old(receiver)),
        event_source_of(final(receiver)) == event_source_of(old(receiver)),
        event_answers(final(receiver)) == event_answers(old(receiver)).push(r),
    no_unwind
{
    receiver.try_recv().map_err(|err| match err {
        flume::TryRecvError::Empty => ChannelTryRecvError::Empty,
        flume::TryRecvError::Disconnected => ChannelTryRecvError::Disconnected,
    })
}

/// How many values the channels hold; `None` stands for no limit.
#[derive(Debug, Clone, Copy, PartialEq, Eq, Structural)]
pub struct ChannelConfig {
    pub event_capacity: Option<usize>,
    pub request_capacity: Option<usize>,
}

impl ChannelConfig {
    /// Both channels hold at most `capacity` values.
    pub fn bounded(capacity: usize) -> (config: ChannelConfig)
        ensures
            config == (ChannelConfig {
                event_capacity: Some(capacity),
                request_capacity: Some(capacity),
            }),
    {
        ChannelConfig { event_capacity: Some(capacity), request_capacity: Some(capacity) }
    }
}

impl Default for ChannelConfig {
    fn default() -> (r: Self)
        ensures
            r == (ChannelConfig { event_capacity: None, request_capacity: None }),
    {
        ChannelConfig { event_capacity: None, request_capacity: None }
    }
}

/// The channel for events, by its two ends.
pub(crate) fn event_channel(capacity: Option<usize>) -> (r: (Sender<TerminalEvent>, TerminalEvents))
    ensures
        event_limit(&r.0) == limit_for(capacity),
        r.1.limit() == limit_for(capacity),
        event_channel_of(&r.0) == r.1.channel(),
        event_tries(&r.0).len() == 0,
        r.1.answers().len() == 0,
{
    let (sender, receiver) = match capacity {
        Some(capacity) if capacity < usize::MAX => bounded_events(capacity),
        _ => unbounded_events(),
    };
    (sender, TerminalEvents { receiver })
}

/// The channel for requests, by its two ends.
pub(crate) fn request_channel(capacity: Option<usize>) -> (r: (TerminalHandle, RequestSource))
    ensures
        r.0.limit() == limit_for(capacity),
        r.1.limit() == limit_for(capacity),
        r.0.channel() == r.1.channel(),
        r.0.tries().len() == 0,
        r.1.answers().len() == 0,
{
    let (sender, receiver) = match capacity {
        Some(capacity) if capacity < usize::MAX => bounded_requests(capacity),
        _ => unbounded_requests(),
    };
    (TerminalHandle { sender }, RequestSource { receiver })
}

/// Through which listeners send requests to the engine.
pub struct TerminalHandle {
    sender: Sender<TerminalRequest>,
}

impl TerminalHandle {
    /// How many requests can wait.
    pub closed spec fn limit(&self) -> Option<usize> {
        request_limit(&self.sender)
    }

    /// Which channel the requests go into.
    pub closed spec fn channel(&self) -> int {
        request_channel_of(&self.sender)
    }

    /// The tries to send a request through this handle, with their answers.
    pub closed spec fn tries(&self) -> Seq<(TerminalRequest, Result<(), ChannelSendError>)> {
        request_tries(&self.sender)
    }

    /// Send a request. Without a limit on the channel this fails only where
    /// the engine is gone.
    pub fn send(&mut self, request: TerminalRequest) -> (r: Result<(), ChannelSendError>)
        ensures
            final(self).limit() == old(self).limit(),
            final(self).channel() == old(self).channel(),
            final(self).tries() == old(self).tries().push((request, r)),
            r is Err && old(self).limit() is None ==> r->Err_0 is Disconnected,
    {
        try_send_request(&mut self.sender, request)
    }
}

/// From which the engine receives requests.
pub struct RequestSource {
    receiver: Receiver<TerminalRequest>,
}

impl RequestSource {
    /// The channel can be received from.
    #[verifier::type_invariant]
    spec fn receivable(&self) -> bool {
        is_receivable(request_source_limit(&self.receiver))
    }

    /// How many requests can wait.
    pub closed spec fn limit(&self) -> Option<usize> {
        request_source_limit(&self.receiver)
    }

    /// Which channel the requests come out of.
    pub closed spec fn channel(&self) -> int {
        request_source_of(&self.receiver)
    }

    /// What the channel has answered to each try to receive a request.
    pub closed spec fn answers(&self) -> Seq<Result<TerminalRequest, ChannelTryRecvError>> {
        request_answers(&self.receiver)
    }

    /// The next request, if one waits.
    pub(crate) fn try_recv(&mut self) -> (r: Result<TerminalRequest, ChannelTryRecvError>)
        ensures
            final(self).limit() == old(self).limit(),
            final(self).channel() == old(self).channel(),
            final(self).answers() == old(self).answers().push(r),
    {
        proof {
            use_type_invariant(&*self);
        }
        try_recv_request(&mut self.receiver)
    }
}

/// From which listeners receive events of the engine.
pub struct TerminalEvents {
    receiver: Receiver<TerminalEvent>,
}

impl TerminalEvents {
    /// The channel can be received from.
    #[verifier::type_invariant]
    spec fn receivable(&self) -> bool {
        is_receivable(event_source_limit(&self.receiver))
    }

    /// How many events can wait.
    pub closed spec fn limit(&self) -> Option<usize> {
        event_source_limit(&self.receiver)
    }

    /// Which channel the events come out of.
    pub closed spec fn channel(&self) -> int {
        event_source_of(&self.receiver)
    }

    /// What the channel has answered to each try to receive an event.
    pub closed spec fn answers(&self) -> Seq<Result<TerminalEvent, ChannelTryRecvError>> {
        event_answers(&self.receiver)
    }

    /// The next event, if one waits.
    pub fn try_recv(&mut self) -> (r: Result<TerminalEvent, ChannelTryRecvError>)
        ensures
            final(self).limit() == old(self).limit(),
            final(self).channel() == old(self).channel(),
            final(self).answers() == old(self).answers().push(r),
    {
        proof {
            use_type_invariant(&*self);
        }
        try_recv_event(&mut self.receiver)
    }

    /// The receiving end itself, for a listener that waits for events.
    pub fn into_receiver(self) -> (receiver: Receiver<TerminalEvent>)
        ensures
            event_answers(&receiver) == self.answers(),
            event_source_limit(&receiver) == self.limit(),
            event_source_of(&receiver) == self.channel(),
            is_receivable(event_source_limit(&receiver)),
    {
        proof {
            use_type_invariant(&self);
        }
        self.receiver
    }
}

} // verus!
