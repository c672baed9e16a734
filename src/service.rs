//! Service capabilities: one per message kind, each bound to one topic.
//!
//! A call checks that its parameters carry every required field, encodes the
//! message and yields the one publish request that the caller hands to the
//! bus. The capability itself never changes, so calls are independent of one
//! another and of the order in which their publishes complete.
use vstd::prelude::*;
use crate::codec::{
    encode_hello, encode_hello_spec, encode_twist, encode_twist_spec, hello_encodable,
};
use crate::message::{Hello, Twist, Vector3};

verus! {

/// The kinds of service that the bootstrap object can hand out.
#[derive(Debug, Clone, Copy, PartialEq, Eq, Structural)]
pub enum ServiceKind {
    Hello,
    Twist,
}

/// Why a call failed. Failing a call leaves the session and every other
/// capability usable.
#[derive(Debug, Clone, Copy, PartialEq, Eq, Structural)]
pub enum CallError {
    /// A required field of the call's parameters is absent.
    MalformedParameters,
    /// The requested kind of service is disabled or unknown.
    NotConfigured(ServiceKind),
    /// The message cannot be represented in the payload format.
    Unrepresentable,
}

/// The `data` structure of a hello call.
#[derive(Debug)]
pub struct HelloData {
    pub msg: Option<String>,
}

/// The parameters of a hello call.
#[derive(Debug)]
pub struct DoHelloParams {
    pub data: Option<HelloData>,
}

/// The `data` structure of a twist call.
#[derive(Debug, Clone, Copy)]
pub struct TwistData {
    pub linear: Option<Vector3>,
    pub angular: Option<Vector3>,
}

/// The parameters of a twist call.
#[derive(Debug, Clone, Copy)]
pub struct DoTwistParams {
    pub data: Option<TwistData>,
}

/// A request to publish a payload on a topic.
#[derive(Debug)]
pub struct Publish {
    pub topic: String,
    pub payload: Vec<u8>,
}

impl View for Publish {
    type V = (Seq<char>, Seq<u8>);

    open spec fn view(&self) -> (Seq<char>, Seq<u8>) {
        (self.topic@, self.payload@)
    }
}

/// The outcome of a call, with the publish request seen as topic and payload.
pub open spec fn outcome_view(r: Result<Publish, CallError>) -> Result<(Seq<char>, Seq<u8>), CallError> {
    match r {
        Ok(p) => Ok(p@),
        Err(e) => Err(e),
    }
}

/// The text of a hello call, when every required field is present.
pub open spec fn hello_arg(p: DoHelloParams) -> Option<Seq<char>> {
    match p.data {
        Some(d) => match d.msg {
            Some(m) => Some(m@),
            None => None,
        },
        None => None,
    }
}

/// The message of a twist call, when every required field is present.
pub open spec fn twist_arg(p: DoTwistParams) -> Option<Twist> {
    match p.data {
        Some(d) => match (d.linear, d.angular) {
            (Some(linear), Some(angular)) => Some(Twist { linear, angular }),
            _ => None,
        },
        None => None,
    }
}

/// What a hello call on a service bound to `topic` yields.
pub open spec fn hello_outcome(topic: Seq<char>, p: DoHelloParams) -> Result<(Seq<char>, Seq<u8>), CallError> {
    match hello_arg(p) {
        Some(m) => if hello_encodable(m) {
            Ok((topic, encode_hello_spec(m)))
        } else {
            Err(CallError::Unrepresentable)
        },
        None => Err(CallError::MalformedParameters),
    }
}

/// What a twist call on a service bound to `topic` yields.
pub open spec fn twist_outcome(topic: Seq<char>, p: DoTwistParams) -> Result<(Seq<char>, Seq<u8>), CallError> {
    match twist_arg(p) {
        Some(t) => Ok((topic, encode_twist_spec(t))),
        None => Err(CallError::MalformedParameters),
    }
}

/// The hello service: publishes each greeting on its topic.
pub struct HelloZenohService<S> {
    session: S,
    topic: String,
}

/// The twist service: publishes each velocity command on its topic.
pub struct TwistZenohService<S> {
    session: S,
    topic: String,
}

impl<S> HelloZenohService<S> {
    /// The topic this service publishes on.
    pub closed spec fn topic_view(&self) -> Seq<char> {
        self.topic@
    }

    pub(crate) fn new(session: S, topic: String) -> (r: Self)
        ensures
            r.topic_view() == topic@,
    {
        HelloZenohService { session, topic }
    }

    /// The bus handle that publishes go through.
    pub fn session(&self) -> &S {
        &self.session
    }

    /// The topic this service publishes on.
    pub fn topic(&self) -> (r: &String)
        ensures
            r@ == self.topic_view(),
    {
        &self.topic
    }

    /// Handles a hello call: the one publish request for it, or why it failed.
    pub fn do_hello(&self, params: &DoHelloParams) -> (r: Result<Publish, CallError>)
        ensures
            outcome_view(r) == hello_outcome(self.topic_view(), *params),
    {
        let msg = match &params.data {
            Some(d) => match &d.msg {
                Some(m) => m,
                None => return Err(CallError::MalformedParameters),
            },
            None => return Err(CallError::MalformedParameters),
        };
        let hello = Hello { msg: msg.clone() };
        match encode_hello(&hello) {
            Some(payload) => Ok(Publish { topic: self.topic.clone(), payload }),
            None => Err(CallError::Unrepresentable),
        }
    }
}

impl<S> TwistZenohService<S> {
    /// The topic this service publishes on.
    pub closed spec fn topic_view(&self) -> Seq<char> {
        self.topic@
    }

    pub(crate) fn new(session: S, topic: String) -> (r: Self)
        ensures
            r.topic_view() == topic@,
    {
        TwistZenohService { session, topic }
    }

    /// The bus handle that publishes go through.
    pub fn session(&self) -> &S {
        &self.session
    }

    /// The topic this service publishes on.
    pub fn topic(&self) -> (r: &String)
        ensures
            r@ == self.topic_view(),
    {
        &self.topic
    }

    /// Handles a twist call: the one publish request for it, or why it failed.
    /// The numbers are passed through as they came, bit for bit.
    pub fn do_twist(&self, params: &DoTwistParams) -> (r: Result<Publish, CallError>)
        ensures
            outcome_view(r) == twist_outcome(self.topic_view(), *params),
    {
        let (linear, angular) = match params.data {
            Some(d) => match (d.linear, d.angular) {
                (Some(linear), Some(angular)) => (linear, angular),
                _ => return Err(CallError::MalformedParameters),
            },
            None => return Err(CallError::MalformedParameters),
        };
        let twist = Twist { linear, angular };
        let payload = encode_twist(&twist);
        Ok(Publish { topic: self.topic.clone(), payload })
    }
}

/// A call that lacks a required field fails as malformed, before anything is
/// encoded: it yields no publish request.
pub proof fn lemma_missing_field_fails(topic: Seq<char>, hp: DoHelloParams, tp: DoTwistParams)
    ensures
        hello_arg(hp) is None ==> hello_outcome(topic, hp) == Err::<(Seq<char>, Seq<u8>), CallError>(
            CallError::MalformedParameters,
        ),
        twist_arg(tp) is None ==> twist_outcome(topic, tp) == Err::<(Seq<char>, Seq<u8>), CallError>(
            CallError::MalformedParameters,
        ),
{
}

/// How many of these outcomes are publish requests for `topic`.
pub open spec fn publish_count(outs: Seq<Result<(Seq<char>, Seq<u8>), CallError>>, topic: Seq<char>) -> nat
    decreases outs.len(),
{
    if outs.len() == 0 {
        0
    } else {
        publish_count(outs.drop_last(), topic) + match outs.last() {
            Ok(p) => if p.0 == topic {
                1nat
            } else {
                0nat
            },
            Err(_) => 0nat,
        }
    }
}

/// The outcomes of a number of hello calls on one service bound to `topic`.
pub open spec fn hello_outcomes(topic: Seq<char>, calls: Seq<DoHelloParams>) -> Seq<
    Result<(Seq<char>, Seq<u8>), CallError>,
> {
    calls.map_values(|p: DoHelloParams| hello_outcome(topic, p))
}

/// The outcomes of a number of twist calls on one service bound to `topic`.
pub open spec fn twist_outcomes(topic: Seq<char>, calls: Seq<DoTwistParams>) -> Seq<
    Result<(Seq<char>, Seq<u8>), CallError>,
> {
    calls.map_values(|p: DoTwistParams| twist_outcome(topic, p))
}

proof fn lemma_count_all_on_topic(outs: Seq<Result<(Seq<char>, Seq<u8>), CallError>>, topic: Seq<char>)
    requires
        forall|i: int| 0 <= i < outs.len() ==> (#[trigger] outs[i] matches Ok(p) && p.0 == topic),
    ensures
        publish_count(outs, topic) == outs.len(),
    decreases outs.len(),
{
    if outs.len() > 0 {
        let init = outs.drop_last();
        assert forall|i: int| 0 <= i < init.len() implies (#[trigger] init[i] matches Ok(p) && p.0 == topic) by {
            assert(init[i] == outs[i]);
        }
        lemma_count_all_on_topic(init, topic);
        assert(outs[outs.len() - 1] matches Ok(p) && p.0 == topic);
    }
}

/// N well-formed hello calls on one service yield exactly N publishes to its
/// topic, each carrying the encoding of its own call's text; since the
/// service does not change, this holds whatever order they run or complete in.
pub proof fn lemma_hello_calls_publish_once_each(topic: Seq<char>, calls: Seq<DoHelloParams>)
    requires
        forall|i: int|
            0 <= i < calls.len() ==> (#[trigger] hello_arg(calls[i])) is Some && hello_encodable(
                hello_arg(calls[i])->0,
            ),
    ensures
        hello_outcomes(topic, calls).len() == calls.len(),
        forall|i: int|
            0 <= i < calls.len() ==> #[trigger] hello_outcomes(topic, calls)[i] == Ok::<
                (Seq<char>, Seq<u8>),
                CallError,
            >((topic, encode_hello_spec(hello_arg(calls[i])->0))),
        publish_count(hello_outcomes(topic, calls), topic) == calls.len(),
{
    let outs = hello_outcomes(topic, calls);
    assert forall|i: int| 0 <= i < outs.len() implies (#[trigger] outs[i] matches Ok(p) && p.0 == topic) by {
        assert(hello_arg(calls[i]) is Some);
    }
    lemma_count_all_on_topic(outs, topic);
}

/// N well-formed twist calls on one service yield exactly N publishes to its
/// topic, each carrying the encoding of its own call's vectors, whatever order
/// they run or complete in.
pub proof fn lemma_twist_calls_publish_once_each(topic: Seq<char>, calls: Seq<DoTwistParams>)
    requires
        forall|i: int| 0 <= i < calls.len() ==> (#[trigger] twist_arg(calls[i])) is Some,
    ensures
        twist_outcomes(topic, calls).len() == calls.len(),
        forall|i: int|
            0 <= i < calls.len() ==> #[trigger] twist_outcomes(topic, calls)[i] == Ok::<
                (Seq<char>, Seq<u8>),
                CallError,
            >((topic, encode_twist_spec(twist_arg(calls[i])->0))),
        publish_count(twist_outcomes(topic, calls), topic) == calls.len(),
{
    let outs = twist_outcomes(topic, calls);
    assert forall|i: int| 0 <= i < outs.len() implies (#[trigger] outs[i] matches Ok(p) && p.0 == topic) by {
        assert(twist_arg(calls[i]) is Some);
    }
    lemma_count_all_on_topic(outs, topic);
}

} // verus!
