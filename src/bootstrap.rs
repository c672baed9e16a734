//! The capability registry and the bootstrap object built on it.
//!
//! The registry maps each enabled kind of service to its topic. It is set up
//! once through the builder and never changes afterwards; every session
//! resolves its services against it.
use vstd::prelude::*;
use crate::codec::{encode_hello_spec, encode_twist_spec, hello_encodable};
use crate::service::{
    hello_arg, hello_outcome, twist_arg, twist_outcome, CallError, DoHelloParams, DoTwistParams,
    HelloZenohService, ServiceKind, TwistZenohService,
};

verus! {

/// Why a configuration was refused.
#[derive(Debug, Clone, Copy, PartialEq, Eq, Structural)]
pub enum ConfigError {
    /// The kind is enabled with an empty topic name.
    EmptyTopic(ServiceKind),
}

/// The topic configured for a kind, given the topic of each kind.
pub open spec fn configured(hello: Option<Seq<char>>, twist: Option<Seq<char>>, k: ServiceKind) -> Option<Seq<char>> {
    match k {
        ServiceKind::Hello => hello,
        ServiceKind::Twist => twist,
    }
}

/// The registry as a map from each enabled kind to its topic.
pub open spec fn topics_map(hello: Option<Seq<char>>, twist: Option<Seq<char>>) -> Map<ServiceKind, Seq<char>> {
    Map::new(
        |k: ServiceKind| configured(hello, twist, k) is Some,
        |k: ServiceKind| configured(hello, twist, k)->0,
    )
}

/// A registry whose enabled kinds all have a non-empty topic.
pub open spec fn registry_wf(reg: Map<ServiceKind, Seq<char>>) -> bool {
    forall|k: ServiceKind| #[trigger] reg.contains_key(k) ==> reg[k].len() > 0
}

/// What resolving a kind against a registry gives: the topic of the service,
/// or the failure for a kind that is not enabled.
pub open spec fn resolve_spec(reg: Map<ServiceKind, Seq<char>>, k: ServiceKind) -> Result<Seq<char>, CallError> {
    if reg.contains_key(k) {
        Ok(reg[k])
    } else {
        Err(CallError::NotConfigured(k))
    }
}

/// A topic seen as its characters.
pub open spec fn opt_view(o: Option<String>) -> Option<Seq<char>> {
    match o {
        Some(s) => Some(s@),
        None => None,
    }
}

/// Collects the configuration of the bootstrap object.
pub struct BootstrapServiceBuilder<S> {
    zenoh_session: S,
    hello_topic: Option<String>,
    twist_topic: Option<String>,
}

impl<S> View for BootstrapServiceBuilder<S> {
    type V = Map<ServiceKind, Seq<char>>;

    closed spec fn view(&self) -> Map<ServiceKind, Seq<char>> {
        topics_map(opt_view(self.hello_topic), opt_view(self.twist_topic))
    }
}

impl<S> BootstrapServiceBuilder<S> {
    /// A builder with no kind enabled, around the bus handle.
    pub fn new(zenoh_session: S) -> (r: Self)
        ensures
            r@ == Map::<ServiceKind, Seq<char>>::empty(),
    {
        let r = BootstrapServiceBuilder { zenoh_session, hello_topic: None, twist_topic: None };
        assert(r@ =~= Map::<ServiceKind, Seq<char>>::empty());
        r
    }

    /// Enables the hello service on `topic`.
    pub fn with_hello_publisher(self, topic: &str) -> (r: Self)
        ensures
            r@ == self@.insert(ServiceKind::Hello, topic@),
    {
        let r = BootstrapServiceBuilder {
            zenoh_session: self.zenoh_session,
            hello_topic: Some(topic.to_owned()),
            twist_topic: self.twist_topic,
        };
        assert(r@ =~= self@.insert(ServiceKind::Hello, topic@));
        r
    }

    /// Enables the twist service on `topic`.
    pub fn with_twist_publisher(self, topic: &str) -> (r: Self)
        ensures
            r@ == self@.insert(ServiceKind::Twist, topic@),
    {
        let r = BootstrapServiceBuilder {
            zenoh_session: self.zenoh_session,
            hello_topic: self.hello_topic,
            twist_topic: Some(topic.to_owned()),
        };
        assert(r@ =~= self@.insert(ServiceKind::Twist, topic@));
        r
    }

    /// The bootstrap object for this configuration; refused when an enabled
    /// kind has an empty topic.
    pub fn build(self) -> (r: Result<BootstrapService<S>, ConfigError>)
        ensures
            r is Ok <==> registry_wf(self@),
            r matches Ok(b) ==> b@ == self@,
            r matches Err(ConfigError::EmptyTopic(k)) ==> self@.contains_key(k) && self@[k].len() == 0,
    {
        if let Some(t) = &self.hello_topic {
            if t.as_str().is_empty() {
                assert(self@.contains_key(ServiceKind::Hello) && self@[ServiceKind::Hello].len() == 0);
                return Err(ConfigError::EmptyTopic(ServiceKind::Hello));
            }
        }
        if let Some(t) = &self.twist_topic {
            if t.as_str().is_empty() {
                assert(self@.contains_key(ServiceKind::Twist) && self@[ServiceKind::Twist].len() == 0);
                return Err(ConfigError::EmptyTopic(ServiceKind::Twist));
            }
        }
        assert(registry_wf(self@)) by {
            assert forall|k: ServiceKind| #[trigger] self@.contains_key(k) implies self@[k].len() > 0 by {
                match k {
                    ServiceKind::Hello => {},
                    ServiceKind::Twist => {},
                }
            }
        }
        Ok(
            BootstrapService {
                zenoh_session: self.zenoh_session,
                hello_topic: self.hello_topic,
                twist_topic: self.twist_topic,
            },
        )
    }
}

/// The root object of every session: hands out the configured services.
pub struct BootstrapService<S> {
    zenoh_session: S,
    hello_topic: Option<String>,
    twist_topic: Option<String>,
}

impl<S> View for BootstrapService<S> {
    type V = Map<ServiceKind, Seq<char>>;

    closed spec fn view(&self) -> Map<ServiceKind, Seq<char>> {
        topics_map(opt_view(self.hello_topic), opt_view(self.twist_topic))
    }
}

impl<S> BootstrapService<S> {
    /// Every enabled kind has a non-empty topic.
    #[verifier::type_invariant]
    spec fn well_formed(&self) -> bool {
        registry_wf(self@)
    }
}

impl<S: Clone> BootstrapService<S> {
    /// The hello service, bound to its configured topic, or `NotConfigured`
    /// when hello is not enabled.
    pub fn get_hello_service(&self) -> (r: Result<HelloZenohService<S>, CallError>)
        ensures
            match r {
                Ok(svc) => resolve_spec(self@, ServiceKind::Hello) == Ok::<Seq<char>, CallError>(svc.topic_view())
                    && svc.topic_view().len() > 0,
                Err(e) => resolve_spec(self@, ServiceKind::Hello) == Err::<Seq<char>, CallError>(e),
            },
    {
        proof {
            use_type_invariant(self);
        }
        match &self.hello_topic {
            Some(t) => Ok(HelloZenohService::new(self.zenoh_session.clone(), t.clone())),
            None => Err(CallError::NotConfigured(ServiceKind::Hello)),
        }
    }

    /// The twist service, bound to its configured topic, or `NotConfigured`
    /// when twist is not enabled.
    pub fn get_twist_service(&self) -> (r: Result<TwistZenohService<S>, CallError>)
        ensures
            match r {
                Ok(svc) => resolve_spec(self@, ServiceKind::Twist) == Ok::<Seq<char>, CallError>(svc.topic_view())
                    && svc.topic_view().len() > 0,
                Err(e) => resolve_spec(self@, ServiceKind::Twist) == Err::<Seq<char>, CallError>(e),
            },
    {
        proof {
            use_type_invariant(self);
        }
        match &self.twist_topic {
            Some(t) => Ok(TwistZenohService::new(self.zenoh_session.clone(), t.clone())),
            None => Err(CallError::NotConfigured(ServiceKind::Twist)),
        }
    }
}

/// A hello call on the service resolved for an enabled hello kind publishes
/// exactly once: on the kind's configured topic, and the encoding of exactly
/// the text passed.
pub proof fn lemma_enabled_hello_publishes_once(reg: Map<ServiceKind, Seq<char>>, p: DoHelloParams)
    requires
        reg.contains_key(ServiceKind::Hello),
        hello_arg(p) is Some,
        hello_encodable(hello_arg(p)->0),
    ensures
        resolve_spec(reg, ServiceKind::Hello) == Ok::<Seq<char>, CallError>(reg[ServiceKind::Hello]),
        hello_outcome(reg[ServiceKind::Hello], p) == Ok::<(Seq<char>, Seq<u8>), CallError>(
            (reg[ServiceKind::Hello], encode_hello_spec(hello_arg(p)->0)),
        ),
{
}

/// A twist call on the service resolved for an enabled twist kind publishes
/// exactly once: on the kind's configured topic, and the encoding of exactly
/// the vectors passed.
pub proof fn lemma_enabled_twist_publishes_once(reg: Map<ServiceKind, Seq<char>>, p: DoTwistParams)
    requires
        reg.contains_key(ServiceKind::Twist),
        twist_arg(p) is Some,
    ensures
        resolve_spec(reg, ServiceKind::Twist) == Ok::<Seq<char>, CallError>(reg[ServiceKind::Twist]),
        twist_outcome(reg[ServiceKind::Twist], p) == Ok::<(Seq<char>, Seq<u8>), CallError>(
            (reg[ServiceKind::Twist], encode_twist_spec(twist_arg(p)->0)),
        ),
{
}

/// Resolving a kind that is disabled or unknown fails with `NotConfigured`,
/// so no service, and with it no publish, comes of it.
pub proof fn lemma_unconfigured_kind_fails(reg: Map<ServiceKind, Seq<char>>, k: ServiceKind)
    requires
        !reg.contains_key(k),
    ensures
        resolve_spec(reg, k) == Err::<Seq<char>, CallError>(CallError::NotConfigured(k)),
{
}

} // verus!
