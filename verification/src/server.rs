//! One instance of the engine, its monitoring consumer, and the hook through
//! which the engine's notifications reach it.

use crate::identity::{calculate_hash, identity_of};
use crate::registry::{
    dispatched, lemma_posted_notification_is_received, mailbox, next_notification, received,
    registered, DispatchError, ReceiveError, Registry,
};
use std::hash::{Hash, Hasher};
use vstd::prelude::*;

verus! {

/// The capability of a monitoring consumer: to receive a client identifier
/// and react.
///
/// A consumer that serves several instances is reached through whatever
/// shares it, and sees to its own synchronisation.
pub trait MonitoringHandler: Sized {
    /// Whether a consumer in state `pre` that reacts to `client_id` may be
    /// left in state `post`. Each consumer says this of itself; one that
    /// says nothing may be left in any state.
    open spec fn reacts(pre: Self, client_id: u16, post: Self) -> bool {
        true
    }

    /// Reacts to a notification about the client `client_id`.
    fn monitor(&mut self, client_id: u16)
        ensures
            Self::reacts(*old(self), client_id, *final(self)),
    ;
}

/// Why no instance could be made.
#[derive(Clone, Copy, Debug, PartialEq, Eq, Structural)]
pub enum ServerError {
    /// The engine handed out a null handle: it could not be started.
    InvalidHandle,
}

/// What one call of [`Server::handle_callback`] came to.
#[derive(Clone, Copy, Debug, PartialEq, Eq, Structural)]
pub enum CallbackOutcome {
    /// No consumer is registered: nothing was awaited and nothing taken.
    Unarmed,
    /// The instance has no mailbox in the registry that was handed in.
    Unregistered,
    /// No notification is pending yet. The caller waits until one has been
    /// dispatched and calls again.
    Empty,
    /// The consumer has reacted to the notification about this client.
    Delivered(u16),
}

/// What a call of [`Server::handle_callback`] comes to, for an instance
/// known as `identity` that has a consumer or not (`armed`), against the
/// registry `m`.
pub open spec fn callback_outcome(armed: bool, m: Map<u64, Seq<u16>>, identity: u64)
    -> CallbackOutcome {
    if !armed {
        CallbackOutcome::Unarmed
    } else if !m.contains_key(identity) {
        CallbackOutcome::Unregistered
    } else {
        match next_notification(m, identity) {
            Some(client_id) => CallbackOutcome::Delivered(client_id),
            None => CallbackOutcome::Empty,
        }
    }
}

/// The owner of one native engine handle.
pub struct Server<H: MonitoringHandler> {
    context: usize,
    monitoring_handler: Option<H>,
}

impl<H: MonitoringHandler> Server<H> {
    /// The bit pattern of the native handle that this instance owns.
    pub closed spec fn handle(&self) -> usize {
        self.context
    }

    /// The consumer that is registered with this instance, if any.
    pub closed spec fn consumer(&self) -> Option<H> {
        self.monitoring_handler
    }

    /// This instance with `handler` as its consumer, in place of any other.
    pub closed spec fn armed_with(self, handler: H) -> Server<H> {
        Server { context: self.context, monitoring_handler: Some(handler) }
    }

    /// Makes the instance that owns the engine handle `context` and announces
    /// it to `registry`, so that a notification raised for the handle finds
    /// its mailbox from the first moment on. The instance has no consumer
    /// yet.
    ///
    /// A null handle means that the engine could not be started: no
    /// instance is made of it and the registry stays as it is.
    pub fn new(context: usize, registry: &mut Registry) -> (created: Result<Server<H>, ServerError>)
        ensures
            match created {
                Ok(server) => {
                    &&& context != 0
                    &&& server.handle() == context
                    &&& server.consumer() is None
                    &&& final(registry)@ == registered(old(registry)@, identity_of(context))
                },
                Err(ServerError::InvalidHandle) => {
                    &&& context == 0
                    &&& final(registry)@ == old(registry)@
                },
            },
    {
        if context == 0 {
            return Err(ServerError::InvalidHandle);
        }
        registry.register(calculate_hash(context));
        Ok(Server { context, monitoring_handler: None })
    }

    /// Registers `handler` as the consumer of this instance. An earlier
    /// consumer is dropped and will not be invoked again.
    pub fn register_monitoring_handler(&mut self, handler: H)
        ensures
            *final(self) == old(self).armed_with(handler),
            final(self).consumer() == Some(handler),
            final(self).handle() == old(self).handle(),
    {
        self.monitoring_handler = Some(handler);
    }

    /// The bit pattern of the native handle that this instance owns.
    pub fn context(&self) -> (context: usize)
        ensures
            context == self.handle(),
    {
        self.context
    }

    /// The consumer that is registered with this instance, if any.
    pub fn monitoring_handler(&self) -> (handler: Option<&H>)
        ensures
            match handler {
                Some(h) => self.consumer() == Some(*h),
                None => self.consumer() is None,
            },
    {
        self.monitoring_handler.as_ref()
    }

    /// Hands the oldest pending notification of this instance to its
    /// consumer.
    ///
    /// Without a consumer nothing is taken. With one, the oldest client
    /// identifier in the mailbox of this instance is removed from it and the
    /// consumer reacts to exactly that identifier, once. Where the mailbox is
    /// empty or missing nothing changes, and the outcome says which.
    pub fn handle_callback(&mut self, registry: &mut Registry) -> (outcome: CallbackOutcome)
        ensures
            outcome == callback_outcome(
                old(self).consumer() is Some,
                old(registry)@,
                identity_of(old(self).handle()),
            ),
            final(self).handle() == old(self).handle(),
            match outcome {
                CallbackOutcome::Delivered(client_id) => {
                    &&& final(registry)@ == received(
                        old(registry)@,
                        identity_of(old(self).handle()),
                    )
                    &&& final(self).consumer() is Some
                    &&& H::reacts(
                        old(self).consumer()->Some_0,
                        client_id,
                        final(self).consumer()->Some_0,
                    )
                },
                _ => final(registry)@ == old(registry)@ && *final(self) == *old(self),
            },
    {
        match &mut self.monitoring_handler {
            None => CallbackOutcome::Unarmed,
            Some(handler) => {
                match registry.receive(calculate_hash(self.context)) {
                    Ok(client_id) => {
                        handler.monitor(client_id);
                        CallbackOutcome::Delivered(client_id)
                    },
                    Err(ReceiveError::Empty) => CallbackOutcome::Empty,
                    Err(ReceiveError::UnknownIdentity) => CallbackOutcome::Unregistered,
                }
            },
        }
    }
}

impl<H: MonitoringHandler> PartialEq for Server<H> {
    /// Two instances are the same exactly when they own the same handle.
    fn eq(&self, other: &Self) -> (same: bool) {
        self.context == other.context
    }
}

impl<H: MonitoringHandler> vstd::std_specs::cmp::PartialEqSpecImpl for Server<H> {
    open spec fn obeys_eq_spec() -> bool {
        true
    }

    open spec fn eq_spec(&self, other: &Self) -> bool {
        self.handle() == other.handle()
    }
}

impl<H: MonitoringHandler> Eq for Server<H> {}

impl<H: MonitoringHandler> Hash for Server<H> {
    /// Feeds the handle to `state`, and nothing else, so that instances
    /// that are equal hash alike.
    fn hash<S: Hasher>(&self, state: &mut S) {
        self.context.hash(state)
    }
}

/// The monitoring hook: posts the notification about `client_id`, raised by
/// the engine instance with handle `context`, to the mailbox of the instance
/// that owns the handle.
///
/// Fails, and changes nothing, exactly when no instance was announced for
/// the handle.
pub fn monitoring_callback(registry: &mut Registry, context: usize, client_id: u16) -> (posted:
    Result<(), DispatchError>)
    ensures
        old(registry)@.contains_key(identity_of(context)) ==> posted == Ok::<(), DispatchError>(
            (),
        ),
        !old(registry)@.contains_key(identity_of(context)) ==> posted == Err::<
            (),
            DispatchError,
        >(DispatchError::UnknownIdentity),
        final(registry)@ == dispatched(old(registry)@, identity_of(context), client_id),
{
    registry.dispatch(calculate_hash(context), client_id)
}

/// The latest registration wins: after two registrations the instance is
/// what it would be after the second alone, with the second consumer as the
/// one that is invoked and with the handle it had.
pub proof fn lemma_latest_handler_wins<H: MonitoringHandler>(server: Server<H>, first: H, second: H)
    ensures
        server.armed_with(first).armed_with(second) == server.armed_with(second),
        server.armed_with(first).armed_with(second).consumer() == Some(second),
        server.armed_with(first).armed_with(second).handle() == server.handle(),
{
}

/// An instance with a consumer, for whose handle one notification is
/// raised while nothing is pending for it, hands exactly that client
/// identifier to its consumer; a second call then finds nothing pending.
pub proof fn lemma_raised_notification_is_delivered(
    m: Map<u64, Seq<u16>>,
    context: usize,
    client_id: u16,
)
    requires
        mailbox(m, identity_of(context)) == Some(Seq::<u16>::empty()),
    ensures
        callback_outcome(
            true,
            dispatched(m, identity_of(context), client_id),
            identity_of(context),
        ) == CallbackOutcome::Delivered(client_id),
        callback_outcome(
            true,
            received(dispatched(m, identity_of(context), client_id), identity_of(context)),
            identity_of(context),
        ) == CallbackOutcome::Empty,
{
    lemma_posted_notification_is_received(m, identity_of(context), client_id);
}

} // verus!
