//! Notification registry: one mailbox per instance identity.
//!
//! The hook that the engine calls knows only the identity of the instance it
//! speaks for. It posts the notification to that identity's mailbox, and the
//! thread that owns the instance drains the mailbox in arrival order. The
//! registry is modelled as a map from identity to the sequence of pending
//! client identifiers, oldest first.

use std::collections::HashMap;
use std::collections::VecDeque;
use vstd::prelude::*;

verus! {

/// Why a notification could not be posted.
#[derive(Clone, Copy, Debug, PartialEq, Eq, Structural)]
pub enum DispatchError {
    /// No instance is registered under the identity: the engine reported for
    /// a handle that was never announced.
    UnknownIdentity,
}

/// Why no notification could be taken from a mailbox.
#[derive(Clone, Copy, Debug, PartialEq, Eq, Structural)]
pub enum ReceiveError {
    /// No instance is registered under the identity.
    UnknownIdentity,
    /// The mailbox exists and nothing is pending in it.
    Empty,
}

/// The registry after an instance announced itself under `identity`: the
/// identity owns a fresh, empty mailbox, whatever it owned before.
pub open spec fn registered(m: Map<u64, Seq<u16>>, identity: u64) -> Map<u64, Seq<u16>> {
    m.insert(identity, Seq::empty())
}

/// The registry after `client_id` was posted for `identity`: the identifier
/// joins the end of that mailbox; a registry that does not know the identity
/// is left as it was.
pub open spec fn dispatched(m: Map<u64, Seq<u16>>, identity: u64, client_id: u16) -> Map<
    u64,
    Seq<u16>,
> {
    if m.contains_key(identity) {
        m.insert(identity, m[identity].push(client_id))
    } else {
        m
    }
}

/// The notification that the owner of `identity` receives next, if any.
pub open spec fn next_notification(m: Map<u64, Seq<u16>>, identity: u64) -> Option<u16> {
    if m.contains_key(identity) && m[identity].len() > 0 {
        Some(m[identity][0])
    } else {
        None
    }
}

/// The registry after the owner of `identity` took its next notification:
/// the oldest entry of that mailbox is gone; where nothing was pending the
/// registry is left as it was.
pub open spec fn received(m: Map<u64, Seq<u16>>, identity: u64) -> Map<u64, Seq<u16>> {
    if m.contains_key(identity) && m[identity].len() > 0 {
        m.insert(identity, m[identity].drop_first())
    } else {
        m
    }
}

/// One step in the life of a registry.
pub enum RegistryOp {
    /// An instance announces itself under the identity.
    Register(u64),
    /// The client identifier is posted for the identity.
    Dispatch(u64, u16),
    /// The owner of the identity takes its next notification.
    Receive(u64),
}

impl RegistryOp {
    /// The identity that the step is about.
    pub open spec fn identity(self) -> u64 {
        match self {
            RegistryOp::Register(identity) => identity,
            RegistryOp::Dispatch(identity, _) => identity,
            RegistryOp::Receive(identity) => identity,
        }
    }
}

/// The registry after the step `op`.
pub open spec fn applied(m: Map<u64, Seq<u16>>, op: RegistryOp) -> Map<u64, Seq<u16>> {
    match op {
        RegistryOp::Register(identity) => registered(m, identity),
        RegistryOp::Dispatch(identity, client_id) => dispatched(m, identity, client_id),
        RegistryOp::Receive(identity) => received(m, identity),
    }
}

/// The registry after the steps `history`, taken one after the other.
pub open spec fn applied_all(m: Map<u64, Seq<u16>>, history: Seq<RegistryOp>) -> Map<
    u64,
    Seq<u16>,
>
    decreases history.len(),
{
    if history.len() == 0 {
        m
    } else {
        applied(applied_all(m, history.drop_last()), history.last())
    }
}

/// The steps of `history` that are about `identity`, in their order.
pub open spec fn own_steps(history: Seq<RegistryOp>, identity: u64) -> Seq<RegistryOp>
    decreases history.len(),
{
    if history.len() == 0 {
        Seq::empty()
    } else if history.last().identity() == identity {
        own_steps(history.drop_last(), identity).push(history.last())
    } else {
        own_steps(history.drop_last(), identity)
    }
}

/// The steps that post the client identifiers `client_ids` for `identity`,
/// one after the other.
pub open spec fn posts(identity: u64, client_ids: Seq<u16>) -> Seq<RegistryOp> {
    Seq::new(client_ids.len(), |i: int| RegistryOp::Dispatch(identity, client_ids[i]))
}

/// What the registry holds for `identity`: its pending notifications, or
/// nothing if no instance is registered under it.
pub open spec fn mailbox(m: Map<u64, Seq<u16>>, identity: u64) -> Option<Seq<u16>> {
    if m.contains_key(identity) {
        Some(m[identity])
    } else {
        None
    }
}

/// The process-wide table of mailboxes, keyed by instance identity.
pub struct Registry {
    mailboxes: HashMap<u64, VecDeque<u16>>,
}

impl View for Registry {
    type V = Map<u64, Seq<u16>>;

    closed spec fn view(&self) -> Map<u64, Seq<u16>> {
        self.mailboxes@.map_values(|q: VecDeque<u16>| q@)
    }
}

impl Registry {
    /// A registry that knows no instance.
    pub fn new() -> (registry: Registry)
        ensures
            registry@ == Map::<u64, Seq<u16>>::empty(),
    {
        let registry = Registry { mailboxes: HashMap::new() };
        assert(registry@ =~= Map::<u64, Seq<u16>>::empty());
        registry
    }

    /// Announces an instance: `identity` gets an empty mailbox. An earlier
    /// mailbox under the same identity is replaced, together with whatever
    /// was pending in it.
    pub fn register(&mut self, identity: u64)
        ensures
            final(self)@ == registered(old(self)@, identity),
    {
        let mailbox: VecDeque<u16> = VecDeque::new();
        self.mailboxes.insert(identity, mailbox);
        assert(self@ =~= registered(old(self)@, identity));
    }

    /// Whether an instance is registered under `identity`.
    pub fn is_registered(&self, identity: u64) -> (known: bool)
        ensures
            known <==> self@.contains_key(identity),
    {
        self.mailboxes.contains_key(&identity)
    }

    /// Posts `client_id` to the mailbox of `identity`.
    ///
    /// Fails, and changes nothing, exactly when no instance is registered
    /// under `identity`. Posting never waits.
    pub fn dispatch(&mut self, identity: u64, client_id: u16) -> (posted: Result<(), DispatchError>)
        ensures
            old(self)@.contains_key(identity) ==> posted == Ok::<(), DispatchError>(()),
            !old(self)@.contains_key(identity) ==> posted == Err::<(), DispatchError>(
                DispatchError::UnknownIdentity,
            ),
            final(self)@ == dispatched(old(self)@, identity, client_id),
    {
        match self.mailboxes.remove(&identity) {
            Some(mailbox) => {
                let mut mailbox = mailbox;
                mailbox.push_back(client_id);
                self.mailboxes.insert(identity, mailbox);
                assert(self@ =~= dispatched(old(self)@, identity, client_id));
                Ok(())
            },
            None => {
                assert(self@ =~= old(self)@);
                Err(DispatchError::UnknownIdentity)
            },
        }
    }

    /// Takes the oldest pending notification of `identity`.
    ///
    /// Returns it exactly when one is pending; otherwise says whether the
    /// mailbox is empty or missing, and changes nothing.
    pub fn receive(&mut self, identity: u64) -> (taken: Result<u16, ReceiveError>)
        ensures
            match taken {
                Ok(client_id) => next_notification(old(self)@, identity) == Some(client_id),
                Err(ReceiveError::Empty) => old(self)@.contains_key(identity) && old(
                    self,
                )@[identity].len() == 0,
                Err(ReceiveError::UnknownIdentity) => !old(self)@.contains_key(identity),
            },
            final(self)@ == received(old(self)@, identity),
    {
        match self.mailboxes.remove(&identity) {
            Some(mailbox) => {
                let mut mailbox = mailbox;
                let oldest = mailbox.pop_front();
                self.mailboxes.insert(identity, mailbox);
                assert(self@ =~= received(old(self)@, identity));
                match oldest {
                    Some(client_id) => Ok(client_id),
                    None => Err(ReceiveError::Empty),
                }
            },
            None => {
                assert(self@ =~= old(self)@);
                Err(ReceiveError::UnknownIdentity)
            },
        }
    }
}

/// A notification that is posted for an instance for which nothing is
/// pending, such as one that has just announced itself, is the next one that
/// the instance receives, and nothing is pending once it has taken it.
pub proof fn lemma_posted_notification_is_received(
    m: Map<u64, Seq<u16>>,
    identity: u64,
    client_id: u16,
)
    requires
        mailbox(m, identity) == Some(Seq::<u16>::empty()),
    ensures
        mailbox(registered(m, identity), identity) == Some(Seq::<u16>::empty()),
        next_notification(dispatched(m, identity, client_id), identity) == Some(client_id),
        received(dispatched(m, identity, client_id), identity) == m,
{
    assert(m[identity].push(client_id).drop_first() =~= m[identity]);
    assert(received(dispatched(m, identity, client_id), identity) =~= m);
}

/// Instances do not interfere: announcing an instance, posting to it or
/// taking from its mailbox leaves every other identity as it was, registered
/// or not, with the same notifications pending in the same order.
pub proof fn lemma_other_mailboxes_are_untouched(
    m: Map<u64, Seq<u16>>,
    identity: u64,
    client_id: u16,
    other: u64,
)
    requires
        other != identity,
    ensures
        registered(m, identity).contains_key(other) == m.contains_key(other),
        dispatched(m, identity, client_id).contains_key(other) == m.contains_key(other),
        received(m, identity).contains_key(other) == m.contains_key(other),
        m.contains_key(other) ==> {
            &&& registered(m, identity)[other] == m[other]
            &&& dispatched(m, identity, client_id)[other] == m[other]
            &&& received(m, identity)[other] == m[other]
        },
        next_notification(registered(m, identity), other) == next_notification(m, other),
        next_notification(dispatched(m, identity, client_id), other) == next_notification(
            m,
            other,
        ),
        next_notification(received(m, identity), other) == next_notification(m, other),
{
}

/// Once announced, always known: no step takes an identity out of the
/// registry, so a notification that is raised for an instance after it has
/// announced itself is never refused.
pub proof fn lemma_registered_identities_stay_registered(
    m: Map<u64, Seq<u16>>,
    history: Seq<RegistryOp>,
    identity: u64,
)
    requires
        m.contains_key(identity),
    ensures
        applied_all(m, history).contains_key(identity),
    decreases history.len(),
{
    if history.len() > 0 {
        lemma_registered_identities_stay_registered(m, history.drop_last(), identity);
    }
}

/// Instances do not interfere, however their steps are interleaved: what
/// the registry holds for an identity after a history is what it would hold
/// if only the steps about that identity had been taken.
pub proof fn lemma_instances_do_not_interfere(
    m: Map<u64, Seq<u16>>,
    history: Seq<RegistryOp>,
    identity: u64,
)
    ensures
        mailbox(applied_all(m, history), identity) == mailbox(
            applied_all(m, own_steps(history, identity)),
            identity,
        ),
    decreases history.len(),
{
    if history.len() > 0 {
        let earlier = history.drop_last();
        let op = history.last();
        lemma_instances_do_not_interfere(m, earlier, identity);
        if op.identity() == identity {
            let own = own_steps(earlier, identity);
            assert(own.push(op).drop_last() =~= own);
            assert(own.push(op).last() == op);
        }
    }
}

/// No cross-delivery: an instance that announced itself and for which one
/// notification was posted afterwards receives exactly that notification,
/// whatever other instances announced, posted or took in the meantime; and
/// nothing is pending for it once it has taken it.
pub proof fn lemma_no_cross_delivery(
    m: Map<u64, Seq<u16>>,
    history: Seq<RegistryOp>,
    identity: u64,
    client_id: u16,
)
    requires
        own_steps(history, identity) == seq![
            RegistryOp::Register(identity),
            RegistryOp::Dispatch(identity, client_id),
        ],
    ensures
        next_notification(applied_all(m, history), identity) == Some(client_id),
        mailbox(received(applied_all(m, history), identity), identity) == Some(
            Seq::<u16>::empty(),
        ),
{
    let own = own_steps(history, identity);
    lemma_instances_do_not_interfere(m, history, identity);
    assert(own.drop_last() =~= seq![RegistryOp::Register(identity)]);
    assert(own.drop_last().drop_last() =~= Seq::<RegistryOp>::empty());
    assert(applied_all(m, own.drop_last().drop_last()) == m);
    assert(applied_all(m, own.drop_last()) == registered(m, identity));
    assert(applied_all(m, own) == dispatched(registered(m, identity), identity, client_id));
    assert(applied_all(m, own)[identity] =~= seq![client_id]);
    assert(seq![client_id].drop_first() =~= Seq::<u16>::empty());
}

/// Per-instance order: an instance that announced itself and for which the
/// client identifiers `client_ids` were posted afterwards, one after the
/// other, has exactly these pending, oldest first, whatever other instances
/// did in the meantime.
pub proof fn lemma_notifications_keep_their_order(
    m: Map<u64, Seq<u16>>,
    history: Seq<RegistryOp>,
    identity: u64,
    client_ids: Seq<u16>,
)
    requires
        own_steps(history, identity) == seq![RegistryOp::Register(identity)] + posts(
            identity,
            client_ids,
        ),
    ensures
        mailbox(applied_all(m, history), identity) == Some(client_ids),
{
    lemma_instances_do_not_interfere(m, history, identity);
    lemma_posts_fill_the_mailbox(m, identity, client_ids);
}

/// Announcing an instance and posting `client_ids` for it leaves exactly
/// `client_ids` pending for it.
proof fn lemma_posts_fill_the_mailbox(m: Map<u64, Seq<u16>>, identity: u64, client_ids: Seq<u16>)
    ensures
        mailbox(
            applied_all(m, seq![RegistryOp::Register(identity)] + posts(identity, client_ids)),
            identity,
        ) == Some(client_ids),
    decreases client_ids.len(),
{
    let announce = seq![RegistryOp::Register(identity)];
    let steps = announce + posts(identity, client_ids);
    if client_ids.len() == 0 {
        assert(steps.drop_last() =~= Seq::<RegistryOp>::empty());
        assert(applied_all(m, steps.drop_last()) == m);
        assert(applied_all(m, steps)[identity] =~= client_ids);
    } else {
        let earlier = client_ids.drop_last();
        lemma_posts_fill_the_mailbox(m, identity, earlier);
        assert(steps.drop_last() =~= announce + posts(identity, earlier));
        assert(steps.last() == RegistryOp::Dispatch(identity, client_ids.last()));
        assert(earlier.push(client_ids.last()) =~= client_ids);
    }
}

} // verus!
