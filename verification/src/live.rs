use crate::assoc::{
    assoc_map, distinct_names, lemma_assoc_len, lemma_assoc_names, lemma_assoc_remove,
    lemma_assoc_update,
};
use crate::text::{owned, same_text};
use futures::stream::{AbortHandle, AbortRegistration, Abortable, Aborted};
use vstd::prelude::*;

verus! {

/// The handle of the futures crate that cancels what an `Abortable` wraps.
#[verifier::external_type_specification]
#[verifier::external_body]
pub struct ExAbortHandle(AbortHandle);

/// The other half of an `AbortHandle`, which an `Abortable` is made with.
#[verifier::external_type_specification]
#[verifier::external_body]
pub struct ExAbortRegistration(AbortRegistration);

/// A stream or future of the futures crate that ends once its handle is used.
#[verifier::external_type_specification]
#[verifier::external_body]
#[verifier::reject_recursive_types(T)]
pub struct ExAbortable<T>(Abortable<T>);

/// What an `Abortable` future of the futures crate yields when it was ended.
/// The library makes no value of it: the type is declared because Verus
/// reads the crate's impl of `Future` for `Abortable`, which names it, and
/// takes `Abortable` only with it.
#[verifier::external_type_specification]
#[verifier::external_body]
pub struct ExAborted(Aborted);

/// `AbortHandle::new_pair` makes a handle and the registration that goes with
/// it. Nothing is claimed of either.
pub assume_specification[ AbortHandle::new_pair ]() -> (pair: (AbortHandle, AbortRegistration));

/// `Abortable::new` wraps a stream so that the handle of the registration can
/// end it. Nothing is claimed of the result.
pub assume_specification<T>[ Abortable::<T>::new ](task: T, reg: AbortRegistration) -> (wrapped:
    Abortable<T>);

/// `AbortHandle::abort` signals the wrapped stream to end. It changes shared
/// state only, so nothing is claimed here.
pub assume_specification[ AbortHandle::abort ](handle: &AbortHandle);

/// Where an active subscription stands.
#[derive(Clone, Copy, Debug, PartialEq, Eq, Structural)]
pub enum LiveState {
    /// Registered; its stream waits to be watched.
    Registered,
    /// A watcher has taken the stream and pumps it.
    Watched,
}

/// One live subscription: the stream of change notifications, until a
/// watcher takes it, and the switch that cancels it.
#[verifier::reject_recursive_types(S)]
pub struct LiveQuery<S> {
    stream: Option<Abortable<S>>,
    abort: AbortHandle,
    cancelled: bool,
    source: Ghost<S>,
}

impl<S> LiveQuery<S> {
    /// Whether the stream is still held here, not yet taken by a watcher.
    pub closed spec fn has_stream(&self) -> bool {
        self.stream is Some
    }

    /// Whether the subscription's switch has been used.
    pub closed spec fn is_cancelled(&self) -> bool {
        self.cancelled
    }

    /// The stream that the subscription was made for.
    pub closed spec fn source(&self) -> S {
        self.source@
    }

    /// Where the subscription stands: registered while it holds its stream,
    /// watched once a watcher has taken it.
    pub open spec fn state(&self) -> LiveState {
        if self.has_stream() {
            LiveState::Registered
        } else {
            LiveState::Watched
        }
    }

    /// Wraps a stream of notifications with a fresh cancellation switch.
    pub fn new(stream: S) -> (query: Self)
        ensures
            query.source() == stream,
            query.has_stream(),
            !query.is_cancelled(),
    {
        let source = Ghost(stream);
        let (handle, registration) = AbortHandle::new_pair();
        let wrapped = Abortable::new(stream, registration);
        LiveQuery { stream: Some(wrapped), abort: handle, cancelled: false, source }
    }

    /// Uses the switch: the stream, wherever it is by now, is told to end.
    pub fn cancel(&mut self)
        ensures
            final(self).is_cancelled(),
            final(self).has_stream() == old(self).has_stream(),
            final(self).source() == old(self).source(),
    {
        self.abort.abort();
        self.cancelled = true;
    }

    /// Hands the stream to a watcher; `None` where one has taken it before.
    pub fn take_stream(&mut self) -> (stream: Option<Abortable<S>>)
        ensures
            stream is Some == old(self).has_stream(),
            !final(self).has_stream(),
            final(self).is_cancelled() == old(self).is_cancelled(),
            final(self).source() == old(self).source(),
    {
        self.stream.take()
    }

    /// Whether the subscription's switch has been used.
    pub fn cancelled(&self) -> (used: bool)
        ensures
            used == self.is_cancelled(),
    {
        self.cancelled
    }
}

/// What a watcher holds of the subscription it pumps: the stream, and the
/// number under which the subscription was registered.
#[verifier::reject_recursive_types(S)]
pub struct Watch<S> {
    pub stream: Abortable<S>,
    token: u64,
    source: Ghost<S>,
}

impl<S> Watch<S> {
    /// The number of the subscription that the stream was taken from.
    pub closed spec fn number(&self) -> u64 {
        self.token
    }

    /// The stream that the subscription was made for.
    pub closed spec fn source(&self) -> S {
        self.source@
    }

    /// The number to name when the stream has ended.
    pub fn token(&self) -> (token: u64)
        ensures
            token == self.number(),
    {
        self.token
    }
}

/// One entry of the registry: a subscription under its identifier, with the
/// number it was registered under.
#[verifier::reject_recursive_types(S)]
pub struct LiveEntry<S> {
    id: String,
    token: u64,
    query: LiveQuery<S>,
}

/// What the registry holds under an identifier.
pub struct LiveModel<S> {
    /// Where the subscription stands.
    pub state: LiveState,
    /// The number it was registered under.
    pub token: u64,
    /// The stream it was made for.
    pub source: S,
}

/// The number after `minted`: one more, but never past the largest.
pub open spec fn next_number(minted: u64) -> u64 {
    if minted < u64::MAX {
        (minted + 1) as u64
    } else {
        minted
    }
}

/// The registry after a pump has ended: the subscription under `id` is
/// taken out where it is the one that the pump took, which its number
/// tells; a subscription that has replaced it stays.
pub open spec fn after_end<S>(live: Map<Seq<char>, LiveModel<S>>, id: Seq<char>, token: u64) -> Map<
    Seq<char>,
    LiveModel<S>,
> {
    if live.contains_key(id) && live[id].token == token {
        live.remove(id)
    } else {
        live
    }
}

/// A subscription that replaces another under an identifier outlives the
/// pump of the one it replaced: the pump's number was given out earlier, so
/// the end of its stream takes nothing out.
pub proof fn lemma_replacement_outlives_pump<S>(
    live: Map<Seq<char>, LiveModel<S>>,
    id: Seq<char>,
    pump: u64,
    minted: u64,
    stream: S,
)
    requires
        pump < minted,
    ensures
        ({
            let replaced = live.insert(
                id,
                LiveModel { state: LiveState::Registered, token: minted, source: stream },
            );
            after_end(replaced, id, pump) == replaced
        }),
{
}

/// The live subscriptions that are active, each under the identifier that
/// its caller chose. No identifier has two. Every registration gets the
/// next number, by which a pump knows its subscription from a later one
/// under the same identifier; the numbers only repeat once the largest has
/// been given out. The entries are kept as a list whose identifiers are
/// distinct, and stand for a map from identifier to subscription.
#[verifier::reject_recursive_types(S)]
pub struct LiveRegistry<S> {
    entries: Vec<LiveEntry<S>>,
    minted: u64,
}

impl<S> LiveRegistry<S> {
    /// The identifiers of the entries and what stands under each, in the
    /// order held.
    pub closed spec fn pairs(&self) -> Seq<(Seq<char>, LiveModel<S>)> {
        self.entries@.map_values(
            |e: LiveEntry<S>|
                (
                    e.id@,
                    LiveModel { state: e.query.state(), token: e.token, source: e.query.source() },
                ),
        )
    }

    /// The number that the next registration gets.
    pub closed spec fn minted(&self) -> u64 {
        self.minted
    }

    /// No identifier occurs twice; no entry has been cancelled, since a
    /// cancelled subscription leaves the registry in the same step; and
    /// every number in use was given out before the next one.
    pub closed spec fn wf(&self) -> bool {
        &&& distinct_names(self.pairs())
        &&& forall|i: int| 0 <= i < self.entries.len() ==> !self.entries[i].query.is_cancelled()
        &&& forall|i: int|
            0 <= i < self.entries.len() ==> self.entries[i].token < self.minted || self.minted
                == u64::MAX
    }

    /// In a registry that is well formed every number in use is below the
    /// next one, until the numbers run out.
    pub proof fn lemma_numbers_in_use(&self, id: Seq<char>)
        requires
            self.wf(),
            self@.contains_key(id),
        ensures
            self@[id].token < self.minted() || self.minted() == u64::MAX,
    {
        let pairs = self.pairs();
        lemma_assoc_names(pairs, id);
        let i = choose|i: int| 0 <= i < pairs.len() && pairs[i].0 == id;
        crate::assoc::lemma_assoc_entry(pairs, i);
    }

    /// A registry without subscriptions.
    pub fn new() -> (registry: Self)
        ensures
            registry.wf(),
            registry.minted() == 0,
            registry@ == Map::<Seq<char>, LiveModel<S>>::empty(),
    {
        let registry = LiveRegistry { entries: Vec::new(), minted: 0 };
        assert(registry.pairs() =~= Seq::empty());
        registry
    }

    /// The place of the entry under `id`, if there is one.
    fn position(&self, id: &str) -> (found: Option<usize>)
        ensures
            match found {
                Some(i) => i < self.entries.len() && self.pairs()[i as int].0 == id@,
                None => forall|k: int| 0 <= k < self.pairs().len() ==> self.pairs()[k].0 != id@,
            },
    {
        let mut i: usize = 0;
        while i < self.entries.len()
            invariant
                i <= self.entries.len(),
                self.pairs().len() == self.entries.len(),
                forall|k: int| 0 <= k < i ==> self.pairs()[k].0 != id@,
            decreases self.entries.len() - i,
        {
            if same_text(self.entries[i].id.as_str(), id) {
                return Some(i);
            }
            i += 1;
        }
        None
    }

    /// Takes the entry at a place out.
    fn take_at(&mut self, at: usize) -> (taken: LiveQuery<S>)
        requires
            old(self).wf(),
            at < old(self).pairs().len(),
        ensures
            final(self).wf(),
            final(self).minted() == old(self).minted(),
            final(self)@ == old(self)@.remove(old(self).pairs()[at as int].0),
            old(self)@.contains_key(old(self).pairs()[at as int].0),
            !taken.is_cancelled(),
            taken.state() == old(self).pairs()[at as int].1.state,
            taken.source() == old(self).pairs()[at as int].1.source,
    {
        let ghost before = self.pairs();
        let entry = self.entries.remove(at);
        proof {
            assert(self.pairs() =~= before.remove(at as int));
            lemma_assoc_remove(before, at as int);
            crate::assoc::lemma_assoc_entry(before, at as int);
        }
        entry.query
    }

    /// Installs `stream` as the subscription under `id`, with the next
    /// number. A subscription that was active under that identifier is
    /// cancelled and taken out first and comes back to the caller, so that
    /// exactly one is active under `id` afterwards: the new one.
    pub fn register(&mut self, id: String, stream: S) -> (evicted: Option<LiveQuery<S>>)
        requires
            old(self).wf(),
        ensures
            final(self).wf(),
            final(self).minted() == next_number(old(self).minted()),
            final(self)@ == old(self)@.insert(
                id@,
                LiveModel {
                    state: LiveState::Registered,
                    token: old(self).minted(),
                    source: stream,
                },
            ),
            evicted is Some == old(self)@.contains_key(id@),
            evicted is Some ==> evicted->0.is_cancelled() && evicted->0.source() == old(
                self,
            )@[id@].source,
    {
        let evicted = self.cancel(id.as_str());
        let ghost between = self.pairs();
        proof {
            lemma_assoc_names(between, id@);
        }
        let query = LiveQuery::new(stream);
        let token = self.minted;
        if self.minted < u64::MAX {
            self.minted = self.minted + 1;
        }
        self.entries.push(LiveEntry { id, token, query });
        proof {
            let made = LiveModel { state: LiveState::Registered, token, source: stream };
            let after = self.pairs();
            assert(after =~= between.push((id@, made)));
            assert(after.drop_last() =~= between);
            assert(self@ =~= old(self)@.insert(id@, made));
        }
        evicted
    }

    /// Cancels the subscription under `id` and takes it out; without effect
    /// where none is active there.
    pub fn cancel(&mut self, id: &str) -> (cancelled: Option<LiveQuery<S>>)
        requires
            old(self).wf(),
        ensures
            final(self).wf(),
            final(self).minted() == old(self).minted(),
            final(self)@ == old(self)@.remove(id@),
            cancelled is Some == old(self)@.contains_key(id@),
            cancelled is Some ==> cancelled->0.is_cancelled() && cancelled->0.source() == old(
                self,
            )@[id@].source,
    {
        proof {
            lemma_assoc_names(self.pairs(), id@);
        }
        match self.position(id) {
            Some(i) => {
                proof {
                    crate::assoc::lemma_assoc_entry(self.pairs(), i as int);
                }
                let mut query = self.take_at(i);
                query.cancel();
                Some(query)
            },
            None => {
                assert(self@ =~= old(self)@.remove(id@));
                None
            },
        }
    }

    /// Hands the stream under `id` to a watcher, who pumps it from then on,
    /// together with the number of the subscription. `None`, with nothing
    /// changed, where no subscription is active under `id` or a watcher has
    /// its stream already.
    pub fn begin_watch(&mut self, id: &str) -> (watch: Option<Watch<S>>)
        requires
            old(self).wf(),
        ensures
            final(self).wf(),
            final(self).minted() == old(self).minted(),
            watch is Some == (old(self)@.contains_key(id@) && old(self)@[id@].state
                == LiveState::Registered),
            watch is Some ==> {
                &&& final(self)@ == old(self)@.insert(
                    id@,
                    LiveModel { state: LiveState::Watched, ..old(self)@[id@] },
                )
                &&& watch->0.number() == old(self)@[id@].token
                &&& watch->0.source() == old(self)@[id@].source
                &&& watch->0.number() < old(self).minted() || old(self).minted() == u64::MAX
            },
            watch is None ==> final(self)@ == old(self)@,
    {
        let ghost before = self.pairs();
        proof {
            lemma_assoc_names(before, id@);
        }
        match self.position(id) {
            Some(i) => {
                proof {
                    crate::assoc::lemma_assoc_entry(before, i as int);
                }
                let mut entry = self.entries.remove(i);
                let token = entry.token;
                let source = Ghost(entry.query.source());
                let stream = entry.query.take_stream();
                self.entries.insert(i, entry);
                proof {
                    let after = self.pairs();
                    if stream is Some {
                        let watched = LiveModel { state: LiveState::Watched, ..before[i as int].1 };
                        assert(after =~= before.update(i as int, (before[i as int].0, watched)));
                        lemma_assoc_update(before, i as int, watched);
                    } else {
                        assert(after =~= before);
                    }
                    assert(forall|k: int|
                        0 <= k < after.len() ==> #[trigger] after[k].0 == before[k].0);
                }
                match stream {
                    Some(stream) => Some(Watch { stream, token, source }),
                    None => None,
                }
            },
            None => None,
        }
    }

    /// Takes out the subscription that a pump took, once its stream has
    /// ended, without using its switch. The pump names the number it was
    /// given: where another subscription stands under `id` by now, or none,
    /// nothing changes.
    pub fn end_watch(&mut self, id: &str, token: u64) -> (ended: Option<LiveQuery<S>>)
        requires
            old(self).wf(),
        ensures
            final(self).wf(),
            final(self).minted() == old(self).minted(),
            final(self)@ == after_end(old(self)@, id@, token),
            ended is Some == (old(self)@.contains_key(id@) && old(self)@[id@].token == token),
            ended is Some ==> !ended->0.is_cancelled() && ended->0.source() == old(
                self,
            )@[id@].source,
    {
        proof {
            lemma_assoc_names(self.pairs(), id@);
        }
        match self.position(id) {
            Some(i) => {
                proof {
                    crate::assoc::lemma_assoc_entry(self.pairs(), i as int);
                }
                if self.entries[i].token == token {
                    Some(self.take_at(i))
                } else {
                    None
                }
            },
            None => None,
        }
    }

    /// Whether a subscription is active under `id`.
    pub fn is_active(&self, id: &str) -> (active: bool)
        requires
            self.wf(),
        ensures
            active == self@.contains_key(id@),
    {
        proof {
            lemma_assoc_names(self.pairs(), id@);
        }
        self.position(id).is_some()
    }

    /// The number of active subscriptions.
    pub fn active_count(&self) -> (count: usize)
        requires
            self.wf(),
        ensures
            self@.dom().finite(),
            count == self@.dom().len(),
    {
        proof {
            lemma_assoc_len(self.pairs());
        }
        self.entries.len()
    }
}

impl<S> View for LiveRegistry<S> {
    type V = Map<Seq<char>, LiveModel<S>>;

    /// The active subscriptions by identifier.
    closed spec fn view(&self) -> Map<Seq<char>, LiveModel<S>> {
        assoc_map(self.pairs())
    }
}

/// What a change notification reports of a record.
#[derive(Clone, Copy, Debug, PartialEq, Eq, Structural)]
pub enum Action {
    Create,
    Update,
    Delete,
}

/// The name under which an action is delivered.
pub open spec fn action_name(action: Action) -> Seq<char> {
    match action {
        Action::Create => "create"@,
        Action::Update => "update"@,
        Action::Delete => "delete"@,
    }
}

/// A change notification as the stream yields it: the server's identifier of
/// the live query, what happened, and the record as JSON text.
pub struct Notification {
    pub query_id: String,
    pub action: Action,
    pub data: String,
}

/// A change notification as it is delivered to the watcher's callback.
pub struct LiveMessage {
    pub query_id: String,
    pub action: String,
    pub data: String,
}

/// Translates a notification for delivery: the identifier and the data pass
/// through unchanged, the action goes by its name.
pub fn translate(notification: Notification) -> (message: LiveMessage)
    ensures
        message.query_id@ == notification.query_id@,
        message.action@ == action_name(notification.action),
        message.data@ == notification.data@,
{
    let action = match notification.action {
        Action::Create => owned("create"),
        Action::Update => owned("update"),
        Action::Delete => owned("delete"),
    };
    LiveMessage { query_id: notification.query_id, action, data: notification.data }
}

/// What the stream of a watched subscription did.
pub enum WatchEvent {
    /// It yielded a notification.
    Notified(Notification),
    /// It ended: the server closed it, or its switch was used.
    Ended,
}

/// What the pump of a watched subscription is to do.
pub enum WatchStep {
    /// Deliver the message, then wait for the next event.
    Deliver(LiveMessage),
    /// Stop pumping.
    Finish,
}

/// One turn of a watcher's pump, which names the identifier and the number
/// of the subscription it took. A notification is translated and handed out
/// for delivery, with the registry untouched. The end of the stream stops
/// the pump and takes its subscription out of the registry; a subscription
/// that has replaced it under the identifier is left alone.
pub fn on_watch_event<S>(
    registry: &mut LiveRegistry<S>,
    id: &str,
    token: u64,
    event: WatchEvent,
) -> (step: WatchStep)
    requires
        old(registry).wf(),
    ensures
        final(registry).wf(),
        final(registry).minted() == old(registry).minted(),
        match event {
            WatchEvent::Notified(n) => {
                &&& final(registry)@ == old(registry)@
                &&& step is Deliver
                &&& step->Deliver_0.query_id@ == n.query_id@
                &&& step->Deliver_0.action@ == action_name(n.action)
                &&& step->Deliver_0.data@ == n.data@
            },
            WatchEvent::Ended => step is Finish && final(registry)@ == after_end(
                old(registry)@,
                id@,
                token,
            ),
        },
{
    match event {
        WatchEvent::Notified(notification) => WatchStep::Deliver(translate(notification)),
        WatchEvent::Ended => {
            let _ = registry.end_watch(id, token);
            WatchStep::Finish
        },
    }
}

} // verus!
