use vstd::prelude::*;

verus! {

/// A write of one serialized update into the store's document-update log,
/// keyed by the workspace it belongs to.
#[derive(Debug)]
pub struct UpdateWrite {
    pub workspace_id: String,
    pub update: Vec<u8>,
}

/// A write as plain values: (workspace id, update).
pub type WriteView = (Seq<char>, Seq<u8>);

impl View for UpdateWrite {
    type V = WriteView;

    open spec fn view(&self) -> WriteView {
        (self.workspace_id@, self.update@)
    }
}

/// The state of a mutation observer.
pub struct ObserverView {
    /// The workspace under whose id updates are persisted.
    pub workspace_id: Seq<char>,
    /// Whether the subscription is still held by its workspace.
    pub attached: bool,
}

/// What can happen to a mutation observer.
pub enum ObserverEvent {
    /// The document changed locally; the event carries the serialized update.
    Mutation(Seq<u8>),
    /// Persisting an update failed with the given cause.
    WriteFailed(Seq<char>),
    /// The workspace released its subscription.
    Released,
}

/// One step of an observer: its next state, and the write it asks for.
pub open spec fn observer_step(m: ObserverView, e: ObserverEvent) -> (ObserverView, Option<WriteView>) {
    match e {
        ObserverEvent::Mutation(update) => (
            m,
            if m.attached {
                Some((m.workspace_id, update))
            } else {
                None
            },
        ),
        ObserverEvent::WriteFailed(_) => (m, None),
        ObserverEvent::Released => (ObserverView { attached: false, ..m }, None),
    }
}

pub open spec fn option_seq<T>(o: Option<T>) -> Seq<T> {
    match o {
        Some(x) => seq![x],
        None => Seq::empty(),
    }
}

/// An observer run over a sequence of events: its final state, and the
/// writes it asked for, in order.
pub open spec fn observer_run(m: ObserverView, events: Seq<ObserverEvent>) -> (
    ObserverView,
    Seq<WriteView>,
)
    decreases events.len(),
{
    if events.len() == 0 {
        (m, Seq::empty())
    } else {
        let (before, writes) = observer_run(m, events.drop_last());
        let (after, w) = observer_step(before, events.last());
        (after, writes + option_seq(w))
    }
}

pub open spec fn write_view(w: Option<UpdateWrite>) -> Option<WriteView> {
    match w {
        Some(x) => Some(x@),
        None => None,
    }
}

/// The line logged when persisting an update fails.
pub open spec fn write_failure_message(cause: Seq<char>) -> Seq<char> {
    "Failed to write update to storage: "@ + cause
}

/// The standing subscription of a synced workspace that persists each local
/// mutation under the workspace's id.
pub struct MutationObserver {
    workspace_id: String,
    attached: bool,
}

impl View for MutationObserver {
    type V = ObserverView;

    closed spec fn view(&self) -> ObserverView {
        ObserverView { workspace_id: self.workspace_id@, attached: self.attached }
    }
}

impl MutationObserver {
    /// An observer attached to the document of `workspace_id`.
    pub fn attach(workspace_id: String) -> (r: MutationObserver)
        ensures
            r@ == (ObserverView { workspace_id: workspace_id@, attached: true }),
    {
        MutationObserver { workspace_id, attached: true }
    }

    /// The id under which this observer persists updates.
    pub fn workspace_id(&self) -> (r: &String)
        ensures
            r@ == self@.workspace_id,
    {
        &self.workspace_id
    }

    /// Whether the subscription is still held.
    pub fn is_attached(&self) -> (r: bool)
        ensures
            r == self@.attached,
    {
        self.attached
    }

    /// A local mutation happened: the write to make, if the subscription is
    /// still held.
    pub fn on_mutation(&self, update: Vec<u8>) -> (r: Option<UpdateWrite>)
        ensures
            observer_step(self@, ObserverEvent::Mutation(update@)) == (self@, write_view(r)),
    {
        if self.attached {
            Some(UpdateWrite { workspace_id: self.workspace_id.clone(), update })
        } else {
            None
        }
    }

    /// The outcome of a write: a failure is reported in the returned log line
    /// and goes no further; the observer stays as it was.
    pub fn on_write_result(&self, outcome: Result<(), String>) -> (r: Option<String>)
        ensures
            outcome is Ok ==> r is None,
            outcome is Err ==> r is Some && r->Some_0@ == write_failure_message(outcome->Err_0@),
    {
        match outcome {
            Ok(()) => None,
            Err(cause) => {
                let mut line = String::from_str("Failed to write update to storage: ");
                line.append(cause.as_str());
                Some(line)
            },
        }
    }

    /// The workspace gave up its subscription: no later mutation is persisted.
    pub fn release(&mut self)
        ensures
            final(self)@ == observer_step(old(self)@, ObserverEvent::Released).0,
    {
        self.attached = false;
    }
}

/// A document whose sync session was established, with the observer that
/// persists its local mutations. Only a successful sync produces one.
pub struct SyncedWorkspace<D> {
    pub doc: D,
    pub observer: MutationObserver,
}

pub open spec fn mutations(updates: Seq<Seq<u8>>) -> Seq<ObserverEvent> {
    updates.map_values(|u: Seq<u8>| ObserverEvent::Mutation(u))
}

/// On an attached observer, N local mutations give exactly N writes, in the
/// order of the mutations, each under the workspace's id with the mutation's
/// update; the observer stays attached.
pub proof fn lemma_each_mutation_written_in_order(m: ObserverView, updates: Seq<Seq<u8>>)
    requires
        m.attached,
    ensures
        observer_run(m, mutations(updates)).0 == m,
        observer_run(m, mutations(updates)).1.len() == updates.len(),
        forall|i: int|
            0 <= i < updates.len() ==> #[trigger] observer_run(m, mutations(updates)).1[i] == (
            m.workspace_id,
            updates[i],
        ),
    decreases updates.len(),
{
    if updates.len() > 0 {
        let rest = updates.drop_last();
        assert(mutations(updates).drop_last() =~= mutations(rest));
        lemma_each_mutation_written_in_order(m, rest);
    }
}

/// A failed write leaves the observer as it was: the next mutation is written
/// all the same.
pub proof fn lemma_failed_write_keeps_observing(
    m: ObserverView,
    cause: Seq<char>,
    update: Seq<u8>,
)
    requires
        m.attached,
    ensures
        observer_run(m, seq![ObserverEvent::WriteFailed(cause), ObserverEvent::Mutation(update)])
            == (m, seq![(m.workspace_id, update)]),
{
    let first = seq![ObserverEvent::WriteFailed(cause)];
    let evs = first.push(ObserverEvent::Mutation(update));
    assert(first.drop_last() =~= Seq::<ObserverEvent>::empty());
    assert(observer_run(m, Seq::<ObserverEvent>::empty()) == (m, Seq::<WriteView>::empty()));
    assert(Seq::<WriteView>::empty() + option_seq::<WriteView>(None) =~= Seq::empty());
    assert(observer_run(m, first) == (m, Seq::<WriteView>::empty()));
    assert(evs.drop_last() =~= first);
    assert(Seq::<WriteView>::empty() + seq![(m.workspace_id, update)] =~= seq![
        (m.workspace_id, update),
    ]);
    assert(evs =~= seq![ObserverEvent::WriteFailed(cause), ObserverEvent::Mutation(update)]);
}

/// Once released, an observer asks for no write, whatever happens after.
pub proof fn lemma_released_observer_writes_nothing(m: ObserverView, events: Seq<ObserverEvent>)
    ensures
        observer_run(observer_step(m, ObserverEvent::Released).0, events).1 == Seq::<
            WriteView,
        >::empty(),
        !observer_run(observer_step(m, ObserverEvent::Released).0, events).0.attached,
    decreases events.len(),
{
    if events.len() > 0 {
        lemma_released_observer_writes_nothing(m, events.drop_last());
        let r = observer_run(observer_step(m, ObserverEvent::Released).0, events.drop_last());
        assert(r.1 + option_seq(observer_step(r.0, events.last()).1) =~= Seq::<WriteView>::empty());
    }
}

} // verus!
