//! Deferred interpreter invocations and the FIFO queue that holds them until
//! the end of the frame.
use vstd::prelude::*;
use crate::value::{trace_values, values_refs, DisplayObject, SwfSlice, SystemListener, Value};
use std::collections::VecDeque;

verus! {

/// The type of action being run.
#[derive(Clone, Debug)]
pub enum ActionType {
    /// Normal frame or event actions.
    Normal { bytecode: SwfSlice },
    /// One-time initialization code of a definition.
    Init { bytecode: SwfSlice },
    /// An event handler method, e.g. `onEnterFrame`.
    Method { name: &'static str },
    /// A system listener method, called with `args`.
    NotifyListeners { listener: SystemListener, method: &'static str, args: Vec<Value> },
}

/// The arena slots that an action keeps alive: the listener arguments'
/// references, and nothing for the other kinds.
pub open spec fn action_refs(a: ActionType) -> Seq<u64> {
    match a {
        ActionType::NotifyListeners { args, .. } => values_refs(args@),
        _ => Seq::empty(),
    }
}

impl ActionType {
    /// Reports to the collector every arena slot this action refers to.
    pub fn trace(&self, cc: &mut Vec<u64>)
        ensures
            final(cc)@ == old(cc)@ + action_refs(*self),
    {
        match self {
            ActionType::NotifyListeners { args, .. } => trace_values(args, cc),
            _ => {
                assert(old(cc)@ =~= old(cc)@ + action_refs(*self));
            },
        }
    }
}

/// A queued interpreter call.
pub struct QueuedActions {
    /// The movie clip this code runs on.
    pub clip: DisplayObject,
    /// The type of action, along with its bytecode or method data.
    pub action_type: ActionType,
    /// Whether this is an unload action, which still runs if the clip was removed.
    pub is_unload: bool,
}

/// A listener notification whose arguments are the objects `ids` reports
/// exactly those slots, in order; the other kinds of action report none.
pub proof fn lemma_trace_complete(listener: SystemListener, method: &'static str, args: Vec<Value>, ids: Seq<u64>)
    requires
        args@.len() == ids.len(),
        forall|i: int| 0 <= i < ids.len() ==> args@[i] == Value::Object(ids[i]),
    ensures
        action_refs(ActionType::NotifyListeners { listener, method, args }) == ids,
        forall|b: SwfSlice| action_refs(ActionType::Normal { bytecode: b }).len() == 0,
        forall|b: SwfSlice| action_refs(ActionType::Init { bytecode: b }).len() == 0,
        forall|name: &'static str| action_refs(ActionType::Method { name }).len() == 0,
{
    lemma_values_refs_objects(args@, ids);
}

proof fn lemma_values_refs_objects(vs: Seq<Value>, ids: Seq<u64>)
    requires
        vs.len() == ids.len(),
        forall|i: int| 0 <= i < ids.len() ==> vs[i] == Value::Object(ids[i]),
    ensures
        values_refs(vs) == ids,
    decreases vs.len(),
{
    if vs.len() > 0 {
        lemma_values_refs_objects(vs.drop_last(), ids.drop_last());
        assert(ids =~= ids.drop_last() + seq![ids.last()]);
    }
}

/// The arena slots that a queued action keeps alive: its clip, then the
/// references of its action.
pub open spec fn queued_refs(q: QueuedActions) -> Seq<u64> {
    seq![q.clip.id] + action_refs(q.action_type)
}

impl QueuedActions {
    /// Reports to the collector the clip and every slot the action refers to.
    pub fn trace(&self, cc: &mut Vec<u64>)
        ensures
            final(cc)@ == old(cc)@ + queued_refs(*self),
    {
        cc.push(self.clip.id);
        self.action_type.trace(cc);
        assert(cc@ =~= old(cc)@ + queued_refs(*self));
    }
}

/// The arena slots that a sequence of queued actions keeps alive, in order.
pub open spec fn queue_refs(s: Seq<QueuedActions>) -> Seq<u64>
    decreases s.len(),
{
    if s.len() == 0 {
        Seq::empty()
    } else {
        queue_refs(s.drop_last()) + queued_refs(s.last())
    }
}

/// Whether a queued action is to be run once its clip's liveness is known:
/// an action on a removed clip runs only if it is an unload action.
pub open spec fn runs(q: QueuedActions, removed: Seq<DisplayObject>) -> bool {
    q.is_unload || !removed.contains(q.clip)
}

/// The actions of `s` that a drain runs, in queue order, when the clips in
/// `removed` are no longer on the display list.
pub open spec fn runnable(s: Seq<QueuedActions>, removed: Seq<DisplayObject>) -> Seq<QueuedActions>
    decreases s.len(),
{
    if s.len() == 0 {
        Seq::empty()
    } else if runs(s[0], removed) {
        seq![s[0]] + runnable(s.drop_first(), removed)
    } else {
        runnable(s.drop_first(), removed)
    }
}

impl QueuedActions {
    /// Decides whether this action runs, given whether its clip has been
    /// removed from the display list since it was queued.
    pub fn should_run(&self, clip_removed: bool) -> (r: bool)
        ensures
            r == (self.is_unload || !clip_removed),
    {
        self.is_unload || !clip_removed
    }
}

/// Whether `clip` is among the removed clips.
pub fn is_removed(removed: &Vec<DisplayObject>, clip: DisplayObject) -> (r: bool)
    ensures
        r == removed@.contains(clip),
{
    let mut i: usize = 0;
    while i < removed.len()
        invariant
            i <= removed@.len(),
            forall|j: int| 0 <= j < i ==> removed@[j] != clip,
        decreases removed@.len() - i,
    {
        if removed[i] == clip {
            assert(removed@[i as int] == clip);
            return true;
        }
        i = i + 1;
    }
    false
}

/// The queue after `items` are queued, in order, behind `q`.
pub open spec fn queue_all(q: Seq<QueuedActions>, items: Seq<QueuedActions>) -> Seq<QueuedActions>
    decreases items.len(),
{
    if items.len() == 0 {
        q
    } else {
        queue_all(q, items.drop_last()).push(items.last())
    }
}

/// What `n` pops of a queue that holds `q` return, in order.
pub open spec fn pop_n(q: Seq<QueuedActions>, n: nat) -> Seq<QueuedActions>
    decreases n,
{
    if n == 0 || q.len() == 0 {
        Seq::empty()
    } else {
        seq![q[0]] + pop_n(q.drop_first(), (n - 1) as nat)
    }
}

proof fn lemma_queue_all(q: Seq<QueuedActions>, items: Seq<QueuedActions>)
    ensures
        queue_all(q, items) == q + items,
    decreases items.len(),
{
    if items.len() > 0 {
        lemma_queue_all(q, items.drop_last());
        assert(q + items =~= (q + items.drop_last()).push(items.last()));
    }
}

proof fn lemma_pop_n_all(q: Seq<QueuedActions>)
    ensures
        pop_n(q, q.len()) == q,
    decreases q.len(),
{
    if q.len() > 0 {
        lemma_pop_n_all(q.drop_first());
        assert(q =~= seq![q[0]] + q.drop_first());
    }
}

/// First in, first out: queueing any actions on an empty queue and then
/// popping as many times returns them in the order they were queued.
pub proof fn lemma_fifo(items: Seq<QueuedActions>)
    ensures
        pop_n(queue_all(Seq::empty(), items), items.len()) == items,
{
    lemma_queue_all(Seq::empty(), items);
    assert(Seq::<QueuedActions>::empty() + items =~= items);
    lemma_pop_n_all(items);
}

/// An action queued behind `s` runs after the actions of `s` that run,
/// and only if its clip is still on the display list or it is an unload
/// action.
pub proof fn lemma_runnable_push(s: Seq<QueuedActions>, a: QueuedActions, removed: Seq<DisplayObject>)
    ensures
        runnable(s.push(a), removed) == if runs(a, removed) {
            runnable(s, removed).push(a)
        } else {
            runnable(s, removed)
        },
    decreases s.len(),
{
    if s.len() == 0 {
        assert(s.push(a).drop_first() =~= Seq::<QueuedActions>::empty());
        assert(s.push(a)[0] == a);
        assert(runnable(Seq::<QueuedActions>::empty(), removed) == Seq::<QueuedActions>::empty());
        assert(seq![a] + Seq::<QueuedActions>::empty() =~= seq![a]);
        assert(Seq::<QueuedActions>::empty().push(a) =~= seq![a]);
    } else {
        assert(s.push(a).drop_first() =~= s.drop_first().push(a));
        assert(s.push(a)[0] == s[0]);
        lemma_runnable_push(s.drop_first(), a, removed);
        if runs(a, removed) {
            assert(seq![s[0]] + runnable(s.drop_first(), removed).push(a) =~= (seq![s[0]]
                + runnable(s.drop_first(), removed)).push(a));
        }
    }
}

/// An action that is not an unload action, queued for a clip that is then
/// removed from the display list, is skipped by the drain.
pub proof fn lemma_removed_clip_skipped(
    s: Seq<QueuedActions>,
    a: QueuedActions,
    removed: Seq<DisplayObject>,
)
    requires
        !a.is_unload,
        removed.contains(a.clip),
    ensures
        runnable(s.push(a), removed) == runnable(s, removed),
{
    lemma_runnable_push(s, a, removed);
}

/// An unload action still runs, last, when its clip has been removed.
pub proof fn lemma_unload_action_runs(s: Seq<QueuedActions>, a: QueuedActions, removed: Seq<DisplayObject>)
    requires
        a.is_unload,
    ensures
        runnable(s.push(a), removed) == runnable(s, removed).push(a),
{
    lemma_runnable_push(s, a, removed);
}

/// Actions and gotos queued up to execute at the end of the frame, in FIFO
/// order.
pub struct ActionQueue {
    queue: VecDeque<QueuedActions>,
}

impl View for ActionQueue {
    type V = Seq<QueuedActions>;

    closed spec fn view(&self) -> Seq<QueuedActions> {
        self.queue@
    }
}

impl ActionQueue {
    /// The capacity reserved up front, for amortized growth.
    pub const DEFAULT_CAPACITY: usize = 32;

    /// Creates an `ActionQueue` with an empty queue.
    pub fn new() -> (r: Self)
        ensures
            r@ == Seq::<QueuedActions>::empty(),
    {
        ActionQueue { queue: VecDeque::with_capacity(Self::DEFAULT_CAPACITY) }
    }

    /// Queues code to run for the given movie clip, behind everything queued
    /// before it. Unless `is_unload` is set, the code is skipped if the clip is
    /// removed before it runs.
    pub fn queue_actions(&mut self, clip: DisplayObject, action_type: ActionType, is_unload: bool)
        ensures
            final(self)@ == old(self)@.push(QueuedActions { clip, action_type, is_unload }),
    {
        self.queue.push_back(QueuedActions { clip, action_type, is_unload })
    }

    /// Pops the next actions off of the queue: the oldest queued, or `None`
    /// when the queue is empty.
    pub fn pop(&mut self) -> (r: Option<QueuedActions>)
        ensures
            old(self)@.len() == 0 ==> r.is_none() && final(self)@ == old(self)@,
            old(self)@.len() > 0 ==> r == Some(old(self)@[0]) && final(self)@ == old(self)@.drop_first(),
    {
        let r = self.queue.pop_front();
        assert(old(self)@.len() > 0 ==> old(self)@.subrange(1, old(self)@.len() as int) =~= old(self)@.drop_first());
        r
    }

    /// The number of queued actions.
    pub fn len(&self) -> (r: usize)
        ensures
            r == self@.len(),
    {
        self.queue.len()
    }

    /// Whether nothing is queued.
    pub fn is_empty(&self) -> (r: bool)
        ensures
            r == (self@.len() == 0),
    {
        self.queue.len() == 0
    }

    /// Reports to the collector every slot kept alive by the queued actions:
    /// each one's clip and arguments, in queue order.
    pub fn trace(&self, cc: &mut Vec<u64>)
        ensures
            final(cc)@ == old(cc)@ + queue_refs(self@),
    {
        let mut i: usize = 0;
        while i < self.queue.len()
            invariant
                i <= self@.len(),
                self@ == self.queue@,
                cc@ == old(cc)@ + queue_refs(self@.subrange(0, i as int)),
            decreases self@.len() - i,
        {
            self.queue[i].trace(cc);
            proof {
                let next = self@.subrange(0, i + 1);
                assert(next.drop_last() =~= self@.subrange(0, i as int));
                assert(next.last() == self@[i as int]);
                assert(cc@ =~= old(cc)@ + queue_refs(next));
            }
            i = i + 1;
        }
        assert(self@.subrange(0, self@.len() as int) =~= self@);
    }

    /// Pops actions until one is found that runs, given the clips that are
    /// no longer on the display list; the actions skipped on the way are
    /// dropped. `None` once the queue is empty.
    pub fn pop_runnable(&mut self, removed: &Vec<DisplayObject>) -> (r: Option<QueuedActions>)
        ensures
            runnable(old(self)@, removed@) == match r {
                Some(q) => seq![q] + runnable(final(self)@, removed@),
                None => Seq::empty(),
            },
            r is None ==> final(self)@.len() == 0,
            r matches Some(q) ==> runs(q, removed@),
            final(self)@.len() <= old(self)@.len(),
            r is Some ==> final(self)@.len() < old(self)@.len(),
            final(self)@ =~= old(self)@.subrange(old(self)@.len() - final(self)@.len(), old(self)@.len() as int),
    {
        loop
            invariant
                runnable(old(self)@, removed@) == runnable(self@, removed@),
                self@.len() <= old(self)@.len(),
                self@ =~= old(self)@.subrange(old(self)@.len() - self@.len(), old(self)@.len() as int),
            decreases self@.len(),
        {
            match self.pop() {
                None => {
                    return None;
                },
                Some(q) => {
                    let gone = is_removed(removed, q.clip);
                    if q.should_run(gone) {
                        return Some(q);
                    }
                },
            }
        }
    }

    /// Runs the drain protocol against a fixed set of removed clips: empties
    /// the queue and returns, in queue order, the actions that are to run.
    pub fn drain(&mut self, removed: &Vec<DisplayObject>) -> (r: Vec<QueuedActions>)
        ensures
            r@ == runnable(old(self)@, removed@),
            final(self)@.len() == 0,
    {
        let mut out: Vec<QueuedActions> = Vec::new();
        loop
            invariant
                out@ + runnable(self@, removed@) == runnable(old(self)@, removed@),
            decreases self@.len(),
        {
            let ghost rest = runnable(self@, removed@);
            match self.pop_runnable(removed) {
                None => {
                    assert(out@ =~= out@ + runnable(self@, removed@));
                    return out;
                },
                Some(q) => {
                    let ghost prev = out@;
                    out.push(q);
                    assert(out@ + runnable(self@, removed@) =~= prev + rest);
                },
            }
        }
    }
}

impl Default for ActionQueue {
    fn default() -> (r: Self)
        ensures
            r@ == Seq::<QueuedActions>::empty(),
    {
        Self::new()
    }
}

} // verus!
