//! The asynchronous, deduplicated resource cache: a name-keyed manager
//! whose slots walk a one-way `Loading -> Using` (or `Failed`) state
//! machine, and a lazily-resolving handle type.
//!
//! The manager itself is single-owner: all of its maps and slots are
//! mutated only through `&mut self`.  Construction work for a slot is
//! represented by a [`LoadTask`] that the embedder runs wherever it
//! pleases (typically a background thread); the result comes back
//! through a one-shot channel owned by that slot alone, so concurrency
//! is scoped to one channel per slot, never to the manager as a whole.

use vstd::prelude::*;

use std::sync::mpsc::Receiver;
use std::sync::mpsc::Sender;

verus! {

/// A resource that can perform a second-phase setup once loaded.
pub trait ResourceT {
    fn init(&mut self);
}

/// A per-type factory: build a value from a resource name, then run its
/// second initialization phase.  Each resource kind supplies its own
/// implementation; the cache only ever goes through this interface.
pub trait Create: Sized {
    fn create(name: &str) -> Self;

    fn inittt(&mut self);
}

/// Opt-in duplication for handle instances: types that cannot be
/// duplicated (GPU-side objects, for example) answer `None`.
pub trait Clonable: Sized {
    fn make_clone(&self) -> Option<Self>;
}

#[verifier::external_type_specification]
#[verifier::external_body]
#[verifier::reject_recursive_types(T)]
pub struct ExSender<T>(Sender<T>);

#[verifier::external_type_specification]
#[verifier::external_body]
#[verifier::reject_recursive_types(T)]
pub struct ExReceiver<T>(Receiver<T>);

/// Outcome of one non-blocking poll of a slot's channel.
enum Delivery<T> {
    /// Nothing has arrived yet; the producer may still be working.
    Pending,
    /// The produced value.
    Delivered(T),
    /// The producer is gone and nothing will ever arrive.
    Closed,
}

/// Relies on std::sync::mpsc::channel: returns a connected
/// sender/receiver pair for the one-shot handoff of a slot's value.
#[verifier::external_body]
fn channel_new<T>() -> (r: (Sender<T>, Receiver<T>)) {
    std::sync::mpsc::channel()
}

/// Relies on std::sync::mpsc::Sender::send: delivers the value to the
/// receiving end unless the receiver has been dropped.  The sender is
/// consumed, so each task sends at most once.
#[verifier::external_body]
fn channel_send<T>(tx: Sender<T>, value: T) {
    let _ = tx.send(value);
}

/// Relies on std::sync::mpsc::Receiver::try_recv, which never blocks:
/// it reports a delivered value, "nothing yet", or a closed channel.
#[verifier::external_body]
fn channel_try_recv<T>(rx: &Receiver<T>) -> (r: Delivery<T>) {
    match rx.try_recv() {
        Ok(value) => Delivery::Delivered(value),
        Err(std::sync::mpsc::TryRecvError::Empty) => Delivery::Pending,
        Err(std::sync::mpsc::TryRecvError::Disconnected) => Delivery::Closed,
    }
}

/// Relies on std::sync::mpsc::Receiver::recv: blocks the calling thread
/// until a value arrives (`Some`) or every sender is gone (`None`).
#[verifier::external_body]
fn channel_recv<T>(rx: &Receiver<T>) -> (r: Option<T>) {
    rx.recv().ok()
}

/// The load state of one cache slot.  A slot starts `Loading`, holding
/// the receiving end of its one-shot channel, and moves exactly once to
/// `Using` (the value arrived) or `Failed` (the producer went away
/// without sending); it never moves back.
#[verifier::reject_recursive_types(T)]
pub enum State<T> {
    Loading(Receiver<T>),
    Using(T),
    Failed,
}

/// The one-way slot state machine: `Using` and `Failed` are absorbing,
/// and a slot never returns to `Loading`.  This is the monotonicity
/// guarantee every cache operation preserves.
pub open spec fn slot_monotone<T>(before: State<T>, after: State<T>) -> bool {
    &&& before is Using ==> after is Using
    &&& before is Failed ==> after is Failed
    &&& after is Loading ==> before is Loading
}

/// A monotone step that also leaves a present value untouched: what
/// finalization alone does, when no caller holds the value mutably.
pub open spec fn slot_steps<T>(before: State<T>, after: State<T>) -> bool {
    &&& slot_monotone(before, after)
    &&& before is Using ==> after == before
}

impl<T> State<T> {
    fn is_loading(&self) -> (r: bool)
        ensures
            r == (self is Loading),
    {
        match self {
            State::Loading(_) => true,
            _ => false,
        }
    }

    /// Non-blocking finalization: if the slot is `Loading` and its value
    /// has arrived, install it; if its producer is gone, record the
    /// failure; otherwise leave the slot alone.  Never blocks.
    fn finalize(&mut self)
        ensures
            slot_steps(*old(self), *final(self)),
    {
        let polled = match &*self {
            State::Loading(rx) => Some(channel_try_recv(rx)),
            _ => None,
        };
        match polled {
            Some(Delivery::Delivered(value)) => {
                *self = State::Using(value);
            }
            Some(Delivery::Closed) => {
                *self = State::Failed;
            }
            _ => {}
        }
    }

    /// Blocking finalization: wait for the producer, then install its
    /// value or record the failure.  Afterwards the slot is never
    /// `Loading`.
    fn finalize_with_wait(&mut self)
        ensures
            slot_steps(*old(self), *final(self)),
            !(*final(self) is Loading),
    {
        let polled = match &*self {
            State::Loading(rx) => Some(channel_recv(rx)),
            _ => None,
        };
        match polled {
            Some(Some(value)) => {
                *self = State::Using(value);
            }
            Some(None) => {
                *self = State::Failed;
            }
            None => {}
        }
    }
}

/// How many of the given slots are still `Loading`.
pub open spec fn loading_total<T>(s: Seq<State<T>>) -> nat
    decreases s.len(),
{
    if s.len() == 0 {
        0
    } else {
        loading_total(s.drop_last()) + (if s.last() is Loading {
            1nat
        } else {
            0nat
        })
    }
}

proof fn lemma_loading_total_le_len<T>(s: Seq<State<T>>)
    ensures
        loading_total(s) <= s.len(),
    decreases s.len(),
{
    if s.len() > 0 {
        lemma_loading_total_le_len(s.drop_last());
    }
}

proof fn lemma_loading_total_push<T>(s: Seq<State<T>>, v: State<T>)
    ensures
        loading_total(s.push(v)) == loading_total(s) + (if v is Loading {
            1nat
        } else {
            0nat
        }),
{
    assert(s.push(v).drop_last() =~= s);
    assert(s.push(v).last() == v);
}

proof fn lemma_loading_total_update<T>(s: Seq<State<T>>, i: int, v: State<T>)
    requires
        0 <= i < s.len(),
    ensures
        loading_total(s.update(i, v)) + (if s[i] is Loading {
            1nat
        } else {
            0nat
        }) == loading_total(s) + (if v is Loading {
            1nat
        } else {
            0nat
        }),
    decreases s.len(),
{
    let t = s.update(i, v);
    if i == s.len() - 1 {
        assert(t.drop_last() =~= s.drop_last());
        assert(t.last() == v);
        assert(s.last() == s[i]);
    } else {
        assert(t.drop_last() =~= s.drop_last().update(i, v));
        assert(t.last() == s.last());
        lemma_loading_total_update(s.drop_last(), i, v);
    }
}

proof fn lemma_loading_total_pos<T>(s: Seq<State<T>>, i: int)
    requires
        0 <= i < s.len(),
        s[i] is Loading,
    ensures
        loading_total(s) >= 1,
    decreases s.len(),
{
    if i == s.len() - 1 {
        assert(s.last() == s[i]);
    } else {
        assert(s.drop_last()[i] == s[i]);
        lemma_loading_total_pos(s.drop_last(), i);
    }
}

/// Replacing a slot by one with the same `Loading`-ness keeps the count.
proof fn lemma_loading_update_keeps<T>(s: Seq<State<T>>, i: int)
    requires
        0 <= i < s.len(),
    ensures
        forall|v: State<T>|
            ((v is Loading) == (s[i] is Loading)) ==> loading_total(#[trigger] s.update(i, v))
                == loading_total(s),
{
    assert forall|v: State<T>| ((v is Loading) == (s[i] is Loading)) implies loading_total(
        s.update(i, v),
    ) == loading_total(s) by {
        lemma_loading_total_update(s, i, v);
    }
}

/// With distinct names, any position holding `n` is the index of `n`.
pub proof fn lemma_name_index_unique(names: Seq<Seq<char>>, n: Seq<char>, i: int)
    requires
        distinct_names(names),
        0 <= i < names.len(),
        names[i] == n,
    ensures
        name_index(names, n) == i,
{
    assert(contains_name(names, n));
    let j = name_index(names, n);
    if i < j {
        assert(names[i] != names[j]);
    } else if j < i {
        assert(names[j] != names[i]);
    }
}

/// Law: the outstanding-load count is zero exactly when no slot is
/// still `Loading`.
pub proof fn lemma_counter_zero<T>(s: Seq<State<T>>)
    ensures
        loading_total(s) == 0 <==> (forall|i: int| 0 <= i < s.len() ==> !(s[i] is Loading)),
    decreases s.len(),
{
    if s.len() > 0 {
        lemma_counter_zero(s.drop_last());
        assert(s.last() == s[s.len() - 1]);
        assert(forall|i: int| 0 <= i < s.len() - 1 ==> s.drop_last()[i] == s[i]);
    }
}

/// The construction work for one newly requested slot: build the value
/// for `name`, initialize it, and send it down the slot's channel.  The
/// embedder decides where this runs; the manager never blocks on it.
#[verifier::reject_recursive_types(T)]
pub struct LoadTask<T> {
    name: String,
    index: usize,
    tx: Sender<T>,
}

impl<T: Create> LoadTask<T> {
    /// The resource name the work is for.
    pub closed spec fn name_spec(&self) -> Seq<char> {
        self.name@
    }

    /// The slot index whose channel receives the result.
    pub closed spec fn index_spec(&self) -> usize {
        self.index
    }

    pub fn name(&self) -> (r: &String)
        ensures
            r@ == self.name_spec(),
    {
        &self.name
    }

    pub fn index(&self) -> (r: usize)
        ensures
            r == self.index_spec(),
    {
        self.index
    }

    /// Perform the construction and publish the result into the slot's
    /// channel.  Runs `Create::create` and `Create::inittt` on the
    /// calling thread; all its effects flow through the channel.
    pub fn run(self) {
        let mut value = T::create(self.name.as_str());
        value.inittt();
        channel_send(self.tx, value);
    }
}

/// The typed outcome of a blocking resolution whose background
/// construction failed (its producer went away without a value).
#[derive(Clone, Copy, PartialEq, Eq, Structural, Debug)]
pub struct LoadError;

/// Whether `n` is one of the mapped names.
pub open spec fn contains_name(names: Seq<Seq<char>>, n: Seq<char>) -> bool {
    exists|i: int| 0 <= i < names.len() && names[i] == n
}

/// No name is mapped twice: the single-flight/dedup invariant of the map.
pub open spec fn distinct_names(names: Seq<Seq<char>>) -> bool {
    forall|i: int, j: int| 0 <= i < j < names.len() ==> names[i] != names[j]
}

/// The slot index of a mapped name (meaningful when `contains_name` and
/// the names are distinct).
pub open spec fn name_index(names: Seq<Seq<char>>, n: Seq<char>) -> int {
    choose|i: int| 0 <= i < names.len() && names[i] == n
}

/// What a request does to the name map: nothing if the name is mapped,
/// else the name is appended and gets the next index.
pub open spec fn names_after_request(names: Seq<Seq<char>>, n: Seq<char>) -> Seq<Seq<char>> {
    if contains_name(names, n) {
        names
    } else {
        names.push(n)
    }
}

/// The name map only ever grows, and existing entries never move:
/// what makes slot indices stable for the manager's whole lifetime.
pub open spec fn names_extend(before: Seq<Seq<char>>, after: Seq<Seq<char>>) -> bool {
    before.len() <= after.len() && forall|i: int| 0 <= i < before.len() ==> after[i] == before[i]
}

/// Every slot has taken zero or more legal steps, and slots are only
/// ever appended: indices stay valid and states move one way only.
pub open spec fn slots_evolve<T>(before: Seq<State<T>>, after: Seq<State<T>>) -> bool {
    &&& before.len() <= after.len()
    &&& forall|i: int| 0 <= i < before.len() ==> slot_monotone(before[i], #[trigger] after[i])
}

/// The name-keyed, single-flight resource cache.  `names[i]` is the name
/// of slot `i` and `loaded[i]` its load state; `pending` holds the
/// construction tasks that the embedder has not yet collected, and
/// `loading` counts the slots still `Loading`.
#[verifier::reject_recursive_types(T)]
pub struct ResourceManager<T> {
    names: Vec<String>,
    loaded: Vec<State<T>>,
    pending: Vec<LoadTask<T>>,
    loading: usize,
}

impl<T: Create> ResourceManager<T> {
    /// The name map, as specifications see it: the name of slot `i`.
    pub closed spec fn names_view(&self) -> Seq<Seq<char>> {
        self.names@.map_values(|s: String| s@)
    }

    /// The slot states, as specifications see them.
    pub closed spec fn slots(&self) -> Seq<State<T>> {
        self.loaded@
    }

    /// The construction tasks not yet handed to the embedder.
    pub closed spec fn pending_view(&self) -> Seq<LoadTask<T>> {
        self.pending@
    }

    pub open spec fn slot_count(&self) -> nat {
        self.slots().len()
    }

    pub open spec fn has_name(&self, n: Seq<char>) -> bool {
        contains_name(self.names_view(), n)
    }

    /// The manager's invariant: names and slots line up one to one,
    /// names are distinct, the counter matches the `Loading` slots, and
    /// every pending task belongs to a slot and carries its name.
    pub closed spec fn wf(&self) -> bool {
        &&& self.names@.len() == self.loaded@.len()
        &&& distinct_names(self.names_view())
        &&& self.loading == loading_total(self.loaded@)
        &&& forall|k: int|
            0 <= k < self.pending@.len() ==> (#[trigger] self.pending@[k]).index_spec()
                < self.loaded@.len() && self.pending@[k].name_spec() == self.names_view()[self.pending@[k].index_spec() as int]
    }

    pub fn new() -> (r: ResourceManager<T>)
        ensures
            r.wf(),
            r.names_view() =~= Seq::<Seq<char>>::empty(),
            r.slots() =~= Seq::<State<T>>::empty(),
            r.pending_view() =~= Seq::<LoadTask<T>>::empty(),
    {
        let r = ResourceManager {
            names: Vec::new(),
            loaded: Vec::new(),
            pending: Vec::new(),
            loading: 0,
        };
        proof {
            assert(r.names_view() =~= Seq::<Seq<char>>::empty());
        }
        r
    }

    /// How many requested resources are still being constructed: the
    /// outstanding-load counter the frame loop reads to decide whether
    /// the world is fully loaded.
    pub fn loading_count(&self) -> (r: usize)
        requires
            self.wf(),
        ensures
            r == loading_total(self.slots()),
    {
        self.loading
    }

    /// Look a name up in the map.
    fn find_index(&self, name: &str) -> (r: Option<usize>)
        requires
            self.wf(),
        ensures
            match r {
                Some(i) => i < self.names_view().len() && self.names_view()[i as int] == name@,
                None => !self.has_name(name@),
            },
    {
        let key: String = name.to_owned();
        let n = self.names.len();
        let mut i: usize = 0;
        while i < n
            invariant
                n == self.names@.len(),
                i <= n,
                key@ == name@,
                forall|j: int| 0 <= j < i ==> self.names_view()[j] != name@,
            decreases n - i,
        {
            if self.names[i] == key {
                return Some(i);
            }
            i += 1;
        }
        None
    }

    /// Map a fresh name to the next slot, in state `Loading`, and queue
    /// its construction task for the embedder.
    fn load(&mut self, name: &str) -> (i: usize)
        requires
            old(self).wf(),
            !old(self).has_name(name@),
        ensures
            final(self).wf(),
            i == old(self).slot_count(),
            final(self).names_view() =~= old(self).names_view().push(name@),
            final(self).slots().len() == old(self).slots().len() + 1,
            final(self).slots()[i as int] is Loading,
            forall|j: int| 0 <= j < i ==> final(self).slots()[j] == old(self).slots()[j],
            final(self).pending_view().len() == old(self).pending_view().len() + 1,
            final(self).pending_view().last().name_spec() == name@,
            final(self).pending_view().last().index_spec() == i,
            forall|k: int|
                0 <= k < old(self).pending_view().len() ==> final(self).pending_view()[k] == old(self).pending_view()[k],
            loading_total(final(self).slots()) == loading_total(old(self).slots()) + 1,
    {
        let i = self.loaded.len();
        let (tx, rx) = channel_new::<T>();
        self.names.push(name.to_owned());
        self.loaded.push(State::Loading(rx));
        self.pending.push(LoadTask { name: name.to_owned(), index: i, tx });
        let grown_len = self.loaded.len();
        proof {
            lemma_loading_total_push(old(self).loaded@, self.loaded@.last());
            lemma_loading_total_le_len(old(self).loaded@);
            assert(grown_len == i + 1);
            assert(self.loading <= i);
        }
        self.loading = self.loading + 1;
        proof {
            assert(self.names_view() =~= old(self).names_view().push(name@));
            assert forall|a: int, b: int|
                0 <= a < b < self.names_view().len() implies self.names_view()[a]
                != self.names_view()[b] by {
                if b < i {
                    assert(old(self).names_view()[a] != old(self).names_view()[b]);
                } else {
                    assert(self.names_view()[b] == name@);
                    assert(!contains_name(old(self).names_view(), name@));
                    assert(old(self).names_view()[a] == self.names_view()[a]);
                }
            }
        }
        i
    }

    /// Non-blocking poll of slot `index`, keeping the counter in step.
    fn poll_slot(&mut self, index: usize)
        requires
            old(self).wf(),
            index < old(self).slot_count(),
        ensures
            final(self).wf(),
            final(self).names_view() == old(self).names_view(),
            final(self).pending_view() == old(self).pending_view(),
            final(self).slots().len() == old(self).slots().len(),
            slot_steps(old(self).slots()[index as int], final(self).slots()[index as int]),
            forall|j: int|
                0 <= j < old(self).slots().len() && j != index ==> final(self).slots()[j] == old(self).slots()[j],
    {
        let was_loading = self.loaded[index].is_loading();
        let slot = &mut self.loaded[index];
        slot.finalize();
        let now_loading = self.loaded[index].is_loading();
        proof {
            lemma_loading_total_update(
                old(self).loaded@,
                index as int,
                self.loaded@[index as int],
            );
            assert(self.loaded@ =~= old(self).loaded@.update(index as int, self.loaded@[index as int]));
        }
        if was_loading && !now_loading {
            self.loading = self.loading - 1;
        }
    }

    /// Remove and return the not-yet-collected construction task for
    /// slot `index`, if there is one.
    fn take_pending(&mut self, index: usize) -> (r: Option<LoadTask<T>>)
        requires
            old(self).wf(),
        ensures
            final(self).wf(),
            final(self).names_view() == old(self).names_view(),
            final(self).slots() == old(self).slots(),
            final(self).pending_view().len() <= old(self).pending_view().len(),
            match r {
                Some(t) => t.index_spec() == index,
                None => final(self).pending_view() == old(self).pending_view(),
            },
    {
        let n = self.pending.len();
        let mut k: usize = 0;
        while k < n
            invariant
                self == old(self),
                self.wf(),
                n == self.pending@.len(),
                k <= n,
            decreases n - k,
        {
            if self.pending[k].index == index {
                let t = self.pending.remove(k);
                proof {
                    let p0 = old(self).pending@;
                    p0.remove_ensures(k as int);
                    assert forall|m: int|
                        0 <= m < self.pending@.len() implies (#[trigger] self.pending@[m]).index_spec()
                        < self.loaded@.len() && self.pending@[m].name_spec() == self.names_view()[self.pending@[m].index_spec() as int] by {
                        if m < k {
                            assert(self.pending@[m] == p0[m]);
                        } else {
                            assert(self.pending@[m] == p0[m + 1]);
                        }
                    }
                }
                return Some(t);
            }
            k += 1;
        }
        None
    }

    /// Hand every queued construction task to the embedder, which runs
    /// each of them wherever it pleases (typically one thread per task).
    pub fn take_tasks(&mut self) -> (r: Vec<LoadTask<T>>)
        requires
            old(self).wf(),
        ensures
            final(self).wf(),
            final(self).names_view() == old(self).names_view(),
            final(self).slots() == old(self).slots(),
            final(self).pending_view() =~= Seq::<LoadTask<T>>::empty(),
            r@ == old(self).pending_view(),
    {
        let mut out: Vec<LoadTask<T>> = Vec::new();
        core::mem::swap(&mut out, &mut self.pending);
        out
    }

    /// Map a fresh name to the next slot, already `Using` the given value.
    fn insert_ready(&mut self, name: &str, value: T) -> (i: usize)
        requires
            old(self).wf(),
            !old(self).has_name(name@),
        ensures
            final(self).wf(),
            i == old(self).slot_count(),
            final(self).names_view() =~= old(self).names_view().push(name@),
            final(self).slots().len() == old(self).slots().len() + 1,
            final(self).slots()[i as int] == State::<T>::Using(value),
            forall|j: int| 0 <= j < i ==> final(self).slots()[j] == old(self).slots()[j],
            final(self).pending_view() == old(self).pending_view(),
            loading_total(final(self).slots()) == loading_total(old(self).slots()),
    {
        let i = self.loaded.len();
        self.names.push(name.to_owned());
        self.loaded.push(State::Using(value));
        proof {
            lemma_loading_total_push(old(self).loaded@, self.loaded@.last());
            assert(self.names_view() =~= old(self).names_view().push(name@));
            assert forall|a: int, b: int|
                0 <= a < b < self.names_view().len() implies self.names_view()[a]
                != self.names_view()[b] by {
                if b < i {
                    assert(old(self).names_view()[a] != old(self).names_view()[b]);
                } else {
                    assert(self.names_view()[b] == name@);
                    assert(!contains_name(old(self).names_view(), name@));
                    assert(old(self).names_view()[a] == self.names_view()[a]);
                }
            }
        }
        i
    }

    /// Blocking finalization of slot `index`: run its construction task
    /// here if the embedder never collected it, then wait for the
    /// channel.  Afterwards the slot is `Using` or `Failed`.
    fn wait_slot(&mut self, index: usize)
        requires
            old(self).wf(),
            index < old(self).slot_count(),
        ensures
            final(self).wf(),
            final(self).names_view() == old(self).names_view(),
            final(self).slots().len() == old(self).slots().len(),
            slot_steps(old(self).slots()[index as int], final(self).slots()[index as int]),
            !(final(self).slots()[index as int] is Loading),
            final(self).pending_view().len() <= old(self).pending_view().len(),
            forall|j: int|
                0 <= j < old(self).slots().len() && j != index ==> final(self).slots()[j] == old(self).slots()[j],
    {
        if self.loaded[index].is_loading() {
            let task = self.take_pending(index);
            match task {
                Some(t) => t.run(),
                None => {}
            }
            let ghost mid = *self;
            proof {
                lemma_loading_total_pos(mid.loaded@, index as int);
            }
            let slot = &mut self.loaded[index];
            slot.finalize_with_wait();
            proof {
                lemma_loading_total_update(
                    mid.loaded@,
                    index as int,
                    self.loaded@[index as int],
                );
            }
            self.loading = self.loading - 1;
        }
    }

    /// Non-blocking resolution of a slot: `Some` exactly when the slot
    /// is (or just became) `Using`.  Never blocks.
    pub(crate) fn get_mut(&mut self, index: usize) -> (r: Option<&mut T>)
        requires
            old(self).wf(),
            index < old(self).slot_count(),
        ensures
            final(self).wf(),
            final(self).names_view() == old(self).names_view(),
            final(self).pending_view() == old(self).pending_view(),
            final(self).slots().len() == old(self).slots().len(),
            slot_monotone(old(self).slots()[index as int], final(self).slots()[index as int]),
            forall|j: int|
                0 <= j < old(self).slots().len() && j != index ==> final(self).slots()[j] == old(self).slots()[j],
            match r {
                Some(v) => final(self).slots()[index as int] == State::<T>::Using(*final(v)) && (
                old(self).slots()[index as int] matches State::Using(u) ==> *v == u),
                None => !(final(self).slots()[index as int] is Using),
            },
    {
        self.poll_slot(index);
        let ghost mid = *self;
        proof {
            lemma_loading_update_keeps(mid.loaded@, index as int);
        }
        let slot = &mut self.loaded[index];
        match slot {
            State::Using(u) => Some(u),
            _ => None,
        }
    }

    /// Non-blocking resolution, shared-reference variant.
    pub(crate) fn get_ref(&mut self, index: usize) -> (r: Option<&T>)
        requires
            old(self).wf(),
            index < old(self).slot_count(),
        ensures
            final(self).wf(),
            final(self).names_view() == old(self).names_view(),
            final(self).pending_view() == old(self).pending_view(),
            final(self).slots().len() == old(self).slots().len(),
            slot_steps(old(self).slots()[index as int], final(self).slots()[index as int]),
            forall|j: int|
                0 <= j < old(self).slots().len() && j != index ==> final(self).slots()[j] == old(self).slots()[j],
            old(self).slots()[index as int] matches State::Using(u) ==> (r matches Some(v) && *v
                == u),
            match r {
                Some(v) => final(self).slots()[index as int] == State::<T>::Using(*v),
                None => !(final(self).slots()[index as int] is Using),
            },
    {
        self.poll_slot(index);
        match &self.loaded[index] {
            State::Using(u) => Some(u),
            _ => None,
        }
    }

    /// Blocking resolution: wait for the slot's producer if need be.
    /// `Err` reports a construction failure instead of panicking.
    pub(crate) fn get_mut_instant(&mut self, index: usize) -> (r: Result<&mut T, LoadError>)
        requires
            old(self).wf(),
            index < old(self).slot_count(),
        ensures
            final(self).wf(),
            final(self).names_view() == old(self).names_view(),
            final(self).slots().len() == old(self).slots().len(),
            slot_monotone(old(self).slots()[index as int], final(self).slots()[index as int]),
            final(self).pending_view().len() <= old(self).pending_view().len(),
            forall|j: int|
                0 <= j < old(self).slots().len() && j != index ==> final(self).slots()[j] == old(self).slots()[j],
            old(self).slots()[index as int] is Using ==> r is Ok,
            match r {
                Ok(v) => final(self).slots()[index as int] == State::<T>::Using(*final(v)) && (old(self).slots()[index as int] matches State::Using(u) ==> *v == u),
                Err(_) => final(self).slots()[index as int] is Failed && !(old(self).slots()[index as int]
                    is Using),
            },
    {
        self.wait_slot(index);
        let ghost mid = *self;
        proof {
            lemma_loading_update_keeps(mid.loaded@, index as int);
        }
        let slot = &mut self.loaded[index];
        match slot {
            State::Using(u) => Ok(u),
            _ => Err(LoadError),
        }
    }

    /// Blocking resolution, shared-reference variant.
    pub(crate) fn get_ref_instant(&mut self, index: usize) -> (r: Result<&T, LoadError>)
        requires
            old(self).wf(),
            index < old(self).slot_count(),
        ensures
            final(self).wf(),
            final(self).names_view() == old(self).names_view(),
            final(self).slots().len() == old(self).slots().len(),
            slot_steps(old(self).slots()[index as int], final(self).slots()[index as int]),
            final(self).pending_view().len() <= old(self).pending_view().len(),
            forall|j: int|
                0 <= j < old(self).slots().len() && j != index ==> final(self).slots()[j] == old(self).slots()[j],
            old(self).slots()[index as int] matches State::Using(u) ==> (r matches Ok(v) && *v
                == u),
            match r {
                Ok(v) => final(self).slots()[index as int] == State::<T>::Using(*v),
                Err(_) => final(self).slots()[index as int] is Failed && !(old(self).slots()[index as int]
                    is Using),
            },
    {
        self.wait_slot(index);
        match &self.loaded[index] {
            State::Using(u) => Ok(u),
            _ => Err(LoadError),
        }
    }

    /// Pure observation of a slot: `Some` exactly when it is `Using`.
    pub(crate) fn get_as_ref(&self, index: usize) -> (r: Option<&T>)
        requires
            self.wf(),
            index < self.slot_count(),
        ensures
            match r {
                Some(v) => self.slots()[index as int] == State::<T>::Using(*v),
                None => !(self.slots()[index as int] is Using),
            },
    {
        match &self.loaded[index] {
            State::Using(u) => Some(u),
            _ => None,
        }
    }

    /// Pure observation of a slot, mutable variant: no finalization is
    /// attempted, so a still-`Loading` slot stays as it is.
    pub fn get_as_mut(&mut self, index: usize) -> (r: Option<&mut T>)
        requires
            old(self).wf(),
            index < old(self).slot_count(),
        ensures
            final(self).wf(),
            final(self).names_view() == old(self).names_view(),
            final(self).pending_view() == old(self).pending_view(),
            final(self).slots().len() == old(self).slots().len(),
            forall|j: int|
                0 <= j < old(self).slots().len() && j != index ==> final(self).slots()[j] == old(self).slots()[j],
            match r {
                Some(v) => old(self).slots()[index as int] matches State::Using(u) && *v == u
                    && final(self).slots()[index as int] == State::<T>::Using(*final(v)),
                None => !(old(self).slots()[index as int] is Using) && final(self).slots() == old(self).slots(),
            },
    {
        let ghost mid = *self;
        proof {
            lemma_loading_update_keeps(mid.loaded@, index as int);
        }
        let slot = &mut self.loaded[index];
        match slot {
            State::Using(u) => Some(u),
            _ => None,
        }
    }

    /// Resolution of a slot the caller knows is `Using` (for example,
    /// one created by the synchronous path).  Anything else is a caller
    /// error, which the precondition rules out.
    pub fn get_mut_or_panic(&mut self, index: usize) -> (r: &mut T)
        requires
            old(self).wf(),
            index < old(self).slot_count(),
            old(self).slots()[index as int] is Using,
        ensures
            final(self).wf(),
            final(self).names_view() == old(self).names_view(),
            final(self).pending_view() == old(self).pending_view(),
            final(self).slots().len() == old(self).slots().len(),
            forall|j: int|
                0 <= j < old(self).slots().len() && j != index ==> final(self).slots()[j] == old(self).slots()[j],
            old(self).slots()[index as int] matches State::Using(u) && *r == u,
            final(self).slots()[index as int] == State::<T>::Using(*final(r)),
    {
        let ghost mid = *self;
        proof {
            lemma_loading_update_keeps(mid.loaded@, index as int);
        }
        let slot = &mut self.loaded[index];
        match slot {
            State::Using(u) => u,
            _ => vstd::pervasive::unreached(),
        }
    }

    /// Pure lookup by name: the slot index and value when the name is
    /// mapped and already `Using`.
    pub(crate) fn get_ref_from_name(&self, name: &str) -> (r: Option<(usize, &T)>)
        requires
            self.wf(),
        ensures
            match r {
                Some(iv) => iv.0 < self.slot_count() && self.names_view()[iv.0 as int] == name@
                    && self.slots()[iv.0 as int] == State::<T>::Using(*iv.1),
                None => self.has_name(name@) ==> !(self.slots()[name_index(
                    self.names_view(),
                    name@,
                )] is Using),
            },
    {
        match self.find_index(name) {
            Some(i) => {
                proof {
                    lemma_name_index_unique(self.names_view(), name@, i as int);
                }
                match &self.loaded[i] {
                    State::Using(u) => Some((i, u)),
                    _ => None,
                }
            }
            None => None,
        }
    }

    /// Request `name` and resolve it without blocking, in one step: a
    /// fresh name gets a new `Loading` slot and a queued construction
    /// task (and resolves to `None` for now); a mapped name is simply
    /// polled.  Repeated requests for one name never queue new work.
    pub fn get_or_load_mut_from_name(&mut self, name: &str) -> (r: (usize, Option<&mut T>))
        requires
            old(self).wf(),
        ensures
            final(self).wf(),
            final(self).names_view() =~= names_after_request(old(self).names_view(), name@),
            r.0 < final(self).names_view().len() && final(self).names_view()[r.0 as int] == name@,
            r.0 == name_index(final(self).names_view(), name@),
            slots_evolve(old(self).slots(), final(self).slots()),
            forall|j: int|
                0 <= j < old(self).slots().len() && j != r.0 ==> final(self).slots()[j] == old(self).slots()[j],
            old(self).has_name(name@) ==> final(self).slots().len() == old(self).slots().len()
                && final(self).pending_view() == old(self).pending_view(),
            !old(self).has_name(name@) ==> r.0 == old(self).slots().len() && final(self).slots().len() == old(self).slots().len() + 1 && final(self).slots()[r.0 as int] is Loading && r.1 is None && final(self).pending_view().len()
                == old(self).pending_view().len() + 1 && final(self).pending_view().last().name_spec() == name@ && final(self).pending_view().last().index_spec() == r.0,
            r.0 < old(self).slots().len() ==> (old(self).slots()[r.0 as int]
                matches State::Using(u) ==> (r.1 matches Some(v) && *v == u)),
            match r.1 {
                Some(v) => final(self).slots()[r.0 as int] == State::<T>::Using(*final(v)),
                None => !(final(self).slots()[r.0 as int] is Using),
            },
    {
        match self.find_index(name) {
            None => {
                let i = self.load(name);
                proof {
                    lemma_name_index_unique(self.names_view(), name@, i as int);
                }
                (i, None)
            }
            Some(i) => {
                proof {
                    lemma_name_index_unique(old(self).names_view(), name@, i as int);
                }
                let inner = self.get_mut(i);
                (i, inner)
            }
        }
    }

    /// As `get_or_load_mut_from_name`, resolving to a shared reference.
    pub fn get_or_load_ref_from_name(&mut self, name: &str) -> (r: (usize, Option<&T>))
        requires
            old(self).wf(),
        ensures
            final(self).wf(),
            final(self).names_view() =~= names_after_request(old(self).names_view(), name@),
            r.0 < final(self).names_view().len() && final(self).names_view()[r.0 as int] == name@,
            r.0 == name_index(final(self).names_view(), name@),
            slots_evolve(old(self).slots(), final(self).slots()),
            forall|j: int|
                0 <= j < old(self).slots().len() && j != r.0 ==> final(self).slots()[j] == old(self).slots()[j],
            old(self).has_name(name@) ==> final(self).slots().len() == old(self).slots().len()
                && final(self).pending_view() == old(self).pending_view(),
            !old(self).has_name(name@) ==> r.0 == old(self).slots().len() && final(self).slots().len() == old(self).slots().len() + 1 && final(self).slots()[r.0 as int] is Loading && r.1 is None && final(self).pending_view().len()
                == old(self).pending_view().len() + 1 && final(self).pending_view().last().name_spec() == name@ && final(self).pending_view().last().index_spec() == r.0,
            old(self).has_name(name@) ==> slot_steps(
                old(self).slots()[r.0 as int],
                final(self).slots()[r.0 as int],
            ),
            r.0 < old(self).slots().len() ==> (old(self).slots()[r.0 as int]
                matches State::Using(u) ==> (r.1 matches Some(v) && *v == u)),
            match r.1 {
                Some(v) => final(self).slots()[r.0 as int] == State::<T>::Using(*v),
                None => !(final(self).slots()[r.0 as int] is Using),
            },
    {
        match self.find_index(name) {
            None => {
                let i = self.load(name);
                proof {
                    lemma_name_index_unique(self.names_view(), name@, i as int);
                }
                (i, None)
            }
            Some(i) => {
                proof {
                    lemma_name_index_unique(old(self).names_view(), name@, i as int);
                }
                let inner = self.get_ref(i);
                (i, inner)
            }
        }
    }

    /// The asynchronous request path: idempotent per name (this is the
    /// single-flight guarantee), handing back the stable slot index and
    /// the value when it is already there.
    pub fn request_use_new(&mut self, name: &str) -> (r: (usize, Option<&mut T>))
        requires
            old(self).wf(),
        ensures
            final(self).wf(),
            final(self).names_view() =~= names_after_request(old(self).names_view(), name@),
            r.0 < final(self).names_view().len() && final(self).names_view()[r.0 as int] == name@,
            r.0 == name_index(final(self).names_view(), name@),
            slots_evolve(old(self).slots(), final(self).slots()),
            forall|j: int|
                0 <= j < old(self).slots().len() && j != r.0 ==> final(self).slots()[j] == old(self).slots()[j],
            old(self).has_name(name@) ==> final(self).slots().len() == old(self).slots().len()
                && final(self).pending_view() == old(self).pending_view(),
            !old(self).has_name(name@) ==> r.0 == old(self).slots().len() && final(self).slots().len() == old(self).slots().len() + 1 && final(self).slots()[r.0 as int] is Loading && r.1 is None && final(self).pending_view().len()
                == old(self).pending_view().len() + 1 && final(self).pending_view().last().name_spec() == name@ && final(self).pending_view().last().index_spec() == r.0,
            r.0 < old(self).slots().len() ==> (old(self).slots()[r.0 as int]
                matches State::Using(u) ==> (r.1 matches Some(v) && *v == u)),
            match r.1 {
                Some(v) => final(self).slots()[r.0 as int] == State::<T>::Using(*final(v)),
                None => !(final(self).slots()[r.0 as int] is Using),
            },
    {
        self.get_or_load_mut_from_name(name)
    }

    /// The synchronous request path: a fresh name is constructed and
    /// initialized on the calling thread and its slot starts `Using`;
    /// a mapped name just reports its index, untouched.
    pub fn request_use_no_proc_new(&mut self, name: &str) -> (i: usize)
        requires
            old(self).wf(),
        ensures
            final(self).wf(),
            final(self).names_view() =~= names_after_request(old(self).names_view(), name@),
            i < final(self).names_view().len() && final(self).names_view()[i as int] == name@,
            i == name_index(final(self).names_view(), name@),
            slots_evolve(old(self).slots(), final(self).slots()),
            final(self).pending_view() == old(self).pending_view(),
            old(self).has_name(name@) ==> *final(self) == *old(self),
            !old(self).has_name(name@) ==> i == old(self).slots().len() && final(self).slots().len() == old(self).slots().len() + 1 && final(self).slots()[i as int] is Using && (forall|j: int|
                0 <= j < old(self).slots().len() ==> final(self).slots()[j] == old(self).slots()[j]),
    {
        match self.find_index(name) {
            Some(i) => {
                proof {
                    lemma_name_index_unique(self.names_view(), name@, i as int);
                }
                i
            }
            None => {
                let mut value = T::create(name);
                value.inittt();
                let i = self.insert_ready(name, value);
                proof {
                    lemma_name_index_unique(self.names_view(), name@, i as int);
                }
                i
            }
        }
    }

    /// Synchronous request-and-resolve: the value for `name`, built on
    /// this thread if the name is fresh.  Mixing this with the
    /// asynchronous path for the same name is a caller error, which the
    /// precondition rules out.
    pub fn get_or_create(&mut self, name: &str) -> (r: &mut T)
        requires
            old(self).wf(),
            old(self).has_name(name@) ==> old(self).slots()[name_index(
                old(self).names_view(),
                name@,
            )] is Using,
        ensures
            final(self).wf(),
            final(self).names_view() =~= names_after_request(old(self).names_view(), name@),
            final(self).pending_view() == old(self).pending_view(),
            final(self).slots()[name_index(final(self).names_view(), name@)] == State::<T>::Using(
                *final(r),
            ),
            old(self).has_name(name@) ==> *r == old(self).slots()[name_index(
                old(self).names_view(),
                name@,
            )]->Using_0,
            forall|j: int|
                0 <= j < old(self).slots().len() && j != name_index(final(self).names_view(), name@)
                    ==> final(self).slots()[j] == old(self).slots()[j],
    {
        let i = self.request_use_no_proc_new(name);
        self.get_mut_or_panic(i)
    }

    /// The values of all slots that are `Using`, in slot order.
    pub fn loaded_iter(&self) -> (r: Vec<&T>)
        ensures
            r@.len() == ready_seq(self.slots()).len(),
            forall|k: int| 0 <= k < r@.len() ==> *r@[k] == ready_seq(self.slots())[k],
    {
        let ghost s = self.loaded@;
        let mut out: Vec<&T> = Vec::new();
        let n = self.loaded.len();
        let mut i: usize = 0;
        while i < n
            invariant
                n == s.len(),
                s == self.loaded@,
                i <= n,
                out@.len() == ready_seq(s.take(i as int)).len(),
                forall|k: int| 0 <= k < out@.len() ==> *out@[k] == ready_seq(s.take(i as int))[k],
            decreases n - i,
        {
            proof {
                assert(s.take(i + 1).drop_last() =~= s.take(i as int));
                assert(s.take(i + 1).last() == s[i as int]);
            }
            match &self.loaded[i] {
                State::Using(u) => {
                    out.push(u);
                }
                _ => {}
            }
            i += 1;
        }
        proof {
            assert(s.take(n as int) =~= s);
        }
        out
    }
}

/// The value held by each `Using` slot, in slot order: what a walk over
/// the loaded resources yields.
pub open spec fn ready_seq<T>(s: Seq<State<T>>) -> Seq<T>
    decreases s.len(),
{
    if s.len() == 0 {
        Seq::empty()
    } else if s.last() is Using {
        ready_seq(s.drop_last()).push(s.last()->Using_0)
    } else {
        ready_seq(s.drop_last())
    }
}

/// A lazily-bound reference to a named resource: the name, a cache of
/// the slot index a manager once answered with, and an optional private
/// instance that bypasses managers entirely.
///
/// Cloning a handle deep-clones its private instance (when the value
/// type allows cloning at all) and copies the cached index, which stays
/// valid because slot indices are stable.
#[derive(Clone, Debug)]
pub struct ResTT<T> {
    pub name: String,
    /// The cached slot index from an earlier resolution, if any.  Set by
    /// the resolving paths; treat as read-only elsewhere.
    pub resource: Option<usize>,
    pub instance: Option<T>,
    pub instance_managed: Option<usize>,
}

impl<T> ResTT<T> {
    /// The cached slot index, if a manager has answered for this handle.
    pub open spec fn resource_spec(&self) -> Option<usize> {
        self.resource
    }

    pub fn new(name: &str) -> (r: ResTT<T>)
        ensures
            r.name@ == name@,
            r.resource_spec() is None,
            r.instance is None,
            r.instance_managed is None,
    {
        ResTT { name: name.to_owned(), resource: None, instance: None, instance_managed: None }
    }

    /// Forget the cached slot index; the next resolution goes back to
    /// the name.
    pub fn reset(&mut self)
        ensures
            final(self).resource_spec() is None,
            final(self).name@ == old(self).name@,
            final(self).instance == old(self).instance,
            final(self).instance_managed == old(self).instance_managed,
    {
        self.resource = None;
    }

    /// A handle that owns its value privately: resolution never touches
    /// any manager.
    pub fn new_with_instance(name: &str, r: T) -> (h: ResTT<T>)
        ensures
            h.name@ == name@,
            h.resource_spec() is None,
            h.instance == Some(r),
            h.instance_managed is None,
    {
        ResTT { name: name.to_owned(), resource: None, instance: Some(r), instance_managed: None }
    }

    fn new_with_index(name: &str, res: usize) -> (h: ResTT<T>)
        ensures
            h.name@ == name@,
            h.resource_spec() == Some(res),
            h.instance is None,
            h.instance_managed is None,
    {
        ResTT {
            name: name.to_owned(),
            resource: Some(res),
            instance: None,
            instance_managed: None,
        }
    }

    pub fn get_instance(&mut self) -> (r: Option<&mut T>)
        ensures
            final(self).name@ == old(self).name@,
            final(self).resource_spec() == old(self).resource_spec(),
            final(self).instance_managed == old(self).instance_managed,
            match r {
                Some(v) => old(self).instance == Some(*v) && final(self).instance == Some(
                    *final(v),
                ),
                None => old(self).instance is None && final(self).instance is None,
            },
    {
        self.instance.as_mut()
    }

    /// Whether this handle resolves to something it owns itself rather
    /// than to a manager slot.
    pub fn is_instance(&self) -> (r: bool)
        ensures
            r == (self.instance is Some || self.instance_managed is Some),
    {
        self.instance.is_some() || self.instance_managed.is_some()
    }
}

impl<T: Create> ResTT<T> {
    /// The private instance, created on the calling thread first if the
    /// handle does not own one yet.
    pub fn get_or_create_instance(&mut self) -> (r: &mut T)
        ensures
            final(self).name@ == old(self).name@,
            final(self).resource_spec() == old(self).resource_spec(),
            final(self).instance_managed == old(self).instance_managed,
            final(self).instance == Some(*final(r)),
            old(self).instance matches Some(u) ==> *r == u,
    {
        if self.instance.is_none() {
            let mut mt: T = T::create(self.name.as_str());
            mt.inittt();
            self.instance = Some(mt);
        }
        match self.instance.as_mut() {
            Some(v) => v,
            None => vstd::pervasive::unreached(),
        }
    }

    /// Resolve through the cached index only: a handle that has never
    /// been resolved answers `None` without touching the map.
    pub fn get_from_manager<'a>(&self, rm: &'a mut ResourceManager<T>) -> (r: Option<&'a mut T>)
        requires
            old(rm).wf(),
            self.resource_spec() matches Some(i) ==> i < old(rm).slot_count(),
        ensures
            final(rm).wf(),
            final(rm).names_view() == old(rm).names_view(),
            final(rm).slots().len() == old(rm).slots().len(),
            slots_evolve(old(rm).slots(), final(rm).slots()),
            final(rm).pending_view() == old(rm).pending_view(),
            self.resource_spec() is None ==> *final(rm) == *old(rm) && r is None,
            self.resource_spec() matches Some(i) ==> (old(rm).slots()[i as int]
                matches State::Using(u) ==> (r matches Some(v) && *v == u)),
            match r {
                Some(v) => self.resource_spec() matches Some(i) && final(rm).slots()[i as int]
                    == State::<T>::Using(*final(v)),
                None => self.resource_spec() matches Some(i) ==> !(final(rm).slots()[i as int] is Using),
            },
    {
        if let Some(i) = self.resource {
            rm.get_mut(i)
        } else {
            None
        }
    }

    /// Non-blocking resolution: the private instance if there is one,
    /// else the cached slot.  A handle never resolved against a manager
    /// answers `None`; resolution through the name is the job of
    /// `get_resource` / `resource_get`.
    pub fn get_mut<'a>(&'a mut self, rm: &'a mut ResourceManager<T>) -> (r: Option<&'a mut T>)
        requires
            old(rm).wf(),
            old(self).resource_spec() matches Some(i) ==> i < old(rm).slot_count(),
        ensures
            final(rm).wf(),
            final(rm).names_view() == old(rm).names_view(),
            final(self).name@ == old(self).name@,
            final(self).resource_spec() == old(self).resource_spec(),
            old(self).instance is Some ==> *final(rm) == *old(rm) && r is Some,
            final(rm).pending_view() == old(rm).pending_view(),
            final(rm).slots().len() == old(rm).slots().len(),
            old(self).instance is None ==> final(self).instance is None && slots_evolve(
                old(rm).slots(),
                final(rm).slots(),
            ),
            old(self).instance is None ==> (old(self).resource_spec() matches Some(i) ==> (old(
                rm,
            ).slots()[i as int] matches State::Using(u) ==> (r matches Some(v) && *v == u))),
            match r {
                Some(v) => {
                    &&& old(self).instance matches Some(u) ==> *v == u && final(self).instance
                        == Some(*final(v))
                    &&& old(self).instance is None ==> (old(self).resource_spec() matches Some(i)
                        && final(rm).slots()[i as int] == State::<T>::Using(*final(v)))
                },
                None => {
                    &&& old(self).instance is None
                    &&& final(self).instance is None
                    &&& old(self).resource_spec() matches Some(i) ==> !(final(rm).slots()[i as int]
                        is Using)
                },
            },
    {
        if self.instance.is_some() {
            self.instance.as_mut()
        } else if let Some(i) = self.resource {
            rm.get_mut(i)
        } else {
            None
        }
    }

    /// Non-blocking, non-caching shared resolution: the private
    /// instance, or whatever the manager already holds under the cached
    /// index or the name.
    pub fn get_ref<'a>(&'a self, manager: &'a ResourceManager<T>) -> (r: Option<&'a T>)
        requires
            manager.wf(),
            self.resource_spec() matches Some(i) ==> i < manager.slot_count(),
        ensures
            self.instance matches Some(u) ==> r matches Some(v) && *v == u,
            self.instance is None ==> match r {
                Some(v) => ready_name_value(self, manager, *v),
                None => !ready_name(self, manager),
            },
    {
        if self.instance.is_some() {
            self.instance.as_ref()
        } else {
            self.get_ref_no_instance(manager)
        }
    }

    /// As `get_ref`, ignoring any private instance.  This path cannot
    /// cache the index it finds (it only borrows the handle); the
    /// mutating resolution paths do the caching.
    pub fn get_ref_no_instance<'a>(&self, manager: &'a ResourceManager<T>) -> (r: Option<&'a T>)
        requires
            manager.wf(),
            self.resource_spec() matches Some(i) ==> i < manager.slot_count(),
        ensures
            match r {
                Some(v) => ready_name_value(self, manager, *v),
                None => !ready_name(self, manager),
            },
    {
        if let Some(i) = self.resource {
            manager.get_as_ref(i)
        } else {
            match manager.get_ref_from_name(self.name.as_str()) {
                Some((_, r2)) => Some(r2),
                None => None,
            }
        }
    }
}

/// The slot a blocking resolution lands on: the handle's cached index
/// if it has one, else the index its name holds once requested.
pub open spec fn instant_slot<T: Create>(res: &ResTT<T>, after: ResourceManager<T>) -> int {
    match res.resource_spec() {
        Some(i) => i as int,
        None => name_index(after.names_view(), res.name@),
    }
}

/// The handle, resolved read-only against the manager, reaches a slot
/// that is `Using` — through its cached index if it has one, else
/// through its name.
pub open spec fn ready_name<T: Create>(res: &ResTT<T>, manager: &ResourceManager<T>) -> bool {
    match res.resource_spec() {
        Some(i) => manager.slots()[i as int] is Using,
        None => contains_name(manager.names_view(), res.name@) && manager.slots()[name_index(
            manager.names_view(),
            res.name@,
        )] is Using,
    }
}

/// As `ready_name`, and the slot's value is `v`.
pub open spec fn ready_name_value<T: Create>(res: &ResTT<T>, manager: &ResourceManager<T>, v: T) -> bool {
    match res.resource_spec() {
        Some(i) => manager.slots()[i as int] == State::<T>::Using(v),
        None => contains_name(manager.names_view(), res.name@) && manager.slots()[name_index(
            manager.names_view(),
            res.name@,
        )] == State::<T>::Using(v),
    }
}

impl<T: Create> ResTT<T> {
    /// Non-blocking resolution through the name, caching the index:
    /// the free function `resource_get` bound as a method.
    pub fn get_resource<'a>(&'a mut self, manager: &'a mut ResourceManager<T>) -> (r: Option<
        &'a mut T,
    >)
        requires
            old(manager).wf(),
            old(self).resource_spec() matches Some(i) ==> i < old(manager).slot_count(),
        ensures
            final(manager).wf(),
            slots_evolve(old(manager).slots(), final(manager).slots()),
            final(self).name@ == old(self).name@,
            old(self).instance is Some ==> *final(manager) == *old(manager) && final(self).resource_spec() == old(self).resource_spec() && r is Some,
            old(self).instance is None && old(self).resource_spec() is None ==> final(manager).names_view() =~= names_after_request(old(manager).names_view(), old(self).name@)
                && (final(self).resource_spec() matches Some(i) && i == name_index(
                final(manager).names_view(),
                old(self).name@,
            )),
            old(self).instance is None && old(self).resource_spec() is Some ==> final(manager).names_view() == old(manager).names_view() && final(self).resource_spec() == old(self).resource_spec(),
            old(self).instance is None && old(self).resource_spec() is Some ==> final(manager).pending_view() == old(manager).pending_view() && final(manager).slots().len() == old(manager).slots().len(),
            old(self).instance is None && old(self).resource_spec() is None && contains_name(old(manager).names_view(), old(self).name@) ==> final(manager).pending_view() == old(manager).pending_view() && final(manager).slots().len() == old(manager).slots().len(),
            old(self).instance is None && old(self).resource_spec() is None && !contains_name(old(manager).names_view(), old(self).name@) ==> final(manager).slots().len() == old(manager).slots().len() + 1 && final(manager).pending_view().len() == old(manager).pending_view().len() + 1 && final(manager).pending_view().last().name_spec() == old(self).name@ && final(manager).pending_view().last().index_spec() as int == name_index(final(manager).names_view(), old(self).name@),
            old(self).instance is None ==> (old(self).resource_spec() matches Some(i) ==> (old(manager).slots()[i as int] matches State::Using(u) ==> (r matches Some(v) && *v == u))),
            old(self).instance is None && old(self).resource_spec() is None && contains_name(old(manager).names_view(), old(self).name@) ==> (old(manager).slots()[name_index(old(manager).names_view(), old(self).name@)] matches State::Using(u) ==> (r matches Some(v) && *v == u)),
            match r {
                Some(v) => {
                    &&& old(self).instance matches Some(u) ==> *v == u && final(self).instance
                        == Some(*final(v))
                    &&& old(self).instance is None ==> (final(self).resource_spec() matches Some(i)
                        && final(manager).slots()[i as int] == State::<T>::Using(*final(v)))
                },
                None => {
                    &&& old(self).instance is None
                    &&& final(self).instance is None
                    &&& final(self).resource_spec() matches Some(i) ==> !(final(manager).slots()[i as int] is Using)
                },
            },
    {
        resource_get(manager, self)
    }

    /// Non-blocking shared resolution through the name, caching the
    /// index: the free function `resource_get_ref` bound as a method.
    pub fn get_or_load_ref<'a>(&'a mut self, manager: &'a mut ResourceManager<T>) -> (r: Option<
        &'a T,
    >)
        requires
            old(manager).wf(),
            old(self).resource_spec() matches Some(i) ==> i < old(manager).slot_count(),
        ensures
            final(manager).wf(),
            slots_evolve(old(manager).slots(), final(manager).slots()),
            final(self).name@ == old(self).name@,
            old(self).instance is Some ==> *final(manager) == *old(manager) && final(self).resource_spec() == old(self).resource_spec() && r is Some,
            old(self).instance is None && old(self).resource_spec() is None ==> final(manager).names_view() =~= names_after_request(old(manager).names_view(), old(self).name@)
                && (final(self).resource_spec() matches Some(i) && i == name_index(
                final(manager).names_view(),
                old(self).name@,
            )),
            old(self).instance is None && old(self).resource_spec() is Some ==> final(manager).names_view() == old(manager).names_view() && final(self).resource_spec() == old(self).resource_spec(),
            old(self).instance is None && old(self).resource_spec() is Some ==> final(manager).pending_view() == old(manager).pending_view() && final(manager).slots().len() == old(manager).slots().len(),
            old(self).instance is None && old(self).resource_spec() is None && contains_name(old(manager).names_view(), old(self).name@) ==> final(manager).pending_view() == old(manager).pending_view() && final(manager).slots().len() == old(manager).slots().len(),
            old(self).instance is None && old(self).resource_spec() is None && !contains_name(old(manager).names_view(), old(self).name@) ==> final(manager).slots().len() == old(manager).slots().len() + 1 && final(manager).pending_view().len() == old(manager).pending_view().len() + 1 && final(manager).pending_view().last().name_spec() == old(self).name@ && final(manager).pending_view().last().index_spec() as int == name_index(final(manager).names_view(), old(self).name@),
            old(self).instance is None ==> (old(self).resource_spec() matches Some(i) ==> (old(manager).slots()[i as int] matches State::Using(u) ==> (r matches Some(v) && *v == u))),
            old(self).instance is None && old(self).resource_spec() is None && contains_name(old(manager).names_view(), old(self).name@) ==> (old(manager).slots()[name_index(old(manager).names_view(), old(self).name@)] matches State::Using(u) ==> (r matches Some(v) && *v == u)),
            old(self).instance is None ==> (old(self).resource_spec() matches Some(i) ==> slot_steps(
                old(manager).slots()[i as int],
                final(manager).slots()[i as int],
            )),
            old(self).instance is None && old(self).resource_spec() is None && contains_name(old(manager).names_view(), old(self).name@) ==> slot_steps(
                old(manager).slots()[name_index(old(manager).names_view(), old(self).name@)],
                final(manager).slots()[name_index(old(manager).names_view(), old(self).name@)],
            ),
            match r {
                Some(v) => {
                    &&& old(self).instance matches Some(u) ==> *v == u
                    &&& old(self).instance is None ==> (final(self).resource_spec() matches Some(i)
                        && final(manager).slots()[i as int] == State::<T>::Using(*v))
                },
                None => {
                    &&& old(self).instance is None
                    &&& final(self).resource_spec() matches Some(i) ==> !(final(manager).slots()[i as int] is Using)
                },
            },
    {
        resource_get_ref(manager, self)
    }

    /// Blocking resolution through the cached index, or the synchronous
    /// path for a name never requested: always lands on a settled slot.
    /// `None` reports a construction failure.
    pub fn as_ref_instant<'a>(&'a mut self, manager: &'a mut ResourceManager<T>) -> (r: Option<
        &'a T,
    >)
        requires
            old(manager).wf(),
            old(self).resource_spec() matches Some(i) ==> i < old(manager).slot_count(),
        ensures
            final(manager).wf(),
            slots_evolve(old(manager).slots(), final(manager).slots()),
            final(self).name@ == old(self).name@,
            old(self).instance is Some ==> *final(manager) == *old(manager) && final(self).resource_spec() == old(self).resource_spec() && r is Some,
            final(manager).pending_view().len() <= old(manager).pending_view().len(),
            old(self).instance is None && old(self).resource_spec() is None ==> final(manager).names_view() =~= names_after_request(old(manager).names_view(), old(self).name@)
                && (final(self).resource_spec() matches Some(i) && i as int == name_index(
                final(manager).names_view(),
                old(self).name@,
            )),
            old(self).instance is None && old(self).resource_spec() is Some ==> final(manager).names_view() == old(manager).names_view() && final(self).resource_spec() == old(self).resource_spec(),
            old(self).instance is None && old(self).resource_spec() is None && !contains_name(
                old(manager).names_view(),
                old(self).name@,
            ) ==> r is Some,
            match r {
                Some(v) => {
                    &&& old(self).instance matches Some(u) ==> *v == u
                    &&& old(self).instance is None ==> (final(self).resource_spec() matches Some(i)
                        && final(manager).slots()[i as int] == State::<T>::Using(*v))
                },
                None => {
                    &&& old(self).instance is None
                    &&& final(self).resource_spec() matches Some(i) && final(manager).slots()[i as int] is Failed
                },
            },
    {
        if self.instance.is_some() {
            return self.instance.as_ref();
        }
        let i = match self.resource {
            Some(i) => i,
            None => {
                let i2 = manager.request_use_no_proc_new(self.name.as_str());
                self.resource = Some(i2);
                i2
            }
        };
        match manager.get_ref_instant(i) {
            Ok(v) => Some(v),
            Err(_) => None,
        }
    }

    /// Blocking resolution through the cached index, or the synchronous
    /// path for a name never requested; `Err` reports a construction
    /// failure.  (This path only borrows the handle, so it cannot cache
    /// a fresh index.)
    pub fn get_from_manager_instant<'a>(&self, rm: &'a mut ResourceManager<T>) -> (r: Result<
        &'a mut T,
        LoadError,
    >)
        requires
            old(rm).wf(),
            self.resource_spec() matches Some(i) ==> i < old(rm).slot_count(),
        ensures
            final(rm).wf(),
            slots_evolve(old(rm).slots(), final(rm).slots()),
            self.resource_spec() is Some ==> final(rm).names_view() == old(rm).names_view(),
            self.resource_spec() is None ==> final(rm).names_view() =~= names_after_request(
                old(rm).names_view(),
                self.name@,
            ),
            final(rm).pending_view().len() <= old(rm).pending_view().len(),
            self.resource_spec() is None && !contains_name(old(rm).names_view(), self.name@)
                ==> r is Ok,
            match r {
                Ok(v) => final(rm).slots()[instant_slot(self, *final(rm))]
                    == State::<T>::Using(*final(v)),
                Err(_) => final(rm).slots()[instant_slot(self, *final(rm))] is Failed,
            },
    {
        let i = match self.resource {
            Some(i) => i,
            None => rm.request_use_no_proc_new(self.name.as_str()),
        };
        rm.get_mut_instant(i)
    }
}

impl<T: Create + Clone> ResTT<T> {
    /// Make this handle self-contained: if it has no private instance
    /// yet, clone the manager's already-loaded value into one.  Never
    /// requests a load.
    pub fn create_instance_with_manager(&mut self, manager: &ResourceManager<T>)
        requires
            manager.wf(),
            old(self).resource_spec() matches Some(i) ==> i < manager.slot_count(),
        ensures
            final(self).name@ == old(self).name@,
            final(self).resource_spec() == old(self).resource_spec(),
            final(self).instance_managed == old(self).instance_managed,
            old(self).instance is Some ==> final(self).instance == old(self).instance,
            old(self).instance is None ==> (final(self).instance is Some <==> (old(self).resource_spec() matches Some(i) && manager.slots()[i as int] is Using)),
    {
        if self.instance.is_none() {
            if let Some(i) = self.resource {
                if let Some(r) = manager.get_as_ref(i) {
                    self.instance = Some(r.clone());
                }
            }
        }
    }

    /// As `create_instance_with_manager`, handing the instance back.
    pub fn get_or_create_instance_no_load(&mut self, manager: &ResourceManager<T>) -> (r: Option<
        &mut T,
    >)
        requires
            manager.wf(),
            old(self).resource_spec() matches Some(i) ==> i < manager.slot_count(),
        ensures
            final(self).name@ == old(self).name@,
            final(self).resource_spec() == old(self).resource_spec(),
            r is Some <==> final(self).instance is Some,
            old(self).instance is Some ==> r is Some,
            old(self).instance is None ==> (r is Some <==> (old(self).resource_spec()
                matches Some(i) && manager.slots()[i as int] is Using)),
    {
        if self.instance.is_some() {
            self.instance.as_mut()
        } else {
            if let Some(i) = self.resource {
                if let Some(r) = manager.get_as_ref(i) {
                    self.instance = Some(r.clone());
                }
            }
            self.instance.as_mut()
        }
    }
}

/// Resolve a handle against a manager without blocking: the private
/// instance wins, then the cached index, then a request by name whose
/// answered index is cached on the handle.
pub fn resource_get<'a, T: Create>(
    manager: &'a mut ResourceManager<T>,
    res: &'a mut ResTT<T>,
) -> (r: Option<&'a mut T>)
    requires
        old(manager).wf(),
        old(res).resource_spec() matches Some(i) ==> i < old(manager).slot_count(),
    ensures
        final(manager).wf(),
        slots_evolve(old(manager).slots(), final(manager).slots()),
        final(res).name@ == old(res).name@,
        old(res).instance is Some ==> *final(manager) == *old(manager) && final(res).resource_spec() == old(res).resource_spec() && r is Some,
        old(res).instance is None && old(res).resource_spec() is None ==> final(manager).names_view() =~= names_after_request(old(manager).names_view(), old(res).name@) && (final(res).resource_spec() matches Some(i) && i == name_index(
            final(manager).names_view(),
            old(res).name@,
        )),
        old(res).instance is None && old(res).resource_spec() is Some ==> final(manager).names_view() == old(manager).names_view() && final(res).resource_spec() == old(res).resource_spec(),
        old(res).instance is None && old(res).resource_spec() is Some ==> final(manager).pending_view() == old(manager).pending_view() && final(manager).slots().len() == old(manager).slots().len(),
        old(res).instance is None && old(res).resource_spec() is None && contains_name(old(manager).names_view(), old(res).name@) ==> final(manager).pending_view() == old(manager).pending_view() && final(manager).slots().len() == old(manager).slots().len(),
        old(res).instance is None && old(res).resource_spec() is None && !contains_name(old(manager).names_view(), old(res).name@) ==> final(manager).slots().len() == old(manager).slots().len() + 1 && final(manager).pending_view().len() == old(manager).pending_view().len() + 1 && final(manager).pending_view().last().name_spec() == old(res).name@ && final(manager).pending_view().last().index_spec() as int == name_index(final(manager).names_view(), old(res).name@),
        old(res).instance is None ==> (old(res).resource_spec() matches Some(i) ==> (old(manager).slots()[i as int] matches State::Using(u) ==> (r matches Some(v) && *v == u))),
        old(res).instance is None && old(res).resource_spec() is None && contains_name(old(manager).names_view(), old(res).name@) ==> (old(manager).slots()[name_index(old(manager).names_view(), old(res).name@)] matches State::Using(u) ==> (r matches Some(v) && *v == u)),
        match r {
            Some(v) => {
                &&& old(res).instance matches Some(u) ==> *v == u && final(res).instance == Some(
                    *final(v),
                )
                &&& old(res).instance is None ==> (final(res).resource_spec() matches Some(i)
                    && final(manager).slots()[i as int] == State::<T>::Using(*final(v)))
            },
            None => {
                &&& old(res).instance is None
                &&& final(res).instance is None
                &&& final(res).resource_spec() matches Some(i) ==> !(final(manager).slots()[i as int] is Using)
            },
        },
{
    if res.instance.is_some() {
        res.instance.as_mut()
    } else if let Some(i) = res.resource {
        manager.get_mut(i)
    } else {
        let (i, r) = manager.request_use_new(res.name.as_str());
        res.resource = Some(i);
        r
    }
}

/// As `resource_get`, but any private instance is ignored: resolution
/// always goes to the manager.
pub fn resource_get_mut_no_instance<'a, T: Create>(
    manager: &'a mut ResourceManager<T>,
    res: &'a mut ResTT<T>,
) -> (r: Option<&'a mut T>)
    requires
        old(manager).wf(),
        old(res).resource_spec() matches Some(i) ==> i < old(manager).slot_count(),
    ensures
        final(manager).wf(),
        slots_evolve(old(manager).slots(), final(manager).slots()),
        final(res).name@ == old(res).name@,
        final(res).instance == old(res).instance,
        old(res).resource_spec() is None ==> final(manager).names_view() =~= names_after_request(
            old(manager).names_view(),
            old(res).name@,
        ) && (final(res).resource_spec() matches Some(i) && i == name_index(
            final(manager).names_view(),
            old(res).name@,
        )),
        old(res).resource_spec() is Some ==> final(manager).names_view() == old(manager).names_view() && final(res).resource_spec() == old(res).resource_spec(),
        old(res).resource_spec() is Some ==> final(manager).pending_view() == old(manager).pending_view() && final(manager).slots().len() == old(manager).slots().len(),
        old(res).resource_spec() is None && contains_name(old(manager).names_view(), old(res).name@) ==> final(manager).pending_view() == old(manager).pending_view() && final(manager).slots().len() == old(manager).slots().len(),
        old(res).resource_spec() is None && !contains_name(old(manager).names_view(), old(res).name@) ==> final(manager).slots().len() == old(manager).slots().len() + 1 && final(manager).pending_view().len() == old(manager).pending_view().len() + 1 && final(manager).pending_view().last().name_spec() == old(res).name@ && final(manager).pending_view().last().index_spec() as int == name_index(final(manager).names_view(), old(res).name@),
        old(res).resource_spec() matches Some(i) ==> (old(manager).slots()[i as int] matches State::Using(u) ==> (r matches Some(v) && *v == u)),
        old(res).resource_spec() is None && contains_name(old(manager).names_view(), old(res).name@) ==> (old(manager).slots()[name_index(old(manager).names_view(), old(res).name@)] matches State::Using(u) ==> (r matches Some(v) && *v == u)),
        match r {
            Some(v) => final(res).resource_spec() matches Some(i) && final(manager).slots()[i as int] == State::<T>::Using(*final(v)),
            None => final(res).resource_spec() matches Some(i) ==> !(final(manager).slots()[i as int] is Using),
        },
{
    if let Some(i) = res.resource {
        manager.get_mut(i)
    } else {
        let (i, r) = manager.request_use_new(res.name.as_str());
        res.resource = Some(i);
        r
    }
}

/// Shared-reference resolution with index caching: private instance,
/// cached index, or a request by name.
pub fn resource_get_ref<'a, T: Create>(
    manager: &'a mut ResourceManager<T>,
    res: &'a mut ResTT<T>,
) -> (r: Option<&'a T>)
    requires
        old(manager).wf(),
        old(res).resource_spec() matches Some(i) ==> i < old(manager).slot_count(),
    ensures
        final(manager).wf(),
        slots_evolve(old(manager).slots(), final(manager).slots()),
        final(res).name@ == old(res).name@,
        final(res).instance == old(res).instance,
        old(res).instance is Some ==> *final(manager) == *old(manager) && final(res).resource_spec() == old(res).resource_spec() && r is Some,
        old(res).instance is None && old(res).resource_spec() is None ==> final(manager).names_view() =~= names_after_request(old(manager).names_view(), old(res).name@) && (final(res).resource_spec() matches Some(i) && i == name_index(
            final(manager).names_view(),
            old(res).name@,
        )),
        old(res).instance is None && old(res).resource_spec() is Some ==> final(manager).names_view() == old(manager).names_view() && final(res).resource_spec() == old(res).resource_spec(),
        old(res).instance is None && old(res).resource_spec() is Some ==> final(manager).pending_view() == old(manager).pending_view() && final(manager).slots().len() == old(manager).slots().len(),
        old(res).instance is None && old(res).resource_spec() is None && contains_name(old(manager).names_view(), old(res).name@) ==> final(manager).pending_view() == old(manager).pending_view() && final(manager).slots().len() == old(manager).slots().len(),
        old(res).instance is None && old(res).resource_spec() is None && !contains_name(old(manager).names_view(), old(res).name@) ==> final(manager).slots().len() == old(manager).slots().len() + 1 && final(manager).pending_view().len() == old(manager).pending_view().len() + 1 && final(manager).pending_view().last().name_spec() == old(res).name@ && final(manager).pending_view().last().index_spec() as int == name_index(final(manager).names_view(), old(res).name@),
        old(res).instance is None ==> (old(res).resource_spec() matches Some(i) ==> (old(manager).slots()[i as int] matches State::Using(u) ==> (r matches Some(v) && *v == u))),
        old(res).instance is None && old(res).resource_spec() is None && contains_name(old(manager).names_view(), old(res).name@) ==> (old(manager).slots()[name_index(old(manager).names_view(), old(res).name@)] matches State::Using(u) ==> (r matches Some(v) && *v == u)),
        old(res).instance is None ==> (old(res).resource_spec() matches Some(i) ==> slot_steps(
            old(manager).slots()[i as int],
            final(manager).slots()[i as int],
        )),
        old(res).instance is None && old(res).resource_spec() is None && contains_name(old(manager).names_view(), old(res).name@) ==> slot_steps(
            old(manager).slots()[name_index(old(manager).names_view(), old(res).name@)],
            final(manager).slots()[name_index(old(manager).names_view(), old(res).name@)],
        ),
        match r {
            Some(v) => {
                &&& old(res).instance matches Some(u) ==> *v == u
                &&& old(res).instance is None ==> (final(res).resource_spec() matches Some(i)
                    && final(manager).slots()[i as int] == State::<T>::Using(*v))
            },
            None => {
                &&& old(res).instance is None
                &&& final(res).resource_spec() matches Some(i) ==> !(final(manager).slots()[i as int] is Using)
            },
        },
{
    if res.instance.is_some() {
        res.instance.as_ref()
    } else if let Some(i) = res.resource {
        manager.get_ref(i)
    } else {
        let (i, r) = manager.get_or_load_ref_from_name(res.name.as_str());
        res.resource = Some(i);
        r
    }
}

/// As `resource_get`, going through `get_or_load_mut_from_name` for a
/// handle that has not resolved yet.
pub fn resource_get_mut<'a, T: Create>(
    manager: &'a mut ResourceManager<T>,
    res: &'a mut ResTT<T>,
) -> (r: Option<&'a mut T>)
    requires
        old(manager).wf(),
        old(res).resource_spec() matches Some(i) ==> i < old(manager).slot_count(),
    ensures
        final(manager).wf(),
        slots_evolve(old(manager).slots(), final(manager).slots()),
        final(res).name@ == old(res).name@,
        old(res).instance is Some ==> *final(manager) == *old(manager) && final(res).resource_spec() == old(res).resource_spec() && r is Some,
        old(res).instance is None && old(res).resource_spec() is None ==> final(manager).names_view() =~= names_after_request(old(manager).names_view(), old(res).name@) && (final(res).resource_spec() matches Some(i) && i == name_index(
            final(manager).names_view(),
            old(res).name@,
        )),
        old(res).instance is None && old(res).resource_spec() is Some ==> final(manager).names_view() == old(manager).names_view() && final(res).resource_spec() == old(res).resource_spec(),
        old(res).instance is None && old(res).resource_spec() is Some ==> final(manager).pending_view() == old(manager).pending_view() && final(manager).slots().len() == old(manager).slots().len(),
        old(res).instance is None && old(res).resource_spec() is None && contains_name(old(manager).names_view(), old(res).name@) ==> final(manager).pending_view() == old(manager).pending_view() && final(manager).slots().len() == old(manager).slots().len(),
        old(res).instance is None && old(res).resource_spec() is None && !contains_name(old(manager).names_view(), old(res).name@) ==> final(manager).slots().len() == old(manager).slots().len() + 1 && final(manager).pending_view().len() == old(manager).pending_view().len() + 1 && final(manager).pending_view().last().name_spec() == old(res).name@ && final(manager).pending_view().last().index_spec() as int == name_index(final(manager).names_view(), old(res).name@),
        old(res).instance is None ==> (old(res).resource_spec() matches Some(i) ==> (old(manager).slots()[i as int] matches State::Using(u) ==> (r matches Some(v) && *v == u))),
        old(res).instance is None && old(res).resource_spec() is None && contains_name(old(manager).names_view(), old(res).name@) ==> (old(manager).slots()[name_index(old(manager).names_view(), old(res).name@)] matches State::Using(u) ==> (r matches Some(v) && *v == u)),
        match r {
            Some(v) => {
                &&& old(res).instance matches Some(u) ==> *v == u && final(res).instance == Some(
                    *final(v),
                )
                &&& old(res).instance is None ==> (final(res).resource_spec() matches Some(i)
                    && final(manager).slots()[i as int] == State::<T>::Using(*final(v)))
            },
            None => {
                &&& old(res).instance is None
                &&& final(res).instance is None
                &&& final(res).resource_spec() matches Some(i) ==> !(final(manager).slots()[i as int] is Using)
            },
        },
{
    if res.instance.is_some() {
        res.instance.as_mut()
    } else if let Some(i) = res.resource {
        manager.get_mut(i)
    } else {
        let (i, r) = manager.get_or_load_mut_from_name(res.name.as_str());
        res.resource = Some(i);
        r
    }
}

impl<T: Create> ResourceManager<T> {
    /// Request `name` on the synchronous path and hand back a handle
    /// already bound to its slot.
    pub fn request_use_no_proc_tt(&mut self, name: &str) -> (r: ResTT<T>)
        requires
            old(self).wf(),
        ensures
            final(self).wf(),
            final(self).names_view() =~= names_after_request(old(self).names_view(), name@),
            slots_evolve(old(self).slots(), final(self).slots()),
            final(self).pending_view() == old(self).pending_view(),
            old(self).has_name(name@) ==> *final(self) == *old(self),
            r.name@ == name@,
            r.instance is None,
            r.instance_managed is None,
            r.resource_spec() matches Some(i) && i < final(self).slot_count() && i as int
                == name_index(final(self).names_view(), name@),
            !old(self).has_name(name@) ==> final(self).slots()[name_index(
                final(self).names_view(),
                name@,
            )] is Using,
    {
        let i = self.request_use_no_proc_new(name);
        ResTT::new_with_index(name, i)
    }

    /// As `request_use_no_proc_tt`: an immediately usable handle.
    pub fn get_handle_instant(&mut self, name: &str) -> (r: ResTT<T>)
        requires
            old(self).wf(),
        ensures
            final(self).wf(),
            final(self).names_view() =~= names_after_request(old(self).names_view(), name@),
            slots_evolve(old(self).slots(), final(self).slots()),
            final(self).pending_view() == old(self).pending_view(),
            old(self).has_name(name@) ==> *final(self) == *old(self),
            r.name@ == name@,
            r.instance is None,
            r.instance_managed is None,
            r.resource_spec() matches Some(i) && i < final(self).slot_count() && i as int
                == name_index(final(self).names_view(), name@),
            !old(self).has_name(name@) ==> final(self).slots()[name_index(
                final(self).names_view(),
                name@,
            )] is Using,
    {
        let i = self.request_use_no_proc_new(name);
        ResTT::new_with_index(name, i)
    }
}

impl<T: Create + Clone> ResourceManager<T> {
    /// Synchronous request returning a handle that owns a private clone
    /// of the loaded value when one is available.
    pub fn request_use_no_proc_tt_instance(&mut self, name: &str) -> (r: ResTT<T>)
        requires
            old(self).wf(),
        ensures
            final(self).wf(),
            final(self).names_view() =~= names_after_request(old(self).names_view(), name@),
            slots_evolve(old(self).slots(), final(self).slots()),
            final(self).pending_view() == old(self).pending_view(),
            old(self).has_name(name@) ==> *final(self) == *old(self),
            !old(self).has_name(name@) ==> final(self).slots()[name_index(
                final(self).names_view(),
                name@,
            )] is Using,
            r.name@ == name@,
            r.instance_managed is None,
            r.resource_spec() matches Some(i) && i < final(self).slot_count() && i as int
                == name_index(final(self).names_view(), name@),
            r.instance is Some <==> final(self).slots()[name_index(
                final(self).names_view(),
                name@,
            )] is Using,
    {
        let i = self.request_use_no_proc_new(name);
        let mut t = ResTT::new_with_index(name, i);
        t.create_instance_with_manager(self);
        t
    }
}

/// Law (single flight): a request for a mapped name changes nothing in
/// the name map, so any number of requests for one name allocate at
/// most one slot; a fresh name gets the next index.
pub proof fn lemma_request_single_flight(names: Seq<Seq<char>>, n: Seq<char>)
    requires
        distinct_names(names),
    ensures
        distinct_names(names_after_request(names, n)),
        contains_name(names_after_request(names, n), n),
        names_after_request(names_after_request(names, n), n) == names_after_request(names, n),
        !contains_name(names, n) ==> name_index(names_after_request(names, n), n)
            == names.len(),
{
    let names1 = names_after_request(names, n);
    if contains_name(names, n) {
        assert(names1 == names);
    } else {
        assert(names1 == names.push(n));
        assert(names1[names.len() as int] == n);
        assert(contains_name(names1, n));
        assert forall|a: int, b: int| 0 <= a < b < names1.len() implies names1[a] != names1[b] by {
            if b < names.len() {
                assert(names[a] != names[b]);
            } else {
                assert(names1[b] == n);
                assert(names1[a] == names[a]);
                assert(!contains_name(names, n));
            }
        }
        lemma_name_index_unique(names1, n, names.len() as int);
    }
}

/// Law (index stability): once a name is mapped, any later request —
/// for this or any other name — leaves its index unchanged.
pub proof fn lemma_index_stability(names: Seq<Seq<char>>, n: Seq<char>, n2: Seq<char>)
    requires
        distinct_names(names),
        contains_name(names, n),
    ensures
        contains_name(names_after_request(names, n2), n),
        name_index(names_after_request(names, n2), n) == name_index(names, n),
{
    let i = name_index(names, n);
    assert(0 <= i < names.len() && names[i] == n);
    let names1 = names_after_request(names, n2);
    if contains_name(names, n2) {
        assert(names1 == names);
    } else {
        lemma_request_single_flight(names, n2);
        assert(names1[i] == n);
        lemma_name_index_unique(names1, n, i);
    }
}

/// Law (monotonic state): legal slot evolutions compose, so over any
/// sequence of cache operations a slot observed `Using` can never be
/// observed `Loading` again.
pub proof fn lemma_slots_evolve_trans<T>(a: Seq<State<T>>, b: Seq<State<T>>, c: Seq<State<T>>)
    requires
        slots_evolve(a, b),
        slots_evolve(b, c),
    ensures
        slots_evolve(a, c),
{
}

/// Law (monotonic state, pointwise): a slot observed `Using` stays
/// `Using`, and one observed `Failed` stays `Failed`, under any legal
/// evolution of the cache.
pub proof fn lemma_ready_stays_ready<T>(a: Seq<State<T>>, b: Seq<State<T>>, i: int)
    requires
        slots_evolve(a, b),
        0 <= i < a.len(),
    ensures
        a[i] is Using ==> b[i] is Using,
        a[i] is Failed ==> b[i] is Failed,
        b[i] is Loading ==> a[i] is Loading,
{
}

/// A well-formed manager seen from outside: its names are distinct
/// and line up one-to-one with its slots.
pub proof fn lemma_wf_shape<T: Create>(m: &ResourceManager<T>)
    requires
        m.wf(),
    ensures
        distinct_names(m.names_view()),
        m.names_view().len() == m.slots().len(),
{
}

/// Law (index stability, over whole histories): however the name map
/// grows, a name keeps the index it was first given.
pub proof fn lemma_extend_preserves_index(
    before: Seq<Seq<char>>,
    after: Seq<Seq<char>>,
    n: Seq<char>,
)
    requires
        distinct_names(before),
        distinct_names(after),
        names_extend(before, after),
        contains_name(before, n),
    ensures
        contains_name(after, n),
        name_index(after, n) == name_index(before, n),
{
    let i = name_index(before, n);
    assert(0 <= i < before.len() && before[i] == n);
    assert(after[i] == n);
    lemma_name_index_unique(after, n, i);
}

/// One manager per resource kind: the bundle the scene graph and the
/// renderer carry around.
pub struct ResourceGroup {
    pub mesh_manager: ResourceManager<crate::mesh::Mesh>,
    pub shader_manager: ResourceManager<crate::shader::Shader>,
    pub texture_manager: ResourceManager<crate::texture::Texture>,
    pub material_manager: ResourceManager<crate::material::Material>,
    pub fbo_manager: ResourceManager<crate::fbo::Fbo>,
    pub armature_manager: ResourceManager<crate::armature::Armature>,
}

impl ResourceGroup {
    /// All six managers well formed at once.
    pub open spec fn wf(&self) -> bool {
        &&& self.mesh_manager.wf()
        &&& self.shader_manager.wf()
        &&& self.texture_manager.wf()
        &&& self.material_manager.wf()
        &&& self.fbo_manager.wf()
        &&& self.armature_manager.wf()
    }

    pub fn new() -> (r: ResourceGroup)
        ensures
            r.wf(),
            r.mesh_manager.slot_count() == 0,
            r.shader_manager.slot_count() == 0,
            r.texture_manager.slot_count() == 0,
            r.material_manager.slot_count() == 0,
            r.fbo_manager.slot_count() == 0,
            r.armature_manager.slot_count() == 0,
    {
        ResourceGroup {
            mesh_manager: ResourceManager::new(),
            shader_manager: ResourceManager::new(),
            texture_manager: ResourceManager::new(),
            material_manager: ResourceManager::new(),
            fbo_manager: ResourceManager::new(),
            armature_manager: ResourceManager::new(),
        }
    }
}

} // verus!
