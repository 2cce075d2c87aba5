//! The experience store: a fixed-capacity ring of transitions. Once full, the
//! oldest slot (by insertion index modulo the capacity) is overwritten, so the
//! buffer always holds exactly the most recent stores. Batches for training
//! are drawn independently and uniformly at random, with replacement.

use vstd::prelude::*;
use vstd::arithmetic::div_mod::{lemma_small_mod, lemma_mod_equivalence, lemma_mod_bound,
    lemma_mod_multiples_vanish, lemma_fundamental_div_mod};
use crate::errors::ConfigError;
use crate::rng::{fresh_rng, rng_below};

verus! {

/// Default capacity of the experience store.
pub const BUFFER_SIZE: usize = 500_000;

/// Mathematical image of one stored transition: observation before the
/// action, action index, reward in milli-units, observation after.
pub type TransitionView = (Seq<i64>, int, int, Seq<i64>);

/// One experience tuple: the observation the action was chosen from, the
/// action index, the shaped reward in milli-units, and the observation one
/// tick later. Immutable once stored.
#[derive(Debug, PartialEq, Eq)]
pub struct Transition {
    pub state: Vec<i64>,
    pub action: usize,
    pub reward: i64,
    pub next_state: Vec<i64>,
}

impl View for Transition {
    type V = TransitionView;

    open spec fn view(&self) -> TransitionView {
        (self.state@, self.action as int, self.reward as int, self.next_state@)
    }
}

/// Fixed-capacity ring store of transitions, kept as four column vectors as
/// the training code consumes them. `i` counts every store ever made; the
/// slot written next is `i % capacity`. The ghost `history` records every
/// transition ever stored, oldest first, and the well-formedness invariant
/// ties each live slot to it.
pub struct ReplayBuffer {
    pub state: Vec<Vec<i64>>,
    pub action: Vec<usize>,
    pub reward: Vec<i64>,
    pub next_state: Vec<Vec<i64>>,
    pub i: usize,
    pub capacity: usize,
    pub history: Ghost<Seq<TransitionView>>,
}

impl ReplayBuffer {
    /// The transition held in ring slot `j`.
    pub open spec fn slot(self, j: int) -> TransitionView {
        (self.state@[j]@, self.action@[j] as int, self.reward@[j] as int, self.next_state@[j]@)
    }

    /// Everything the buffer holds right now, by slot index.
    pub open spec fn contents(self) -> Seq<TransitionView> {
        Seq::new(self.state@.len(), |j: int| self.slot(j))
    }

    /// How many stores have ever been made.
    pub open spec fn stores(self) -> nat {
        self.history@.len()
    }

    /// Index into the history of the oldest store the ring still holds.
    pub open spec fn first_kept(self) -> int {
        if self.stores() <= self.capacity as nat {
            0
        } else {
            self.stores() - self.capacity as nat
        }
    }

    /// Well-formed: the column vectors agree in length; the length is the
    /// smaller of the store count and the capacity; the insertion counter
    /// counts every store; and each of the most recent `capacity` stores sits
    /// in its ring slot, store number `k` in slot `k % capacity`.
    pub open spec fn wf(self) -> bool {
        &&& 1 <= self.capacity
        &&& self.action@.len() == self.state@.len()
        &&& self.reward@.len() == self.state@.len()
        &&& self.next_state@.len() == self.state@.len()
        &&& self.i as nat == self.stores()
        &&& self.state@.len() == if self.stores() <= self.capacity as nat {
            self.stores()
        } else {
            self.capacity as nat
        }
        &&& forall|k: int|
            self.first_kept() <= k < self.stores() ==> self.slot(
                k % (self.capacity as int),
            ) == self.history@[k]
    }

    /// An empty buffer with the default capacity.
    pub fn new() -> (rb: ReplayBuffer)
        ensures
            rb.wf(),
            rb.capacity == BUFFER_SIZE,
            rb.stores() == 0,
    {
        ReplayBuffer {
            state: Vec::new(),
            action: Vec::new(),
            reward: Vec::new(),
            next_state: Vec::new(),
            i: 0,
            capacity: BUFFER_SIZE,
            history: Ghost(Seq::empty()),
        }
    }

    /// An empty buffer with the given capacity. A capacity of zero cannot
    /// hold a single transition and is a configuration error.
    pub fn with_capacity(capacity: usize) -> (r: Result<ReplayBuffer, ConfigError>)
        ensures
            match r {
                Ok(rb) => {
                    &&& capacity >= 1
                    &&& rb.wf()
                    &&& rb.capacity == capacity
                    &&& rb.stores() == 0
                },
                Err(e) => {
                    &&& capacity == 0
                    &&& e == ConfigError::ZeroBufferCapacity
                },
            },
    {
        if capacity == 0 {
            return Err(ConfigError::ZeroBufferCapacity);
        }
        Ok(
            ReplayBuffer {
                state: Vec::new(),
                action: Vec::new(),
                reward: Vec::new(),
                next_state: Vec::new(),
                i: 0,
                capacity,
                history: Ghost(Seq::empty()),
            },
        )
    }

    /// Number of transitions currently held: the smaller of the store count
    /// and the capacity.
    pub fn len(&self) -> (n: usize)
        requires
            self.wf(),
        ensures
            n == self.contents().len(),
            n as nat == if self.stores() <= self.capacity as nat {
                self.stores()
            } else {
                self.capacity as nat
            },
    {
        self.state.len()
    }

    /// Store one transition. Always succeeds: while the buffer is filling it
    /// appends, afterwards it overwrites ring slot `i % capacity`, the oldest
    /// entry.
    pub fn store(&mut self, state: Vec<i64>, action: usize, reward: i64, next_state: Vec<i64>)
        requires
            old(self).wf(),
            old(self).i < usize::MAX,
        ensures
            final(self).wf(),
            final(self).capacity == old(self).capacity,
            final(self).history@ == old(self).history@.push(
                (state@, action as int, reward as int, next_state@),
            ),
    {
        let ghost tv: TransitionView = (state@, action as int, reward as int, next_state@);
        let ghost cap = self.capacity as int;
        let ghost n = self.history@.len() as int;
        if self.state.len() < self.capacity {
            self.state.push(state);
            self.action.push(action);
            self.reward.push(reward);
            self.next_state.push(next_state);
        } else {
            let slot = self.i % self.capacity;
            self.state[slot] = state;
            self.action[slot] = action;
            self.reward[slot] = reward;
            self.next_state[slot] = next_state;
        }
        self.i = self.i + 1;
        proof {
            self.history@ = self.history@.push(tv);
            assert forall|k: int| self.first_kept() <= k < self.stores() implies self.slot(
                k % cap,
            ) == self.history@[k] by {
                if k == n {
                    // the slot just written holds the new transition
                    lemma_small_mod((if n < cap { n } else { n % cap }) as nat, cap as nat);
                } else {
                    // an untouched slot: its store is recent enough that the
                    // old invariant pins it, and it is not the slot written,
                    // because two store numbers less than `capacity` apart
                    // never share a ring slot
                    if n < cap {
                        lemma_small_mod(k as nat, cap as nat);
                        lemma_small_mod(n as nat, cap as nat);
                    } else {
                        lemma_mod_equivalence(n, k, cap);
                        lemma_small_mod((n - k) as nat, cap as nat);
                    }
                }
            }
        }
    }

    /// Fetch the transitions at the given slot indexes, in the given order.
    pub fn get_batch(&self, indexes: &Vec<usize>) -> (batch: Vec<Transition>)
        requires
            self.wf(),
            forall|j: int| 0 <= j < indexes@.len() ==> indexes@[j] < self.contents().len(),
        ensures
            batch@.len() == indexes@.len(),
            forall|j: int|
                0 <= j < batch@.len() ==> batch@[j]@ == self.contents()[indexes@[j] as int],
    {
        let mut batch: Vec<Transition> = Vec::new();
        let mut j: usize = 0;
        while j < indexes.len()
            invariant
                self.wf(),
                j <= indexes@.len(),
                batch@.len() == j,
                forall|m: int| 0 <= m < indexes@.len() ==> indexes@[m] < self.contents().len(),
                forall|m: int|
                    0 <= m < j ==> batch@[m]@ == self.contents()[indexes@[m] as int],
            decreases indexes@.len() - j,
        {
            let idx = indexes[j];
            let t = Transition {
                state: clone_values(&self.state[idx]),
                action: self.action[idx],
                reward: self.reward[idx],
                next_state: clone_values(&self.next_state[idx]),
            };
            batch.push(t);
            j = j + 1;
        }
        batch
    }

    /// Draw a batch of `batch_size` transitions, each index independently and
    /// uniformly at random from the live contents, with replacement, and
    /// return the drawn transitions in order. The caller must make sure the
    /// buffer holds at least `batch_size` transitions; there are no partial
    /// batches.
    pub fn sample_batch(&self, batch_size: usize) -> (batch: Vec<Transition>)
        requires
            self.wf(),
            batch_size <= self.contents().len(),
        ensures
            batch@.len() == batch_size,
            forall|j: int| 0 <= j < batch@.len() ==> self.contents().contains(#[trigger] batch@[j]@),
    {
        let n = self.len();
        let mut rng = fresh_rng();
        let mut indexes: Vec<usize> = Vec::new();
        let mut j: usize = 0;
        while j < batch_size
            invariant
                batch_size <= n,
                n == self.contents().len(),
                j <= batch_size,
                indexes@.len() == j,
                forall|m: int| 0 <= m < j ==> indexes@[m] < self.contents().len(),
            decreases batch_size - j,
        {
            let idx = rng_below(&mut rng, n);
            indexes.push(idx);
            j = j + 1;
        }
        let batch = self.get_batch(&indexes);
        proof {
            assert forall|m: int| 0 <= m < batch@.len() implies self.contents().contains(
                #[trigger] batch@[m]@,
            ) by {
                assert(self.contents()[indexes@[m] as int] == batch@[m]@);
            }
        }
        batch
    }
}

/// Law: after any number of stores the buffer length is the smaller of the
/// store count and the capacity.
pub proof fn lemma_len_is_min_of_stores_and_capacity(rb: ReplayBuffer)
    requires
        rb.wf(),
    ensures
        rb.contents().len() == if rb.stores() <= rb.capacity as nat {
            rb.stores()
        } else {
            rb.capacity as nat
        },
{
}

/// Law: while the buffer is still filling, store number `k` sits in slot `k`,
/// so the buffer holds every store so far in order.
pub proof fn lemma_buffer_in_store_order(rb: ReplayBuffer, k: int)
    requires
        rb.wf(),
        rb.stores() <= rb.capacity as nat,
        0 <= k < rb.stores(),
    ensures
        rb.contents()[k] == rb.history@[k],
{
    lemma_small_mod(k as nat, rb.capacity as nat);
}

/// Law: once more stores have happened than the capacity, the buffer holds
/// exactly the most recent `capacity` stores, the oldest overwritten first:
/// store number `k` sits in slot `k % capacity`.
pub proof fn lemma_ring_keeps_most_recent(rb: ReplayBuffer, k: int)
    requires
        rb.wf(),
        rb.stores() > rb.capacity as nat,
        rb.stores() - rb.capacity as nat <= k < rb.stores(),
    ensures
        rb.contents()[k % (rb.capacity as int)] == rb.history@[k],
{
}

/// Law: the converse direction of ring retention. Once more stores have
/// happened than the capacity, every live slot holds one of the most recent
/// `capacity` stores, so the buffer contains those and nothing else.
pub proof fn lemma_every_slot_holds_a_recent_store(rb: ReplayBuffer, j: int)
    requires
        rb.wf(),
        rb.stores() > rb.capacity as nat,
        0 <= j < rb.capacity as int,
    ensures
        exists|k: int|
            rb.stores() - rb.capacity as nat <= k < rb.stores() && #[trigger] (k % (
            rb.capacity as int)) == j && rb.contents()[j] == rb.history@[k],
{
    let cap = rb.capacity as int;
    let n = rb.stores() as int;
    let base = n - cap;
    let off = (j - base) % cap;
    let k = base + off;
    lemma_mod_bound(j - base, cap);
    lemma_fundamental_div_mod(j - base, cap);
    // k differs from j by a multiple of the capacity, so they share a slot
    let q = (j - base) / cap;
    assert(cap * (-q) == -(cap * q)) by (nonlinear_arith);
    assert(k == cap * (-q) + j);
    lemma_mod_multiples_vanish(-q, j, cap);
    lemma_small_mod(j as nat, cap as nat);
    assert(k % cap == j);
    assert(rb.slot(k % cap) == rb.history@[k]);
    assert(rb.contents()[j] == rb.slot(j));
}

/// Copy a vector of fixed-point values.
pub(crate) fn clone_values(v: &Vec<i64>) -> (r: Vec<i64>)
    ensures
        r@ == v@,
{
    let r = v.clone();
    proof {
        assert(r@ =~= v@);
    }
    r
}

} // verus!
