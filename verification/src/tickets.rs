//! Per-guild ticket sequencer.
//!
//! One counter row per guild holds the last ticket number handed out;
//! a missing row stands for a counter of zero. Allocation is a single
//! read-increment-upsert step on the state, which is what makes the
//! returned numbers strictly increasing for each guild.

use vstd::prelude::*;

use crate::error::{fits_store_id, to_store_id, Error};

verus! {

broadcast use vstd::std_specs::hash::group_hash_axioms;

/// The counter rows: one last-allocated ticket number per guild key.
pub struct TicketSequencer {
    counters: std::collections::HashMap<i64, i32>,
}

impl View for TicketSequencer {
    type V = Map<i64, i32>;

    closed spec fn view(&self) -> Map<i64, i32> {
        self.counters@
    }
}

/// The counter a guild is at: the stored row, or zero when no row
/// exists yet.
pub open spec fn counter_of(m: Map<i64, i32>, g: i64) -> i32 {
    if m.contains_key(g) {
        m[g]
    } else {
        0
    }
}

/// Every stored counter is a ticket number already handed out, hence
/// non-negative.
pub open spec fn counters_wf(m: Map<i64, i32>) -> bool {
    forall|g: i64| m.contains_key(g) ==> #[trigger] m[g] >= 0
}

/// One allocation step on the counter state: the next number and the
/// updated state, or the report that the next number no longer fits
/// the store's counter width.
pub open spec fn spec_allocate(m: Map<i64, i32>, g: i64) -> Result<(Map<i64, i32>, i32), Error> {
    let c = counter_of(m, g);
    if c == i32::MAX {
        Err(Error::ConversionError)
    } else {
        Ok((m.insert(g, (c + 1) as i32), (c + 1) as i32))
    }
}

/// True when one successful allocation for guild `g` turns state `m0`
/// into `m1` and returns ticket number `t`.
pub open spec fn allocate_step(m0: Map<i64, i32>, g: i64, t: i32, m1: Map<i64, i32>) -> bool {
    &&& counter_of(m0, g) < i32::MAX
    &&& t == counter_of(m0, g) + 1
    &&& m1 == m0.insert(g, t)
}

impl TicketSequencer {
    /// An empty counter table: no guild has allocated yet.
    pub fn new() -> (r: Self)
        ensures
            r@ == Map::<i64, i32>::empty(),
            counters_wf(r@),
    {
        TicketSequencer { counters: std::collections::HashMap::new() }
    }

    /// Reads the stored counter row for a guild; a guild that never
    /// allocated has no row.
    pub fn get_support_thead_id(&self, guild_id: u64) -> (r: Result<i32, Error>)
        ensures
            !fits_store_id(guild_id) ==> r == Err::<i32, Error>(Error::ConversionError),
            fits_store_id(guild_id) && self@.contains_key(guild_id as i64) ==> r == Ok::<
                i32,
                Error,
            >(self@[guild_id as i64]),
            fits_store_id(guild_id) && !self@.contains_key(guild_id as i64) ==> r == Err::<
                i32,
                Error,
            >(Error::NotFound),
    {
        let gid = match to_store_id(guild_id) {
            Ok(g) => g,
            Err(e) => { return Err(e) },
        };
        match self.counters.get(&gid) {
            Some(c) => Ok(*c),
            None => Err(Error::NotFound),
        }
    }

    /// Writes a counter row for a guild, inserting it or replacing the
    /// stored value: one atomic upsert.
    pub fn update_support_thread_id(&mut self, guild_id: u64, thread_id: i32) -> (r: Result<
        (),
        Error,
    >)
        requires
            counters_wf(old(self)@),
            thread_id >= 0,
        ensures
            counters_wf(final(self)@),
            !fits_store_id(guild_id) ==> r == Err::<(), Error>(Error::ConversionError)
                && final(self)@ == old(self)@,
            fits_store_id(guild_id) ==> r == Ok::<(), Error>(())
                && final(self)@ == old(self)@.insert(guild_id as i64, thread_id),
    {
        let gid = match to_store_id(guild_id) {
            Ok(g) => g,
            Err(e) => { return Err(e) },
        };
        self.counters.insert(gid, thread_id);
        Ok(())
    }

    /// Allocates the next ticket number for a guild: one more than the
    /// stored counter (zero when no row exists), persisted in the same
    /// step. Fails without mutation when the guild identifier, or the
    /// next number itself, does not fit the store's integer widths.
    pub fn allocate_next_ticket_id(&mut self, guild_id: u64) -> (r: Result<i32, Error>)
        requires
            counters_wf(old(self)@),
        ensures
            counters_wf(final(self)@),
            !fits_store_id(guild_id) ==> r == Err::<i32, Error>(Error::ConversionError)
                && final(self)@ == old(self)@,
            fits_store_id(guild_id) ==> match spec_allocate(old(self)@, guild_id as i64) {
                Ok(next) => r == Ok::<i32, Error>(next.1) && final(self)@ == next.0,
                Err(e) => r == Err::<i32, Error>(e) && final(self)@ == old(self)@,
            },
            r is Ok ==> fits_store_id(guild_id) && allocate_step(
                old(self)@,
                guild_id as i64,
                r->Ok_0,
                final(self)@,
            ),
    {
        let gid = match to_store_id(guild_id) {
            Ok(g) => g,
            Err(e) => { return Err(e) },
        };
        let current: i32 = match self.counters.get(&gid) {
            Some(c) => *c,
            None => 0,
        };
        if current == i32::MAX {
            return Err(Error::ConversionError);
        }
        let next = current + 1;
        self.counters.insert(gid, next);
        Ok(next)
    }
}

/// Along a chain of successful allocations for one guild, the stored
/// counter never decreases.
proof fn lemma_counter_monotone(
    states: Seq<Map<i64, i32>>,
    ids: Seq<i32>,
    g: i64,
    a: int,
    b: int,
)
    requires
        states.len() == ids.len() + 1,
        forall|k: int|
            0 <= k < ids.len() ==> #[trigger] allocate_step(states[k], g, ids[k], states[k + 1]),
        0 <= a <= b <= ids.len(),
    ensures
        counter_of(states[a], g) <= counter_of(states[b], g),
    decreases b - a,
{
    if a < b {
        lemma_counter_monotone(states, ids, g, a, b - 1);
        let k = b - 1;
        assert(allocate_step(states[k], g, ids[k], states[k + 1]));
        assert(counter_of(states[b], g) == ids[k]);
    }
}

/// Law: repeated allocations for the same guild return a strictly
/// increasing sequence of ticket numbers — no number is ever handed
/// out twice. `states` is the chain of counter states the store moves
/// through; `ids` are the numbers returned along it.
pub proof fn lemma_ticket_ids_strictly_increase(
    states: Seq<Map<i64, i32>>,
    ids: Seq<i32>,
    g: i64,
    i: int,
    j: int,
)
    requires
        states.len() == ids.len() + 1,
        forall|k: int|
            0 <= k < ids.len() ==> #[trigger] allocate_step(states[k], g, ids[k], states[k + 1]),
        0 <= i < j < ids.len(),
    ensures
        ids[i] < ids[j],
{
    assert(allocate_step(states[i], g, ids[i], states[i + 1]));
    assert(counter_of(states[i + 1], g) == ids[i]);
    lemma_counter_monotone(states, ids, g, i + 1, j);
    assert(allocate_step(states[j], g, ids[j], states[j + 1]));
}

} // verus!
