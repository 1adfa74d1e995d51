//! Per-user star ledger.
//!
//! One account row per user holds the current balance and the lifetime
//! given/received counters. A paid transfer moves the balance and the
//! given counter in one atomic step and is rejected when it would
//! drive the balance negative; a free transfer touches only the given
//! counter and the free-transfer timestamp. Rows are created lazily on
//! first reference, with all counters at zero.

use vstd::prelude::*;

use crate::clock::now_unix;
use crate::error::{fits_store_id, to_store_id, Error};

verus! {

broadcast use vstd::std_specs::hash::group_hash_axioms;

/// One account row, exactly as the store would hold it: the balance,
/// the two lifetime counters, and the moment of the most recent free
/// transfer (seconds since the Unix epoch), if any.
#[derive(Clone, Copy, Debug, PartialEq, Eq)]
pub struct GoldStar {
    pub number_of_stars: i32,
    pub given_stars: i32,
    pub received_stars: i32,
    pub last_free_star: Option<i64>,
}

/// All counters of an account are non-negative; in particular the
/// balance never goes below zero.
pub open spec fn account_wf(a: GoldStar) -> bool {
    &&& a.number_of_stars >= 0
    &&& a.given_stars >= 0
    &&& a.received_stars >= 0
}

/// The row a brand-new user starts with.
pub open spec fn zero_account() -> GoldStar {
    GoldStar { number_of_stars: 0, given_stars: 0, received_stars: 0, last_free_star: None }
}

/// The row an explicit creation writes: the balance starts equal to
/// the received counter, and a user created with stars already given
/// is stamped with the creation moment as their last free transfer.
pub open spec fn new_account(given_stars: i32, received_stars: i32, now: i64) -> GoldStar {
    GoldStar {
        number_of_stars: received_stars,
        given_stars: given_stars,
        received_stars: received_stars,
        last_free_star: if given_stars > 0 {
            Some(now)
        } else {
            None
        },
    }
}

/// The account a user is at: the stored row, or the all-zero row when
/// none exists yet (rows are created lazily on first reference).
pub open spec fn account_or_zero(m: Map<i64, GoldStar>, u: i64) -> GoldStar {
    if m.contains_key(u) {
        m[u]
    } else {
        zero_account()
    }
}

/// Every stored row is well formed.
pub open spec fn ledger_wf(m: Map<i64, GoldStar>) -> bool {
    forall|u: i64| m.contains_key(u) ==> #[trigger] account_wf(m[u])
}

/// One transfer step on a single account. A free transfer raises the
/// given counter and stamps the timestamp, leaving balance and the
/// received counter unchanged. A paid transfer moves `amount` out of
/// the balance and onto the given counter in the same step; it is
/// rejected with `InsufficientBalance` when the balance would go
/// negative, and with `PersistenceFailure` when a counter would leave
/// the store's integer width. A rejected step changes nothing.
pub open spec fn spec_transfer(a: GoldStar, amount: i32, is_free: bool, now: i64) -> Result<
    GoldStar,
    Error,
> {
    if is_free {
        if a.given_stars + amount > i32::MAX {
            Err(Error::PersistenceFailure)
        } else {
            Ok(
                GoldStar {
                    number_of_stars: a.number_of_stars,
                    given_stars: (a.given_stars + amount) as i32,
                    received_stars: a.received_stars,
                    last_free_star: Some(now),
                },
            )
        }
    } else {
        if a.number_of_stars < amount {
            Err(Error::InsufficientBalance)
        } else if a.given_stars + amount > i32::MAX {
            Err(Error::PersistenceFailure)
        } else {
            Ok(
                GoldStar {
                    number_of_stars: (a.number_of_stars - amount) as i32,
                    given_stars: (a.given_stars + amount) as i32,
                    received_stars: a.received_stars,
                    last_free_star: a.last_free_star,
                },
            )
        }
    }
}

/// One receipt step on a single account: balance and the received
/// counter both rise by `amount`, atomically; the step is rejected
/// with `PersistenceFailure` when a counter would leave the store's
/// integer width, changing nothing.
pub open spec fn spec_receive(a: GoldStar, amount: i32) -> Result<GoldStar, Error> {
    if a.number_of_stars + amount > i32::MAX || a.received_stars + amount > i32::MAX {
        Err(Error::PersistenceFailure)
    } else {
        Ok(
            GoldStar {
                number_of_stars: (a.number_of_stars + amount) as i32,
                given_stars: a.given_stars,
                received_stars: (a.received_stars + amount) as i32,
                last_free_star: a.last_free_star,
            },
        )
    }
}

/// What a transfer call does to the whole table, for a given clock
/// reading `now`.
pub open spec fn transfer_effect(
    pre: Map<i64, GoldStar>,
    post: Map<i64, GoldStar>,
    giver_id: u64,
    amount: i32,
    is_free: bool,
    now: i64,
    r: Result<(), Error>,
) -> bool {
    if !fits_store_id(giver_id) {
        r == Err::<(), Error>(Error::ConversionError) && post == pre
    } else {
        let a = account_or_zero(pre, giver_id as i64);
        match spec_transfer(a, amount, is_free, now) {
            Ok(a2) => r == Ok::<(), Error>(()) && post == pre.insert(giver_id as i64, a2),
            Err(e) => r == Err::<(), Error>(e) && post == pre,
        }
    }
}

/// What an explicit account creation does to the whole table, for a
/// given clock reading `now`.
pub open spec fn create_user_effect(
    pre: Map<i64, GoldStar>,
    post: Map<i64, GoldStar>,
    user_id: u64,
    given_stars: i32,
    received_stars: i32,
    now: i64,
    r: Result<GoldStar, Error>,
) -> bool {
    if !fits_store_id(user_id) {
        r == Err::<GoldStar, Error>(Error::ConversionError) && post == pre
    } else if pre.contains_key(user_id as i64) {
        r == Err::<GoldStar, Error>(Error::PersistenceFailure) && post == pre
    } else {
        let a = new_account(given_stars, received_stars, now);
        r == Ok::<GoldStar, Error>(a) && post == pre.insert(user_id as i64, a)
    }
}

/// The account rows: one per user key.
pub struct StarLedger {
    accounts: std::collections::HashMap<i64, GoldStar>,
}

impl View for StarLedger {
    type V = Map<i64, GoldStar>;

    closed spec fn view(&self) -> Map<i64, GoldStar> {
        self.accounts@
    }
}

impl StarLedger {
    /// An empty ledger: no user has an account row yet.
    pub fn new() -> (r: Self)
        ensures
            r@ == Map::<i64, GoldStar>::empty(),
            ledger_wf(r@),
    {
        StarLedger { accounts: std::collections::HashMap::new() }
    }

    /// Writes a fresh account row for a user, failing without mutation
    /// when a row already exists (the store's unique key rejects the
    /// insert) or when the identifier does not fit the store. `now` is
    /// the clock reading stamped when the row starts with stars given.
    pub fn create_user_at(
        &mut self,
        user_id: u64,
        given_stars: i32,
        received_stars: i32,
        now: i64,
    ) -> (r: Result<GoldStar, Error>)
        requires
            ledger_wf(old(self)@),
            given_stars >= 0,
            received_stars >= 0,
        ensures
            ledger_wf(final(self)@),
            create_user_effect(old(self)@, final(self)@, user_id, given_stars, received_stars, now, r),
    {
        let uid = match to_store_id(user_id) {
            Ok(u) => u,
            Err(e) => { return Err(e) },
        };
        if self.accounts.contains_key(&uid) {
            return Err(Error::PersistenceFailure);
        }
        let row = GoldStar {
            number_of_stars: received_stars,
            given_stars: given_stars,
            received_stars: received_stars,
            last_free_star: if given_stars > 0 {
                Some(now)
            } else {
                None
            },
        };
        self.accounts.insert(uid, row);
        Ok(row)
    }

    /// Writes a fresh account row stamped with the current clock; see
    /// `create_user_at` for the effect at any one clock reading.
    pub fn create_user(&mut self, user_id: u64, given_stars: i32, received_stars: i32) -> (r:
        Result<GoldStar, Error>)
        requires
            ledger_wf(old(self)@),
            given_stars >= 0,
            received_stars >= 0,
        ensures
            ledger_wf(final(self)@),
            exists|now: i64|
                #[trigger] create_user_effect(
                    old(self)@,
                    final(self)@,
                    user_id,
                    given_stars,
                    received_stars,
                    now,
                    r,
                ),
    {
        let now = now_unix();
        self.create_user_at(user_id, given_stars, received_stars, now)
    }

    /// Fetches a user's account row, creating the all-zero row first
    /// when none exists. Idempotent: a repeated call returns the same
    /// row and leaves the table unchanged.
    pub fn get_or_create_account(&mut self, user_id: u64) -> (r: Result<GoldStar, Error>)
        requires
            ledger_wf(old(self)@),
        ensures
            ledger_wf(final(self)@),
            !fits_store_id(user_id) ==> r == Err::<GoldStar, Error>(Error::ConversionError)
                && final(self)@ == old(self)@,
            fits_store_id(user_id) && old(self)@.contains_key(user_id as i64) ==> r == Ok::<
                GoldStar,
                Error,
            >(old(self)@[user_id as i64]) && final(self)@ == old(self)@,
            fits_store_id(user_id) && !old(self)@.contains_key(user_id as i64) ==> r == Ok::<
                GoldStar,
                Error,
            >(zero_account()) && final(self)@ == old(self)@.insert(user_id as i64, zero_account()),
    {
        let uid = match to_store_id(user_id) {
            Ok(u) => u,
            Err(e) => { return Err(e) },
        };
        match self.accounts.get(&uid) {
            Some(a) => Ok(*a),
            None => {
                let r = self.create_user_at(user_id, 0, 0, 0);
                proof {
                    assert(new_account(0, 0, 0) == zero_account());
                }
                r
            },
        }
    }

    /// Moves `amount` stars out of the giver's account at clock
    /// reading `now`: free transfers raise only the given counter and
    /// the timestamp, paid transfers also deduct from the balance.
    /// A rejected transfer leaves the table unchanged.
    pub fn transfer_star_at(&mut self, giver_id: u64, amount: i32, is_free: bool, now: i64) -> (r:
        Result<(), Error>)
        requires
            ledger_wf(old(self)@),
            amount >= 0,
        ensures
            ledger_wf(final(self)@),
            transfer_effect(old(self)@, final(self)@, giver_id, amount, is_free, now, r),
            r is Err ==> final(self)@ == old(self)@,
            // A free transfer updates the given counter and the
            // timestamp but leaves the balance and the received
            // counter unchanged.
            is_free && r is Ok ==> ({
                let a = account_or_zero(old(self)@, giver_id as i64);
                let a2 = final(self)@[giver_id as i64];
                &&& final(self)@.contains_key(giver_id as i64)
                &&& a2.number_of_stars == a.number_of_stars
                &&& a2.received_stars == a.received_stars
                &&& a2.given_stars == a.given_stars + amount
                &&& a2.last_free_star == Some(now)
            }),
    {
        let gid = match to_store_id(giver_id) {
            Ok(u) => u,
            Err(e) => { return Err(e) },
        };
        let a: GoldStar = match self.accounts.get(&gid) {
            Some(x) => *x,
            None => GoldStar {
                number_of_stars: 0,
                given_stars: 0,
                received_stars: 0,
                last_free_star: None,
            },
        };
        proof {
            if self@.contains_key(gid as i64) {
                assert(account_wf(self@[gid as i64]));
            }
        }
        if is_free {
            if amount > i32::MAX - a.given_stars {
                return Err(Error::PersistenceFailure);
            }
            let a2 = GoldStar {
                number_of_stars: a.number_of_stars,
                given_stars: a.given_stars + amount,
                received_stars: a.received_stars,
                last_free_star: Some(now),
            };
            self.accounts.insert(gid, a2);
            Ok(())
        } else {
            if a.number_of_stars < amount {
                return Err(Error::InsufficientBalance);
            }
            if amount > i32::MAX - a.given_stars {
                return Err(Error::PersistenceFailure);
            }
            let a2 = GoldStar {
                number_of_stars: a.number_of_stars - amount,
                given_stars: a.given_stars + amount,
                received_stars: a.received_stars,
                last_free_star: a.last_free_star,
            };
            self.accounts.insert(gid, a2);
            Ok(())
        }
    }

    /// Moves `amount` stars out of the giver's account, stamping free
    /// transfers with the current clock; see `transfer_star_at` for
    /// the effect at any one clock reading.
    pub fn transfer_star(&mut self, giver_id: u64, amount: i32, is_free: bool) -> (r: Result<
        (),
        Error,
    >)
        requires
            ledger_wf(old(self)@),
            amount >= 0,
        ensures
            ledger_wf(final(self)@),
            exists|now: i64|
                #[trigger] transfer_effect(
                    old(self)@,
                    final(self)@,
                    giver_id,
                    amount,
                    is_free,
                    now,
                    r,
                ),
            r is Err ==> final(self)@ == old(self)@,
    {
        let now = now_unix();
        self.transfer_star_at(giver_id, amount, is_free, now)
    }

    /// Adds `amount` stars to the recipient's balance and received
    /// counter in one atomic step; a rejected receipt leaves the table
    /// unchanged.
    pub fn receive_star(&mut self, recipient_id: u64, amount: i32) -> (r: Result<(), Error>)
        requires
            ledger_wf(old(self)@),
            amount >= 0,
        ensures
            ledger_wf(final(self)@),
            !fits_store_id(recipient_id) ==> r == Err::<(), Error>(Error::ConversionError)
                && final(self)@ == old(self)@,
            fits_store_id(recipient_id) ==> ({
                let a = account_or_zero(old(self)@, recipient_id as i64);
                match spec_receive(a, amount) {
                    Ok(a2) => r == Ok::<(), Error>(()) && final(self)@ == old(self)@.insert(
                        recipient_id as i64,
                        a2,
                    ),
                    Err(e) => r == Err::<(), Error>(e) && final(self)@ == old(self)@,
                }
            }),
    {
        let rid = match to_store_id(recipient_id) {
            Ok(u) => u,
            Err(e) => { return Err(e) },
        };
        let a: GoldStar = match self.accounts.get(&rid) {
            Some(x) => *x,
            None => GoldStar {
                number_of_stars: 0,
                given_stars: 0,
                received_stars: 0,
                last_free_star: None,
            },
        };
        proof {
            if self@.contains_key(rid as i64) {
                assert(account_wf(self@[rid as i64]));
            }
        }
        if amount > i32::MAX - a.number_of_stars || amount > i32::MAX - a.received_stars {
            return Err(Error::PersistenceFailure);
        }
        let a2 = GoldStar {
            number_of_stars: a.number_of_stars + amount,
            given_stars: a.given_stars,
            received_stars: a.received_stars + amount,
            last_free_star: a.last_free_star,
        };
        self.accounts.insert(rid, a2);
        Ok(())
    }
}


/// The cooldown check on free transfers belongs to the caller: the
/// ledger only records the timestamp. True when the account's last
/// free transfer lies at least one full `period` (in seconds) before
/// `now`, or when no free transfer was ever recorded.
pub fn free_star_available(last_free_star: Option<i64>, now: i64, period: i64) -> (r: bool)
    requires
        period >= 0,
    ensures
        r <==> match last_free_star {
            None => true,
            Some(t) => t + period <= now,
        },
{
    match last_free_star {
        None => true,
        Some(t) => (t as i128) + (period as i128) <= now as i128,
    }
}

/// The operations the ledger applies to one account: a transfer out
/// (paid or free, with the clock reading stamped on free ones) or a
/// receipt.
pub enum StarOp {
    Transfer { amount: i32, is_free: bool, now: i64 },
    Receive { amount: i32 },
}

/// Amounts are star counts, never negative.
pub open spec fn op_wf(op: StarOp) -> bool {
    match op {
        StarOp::Transfer { amount, is_free, now } => amount >= 0,
        StarOp::Receive { amount } => amount >= 0,
    }
}

/// The account after one operation; a rejected operation leaves it
/// unchanged.
pub open spec fn apply_op(a: GoldStar, op: StarOp) -> GoldStar {
    match op {
        StarOp::Transfer { amount, is_free, now } => match spec_transfer(
            a,
            amount,
            is_free,
            now,
        ) {
            Ok(a2) => a2,
            Err(_) => a,
        },
        StarOp::Receive { amount } => match spec_receive(a, amount) {
            Ok(a2) => a2,
            Err(_) => a,
        },
    }
}

/// The change one operation makes to the balance: what a receipt adds,
/// what a paid transfer deducts; zero for free and for rejected
/// operations.
pub open spec fn op_delta(a: GoldStar, op: StarOp) -> int {
    match op {
        StarOp::Transfer { amount, is_free, now } => if spec_transfer(a, amount, is_free, now) is Ok
            && !is_free {
            -(amount as int)
        } else {
            0
        },
        StarOp::Receive { amount } => if spec_receive(a, amount) is Ok {
            amount as int
        } else {
            0
        },
    }
}

/// The account after a whole sequence of operations.
pub open spec fn apply_ops(a: GoldStar, ops: Seq<StarOp>) -> GoldStar
    decreases ops.len(),
{
    if ops.len() == 0 {
        a
    } else {
        apply_ops(apply_op(a, ops[0]), ops.drop_first())
    }
}

/// The arithmetic sum a sequence of operations implies for the
/// balance.
pub open spec fn ops_delta(a: GoldStar, ops: Seq<StarOp>) -> int
    decreases ops.len(),
{
    if ops.len() == 0 {
        0
    } else {
        op_delta(a, ops[0]) + ops_delta(apply_op(a, ops[0]), ops.drop_first())
    }
}

/// One operation keeps an account well formed and moves the balance by
/// exactly its delta.
proof fn lemma_apply_op(a: GoldStar, op: StarOp)
    requires
        account_wf(a),
        op_wf(op),
    ensures
        account_wf(apply_op(a, op)),
        apply_op(a, op).number_of_stars == a.number_of_stars + op_delta(a, op),
{
}

/// Law: after any sequence of transfer and receive operations the
/// balance equals the starting balance plus the arithmetic sum the
/// applied operations imply, and it never goes negative; a rejected
/// operation contributes nothing and leaves the account as it was.
pub proof fn lemma_balance_is_sum_of_ops(a: GoldStar, ops: Seq<StarOp>)
    requires
        account_wf(a),
        forall|k: int| 0 <= k < ops.len() ==> #[trigger] op_wf(ops[k]),
    ensures
        account_wf(apply_ops(a, ops)),
        apply_ops(a, ops).number_of_stars >= 0,
        apply_ops(a, ops).number_of_stars == a.number_of_stars + ops_delta(a, ops),
    decreases ops.len(),
{
    if ops.len() > 0 {
        assert(op_wf(ops[0]));
        lemma_apply_op(a, ops[0]);
        let rest = ops.drop_first();
        assert forall|k: int| 0 <= k < rest.len() implies #[trigger] op_wf(rest[k]) by {
            assert(rest[k] == ops[k + 1]);
            assert(op_wf(ops[k + 1]));
        }
        lemma_balance_is_sum_of_ops(apply_op(a, ops[0]), rest);
    }
}

/// Law: account creation on first reference is idempotent. The first
/// get-or-create for user `u` yields the row `account_or_zero(m, u)`
/// and the table `first`; a second call finds that same row, returns
/// it, and changes nothing — and the table gained exactly one row only
/// when the user was brand new.
pub proof fn lemma_get_or_create_idempotent(m: Map<i64, GoldStar>, u: i64)
    requires
        m.dom().finite(),
    ensures
        ({
            let row = account_or_zero(m, u);
            let first = if m.contains_key(u) {
                m
            } else {
                m.insert(u, zero_account())
            };
            &&& first.contains_key(u)
            &&& first[u] == row
            &&& account_or_zero(first, u) == row
            &&& first.dom().len() == m.dom().len() + (if m.contains_key(u) {
                0int
            } else {
                1int
            })
        }),
{
    broadcast use vstd::set::axiom_set_insert_len;

    if !m.contains_key(u) {
        assert(m.insert(u, zero_account()).dom() =~= m.dom().insert(u));
    }
}

} // verus!
