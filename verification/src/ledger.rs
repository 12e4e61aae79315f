//! Entries, validated transactions, and the append-only ledger engine.

use vstd::prelude::*;
use vstd::string::StringExecFns;
use crate::decimal::dec_int;

verus! {

/// One posting within a transaction: the affected account and a signed
/// amount in minor currency units. Positive = credit, negative = debit.
#[derive(Clone, Debug)]
pub struct Entry {
    pub account_id: String,
    pub amount: i64,
}

/// The sum of the amounts of a sequence of entries, as a mathematical
/// integer (so it cannot overflow).
pub open spec fn sum_amounts(entries: Seq<Entry>) -> int
    decreases entries.len(),
{
    if entries.len() == 0 {
        0
    } else {
        sum_amounts(entries.drop_last()) + entries.last().amount
    }
}

/// The double-entry rule: at least one entry, and the amounts net to zero.
pub open spec fn valid_entries(entries: Seq<Entry>) -> bool {
    entries.len() > 0 && sum_amounts(entries) == 0
}

/// Why a proposed transaction was rejected.
#[derive(Clone, Copy, Debug, PartialEq, Eq, Structural)]
pub enum ValidationError {
    /// No entries were supplied.
    Empty,
    /// The entries net to this non-zero sum instead of zero.
    Unbalanced(i128),
}

/// A financial transaction: an immutable aggregate of entries whose amounts
/// net to zero, enforced once, at construction.
#[derive(Clone, Debug)]
pub struct Transaction {
    pub id: u32,
    pub description: String,
    pub timestamp: u64,
    pub entries: Vec<Entry>,
    pub category: Option<String>,
}

proof fn lemma_sum_take_one_more(s: Seq<Entry>, i: int)
    requires
        0 <= i < s.len(),
    ensures
        sum_amounts(s.subrange(0, i + 1)) == sum_amounts(s.subrange(0, i)) + s[i].amount,
{
    assert(s.subrange(0, i + 1).drop_last() =~= s.subrange(0, i));
    assert(s.subrange(0, i + 1).last() == s[i]);
}

/// The exact sum of the amounts. A 128-bit accumulator cannot overflow:
/// there are fewer than 2^64 entries and each amount is under 2^63 in
/// magnitude.
fn sum_entries(entries: &Vec<Entry>) -> (s: i128)
    ensures
        s as int == sum_amounts(entries@),
{
    let n: usize = entries.len();
    let mut acc: i128 = 0;
    let mut i: usize = 0;
    while i < n
        invariant
            n == entries@.len(),
            i <= n,
            acc as int == sum_amounts(entries@.subrange(0, i as int)),
            -0x8000_0000_0000_0000 * (i as int) <= acc as int
                <= 0x7fff_ffff_ffff_ffff * (i as int),
        decreases n - i,
    {
        let a: i64 = entries[i].amount;
        proof {
            lemma_sum_take_one_more(entries@, i as int);
        }
        acc = acc + a as i128;
        i = i + 1;
    }
    proof {
        assert(entries@.subrange(0, n as int) =~= entries@);
    }
    acc
}

impl Transaction {
    /// Validates and constructs in one atomic step: succeeds exactly when
    /// the entries are non-empty and net to zero; otherwise reports the
    /// non-zero sum, or that the entries were empty.
    pub fn new(id: u32, description: String, timestamp: u64, entries: Vec<Entry>) -> (r: Result<
        Transaction,
        ValidationError,
    >)
        ensures
            r is Ok <==> valid_entries(entries@),
            (match r {
                Ok(t) => t == (Transaction {
                    id,
                    description,
                    timestamp,
                    entries,
                    category: None,
                }),
                Err(e) => match e {
                    ValidationError::Unbalanced(v) => sum_amounts(entries@) != 0 && v as int
                        == sum_amounts(entries@),
                    ValidationError::Empty => entries@.len() == 0,
                },
            }),
    {
        let balance: i128 = sum_entries(&entries);
        if balance != 0 {
            return Err(ValidationError::Unbalanced(balance));
        }
        if entries.len() == 0 {
            return Err(ValidationError::Empty);
        }
        Ok(Transaction { id, description, timestamp, entries, category: None })
    }
}

/// The diagnostic text for a rejection.
pub open spec fn error_message(e: ValidationError) -> Seq<char> {
    match e {
        ValidationError::Empty => "Transaction cannot be empty."@,
        ValidationError::Unbalanced(v) => "Transaction unbalanced: Sum is "@ + dec_int(v as int)
            + ". Must be 0."@,
    }
}

impl ValidationError {
    /// Renders the diagnostic text, with the computed sum spelled out for
    /// an unbalanced transaction.
    pub fn message(&self) -> (r: String)
        ensures
            r@ == error_message(*self),
    {
        match self {
            ValidationError::Empty => String::from_str("Transaction cannot be empty."),
            ValidationError::Unbalanced(v) => {
                let mut s = String::from_str("Transaction unbalanced: Sum is ");
                let d = crate::decimal::i128_to_decimal(*v);
                s.append(d.as_str());
                s.append(". Must be 0.");
                s
            },
        }
    }
}

/// The ledger after one commit attempt of `t` against the record `pre`:
/// appended when `t`'s entries satisfy the double-entry rule, otherwise
/// unchanged.
pub open spec fn commit_outcome(pre: Seq<Transaction>, t: Transaction) -> Seq<Transaction> {
    if valid_entries(t.entries@) {
        pre.push(t)
    } else {
        pre
    }
}

/// The text handed back for one commit attempt.
pub open spec fn commit_message(entries: Seq<Entry>) -> Seq<char> {
    if valid_entries(entries) {
        "Success: Transaction Committed"@
    } else if sum_amounts(entries) != 0 {
        "Error: "@ + "Transaction unbalanced: Sum is "@ + dec_int(sum_amounts(entries))
            + ". Must be 0."@
    } else {
        "Error: "@ + "Transaction cannot be empty."@
    }
}

/// The engine: an append-only ordered record of accepted transactions.
pub struct Engine {
    transactions: Vec<Transaction>,
}

impl View for Engine {
    type V = Seq<Transaction>;

    closed spec fn view(&self) -> Seq<Transaction> {
        self.transactions@
    }
}

impl Engine {
    /// A new engine holds no transactions.
    pub fn new() -> (e: Engine)
        ensures
            e@ == Seq::<Transaction>::empty(),
    {
        Engine { transactions: Vec::new() }
    }

    /// The atomic validate-then-append operation: appends exactly one
    /// transaction when the entries are non-empty and net to zero, and
    /// leaves the record unchanged otherwise; the returned text says which.
    pub fn add_transaction_val(
        &mut self,
        id: u32,
        description: String,
        timestamp: u64,
        entries: Vec<Entry>,
    ) -> (r: String)
        ensures
            final(self)@ == commit_outcome(
                old(self)@,
                (Transaction { id, description, timestamp, entries, category: None }),
            ),
            r@ == commit_message(entries@),
    {
        match Transaction::new(id, description, timestamp, entries) {
            Ok(tx) => {
                self.transactions.push(tx);
                String::from_str("Success: Transaction Committed")
            },
            Err(e) => {
                let mut s = String::from_str("Error: ");
                let m = e.message();
                s.append(m.as_str());
                s
            },
        }
    }

    /// How many transactions have been committed.
    pub fn get_transaction_count(&self) -> (n: usize)
        ensures
            n == self@.len(),
    {
        self.transactions.len()
    }
}

/// Append-only monotonicity and immutability of the record: one commit
/// attempt never removes or changes a committed transaction, and grows the
/// record by exactly one precisely when the proposed entries satisfy the
/// double-entry rule.
pub proof fn lemma_commit_append_only(pre: Seq<Transaction>, t: Transaction)
    ensures
        pre.len() <= commit_outcome(pre, t).len() <= pre.len() + 1,
        (commit_outcome(pre, t).len() == pre.len() + 1) <==> valid_entries(t.entries@),
        forall|i: int| 0 <= i < pre.len() ==> commit_outcome(pre, t)[i] == pre[i],
        valid_entries(t.entries@) ==> commit_outcome(pre, t).last() == t,
{
}

/// The record after a sequence of commit attempts, in order.
pub open spec fn replay(pre: Seq<Transaction>, attempts: Seq<Transaction>) -> Seq<Transaction>
    decreases attempts.len(),
{
    if attempts.len() == 0 {
        pre
    } else {
        replay(commit_outcome(pre, attempts.first()), attempts.drop_first())
    }
}

/// How many of the attempts satisfy the double-entry rule.
pub open spec fn accepted_count(attempts: Seq<Transaction>) -> nat
    decreases attempts.len(),
{
    if attempts.len() == 0 {
        0
    } else {
        (if valid_entries(attempts.first().entries@) {
            1nat
        } else {
            0nat
        }) + accepted_count(attempts.drop_first())
    }
}

/// Append-only monotonicity over a whole run: after any sequence of commit
/// attempts, in any order, the record has grown by exactly the number of
/// accepted ones — never more, never less — and every transaction committed
/// before stands unchanged at its place.
pub proof fn lemma_replay_append_only(pre: Seq<Transaction>, attempts: Seq<Transaction>)
    ensures
        replay(pre, attempts).len() == pre.len() + accepted_count(attempts),
        forall|i: int| 0 <= i < pre.len() ==> replay(pre, attempts)[i] == pre[i],
    decreases attempts.len(),
{
    if attempts.len() > 0 {
        let next = commit_outcome(pre, attempts.first());
        lemma_replay_append_only(next, attempts.drop_first());
        assert forall|i: int| 0 <= i < pre.len() implies replay(pre, attempts)[i] == pre[i] by {
            assert(next[i] == pre[i]);
            assert(replay(next, attempts.drop_first())[i] == next[i]);
        }
    }
}

} // verus!
