//! How a run is cut into batches.

use vstd::prelude::*;
use vstd::arithmetic::div_mod::{lemma_fundamental_div_mod, lemma_fundamental_div_mod_converse};

verus! {

/// One batch of a run: its position among the batches, the sequence id of
/// its first request, and how many requests it holds.
#[derive(Clone, Copy, Debug, PartialEq, Eq, Structural)]
pub struct Batch {
    /// The position of the batch among the batches of the run, from zero.
    pub index: usize,
    /// The sequence id of its first request.
    pub start_id: usize,
    /// The number of its requests.
    pub count: usize,
}

/// The number of batches of a run: `total / batch_size`, rounded up.
pub open spec fn batch_count(total: nat, batch_size: nat) -> nat
    recommends
        batch_size >= 1,
{
    if total % batch_size == 0 {
        total / batch_size
    } else {
        total / batch_size + 1
    }
}

/// The sequence id of the first request of batch `index`.
pub open spec fn batch_start(batch_size: nat, index: nat) -> nat {
    index * batch_size
}

/// The number of requests in batch `index`: a full batch, or what is left.
pub open spec fn batch_len(total: nat, batch_size: nat, index: nat) -> nat {
    let left = total - batch_start(batch_size, index);
    if left <= 0 {
        0
    } else if left < batch_size {
        left as nat
    } else {
        batch_size
    }
}

/// Batch `index` of a run, as a value.
pub open spec fn batch_of_run(total: nat, batch_size: nat, index: nat) -> Batch {
    Batch {
        index: index as usize,
        start_id: batch_start(batch_size, index) as usize,
        count: batch_len(total, batch_size, index) as usize,
    }
}

/// The number of requests in the first `upto` batches together.
pub open spec fn attempted_in(total: nat, batch_size: nat, upto: nat) -> nat
    decreases upto,
{
    if upto == 0 {
        0
    } else {
        attempted_in(total, batch_size, (upto - 1) as nat) + batch_len(
            total,
            batch_size,
            (upto - 1) as nat,
        )
    }
}

impl Batch {
    /// Whether this is batch `index` of a run of `total` requests.
    pub open spec fn is_batch_of(self, total: nat, batch_size: nat, index: nat) -> bool {
        &&& self.index == index
        &&& self.start_id == batch_start(batch_size, index)
        &&& self.count == batch_len(total, batch_size, index)
    }

    /// The sequence ids of this batch, in rising order.
    pub open spec fn ids(self) -> Seq<usize> {
        Seq::new(self.count as nat, |i: int| (self.start_id + i) as usize)
    }

    /// The sequence ids of this batch, in rising order.
    pub fn sequence_ids(&self) -> (ids: Vec<usize>)
        requires
            self.start_id + self.count <= usize::MAX,
        ensures
            ids@ == self.ids(),
    {
        let mut ids: Vec<usize> = Vec::new();
        let mut i: usize = 0;
        while i < self.count
            invariant
                i <= self.count,
                self.start_id + self.count <= usize::MAX,
                ids@ == Seq::new(i as nat, |k: int| (self.start_id + k) as usize),
            decreases self.count - i,
        {
            ids.push(self.start_id + i);
            i = i + 1;
            assert(ids@ =~= Seq::new(i as nat, |k: int| (self.start_id + k) as usize));
        }
        ids
    }
}

/// The number of batches is the quotient rounded up: the least `n` with
/// `n * batch_size >= total`. It is what the usual formula
/// `(total + batch_size - 1) / batch_size` gives, and never more than
/// `total`.
pub proof fn lemma_batch_count_is_ceiling(total: nat, batch_size: nat)
    requires
        batch_size >= 1,
    ensures
        batch_count(total, batch_size) * batch_size >= total,
        total > 0 ==> (batch_count(total, batch_size) - 1) * batch_size < total,
        total == 0 <==> batch_count(total, batch_size) == 0,
        batch_count(total, batch_size) == (total + batch_size - 1) / (batch_size as int),
        batch_count(total, batch_size) <= total,
{
    let q = total as int / batch_size as int;
    let r = total as int % batch_size as int;
    let d = batch_size as int;
    lemma_fundamental_div_mod(total as int, d);
    assert(total == d * q + r);
    assert(0 <= r < d);
    assert(q >= 0) by (nonlinear_arith)
        requires
            total == d * q + r,
            0 <= r < d,
            total >= 0,
    ;
    assert(q <= total) by (nonlinear_arith)
        requires
            total == d * q + r,
            0 <= r < d,
            q >= 0,
            d >= 1,
    ;
    assert(q * d == d * q && (q + 1) * d == d * q + d && (q - 1) * d == d * q - d)
        by (nonlinear_arith);
    if r == 0 {
        lemma_fundamental_div_mod_converse(total + d - 1, d, q, d - 1);
    } else {
        lemma_fundamental_div_mod_converse(total + d - 1, d, q + 1, r - 1);
        assert(q + 1 <= total) by (nonlinear_arith)
            requires
                total == d * q + r,
                1 <= r,
                q >= 0,
                d >= 1,
        ;
    }
}

/// Every batch before the last is full, and the last holds the remainder,
/// or a full batch where `batch_size` divides `total`.
pub proof fn lemma_batch_sizes(total: nat, batch_size: nat, index: nat)
    requires
        batch_size >= 1,
        index < batch_count(total, batch_size),
    ensures
        1 <= batch_len(total, batch_size, index) <= batch_size,
        batch_start(batch_size, index) + batch_len(total, batch_size, index) <= total,
        index + 1 < batch_count(total, batch_size) ==> batch_len(total, batch_size, index)
            == batch_size,
        index + 1 == batch_count(total, batch_size) ==> batch_len(total, batch_size, index) == (
        if total % batch_size == 0 {
            batch_size
        } else {
            total % batch_size
        }),
        index + 1 == batch_count(total, batch_size) ==> batch_start(batch_size, index)
            + batch_len(total, batch_size, index) == total,
{
    let d = batch_size as int;
    let q = total as int / d;
    let r = total as int % d;
    let i = index as int;
    lemma_fundamental_div_mod(total as int, d);
    assert((i + 1) * d == i * d + d) by (nonlinear_arith);
    if i < q {
        assert((i + 1) * d <= q * d) by (nonlinear_arith)
            requires
                i + 1 <= q,
                d >= 1,
        ;
        assert(q * d == d * q) by (nonlinear_arith);
    } else {
        assert(i * d == d * q) by (nonlinear_arith)
            requires
                i == q,
        ;
    }
}

/// Where the run fits the machine's integers, so does each of its batches.
pub proof fn lemma_batch_of_run(total: nat, batch_size: nat, index: nat)
    requires
        batch_size >= 1,
        total <= usize::MAX,
        index < batch_count(total, batch_size),
    ensures
        batch_of_run(total, batch_size, index).is_batch_of(total, batch_size, index),
{
    lemma_batch_sizes(total, batch_size, index);
    lemma_batch_count_is_ceiling(total, batch_size);
}

/// Up to the last batch, the first `upto` batches hold `upto * batch_size`
/// requests; all batches together hold `total`.
pub proof fn lemma_attempted_in(total: nat, batch_size: nat, upto: nat)
    requires
        batch_size >= 1,
        upto <= batch_count(total, batch_size),
    ensures
        upto < batch_count(total, batch_size) ==> attempted_in(total, batch_size, upto) == upto
            * batch_size,
        upto == batch_count(total, batch_size) ==> attempted_in(total, batch_size, upto) == total,
        attempted_in(total, batch_size, upto) <= total,
    decreases upto,
{
    if upto > 0 {
        let prev = (upto - 1) as nat;
        lemma_attempted_in(total, batch_size, prev);
        lemma_batch_sizes(total, batch_size, prev);
        assert(upto * batch_size == prev * batch_size + batch_size) by (nonlinear_arith)
            requires
                upto == prev + 1,
        ;
    } else {
        lemma_batch_count_is_ceiling(total, batch_size);
    }
}

/// The batches of a run hold `total` requests between them.
pub proof fn lemma_batches_cover_run(total: nat, batch_size: nat)
    requires
        batch_size >= 1,
    ensures
        attempted_in(total, batch_size, batch_count(total, batch_size)) == total,
{
    lemma_attempted_in(total, batch_size, batch_count(total, batch_size));
}

/// A sequence id of the run lies in batch `sequence_id / batch_size` and in
/// no other: none is skipped and none is sent twice.
pub proof fn lemma_sequence_id_in_one_batch(
    total: nat,
    batch_size: nat,
    sequence_id: nat,
    index: nat,
)
    requires
        batch_size >= 1,
        sequence_id < total,
        index < batch_count(total, batch_size),
    ensures
        sequence_id / batch_size < batch_count(total, batch_size),
        (batch_start(batch_size, index) <= sequence_id < batch_start(batch_size, index)
            + batch_len(total, batch_size, index)) <==> index == sequence_id / batch_size,
{
    let d = batch_size as int;
    let s = sequence_id as int;
    let i = index as int;
    let n = batch_count(total, batch_size) as int;
    lemma_fundamental_div_mod(s, d);
    lemma_batch_count_is_ceiling(total, batch_size);
    lemma_batch_sizes(total, batch_size, index);
    let h = s / d;
    assert(h < n) by (nonlinear_arith)
        requires
            s == d * h + s % d,
            0 <= s % d,
            s < total,
            total <= n * d,
            d >= 1,
    ;
    assert(i * d <= s < i * d + d ==> i == h) by (nonlinear_arith)
        requires
            s == d * h + s % d,
            0 <= s % d < d,
            d >= 1,
    ;
    assert(i == h ==> i * d <= s < i * d + d) by (nonlinear_arith)
        requires
            s == d * h + s % d,
            0 <= s % d < d,
            d >= 1,
    ;
}

/// The number of batches of a run.
pub fn num_batches(total_requests: usize, batch_size: usize) -> (n: usize)
    requires
        batch_size >= 1,
    ensures
        n == batch_count(total_requests as nat, batch_size as nat),
{
    let full = total_requests / batch_size;
    if total_requests % batch_size == 0 {
        full
    } else {
        proof {
            lemma_batch_count_is_ceiling(total_requests as nat, batch_size as nat);
        }
        full + 1
    }
}

/// Batch `index` of a run, where the run has one.
pub fn batch_at(total_requests: usize, batch_size: usize, index: usize) -> (batch: Option<Batch>)
    requires
        batch_size >= 1,
    ensures
        batch is Some <==> index < batch_count(total_requests as nat, batch_size as nat),
        batch is Some ==> batch.unwrap().is_batch_of(
            total_requests as nat,
            batch_size as nat,
            index as nat,
        ),
        batch is Some ==> batch.unwrap() == batch_of_run(
            total_requests as nat,
            batch_size as nat,
            index as nat,
        ),
{
    if index >= num_batches(total_requests, batch_size) {
        return None;
    }
    proof {
        lemma_batch_sizes(total_requests as nat, batch_size as nat, index as nat);
    }
    let start_id = index * batch_size;
    let left = total_requests - start_id;
    let count = if left < batch_size {
        left
    } else {
        batch_size
    };
    Some(Batch { index, start_id, count })
}

/// All batches of a run, in the order in which they are sent.
pub fn plan_batches(total_requests: usize, batch_size: usize) -> (batches: Vec<Batch>)
    requires
        batch_size >= 1,
    ensures
        batches@.len() == batch_count(total_requests as nat, batch_size as nat),
        forall|i: int|
            0 <= i < batches@.len() ==> (#[trigger] batches@[i]).is_batch_of(
                total_requests as nat,
                batch_size as nat,
                i as nat,
            ),
{
    let n = num_batches(total_requests, batch_size);
    let mut batches: Vec<Batch> = Vec::new();
    let mut index: usize = 0;
    while index < n
        invariant
            batch_size >= 1,
            index <= n,
            n == batch_count(total_requests as nat, batch_size as nat),
            batches@.len() == index,
            forall|i: int|
                0 <= i < batches@.len() ==> (#[trigger] batches@[i]).is_batch_of(
                    total_requests as nat,
                    batch_size as nat,
                    i as nat,
                ),
        decreases n - index,
    {
        let batch = batch_at(total_requests, batch_size, index);
        batches.push(batch.unwrap());
        index = index + 1;
    }
    batches
}

} // verus!
