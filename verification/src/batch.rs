//! Settling a processed batch: which messages count as attempted.

use vstd::prelude::*;

verus! {

/// The ids whose processing succeeded, in batch order.
pub open spec fn succeeded_ids(ids: Seq<i64>, succeeded: Seq<bool>) -> Seq<i64>
    decreases ids.len(),
{
    if ids.len() == 0 {
        seq![]
    } else if succeeded.len() == ids.len() && succeeded.last() {
        succeeded_ids(ids.drop_last(), succeeded.drop_last()).push(ids.last())
    } else {
        succeeded_ids(ids.drop_last(), succeeded.drop_last())
    }
}

/// What a worker does once a batch is processed.
pub enum BatchSettlement {
    /// Nothing succeeded: wait before the next batch.
    Idle,
    /// Record these messages as attempted, so that they are not fetched again.
    Record(Vec<i64>),
}

/// Settles a batch given, per message, whether its processing succeeded. Messages that
/// failed are not recorded, so the next round fetches them again.
pub fn settle_batch(ids: &Vec<i64>, succeeded: &Vec<bool>) -> (r: BatchSettlement)
    requires
        ids@.len() == succeeded@.len(),
    ensures
        match r {
            BatchSettlement::Idle => succeeded_ids(ids@, succeeded@).len() == 0,
            BatchSettlement::Record(v) => v@ == succeeded_ids(ids@, succeeded@) && v@.len() > 0,
        },
{
    let mut attempted: Vec<i64> = Vec::new();
    let mut i: usize = 0;
    while i < ids.len()
        invariant
            ids@.len() == succeeded@.len(),
            i <= ids@.len(),
            attempted@ == succeeded_ids(ids@.subrange(0, i as int), succeeded@.subrange(0, i as int)),
        decreases ids.len() - i,
    {
        proof {
            assert(ids@.subrange(0, i + 1).drop_last() =~= ids@.subrange(0, i as int));
            assert(succeeded@.subrange(0, i + 1).drop_last() =~= succeeded@.subrange(0, i as int));
        }
        if succeeded[i] {
            attempted.push(ids[i]);
        }
        i += 1;
    }
    assert(ids@.subrange(0, ids@.len() as int) =~= ids@);
    assert(succeeded@.subrange(0, succeeded@.len() as int) =~= succeeded@);
    if attempted.len() == 0 {
        BatchSettlement::Idle
    } else {
        BatchSettlement::Record(attempted)
    }
}

/// Every recorded id is one of the batch whose processing succeeded, and every such id is
/// recorded: failed messages stay unattempted and come back in a later batch.
pub proof fn law_recorded_exactly_the_successes(ids: Seq<i64>, succeeded: Seq<bool>, x: i64)
    requires
        ids.len() == succeeded.len(),
    ensures
        succeeded_ids(ids, succeeded).contains(x) <==> exists|i: int|
            0 <= i < ids.len() && ids[i] == x && succeeded[i],
    decreases ids.len(),
{
    if ids.len() > 0 {
        let n = ids.len() - 1;
        law_recorded_exactly_the_successes(ids.drop_last(), succeeded.drop_last(), x);
        let rest = succeeded_ids(ids.drop_last(), succeeded.drop_last());
        if exists|i: int| 0 <= i < ids.len() && ids[i] == x && succeeded[i] {
            let i = choose|i: int| 0 <= i < ids.len() && ids[i] == x && succeeded[i];
            if i < n {
                assert(ids.drop_last()[i] == x && succeeded.drop_last()[i]);
                let j = choose|j: int| 0 <= j < rest.len() && rest[j] == x;
                if succeeded.last() {
                    assert(rest.push(ids.last())[j] == x);
                }
            } else {
                assert(succeeded.last());
                assert(rest.push(ids.last())[rest.len() as int] == x);
            }
        } else {
            if succeeded_ids(ids, succeeded).contains(x) {
                if succeeded.last() {
                    let j = choose|j: int|
                        0 <= j < rest.len() + 1 && rest.push(ids.last())[j] == x;
                    if j < rest.len() {
                        assert(rest[j] == x);
                        let i = choose|i: int|
                            0 <= i < ids.drop_last().len() && ids.drop_last()[i] == x
                                && succeeded.drop_last()[i];
                        assert(ids[i] == x && succeeded[i]);
                    } else {
                        assert(ids[n] == x && succeeded[n]);
                    }
                } else {
                    let i = choose|i: int|
                        0 <= i < ids.drop_last().len() && ids.drop_last()[i] == x
                            && succeeded.drop_last()[i];
                    assert(ids[i] == x && succeeded[i]);
                }
            }
        }
    }
}

} // verus!
