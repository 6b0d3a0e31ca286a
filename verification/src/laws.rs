use crate::batch::{spec_distribute, spec_process, BatchView, Identity};
use crate::errors::CustomError;
use crate::ledger::{has_batch, spec_distribute_shellfish, spec_process_shellfish, LedgerView};
use vstd::prelude::*;

verus! {

/// Identifier completeness: in a well-formed ledger the identifiers of the
/// `n` batches harvested so far are exactly `0 .. n` — every batch at
/// index `i` carries identifier `i`, an identifier is carried by some
/// batch exactly when it is below `n`, and no two batches share one.
pub proof fn lemma_batch_ids_exactly_zero_to_n(v: LedgerView)
    requires
        v.wf(),
    ensures
        forall|i: int|
            0 <= i < v.batches.len() ==> (#[trigger] v.batches[i]).batch_id as int == i,
        forall|id: u64| #[trigger] has_batch(v, id) <==> (id as int) < v.batches.len(),
        forall|i: int, j: int|
            0 <= i < v.batches.len() && 0 <= j < v.batches.len() && i != j ==> (
            #[trigger] v.batches[i]).batch_id != (#[trigger] v.batches[j]).batch_id,
{
    assert forall|id: u64| (id as int) < v.batches.len() implies has_batch(v, id) by {
        assert(v.batches[id as int].batch_id == id);
    }
}

/// Ordering: distributing a batch succeeds only if the batch has already
/// been processed; no batch reaches Distributed without passing through
/// Processed.
pub proof fn lemma_distribute_only_after_process(b: BatchView, caller: Identity, details: Seq<char>)
    ensures
        spec_distribute(b, caller, details) is Ok ==> b.is_processed,
{
}

/// Ordering at the ledger: distributing the batch with identifier
/// `batch_id` succeeds only if that batch exists and has already been
/// processed.
pub proof fn lemma_ledger_distribute_only_after_process(
    v: LedgerView,
    batch_id: u64,
    caller: Identity,
    details: Seq<char>,
)
    ensures
        spec_distribute_shellfish(v, batch_id, caller, details) is Ok ==> (batch_id as int)
            < v.batches.len() && v.batches[batch_id as int].is_processed,
{
}

/// Terminal transitions fire at most once: once a process of a batch has
/// succeeded, every further process of that batch fails with
/// `AlreadyProcessed`, whoever calls and whatever the details.
pub proof fn lemma_process_at_most_once(
    b: BatchView,
    caller1: Identity,
    details1: Seq<char>,
    caller2: Identity,
    details2: Seq<char>,
)
    ensures
        spec_process(b, caller1, details1) matches Ok(b1) ==> spec_process(b1, caller2, details2)
            == Err::<BatchView, CustomError>(CustomError::AlreadyProcessed),
{
}

/// Terminal transitions fire at most once: once a distribute of a batch
/// has succeeded, every further distribute of that batch fails with
/// `AlreadyDistributed`, whoever calls and whatever the details.
pub proof fn lemma_distribute_at_most_once(
    b: BatchView,
    caller1: Identity,
    details1: Seq<char>,
    caller2: Identity,
    details2: Seq<char>,
)
    ensures
        spec_distribute(b, caller1, details1) matches Ok(b1) ==> spec_distribute(
            b1,
            caller2,
            details2,
        ) == Err::<BatchView, CustomError>(CustomError::AlreadyDistributed),
{
}

/// Authorization: a caller whose identity differs from the authority bound
/// to a batch at creation never succeeds at processing or distributing
/// that batch, whatever state the batch is in.
pub proof fn lemma_unauthorized_never_succeeds(b: BatchView, caller: Identity, details: Seq<char>)
    requires
        caller != b.authority,
    ensures
        spec_process(b, caller, details) is Err,
        spec_distribute(b, caller, details) is Err,
{
}

/// Authorization at the ledger: a caller whose identity differs from the
/// authority of the batch with identifier `batch_id` never succeeds at
/// processing or distributing that batch.
pub proof fn lemma_ledger_unauthorized_never_succeeds(
    v: LedgerView,
    batch_id: u64,
    caller: Identity,
    details: Seq<char>,
)
    requires
        (batch_id as int) < v.batches.len() ==> caller != v.batches[batch_id as int].authority,
    ensures
        spec_process_shellfish(v, batch_id, caller, details) is Err,
        spec_distribute_shellfish(v, batch_id, caller, details) is Err,
{
}

} // verus!
