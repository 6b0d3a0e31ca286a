use crate::batch::{
    spec_distribute, spec_harvest, spec_process, BatchView, Counter, Identity, ShellfishBatch,
};
use crate::errors::CustomError;
use vstd::prelude::*;

verus! {

/// The mathematical value of the whole ledger: the counter's next
/// identifier, if the counter exists, and the batch records in creation
/// order.
#[verifier::ext_equal]
pub struct LedgerView {
    pub counter: Option<u64>,
    pub batches: Seq<BatchView>,
}

impl LedgerView {
    /// Well-formedness of the ledger: every batch record is well formed
    /// and sits at the index equal to its identifier, so identifiers are
    /// exactly `0 .. batches.len()`; the counter, once it exists, holds
    /// exactly the number of batches created so far, and no batch exists
    /// before the counter does.
    pub open spec fn wf(self) -> bool {
        &&& (forall|i: int|
            0 <= i < self.batches.len() ==> (#[trigger] self.batches[i]).wf())
        &&& (forall|i: int|
            0 <= i < self.batches.len() ==> (#[trigger] self.batches[i]).batch_id as int == i)
        &&& match self.counter {
            Some(c) => c as nat == self.batches.len(),
            None => self.batches.len() == 0,
        }
    }
}

/// Whether some batch of the ledger carries the identifier `id`.
pub open spec fn has_batch(v: LedgerView, id: u64) -> bool {
    exists|i: int| 0 <= i < v.batches.len() && (#[trigger] v.batches[i]).batch_id == id
}

/// Outcome of counter setup: fails if the counter already exists,
/// otherwise creates it at zero and touches nothing else.
pub open spec fn spec_initialize_counter(v: LedgerView) -> Result<LedgerView, CustomError> {
    if v.counter is Some {
        Err(CustomError::AlreadyInitialized)
    } else {
        Ok(LedgerView { counter: Some(0), batches: v.batches })
    }
}

/// Outcome of a harvest: fails if the counter does not exist yet, then as
/// [`spec_harvest`] says; on success the new batch, stamped with the
/// counter's value and owned by `caller`, is appended and the counter
/// advances by one.
pub open spec fn spec_harvest_shellfish(
    v: LedgerView,
    species: Seq<char>,
    harvester: Seq<char>,
    location: Seq<char>,
    harvest_time: i64,
    caller: Identity,
) -> Result<(LedgerView, u64), CustomError> {
    match v.counter {
        None => Err(CustomError::CounterUnavailable),
        Some(c) => match spec_harvest(c, species, harvester, location, harvest_time, caller) {
            Err(e) => Err(e),
            Ok(bv) => Ok(
                (
                    LedgerView { counter: Some((c + 1) as u64), batches: v.batches.push(bv) },
                    c,
                ),
            ),
        },
    }
}

/// Outcome of processing the batch with identifier `batch_id`: fails with
/// `NotFound` if no such batch exists, otherwise as [`spec_process`] says,
/// with the batch record replaced in place on success.
pub open spec fn spec_process_shellfish(
    v: LedgerView,
    batch_id: u64,
    caller: Identity,
    details: Seq<char>,
) -> Result<LedgerView, CustomError> {
    if v.batches.len() <= batch_id as int {
        Err(CustomError::NotFound)
    } else {
        match spec_process(v.batches[batch_id as int], caller, details) {
            Err(e) => Err(e),
            Ok(bv) => Ok(
                LedgerView { counter: v.counter, batches: v.batches.update(batch_id as int, bv) },
            ),
        }
    }
}

/// Outcome of distributing the batch with identifier `batch_id`: fails
/// with `NotFound` if no such batch exists, otherwise as
/// [`spec_distribute`] says, with the batch record replaced in place on
/// success.
pub open spec fn spec_distribute_shellfish(
    v: LedgerView,
    batch_id: u64,
    caller: Identity,
    details: Seq<char>,
) -> Result<LedgerView, CustomError> {
    if v.batches.len() <= batch_id as int {
        Err(CustomError::NotFound)
    } else {
        match spec_distribute(v.batches[batch_id as int], caller, details) {
            Err(e) => Err(e),
            Ok(bv) => Ok(
                LedgerView { counter: v.counter, batches: v.batches.update(batch_id as int, bv) },
            ),
        }
    }
}

/// The provenance ledger: the singleton sequence counter and every batch
/// record, in creation order. Batch `i` of `batches` carries identifier
/// `i`, so lookup by identifier is indexing.
pub struct ShellfishLedger {
    pub counter: Option<Counter>,
    pub batches: Vec<ShellfishBatch>,
}

impl View for ShellfishLedger {
    type V = LedgerView;

    open spec fn view(&self) -> LedgerView {
        LedgerView {
            counter: match self.counter {
                Some(c) => Some(c.count),
                None => None,
            },
            batches: self.batches@.map_values(|b: ShellfishBatch| b@),
        }
    }
}

impl ShellfishLedger {
    /// An empty ledger: no counter yet, no batches.
    pub fn new() -> (l: ShellfishLedger)
        ensures
            l@.wf(),
            l@.counter is None,
            l@.batches.len() == 0,
    {
        ShellfishLedger { counter: None, batches: Vec::new() }
    }

    /// Creates the singleton sequence counter, starting at identifier
    /// zero. Fails with `AlreadyInitialized` if the counter already
    /// exists; nothing is changed on failure.
    pub fn initialize_counter(&mut self) -> (r: Result<(), CustomError>)
        requires
            old(self)@.wf(),
        ensures
            final(self)@.wf(),
            match spec_initialize_counter(old(self)@) {
                Ok(v2) => r is Ok && final(self)@ == v2,
                Err(e) => r matches Err(e2) && e2 == e && final(self)@ == old(self)@,
            },
    {
        if self.counter.is_some() {
            return Err(CustomError::AlreadyInitialized);
        }
        self.counter = Some(Counter::new());
        Ok(())
    }

    /// Creates a new batch in the Harvested state: allocates the next
    /// identifier, stamps the batch with `harvest_time`, and binds
    /// `caller` as the batch's authority. Fails with `CounterUnavailable`
    /// if the counter does not exist or cannot advance, and with
    /// `FieldTooLong` on an over-long text field; nothing is changed on
    /// failure.
    pub fn harvest_shellfish(
        &mut self,
        species: String,
        harvester: String,
        location: String,
        harvest_time: i64,
        caller: Identity,
    ) -> (r: Result<u64, CustomError>)
        requires
            old(self)@.wf(),
        ensures
            final(self)@.wf(),
            match spec_harvest_shellfish(
                old(self)@,
                species@,
                harvester@,
                location@,
                harvest_time,
                caller,
            ) {
                Ok(v2_id) => r matches Ok(id) && id == v2_id.1 && final(self)@ == v2_id.0,
                Err(e) => r matches Err(e2) && e2 == e && final(self)@ == old(self)@,
            },
    {
        match &mut self.counter {
            None => Err(CustomError::CounterUnavailable),
            Some(c) => {
                match ShellfishBatch::harvest(
                    c,
                    species,
                    harvester,
                    location,
                    harvest_time,
                    caller,
                ) {
                    Err(e) => Err(e),
                    Ok(b) => {
                        let ghost bv = b@;
                        let id = b.batch_id;
                        self.batches.push(b);
                        proof {
                            let ghost f = |bb: ShellfishBatch| bb@;
                            assert(self.batches@.map_values(f) =~= old(
                                self,
                            ).batches@.map_values(f).push(bv));
                            let ghost v2 = self@;
                            assert forall|i: int| 0 <= i < v2.batches.len() implies (
                            #[trigger] v2.batches[i]).wf() && v2.batches[i].batch_id as int
                                == i by {
                                if i < old(self)@.batches.len() {
                                    assert(v2.batches[i] == old(self)@.batches[i]);
                                } else {
                                    assert(v2.batches[i] == bv);
                                }
                            }
                        }
                        Ok(id)
                    },
                }
            },
        }
    }

    /// Processes the batch with identifier `batch_id`, recording
    /// `details`. Fails with `NotFound` if no such batch exists, with
    /// `AlreadyProcessed` if the batch was processed before, with
    /// `Unauthorized` if `caller` is not the batch's authority, and with
    /// `FieldTooLong` on over-long details; nothing is changed on failure.
    pub fn process_shellfish(
        &mut self,
        batch_id: u64,
        caller: Identity,
        details: String,
    ) -> (r: Result<(), CustomError>)
        requires
            old(self)@.wf(),
        ensures
            final(self)@.wf(),
            match spec_process_shellfish(old(self)@, batch_id, caller, details@) {
                Ok(v2) => r is Ok && final(self)@ == v2,
                Err(e) => r matches Err(e2) && e2 == e && final(self)@ == old(self)@,
            },
    {
        if batch_id >= self.batches.len() as u64 {
            return Err(CustomError::NotFound);
        }
        let idx = batch_id as usize;
        let res = self.batches[idx].process(caller, details);
        proof {
            let ghost f = |bb: ShellfishBatch| bb@;
            assert(self.batches@.map_values(f) =~= old(self).batches@.map_values(f).update(
                batch_id as int,
                self.batches@[batch_id as int]@,
            ));
            if res is Err {
                assert(self@.batches =~= old(self)@.batches);
                assert(self@ =~= old(self)@);
            } else {
                let ghost v2 = self@;
                assert(v2.batches =~= old(self)@.batches.update(
                    batch_id as int,
                    v2.batches[batch_id as int],
                ));
                assert forall|i: int| 0 <= i < v2.batches.len() implies (
                #[trigger] v2.batches[i]).wf() && v2.batches[i].batch_id as int == i by {
                    if i != batch_id as int {
                        assert(v2.batches[i] == old(self)@.batches[i]);
                    }
                }
            }
        }
        res
    }

    /// Distributes the batch with identifier `batch_id`, recording
    /// `details` and reaching the terminal state. Fails with `NotFound` if
    /// no such batch exists, with `NotProcessedYet` before a successful
    /// process, with `AlreadyDistributed` if the batch was distributed
    /// before, with `Unauthorized` if `caller` is not the batch's
    /// authority, and with `FieldTooLong` on over-long details; nothing is
    /// changed on failure.
    pub fn distribute_shellfish(
        &mut self,
        batch_id: u64,
        caller: Identity,
        details: String,
    ) -> (r: Result<(), CustomError>)
        requires
            old(self)@.wf(),
        ensures
            final(self)@.wf(),
            match spec_distribute_shellfish(old(self)@, batch_id, caller, details@) {
                Ok(v2) => r is Ok && final(self)@ == v2,
                Err(e) => r matches Err(e2) && e2 == e && final(self)@ == old(self)@,
            },
    {
        if batch_id >= self.batches.len() as u64 {
            return Err(CustomError::NotFound);
        }
        let idx = batch_id as usize;
        let res = self.batches[idx].distribute(caller, details);
        proof {
            let ghost f = |bb: ShellfishBatch| bb@;
            assert(self.batches@.map_values(f) =~= old(self).batches@.map_values(f).update(
                batch_id as int,
                self.batches@[batch_id as int]@,
            ));
            if res is Err {
                assert(self@.batches =~= old(self)@.batches);
                assert(self@ =~= old(self)@);
            } else {
                let ghost v2 = self@;
                assert(v2.batches =~= old(self)@.batches.update(
                    batch_id as int,
                    v2.batches[batch_id as int],
                ));
                assert forall|i: int| 0 <= i < v2.batches.len() implies (
                #[trigger] v2.batches[i]).wf() && v2.batches[i].batch_id as int == i by {
                    if i != batch_id as int {
                        assert(v2.batches[i] == old(self)@.batches[i]);
                    }
                }
            }
        }
        res
    }

    /// Looks up the batch with identifier `batch_id`, returning `None`
    /// exactly when no such batch exists.
    pub fn get_batch(&self, batch_id: u64) -> (r: Option<&ShellfishBatch>)
        requires
            self@.wf(),
        ensures
            match r {
                Some(b) => (batch_id as int) < self@.batches.len() && b@ == self@.batches[
                    batch_id as int
                ],
                None => self@.batches.len() <= batch_id as int,
            },
    {
        if batch_id < self.batches.len() as u64 {
            Some(&self.batches[batch_id as usize])
        } else {
            None
        }
    }

    /// The number of batches harvested so far.
    pub fn batch_count(&self) -> (n: u64)
        requires
            self@.wf(),
        ensures
            n as nat == self@.batches.len(),
    {
        self.batches.len() as u64
    }
}

} // verus!
