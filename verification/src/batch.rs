use crate::errors::CustomError;
use vstd::prelude::*;
use vstd::string::StrSliceExecFns;

verus! {

/// Schema bound on the `species` field, in characters.
pub const MAX_SPECIES_LEN: usize = 50;

/// Schema bound on the `harvester` field, in characters.
pub const MAX_HARVESTER_LEN: usize = 50;

/// Schema bound on the `harvest_location` field, in characters.
pub const MAX_LOCATION_LEN: usize = 100;

/// Schema bound on the processing and distribution detail fields, in characters.
pub const MAX_DETAILS_LEN: usize = 200;

/// A verified caller credential: a 256-bit key held as two plain halves.
///
/// The host's identity service authenticates the caller and hands the
/// ledger an opaque credential; the ledger only ever compares credentials
/// for equality, never inspects them.
#[derive(Clone, Copy, Debug, PartialEq, Eq, Structural)]
pub struct Identity {
    pub key_hi: u128,
    pub key_lo: u128,
}

/// The singleton sequence counter: the source of batch identifiers.
///
/// `count` is the next identifier to hand out; it only ever moves forward.
pub struct Counter {
    pub count: u64,
}

impl Counter {
    /// A fresh counter, starting at identifier zero.
    pub fn new() -> (c: Counter)
        ensures
            c.count == 0,
    {
        Counter { count: 0 }
    }

    /// Hands out the current identifier and advances the counter by one,
    /// as a single read-modify-write. Fails, leaving the counter untouched,
    /// only when the identifier space is exhausted.
    pub fn allocate_and_advance(&mut self) -> (r: Result<u64, CustomError>)
        ensures
            match r {
                Ok(id) => {
                    &&& old(self).count < u64::MAX
                    &&& id == old(self).count
                    &&& final(self).count == old(self).count + 1
                },
                Err(e) => {
                    &&& e == CustomError::CounterUnavailable
                    &&& old(self).count == u64::MAX
                    &&& final(self).count == old(self).count
                },
            },
    {
        if self.count == u64::MAX {
            Err(CustomError::CounterUnavailable)
        } else {
            let id = self.count;
            self.count = self.count + 1;
            Ok(id)
        }
    }
}

/// The mathematical value of a batch record: every text field as a
/// sequence of characters, everything else as a plain value.
#[verifier::ext_equal]
pub struct BatchView {
    pub batch_id: u64,
    pub species: Seq<char>,
    pub harvester: Seq<char>,
    pub harvest_location: Seq<char>,
    pub harvest_time: i64,
    pub processing_details: Seq<char>,
    pub distribution_details: Seq<char>,
    pub is_processed: bool,
    pub is_distributed: bool,
    pub authority: Identity,
}

impl BatchView {
    /// Well-formedness of a batch record: every text field within its
    /// schema bound, the lifecycle flags consistent (a distributed batch
    /// was processed), and the detail fields empty until their stage runs.
    pub open spec fn wf(self) -> bool {
        &&& self.species.len() <= MAX_SPECIES_LEN as nat
        &&& self.harvester.len() <= MAX_HARVESTER_LEN as nat
        &&& self.harvest_location.len() <= MAX_LOCATION_LEN as nat
        &&& self.processing_details.len() <= MAX_DETAILS_LEN as nat
        &&& self.distribution_details.len() <= MAX_DETAILS_LEN as nat
        &&& (self.is_distributed ==> self.is_processed)
        &&& (!self.is_processed ==> self.processing_details.len() == 0)
        &&& (!self.is_distributed ==> self.distribution_details.len() == 0)
    }
}

/// The batch record a harvest creates: the allocated identifier, the given
/// text fields, the harvest timestamp, both detail fields empty, both
/// lifecycle flags down, and the creating caller bound as authority.
pub open spec fn spec_new_batch(
    batch_id: u64,
    species: Seq<char>,
    harvester: Seq<char>,
    location: Seq<char>,
    harvest_time: i64,
    authority: Identity,
) -> BatchView {
    BatchView {
        batch_id,
        species,
        harvester,
        harvest_location: location,
        harvest_time,
        processing_details: Seq::empty(),
        distribution_details: Seq::empty(),
        is_processed: false,
        is_distributed: false,
        authority,
    }
}

/// Outcome of harvesting against a counter standing at `count`: rejects an
/// over-long text field, then an exhausted counter, and otherwise yields
/// the new batch stamped with `count`.
pub open spec fn spec_harvest(
    count: u64,
    species: Seq<char>,
    harvester: Seq<char>,
    location: Seq<char>,
    harvest_time: i64,
    authority: Identity,
) -> Result<BatchView, CustomError> {
    if species.len() > MAX_SPECIES_LEN as nat || harvester.len() > MAX_HARVESTER_LEN as nat
        || location.len() > MAX_LOCATION_LEN as nat {
        Err(CustomError::FieldTooLong)
    } else if count == u64::MAX {
        Err(CustomError::CounterUnavailable)
    } else {
        Ok(spec_new_batch(count, species, harvester, location, harvest_time, authority))
    }
}

/// Outcome of processing a batch: fails on a batch already processed, then
/// on a caller other than the authority, then on over-long details; on
/// success sets the processing details and raises `is_processed`.
pub open spec fn spec_process(b: BatchView, caller: Identity, details: Seq<char>) -> Result<
    BatchView,
    CustomError,
> {
    if b.is_processed {
        Err(CustomError::AlreadyProcessed)
    } else if caller != b.authority {
        Err(CustomError::Unauthorized)
    } else if details.len() > MAX_DETAILS_LEN as nat {
        Err(CustomError::FieldTooLong)
    } else {
        Ok(
            BatchView {
                processing_details: details,
                is_processed: true,
                ..b
            },
        )
    }
}

/// Outcome of distributing a batch: fails on a batch not yet processed,
/// then on one already distributed, then on a caller other than the
/// authority, then on over-long details; on success sets the distribution
/// details and raises `is_distributed`, the terminal state.
pub open spec fn spec_distribute(b: BatchView, caller: Identity, details: Seq<char>) -> Result<
    BatchView,
    CustomError,
> {
    if !b.is_processed {
        Err(CustomError::NotProcessedYet)
    } else if b.is_distributed {
        Err(CustomError::AlreadyDistributed)
    } else if caller != b.authority {
        Err(CustomError::Unauthorized)
    } else if details.len() > MAX_DETAILS_LEN as nat {
        Err(CustomError::FieldTooLong)
    } else {
        Ok(
            BatchView {
                distribution_details: details,
                is_distributed: true,
                ..b
            },
        )
    }
}

/// One harvested batch, tracked end to end.
///
/// Created whole by [`ShellfishBatch::harvest`]; mutated only by
/// [`ShellfishBatch::process`] and [`ShellfishBatch::distribute`]; never
/// deleted. The record is append-only: each field is written at most once
/// after creation.
pub struct ShellfishBatch {
    pub batch_id: u64,
    pub species: String,
    pub harvester: String,
    pub harvest_location: String,
    pub harvest_time: i64,
    pub processing_details: String,
    pub distribution_details: String,
    pub is_processed: bool,
    pub is_distributed: bool,
    pub authority: Identity,
}

impl View for ShellfishBatch {
    type V = BatchView;

    open spec fn view(&self) -> BatchView {
        BatchView {
            batch_id: self.batch_id,
            species: self.species@,
            harvester: self.harvester@,
            harvest_location: self.harvest_location@,
            harvest_time: self.harvest_time,
            processing_details: self.processing_details@,
            distribution_details: self.distribution_details@,
            is_processed: self.is_processed,
            is_distributed: self.is_distributed,
            authority: self.authority,
        }
    }
}

impl ShellfishBatch {
    /// Creates a batch in the Harvested state, allocating its identifier
    /// from `counter` and binding `authority` as the only identity allowed
    /// to advance it. Rejects over-long text fields before touching the
    /// counter; on any failure the counter is unchanged.
    pub fn harvest(
        counter: &mut Counter,
        species: String,
        harvester: String,
        location: String,
        harvest_time: i64,
        authority: Identity,
    ) -> (r: Result<ShellfishBatch, CustomError>)
        ensures
            match spec_harvest(
                old(counter).count,
                species@,
                harvester@,
                location@,
                harvest_time,
                authority,
            ) {
                Ok(bv) => {
                    &&& r matches Ok(b) && b@ == bv
                    &&& final(counter).count == old(counter).count + 1
                },
                Err(e) => {
                    &&& r matches Err(e2) && e2 == e
                    &&& final(counter).count == old(counter).count
                },
            },
    {
        if species.as_str().unicode_len() > MAX_SPECIES_LEN
            || harvester.as_str().unicode_len() > MAX_HARVESTER_LEN
            || location.as_str().unicode_len() > MAX_LOCATION_LEN {
            return Err(CustomError::FieldTooLong);
        }
        let batch_id = match counter.allocate_and_advance() {
            Ok(id) => id,
            Err(e) => {
                return Err(e);
            },
        };
        Ok(
            ShellfishBatch {
                batch_id,
                species,
                harvester,
                harvest_location: location,
                harvest_time,
                processing_details: String::new(),
                distribution_details: String::new(),
                is_processed: false,
                is_distributed: false,
                authority,
            },
        )
    }

    /// Advances the batch from Harvested to Processed, recording the
    /// processing details. Exactly the outcome of [`spec_process`]: on any
    /// failure the batch is unchanged.
    pub fn process(&mut self, caller: Identity, details: String) -> (r: Result<(), CustomError>)
        ensures
            match spec_process(old(self)@, caller, details@) {
                Ok(bv) => r is Ok && final(self)@ == bv,
                Err(e) => r matches Err(e2) && e2 == e && *final(self) == *old(self),
            },
    {
        if self.is_processed {
            return Err(CustomError::AlreadyProcessed);
        }
        if caller != self.authority {
            return Err(CustomError::Unauthorized);
        }
        if details.as_str().unicode_len() > MAX_DETAILS_LEN {
            return Err(CustomError::FieldTooLong);
        }
        self.processing_details = details;
        self.is_processed = true;
        Ok(())
    }

    /// Advances the batch from Processed to Distributed, the terminal
    /// state, recording the distribution details. Exactly the outcome of
    /// [`spec_distribute`]: on any failure the batch is unchanged.
    pub fn distribute(&mut self, caller: Identity, details: String) -> (r: Result<
        (),
        CustomError,
    >)
        ensures
            match spec_distribute(old(self)@, caller, details@) {
                Ok(bv) => r is Ok && final(self)@ == bv,
                Err(e) => r matches Err(e2) && e2 == e && *final(self) == *old(self),
            },
    {
        if !self.is_processed {
            return Err(CustomError::NotProcessedYet);
        }
        if self.is_distributed {
            return Err(CustomError::AlreadyDistributed);
        }
        if caller != self.authority {
            return Err(CustomError::Unauthorized);
        }
        if details.as_str().unicode_len() > MAX_DETAILS_LEN {
            return Err(CustomError::FieldTooLong);
        }
        self.distribution_details = details;
        self.is_distributed = true;
        Ok(())
    }
}

} // verus!
