use crate::error::SystemError;
use crate::model::{FinalizedLinkRecord, FinalizedLinkView, PendingLinkRecord};
use crate::reconcile::record_views;
use vstd::prelude::*;

verus! {

/// What the memory store says when it cannot be reached.
pub const STORE_UNAVAILABLE: &'static str = "record store unavailable";

/// Whether `error` is the failure of a store that cannot be reached.
pub open spec fn is_unavailable(error: SystemError) -> bool {
    error matches SystemError::Sqlx(text) && text@ == STORE_UNAVAILABLE@
}

/// The pending records that the finalized records close, in their order.
pub open spec fn ids_of(records: Seq<FinalizedLinkView>) -> Seq<i32> {
    records.map_values(|record: FinalizedLinkView| record.pending_id)
}

/// What one pass writes, in a single transaction: the finalized records to
/// insert and the pending records to mark handled.
pub struct PersistPlan {
    pub records: Vec<FinalizedLinkRecord>,
    pub handled_ids: Vec<i32>,
}

/// Plans the transaction that stores `records`: every pending record that one
/// of them closes is marked handled, and no other.
pub fn plan_persistence(records: Vec<FinalizedLinkRecord>) -> (plan: PersistPlan)
    ensures
        plan.records == records,
        plan.handled_ids@ == ids_of(record_views(records@)),
{
    let mut handled_ids: Vec<i32> = Vec::new();
    let mut index: usize = 0;
    while index < records.len()
        invariant
            index <= records.len(),
            handled_ids@ == ids_of(record_views(records@.take(index as int))),
        decreases records.len() - index,
    {
        proof {
            assert(ids_of(record_views(records@.take(index + 1))) =~= ids_of(
                record_views(records@.take(index as int)),
            ).push(records@[index as int].pending_id));
        }
        handled_ids.push(records[index].pending_id);
        index += 1;
    }
    proof {
        assert(records@.take(index as int) == records@);
    }
    PersistPlan { records, handled_ids }
}

/// The record as it stands once it is marked handled.
pub open spec fn handled_copy(record: PendingLinkRecord) -> PendingLinkRecord {
    PendingLinkRecord {
        id: record.id,
        event_date: record.event_date,
        raw_url: record.raw_url,
        handled: true,
    }
}

/// The pending records after those named in `ids` have been marked handled.
pub open spec fn marked(pending: Seq<PendingLinkRecord>, ids: Seq<i32>) -> Seq<PendingLinkRecord> {
    Seq::new(
        pending.len(),
        |index: int|
            if ids.contains(pending[index].id) {
                handled_copy(pending[index])
            } else {
                pending[index]
            },
    )
}

/// The records that a pass loads: the unhandled ones, in stored order.
pub open spec fn unhandled_of(pending: Seq<PendingLinkRecord>) -> Seq<PendingLinkRecord>
    decreases pending.len(),
{
    if pending.len() == 0 {
        Seq::empty()
    } else if !pending.last().handled {
        unhandled_of(pending.drop_last()).push(pending.last())
    } else {
        unhandled_of(pending.drop_last())
    }
}

/// No two of the records share an identifier.
pub open spec fn distinct_ids(pending: Seq<PendingLinkRecord>) -> bool {
    forall|first: int, second: int|
        0 <= first < pending.len() && 0 <= second < pending.len() && (
        #[trigger] pending[first]).id == (#[trigger] pending[second]).id ==> first == second
}

fn holds_id(ids: &Vec<i32>, id: i32) -> (found: bool)
    ensures
        found == ids@.contains(id),
{
    let mut index: usize = 0;
    while index < ids.len()
        invariant
            index <= ids.len(),
            forall|other: int| 0 <= other < index ==> ids@[other] != id,
        decreases ids.len() - index,
    {
        if ids[index] == id {
            return true;
        }
        index += 1;
    }
    false
}

/// A record store held in memory: the pending records in the order of their
/// submission, the finalized records in the order of their insertion, and a
/// switch that stands for the connection.
pub struct MemoryStore {
    pending: Vec<PendingLinkRecord>,
    finalized: Vec<FinalizedLinkRecord>,
    available: bool,
}

impl MemoryStore {
    /// The pending records.
    pub closed spec fn pending(&self) -> Seq<PendingLinkRecord> {
        self.pending@
    }

    /// The finalized records.
    pub closed spec fn finalized(&self) -> Seq<FinalizedLinkView> {
        record_views(self.finalized@)
    }

    /// Whether the store can be reached.
    pub closed spec fn available(&self) -> bool {
        self.available
    }

    /// Identifiers of pending records are unique.
    pub open spec fn wf(&self) -> bool {
        distinct_ids(self.pending())
    }

    /// An empty store that can be reached.
    pub fn new() -> (store: MemoryStore)
        ensures
            store.wf(),
            store.available(),
            store.pending() == Seq::<PendingLinkRecord>::empty(),
            store.finalized() == Seq::<FinalizedLinkView>::empty(),
    {
        let store = MemoryStore { pending: Vec::new(), finalized: Vec::new(), available: true };
        proof {
            assert(store.finalized() =~= Seq::<FinalizedLinkView>::empty());
        }
        store
    }

    /// The pending records as they are stored.
    pub fn pending_records(&self) -> (records: &Vec<PendingLinkRecord>)
        ensures
            records@ == self.pending(),
    {
        &self.pending
    }

    /// The finalized records as they are stored.
    pub fn finalized_records(&self) -> (records: &Vec<FinalizedLinkRecord>)
        ensures
            record_views(records@) == self.finalized(),
    {
        &self.finalized
    }

    /// Cuts or restores the connection. The records stay as they are.
    pub fn set_available(&mut self, available: bool)
        ensures
            final(self).available() == available,
            final(self).pending() == old(self).pending(),
            final(self).finalized() == old(self).finalized(),
    {
        self.available = available;
    }

    /// Adds a pending record, unhandled, as the upload path does. A record
    /// whose identifier is taken is refused.
    pub fn submit(&mut self, id: i32, event_date: chrono::NaiveDate, raw_url: String) -> (accepted:
        bool)
        requires
            old(self).wf(),
        ensures
            final(self).wf(),
            final(self).available() == old(self).available(),
            final(self).finalized() == old(self).finalized(),
            accepted <==> forall|index: int|
                0 <= index < old(self).pending().len() ==> (#[trigger] old(
                    self,
                ).pending()[index]).id != id,
            accepted ==> final(self).pending() == old(self).pending().push(
                PendingLinkRecord { id, event_date, raw_url, handled: false },
            ),
            !accepted ==> final(self).pending() == old(self).pending(),
    {
        let mut index: usize = 0;
        while index < self.pending.len()
            invariant
                index <= self.pending.len(),
                *self == *old(self),
                self.wf(),
                forall|other: int| 0 <= other < index ==> (#[trigger] self.pending@[other]).id != id,
            decreases self.pending.len() - index,
        {
            if self.pending[index].id == id {
                proof {
                    assert(old(self).pending()[index as int].id == id);
                }
                return false;
            }
            index += 1;
        }
        self.pending.push(PendingLinkRecord { id, event_date, raw_url, handled: false });
        true
    }

    /// Reads the unhandled pending records, in stored order. Fails exactly
    /// when the store cannot be reached.
    pub fn load_unhandled(&self) -> (loaded: Result<Vec<PendingLinkRecord>, SystemError>)
        ensures
            match loaded {
                Ok(records) => self.available() && records@ == unhandled_of(self.pending()),
                Err(error) => !self.available() && is_unavailable(error),
            },
    {
        if !self.available {
            return Err(SystemError::Sqlx(String::from_str(STORE_UNAVAILABLE)));
        }
        let mut records: Vec<PendingLinkRecord> = Vec::new();
        let mut index: usize = 0;
        while index < self.pending.len()
            invariant
                index <= self.pending.len(),
                records@ == unhandled_of(self.pending@.take(index as int)),
            decreases self.pending.len() - index,
        {
            let record = &self.pending[index];
            proof {
                assert(self.pending@.take(index + 1).drop_last() == self.pending@.take(
                    index as int,
                ));
                assert(self.pending@.take(index + 1).last() == self.pending@[index as int]);
            }
            if !record.handled {
                records.push(
                    PendingLinkRecord {
                        id: record.id,
                        event_date: record.event_date,
                        raw_url: record.raw_url.clone(),
                        handled: false,
                    },
                );
            }
            index += 1;
        }
        proof {
            assert(self.pending@.take(index as int) == self.pending@);
        }
        Ok(records)
    }

    /// Runs the transaction of one pass: inserts the plan's finalized records
    /// and marks the pending records it names handled, both or neither. It
    /// fails exactly when the store cannot be reached, and then nothing has
    /// changed.
    pub fn persist(&mut self, plan: PersistPlan) -> (committed: Result<(), SystemError>)
        requires
            old(self).wf(),
        ensures
            final(self).wf(),
            final(self).available() == old(self).available(),
            match committed {
                Ok(_) => {
                    &&& old(self).available()
                    &&& final(self).pending() == marked(old(self).pending(), plan.handled_ids@)
                    &&& final(self).finalized() == old(self).finalized() + record_views(
                        plan.records@,
                    )
                },
                Err(error) => {
                    &&& !old(self).available()
                    &&& is_unavailable(error)
                    &&& final(self).pending() == old(self).pending()
                    &&& final(self).finalized() == old(self).finalized()
                },
            },
    {
        if !self.available {
            return Err(SystemError::Sqlx(String::from_str(STORE_UNAVAILABLE)));
        }
        let PersistPlan { records, handled_ids } = plan;
        let mut records = records;
        proof {
            assert(record_views(self.finalized@ + records@) =~= record_views(self.finalized@)
                + record_views(records@));
        }
        self.finalized.append(&mut records);
        let mut index: usize = 0;
        while index < self.pending.len()
            invariant
                index <= self.pending.len(),
                self.pending@.len() == old(self).pending@.len(),
                self.available == old(self).available,
                self.finalized@ == old(self).finalized@ + plan.records@,
                handled_ids == plan.handled_ids,
                forall|other: int|
                    0 <= other < index ==> (#[trigger] self.pending@[other]) == marked(
                        old(self).pending@,
                        handled_ids@,
                    )[other],
                forall|other: int|
                    index <= other < self.pending@.len() ==> (#[trigger] self.pending@[other])
                        == old(self).pending@[other],
            decreases self.pending.len() - index,
        {
            let record = &self.pending[index];
            if holds_id(&handled_ids, record.id) {
                let updated = PendingLinkRecord {
                    id: record.id,
                    event_date: record.event_date,
                    raw_url: record.raw_url.clone(),
                    handled: true,
                };
                self.pending[index] = updated;
            }
            index += 1;
        }
        proof {
            assert(self.pending@ =~= marked(old(self).pending@, handled_ids@));
        }
        Ok(())
    }
}

} // verus!
