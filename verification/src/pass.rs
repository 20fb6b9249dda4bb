use crate::error::SystemError;
use crate::http::FetchOutcome;
use crate::model::{FinalizedLinkView, ParsedLinkView, PendingLinkRecord};
use crate::reconcile::{
    is_selected, link_of, link_views, links_of, record_views, records_of, select_links, FanOut,
};
use crate::store::{distinct_ids, ids_of, marked, plan_persistence, unhandled_of, PersistPlan};
use vstd::prelude::*;

verus! {

/// The finalized records that a pass over the stored records `pending`
/// writes once its fetches have ended with `outcomes`, slot by slot.
pub open spec fn pass_records(
    pending: Seq<PendingLinkRecord>,
    outcomes: Seq<Option<FetchOutcome>>,
) -> Seq<FinalizedLinkView> {
    records_of(links_of(unhandled_of(pending)), outcomes)
}

/// The stored pending records after that pass has been committed.
pub open spec fn after_pass(
    pending: Seq<PendingLinkRecord>,
    outcomes: Seq<Option<FetchOutcome>>,
) -> Seq<PendingLinkRecord> {
    marked(pending, ids_of(pass_records(pending, outcomes)))
}

/// Some selected record among `records` has the identifier `id`.
pub open spec fn selects_id(records: Seq<PendingLinkRecord>, id: i32) -> bool {
    exists|index: int|
        0 <= index < records.len() && is_selected(#[trigger] records[index]) && records[index].id
            == id
}

/// Exactly one of `records` closes the pending record `id`.
pub open spec fn closes_once(records: Seq<FinalizedLinkView>, id: i32) -> bool {
    exists|slot: int|
        0 <= slot < records.len() && (#[trigger] records[slot]).pending_id == id && forall|
            other: int,
        |
            0 <= other < records.len() && (#[trigger] records[other]).pending_id == id ==> other
                == slot
}

proof fn lemma_unhandled_keeps_links(records: Seq<PendingLinkRecord>)
    ensures
        links_of(unhandled_of(records)) == links_of(records),
    decreases records.len(),
{
    if records.len() > 0 {
        lemma_unhandled_keeps_links(records.drop_last());
        if !records.last().handled {
            let kept = unhandled_of(records.drop_last()).push(records.last());
            assert(kept.drop_last() == unhandled_of(records.drop_last()));
            assert(kept.last() == records.last());
        }
    }
}

proof fn lemma_links_match_selected(records: Seq<PendingLinkRecord>)
    ensures
        forall|slot: int|
            0 <= slot < links_of(records).len() ==> selects_id(
                records,
                (#[trigger] links_of(records)[slot]).id,
            ),
        forall|index: int|
            0 <= index < records.len() && is_selected(#[trigger] records[index]) ==> exists|
                slot: int,
            |
                0 <= slot < links_of(records).len() && (#[trigger] links_of(records)[slot]).id
                    == records[index].id,
        distinct_ids(records) ==> forall|first: int, second: int|
            0 <= first < links_of(records).len() && 0 <= second < links_of(records).len() && (
            #[trigger] links_of(records)[first]).id == (#[trigger] links_of(records)[second]).id
                ==> first == second,
    decreases records.len(),
{
    if records.len() > 0 {
        let rest = records.drop_last();
        let last = records.last();
        let links = links_of(records);
        let before = links_of(rest);
        lemma_links_match_selected(rest);
        assert forall|slot: int| 0 <= slot < links.len() implies selects_id(
            records,
            (#[trigger] links[slot]).id,
        ) by {
            if slot < before.len() {
                assert(links[slot] == before[slot]);
                assert(selects_id(rest, before[slot].id));
                let index = choose|index: int|
                    0 <= index < rest.len() && is_selected(#[trigger] rest[index])
                        && rest[index].id == before[slot].id;
                assert(records[index] == rest[index]);
            } else {
                assert(is_selected(records[records.len() - 1]));
            }
        }
        assert forall|index: int|
            0 <= index < records.len() && is_selected(#[trigger] records[index]) implies exists|
            slot: int,
        |
            0 <= slot < links.len() && (#[trigger] links[slot]).id == records[index].id by {
            if index < rest.len() {
                assert(rest[index] == records[index]);
                let slot = choose|slot: int|
                    0 <= slot < before.len() && (#[trigger] before[slot]).id == rest[index].id;
                assert(links[slot] == before[slot]);
            } else {
                assert(links[links.len() - 1].id == records[index].id);
            }
        }
        if distinct_ids(records) {
            assert(distinct_ids(rest)) by {
                assert forall|first: int, second: int|
                    0 <= first < rest.len() && 0 <= second < rest.len() && (
                    #[trigger] rest[first]).id == (#[trigger] rest[second]).id implies first
                    == second by {
                    assert(records[first] == rest[first]);
                    assert(records[second] == rest[second]);
                }
            }
            assert forall|first: int, second: int|
                0 <= first < links.len() && 0 <= second < links.len() && (#[trigger] links[first]).id
                    == (#[trigger] links[second]).id implies first == second by {
                if is_selected(last) {
                    if first < before.len() && second < before.len() {
                        assert(links[first] == before[first]);
                        assert(links[second] == before[second]);
                    } else if first < before.len() || second < before.len() {
                        let older = if first < before.len() {
                            first
                        } else {
                            second
                        };
                        assert(links[older] == before[older]);
                        assert(selects_id(rest, before[older].id));
                        let index = choose|index: int|
                            0 <= index < rest.len() && is_selected(#[trigger] rest[index])
                                && rest[index].id == before[older].id;
                        assert(records[index] == rest[index]);
                        assert(records[records.len() - 1] == last);
                    }
                }
            }
        }
    }
}

/// After a committed pass every stored record whose link is a valid URL is
/// handled, and each record that the pass took up is closed by exactly one of
/// the finalized records it wrote; a record handled before the pass is closed
/// by none of them.
pub proof fn committed_pass_handles_each_valid_record_once(
    pending: Seq<PendingLinkRecord>,
    outcomes: Seq<Option<FetchOutcome>>,
)
    requires
        distinct_ids(pending),
        forall|index: int|
            0 <= index < pending.len() ==> link_of(
                (#[trigger] pending[index]).id,
                pending[index].raw_url@,
            ) is Some,
    ensures
        after_pass(pending, outcomes).len() == pending.len(),
        forall|index: int|
            0 <= index < pending.len() ==> (#[trigger] after_pass(pending, outcomes)[index]).handled,
        forall|index: int|
            0 <= index < pending.len() && !(#[trigger] pending[index]).handled ==> closes_once(
                pass_records(pending, outcomes),
                pending[index].id,
            ),
        forall|index: int|
            0 <= index < pending.len() && (#[trigger] pending[index]).handled ==> !ids_of(
                pass_records(pending, outcomes),
            ).contains(pending[index].id),
{
    let links = links_of(pending);
    let records = pass_records(pending, outcomes);
    let ids = ids_of(records);
    lemma_unhandled_keeps_links(pending);
    lemma_links_match_selected(pending);
    assert forall|index: int| 0 <= index < pending.len() && !(
    #[trigger] pending[index]).handled implies closes_once(records, pending[index].id) && ids.contains(
        pending[index].id,
    ) by {
        assert(is_selected(pending[index]));
        let slot = choose|slot: int|
            0 <= slot < links.len() && (#[trigger] links[slot]).id == pending[index].id;
        assert(records[slot].pending_id == pending[index].id);
        assert(ids[slot] == pending[index].id);
        assert forall|other: int|
            0 <= other < records.len() && (#[trigger] records[other]).pending_id
                == pending[index].id implies other == slot by {
            assert(links[other].id == links[slot].id);
        }
    }
    assert forall|index: int| 0 <= index < pending.len() && (
    #[trigger] pending[index]).handled implies !ids.contains(pending[index].id) by {
        if ids.contains(pending[index].id) {
            let slot = choose|slot: int| 0 <= slot < ids.len() && ids[slot] == pending[index].id;
            assert(links[slot].id == pending[index].id);
            assert(selects_id(pending, links[slot].id));
        }
    }
}

/// A stored record whose link does not parse is left as it was by a
/// committed pass: it stays unhandled, and none of the finalized records that
/// the pass wrote closes it.
pub proof fn unparsable_record_is_left_pending(
    pending: Seq<PendingLinkRecord>,
    outcomes: Seq<Option<FetchOutcome>>,
    index: int,
)
    requires
        distinct_ids(pending),
        0 <= index < pending.len(),
        !pending[index].handled,
        link_of(pending[index].id, pending[index].raw_url@) is None,
    ensures
        after_pass(pending, outcomes)[index] == pending[index],
        !after_pass(pending, outcomes)[index].handled,
        !ids_of(pass_records(pending, outcomes)).contains(pending[index].id),
{
    let links = links_of(pending);
    let ids = ids_of(pass_records(pending, outcomes));
    lemma_unhandled_keeps_links(pending);
    lemma_links_match_selected(pending);
    if ids.contains(pending[index].id) {
        let slot = choose|slot: int| 0 <= slot < ids.len() && ids[slot] == pending[index].id;
        assert(links[slot].id == pending[index].id);
        assert(selects_id(pending, links[slot].id));
    }
}

proof fn lemma_nothing_selected(records: Seq<PendingLinkRecord>)
    requires
        forall|index: int| 0 <= index < records.len() ==> !is_selected(#[trigger] records[index]),
    ensures
        links_of(records) == Seq::<ParsedLinkView>::empty(),
    decreases records.len(),
{
    if records.len() > 0 {
        assert(!is_selected(records[records.len() - 1]));
        assert forall|index: int| 0 <= index < records.drop_last().len() implies !is_selected(
            #[trigger] records.drop_last()[index],
        ) by {
            assert(records.drop_last()[index] == records[index]);
        }
        lemma_nothing_selected(records.drop_last());
    }
}

/// A committed pass leaves nothing for the pass that follows it: until a new
/// record is submitted, the next pass takes up no link, fetches no page and
/// writes no record.
pub proof fn committed_pass_leaves_no_work(
    pending: Seq<PendingLinkRecord>,
    outcomes: Seq<Option<FetchOutcome>>,
)
    ensures
        links_of(unhandled_of(after_pass(pending, outcomes))) == Seq::<ParsedLinkView>::empty(),
{
    let links = links_of(pending);
    let ids = ids_of(pass_records(pending, outcomes));
    let after = after_pass(pending, outcomes);
    lemma_unhandled_keeps_links(pending);
    lemma_unhandled_keeps_links(after);
    lemma_links_match_selected(pending);
    assert forall|index: int| 0 <= index < after.len() implies !is_selected(
        #[trigger] after[index],
    ) by {
        if is_selected(pending[index]) {
            let slot = choose|slot: int|
                0 <= slot < links.len() && (#[trigger] links[slot]).id == pending[index].id;
            assert(ids[slot] == pending[index].id);
        }
    }
    lemma_nothing_selected(after);
}

/// A pass whose fetch of one link failed still closes every link it took up:
/// the record of the failed fetch says the page was not reached and carries
/// no metadata, and the records of the other links are what they would be
/// had that fetch ended with `instead`.
pub proof fn failed_fetch_is_recorded_as_unreachable(
    links: Seq<ParsedLinkView>,
    outcomes: Seq<Option<FetchOutcome>>,
    slot: int,
    instead: FetchOutcome,
)
    requires
        0 <= slot < links.len(),
        outcomes.len() == links.len(),
        outcomes[slot] matches Some(Err(_)),
    ensures
        records_of(links, outcomes).len() == links.len(),
        records_of(links, outcomes)[slot].pending_id == links[slot].id,
        !records_of(links, outcomes)[slot].reachable,
        records_of(links, outcomes)[slot].title is None,
        records_of(links, outcomes)[slot].description is None,
        forall|other: int|
            0 <= other < links.len() && other != slot ==> records_of(
                links,
                outcomes.update(slot, Some(instead)),
            )[other] == #[trigger] records_of(links, outcomes)[other],
{
}

/// Opens a pass on what the store read returned. A failed read fails the
/// pass with the store's error; otherwise the pass fans out over the links
/// of the loaded records that are unhandled and parse, and the others are
/// left for a later pass.
pub fn begin_pass(loaded: Result<Vec<PendingLinkRecord>, SystemError>, limit: usize) -> (opened:
    Result<FanOut, SystemError>)
    ensures
        match loaded {
            Ok(records) => opened matches Ok(fan_out) && {
                &&& fan_out.wf()
                &&& fan_out.links() == links_of(records@)
                &&& fan_out.limit() == limit
                &&& fan_out.dispatched() == 0
                &&& fan_out.in_flight() == 0
                &&& forall|slot: int|
                    0 <= slot < fan_out.links().len() ==> (
                    #[trigger] fan_out.outcomes()[slot]) is None
            },
            Err(error) => opened matches Err(reported) && reported == error,
        },
{
    match loaded {
        Ok(records) => {
            let links = select_links(&records);
            proof {
                assert(link_views(links@).len() == links@.len());
            }
            Ok(FanOut::new(links, limit))
        },
        Err(error) => Err(error),
    }
}

/// Closes the fan-out of a pass: once every fetch has been reported, the
/// transaction that stores one finalized record per link and marks exactly
/// their pending records handled. Until then there is nothing to store.
pub fn plan_pass(fan_out: &FanOut) -> (planned: Option<PersistPlan>)
    requires
        fan_out.wf(),
    ensures
        planned is Some <==> fan_out.done(),
        planned matches Some(plan) ==> {
            &&& record_views(plan.records@) == records_of(fan_out.links(), fan_out.outcomes())
            &&& plan.handled_ids@ == ids_of(records_of(fan_out.links(), fan_out.outcomes()))
        },
{
    match fan_out.finish() {
        Some(records) => Some(plan_persistence(records)),
        None => None,
    }
}

} // verus!
