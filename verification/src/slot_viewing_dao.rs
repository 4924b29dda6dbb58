use vstd::prelude::*;

use crate::db::{active_slot_idx, find_active_slot, overlap_exists_except, ClinicDb};
use crate::errors::BookingError;
use crate::slots::{slot_active, SlotEntity};

verus! {

/// The active slot rows, in table order.
pub open spec fn active_slots_of(slots: Seq<SlotEntity>) -> Seq<SlotEntity>
    decreases slots.len(),
{
    if slots.len() == 0 {
        Seq::empty()
    } else {
        let rest = active_slots_of(slots.drop_last());
        if slot_active(slots.last()) {
            rest.push(slots.last())
        } else {
            rest
        }
    }
}

/// The active slot rows of one doctor, in table order.
pub open spec fn active_doctor_slots_of(slots: Seq<SlotEntity>, doctor_id: i32) -> Seq<SlotEntity>
    decreases slots.len(),
{
    if slots.len() == 0 {
        Seq::empty()
    } else {
        let rest = active_doctor_slots_of(slots.drop_last(), doctor_id);
        if slot_active(slots.last()) && slots.last().doctor_id == doctor_id {
            rest.push(slots.last())
        } else {
            rest
        }
    }
}

/// Point reads and scans of the slot table, always filtered on "tombstone
/// absent".
pub struct SlotViewingDao;

impl SlotViewingDao {
    /// The overlap check: true when an active slot of `doctor_id` satisfies
    /// `existing.start < new.end && existing.end > new.start` — the
    /// half-open interval overlap test. Evaluated inside the same
    /// transaction as the insert it guards.
    pub fn is_overlapping_slots_for_doctor_id(
        db: &ClinicDb,
        start_time: i64,
        end_time: i64,
        doctor_id: i32,
    ) -> (b: bool)
        ensures
            b == overlap_exists_except(db.slots@, doctor_id, start_time, end_time, None::<u128>),
    {
        let n = db.slots.len();
        let mut i: usize = 0;
        while i < n
            invariant
                i <= n,
                n == db.slots@.len(),
                forall|k: int|
                    0 <= k < i ==> !(slot_active(#[trigger] db.slots@[k]) && db.slots@[k].doctor_id
                        == doctor_id && db.slots@[k].start_time < end_time && db.slots@[k].end_time
                        > start_time),
            decreases n - i,
        {
            let s = &db.slots[i];
            if s.deleted_at.is_none() && s.doctor_id == doctor_id && s.start_time < end_time
                && s.end_time > start_time {
                return true;
            }
            i = i + 1;
        }
        false
    }

    /// Point read of a slot's reservation counter.
    pub fn get_current_appointment_count_by_slot_id(db: &ClinicDb, slot_id: u128) -> (r: Result<
        i32,
        BookingError,
    >)
        requires
            db.slots_wf(),
        ensures
            r is Ok <==> db.has_active_slot(slot_id),
            r is Ok ==> r->Ok_0 == db.active_slot(slot_id).current_appointment_count,
            r is Err ==> r->Err_0 == BookingError::SlotNotFound,
    {
        match find_active_slot(&db.slots, slot_id) {
            Some(i) => {
                proof {
                    let j = active_slot_idx(db.slots@, slot_id);
                    assert(db.slots@[i as int].id == db.slots@[j].id);
                }
                Ok(db.slots[i].current_appointment_count)
            },
            None => Err(BookingError::SlotNotFound),
        }
    }

    /// Point read of a slot's end time.
    pub fn get_end_time_by_slot_id(db: &ClinicDb, slot_id: u128) -> (r: Result<i64, BookingError>)
        requires
            db.slots_wf(),
        ensures
            r is Ok <==> db.has_active_slot(slot_id),
            r is Ok ==> r->Ok_0 == db.active_slot(slot_id).end_time,
            r is Err ==> r->Err_0 == BookingError::SlotNotFound,
    {
        match find_active_slot(&db.slots, slot_id) {
            Some(i) => {
                proof {
                    let j = active_slot_idx(db.slots@, slot_id);
                    assert(db.slots@[i as int].id == db.slots@[j].id);
                }
                Ok(db.slots[i].end_time)
            },
            None => Err(BookingError::SlotNotFound),
        }
    }

    /// All active slots, in table order.
    pub fn get_slots(db: &ClinicDb) -> (v: Vec<SlotEntity>)
        ensures
            v@ == active_slots_of(db.slots@),
    {
        let n = db.slots.len();
        let mut out: Vec<SlotEntity> = Vec::new();
        let mut i: usize = 0;
        while i < n
            invariant
                i <= n,
                n == db.slots@.len(),
                out@ == active_slots_of(db.slots@.take(i as int)),
            decreases n - i,
        {
            let s = &db.slots[i];
            if s.deleted_at.is_none() {
                out.push(*s);
            }
            proof {
                let t = db.slots@.take(i as int);
                assert(db.slots@.take(i as int + 1).drop_last() =~= t);
                assert(db.slots@.take(i as int + 1).last() == db.slots@[i as int]);
            }
            i = i + 1;
        }
        proof {
            assert(db.slots@.take(n as int) =~= db.slots@);
        }
        out
    }

    /// The active slots of one doctor, in table order.
    pub fn get_doctor_slots(db: &ClinicDb, doctor_id: i32) -> (v: Vec<SlotEntity>)
        ensures
            v@ == active_doctor_slots_of(db.slots@, doctor_id),
    {
        let n = db.slots.len();
        let mut out: Vec<SlotEntity> = Vec::new();
        let mut i: usize = 0;
        while i < n
            invariant
                i <= n,
                n == db.slots@.len(),
                out@ == active_doctor_slots_of(db.slots@.take(i as int), doctor_id),
            decreases n - i,
        {
            let s = &db.slots[i];
            if s.deleted_at.is_none() && s.doctor_id == doctor_id {
                out.push(*s);
            }
            proof {
                let t = db.slots@.take(i as int);
                assert(db.slots@.take(i as int + 1).drop_last() =~= t);
                assert(db.slots@.take(i as int + 1).last() == db.slots@[i as int]);
            }
            i = i + 1;
        }
        proof {
            assert(db.slots@.take(n as int) =~= db.slots@);
        }
        out
    }
}

} // verus!
