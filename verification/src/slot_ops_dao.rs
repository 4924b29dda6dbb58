use vstd::prelude::*;
use vstd::pervasive::VecAdditionalExecFns;

use crate::appointments::appointment_active;
use crate::db::{
    active_slot_idx, find_active_slot, lemma_fresh_slot_unreferenced, overlap_exists_except,
    overlap_scan_except, ClinicDb,
};
use crate::errors::BookingError;
use crate::slots::{edited_end, edited_max, slot_active, AddSlotEntity, EditSlotEntity, SlotEntity};

verus! {

/// Single-row writes against the slot table. Each method is one guarded
/// statement of the store, always filtered on "tombstone absent"; the
/// capacity mutations are the only writers of the reservation counter.
pub struct SlotOpsDao;

impl SlotOpsDao {
    /// Acquires the exclusive row lock on a slot. In the store this blocks
    /// concurrent transactions touching the row until commit; in the
    /// serialized model what remains is its failure semantics: it fails
    /// fast on a missing or soft-deleted row instead of waiting.
    pub fn lock(db: &ClinicDb, slot_id: u128) -> (r: Result<(), BookingError>)
        ensures
            r is Ok <==> db.has_active_slot(slot_id),
            r is Err ==> r->Err_0 == BookingError::SlotNotFound,
    {
        match find_active_slot(&db.slots, slot_id) {
            Some(_) => Ok(()),
            None => Err(BookingError::SlotNotFound),
        }
    }

    /// Inserts a new slot row and returns the id the store assigned to it.
    ///
    /// The caller (the booking orchestrator) has already evaluated the
    /// overlap check inside this same transaction and validated the window
    /// and capacity bounds, so the insert preserves the store invariant.
    pub fn add(db: &mut ClinicDb, add_slot_entity: AddSlotEntity) -> (id: u128)
        requires
            old(db).inv(),
            add_slot_entity.current_appointment_count == 0,
            0 <= add_slot_entity.max_appointment_count,
            add_slot_entity.start_time < add_slot_entity.end_time,
            !overlap_exists_except(
                old(db).slots@,
                add_slot_entity.doctor_id,
                add_slot_entity.start_time,
                add_slot_entity.end_time,
                None::<u128>,
            ),
        ensures
            final(db).inv(),
            id == old(db).next_slot_id,
            final(db).slots@ == old(db).slots@.push(
                (SlotEntity {
                    id: old(db).next_slot_id,
                    doctor_id: add_slot_entity.doctor_id,
                    current_appointment_count: add_slot_entity.current_appointment_count,
                    max_appointment_count: add_slot_entity.max_appointment_count,
                    start_time: add_slot_entity.start_time,
                    end_time: add_slot_entity.end_time,
                    created_at: add_slot_entity.created_at,
                    updated_at: add_slot_entity.updated_at,
                    deleted_at: add_slot_entity.deleted_at,
                }),
            ),
            final(db).appointments@ == old(db).appointments@,
            final(db).next_slot_id == old(db).next_slot_id + 1,
            final(db).next_appointment_id == old(db).next_appointment_id,
    {
        let row = SlotEntity {
            id: db.next_slot_id,
            doctor_id: add_slot_entity.doctor_id,
            current_appointment_count: add_slot_entity.current_appointment_count,
            max_appointment_count: add_slot_entity.max_appointment_count,
            start_time: add_slot_entity.start_time,
            end_time: add_slot_entity.end_time,
            created_at: add_slot_entity.created_at,
            updated_at: add_slot_entity.updated_at,
            deleted_at: add_slot_entity.deleted_at,
        };
        let id = db.next_slot_id;
        db.slots.push(row);
        proof {
            broadcast use vstd::std_specs::vec::axiom_spec_len;
            assert(vstd::std_specs::vec::spec_vec_len(&db.slots) == db.slots@.len());
            assert(db.slots@.len() <= usize::MAX);
        }
        db.next_slot_id = db.next_slot_id + 1;
        proof {
            let olds = old(db).slots@;
            let news = db.slots@;
            assert forall|k: int|
                0 <= k < db.appointments@.len() && appointment_active(
                    #[trigger] db.appointments@[k],
                ) implies crate::db::has_active_slot_in(news, db.appointments@[k].slot_id) by {
                let sid = db.appointments@[k].slot_id;
                let i = choose|i: int|
                    0 <= i < olds.len() && slot_active(#[trigger] olds[i]) && olds[i].id == sid;
                assert(news[i] == olds[i]);
            }
            lemma_fresh_slot_unreferenced(*old(db));
        }
        id
    }

    /// Conditional update of the maximum count and end time: only the
    /// fields present in the entity change, scoped to the owning doctor and
    /// "tombstone absent". The store refuses an update that would break a
    /// row constraint — a maximum below the reservations currently held, an
    /// empty window, or an overlap with another active slot of the doctor.
    pub fn edit(
        db: &mut ClinicDb,
        slot_id: u128,
        doctor_id: i32,
        edit_slot_entity: EditSlotEntity,
    ) -> (r: Result<u128, BookingError>)
        requires
            old(db).slots_wf(),
        ensures
            final(db).slots_wf(),
            r == Err::<u128, BookingError>(BookingError::SlotNotFound) <==> !old(
                db,
            ).has_active_slot(slot_id),
            r == Err::<u128, BookingError>(BookingError::NotSlotOwner) <==> (old(
                db,
            ).has_active_slot(slot_id) && old(db).active_slot(slot_id).doctor_id != doctor_id),
            r == Err::<u128, BookingError>(BookingError::InvalidMaxCount) <==> (old(
                db,
            ).has_active_slot(slot_id) && old(db).active_slot(slot_id).doctor_id == doctor_id
                && edited_max(edit_slot_entity, old(db).active_slot(slot_id)) < old(
                db,
            ).active_slot(slot_id).current_appointment_count),
            r == Err::<u128, BookingError>(BookingError::InvalidSlotTimes) <==> (old(
                db,
            ).has_active_slot(slot_id) && old(db).active_slot(slot_id).doctor_id == doctor_id
                && edited_max(edit_slot_entity, old(db).active_slot(slot_id)) >= old(
                db,
            ).active_slot(slot_id).current_appointment_count && old(db).active_slot(
                slot_id,
            ).start_time >= edited_end(edit_slot_entity, old(db).active_slot(slot_id))),
            r == Err::<u128, BookingError>(BookingError::SlotOverlapping) <==> (old(
                db,
            ).has_active_slot(slot_id) && old(db).active_slot(slot_id).doctor_id == doctor_id
                && edited_max(edit_slot_entity, old(db).active_slot(slot_id)) >= old(
                db,
            ).active_slot(slot_id).current_appointment_count && old(db).active_slot(
                slot_id,
            ).start_time < edited_end(edit_slot_entity, old(db).active_slot(slot_id))
                && overlap_exists_except(
                old(db).slots@,
                old(db).active_slot(slot_id).doctor_id,
                old(db).active_slot(slot_id).start_time,
                edited_end(edit_slot_entity, old(db).active_slot(slot_id)),
                Some(slot_id),
            )),
            r is Ok <==> (old(db).has_active_slot(slot_id) && old(db).active_slot(
                slot_id,
            ).doctor_id == doctor_id && edited_max(edit_slot_entity, old(db).active_slot(slot_id))
                >= old(db).active_slot(slot_id).current_appointment_count && old(db).active_slot(
                slot_id,
            ).start_time < edited_end(edit_slot_entity, old(db).active_slot(slot_id))
                && !overlap_exists_except(
                old(db).slots@,
                old(db).active_slot(slot_id).doctor_id,
                old(db).active_slot(slot_id).start_time,
                edited_end(edit_slot_entity, old(db).active_slot(slot_id)),
                Some(slot_id),
            )),
            r is Ok ==> r->Ok_0 == slot_id,
            r is Ok ==> final(db).slots@ == old(db).slots@.update(
                active_slot_idx(old(db).slots@, slot_id),
                (SlotEntity {
                    max_appointment_count: edited_max(
                        edit_slot_entity,
                        old(db).active_slot(slot_id),
                    ),
                    end_time: edited_end(edit_slot_entity, old(db).active_slot(slot_id)),
                    updated_at: edit_slot_entity.updated_at,
                    ..old(db).active_slot(slot_id)
                }),
            ),
            r is Err ==> *final(db) == *old(db),
            final(db).appointments@ == old(db).appointments@,
            final(db).next_slot_id == old(db).next_slot_id,
            final(db).next_appointment_id == old(db).next_appointment_id,
    {
        match find_active_slot(&db.slots, slot_id) {
            Some(i) => {
                proof {
                    let j = active_slot_idx(db.slots@, slot_id);
                    assert(db.slots@[i as int].id == db.slots@[j].id);
                }
                let row = db.slots[i];
                if row.doctor_id != doctor_id {
                    return Err(BookingError::NotSlotOwner);
                }
                let new_max = match edit_slot_entity.max_appointment_count {
                    Some(m) => m,
                    None => row.max_appointment_count,
                };
                let new_end = match edit_slot_entity.end_time {
                    Some(t) => t,
                    None => row.end_time,
                };
                if new_max < row.current_appointment_count {
                    return Err(BookingError::InvalidMaxCount);
                }
                if row.start_time >= new_end {
                    return Err(BookingError::InvalidSlotTimes);
                }
                if overlap_scan_except(&db.slots, row.doctor_id, row.start_time, new_end, slot_id)
                {
                    return Err(BookingError::SlotOverlapping);
                }
                let new_row = SlotEntity {
                    max_appointment_count: new_max,
                    end_time: new_end,
                    updated_at: edit_slot_entity.updated_at,
                    ..row
                };
                db.slots.set(i, new_row);
                Ok(slot_id)
            },
            None => Err(BookingError::SlotNotFound),
        }
    }

    /// Soft-deletes a slot row, guarded on ownership and on the start time
    /// still lying in the future; reports whether a row was affected.
    pub fn remove(db: &mut ClinicDb, slot_id: u128, doctor_id: i32, now: i64) -> (affected: bool)
        requires
            old(db).slots_wf(),
        ensures
            final(db).slots_wf(),
            affected == (old(db).has_active_slot(slot_id) && old(db).active_slot(
                slot_id,
            ).doctor_id == doctor_id && old(db).active_slot(slot_id).start_time > now),
            affected ==> final(db).slots@ == old(db).slots@.update(
                active_slot_idx(old(db).slots@, slot_id),
                (SlotEntity { deleted_at: Some(now), ..old(db).active_slot(slot_id) }),
            ),
            !affected ==> *final(db) == *old(db),
            final(db).appointments@ == old(db).appointments@,
            final(db).next_slot_id == old(db).next_slot_id,
            final(db).next_appointment_id == old(db).next_appointment_id,
    {
        match find_active_slot(&db.slots, slot_id) {
            Some(i) => {
                proof {
                    let j = active_slot_idx(db.slots@, slot_id);
                    assert(db.slots@[i as int].id == db.slots@[j].id);
                }
                let row = db.slots[i];
                if row.doctor_id == doctor_id && row.start_time > now {
                    let new_row = SlotEntity { deleted_at: Some(now), ..row };
                    db.slots.set(i, new_row);
                    true
                } else {
                    false
                }
            },
            None => false,
        }
    }

    /// The compare-and-swap capacity increment: one conditional update that
    /// raises the reservation counter only while it is strictly below the
    /// maximum and the row is active; reports whether it took effect. Being
    /// a single conditional statement, two concurrent bookings can never
    /// both observe the last free unit.
    pub fn try_add_slot_appointment_count(db: &mut ClinicDb, id: u128, now: i64) -> (ok: bool)
        requires
            old(db).slots_wf(),
        ensures
            final(db).slots_wf(),
            ok == (old(db).has_active_slot(id) && old(db).active_slot(
                id,
            ).current_appointment_count < old(db).active_slot(id).max_appointment_count),
            ok ==> final(db).slots@ == old(db).slots@.update(
                active_slot_idx(old(db).slots@, id),
                (SlotEntity {
                    current_appointment_count: (old(db).active_slot(
                        id,
                    ).current_appointment_count + 1) as i32,
                    updated_at: now,
                    ..old(db).active_slot(id)
                }),
            ),
            !ok ==> *final(db) == *old(db),
            final(db).appointments@ == old(db).appointments@,
            final(db).next_slot_id == old(db).next_slot_id,
            final(db).next_appointment_id == old(db).next_appointment_id,
    {
        match find_active_slot(&db.slots, id) {
            Some(i) => {
                proof {
                    let j = active_slot_idx(db.slots@, id);
                    assert(db.slots@[i as int].id == db.slots@[j].id);
                }
                let row = db.slots[i];
                if row.current_appointment_count < row.max_appointment_count {
                    let new_row = SlotEntity {
                        current_appointment_count: row.current_appointment_count + 1,
                        updated_at: now,
                        ..row
                    };
                    db.slots.set(i, new_row);
                    true
                } else {
                    false
                }
            },
            None => false,
        }
    }

    /// Lowers a slot's reservation counter by one, releasing a reservation.
    /// It never drops below zero: each decrement answers one earlier
    /// successful increment, which the caller witnesses through the store
    /// invariant.
    pub fn dec_slot_appointment_count(db: &mut ClinicDb, id: u128, now: i64)
        requires
            old(db).slots_wf(),
            old(db).has_active_slot(id) ==> old(db).active_slot(id).current_appointment_count
                >= 1,
        ensures
            final(db).slots_wf(),
            old(db).has_active_slot(id) ==> final(db).slots@ == old(db).slots@.update(
                active_slot_idx(old(db).slots@, id),
                (SlotEntity {
                    current_appointment_count: (old(db).active_slot(
                        id,
                    ).current_appointment_count - 1) as i32,
                    updated_at: now,
                    ..old(db).active_slot(id)
                }),
            ),
            !old(db).has_active_slot(id) ==> *final(db) == *old(db),
            final(db).appointments@ == old(db).appointments@,
            final(db).next_slot_id == old(db).next_slot_id,
            final(db).next_appointment_id == old(db).next_appointment_id,
    {
        match find_active_slot(&db.slots, id) {
            Some(i) => {
                proof {
                    let j = active_slot_idx(db.slots@, id);
                    assert(db.slots@[i as int].id == db.slots@[j].id);
                }
                let row = db.slots[i];
                let new_row = SlotEntity {
                    current_appointment_count: row.current_appointment_count - 1,
                    updated_at: now,
                    ..row
                };
                db.slots.set(i, new_row);
            },
            None => {},
        }
    }
}

} // verus!
