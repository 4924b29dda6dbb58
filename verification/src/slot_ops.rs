use vstd::prelude::*;

use crate::appointments::appointment_active;
use crate::db::{
    active_slot_idx, count_active_for, find_active_slot, has_active_slot_in,
    lemma_count_at_least_one, overlap_exists_except, ClinicDb,
};
use crate::errors::BookingError;
use crate::slot_ops_dao::SlotOpsDao;
use crate::slot_viewing_dao::SlotViewingDao;
use crate::slots::{edited_end, edited_max, slot_active, AddSlotEntity, EditSlotEntity, SlotEntity};

verus! {

impl ClinicDb {
    /// Creates a slot, all inside one transaction: evaluate the overlap
    /// check against the doctor's active slots, refuse a window that has
    /// already ended, validate the window and capacity bounds, then insert
    /// the row with its reservation counter at zero. Re-evaluating the
    /// overlap check inside the inserting transaction is what keeps two
    /// racing creations of the same doctor from both committing.
    pub fn add_slot(&mut self, now: i64, add_slot_entity: AddSlotEntity) -> (r: Result<
        u128,
        BookingError,
    >)
        requires
            old(self).inv(),
        ensures
            final(self).inv(),
            r == Err::<u128, BookingError>(BookingError::SlotOverlapping) <==> overlap_exists_except(
                old(self).slots@,
                add_slot_entity.doctor_id,
                add_slot_entity.start_time,
                add_slot_entity.end_time,
                None::<u128>,
            ),
            r == Err::<u128, BookingError>(BookingError::EndTimeInPast) <==> (!overlap_exists_except(
                old(self).slots@,
                add_slot_entity.doctor_id,
                add_slot_entity.start_time,
                add_slot_entity.end_time,
                None::<u128>,
            ) && now > add_slot_entity.end_time),
            r == Err::<u128, BookingError>(BookingError::InvalidSlotTimes) <==> (!overlap_exists_except(
                old(self).slots@,
                add_slot_entity.doctor_id,
                add_slot_entity.start_time,
                add_slot_entity.end_time,
                None::<u128>,
            ) && now <= add_slot_entity.end_time && add_slot_entity.start_time
                >= add_slot_entity.end_time),
            r == Err::<u128, BookingError>(BookingError::InvalidMaxCount) <==> (!overlap_exists_except(
                old(self).slots@,
                add_slot_entity.doctor_id,
                add_slot_entity.start_time,
                add_slot_entity.end_time,
                None::<u128>,
            ) && now <= add_slot_entity.end_time && add_slot_entity.start_time
                < add_slot_entity.end_time && add_slot_entity.max_appointment_count < 0),
            r is Ok <==> (!overlap_exists_except(
                old(self).slots@,
                add_slot_entity.doctor_id,
                add_slot_entity.start_time,
                add_slot_entity.end_time,
                None::<u128>,
            ) && now <= add_slot_entity.end_time && add_slot_entity.start_time
                < add_slot_entity.end_time && add_slot_entity.max_appointment_count >= 0),
            r is Err ==> *final(self) == *old(self),
            r is Ok ==> r->Ok_0 == old(self).next_slot_id,
            r is Ok ==> final(self).slots@ == old(self).slots@.push(
                (SlotEntity {
                    id: old(self).next_slot_id,
                    doctor_id: add_slot_entity.doctor_id,
                    current_appointment_count: 0,
                    max_appointment_count: add_slot_entity.max_appointment_count,
                    start_time: add_slot_entity.start_time,
                    end_time: add_slot_entity.end_time,
                    created_at: add_slot_entity.created_at,
                    updated_at: add_slot_entity.updated_at,
                    deleted_at: None,
                }),
            ),
            r is Ok ==> final(self).next_slot_id == old(self).next_slot_id + 1,
            final(self).appointments@ == old(self).appointments@,
            final(self).next_appointment_id == old(self).next_appointment_id,
    {
        let is_overlapping_slot = SlotViewingDao::is_overlapping_slots_for_doctor_id(
            self,
            add_slot_entity.start_time,
            add_slot_entity.end_time,
            add_slot_entity.doctor_id,
        );
        if is_overlapping_slot {
            return Err(BookingError::SlotOverlapping);
        }

        if now > add_slot_entity.end_time {
            return Err(BookingError::EndTimeInPast);
        }
        if add_slot_entity.start_time >= add_slot_entity.end_time {
            return Err(BookingError::InvalidSlotTimes);
        }
        if add_slot_entity.max_appointment_count < 0 {
            return Err(BookingError::InvalidMaxCount);
        }

        let row = AddSlotEntity {
            current_appointment_count: 0,
            deleted_at: None,
            ..add_slot_entity
        };
        let slot_id = SlotOpsDao::add(self, row);
        Ok(slot_id)
    }

    /// Edits a slot's maximum count and end time, all inside one
    /// transaction: refuse once the slot has ended, lock the row, then
    /// issue the guarded conditional update scoped to the owning doctor.
    /// The update keeps every row constraint: the maximum never drops below
    /// the reservations held, the window stays non-empty and free of
    /// overlap with the doctor's other active slots.
    pub fn edit_slot(
        &mut self,
        now: i64,
        slot_id: u128,
        doctor_id: i32,
        edit_slot_entity: EditSlotEntity,
    ) -> (r: Result<u128, BookingError>)
        requires
            old(self).inv(),
        ensures
            final(self).inv(),
            r == Err::<u128, BookingError>(BookingError::SlotNotFound) <==> !old(
                self,
            ).has_active_slot(slot_id),
            r == Err::<u128, BookingError>(BookingError::SlotAlreadyEnded) <==> (old(
                self,
            ).has_active_slot(slot_id) && now > old(self).active_slot(slot_id).end_time),
            r == Err::<u128, BookingError>(BookingError::NotSlotOwner) <==> (old(
                self,
            ).has_active_slot(slot_id) && now <= old(self).active_slot(slot_id).end_time && old(
                self,
            ).active_slot(slot_id).doctor_id != doctor_id),
            r == Err::<u128, BookingError>(BookingError::InvalidMaxCount) <==> (old(
                self,
            ).has_active_slot(slot_id) && now <= old(self).active_slot(slot_id).end_time && old(
                self,
            ).active_slot(slot_id).doctor_id == doctor_id && edited_max(
                edit_slot_entity,
                old(self).active_slot(slot_id),
            ) < old(self).active_slot(slot_id).current_appointment_count),
            r == Err::<u128, BookingError>(BookingError::InvalidSlotTimes) <==> (old(
                self,
            ).has_active_slot(slot_id) && now <= old(self).active_slot(slot_id).end_time && old(
                self,
            ).active_slot(slot_id).doctor_id == doctor_id && edited_max(
                edit_slot_entity,
                old(self).active_slot(slot_id),
            ) >= old(self).active_slot(slot_id).current_appointment_count && old(
                self,
            ).active_slot(slot_id).start_time >= edited_end(
                edit_slot_entity,
                old(self).active_slot(slot_id),
            )),
            r == Err::<u128, BookingError>(BookingError::SlotOverlapping) <==> (old(
                self,
            ).has_active_slot(slot_id) && now <= old(self).active_slot(slot_id).end_time && old(
                self,
            ).active_slot(slot_id).doctor_id == doctor_id && edited_max(
                edit_slot_entity,
                old(self).active_slot(slot_id),
            ) >= old(self).active_slot(slot_id).current_appointment_count && old(
                self,
            ).active_slot(slot_id).start_time < edited_end(
                edit_slot_entity,
                old(self).active_slot(slot_id),
            ) && overlap_exists_except(
                old(self).slots@,
                old(self).active_slot(slot_id).doctor_id,
                old(self).active_slot(slot_id).start_time,
                edited_end(edit_slot_entity, old(self).active_slot(slot_id)),
                Some(slot_id),
            )),
            r is Ok <==> (old(self).has_active_slot(slot_id) && now <= old(self).active_slot(
                slot_id,
            ).end_time && old(self).active_slot(slot_id).doctor_id == doctor_id && edited_max(
                edit_slot_entity,
                old(self).active_slot(slot_id),
            ) >= old(self).active_slot(slot_id).current_appointment_count && old(
                self,
            ).active_slot(slot_id).start_time < edited_end(
                edit_slot_entity,
                old(self).active_slot(slot_id),
            ) && !overlap_exists_except(
                old(self).slots@,
                old(self).active_slot(slot_id).doctor_id,
                old(self).active_slot(slot_id).start_time,
                edited_end(edit_slot_entity, old(self).active_slot(slot_id)),
                Some(slot_id),
            )),
            r is Ok ==> r->Ok_0 == slot_id,
            r is Ok ==> final(self).slots@ == old(self).slots@.update(
                active_slot_idx(old(self).slots@, slot_id),
                (SlotEntity {
                    max_appointment_count: edited_max(
                        edit_slot_entity,
                        old(self).active_slot(slot_id),
                    ),
                    end_time: edited_end(edit_slot_entity, old(self).active_slot(slot_id)),
                    updated_at: edit_slot_entity.updated_at,
                    ..old(self).active_slot(slot_id)
                }),
            ),
            r is Err ==> *final(self) == *old(self),
            final(self).appointments@ == old(self).appointments@,
            final(self).next_slot_id == old(self).next_slot_id,
            final(self).next_appointment_id == old(self).next_appointment_id,
    {
        let end_time = match SlotViewingDao::get_end_time_by_slot_id(self, slot_id) {
            Ok(t) => t,
            Err(e) => {
                return Err(e);
            },
        };
        if now > end_time {
            return Err(BookingError::SlotAlreadyEnded);
        }

        match SlotOpsDao::lock(self, slot_id) {
            Ok(_) => {},
            Err(e) => {
                return Err(e);
            },
        }

        let effected_slot_id = match SlotOpsDao::edit(self, slot_id, doctor_id, edit_slot_entity) {
            Ok(id) => id,
            Err(e) => {
                return Err(e);
            },
        };

        proof {
            let olds = old(self).slots@;
            assert forall|k: int|
                0 <= k < self.appointments@.len() && appointment_active(
                    #[trigger] self.appointments@[k],
                ) implies has_active_slot_in(self.slots@, self.appointments@[k].slot_id) by {
                let sid = self.appointments@[k].slot_id;
                let w = choose|w: int|
                    0 <= w < olds.len() && slot_active(#[trigger] olds[w]) && olds[w].id == sid;
                assert(slot_active(self.slots@[w]) && self.slots@[w].id == sid);
            }
        }
        Ok(effected_slot_id)
    }

    /// Soft-deletes a slot, all inside one transaction: lock the row, then
    /// refuse while any appointment is still booked against it, while the
    /// acting doctor does not own it, or once the slot has started. Only an
    /// empty, not-yet-started slot of the acting doctor is tombstoned.
    pub fn remove_slot(&mut self, now: i64, slot_id: u128, doctor_id: i32) -> (r: Result<
        (),
        BookingError,
    >)
        requires
            old(self).inv(),
        ensures
            final(self).inv(),
            r == Err::<(), BookingError>(BookingError::SlotNotFound) <==> !old(
                self,
            ).has_active_slot(slot_id),
            r == Err::<(), BookingError>(BookingError::SlotStillBooked) <==> (old(
                self,
            ).has_active_slot(slot_id) && old(self).active_slot(slot_id).current_appointment_count
                > 0),
            r == Err::<(), BookingError>(BookingError::NotSlotOwner) <==> (old(
                self,
            ).has_active_slot(slot_id) && old(self).active_slot(slot_id).current_appointment_count
                == 0 && old(self).active_slot(slot_id).doctor_id != doctor_id),
            r == Err::<(), BookingError>(BookingError::SlotAlreadyStarted) <==> (old(
                self,
            ).has_active_slot(slot_id) && old(self).active_slot(slot_id).current_appointment_count
                == 0 && old(self).active_slot(slot_id).doctor_id == doctor_id && old(
                self,
            ).active_slot(slot_id).start_time <= now),
            r is Ok <==> (old(self).has_active_slot(slot_id) && old(self).active_slot(
                slot_id,
            ).current_appointment_count == 0 && old(self).active_slot(slot_id).doctor_id
                == doctor_id && old(self).active_slot(slot_id).start_time > now),
            r is Err ==> *final(self) == *old(self),
            r is Ok ==> final(self).slots@ == old(self).slots@.update(
                active_slot_idx(old(self).slots@, slot_id),
                (SlotEntity { deleted_at: Some(now), ..old(self).active_slot(slot_id) }),
            ),
            final(self).appointments@ == old(self).appointments@,
            final(self).next_slot_id == old(self).next_slot_id,
            final(self).next_appointment_id == old(self).next_appointment_id,
    {
        match SlotOpsDao::lock(self, slot_id) {
            Ok(_) => {},
            Err(e) => {
                return Err(e);
            },
        }

        let appointment_count = match SlotViewingDao::get_current_appointment_count_by_slot_id(
            self,
            slot_id,
        ) {
            Ok(c) => c,
            Err(e) => {
                return Err(e);
            },
        };
        if appointment_count > 0 {
            return Err(BookingError::SlotStillBooked);
        }

        let i = match find_active_slot(&self.slots, slot_id) {
            Some(i) => i,
            None => {
                return Err(BookingError::SlotNotFound);
            },
        };
        proof {
            let j = active_slot_idx(self.slots@, slot_id);
            assert(self.slots@[i as int].id == self.slots@[j].id);
        }
        if self.slots[i].doctor_id != doctor_id {
            return Err(BookingError::NotSlotOwner);
        }
        if self.slots[i].start_time <= now {
            return Err(BookingError::SlotAlreadyStarted);
        }

        let affected = SlotOpsDao::remove(self, slot_id, doctor_id, now);
        assert(affected);

        proof {
            let olds = old(self).slots@;
            let j = active_slot_idx(olds, slot_id);
            assert forall|k: int|
                0 <= k < self.appointments@.len() && appointment_active(
                    #[trigger] self.appointments@[k],
                ) implies has_active_slot_in(self.slots@, self.appointments@[k].slot_id) by {
                let sid = self.appointments@[k].slot_id;
                let w = choose|w: int|
                    0 <= w < olds.len() && slot_active(#[trigger] olds[w]) && olds[w].id == sid;
                if w == j {
                    lemma_count_at_least_one(self.appointments@, k, sid);
                }
                assert(slot_active(self.slots@[w]) && self.slots@[w].id == sid);
            }
        }
        Ok(())
    }
}

} // verus!
