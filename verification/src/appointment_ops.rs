use vstd::prelude::*;

use crate::appointment_ops_dao::{waiting_guard_ok, AppointmentOpsDao};
use crate::appointment_viewing_dao::AppointmentViewingDao;
use crate::appointments::{
    appointment_active, AddAppointmentEntity, AppointmentRecord, RescheduleAppointmentEntity,
};
use crate::db::{
    active_appointment_idx, active_slot_idx, count_active_for, find_active_slot,
    has_active_slot_in, lemma_count_at_least_one, lemma_count_push, lemma_count_update, ClinicDb,
};
use crate::errors::BookingError;
use crate::slot_ops_dao::SlotOpsDao;
use crate::slot_viewing_dao::SlotViewingDao;
use crate::slots::{slot_active, SlotEntity};
use crate::status::AppointmentStatus;

verus! {

impl ClinicDb {
    /// The compare-and-swap guard of the capacity increment, evaluated
    /// without writing: true when the slot is active with spare capacity.
    /// The orchestrators evaluate every guard of a transaction before its
    /// first write, so a late refusal aborts with no effect to undo.
    fn slot_has_spare_capacity(&self, slot_id: u128) -> (b: bool)
        requires
            self.slots_wf(),
        ensures
            b == (self.has_active_slot(slot_id) && self.active_slot(
                slot_id,
            ).current_appointment_count < self.active_slot(slot_id).max_appointment_count),
    {
        match find_active_slot(&self.slots, slot_id) {
            Some(i) => {
                proof {
                    let j = active_slot_idx(self.slots@, slot_id);
                    assert(self.slots@[i as int].id == self.slots@[j].id);
                }
                self.slots[i].current_appointment_count < self.slots[i].max_appointment_count
            },
            None => false,
        }
    }

    /// Books an appointment against a slot, all inside one transaction:
    /// read the slot's end time and refuse once it lies in the past, lock
    /// the slot row, raise the reservation counter through the conditional
    /// increment and refuse when the slot is full, then insert the
    /// appointment row with status forced to `Waiting`. Capacity movement
    /// and row insertion commit or abort together.
    pub fn add_appointment(
        &mut self,
        now: i64,
        add_appointment_entity: AddAppointmentEntity,
    ) -> (r: Result<u128, BookingError>)
        requires
            old(self).inv(),
        ensures
            final(self).inv(),
            r == Err::<u128, BookingError>(BookingError::SlotNotFound) <==> !old(
                self,
            ).has_active_slot(add_appointment_entity.slot_id),
            r == Err::<u128, BookingError>(BookingError::SlotAlreadyEnded) <==> (old(
                self,
            ).has_active_slot(add_appointment_entity.slot_id) && now > old(self).active_slot(
                add_appointment_entity.slot_id,
            ).end_time),
            r == Err::<u128, BookingError>(BookingError::SlotFull) <==> (old(
                self,
            ).has_active_slot(add_appointment_entity.slot_id) && now <= old(self).active_slot(
                add_appointment_entity.slot_id,
            ).end_time && old(self).active_slot(
                add_appointment_entity.slot_id,
            ).current_appointment_count >= old(self).active_slot(
                add_appointment_entity.slot_id,
            ).max_appointment_count),
            r is Ok <==> (old(self).has_active_slot(add_appointment_entity.slot_id) && now <= old(
                self,
            ).active_slot(add_appointment_entity.slot_id).end_time && old(self).active_slot(
                add_appointment_entity.slot_id,
            ).current_appointment_count < old(self).active_slot(
                add_appointment_entity.slot_id,
            ).max_appointment_count),
            r is Err ==> *final(self) == *old(self),
            r is Ok ==> r->Ok_0 == old(self).next_appointment_id,
            r is Ok ==> final(self).appointments@ == old(self).appointments@.push(
                (AppointmentRecord {
                    id: old(self).next_appointment_id,
                    slot_id: add_appointment_entity.slot_id,
                    patient_id: add_appointment_entity.patient_id,
                    patient_abnormal_symptom: add_appointment_entity.patient_abnormal_symptom,
                    patient_is_missed_medication:
                        add_appointment_entity.patient_is_missed_medication,
                    patient_blood_test_status: add_appointment_entity.patient_blood_test_status,
                    patient_is_overdue_medication:
                        add_appointment_entity.patient_is_overdue_medication,
                    patient_is_partner_hiv_positive:
                        add_appointment_entity.patient_is_partner_hiv_positive,
                    status: AppointmentStatus::Waiting,
                    created_at: add_appointment_entity.created_at,
                    updated_at: add_appointment_entity.updated_at,
                    deleted_at: None,
                }),
            ),
            r is Ok ==> final(self).slots@ == old(self).slots@.update(
                active_slot_idx(old(self).slots@, add_appointment_entity.slot_id),
                (SlotEntity {
                    current_appointment_count: (old(self).active_slot(
                        add_appointment_entity.slot_id,
                    ).current_appointment_count + 1) as i32,
                    updated_at: now,
                    ..old(self).active_slot(add_appointment_entity.slot_id)
                }),
            ),
            r is Ok ==> final(self).next_appointment_id == old(self).next_appointment_id + 1,
            final(self).next_slot_id == old(self).next_slot_id,
    {
        let slot_id = add_appointment_entity.slot_id;

        let end_time = match SlotViewingDao::get_end_time_by_slot_id(self, slot_id) {
            Ok(t) => t,
            Err(e) => {
                return Err(e);
            },
        };
        if now > end_time {
            return Err(BookingError::SlotAlreadyEnded);
        }

        match SlotOpsDao::lock(self, slot_id) {
            Ok(_) => {},
            Err(e) => {
                return Err(e);
            },
        }

        let slot_is_not_full = SlotOpsDao::try_add_slot_appointment_count(self, slot_id, now);
        if !slot_is_not_full {
            return Err(BookingError::SlotFull);
        }

        let appointment_id = AppointmentOpsDao::add(self, add_appointment_entity);

        proof {
            let olds = old(self).slots@;
            let olda = old(self).appointments@;
            let j = active_slot_idx(olds, slot_id);
            let newrow = self.appointments@.last();
            assert forall|k: int|
                0 <= k < self.slots@.len() implies (#[trigger] self.slots@[k]).current_appointment_count
                as int == count_active_for(self.appointments@, self.slots@[k].id) by {
                lemma_count_push(olda, newrow, self.slots@[k].id);
                if k != j {
                    assert(self.slots@[k] == olds[k]);
                    assert(olds[k].id != olds[j].id);
                }
            }
            assert forall|k: int|
                0 <= k < self.appointments@.len() && appointment_active(
                    #[trigger] self.appointments@[k],
                ) implies has_active_slot_in(self.slots@, self.appointments@[k].slot_id) by {
                let sid = self.appointments@[k].slot_id;
                if k < olda.len() {
                    let i = choose|i: int|
                        0 <= i < olds.len() && slot_active(#[trigger] olds[i]) && olds[i].id
                            == sid;
                    assert(slot_active(self.slots@[i]) && self.slots@[i].id == sid);
                } else {
                    assert(slot_active(self.slots@[j]) && self.slots@[j].id == sid);
                }
            }
        }
        Ok(appointment_id)
    }

    /// Moves an appointment to another slot, all inside one transaction:
    /// refuse once the destination slot has ended, look up the origin slot,
    /// lock destination before origin (the system-wide lock order), refuse
    /// when the destination is full, move the appointment's slot reference
    /// under the ownership and `Waiting` guard, raise the destination's
    /// counter and release the origin's. The capacity never transiently
    /// double-counts: all three writes commit or abort together, so every
    /// guard is evaluated before the first write.
    pub fn reschedule_appointment(
        &mut self,
        now: i64,
        appointment_id: u128,
        patient_id: i32,
        reschedule_appointment_entity: RescheduleAppointmentEntity,
    ) -> (r: Result<u128, BookingError>)
        requires
            old(self).inv(),
        ensures
            final(self).inv(),
            r == Err::<u128, BookingError>(BookingError::SlotNotFound) <==> !old(
                self,
            ).has_active_slot(reschedule_appointment_entity.slot_id),
            r == Err::<u128, BookingError>(BookingError::SlotAlreadyEnded) <==> (old(
                self,
            ).has_active_slot(reschedule_appointment_entity.slot_id) && now > old(
                self,
            ).active_slot(reschedule_appointment_entity.slot_id).end_time),
            r == Err::<u128, BookingError>(BookingError::AppointmentNotFound) <==> (old(
                self,
            ).has_active_slot(reschedule_appointment_entity.slot_id) && now <= old(
                self,
            ).active_slot(reschedule_appointment_entity.slot_id).end_time && !old(
                self,
            ).has_active_appointment(appointment_id)),
            r == Err::<u128, BookingError>(BookingError::SlotFull) <==> (old(
                self,
            ).has_active_slot(reschedule_appointment_entity.slot_id) && now <= old(
                self,
            ).active_slot(reschedule_appointment_entity.slot_id).end_time && old(
                self,
            ).has_active_appointment(appointment_id) && old(self).active_slot(
                reschedule_appointment_entity.slot_id,
            ).current_appointment_count >= old(self).active_slot(
                reschedule_appointment_entity.slot_id,
            ).max_appointment_count),
            r == Err::<u128, BookingError>(BookingError::NotAppointmentOwner) <==> (old(
                self,
            ).has_active_slot(reschedule_appointment_entity.slot_id) && now <= old(
                self,
            ).active_slot(reschedule_appointment_entity.slot_id).end_time && old(
                self,
            ).has_active_appointment(appointment_id) && old(self).active_slot(
                reschedule_appointment_entity.slot_id,
            ).current_appointment_count < old(self).active_slot(
                reschedule_appointment_entity.slot_id,
            ).max_appointment_count && old(self).active_appointment(appointment_id).patient_id
                != patient_id),
            r == Err::<u128, BookingError>(BookingError::AppointmentNotWaiting) <==> (old(
                self,
            ).has_active_slot(reschedule_appointment_entity.slot_id) && now <= old(
                self,
            ).active_slot(reschedule_appointment_entity.slot_id).end_time && old(
                self,
            ).has_active_appointment(appointment_id) && old(self).active_slot(
                reschedule_appointment_entity.slot_id,
            ).current_appointment_count < old(self).active_slot(
                reschedule_appointment_entity.slot_id,
            ).max_appointment_count && old(self).active_appointment(appointment_id).patient_id
                == patient_id && old(self).active_appointment(appointment_id).status
                != AppointmentStatus::Waiting),
            r is Ok <==> (old(self).has_active_slot(reschedule_appointment_entity.slot_id) && now
                <= old(self).active_slot(reschedule_appointment_entity.slot_id).end_time && old(
                self,
            ).active_slot(reschedule_appointment_entity.slot_id).current_appointment_count < old(
                self,
            ).active_slot(reschedule_appointment_entity.slot_id).max_appointment_count
                && waiting_guard_ok(*old(self), appointment_id, patient_id)),
            r is Ok ==> r->Ok_0 == appointment_id,
            r is Err ==> *final(self) == *old(self),
            r is Ok ==> final(self).appointments@ == old(self).appointments@.update(
                active_appointment_idx(old(self).appointments@, appointment_id),
                (AppointmentRecord {
                    slot_id: reschedule_appointment_entity.slot_id,
                    updated_at: reschedule_appointment_entity.updated_at,
                    ..old(self).active_appointment(appointment_id)
                }),
            ),
            r is Ok ==> final(self).slots@.len() == old(self).slots@.len(),
            r is Ok ==> forall|k: int|
                0 <= k < old(self).slots@.len() ==> final(self).slots@[k] == reslotted(
                    old(self).slots@[k],
                    reschedule_appointment_entity.slot_id,
                    old(self).active_appointment(appointment_id).slot_id,
                    now,
                ),
            final(self).next_slot_id == old(self).next_slot_id,
            final(self).next_appointment_id == old(self).next_appointment_id,
    {
        let new_slot_id = reschedule_appointment_entity.slot_id;

        let end_time = match SlotViewingDao::get_end_time_by_slot_id(self, new_slot_id) {
            Ok(t) => t,
            Err(e) => {
                return Err(e);
            },
        };
        if now > end_time {
            return Err(BookingError::SlotAlreadyEnded);
        }

        let old_slot_id = match AppointmentViewingDao::get_slot_id_by_appointment_id(
            self,
            appointment_id,
        ) {
            Ok(s) => s,
            Err(e) => {
                return Err(e);
            },
        };

        match SlotOpsDao::lock(self, new_slot_id) {
            Ok(_) => {},
            Err(e) => {
                return Err(e);
            },
        }
        match SlotOpsDao::lock(self, old_slot_id) {
            Ok(_) => {},
            Err(e) => {
                return Err(e);
            },
        }

        if !self.slot_has_spare_capacity(new_slot_id) {
            return Err(BookingError::SlotFull);
        }

        proof {
            let i = active_appointment_idx(old(self).appointments@, appointment_id);
            lemma_count_at_least_one(old(self).appointments@, i, old_slot_id);
        }

        let appointment_effected_id = match AppointmentOpsDao::reschedule(
            self,
            appointment_id,
            patient_id,
            reschedule_appointment_entity,
        ) {
            Ok(id) => id,
            Err(e) => {
                return Err(e);
            },
        };

        let slot_is_not_full = SlotOpsDao::try_add_slot_appointment_count(self, new_slot_id, now);
        assert(slot_is_not_full);

        SlotOpsDao::dec_slot_appointment_count(self, old_slot_id, now);

        proof {
            let olds = old(self).slots@;
            let olda = old(self).appointments@;
            let i = active_appointment_idx(olda, appointment_id);
            let jn = active_slot_idx(olds, new_slot_id);
            let row = self.appointments@[i];
            assert forall|k: int|
                0 <= k < self.slots@.len() implies (#[trigger] self.slots@[k]).current_appointment_count
                as int == count_active_for(self.appointments@, self.slots@[k].id) by {
                lemma_count_update(olda, i, row, self.slots@[k].id);
                assert(self.slots@[k].id == olds[k].id);
            }
            assert forall|k: int|
                0 <= k < self.appointments@.len() && appointment_active(
                    #[trigger] self.appointments@[k],
                ) implies has_active_slot_in(self.slots@, self.appointments@[k].slot_id) by {
                let sid = self.appointments@[k].slot_id;
                if k == i {
                    assert(slot_active(self.slots@[jn]) && self.slots@[jn].id == sid);
                } else {
                    let w = choose|w: int|
                        0 <= w < olds.len() && slot_active(#[trigger] olds[w]) && olds[w].id
                            == sid;
                    assert(slot_active(self.slots@[w]) && self.slots@[w].id == sid);
                }
            }
        }
        Ok(appointment_effected_id)
    }

    /// Cancels an appointment, all inside one transaction: look up the slot
    /// it reserves against, lock that slot, soft-delete the appointment
    /// under the ownership and `Waiting` guard, and release one unit of the
    /// slot's capacity. A guard refusal aborts the whole transaction, so no
    /// capacity is ever released without the appointment being removed.
    pub fn remove_appointment(&mut self, now: i64, appointment_id: u128, patient_id: i32) -> (r:
        Result<(), BookingError>)
        requires
            old(self).inv(),
        ensures
            final(self).inv(),
            r == Err::<(), BookingError>(BookingError::AppointmentNotFound) <==> !old(
                self,
            ).has_active_appointment(appointment_id),
            r == Err::<(), BookingError>(BookingError::NotAppointmentOwner) <==> (old(
                self,
            ).has_active_appointment(appointment_id) && old(self).active_appointment(
                appointment_id,
            ).patient_id != patient_id),
            r == Err::<(), BookingError>(BookingError::AppointmentNotWaiting) <==> (old(
                self,
            ).has_active_appointment(appointment_id) && old(self).active_appointment(
                appointment_id,
            ).patient_id == patient_id && old(self).active_appointment(appointment_id).status
                != AppointmentStatus::Waiting),
            r is Ok <==> waiting_guard_ok(*old(self), appointment_id, patient_id),
            r is Err ==> *final(self) == *old(self),
            r is Ok ==> final(self).appointments@ == old(self).appointments@.update(
                active_appointment_idx(old(self).appointments@, appointment_id),
                (AppointmentRecord {
                    deleted_at: Some(now),
                    ..old(self).active_appointment(appointment_id)
                }),
            ),
            r is Ok ==> final(self).slots@ == old(self).slots@.update(
                active_slot_idx(old(self).slots@, old(self).active_appointment(
                    appointment_id,
                ).slot_id),
                (SlotEntity {
                    current_appointment_count: (old(self).active_slot(
                        old(self).active_appointment(appointment_id).slot_id,
                    ).current_appointment_count - 1) as i32,
                    updated_at: now,
                    ..old(self).active_slot(old(self).active_appointment(appointment_id).slot_id)
                }),
            ),
            final(self).next_slot_id == old(self).next_slot_id,
            final(self).next_appointment_id == old(self).next_appointment_id,
    {
        let slot_id = match AppointmentViewingDao::get_slot_id_by_appointment_id(
            self,
            appointment_id,
        ) {
            Ok(s) => s,
            Err(e) => {
                return Err(e);
            },
        };

        match SlotOpsDao::lock(self, slot_id) {
            Ok(_) => {},
            Err(e) => {
                return Err(e);
            },
        }

        proof {
            let i = active_appointment_idx(old(self).appointments@, appointment_id);
            lemma_count_at_least_one(old(self).appointments@, i, slot_id);
        }

        match AppointmentOpsDao::remove(self, appointment_id, patient_id, now) {
            Ok(_) => {},
            Err(e) => {
                return Err(e);
            },
        }

        SlotOpsDao::dec_slot_appointment_count(self, slot_id, now);

        proof {
            let olds = old(self).slots@;
            let olda = old(self).appointments@;
            let i = active_appointment_idx(olda, appointment_id);
            let row = self.appointments@[i];
            assert forall|k: int|
                0 <= k < self.slots@.len() implies (#[trigger] self.slots@[k]).current_appointment_count
                as int == count_active_for(self.appointments@, self.slots@[k].id) by {
                lemma_count_update(olda, i, row, self.slots@[k].id);
                assert(self.slots@[k].id == olds[k].id);
            }
            assert forall|k: int|
                0 <= k < self.appointments@.len() && appointment_active(
                    #[trigger] self.appointments@[k],
                ) implies has_active_slot_in(self.slots@, self.appointments@[k].slot_id) by {
                let sid = self.appointments@[k].slot_id;
                let w = choose|w: int|
                    0 <= w < olds.len() && slot_active(#[trigger] olds[w]) && olds[w].id == sid;
                assert(slot_active(self.slots@[w]) && self.slots@[w].id == sid);
            }
        }
        Ok(())
    }
}

/// How one slot row looks after a reschedule that raises the counter of
/// `new_slot_id` and releases one unit of `old_slot_id`: a row carrying
/// both ids nets out unchanged, a row carrying neither is untouched.
pub open spec fn reslotted(s: SlotEntity, new_slot_id: u128, old_slot_id: u128, now: i64) -> SlotEntity {
    if s.id == new_slot_id && s.id == old_slot_id {
        SlotEntity { updated_at: now, ..s }
    } else if s.id == new_slot_id {
        SlotEntity {
            current_appointment_count: (s.current_appointment_count + 1) as i32,
            updated_at: now,
            ..s
        }
    } else if s.id == old_slot_id {
        SlotEntity {
            current_appointment_count: (s.current_appointment_count - 1) as i32,
            updated_at: now,
            ..s
        }
    } else {
        s
    }
}

} // verus!
