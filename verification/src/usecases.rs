use vstd::prelude::*;

use crate::appointment_model::{AddAppointmentDto, EditAppointmentDto};
use crate::appointment_ops_dao::{
    merged_field, waiting_guard_error, waiting_guard_ok, AppointmentOpsDao,
};
use crate::appointments::{AppointmentRecord, RescheduleAppointmentEntity};
use crate::db::{active_appointment_idx, active_slot_idx, ClinicDb};
use crate::errors::BookingError;
use crate::slots::SlotEntity;
use crate::status::AppointmentStatus;
use crate::time::now_micros;

verus! {

/// The refusal a reschedule of `appointment_id` to `new_slot_id` meets at
/// time `now`, if any: the guards in the order the transaction evaluates
/// them.
pub open spec fn reschedule_refusal(
    db: ClinicDb,
    now: i64,
    appointment_id: u128,
    patient_id: i32,
    new_slot_id: u128,
) -> Option<BookingError> {
    if !db.has_active_slot(new_slot_id) {
        Some(BookingError::SlotNotFound)
    } else if now > db.active_slot(new_slot_id).end_time {
        Some(BookingError::SlotAlreadyEnded)
    } else if !db.has_active_appointment(appointment_id) {
        Some(BookingError::AppointmentNotFound)
    } else if db.active_slot(new_slot_id).current_appointment_count >= db.active_slot(
        new_slot_id,
    ).max_appointment_count {
        Some(BookingError::SlotFull)
    } else if db.active_appointment(appointment_id).patient_id != patient_id {
        Some(BookingError::NotAppointmentOwner)
    } else if db.active_appointment(appointment_id).status != AppointmentStatus::Waiting {
        Some(BookingError::AppointmentNotWaiting)
    } else {
        None
    }
}

impl ClinicDb {
    /// A patient's edit request: when it names a new slot, the appointment
    /// is first rescheduled there; the intake fields present in the
    /// request are then replaced, under the ownership and `Waiting` guard.
    /// A reschedule refusal aborts the whole request with nothing changed;
    /// once the reschedule has committed, the field edit is owed success,
    /// because the guard it re-checks still holds.
    pub fn edit_appointment(
        &mut self,
        now: i64,
        appointment_id: u128,
        patient_id: i32,
        edit_appointment_dto: EditAppointmentDto,
    ) -> (r: Result<(), BookingError>)
        requires
            old(self).inv(),
        ensures
            final(self).inv(),
            r is Err ==> *final(self) == *old(self),
            edit_appointment_dto.slot_id is None ==> (r is Ok <==> waiting_guard_ok(
                *old(self),
                appointment_id,
                patient_id,
            )),
            edit_appointment_dto.slot_id is None && r is Err ==> r->Err_0 == waiting_guard_error(
                *old(self),
                appointment_id,
                patient_id,
            ),
            edit_appointment_dto.slot_id matches Some(new_slot_id) ==> (r is Err <==> reschedule_refusal(
                *old(self),
                now,
                appointment_id,
                patient_id,
                new_slot_id,
            ) is Some),
            edit_appointment_dto.slot_id matches Some(new_slot_id) ==> (r is Err
                ==> Some(r->Err_0) == reschedule_refusal(
                *old(self),
                now,
                appointment_id,
                patient_id,
                new_slot_id,
            )),
            r is Ok ==> final(self).appointments@ == old(self).appointments@.update(
                active_appointment_idx(old(self).appointments@, appointment_id),
                (AppointmentRecord {
                    slot_id: match edit_appointment_dto.slot_id {
                        Some(new_slot_id) => new_slot_id,
                        None => old(self).active_appointment(appointment_id).slot_id,
                    },
                    patient_abnormal_symptom: merged_field(
                        edit_appointment_dto.patient_abnormal_symptom,
                        old(self).active_appointment(appointment_id).patient_abnormal_symptom,
                    ),
                    patient_is_missed_medication: merged_field(
                        edit_appointment_dto.patient_is_missed_medication,
                        old(self).active_appointment(appointment_id).patient_is_missed_medication,
                    ),
                    patient_blood_test_status: merged_field(
                        edit_appointment_dto.patient_blood_test_status,
                        old(self).active_appointment(appointment_id).patient_blood_test_status,
                    ),
                    patient_is_overdue_medication: merged_field(
                        edit_appointment_dto.patient_is_overdue_medication,
                        old(self).active_appointment(appointment_id).patient_is_overdue_medication,
                    ),
                    patient_is_partner_hiv_positive: merged_field(
                        edit_appointment_dto.patient_is_partner_hiv_positive,
                        old(self).active_appointment(
                            appointment_id,
                        ).patient_is_partner_hiv_positive,
                    ),
                    updated_at: now,
                    ..old(self).active_appointment(appointment_id)
                }),
            ),
            (r is Ok && edit_appointment_dto.slot_id is None) ==> final(self).slots@ == old(
                self,
            ).slots@,
            r is Ok ==> final(self).slots@.len() == old(self).slots@.len(),
            edit_appointment_dto.slot_id matches Some(new_slot_id) ==> (r is Ok
                ==> forall|k: int|
                    0 <= k < old(self).slots@.len() ==> final(self).slots@[k]
                        == crate::appointment_ops::reslotted(
                        old(self).slots@[k],
                        new_slot_id,
                        old(self).active_appointment(appointment_id).slot_id,
                        now,
                    )),
            final(self).next_slot_id == old(self).next_slot_id,
            final(self).next_appointment_id == old(self).next_appointment_id,
    {
        let ghost pre = *old(self);
        if let Some(new_slot_id) = edit_appointment_dto.slot_id {
            let reschedule_appointment_entity = RescheduleAppointmentEntity {
                slot_id: new_slot_id,
                updated_at: now,
            };
            match self.reschedule_appointment(
                now,
                appointment_id,
                patient_id,
                reschedule_appointment_entity,
            ) {
                Ok(_) => {},
                Err(e) => {
                    return Err(e);
                },
            }
            proof {
                let i = active_appointment_idx(pre.appointments@, appointment_id);
                let j = active_appointment_idx(self.appointments@, appointment_id);
                assert(self.appointments@[i].id == appointment_id);
                assert(self.appointments@[j].id == self.appointments@[i].id);
            }
        }

        let edit_appointment_entity = edit_appointment_dto.to_entity(now);
        let ghost mid = *self;
        let r = AppointmentOpsDao::edit(
            self,
            appointment_id,
            patient_id,
            edit_appointment_entity,
        );
        match r {
            Ok(_) => {
                proof {
                    let olds = mid.slots@;
                    let olda = mid.appointments@;
                    let i2 = crate::db::active_appointment_idx(olda, appointment_id);
                    let row2 = self.appointments@[i2];
                    assert forall|k: int|
                        0 <= k < self.slots@.len() implies (#[trigger] self.slots@[k]).current_appointment_count
                        as int == crate::db::count_active_for(
                        self.appointments@,
                        self.slots@[k].id,
                    ) by {
                        crate::db::lemma_count_update(olda, i2, row2, self.slots@[k].id);
                    }
                    assert forall|k: int|
                        0 <= k < self.appointments@.len() && crate::appointments::appointment_active(
                            #[trigger] self.appointments@[k],
                        ) implies crate::db::has_active_slot_in(
                        self.slots@,
                        self.appointments@[k].slot_id,
                    ) by {
                        let sid = self.appointments@[k].slot_id;
                        let w = choose|w: int|
                            0 <= w < olds.len() && crate::slots::slot_active(#[trigger] olds[w])
                                && olds[w].id == sid;
                        assert(crate::slots::slot_active(self.slots@[w]) && self.slots@[w].id
                            == sid);
                    }
                    if edit_appointment_dto.slot_id is Some {
                        let i = active_appointment_idx(pre.appointments@, appointment_id);
                        let j = active_appointment_idx(mid.appointments@, appointment_id);
                        assert(mid.appointments@[i].id == appointment_id);
                        assert(mid.appointments@[j].id == mid.appointments@[i].id);
                        assert(self.appointments@ =~= pre.appointments@.update(
                            i,
                            self.appointments@[i],
                        ));
                    }
                }
                Ok(())
            },
            Err(e) => {
                proof {
                    if edit_appointment_dto.slot_id is Some {
                        let i = active_appointment_idx(pre.appointments@, appointment_id);
                        let j = active_appointment_idx(mid.appointments@, appointment_id);
                        assert(mid.appointments@[i].id == appointment_id);
                        assert(mid.appointments@[j].id == mid.appointments@[i].id);
                        assert(waiting_guard_ok(mid, appointment_id, patient_id));
                    }
                }
                Err(e)
            },
        }
    }

    /// Books an appointment at the current wall-clock time: the use-case
    /// entry point over [`ClinicDb::add_appointment`]. The clock decides
    /// which refusal, if any, the booking meets; whatever it reads, the
    /// store invariant is preserved, a refusal changes nothing, and a
    /// booking only ever succeeds against an active slot with spare
    /// capacity, appending one `Waiting` appointment and taking exactly
    /// one unit of that slot's capacity.
    pub fn add_appointment_now(
        &mut self,
        add_appointment_dto: &AddAppointmentDto,
        patient_id: i32,
    ) -> (r: Result<u128, BookingError>)
        requires
            old(self).inv(),
        ensures
            final(self).inv(),
            r is Err ==> *final(self) == *old(self),
            r is Ok ==> old(self).has_active_slot(add_appointment_dto.slot_id) && old(
                self,
            ).active_slot(add_appointment_dto.slot_id).current_appointment_count < old(
                self,
            ).active_slot(add_appointment_dto.slot_id).max_appointment_count,
            r is Ok ==> final(self).appointments@.len() == old(self).appointments@.len() + 1,
            r is Ok ==> final(self).appointments@.last() == (AppointmentRecord {
                id: old(self).next_appointment_id,
                slot_id: add_appointment_dto.slot_id,
                patient_id,
                patient_abnormal_symptom: add_appointment_dto.patient_abnormal_symptom,
                patient_is_missed_medication: add_appointment_dto.patient_is_missed_medication,
                patient_blood_test_status: add_appointment_dto.patient_blood_test_status,
                patient_is_overdue_medication: add_appointment_dto.patient_is_overdue_medication,
                patient_is_partner_hiv_positive:
                    add_appointment_dto.patient_is_partner_hiv_positive,
                status: AppointmentStatus::Waiting,
                created_at: final(self).appointments@.last().created_at,
                updated_at: final(self).appointments@.last().updated_at,
                deleted_at: None,
            }),
            r is Ok ==> r->Ok_0 == old(self).next_appointment_id,
            r is Ok ==> final(self).appointments@ == old(self).appointments@.push(
                final(self).appointments@.last(),
            ),
            r is Ok ==> final(self).slots@ == old(self).slots@.update(
                active_slot_idx(old(self).slots@, add_appointment_dto.slot_id),
                (SlotEntity {
                    current_appointment_count: (old(self).active_slot(
                        add_appointment_dto.slot_id,
                    ).current_appointment_count + 1) as i32,
                    updated_at: final(self).slots@[active_slot_idx(
                        old(self).slots@,
                        add_appointment_dto.slot_id,
                    )].updated_at,
                    ..old(self).active_slot(add_appointment_dto.slot_id)
                }),
            ),
            r == Err::<u128, BookingError>(BookingError::SlotNotFound) <==> !old(
                self,
            ).has_active_slot(add_appointment_dto.slot_id),
            r == Err::<u128, BookingError>(BookingError::SlotFull) ==> old(self).active_slot(
                add_appointment_dto.slot_id,
            ).current_appointment_count >= old(self).active_slot(
                add_appointment_dto.slot_id,
            ).max_appointment_count,
            (old(self).has_active_slot(add_appointment_dto.slot_id) && old(self).active_slot(
                add_appointment_dto.slot_id,
            ).current_appointment_count >= old(self).active_slot(
                add_appointment_dto.slot_id,
            ).max_appointment_count) ==> r is Err,
            r is Err ==> (r->Err_0 == BookingError::SlotNotFound || r->Err_0
                == BookingError::SlotAlreadyEnded || r->Err_0 == BookingError::SlotFull),
    {
        let current_time = now_micros();
        let add_appointment_entity = add_appointment_dto.to_entity(patient_id, current_time);
        self.add_appointment(current_time, add_appointment_entity)
    }

    /// Cancels an appointment at the current wall-clock time: the use-case
    /// entry point over [`ClinicDb::remove_appointment`]. Whatever the
    /// clock reads, a refusal changes nothing, and a cancellation
    /// tombstones the appointment and releases exactly one unit of its
    /// slot's capacity.
    pub fn remove_appointment_now(&mut self, appointment_id: u128, patient_id: i32) -> (r: Result<
        (),
        BookingError,
    >)
        requires
            old(self).inv(),
        ensures
            final(self).inv(),
            r is Err ==> *final(self) == *old(self),
            r is Ok <==> waiting_guard_ok(*old(self), appointment_id, patient_id),
            r is Err ==> r->Err_0 == waiting_guard_error(*old(self), appointment_id, patient_id),
            r is Ok ==> final(self).appointments@ == old(self).appointments@.update(
                active_appointment_idx(old(self).appointments@, appointment_id),
                (AppointmentRecord {
                    deleted_at: final(self).appointments@[active_appointment_idx(
                        old(self).appointments@,
                        appointment_id,
                    )].deleted_at,
                    ..old(self).active_appointment(appointment_id)
                }),
            ),
            r is Ok ==> final(self).appointments@[active_appointment_idx(
                old(self).appointments@,
                appointment_id,
            )].deleted_at is Some,
            r is Ok ==> final(self).slots@ == old(self).slots@.update(
                active_slot_idx(
                    old(self).slots@,
                    old(self).active_appointment(appointment_id).slot_id,
                ),
                (SlotEntity {
                    current_appointment_count: (old(self).active_slot(
                        old(self).active_appointment(appointment_id).slot_id,
                    ).current_appointment_count - 1) as i32,
                    updated_at: final(self).slots@[active_slot_idx(
                        old(self).slots@,
                        old(self).active_appointment(appointment_id).slot_id,
                    )].updated_at,
                    ..old(self).active_slot(old(self).active_appointment(appointment_id).slot_id)
                }),
            ),
            final(self).next_slot_id == old(self).next_slot_id,
            final(self).next_appointment_id == old(self).next_appointment_id,
    {
        let current_time = now_micros();
        self.remove_appointment(current_time, appointment_id, patient_id)
    }
}

} // verus!
