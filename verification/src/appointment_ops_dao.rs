use vstd::prelude::*;
use vstd::pervasive::VecAdditionalExecFns;

use crate::appointments::{
    AddAppointmentEntity, AppointmentRecord, EditAppointmentEntity, RescheduleAppointmentEntity,
};
use crate::db::{active_appointment_idx, find_active_appointment, ClinicDb};
use crate::errors::BookingError;
use crate::status::AppointmentStatus;

verus! {

/// An intake field update: the new value where one is present, otherwise
/// the stored one.
pub open spec fn merged_field(new_value: Option<String>, stored: String) -> String {
    match new_value {
        Some(v) => v,
        None => stored,
    }
}

/// True when the guarded update scope of edit, reschedule and removal
/// matches: the appointment exists, is owned by the acting patient, and is
/// still in the initial `Waiting` status.
pub open spec fn waiting_guard_ok(db: ClinicDb, appointment_id: u128, patient_id: i32) -> bool {
    &&& db.has_active_appointment(appointment_id)
    &&& db.active_appointment(appointment_id).patient_id == patient_id
    &&& db.active_appointment(appointment_id).status == AppointmentStatus::Waiting
}

/// The reason the guarded update scope did not match, in the order the
/// conditions are checked: existence, then ownership, then status.
pub open spec fn waiting_guard_error(
    db: ClinicDb,
    appointment_id: u128,
    patient_id: i32,
) -> BookingError {
    if !db.has_active_appointment(appointment_id) {
        BookingError::AppointmentNotFound
    } else if db.active_appointment(appointment_id).patient_id != patient_id {
        BookingError::NotAppointmentOwner
    } else {
        BookingError::AppointmentNotWaiting
    }
}

/// Single-row writes against the appointment table, always filtered on
/// "tombstone absent". Edit, reschedule and removal are scoped to the
/// owning patient and the initial `Waiting` status; a zero-row match is a
/// refusal, never a silent no-op.
pub struct AppointmentOpsDao;

impl AppointmentOpsDao {
    /// Inserts a new appointment row and returns the id the store assigned.
    /// The status is forced to `Waiting` regardless of the value carried by
    /// the entity.
    pub fn add(db: &mut ClinicDb, add_appointment_entity: AddAppointmentEntity) -> (id: u128)
        requires
            old(db).appointments_wf(),
        ensures
            final(db).appointments_wf(),
            id == old(db).next_appointment_id,
            final(db).appointments@ == old(db).appointments@.push(
                (AppointmentRecord {
                    id: old(db).next_appointment_id,
                    slot_id: add_appointment_entity.slot_id,
                    patient_id: add_appointment_entity.patient_id,
                    patient_abnormal_symptom: add_appointment_entity.patient_abnormal_symptom,
                    patient_is_missed_medication:
                        add_appointment_entity.patient_is_missed_medication,
                    patient_blood_test_status: add_appointment_entity.patient_blood_test_status,
                    patient_is_overdue_medication:
                        add_appointment_entity.patient_is_overdue_medication,
                    patient_is_partner_hiv_positive:
                        add_appointment_entity.patient_is_partner_hiv_positive,
                    status: AppointmentStatus::Waiting,
                    created_at: add_appointment_entity.created_at,
                    updated_at: add_appointment_entity.updated_at,
                    deleted_at: None,
                }),
            ),
            final(db).slots@ == old(db).slots@,
            final(db).next_slot_id == old(db).next_slot_id,
            final(db).next_appointment_id == old(db).next_appointment_id + 1,
    {
        let row = AppointmentRecord {
            id: db.next_appointment_id,
            slot_id: add_appointment_entity.slot_id,
            patient_id: add_appointment_entity.patient_id,
            patient_abnormal_symptom: add_appointment_entity.patient_abnormal_symptom,
            patient_is_missed_medication: add_appointment_entity.patient_is_missed_medication,
            patient_blood_test_status: add_appointment_entity.patient_blood_test_status,
            patient_is_overdue_medication: add_appointment_entity.patient_is_overdue_medication,
            patient_is_partner_hiv_positive:
                add_appointment_entity.patient_is_partner_hiv_positive,
            status: AppointmentStatus::Waiting,
            created_at: add_appointment_entity.created_at,
            updated_at: add_appointment_entity.updated_at,
            deleted_at: None,
        };
        let id = db.next_appointment_id;
        db.appointments.push(row);
        proof {
            broadcast use vstd::std_specs::vec::axiom_spec_len;
            assert(vstd::std_specs::vec::spec_vec_len(&db.appointments) == db.appointments@.len());
            assert(db.appointments@.len() <= usize::MAX);
        }
        db.next_appointment_id = db.next_appointment_id + 1;
        id
    }

    /// Conditional update of the intake fields, scoped to the owning
    /// patient and `Waiting` status; only the fields present in the entity
    /// change.
    pub fn edit(
        db: &mut ClinicDb,
        appointment_id: u128,
        patient_id: i32,
        edit_appointment_entity: EditAppointmentEntity,
    ) -> (r: Result<u128, BookingError>)
        requires
            old(db).appointments_wf(),
        ensures
            final(db).appointments_wf(),
            r is Ok <==> waiting_guard_ok(*old(db), appointment_id, patient_id),
            r is Ok ==> r->Ok_0 == appointment_id,
            r is Ok ==> final(db).appointments@ == old(db).appointments@.update(
                active_appointment_idx(old(db).appointments@, appointment_id),
                (AppointmentRecord {
                    patient_abnormal_symptom: merged_field(
                        edit_appointment_entity.patient_abnormal_symptom,
                        old(db).active_appointment(appointment_id).patient_abnormal_symptom,
                    ),
                    patient_is_missed_medication: merged_field(
                        edit_appointment_entity.patient_is_missed_medication,
                        old(db).active_appointment(appointment_id).patient_is_missed_medication,
                    ),
                    patient_blood_test_status: merged_field(
                        edit_appointment_entity.patient_blood_test_status,
                        old(db).active_appointment(appointment_id).patient_blood_test_status,
                    ),
                    patient_is_overdue_medication: merged_field(
                        edit_appointment_entity.patient_is_overdue_medication,
                        old(db).active_appointment(appointment_id).patient_is_overdue_medication,
                    ),
                    patient_is_partner_hiv_positive: merged_field(
                        edit_appointment_entity.patient_is_partner_hiv_positive,
                        old(db).active_appointment(
                            appointment_id,
                        ).patient_is_partner_hiv_positive,
                    ),
                    updated_at: edit_appointment_entity.updated_at,
                    ..old(db).active_appointment(appointment_id)
                }),
            ),
            r is Err ==> r->Err_0 == waiting_guard_error(*old(db), appointment_id, patient_id),
            r is Err ==> *final(db) == *old(db),
            final(db).slots@ == old(db).slots@,
            final(db).next_slot_id == old(db).next_slot_id,
            final(db).next_appointment_id == old(db).next_appointment_id,
    {
        match find_active_appointment(&db.appointments, appointment_id) {
            Some(i) => {
                proof {
                    let j = active_appointment_idx(db.appointments@, appointment_id);
                    assert(db.appointments@[i as int].id == db.appointments@[j].id);
                }
                let a = &db.appointments[i];
                if a.patient_id != patient_id {
                    return Err(BookingError::NotAppointmentOwner);
                }
                if !matches!(a.status, AppointmentStatus::Waiting) {
                    return Err(BookingError::AppointmentNotWaiting);
                }
                let new_row = AppointmentRecord {
                    id: a.id,
                    slot_id: a.slot_id,
                    patient_id: a.patient_id,
                    patient_abnormal_symptom: match edit_appointment_entity
                        .patient_abnormal_symptom {
                        Some(v) => v,
                        None => a.patient_abnormal_symptom.clone(),
                    },
                    patient_is_missed_medication: match edit_appointment_entity
                        .patient_is_missed_medication {
                        Some(v) => v,
                        None => a.patient_is_missed_medication.clone(),
                    },
                    patient_blood_test_status: match edit_appointment_entity
                        .patient_blood_test_status {
                        Some(v) => v,
                        None => a.patient_blood_test_status.clone(),
                    },
                    patient_is_overdue_medication: match edit_appointment_entity
                        .patient_is_overdue_medication {
                        Some(v) => v,
                        None => a.patient_is_overdue_medication.clone(),
                    },
                    patient_is_partner_hiv_positive: match edit_appointment_entity
                        .patient_is_partner_hiv_positive {
                        Some(v) => v,
                        None => a.patient_is_partner_hiv_positive.clone(),
                    },
                    status: a.status,
                    created_at: a.created_at,
                    updated_at: edit_appointment_entity.updated_at,
                    deleted_at: a.deleted_at,
                };
                db.appointments.set(i, new_row);
                Ok(appointment_id)
            },
            None => Err(BookingError::AppointmentNotFound),
        }
    }

    /// Conditional update of the slot reference, same guarded scope as
    /// edit. The capacity movement between the two slots is the
    /// orchestrator's duty, inside the same transaction.
    pub fn reschedule(
        db: &mut ClinicDb,
        appointment_id: u128,
        patient_id: i32,
        reschedule_appointment_entity: RescheduleAppointmentEntity,
    ) -> (r: Result<u128, BookingError>)
        requires
            old(db).appointments_wf(),
        ensures
            final(db).appointments_wf(),
            r is Ok <==> waiting_guard_ok(*old(db), appointment_id, patient_id),
            r is Ok ==> r->Ok_0 == appointment_id,
            r is Ok ==> final(db).appointments@ == old(db).appointments@.update(
                active_appointment_idx(old(db).appointments@, appointment_id),
                (AppointmentRecord {
                    slot_id: reschedule_appointment_entity.slot_id,
                    updated_at: reschedule_appointment_entity.updated_at,
                    ..old(db).active_appointment(appointment_id)
                }),
            ),
            r is Err ==> r->Err_0 == waiting_guard_error(*old(db), appointment_id, patient_id),
            r is Err ==> *final(db) == *old(db),
            final(db).slots@ == old(db).slots@,
            final(db).next_slot_id == old(db).next_slot_id,
            final(db).next_appointment_id == old(db).next_appointment_id,
    {
        match find_active_appointment(&db.appointments, appointment_id) {
            Some(i) => {
                proof {
                    let j = active_appointment_idx(db.appointments@, appointment_id);
                    assert(db.appointments@[i as int].id == db.appointments@[j].id);
                }
                let a = &db.appointments[i];
                if a.patient_id != patient_id {
                    return Err(BookingError::NotAppointmentOwner);
                }
                if !matches!(a.status, AppointmentStatus::Waiting) {
                    return Err(BookingError::AppointmentNotWaiting);
                }
                let new_row = AppointmentRecord {
                    id: a.id,
                    slot_id: reschedule_appointment_entity.slot_id,
                    patient_id: a.patient_id,
                    patient_abnormal_symptom: a.patient_abnormal_symptom.clone(),
                    patient_is_missed_medication: a.patient_is_missed_medication.clone(),
                    patient_blood_test_status: a.patient_blood_test_status.clone(),
                    patient_is_overdue_medication: a.patient_is_overdue_medication.clone(),
                    patient_is_partner_hiv_positive: a.patient_is_partner_hiv_positive.clone(),
                    status: a.status,
                    created_at: a.created_at,
                    updated_at: reschedule_appointment_entity.updated_at,
                    deleted_at: a.deleted_at,
                };
                db.appointments.set(i, new_row);
                Ok(appointment_id)
            },
            None => Err(BookingError::AppointmentNotFound),
        }
    }

    /// Sets the soft-delete tombstone, same guarded scope as edit. A zero
    /// row match aborts the enclosing transaction instead of committing a
    /// released capacity without a removed appointment.
    pub fn remove(db: &mut ClinicDb, appointment_id: u128, patient_id: i32, now: i64) -> (r:
        Result<(), BookingError>)
        requires
            old(db).appointments_wf(),
        ensures
            final(db).appointments_wf(),
            r is Ok <==> waiting_guard_ok(*old(db), appointment_id, patient_id),
            r is Ok ==> final(db).appointments@ == old(db).appointments@.update(
                active_appointment_idx(old(db).appointments@, appointment_id),
                (AppointmentRecord {
                    deleted_at: Some(now),
                    ..old(db).active_appointment(appointment_id)
                }),
            ),
            r is Err ==> r->Err_0 == waiting_guard_error(*old(db), appointment_id, patient_id),
            r is Err ==> *final(db) == *old(db),
            final(db).slots@ == old(db).slots@,
            final(db).next_slot_id == old(db).next_slot_id,
            final(db).next_appointment_id == old(db).next_appointment_id,
    {
        match find_active_appointment(&db.appointments, appointment_id) {
            Some(i) => {
                proof {
                    let j = active_appointment_idx(db.appointments@, appointment_id);
                    assert(db.appointments@[i as int].id == db.appointments@[j].id);
                }
                let a = &db.appointments[i];
                if a.patient_id != patient_id {
                    return Err(BookingError::NotAppointmentOwner);
                }
                if !matches!(a.status, AppointmentStatus::Waiting) {
                    return Err(BookingError::AppointmentNotWaiting);
                }
                let new_row = AppointmentRecord {
                    id: a.id,
                    slot_id: a.slot_id,
                    patient_id: a.patient_id,
                    patient_abnormal_symptom: a.patient_abnormal_symptom.clone(),
                    patient_is_missed_medication: a.patient_is_missed_medication.clone(),
                    patient_blood_test_status: a.patient_blood_test_status.clone(),
                    patient_is_overdue_medication: a.patient_is_overdue_medication.clone(),
                    patient_is_partner_hiv_positive: a.patient_is_partner_hiv_positive.clone(),
                    status: a.status,
                    created_at: a.created_at,
                    updated_at: a.updated_at,
                    deleted_at: Some(now),
                };
                db.appointments.set(i, new_row);
                Ok(())
            },
            None => Err(BookingError::AppointmentNotFound),
        }
    }
}

} // verus!
