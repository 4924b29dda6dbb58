use vstd::prelude::*;
use vstd::pervasive::VecAdditionalExecFns;

use crate::appointments::AppointmentRecord;
use crate::db::{active_appointment_idx, find_active_appointment, ClinicDb};
use crate::errors::BookingError;
use crate::status::AppointmentStatus;

verus! {

/// The one write of the ledger: the status update.
pub struct AppointmentLedgerDao;

impl AppointmentLedgerDao {
    /// Unconditional update of an appointment's status to the target value,
    /// filtered only on "tombstone absent"; the precondition on the current
    /// status is the ledger orchestrator's, not this store operation's.
    pub fn change_appointment_status(
        db: &mut ClinicDb,
        appointment_id: u128,
        appointment_status: AppointmentStatus,
    ) -> (r: Result<u128, BookingError>)
        requires
            old(db).appointments_wf(),
        ensures
            final(db).appointments_wf(),
            r is Ok <==> old(db).has_active_appointment(appointment_id),
            r is Ok ==> r->Ok_0 == appointment_id,
            r is Ok ==> final(db).appointments@ == old(db).appointments@.update(
                active_appointment_idx(old(db).appointments@, appointment_id),
                (AppointmentRecord {
                    status: appointment_status,
                    ..old(db).active_appointment(appointment_id)
                }),
            ),
            r is Err ==> r->Err_0 == BookingError::AppointmentNotFound,
            r is Err ==> *final(db) == *old(db),
            final(db).slots@ == old(db).slots@,
            final(db).next_slot_id == old(db).next_slot_id,
            final(db).next_appointment_id == old(db).next_appointment_id,
    {
        match find_active_appointment(&db.appointments, appointment_id) {
            Some(i) => {
                proof {
                    let j = active_appointment_idx(db.appointments@, appointment_id);
                    assert(db.appointments@[i as int].id == db.appointments@[j].id);
                }
                let a = &db.appointments[i];
                let new_row = AppointmentRecord {
                    id: a.id,
                    slot_id: a.slot_id,
                    patient_id: a.patient_id,
                    patient_abnormal_symptom: a.patient_abnormal_symptom.clone(),
                    patient_is_missed_medication: a.patient_is_missed_medication.clone(),
                    patient_blood_test_status: a.patient_blood_test_status.clone(),
                    patient_is_overdue_medication: a.patient_is_overdue_medication.clone(),
                    patient_is_partner_hiv_positive: a.patient_is_partner_hiv_positive.clone(),
                    status: appointment_status,
                    created_at: a.created_at,
                    updated_at: a.updated_at,
                    deleted_at: a.deleted_at,
                };
                db.appointments.set(i, new_row);
                Ok(appointment_id)
            },
            None => Err(BookingError::AppointmentNotFound),
        }
    }
}

} // verus!
