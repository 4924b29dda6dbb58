use vstd::prelude::*;

use crate::appointments::{AddAppointmentEntity, EditAppointmentEntity};
use crate::status::AppointmentStatus;

verus! {

/// A patient's request to book an appointment against a slot, carrying the
/// clinical intake fields.
#[derive(Debug, Clone, PartialEq)]
pub struct AddAppointmentDto {
    pub slot_id: u128,
    pub patient_abnormal_symptom: String,
    pub patient_is_missed_medication: String,
    pub patient_blood_test_status: String,
    pub patient_is_overdue_medication: String,
    pub patient_is_partner_hiv_positive: String,
}

impl AddAppointmentDto {
    /// The row values the request inserts: owned by the acting patient,
    /// status starting at `Waiting`, both bookkeeping timestamps the
    /// current time.
    pub fn to_entity(&self, patient_id: i32, current_time: i64) -> (e: AddAppointmentEntity)
        ensures
            e == (AddAppointmentEntity {
                slot_id: self.slot_id,
                patient_id,
                patient_abnormal_symptom: self.patient_abnormal_symptom,
                patient_is_missed_medication: self.patient_is_missed_medication,
                patient_blood_test_status: self.patient_blood_test_status,
                patient_is_overdue_medication: self.patient_is_overdue_medication,
                patient_is_partner_hiv_positive: self.patient_is_partner_hiv_positive,
                status: AppointmentStatus::Waiting,
                created_at: current_time,
                updated_at: current_time,
                deleted_at: None,
            }),
    {
        AddAppointmentEntity {
            slot_id: self.slot_id,
            patient_id,
            patient_abnormal_symptom: self.patient_abnormal_symptom.clone(),
            patient_is_missed_medication: self.patient_is_missed_medication.clone(),
            patient_blood_test_status: self.patient_blood_test_status.clone(),
            patient_is_overdue_medication: self.patient_is_overdue_medication.clone(),
            patient_is_partner_hiv_positive: self.patient_is_partner_hiv_positive.clone(),
            status: AppointmentStatus::Waiting,
            created_at: current_time,
            updated_at: current_time,
            deleted_at: None,
        }
    }
}

/// A patient's request to change an appointment: any present intake field
/// is replaced, and a present slot id asks for a reschedule.
#[derive(Debug, Clone, PartialEq)]
pub struct EditAppointmentDto {
    pub slot_id: Option<u128>,
    pub patient_abnormal_symptom: Option<String>,
    pub patient_is_missed_medication: Option<String>,
    pub patient_blood_test_status: Option<String>,
    pub patient_is_overdue_medication: Option<String>,
    pub patient_is_partner_hiv_positive: Option<String>,
}

impl EditAppointmentDto {
    /// The partial update of the intake fields, stamped with the current
    /// time; the slot id travels separately through the reschedule path.
    pub fn to_entity(&self, current_time: i64) -> (e: EditAppointmentEntity)
        ensures
            e == (EditAppointmentEntity {
                patient_abnormal_symptom: self.patient_abnormal_symptom,
                patient_is_missed_medication: self.patient_is_missed_medication,
                patient_blood_test_status: self.patient_blood_test_status,
                patient_is_overdue_medication: self.patient_is_overdue_medication,
                patient_is_partner_hiv_positive: self.patient_is_partner_hiv_positive,
                updated_at: current_time,
            }),
    {
        EditAppointmentEntity {
            patient_abnormal_symptom: clone_option_string(&self.patient_abnormal_symptom),
            patient_is_missed_medication: clone_option_string(&self.patient_is_missed_medication),
            patient_blood_test_status: clone_option_string(&self.patient_blood_test_status),
            patient_is_overdue_medication: clone_option_string(
                &self.patient_is_overdue_medication,
            ),
            patient_is_partner_hiv_positive: clone_option_string(
                &self.patient_is_partner_hiv_positive,
            ),
            updated_at: current_time,
        }
    }
}

/// Copies an optional intake field.
fn clone_option_string(s: &Option<String>) -> (r: Option<String>)
    ensures
        r == *s,
{
    match s {
        Some(v) => Some(v.clone()),
        None => None,
    }
}

} // verus!
