use vstd::prelude::*;

use crate::status::AppointmentStatus;

verus! {

/// A row of the appointment table: a patient's reservation against exactly
/// one slot, carrying five free-form clinical intake fields that this core
/// treats as opaque strings, and a lifecycle status.
#[derive(Debug, Clone, PartialEq)]
pub struct AppointmentRecord {
    pub id: u128,
    pub slot_id: u128,
    pub patient_id: i32,
    pub patient_abnormal_symptom: String,
    pub patient_is_missed_medication: String,
    pub patient_blood_test_status: String,
    pub patient_is_overdue_medication: String,
    pub patient_is_partner_hiv_positive: String,
    pub status: AppointmentStatus,
    pub created_at: i64,
    pub updated_at: i64,
    pub deleted_at: Option<i64>,
}

/// The values a new appointment row is inserted with; the store assigns the
/// id and forces the status to `Waiting` regardless of the value given here.
#[derive(Debug, Clone, PartialEq)]
pub struct AddAppointmentEntity {
    pub slot_id: u128,
    pub patient_id: i32,
    pub patient_abnormal_symptom: String,
    pub patient_is_missed_medication: String,
    pub patient_blood_test_status: String,
    pub patient_is_overdue_medication: String,
    pub patient_is_partner_hiv_positive: String,
    pub status: AppointmentStatus,
    pub created_at: i64,
    pub updated_at: i64,
    pub deleted_at: Option<i64>,
}

/// A partial update of the intake fields: only those present change.
#[derive(Debug, Clone, PartialEq)]
pub struct EditAppointmentEntity {
    pub patient_abnormal_symptom: Option<String>,
    pub patient_is_missed_medication: Option<String>,
    pub patient_blood_test_status: Option<String>,
    pub patient_is_overdue_medication: Option<String>,
    pub patient_is_partner_hiv_positive: Option<String>,
    pub updated_at: i64,
}

/// Moves an appointment to another slot.
#[derive(Debug, Clone, Copy, PartialEq)]
pub struct RescheduleAppointmentEntity {
    pub slot_id: u128,
    pub updated_at: i64,
}

/// True when the row has no tombstone.
pub open spec fn appointment_active(a: AppointmentRecord) -> bool {
    a.deleted_at is None
}

} // verus!
