use vstd::prelude::*;

use crate::appointments::AppointmentRecord;
use crate::slots::SlotEntity;

verus! {

/// One row of a schedule listing: an active appointment joined with the
/// active slot it reserves against. The status travels as its string token.
#[derive(Debug, Clone, PartialEq)]
pub struct ScheduleViewEntity {
    pub id: u128,
    pub slot_id: u128,
    pub patient_id: i32,
    pub patient_abnormal_symptom: String,
    pub patient_is_missed_medication: String,
    pub patient_blood_test_status: String,
    pub patient_is_overdue_medication: String,
    pub patient_is_partner_hiv_positive: String,
    pub status: String,
    pub doctor_id: i32,
    pub start_time: i64,
    pub end_time: i64,
}

/// True when `v` is the join of appointment row `a` with slot row `s`.
pub open spec fn view_matches(v: ScheduleViewEntity, a: AppointmentRecord, s: SlotEntity) -> bool {
    &&& v.id == a.id
    &&& v.slot_id == a.slot_id
    &&& v.patient_id == a.patient_id
    &&& v.patient_abnormal_symptom == a.patient_abnormal_symptom
    &&& v.patient_is_missed_medication == a.patient_is_missed_medication
    &&& v.patient_blood_test_status == a.patient_blood_test_status
    &&& v.patient_is_overdue_medication == a.patient_is_overdue_medication
    &&& v.patient_is_partner_hiv_positive == a.patient_is_partner_hiv_positive
    &&& v.status@ == a.status.token()
    &&& v.doctor_id == s.doctor_id
    &&& v.start_time == s.start_time
    &&& v.end_time == s.end_time
}

/// Non-decreasing slot start times: the order schedule listings come in.
pub open spec fn sorted_by_start(s: Seq<ScheduleViewEntity>) -> bool {
    forall|i: int, j: int|
        0 <= i <= j < s.len() ==> #[trigger] s[i].start_time <= #[trigger] s[j].start_time
}

} // verus!
