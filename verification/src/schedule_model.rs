use vstd::prelude::*;

use crate::schedule_view::ScheduleViewEntity;

verus! {

/// A doctor's schedule listing handed back to callers.
#[derive(Debug, Clone, PartialEq)]
pub struct GetDoctorScheduleResponseModel {
    pub schedules: Vec<ScheduleViewEntity>,
}

/// A patient's schedule listing handed back to callers.
#[derive(Debug, Clone, PartialEq)]
pub struct GetPatientScheduleResponseModel {
    pub schedules: Vec<ScheduleViewEntity>,
}

} // verus!
