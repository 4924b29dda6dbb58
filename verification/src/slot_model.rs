use vstd::prelude::*;

use crate::slots::{AddSlotEntity, EditSlotEntity, SlotEntity};

verus! {

/// A doctor's request to offer a new slot.
#[derive(Debug, Clone, Copy, PartialEq)]
pub struct AddSlotDto {
    pub max_appointment_count: i32,
    pub start_time: i64,
    pub end_time: i64,
}

impl AddSlotDto {
    /// The row values the request inserts: the counter starts at zero, the
    /// acting doctor becomes the owner, and both bookkeeping timestamps are
    /// the current time.
    pub fn to_entity(&self, doctor_id: i32, current_time: i64) -> (e: AddSlotEntity)
        ensures
            e == (AddSlotEntity {
                doctor_id,
                current_appointment_count: 0,
                max_appointment_count: self.max_appointment_count,
                start_time: self.start_time,
                end_time: self.end_time,
                created_at: current_time,
                updated_at: current_time,
                deleted_at: None,
            }),
    {
        AddSlotEntity {
            doctor_id,
            current_appointment_count: 0,
            max_appointment_count: self.max_appointment_count,
            start_time: self.start_time,
            end_time: self.end_time,
            created_at: current_time,
            updated_at: current_time,
            deleted_at: None,
        }
    }
}

/// A doctor's request to change a slot's capacity or end time; absent
/// fields stay as they are.
#[derive(Debug, Clone, Copy, PartialEq)]
pub struct EditSlotDto {
    pub max_appointment_count: Option<i32>,
    pub end_time: Option<i64>,
}

impl EditSlotDto {
    /// The partial update the request issues, stamped with the current
    /// time.
    pub fn to_entity(&self, current_time: i64) -> (e: EditSlotEntity)
        ensures
            e == (EditSlotEntity {
                max_appointment_count: self.max_appointment_count,
                end_time: self.end_time,
                updated_at: current_time,
            }),
    {
        EditSlotEntity {
            max_appointment_count: self.max_appointment_count,
            end_time: self.end_time,
            updated_at: current_time,
        }
    }
}

/// The open slot listing handed back to callers.
#[derive(Debug, Clone, PartialEq)]
pub struct GetSlotsResponseModel {
    pub slots: Vec<SlotEntity>,
}

/// A doctor's own slot listing.
#[derive(Debug, Clone, PartialEq)]
pub struct GetDoctorSlotsResponseModel {
    pub slots: Vec<SlotEntity>,
}

} // verus!
