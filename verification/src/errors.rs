use vstd::prelude::*;

verus! {

/// Why a booking or ledger operation was refused. The store aborts the whole
/// transaction when one of these is raised, so a refused operation leaves no
/// partial effect.
///
/// The kinds fall into the taxonomy the service exposes: "not found" for a
/// missing or soft-deleted target row, and "precondition failed" for every
/// business-rule violation. Where the original store driver reported an
/// ownership or status mismatch as a bare zero-row update, the variants here
/// name the violated rule; callers that only need the coarse kind can use
/// [`BookingError::is_not_found`].
#[derive(Debug, Clone, Copy, PartialEq, Eq, Structural)]
pub enum BookingError {
    /// The referenced slot is missing or soft-deleted.
    SlotNotFound,
    /// The referenced appointment is missing or soft-deleted.
    AppointmentNotFound,
    /// The current time is past the slot's end time.
    SlotAlreadyEnded,
    /// The slot's reservation capacity is exhausted.
    SlotFull,
    /// Another active slot of the same doctor overlaps the requested window.
    SlotOverlapping,
    /// A slot may not be created with its end time already in the past.
    EndTimeInPast,
    /// A slot may only be removed while no appointment is booked against it.
    SlotStillBooked,
    /// A slot may only be removed while its start time is still in the future.
    SlotAlreadyStarted,
    /// The acting doctor does not own the slot.
    NotSlotOwner,
    /// The acting patient does not own the appointment.
    NotAppointmentOwner,
    /// The appointment is no longer in the initial `Waiting` status.
    AppointmentNotWaiting,
    /// A ledger transition was requested out of lifecycle order.
    InvalidStatusCondition,
    /// A slot's start time must lie strictly before its end time.
    InvalidSlotTimes,
    /// A slot's maximum count must be at least zero and never below the
    /// number of reservations currently held.
    InvalidMaxCount,
}

impl BookingError {
    /// True for the "request target does not exist" kind; everything else is
    /// a violated business precondition.
    pub open spec fn spec_is_not_found(self) -> bool {
        self == BookingError::SlotNotFound || self == BookingError::AppointmentNotFound
    }

    /// Distinguishes "not found" from "precondition failed", the two kinds
    /// the calling layer maps to different response codes.
    pub fn is_not_found(&self) -> (r: bool)
        ensures
            r == self.spec_is_not_found(),
    {
        match self {
            BookingError::SlotNotFound => true,
            BookingError::AppointmentNotFound => true,
            _ => false,
        }
    }

    /// The user-visible wording of each refusal.
    pub open spec fn text(self) -> Seq<char> {
        match self {
            BookingError::SlotNotFound => "slot not found"@,
            BookingError::AppointmentNotFound => "appointment not found"@,
            BookingError::SlotAlreadyEnded => "Slot is already ended!!!"@,
            BookingError::SlotFull => "Slot is full!!!"@,
            BookingError::SlotOverlapping => "Slot time is overlapping!!!"@,
            BookingError::EndTimeInPast => "You cant go to the past"@,
            BookingError::SlotStillBooked => "Patient already booked this slot!"@,
            BookingError::SlotAlreadyStarted => "Slot has already started"@,
            BookingError::NotSlotOwner => "Slot does not belong to this doctor"@,
            BookingError::NotAppointmentOwner => "Appointment does not belong to this patient"@,
            BookingError::AppointmentNotWaiting => "Appointment is not in Waiting status"@,
            BookingError::InvalidStatusCondition => "Invalid condition to change status"@,
            BookingError::InvalidSlotTimes => "Slot start time must be before its end time"@,
            BookingError::InvalidMaxCount => "Invalid maximum appointment count"@,
        }
    }

    /// Human-readable message for the calling layer's response body.
    pub fn message(&self) -> (s: String)
        ensures
            s@ == self.text(),
    {
        match self {
            BookingError::SlotNotFound => "slot not found".to_owned(),
            BookingError::AppointmentNotFound => "appointment not found".to_owned(),
            BookingError::SlotAlreadyEnded => "Slot is already ended!!!".to_owned(),
            BookingError::SlotFull => "Slot is full!!!".to_owned(),
            BookingError::SlotOverlapping => "Slot time is overlapping!!!".to_owned(),
            BookingError::EndTimeInPast => "You cant go to the past".to_owned(),
            BookingError::SlotStillBooked => "Patient already booked this slot!".to_owned(),
            BookingError::SlotAlreadyStarted => "Slot has already started".to_owned(),
            BookingError::NotSlotOwner => "Slot does not belong to this doctor".to_owned(),
            BookingError::NotAppointmentOwner => {
                "Appointment does not belong to this patient".to_owned()
            },
            BookingError::AppointmentNotWaiting => {
                "Appointment is not in Waiting status".to_owned()
            },
            BookingError::InvalidStatusCondition => "Invalid condition to change status".to_owned(),
            BookingError::InvalidSlotTimes => {
                "Slot start time must be before its end time".to_owned()
            },
            BookingError::InvalidMaxCount => "Invalid maximum appointment count".to_owned(),
        }
    }
}

} // verus!
