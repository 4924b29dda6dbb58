use vstd::prelude::*;

use crate::db::{active_appointment_idx, find_active_appointment, ClinicDb};
use crate::errors::BookingError;
use crate::status::AppointmentStatus;

verus! {

/// Point reads of the appointment table, always filtered on "tombstone
/// absent".
pub struct AppointmentViewingDao;

impl AppointmentViewingDao {
    /// Looks up the slot an appointment currently reserves against, used by
    /// reschedule and removal to locate the slot whose capacity to release.
    pub fn get_slot_id_by_appointment_id(db: &ClinicDb, appointment_id: u128) -> (r: Result<
        u128,
        BookingError,
    >)
        requires
            db.appointments_wf(),
        ensures
            r is Ok <==> db.has_active_appointment(appointment_id),
            r is Ok ==> r->Ok_0 == db.active_appointment(appointment_id).slot_id,
            r is Err ==> r->Err_0 == BookingError::AppointmentNotFound,
    {
        match find_active_appointment(&db.appointments, appointment_id) {
            Some(i) => {
                proof {
                    let j = active_appointment_idx(db.appointments@, appointment_id);
                    assert(db.appointments@[i as int].id == db.appointments@[j].id);
                }
                Ok(db.appointments[i].slot_id)
            },
            None => Err(BookingError::AppointmentNotFound),
        }
    }

    /// Reads an appointment's current lifecycle status, the guard read of
    /// every ledger transition.
    pub fn get_appointment_status_by_appointment_id(db: &ClinicDb, appointment_id: u128) -> (r:
        Result<AppointmentStatus, BookingError>)
        requires
            db.appointments_wf(),
        ensures
            r is Ok <==> db.has_active_appointment(appointment_id),
            r is Ok ==> r->Ok_0 == db.active_appointment(appointment_id).status,
            r is Err ==> r->Err_0 == BookingError::AppointmentNotFound,
    {
        match find_active_appointment(&db.appointments, appointment_id) {
            Some(i) => {
                proof {
                    let j = active_appointment_idx(db.appointments@, appointment_id);
                    assert(db.appointments@[i as int].id == db.appointments@[j].id);
                }
                Ok(db.appointments[i].status)
            },
            None => Err(BookingError::AppointmentNotFound),
        }
    }
}

} // verus!
