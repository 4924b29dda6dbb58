use vstd::prelude::*;

use crate::appointment_ledger_dao::AppointmentLedgerDao;
use crate::appointment_viewing_dao::AppointmentViewingDao;
use crate::appointments::{appointment_active, AppointmentRecord};
use crate::db::{
    active_appointment_idx, count_active_for, has_active_slot_in, lemma_count_update, ClinicDb,
};
use crate::errors::BookingError;
use crate::slots::slot_active;
use crate::status::AppointmentStatus;

verus! {

impl ClinicDb {
    /// One guarded ledger transition, all inside one transaction: read the
    /// appointment's current status, compare it against the single required
    /// predecessor of the requested transition, abort when it differs, and
    /// only then issue the status update. Re-validating the guard and the
    /// write inside one transaction is what keeps a concurrent transition
    /// from interleaving between the read and the write.
    fn transition_status(
        &mut self,
        appointment_id: u128,
        required: AppointmentStatus,
        target: AppointmentStatus,
    ) -> (r: Result<u128, BookingError>)
        requires
            old(self).inv(),
        ensures
            final(self).inv(),
            r == Err::<u128, BookingError>(BookingError::AppointmentNotFound) <==> !old(
                self,
            ).has_active_appointment(appointment_id),
            r == Err::<u128, BookingError>(BookingError::InvalidStatusCondition) <==> (old(
                self,
            ).has_active_appointment(appointment_id) && old(self).active_appointment(
                appointment_id,
            ).status != required),
            r is Ok <==> (old(self).has_active_appointment(appointment_id) && old(
                self,
            ).active_appointment(appointment_id).status == required),
            r is Ok ==> r->Ok_0 == appointment_id,
            r is Ok ==> final(self).appointments@ == old(self).appointments@.update(
                active_appointment_idx(old(self).appointments@, appointment_id),
                (AppointmentRecord {
                    status: target,
                    ..old(self).active_appointment(appointment_id)
                }),
            ),
            r is Err ==> *final(self) == *old(self),
            final(self).slots@ == old(self).slots@,
            final(self).next_slot_id == old(self).next_slot_id,
            final(self).next_appointment_id == old(self).next_appointment_id,
    {
        let current_appointment_status =
            match AppointmentViewingDao::get_appointment_status_by_appointment_id(
            self,
            appointment_id,
        ) {
            Ok(s) => s,
            Err(e) => {
                return Err(e);
            },
        };

        let condition_to_update = current_appointment_status == required;
        if !condition_to_update {
            return Err(BookingError::InvalidStatusCondition);
        }

        let appointment = match AppointmentLedgerDao::change_appointment_status(
            self,
            appointment_id,
            target,
        ) {
            Ok(id) => id,
            Err(e) => {
                return Err(e);
            },
        };

        proof {
            let olds = old(self).slots@;
            let olda = old(self).appointments@;
            let i = active_appointment_idx(olda, appointment_id);
            let row = self.appointments@[i];
            assert forall|k: int|
                0 <= k < self.slots@.len() implies (#[trigger] self.slots@[k]).current_appointment_count
                as int == count_active_for(self.appointments@, self.slots@[k].id) by {
                lemma_count_update(olda, i, row, self.slots@[k].id);
            }
            assert forall|k: int|
                0 <= k < self.appointments@.len() && appointment_active(
                    #[trigger] self.appointments@[k],
                ) implies has_active_slot_in(self.slots@, self.appointments@[k].slot_id) by {
                let sid = self.appointments@[k].slot_id;
                let w = choose|w: int|
                    0 <= w < olds.len() && slot_active(#[trigger] olds[w]) && olds[w].id == sid;
                assert(slot_active(self.slots@[w]) && self.slots@[w].id == sid);
            }
        }
        Ok(appointment)
    }

    /// `Waiting -> Ready`: the provider takes the appointment in.
    pub fn to_ready(&mut self, appointment_id: u128) -> (r: Result<u128, BookingError>)
        requires
            old(self).inv(),
        ensures
            final(self).inv(),
            r == Err::<u128, BookingError>(BookingError::AppointmentNotFound) <==> !old(
                self,
            ).has_active_appointment(appointment_id),
            r == Err::<u128, BookingError>(BookingError::InvalidStatusCondition) <==> (old(
                self,
            ).has_active_appointment(appointment_id) && old(self).active_appointment(
                appointment_id,
            ).status != AppointmentStatus::Waiting),
            r is Ok <==> (old(self).has_active_appointment(appointment_id) && old(
                self,
            ).active_appointment(appointment_id).status == AppointmentStatus::Waiting),
            r is Ok ==> r->Ok_0 == appointment_id,
            r is Ok ==> final(self).appointments@ == old(self).appointments@.update(
                active_appointment_idx(old(self).appointments@, appointment_id),
                (AppointmentRecord {
                    status: AppointmentStatus::Ready,
                    ..old(self).active_appointment(appointment_id)
                }),
            ),
            r is Err ==> *final(self) == *old(self),
            final(self).slots@ == old(self).slots@,
            final(self).next_slot_id == old(self).next_slot_id,
            final(self).next_appointment_id == old(self).next_appointment_id,
    {
        self.transition_status(
            appointment_id,
            AppointmentStatus::Waiting,
            AppointmentStatus::Ready,
        )
    }

    /// `Ready -> WaitingForPrescription`: the consultation is over.
    pub fn to_waiting_for_prescription(&mut self, appointment_id: u128) -> (r: Result<
        u128,
        BookingError,
    >)
        requires
            old(self).inv(),
        ensures
            final(self).inv(),
            r == Err::<u128, BookingError>(BookingError::AppointmentNotFound) <==> !old(
                self,
            ).has_active_appointment(appointment_id),
            r == Err::<u128, BookingError>(BookingError::InvalidStatusCondition) <==> (old(
                self,
            ).has_active_appointment(appointment_id) && old(self).active_appointment(
                appointment_id,
            ).status != AppointmentStatus::Ready),
            r is Ok <==> (old(self).has_active_appointment(appointment_id) && old(
                self,
            ).active_appointment(appointment_id).status == AppointmentStatus::Ready),
            r is Ok ==> r->Ok_0 == appointment_id,
            r is Ok ==> final(self).appointments@ == old(self).appointments@.update(
                active_appointment_idx(old(self).appointments@, appointment_id),
                (AppointmentRecord {
                    status: AppointmentStatus::WaitingForPrescription,
                    ..old(self).active_appointment(appointment_id)
                }),
            ),
            r is Err ==> *final(self) == *old(self),
            final(self).slots@ == old(self).slots@,
            final(self).next_slot_id == old(self).next_slot_id,
            final(self).next_appointment_id == old(self).next_appointment_id,
    {
        self.transition_status(
            appointment_id,
            AppointmentStatus::Ready,
            AppointmentStatus::WaitingForPrescription,
        )
    }

    /// `WaitingForPrescription -> Completed`: the prescription is handed
    /// out; the terminal state.
    pub fn to_completed(&mut self, appointment_id: u128) -> (r: Result<u128, BookingError>)
        requires
            old(self).inv(),
        ensures
            final(self).inv(),
            r == Err::<u128, BookingError>(BookingError::AppointmentNotFound) <==> !old(
                self,
            ).has_active_appointment(appointment_id),
            r == Err::<u128, BookingError>(BookingError::InvalidStatusCondition) <==> (old(
                self,
            ).has_active_appointment(appointment_id) && old(self).active_appointment(
                appointment_id,
            ).status != AppointmentStatus::WaitingForPrescription),
            r is Ok <==> (old(self).has_active_appointment(appointment_id) && old(
                self,
            ).active_appointment(appointment_id).status
                == AppointmentStatus::WaitingForPrescription),
            r is Ok ==> r->Ok_0 == appointment_id,
            r is Ok ==> final(self).appointments@ == old(self).appointments@.update(
                active_appointment_idx(old(self).appointments@, appointment_id),
                (AppointmentRecord {
                    status: AppointmentStatus::Completed,
                    ..old(self).active_appointment(appointment_id)
                }),
            ),
            r is Err ==> *final(self) == *old(self),
            final(self).slots@ == old(self).slots@,
            final(self).next_slot_id == old(self).next_slot_id,
            final(self).next_appointment_id == old(self).next_appointment_id,
    {
        self.transition_status(
            appointment_id,
            AppointmentStatus::WaitingForPrescription,
            AppointmentStatus::Completed,
        )
    }
}

} // verus!
