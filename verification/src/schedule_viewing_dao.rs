use vstd::prelude::*;
use vstd::pervasive::unreached;

use crate::appointments::{appointment_active, AppointmentRecord};
use crate::db::{active_appointment_idx, active_slot_idx, find_active_slot, ClinicDb};
use crate::schedule_view::{sorted_by_start, view_matches, ScheduleViewEntity};
use crate::slots::SlotEntity;

verus! {

/// True when appointment row `k` belongs to `patient_id`'s schedule: an
/// active appointment of that patient.
pub open spec fn patient_schedule_source(db: ClinicDb, k: int, patient_id: i32) -> bool {
    &&& 0 <= k < db.appointments@.len()
    &&& appointment_active(db.appointments@[k])
    &&& db.appointments@[k].patient_id == patient_id
}

/// True when appointment row `k` belongs to `doctor_id`'s schedule: an
/// active appointment whose slot is offered by that doctor.
pub open spec fn doctor_schedule_source(db: ClinicDb, k: int, doctor_id: i32) -> bool {
    &&& 0 <= k < db.appointments@.len()
    &&& appointment_active(db.appointments@[k])
    &&& db.has_active_slot(db.appointments@[k].slot_id)
    &&& db.active_slot(db.appointments@[k].slot_id).doctor_id == doctor_id
}

/// True when `v` is the join row of some appointment in `patient_id`'s
/// schedule.
pub open spec fn row_in_patient_schedule(db: ClinicDb, v: ScheduleViewEntity, patient_id: i32) -> bool {
    exists|k: int|
        patient_schedule_source(db, k, patient_id) && view_matches(
            v,
            db.appointments@[k],
            db.active_slot(db.appointments@[k].slot_id),
        )
}

/// True when `v` is the join row of some appointment in `doctor_id`'s
/// schedule.
pub open spec fn row_in_doctor_schedule(db: ClinicDb, v: ScheduleViewEntity, doctor_id: i32) -> bool {
    exists|k: int|
        doctor_schedule_source(db, k, doctor_id) && view_matches(
            v,
            db.appointments@[k],
            db.active_slot(db.appointments@[k].slot_id),
        )
}

/// The order schedule listings come in: slot start time ascending, and
/// among rows sharing a start time, the creation time of the source
/// appointment ascending — each row's id names that appointment.
pub open spec fn sorted_by_start_then_created(db: ClinicDb, v: Seq<ScheduleViewEntity>) -> bool {
    forall|j1: int, j2: int|
        0 <= j1 <= j2 < v.len() ==> (#[trigger] v[j1]).start_time < (#[trigger] v[j2]).start_time
            || (v[j1].start_time == v[j2].start_time && db.active_appointment(
            v[j1].id,
        ).created_at <= db.active_appointment(v[j2].id).created_at)
}

/// Lexicographic listing order over a row sequence and the creation times
/// carried beside it while a listing is being built.
spec fn lex_sorted(v: Seq<ScheduleViewEntity>, ks: Seq<i64>) -> bool {
    forall|j1: int, j2: int|
        0 <= j1 <= j2 < v.len() ==> (#[trigger] v[j1]).start_time < (#[trigger] v[j2]).start_time
            || (v[j1].start_time == v[j2].start_time && ks[j1] <= ks[j2])
}

/// Inserts a row into a listing ordered by (slot start time, source
/// creation time), keeping it ordered; `ks` carries each row's source
/// creation time. The row lands after every row sharing its whole key, so
/// rows with equal keys keep the order they were inserted in.
fn insert_sorted(
    v: &mut Vec<ScheduleViewEntity>,
    ks: &mut Vec<i64>,
    row: ScheduleViewEntity,
    created_at: i64,
)
    requires
        old(v)@.len() == old(ks)@.len(),
        lex_sorted(old(v)@, old(ks)@),
    ensures
        final(v)@.len() == old(v)@.len() + 1,
        final(ks)@.len() == final(v)@.len(),
        lex_sorted(final(v)@, final(ks)@),
        exists|p: int|
            0 <= p <= old(v)@.len() && final(v)@ == #[trigger] old(v)@.insert(p, row)
                && final(ks)@ == old(ks)@.insert(p, created_at),
{
    let n = v.len();
    let mut p: usize = 0;
    while p < n && (v[p].start_time < row.start_time || (v[p].start_time == row.start_time
        && ks[p] <= created_at))
        invariant
            p <= n,
            n == v@.len(),
            n == ks@.len(),
            forall|j: int|
                0 <= j < p ==> (#[trigger] v@[j]).start_time < row.start_time || (v@[
                    j
                ].start_time == row.start_time && ks@[j] <= created_at),
        decreases n - p,
    {
        p = p + 1;
    }
    v.insert(p, row);
    ks.insert(p, created_at);
    proof {
        old(v)@.insert_ensures(p as int, row);
        old(ks)@.insert_ensures(p as int, created_at);
        assert(v@ == old(v)@.insert(p as int, row));
        assert(ks@ == old(ks)@.insert(p as int, created_at));
        assert forall|j1: int, j2: int|
            0 <= j1 <= j2 < v@.len() implies (#[trigger] v@[j1]).start_time < (
        #[trigger] v@[j2]).start_time || (v@[j1].start_time == v@[j2].start_time && ks@[j1]
            <= ks@[j2]) by {
            if j1 < p && j2 < p {
            } else if j1 == p && j2 == p {
            } else if j1 < p && j2 == p {
                assert(v@[j1] == old(v)@[j1] && ks@[j1] == old(ks)@[j1]);
            } else if j1 == p && j2 > p {
                assert(v@[j2] == old(v)@[j2 - 1] && ks@[j2] == old(ks)@[j2 - 1]);
                if p < old(v)@.len() {
                    assert(old(v)@[p as int].start_time > row.start_time || (old(v)@[
                        p as int
                    ].start_time == row.start_time && old(ks)@[p as int] > created_at));
                }
            } else if j1 < p && j2 > p {
                assert(v@[j1] == old(v)@[j1] && ks@[j1] == old(ks)@[j1]);
                assert(v@[j2] == old(v)@[j2 - 1] && ks@[j2] == old(ks)@[j2 - 1]);
            } else {
                assert(v@[j1] == old(v)@[j1 - 1] && ks@[j1] == old(ks)@[j1 - 1]);
                assert(v@[j2] == old(v)@[j2 - 1] && ks@[j2] == old(ks)@[j2 - 1]);
            }
        }
    }
}

/// Builds the join row of an appointment with the slot it reserves
/// against.
fn join_row(a: &AppointmentRecord, s: &SlotEntity) -> (v: ScheduleViewEntity)
    ensures
        view_matches(v, *a, *s),
{
    ScheduleViewEntity {
        id: a.id,
        slot_id: a.slot_id,
        patient_id: a.patient_id,
        patient_abnormal_symptom: a.patient_abnormal_symptom.clone(),
        patient_is_missed_medication: a.patient_is_missed_medication.clone(),
        patient_blood_test_status: a.patient_blood_test_status.clone(),
        patient_is_overdue_medication: a.patient_is_overdue_medication.clone(),
        patient_is_partner_hiv_positive: a.patient_is_partner_hiv_positive.clone(),
        status: a.status.to_token(),
        doctor_id: s.doctor_id,
        start_time: s.start_time,
        end_time: s.end_time,
    }
}

/// The schedule listings: active appointments joined with their active
/// slots, ordered by slot start time, then by appointment creation time.
pub struct ScheduleViewingDao;

impl ScheduleViewingDao {
    /// A patient's schedule: every active appointment of the patient,
    /// joined with its slot, ordered by slot start time ascending, then by
    /// the appointment's creation time ascending.
    #[verifier::rlimit(50)]
    pub fn get_patient_schedules(db: &ClinicDb, patient_id: i32) -> (v: Vec<ScheduleViewEntity>)
        requires
            db.inv(),
        ensures
            sorted_by_start(v@),
            sorted_by_start_then_created(*db, v@),
            forall|j: int|
                0 <= j < v@.len() ==> row_in_patient_schedule(*db, #[trigger] v@[j], patient_id),
            forall|k: int|
                patient_schedule_source(*db, k, patient_id) ==> exists|j: int|
                    0 <= j < v@.len() && (#[trigger] v@[j]).id == db.appointments@[k].id,
            forall|j1: int, j2: int|
                0 <= j1 < v@.len() && 0 <= j2 < v@.len() && j1 != j2 ==> (#[trigger] v@[j1]).id
                    != (#[trigger] v@[j2]).id,
    {
        let n = db.appointments.len();
        let mut out: Vec<ScheduleViewEntity> = Vec::new();
        let mut keys: Vec<i64> = Vec::new();
        let mut i: usize = 0;
        while i < n
            invariant
                i <= n,
                n == db.appointments@.len(),
                db.appointments_wf(),
                db.refs_ok(),
                forall|x: int, y: int|
                    #![trigger db.slots@[x].id, db.slots@[y].id]
                    0 <= x < db.slots@.len() && 0 <= y < db.slots@.len() && x != y
                        ==> db.slots@[x].id != db.slots@[y].id,
                keys@.len() == out@.len(),
                lex_sorted(out@, keys@),
                forall|j: int|
                    0 <= j < out@.len() ==> keys@[j] == db.active_appointment(
                        (#[trigger] out@[j]).id,
                    ).created_at,
                forall|j: int|
                    0 <= j < out@.len() ==> row_in_patient_schedule(
                        *db,
                        #[trigger] out@[j],
                        patient_id,
                    ),
                forall|j: int|
                    0 <= j < out@.len() ==> exists|k: int|
                        0 <= k < i && (#[trigger] out@[j]).id == db.appointments@[k].id,
                forall|k: int|
                    0 <= k < i && patient_schedule_source(*db, k, patient_id) ==> exists|j: int|
                        0 <= j < out@.len() && (#[trigger] out@[j]).id == db.appointments@[k].id,
                forall|j1: int, j2: int|
                    0 <= j1 < out@.len() && 0 <= j2 < out@.len() && j1 != j2 ==> (
                    #[trigger] out@[j1]).id != (#[trigger] out@[j2]).id,
            decreases n - i,
        {
            let a = &db.appointments[i];
            if a.deleted_at.is_none() && a.patient_id == patient_id {
                let s_idx = match find_active_slot(&db.slots, a.slot_id) {
                    Some(x) => x,
                    None => {
                        return unreached();
                    },
                };
                proof {
                    let jj = active_slot_idx(db.slots@, a.slot_id);
                    assert(db.slots@[s_idx as int].id == db.slots@[jj].id);
                }
                let created_at = a.created_at;
                let row = join_row(a, &db.slots[s_idx]);
                let ghost prev = out@;
                let ghost prevks = keys@;
                insert_sorted(&mut out, &mut keys, row, created_at);
                proof {
                    let p = choose|p: int|
                        0 <= p <= prev.len() && out@ == #[trigger] prev.insert(p, row) && keys@
                            == prevks.insert(p, created_at);
                    prev.insert_ensures(p, row);
                    prevks.insert_ensures(p, created_at);
                    assert(view_matches(
                        row,
                        db.appointments@[i as int],
                        db.active_slot(db.appointments@[i as int].slot_id),
                    ));
                    let k0 = active_appointment_idx(db.appointments@, row.id);
                    assert(db.appointments@[k0].id == db.appointments@[i as int].id);
                    assert(db.active_appointment(row.id) == db.appointments@[i as int]);
                    assert forall|j: int|
                        0 <= j < out@.len() implies keys@[j] == db.active_appointment(
                        (#[trigger] out@[j]).id,
                    ).created_at by {
                        if j == p {
                            assert(out@[j] == row && keys@[j] == created_at);
                        } else {
                            let q: int = if j < p {
                                j
                            } else {
                                j - 1
                            };
                            assert(out@[j] == prev[q] && keys@[j] == prevks[q]);
                        }
                    }
                    assert forall|j: int|
                        0 <= j < out@.len() implies row_in_patient_schedule(
                        *db,
                        #[trigger] out@[j],
                        patient_id,
                    ) by {
                        if j == p {
                            assert(out@[j] == row);
                            assert(patient_schedule_source(*db, i as int, patient_id)
                                && view_matches(
                                out@[j],
                                db.appointments@[i as int],
                                db.active_slot(db.appointments@[i as int].slot_id),
                            ));
                        } else {
                            let q: int = if j < p {
                                j
                            } else {
                                j - 1
                            };
                            assert(out@[j] == prev[q]);
                            assert(row_in_patient_schedule(*db, prev[q], patient_id));
                        }
                    }
                    assert forall|j: int|
                        0 <= j < out@.len() implies exists|k: int|
                        0 <= k < i + 1 && (#[trigger] out@[j]).id == db.appointments@[k].id by {
                        if j == p {
                            assert(out@[j].id == db.appointments@[i as int].id);
                        } else {
                            let q: int = if j < p {
                                j
                            } else {
                                j - 1
                            };
                            assert(out@[j] == prev[q]);
                            let kk = choose|k: int|
                                0 <= k < i && (#[trigger] prev[q]).id == db.appointments@[k].id;
                            assert(0 <= kk < i + 1 && out@[j].id == db.appointments@[kk].id);
                        }
                    }
                    assert forall|k: int|
                        0 <= k < i + 1 && patient_schedule_source(*db, k, patient_id) implies exists|
                        j: int,
                    |
                        0 <= j < out@.len() && (#[trigger] out@[j]).id
                            == db.appointments@[k].id by {
                        if k == i {
                            assert(out@[p].id == db.appointments@[k].id);
                        } else {
                            let j0 = choose|j0: int|
                                0 <= j0 < prev.len() && (#[trigger] prev[j0]).id
                                    == db.appointments@[k].id;
                            if j0 < p {
                                assert(out@[j0].id == db.appointments@[k].id);
                            } else {
                                assert(out@[j0 + 1].id == db.appointments@[k].id);
                            }
                        }
                    }
                    assert forall|j1: int, j2: int|
                        0 <= j1 < out@.len() && 0 <= j2 < out@.len() && j1 != j2 implies (
                    #[trigger] out@[j1]).id != (#[trigger] out@[j2]).id by {
                        let q1: int = if j1 < p {
                            j1
                        } else {
                            j1 - 1
                        };
                        let q2: int = if j2 < p {
                            j2
                        } else {
                            j2 - 1
                        };
                        if j1 == p {
                            assert(out@[j2] == prev[q2]);
                            let kk = choose|k: int|
                                0 <= k < i && (#[trigger] prev[q2]).id == db.appointments@[k].id;
                            assert(db.appointments@[kk].id != db.appointments@[i as int].id);
                        } else if j2 == p {
                            assert(out@[j1] == prev[q1]);
                            let kk = choose|k: int|
                                0 <= k < i && (#[trigger] prev[q1]).id == db.appointments@[k].id;
                            assert(db.appointments@[kk].id != db.appointments@[i as int].id);
                        } else {
                            assert(out@[j1] == prev[q1]);
                            assert(out@[j2] == prev[q2]);
                            assert(q1 != q2);
                        }
                    }
                }
            } else {
                proof {
                    assert forall|j: int|
                        0 <= j < out@.len() implies exists|k: int|
                        0 <= k < i + 1 && (#[trigger] out@[j]).id == db.appointments@[k].id by {
                        let k0 = choose|k: int|
                            0 <= k < i && (#[trigger] out@[j]).id == db.appointments@[k].id;
                        assert(0 <= k0 < i + 1 && out@[j].id == db.appointments@[k0].id);
                    }
                    assert forall|k: int|
                        0 <= k < i + 1 && patient_schedule_source(*db, k, patient_id) implies exists|
                        j: int,
                    |
                        0 <= j < out@.len() && (#[trigger] out@[j]).id
                            == db.appointments@[k].id by {
                        assert(!patient_schedule_source(*db, i as int, patient_id));
                        assert(0 <= k < i);
                    }
                }
            }
            i = i + 1;
        }
        proof {
            assert forall|j1: int, j2: int|
                0 <= j1 <= j2 < out@.len() implies (#[trigger] out@[j1]).start_time < (
            #[trigger] out@[j2]).start_time || (out@[j1].start_time == out@[j2].start_time
                && db.active_appointment(out@[j1].id).created_at <= db.active_appointment(
                out@[j2].id,
            ).created_at) by {
                assert(keys@[j1] == db.active_appointment(out@[j1].id).created_at);
                assert(keys@[j2] == db.active_appointment(out@[j2].id).created_at);
            }
        }
        out
    }

    /// A doctor's schedule: every active appointment against one of the
    /// doctor's slots, joined with that slot, ordered by slot start time
    /// ascending, then by the appointment's creation time ascending.
    #[verifier::rlimit(50)]
    pub fn get_doctor_schedules(db: &ClinicDb, doctor_id: i32) -> (v: Vec<ScheduleViewEntity>)
        requires
            db.inv(),
        ensures
            sorted_by_start(v@),
            sorted_by_start_then_created(*db, v@),
            forall|j: int|
                0 <= j < v@.len() ==> row_in_doctor_schedule(*db, #[trigger] v@[j], doctor_id),
            forall|k: int|
                doctor_schedule_source(*db, k, doctor_id) ==> exists|j: int|
                    0 <= j < v@.len() && (#[trigger] v@[j]).id == db.appointments@[k].id,
            forall|j1: int, j2: int|
                0 <= j1 < v@.len() && 0 <= j2 < v@.len() && j1 != j2 ==> (#[trigger] v@[j1]).id
                    != (#[trigger] v@[j2]).id,
    {
        let n = db.appointments.len();
        let mut out: Vec<ScheduleViewEntity> = Vec::new();
        let mut keys: Vec<i64> = Vec::new();
        let mut i: usize = 0;
        while i < n
            invariant
                i <= n,
                n == db.appointments@.len(),
                db.appointments_wf(),
                db.refs_ok(),
                forall|x: int, y: int|
                    #![trigger db.slots@[x].id, db.slots@[y].id]
                    0 <= x < db.slots@.len() && 0 <= y < db.slots@.len() && x != y
                        ==> db.slots@[x].id != db.slots@[y].id,
                keys@.len() == out@.len(),
                lex_sorted(out@, keys@),
                forall|j: int|
                    0 <= j < out@.len() ==> keys@[j] == db.active_appointment(
                        (#[trigger] out@[j]).id,
                    ).created_at,
                forall|j: int|
                    0 <= j < out@.len() ==> row_in_doctor_schedule(
                        *db,
                        #[trigger] out@[j],
                        doctor_id,
                    ),
                forall|j: int|
                    0 <= j < out@.len() ==> exists|k: int|
                        0 <= k < i && (#[trigger] out@[j]).id == db.appointments@[k].id,
                forall|k: int|
                    0 <= k < i && doctor_schedule_source(*db, k, doctor_id) ==> exists|j: int|
                        0 <= j < out@.len() && (#[trigger] out@[j]).id == db.appointments@[k].id,
                forall|j1: int, j2: int|
                    0 <= j1 < out@.len() && 0 <= j2 < out@.len() && j1 != j2 ==> (
                    #[trigger] out@[j1]).id != (#[trigger] out@[j2]).id,
            decreases n - i,
        {
            let a = &db.appointments[i];
            let mut matched = false;
            let mut s_idx: usize = 0;
            if a.deleted_at.is_none() {
                s_idx = match find_active_slot(&db.slots, a.slot_id) {
                    Some(x) => x,
                    None => {
                        return unreached();
                    },
                };
                proof {
                    let jj = active_slot_idx(db.slots@, a.slot_id);
                    assert(db.slots@[s_idx as int].id == db.slots@[jj].id);
                }
                matched = db.slots[s_idx].doctor_id == doctor_id;
            }
            if matched {
                let created_at = a.created_at;
                let row = join_row(a, &db.slots[s_idx]);
                let ghost prev = out@;
                let ghost prevks = keys@;
                insert_sorted(&mut out, &mut keys, row, created_at);
                proof {
                    let p = choose|p: int|
                        0 <= p <= prev.len() && out@ == #[trigger] prev.insert(p, row) && keys@
                            == prevks.insert(p, created_at);
                    prev.insert_ensures(p, row);
                    prevks.insert_ensures(p, created_at);
                    assert(view_matches(
                        row,
                        db.appointments@[i as int],
                        db.active_slot(db.appointments@[i as int].slot_id),
                    ));
                    let k0 = active_appointment_idx(db.appointments@, row.id);
                    assert(db.appointments@[k0].id == db.appointments@[i as int].id);
                    assert(db.active_appointment(row.id) == db.appointments@[i as int]);
                    assert forall|j: int|
                        0 <= j < out@.len() implies keys@[j] == db.active_appointment(
                        (#[trigger] out@[j]).id,
                    ).created_at by {
                        if j == p {
                            assert(out@[j] == row && keys@[j] == created_at);
                        } else {
                            let q: int = if j < p {
                                j
                            } else {
                                j - 1
                            };
                            assert(out@[j] == prev[q] && keys@[j] == prevks[q]);
                        }
                    }
                    assert forall|j: int|
                        0 <= j < out@.len() implies row_in_doctor_schedule(
                        *db,
                        #[trigger] out@[j],
                        doctor_id,
                    ) by {
                        if j == p {
                            assert(out@[j] == row);
                            assert(doctor_schedule_source(*db, i as int, doctor_id)
                                && view_matches(
                                out@[j],
                                db.appointments@[i as int],
                                db.active_slot(db.appointments@[i as int].slot_id),
                            ));
                        } else {
                            let q: int = if j < p {
                                j
                            } else {
                                j - 1
                            };
                            assert(out@[j] == prev[q]);
                            assert(row_in_doctor_schedule(*db, prev[q], doctor_id));
                        }
                    }
                    assert forall|j: int|
                        0 <= j < out@.len() implies exists|k: int|
                        0 <= k < i + 1 && (#[trigger] out@[j]).id == db.appointments@[k].id by {
                        if j == p {
                            assert(out@[j].id == db.appointments@[i as int].id);
                        } else {
                            let q: int = if j < p {
                                j
                            } else {
                                j - 1
                            };
                            assert(out@[j] == prev[q]);
                            let kk = choose|k: int|
                                0 <= k < i && (#[trigger] prev[q]).id == db.appointments@[k].id;
                            assert(0 <= kk < i + 1 && out@[j].id == db.appointments@[kk].id);
                        }
                    }
                    assert forall|k: int|
                        0 <= k < i + 1 && doctor_schedule_source(*db, k, doctor_id) implies exists|
                        j: int,
                    |
                        0 <= j < out@.len() && (#[trigger] out@[j]).id
                            == db.appointments@[k].id by {
                        if k == i {
                            assert(out@[p].id == db.appointments@[k].id);
                        } else {
                            let j0 = choose|j0: int|
                                0 <= j0 < prev.len() && (#[trigger] prev[j0]).id
                                    == db.appointments@[k].id;
                            if j0 < p {
                                assert(out@[j0].id == db.appointments@[k].id);
                            } else {
                                assert(out@[j0 + 1].id == db.appointments@[k].id);
                            }
                        }
                    }
                    assert forall|j1: int, j2: int|
                        0 <= j1 < out@.len() && 0 <= j2 < out@.len() && j1 != j2 implies (
                    #[trigger] out@[j1]).id != (#[trigger] out@[j2]).id by {
                        let q1: int = if j1 < p {
                            j1
                        } else {
                            j1 - 1
                        };
                        let q2: int = if j2 < p {
                            j2
                        } else {
                            j2 - 1
                        };
                        if j1 == p {
                            assert(out@[j2] == prev[q2]);
                            let kk = choose|k: int|
                                0 <= k < i && (#[trigger] prev[q2]).id == db.appointments@[k].id;
                            assert(db.appointments@[kk].id != db.appointments@[i as int].id);
                        } else if j2 == p {
                            assert(out@[j1] == prev[q1]);
                            let kk = choose|k: int|
                                0 <= k < i && (#[trigger] prev[q1]).id == db.appointments@[k].id;
                            assert(db.appointments@[kk].id != db.appointments@[i as int].id);
                        } else {
                            assert(out@[j1] == prev[q1]);
                            assert(out@[j2] == prev[q2]);
                            assert(q1 != q2);
                        }
                    }
                }
            } else {
                proof {
                    assert forall|j: int|
                        0 <= j < out@.len() implies exists|k: int|
                        0 <= k < i + 1 && (#[trigger] out@[j]).id == db.appointments@[k].id by {
                        let k0 = choose|k: int|
                            0 <= k < i && (#[trigger] out@[j]).id == db.appointments@[k].id;
                        assert(0 <= k0 < i + 1 && out@[j].id == db.appointments@[k0].id);
                    }
                    assert forall|k: int|
                        0 <= k < i + 1 && doctor_schedule_source(*db, k, doctor_id) implies exists|
                        j: int,
                    |
                        0 <= j < out@.len() && (#[trigger] out@[j]).id
                            == db.appointments@[k].id by {
                        assert(!doctor_schedule_source(*db, i as int, doctor_id));
                        assert(0 <= k < i);
                    }
                }
            }
            i = i + 1;
        }
        proof {
            assert forall|j1: int, j2: int|
                0 <= j1 <= j2 < out@.len() implies (#[trigger] out@[j1]).start_time < (
            #[trigger] out@[j2]).start_time || (out@[j1].start_time == out@[j2].start_time
                && db.active_appointment(out@[j1].id).created_at <= db.active_appointment(
                out@[j2].id,
            ).created_at) by {
                assert(keys@[j1] == db.active_appointment(out@[j1].id).created_at);
                assert(keys@[j2] == db.active_appointment(out@[j2].id).created_at);
            }
        }
        out
    }
}

} // verus!
