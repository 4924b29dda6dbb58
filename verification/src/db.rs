use vstd::prelude::*;

use crate::appointments::{appointment_active, AppointmentRecord};
use crate::slots::{slot_active, slot_ok, slots_overlap, SlotEntity};

verus! {

/// True when some active slot row carries `id`.
pub open spec fn has_active_slot_in(slots: Seq<SlotEntity>, id: u128) -> bool {
    exists|i: int|
        0 <= i < slots.len() && slot_active(#[trigger] slots[i]) && slots[i].id == id
}

/// Index of the active slot row carrying `id`; meaningful only when
/// [`has_active_slot_in`] holds (ids are unique, so the row is unique).
pub open spec fn active_slot_idx(slots: Seq<SlotEntity>, id: u128) -> int {
    choose|i: int|
        0 <= i < slots.len() && slot_active(#[trigger] slots[i]) && slots[i].id == id
}

/// The active slot row carrying `id`.
pub open spec fn active_slot_in(slots: Seq<SlotEntity>, id: u128) -> SlotEntity {
    slots[active_slot_idx(slots, id)]
}

/// True when some active slot of `doctor_id` overlaps `[start_time, end_time)`,
/// ignoring the row carrying `except_id` (used when re-checking an edit
/// against every other slot).
pub open spec fn overlap_exists_except(
    slots: Seq<SlotEntity>,
    doctor_id: i32,
    start_time: i64,
    end_time: i64,
    except_id: Option<u128>,
) -> bool {
    exists|i: int|
        {
            &&& 0 <= i < slots.len()
            &&& slot_active(#[trigger] slots[i])
            &&& slots[i].doctor_id == doctor_id
            &&& slots[i].start_time < end_time
            &&& slots[i].end_time > start_time
            &&& (except_id is Some ==> slots[i].id != except_id->0)
        }
}

/// True when some active appointment row carries `id`.
pub open spec fn has_active_appointment_in(appts: Seq<AppointmentRecord>, id: u128) -> bool {
    exists|i: int|
        0 <= i < appts.len() && appointment_active(#[trigger] appts[i]) && appts[i].id == id
}

/// Index of the active appointment row carrying `id`; meaningful only when
/// [`has_active_appointment_in`] holds.
pub open spec fn active_appointment_idx(appts: Seq<AppointmentRecord>, id: u128) -> int {
    choose|i: int|
        0 <= i < appts.len() && appointment_active(#[trigger] appts[i]) && appts[i].id == id
}

/// The active appointment row carrying `id`.
pub open spec fn active_appointment_in(appts: Seq<AppointmentRecord>, id: u128) -> AppointmentRecord {
    appts[active_appointment_idx(appts, id)]
}

/// How many active appointment rows reserve against slot `slot_id`.
pub open spec fn count_active_for(appts: Seq<AppointmentRecord>, slot_id: u128) -> int
    decreases appts.len(),
{
    if appts.len() == 0 {
        0
    } else {
        count_active_for(appts.drop_last(), slot_id) + if appointment_active(appts.last())
            && appts.last().slot_id == slot_id {
            1int
        } else {
            0int
        }
    }
}

/// The model of the relational store: the slot and appointment tables, plus
/// the id sequences the store draws fresh identities from. Rows are only
/// ever appended or updated in place; soft deletion sets a tombstone.
pub struct ClinicDb {
    pub slots: Vec<SlotEntity>,
    pub appointments: Vec<AppointmentRecord>,
    pub next_slot_id: u128,
    pub next_appointment_id: u128,
}

impl ClinicDb {
    /// Table-level invariants of the slot table: every row satisfies its
    /// per-row invariant, ids are unique and below the id sequence — which
    /// always reads one past the row count, rows being append-only — and no
    /// two active slots of one doctor overlap.
    pub open spec fn slots_wf(self) -> bool {
        &&& self.next_slot_id == self.slots@.len() + 1
        &&& forall|i: int|
            0 <= i < self.slots@.len() ==> slot_ok(#[trigger] self.slots@[i])
        &&& forall|i: int|
            0 <= i < self.slots@.len() ==> (#[trigger] self.slots@[i]).id < self.next_slot_id
        &&& forall|i: int, j: int|
            #![trigger self.slots@[i].id, self.slots@[j].id]
            0 <= i < self.slots@.len() && 0 <= j < self.slots@.len() && i != j
                ==> self.slots@[i].id != self.slots@[j].id
        &&& forall|i: int, j: int|
            #![trigger self.slots@[i].doctor_id, self.slots@[j].doctor_id]
            0 <= i < self.slots@.len() && 0 <= j < self.slots@.len() && i != j
                && slot_active(self.slots@[i]) && slot_active(self.slots@[j])
                && self.slots@[i].doctor_id == self.slots@[j].doctor_id
                ==> !slots_overlap(self.slots@[i], self.slots@[j])
    }

    /// Table-level invariants of the appointment table: ids are unique and
    /// below the id sequence, which always reads one past the row count,
    /// rows being append-only.
    pub open spec fn appointments_wf(self) -> bool {
        &&& self.next_appointment_id == self.appointments@.len() + 1
        &&& forall|i: int|
            0 <= i < self.appointments@.len()
                ==> (#[trigger] self.appointments@[i]).id < self.next_appointment_id
        &&& forall|i: int, j: int|
            #![trigger self.appointments@[i].id, self.appointments@[j].id]
            0 <= i < self.appointments@.len() && 0 <= j < self.appointments@.len() && i != j
                ==> self.appointments@[i].id != self.appointments@[j].id
    }

    /// Every active appointment references exactly one active slot.
    pub open spec fn refs_ok(self) -> bool {
        forall|i: int|
            0 <= i < self.appointments@.len() && appointment_active(#[trigger] self.appointments@[i])
                ==> has_active_slot_in(self.slots@, self.appointments@[i].slot_id)
    }

    /// Each slot's reservation counter equals the number of active
    /// appointments reserving against it: the slot is the sole authority
    /// over its own capacity, and every active appointment counts toward
    /// exactly one slot.
    pub open spec fn counts_ok(self) -> bool {
        forall|j: int|
            0 <= j < self.slots@.len()
                ==> (#[trigger] self.slots@[j]).current_appointment_count as int
                    == count_active_for(self.appointments@, self.slots@[j].id)
    }

    /// The full invariant of the store, preserved by every orchestrated
    /// operation.
    pub open spec fn inv(self) -> bool {
        self.slots_wf() && self.appointments_wf() && self.refs_ok() && self.counts_ok()
    }

    pub open spec fn has_active_slot(self, id: u128) -> bool {
        has_active_slot_in(self.slots@, id)
    }

    pub open spec fn active_slot(self, id: u128) -> SlotEntity {
        active_slot_in(self.slots@, id)
    }

    pub open spec fn has_active_appointment(self, id: u128) -> bool {
        has_active_appointment_in(self.appointments@, id)
    }

    pub open spec fn active_appointment(self, id: u128) -> AppointmentRecord {
        active_appointment_in(self.appointments@, id)
    }

    /// An empty store: both tables empty, id sequences at one.
    pub fn new() -> (db: ClinicDb)
        ensures
            db.inv(),
            db.slots@.len() == 0,
            db.appointments@.len() == 0,
            db.next_slot_id == 1,
            db.next_appointment_id == 1,
    {
        ClinicDb {
            slots: Vec::new(),
            appointments: Vec::new(),
            next_slot_id: 1,
            next_appointment_id: 1,
        }
    }
}

/// Every slot, at all times, keeps its reservation counter within
/// `0 ..= max_appointment_count`: the store invariant bounds the counter,
/// and every orchestrated operation preserves the invariant.
pub proof fn lemma_capacity_within_bounds(db: ClinicDb, i: int)
    requires
        db.inv(),
        0 <= i < db.slots@.len(),
    ensures
        0 <= db.slots@[i].current_appointment_count,
        db.slots@[i].current_appointment_count <= db.slots@[i].max_appointment_count,
{
}

/// No two active slots of one doctor ever overlap: the overlap check at
/// creation and at every window edit keeps the invariant, however requests
/// interleave — each runs as one serialized transaction on the store.
pub proof fn lemma_no_overlapping_slots(db: ClinicDb, i: int, j: int)
    requires
        db.inv(),
        0 <= i < db.slots@.len(),
        0 <= j < db.slots@.len(),
        i != j,
        slot_active(db.slots@[i]),
        slot_active(db.slots@[j]),
        db.slots@[i].doctor_id == db.slots@[j].doctor_id,
    ensures
        !slots_overlap(db.slots@[i], db.slots@[j]),
{
}

/// A slot with maximum count N never carries more than N standing
/// reservations: its counter equals the number of active appointments
/// against it and stays within the maximum, so once N bookings stand, a
/// further one meets "slot full" — never N + 1 successes, however many
/// bookings race.
pub proof fn lemma_capacity_never_oversubscribed(db: ClinicDb, j: int)
    requires
        db.inv(),
        0 <= j < db.slots@.len(),
    ensures
        count_active_for(db.appointments@, db.slots@[j].id) <= db.slots@[
            j
        ].max_appointment_count as int,
{
}

/// Appending a row changes the reservation count of exactly the slot the new
/// row actively reserves against, by one.
pub proof fn lemma_count_push(appts: Seq<AppointmentRecord>, a: AppointmentRecord, slot_id: u128)
    ensures
        count_active_for(appts.push(a), slot_id) == count_active_for(appts, slot_id) + if
            appointment_active(a) && a.slot_id == slot_id {
            1int
        } else {
            0int
        },
{
    assert(appts.push(a).drop_last() =~= appts);
    assert(appts.push(a).last() == a);
}

/// Updating row `k` changes a slot's reservation count by the difference of
/// the old and new row's contributions.
pub proof fn lemma_count_update(
    appts: Seq<AppointmentRecord>,
    k: int,
    a: AppointmentRecord,
    slot_id: u128,
)
    requires
        0 <= k < appts.len(),
    ensures
        count_active_for(appts.update(k, a), slot_id) == count_active_for(appts, slot_id) - (if
            appointment_active(appts[k]) && appts[k].slot_id == slot_id {
            1int
        } else {
            0int
        }) + (if appointment_active(a) && a.slot_id == slot_id {
            1int
        } else {
            0int
        }),
    decreases appts.len(),
{
    if k == appts.len() - 1 {
        assert(appts.update(k, a).drop_last() =~= appts.drop_last());
        assert(appts.update(k, a).last() == a);
    } else {
        assert(appts.update(k, a).drop_last() =~= appts.drop_last().update(k, a));
        assert(appts.update(k, a).last() == appts.last());
        lemma_count_update(appts.drop_last(), k, a, slot_id);
    }
}

/// Reservation counts are never negative.
pub proof fn lemma_count_nonneg(appts: Seq<AppointmentRecord>, slot_id: u128)
    ensures
        count_active_for(appts, slot_id) >= 0,
    decreases appts.len(),
{
    if appts.len() > 0 {
        lemma_count_nonneg(appts.drop_last(), slot_id);
    }
}

/// An active appointment reserving against a slot keeps that slot's
/// reservation count at one or more.
pub proof fn lemma_count_at_least_one(appts: Seq<AppointmentRecord>, k: int, slot_id: u128)
    requires
        0 <= k < appts.len(),
        appointment_active(appts[k]),
        appts[k].slot_id == slot_id,
    ensures
        count_active_for(appts, slot_id) >= 1,
    decreases appts.len(),
{
    if k == appts.len() - 1 {
        lemma_count_nonneg(appts.drop_last(), slot_id);
    } else {
        lemma_count_at_least_one(appts.drop_last(), k, slot_id);
    }
}

/// A positive reservation count names a witness: some active appointment
/// reserves against the slot.
pub proof fn lemma_count_pos_exists(appts: Seq<AppointmentRecord>, slot_id: u128)
    requires
        count_active_for(appts, slot_id) > 0,
    ensures
        exists|k: int|
            0 <= k < appts.len() && appointment_active(#[trigger] appts[k]) && appts[k].slot_id
                == slot_id,
    decreases appts.len(),
{
    if appts.len() > 0 {
        if appointment_active(appts.last()) && appts.last().slot_id == slot_id {
            assert(appts[appts.len() - 1] == appts.last());
        } else {
            lemma_count_pos_exists(appts.drop_last(), slot_id);
            let k = choose|k: int|
                0 <= k < appts.drop_last().len() && appointment_active(
                    #[trigger] appts.drop_last()[k],
                ) && appts.drop_last()[k].slot_id == slot_id;
            assert(appts[k] == appts.drop_last()[k]);
        }
    }
}

/// A slot id the store has not yet issued is reserved by no appointment:
/// active appointments reference active slots, and every stored slot id lies
/// below the id sequence.
pub proof fn lemma_fresh_slot_unreferenced(db: ClinicDb)
    requires
        db.slots_wf(),
        db.refs_ok(),
    ensures
        count_active_for(db.appointments@, db.next_slot_id) == 0,
{
    lemma_count_nonneg(db.appointments@, db.next_slot_id);
    if count_active_for(db.appointments@, db.next_slot_id) > 0 {
        lemma_count_pos_exists(db.appointments@, db.next_slot_id);
        let k = choose|k: int|
            0 <= k < db.appointments@.len() && appointment_active(#[trigger] db.appointments@[k])
                && db.appointments@[k].slot_id == db.next_slot_id;
        assert(has_active_slot_in(db.slots@, db.next_slot_id));
        let i = active_slot_idx(db.slots@, db.next_slot_id);
        assert(db.slots@[i].id < db.next_slot_id);
    }
}

/// Finds the active slot row carrying `id`, if any.
pub(crate) fn find_active_slot(slots: &Vec<SlotEntity>, id: u128) -> (r: Option<usize>)
    ensures
        match r {
            Some(i) => i < slots@.len() && slot_active(slots@[i as int]) && slots@[i as int].id
                == id,
            None => !has_active_slot_in(slots@, id),
        },
{
    let n = slots.len();
    let mut i: usize = 0;
    while i < n
        invariant
            i <= n,
            n == slots@.len(),
            forall|k: int|
                0 <= k < i ==> !(slot_active(#[trigger] slots@[k]) && slots@[k].id == id),
        decreases n - i,
    {
        if slots[i].deleted_at.is_none() && slots[i].id == id {
            return Some(i);
        }
        i = i + 1;
    }
    None
}

/// The overlap scan used when editing a slot's window: true when an active
/// slot of `doctor_id` other than the row carrying `except_id` overlaps
/// `[start_time, end_time)`.
pub(crate) fn overlap_scan_except(
    slots: &Vec<SlotEntity>,
    doctor_id: i32,
    start_time: i64,
    end_time: i64,
    except_id: u128,
) -> (b: bool)
    ensures
        b == overlap_exists_except(slots@, doctor_id, start_time, end_time, Some(except_id)),
{
    let n = slots.len();
    let mut i: usize = 0;
    while i < n
        invariant
            i <= n,
            n == slots@.len(),
            forall|k: int|
                0 <= k < i ==> !(slot_active(#[trigger] slots@[k]) && slots@[k].doctor_id
                    == doctor_id && slots@[k].start_time < end_time && slots@[k].end_time
                    > start_time && slots@[k].id != except_id),
        decreases n - i,
    {
        let s = &slots[i];
        if s.deleted_at.is_none() && s.doctor_id == doctor_id && s.start_time < end_time
            && s.end_time > start_time && s.id != except_id {
            return true;
        }
        i = i + 1;
    }
    false
}

/// Finds the active appointment row carrying `id`, if any.
pub(crate) fn find_active_appointment(appts: &Vec<AppointmentRecord>, id: u128) -> (r: Option<
    usize,
>)
    ensures
        match r {
            Some(i) => i < appts@.len() && appointment_active(appts@[i as int]) && appts@[
                i as int
            ].id == id,
            None => !has_active_appointment_in(appts@, id),
        },
{
    let n = appts.len();
    let mut i: usize = 0;
    while i < n
        invariant
            i <= n,
            n == appts@.len(),
            forall|k: int|
                0 <= k < i ==> !(appointment_active(#[trigger] appts@[k]) && appts@[k].id == id),
        decreases n - i,
    {
        if appts[i].deleted_at.is_none() && appts[i].id == id {
            return Some(i);
        }
        i = i + 1;
    }
    None
}

} // verus!
