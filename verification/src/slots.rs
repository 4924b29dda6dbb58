use vstd::prelude::*;

verus! {

/// A row of the slot table: a doctor's offered time window.
///
/// Identities are opaque 128-bit tokens; timestamps are naive (timezone-free)
/// wall-clock values in microseconds. `deleted_at` absent means the row is
/// active: deletion is a tombstone, rows are never physically removed.
#[derive(Debug, Clone, Copy, PartialEq)]
pub struct SlotEntity {
    pub id: u128,
    pub doctor_id: i32,
    pub current_appointment_count: i32,
    pub max_appointment_count: i32,
    pub start_time: i64,
    pub end_time: i64,
    pub created_at: i64,
    pub updated_at: i64,
    pub deleted_at: Option<i64>,
}

/// The values a new slot row is inserted with; the store assigns the id.
#[derive(Debug, Clone, Copy, PartialEq)]
pub struct AddSlotEntity {
    pub doctor_id: i32,
    pub current_appointment_count: i32,
    pub max_appointment_count: i32,
    pub start_time: i64,
    pub end_time: i64,
    pub created_at: i64,
    pub updated_at: i64,
    pub deleted_at: Option<i64>,
}

/// A partial update of a slot row: only the fields that are present change.
#[derive(Debug, Clone, Copy, PartialEq)]
pub struct EditSlotEntity {
    pub max_appointment_count: Option<i32>,
    pub end_time: Option<i64>,
    pub updated_at: i64,
}

/// The maximum count a slot edit leaves in place: the new value where one
/// is present, otherwise the stored one.
pub open spec fn edited_max(e: EditSlotEntity, s: SlotEntity) -> i32 {
    match e.max_appointment_count {
        Some(m) => m,
        None => s.max_appointment_count,
    }
}

/// The end time a slot edit leaves in place: the new value where one is
/// present, otherwise the stored one.
pub open spec fn edited_end(e: EditSlotEntity, s: SlotEntity) -> i64 {
    match e.end_time {
        Some(t) => t,
        None => s.end_time,
    }
}

/// True when the row has no tombstone.
pub open spec fn slot_active(s: SlotEntity) -> bool {
    s.deleted_at is None
}

/// Half-open interval overlap: `[a.start, a.end)` and `[b.start, b.end)`
/// share at least one instant.
pub open spec fn slots_overlap(a: SlotEntity, b: SlotEntity) -> bool {
    a.start_time < b.end_time && b.start_time < a.end_time
}

/// The per-row invariants of the slot table: the reservation counter stays
/// within `0 ..= max_appointment_count` and the window is non-empty.
pub open spec fn slot_ok(s: SlotEntity) -> bool {
    &&& 0 <= s.current_appointment_count
    &&& s.current_appointment_count <= s.max_appointment_count
    &&& s.start_time < s.end_time
}

} // verus!
