use clinic_booking::appointment_model::{AddAppointmentDto, EditAppointmentDto};
use clinic_booking::db::ClinicDb;
use clinic_booking::errors::BookingError;
use clinic_booking::slot_model::AddSlotDto;
use clinic_booking::slot_model::EditSlotDto;
use clinic_booking::slot_ops_dao::SlotOpsDao;
use clinic_booking::status::AppointmentStatus;

const NOW: i64 = 10_000;

fn add_slot(db: &mut ClinicDb, doctor_id: i32, max: i32, start: i64, end: i64) -> u128 {
    let dto = AddSlotDto {
        max_appointment_count: max,
        start_time: start,
        end_time: end,
    };
    db.add_slot(NOW, dto.to_entity(doctor_id, NOW))
        .expect("slot creation should succeed")
}

fn booking_dto(slot_id: u128) -> AddAppointmentDto {
    AddAppointmentDto {
        slot_id,
        patient_abnormal_symptom: "none".to_string(),
        patient_is_missed_medication: "no".to_string(),
        patient_blood_test_status: "done".to_string(),
        patient_is_overdue_medication: "no".to_string(),
        patient_is_partner_hiv_positive: "no".to_string(),
    }
}

fn book(db: &mut ClinicDb, slot_id: u128, patient_id: i32) -> Result<u128, BookingError> {
    let dto = booking_dto(slot_id);
    db.add_appointment(NOW, dto.to_entity(patient_id, NOW))
}

fn slot_count(db: &ClinicDb, slot_id: u128) -> i32 {
    db.slots
        .iter()
        .find(|s| s.id == slot_id && s.deleted_at.is_none())
        .expect("slot should be active")
        .current_appointment_count
}

#[test]
fn two_bookings_against_single_capacity_slot() {
    let mut db = ClinicDb::new();
    // capacity 1, already running: start < now < end
    let slot = add_slot(&mut db, 7, 1, NOW - 1_000, NOW + 1_000);

    let first = book(&mut db, slot, 100);
    let second = book(&mut db, slot, 200);

    assert!(first.is_ok());
    assert_eq!(second, Err(BookingError::SlotFull));
    assert_eq!(slot_count(&db, slot), 1);
    assert_eq!(db.appointments.len(), 1);
}

#[test]
fn capacity_two_admits_exactly_two() {
    let mut db = ClinicDb::new();
    let slot = add_slot(&mut db, 7, 2, NOW - 1_000, NOW + 1_000);

    assert!(book(&mut db, slot, 1).is_ok());
    assert!(book(&mut db, slot, 2).is_ok());
    assert_eq!(book(&mut db, slot, 3), Err(BookingError::SlotFull));
    assert_eq!(slot_count(&db, slot), 2);
}

#[test]
fn booking_against_ended_slot_changes_nothing() {
    let mut db = ClinicDb::new();
    let slot = add_slot(&mut db, 7, 5, NOW + 1_000, NOW + 2_000);

    // the clock moves past the slot's end before the booking arrives
    let dto = booking_dto(slot);
    let r = db.add_appointment(NOW + 3_000, dto.to_entity(100, NOW + 3_000));

    assert_eq!(r, Err(BookingError::SlotAlreadyEnded));
    assert_eq!(db.appointments.len(), 0);
    assert_eq!(slot_count(&db, slot), 0);
}

#[test]
fn booking_against_missing_slot_fails() {
    let mut db = ClinicDb::new();
    assert_eq!(book(&mut db, 424_242, 100), Err(BookingError::SlotNotFound));
}

#[test]
fn booking_is_created_waiting_and_owned() {
    let mut db = ClinicDb::new();
    let slot = add_slot(&mut db, 7, 5, NOW - 1_000, NOW + 1_000);

    let id = book(&mut db, slot, 100).expect("booking should succeed");

    let row = db.appointments.iter().find(|a| a.id == id).unwrap();
    assert_eq!(row.status, AppointmentStatus::Waiting);
    assert_eq!(row.patient_id, 100);
    assert_eq!(row.slot_id, slot);
    assert!(row.deleted_at.is_none());
}

#[test]
fn reschedule_moves_one_unit_of_capacity() {
    let mut db = ClinicDb::new();
    let slot_a = add_slot(&mut db, 7, 1, NOW - 1_000, NOW + 1_000);
    let slot_b = add_slot(&mut db, 8, 1, NOW + 2_000, NOW + 3_000);
    let appointment = book(&mut db, slot_a, 100).unwrap();
    assert_eq!(slot_count(&db, slot_a), 1);
    assert_eq!(slot_count(&db, slot_b), 0);

    let dto = EditAppointmentDto {
        slot_id: Some(slot_b),
        patient_abnormal_symptom: None,
        patient_is_missed_medication: None,
        patient_blood_test_status: None,
        patient_is_overdue_medication: None,
        patient_is_partner_hiv_positive: None,
    };
    db.edit_appointment(NOW, appointment, 100, dto)
        .expect("reschedule should succeed");

    assert_eq!(slot_count(&db, slot_a), 0);
    assert_eq!(slot_count(&db, slot_b), 1);
    let row = db.appointments.iter().find(|a| a.id == appointment).unwrap();
    assert_eq!(row.slot_id, slot_b);
}

#[test]
fn reschedule_to_full_slot_fails_and_keeps_capacity() {
    let mut db = ClinicDb::new();
    let slot_a = add_slot(&mut db, 7, 1, NOW - 1_000, NOW + 1_000);
    let slot_b = add_slot(&mut db, 8, 1, NOW + 2_000, NOW + 3_000);
    let appointment = book(&mut db, slot_a, 100).unwrap();
    book(&mut db, slot_b, 200).unwrap();

    let entity = clinic_booking::appointments::RescheduleAppointmentEntity {
        slot_id: slot_b,
        updated_at: NOW,
    };
    let r = db.reschedule_appointment(NOW, appointment, 100, entity);

    assert_eq!(r, Err(BookingError::SlotFull));
    assert_eq!(slot_count(&db, slot_a), 1);
    assert_eq!(slot_count(&db, slot_b), 1);
}

#[test]
fn reschedule_refused_at_final_guard_leaves_both_counters() {
    let mut db = ClinicDb::new();
    let slot_a = add_slot(&mut db, 7, 1, NOW - 1_000, NOW + 1_000);
    let slot_b = add_slot(&mut db, 8, 1, NOW + 2_000, NOW + 3_000);
    let appointment = book(&mut db, slot_a, 100).unwrap();
    // the appointment leaves `Waiting`, so the ownership/status guard fails
    db.to_ready(appointment).unwrap();

    let entity = clinic_booking::appointments::RescheduleAppointmentEntity {
        slot_id: slot_b,
        updated_at: NOW,
    };
    let r = db.reschedule_appointment(NOW, appointment, 100, entity);

    assert_eq!(r, Err(BookingError::AppointmentNotWaiting));
    assert_eq!(slot_count(&db, slot_a), 1);
    assert_eq!(slot_count(&db, slot_b), 0);
}

#[test]
fn removing_non_waiting_appointment_keeps_capacity() {
    let mut db = ClinicDb::new();
    let slot = add_slot(&mut db, 7, 1, NOW - 1_000, NOW + 1_000);
    let appointment = book(&mut db, slot, 100).unwrap();
    db.to_ready(appointment).unwrap();

    let r = db.remove_appointment(NOW, appointment, 100);

    assert_eq!(r, Err(BookingError::AppointmentNotWaiting));
    assert_eq!(slot_count(&db, slot), 1);
    let row = db.appointments.iter().find(|a| a.id == appointment).unwrap();
    assert!(row.deleted_at.is_none());
}

#[test]
fn removing_waiting_appointment_releases_capacity() {
    let mut db = ClinicDb::new();
    let slot = add_slot(&mut db, 7, 1, NOW - 1_000, NOW + 1_000);
    let appointment = book(&mut db, slot, 100).unwrap();

    db.remove_appointment(NOW, appointment, 100)
        .expect("removal should succeed");

    assert_eq!(slot_count(&db, slot), 0);
    let row = db.appointments.iter().find(|a| a.id == appointment).unwrap();
    assert_eq!(row.deleted_at, Some(NOW));
}

#[test]
fn removal_by_other_patient_is_refused() {
    let mut db = ClinicDb::new();
    let slot = add_slot(&mut db, 7, 1, NOW - 1_000, NOW + 1_000);
    let appointment = book(&mut db, slot, 100).unwrap();

    let r = db.remove_appointment(NOW, appointment, 999);

    assert_eq!(r, Err(BookingError::NotAppointmentOwner));
    assert_eq!(slot_count(&db, slot), 1);
}

#[test]
fn overlapping_slot_creation_is_refused() {
    let mut db = ClinicDb::new();
    add_slot(&mut db, 7, 1, NOW + 1_000, NOW + 3_000);

    let dto = AddSlotDto {
        max_appointment_count: 1,
        start_time: NOW + 2_000,
        end_time: NOW + 4_000,
    };
    let r = db.add_slot(NOW, dto.to_entity(7, NOW));

    assert_eq!(r, Err(BookingError::SlotOverlapping));
    assert_eq!(db.slots.len(), 1);
}

#[test]
fn adjacent_half_open_windows_do_not_overlap() {
    let mut db = ClinicDb::new();
    add_slot(&mut db, 7, 1, NOW + 1_000, NOW + 2_000);
    // [start, end) intervals: sharing the boundary instant is no overlap
    let second = add_slot(&mut db, 7, 1, NOW + 2_000, NOW + 3_000);
    assert_eq!(slot_count(&db, second), 0);
}

#[test]
fn same_window_other_doctor_is_no_overlap() {
    let mut db = ClinicDb::new();
    add_slot(&mut db, 7, 1, NOW + 1_000, NOW + 3_000);
    add_slot(&mut db, 8, 1, NOW + 1_000, NOW + 3_000);
    assert_eq!(db.slots.len(), 2);
}

#[test]
fn slot_ending_in_the_past_is_refused() {
    let mut db = ClinicDb::new();
    let dto = AddSlotDto {
        max_appointment_count: 1,
        start_time: NOW - 3_000,
        end_time: NOW - 2_000,
    };
    let r = db.add_slot(NOW, dto.to_entity(7, NOW));
    assert_eq!(r, Err(BookingError::EndTimeInPast));
}

#[test]
fn inverted_window_is_refused() {
    let mut db = ClinicDb::new();
    let dto = AddSlotDto {
        max_appointment_count: 1,
        start_time: NOW + 3_000,
        end_time: NOW + 2_000,
    };
    let r = db.add_slot(NOW, dto.to_entity(7, NOW));
    assert_eq!(r, Err(BookingError::InvalidSlotTimes));
}

#[test]
fn negative_maximum_is_refused() {
    let mut db = ClinicDb::new();
    let dto = AddSlotDto {
        max_appointment_count: -1,
        start_time: NOW + 1_000,
        end_time: NOW + 2_000,
    };
    let r = db.add_slot(NOW, dto.to_entity(7, NOW));
    assert_eq!(r, Err(BookingError::InvalidMaxCount));
}

#[test]
fn edit_slot_updates_present_fields_only() {
    let mut db = ClinicDb::new();
    let slot = add_slot(&mut db, 7, 1, NOW + 1_000, NOW + 2_000);

    let dto = EditSlotDto {
        max_appointment_count: Some(3),
        end_time: None,
    };
    db.edit_slot(NOW, slot, 7, dto.to_entity(NOW))
        .expect("edit should succeed");

    let row = db.slots.iter().find(|s| s.id == slot).unwrap();
    assert_eq!(row.max_appointment_count, 3);
    assert_eq!(row.end_time, NOW + 2_000);
}

#[test]
fn edit_slot_by_other_doctor_is_refused() {
    let mut db = ClinicDb::new();
    let slot = add_slot(&mut db, 7, 1, NOW + 1_000, NOW + 2_000);
    let dto = EditSlotDto {
        max_appointment_count: Some(3),
        end_time: None,
    };
    let r = db.edit_slot(NOW, slot, 8, dto.to_entity(NOW));
    assert_eq!(r, Err(BookingError::NotSlotOwner));
}

#[test]
fn edit_slot_below_standing_reservations_is_refused() {
    let mut db = ClinicDb::new();
    let slot = add_slot(&mut db, 7, 2, NOW - 1_000, NOW + 2_000);
    book(&mut db, slot, 1).unwrap();
    book(&mut db, slot, 2).unwrap();

    let dto = EditSlotDto {
        max_appointment_count: Some(1),
        end_time: None,
    };
    let r = db.edit_slot(NOW, slot, 7, dto.to_entity(NOW));

    assert_eq!(r, Err(BookingError::InvalidMaxCount));
}

#[test]
fn edit_slot_extension_into_neighbour_is_refused() {
    let mut db = ClinicDb::new();
    let first = add_slot(&mut db, 7, 1, NOW + 1_000, NOW + 2_000);
    add_slot(&mut db, 7, 1, NOW + 2_000, NOW + 3_000);

    let dto = EditSlotDto {
        max_appointment_count: None,
        end_time: Some(NOW + 2_500),
    };
    let r = db.edit_slot(NOW, first, 7, dto.to_entity(NOW));

    assert_eq!(r, Err(BookingError::SlotOverlapping));
    let row = db.slots.iter().find(|s| s.id == first).unwrap();
    assert_eq!(row.end_time, NOW + 2_000);
}

#[test]
fn remove_slot_with_bookings_is_refused() {
    let mut db = ClinicDb::new();
    let slot = add_slot(&mut db, 7, 1, NOW + 1_000, NOW + 2_000);
    book(&mut db, slot, 100).unwrap();

    let r = db.remove_slot(NOW, slot, 7);

    assert_eq!(r, Err(BookingError::SlotStillBooked));
    assert!(db.slots.iter().any(|s| s.id == slot && s.deleted_at.is_none()));
}

#[test]
fn remove_started_slot_is_refused() {
    let mut db = ClinicDb::new();
    let slot = add_slot(&mut db, 7, 1, NOW - 1_000, NOW + 2_000);
    let r = db.remove_slot(NOW, slot, 7);
    assert_eq!(r, Err(BookingError::SlotAlreadyStarted));
}

#[test]
fn removed_slot_becomes_a_tombstone() {
    let mut db = ClinicDb::new();
    let slot = add_slot(&mut db, 7, 1, NOW + 1_000, NOW + 2_000);

    db.remove_slot(NOW, slot, 7).expect("removal should succeed");

    // the row is never physically deleted, only tombstoned
    assert_eq!(db.slots.len(), 1);
    assert_eq!(db.slots[0].deleted_at, Some(NOW));
    assert_eq!(book(&mut db, slot, 100), Err(BookingError::SlotNotFound));
}

#[test]
fn edit_appointment_merges_present_intake_fields() {
    let mut db = ClinicDb::new();
    let slot = add_slot(&mut db, 7, 1, NOW - 1_000, NOW + 1_000);
    let appointment = book(&mut db, slot, 100).unwrap();

    let dto = EditAppointmentDto {
        slot_id: None,
        patient_abnormal_symptom: Some("fever".to_string()),
        patient_is_missed_medication: None,
        patient_blood_test_status: None,
        patient_is_overdue_medication: Some("yes".to_string()),
        patient_is_partner_hiv_positive: None,
    };
    db.edit_appointment(NOW + 5, appointment, 100, dto)
        .expect("edit should succeed");

    let row = db.appointments.iter().find(|a| a.id == appointment).unwrap();
    assert_eq!(row.patient_abnormal_symptom, "fever");
    assert_eq!(row.patient_is_missed_medication, "no");
    assert_eq!(row.patient_is_overdue_medication, "yes");
    assert_eq!(row.updated_at, NOW + 5);
}

#[test]
fn edit_appointment_by_other_patient_is_refused() {
    let mut db = ClinicDb::new();
    let slot = add_slot(&mut db, 7, 1, NOW - 1_000, NOW + 1_000);
    let appointment = book(&mut db, slot, 100).unwrap();

    let dto = EditAppointmentDto {
        slot_id: None,
        patient_abnormal_symptom: Some("fever".to_string()),
        patient_is_missed_medication: None,
        patient_blood_test_status: None,
        patient_is_overdue_medication: None,
        patient_is_partner_hiv_positive: None,
    };
    let r = db.edit_appointment(NOW, appointment, 999, dto);

    assert_eq!(r, Err(BookingError::NotAppointmentOwner));
}

#[test]
fn booking_now_succeeds_against_far_future_slot() {
    let mut db = ClinicDb::new();
    let dto = AddSlotDto {
        max_appointment_count: 1,
        start_time: 0,
        end_time: i64::MAX,
    };
    let slot = db.add_slot(NOW, dto.to_entity(7, NOW)).unwrap();

    let id = db
        .add_appointment_now(&booking_dto(slot), 100)
        .expect("booking against a never-ending slot should succeed");

    assert_eq!(slot_count(&db, slot), 1);
    db.remove_appointment_now(id, 100)
        .expect("removal should succeed");
    assert_eq!(slot_count(&db, slot), 0);
}

#[test]
fn error_kinds_and_messages_match_the_store_wording() {
    assert!(BookingError::SlotNotFound.is_not_found());
    assert!(BookingError::AppointmentNotFound.is_not_found());
    assert!(!BookingError::SlotFull.is_not_found());

    assert_eq!(BookingError::SlotAlreadyEnded.message(), "Slot is already ended!!!");
    assert_eq!(BookingError::SlotFull.message(), "Slot is full!!!");
    assert_eq!(BookingError::SlotOverlapping.message(), "Slot time is overlapping!!!");
    assert_eq!(BookingError::EndTimeInPast.message(), "You cant go to the past");
    assert_eq!(BookingError::SlotStillBooked.message(), "Patient already booked this slot!");
    assert_eq!(
        BookingError::InvalidStatusCondition.message(),
        "Invalid condition to change status"
    );
    assert_eq!(BookingError::SlotNotFound.message(), "slot not found");
}

#[test]
fn capacity_counter_round_trip_at_the_store_level() {
    let mut db = ClinicDb::new();
    let slot = add_slot(&mut db, 7, 1, NOW - 1_000, NOW + 1_000);

    assert!(SlotOpsDao::lock(&db, slot).is_ok());
    assert_eq!(SlotOpsDao::lock(&db, 999), Err(BookingError::SlotNotFound));

    // the conditional increment takes the last unit, then refuses
    assert!(SlotOpsDao::try_add_slot_appointment_count(&mut db, slot, NOW));
    assert!(!SlotOpsDao::try_add_slot_appointment_count(&mut db, slot, NOW));
    assert_eq!(slot_count(&db, slot), 1);

    SlotOpsDao::dec_slot_appointment_count(&mut db, slot, NOW);
    assert_eq!(slot_count(&db, slot), 0);
}
