use clinic_booking::appointment_model::AddAppointmentDto;
use clinic_booking::db::ClinicDb;
use clinic_booking::errors::BookingError;
use clinic_booking::slot_model::AddSlotDto;
use clinic_booking::status::AppointmentStatus;

const NOW: i64 = 10_000;

fn booked_appointment(db: &mut ClinicDb) -> u128 {
    let slot_dto = AddSlotDto {
        max_appointment_count: 1,
        start_time: NOW - 1_000,
        end_time: NOW + 1_000,
    };
    let slot = db.add_slot(NOW, slot_dto.to_entity(7, NOW)).unwrap();
    let dto = AddAppointmentDto {
        slot_id: slot,
        patient_abnormal_symptom: "none".to_string(),
        patient_is_missed_medication: "no".to_string(),
        patient_blood_test_status: "done".to_string(),
        patient_is_overdue_medication: "no".to_string(),
        patient_is_partner_hiv_positive: "no".to_string(),
    };
    db.add_appointment(NOW, dto.to_entity(100, NOW)).unwrap()
}

fn status_of(db: &ClinicDb, id: u128) -> AppointmentStatus {
    db.appointments.iter().find(|a| a.id == id).unwrap().status
}

#[test]
fn lifecycle_advances_through_the_full_chain() {
    let mut db = ClinicDb::new();
    let id = booked_appointment(&mut db);
    assert_eq!(status_of(&db, id), AppointmentStatus::Waiting);

    assert_eq!(db.to_ready(id), Ok(id));
    assert_eq!(status_of(&db, id), AppointmentStatus::Ready);

    assert_eq!(db.to_waiting_for_prescription(id), Ok(id));
    assert_eq!(status_of(&db, id), AppointmentStatus::WaitingForPrescription);

    assert_eq!(db.to_completed(id), Ok(id));
    assert_eq!(status_of(&db, id), AppointmentStatus::Completed);
}

#[test]
fn skipping_ahead_is_refused() {
    let mut db = ClinicDb::new();
    let id = booked_appointment(&mut db);

    // Waiting -> Completed directly is out of order
    assert_eq!(db.to_completed(id), Err(BookingError::InvalidStatusCondition));
    // Waiting -> WaitingForPrescription skips Ready
    assert_eq!(
        db.to_waiting_for_prescription(id),
        Err(BookingError::InvalidStatusCondition)
    );
    assert_eq!(status_of(&db, id), AppointmentStatus::Waiting);
}

#[test]
fn repeating_a_transition_is_refused() {
    let mut db = ClinicDb::new();
    let id = booked_appointment(&mut db);

    db.to_ready(id).unwrap();
    assert_eq!(db.to_ready(id), Err(BookingError::InvalidStatusCondition));
    assert_eq!(status_of(&db, id), AppointmentStatus::Ready);
}

#[test]
fn no_transition_leaves_the_terminal_state() {
    let mut db = ClinicDb::new();
    let id = booked_appointment(&mut db);
    db.to_ready(id).unwrap();
    db.to_waiting_for_prescription(id).unwrap();
    db.to_completed(id).unwrap();

    assert_eq!(db.to_ready(id), Err(BookingError::InvalidStatusCondition));
    assert_eq!(
        db.to_waiting_for_prescription(id),
        Err(BookingError::InvalidStatusCondition)
    );
    assert_eq!(db.to_completed(id), Err(BookingError::InvalidStatusCondition));
    assert_eq!(status_of(&db, id), AppointmentStatus::Completed);
}

#[test]
fn transitions_on_missing_appointments_fail() {
    let mut db = ClinicDb::new();
    assert_eq!(db.to_ready(5), Err(BookingError::AppointmentNotFound));
    assert_eq!(
        db.to_waiting_for_prescription(5),
        Err(BookingError::AppointmentNotFound)
    );
    assert_eq!(db.to_completed(5), Err(BookingError::AppointmentNotFound));
}

#[test]
fn status_tokens_are_the_four_stable_strings() {
    assert_eq!(AppointmentStatus::Waiting.to_token(), "Waiting");
    assert_eq!(AppointmentStatus::Ready.to_token(), "Ready");
    assert_eq!(
        AppointmentStatus::WaitingForPrescription.to_token(),
        "WaitingForPrescription"
    );
    assert_eq!(AppointmentStatus::Completed.to_token(), "Completed");
}
