use clinic_booking::appointment_model::AddAppointmentDto;
use clinic_booking::db::ClinicDb;
use clinic_booking::schedule_viewing_dao::ScheduleViewingDao;
use clinic_booking::slot_model::AddSlotDto;
use clinic_booking::slot_viewing_dao::SlotViewingDao;

const NOW: i64 = 10_000;

fn add_slot(db: &mut ClinicDb, doctor_id: i32, start: i64, end: i64) -> u128 {
    let dto = AddSlotDto {
        max_appointment_count: 5,
        start_time: start,
        end_time: end,
    };
    db.add_slot(NOW, dto.to_entity(doctor_id, NOW)).unwrap()
}

fn book(db: &mut ClinicDb, slot_id: u128, patient_id: i32, symptom: &str) -> u128 {
    let dto = AddAppointmentDto {
        slot_id,
        patient_abnormal_symptom: symptom.to_string(),
        patient_is_missed_medication: "no".to_string(),
        patient_blood_test_status: "done".to_string(),
        patient_is_overdue_medication: "no".to_string(),
        patient_is_partner_hiv_positive: "no".to_string(),
    };
    db.add_appointment(NOW, dto.to_entity(patient_id, NOW)).unwrap()
}

#[test]
fn slot_listing_hides_tombstones() {
    let mut db = ClinicDb::new();
    add_slot(&mut db, 7, NOW + 1_000, NOW + 2_000);
    let doomed = add_slot(&mut db, 7, NOW + 3_000, NOW + 4_000);
    db.remove_slot(NOW, doomed, 7).unwrap();

    let open = SlotViewingDao::get_slots(&db);

    assert_eq!(open.len(), 1);
    assert!(open.iter().all(|s| s.id != doomed));
}

#[test]
fn doctor_slot_listing_filters_by_owner() {
    let mut db = ClinicDb::new();
    add_slot(&mut db, 7, NOW + 1_000, NOW + 2_000);
    add_slot(&mut db, 8, NOW + 1_000, NOW + 2_000);
    add_slot(&mut db, 7, NOW + 3_000, NOW + 4_000);

    let mine = SlotViewingDao::get_doctor_slots(&db, 7);

    assert_eq!(mine.len(), 2);
    assert!(mine.iter().all(|s| s.doctor_id == 7));
}

#[test]
fn patient_schedule_is_joined_and_ordered_by_start_time() {
    let mut db = ClinicDb::new();
    let late = add_slot(&mut db, 7, NOW + 5_000, NOW + 6_000);
    let early = add_slot(&mut db, 8, NOW + 1_000, NOW + 2_000);
    book(&mut db, late, 100, "cough");
    book(&mut db, early, 100, "fever");
    book(&mut db, early, 200, "other patient");

    let rows = ScheduleViewingDao::get_patient_schedules(&db, 100);

    assert_eq!(rows.len(), 2);
    assert!(rows[0].start_time <= rows[1].start_time);
    assert_eq!(rows[0].slot_id, early);
    assert_eq!(rows[0].patient_abnormal_symptom, "fever");
    assert_eq!(rows[0].doctor_id, 8);
    assert_eq!(rows[0].status, "Waiting");
    assert_eq!(rows[1].slot_id, late);
    assert_eq!(rows[1].end_time, NOW + 6_000);
}

#[test]
fn doctor_schedule_lists_bookings_against_own_slots() {
    let mut db = ClinicDb::new();
    let mine = add_slot(&mut db, 7, NOW + 1_000, NOW + 2_000);
    let other = add_slot(&mut db, 8, NOW + 3_000, NOW + 4_000);
    book(&mut db, mine, 100, "fever");
    book(&mut db, other, 100, "cough");
    book(&mut db, mine, 200, "checkup");

    let rows = ScheduleViewingDao::get_doctor_schedules(&db, 7);

    assert_eq!(rows.len(), 2);
    assert!(rows.iter().all(|r| r.doctor_id == 7 && r.slot_id == mine));
}

#[test]
fn cancelled_bookings_leave_the_schedule() {
    let mut db = ClinicDb::new();
    let slot = add_slot(&mut db, 7, NOW + 1_000, NOW + 2_000);
    let appointment = book(&mut db, slot, 100, "fever");
    db.remove_appointment(NOW, appointment, 100).unwrap();

    let rows = ScheduleViewingDao::get_patient_schedules(&db, 100);

    assert!(rows.is_empty());
}

#[test]
fn rows_sharing_a_start_time_follow_creation_time() {
    let mut db = ClinicDb::new();
    let slot = add_slot(&mut db, 7, NOW + 1_000, NOW + 2_000);

    // the second booking carries the earlier creation time, so it must
    // come out first even though it sits later in the table
    let dto_late = AddAppointmentDto {
        slot_id: slot,
        patient_abnormal_symptom: "later".to_string(),
        patient_is_missed_medication: "no".to_string(),
        patient_blood_test_status: "done".to_string(),
        patient_is_overdue_medication: "no".to_string(),
        patient_is_partner_hiv_positive: "no".to_string(),
    };
    let dto_early = AddAppointmentDto {
        slot_id: slot,
        patient_abnormal_symptom: "earlier".to_string(),
        patient_is_missed_medication: "no".to_string(),
        patient_blood_test_status: "done".to_string(),
        patient_is_overdue_medication: "no".to_string(),
        patient_is_partner_hiv_positive: "no".to_string(),
    };
    db.add_appointment(NOW, dto_late.to_entity(100, NOW + 500)).unwrap();
    db.add_appointment(NOW, dto_early.to_entity(100, NOW + 100)).unwrap();

    let rows = ScheduleViewingDao::get_doctor_schedules(&db, 7);

    assert_eq!(rows.len(), 2);
    assert_eq!(rows[0].patient_abnormal_symptom, "earlier");
    assert_eq!(rows[1].patient_abnormal_symptom, "later");
}
