//! Core of a clinic appointment booking service.
//!
//! Providers offer time-bounded, capacity-limited slots; patients book
//! appointments against them. The state of the system lives in a
//! transactional relational store; [`db::ClinicDb`] models that store as two
//! tables of plain rows, and every read or write the service performs against
//! it is a verified operation on that model. The booking orchestrators and
//! the status ledger run one such operation per transaction; because the
//! store serializes transactions through row locks, the sequential model
//! captures exactly the states a conforming store can reach.

pub mod api_response;
pub mod appointment_ledger;
pub mod appointment_ledger_dao;
pub mod appointment_model;
pub mod appointment_ops;
pub mod appointment_ops_dao;
pub mod appointment_viewing_dao;
pub mod appointments;
pub mod db;
pub mod errors;
pub mod repositories;
pub mod schedule_model;
pub mod schedule_view;
pub mod schedule_viewing_dao;
pub mod slot_model;
pub mod slot_ops;
pub mod slot_ops_dao;
pub mod slot_viewing_dao;
pub mod slots;
pub mod status;
pub mod time;
pub mod usecases;
