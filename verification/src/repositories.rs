use vstd::prelude::*;

use std::sync::Arc;

use diesel_async::pooled_connection::AsyncDieselConnectionManager;
use diesel_async::AsyncPgConnection;

verus! {

/// The pooled connection handle the whole service shares: bb8's `Pool`
/// over diesel-async's Postgres connection manager. Verus refuses the
/// pool's own generic declaration (its type parameter is bound by an
/// outside trait), so the handle is held opaquely: the repositories only
/// keep and hand it on, and the service's request handlers draw
/// connections from it.
#[verifier::external_body]
pub struct PgPoolSquad {
    pub pool: bb8::Pool<AsyncDieselConnectionManager<AsyncPgConnection>>,
}

/// The store-backed appointment ledger: holds the pool its transactions
/// draw connections from.
pub struct AppointmentLedgerPostgres {
    pub db_pool: Arc<PgPoolSquad>,
}

impl AppointmentLedgerPostgres {
    pub fn new(db_pool: Arc<PgPoolSquad>) -> (r: Self)
        ensures
            r.db_pool == db_pool,
    {
        Self { db_pool }
    }
}

/// The store-backed appointment operations repository.
pub struct AppointmentOpsPostgres {
    pub db_pool: Arc<PgPoolSquad>,
}

impl AppointmentOpsPostgres {
    pub fn new(db_pool: Arc<PgPoolSquad>) -> (r: Self)
        ensures
            r.db_pool == db_pool,
    {
        Self { db_pool }
    }
}

/// The store-backed schedule viewing repository.
pub struct ScheduleViewingPostgres {
    pub db_pool: Arc<PgPoolSquad>,
}

impl ScheduleViewingPostgres {
    pub fn new(db_pool: Arc<PgPoolSquad>) -> (r: Self)
        ensures
            r.db_pool == db_pool,
    {
        Self { db_pool }
    }
}

/// The store-backed slot operations repository.
pub struct SlotOpsPostgres {
    pub db_pool: Arc<PgPoolSquad>,
}

impl SlotOpsPostgres {
    pub fn new(db_pool: Arc<PgPoolSquad>) -> (r: Self)
        ensures
            r.db_pool == db_pool,
    {
        Self { db_pool }
    }
}

/// The store-backed slot viewing repository.
pub struct SlotViewingPostgres {
    pub db_pool: Arc<PgPoolSquad>,
}

impl SlotViewingPostgres {
    pub fn new(db_pool: Arc<PgPoolSquad>) -> (r: Self)
        ensures
            r.db_pool == db_pool,
    {
        Self { db_pool }
    }
}

} // verus!
