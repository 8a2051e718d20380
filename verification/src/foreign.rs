//! Error types of outside crates that the library's own errors carry.

use vstd::prelude::*;

verus! {

/// `sqlx::Error`, carried as an opaque value.
#[verifier::external_type_specification]
#[verifier::external_body]
pub struct ExSqlxError(sqlx::Error);

/// `redis::RedisError`, carried as an opaque value.
#[verifier::external_type_specification]
#[verifier::external_body]
pub struct ExRedisError(redis::RedisError);

/// `redis::Client`, carried as an opaque value.
#[verifier::external_type_specification]
#[verifier::external_body]
pub struct ExRedisClient(redis::Client);

/// `serde_json::Error`, carried as an opaque value.
#[verifier::external_type_specification]
#[verifier::external_body]
pub struct ExSerdeJsonError(serde_json::Error);

/// `tokio_cron_scheduler::JobSchedulerError`, carried as an opaque value.
#[verifier::external_type_specification]
#[verifier::external_body]
pub struct ExJobSchedulerError(tokio_cron_scheduler::JobSchedulerError);

} // verus!
