//! The error classifier's taxonomy: the four failure kinds the library
//! distinguishes, each low-level failure carried unchanged inside its
//! variant. Only the handler layer (`handlers`) turns a kind into a
//! transport status and body.

use vstd::prelude::*;

verus! {

/// Declares the driver's opaque error type so a variant can carry it.
#[verifier::external_type_specification]
#[verifier::external_body]
pub struct ExPgError(tokio_postgres::Error);

/// Declares the row mapper's opaque error type so a variant can carry it.
#[verifier::external_type_specification]
#[verifier::external_body]
pub struct ExMapperError(tokio_pg_mapper::Error);

/// Declares the pool's opaque error type so a variant can carry it.
#[verifier::external_type_specification]
#[verifier::external_body]
#[verifier::reject_recursive_types(E)]
pub struct ExPoolError<E>(deadpool::managed::PoolError<E>);

/// The closed failure taxonomy. `NotFound` doubles for a select that
/// matched nothing and an insert that returned no row; the other three
/// carry the driver, row-mapping and pool failures unchanged.
pub enum MyError {
    NotFound,
    PGError(tokio_postgres::Error),
    PGMError(tokio_pg_mapper::Error),
    PoolError(deadpool_postgres::PoolError),
}

impl From<tokio_postgres::Error> for MyError {
    fn from(error: tokio_postgres::Error) -> (result: MyError) {
        MyError::PGError(error)
    }
}

impl vstd::std_specs::convert::FromSpecImpl<tokio_postgres::Error> for MyError {
    open spec fn obeys_from_spec() -> bool {
        true
    }

    open spec fn from_spec(error: tokio_postgres::Error) -> MyError {
        MyError::PGError(error)
    }
}

impl From<tokio_pg_mapper::Error> for MyError {
    fn from(error: tokio_pg_mapper::Error) -> (result: MyError) {
        MyError::PGMError(error)
    }
}

impl vstd::std_specs::convert::FromSpecImpl<tokio_pg_mapper::Error> for MyError {
    open spec fn obeys_from_spec() -> bool {
        true
    }

    open spec fn from_spec(error: tokio_pg_mapper::Error) -> MyError {
        MyError::PGMError(error)
    }
}

impl From<deadpool_postgres::PoolError> for MyError {
    fn from(error: deadpool_postgres::PoolError) -> (result: MyError) {
        MyError::PoolError(error)
    }
}

impl vstd::std_specs::convert::FromSpecImpl<deadpool_postgres::PoolError> for MyError {
    open spec fn obeys_from_spec() -> bool {
        true
    }

    open spec fn from_spec(error: deadpool_postgres::PoolError) -> MyError {
        MyError::PoolError(error)
    }
}

/// Relies on `Display` for `deadpool::managed::PoolError`: the pool's
/// diagnostic message, rendered for the one error kind whose text the
/// classifier exposes in a response body.
#[verifier::external_body]
pub(crate) fn pool_error_text(error: &deadpool_postgres::PoolError) -> String {
    error.to_string()
}

} // verus!
