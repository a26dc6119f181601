//! The query executor's decisions: folding the per-row mapping results of
//! a query into one outcome. A single row that fails to map discards the
//! whole result — there is no partial success — and an insert that
//! returned no row is the same not-found outcome a miss is.

use vstd::prelude::*;

use crate::errors::MyError;
use crate::models::User;

verus! {

/// How the fail-fast fold relates the store's per-row mapping results to
/// the one outcome: success carries every mapped record in store order;
/// failure carries the first row's mapping error, as a row-mapping
/// failure, with every earlier row mapped.
pub open spec fn collected_users(
    rows: Seq<Result<User, tokio_pg_mapper::Error>>,
    result: Result<Vec<User>, MyError>,
) -> bool {
    match result {
        Ok(users) => {
            &&& users@.len() == rows.len()
            &&& forall|i: int|
                #![trigger users@[i]]
                #![trigger rows[i]]
                0 <= i < rows.len() ==> rows[i] is Ok && users@[i] == rows[i]->Ok_0
        },
        Err(error) => {
            &&& error is PGMError
            &&& exists|i: int|
                #![trigger rows[i]]
                0 <= i < rows.len() && rows[i] is Err && error->PGMError_0 == rows[i]->Err_0 && (
                forall|j: int| 0 <= j < i ==> rows[j] is Ok)
        },
    }
}

/// Folds the mapping results of all fetched rows: every record in store
/// order if each row mapped, the first mapping failure otherwise.
#[verifier::loop_isolation(false)]
pub fn collect_users(rows: Vec<Result<User, tokio_pg_mapper::Error>>) -> (result: Result<
    Vec<User>,
    MyError,
>)
    ensures
        collected_users(rows@, result),
        result is Ok <==> (forall|i: int| 0 <= i < rows@.len() ==> rows@[i] is Ok),
{
    let ghost all = rows@;
    let mut remaining = rows;
    let mut users: Vec<User> = Vec::new();
    proof {
        assert(all.skip(0) =~= all);
    }
    while remaining.len() > 0
        invariant
            users@.len() + remaining@.len() == all.len(),
            remaining@ == all.skip(users@.len() as int),
            forall|j: int|
                #![trigger users@[j]]
                #![trigger all[j]]
                0 <= j < users@.len() ==> all[j] is Ok && users@[j] == all[j]->Ok_0,
        decreases remaining@.len(),
    {
        let ghost done = users@.len() as int;
        let row = remaining.remove(0);
        let ghost row_value = row;
        proof {
            assert(all.skip(done)[0] == all[done]);
            assert(row_value == all[done]);
            assert(all.skip(done).remove(0) =~= all.skip(done + 1));
        }
        match row {
            Ok(user) => {
                users.push(user);
            },
            Err(error) => {
                proof {
                    assert(row_value is Err && row_value->Err_0 == error);
                    assert(0 <= done < all.len() && all[done] is Err && all[done]->Err_0 == error
                        && (forall|j: int| 0 <= j < done ==> all[j] is Ok));
                    assert(collected_users(all, Err(MyError::PGMError(error))));
                    assert(!(forall|i: int| 0 <= i < all.len() ==> all[i] is Ok));
                }
                return Err(MyError::PGMError(error));
            },
        }
    }
    proof {
        assert(users@.len() == all.len());
    }
    Ok(users)
}

/// Law: one row that fails to map discards the whole query result — the
/// fold never answers a partial list, whatever the other rows held.
pub proof fn lemma_one_bad_row_discards_all(
    rows: Seq<Result<User, tokio_pg_mapper::Error>>,
    result: Result<Vec<User>, MyError>,
)
    requires
        exists|i: int| 0 <= i < rows.len() && #[trigger] rows[i] is Err,
        collected_users(rows, result),
    ensures
        result is Err,
        result matches Err(error) && error is PGMError,
{
}

/// What an insert's mapped row set means: the store echoing no row back
/// is the not-found outcome; otherwise the single (last) returned record
/// is the created one.
pub open spec fn add_user_outcome_spec(rows: Seq<User>) -> Result<User, MyError> {
    if rows.len() == 0 {
        Err(MyError::NotFound)
    } else {
        Ok(rows.last())
    }
}

/// The insert outcome from the rows the insert statement returned.
pub fn add_user_outcome(rows: Vec<User>) -> (result: Result<User, MyError>)
    ensures
        result == add_user_outcome_spec(rows@),
{
    let mut rows = rows;
    match rows.pop() {
        Some(user) => Ok(user),
        None => Err(MyError::NotFound),
    }
}

} // verus!
