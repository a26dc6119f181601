//! The handler decisions: what status, headers and body each operation
//! answers with, for every outcome the pool, the driver and the row
//! mapping can produce. The surrounding process only serializes what
//! these functions decide.

use vstd::prelude::*;
use vstd::string::StringExecFns;

use crate::db::{add_user_outcome_spec, collected_users};
use crate::errors::{pool_error_text, MyError};
use crate::models::{Message, User};

verus! {

/// What a reply's body holds; the process around the library renders it
/// (records and messages as JSON, text as it stands).
pub enum ReplyBody {
    Empty,
    Note(Message),
    Record(User),
    Records(Vec<User>),
    Text(String),
}

/// One decided HTTP answer: a status code, explicitly appended headers,
/// and a body.
pub struct HttpReply {
    pub status: u16,
    pub headers: Vec<(String, String)>,
    pub body: ReplyBody,
}

/// Whether `reply` carries the fixed message `text` as its body.
pub open spec fn message_body(reply: HttpReply, text: Seq<char>) -> bool {
    reply.body matches ReplyBody::Note(m) && m.message@ == text
}

/// How the error classifier maps a failure kind to a transport outcome:
/// a miss is 404 with nothing to add; a pool failure is 500 and is the
/// one kind whose diagnostic text is exposed; driver and row-mapping
/// failures are 500 with no detail leaked.
pub open spec fn classifies(error: MyError, reply: HttpReply) -> bool {
    &&& reply.headers@.len() == 0
    &&& (error is NotFound ==> reply.status == 404 && reply.body is Empty)
    &&& (error is PoolError ==> reply.status == 500 && reply.body is Text)
    &&& (error is PGError || error is PGMError ==> reply.status == 500 && reply.body is Empty)
}

/// The 500 reply that exposes the pool's diagnostic text, exactly as
/// handed in.
pub fn pool_error_reply(text: String) -> (reply: HttpReply)
    ensures
        reply.status == 500,
        reply.headers@.len() == 0,
        reply.body == ReplyBody::Text(text),
{
    HttpReply { status: 500, headers: Vec::new(), body: ReplyBody::Text(text) }
}

impl MyError {
    /// The transport outcome of this failure kind.
    pub fn error_response(&self) -> (reply: HttpReply)
        ensures
            classifies(*self, reply),
    {
        match self {
            MyError::NotFound => HttpReply {
                status: 404,
                headers: Vec::new(),
                body: ReplyBody::Empty,
            },
            MyError::PoolError(error) => pool_error_reply(pool_error_text(error)),
            MyError::PGError(_) => HttpReply {
                status: 500,
                headers: Vec::new(),
                body: ReplyBody::Empty,
            },
            MyError::PGMError(_) => HttpReply {
                status: 500,
                headers: Vec::new(),
                body: ReplyBody::Empty,
            },
        }
    }
}

/// Whether `reply` is the health-check answer: 200 and the pong body,
/// decided from nothing — no store state is consulted.
pub open spec fn pong_reply(reply: HttpReply) -> bool {
    &&& reply.status == 200
    &&& reply.headers@.len() == 0
    &&& message_body(reply, "pong"@)
}

/// The health check; it takes no input at all, so no state of the store
/// or the pool can change its answer.
pub fn ping() -> (reply: HttpReply)
    ensures
        pong_reply(reply),
{
    HttpReply {
        status: 200,
        headers: Vec::new(),
        body: ReplyBody::Note(Message { message: String::from_str("pong") }),
    }
}

/// The fixed redirect: found status, an HTML content type, and the fixed
/// target in the location header.
pub fn redirect() -> (reply: HttpReply)
    ensures
        reply.status == 302,
        reply.headers@.len() == 2,
        reply.headers@[0].0@ == "content-type"@,
        reply.headers@[0].1@ == "text/html"@,
        reply.headers@[1].0@ == "location"@,
        reply.headers@[1].1@ == "https://google.com"@,
        reply.body is Empty,
{
    let mut headers: Vec<(String, String)> = Vec::new();
    headers.push((String::from_str("content-type"), String::from_str("text/html")));
    headers.push((String::from_str("location"), String::from_str("https://google.com")));
    HttpReply { status: 302, headers, body: ReplyBody::Empty }
}

/// The catch-all for unmatched routes: 404 with the fixed body.
pub fn not_found() -> (reply: HttpReply)
    ensures
        reply.status == 404,
        reply.headers@.len() == 0,
        message_body(reply, "not found"@),
{
    HttpReply {
        status: 404,
        headers: Vec::new(),
        body: ReplyBody::Note(Message { message: String::from_str("not found") }),
    }
}

/// The 404 a keyed operation answers when no record carries the key.
fn record_not_found_reply() -> (reply: HttpReply)
    ensures
        reply.status == 404,
        reply.headers@.len() == 0,
        message_body(reply, "record not found"@),
{
    HttpReply {
        status: 404,
        headers: Vec::new(),
        body: ReplyBody::Note(Message { message: String::from_str("record not found") }),
    }
}

/// How the create operation answers: the created record on success, and
/// one collapsed conflict reply — fixed status, fixed body — for every
/// failure kind, whatever the underlying cause was.
pub open spec fn created_reply(outcome: Result<User, MyError>, reply: HttpReply) -> bool {
    &&& reply.headers@.len() == 0
    &&& match outcome {
        Ok(user) => reply.status == 200 && reply.body == ReplyBody::Record(user),
        Err(_) => reply.status == 409 && message_body(reply, "can't create record"@),
    }
}

/// The create answer for an insert outcome.
pub fn add_user(outcome: Result<User, MyError>) -> (reply: HttpReply)
    ensures
        created_reply(outcome, reply),
{
    match outcome {
        Ok(user) => HttpReply { status: 200, headers: Vec::new(), body: ReplyBody::Record(user) },
        Err(_) => HttpReply {
            status: 409,
            headers: Vec::new(),
            body: ReplyBody::Note(Message { message: String::from_str("can't create record") }),
        },
    }
}

/// How the list operation answers: 200 with every fetched record — an
/// empty list is a valid success, not an error — and the classifier's
/// outcome for every failure.
pub open spec fn listed_reply(outcome: Result<Vec<User>, MyError>, reply: HttpReply) -> bool {
    match outcome {
        Ok(users) => reply.status == 200 && reply.headers@.len() == 0 && reply.body
            == ReplyBody::Records(users),
        Err(error) => classifies(error, reply),
    }
}

/// The list answer for a query outcome.
pub fn get_users(outcome: Result<Vec<User>, MyError>) -> (reply: HttpReply)
    ensures
        listed_reply(outcome, reply),
{
    match outcome {
        Ok(users) => HttpReply {
            status: 200,
            headers: Vec::new(),
            body: ReplyBody::Records(users),
        },
        Err(error) => error.error_response(),
    }
}

/// How the keyed read answers: 404 with the fixed body when the lookup
/// matched nothing, 200 with the first matched record otherwise — a
/// store holding several records under one username answers with the
/// first, without an error — and the classifier's outcome for failures.
pub open spec fn fetched_reply(outcome: Result<Vec<User>, MyError>, reply: HttpReply) -> bool {
    match outcome {
        Ok(users) => if users@.len() == 0 {
            reply.status == 404 && reply.headers@.len() == 0 && message_body(
                reply,
                "record not found"@,
            )
        } else {
            reply.status == 200 && reply.headers@.len() == 0 && reply.body == ReplyBody::Record(
                users@[0],
            )
        },
        Err(error) => classifies(error, reply),
    }
}

/// The keyed-read answer for a lookup outcome.
pub fn get_user(outcome: Result<Vec<User>, MyError>) -> (reply: HttpReply)
    ensures
        fetched_reply(outcome, reply),
{
    match outcome {
        Ok(users) => {
            let mut users = users;
            if users.len() > 0 {
                let first = users.remove(0);
                HttpReply { status: 200, headers: Vec::new(), body: ReplyBody::Record(first) }
            } else {
                record_not_found_reply()
            }
        },
        Err(error) => error.error_response(),
    }
}

/// How the delete answers: existence is checked first, so a missing key
/// is 404 with the fixed body and no delete outcome is ever produced for
/// it; for an existing key the delete's own outcome decides — 200 with
/// an empty body, or the classifier's outcome.
pub open spec fn deleted_reply(
    lookup: Result<Vec<User>, MyError>,
    outcome: Option<Result<(), MyError>>,
    reply: HttpReply,
) -> bool {
    match lookup {
        Ok(users) => if users@.len() == 0 {
            reply.status == 404 && reply.headers@.len() == 0 && message_body(
                reply,
                "record not found"@,
            )
        } else {
            match outcome {
                Some(Ok(_)) => reply.status == 200 && reply.headers@.len() == 0 && reply.body
                    is Empty,
                Some(Err(error)) => classifies(error, reply),
                None => true,
            }
        },
        Err(error) => classifies(error, reply),
    }
}

/// The delete answer, from the existence lookup's outcome and — only
/// when the lookup matched — the delete statement's own outcome.
pub fn delete_user(lookup: Result<Vec<User>, MyError>, outcome: Option<Result<(), MyError>>) -> (reply:
    HttpReply)
    requires
        match lookup {
            Ok(users) => users@.len() > 0 ==> outcome is Some,
            Err(_) => true,
        },
    ensures
        deleted_reply(lookup, outcome, reply),
{
    match lookup {
        Ok(users) => {
            if users.len() > 0 {
                match outcome {
                    Some(Ok(_)) => HttpReply {
                        status: 200,
                        headers: Vec::new(),
                        body: ReplyBody::Empty,
                    },
                    Some(Err(error)) => error.error_response(),
                    // ruled out by the precondition: a matched lookup
                    // always comes with a delete outcome
                    None => {
                        proof {
                            assert(false);
                        }
                        HttpReply { status: 500, headers: Vec::new(), body: ReplyBody::Empty }
                    },
                }
            } else {
                record_not_found_reply()
            }
        },
        Err(error) => error.error_response(),
    }
}

/// Law: a record the store echoes back from the insert and then returns
/// for the keyed lookup reaches both callers unchanged — the create
/// answer and the later read answer carry the very record, field for
/// field.
pub proof fn lemma_create_then_get_round_trip(
    user: User,
    create_reply: HttpReply,
    lookup: Vec<User>,
    get_reply: HttpReply,
)
    requires
        created_reply(add_user_outcome_spec(seq![user]), create_reply),
        lookup@.len() > 0,
        lookup@[0] == user,
        fetched_reply(Ok(lookup), get_reply),
    ensures
        create_reply.status == 200,
        create_reply.body == ReplyBody::Record(user),
        get_reply.status == 200,
        get_reply.body == ReplyBody::Record(user),
{
    assert(seq![user].last() == user);
}

/// Law: a list pass over rows that all mapped answers 200 and hands back
/// exactly the store's rows — same count, same order, no omission, no
/// duplication.
pub proof fn lemma_list_returns_store_rows(
    rows: Seq<Result<User, tokio_pg_mapper::Error>>,
    outcome: Result<Vec<User>, MyError>,
    reply: HttpReply,
)
    requires
        forall|i: int| 0 <= i < rows.len() ==> rows[i] is Ok,
        collected_users(rows, outcome),
        listed_reply(outcome, reply),
    ensures
        reply.status == 200,
        reply.body matches ReplyBody::Records(users) && users@.len() == rows.len() && (forall|
            i: int,
        | 0 <= i < rows.len() ==> users@[i] == rows[i]->Ok_0),
{
}

/// Law: every create failure collapses to the one conflict answer — 409
/// with the fixed body — never a server error, whatever the kind was.
pub proof fn lemma_create_failure_collapsed(error: MyError, reply: HttpReply)
    requires
        created_reply(Err(error), reply),
    ensures
        reply.status == 409,
        message_body(reply, "can't create record"@),
{
}

/// Law: a keyed read whose lookup succeeded but matched nothing answers
/// 404 with the fixed body — never a driver error.
pub proof fn lemma_get_missing_is_not_found(users: Vec<User>, reply: HttpReply)
    requires
        users@.len() == 0,
        fetched_reply(Ok(users), reply),
    ensures
        reply.status == 404,
        message_body(reply, "record not found"@),
{
}

/// Law: deleting a missing username answers 404 with the fixed body; no
/// delete outcome exists for it, so nothing was asked of the store.
pub proof fn lemma_delete_missing_is_not_found(
    users: Vec<User>,
    outcome: Option<Result<(), MyError>>,
    reply: HttpReply,
)
    requires
        users@.len() == 0,
        deleted_reply(Ok(users), outcome, reply),
    ensures
        reply.status == 404,
        message_body(reply, "record not found"@),
{
}

/// Law: deleting an existing username whose delete statement succeeded
/// answers 200 with an empty body.
pub proof fn lemma_delete_found_succeeds(users: Vec<User>, reply: HttpReply)
    requires
        users@.len() > 0,
        deleted_reply(Ok(users), Some(Ok(())), reply),
    ensures
        reply.status == 200,
        reply.body is Empty,
{
}

/// Law: the health check always answers 200 with the pong body; it is a
/// function of nothing, so no store or pool condition can change it.
pub proof fn lemma_ping_always_ok(reply: HttpReply)
    requires
        pong_reply(reply),
    ensures
        reply.status == 200,
        message_body(reply, "pong"@),
{
}

} // verus!
