use users_api::db::{add_user_outcome, collect_users};
use users_api::errors::MyError;
use users_api::handlers::{
    add_user, delete_user, get_user, get_users, not_found, ping, pool_error_reply, redirect,
    HttpReply, ReplyBody,
};
use users_api::models::User;

fn sample_user(name: &str) -> User {
    User {
        email: format!("{}@example.com", name),
        first_name: String::from("Sample"),
        last_name: String::from("Person"),
        username: String::from(name),
    }
}

fn message_of(reply: &HttpReply) -> &str {
    match &reply.body {
        ReplyBody::Note(note) => note.message.as_str(),
        _ => panic!("expected a message body"),
    }
}

#[test]
fn ping_answers_pong_with_200() {
    let reply = ping();
    assert_eq!(reply.status, 200);
    assert!(reply.headers.is_empty());
    assert_eq!(message_of(&reply), "pong");
}

#[test]
fn redirect_answers_302_with_location() {
    let reply = redirect();
    assert_eq!(reply.status, 302);
    assert_eq!(
        reply.headers,
        vec![
            (String::from("content-type"), String::from("text/html")),
            (String::from("location"), String::from("https://google.com")),
        ]
    );
    assert!(matches!(reply.body, ReplyBody::Empty));
}

#[test]
fn unmatched_route_answers_404_not_found() {
    let reply = not_found();
    assert_eq!(reply.status, 404);
    assert_eq!(message_of(&reply), "not found");
}

#[test]
fn created_record_is_echoed_back_with_200() {
    let reply = add_user(Ok(sample_user("alice")));
    assert_eq!(reply.status, 200);
    match reply.body {
        ReplyBody::Record(user) => assert_eq!(user.username, "alice"),
        _ => panic!("expected the created record"),
    }
}

#[test]
fn every_create_failure_collapses_to_409() {
    let reply = add_user(Err(MyError::NotFound));
    assert_eq!(reply.status, 409);
    assert_eq!(message_of(&reply), "can't create record");

    let mapping_error = MyError::PGMError(tokio_pg_mapper::Error::ColumnNotFound);
    let reply = add_user(Err(mapping_error));
    assert_eq!(reply.status, 409);
    assert_eq!(message_of(&reply), "can't create record");
}

#[test]
fn duplicate_key_failure_is_a_conflict_not_a_server_error() {
    let pool_error: deadpool_postgres::PoolError =
        deadpool::managed::PoolError::Timeout(deadpool::managed::TimeoutType::Wait);
    let reply = add_user(Err(MyError::PoolError(pool_error)));
    assert_eq!(reply.status, 409);
    assert_ne!(reply.status, 500);
    assert_eq!(message_of(&reply), "can't create record");
}

#[test]
fn listing_hands_back_every_record() {
    let reply = get_users(Ok(vec![sample_user("alice"), sample_user("bob")]));
    assert_eq!(reply.status, 200);
    match reply.body {
        ReplyBody::Records(users) => {
            assert_eq!(users.len(), 2);
            assert_eq!(users[0].username, "alice");
            assert_eq!(users[1].username, "bob");
        },
        _ => panic!("expected the record list"),
    }
}

#[test]
fn listing_nothing_is_a_success() {
    let reply = get_users(Ok(Vec::new()));
    assert_eq!(reply.status, 200);
    match reply.body {
        ReplyBody::Records(users) => assert!(users.is_empty()),
        _ => panic!("expected an empty record list"),
    }
}

#[test]
fn fetching_an_existing_username_answers_the_first_match() {
    let reply = get_user(Ok(vec![sample_user("alice"), sample_user("alice")]));
    assert_eq!(reply.status, 200);
    match reply.body {
        ReplyBody::Record(user) => assert_eq!(user.username, "alice"),
        _ => panic!("expected the matched record"),
    }
}

#[test]
fn fetching_a_missing_username_answers_404() {
    let reply = get_user(Ok(Vec::new()));
    assert_eq!(reply.status, 404);
    assert_eq!(message_of(&reply), "record not found");
}

#[test]
fn deleting_a_missing_username_answers_404() {
    let reply = delete_user(Ok(Vec::new()), None);
    assert_eq!(reply.status, 404);
    assert_eq!(message_of(&reply), "record not found");
}

#[test]
fn deleting_an_existing_username_answers_200_empty() {
    let reply = delete_user(Ok(vec![sample_user("alice")]), Some(Ok(())));
    assert_eq!(reply.status, 200);
    assert!(matches!(reply.body, ReplyBody::Empty));
}

#[test]
fn a_miss_classifies_as_404_with_no_body() {
    let reply = MyError::NotFound.error_response();
    assert_eq!(reply.status, 404);
    assert!(matches!(reply.body, ReplyBody::Empty));
}

#[test]
fn a_pool_failure_classifies_as_500_and_exposes_its_text() {
    let pool_error: deadpool_postgres::PoolError =
        deadpool::managed::PoolError::Timeout(deadpool::managed::TimeoutType::Wait);
    let expected = pool_error.to_string();
    let reply = MyError::PoolError(pool_error).error_response();
    assert_eq!(reply.status, 500);
    match reply.body {
        ReplyBody::Text(text) => {
            assert_eq!(text, expected);
            assert_eq!(text, "Timeout occurred while waiting for a slot to become available");
        },
        _ => panic!("expected the pool diagnostic text"),
    }
}

#[test]
fn a_row_mapping_failure_classifies_as_500_with_no_detail() {
    let reply = MyError::PGMError(tokio_pg_mapper::Error::ColumnNotFound).error_response();
    assert_eq!(reply.status, 500);
    assert!(matches!(reply.body, ReplyBody::Empty));
}

#[test]
fn pool_error_reply_carries_the_text_unchanged() {
    let reply = pool_error_reply(String::from("pool is dry"));
    assert_eq!(reply.status, 500);
    match reply.body {
        ReplyBody::Text(text) => assert_eq!(text, "pool is dry"),
        _ => panic!("expected the diagnostic text"),
    }
}

#[test]
fn create_then_fetch_returns_the_same_record() {
    let submitted = sample_user("alice");
    let echoed = vec![sample_user("alice")];
    let outcome = add_user_outcome(echoed);
    let create_reply = add_user(outcome);
    assert_eq!(create_reply.status, 200);
    match create_reply.body {
        ReplyBody::Record(created) => {
            assert_eq!(created.email, submitted.email);
            assert_eq!(created.first_name, submitted.first_name);
            assert_eq!(created.last_name, submitted.last_name);
            assert_eq!(created.username, submitted.username);
        },
        _ => panic!("expected the created record"),
    }
    let fetch_reply = get_user(Ok(vec![sample_user("alice")]));
    assert_eq!(fetch_reply.status, 200);
    match fetch_reply.body {
        ReplyBody::Record(fetched) => {
            assert_eq!(fetched.email, submitted.email);
            assert_eq!(fetched.username, submitted.username);
        },
        _ => panic!("expected the fetched record"),
    }
}

#[test]
fn insert_returning_no_row_becomes_not_found_then_conflict() {
    let outcome = add_user_outcome(Vec::new());
    assert!(matches!(outcome, Err(MyError::NotFound)));
    let reply = add_user(outcome);
    assert_eq!(reply.status, 409);
    assert_eq!(message_of(&reply), "can't create record");
}

#[test]
fn insert_outcome_takes_the_last_returned_row() {
    let outcome = add_user_outcome(vec![sample_user("alice"), sample_user("bob")]);
    match outcome {
        Ok(user) => assert_eq!(user.username, "bob"),
        Err(_) => panic!("expected the last row"),
    }
}

#[test]
fn collecting_mapped_rows_keeps_count_and_order() {
    let rows = vec![Ok(sample_user("alice")), Ok(sample_user("bob"))];
    let collected = collect_users(rows);
    match collected {
        Ok(users) => {
            assert_eq!(users.len(), 2);
            assert_eq!(users[0].username, "alice");
            assert_eq!(users[1].username, "bob");
        },
        Err(_) => panic!("expected every row mapped"),
    }
}

#[test]
fn one_unmappable_row_discards_the_whole_result() {
    let rows = vec![Ok(sample_user("alice")), Err(tokio_pg_mapper::Error::ColumnNotFound)];
    let collected = collect_users(rows);
    match collected {
        Err(MyError::PGMError(tokio_pg_mapper::Error::ColumnNotFound)) => {},
        _ => panic!("expected the mapping failure to win"),
    }
    let reply = get_users(collect_users(vec![
        Ok(sample_user("alice")),
        Err(tokio_pg_mapper::Error::ColumnNotFound),
    ]));
    assert_eq!(reply.status, 500);
    assert!(matches!(reply.body, ReplyBody::Empty));
}
