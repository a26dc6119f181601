use users_api::models::{Filter, User};
use users_api::statement::{
    build_add_user_statement, build_delete_user_statement, build_get_users_statement, replace_all,
    username_condition,
};

#[test]
fn replace_all_replaces_every_occurrence() {
    assert_eq!(replace_all("aaa", "a", "b"), "bbb");
    assert_eq!(replace_all("abcabc", "bc", "x"), "axax");
}

#[test]
fn replace_all_scans_left_to_right_without_overlap() {
    assert_eq!(replace_all("aaaa", "aa", "b"), "bb");
    assert_eq!(replace_all("aaa", "aa", "b"), "ba");
}

#[test]
fn replace_all_never_rescans_replaced_text() {
    assert_eq!(replace_all("ab", "ab", "abab"), "abab");
}

#[test]
fn replace_all_with_empty_pattern_changes_nothing() {
    assert_eq!(replace_all("abc", "", "x"), "abc");
}

#[test]
fn replace_all_without_occurrence_changes_nothing() {
    assert_eq!(replace_all("abc", "zz", "x"), "abc");
    assert_eq!(replace_all("", "zz", "x"), "");
}

#[test]
fn table_fields_lists_the_columns_in_binding_order() {
    assert_eq!(
        User::sql_table_fields(),
        "users.email, users.first_name, users.last_name, users.username"
    );
}

#[test]
fn add_user_statement_substitutes_the_column_list() {
    assert_eq!(
        build_add_user_statement(),
        "INSERT INTO users(email, first_name, last_name, username) VALUES ($1, $2, $3, $4) \
         RETURNING users.email, users.first_name, users.last_name, users.username"
    );
}

#[test]
fn get_users_statement_without_filter_has_no_where_clause() {
    assert_eq!(
        build_get_users_statement(None),
        "SELECT users.email, users.first_name, users.last_name, users.username FROM users "
    );
}

#[test]
fn get_users_statement_splices_the_condition_verbatim() {
    let filter = Filter { condition: String::from("username = 'alice'") };
    assert_eq!(
        build_get_users_statement(Some(&filter)),
        "SELECT users.email, users.first_name, users.last_name, users.username FROM users \
         WHERE username = 'alice'"
    );
}

#[test]
fn delete_user_statement_binds_the_key_as_a_parameter() {
    assert_eq!(build_delete_user_statement(), "DELETE FROM users WHERE username = $1");
}

#[test]
fn username_condition_interpolates_the_key() {
    let filter = username_condition("alice");
    assert_eq!(filter.condition, "users.username = 'alice'");
}

#[test]
fn insert_values_bind_in_the_fixed_order() {
    let user = User {
        email: String::from("alice@example.com"),
        first_name: String::from("Alice"),
        last_name: String::from("Archer"),
        username: String::from("alice"),
    };
    let values = user.insert_values();
    assert_eq!(
        values,
        vec![
            String::from("alice@example.com"),
            String::from("Alice"),
            String::from("Archer"),
            String::from("alice"),
        ]
    );
}
