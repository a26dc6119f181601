//! The record model: the user record the store persists, the optional
//! list filter, and the message envelope used for fixed response bodies.

use vstd::prelude::*;
use vstd::string::StringExecFns;

verus! {

/// A user record, the one resource this library manages. All four fields
/// are required; `username` is the natural key the read and delete
/// operations address a record by.
pub struct User {
    pub email: String,
    pub first_name: String,
    pub last_name: String,
    pub username: String,
}

/// The specification-level value of a `User`: its fields as character
/// sequences.
pub struct UserView {
    pub email: Seq<char>,
    pub first_name: Seq<char>,
    pub last_name: Seq<char>,
    pub username: Seq<char>,
}

impl View for User {
    type V = UserView;

    open spec fn view(&self) -> UserView {
        UserView {
            email: self.email@,
            first_name: self.first_name@,
            last_name: self.last_name@,
            username: self.username@,
        }
    }
}

/// A free-form predicate fragment a caller may supply to narrow the list
/// query. The fragment is spliced into the statement text verbatim; see
/// `statement` for the exact splice and the trust this places in the
/// caller.
pub struct Filter {
    pub condition: String,
}

/// The specification-level value of a `Filter`.
pub struct FilterView {
    pub condition: Seq<char>,
}

impl View for Filter {
    type V = FilterView;

    open spec fn view(&self) -> FilterView {
        FilterView { condition: self.condition@ }
    }
}

/// A `{message: ...}` envelope, used for the health-check body and for
/// fixed error bodies.
pub struct Message {
    pub message: String,
}

/// The specification-level value of a `Message`.
pub struct MessageView {
    pub message: Seq<char>,
}

impl View for Message {
    type V = MessageView;

    open spec fn view(&self) -> MessageView {
        MessageView { message: self.message@ }
    }
}

/// The ordered, table-qualified column list of the user record. The order
/// is significant: it is the order the insert statement binds values in.
pub open spec fn table_fields() -> Seq<char> {
    "users.email, users.first_name, users.last_name, users.username"@
}

impl User {
    /// The column list as statement text, derived from the record shape
    /// once, here, so no query hand-maintains its own copy.
    pub fn sql_table_fields() -> (fields: String)
        ensures
            fields@ == table_fields(),
    {
        String::from_str("users.email, users.first_name, users.last_name, users.username")
    }

    /// The record's field values in the fixed positional order the insert
    /// statement binds them: email, first name, last name, username.
    pub fn insert_values(self) -> (values: Vec<String>)
        ensures
            values@.len() == 4,
            values@[0]@ == self.email@,
            values@[1]@ == self.first_name@,
            values@[2]@ == self.last_name@,
            values@[3]@ == self.username@,
    {
        let mut values: Vec<String> = Vec::new();
        values.push(self.email);
        values.push(self.first_name);
        values.push(self.last_name);
        values.push(self.username);
        values
    }
}

} // verus!
