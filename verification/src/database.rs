//! How the database layer's refusals are reported: a unique constraint that
//! a new user breaks is a conflict, anything else is a database error.

use vstd::prelude::*;
use vstd::string::StringExecFns;

use crate::error::{PipelineError, PipelineErrorView};
use crate::models::username::Username;
use crate::text::text_eq;

verus! {

/// Unique constraint on user names.
pub const USERS_USERNAME_KEY: &'static str = "users_username_key";

/// Unique constraint on identity keys.
pub const USERS_IK_PUB_KEY: &'static str = "users_ik_pub_key";

/// Unique constraint on Ed25519 identity keys.
pub const USERS_IK_PUB_ED_KEY: &'static str = "users_ik_pub_ed_key";

/// Unique constraint on e-mail addresses.
pub const USERS_EMAIL_KEY: &'static str = "users_email_key";

/// `constraint` names the constraint `name`.
pub open spec fn names(constraint: Option<&str>, name: &str) -> bool {
    constraint matches Some(c) && c@ == name@
}

/// Conflict text for a taken user name.
pub open spec fn username_taken_text(username: Seq<char>) -> Seq<char> {
    "username '"@ + username + "' is already taken"@
}

/// How storing a user (with its keys) fails: by the constraint broken, if any.
pub open spec fn user_insert_error_view(
    constraint: Option<&str>,
    username: Seq<char>,
    db_message: Seq<char>,
) -> PipelineErrorView {
    if names(constraint, USERS_USERNAME_KEY) {
        PipelineErrorView::Conflict(username_taken_text(username))
    } else if names(constraint, USERS_IK_PUB_KEY) {
        PipelineErrorView::Conflict("duplicate identity key"@)
    } else if names(constraint, USERS_IK_PUB_ED_KEY) {
        PipelineErrorView::Conflict("duplicate identity key signature"@)
    } else {
        PipelineErrorView::Database(db_message)
    }
}

/// How storing a user by name and address fails: by the constraint broken, if any.
pub open spec fn account_insert_error_view(
    constraint: Option<&str>,
    username: Seq<char>,
    db_message: Seq<char>,
) -> PipelineErrorView {
    if names(constraint, USERS_USERNAME_KEY) {
        PipelineErrorView::Conflict(username_taken_text(username))
    } else if names(constraint, USERS_EMAIL_KEY) {
        PipelineErrorView::Conflict("that email address is already registered"@)
    } else {
        PipelineErrorView::Database(db_message)
    }
}

fn names_exec(constraint: Option<&str>, name: &str) -> (r: bool)
    ensures
        r == names(constraint, name),
{
    match constraint {
        Some(c) => text_eq(c, name),
        None => false,
    }
}

fn username_taken(username: &Username) -> (r: String)
    ensures
        r@ == username_taken_text(username@),
{
    let mut r = String::from_str("username '");
    r.append(username.as_str());
    r.append("' is already taken");
    r
}

/// The error for a failed insert of a user with its keys; `constraint` is the
/// unique constraint the database reports as broken, `db_message` the
/// database's own description.
pub fn user_insert_error(constraint: Option<&str>, username: &Username, db_message: String) -> (r:
    PipelineError)
    ensures
        r@ == user_insert_error_view(constraint, username@, db_message@),
{
    if names_exec(constraint, USERS_USERNAME_KEY) {
        PipelineError::Conflict(username_taken(username))
    } else if names_exec(constraint, USERS_IK_PUB_KEY) {
        PipelineError::Conflict(String::from_str("duplicate identity key"))
    } else if names_exec(constraint, USERS_IK_PUB_ED_KEY) {
        PipelineError::Conflict(String::from_str("duplicate identity key signature"))
    } else {
        PipelineError::Database(db_message)
    }
}

/// The error for a failed insert of a user by name and address.
pub fn account_insert_error(constraint: Option<&str>, username: &Username, db_message: String) -> (r:
    PipelineError)
    ensures
        r@ == account_insert_error_view(constraint, username@, db_message@),
{
    if names_exec(constraint, USERS_USERNAME_KEY) {
        PipelineError::Conflict(username_taken(username))
    } else if names_exec(constraint, USERS_EMAIL_KEY) {
        PipelineError::Conflict(String::from_str("that email address is already registered"))
    } else {
        PipelineError::Database(db_message)
    }
}

} // verus!
