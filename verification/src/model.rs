//! Rows of the shooter, oauth and users tables, and the records that create them.

use vstd::prelude::*;
use crate::instant::Instant;
use crate::session_id::{is_ascii_alphanumeric, random_alphanumeric};

verus! {

/// A registered shooter (a user of the service), as stored.
pub struct Shooter {
    pub shooter_id: i32,
    pub shooter_name: String,
    pub shooter_password: String,
    pub shooter_status: String,
    pub shooter_email: String,
    pub shooter_real_name: String,
    pub shooter_create_time: Instant,
    pub shooter_active_time: Option<Instant>,
    pub shooter_inactive_time: Option<Instant>,
    pub shooter_remove_time: Option<Instant>,
    pub shooter_modify_time: Instant,
}

/// The values that a new shooter row is inserted with.
pub struct NewShooter {
    pub shooter_name: String,
    pub shooter_password: String,
    pub shooter_status: String,
    pub shooter_email: String,
    pub shooter_real_name: String,
}

/// A link between an identity at an OAuth provider and a shooter, as stored.
pub struct Oauth {
    pub oauth_id: i32,
    pub oauth_vendor: String,
    pub oauth_user: String,
    pub shooter_id: i32,
    pub oauth_status: String,
    pub oauth_create_time: Instant,
    pub oauth_last_use_time: Instant,
    pub oauth_modify_time: Instant,
}

/// The values that a new oauth row is inserted with.
pub struct NewOauth {
    pub oauth_vendor: String,
    pub oauth_user: String,
    pub shooter_id: i32,
}

/// A user account, as stored.
pub struct User {
    pub user_id: i32,
    pub user_name: String,
    pub password: String,
    pub status: String,
    pub email: String,
    pub real_name: String,
    pub create_time: Instant,
    pub active_time: Option<Instant>,
    pub inactive_time: Option<Instant>,
    pub remove_time: Option<Instant>,
    pub modify_time: Instant,
}

/// The values that a new user row is inserted with.
pub struct NewUser<'a> {
    pub user_name: &'a str,
    pub password: &'a str,
    pub email: &'a str,
    pub real_name: &'a str,
}

/// Length of the password generated for a shooter who signs up without one.
pub const GENERATED_PASSWORD_LEN: usize = 64;

/// The record for a new shooter named `name`: the name is also the real name.
pub open spec fn spec_shooter_record(
    shooter: NewShooter,
    name: Seq<char>,
    password: Seq<char>,
    email: Seq<char>,
    status: Seq<char>,
) -> bool {
    &&& shooter.shooter_name@ == name
    &&& shooter.shooter_password@ == password
    &&& shooter.shooter_status@ == status
    &&& shooter.shooter_email@ == email
    &&& shooter.shooter_real_name@ == name
}

/// The record for a new shooter with the given password.
pub fn shooter_record(name: &str, password: String, email: &str, status: &str) -> (s: NewShooter)
    ensures
        spec_shooter_record(s, name@, password@, email@, status@),
{
    NewShooter {
        shooter_name: String::from_str(name),
        shooter_password: password,
        shooter_status: String::from_str(status),
        shooter_email: String::from_str(email),
        shooter_real_name: String::from_str(name),
    }
}

/// A password as the service generates one: 64 ASCII letters and digits.
pub open spec fn is_generated_password(p: Seq<char>) -> bool {
    &&& p.len() == GENERATED_PASSWORD_LEN
    &&& forall|i: int| 0 <= i < p.len() ==> is_ascii_alphanumeric(#[trigger] p[i])
}

/// The record for a new shooter: the password given, or else 64 random
/// letters and digits.
pub fn new_shooter(name: &str, password: Option<&str>, email: &str, status: &str) -> (s: NewShooter)
    ensures
        match password {
            Some(p) => spec_shooter_record(s, name@, p@, email@, status@),
            None => {
                &&& spec_shooter_record(s, name@, s.shooter_password@, email@, status@)
                &&& is_generated_password(s.shooter_password@)
            },
        },
{
    let pass = match password {
        Some(p) => String::from_str(p),
        None => random_alphanumeric(GENERATED_PASSWORD_LEN),
    };
    shooter_record(name, pass, email, status)
}

impl NewOauth {
    /// The link of `user` at `vendor` to the shooter `shooter_id`.
    pub fn new(vendor: &String, user: &String, shooter_id: i32) -> (o: NewOauth)
        ensures
            o.oauth_vendor@ == vendor@,
            o.oauth_user@ == user@,
            o.shooter_id == shooter_id,
    {
        NewOauth { oauth_vendor: vendor.clone(), oauth_user: user.clone(), shooter_id }
    }
}

} // verus!
