//! The user route: the record made for a posted payload.

use vstd::prelude::*;

verus! {

/// The identifier given to every user that is created.
pub const USER_ID: u64 = 1337;

/// The status of the response to a user that was created.
pub const CREATED: u16 = 201;

/// What a client posts to create a user.
#[derive(Debug, PartialEq, Eq)]
pub struct CreateUser {
    pub username: String,
    pub utype: String,
}

/// The record sent back for a user that was created.
#[derive(Debug, PartialEq, Eq)]
pub struct User {
    pub id: u64,
    pub username: String,
    pub utype: String,
}

/// A payload as plain data.
pub struct CreateUserView {
    pub username: Seq<char>,
    pub utype: Seq<char>,
}

/// A user as plain data.
pub struct UserView {
    pub id: nat,
    pub username: Seq<char>,
    pub utype: Seq<char>,
}

impl View for CreateUser {
    type V = CreateUserView;

    open spec fn view(&self) -> CreateUserView {
        CreateUserView { username: self.username@, utype: self.utype@ }
    }
}

impl View for User {
    type V = UserView;

    open spec fn view(&self) -> UserView {
        UserView { id: self.id as nat, username: self.username@, utype: self.utype@ }
    }
}

/// The user made for a payload: its name and type, under the fixed
/// identifier.
pub open spec fn created_user(payload: CreateUserView) -> UserView {
    UserView { id: 1337, username: payload.username, utype: payload.utype }
}

/// Creates the user that `payload` asks for. The reply is the status 201 with
/// the new record, which carries the payload's name and type unchanged.
pub fn create_user(payload: CreateUser) -> (reply: (u16, User))
    ensures
        reply.0 == 201,
        reply.1@ == created_user(payload@),
        reply.1.username == payload.username,
        reply.1.utype == payload.utype,
{
    let user = User { id: USER_ID, username: payload.username, utype: payload.utype };
    (CREATED, user)
}

} // verus!
