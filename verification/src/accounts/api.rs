//! The shapes in which the HTTP layer of the accounts module receives and
//! answers requests, and the user on whose behalf a request runs.
use vstd::prelude::*;
use crate::accounts::application::{LoginUserCommand, RegisterUserCommand};
use crate::accounts::domain::UserId;
use crate::shared::uuid_hyphenated;

verus! {

/// The authenticated user on whose behalf a request runs.
#[derive(Debug, Clone, Copy, PartialEq, Eq, Structural)]
pub struct CurrentUser {
    user_id: UserId,
}

impl CurrentUser {
    pub fn new(user_id: UserId) -> (r: CurrentUser)
        ensures
            r.spec_user_id() == user_id,
    {
        CurrentUser { user_id }
    }

    /// The user.
    pub closed spec fn spec_user_id(self) -> UserId {
        self.user_id
    }

    pub fn user_id(&self) -> (r: UserId)
        ensures
            r == self.spec_user_id(),
    {
        self.user_id
    }
}

pub struct RegisterUserRequest {
    pub email: String,
    pub display_name: String,
    pub password: String,
}

pub struct RegisterUserResponse {
    pub id: String,
}

pub struct LoginUserRequest {
    pub email: String,
    pub password: String,
}

pub struct LoginUserResponse {
    pub id: String,
}

impl RegisterUserRequest {
    /// The registration that the request asks for.
    pub fn into_command(self) -> (r: RegisterUserCommand)
        ensures
            r.email@ == self.email@,
            r.display_name@ == self.display_name@,
            r.password@ == self.password@,
    {
        RegisterUserCommand { email: self.email, display_name: self.display_name, password: self.password }
    }
}

impl RegisterUserResponse {
    /// The answer to a successful registration.
    pub fn for_user(user_id: UserId) -> (r: RegisterUserResponse)
        ensures
            r.id@ == uuid_hyphenated(user_id.value()),
    {
        RegisterUserResponse { id: user_id.to_string() }
    }
}

impl LoginUserRequest {
    /// The login that the request asks for.
    pub fn into_command(self) -> (r: LoginUserCommand)
        ensures
            r.email@ == self.email@,
            r.password@ == self.password@,
    {
        LoginUserCommand { email: self.email, password: self.password }
    }
}

impl LoginUserResponse {
    /// The answer to a successful login.
    pub fn for_user(user_id: UserId) -> (r: LoginUserResponse)
        ensures
            r.id@ == uuid_hyphenated(user_id.value()),
    {
        LoginUserResponse { id: user_id.to_string() }
    }
}

} // verus!
