//! How the HTTP layer answers a failed request: a status code, a code for
//! programs and a message for people, for each error of the services.
use vstd::prelude::*;
use crate::accounts::application::{AuthenticateSessionError, LoginUserError, RegisterUserError};
use crate::accounts::sessions::CreateSessionError;
use crate::households::application::{
    CreateHouseholdError, GetHouseholdError, RemoveHouseholdMemberError,
};
use crate::households::ports::HouseholdAccessError;
use crate::shared::InternalError;

verus! {

pub const BAD_REQUEST: u16 = 400;

pub const UNAUTHORIZED: u16 = 401;

pub const FORBIDDEN: u16 = 403;

pub const NOT_FOUND: u16 = 404;

pub const CONFLICT: u16 = 409;

pub const INTERNAL_SERVER_ERROR: u16 = 500;

/// The answer to a failed request.
pub struct ApiError {
    pub status: u16,
    pub code: String,
    pub message: String,
}

/// Whether `e` answers with `status`, `code` and `message`.
pub open spec fn answers(e: ApiError, status: u16, code: &str, message: &str) -> bool {
    e.status == status && e.code@ == code@ && e.message@ == message@
}

impl ApiError {
    pub fn new(status: u16, code: &str, message: &str) -> (r: ApiError)
        ensures
            answers(r, status, code, message),
    {
        ApiError { status, code: code.to_owned(), message: message.to_owned() }
    }

    pub fn bad_request(code: &str, message: &str) -> (r: ApiError)
        ensures
            answers(r, BAD_REQUEST, code, message),
    {
        ApiError::new(BAD_REQUEST, code, message)
    }

    pub fn unauthorized(code: &str, message: &str) -> (r: ApiError)
        ensures
            answers(r, UNAUTHORIZED, code, message),
    {
        ApiError::new(UNAUTHORIZED, code, message)
    }

    pub fn forbidden(code: &str, message: &str) -> (r: ApiError)
        ensures
            answers(r, FORBIDDEN, code, message),
    {
        ApiError::new(FORBIDDEN, code, message)
    }

    pub fn not_found(code: &str, message: &str) -> (r: ApiError)
        ensures
            answers(r, NOT_FOUND, code, message),
    {
        ApiError::new(NOT_FOUND, code, message)
    }

    pub fn conflict(code: &str, message: &str) -> (r: ApiError)
        ensures
            answers(r, CONFLICT, code, message),
    {
        ApiError::new(CONFLICT, code, message)
    }

    pub fn internal(code: &str, message: &str) -> (r: ApiError)
        ensures
            answers(r, INTERNAL_SERVER_ERROR, code, message),
    {
        ApiError::new(INTERNAL_SERVER_ERROR, code, message)
    }

    /// The answer to a failure whose cause is not told to the client.
    pub fn internal_error() -> (r: ApiError)
        ensures
            answers(r, INTERNAL_SERVER_ERROR, "internal_error", "An internal error occurred"),
    {
        ApiError::internal("internal_error", "An internal error occurred")
    }

    /// The answer to a request without a valid session.
    pub fn authentication_required() -> (r: ApiError)
        ensures
            answers(r, UNAUTHORIZED, "unauthorized", "Authentication is required"),
    {
        ApiError::unauthorized("unauthorized", "Authentication is required")
    }

    pub fn from_internal(error: InternalError) -> (r: ApiError)
        ensures
            answers(r, INTERNAL_SERVER_ERROR, "internal_error", "An internal error occurred"),
    {
        ApiError::internal_error()
    }

    pub fn from_register_error(error: RegisterUserError) -> (r: ApiError)
        ensures
            match error {
                RegisterUserError::InvalidEmail => answers(
                    r,
                    BAD_REQUEST,
                    "invalid_email",
                    "Email is invalid",
                ),
                RegisterUserError::InvalidDisplayName => answers(
                    r,
                    BAD_REQUEST,
                    "invalid_display_name",
                    "Display name is invalid",
                ),
                RegisterUserError::EmailAlreadyExists => answers(
                    r,
                    CONFLICT,
                    "email_already_exists",
                    "Email already exists",
                ),
                _ => answers(r, INTERNAL_SERVER_ERROR, "internal_error", "An internal error occurred"),
            },
    {
        match error {
            RegisterUserError::InvalidEmail => ApiError::bad_request(
                "invalid_email",
                "Email is invalid",
            ),
            RegisterUserError::InvalidDisplayName => ApiError::bad_request(
                "invalid_display_name",
                "Display name is invalid",
            ),
            RegisterUserError::EmailAlreadyExists => ApiError::conflict(
                "email_already_exists",
                "Email already exists",
            ),
            _ => ApiError::internal_error(),
        }
    }

    /// Every wrong email address or password gets the same answer.
    pub fn from_login_error(error: LoginUserError) -> (r: ApiError)
        ensures
            match error {
                LoginUserError::InvalidCredentials => answers(
                    r,
                    UNAUTHORIZED,
                    "invalid_credentials",
                    "Invalid credentials",
                ),
                LoginUserError::Internal(_) => answers(
                    r,
                    INTERNAL_SERVER_ERROR,
                    "internal_error",
                    "An internal error occurred",
                ),
            },
    {
        match error {
            LoginUserError::InvalidCredentials => ApiError::unauthorized(
                "invalid_credentials",
                "Invalid credentials",
            ),
            LoginUserError::Internal(_) => ApiError::internal_error(),
        }
    }

    pub fn from_create_session_error(error: CreateSessionError) -> (r: ApiError)
        ensures
            answers(r, INTERNAL_SERVER_ERROR, "internal_error", "An internal error occurred"),
    {
        ApiError::internal_error()
    }

    /// An unknown session asks for authentication; an expired one says so.
    pub fn from_authenticate_error(error: AuthenticateSessionError) -> (r: ApiError)
        ensures
            match error {
                AuthenticateSessionError::InvalidSession => answers(
                    r,
                    UNAUTHORIZED,
                    "unauthorized",
                    "Authentication is required",
                ),
                AuthenticateSessionError::SessionExpired => answers(
                    r,
                    UNAUTHORIZED,
                    "session_expired",
                    "Session has expired",
                ),
                AuthenticateSessionError::RepositoryFailed => answers(
                    r,
                    INTERNAL_SERVER_ERROR,
                    "internal_error",
                    "An internal error occurred",
                ),
            },
    {
        match error {
            AuthenticateSessionError::InvalidSession => ApiError::authentication_required(),
            AuthenticateSessionError::SessionExpired => ApiError::unauthorized(
                "session_expired",
                "Session has expired",
            ),
            AuthenticateSessionError::RepositoryFailed => ApiError::internal_error(),
        }
    }

    pub fn from_create_household_error(error: CreateHouseholdError) -> (r: ApiError)
        ensures
            match error {
                CreateHouseholdError::InvalidName => answers(
                    r,
                    BAD_REQUEST,
                    "invalid_household_name",
                    "Invalid household name",
                ),
                CreateHouseholdError::PersonalHouseholdAlreadyExists => answers(
                    r,
                    CONFLICT,
                    "personal_household_already_exists",
                    "Personal household already exists",
                ),
                CreateHouseholdError::Internal(_) => answers(
                    r,
                    INTERNAL_SERVER_ERROR,
                    "internal_error",
                    "An internal error occurred",
                ),
            },
    {
        match error {
            CreateHouseholdError::InvalidName => ApiError::bad_request(
                "invalid_household_name",
                "Invalid household name",
            ),
            CreateHouseholdError::PersonalHouseholdAlreadyExists => ApiError::conflict(
                "personal_household_already_exists",
                "Personal household already exists",
            ),
            CreateHouseholdError::Internal(_) => ApiError::internal_error(),
        }
    }

    pub fn from_get_household_error(error: GetHouseholdError) -> (r: ApiError)
        ensures
            match error {
                GetHouseholdError::NotFound => answers(
                    r,
                    NOT_FOUND,
                    "household_not_found",
                    "Household not found",
                ),
                GetHouseholdError::Forbidden => answers(
                    r,
                    FORBIDDEN,
                    "forbidden",
                    "User is not a member of this household",
                ),
                GetHouseholdError::Internal(_) => answers(
                    r,
                    INTERNAL_SERVER_ERROR,
                    "internal_error",
                    "An internal error occurred",
                ),
            },
    {
        match error {
            GetHouseholdError::NotFound => ApiError::not_found(
                "household_not_found",
                "Household not found",
            ),
            GetHouseholdError::Forbidden => ApiError::forbidden(
                "forbidden",
                "User is not a member of this household",
            ),
            GetHouseholdError::Internal(_) => ApiError::internal_error(),
        }
    }

    pub fn from_access_error(error: HouseholdAccessError) -> (r: ApiError)
        ensures
            match error {
                HouseholdAccessError::HouseholdNotFound => answers(
                    r,
                    NOT_FOUND,
                    "household_not_found",
                    "Household was not found",
                ),
                HouseholdAccessError::Forbidden => answers(
                    r,
                    FORBIDDEN,
                    "forbidden",
                    "You do not have permission",
                ),
                HouseholdAccessError::Internal(_) => answers(
                    r,
                    INTERNAL_SERVER_ERROR,
                    "internal_error",
                    "An internal error occurred",
                ),
            },
    {
        match error {
            HouseholdAccessError::HouseholdNotFound => ApiError::not_found(
                "household_not_found",
                "Household was not found",
            ),
            HouseholdAccessError::Forbidden => ApiError::forbidden(
                "forbidden",
                "You do not have permission",
            ),
            HouseholdAccessError::Internal(_) => ApiError::internal_error(),
        }
    }

    pub fn from_remove_member_error(error: RemoveHouseholdMemberError) -> (r: ApiError)
        ensures
            match error {
                RemoveHouseholdMemberError::HouseholdNotFound => answers(
                    r,
                    NOT_FOUND,
                    "household_not_found",
                    "Household was not found",
                ),
                RemoveHouseholdMemberError::Forbidden => answers(
                    r,
                    FORBIDDEN,
                    "forbidden",
                    "You do not have permissions",
                ),
                RemoveHouseholdMemberError::MemberNotFound => answers(
                    r,
                    NOT_FOUND,
                    "member_not_found",
                    "Household member not found",
                ),
                RemoveHouseholdMemberError::OwnerCannotBeRemoved => answers(
                    r,
                    CONFLICT,
                    "owner_cannot_be_removed",
                    "The household owner cannot be removed",
                ),
                RemoveHouseholdMemberError::Internal(_) => answers(
                    r,
                    INTERNAL_SERVER_ERROR,
                    "internal_error",
                    "An internal error occurred",
                ),
            },
    {
        match error {
            RemoveHouseholdMemberError::HouseholdNotFound => ApiError::not_found(
                "household_not_found",
                "Household was not found",
            ),
            RemoveHouseholdMemberError::Forbidden => ApiError::forbidden(
                "forbidden",
                "You do not have permissions",
            ),
            RemoveHouseholdMemberError::MemberNotFound => ApiError::not_found(
                "member_not_found",
                "Household member not found",
            ),
            RemoveHouseholdMemberError::OwnerCannotBeRemoved => ApiError::conflict(
                "owner_cannot_be_removed",
                "The household owner cannot be removed",
            ),
            RemoveHouseholdMemberError::Internal(_) => ApiError::internal_error(),
        }
    }
}

} // verus!
