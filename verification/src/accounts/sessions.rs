//! Opening an authentication session for a user who has logged in.
use vstd::prelude::*;
use crate::accounts::domain::{Session, SessionId, SessionToken, SessionView, UserId};
use crate::accounts::ports::{
    SessionRepositoryError, SessionTokenGenerator, SessionTokenHasher,
};
use crate::accounts::application::{authentication_outcome, AuthenticateSessionError, AuthenticatedUser};
use crate::accounts::in_memory::InMemorySessionRepository;
use crate::shared::{is_drawn_uuid, is_random_uuid};
use crate::time::Timestamp;

verus! {

/// Seconds in a day.
pub const SECONDS_PER_DAY: i64 = 86_400;

pub struct CreateSessionCommand {
    pub user_id: UserId,
}

/// The token handed to the client, and when its session expires.
pub struct CreateSessionResult {
    pub token: SessionToken,
    pub expires_at: Timestamp,
}

#[derive(Debug, Clone, Copy, PartialEq, Eq, Structural)]
pub enum CreateSessionError {
    TokenGenerationFailed,
    RandomSourceFailed,
    InvalidLifetime,
    RepositoryFailed,
}

/// When a session opened at `now` with a lifetime of `lifetime_seconds`
/// expires, where that time is representable.
pub open spec fn session_expiry(now: Timestamp, lifetime_seconds: i64) -> Option<Timestamp> {
    let seconds = now.seconds + lifetime_seconds;
    if i64::MIN <= seconds <= i64::MAX {
        Some(Timestamp { seconds: seconds as i64, nanoseconds: now.nanoseconds })
    } else {
        None
    }
}

/// Whether a session opened at `now` with a lifetime of `lifetime_seconds`
/// would expire past the last representable second.
pub open spec fn expiry_overflows(now: Timestamp, lifetime_seconds: i64) -> bool {
    now.seconds + lifetime_seconds > i64::MAX
}

/// Whether opening a session at some time can fail for its lifetime alone:
/// the lifetime is not positive, or the expiry passes the last representable
/// second (which depends on the clock).
pub open spec fn lifetime_may_fail(lifetime_seconds: i64) -> bool {
    lifetime_seconds <= 0 || exists|now: Timestamp| #[trigger] expiry_overflows(now, lifetime_seconds)
}

/// Opens sessions: generates a token, stores a session under the token's
/// hash, and hands the token to the client.
pub struct CreateSessionService<R, G, H> {
    session_repository: R,
    token_generator: G,
    token_hasher: H,
    lifetime_seconds: i64,
}

impl<R, G, H> CreateSessionService<R, G, H> {
    pub fn new(session_repository: R, token_generator: G, token_hasher: H, lifetime_seconds: i64) -> (r:
        CreateSessionService<R, G, H>)
        ensures
            r.session_repository() == session_repository,
            r.token_generator() == token_generator,
            r.token_hasher() == token_hasher,
            r.lifetime_seconds() == lifetime_seconds,
    {
        CreateSessionService { session_repository, token_generator, token_hasher, lifetime_seconds }
    }

    pub closed spec fn session_repository(&self) -> R {
        self.session_repository
    }

    pub closed spec fn token_generator(&self) -> G {
        self.token_generator
    }

    pub closed spec fn token_hasher(&self) -> H {
        self.token_hasher
    }

    pub closed spec fn lifetime_seconds(&self) -> i64 {
        self.lifetime_seconds
    }

    /// The store that new sessions are handed to.
    pub fn repository(&self) -> (r: &R)
        ensures
            *r == self.session_repository(),
    {
        &self.session_repository
    }

    /// What opening a session answers once the session has been handed to
    /// the store.
    pub fn complete(
        &self,
        token: SessionToken,
        session: &Session,
        inserted: Result<(), SessionRepositoryError>,
    ) -> (r: Result<CreateSessionResult, CreateSessionError>)
        ensures
            match inserted {
                Ok(()) => r matches Ok(result) && result.token == token && result.expires_at
                    == session@.expires_at,
                Err(_) => r == Err::<CreateSessionResult, CreateSessionError>(
                    CreateSessionError::RepositoryFailed,
                ),
            },
    {
        match inserted {
            Ok(()) => Ok(CreateSessionResult { token, expires_at: session.expires_at() }),
            Err(_) => Err(CreateSessionError::RepositoryFailed),
        }
    }
}

impl<R, G, H: SessionTokenHasher> CreateSessionService<R, G, H> {
    /// The session of `user_id` for `token`, opened at `now` under
    /// `session_id`: it is filed under the token's hash and expires after
    /// the service's lifetime.
    pub fn session_at(&self, user_id: UserId, token: &SessionToken, session_id: SessionId, now: Timestamp) -> (r:
        Result<Session, CreateSessionError>)
        ensures
            match session_expiry(now, self.lifetime_seconds()) {
                Some(expires_at) if now.precedes(expires_at) => r matches Ok(session) && session@
                    == (SessionView {
                    id: session_id,
                    user_id,
                    token_hash: self.token_hasher().hash_of(token@),
                    expires_at,
                    created_at: now,
                }),
                _ => r == Err::<Session, CreateSessionError>(CreateSessionError::InvalidLifetime),
            },
    {
        let token_hash = self.token_hasher.hash(token);
        let seconds = match now.seconds.checked_add(self.lifetime_seconds) {
            Some(seconds) => seconds,
            None => return Err(CreateSessionError::InvalidLifetime),
        };
        let expires_at = Timestamp::new(seconds, now.nanoseconds);
        match Session::new(session_id, user_id, token_hash, expires_at, now) {
            Ok(session) => Ok(session),
            Err(_) => Err(CreateSessionError::InvalidLifetime),
        }
    }
}

impl<R, G: SessionTokenGenerator, H: SessionTokenHasher> CreateSessionService<R, G, H> {
    /// Generates a token and opens the session of `command.user_id` for it
    /// now, under a fresh identifier.
    pub fn prepare(&self, command: &CreateSessionCommand) -> (r: Result<
        (SessionToken, Session),
        CreateSessionError,
    >)
        ensures
            match r {
                Ok((token, session)) => {
                    &&& session@.user_id == command.user_id
                    &&& session@.token_hash == self.token_hasher().hash_of(token@)
                    &&& session_expiry(session@.created_at, self.lifetime_seconds()) == Some(
                        session@.expires_at,
                    )
                    &&& is_random_uuid(session@.id.value())
                    &&& is_drawn_uuid(session@.id.value())
                },
                Err(e) => e == CreateSessionError::TokenGenerationFailed || e
                    == CreateSessionError::RandomSourceFailed || (e
                    == CreateSessionError::InvalidLifetime && lifetime_may_fail(
                    self.lifetime_seconds(),
                )),
            },
            self.lifetime_seconds() <= 0 ==> r is Err,
    {
        let token = match self.token_generator.generate() {
            Ok(token) => token,
            Err(_) => return Err(CreateSessionError::TokenGenerationFailed),
        };
        let session_id = match SessionId::new() {
            Ok(id) => id,
            Err(_) => return Err(CreateSessionError::RandomSourceFailed),
        };
        let now = Timestamp::now();
        let session = match self.session_at(command.user_id, &token, session_id, now) {
            Ok(session) => session,
            Err(e) => {
                proof {
                    if self.lifetime_seconds() > 0 {
                        assert(expiry_overflows(now, self.lifetime_seconds()));
                    }
                }
                return Err(e);
            },
        };
        Ok((token, session))
    }
}

impl<G: SessionTokenGenerator, H: SessionTokenHasher> CreateSessionService<
    InMemorySessionRepository,
    G,
    H,
> {
    /// Opens a session for `command.user_id`: its token goes to the client,
    /// the session is stored under the token's hash.
    pub fn execute(&mut self, command: CreateSessionCommand) -> (r: Result<CreateSessionResult, CreateSessionError>)
        requires
            old(self).session_repository().wf(),
        ensures
            final(self).session_repository().wf(),
            final(self).token_hasher() == old(self).token_hasher(),
            final(self).lifetime_seconds() == old(self).lifetime_seconds(),
            match r {
                Ok(result) => exists|session: SessionView|
                    {
                        &&& #[trigger] session.token_hash == old(self).token_hasher().hash_of(result.token@)
                        &&& session.user_id == command.user_id
                        &&& session.expires_at == result.expires_at
                        &&& session_expiry(session.created_at, old(self).lifetime_seconds()) == Some(
                            result.expires_at,
                        )
                        &&& is_random_uuid(session.id.value())
                        &&& is_drawn_uuid(session.id.value())
                        &&& !old(self).session_repository()@.contains_key(session.token_hash)
                        &&& final(self).session_repository()@ == old(self).session_repository()@.insert(
                            session.token_hash,
                            session,
                        )
                    },
                Err(e) => {
                    &&& final(self).session_repository()@ == old(self).session_repository()@
                    &&& e == CreateSessionError::TokenGenerationFailed || e
                        == CreateSessionError::RandomSourceFailed || (e
                        == CreateSessionError::InvalidLifetime && lifetime_may_fail(
                        old(self).lifetime_seconds(),
                    )) || (e == CreateSessionError::RepositoryFailed && exists|token: Seq<char>|
                        old(self).session_repository()@.contains_key(
                            #[trigger] old(self).token_hasher().hash_of(token),
                        ))
                },
            },
            old(self).lifetime_seconds() <= 0 ==> r is Err,
    {
        let (token, session) = self.prepare(&command)?;
        let inserted = self.session_repository.insert(&session);
        let r = self.complete(token, &session, inserted);
        proof {
            if inserted is Err {
                assert(old(self).session_repository()@.contains_key(
                    old(self).token_hasher().hash_of(token@),
                ));
            }
        }
        r
    }
}

/// A session opened at the clock reading `now` with a positive lifetime that
/// the clock can count expires exactly `lifetime_seconds` later, and
/// authenticates its user at every reading before then and at none from
/// then on.
pub proof fn lemma_opened_session_lasts_its_lifetime(
    now: Timestamp,
    lifetime_seconds: i64,
    session: SessionView,
    later: Timestamp,
)
    requires
        lifetime_seconds > 0,
        session.created_at == now,
        session_expiry(now, lifetime_seconds) == Some(session.expires_at),
    ensures
        session.expires_at.seconds == now.seconds + lifetime_seconds,
        session.expires_at.nanoseconds == now.nanoseconds,
        now.precedes(session.expires_at),
        authentication_outcome(Ok(Some(session)), later) == if later.precedes(
            session.expires_at,
        ) {
            Ok::<AuthenticatedUser, AuthenticateSessionError>(
                AuthenticatedUser { user_id: session.user_id },
            )
        } else {
            Err::<AuthenticatedUser, AuthenticateSessionError>(
                AuthenticateSessionError::SessionExpired,
            )
        },
        later.seconds < now.seconds + lifetime_seconds ==> authentication_outcome(
            Ok(Some(session)),
            later,
        ) is Ok,
        !later.precedes(session.expires_at) ==> authentication_outcome(Ok(Some(session)), later)
            == Err::<AuthenticatedUser, AuthenticateSessionError>(
            AuthenticateSessionError::SessionExpired,
        ),
{
}

} // verus!
