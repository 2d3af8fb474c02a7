//! Settings of the database connection and of authentication sessions.
use vstd::prelude::*;
use crate::accounts::domain::SessionToken;
use crate::accounts::sessions::SECONDS_PER_DAY;
use crate::text::{is_blank, lemma_trimmed, trim};

verus! {

pub struct DatabaseConfig {
    pub url: String,
    pub max_connections: u32,
}

pub struct SessionConfig {
    pub lifetime_days: i64,
    pub cookie_name: String,
    pub cookie_secure: bool,
}

pub struct SessionCookieConfig {
    pub name: String,
    pub secure: bool,
}

#[derive(Debug, Clone, Copy, PartialEq, Eq, Structural)]
pub enum SessionConfigError {
    NonPositiveSessionLifetime,
    EmptySessionCookieName,
}

impl SessionConfig {
    /// The session settings, checked as the environment supplies them: the
    /// lifetime must be positive and the cookie name must not be blank.
    pub fn validated(lifetime_days: i64, cookie_name: String, cookie_secure: bool) -> (r: Result<
        SessionConfig,
        SessionConfigError,
    >)
        ensures
            lifetime_days <= 0 ==> r == Err::<SessionConfig, SessionConfigError>(
                SessionConfigError::NonPositiveSessionLifetime,
            ),
            lifetime_days > 0 && is_blank(cookie_name@) ==> r == Err::<
                SessionConfig,
                SessionConfigError,
            >(SessionConfigError::EmptySessionCookieName),
            lifetime_days > 0 && !is_blank(cookie_name@) ==> (r matches Ok(c) && c.lifetime_days
                == lifetime_days && c.cookie_name@ == cookie_name@ && c.cookie_secure
                == cookie_secure),
    {
        SessionConfig::check_lifetime(lifetime_days)?;
        SessionConfig::check_cookie_name(cookie_name.as_str())?;
        Ok(SessionConfig { lifetime_days, cookie_name, cookie_secure })
    }

    /// A session lifetime must be positive.
    pub fn check_lifetime(lifetime_days: i64) -> (r: Result<(), SessionConfigError>)
        ensures
            lifetime_days <= 0 ==> r == Err::<(), SessionConfigError>(
                SessionConfigError::NonPositiveSessionLifetime,
            ),
            lifetime_days > 0 ==> r == Ok::<(), SessionConfigError>(()),
    {
        if lifetime_days <= 0 {
            return Err(SessionConfigError::NonPositiveSessionLifetime);
        }
        Ok(())
    }

    /// A session cookie name must not be blank.
    pub fn check_cookie_name(cookie_name: &str) -> (r: Result<(), SessionConfigError>)
        ensures
            is_blank(cookie_name@) ==> r == Err::<(), SessionConfigError>(
                SessionConfigError::EmptySessionCookieName,
            ),
            !is_blank(cookie_name@) ==> r == Ok::<(), SessionConfigError>(()),
    {
        proof {
            lemma_trimmed(cookie_name@);
        }
        if trim(cookie_name).is_empty() {
            return Err(SessionConfigError::EmptySessionCookieName);
        }
        Ok(())
    }

    /// The lifetime of a session in seconds, where that number fits an
    /// `i64`.
    pub fn lifetime_seconds(&self) -> (r: Option<i64>)
        ensures
            r == if i64::MIN <= self.lifetime_days * SECONDS_PER_DAY <= i64::MAX {
                Some((self.lifetime_days * SECONDS_PER_DAY) as i64)
            } else {
                None::<i64>
            },
    {
        self.lifetime_days.checked_mul(SECONDS_PER_DAY)
    }

    /// The settings of the session cookie.
    pub fn cookie(&self) -> (r: SessionCookieConfig)
        ensures
            r.name@ == self.cookie_name@,
            r.secure == self.cookie_secure,
    {
        SessionCookieConfig { name: self.cookie_name.clone(), secure: self.cookie_secure }
    }
}

/// When a browser sends a cookie along with cross-site requests: `Strict`
/// never, `Lax` on top-level navigation only, `Unrestricted` always.
#[derive(Debug, Clone, Copy, PartialEq, Eq, Structural)]
pub enum SameSite {
    Strict,
    Lax,
    Unrestricted,
}

/// The cookie that carries a session token to the client.
pub struct SessionCookie {
    pub name: String,
    pub value: String,
    pub path: String,
    pub http_only: bool,
    pub same_site: SameSite,
    pub secure: bool,
}

impl SessionCookieConfig {
    /// The cookie that hands `token` to the client: valid for the whole
    /// site, hidden from scripts, not sent along with cross-site
    /// subrequests, and sent over HTTPS only where the settings ask so.
    pub fn session_cookie(&self, token: SessionToken) -> (r: SessionCookie)
        ensures
            r.name@ == self.name@,
            r.value@ == token@,
            r.path@ == "/"@,
            r.http_only,
            r.same_site == SameSite::Lax,
            r.secure == self.secure,
    {
        SessionCookie {
            name: self.name.clone(),
            value: token.into_string(),
            path: "/".to_owned(),
            http_only: true,
            same_site: SameSite::Lax,
            secure: self.secure,
        }
    }
}

} // verus!
