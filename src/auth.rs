//! The checks made on a request before any work begins: the private API
//! key, the basic-auth credentials of the documentation pages, and the
//! bearer token and project of the notification endpoints.
use crate::text::{has_prefix, strip_prefix};
use vstd::prelude::*;

verus! {

/// The groups the endpoints are listed under.
#[derive(Clone, Copy, Debug, PartialEq, Eq, Structural)]
pub enum ApiTags {
    /// Scheduled firebase messaging service
    FirebaseMessaging,
    /// Health check endpoints
    HealthCheck,
    /// Browser automation
    Selenium,
    /// Youtube-dl service
    YoutubeDL,
}

/// Why a request's API key was refused.
#[derive(Clone, Copy, Debug, PartialEq, Eq, Structural)]
pub enum AuthError {
    MissingKey,
    InvalidKey,
}

impl AuthError {
    pub fn message(&self) -> (r: String)
        ensures
            *self == AuthError::MissingKey ==> r@ == "API-Key header is missing"@,
            *self == AuthError::InvalidKey ==> r@ == "Invalid API-Key"@,
    {
        match self {
            AuthError::MissingKey => String::from_str("API-Key header is missing"),
            AuthError::InvalidKey => String::from_str("Invalid API-Key"),
        }
    }
}

/// Checks the `API-Key` header of a request against the configured key.
pub fn verify_apikey(header: Option<&str>, api_key: &String) -> (r: Result<(), AuthError>)
    ensures
        header is None ==> r == Err::<(), AuthError>(AuthError::MissingKey),
        header matches Some(k) ==> (r is Ok <==> k@ == api_key@),
        header matches Some(k) ==> (r is Err <==> r == Err::<(), AuthError>(AuthError::InvalidKey)),
{
    match header {
        None => Err(AuthError::MissingKey),
        Some(k) => {
            let given = String::from_str(k);
            if given == *api_key {
                Ok(())
            } else {
                Err(AuthError::InvalidKey)
            }
        },
    }
}

/// The credentials that guard the API documentation pages.
#[derive(Debug)]
pub struct BasicAuth {
    pub username: String,
    pub password: String,
}

/// An endpoint behind basic-auth credentials.
#[derive(Debug)]
pub struct BasicAuthEndpoint<E> {
    pub ep: E,
    pub username: String,
    pub password: String,
}

impl BasicAuth {
    pub fn new(username: String, password: String) -> (r: BasicAuth)
        ensures
            r.username == username,
            r.password == password,
    {
        BasicAuth { username, password }
    }

    /// Puts `ep` behind these credentials.
    pub fn transform<E>(&self, ep: E) -> (r: BasicAuthEndpoint<E>)
        ensures
            r.ep == ep,
            r.username@ == self.username@,
            r.password@ == self.password@,
    {
        BasicAuthEndpoint { ep, username: self.username.clone(), password: self.password.clone() }
    }
}

impl<E> BasicAuthEndpoint<E> {
    /// Whether the credentials a request presents, if any, open the
    /// endpoint.
    pub fn admits(&self, credentials: Option<(&str, &str)>) -> (r: bool)
        ensures
            r == (credentials matches Some((u, p)) && u@ == self.username@ && p@
                == self.password@),
    {
        match credentials {
            Some((u, p)) => String::from_str(u) == self.username && String::from_str(p)
                == self.password,
            None => false,
        }
    }
}

/// Why a notification request's token was refused.
#[derive(Clone, Copy, Debug, PartialEq, Eq, Structural)]
pub enum TokenError {
    Missing,
    Invalid,
}

impl TokenError {
    pub fn message(&self) -> (r: String)
        ensures
            *self == TokenError::Missing ==> r@ == "unable to extract token"@,
            *self == TokenError::Invalid ==> r@ == "invalid token"@,
    {
        match self {
            TokenError::Missing => String::from_str("unable to extract token"),
            TokenError::Invalid => String::from_str("invalid token"),
        }
    }
}

pub open spec fn bearer_scheme() -> Seq<char> {
    "Bearer "@
}

/// The token of an `Authorization`-style header `Bearer <token>`.
pub fn bearer_token(header: Option<&str>) -> (r: Result<String, TokenError>)
    ensures
        header is None ==> r == Err::<String, TokenError>(TokenError::Missing),
        header matches Some(h) ==> (has_prefix(h@, bearer_scheme()) ==> (r matches Ok(t) && t@
            == h@.subrange(bearer_scheme().len() as int, h@.len() as int))),
        header matches Some(h) ==> (!has_prefix(h@, bearer_scheme()) ==> r == Err::<
            String,
            TokenError,
        >(TokenError::Invalid)),
{
    match header {
        None => Err(TokenError::Missing),
        Some(h) => match strip_prefix(h, "Bearer ") {
            Some(t) => Ok(t),
            None => Err(TokenError::Invalid),
        },
    }
}

/// The claims read from a notification request's token.
#[derive(Debug)]
pub struct Claims {
    /// The project the token was issued for.
    pub aud: String,
    pub user_id: String,
}

/// The notification service, for the projects it holds credentials of.
#[derive(Debug)]
pub struct FirebaseMessaging {
    pub projects: Vec<String>,
}

impl FirebaseMessaging {
    pub fn new(projects: Vec<String>) -> (r: FirebaseMessaging)
        ensures
            r.projects == projects,
    {
        FirebaseMessaging { projects }
    }

    /// Whether the service holds credentials for project `id`.
    pub fn serves_project(&self, id: &str) -> (r: bool)
        ensures
            r == exists|i: int| 0 <= i < self.projects@.len() && (#[trigger] self.projects@[i])@ == id@,
    {
        let wanted = String::from_str(id);
        let mut i: usize = 0;
        while i < self.projects.len()
            invariant
                0 <= i <= self.projects@.len(),
                wanted@ == id@,
                forall|k: int| 0 <= k < i ==> (#[trigger] self.projects@[k])@ != id@,
            decreases self.projects.len() - i,
        {
            if self.projects[i] == wanted {
                return true;
            }
            i = i + 1;
        }
        false
    }
}

} // verus!
