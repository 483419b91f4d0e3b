//! Where the session's tokens are kept between launches: a secret store,
//! and how a stored secret becomes tokens again.

use vstd::prelude::*;

use crate::session::{Tokens, non_empty, opt_view};

verus! {

/// The JSON record kept in the secret store.
#[derive(Debug)]
pub struct Stored {
    pub access_token: String,
    pub refresh_token: Option<String>,
}

/// A place that keeps one secret.
pub trait SecretStore {
    fn load(&self) -> Option<String>;

    fn save(&mut self, secret: &str) -> Result<(), String>;

    fn delete(&mut self);
}

/// A secret store in memory, for tests and for platforms without a keychain.
#[derive(Debug)]
pub struct MemoryStore {
    secret: Option<String>,
}

impl MemoryStore {
    /// The secret held.
    pub closed spec fn secret(&self) -> Option<Seq<char>> {
        opt_view(self.secret)
    }

    /// A store that holds no secret.
    pub fn new() -> (s: Self)
        ensures
            s.secret() is None,
    {
        MemoryStore { secret: None }
    }
}

impl SecretStore for MemoryStore {
    fn load(&self) -> (r: Option<String>)
        ensures
            opt_view(r) == self.secret(),
    {
        match &self.secret {
            Some(s) => Some(s.clone()),
            None => None,
        }
    }

    fn save(&mut self, secret: &str) -> (r: Result<(), String>)
        ensures
            r is Ok,
            final(self).secret() == Some(secret@),
    {
        self.secret = Some(secret.to_string());
        Ok(())
    }

    fn delete(&mut self)
        ensures
            final(self).secret() is None,
    {
        self.secret = None;
    }
}

/// The tokens a decoded record gives: none without a record or with an
/// empty access token; an empty refresh token counts as none.
pub fn tokens_from_stored(stored: Option<Stored>) -> (t: Option<Tokens>)
    ensures
        match stored {
            Some(s) => if s.access_token@.len() == 0 {
                t is None
            } else {
                t == Some(
                    Tokens {
                        access_token: s.access_token,
                        refresh_token: if non_empty(s.refresh_token) {
                            s.refresh_token
                        } else {
                            None
                        },
                    },
                )
            },
            None => t is None,
        },
{
    match stored {
        Some(s) => {
            if s.access_token.as_str().is_empty() {
                return None;
            }
            let refresh = match s.refresh_token {
                Some(r) => if r.as_str().is_empty() {
                    None
                } else {
                    Some(r)
                },
                None => None,
            };
            Some(Tokens { access_token: s.access_token, refresh_token: refresh })
        },
        None => None,
    }
}

} // verus!
