//! The credentials of the GitHub session. The access token lives in memory;
//! what outlives the process (the refresh token, or the access token when
//! GitHub issued no refresh token) goes to the login keychain, with a copy in
//! memory for when the keychain cannot be read.
//!
//! The keychain itself is reached by the app; this store holds the in-process
//! state and decides what to keep, what to write and what a read yields. Each
//! method that reads the keychain takes what the keychain gave back.

use vstd::prelude::*;

use crate::session::{non_empty, opt_view};
use crate::text::{owned, trim, trimmed};

verus! {

broadcast use vstd::string::group_string_axioms;

/// What is written to the keychain.
#[derive(Debug)]
pub struct Persisted {
    pub refresh_token: Option<String>,
    pub access_token: Option<String>,
}

impl Clone for Persisted {
    fn clone(&self) -> (r: Self)
        ensures
            r == *self,
    {
        Persisted {
            refresh_token: match &self.refresh_token {
                Some(t) => Some(t.clone()),
                None => None,
            },
            access_token: match &self.access_token {
                Some(t) => Some(t.clone()),
                None => None,
            },
        }
    }
}

impl Persisted {
    /// A refresh token alone.
    pub fn refresh(refresh_token: String) -> (p: Self)
        ensures
            p.refresh_token == Some(refresh_token),
            p.access_token is None,
    {
        Persisted { refresh_token: Some(refresh_token), access_token: None }
    }

    /// An access token alone, for a session without a refresh token.
    pub fn access_only(access_token: String) -> (p: Self)
        ensures
            p.refresh_token is None,
            p.access_token == Some(access_token),
    {
        Persisted { refresh_token: None, access_token: Some(access_token) }
    }
}

/// A decoded keychain entry counts when either token is non-empty.
pub open spec fn holds_credentials(p: Persisted) -> bool {
    non_empty(p.refresh_token) || non_empty(p.access_token)
}

/// How a keychain secret is read: the decoded entry when it holds
/// credentials; else the secret itself, trimmed, is an older entry that held
/// a bare refresh token (`parsed` is the secret decoded as an entry, `None`
/// when it did not decode).
pub fn decode_secret(secret: &str, parsed: Option<Persisted>) -> (r: Option<Persisted>)
    ensures
        parsed is Some && holds_credentials(parsed->0) ==> r == parsed,
        !(parsed is Some && holds_credentials(parsed->0)) && trimmed(secret@).len() == 0 ==> r is None,
        !(parsed is Some && holds_credentials(parsed->0)) && trimmed(secret@).len() > 0 ==> r is Some
            && opt_view(r->0.refresh_token) == Some(trimmed(secret@)) && r->0.access_token is None,
{
    if let Some(stored) = parsed {
        let refresh_filled = match &stored.refresh_token {
            Some(t) => !t.as_str().is_empty(),
            None => false,
        };
        let access_filled = match &stored.access_token {
            Some(t) => !t.as_str().is_empty(),
            None => false,
        };
        if refresh_filled || access_filled {
            return Some(stored);
        }
    }
    let t = trim(secret);
    if t.is_empty() {
        None
    } else {
        Some(Persisted::refresh(owned(t)))
    }
}

/// The in-process state of the credential store.
#[derive(Debug)]
pub struct TokenStore {
    access: Option<String>,
    memory: Option<Persisted>,
}

/// What a read of the store finds: the keychain's entry, else the copy kept
/// in memory.
pub open spec fn found(keychain: Option<Persisted>, memory: Option<Persisted>) -> Option<Persisted> {
    if keychain is Some {
        keychain
    } else {
        memory
    }
}

/// The refresh token a found entry offers: its own when non-empty.
pub open spec fn offered_refresh(p: Option<Persisted>) -> Option<String> {
    match p {
        Some(x) => if non_empty(x.refresh_token) {
            x.refresh_token
        } else {
            None
        },
        None => None,
    }
}

impl TokenStore {
    /// The access token held in memory.
    pub closed spec fn access(&self) -> Option<String> {
        self.access
    }

    /// The copy of the last entry written to the keychain.
    pub closed spec fn memory(&self) -> Option<Persisted> {
        self.memory
    }

    /// A store that holds nothing.
    pub fn new() -> (s: Self)
        ensures
            s.access() is None,
            s.memory() is None,
    {
        TokenStore { access: None, memory: None }
    }

    /// `persisted`: the keychain's entry, else the copy in memory.
    pub fn persisted(&self, keychain: &Option<Persisted>) -> (p: Option<Persisted>)
        ensures
            p == found(*keychain, self.memory()),
    {
        match keychain {
            Some(k) => Some(k.clone()),
            None => match &self.memory {
                Some(m) => Some(m.clone()),
                None => None,
            },
        }
    }

    /// Whether a session can be restored: an entry is found, or an access
    /// token is held.
    pub fn has_credentials(&self, keychain: &Option<Persisted>) -> (b: bool)
        ensures
            b == (found(*keychain, self.memory()) is Some || self.access() is Some),
    {
        keychain.is_some() || self.memory.is_some() || self.access.is_some()
    }

    pub fn access_token(&self) -> (t: Option<String>)
        ensures
            t == self.access(),
    {
        match &self.access {
            Some(t) => Some(t.clone()),
            None => None,
        }
    }

    /// The refresh token of the entry found, when non-empty.
    pub fn refresh_token(&self, keychain: &Option<Persisted>) -> (t: Option<String>)
        ensures
            t == offered_refresh(found(*keychain, self.memory())),
    {
        let p = self.persisted(keychain);
        match p {
            Some(x) => match x.refresh_token {
                Some(t) => if t.as_str().is_empty() {
                    None
                } else {
                    Some(t)
                },
                None => None,
            },
            None => None,
        }
    }

    /// What reading the keychain does besides: an entry that carries an
    /// access token supplies it when none is held.
    pub fn adopt(&mut self, keychain: &Option<Persisted>)
        ensures
            final(self).memory() == old(self).memory(),
            final(self).access() == if old(self).access() is None && keychain is Some
                && keychain->0.access_token is Some {
                keychain->0.access_token
            } else {
                old(self).access()
            },
    {
        if self.access.is_none() {
            if let Some(k) = keychain {
                if let Some(a) = &k.access_token {
                    self.access = Some(a.clone());
                }
            }
        }
    }

    /// Keeps the access token in memory and says what to write to the
    /// keychain: the refresh token when GitHub issued a non-empty one;
    /// otherwise the access token, so that the next launch can restore the
    /// session.
    pub fn save_tokens(&mut self, access_token: String, refresh_token: Option<String>) -> (to_write: Persisted)
        ensures
            final(self).access() == Some(access_token),
            final(self).memory() == old(self).memory(),
            to_write == if non_empty(refresh_token) {
                Persisted::refresh_spec(refresh_token->0)
            } else {
                Persisted::access_only_spec(access_token)
            },
    {
        self.access = Some(access_token.clone());
        let filled = match &refresh_token {
            Some(t) => !t.as_str().is_empty(),
            None => false,
        };
        match refresh_token {
            Some(t) => if filled {
                Persisted::refresh(t)
            } else {
                Persisted::access_only(access_token)
            },
            None => Persisted::access_only(access_token),
        }
    }

    /// Keeps a copy of an entry once the keychain took it.
    pub fn remember(&mut self, written: Persisted)
        ensures
            final(self).memory() == Some(written),
            final(self).access() == old(self).access(),
    {
        self.memory = Some(written);
    }

    /// Forgets both tokens; the app deletes the keychain entry.
    pub fn clear(&mut self)
        ensures
            final(self).access() is None,
            final(self).memory() is None,
    {
        self.access = None;
        self.memory = None;
    }
}

impl Persisted {
    pub open spec fn refresh_spec(refresh_token: String) -> Persisted {
        Persisted { refresh_token: Some(refresh_token), access_token: None }
    }

    pub open spec fn access_only_spec(access_token: String) -> Persisted {
        Persisted { refresh_token: None, access_token: Some(access_token) }
    }
}

/// What is saved is read back: once the keychain took what `save_tokens`
/// asked to write, the store yields the new access token and, when GitHub
/// issued a non-empty refresh token, that refresh token; without one, the
/// written entry holds the access token, for the next launch to restore.
/// This holds even with the keychain out of reach.
pub proof fn law_saved_tokens_are_read_back(
    after_save: TokenStore,
    after_write: TokenStore,
    access_token: String,
    refresh_token: Option<String>,
    to_write: Persisted,
)
    requires
        after_save.access() == Some(access_token),
        to_write == if non_empty(refresh_token) {
            Persisted::refresh_spec(refresh_token->0)
        } else {
            Persisted::access_only_spec(access_token)
        },
        after_write.memory() == Some(to_write),
        after_write.access() == after_save.access(),
    ensures
        after_write.access() == Some(access_token),
        non_empty(refresh_token) ==> offered_refresh(found(None, after_write.memory())) == refresh_token,
        !non_empty(refresh_token) ==> found(None, after_write.memory()) == Some(
            Persisted::access_only_spec(access_token),
        ),
{
}

} // verus!
