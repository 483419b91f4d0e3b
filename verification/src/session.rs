//! The tokens of the current GitHub session.

use vstd::prelude::*;

verus! {

/// A token pair as GitHub issues it.
#[derive(Debug, PartialEq, Eq)]
pub struct Tokens {
    pub access_token: String,
    pub refresh_token: Option<String>,
}

impl Clone for Tokens {
    fn clone(&self) -> (r: Self)
        ensures
            r == *self,
    {
        Tokens {
            access_token: self.access_token.clone(),
            refresh_token: match &self.refresh_token {
                Some(t) => Some(t.clone()),
                None => None,
            },
        }
    }
}

/// The view of an optional string.
pub open spec fn opt_view(s: Option<String>) -> Option<Seq<char>> {
    match s {
        Some(t) => Some(t@),
        None => None,
    }
}

/// Whether `s` is present and non-empty: the refresh tokens that count.
pub open spec fn non_empty(s: Option<String>) -> bool {
    s is Some && s->0@.len() > 0
}

/// The tokens of the session; either may be absent.
#[derive(Debug, PartialEq, Eq)]
pub struct Session {
    access_token: Option<String>,
    refresh_token: Option<String>,
}

impl Default for Session {
    fn default() -> (s: Self)
        ensures
            s.access_view() is None,
            s.refresh_view() is None,
    {
        Session { access_token: None, refresh_token: None }
    }
}

impl Session {
    /// The stored access token.
    pub closed spec fn access_view(&self) -> Option<Seq<char>> {
        opt_view(self.access_token)
    }

    /// The stored refresh token.
    pub closed spec fn refresh_view(&self) -> Option<Seq<char>> {
        opt_view(self.refresh_token)
    }

    /// An empty session.
    pub fn new() -> (s: Self)
        ensures
            s.access_view() is None,
            s.refresh_view() is None,
    {
        Self::default()
    }

    /// Takes the access token of `tokens`. Its refresh token replaces the stored
    /// one only when present and non-empty; otherwise the stored one stays.
    pub fn store(&mut self, tokens: Tokens)
        ensures
            final(self).access_view() == Some(tokens.access_token@),
            final(self).refresh_view() == if non_empty(tokens.refresh_token) {
                opt_view(tokens.refresh_token)
            } else {
                old(self).refresh_view()
            },
    {
        self.access_token = Some(tokens.access_token);
        match tokens.refresh_token {
            Some(refresh_token) => {
                if !refresh_token.as_str().is_empty() {
                    self.refresh_token = Some(refresh_token);
                }
            },
            None => {},
        }
    }

    /// Drops both tokens.
    pub fn clear(&mut self)
        ensures
            final(self).access_view() is None,
            final(self).refresh_view() is None,
    {
        self.access_token = None;
        self.refresh_token = None;
    }

    /// The access token, if any.
    pub fn access_token(&self) -> (r: Option<&str>)
        ensures
            match r {
                Some(t) => self.access_view() == Some(t@),
                None => self.access_view() is None,
            },
    {
        match &self.access_token {
            Some(t) => Some(t.as_str()),
            None => None,
        }
    }

    /// The refresh token, if any.
    pub fn refresh_token(&self) -> (r: Option<&str>)
        ensures
            match r {
                Some(t) => self.refresh_view() == Some(t@),
                None => self.refresh_view() is None,
            },
    {
        match &self.refresh_token {
            Some(t) => Some(t.as_str()),
            None => None,
        }
    }
}

} // verus!
