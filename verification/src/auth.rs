//! Whether the user is logged in, and the store of the session's
//! credentials.

pub mod store;

use vstd::prelude::*;

verus! {

/// Login state of the app.
pub struct Auth {
    logged_in: bool,
}

impl Auth {
    /// Whether the user is logged in, as a spec value.
    pub closed spec fn logged_in(&self) -> bool {
        self.logged_in
    }

    /// A fresh state: logged out.
    pub fn new() -> (a: Self)
        ensures
            !a.logged_in(),
    {
        Self { logged_in: false }
    }

    /// Marks the user as logged in, whatever the state before.
    pub fn login(&mut self)
        ensures
            final(self).logged_in(),
    {
        self.logged_in = true;
    }

    /// Marks the user as logged out, whatever the state before.
    pub fn logout(&mut self)
        ensures
            !final(self).logged_in(),
    {
        self.logged_in = false;
    }

    /// Whether the user is logged in.
    pub fn check(&self) -> (b: bool)
        ensures
            b == self.logged_in(),
    {
        self.logged_in
    }
}

} // verus!
