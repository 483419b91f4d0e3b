//! Self-update at launch: whether it is switched off, and what the app says
//! and does at each step. Checking GitHub, downloading and installing the
//! release are done by the app.

use vstd::prelude::*;

use crate::text::{concat3, lower_seq, eq_ignore_ascii_case, owned, trim, trimmed};

verus! {

broadcast use vstd::string::group_string_axioms;

/// The environment variable that switches self-update off.
pub const DISABLE_ENV: &'static str = "ANGRY_HUB_DISABLE_AUTO_UPDATE";

/// The question asked before installing.
pub const PROMPT_DETAIL: &'static str = "Install this update? The app will restart.";

/// The answers offered; the first one installs.
pub const PROMPT_ANSWERS: [&'static str; 2] = ["Update", "Later"];

/// A value of the switch turns self-update off when, trimmed, it is `1`, or
/// `true` or `yes` in any ASCII case.
pub open spec fn switches_off(value: Seq<char>) -> bool {
    let t = trimmed(value);
    t == "1"@ || lower_seq(t) == lower_seq("true"@) || lower_seq(t) == lower_seq("yes"@)
}

/// `disabled`, given the switch's value (`None` when it is not set).
pub fn disabled_by(value: Option<&str>) -> (b: bool)
    ensures
        value is None ==> !b,
        value is Some ==> b == switches_off(value->0@),
{
    match value {
        Some(v) => {
            let t = trim(v);
            owned(t) == owned("1") || eq_ignore_ascii_case(t, "true") || eq_ignore_ascii_case(t, "yes")
        },
        None => false,
    }
}

/// What the app does once the check for a newer release came back.
#[derive(Debug)]
pub enum CheckOutcome {
    /// No newer release: nothing to say.
    UpToDate,
    /// Ask whether to install, with this message.
    Offer(String),
    /// Tell the user, with this notification.
    Failed(String),
}

/// After the check: offer a newer version, stay silent without one, or
/// report that the check failed.
pub fn after_check(result: Result<Option<String>, String>) -> (o: CheckOutcome)
    ensures
        match result {
            Ok(Some(v)) => o is Offer && o->Offer_0@ == "Angry Hub "@ + v@ + " is available."@,
            Ok(None) => o is UpToDate,
            Err(e) => o is Failed && o->Failed_0@ == "Couldn't check for updates: "@ + e@,
        },
{
    match result {
        Ok(Some(version)) => CheckOutcome::Offer(concat3("Angry Hub ", version.as_str(), " is available.")),
        Ok(None) => CheckOutcome::UpToDate,
        Err(error) => {
            proof {
                reveal_strlit("");
            }
            CheckOutcome::Failed(concat3("Couldn't check for updates: ", error.as_str(), ""))
        },
    }
}

/// Whether the answer to the prompt installs: only the first answer does;
/// a dismissed prompt (`None`) does not.
pub fn should_install(answer: Option<usize>) -> (b: bool)
    ensures
        b == (answer == Some(0usize)),
{
    match answer {
        Some(a) => a == 0,
        None => false,
    }
}

/// The notification after a failed installation.
pub fn install_failed(error: &str) -> (s: String)
    ensures
        s@ == "Update failed: "@ + error@,
{
    proof {
        reveal_strlit("");
    }
    concat3("Update failed: ", error, "")
}

/// The notification after an installation whose restart failed.
pub fn restart_failed(error: &str) -> (s: String)
    ensures
        s@ == "Updated, but restart failed: "@ + error@,
{
    proof {
        reveal_strlit("");
    }
    concat3("Updated, but restart failed: ", error, "")
}

} // verus!
