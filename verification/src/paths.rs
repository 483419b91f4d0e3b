//! Which folder the app keeps its data in.

use vstd::prelude::*;

verus! {

/// The name of the Application Support folder for this build: a debug build
/// uses `Angry Hub Dev`; a release build uses the name it was configured
/// with at build time, else `Angry Hub`.
pub fn support_dir_name<'a>(debug: bool, configured: Option<&'a str>) -> (name: &'a str)
    ensures
        debug ==> name@ == "Angry Hub Dev"@,
        !debug && configured is Some ==> name == configured->0,
        !debug && configured is None ==> name@ == "Angry Hub"@,
{
    if debug {
        "Angry Hub Dev"
    } else {
        match configured {
            Some(n) => n,
            None => "Angry Hub",
        }
    }
}

} // verus!
